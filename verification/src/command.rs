//! What the user asked for.

use vstd::prelude::*;
use crate::types::{Device, SpiPins};

verus! {

/// The operation to carry out on the external flash.
#[allow(inconsistent_fields)]
#[derive(Clone, Copy, Debug, PartialEq, Eq)]
pub enum Subcommand {
    /// Report the flash part.
    Info,
    /// Erase the sectors of a range.
    SectorErase { offset: u32, length: u32 },
    /// Erase the whole part.
    MassErase,
    /// Read a range.
    Read { offset: u32, length: u32 },
    /// Write the input from `offset` on. With `length`, exactly that many
    /// bytes of the input are written; without, all of it. `in_place`
    /// writes without erasing; otherwise the sectors that the range touches
    /// are erased and rewritten with their other bytes kept. `verify` reads
    /// back what was written and compares.
    Write { verify: bool, in_place: bool, offset: u32, length: Option<u32> },
}

/// A complete request: how to reach the target, and what to do there.
#[derive(Clone, Debug, PartialEq, Eq)]
pub struct Command {
    /// Where the debug tooling is installed.
    pub ccs_path: String,
    /// The trace level of the debug backend, by name.
    pub log_dss: String,
    /// Serial number of the debug probe.
    pub xds_id: String,
    pub device_kind: Device,
    /// The SPI pins of the flash, where they differ from the firmware's own.
    pub spi_pins: Option<SpiPins>,
    pub subcommand: Subcommand,
}

} // verus!
