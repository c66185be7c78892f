//! Host-side protocol engine for programming the external SPI flash of a
//! CC13xx/CC26xx device through a resident firmware and its doorbell mailbox.
//!
//! The library never touches the debug probe itself. Every operation is a
//! resumable machine: it names one [`dss::Request`] at a time, the caller
//! performs it on the target and hands back the [`dss::Reply`].

pub mod assets;
pub mod command;
pub mod doorbell;
pub mod dss;
pub mod firmware;
pub mod flash_rover;
pub mod job;
pub mod layout;
pub mod model;
pub mod text;
pub mod types;
pub mod xflash;
