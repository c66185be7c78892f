//! The fixed address map shared with the resident firmware.

use vstd::prelude::*;

verus! {

/// Base of the loaded firmware image in target SRAM.
pub const SRAM_START: u32 = 0x2000_0000;

/// Word 0 of the image: the initial stack pointer.
pub const STACK_ADDR: u32 = SRAM_START;

/// Word 1 of the image: the reset vector.
pub const RESET_ISR: u32 = SRAM_START + 0x04;

/// Base of the five-word SPI pin configuration block.
pub const CONF_START: u32 = 0x2000_3000;

/// Nonzero where the pins that follow are to be used.
pub const CONF_VALID: u32 = CONF_START;

/// DIO number of MISO.
pub const CONF_SPI_MISO: u32 = CONF_START + 0x04;

/// DIO number of MOSI.
pub const CONF_SPI_MOSI: u32 = CONF_START + 0x08;

/// DIO number of CLK.
pub const CONF_SPI_CLK: u32 = CONF_START + 0x0C;

/// DIO number of CSN.
pub const CONF_SPI_CSN: u32 = CONF_START + 0x10;

/// Base of the doorbell mailbox.
pub const DOORBELL_START: u32 = 0x2000_3100;

/// Command kind word; nonzero while a command is pending.
pub const DOORBELL_CMD_KIND: u32 = DOORBELL_START;

/// First command argument.
pub const DOORBELL_CMD_ARG0: u32 = DOORBELL_START + 0x04;

/// Second command argument.
pub const DOORBELL_CMD_ARG1: u32 = DOORBELL_START + 0x08;

/// Third command argument, always zero.
pub const DOORBELL_CMD_ARG2: u32 = DOORBELL_START + 0x0C;

/// Response kind word; nonzero once a response is ready.
pub const DOORBELL_RSP_KIND: u32 = DOORBELL_START + 0x10;

/// First response value.
pub const DOORBELL_RSP_VAL0: u32 = DOORBELL_START + 0x14;

/// Second response value.
pub const DOORBELL_RSP_VAL1: u32 = DOORBELL_START + 0x18;

/// Third response value.
pub const DOORBELL_RSP_VAL2: u32 = DOORBELL_START + 0x1C;

/// Start of the staging buffer for bulk payloads.
pub const BUF_START: u32 = 0x2000_4000;

/// Capacity of the staging buffer, which is also the flash sector size.
pub const BUF_SIZE: u32 = 0x1000;

/// Size of a flash sector, the unit of erasure.
pub const SECTOR_SIZE: u32 = 0x1000;

/// Value loaded into the link register before the firmware is started.
pub const LINK_SENTINEL: u32 = 0xFFFF_FFFF;

} // verus!
