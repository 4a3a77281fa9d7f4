//! The system flags: the interrupt master enable and the post-boot flag, one
//! byte each.

use vstd::prelude::*;
use crate::bus::{Addressable, DeviceModel, INTERRUPT_MASTER_ENABLE, POST_BOOT};
use crate::error::CoreError;

verus! {

/// The flags that software sets and reads through the bus.
#[derive(Debug)]
pub struct SystemIoFlags {
    pub post_boot: bool,
    pub interrupt_master_enable: bool,
}

impl View for SystemIoFlags {
    type V = DeviceModel;

    open spec fn view(&self) -> DeviceModel {
        DeviceModel::SystemIo {
            post_boot: self.post_boot,
            interrupt_master_enable: self.interrupt_master_enable,
        }
    }
}

impl Default for SystemIoFlags {
    fn default() -> (flags: SystemIoFlags)
        ensures
            !flags.post_boot,
            !flags.interrupt_master_enable,
    {
        SystemIoFlags { post_boot: false, interrupt_master_enable: false }
    }
}

impl Addressable for SystemIoFlags {
    /// A flag reads as 1 or 0; every other address reads as 0.
    fn read_byte(&mut self, address: u32) -> (data: u8) {
        if address == INTERRUPT_MASTER_ENABLE {
            if self.interrupt_master_enable {
                1
            } else {
                0
            }
        } else if address == POST_BOOT {
            if self.post_boot {
                1
            } else {
                0
            }
        } else {
            0
        }
    }

    /// A flag is set by any byte but 0; a write anywhere else is refused.
    fn write_byte(&mut self, address: u32, data: u8) -> (result: Result<(), CoreError>) {
        if address == INTERRUPT_MASTER_ENABLE {
            self.interrupt_master_enable = data > 0;
            Ok(())
        } else if address == POST_BOOT {
            self.post_boot = data > 0;
            Ok(())
        } else {
            Err(CoreError::InvalidRegion(address))
        }
    }
}

} // verus!
