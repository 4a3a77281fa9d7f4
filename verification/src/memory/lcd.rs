//! The display as the bus sees it: it reads as zero and takes every write.

use vstd::prelude::*;
use crate::bus::{Addressable, DeviceModel};
use crate::error::CoreError;

verus! {

/// The display registers.
#[derive(Debug)]
pub struct Lcd {}

impl View for Lcd {
    type V = DeviceModel;

    open spec fn view(&self) -> DeviceModel {
        DeviceModel::Lcd
    }
}

impl Default for Lcd {
    fn default() -> (lcd: Lcd) {
        Lcd {  }
    }
}

impl Addressable for Lcd {
    fn read_byte(&mut self, _address: u32) -> (data: u8) {
        0
    }

    fn write_byte(&mut self, _address: u32, _data: u8) -> (result: Result<(), CoreError>) {
        Ok(())
    }
}

} // verus!
