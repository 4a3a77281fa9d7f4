//! The BIOS: 16 KiB that can be read and never written.

use vstd::prelude::*;
use crate::bus::{Addressable, DeviceModel, BIOS_SIZE};
use crate::error::CoreError;

verus! {

/// The BIOS image.
#[derive(Debug)]
pub struct Bios(pub [u8; 0x4000]);

impl View for Bios {
    type V = DeviceModel;

    open spec fn view(&self) -> DeviceModel {
        DeviceModel::Bios(self.0@)
    }
}

impl Bios {
    /// Takes a BIOS image. An image of any length but 16 KiB is refused.
    pub fn new(image: &Vec<u8>) -> (result: Result<Bios, CoreError>)
        ensures
            image@.len() == BIOS_SIZE ==> result is Ok && result->Ok_0@ == DeviceModel::Bios(
                image@,
            ),
            image@.len() != BIOS_SIZE ==> result == Err::<Bios, CoreError>(
                CoreError::BiosSizeMismatch,
            ),
    {
        if image.len() != BIOS_SIZE {
            return Err(CoreError::BiosSizeMismatch);
        }
        let mut data = [0u8; 0x4000];
        let mut i: usize = 0;
        while i < BIOS_SIZE
            invariant
                i <= BIOS_SIZE,
                image@.len() == BIOS_SIZE,
                forall|j: int| 0 <= j < i ==> data@[j] == image@[j],
            decreases BIOS_SIZE - i,
        {
            data[i] = image[i];
            i += 1;
        }
        assert(data@ =~= image@);
        Ok(Bios(data))
    }
}

impl Addressable for Bios {
    fn read_byte(&mut self, address: u32) -> (data: u8) {
        self.0[address as usize]
    }

    /// The BIOS is read-only: every write is refused.
    fn write_byte(&mut self, address: u32, _data: u8) -> (result: Result<(), CoreError>) {
        Err(CoreError::InvalidRegion(address))
    }
}

} // verus!
