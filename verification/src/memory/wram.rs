//! Work RAM: a buffer that starts at a configured address and wraps around at
//! its length.

use vstd::prelude::*;
use crate::bus::{Addressable, DeviceModel};
use crate::error::CoreError;

verus! {

/// Work RAM.
#[derive(Debug)]
pub struct Wram {
    pub start_address: u32,
    pub container: Vec<u8>,
}

impl View for Wram {
    type V = DeviceModel;

    open spec fn view(&self) -> DeviceModel {
        DeviceModel::Wram { start: self.start_address, bytes: self.container@ }
    }
}

impl Wram {
    /// RAM of `size` zero bytes whose first byte is at `start_address`.
    pub fn new(start_address: u32, size: usize) -> (ram: Wram)
        requires
            size > 0,
        ensures
            ram@ == (DeviceModel::Wram { start: start_address, bytes: Seq::new(size as nat, |i: int| 0u8) }),
            ram@.wf(),
    {
        let ram = Wram { start_address, container: vec![0u8; size] };
        assert(ram.container@ =~= Seq::new(size as nat, |i: int| 0u8));
        ram
    }

    /// The place in the buffer that an address stands for.
    pub fn virtual_address(&self, address: u32) -> (cell: usize)
        requires
            self@.wf(),
            self@.serves(address),
        ensures
            cell == DeviceModel::wram_cell(self.start_address, self.container@.len(), address),
            cell < self.container@.len(),
    {
        ((address - self.start_address) as usize) % self.container.len()
    }
}

impl Addressable for Wram {
    fn read_byte(&mut self, address: u32) -> (data: u8) {
        let cell = self.virtual_address(address);
        self.container[cell]
    }

    fn write_byte(&mut self, address: u32, data: u8) -> (result: Result<(), CoreError>) {
        let cell = self.virtual_address(address);
        self.container[cell] = data;
        Ok(())
    }
}

} // verus!
