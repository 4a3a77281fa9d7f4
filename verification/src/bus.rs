//! The memory bus: an ordered list of address ranges, each served by one
//! device. An access goes to the first range that holds its address; wider
//! accesses are made of byte accesses in little-endian order.

use vstd::prelude::*;
use vstd::std_specs::range::RangeInclusiveView;
use core::ops::RangeInclusive;
use crate::bits::{rotate_right, rotate_right_spec, wrapping_add_spec};
use crate::error::CoreError;
use crate::memory::bios::Bios;
use crate::memory::lcd::Lcd;
use crate::memory::system_io::SystemIoFlags;
use crate::memory::wram::Wram;

verus! {

/// Address of the interrupt master enable flag.
pub const INTERRUPT_MASTER_ENABLE: u32 = 0x0400_0208;

/// Address of the flag that the BIOS sets once it has booted.
pub const POST_BOOT: u32 = 0x0400_0300;

/// Length of the BIOS image in bytes.
pub const BIOS_SIZE: usize = 0x4000;

/// What a device holds, as far as the bus can tell.
pub enum DeviceModel {
    /// The read-only BIOS image.
    Bios(Seq<u8>),
    /// Work RAM: its first address and its bytes.
    Wram { start: u32, bytes: Seq<u8> },
    /// The two system flags.
    SystemIo { post_boot: bool, interrupt_master_enable: bool },
    /// The display, which keeps nothing.
    Lcd,
}

impl DeviceModel {
    /// The BIOS holds exactly 16 KiB; work RAM holds at least one byte.
    pub open spec fn wf(self) -> bool {
        match self {
            DeviceModel::Bios(bytes) => bytes.len() == BIOS_SIZE,
            DeviceModel::Wram { start, bytes } => 0 < bytes.len() <= usize::MAX,
            DeviceModel::SystemIo { .. } => true,
            DeviceModel::Lcd => true,
        }
    }

    /// The addresses at which the device may be accessed: the BIOS below its
    /// length, work RAM from its first address on, the others anywhere.
    pub open spec fn serves(self, address: u32) -> bool {
        match self {
            DeviceModel::Bios(bytes) => address < bytes.len(),
            DeviceModel::Wram { start, bytes } => start <= address,
            DeviceModel::SystemIo { .. } => true,
            DeviceModel::Lcd => true,
        }
    }

    /// The cell of work RAM behind an address: the offset from the first
    /// address, modulo the length.
    pub open spec fn wram_cell(start: u32, length: nat, address: u32) -> int {
        (address - start) % (length as int)
    }

    /// The byte that a read at `address` returns.
    pub open spec fn read(self, address: u32) -> u8 {
        match self {
            DeviceModel::Bios(bytes) => bytes[address as int],
            DeviceModel::Wram { start, bytes } => bytes[Self::wram_cell(
                start,
                bytes.len(),
                address,
            )],
            DeviceModel::SystemIo { post_boot, interrupt_master_enable } => if address
                == INTERRUPT_MASTER_ENABLE {
                if interrupt_master_enable {
                    1
                } else {
                    0
                }
            } else if address == POST_BOOT {
                if post_boot {
                    1
                } else {
                    0
                }
            } else {
                0
            },
            DeviceModel::Lcd => 0,
        }
    }

    /// The device after a write of `data` at `address`, and whether the write
    /// was taken. A refused write changes nothing.
    pub open spec fn write(self, address: u32, data: u8) -> (DeviceModel, Result<(), CoreError>) {
        match self {
            DeviceModel::Bios(bytes) => (self, Err(CoreError::InvalidRegion(address))),
            DeviceModel::Wram { start, bytes } => (
                DeviceModel::Wram {
                    start,
                    bytes: bytes.update(Self::wram_cell(start, bytes.len(), address), data),
                },
                Ok(()),
            ),
            DeviceModel::SystemIo { post_boot, interrupt_master_enable } => if address
                == INTERRUPT_MASTER_ENABLE {
                (DeviceModel::SystemIo { post_boot, interrupt_master_enable: data > 0 }, Ok(()))
            } else if address == POST_BOOT {
                (DeviceModel::SystemIo { post_boot: data > 0, interrupt_master_enable }, Ok(()))
            } else {
                (self, Err(CoreError::InvalidRegion(address)))
            },
            DeviceModel::Lcd => (self, Ok(())),
        }
    }
}

/// What the bus asks of a device: one byte in, one byte out.
pub trait Addressable: View<V = DeviceModel> {
    fn read_byte(&mut self, address: u32) -> (data: u8)
        requires
            old(self)@.wf(),
            old(self)@.serves(address),
        ensures
            final(self)@ == old(self)@,
            data == old(self)@.read(address),
    ;

    fn write_byte(&mut self, address: u32, data: u8) -> (result: Result<(), CoreError>)
        requires
            old(self)@.wf(),
            old(self)@.serves(address),
        ensures
            final(self)@ == old(self)@.write(address, data).0,
            result == old(self)@.write(address, data).1,
            final(self)@.wf(),
    ;
}

/// The devices that can be put on the bus.
pub enum Device {
    Bios(Bios),
    Wram(Wram),
    SystemIo(SystemIoFlags),
    Lcd(Lcd),
}

impl View for Device {
    type V = DeviceModel;

    open spec fn view(&self) -> DeviceModel {
        match self {
            Device::Bios(device) => device@,
            Device::Wram(device) => device@,
            Device::SystemIo(device) => device@,
            Device::Lcd(device) => device@,
        }
    }
}

impl Addressable for Device {
    fn read_byte(&mut self, address: u32) -> (data: u8) {
        match self {
            Device::Bios(device) => device.read_byte(address),
            Device::Wram(device) => device.read_byte(address),
            Device::SystemIo(device) => device.read_byte(address),
            Device::Lcd(device) => device.read_byte(address),
        }
    }

    fn write_byte(&mut self, address: u32, data: u8) -> (result: Result<(), CoreError>) {
        match self {
            Device::Bios(device) => device.write_byte(address, data),
            Device::Wram(device) => device.write_byte(address, data),
            Device::SystemIo(device) => device.write_byte(address, data),
            Device::Lcd(device) => device.write_byte(address, data),
        }
    }
}

/// One entry of the memory map as the bus model sees it.
pub struct MappingModel {
    pub region: RangeInclusiveView<u32>,
    pub device: DeviceModel,
}

impl MappingModel {
    /// Whether the entry's range holds `address`. A range that has been
    /// walked to its end no longer holds its last address.
    pub open spec fn covers(self, address: u32) -> bool {
        self.region.start <= address && if self.region.exhausted {
            address < self.region.end
        } else {
            address <= self.region.end
        }
    }

    /// The device is sound and may be accessed at every address of the range.
    pub open spec fn wf(self) -> bool {
        &&& self.device.wf()
        &&& forall|address: u32| self.covers(address) ==> #[trigger] self.device.serves(address)
    }
}

/// The memory map as a value: the entries in the order of registration.
pub struct BusModel {
    pub mappings: Seq<MappingModel>,
}

/// The first entry at or after `from` that covers `address`.
pub open spec fn first_match(mappings: Seq<MappingModel>, address: u32, from: int) -> Option<int>
    decreases mappings.len() - from,
{
    if from < 0 || from >= mappings.len() {
        None
    } else if mappings[from].covers(address) {
        Some(from)
    } else {
        first_match(mappings, address, from + 1)
    }
}

/// The bytes of a 32-bit word, least significant first.
pub open spec fn dword_bytes(data: u32) -> Seq<u8> {
    seq![data as u8, (data >> 8) as u8, (data >> 16) as u8, (data >> 24) as u8]
}

/// The bytes of a 16-bit word, least significant first.
pub open spec fn word_bytes(data: u16) -> Seq<u8> {
    seq![data as u8, (data >> 8) as u8]
}

/// The 16-bit word made of two bytes, least significant first.
pub open spec fn word_of(low: u8, high: u8) -> u16 {
    (low as u16) | ((high as u16) << 8)
}

/// The 32-bit word made of two 16-bit words, least significant first.
pub open spec fn dword_of(low: u16, high: u16) -> u32 {
    (low as u32) | ((high as u32) << 16)
}

impl BusModel {
    pub open spec fn wf(self) -> bool {
        forall|i: int| 0 <= i < self.mappings.len() ==> #[trigger] self.mappings[i].wf()
    }

    /// The entry that takes an access at `address`: the first that covers it.
    pub open spec fn route(self, address: u32) -> Option<int> {
        first_match(self.mappings, address, 0)
    }

    /// The map with one more entry at its end.
    pub open spec fn with_mapping(self, mapping: MappingModel) -> BusModel {
        BusModel { mappings: self.mappings.push(mapping) }
    }

    /// What a byte read at `address` gives: the byte of the device that the
    /// address is routed to, or a fault where no entry covers it.
    pub open spec fn read_byte(self, address: u32) -> Result<u8, CoreError> {
        match self.route(address) {
            Some(i) => Ok(self.mappings[i].device.read(address)),
            None => Err(CoreError::InvalidRegion(address)),
        }
    }

    /// What a 16-bit read gives: the byte at `address` below the byte that
    /// follows it, or the fault of the first of the two reads that fails.
    pub open spec fn read_word(self, address: u32) -> Result<u16, CoreError> {
        match self.read_byte(address) {
            Err(e) => Err(e),
            Ok(low) => match self.read_byte(wrapping_add_spec(address, 1)) {
                Err(e) => Err(e),
                Ok(high) => Ok(word_of(low, high)),
            },
        }
    }

    /// What a 32-bit read gives: the 16-bit word at `address` below the one
    /// two bytes on, or the fault of the first read that fails.
    pub open spec fn read_dword(self, address: u32) -> Result<u32, CoreError> {
        match self.read_word(address) {
            Err(e) => Err(e),
            Ok(low) => match self.read_word(wrapping_add_spec(address, 2)) {
                Err(e) => Err(e),
                Ok(high) => Ok(dword_of(low, high)),
            },
        }
    }

    /// What a 32-bit load gives: the word at the aligned address below
    /// `address`, rotated right by eight places for each byte that `address`
    /// lies above it.
    pub open spec fn read_dword_rotated(self, address: u32) -> Result<u32, CoreError> {
        match self.read_dword(address & 0xFFFF_FFFC) {
            Err(e) => Err(e),
            Ok(data) => Ok(rotate_right_spec(data, ((address & 3) * 8) as u32)),
        }
    }

    /// The map after a byte write, and its outcome: the device that the
    /// address is routed to takes or refuses the byte; where no entry covers
    /// the address the write is a fault and nothing changes.
    pub open spec fn write_byte(self, address: u32, data: u8) -> (BusModel, Result<(), CoreError>) {
        match self.route(address) {
            Some(i) => {
                let (device, result) = self.mappings[i].device.write(address, data);
                (
                    BusModel {
                        mappings: self.mappings.update(
                            i,
                            MappingModel { region: self.mappings[i].region, device },
                        ),
                    },
                    result,
                )
            },
            None => (self, Err(CoreError::InvalidRegion(address))),
        }
    }

    /// The map after a 16-bit write: the low byte goes first; if it is
    /// refused the high byte is not written.
    pub open spec fn write_word(self, address: u32, data: u16) -> (BusModel, Result<(), CoreError>) {
        let (first, result) = self.write_byte(address, data as u8);
        if result is Err {
            (first, result)
        } else {
            first.write_byte(wrapping_add_spec(address, 1), (data >> 8) as u8)
        }
    }

    /// The map after a 32-bit write: the low half goes first; if any byte is
    /// refused the bytes after it are not written.
    pub open spec fn write_dword(self, address: u32, data: u32) -> (BusModel, Result<(), CoreError>) {
        let (first, result) = self.write_word(address, data as u16);
        if result is Err {
            (first, result)
        } else {
            first.write_word(wrapping_add_spec(address, 2), (data >> 16) as u16)
        }
    }
}

/// One entry of the memory map: a range of addresses and the device behind
/// it.
pub struct MemoryMapping {
    pub region: RangeInclusive<u32>,
    pub component: Device,
}

impl View for MemoryMapping {
    type V = MappingModel;

    open spec fn view(&self) -> MappingModel {
        MappingModel { region: self.region@, device: self.component@ }
    }
}

/// The memory bus: the entries of the memory map in the order in which they
/// were registered.
pub struct Bus {
    pub regions: Vec<MemoryMapping>,
}

impl View for Bus {
    type V = BusModel;

    open spec fn view(&self) -> BusModel {
        BusModel { mappings: Seq::new(self.regions@.len(), |i: int| self.regions@[i]@) }
    }
}

impl Default for Bus {
    fn default() -> (bus: Bus)
        ensures
            bus@.mappings.len() == 0,
            bus@.wf(),
    {
        Bus { regions: Vec::new() }
    }
}

impl Bus {
    /// Puts a device on the bus behind every entry registered so far.
    pub fn register_region(&mut self, region: RangeInclusive<u32>, component: Device)
        requires
            (MappingModel { region: region@, device: component@ }).wf(),
            old(self)@.wf(),
        ensures
            final(self)@ == old(self)@.with_mapping(
                MappingModel { region: region@, device: component@ },
            ),
            final(self)@.wf(),
    {
        self.regions.push(MemoryMapping { region, component });
        assert(self@.mappings =~= old(self)@.mappings.push(
            MappingModel { region: region@, device: component@ },
        ));
    }

    pub fn read_byte(&mut self, address: u32) -> (result: Result<u8, CoreError>)
        requires
            old(self)@.wf(),
        ensures
            final(self)@ == old(self)@,
            result == old(self)@.read_byte(address),
    {
        let mut i: usize = 0;
        while i < self.regions.len()
            invariant
                i <= self.regions@.len(),
                self@ == old(self)@,
                self@.wf(),
                first_match(self@.mappings, address, 0) == first_match(
                    self@.mappings,
                    address,
                    i as int,
                ),
            decreases self.regions@.len() - i,
        {
            if self.regions[i].region.contains(&address) {
                let ghost before = self@;
                assert(before.mappings[i as int].wf());
                let data = self.regions[i].component.read_byte(address);
                assert(self@.mappings =~= before.mappings);
                return Ok(data);
            }
            i += 1;
        }
        Err(CoreError::InvalidRegion(address))
    }

    pub fn read_word(&mut self, address: u32) -> (result: Result<u16, CoreError>)
        requires
            old(self)@.wf(),
        ensures
            final(self)@ == old(self)@,
            result == old(self)@.read_word(address),
    {
        let low = match self.read_byte(address) {
            Ok(byte) => byte,
            Err(e) => { return Err(e); },
        };
        let high = match self.read_byte(address.wrapping_add(1)) {
            Ok(byte) => byte,
            Err(e) => { return Err(e); },
        };
        Ok((low as u16) | ((high as u16) << 8))
    }

    pub fn read_dword(&mut self, address: u32) -> (result: Result<u32, CoreError>)
        requires
            old(self)@.wf(),
        ensures
            final(self)@ == old(self)@,
            result == old(self)@.read_dword(address),
    {
        let low = match self.read_word(address) {
            Ok(word) => word,
            Err(e) => { return Err(e); },
        };
        let high = match self.read_word(address.wrapping_add(2)) {
            Ok(word) => word,
            Err(e) => { return Err(e); },
        };
        Ok((low as u32) | ((high as u32) << 16))
    }

    /// A 32-bit load as the processor makes it: from the aligned address,
    /// with the word rotated so that the addressed byte comes lowest.
    pub fn read_dword_rotated(&mut self, address: u32) -> (result: Result<u32, CoreError>)
        requires
            old(self)@.wf(),
        ensures
            final(self)@ == old(self)@,
            result == old(self)@.read_dword_rotated(address),
    {
        let data = match self.read_dword(address & 0xFFFF_FFFC) {
            Ok(data) => data,
            Err(e) => { return Err(e); },
        };
        proof {
            lemma_low_two_bits(address);
        }
        Ok(rotate_right(data, (address & 3) * 8))
    }

    pub fn write_byte(&mut self, address: u32, data: u8) -> (result: Result<(), CoreError>)
        requires
            old(self)@.wf(),
        ensures
            final(self)@ == old(self)@.write_byte(address, data).0,
            result == old(self)@.write_byte(address, data).1,
            final(self)@.wf(),
    {
        let mut i: usize = 0;
        while i < self.regions.len()
            invariant
                i <= self.regions@.len(),
                self@ == old(self)@,
                self@.wf(),
                first_match(self@.mappings, address, 0) == first_match(
                    self@.mappings,
                    address,
                    i as int,
                ),
            decreases self.regions@.len() - i,
        {
            if self.regions[i].region.contains(&address) {
                let ghost before = self@;
                assert(before.mappings[i as int].wf());
                let result = self.regions[i].component.write_byte(address, data);
                assert(self@.mappings =~= before.write_byte(address, data).0.mappings);
                assert forall|j: int| 0 <= j < self@.mappings.len() implies #[trigger]
                    self@.mappings[j].wf() by {
                    if j != i {
                        assert(before.mappings[j].wf());
                    } else {
                        lemma_write_keeps_service(before.mappings[j], address, data);
                    }
                }
                return result;
            }
            i += 1;
        }
        Err(CoreError::InvalidRegion(address))
    }

    pub fn write_word(&mut self, address: u32, data: u16) -> (result: Result<(), CoreError>)
        requires
            old(self)@.wf(),
        ensures
            final(self)@ == old(self)@.write_word(address, data).0,
            result == old(self)@.write_word(address, data).1,
            final(self)@.wf(),
    {
        match self.write_byte(address, data as u8) {
            Ok(()) => {},
            Err(e) => { return Err(e); },
        }
        self.write_byte(address.wrapping_add(1), (data >> 8) as u8)
    }

    pub fn write_dword(&mut self, address: u32, data: u32) -> (result: Result<(), CoreError>)
        requires
            old(self)@.wf(),
        ensures
            final(self)@ == old(self)@.write_dword(address, data).0,
            result == old(self)@.write_dword(address, data).1,
            final(self)@.wf(),
    {
        match self.write_word(address, data as u16) {
            Ok(()) => {},
            Err(e) => { return Err(e); },
        }
        self.write_word(address.wrapping_add(2), (data >> 16) as u16)
    }
}

proof fn lemma_low_two_bits(address: u32)
    by (bit_vector)
    ensures
        address & 3 <= 3,
        (address & 3) * 8 <= 24,
{
}

/// A write changes neither the addresses that a device serves nor whether it
/// is sound.
pub proof fn lemma_write_keeps_service(mapping: MappingModel, address: u32, data: u8)
    requires
        mapping.wf(),
        mapping.device.serves(address),
    ensures
        (MappingModel { region: mapping.region, device: mapping.device.write(address, data).0 }).wf(),
{
    let after = MappingModel {
        region: mapping.region,
        device: mapping.device.write(address, data).0,
    };
    assert forall|a: u32| after.covers(a) implies #[trigger] after.device.serves(a) by {
        assert(mapping.covers(a));
        assert(mapping.device.serves(a));
    }
}

} // verus!
