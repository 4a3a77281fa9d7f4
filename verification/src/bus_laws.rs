//! What holds of the bus model: how an address finds its entry, and what a
//! read sees after a write.

use vstd::prelude::*;
use crate::bits::{rotate_right_spec, wrapping_add_spec};
use crate::bus::{dword_of, first_match, word_of, BusModel, DeviceModel, MappingModel};
use crate::error::CoreError;
use crate::machine::{default_map, mapping, BIOS_END, EXTERNAL_RAM_END, EXTERNAL_RAM_START,
    INTERNAL_RAM_END, INTERNAL_RAM_START};

verus! {

/// Searching from `from`, the entry found covers the address and no entry
/// between `from` and it does; nothing is found only where no entry from
/// `from` on covers the address.
pub proof fn lemma_first_match(mappings: Seq<MappingModel>, address: u32, from: int)
    requires
        0 <= from,
    ensures
        match first_match(mappings, address, from) {
            Some(i) => {
                &&& from <= i < mappings.len()
                &&& mappings[i].covers(address)
                &&& forall|j: int| from <= j < i ==> !#[trigger] mappings[j].covers(address)
            },
            None => forall|j: int|
                from <= j < mappings.len() ==> !#[trigger] mappings[j].covers(address),
        },
    decreases mappings.len() - from,
{
    if from < mappings.len() && !mappings[from].covers(address) {
        lemma_first_match(mappings, address, from + 1);
    }
}

/// An access goes to the earliest registered entry that covers its address:
/// of two entries that overlap, the one registered first takes it.
pub proof fn lemma_route_is_earliest(bus: BusModel, address: u32, i: int)
    requires
        0 <= i < bus.mappings.len(),
    ensures
        bus.route(address) == Some(i) <==> (bus.mappings[i].covers(address) && forall|j: int|
            0 <= j < i ==> !#[trigger] bus.mappings[j].covers(address)),
        bus.route(address) is None <==> forall|j: int|
            0 <= j < bus.mappings.len() ==> !#[trigger] bus.mappings[j].covers(address),
{
    lemma_first_match(bus.mappings, address, 0);
}

/// Whether no address is covered by two entries.
pub open spec fn disjoint(bus: BusModel) -> bool {
    forall|i: int, j: int, address: u32|
        0 <= i < j < bus.mappings.len() ==> !(#[trigger] bus.mappings[i].covers(address)
            && #[trigger] bus.mappings[j].covers(address))
}

/// On a map without overlap an access goes to the one entry that covers its
/// address, whatever the order of registration.
pub proof fn lemma_route_on_disjoint(bus: BusModel, address: u32, i: int)
    requires
        disjoint(bus),
        0 <= i < bus.mappings.len(),
    ensures
        bus.route(address) == Some(i) <==> bus.mappings[i].covers(address),
{
    lemma_first_match(bus.mappings, address, 0);
}

/// A fault of a read names the address that no entry covers.
pub proof fn lemma_unmapped_read_faults(bus: BusModel, address: u32)
    requires
        forall|j: int| 0 <= j < bus.mappings.len() ==> !#[trigger] bus.mappings[j].covers(address),
    ensures
        bus.read_byte(address) == Err::<u8, CoreError>(CoreError::InvalidRegion(address)),
        bus.write_byte(address, 0).1 == Err::<(), CoreError>(CoreError::InvalidRegion(address)),
        bus.write_byte(address, 0).0 == bus,
{
    lemma_first_match(bus.mappings, address, 0);
}

proof fn lemma_same_regions_same_match(
    a: Seq<MappingModel>,
    b: Seq<MappingModel>,
    address: u32,
    from: int,
)
    requires
        0 <= from,
        a.len() == b.len(),
        forall|j: int| 0 <= j < a.len() ==> a[j].region == b[j].region,
    ensures
        first_match(a, address, from) == first_match(b, address, from),
    decreases a.len() - from,
{
    if from < a.len() {
        assert(a[from].region == b[from].region);
        if !a[from].covers(address) {
            lemma_same_regions_same_match(a, b, address, from + 1);
        }
    }
}

/// A write moves no address to another entry.
pub proof fn lemma_write_keeps_routes(bus: BusModel, address: u32, data: u8, other: u32)
    ensures
        bus.write_byte(address, data).0.route(other) == bus.route(other),
        bus.write_byte(address, data).0.mappings.len() == bus.mappings.len(),
{
    lemma_first_match(bus.mappings, address, 0);
    lemma_same_regions_same_match(
        bus.mappings,
        bus.write_byte(address, data).0.mappings,
        other,
        0,
    );
}

/// The work RAM cell behind an address: the entry it is routed to and the
/// place in that entry's buffer. `None` where the address is not routed to
/// work RAM.
pub open spec fn ram_cell(bus: BusModel, address: u32) -> Option<(int, int)> {
    match bus.route(address) {
        Some(i) => match bus.mappings[i].device {
            DeviceModel::Wram { start, bytes } => Some(
                (i, DeviceModel::wram_cell(start, bytes.len(), address)),
            ),
            _ => None,
        },
        None => None,
    }
}

/// A write to work RAM succeeds, is read back at the same address, leaves
/// every other cell as it was and moves no cell.
pub proof fn lemma_ram_write(bus: BusModel, address: u32, data: u8, other: u32)
    requires
        bus.wf(),
        ram_cell(bus, address) is Some,
    ensures
        bus.write_byte(address, data).1 == Ok::<(), CoreError>(()),
        bus.write_byte(address, data).0.wf(),
        bus.write_byte(address, data).0.read_byte(address) == Ok::<u8, CoreError>(data),
        ram_cell(bus.write_byte(address, data).0, other) == ram_cell(bus, other),
        ram_cell(bus, other) != ram_cell(bus, address) ==> bus.write_byte(address, data).0.read_byte(
            other,
        ) == bus.read_byte(other),
{
    let after = bus.write_byte(address, data).0;
    lemma_first_match(bus.mappings, address, 0);
    lemma_first_match(bus.mappings, other, 0);
    lemma_write_keeps_routes(bus, address, data, address);
    lemma_write_keeps_routes(bus, address, data, other);
    let i = bus.route(address)->Some_0;
    assert(bus.mappings[i].wf());
    assert(bus.mappings[i].device.serves(address));
    vstd::arithmetic::div_mod::lemma_mod_bound(
        address - bus.mappings[i].device->Wram_start,
        bus.mappings[i].device->Wram_bytes.len() as int,
    );
    crate::bus::lemma_write_keeps_service(bus.mappings[i], address, data);
    assert forall|j: int| 0 <= j < after.mappings.len() implies #[trigger] after.mappings[j].wf() by {
        if j != i {
            assert(bus.mappings[j].wf());
        }
    }
    match bus.route(other) {
        Some(k) => {
            assert(bus.mappings[k].wf());
            assert(bus.mappings[k].device.serves(other));
            if k == i {
                vstd::arithmetic::div_mod::lemma_mod_bound(
                    other - bus.mappings[i].device->Wram_start,
                    bus.mappings[i].device->Wram_bytes.len() as int,
                );
            }
        },
        None => {},
    }
}

/// The four bytes of a 32-bit word at `address` lie in work RAM, in four
/// cells of which no two are the same.
pub open spec fn dword_in_ram(bus: BusModel, address: u32) -> bool {
    let a0 = address;
    let a1 = wrapping_add_spec(address, 1);
    let a2 = wrapping_add_spec(address, 2);
    let a3 = wrapping_add_spec(wrapping_add_spec(address, 2), 1);
    &&& ram_cell(bus, a0) is Some
    &&& ram_cell(bus, a1) is Some
    &&& ram_cell(bus, a2) is Some
    &&& ram_cell(bus, a3) is Some
    &&& ram_cell(bus, a0) != ram_cell(bus, a1)
    &&& ram_cell(bus, a0) != ram_cell(bus, a2)
    &&& ram_cell(bus, a0) != ram_cell(bus, a3)
    &&& ram_cell(bus, a1) != ram_cell(bus, a2)
    &&& ram_cell(bus, a1) != ram_cell(bus, a3)
    &&& ram_cell(bus, a2) != ram_cell(bus, a3)
}

proof fn lemma_bytes_make_dword(data: u32)
    by (bit_vector)
    ensures
        ((((data as u16) as u8) as u16) | (((((data as u16) >> 8) as u8) as u16) << 8)) as u32 | (
        (((((data >> 16) as u16) as u8) as u16) | ((((((data >> 16) as u16) >> 8) as u8) as u16)
            << 8)) as u32) << 16 == data,
{
}

/// A 32-bit word written to work RAM is the word read back from the same
/// address.
pub proof fn lemma_write_then_read_dword(bus: BusModel, address: u32, data: u32)
    requires
        bus.wf(),
        dword_in_ram(bus, address),
    ensures
        bus.write_dword(address, data).1 == Ok::<(), CoreError>(()),
        bus.write_dword(address, data).0.read_dword(address) == Ok::<u32, CoreError>(data),
        bus.write_dword(address, data).0.wf(),
{
    let a0 = address;
    let a1 = wrapping_add_spec(address, 1);
    let a2 = wrapping_add_spec(address, 2);
    let a3 = wrapping_add_spec(a2, 1);
    let low = data as u16;
    let high = (data >> 16) as u16;
    let d0 = low as u8;
    let d1 = (low >> 8) as u8;
    let d2 = high as u8;
    let d3 = (high >> 8) as u8;
    let b1 = bus.write_byte(a0, d0).0;
    lemma_ram_write(bus, a0, d0, a0);
    lemma_ram_write(bus, a0, d0, a1);
    lemma_ram_write(bus, a0, d0, a2);
    lemma_ram_write(bus, a0, d0, a3);
    let b2 = b1.write_byte(a1, d1).0;
    lemma_ram_write(b1, a1, d1, a0);
    lemma_ram_write(b1, a1, d1, a1);
    lemma_ram_write(b1, a1, d1, a2);
    lemma_ram_write(b1, a1, d1, a3);
    assert(bus.write_word(a0, low) == (b2, Ok::<(), CoreError>(())));
    let b3 = b2.write_byte(a2, d2).0;
    lemma_ram_write(b2, a2, d2, a0);
    lemma_ram_write(b2, a2, d2, a1);
    lemma_ram_write(b2, a2, d2, a2);
    lemma_ram_write(b2, a2, d2, a3);
    let b4 = b3.write_byte(a3, d3).0;
    lemma_ram_write(b3, a3, d3, a0);
    lemma_ram_write(b3, a3, d3, a1);
    lemma_ram_write(b3, a3, d3, a2);
    lemma_ram_write(b3, a3, d3, a3);
    assert(b2.write_word(a2, high) == (b4, Ok::<(), CoreError>(())));
    assert(bus.write_dword(address, data) == (b4, Ok::<(), CoreError>(())));
    assert(b4.read_byte(a0) == Ok::<u8, CoreError>(d0));
    assert(b4.read_byte(a1) == Ok::<u8, CoreError>(d1));
    assert(b4.read_byte(a2) == Ok::<u8, CoreError>(d2));
    assert(b4.read_byte(a3) == Ok::<u8, CoreError>(d3));
    assert(b4.read_word(a0) == Ok::<u16, CoreError>(word_of(d0, d1)));
    assert(b4.read_word(a2) == Ok::<u16, CoreError>(word_of(d2, d3)));
    lemma_bytes_make_dword(data);
    assert(dword_of(word_of(d0, d1), word_of(d2, d3)) == data);
}

/// The two bytes of a 16-bit word at `address` lie in work RAM, in two
/// different cells.
pub open spec fn word_in_ram(bus: BusModel, address: u32) -> bool {
    &&& ram_cell(bus, address) is Some
    &&& ram_cell(bus, wrapping_add_spec(address, 1)) is Some
    &&& ram_cell(bus, address) != ram_cell(bus, wrapping_add_spec(address, 1))
}

proof fn lemma_bytes_make_word(data: u16)
    by (bit_vector)
    ensures
        ((data as u8) as u16) | ((((data >> 8) as u8) as u16) << 8) == data,
{
}

/// A 16-bit word written to work RAM is the word read back from the same
/// address.
pub proof fn lemma_write_then_read_word(bus: BusModel, address: u32, data: u16)
    requires
        bus.wf(),
        word_in_ram(bus, address),
    ensures
        bus.write_word(address, data).1 == Ok::<(), CoreError>(()),
        bus.write_word(address, data).0.read_word(address) == Ok::<u16, CoreError>(data),
        bus.write_word(address, data).0.wf(),
{
    let a0 = address;
    let a1 = wrapping_add_spec(address, 1);
    let d0 = data as u8;
    let d1 = (data >> 8) as u8;
    let b1 = bus.write_byte(a0, d0).0;
    lemma_ram_write(bus, a0, d0, a0);
    lemma_ram_write(bus, a0, d0, a1);
    lemma_ram_write(b1, a1, d1, a0);
    lemma_ram_write(b1, a1, d1, a1);
    lemma_bytes_make_word(data);
}

/// A 32-bit load from an address two bytes above an aligned one gives the
/// aligned word with its halves exchanged: rotated right by 16.
pub proof fn lemma_load_at_offset_two(bus: BusModel, address: u32)
    requires
        address & 3 == 2,
    ensures
        bus.read_dword_rotated(address) == match bus.read_dword(address & 0xFFFF_FFFC) {
            Ok(data) => Ok::<u32, CoreError>(rotate_right_spec(data, 16)),
            Err(e) => Err::<u32, CoreError>(e),
        },
{
}

proof fn lemma_cells_apart(offset: int, step: int, length: int)
    requires
        0 <= offset,
        0 < step < length,
    ensures
        offset % length != (offset + step) % length,
{
    vstd::arithmetic::div_mod::lemma_fundamental_div_mod(offset, length);
    vstd::arithmetic::div_mod::lemma_fundamental_div_mod(offset + step, length);
    let q1 = offset / length;
    let q2 = (offset + step) / length;
    if offset % length == (offset + step) % length {
        assert(step == length * q2 - length * q1);
        assert(length * q2 - length * q1 == length * (q2 - q1)) by (nonlinear_arith);
        assert(step == length * (q2 - q1));
        if q2 - q1 <= 0 {
            assert(length * (q2 - q1) <= 0) by (nonlinear_arith)
                requires
                    length > 0,
                    q2 - q1 <= 0,
            ;
        } else {
            assert(length * (q2 - q1) >= length) by (nonlinear_arith)
                requires
                    length > 0,
                    q2 - q1 >= 1,
            ;
        }
    }
}

/// A word whose four bytes are routed to one work RAM of at least four
/// bytes, and which does not run over the end of the address space, lies in
/// four different cells.
pub proof fn lemma_word_in_one_ram(bus: BusModel, address: u32, entry: int)
    requires
        bus.wf(),
        address <= 0xFFFF_FFFC,
        0 <= entry < bus.mappings.len(),
        bus.route(address) == Some(entry),
        bus.route((address + 1) as u32) == Some(entry),
        bus.route((address + 2) as u32) == Some(entry),
        bus.route((address + 3) as u32) == Some(entry),
        bus.mappings[entry].device is Wram,
        bus.mappings[entry].device->Wram_bytes.len() >= 4,
    ensures
        dword_in_ram(bus, address),
{
    let start = bus.mappings[entry].device->Wram_start;
    let length = bus.mappings[entry].device->Wram_bytes.len() as int;
    lemma_first_match(bus.mappings, address, 0);
    assert(bus.mappings[entry].wf());
    assert(bus.mappings[entry].device.serves(address));
    let offset = address - start;
    lemma_cells_apart(offset, 1, length);
    lemma_cells_apart(offset, 2, length);
    lemma_cells_apart(offset, 3, length);
    lemma_cells_apart(offset + 1, 1, length);
    lemma_cells_apart(offset + 1, 2, length);
    lemma_cells_apart(offset + 2, 1, length);
}

/// No address of the default memory map is covered twice, with or without
/// a BIOS.
pub proof fn lemma_default_map_disjoint(image: Seq<u8>)
    ensures
        disjoint(default_map()),
        disjoint(default_map().with_mapping(mapping(0, BIOS_END, DeviceModel::Bios(image)))),
{
}

/// In the default memory map a word written anywhere in on-chip or
/// external work RAM is the word read back.
pub proof fn lemma_default_ram_round_trip(address: u32, data: u32)
    requires
        INTERNAL_RAM_START <= address <= INTERNAL_RAM_END - 3 || EXTERNAL_RAM_START <= address
            <= EXTERNAL_RAM_END - 3,
    ensures
        default_map().write_dword(address, data).1 == Ok::<(), CoreError>(()),
        default_map().write_dword(address, data).0.read_dword(address) == Ok::<u32, CoreError>(
            data,
        ),
{
    let bus = default_map();
    let entry: int = if address <= INTERNAL_RAM_END {
        2
    } else {
        3
    };
    assert forall|i: int| 0 <= i < bus.mappings.len() implies #[trigger] bus.mappings[i].wf() by {}
    lemma_route_is_earliest(bus, address, entry);
    lemma_route_is_earliest(bus, (address + 1) as u32, entry);
    lemma_route_is_earliest(bus, (address + 2) as u32, entry);
    lemma_route_is_earliest(bus, (address + 3) as u32, entry);
    lemma_word_in_one_ram(bus, address, entry);
    lemma_write_then_read_dword(bus, address, data);
}

} // verus!
