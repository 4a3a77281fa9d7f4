//! The machine: a processor and a bus with the default memory map.

use vstd::prelude::*;
use vstd::std_specs::range::RangeInclusiveView;
use core::ops::RangeInclusive;
use crate::bus::{Bus, BusModel, Device, DeviceModel, MappingModel, BIOS_SIZE};
use crate::error::CoreError;
use crate::instruction::InstructionExecutor;
use crate::interpreter::Interpreter;
use crate::memory::bios::Bios;
use crate::memory::lcd::Lcd;
use crate::memory::system_io::SystemIoFlags;
use crate::memory::wram::Wram;
use crate::register::RegisterBank;

verus! {

/// First address of the display registers.
pub const LCD_START: u32 = 0x0400_0000;

/// Last address of the display registers.
pub const LCD_END: u32 = 0x0400_0056;

/// First address of the system flags.
pub const SYSTEM_IO_START: u32 = 0x0400_0200;

/// Last address of the system flags.
pub const SYSTEM_IO_END: u32 = 0x0470_0000;

/// On-chip work RAM: 32 KiB, mirrored up to the end of its range.
pub const INTERNAL_RAM_START: u32 = 0x0300_0000;

/// Last address that on-chip work RAM answers to.
pub const INTERNAL_RAM_END: u32 = 0x03FF_FFFF;

/// Bytes of on-chip work RAM.
pub const INTERNAL_RAM_SIZE: usize = 0x8000;

/// External work RAM.
pub const EXTERNAL_RAM_START: u32 = 0x0800_0000;

/// Last address of external work RAM.
pub const EXTERNAL_RAM_END: u32 = 0x0FFF_FFFF;

/// Bytes of external work RAM.
pub const EXTERNAL_RAM_SIZE: usize = 0x0800_0000;

/// Last address of the BIOS, which starts at 0.
pub const BIOS_END: u32 = 0x3FFF;

/// An entry of the memory map from `start` to `end`, both included.
pub open spec fn mapping(start: u32, end: u32, device: DeviceModel) -> MappingModel {
    MappingModel { region: RangeInclusiveView { start, end, exhausted: false }, device }
}

/// Work RAM of `size` zero bytes.
pub open spec fn cleared_ram(start: u32, size: nat) -> DeviceModel {
    DeviceModel::Wram { start, bytes: Seq::new(size, |i: int| 0u8) }
}

/// The memory map of a new machine, in the order in which an address is
/// looked up: the display, the system flags, on-chip RAM, external RAM.
pub open spec fn default_map() -> BusModel {
    BusModel {
        mappings: seq![
            mapping(LCD_START, LCD_END, DeviceModel::Lcd),
            mapping(
                SYSTEM_IO_START,
                SYSTEM_IO_END,
                DeviceModel::SystemIo { post_boot: false, interrupt_master_enable: false },
            ),
            mapping(
                INTERNAL_RAM_START,
                INTERNAL_RAM_END,
                cleared_ram(INTERNAL_RAM_START, INTERNAL_RAM_SIZE as nat),
            ),
            mapping(
                EXTERNAL_RAM_START,
                EXTERNAL_RAM_END,
                cleared_ram(EXTERNAL_RAM_START, EXTERNAL_RAM_SIZE as nat),
            ),
        ],
    }
}

/// The machine after a run, and how the run ended.
pub struct Run {
    pub cpu: Interpreter,
    pub bus: BusModel,
    pub result: Result<(), CoreError>,
}

/// A run from a state in which `done` cycles have passed: ticks follow one
/// another until a fault, or until the cycles that have passed reach the
/// budget. Without a budget the run is one tick.
pub open spec fn run_spec(cpu: Interpreter, bus: BusModel, done: nat, budget: Option<usize>) -> Run
    decreases
        (match budget {
            Some(cycles) => cycles - done,
            None => 0,
        }),
{
    let step = cpu.tick_spec(bus);
    match step.result {
        Err(e) => Run { cpu: step.cpu, bus: step.bus, result: Err(e) },
        Ok(cycles) => match budget {
            Some(limit) => if cycles >= 1 && done + cycles < limit {
                run_spec(step.cpu, step.bus, done + (cycles as nat), budget)
            } else {
                Run { cpu: step.cpu, bus: step.bus, result: Ok(()) }
            },
            None => Run { cpu: step.cpu, bus: step.bus, result: Ok(()) },
        },
    }
}

/// The whole machine.
pub struct Gba {
    pub cpu: Interpreter,
    pub bus: Bus,
}

impl Gba {
    pub open spec fn wf(self) -> bool {
        self.cpu.wf() && self.bus@.wf()
    }

    /// A machine with the default memory map, no BIOS, and the processor as
    /// at power-up with logging switched on.
    pub fn new() -> (gba: Gba)
        ensures
            gba.wf(),
            gba.bus@ == default_map(),
            gba.cpu.registers.initial(),
            gba.cpu.fetched_instruction is None,
            gba.cpu.decoded_instruction is None,
            gba.cpu.logging_enabled,
    {
        let mut bus = Bus::default();
        bus.register_region(RangeInclusive::new(LCD_START, LCD_END), Device::Lcd(Lcd::default()));
        bus.register_region(
            RangeInclusive::new(SYSTEM_IO_START, SYSTEM_IO_END),
            Device::SystemIo(SystemIoFlags::default()),
        );
        bus.register_region(
            RangeInclusive::new(INTERNAL_RAM_START, INTERNAL_RAM_END),
            Device::Wram(Wram::new(INTERNAL_RAM_START, INTERNAL_RAM_SIZE)),
        );
        bus.register_region(
            RangeInclusive::new(EXTERNAL_RAM_START, EXTERNAL_RAM_END),
            Device::Wram(Wram::new(EXTERNAL_RAM_START, EXTERNAL_RAM_SIZE)),
        );
        assert(bus@.mappings =~= default_map().mappings);
        let mut cpu = Interpreter::default();
        cpu.logging_enabled = true;
        Gba { cpu, bus }
    }

    /// Puts a BIOS image on the bus from address 0, behind the entries that
    /// are there already. An image of any length but 16 KiB is refused and
    /// the machine stays as it was.
    pub fn set_bios(&mut self, image: &Vec<u8>) -> (result: Result<(), CoreError>)
        requires
            old(self).wf(),
        ensures
            final(self).wf(),
            final(self).cpu == old(self).cpu,
            image@.len() == BIOS_SIZE ==> result is Ok && final(self).bus@ == old(
                self,
            ).bus@.with_mapping(mapping(0, BIOS_END, DeviceModel::Bios(image@))),
            image@.len() != BIOS_SIZE ==> result == Err::<(), CoreError>(
                CoreError::BiosSizeMismatch,
            ) && final(self).bus@ == old(self).bus@,
    {
        let bios = match Bios::new(image) {
            Ok(bios) => bios,
            Err(e) => { return Err(e); },
        };
        self.bus.register_region(RangeInclusive::new(0, BIOS_END), Device::Bios(bios));
        Ok(())
    }

    /// One step of the pipeline.
    pub fn tick(&mut self) -> (result: Result<usize, CoreError>)
        requires
            old(self).wf(),
        ensures
            final(self).wf(),
            final(self).cpu == old(self).cpu.tick_spec(old(self).bus@).cpu,
            final(self).bus@ == old(self).cpu.tick_spec(old(self).bus@).bus,
            result == old(self).cpu.tick_spec(old(self).bus@).result,
    {
        self.cpu.tick(&mut self.bus)
    }

    /// Runs the machine until a fault or until the budget of cycles is used
    /// up. Without a budget the run is one tick.
    pub fn emulate(&mut self, cycles: Option<usize>) -> (result: Result<(), CoreError>)
        requires
            old(self).wf(),
        ensures
            final(self).wf(),
            final(self).cpu == run_spec(old(self).cpu, old(self).bus@, 0, cycles).cpu,
            final(self).bus@ == run_spec(old(self).cpu, old(self).bus@, 0, cycles).bus,
            result == run_spec(old(self).cpu, old(self).bus@, 0, cycles).result,
    {
        let ghost goal = run_spec(old(self).cpu, old(self).bus@, 0, cycles);
        let mut cycles_done: usize = 0;
        loop
            invariant
                self.wf(),
                goal == run_spec(old(self).cpu, old(self).bus@, 0, cycles),
                goal == run_spec(self.cpu, self.bus@, cycles_done as nat, cycles),
                cycles is Some ==> cycles_done < cycles->Some_0 || cycles_done == 0,
            decreases
                    (match cycles {
                        Some(limit) => limit - cycles_done,
                        None => 0,
                    }),
        {
            proof {
                crate::laws::lemma_tick_cycles(self.cpu, self.bus@);
            }
            let spent = match self.cpu.tick(&mut self.bus) {
                Ok(spent) => spent,
                Err(e) => { return Err(e); },
            };
            match cycles {
                Some(limit) => {
                    if spent >= limit - cycles_done || cycles_done >= limit {
                        return Ok(());
                    }
                    cycles_done = cycles_done + spent;
                },
                None => { return Ok(()); },
            }
        }
    }

    /// Puts the processor back to its state after reset. Memory stays as it
    /// is.
    pub fn reset(&mut self)
        requires
            old(self).bus@.wf(),
        ensures
            final(self).wf(),
            final(self).cpu.is_reset(),
            final(self).cpu.registers.pc_value() == 0,
            final(self).cpu.logging_enabled == old(self).cpu.logging_enabled,
            final(self).bus@ == old(self).bus@,
    {
        self.cpu.reset();
    }

    /// The registers, for inspection.
    pub fn registers(&self) -> (registers: &RegisterBank)
        ensures
            *registers == self.cpu.registers,
    {
        self.cpu.registers()
    }
}

} // verus!
