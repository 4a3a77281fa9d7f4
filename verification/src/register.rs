//! The banked register file: sixteen general registers, the private copies
//! that the exception modes see in their place, and the saved status
//! registers.

use vstd::prelude::*;
use vstd::array::spec_array_update;
use crate::status::{CpuMode, ProgramStatusRegister};

verus! {

/// The storage behind a register index under a mode.
pub enum Slot {
    /// `reg[i]`: shared by every mode that has no private copy.
    Base(int),
    /// `fiq_reg[i]`: R8 to R14 under FIQ.
    Fiq(int),
    /// `svc_reg[i]`: R13 and R14 under Supervisor.
    Supervisor(int),
    /// `abt_reg[i]`: R13 and R14 under Abort.
    Abort(int),
    /// `irq_reg[i]`: R13 and R14 under IRQ.
    Irq(int),
    /// `und_reg[i]`: R13 and R14 under Undefined.
    Undefined(int),
}

/// Where register `index` lives when the processor is in `mode`. R0 to R7 and
/// R15 are never banked; FIQ has R8 to R14 of its own; Supervisor, IRQ, Abort
/// and Undefined have R13 and R14 of their own.
pub open spec fn slot_of(index: int, mode: CpuMode) -> Slot {
    match mode {
        CpuMode::User | CpuMode::System => Slot::Base(index),
        CpuMode::Fiq => if 8 <= index <= 14 {
            Slot::Fiq(index - 8)
        } else {
            Slot::Base(index)
        },
        CpuMode::Supervisor => if index == 13 || index == 14 {
            Slot::Supervisor(index - 13)
        } else {
            Slot::Base(index)
        },
        CpuMode::Abort => if index == 13 || index == 14 {
            Slot::Abort(index - 13)
        } else {
            Slot::Base(index)
        },
        CpuMode::Irq => if index == 13 || index == 14 {
            Slot::Irq(index - 13)
        } else {
            Slot::Base(index)
        },
        CpuMode::Undefined => if index == 13 || index == 14 {
            Slot::Undefined(index - 13)
        } else {
            Slot::Base(index)
        },
    }
}

/// The place of a mode's saved status register among the five. User and
/// System have none and read the first, as FIQ does.
pub open spec fn spsr_index(mode: CpuMode) -> int {
    match mode {
        CpuMode::Fiq => 0,
        CpuMode::Supervisor => 1,
        CpuMode::Irq => 2,
        CpuMode::Abort => 3,
        CpuMode::Undefined => 4,
        CpuMode::User | CpuMode::System => 0,
    }
}

/// The register file. Copying it gives the debugger its snapshot.
#[derive(Clone, Copy, Debug)]
pub struct RegisterBank {
    pub reg: [u32; 16],
    pub fiq_reg: [u32; 7],
    pub svc_reg: [u32; 2],
    pub abt_reg: [u32; 2],
    pub irq_reg: [u32; 2],
    pub und_reg: [u32; 2],
    pub spsr_bank: [ProgramStatusRegister; 5],
    pub cpsr: ProgramStatusRegister,
    /// Set by an instruction that changed the program counter: the pipeline
    /// drops what it has fetched and decoded.
    pub pipeline_flush: bool,
}

impl RegisterBank {
    /// The value of register `index` as seen under `mode`.
    pub open spec fn read(self, index: int, mode: CpuMode) -> u32 {
        match slot_of(index, mode) {
            Slot::Base(i) => self.reg[i],
            Slot::Fiq(i) => self.fiq_reg[i],
            Slot::Supervisor(i) => self.svc_reg[i],
            Slot::Abort(i) => self.abt_reg[i],
            Slot::Irq(i) => self.irq_reg[i],
            Slot::Undefined(i) => self.und_reg[i],
        }
    }

    /// The bank after `value` is written to register `index` under `mode`:
    /// one slot changes, everything else stays.
    pub open spec fn write(self, index: int, mode: CpuMode, value: u32) -> RegisterBank {
        match slot_of(index, mode) {
            Slot::Base(i) => RegisterBank { reg: spec_array_update(self.reg, i, value), ..self },
            Slot::Fiq(i) => RegisterBank {
                fiq_reg: spec_array_update(self.fiq_reg, i, value),
                ..self
            },
            Slot::Supervisor(i) => RegisterBank {
                svc_reg: spec_array_update(self.svc_reg, i, value),
                ..self
            },
            Slot::Abort(i) => RegisterBank {
                abt_reg: spec_array_update(self.abt_reg, i, value),
                ..self
            },
            Slot::Irq(i) => RegisterBank {
                irq_reg: spec_array_update(self.irq_reg, i, value),
                ..self
            },
            Slot::Undefined(i) => RegisterBank {
                und_reg: spec_array_update(self.und_reg, i, value),
                ..self
            },
        }
    }

    /// The value of register `index` under the current mode.
    pub open spec fn get(self, index: int) -> u32 {
        self.read(index, self.cpsr.mode)
    }

    /// The bank after a write to register `index` under the current mode.
    pub open spec fn set(self, index: int, value: u32) -> RegisterBank {
        self.write(index, self.cpsr.mode, value)
    }

    /// The program counter, R15.
    pub open spec fn pc_value(self) -> u32 {
        self.reg[15]
    }

    /// The bank with the program counter replaced.
    pub open spec fn with_pc(self, value: u32) -> RegisterBank {
        RegisterBank { reg: spec_array_update(self.reg, 15, value), ..self }
    }

    /// The saved status register of `mode`.
    pub open spec fn saved_status(self, mode: CpuMode) -> ProgramStatusRegister {
        self.spsr_bank[spsr_index(mode)]
    }

    /// The bank with the saved status register of `mode` replaced.
    pub open spec fn with_saved_status(
        self,
        mode: CpuMode,
        status: ProgramStatusRegister,
    ) -> RegisterBank {
        RegisterBank {
            spsr_bank: spec_array_update(self.spsr_bank, spsr_index(mode), status),
            ..self
        }
    }

    /// The bank with the current status register replaced.
    pub open spec fn with_cpsr(self, status: ProgramStatusRegister) -> RegisterBank {
        RegisterBank { cpsr: status, ..self }
    }

    /// The bank with the flush request set or cleared.
    pub open spec fn with_flush(self, flush: bool) -> RegisterBank {
        RegisterBank { pipeline_flush: flush, ..self }
    }

    /// The bank at power-up: every register zero, the current status cleared,
    /// each saved status cleared but for the mode it belongs to.
    pub open spec fn initial(self) -> bool {
        &&& forall|i: int| 0 <= i < 16 ==> self.reg[i] == 0
        &&& forall|i: int| 0 <= i < 7 ==> self.fiq_reg[i] == 0
        &&& forall|i: int| 0 <= i < 2 ==> self.svc_reg[i] == 0
        &&& forall|i: int| 0 <= i < 2 ==> self.abt_reg[i] == 0
        &&& forall|i: int| 0 <= i < 2 ==> self.irq_reg[i] == 0
        &&& forall|i: int| 0 <= i < 2 ==> self.und_reg[i] == 0
        &&& self.cpsr == ProgramStatusRegister::cleared()
        &&& !self.pipeline_flush
        &&& self.spsr_bank[0] == (ProgramStatusRegister {
            mode: CpuMode::Fiq,
            ..ProgramStatusRegister::cleared()
        })
        &&& self.spsr_bank[1] == (ProgramStatusRegister {
            mode: CpuMode::Supervisor,
            ..ProgramStatusRegister::cleared()
        })
        &&& self.spsr_bank[2] == (ProgramStatusRegister {
            mode: CpuMode::Irq,
            ..ProgramStatusRegister::cleared()
        })
        &&& self.spsr_bank[3] == (ProgramStatusRegister {
            mode: CpuMode::Abort,
            ..ProgramStatusRegister::cleared()
        })
        &&& self.spsr_bank[4] == (ProgramStatusRegister {
            mode: CpuMode::Undefined,
            ..ProgramStatusRegister::cleared()
        })
    }

    pub fn pc_mut(&mut self) -> (r: &mut u32)
        ensures
            *r == old(self).pc_value(),
            *final(self) == old(self).with_pc(*final(r)),
    {
        &mut self.reg[15]
    }

    pub fn pc(&self) -> (value: u32)
        ensures
            value == self.pc_value(),
    {
        self.reg[15]
    }

    /// Moves the program counter forward by one instruction of the current
    /// instruction set, wrapping at the end of the address space.
    pub fn increment_pc(&mut self)
        ensures
            *final(self) == old(self).with_pc(
                (((old(self).pc_value() + old(self).cpsr.instruction_mode.stride_spec())
                    % 0x1_0000_0000) as u32),
            ),
    {
        let stride = self.cpsr.instruction_mode.stride();
        self.reg[15] = self.reg[15].wrapping_add(stride);
        assert(self.reg =~= spec_array_update(old(self).reg, 15, self.reg[15]));
    }

    fn spsr_with_mode_mut(&mut self, mode: CpuMode) -> (r: &mut ProgramStatusRegister)
        ensures
            *r == old(self).saved_status(mode),
            *final(self) == old(self).with_saved_status(mode, *final(r)),
    {
        match mode {
            CpuMode::Fiq => &mut self.spsr_bank[0],
            CpuMode::Supervisor => &mut self.spsr_bank[1],
            CpuMode::Irq => &mut self.spsr_bank[2],
            CpuMode::Abort => &mut self.spsr_bank[3],
            CpuMode::Undefined => &mut self.spsr_bank[4],
            CpuMode::User | CpuMode::System => &mut self.spsr_bank[0],
        }
    }

    fn spsr_with_mode(&self, mode: CpuMode) -> (status: ProgramStatusRegister)
        ensures
            status == self.saved_status(mode),
    {
        match mode {
            CpuMode::Fiq => self.spsr_bank[0],
            CpuMode::Supervisor => self.spsr_bank[1],
            CpuMode::Irq => self.spsr_bank[2],
            CpuMode::Abort => self.spsr_bank[3],
            CpuMode::Undefined => self.spsr_bank[4],
            CpuMode::User | CpuMode::System => self.spsr_bank[0],
        }
    }

    /// The saved status register of the current mode, to be written through.
    /// User and System have none: they get the slot of FIQ.
    pub fn spsr_mut(&mut self) -> (r: &mut ProgramStatusRegister)
        ensures
            *r == old(self).saved_status(old(self).cpsr.mode),
            *final(self) == old(self).with_saved_status(old(self).cpsr.mode, *final(r)),
    {
        let mode = self.cpsr.mode;
        self.spsr_with_mode_mut(mode)
    }

    /// The saved status register of the current mode. User and System have
    /// none: they read the slot of FIQ.
    pub fn spsr(&self) -> (status: ProgramStatusRegister)
        ensures
            status == self.saved_status(self.cpsr.mode),
    {
        self.spsr_with_mode(self.cpsr.mode)
    }

    pub fn reg_with_mode_mut(&mut self, index: usize, mode: CpuMode) -> (r: &mut u32)
        requires
            index < 16,
        ensures
            *r == old(self).read(index as int, mode),
            *final(self) == old(self).write(index as int, mode, *final(r)),
    {
        match mode {
            CpuMode::User | CpuMode::System => &mut self.reg[index],
            CpuMode::Fiq => {
                if index < 8 || index == 15 {
                    &mut self.reg[index]
                } else {
                    &mut self.fiq_reg[index - 8]
                }
            },
            CpuMode::Supervisor => {
                if index != 13 && index != 14 {
                    &mut self.reg[index]
                } else {
                    &mut self.svc_reg[index - 13]
                }
            },
            CpuMode::Irq => {
                if index != 13 && index != 14 {
                    &mut self.reg[index]
                } else {
                    &mut self.irq_reg[index - 13]
                }
            },
            CpuMode::Abort => {
                if index != 13 && index != 14 {
                    &mut self.reg[index]
                } else {
                    &mut self.abt_reg[index - 13]
                }
            },
            CpuMode::Undefined => {
                if index != 13 && index != 14 {
                    &mut self.reg[index]
                } else {
                    &mut self.und_reg[index - 13]
                }
            },
        }
    }

    pub fn reg_with_mode(&self, index: usize, mode: CpuMode) -> (value: u32)
        requires
            index < 16,
        ensures
            value == self.read(index as int, mode),
    {
        match mode {
            CpuMode::User | CpuMode::System => self.reg[index],
            CpuMode::Fiq => {
                if index < 8 || index == 15 {
                    self.reg[index]
                } else {
                    self.fiq_reg[index - 8]
                }
            },
            CpuMode::Supervisor => {
                if index != 13 && index != 14 {
                    self.reg[index]
                } else {
                    self.svc_reg[index - 13]
                }
            },
            CpuMode::Irq => {
                if index != 13 && index != 14 {
                    self.reg[index]
                } else {
                    self.irq_reg[index - 13]
                }
            },
            CpuMode::Abort => {
                if index != 13 && index != 14 {
                    self.reg[index]
                } else {
                    self.abt_reg[index - 13]
                }
            },
            CpuMode::Undefined => {
                if index != 13 && index != 14 {
                    self.reg[index]
                } else {
                    self.und_reg[index - 13]
                }
            },
        }
    }

    pub fn reg_mut(&mut self, index: usize) -> (r: &mut u32)
        requires
            index < 16,
        ensures
            *r == old(self).get(index as int),
            *final(self) == old(self).set(index as int, *final(r)),
    {
        let mode = self.cpsr.mode;
        self.reg_with_mode_mut(index, mode)
    }

    pub fn reg(&self, index: usize) -> (value: u32)
        requires
            index < 16,
        ensures
            value == self.get(index as int),
    {
        self.reg_with_mode(index, self.cpsr.mode)
    }
}

impl Default for RegisterBank {
    fn default() -> (bank: RegisterBank)
        ensures
            bank.initial(),
    {
        let clear = ProgramStatusRegister::default();
        let bank = RegisterBank {
            reg: [0; 16],
            fiq_reg: [0; 7],
            svc_reg: [0; 2],
            abt_reg: [0; 2],
            irq_reg: [0; 2],
            und_reg: [0; 2],
            spsr_bank: [
                ProgramStatusRegister { mode: CpuMode::Fiq, ..clear },
                ProgramStatusRegister { mode: CpuMode::Supervisor, ..clear },
                ProgramStatusRegister { mode: CpuMode::Irq, ..clear },
                ProgramStatusRegister { mode: CpuMode::Abort, ..clear },
                ProgramStatusRegister { mode: CpuMode::Undefined, ..clear },
            ],
            cpsr: clear,
            pipeline_flush: false,
        };
        bank
    }
}

/// What a write stores is what a read under the same mode returns.
pub proof fn lemma_read_after_write(bank: RegisterBank, index: int, mode: CpuMode, value: u32)
    requires
        0 <= index < 16,
    ensures
        bank.write(index, mode, value).read(index, mode) == value,
{
}

/// A write leaves every register that lives in another slot as it was.
pub proof fn lemma_write_keeps_other_slots(
    bank: RegisterBank,
    index: int,
    mode: CpuMode,
    value: u32,
    other: int,
    other_mode: CpuMode,
)
    requires
        0 <= index < 16,
        0 <= other < 16,
        slot_of(index, mode) != slot_of(other, other_mode),
    ensures
        bank.write(index, mode, value).read(other, other_mode) == bank.read(other, other_mode),
{
}

/// R0 to R7 read the same under every mode.
pub proof fn lemma_low_registers_shared(bank: RegisterBank, index: int, mode: CpuMode)
    requires
        0 <= index <= 7,
    ensures
        bank.read(index, mode) == bank.read(index, CpuMode::User),
{
}

/// User and System see the same sixteen registers.
pub proof fn lemma_user_system_alias(bank: RegisterBank, index: int)
    requires
        0 <= index < 16,
    ensures
        bank.read(index, CpuMode::System) == bank.read(index, CpuMode::User),
{
}

/// A write to R13 or R14 under one of Supervisor, IRQ, Abort and Undefined
/// does not show under another of them.
pub proof fn lemma_exception_banks_apart(
    bank: RegisterBank,
    index: int,
    writer: CpuMode,
    reader: CpuMode,
    value: u32,
    other: int,
)
    requires
        index == 13 || index == 14,
        other == 13 || other == 14,
        writer == CpuMode::Supervisor || writer == CpuMode::Irq || writer == CpuMode::Abort
            || writer == CpuMode::Undefined,
        reader == CpuMode::Supervisor || reader == CpuMode::Irq || reader == CpuMode::Abort
            || reader == CpuMode::Undefined,
        writer != reader,
    ensures
        bank.write(index, writer, value).read(other, reader) == bank.read(other, reader),
{
}

} // verus!
