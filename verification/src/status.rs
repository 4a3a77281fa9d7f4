//! The program status register: condition flags, interrupt masks, the
//! instruction set in use and the processor mode, with its 32-bit form.

use vstd::prelude::*;

verus! {

/// The processor modes of the ARM7TDMI.
#[derive(Copy, Clone, Eq, PartialEq, Structural, Debug)]
pub enum CpuMode {
    User,
    Fiq,
    Irq,
    Supervisor,
    Abort,
    Undefined,
    System,
}

impl CpuMode {
    /// The five mode bits that stand for this mode in a status word.
    pub open spec fn bits_spec(self) -> u32 {
        match self {
            CpuMode::User => 0x10,
            CpuMode::Fiq => 0x11,
            CpuMode::Irq => 0x12,
            CpuMode::Supervisor => 0x13,
            CpuMode::Abort => 0x17,
            CpuMode::Undefined => 0x1B,
            CpuMode::System => 0x1F,
        }
    }

    /// The mode that five mode bits stand for; every pattern that names no
    /// mode reads as `Undefined`.
    pub open spec fn from_bits_spec(mode: u32) -> CpuMode {
        if mode == 0x10 {
            CpuMode::User
        } else if mode == 0x11 {
            CpuMode::Fiq
        } else if mode == 0x12 {
            CpuMode::Irq
        } else if mode == 0x13 {
            CpuMode::Supervisor
        } else if mode == 0x17 {
            CpuMode::Abort
        } else if mode == 0x1F {
            CpuMode::System
        } else {
            CpuMode::Undefined
        }
    }

    /// Whether the mode has a saved status register and a private R13 and R14.
    pub open spec fn is_exception(self) -> bool {
        self != CpuMode::User && self != CpuMode::System
    }

    pub fn to_u32(self) -> (bits: u32)
        ensures
            bits == self.bits_spec(),
            bits & 0x1F == bits,
    {
        let bits: u32 = match self {
            CpuMode::User => 0x10,
            CpuMode::Fiq => 0x11,
            CpuMode::Irq => 0x12,
            CpuMode::Supervisor => 0x13,
            CpuMode::Abort => 0x17,
            CpuMode::Undefined => 0x1B,
            CpuMode::System => 0x1F,
        };
        proof {
            lemma_mode_bits_fit(bits);
        }
        bits
    }

    pub fn from_u32(mode: u32) -> (m: CpuMode)
        ensures
            m == CpuMode::from_bits_spec(mode),
    {
        match mode {
            0x10 => CpuMode::User,
            0x11 => CpuMode::Fiq,
            0x12 => CpuMode::Irq,
            0x13 => CpuMode::Supervisor,
            0x17 => CpuMode::Abort,
            0x1F => CpuMode::System,
            _ => CpuMode::Undefined,
        }
    }
}

impl Default for CpuMode {
    fn default() -> (m: CpuMode)
        ensures
            m == CpuMode::User,
    {
        CpuMode::User
    }
}

/// The instruction set that the processor is fetching.
#[derive(Copy, Clone, Eq, PartialEq, Structural, Debug)]
pub enum InstructionMode {
    Arm,
    Thumb,
}

impl InstructionMode {
    /// The distance between two instructions: 4 bytes in ARM, 2 in Thumb.
    pub open spec fn stride_spec(self) -> u32 {
        match self {
            InstructionMode::Arm => 4,
            InstructionMode::Thumb => 2,
        }
    }

    pub fn stride(self) -> (s: u32)
        ensures
            s == self.stride_spec(),
    {
        match self {
            InstructionMode::Arm => 4,
            InstructionMode::Thumb => 2,
        }
    }
}

impl Default for InstructionMode {
    fn default() -> (m: InstructionMode)
        ensures
            m == InstructionMode::Arm,
    {
        InstructionMode::Arm
    }
}

/// A program status register, current or saved.
#[derive(Copy, Clone, Eq, PartialEq, Structural, Debug)]
pub struct ProgramStatusRegister {
    pub signed: bool,
    pub zero: bool,
    pub carry: bool,
    pub overflow: bool,
    pub sticky_overflow: bool,
    pub irq_disable: bool,
    pub fiq_disable: bool,
    pub instruction_mode: InstructionMode,
    pub mode: CpuMode,
}

pub open spec fn flag_bit(flag: bool, mask: u32) -> u32 {
    if flag {
        mask
    } else {
        0
    }
}

impl ProgramStatusRegister {
    /// The 32-bit form: N, Z, C, V, Q at bits 31 to 27, I and F at bits 7 and
    /// 6, T at bit 5, the mode at bits 4 to 0.
    pub open spec fn pack(self) -> u32 {
        flag_bit(self.signed, 0x8000_0000) | flag_bit(self.zero, 0x4000_0000) | flag_bit(
            self.carry,
            0x2000_0000,
        ) | flag_bit(self.overflow, 0x1000_0000) | flag_bit(self.sticky_overflow, 0x0800_0000)
            | flag_bit(self.irq_disable, 0x80) | flag_bit(self.fiq_disable, 0x40) | flag_bit(
            self.instruction_mode == InstructionMode::Thumb,
            0x20,
        ) | self.mode.bits_spec()
    }

    /// The status that a 32-bit word stands for. Bits outside the layout are
    /// ignored.
    pub open spec fn unpack(psr: u32) -> ProgramStatusRegister {
        ProgramStatusRegister {
            signed: psr & 0x8000_0000 != 0,
            zero: psr & 0x4000_0000 != 0,
            carry: psr & 0x2000_0000 != 0,
            overflow: psr & 0x1000_0000 != 0,
            sticky_overflow: psr & 0x0800_0000 != 0,
            irq_disable: psr & 0x80 != 0,
            fiq_disable: psr & 0x40 != 0,
            instruction_mode: if psr & 0x20 != 0 {
                InstructionMode::Thumb
            } else {
                InstructionMode::Arm
            },
            mode: CpuMode::from_bits_spec(psr & 0x1F),
        }
    }

    /// The status after reset of the fields: no flag set, ARM, User mode.
    pub open spec fn cleared() -> ProgramStatusRegister {
        ProgramStatusRegister {
            signed: false,
            zero: false,
            carry: false,
            overflow: false,
            sticky_overflow: false,
            irq_disable: false,
            fiq_disable: false,
            instruction_mode: InstructionMode::Arm,
            mode: CpuMode::User,
        }
    }

    pub fn to_u32(&self) -> (psr: u32)
        ensures
            psr == self.pack(),
    {
        let n: u32 = if self.signed { 0x8000_0000 } else { 0 };
        let z: u32 = if self.zero { 0x4000_0000 } else { 0 };
        let c: u32 = if self.carry { 0x2000_0000 } else { 0 };
        let v: u32 = if self.overflow { 0x1000_0000 } else { 0 };
        let q: u32 = if self.sticky_overflow { 0x0800_0000 } else { 0 };
        let i: u32 = if self.irq_disable { 0x80 } else { 0 };
        let f: u32 = if self.fiq_disable { 0x40 } else { 0 };
        let t: u32 = match self.instruction_mode {
            InstructionMode::Thumb => 0x20,
            InstructionMode::Arm => 0,
        };
        n | z | c | v | q | i | f | t | self.mode.to_u32()
    }

    pub fn from_u32(psr: u32) -> (status: ProgramStatusRegister)
        ensures
            status == ProgramStatusRegister::unpack(psr),
    {
        ProgramStatusRegister {
            signed: psr & 0x8000_0000 != 0,
            zero: psr & 0x4000_0000 != 0,
            carry: psr & 0x2000_0000 != 0,
            overflow: psr & 0x1000_0000 != 0,
            sticky_overflow: psr & 0x0800_0000 != 0,
            irq_disable: psr & 0x80 != 0,
            fiq_disable: psr & 0x40 != 0,
            instruction_mode: if psr & 0x20 != 0 {
                InstructionMode::Thumb
            } else {
                InstructionMode::Arm
            },
            mode: CpuMode::from_u32(psr & 0x1F),
        }
    }
}

impl Default for ProgramStatusRegister {
    fn default() -> (status: ProgramStatusRegister)
        ensures
            status == ProgramStatusRegister::cleared(),
    {
        ProgramStatusRegister {
            signed: false,
            zero: false,
            carry: false,
            overflow: false,
            sticky_overflow: false,
            irq_disable: false,
            fiq_disable: false,
            instruction_mode: InstructionMode::Arm,
            mode: CpuMode::User,
        }
    }
}

proof fn lemma_mode_bits_fit(bits: u32)
    by (bit_vector)
    requires
        bits == 0x10 || bits == 0x11 || bits == 0x12 || bits == 0x13 || bits == 0x17 || bits
            == 0x1B || bits == 0x1F,
    ensures
        bits & 0x1F == bits,
{
}

proof fn lemma_packed_fields(n: u32, z: u32, c: u32, v: u32, q: u32, i: u32, f: u32, t: u32, m: u32)
    by (bit_vector)
    requires
        n == 0 || n == 0x8000_0000,
        z == 0 || z == 0x4000_0000,
        c == 0 || c == 0x2000_0000,
        v == 0 || v == 0x1000_0000,
        q == 0 || q == 0x0800_0000,
        i == 0 || i == 0x80,
        f == 0 || f == 0x40,
        t == 0 || t == 0x20,
        m & 0x1F == m,
    ensures
        (n | z | c | v | q | i | f | t | m) & 0x8000_0000 == n,
        (n | z | c | v | q | i | f | t | m) & 0x4000_0000 == z,
        (n | z | c | v | q | i | f | t | m) & 0x2000_0000 == c,
        (n | z | c | v | q | i | f | t | m) & 0x1000_0000 == v,
        (n | z | c | v | q | i | f | t | m) & 0x0800_0000 == q,
        (n | z | c | v | q | i | f | t | m) & 0x80 == i,
        (n | z | c | v | q | i | f | t | m) & 0x40 == f,
        (n | z | c | v | q | i | f | t | m) & 0x20 == t,
        (n | z | c | v | q | i | f | t | m) & 0x1F == m,
{
}

/// Each mode is found again from its own five bits.
pub proof fn lemma_mode_round_trip(mode: CpuMode)
    ensures
        CpuMode::from_bits_spec(mode.bits_spec()) == mode,
        mode.bits_spec() & 0x1F == mode.bits_spec(),
{
    lemma_mode_bits_fit(mode.bits_spec());
}

/// Unpacking the packed form of a status gives that status back.
pub proof fn lemma_pack_unpack(status: ProgramStatusRegister)
    ensures
        ProgramStatusRegister::unpack(status.pack()) == status,
{
    lemma_mode_round_trip(status.mode);
    lemma_packed_fields(
        flag_bit(status.signed, 0x8000_0000),
        flag_bit(status.zero, 0x4000_0000),
        flag_bit(status.carry, 0x2000_0000),
        flag_bit(status.overflow, 0x1000_0000),
        flag_bit(status.sticky_overflow, 0x0800_0000),
        flag_bit(status.irq_disable, 0x80),
        flag_bit(status.fiq_disable, 0x40),
        flag_bit(status.instruction_mode == InstructionMode::Thumb, 0x20),
        status.mode.bits_spec(),
    );
}

} // verus!
