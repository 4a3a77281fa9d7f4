//! An interpreter core for the ARM7TDMI: the banked register file, the barrel
//! shifter, the memory bus with its devices, the ARM and Thumb decoders, the
//! executors of each instruction family and the three-stage pipeline.
//!
//! Every function states what it computes over the mathematical models that
//! stand beside the data types, and is proved to meet that statement.

pub mod arm;
pub mod bits;
pub mod bus;
pub mod bus_laws;
pub mod cpu;
pub mod disasm;
pub mod error;
pub mod instruction;
pub mod interpreter;
pub mod laws;
pub mod machine;
pub mod memory;
pub mod register;
pub mod shift;
pub mod status;
pub mod thumb;

pub use arm::arithmetic::{DataProcessingInstruction, DataProcessingOperation};
pub use arm::branch::{BranchAndExchangeInstruction, BranchInstruction};
pub use arm::halfword::{HalfwordDataOffset, HalfwordDataTransferRegInstruction};
pub use arm::interrupt::SoftwareInterruptInstruction;
pub use arm::transfer::{BlockDataTransferInstruction, PsrTransferMrsInstruction,
    PsrTransferMsrInstruction, SingleDataSwapInstruction, SingleDataTransferInstruction};
pub use bus::{Addressable, Bus, BusModel, Device, DeviceModel, MappingModel, MemoryMapping};
pub use cpu::Cpu;
pub use disasm::print_offset_as_immediate;
pub use error::CoreError;
pub use instruction::{Instruction, InstructionExecutor, Operand, Operation, Outcome};
pub use interpreter::Interpreter;
pub use machine::Gba;
pub use memory::bios::Bios;
pub use memory::lcd::Lcd;
pub use memory::system_io::SystemIoFlags;
pub use memory::wram::Wram;
pub use register::RegisterBank;
pub use shift::{rotated_immediate, ImmediateShift, RegisterShift, Shift, ShiftType};
pub use status::{CpuMode, InstructionMode, ProgramStatusRegister};
pub use thumb::branch::LongBranchWithLinkInstruction;
