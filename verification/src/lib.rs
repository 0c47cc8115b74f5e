mod devices;
pub mod hardware;
pub mod vm;

pub use crate::hardware::{
    DecodedInstruction, Flags, HardwareError, Instruction, MemoryMappedRegisters, Register,
    TrapCode,
};
pub use crate::vm::{read_image_file, LC3VirtualMachine, VMError};
