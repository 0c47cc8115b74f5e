use vstd::prelude::*;

verus! {

/// Errors that arise while decoding one machine word into its parts.
#[derive(Debug, PartialEq)]
pub enum HardwareError {
    ErrorDecodingRegister(u16),
    ErrorDecodingFlag(u16),
    InvalidInstruction(u16),
    InvalidTrapCode(u16),
}

/// The ten storage cells of the machine: eight general-purpose registers,
/// the program counter and the condition-flag register.
#[derive(Clone, Copy, Debug)]
pub enum Register {
    R0,
    R1,
    R2,
    R3,
    R4,
    R5,
    R6,
    R7,
    PC,
    COND,
}

impl Register {
    /// The one centralized mapping from a register to its offset in the
    /// register file; every read and write path goes through it.
    pub open spec fn offset_spec(self) -> int {
        match self {
            Register::R0 => 0,
            Register::R1 => 1,
            Register::R2 => 2,
            Register::R3 => 3,
            Register::R4 => 4,
            Register::R5 => 5,
            Register::R6 => 6,
            Register::R7 => 7,
            Register::PC => 8,
            Register::COND => 9,
        }
    }

    /// Executable form of the register-to-offset mapping.
    pub fn offset(self) -> (r: usize)
        ensures
            r == self.offset_spec(),
    {
        match self {
            Register::R0 => 0,
            Register::R1 => 1,
            Register::R2 => 2,
            Register::R3 => 3,
            Register::R4 => 4,
            Register::R5 => 5,
            Register::R6 => 6,
            Register::R7 => 7,
            Register::PC => 8,
            Register::COND => 9,
        }
    }

    /// Fallible parse of a register number; numbers above 9 name no register.
    pub fn from_u16(value: u16) -> (r: Result<Self, HardwareError>)
        ensures
            value <= 9 ==> (r matches Ok(reg) && reg.offset_spec() == value),
            value > 9 ==> r == Err::<Self, HardwareError>(HardwareError::ErrorDecodingRegister(value)),
    {
        match value {
            0 => Ok(Self::R0),
            1 => Ok(Self::R1),
            2 => Ok(Self::R2),
            3 => Ok(Self::R3),
            4 => Ok(Self::R4),
            5 => Ok(Self::R5),
            6 => Ok(Self::R6),
            7 => Ok(Self::R7),
            8 => Ok(Self::PC),
            9 => Ok(Self::COND),
            _ => Err(HardwareError::ErrorDecodingRegister(value)),
        }
    }
}

/// A branch-condition test mask over the three condition flags. The three
/// single flags are the only values ever stored in the condition register;
/// the combined values are only ever used as test masks.
#[derive(Clone, Copy, Debug)]
pub enum Flags {
    Pos,
    Zro,
    Neg,
    PosZro,
    NotZro,
    PosNeg,
    PosZroNeg,
    NoFlag,
}

impl Flags {
    /// The bit mask a flag value stands for: Pos = 1, Zro = 2, Neg = 4,
    /// and each combination the bitwise or of its parts.
    pub open spec fn mask_spec(self) -> u16 {
        match self {
            Flags::NoFlag => 0,
            Flags::Pos => 1,
            Flags::Zro => 2,
            Flags::PosZro => 3,
            Flags::Neg => 4,
            Flags::PosNeg => 5,
            Flags::NotZro => 6,
            Flags::PosZroNeg => 7,
        }
    }

    /// Executable form of the flag-to-mask mapping.
    pub fn mask(self) -> (r: u16)
        ensures
            r == self.mask_spec(),
    {
        match self {
            Flags::NoFlag => 0,
            Flags::Pos => 1,
            Flags::Zro => 2,
            Flags::PosZro => 3,
            Flags::Neg => 4,
            Flags::PosNeg => 5,
            Flags::NotZro => 6,
            Flags::PosZroNeg => 7,
        }
    }

    /// Fallible parse of a three-bit condition mask field.
    pub fn from_u16(value: u16) -> (r: Result<Self, HardwareError>)
        ensures
            value <= 7 ==> (r matches Ok(flag) && flag.mask_spec() == value),
            value > 7 ==> r == Err::<Self, HardwareError>(HardwareError::ErrorDecodingFlag(value)),
    {
        match value {
            0 => Ok(Self::NoFlag),
            1 => Ok(Self::Pos),
            2 => Ok(Self::Zro),
            3 => Ok(Self::PosZro),
            4 => Ok(Self::Neg),
            5 => Ok(Self::PosNeg),
            6 => Ok(Self::NotZro),
            7 => Ok(Self::PosZroNeg),
            _ => Err(HardwareError::ErrorDecodingFlag(value)),
        }
    }
}

/// The fourteen defined operations. Opcodes 8 and 13 are architecturally
/// reserved and never decode to an instruction.
#[derive(Clone, Copy, Debug)]
pub enum Instruction {
    OpBR,
    OpADD,
    OpLD,
    OpST,
    OpJSR,
    OpAND,
    OpLDR,
    OpSTR,
    OpNOT,
    OpLDI,
    OpSTI,
    OpJMP,
    OpLEA,
    OpTRAP,
}

impl Instruction {
    /// The opcode number of each defined instruction.
    pub open spec fn opcode_spec(self) -> u16 {
        match self {
            Instruction::OpBR => 0,
            Instruction::OpADD => 1,
            Instruction::OpLD => 2,
            Instruction::OpST => 3,
            Instruction::OpJSR => 4,
            Instruction::OpAND => 5,
            Instruction::OpLDR => 6,
            Instruction::OpSTR => 7,
            Instruction::OpNOT => 9,
            Instruction::OpLDI => 10,
            Instruction::OpSTI => 11,
            Instruction::OpJMP => 12,
            Instruction::OpLEA => 14,
            Instruction::OpTRAP => 15,
        }
    }

    /// True of the opcode numbers that name a defined instruction.
    pub open spec fn opcode_defined(value: u16) -> bool {
        value <= 15 && value != 8 && value != 13
    }

    /// Fallible parse of a four-bit opcode; the two reserved opcodes and any
    /// number above 15 are rejected.
    pub fn from_u16(value: u16) -> (r: Result<Self, HardwareError>)
        ensures
            Self::opcode_defined(value) ==> (r matches Ok(op) && op.opcode_spec() == value),
            !Self::opcode_defined(value) ==> r == Err::<Self, HardwareError>(
                HardwareError::InvalidInstruction(value),
            ),
    {
        match value {
            0 => Ok(Self::OpBR),
            1 => Ok(Self::OpADD),
            2 => Ok(Self::OpLD),
            3 => Ok(Self::OpST),
            4 => Ok(Self::OpJSR),
            5 => Ok(Self::OpAND),
            6 => Ok(Self::OpLDR),
            7 => Ok(Self::OpSTR),
            9 => Ok(Self::OpNOT),
            10 => Ok(Self::OpLDI),
            11 => Ok(Self::OpSTI),
            12 => Ok(Self::OpJMP),
            14 => Ok(Self::OpLEA),
            15 => Ok(Self::OpTRAP),
            _ => Err(HardwareError::InvalidInstruction(value)),
        }
    }
}

/// All bit fields of one machine word, extracted once per fetch and consumed
/// immediately. Which fields are meaningful depends on the opcode.
pub struct DecodedInstruction {
    pub op_code: u16,
    pub dst: Register,
    pub src: Register,
    pub alu_operand2: u16,
    pub imm6: u16,
    pub imm9: u16,
    pub imm11: u16,
    pub base_for_jump: u16,
    pub mode_alu: u16,
    pub flags: u16,
    pub mode_jump: u16,
    pub trapvect8: u16,
}

/// Every field of a decoded instruction equals the bit field of the word it
/// was extracted from.
pub open spec fn decoded_matches(d: DecodedInstruction, word: u16) -> bool {
    &&& d.op_code == word >> 12
    &&& d.dst.offset_spec() == (word >> 9) & 0x7
    &&& d.src.offset_spec() == (word >> 6) & 0x7
    &&& d.alu_operand2 == word & 0x1F
    &&& d.imm6 == word & 0x3F
    &&& d.imm9 == word & 0x1FF
    &&& d.imm11 == word & 0x7FF
    &&& d.base_for_jump == (word >> 6) & 0x7
    &&& d.mode_alu == (word >> 5) & 0x1
    &&& d.flags == (word >> 9) & 0x7
    &&& d.mode_jump == (word >> 11) & 0x1
    &&& d.trapvect8 == word & 0xFF
}

impl DecodedInstruction {
    /// Pure extraction of every bit field of one word. The three-bit register
    /// fields always name a general-purpose register, so the defensive
    /// register parse never fails.
    pub fn decode_instruction(instruction_16: u16) -> (r: Result<DecodedInstruction, HardwareError>)
        ensures
            r matches Ok(d) && decoded_matches(d, instruction_16),
    {
        let dst_reg = (instruction_16 >> 9) & 0x7;
        let src_reg = (instruction_16 >> 6) & 0x7;
        assert((instruction_16 >> 9) & 0x7 <= 9 && (instruction_16 >> 6) & 0x7 <= 9) by (bit_vector);
        Ok(Self {
            op_code: instruction_16 >> 12,
            dst: Register::from_u16(dst_reg)?,
            src: Register::from_u16(src_reg)?,
            alu_operand2: instruction_16 & 0x1F,
            imm6: instruction_16 & 0x3F,
            imm9: instruction_16 & 0x1FF,
            imm11: instruction_16 & 0x7FF,
            base_for_jump: (instruction_16 >> 6) & 0x7,
            mode_alu: (instruction_16 >> 5) & 0x1,
            flags: (instruction_16 >> 9) & 0x7,
            mode_jump: (instruction_16 >> 11) & 0x1,
            trapvect8: instruction_16 & 0xFF,
        })
    }
}

/// The six trap vectors with a defined service routine.
#[derive(Clone, Copy, Debug)]
pub enum TrapCode {
    Getc,
    Out,
    Puts,
    In,
    Putsp,
    Halt,
}

impl TrapCode {
    /// The trap vector each code stands for.
    pub open spec fn vector_spec(self) -> u16 {
        match self {
            TrapCode::Getc => 0x20,
            TrapCode::Out => 0x21,
            TrapCode::Puts => 0x22,
            TrapCode::In => 0x23,
            TrapCode::Putsp => 0x24,
            TrapCode::Halt => 0x25,
        }
    }

    /// Fallible parse of an eight-bit trap vector; only 0x20 through 0x25
    /// name a service routine.
    pub fn from_u16(value: u16) -> (r: Result<Self, HardwareError>)
        ensures
            0x20 <= value <= 0x25 ==> (r matches Ok(code) && code.vector_spec() == value),
            !(0x20 <= value <= 0x25) ==> r == Err::<Self, HardwareError>(
                HardwareError::InvalidTrapCode(value),
            ),
    {
        match value {
            0x20 => Ok(Self::Getc),
            0x21 => Ok(Self::Out),
            0x22 => Ok(Self::Puts),
            0x23 => Ok(Self::In),
            0x24 => Ok(Self::Putsp),
            0x25 => Ok(Self::Halt),
            _ => Err(HardwareError::InvalidTrapCode(value)),
        }
    }
}

/// The two memory addresses that alias device registers: the keyboard status
/// register and the keyboard data register.
#[derive(Clone, Copy, Debug)]
pub enum MemoryMappedRegisters {
    MrKBSR,
    MrKBDR,
}

impl MemoryMappedRegisters {
    /// The memory address each device register is aliased to.
    pub open spec fn address_spec(self) -> u16 {
        match self {
            MemoryMappedRegisters::MrKBSR => 0xFE00,
            MemoryMappedRegisters::MrKBDR => 0xFE02,
        }
    }

    /// Executable form of the device-register address mapping.
    pub fn address(self) -> (r: u16)
        ensures
            r == self.address_spec(),
    {
        match self {
            MemoryMappedRegisters::MrKBSR => 0xFE00,
            MemoryMappedRegisters::MrKBDR => 0xFE02,
        }
    }
}

} // verus!
