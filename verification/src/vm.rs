use vstd::prelude::*;

use crate::devices;
use crate::hardware::{
    DecodedInstruction, Flags, HardwareError, Instruction, Register, TrapCode,
};

verus! {

broadcast use vstd::string::to_string_from_display_ensures_for_str;

/// Number of words in the address space.
pub const MEMORY_SIZE: usize = 65536;

/// Number of cells in the register file: eight general-purpose registers,
/// the program counter at offset 8 and the condition flags at offset 9.
pub const REGISTER_COUNT: usize = 10;

/// Address of the memory-mapped keyboard status register.
pub const KBSR_ADDRESS: u16 = 0xFE00;

/// Address of the memory-mapped keyboard data register.
pub const KBDR_ADDRESS: u16 = 0xFE02;

/// Errors that end a run of the machine; none is retried internally.
#[derive(Debug, PartialEq)]
pub enum VMError {
    FailedToLoadImage(String),
    InvalidInstruction(HardwareError),
    IOError(String),
    InvalidTrapCode(HardwareError),
    TerminalError(String),
    InvalidAddress(u16),
}

/// The mathematical model of one machine: the word-addressed memory, the
/// register file, the run state and the configured load origin.
#[verifier::ext_equal]
pub struct VmState {
    pub memory: Seq<u16>,
    pub registers: Seq<u16>,
    pub running: bool,
    pub origin: u16,
}

impl VmState {
    /// A well-formed machine has exactly 65536 memory words and 10 registers.
    pub open spec fn wf(self) -> bool {
        &&& self.memory.len() == MEMORY_SIZE
        &&& self.registers.len() == REGISTER_COUNT
    }

    /// The register at the given offset.
    pub open spec fn reg(self, offset: int) -> u16 {
        self.registers[offset]
    }

    /// The program counter.
    pub open spec fn pc(self) -> u16 {
        self.registers[8]
    }

    /// The condition-flag register.
    pub open spec fn cond(self) -> u16 {
        self.registers[9]
    }

    /// The same machine with one register replaced.
    pub open spec fn with_reg(self, offset: int, value: u16) -> VmState {
        VmState { registers: self.registers.update(offset, value), ..self }
    }

    /// The same machine with one memory word replaced.
    pub open spec fn with_mem(self, address: int, value: u16) -> VmState {
        VmState { memory: self.memory.update(address, value), ..self }
    }

    /// The same machine with the run state replaced.
    pub open spec fn with_running(self, running: bool) -> VmState {
        VmState { running, ..self }
    }
}

/// Addition of two words, wrapped modulo 65536. All address and register
/// arithmetic of the machine uses this operation, so overflow is defined
/// behaviour, never a fault.
pub open spec fn wrap_add(x: u16, y: u16) -> u16 {
    if x + y > 0xFFFF {
        (x + y - 0x10000) as u16
    } else {
        (x + y) as u16
    }
}

/// Sign extension of a field of the given width to 16 bits: when the top bit
/// of the field is set, all bit positions at and above the width are filled
/// with ones; otherwise the field is returned unchanged.
pub open spec fn sign_extend(value: u16, width: u16) -> u16
    recommends
        1 <= width < 16,
{
    if (value >> (width - 1) as u16) & 1 == 1 {
        value | (0xFFFFu16 << width)
    } else {
        value
    }
}

/// The condition flag a result classifies to: Zro = 2 for zero, Pos = 1 when
/// bit 15 is clear, Neg = 4 when bit 15 is set. Exactly one flag, never a
/// combination.
pub open spec fn flag_for(value: u16) -> u16 {
    if value == 0 {
        2
    } else if value < 0x8000 {
        1
    } else {
        4
    }
}

/// A 16-bit word read as a two's-complement signed number.
pub open spec fn as_signed(word: u16) -> int {
    if word < 0x8000 {
        word as int
    } else {
        word - 0x10000
    }
}

/// An n-bit field read as a two's-complement signed number.
pub open spec fn field_as_signed(value: u16, width: u16) -> int
    recommends
        1 <= width < 16,
        value < (1u16 << width),
{
    if value < (1u16 << (width - 1) as u16) {
        value as int
    } else {
        value - (1u16 << width)
    }
}

/// Sign extension preserves the signed value of the field: for every field
/// width the machine uses and every value of that width, the extended word is
/// the field itself when its top bit is clear and the field with the upper
/// mask set otherwise, and read as 16-bit two's complement it equals the
/// signed reading of the original field.
pub proof fn lemma_sign_extend_correct(value: u16, width: u16)
    requires
        width == 5 || width == 6 || width == 9 || width == 11,
        value < (1u16 << width),
    ensures
        (value >> (width - 1) as u16) & 1 == 0 ==> sign_extend(value, width) == value,
        (value >> (width - 1) as u16) & 1 == 1 ==> sign_extend(value, width) == value | (
        0xFFFFu16 << width),
        as_signed(sign_extend(value, width)) == field_as_signed(value, width),
{
    assert((value >> (width - 1) as u16) & 1 == 0 || (value >> (width - 1) as u16) & 1 == 1)
        by (bit_vector);
    if width == 5 {
        assert(value < (1u16 << 5u16) ==> {
            &&& (value >> 4u16) & 1 == 0 ==> value < 0x8000 && (value < (1u16 << 4u16))
            &&& (value >> 4u16) & 1 == 1 ==> (value | (0xFFFFu16 << 5u16)) >= 0x8000 && !(value < (
            1u16 << 4u16)) && (value | (0xFFFFu16 << 5u16)) == value + 0x10000 - (1u16 << 5u16)
        }) by (bit_vector);
    } else if width == 6 {
        assert(value < (1u16 << 6u16) ==> {
            &&& (value >> 5u16) & 1 == 0 ==> value < 0x8000 && (value < (1u16 << 5u16))
            &&& (value >> 5u16) & 1 == 1 ==> (value | (0xFFFFu16 << 6u16)) >= 0x8000 && !(value < (
            1u16 << 5u16)) && (value | (0xFFFFu16 << 6u16)) == value + 0x10000 - (1u16 << 6u16)
        }) by (bit_vector);
    } else if width == 9 {
        assert(value < (1u16 << 9u16) ==> {
            &&& (value >> 8u16) & 1 == 0 ==> value < 0x8000 && (value < (1u16 << 8u16))
            &&& (value >> 8u16) & 1 == 1 ==> (value | (0xFFFFu16 << 9u16)) >= 0x8000 && !(value < (
            1u16 << 8u16)) && (value | (0xFFFFu16 << 9u16)) == value + 0x10000 - (1u16 << 9u16)
        }) by (bit_vector);
    } else {
        assert(value < (1u16 << 11u16) ==> {
            &&& (value >> 10u16) & 1 == 0 ==> value < 0x8000 && (value < (1u16 << 10u16))
            &&& (value >> 10u16) & 1 == 1 ==> (value | (0xFFFFu16 << 11u16)) >= 0x8000 && !(value
                < (1u16 << 10u16)) && (value | (0xFFFFu16 << 11u16)) == value + 0x10000 - (1u16
                << 11u16)
        }) by (bit_vector);
    }
}

/// The stored condition value is always exactly one of Pos = 1, Zro = 2 or
/// Neg = 4 — never zero and never a combination. Every flag-affecting
/// operation stores `flag_for` of its result, as its contract states, so this
/// holds of the condition register after any such operation.
pub proof fn lemma_stored_cond_exclusive()
    ensures
        forall|value: u16|
            #[trigger] flag_for(value) == 1 || flag_for(value) == 2 || flag_for(value) == 4,
{
}

/// Address arithmetic wraps modulo 65536: the wrapped sum of any two words is
/// their mathematical sum reduced modulo 65536, and it always stays a word,
/// so computed addresses never overflow.
pub proof fn lemma_address_arith_wraps(base: u16, offset: u16)
    ensures
        wrap_add(base, offset) == (base + offset) % 0x10000,
        wrap_add(base, offset) < 0x10000,
{
    if base + offset > 0xFFFF {
        assert((base + offset) % 0x10000 == base + offset - 0x10000) by (nonlinear_arith)
            requires
                0x10000 <= base + offset < 0x20000,
        ;
    } else {
        assert((base + offset) % 0x10000 == base + offset) by (nonlinear_arith)
            requires
                0 <= base + offset < 0x10000,
        ;
    }
}

/// The second operand of an ADD or AND: in register mode the register named
/// by the operand field, in immediate mode the sign-extended five-bit field,
/// and zero for any other mode value.
pub open spec fn alu_operand(pre: VmState, mode: u16, second_operand: u16) -> u16 {
    if mode == 0 {
        pre.reg(second_operand as int)
    } else if mode == 1 {
        sign_extend(second_operand, 5)
    } else {
        0
    }
}

/// What ADD leaves behind: the destination holds the wrapped sum of the
/// first source register and the second operand, and the condition register
/// classifies that result.
pub open spec fn add_post(
    pre: VmState,
    post: VmState,
    dst: int,
    src1: int,
    mode: u16,
    second_operand: u16,
) -> bool {
    let result = if mode == 0 || mode == 1 {
        wrap_add(pre.reg(src1), alu_operand(pre, mode, second_operand))
    } else {
        0
    };
    post == pre.with_reg(dst, result).with_reg(9, flag_for(result))
}

/// What AND leaves behind: the destination holds the bitwise and of the
/// first source register and the second operand, and the condition register
/// classifies that result.
pub open spec fn and_post(
    pre: VmState,
    post: VmState,
    dst: int,
    src1: int,
    mode: u16,
    second_operand: u16,
) -> bool {
    let result = if mode == 0 || mode == 1 {
        pre.reg(src1) & alu_operand(pre, mode, second_operand)
    } else {
        0
    };
    post == pre.with_reg(dst, result).with_reg(9, flag_for(result))
}

/// What BR leaves behind: when the test mask shares a bit with the stored
/// condition, the program counter moves by the sign-extended nine-bit
/// offset; otherwise nothing changes. Flags are not updated.
pub open spec fn branch_post(pre: VmState, post: VmState, mask: u16, pc_offset: u16) -> bool {
    if mask & pre.cond() != 0 {
        post == pre.with_reg(8, wrap_add(pre.pc(), sign_extend(pc_offset, 9)))
    } else {
        post == pre
    }
}

/// What JSR and JSRR leave behind: the program counter is saved in the link
/// register R7; then in long mode the program counter moves by the
/// sign-extended eleven-bit offset, and otherwise it takes the value of the
/// base register, read after the link save.
pub open spec fn jump_register_post(
    pre: VmState,
    post: VmState,
    long_flag: u16,
    operand: u16,
) -> bool {
    let saved = pre.with_reg(7, pre.pc());
    if long_flag == 1 {
        post == saved.with_reg(8, wrap_add(pre.pc(), sign_extend(operand, 11)))
    } else {
        post == saved.with_reg(8, saved.reg(operand as int))
    }
}

/// How one keyboard poll refreshes memory: when a byte arrives within the
/// timeout, the status register takes 0x8000 and the data register takes
/// that byte; when the timeout passes with no byte, the status register is
/// cleared to 0 and the data register keeps its value. No other word moves.
pub open spec fn poll_refresh(pre: Seq<u16>, post: Seq<u16>) -> bool {
    ||| exists|byte: u8|
        #![trigger pre.update(KBSR_ADDRESS as int, 0x8000).update(KBDR_ADDRESS as int, byte as u16)]
        post == pre.update(KBSR_ADDRESS as int, 0x8000).update(KBDR_ADDRESS as int, byte as u16)
    ||| post == pre.update(KBSR_ADDRESS as int, 0)
}

/// `mid` witnesses that memory went from `pre` to `post` through at most
/// two keyboard polls: each leg is either untouched or one poll.
pub open spec fn poll_link(pre: Seq<u16>, mid: Seq<u16>, post: Seq<u16>) -> bool {
    &&& (mid == pre || poll_refresh(pre, mid))
    &&& (post == mid || poll_refresh(mid, post))
}

/// Memory as the at most two reads of a load indirect leave it: untouched,
/// or refreshed by one keyboard poll, or by two polls in sequence.
pub open spec fn polls_between(pre: Seq<u16>, post: Seq<u16>) -> bool {
    exists|mid: Seq<u16>| poll_link(pre, mid, post)
}

/// What a memory read leaves behind. At any address but the keyboard status
/// register it is pure: the machine is unchanged and the stored word comes
/// back. A read of the status register first polls the keyboard: on success
/// the device registers are refreshed exactly as `poll_refresh` says —
/// status 0x8000 with the arrived byte in the data register, or status 0 on
/// a quiet timeout — and the refreshed status word comes back; when the
/// poll itself fails the machine is unchanged and an input-output error
/// comes back.
pub open spec fn mem_read_post(
    pre: VmState,
    post: VmState,
    address: u16,
    r: Result<u16, VMError>,
) -> bool {
    &&& post.registers == pre.registers
    &&& post.running == pre.running
    &&& post.origin == pre.origin
    &&& address != KBSR_ADDRESS ==> post == pre && r == Ok::<u16, VMError>(
        pre.memory[address as int],
    )
    &&& address == KBSR_ADDRESS ==> {
        &&& (r matches Ok(word) ==> poll_refresh(pre.memory, post.memory) && word
            == post.memory[address as int])
        &&& (r is Err ==> post == pre && (r matches Err(e) && e is IOError))
    }
}

/// What a load through a given address leaves behind. Away from the keyboard
/// status register the destination takes the stored word and the flags
/// classify it. At the status register the poll may refresh the device
/// registers first, and on a poll failure the machine is unchanged.
pub open spec fn load_post(
    pre: VmState,
    post: VmState,
    dst: int,
    address: u16,
    r: Result<(), VMError>,
) -> bool {
    if address != KBSR_ADDRESS {
        &&& r == Ok::<(), VMError>(())
        &&& post == pre.with_reg(dst, pre.memory[address as int]).with_reg(
            9,
            flag_for(pre.memory[address as int]),
        )
    } else {
        &&& (r is Ok ==> {
            &&& poll_refresh(pre.memory, post.memory)
            &&& post.running == pre.running
            &&& post.origin == pre.origin
            &&& post.registers == pre.registers.update(dst, post.memory[address as int]).update(
                9,
                flag_for(post.memory[address as int]),
            )
        })
        &&& (r is Err ==> post == pre && (r matches Err(e) && e is IOError))
    }
}

/// What a load indirect leaves behind when neither the pointer address nor
/// the pointed-to address is the keyboard status register: the destination
/// takes the word the pointer's word points at, and the flags classify it.
/// When either read touches the status register, only the frame is pinned:
/// memory changes as a poll allows, some loaded word stands in the
/// destination with the flags classifying it, and a failed poll leaves the
/// registers alone and surfaces an input-output error.
pub open spec fn load_indirect_post(
    pre: VmState,
    post: VmState,
    dst: int,
    address: u16,
    r: Result<(), VMError>,
) -> bool {
    if address != KBSR_ADDRESS && pre.memory[address as int] != KBSR_ADDRESS {
        &&& r == Ok::<(), VMError>(())
        &&& post == pre.with_reg(
            dst,
            pre.memory[pre.memory[address as int] as int],
        ).with_reg(9, flag_for(pre.memory[pre.memory[address as int] as int]))
    } else {
        &&& post.running == pre.running
        &&& post.origin == pre.origin
        &&& polls_between(pre.memory, post.memory)
        &&& (r is Ok ==> exists|value: u16|
            post.registers == pre.registers.update(dst, value).update(9, flag_for(value)))
        &&& (r is Err ==> post.registers == pre.registers && (r matches Err(e) && e is IOError))
    }
}

/// What a store indirect through a given pointer address leaves behind.
/// Away from the keyboard status register the source register lands at the
/// address the pointer's word names. At the status register the pointer
/// fetch polls first, the store then goes to the address the refreshed
/// status word names, and a failed poll leaves the machine unchanged.
pub open spec fn store_indirect_post(
    pre: VmState,
    post: VmState,
    src: int,
    address: u16,
    r: Result<(), VMError>,
) -> bool {
    if address != KBSR_ADDRESS {
        &&& r == Ok::<(), VMError>(())
        &&& post == pre.with_mem(pre.memory[address as int] as int, pre.reg(src))
    } else {
        &&& (r is Ok ==> {
            &&& post.registers == pre.registers
            &&& post.running == pre.running
            &&& post.origin == pre.origin
            &&& exists|polled: Seq<u16>|
                #![auto]
                poll_refresh(pre.memory, polled) && post.memory == polled.update(
                    polled[KBSR_ADDRESS as int] as int,
                    pre.reg(src),
                )
        })
        &&& (r is Err ==> post == pre && (r matches Err(e) && e is IOError))
    }
}

/// The bytes the PUTS routine emits: one low byte per word, from the start
/// address up to but not including the first zero word, stopping at the end
/// of memory at the latest.
pub open spec fn string_bytes(memory: Seq<u16>, address: int) -> Seq<u8>
    decreases MEMORY_SIZE - address,
{
    if address < 0 || address >= MEMORY_SIZE || memory[address] == 0 {
        Seq::empty()
    } else {
        seq![memory[address] as u8] + string_bytes(memory, address + 1)
    }
}

/// The bytes the PUTSP routine emits: two packed bytes per word in
/// little-endian order, stopping before any zero byte in either packed
/// position, and at the end of memory at the latest.
pub open spec fn packed_string_bytes(memory: Seq<u16>, address: int) -> Seq<u8>
    decreases MEMORY_SIZE - address,
{
    if address < 0 || address >= MEMORY_SIZE {
        Seq::empty()
    } else {
        let low = memory[address] as u8;
        let high = (memory[address] >> 8) as u8;
        if low == 0 {
            Seq::empty()
        } else if high == 0 {
            seq![low]
        } else {
            seq![low, high] + packed_string_bytes(memory, address + 1)
        }
    }
}

/// What the GETC routine leaves behind: on success only R0 changed, holding
/// one input byte; on failure nothing changed and an input-output error
/// comes back. Flags are not updated and the byte is not echoed.
pub open spec fn getc_post(pre: VmState, post: VmState, r: Result<(), VMError>) -> bool {
    &&& (r is Ok ==> {
        &&& post.memory == pre.memory
        &&& post.running == pre.running
        &&& post.origin == pre.origin
        &&& post.registers == pre.registers.update(0, post.registers[0])
        &&& post.registers[0] < 256
    })
    &&& (r is Err ==> post == pre && (r matches Err(e) && e is IOError))
}

/// What the IN routine leaves behind: on success R0 holds one input byte,
/// echoed to the output after a prompt, and the flags classify it; on
/// failure nothing changed and an input-output error comes back.
pub open spec fn read_echo_post(pre: VmState, post: VmState, r: Result<(), VMError>) -> bool {
    &&& (r is Ok ==> {
        &&& post.memory == pre.memory
        &&& post.running == pre.running
        &&& post.origin == pre.origin
        &&& post.registers == pre.registers.update(0, post.registers[0]).update(
            9,
            flag_for(post.registers[0]),
        )
        &&& post.registers[0] < 256
    })
    &&& (r is Err ==> post == pre && (r matches Err(e) && e is IOError))
}

/// What the pure output routines OUT, PUTS and PUTSP leave behind: the
/// machine is unchanged, and a failed write or flush surfaces an
/// input-output error.
pub open spec fn output_only_post(pre: VmState, post: VmState, r: Result<(), VMError>) -> bool {
    &&& post == pre
    &&& (r is Err ==> (r matches Err(e) && e is IOError))
}

/// What the HALT routine leaves behind: on success only the run state is
/// cleared, after the output was flushed; a failed flush changes nothing and
/// surfaces an input-output error.
pub open spec fn halt_post(pre: VmState, post: VmState, r: Result<(), VMError>) -> bool {
    &&& (r is Ok ==> post == pre.with_running(false))
    &&& (r is Err ==> post == pre && (r matches Err(e) && e is IOError))
}

/// What each trap service routine leaves behind.
pub open spec fn trap_post(
    pre: VmState,
    post: VmState,
    trap_code: TrapCode,
    r: Result<(), VMError>,
) -> bool {
    match trap_code {
        TrapCode::Getc => getc_post(pre, post, r),
        TrapCode::In => read_echo_post(pre, post, r),
        TrapCode::Out => output_only_post(pre, post, r),
        TrapCode::Puts => output_only_post(pre, post, r),
        TrapCode::Putsp => output_only_post(pre, post, r),
        TrapCode::Halt => halt_post(pre, post, r),
    }
}

/// The second ALU operand field of a word: the three-bit register field in
/// register mode, the five-bit immediate field in immediate mode.
pub open spec fn alu_second_operand(word: u16) -> u16 {
    if (word >> 5) & 0x1 == 0 {
        word & 0x7
    } else {
        word & 0x1F
    }
}

/// The JSR operand of a word: the eleven-bit offset in long mode, the
/// three-bit base-register field otherwise.
pub open spec fn jsr_operand(word: u16) -> u16 {
    if (word >> 11) & 0x1 == 0 {
        (word >> 6) & 0x7
    } else {
        word & 0x7FF
    }
}

/// What a TRAP instruction leaves behind. The program counter is first saved
/// in the link register R7; an unknown vector then fails with
/// `InvalidTrapCode`, leaving that save in place. A known vector runs its
/// routine and, on success, restores the program counter from R7, which no
/// routine touches.
pub open spec fn trap_instruction_post(
    pre: VmState,
    post: VmState,
    vector: u16,
    r: Result<(), VMError>,
) -> bool {
    let saved = pre.with_reg(7, pre.pc());
    if !(0x20 <= vector <= 0x25) {
        post == saved && r == Err::<(), VMError>(
            VMError::InvalidTrapCode(HardwareError::InvalidTrapCode(vector)),
        )
    } else {
        &&& (r is Err ==> post == saved && (r matches Err(e) && e is IOError))
        &&& (r is Ok ==> {
            &&& post.memory == pre.memory
            &&& post.origin == pre.origin
            &&& (if vector == 0x25 {
                post.running == false
            } else {
                post.running == pre.running
            })
            &&& (if vector == 0x20 {
                post.registers == pre.registers.update(7, pre.pc()).update(
                    0,
                    post.registers[0],
                ).update(8, pre.pc()) && post.registers[0] < 256
            } else if vector == 0x23 {
                post.registers == pre.registers.update(7, pre.pc()).update(
                    0,
                    post.registers[0],
                ).update(9, flag_for(post.registers[0])).update(8, pre.pc())
                    && post.registers[0] < 256
            } else {
                post.registers == pre.registers.update(7, pre.pc()).update(8, pre.pc())
            })
        })
    }
}

/// What executing one fetched word leaves behind, for every opcode and for
/// the failure cases: a reserved or out-of-range opcode changes nothing and
/// fails with `InvalidInstruction`.
pub open spec fn instruction_post(
    pre: VmState,
    post: VmState,
    word: u16,
    r: Result<(), VMError>,
) -> bool {
    let op = word >> 12;
    let dst = ((word >> 9) & 0x7) as int;
    let sr1 = ((word >> 6) & 0x7) as int;
    let imm6 = word & 0x3F;
    let imm9 = word & 0x1FF;
    if !Instruction::opcode_defined(op) {
        post == pre && r == Err::<(), VMError>(
            VMError::InvalidInstruction(HardwareError::InvalidInstruction(op)),
        )
    } else if op == 0 {
        r == Ok::<(), VMError>(()) && branch_post(pre, post, (word >> 9) & 0x7, imm9)
    } else if op == 1 {
        r == Ok::<(), VMError>(()) && add_post(
            pre,
            post,
            dst,
            sr1,
            (word >> 5) & 0x1,
            alu_second_operand(word),
        )
    } else if op == 2 {
        load_post(pre, post, dst, wrap_add(pre.pc(), sign_extend(imm9, 9)), r)
    } else if op == 3 {
        r == Ok::<(), VMError>(()) && post == pre.with_mem(
            wrap_add(pre.pc(), sign_extend(imm9, 9)) as int,
            pre.reg(dst),
        )
    } else if op == 4 {
        r == Ok::<(), VMError>(()) && jump_register_post(pre, post, (word >> 11) & 0x1, jsr_operand(word))
    } else if op == 5 {
        r == Ok::<(), VMError>(()) && and_post(
            pre,
            post,
            dst,
            sr1,
            (word >> 5) & 0x1,
            alu_second_operand(word),
        )
    } else if op == 6 {
        load_post(pre, post, dst, wrap_add(pre.reg(sr1), sign_extend(imm6, 6)), r)
    } else if op == 7 {
        r == Ok::<(), VMError>(()) && post == pre.with_mem(
            wrap_add(pre.reg(sr1), sign_extend(imm6, 6)) as int,
            pre.reg(dst),
        )
    } else if op == 9 {
        r == Ok::<(), VMError>(()) && post == pre.with_reg(dst, !pre.reg(sr1)).with_reg(
            9,
            flag_for(!pre.reg(sr1)),
        )
    } else if op == 10 {
        load_indirect_post(pre, post, dst, wrap_add(pre.pc(), sign_extend(imm9, 9)), r)
    } else if op == 11 {
        store_indirect_post(pre, post, dst, wrap_add(pre.pc(), sign_extend(imm9, 9)), r)
    } else if op == 12 {
        r == Ok::<(), VMError>(()) && post == pre.with_reg(8, pre.reg(sr1))
    } else if op == 14 {
        r == Ok::<(), VMError>(()) && post == pre.with_reg(
            dst,
            wrap_add(pre.pc(), sign_extend(imm9, 9)),
        ).with_reg(9, flag_for(wrap_add(pre.pc(), sign_extend(imm9, 9))))
    } else {
        trap_instruction_post(pre, post, word & 0xFF, r)
    }
}

/// One complete, successful iteration of the dispatch loop from `pre` to
/// `post`: the machine is running, the word at the program counter is
/// fetched (possibly refreshing the device registers), the program counter
/// advances by one wrapping, and the fetched word executes as
/// `instruction_post` says. No step leaves a halted state, so a chain of
/// steps ends at the first halted state it produces.
pub open spec fn machine_step(pre: VmState, post: VmState) -> bool {
    &&& pre.running
    &&& exists|fetched: VmState, word: u16|
        #![auto]
        mem_read_post(pre, fetched, pre.pc(), Ok(word)) && instruction_post(
            fetched.with_reg(8, wrap_add(pre.pc(), 1)),
            post,
            word,
            Ok(()),
        )
}

/// One aborted iteration of the dispatch loop from the running state `pre`
/// to `post` with error `e`: either the fetch itself fails, leaving the
/// program counter where it was, or the fetch succeeds, the program counter
/// advances, and the execution fails.
pub open spec fn machine_abort(pre: VmState, post: VmState, e: VMError) -> bool {
    &&& pre.running
    &&& {
        ||| mem_read_post(pre, post, pre.pc(), Err(e))
        ||| exists|fetched: VmState, word: u16|
            #![auto]
            mem_read_post(pre, fetched, pre.pc(), Ok(word)) && instruction_post(
                fetched.with_reg(8, wrap_add(pre.pc(), 1)),
                post,
                word,
                Err(e),
            )
    }
}

/// `post` is reachable from `pre` by exactly `n` complete, successful
/// iterations of the dispatch loop.
pub open spec fn reaches_in(pre: VmState, post: VmState, n: nat) -> bool
    decreases n,
{
    if n == 0 {
        post == pre
    } else {
        exists|mid: VmState| #![auto] reaches_in(pre, mid, (n - 1) as nat) && machine_step(mid, post)
    }
}

/// The 16-bit word two big-endian bytes spell.
pub open spec fn be_word(hi: u8, lo: u8) -> u16 {
    (hi * 256 + lo) as u16
}

/// The origin address an image asks to be loaded at: its first big-endian
/// word.
pub open spec fn image_origin(bytes: Seq<u8>) -> u16
    recommends
        bytes.len() >= 2,
{
    be_word(bytes[0], bytes[1])
}

/// Whether a raw image is acceptable: an even number of bytes, at least one
/// word, and a word count that fits between its origin and the end of
/// memory.
pub open spec fn image_fits(bytes: Seq<u8>) -> bool {
    &&& bytes.len() % 2 == 0
    &&& bytes.len() >= 2
    &&& bytes.len() / 2 <= MEMORY_SIZE - image_origin(bytes)
}

/// One machine: the word-addressed memory with its two device-register
/// aliases, the ten-cell register file, the run state and the load origin.
pub struct LC3VirtualMachine {
    memory: Vec<u16>,
    registers: Vec<u16>,
    running: bool,
    origin: u16,
}

impl View for LC3VirtualMachine {
    type V = VmState;

    closed spec fn view(&self) -> VmState {
        VmState {
            memory: self.memory@,
            registers: self.registers@,
            running: self.running,
            origin: self.origin,
        }
    }
}

impl LC3VirtualMachine {
    /// A fresh machine: all memory and registers zero, not running, with the
    /// conventional load origin 0x3000.
    pub fn new() -> (r: Self)
        ensures
            r@.wf(),
            forall|i: int| 0 <= i < MEMORY_SIZE ==> r@.memory[i] == 0,
            forall|i: int| 0 <= i < REGISTER_COUNT ==> r@.registers[i] == 0,
            !r@.running,
            r@.origin == 0x3000,
    {
        let mut memory: Vec<u16> = Vec::new();
        while memory.len() < MEMORY_SIZE
            invariant
                memory@.len() <= MEMORY_SIZE,
                forall|i: int| 0 <= i < memory@.len() ==> memory@[i] == 0,
            decreases MEMORY_SIZE - memory.len(),
        {
            memory.push(0);
        }
        let mut registers: Vec<u16> = Vec::new();
        while registers.len() < REGISTER_COUNT
            invariant
                registers@.len() <= REGISTER_COUNT,
                forall|i: int| 0 <= i < registers@.len() ==> registers@[i] == 0,
            decreases REGISTER_COUNT - registers.len(),
        {
            registers.push(0);
        }
        Self { memory, registers, running: false, origin: 0x3000 }
    }

    /// The register named by the handle, through the centralized offset map.
    pub fn read_register(&self, register: Register) -> (r: u16)
        requires
            self@.wf(),
        ensures
            r == self@.reg(register.offset_spec()),
    {
        self.registers[register.offset()]
    }

    /// Replaces the register named by the handle, through the centralized
    /// offset map.
    pub fn write_register(&mut self, register: Register, value: u16)
        requires
            old(self)@.wf(),
        ensures
            final(self)@.wf(),
            final(self)@ == old(self)@.with_reg(register.offset_spec(), value),
    {
        let offset = register.offset();
        self.registers[offset] = value;
    }

    /// The memory word at an address, with no device side effect.
    pub fn read_memory(&self, address: u16) -> (r: u16)
        requires
            self@.wf(),
        ensures
            r == self@.memory[address as int],
    {
        self.memory[address as usize]
    }

    /// Whether the machine is still in its running state.
    pub fn running(&self) -> (r: bool)
        ensures
            r == self@.running,
    {
        self.running
    }

    /// Replaces the configured load origin.
    pub fn set_origin(&mut self, origin: u16)
        ensures
            final(self)@ == (VmState { origin, ..old(self)@ }),
    {
        self.origin = origin;
    }

    /// The number of memory words from the configured origin to the end of
    /// the address space.
    pub fn mem_available_space(&self) -> (r: usize)
        requires
            self@.wf(),
        ensures
            r == MEMORY_SIZE - self@.origin,
    {
        self.memory.len() - self.origin as usize
    }

    /// Points the program counter at the configured load origin.
    pub fn set_pc_with_origin(&mut self)
        requires
            old(self)@.wf(),
        ensures
            final(self)@.wf(),
            final(self)@ == old(self)@.with_reg(8, old(self)@.origin),
    {
        let origin = self.origin;
        self.write_register(Register::PC, origin);
    }

    /// Seeds the condition register with the Pos flag, the initial flag state
    /// before a run.
    pub fn turn_pos_flag_on(&mut self)
        requires
            old(self)@.wf(),
        ensures
            final(self)@.wf(),
            final(self)@ == old(self)@.with_reg(9, 1),
    {
        self.write_register(Register::COND, 1);
    }

    /// Classifies a result into its condition flag and stores that flag; the
    /// stored value is always exactly one of Pos = 1, Zro = 2, Neg = 4.
    pub fn update_flags(&mut self, result_from_operation: u16)
        requires
            old(self)@.wf(),
        ensures
            final(self)@.wf(),
            final(self)@ == old(self)@.with_reg(9, flag_for(result_from_operation)),
    {
        assert(result_from_operation & 0x8000 == 0 <==> result_from_operation < 0x8000)
            by (bit_vector);
        if result_from_operation == 0 {
            self.write_register(Register::COND, 2);
        } else if result_from_operation & 0x8000 == 0 {
            self.write_register(Register::COND, 1);
        } else {
            self.write_register(Register::COND, 4);
        }
    }

    /// Widens an immediate field of the given width to a 16-bit word,
    /// preserving its two's-complement value.
    pub fn extend_sign(&mut self, number: u16, imm_size: usize) -> (r: u16)
        requires
            1 <= imm_size < 16,
            old(self)@.wf(),
        ensures
            *final(self) == *old(self),
            r == sign_extend(number, imm_size as u16),
    {
        let width: u16 = imm_size as u16;
        let extend_mask: u16 = 0xFFFFu16 << width;
        if (number >> (width - 1)) & 1 == 1 {
            return number | extend_mask;
        }
        number
    }

    /// Whether the stored condition value meets a branch-condition test mask:
    /// true exactly when the mask and the condition register share a bit.
    pub fn flag_is_on(&self, flag: Flags) -> (r: bool)
        requires
            self@.wf(),
        ensures
            r == ((flag.mask_spec() & self@.cond()) != 0),
    {
        (flag.mask() & self.read_register(Register::COND)) != 0
    }

    /// Moves the program counter by the sign-extended nine-bit offset when
    /// the given test mask matches the stored condition flag.
    pub fn branch(&mut self, flag: Flags, pc_offset: u16)
        requires
            old(self)@.wf(),
        ensures
            final(self)@.wf(),
            branch_post(old(self)@, final(self)@, flag.mask_spec(), pc_offset),
    {
        if self.flag_is_on(flag) {
            let offset = self.extend_sign(pc_offset, 9);
            let target = self.read_register(Register::PC).wrapping_add(offset);
            self.write_register(Register::PC, target);
        }
    }

    /// Adds the first source register and the second operand — a register in
    /// mode 0, a sign-extended five-bit immediate in mode 1 — wrapping modulo
    /// 65536, stores the sum in the destination and updates the flags.
    pub fn add(&mut self, dst: Register, src1: Register, mode: u16, second_operand: u16)
        requires
            old(self)@.wf(),
            mode == 0 ==> second_operand < REGISTER_COUNT,
        ensures
            final(self)@.wf(),
            add_post(
                old(self)@,
                final(self)@,
                dst.offset_spec(),
                src1.offset_spec(),
                mode,
                second_operand,
            ),
    {
        let mut result: u16 = 0;
        if mode == 0 {
            result = self.read_register(src1).wrapping_add(self.registers[second_operand as usize]);
        } else if mode == 1 {
            let immediate = self.extend_sign(second_operand, 5);
            result = self.read_register(src1).wrapping_add(immediate);
        }
        self.write_register(dst, result);
        self.update_flags(result);
    }

    /// Bitwise-ands the first source register and the second operand — a
    /// register in mode 0, a sign-extended five-bit immediate in mode 1 —
    /// stores the result in the destination and updates the flags.
    pub fn and(&mut self, dst: Register, src1: Register, mode: u16, second_operand: u16)
        requires
            old(self)@.wf(),
            mode == 0 ==> second_operand < REGISTER_COUNT,
        ensures
            final(self)@.wf(),
            and_post(
                old(self)@,
                final(self)@,
                dst.offset_spec(),
                src1.offset_spec(),
                mode,
                second_operand,
            ),
    {
        let mut result: u16 = 0;
        if mode == 0 {
            result = self.read_register(src1) & self.registers[second_operand as usize];
        } else if mode == 1 {
            let immediate = self.extend_sign(second_operand, 5);
            result = self.read_register(src1) & immediate;
        }
        self.write_register(dst, result);
        self.update_flags(result);
    }

    /// Stores the bitwise complement of the source register in the
    /// destination and updates the flags.
    pub fn not(&mut self, dst: Register, src: Register)
        requires
            old(self)@.wf(),
        ensures
            final(self)@.wf(),
            final(self)@ == old(self)@.with_reg(dst.offset_spec(), !old(self)@.reg(src.offset_spec())).with_reg(
                9,
                flag_for(!old(self)@.reg(src.offset_spec())),
            ),
    {
        let result = !self.read_register(src);
        self.write_register(dst, result);
        self.update_flags(result);
    }

    /// Saves the program counter in the link register R7, then either moves
    /// the program counter by the sign-extended eleven-bit operand (long
    /// flag 1) or sets it from the register the operand names.
    pub fn jump_register(&mut self, long_flag: u16, operand: u16)
        requires
            old(self)@.wf(),
            long_flag != 1 ==> operand < REGISTER_COUNT,
        ensures
            final(self)@.wf(),
            jump_register_post(old(self)@, final(self)@, long_flag, operand),
    {
        let pc = self.read_register(Register::PC);
        self.write_register(Register::R7, pc);
        if long_flag == 1 {
            let offset = self.extend_sign(operand, 11);
            self.write_register(Register::PC, pc.wrapping_add(offset));
        } else {
            let target = self.registers[operand as usize];
            self.write_register(Register::PC, target);
        }
    }

    /// Sets the program counter from the named base register.
    pub fn jump(&mut self, base_register: Register)
        requires
            old(self)@.wf(),
        ensures
            final(self)@.wf(),
            final(self)@ == old(self)@.with_reg(8, old(self)@.reg(base_register.offset_spec())),
    {
        let target = self.read_register(base_register);
        self.write_register(Register::PC, target);
    }

    /// Stores a word at an address. The defensive bounds check can never
    /// fire for a 16-bit address against the full 65536-word memory, so the
    /// write always succeeds.
    pub fn mem_write(&mut self, address: u16, value: u16) -> (r: Result<(), VMError>)
        requires
            old(self)@.wf(),
        ensures
            final(self)@.wf(),
            r == Ok::<(), VMError>(()),
            final(self)@ == old(self)@.with_mem(address as int, value),
    {
        if address as usize > self.memory.len() {
            return Err(VMError::InvalidAddress(address));
        }
        self.memory[address as usize] = value;
        Ok(())
    }

    /// Reads a word at an address. Reading the keyboard status register
    /// first polls the keyboard with a bounded timeout: an arrived byte sets
    /// the status register's high bit and lands in the data register, and a
    /// quiet timeout clears the status register. The read then returns the
    /// refreshed word; the poll is a side effect of the read, not a separate
    /// step.
    fn mem_read(&mut self, address: u16) -> (r: Result<u16, VMError>)
        requires
            old(self)@.wf(),
        ensures
            final(self)@.wf(),
            mem_read_post(old(self)@, final(self)@, address, r),
    {
        if address == KBSR_ADDRESS {
            let ghost before_poll = self@.memory;
            match devices::poll_keyboard_byte() {
                Ok(Some(byte)) => {
                    self.memory[KBSR_ADDRESS as usize] = 0x8000;
                    self.memory[KBDR_ADDRESS as usize] = byte as u16;
                    proof {
                        assert(self@.memory == before_poll.update(
                            KBSR_ADDRESS as int,
                            0x8000u16,
                        ).update(KBDR_ADDRESS as int, byte as u16));
                    }
                },
                Ok(None) => {
                    self.memory[KBSR_ADDRESS as usize] = 0;
                },
                Err(reason) => {
                    return Err(VMError::IOError(reason));
                },
            }
        }
        Ok(self.memory[address as usize])
    }

    /// Loads the word at program counter plus the sign-extended nine-bit
    /// offset into the destination register and updates the flags.
    pub fn load(&mut self, dst: Register, pc_offset: u16) -> (r: Result<(), VMError>)
        requires
            old(self)@.wf(),
        ensures
            final(self)@.wf(),
            load_post(
                old(self)@,
                final(self)@,
                dst.offset_spec(),
                wrap_add(old(self)@.pc(), sign_extend(pc_offset, 9)),
                r,
            ),
    {
        let offset = self.extend_sign(pc_offset, 9);
        let mem_address = self.read_register(Register::PC).wrapping_add(offset);
        let value = match self.mem_read(mem_address) {
            Ok(value) => value,
            Err(e) => {
                return Err(e);
            },
        };
        self.write_register(dst, value);
        self.update_flags(value);
        Ok(())
    }

    /// Stores the source register at program counter plus the sign-extended
    /// nine-bit offset. Flags are not updated.
    pub fn store(&mut self, src: Register, pc_offset: u16) -> (r: Result<(), VMError>)
        requires
            old(self)@.wf(),
        ensures
            final(self)@.wf(),
            r == Ok::<(), VMError>(()),
            final(self)@ == old(self)@.with_mem(
                wrap_add(old(self)@.pc(), sign_extend(pc_offset, 9)) as int,
                old(self)@.reg(src.offset_spec()),
            ),
    {
        let offset = self.extend_sign(pc_offset, 9);
        let mem_address = self.read_register(Register::PC).wrapping_add(offset);
        let value = self.read_register(src);
        self.mem_write(mem_address, value)
    }

    /// Loads the word at base register plus the sign-extended six-bit offset
    /// into the destination register and updates the flags.
    pub fn load_register(&mut self, dst: Register, src: Register, offset: u16) -> (r: Result<
        (),
        VMError,
    >)
        requires
            old(self)@.wf(),
        ensures
            final(self)@.wf(),
            load_post(
                old(self)@,
                final(self)@,
                dst.offset_spec(),
                wrap_add(old(self)@.reg(src.offset_spec()), sign_extend(offset, 6)),
                r,
            ),
    {
        let extended_offset = self.extend_sign(offset, 6);
        let mem_address = self.read_register(src).wrapping_add(extended_offset);
        let value = match self.mem_read(mem_address) {
            Ok(value) => value,
            Err(e) => {
                return Err(e);
            },
        };
        self.write_register(dst, value);
        self.update_flags(value);
        Ok(())
    }

    /// Stores the source register at base register plus the sign-extended
    /// six-bit offset; the base address stands in the dst argument, as in
    /// the instruction's bit layout. Flags are not updated.
    pub fn store_register(&mut self, src: Register, dst: Register, offset: u16) -> (r: Result<
        (),
        VMError,
    >)
        requires
            old(self)@.wf(),
        ensures
            final(self)@.wf(),
            r == Ok::<(), VMError>(()),
            final(self)@ == old(self)@.with_mem(
                wrap_add(old(self)@.reg(dst.offset_spec()), sign_extend(offset, 6)) as int,
                old(self)@.reg(src.offset_spec()),
            ),
    {
        let extended_offset = self.extend_sign(offset, 6);
        let memory_address = self.read_register(dst).wrapping_add(extended_offset);
        let value = self.read_register(src);
        self.mem_write(memory_address, value)
    }

    /// Loads the word whose address stands in memory at program counter plus
    /// the sign-extended nine-bit offset into the destination register and
    /// updates the flags.
    pub fn load_indirect(&mut self, dst: Register, pc_offset: u16) -> (r: Result<(), VMError>)
        requires
            old(self)@.wf(),
        ensures
            final(self)@.wf(),
            load_indirect_post(
                old(self)@,
                final(self)@,
                dst.offset_spec(),
                wrap_add(old(self)@.pc(), sign_extend(pc_offset, 9)),
                r,
            ),
    {
        let pc_offset_u16 = self.extend_sign(pc_offset, 9);
        let pointer_address = self.read_register(Register::PC).wrapping_add(pc_offset_u16);
        let ghost initial = self@.memory;
        let mem_address = match self.mem_read(pointer_address) {
            Ok(value) => value,
            Err(e) => {
                proof {
                    assert(poll_link(initial, initial, self@.memory));
                }
                return Err(e);
            },
        };
        let ghost after_pointer = self@.memory;
        let value = match self.mem_read(mem_address) {
            Ok(value) => value,
            Err(e) => {
                proof {
                    assert(poll_link(initial, after_pointer, self@.memory));
                }
                return Err(e);
            },
        };
        proof {
            assert(poll_link(initial, after_pointer, self@.memory));
        }
        self.write_register(dst, value);
        self.update_flags(value);
        Ok(())
    }

    /// Stores the source register at the address found in memory at program
    /// counter plus the sign-extended nine-bit offset. The pointer fetch
    /// goes through the ordinary read path, so a pointer at the keyboard
    /// status register polls the device first. Flags are not updated.
    pub fn store_indirect(&mut self, src: Register, pc_offset: u16) -> (r: Result<(), VMError>)
        requires
            old(self)@.wf(),
        ensures
            final(self)@.wf(),
            store_indirect_post(
                old(self)@,
                final(self)@,
                src.offset_spec(),
                wrap_add(old(self)@.pc(), sign_extend(pc_offset, 9)),
                r,
            ),
    {
        let offset = self.extend_sign(pc_offset, 9);
        let pointer_address = self.read_register(Register::PC).wrapping_add(offset);
        let memory_address = match self.mem_read(pointer_address) {
            Ok(value) => value,
            Err(e) => {
                return Err(e);
            },
        };
        let ghost polled = self@.memory;
        let value = self.read_register(src);
        let result = self.mem_write(memory_address, value);
        proof {
            if pointer_address == KBSR_ADDRESS {
                assert(poll_refresh(old(self)@.memory, polled) && self@.memory == polled.update(
                    polled[KBSR_ADDRESS as int] as int,
                    old(self)@.reg(src.offset_spec()),
                ));
            }
        }
        result
    }

    /// Collects the bytes of the one-character-per-word string starting at
    /// an address: the low byte of every word before the first zero word.
    pub fn collect_string_bytes(&self, start: u16) -> (r: Vec<u8>)
        requires
            self@.wf(),
        ensures
            r@ == string_bytes(self@.memory, start as int),
    {
        let mut bytes: Vec<u8> = Vec::new();
        let mut address: usize = start as usize;
        while address < MEMORY_SIZE && self.memory[address] != 0
            invariant
                self@.wf(),
                start as int <= address <= MEMORY_SIZE,
                string_bytes(self@.memory, start as int) == bytes@ + string_bytes(
                    self@.memory,
                    address as int,
                ),
            decreases MEMORY_SIZE - address,
        {
            let byte = #[verifier::truncate] (self.memory[address] as u8);
            proof {
                assert(bytes@ + string_bytes(self@.memory, address as int) =~= (bytes@ + seq![
                    self@.memory[address as int] as u8,
                ]) + string_bytes(self@.memory, address + 1));
            }
            bytes.push(byte);
            address = address + 1;
        }
        proof {
            assert(bytes@ + string_bytes(self@.memory, address as int) =~= bytes@);
        }
        bytes
    }

    /// Collects the bytes of the two-packed-characters-per-word string
    /// starting at an address: the low then the high byte of every word, in
    /// little-endian order, stopping before any zero byte in either
    /// position.
    pub fn collect_packed_bytes(&self, start: u16) -> (r: Vec<u8>)
        requires
            self@.wf(),
        ensures
            r@ == packed_string_bytes(self@.memory, start as int),
    {
        let mut bytes: Vec<u8> = Vec::new();
        let mut address: usize = start as usize;
        while address < MEMORY_SIZE
            invariant_except_break
                self@.wf(),
                start as int <= address <= MEMORY_SIZE,
                packed_string_bytes(self@.memory, start as int) == bytes@ + packed_string_bytes(
                    self@.memory,
                    address as int,
                ),
            ensures
                bytes@ == packed_string_bytes(self@.memory, start as int),
            decreases MEMORY_SIZE - address,
        {
            let word = self.memory[address];
            let low = #[verifier::truncate] (word as u8);
            let high = #[verifier::truncate] ((word >> 8) as u8);
            if low == 0 {
                proof {
                    assert(bytes@ + packed_string_bytes(self@.memory, address as int) =~= bytes@);
                }
                break;
            }
            if high == 0 {
                proof {
                    assert(bytes@ + packed_string_bytes(self@.memory, address as int) =~= bytes@
                        + seq![low]);
                }
                bytes.push(low);
                break;
            }
            proof {
                assert(bytes@ + packed_string_bytes(self@.memory, address as int) =~= (bytes@
                    + seq![low, high]) + packed_string_bytes(self@.memory, address + 1));
            }
            bytes.push(low);
            bytes.push(high);
            address = address + 1;
        }
        bytes
    }

    /// PUTS: writes the one-character-per-word string whose address stands
    /// in R0 to the output and flushes it. The machine itself is unchanged.
    pub fn trap_puts(&mut self) -> (r: Result<(), VMError>)
        requires
            old(self)@.wf(),
        ensures
            final(self)@.wf(),
            output_only_post(old(self)@, final(self)@, r),
    {
        let start = self.read_register(Register::R0);
        let bytes = self.collect_string_bytes(start);
        match devices::write_output_bytes(&bytes) {
            Ok(()) => {},
            Err(reason) => {
                return Err(VMError::IOError(reason));
            },
        }
        match devices::flush_output() {
            Ok(()) => {},
            Err(reason) => {
                return Err(VMError::IOError(reason));
            },
        }
        Ok(())
    }

    /// GETC: reads one input byte into R0, not echoed and with no flag
    /// update.
    pub fn trap_getc(&mut self) -> (r: Result<(), VMError>)
        requires
            old(self)@.wf(),
        ensures
            final(self)@.wf(),
            getc_post(old(self)@, final(self)@, r),
    {
        match devices::read_input_byte() {
            Ok(byte) => {
                self.write_register(Register::R0, byte as u16);
                Ok(())
            },
            Err(reason) => Err(VMError::IOError(reason)),
        }
    }

    /// OUT: writes the low byte of R0 to the output and flushes it. The
    /// machine itself is unchanged.
    pub fn trap_out(&mut self) -> (r: Result<(), VMError>)
        requires
            old(self)@.wf(),
        ensures
            final(self)@.wf(),
            output_only_post(old(self)@, final(self)@, r),
    {
        let byte = #[verifier::truncate] (self.read_register(Register::R0) as u8);
        let mut bytes: Vec<u8> = Vec::new();
        bytes.push(byte);
        match devices::write_output_bytes(&bytes) {
            Ok(()) => {},
            Err(reason) => {
                return Err(VMError::IOError(reason));
            },
        }
        match devices::flush_output() {
            Ok(()) => {},
            Err(reason) => {
                return Err(VMError::IOError(reason));
            },
        }
        Ok(())
    }

    /// IN: prompts, reads one input byte, echoes it, stores it in R0 and
    /// updates the flags.
    pub fn trap_in(&mut self) -> (r: Result<(), VMError>)
        requires
            old(self)@.wf(),
        ensures
            final(self)@.wf(),
            read_echo_post(old(self)@, final(self)@, r),
    {
        match devices::write_output_line("Enter a character: ") {
            Ok(()) => {},
            Err(reason) => {
                return Err(VMError::IOError(reason));
            },
        }
        let byte = match devices::read_input_byte() {
            Ok(byte) => byte,
            Err(reason) => {
                return Err(VMError::IOError(reason));
            },
        };
        let mut bytes: Vec<u8> = Vec::new();
        bytes.push(byte);
        match devices::write_output_bytes(&bytes) {
            Ok(()) => {},
            Err(reason) => {
                return Err(VMError::IOError(reason));
            },
        }
        match devices::flush_output() {
            Ok(()) => {},
            Err(reason) => {
                return Err(VMError::IOError(reason));
            },
        }
        self.write_register(Register::R0, byte as u16);
        self.update_flags(byte as u16);
        Ok(())
    }

    /// PUTSP: writes the two-packed-characters-per-word string whose address
    /// stands in R0 to the output, in little-endian byte order, stopping
    /// before any zero byte in either packed position, and flushes it. The
    /// machine itself is unchanged.
    pub fn trap_putsp(&mut self) -> (r: Result<(), VMError>)
        requires
            old(self)@.wf(),
        ensures
            final(self)@.wf(),
            output_only_post(old(self)@, final(self)@, r),
    {
        let start = self.read_register(Register::R0);
        let bytes = self.collect_packed_bytes(start);
        match devices::write_output_bytes(&bytes) {
            Ok(()) => {},
            Err(reason) => {
                return Err(VMError::IOError(reason));
            },
        }
        match devices::flush_output() {
            Ok(()) => {},
            Err(reason) => {
                return Err(VMError::IOError(reason));
            },
        }
        Ok(())
    }

    /// HALT: flushes the output, then clears the running state. A failed
    /// flush leaves the machine running and surfaces the error.
    pub fn trap_halt(&mut self) -> (r: Result<(), VMError>)
        ensures
            halt_post(old(self)@, final(self)@, r),
    {
        match devices::flush_output() {
            Ok(()) => {
                self.running = false;
                Ok(())
            },
            Err(reason) => Err(VMError::IOError(reason)),
        }
    }

    /// Routes a trap code to its service routine.
    pub fn execute_trap_routine(&mut self, trap_code: TrapCode) -> (r: Result<(), VMError>)
        requires
            old(self)@.wf(),
        ensures
            final(self)@.wf(),
            trap_post(old(self)@, final(self)@, trap_code, r),
    {
        match trap_code {
            TrapCode::Getc => self.trap_getc(),
            TrapCode::In => self.trap_in(),
            TrapCode::Out => self.trap_out(),
            TrapCode::Puts => self.trap_puts(),
            TrapCode::Putsp => self.trap_putsp(),
            TrapCode::Halt => self.trap_halt(),
        }
    }

    /// Decodes one fetched word and dispatches it to its handler. In
    /// register mode the second ALU operand is the three-bit register field,
    /// so a general-purpose register is always named; a reserved opcode
    /// fails with `InvalidInstruction` and an unknown trap vector with
    /// `InvalidTrapCode`, each leaving the machine as the contract states.
    #[verifier::rlimit(100)]
    #[verifier::spinoff_prover]
    pub fn execute_instruction(&mut self, instruction_16: u16) -> (r: Result<(), VMError>)
        requires
            old(self)@.wf(),
        ensures
            final(self)@.wf(),
            instruction_post(old(self)@, final(self)@, instruction_16, r),
    {
        let decoded = match DecodedInstruction::decode_instruction(instruction_16) {
            Ok(decoded) => decoded,
            Err(e) => {
                return Err(VMError::InvalidInstruction(e));
            },
        };
        let op = match Instruction::from_u16(decoded.op_code) {
            Ok(op) => op,
            Err(e) => {
                return Err(VMError::InvalidInstruction(e));
            },
        };
        match op {
            Instruction::OpBR => {
                proof {
                    assert((instruction_16 >> 9) & 0x7 <= 7) by (bit_vector);
                }
                let flag = match Flags::from_u16(decoded.flags) {
                    Ok(flag) => flag,
                    Err(e) => {
                        return Err(VMError::InvalidInstruction(e));
                    },
                };
                self.branch(flag, decoded.imm9);
                Ok(())
            },
            Instruction::OpADD => {
                proof {
                    assert((instruction_16 & 0x1F) & 0x7 == instruction_16 & 0x7
                        && instruction_16 & 0x7 < 8) by (bit_vector);
                }
                let second_operand = if decoded.mode_alu == 0 {
                    decoded.alu_operand2 & 0x7
                } else {
                    decoded.alu_operand2
                };
                self.add(decoded.dst, decoded.src, decoded.mode_alu, second_operand);
                Ok(())
            },
            Instruction::OpLD => self.load(decoded.dst, decoded.imm9),
            Instruction::OpST => self.store(decoded.dst, decoded.imm9),
            Instruction::OpJSR => {
                proof {
                    assert((instruction_16 >> 6) & 0x7 < 8 && ((instruction_16 >> 11) & 0x1 == 0
                        || (instruction_16 >> 11) & 0x1 == 1)) by (bit_vector);
                }
                let operand = if decoded.mode_jump == 0 {
                    decoded.base_for_jump
                } else {
                    decoded.imm11
                };
                self.jump_register(decoded.mode_jump, operand);
                Ok(())
            },
            Instruction::OpAND => {
                proof {
                    assert((instruction_16 & 0x1F) & 0x7 == instruction_16 & 0x7
                        && instruction_16 & 0x7 < 8) by (bit_vector);
                }
                let second_operand = if decoded.mode_alu == 0 {
                    decoded.alu_operand2 & 0x7
                } else {
                    decoded.alu_operand2
                };
                self.and(decoded.dst, decoded.src, decoded.mode_alu, second_operand);
                Ok(())
            },
            Instruction::OpLDR => self.load_register(decoded.dst, decoded.src, decoded.imm6),
            Instruction::OpSTR => self.store_register(decoded.dst, decoded.src, decoded.imm6),
            Instruction::OpNOT => {
                self.not(decoded.dst, decoded.src);
                Ok(())
            },
            Instruction::OpLDI => self.load_indirect(decoded.dst, decoded.imm9),
            Instruction::OpSTI => self.store_indirect(decoded.dst, decoded.imm9),
            Instruction::OpJMP => {
                let base = match Register::from_u16(decoded.base_for_jump) {
                    Ok(base) => base,
                    Err(e) => {
                        return Err(VMError::InvalidInstruction(e));
                    },
                };
                self.jump(base);
                Ok(())
            },
            Instruction::OpLEA => {
                self.load_effective_address(decoded.dst, decoded.imm9);
                Ok(())
            },
            Instruction::OpTRAP => {
                let pc = self.read_register(Register::PC);
                self.write_register(Register::R7, pc);
                let code = match TrapCode::from_u16(decoded.trapvect8) {
                    Ok(code) => code,
                    Err(e) => {
                        return Err(VMError::InvalidTrapCode(e));
                    },
                };
                match self.execute_trap_routine(code) {
                    Ok(()) => {},
                    Err(e) => {
                        return Err(e);
                    },
                }
                let link = self.read_register(Register::R7);
                self.write_register(Register::PC, link);
                Ok(())
            },
        }
    }

    /// Runs the fetch-decode-dispatch-execute loop until the HALT trap
    /// clears the running state or a fatal error aborts the run. On success
    /// the final machine is reachable from the started one by complete
    /// instruction steps — each taken from a running state, so the chain
    /// stops at the first halt — and is halted. On an error the machine
    /// holds the state the completed instructions reached, the first
    /// failing iteration's effects included and its error returned
    /// unchanged; the one other error is the exhausted step budget, which
    /// leaves the machine exactly at a reached state. Each instruction
    /// charges one unit of a 2^64 step budget, which makes the loop
    /// provably terminating; no real program comes near it.
    pub fn run(&mut self) -> (r: Result<(), VMError>)
        requires
            old(self)@.wf(),
        ensures
            final(self)@.wf(),
            final(self)@.origin == old(self)@.origin,
            r is Ok ==> !final(self)@.running && exists|n: nat|
                reaches_in(old(self)@.with_running(true), final(self)@, n),
            r matches Err(e) ==> exists|n: nat, reached: VmState|
                #![auto]
                reaches_in(old(self)@.with_running(true), reached, n) && (machine_abort(
                    reached,
                    final(self)@,
                    e,
                ) || (final(self)@ == reached && (e matches VMError::IOError(m) && m@
                    == "instruction budget exhausted"@))),
    {
        self.running = true;
        let ghost started = self@;
        let mut steps: Ghost<nat> = Ghost(0nat);
        let mut fuel: u64 = 0xFFFF_FFFF_FFFF_FFFF;
        while self.running()
            invariant
                self@.wf(),
                self@.origin == old(self)@.origin,
                started == old(self)@.with_running(true),
                reaches_in(started, self@, steps@),
            decreases fuel,
        {
            if fuel == 0 {
                return Err(VMError::IOError("instruction budget exhausted".to_string()));
            }
            fuel = fuel - 1;
            let ghost before = self@;
            let pc = self.read_register(Register::PC);
            let instruction_u16 = match self.mem_read(pc) {
                Ok(word) => word,
                Err(e) => {
                    return Err(e);
                },
            };
            let ghost fetched = self@;
            self.write_register(Register::PC, pc.wrapping_add(1));
            match self.execute_instruction(instruction_u16) {
                Ok(()) => {},
                Err(e) => {
                    proof {
                        assert(machine_abort(before, self@, e));
                    }
                    return Err(e);
                },
            }
            proof {
                assert(mem_read_post(before, fetched, before.pc(), Ok(instruction_u16))
                    && instruction_post(
                    fetched.with_reg(8, wrap_add(before.pc(), 1)),
                    self@,
                    instruction_u16,
                    Ok(()),
                ));
                assert(machine_step(before, self@));
                steps@ = steps@ + 1;
                assert(reaches_in(started, self@, steps@));
            }
        }
        Ok(())
    }

    /// Stores the program counter plus the sign-extended nine-bit offset in
    /// the destination register and updates the flags.
    pub fn load_effective_address(&mut self, dst: Register, pc_offset: u16)
        requires
            old(self)@.wf(),
        ensures
            final(self)@.wf(),
            final(self)@ == old(self)@.with_reg(
                dst.offset_spec(),
                wrap_add(old(self)@.pc(), sign_extend(pc_offset, 9)),
            ).with_reg(9, flag_for(wrap_add(old(self)@.pc(), sign_extend(pc_offset, 9)))),
    {
        let offset = self.extend_sign(pc_offset, 9);
        let effective_address = self.read_register(Register::PC).wrapping_add(offset);
        self.write_register(dst, effective_address);
        self.update_flags(effective_address);
    }
}

/// Joins two big-endian bytes into one word.
fn join_be_bytes(hi: u8, lo: u8) -> (r: u16)
    ensures
        r == be_word(hi, lo),
{
    let h: u16 = hi as u16;
    let l: u16 = lo as u16;
    assert((h << 8) | l == h * 256 + l) by (bit_vector)
        requires
            h < 256 && l < 256,
    ;
    (h << 8) | l
}

/// Loads a raw image into memory: the first big-endian word names the
/// origin, and every following word lands at consecutive addresses from
/// there. An image with an odd byte count, with fewer than two bytes, or
/// whose words do not fit between its origin and the end of memory is
/// rejected with `FailedToLoadImage`, leaving the machine unchanged. The
/// fit check counts the origin word itself against the space at the origin,
/// so a loaded image reaches at most the next-to-last memory address; an
/// image whose payload would end exactly at the last address is rejected.
pub fn read_image_file(vm: &mut LC3VirtualMachine, image_in_buffer: Vec<u8>) -> (r: Result<
    (),
    VMError,
>)
    requires
        old(vm)@.wf(),
    ensures
        final(vm)@.wf(),
        !image_fits(image_in_buffer@) ==> (r matches Err(VMError::FailedToLoadImage(m)) && m@
            == "Image size invalid"@ && final(vm)@ == old(vm)@),
        image_fits(image_in_buffer@) ==> {
            &&& r == Ok::<(), VMError>(())
            &&& final(vm)@.registers == old(vm)@.registers
            &&& final(vm)@.running == old(vm)@.running
            &&& final(vm)@.origin == old(vm)@.origin
            &&& forall|a: int|
                image_origin(image_in_buffer@) <= a < image_origin(image_in_buffer@)
                    + image_in_buffer@.len() / 2 - 1 ==> #[trigger] final(vm)@.memory[a] == be_word(
                    image_in_buffer@[2 + 2 * (a - image_origin(image_in_buffer@))],
                    image_in_buffer@[3 + 2 * (a - image_origin(image_in_buffer@))],
                )
            &&& forall|a: int|
                0 <= a < MEMORY_SIZE && !(image_origin(image_in_buffer@) <= a < image_origin(
                    image_in_buffer@,
                ) + image_in_buffer@.len() / 2 - 1) ==> final(vm)@.memory[a] == old(vm)@.memory[a]
        },
{
    if image_in_buffer.len() % 2 != 0 || image_in_buffer.len() < 2 {
        return Err(VMError::FailedToLoadImage("Image size invalid".to_string()));
    }
    let origin = join_be_bytes(image_in_buffer[0], image_in_buffer[1]);
    if image_in_buffer.len() / 2 > MEMORY_SIZE - origin as usize {
        return Err(VMError::FailedToLoadImage("Image size invalid".to_string()));
    }
    let ghost pre = vm@;
    let mut current_address: u16 = origin;
    let mut i: usize = 2;
    while i < image_in_buffer.len() - 1
        invariant
            vm@.wf(),
            image_in_buffer@.len() % 2 == 0,
            2 <= image_in_buffer@.len(),
            image_in_buffer@.len() / 2 <= MEMORY_SIZE - origin,
            origin == image_origin(image_in_buffer@),
            2 <= i <= image_in_buffer@.len(),
            i % 2 == 0,
            origin <= current_address,
            i == 2 * (current_address - origin) + 2,
            vm@.registers == pre.registers,
            vm@.running == pre.running,
            vm@.origin == pre.origin,
            forall|a: int|
                origin <= a < current_address ==> #[trigger] vm@.memory[a] == be_word(
                    image_in_buffer@[2 + 2 * (a - origin)],
                    image_in_buffer@[3 + 2 * (a - origin)],
                ),
            forall|a: int|
                0 <= a < MEMORY_SIZE && !(origin <= a < current_address) ==> vm@.memory[a]
                    == pre.memory[a],
        decreases image_in_buffer@.len() - i,
    {
        let word = join_be_bytes(image_in_buffer[i], image_in_buffer[i + 1]);
        match vm.mem_write(current_address, word) {
            Ok(()) => {},
            Err(e) => {
                return Err(e);
            },
        }
        current_address = current_address + 1;
        i = i + 2;
    }
    Ok(())
}

} // verus!
