//! A cycle-aware emulator for the 6502 microprocessor: the opcode table
//! and its inverse, cycle costs, operand resolution for all twelve
//! addressing modes, the status-flag-exact execution engine, and the
//! fetch-decode-execute step loop, each carrying a contract that pins its
//! behaviour down to the bit. A small assembly parser over lexed tokens
//! accompanies the core.

pub mod instruction;
pub mod parser;
pub mod token;

use vstd::prelude::*;

use crate::instruction::operand_mode::OperandMode;
use crate::instruction::operation::Operation;
use crate::instruction::{bytecode_to_instruction, spec_decode, DecodeError};

verus! {

/// The size of the address space: a 16-bit address bus, 64 KB.
pub const MEMORY_SIZE: usize = 0x10000;

/// The register file of the emulated 6502: three general-purpose 8-bit
/// registers, the packed status byte, the stack pointer offset into the
/// stack page, and the 16-bit program counter.
#[derive(Debug, Copy, Clone, PartialEq, Eq, Structural)]
pub struct RegisterFile {
    pub accumulator: u8,
    pub x: u8,
    pub y: u8,
    pub status: u8,
    pub stack_pointer: u8,
    pub program_counter: u16,
}

impl RegisterFile {
    /// A register file with every register zeroed, the power-on state.
    pub fn new_zeroed() -> (r: RegisterFile)
        ensures
            r == (RegisterFile {
                accumulator: 0,
                x: 0,
                y: 0,
                status: 0,
                stack_pointer: 0,
                program_counter: 0,
            }),
    {
        RegisterFile { accumulator: 0, x: 0, y: 0, status: 0, stack_pointer: 0, program_counter: 0 }
    }
}

/// One bit of the packed status byte. The bit positions are fixed by the
/// hardware: Carry is bit 0, Zero bit 1, InterruptDisable bit 2, Decimal
/// bit 3, Break bit 4, the reserved bit 5, Overflow bit 6, Negative bit 7.
/// Every bit, the reserved one included, is stored and read back exactly
/// as written; the hardware convention of forcing bit 5 to one on a read
/// is not applied, so a zeroed status byte reads every flag as clear.
#[derive(Debug, Copy, Clone, PartialEq, Eq, Structural)]
pub enum StatusFlag {
    CARRY,
    ZERO,
    INTERRUPT,
    DECIMAL,
    BREAK,
    RESERVED,
    OVERFLOW,
    NEGATIVE,
}

/// The bit position of a status flag within the status byte.
pub open spec fn spec_flag_index(flag: StatusFlag) -> u8 {
    match flag {
        StatusFlag::CARRY => 0,
        StatusFlag::ZERO => 1,
        StatusFlag::INTERRUPT => 2,
        StatusFlag::DECIMAL => 3,
        StatusFlag::BREAK => 4,
        StatusFlag::RESERVED => 5,
        StatusFlag::OVERFLOW => 6,
        StatusFlag::NEGATIVE => 7,
    }
}

/// Whether `flag` is set in the packed status byte `status`.
pub open spec fn spec_get_flag(status: u8, flag: StatusFlag) -> bool {
    (status >> spec_flag_index(flag)) & 1 == 1
}

/// The status byte `status` with `flag` forced to `value` and every other
/// bit unchanged.
pub open spec fn spec_set_flag(status: u8, flag: StatusFlag, value: bool) -> u8 {
    if value {
        status | (1u8 << spec_flag_index(flag))
    } else {
        status & !(1u8 << spec_flag_index(flag))
    }
}

proof fn lemma_bit_set_get(s: u8, i: u8, j: u8)
    requires
        i < 8,
        j < 8,
    ensures
        i == j ==> ((s | (1u8 << i)) >> j) & 1 == 1,
        i == j ==> ((s & !(1u8 << i)) >> j) & 1 == 0,
        i != j ==> ((s | (1u8 << i)) >> j) & 1 == (s >> j) & 1,
        i != j ==> ((s & !(1u8 << i)) >> j) & 1 == (s >> j) & 1,
{
    assert(i == j && i < 8 ==> ((s | (1u8 << i)) >> j) & 1 == 1) by (bit_vector);
    assert(i == j && i < 8 ==> ((s & !(1u8 << i)) >> j) & 1 == 0) by (bit_vector);
    assert(i != j && i < 8 && j < 8 ==> ((s | (1u8 << i)) >> j) & 1 == (s >> j) & 1)
        by (bit_vector);
    assert(i != j && i < 8 && j < 8 ==> ((s & !(1u8 << i)) >> j) & 1 == (s >> j) & 1)
        by (bit_vector);
}

/// Setting one flag changes exactly that flag: reading the flag back gives
/// the value written, and every other flag is untouched.
pub proof fn lemma_set_flag(status: u8, flag: StatusFlag, value: bool)
    ensures
        spec_get_flag(spec_set_flag(status, flag, value), flag) == value,
        forall|other: StatusFlag| other != flag
            ==> #[trigger] spec_get_flag(spec_set_flag(status, flag, value), other)
                == spec_get_flag(status, other),
{
    assert forall|other: StatusFlag| other != flag
        implies #[trigger] spec_get_flag(spec_set_flag(status, flag, value), other)
            == spec_get_flag(status, other) by {
        assert(spec_flag_index(other) != spec_flag_index(flag));
        lemma_bit_set_get(status, spec_flag_index(flag), spec_flag_index(other));
    }
    lemma_bit_set_get(status, spec_flag_index(flag), spec_flag_index(flag));
}

/// The status byte with the Zero and Negative flags rewritten from an
/// 8-bit result: Zero when the result is 0, Negative when its top bit is
/// set (value 128 or more).
pub open spec fn spec_set_zn(status: u8, value: u8) -> u8 {
    spec_set_flag(spec_set_flag(status, StatusFlag::ZERO, value == 0), StatusFlag::NEGATIVE, value >= 128)
}

/// A resolved operand: the accumulator register itself, a memory address,
/// a literal byte that cannot be written back, or no operand at all.
#[derive(Debug, Copy, Clone, PartialEq, Eq, Structural)]
pub enum Operand {
    Accumulator,
    Address(u16),
    Immediate(u8),
    Implied,
}

/// A failure while executing a decoded instruction.
#[derive(Debug, Copy, Clone, PartialEq, Eq, Structural)]
pub enum ExecError {
    /// The operation is decoded but deliberately not implemented: BRK, and
    /// add/subtract while the Decimal flag is set.
    Unimplemented,
    /// The operand cannot be read or written as the operation requires; a
    /// decoder/resolver mismatch, not an input error.
    InvalidOperandForOperation,
}

/// The failure of one `step`: either the fetched byte did not decode, or
/// the decoded instruction did not execute.
#[derive(Debug, Copy, Clone, PartialEq, Eq, Structural)]
pub enum StepError {
    Decode(DecodeError),
    Exec(ExecError),
}

/// The failure of `multiple_steps`: the first error, together with how
/// many whole steps completed before it.
#[derive(Debug, Copy, Clone, PartialEq, Eq, Structural)]
pub struct RunError {
    pub steps_completed: u32,
    pub error: StepError,
}

/// The mathematical model of the machine: the register file together with
/// the full 64 KB memory image as a sequence of bytes.
#[verifier::ext_equal]
pub ghost struct Machine {
    pub regs: RegisterFile,
    pub mem: Seq<u8>,
}

/// The register file and memory image of one emulated machine. The memory
/// vector holds a prefix of the 64 KB address space; every byte beyond its
/// length reads as zero, and writes extend it as needed.
#[derive(Debug, Clone, PartialEq, Eq)]
pub struct ComputerState {
    pub memory: Vec<u8>,
    pub registers: RegisterFile,
}

impl View for ComputerState {
    type V = Machine;

    open spec fn view(&self) -> Machine {
        Machine {
            regs: self.registers,
            mem: Seq::new(
                MEMORY_SIZE as nat,
                |i: int| if i < self.memory@.len() { self.memory@[i] } else { 0u8 },
            ),
        }
    }
}

/// The byte of the address space at `addr`, taken modulo 64 K.
pub open spec fn mem_byte(m: Machine, addr: int) -> u8 {
    m.mem[addr % 0x10000]
}

/// The little-endian word at `addr`: the low byte there, the high byte at
/// the following address, both taken modulo 64 K.
pub open spec fn mem_word(m: Machine, addr: int) -> u16 {
    (mem_byte(m, addr) + 256 * mem_byte(m, addr % 0x10000 + 1)) as u16
}

/// The machine with the byte at `addr` (modulo 64 K) replaced by `value`.
pub open spec fn spec_write_byte(m: Machine, addr: int, value: u8) -> Machine {
    Machine { regs: m.regs, mem: m.mem.update(addr % 0x10000, value) }
}

/// The machine with the little-endian word at `addr` written: the low byte
/// at `addr`, the high byte at the following address, both modulo 64 K.
pub open spec fn spec_write_word(m: Machine, addr: int, value: u16) -> Machine {
    spec_write_byte(
        spec_write_byte(m, addr, (value % 256) as u8),
        addr % 0x10000 + 1,
        (value / 256) as u8,
    )
}

/// A push: the byte is written at 0x100 plus the stack pointer, then the
/// pointer is decremented, wrapping modulo 256.
pub open spec fn spec_push_byte(m: Machine, value: u8) -> Machine {
    let sp = m.regs.stack_pointer;
    let written = spec_write_byte(m, 0x100 + sp, value);
    Machine {
        regs: RegisterFile {
            stack_pointer: if sp == 0 { 255u8 } else { (sp - 1) as u8 },
            ..m.regs
        },
        mem: written.mem,
    }
}

/// A pull: the stack pointer is incremented, wrapping modulo 256, then the
/// byte at 0x100 plus the new pointer is read.
pub open spec fn spec_pull_byte(m: Machine) -> (Machine, u8) {
    let sp = if m.regs.stack_pointer == 255 { 0u8 } else { (m.regs.stack_pointer + 1) as u8 };
    (
        Machine { regs: RegisterFile { stack_pointer: sp, ..m.regs }, mem: m.mem },
        mem_byte(m, 0x100 + sp),
    )
}

/// A word push: high byte first, then low byte, so that the word reads
/// back little-endian from the stack.
pub open spec fn spec_push_word(m: Machine, value: u16) -> Machine {
    spec_push_byte(spec_push_byte(m, (value / 256) as u8), (value % 256) as u8)
}

/// A word pull: the low byte first, then the high byte.
pub open spec fn spec_pull_word(m: Machine) -> (Machine, u16) {
    let (m1, low) = spec_pull_byte(m);
    let (m2, high) = spec_pull_byte(m1);
    (m2, (low + 256 * high) as u16)
}

/// The machine as construction leaves it: zeroed registers, the image
/// bytes at address 0, and zeroes through the rest of the 64 KB memory.
pub open spec fn spec_initialize_from_image(image: Seq<u8>) -> Machine {
    Machine {
        regs: RegisterFile {
            accumulator: 0,
            x: 0,
            y: 0,
            status: 0,
            stack_pointer: 0,
            program_counter: 0,
        },
        mem: Seq::new(MEMORY_SIZE as nat, |i: int| if i < image.len() { image[i] } else { 0u8 }),
    }
}

impl ComputerState {
    /// A machine with zeroed registers and a fully zero-filled 64 KB
    /// memory image.
    pub fn initialize() -> (r: ComputerState)
        ensures
            r@ == spec_initialize_from_image(Seq::<u8>::empty()),
            r.memory@.len() == MEMORY_SIZE,
    {
        let mut memory: Vec<u8> = Vec::new();
        while memory.len() < MEMORY_SIZE
            invariant
                forall|i: int| 0 <= i < memory@.len() ==> memory@[i] == 0u8,
                memory@.len() <= MEMORY_SIZE,
            decreases MEMORY_SIZE - memory@.len(),
        {
            memory.push(0);
        }
        let r = ComputerState { memory, registers: RegisterFile::new_zeroed() };
        proof {
            assert(r@.mem =~= spec_initialize_from_image(Seq::<u8>::empty()).mem);
        }
        r
    }

    /// A machine with zeroed registers whose memory image starts with the
    /// given bytes at address 0 and reads as zero beyond them.
    pub fn initialize_from_image(memory: Vec<u8>) -> (r: ComputerState)
        ensures
            r@ == spec_initialize_from_image(memory@),
            r.memory@ == memory@,
    {
        let r = ComputerState { memory, registers: RegisterFile::new_zeroed() };
        proof {
            assert(r@.mem =~= spec_initialize_from_image(r.memory@).mem);
        }
        r
    }

    /// Reads the byte at `index`, modulo 64 K.
    pub fn get_byte_from_memory(&self, index: usize) -> (r: u8)
        ensures
            r == mem_byte(self@, index as int),
    {
        let i = index % MEMORY_SIZE;
        if i < self.memory.len() {
            self.memory[i]
        } else {
            0
        }
    }

    /// Reads the little-endian word whose low byte sits at `index`,
    /// modulo 64 K.
    pub fn get_word_from_memory(&self, index: usize) -> (r: u16)
        ensures
            r == mem_word(self@, index as int),
    {
        let low = self.get_byte_from_memory(index);
        let high = self.get_byte_from_memory(index % MEMORY_SIZE + 1);
        low as u16 + 256 * high as u16
    }

    /// Writes `value` at `index`, modulo 64 K.
    pub fn write_byte_to_memory(&mut self, index: usize, value: u8)
        ensures
            final(self)@ == spec_write_byte(old(self)@, index as int, value),
            final(self).registers == old(self).registers,
    {
        let ghost target = spec_write_byte(old(self)@, index as int, value);
        let i = index % MEMORY_SIZE;
        if i < self.memory.len() {
            self.memory[i] = value;
        } else {
            while self.memory.len() < i
                invariant
                    self.memory@.len() <= i < MEMORY_SIZE,
                    self.registers == old(self).registers,
                    self@ == old(self)@,
                decreases i - self.memory@.len(),
            {
                let ghost before = self@;
                self.memory.push(0);
                proof {
                    assert(self@.mem =~= before.mem);
                }
            }
            self.memory.push(value);
        }
        proof {
            assert(self@.mem =~= target.mem);
        }
    }

    /// Writes the little-endian word `value` with its low byte at `index`,
    /// modulo 64 K.
    pub fn write_word_to_memory(&mut self, index: usize, value: u16)
        ensures
            final(self)@ == spec_write_word(old(self)@, index as int, value),
            final(self).registers == old(self).registers,
    {
        self.write_byte_to_memory(index, (value % 256) as u8);
        self.write_byte_to_memory(index % MEMORY_SIZE + 1, (value / 256) as u8);
    }

    /// Pulls one byte: increments the stack pointer, wrapping modulo 256,
    /// and reads the byte it then points at in the stack page.
    pub fn pull_byte_from_stack(&mut self) -> (r: u8)
        ensures
            final(self)@ == spec_pull_byte(old(self)@).0,
            r == spec_pull_byte(old(self)@).1,
    {
        let sp = self.registers.stack_pointer;
        self.registers.stack_pointer = if sp == 255 { 0 } else { sp + 1 };
        let stack_address = self.registers.stack_pointer as usize + 0x100;
        self.get_byte_from_memory(stack_address)
    }

    /// Pulls a little-endian word: the low byte first, then the high byte.
    pub fn pull_word_from_stack(&mut self) -> (r: u16)
        ensures
            final(self)@ == spec_pull_word(old(self)@).0,
            r == spec_pull_word(old(self)@).1,
    {
        let low = self.pull_byte_from_stack();
        let high = self.pull_byte_from_stack();
        low as u16 + 256 * high as u16
    }

    /// Pushes one byte: writes it where the stack pointer points in the
    /// stack page, then decrements the pointer, wrapping modulo 256.
    pub fn push_byte_to_stack(&mut self, value: u8)
        ensures
            final(self)@ == spec_push_byte(old(self)@, value),
    {
        let sp = self.registers.stack_pointer;
        let stack_address = sp as usize + 0x100;
        self.write_byte_to_memory(stack_address, value);
        self.registers.stack_pointer = if sp == 0 { 255 } else { sp - 1 };
    }

    /// Pushes a word, high byte first, so that it reads back little-endian.
    pub fn push_word_to_stack(&mut self, value: u16)
        ensures
            final(self)@ == spec_push_word(old(self)@, value),
    {
        self.push_byte_to_stack((value / 256) as u8);
        self.push_byte_to_stack((value % 256) as u8);
    }

    /// Reads one flag out of the packed status byte: the stored bit
    /// itself, for the reserved bit as for every other.
    pub fn get_status_flag(&self, status_flag: StatusFlag) -> (r: bool)
        ensures
            r == spec_get_flag(self.registers.status, status_flag),
    {
        let index = flag_index(status_flag);
        (self.registers.status >> index) & 1 == 1
    }

    /// Writes one flag of the packed status byte, leaving every other flag
    /// unchanged.
    pub fn set_status_flag(&mut self, status_flag: StatusFlag, new_flag: bool)
        ensures
            final(self).registers == (RegisterFile {
                status: spec_set_flag(old(self).registers.status, status_flag, new_flag),
                ..old(self).registers
            }),
            final(self).memory == old(self).memory,
            final(self)@.mem == old(self)@.mem,
    {
        let index = flag_index(status_flag);
        if new_flag {
            self.registers.status = self.registers.status | (1u8 << index);
        } else {
            self.registers.status = self.registers.status & !(1u8 << index);
        }
    }

    /// Rewrites the Zero and Negative flags from an 8-bit result.
    fn set_zero_and_negative_flags(&mut self, value: u8)
        ensures
            final(self).registers == (RegisterFile {
                status: spec_set_zn(old(self).registers.status, value),
                ..old(self).registers
            }),
            final(self)@.mem == old(self)@.mem,
    {
        self.set_status_flag(StatusFlag::ZERO, value == 0);
        self.set_status_flag(StatusFlag::NEGATIVE, value >= 128);
    }
}

/// The value an operand holds when read: the accumulator, the byte at a
/// memory address, or the literal byte itself. An implied operand has no
/// value to read.
pub open spec fn spec_operand_value(m: Machine, operand: Operand) -> Option<u8> {
    match operand {
        Operand::Accumulator => Some(m.regs.accumulator),
        Operand::Address(addr) => Some(mem_byte(m, addr as int)),
        Operand::Immediate(value) => Some(value),
        Operand::Implied => None,
    }
}

/// The machine after writing through an operand. Only the accumulator and
/// a memory address can be written; a literal or implied operand cannot.
pub open spec fn spec_operand_write(m: Machine, operand: Operand, value: u8) -> Option<Machine> {
    match operand {
        Operand::Accumulator => Some(
            Machine { regs: RegisterFile { accumulator: value, ..m.regs }, mem: m.mem },
        ),
        Operand::Address(addr) => Some(spec_write_byte(m, addr as int, value)),
        Operand::Immediate(_) => None,
        Operand::Implied => None,
    }
}

/// The machine with the program counter advanced by `k` bytes, wrapping
/// modulo 64 K.
pub open spec fn spec_pc_plus(m: Machine, k: int) -> Machine {
    Machine {
        regs: RegisterFile {
            program_counter: ((m.regs.program_counter + k) % 0x10000) as u16,
            ..m.regs
        },
        mem: m.mem,
    }
}

/// Operand resolution for the absolute modes: a little-endian base address
/// follows the opcode, an index register may be added, wrapping modulo
/// 64 K; two operand bytes are consumed.
pub open spec fn spec_absolute_operand(m: Machine, offset: u8) -> (Machine, Operand) {
    let base = mem_word(m, m.regs.program_counter as int);
    (spec_pc_plus(m, 2), Operand::Address(((base + offset) % 0x10000) as u16))
}

/// Operand resolution for immediate mode: the literal byte at the program
/// counter; one operand byte is consumed.
pub open spec fn spec_immediate_operand(m: Machine) -> (Machine, Operand) {
    (spec_pc_plus(m, 1), Operand::Immediate(mem_byte(m, m.regs.program_counter as int)))
}

/// Operand resolution for indirect mode: a little-endian pointer address
/// follows the opcode, and the word stored there is the operand address.
pub open spec fn spec_indirect_operand(m: Machine) -> (Machine, Operand) {
    let pointer_address = mem_word(m, m.regs.program_counter as int);
    (spec_pc_plus(m, 2), Operand::Address(mem_word(m, pointer_address as int)))
}

/// Operand resolution for pre-indexed indirect mode: a zero-page base byte
/// plus X, wrapped to 8 bits, is read as a little-endian pointer.
pub open spec fn spec_indirect_x_operand(m: Machine) -> (Machine, Operand) {
    let base = mem_byte(m, m.regs.program_counter as int);
    let pointer_address = (base + m.regs.x) % 256;
    (spec_pc_plus(m, 1), Operand::Address(mem_word(m, pointer_address)))
}

/// Operand resolution for post-indexed indirect mode: a zero-page base
/// byte is read as a little-endian pointer, then the Y register is added
/// to the pointer value, wrapping modulo 64 K.
pub open spec fn spec_indirect_y_operand(m: Machine) -> (Machine, Operand) {
    let base = mem_byte(m, m.regs.program_counter as int);
    let pointer = mem_word(m, base as int);
    (spec_pc_plus(m, 1), Operand::Address(((pointer + m.regs.y) % 0x10000) as u16))
}

/// Operand resolution for the zero-page modes: one base byte, an index
/// register possibly added, masked to 8 bits so the address stays within
/// page 0.
pub open spec fn spec_zero_page_operand(m: Machine, offset: u8) -> (Machine, Operand) {
    let base = mem_byte(m, m.regs.program_counter as int);
    (spec_pc_plus(m, 1), Operand::Address((((base + offset) % 256) as u16)))
}

/// Operand resolution: computes the operand of the given addressing mode
/// and consumes however many operand bytes the mode requires.
pub open spec fn spec_fetch_operand(m: Machine, mode: OperandMode) -> (Machine, Operand) {
    match mode {
        OperandMode::Absolute => spec_absolute_operand(m, 0),
        OperandMode::AbsoluteX => spec_absolute_operand(m, m.regs.x),
        OperandMode::AbsoluteY => spec_absolute_operand(m, m.regs.y),
        OperandMode::Accumulator => (m, Operand::Accumulator),
        OperandMode::Immediate => spec_immediate_operand(m),
        OperandMode::Implied => (m, Operand::Implied),
        OperandMode::Indirect => spec_indirect_operand(m),
        OperandMode::IndirectX => spec_indirect_x_operand(m),
        OperandMode::IndirectY => spec_indirect_y_operand(m),
        OperandMode::ZeroPage => spec_zero_page_operand(m, 0),
        OperandMode::ZeroPageX => spec_zero_page_operand(m, m.regs.x),
        OperandMode::ZeroPageY => spec_zero_page_operand(m, m.regs.y),
    }
}

/// The machine with the accumulator loaded with `value` and the Zero and
/// Negative flags rewritten from it.
pub open spec fn spec_update_accumulator(m: Machine, value: u8) -> Machine {
    Machine {
        regs: RegisterFile {
            accumulator: value,
            status: spec_set_zn(m.regs.status, value),
            ..m.regs
        },
        mem: m.mem,
    }
}

/// The machine with the X register loaded with `value` and the Zero and
/// Negative flags rewritten from it.
pub open spec fn spec_update_x(m: Machine, value: u8) -> Machine {
    Machine {
        regs: RegisterFile { x: value, status: spec_set_zn(m.regs.status, value), ..m.regs },
        mem: m.mem,
    }
}

/// The machine with the Y register loaded with `value` and the Zero and
/// Negative flags rewritten from it.
pub open spec fn spec_update_y(m: Machine, value: u8) -> Machine {
    Machine {
        regs: RegisterFile { y: value, status: spec_set_zn(m.regs.status, value), ..m.regs },
        mem: m.mem,
    }
}

/// The machine with the stack pointer loaded with `value` and the Zero and
/// Negative flags rewritten from it.
pub open spec fn spec_update_stack_pointer(m: Machine, value: u8) -> Machine {
    Machine {
        regs: RegisterFile {
            stack_pointer: value,
            status: spec_set_zn(m.regs.status, value),
            ..m.regs
        },
        mem: m.mem,
    }
}

/// Add with carry, binary mode: the 16-bit sum of accumulator, operand and
/// carry-in; the new carry is bit 8 of the sum, the result its low 8 bits;
/// overflow holds when both addends share a sign and the result's sign
/// differs; Zero and Negative follow the 8-bit result.
pub open spec fn spec_adc(m: Machine, v: u8) -> Machine {
    let a = m.regs.accumulator;
    let carry_in: int = if spec_get_flag(m.regs.status, StatusFlag::CARRY) {
        1
    } else {
        0
    };
    let sum = a + v + carry_in;
    let result = (sum % 256) as u8;
    let overflow = ((v >= 128) == (a >= 128)) && ((result >= 128) != (v >= 128));
    let status = spec_set_zn(
        spec_set_flag(
            spec_set_flag(m.regs.status, StatusFlag::CARRY, sum >= 256),
            StatusFlag::OVERFLOW,
            overflow,
        ),
        result,
    );
    Machine { regs: RegisterFile { accumulator: result, status, ..m.regs }, mem: m.mem }
}

/// Subtract with carry, binary mode: accumulator minus operand minus the
/// complemented carry; the new carry holds when nothing underflowed, that
/// is when the signed difference is not negative; overflow holds when the
/// operands' signs differ and the result's sign matches the operand's.
pub open spec fn spec_sbc(m: Machine, v: u8) -> Machine {
    let a = m.regs.accumulator;
    let borrow: int = if spec_get_flag(m.regs.status, StatusFlag::CARRY) {
        0
    } else {
        1
    };
    let diff = a - v - borrow;
    let result = ((diff + 512) % 256) as u8;
    let overflow = ((v >= 128) != (a >= 128)) && ((result >= 128) == (v >= 128));
    let status = spec_set_zn(
        spec_set_flag(
            spec_set_flag(m.regs.status, StatusFlag::CARRY, diff >= 0),
            StatusFlag::OVERFLOW,
            overflow,
        ),
        result,
    );
    Machine { regs: RegisterFile { accumulator: result, status, ..m.regs }, mem: m.mem }
}

/// The branch target: the address after the branch instruction plus the
/// displacement byte, read as signed through 256's-complement, modulo 64 K.
pub open spec fn spec_branch_target(pc: u16, displacement: u8) -> u16 {
    ((pc + displacement + if displacement > 127 {
        0x10000 - 256
    } else {
        0int
    }) % 0x10000) as u16
}

/// ADC on a resolved operand: reading an implied operand fails, and
/// decimal-mode addition is deliberately unimplemented.
pub open spec fn spec_adc_op(m: Machine, operand: Operand) -> Result<Machine, ExecError> {
    match spec_operand_value(m, operand) {
        None => Err(ExecError::InvalidOperandForOperation),
        Some(v) => if spec_get_flag(m.regs.status, StatusFlag::DECIMAL) {
            Err(ExecError::Unimplemented)
        } else {
            Ok(spec_adc(m, v))
        },
    }
}

/// SBC on a resolved operand: reading an implied operand fails, and
/// decimal-mode subtraction is deliberately unimplemented.
pub open spec fn spec_sbc_op(m: Machine, operand: Operand) -> Result<Machine, ExecError> {
    match spec_operand_value(m, operand) {
        None => Err(ExecError::InvalidOperandForOperation),
        Some(v) => if spec_get_flag(m.regs.status, StatusFlag::DECIMAL) {
            Err(ExecError::Unimplemented)
        } else {
            Ok(spec_sbc(m, v))
        },
    }
}

/// AND: accumulator gets the bitwise conjunction, Zero/Negative follow.
pub open spec fn spec_and_op(m: Machine, operand: Operand) -> Result<Machine, ExecError> {
    match spec_operand_value(m, operand) {
        None => Err(ExecError::InvalidOperandForOperation),
        Some(v) => Ok(spec_update_accumulator(m, m.regs.accumulator & v)),
    }
}

/// EOR: accumulator gets the bitwise exclusive or, Zero/Negative follow.
pub open spec fn spec_eor_op(m: Machine, operand: Operand) -> Result<Machine, ExecError> {
    match spec_operand_value(m, operand) {
        None => Err(ExecError::InvalidOperandForOperation),
        Some(v) => Ok(spec_update_accumulator(m, m.regs.accumulator ^ v)),
    }
}

/// ORA: accumulator gets the bitwise disjunction, Zero/Negative follow.
pub open spec fn spec_ora_op(m: Machine, operand: Operand) -> Result<Machine, ExecError> {
    match spec_operand_value(m, operand) {
        None => Err(ExecError::InvalidOperandForOperation),
        Some(v) => Ok(spec_update_accumulator(m, m.regs.accumulator | v)),
    }
}

/// ASL: the operand is doubled modulo 256 in place; the bit shifted out
/// becomes the carry, Zero/Negative follow the result.
pub open spec fn spec_asl_op(m: Machine, operand: Operand) -> Result<Machine, ExecError> {
    match spec_operand_value(m, operand) {
        None => Err(ExecError::InvalidOperandForOperation),
        Some(v) => {
            let result = ((v * 2) % 256) as u8;
            let status = spec_set_zn(
                spec_set_flag(m.regs.status, StatusFlag::CARRY, v >= 128),
                result,
            );
            match spec_operand_write(
                Machine { regs: RegisterFile { status, ..m.regs }, mem: m.mem },
                operand,
                result,
            ) {
                None => Err(ExecError::InvalidOperandForOperation),
                Some(m2) => Ok(m2),
            }
        },
    }
}

/// LSR: the operand is halved in place; the bit shifted out becomes the
/// carry, Zero/Negative follow the result.
pub open spec fn spec_lsr_op(m: Machine, operand: Operand) -> Result<Machine, ExecError> {
    match spec_operand_value(m, operand) {
        None => Err(ExecError::InvalidOperandForOperation),
        Some(v) => {
            let result = (v / 2) as u8;
            let status = spec_set_zn(
                spec_set_flag(m.regs.status, StatusFlag::CARRY, v % 2 == 1),
                result,
            );
            match spec_operand_write(
                Machine { regs: RegisterFile { status, ..m.regs }, mem: m.mem },
                operand,
                result,
            ) {
                None => Err(ExecError::InvalidOperandForOperation),
                Some(m2) => Ok(m2),
            }
        },
    }
}

/// ROL: as ASL, but the previous carry is injected into the vacated low
/// bit.
pub open spec fn spec_rol_op(m: Machine, operand: Operand) -> Result<Machine, ExecError> {
    match spec_operand_value(m, operand) {
        None => Err(ExecError::InvalidOperandForOperation),
        Some(v) => {
            let carry_in: u8 = if spec_get_flag(m.regs.status, StatusFlag::CARRY) {
                1
            } else {
                0
            };
            let result = ((v * 2) % 256 + carry_in) as u8;
            let status = spec_set_flag(
                spec_set_zn(m.regs.status, result),
                StatusFlag::CARRY,
                v >= 128,
            );
            match spec_operand_write(
                Machine { regs: RegisterFile { status, ..m.regs }, mem: m.mem },
                operand,
                result,
            ) {
                None => Err(ExecError::InvalidOperandForOperation),
                Some(m2) => Ok(m2),
            }
        },
    }
}

/// ROR: as LSR, but the previous carry is injected into the vacated high
/// bit.
pub open spec fn spec_ror_op(m: Machine, operand: Operand) -> Result<Machine, ExecError> {
    match spec_operand_value(m, operand) {
        None => Err(ExecError::InvalidOperandForOperation),
        Some(v) => {
            let carry_in: u8 = if spec_get_flag(m.regs.status, StatusFlag::CARRY) {
                128
            } else {
                0
            };
            let result = (v / 2 + carry_in) as u8;
            let status = spec_set_flag(
                spec_set_zn(m.regs.status, result),
                StatusFlag::CARRY,
                v % 2 == 1,
            );
            match spec_operand_write(
                Machine { regs: RegisterFile { status, ..m.regs }, mem: m.mem },
                operand,
                result,
            ) {
                None => Err(ExecError::InvalidOperandForOperation),
                Some(m2) => Ok(m2),
            }
        },
    }
}

/// BIT: Negative and Overflow are copied from bits 7 and 6 of the operand,
/// Zero holds when the conjunction with the accumulator is zero; the
/// accumulator itself is untouched.
pub open spec fn spec_bit_op(m: Machine, operand: Operand) -> Result<Machine, ExecError> {
    match spec_operand_value(m, operand) {
        None => Err(ExecError::InvalidOperandForOperation),
        Some(v) => {
            let status = spec_set_flag(
                spec_set_flag(
                    spec_set_flag(m.regs.status, StatusFlag::NEGATIVE, v >= 128),
                    StatusFlag::OVERFLOW,
                    (v / 64) % 2 == 1,
                ),
                StatusFlag::ZERO,
                m.regs.accumulator & v == 0,
            );
            Ok(Machine { regs: RegisterFile { status, ..m.regs }, mem: m.mem })
        },
    }
}

/// Compare: Zero and Negative follow the wrapping difference of register
/// and operand, and Carry holds exactly when the register is at least the
/// operand, unsigned. No register changes.
pub open spec fn spec_compare_op(m: Machine, operand: Operand, register: u8) -> Result<
    Machine,
    ExecError,
> {
    match spec_operand_value(m, operand) {
        None => Err(ExecError::InvalidOperandForOperation),
        Some(v) => {
            let difference = ((register - v + 256) % 256) as u8;
            let status = spec_set_flag(
                spec_set_zn(m.regs.status, difference),
                StatusFlag::CARRY,
                register >= v,
            );
            Ok(Machine { regs: RegisterFile { status, ..m.regs }, mem: m.mem })
        },
    }
}

/// The 8-bit wrapping successor or predecessor used by the increment and
/// decrement operations.
pub open spec fn spec_step_value(v: u8, negate: bool) -> u8 {
    if negate {
        if v == 0 {
            255u8
        } else {
            (v - 1) as u8
        }
    } else {
        if v == 255 {
            0u8
        } else {
            (v + 1) as u8
        }
    }
}

/// INC/DEC: the operand is incremented or decremented in place, wrapping;
/// only Zero and Negative are affected.
pub open spec fn spec_increment_op(m: Machine, operand: Operand, negate: bool) -> Result<
    Machine,
    ExecError,
> {
    match spec_operand_value(m, operand) {
        None => Err(ExecError::InvalidOperandForOperation),
        Some(v) => {
            let result = spec_step_value(v, negate);
            let status = spec_set_zn(m.regs.status, result);
            match spec_operand_write(
                Machine { regs: RegisterFile { status, ..m.regs }, mem: m.mem },
                operand,
                result,
            ) {
                None => Err(ExecError::InvalidOperandForOperation),
                Some(m2) => Ok(m2),
            }
        },
    }
}

/// Branch: when the named flag has the expected value, the program counter
/// moves to the branch target; otherwise nothing changes. The displacement
/// is read from the operand only when the branch is taken.
pub open spec fn spec_branch_op(
    m: Machine,
    operand: Operand,
    flag: StatusFlag,
    expected: bool,
) -> Result<Machine, ExecError> {
    if spec_get_flag(m.regs.status, flag) == expected {
        match spec_operand_value(m, operand) {
            None => Err(ExecError::InvalidOperandForOperation),
            Some(displacement) => Ok(
                Machine {
                    regs: RegisterFile {
                        program_counter: spec_branch_target(m.regs.program_counter, displacement),
                        ..m.regs
                    },
                    mem: m.mem,
                },
            ),
        }
    } else {
        Ok(m)
    }
}

/// JMP and JSR: the program counter moves to the operand address, which
/// must be an address operand; JSR first pushes the program counter minus
/// one, the hardware's return-address convention.
pub open spec fn spec_jump_op(m: Machine, operand: Operand, save_return_address: bool) -> Result<
    Machine,
    ExecError,
> {
    match operand {
        Operand::Address(addr) => {
            let pushed = if save_return_address {
                let pc = m.regs.program_counter;
                spec_push_word(
                    m,
                    if pc == 0 {
                        0xFFFFu16
                    } else {
                        (pc - 1) as u16
                    },
                )
            } else {
                m
            };
            Ok(
                Machine {
                    regs: RegisterFile { program_counter: addr, ..pushed.regs },
                    mem: pushed.mem,
                },
            )
        },
        _ => Err(ExecError::InvalidOperandForOperation),
    }
}

/// Store: the register value is written through the operand; no flag is
/// touched.
pub open spec fn spec_store_op(m: Machine, operand: Operand, value: u8) -> Result<
    Machine,
    ExecError,
> {
    match spec_operand_write(m, operand, value) {
        None => Err(ExecError::InvalidOperandForOperation),
        Some(m2) => Ok(m2),
    }
}

/// PLA: the accumulator is pulled from the stack, Zero/Negative follow.
pub open spec fn spec_pull_accumulator(m: Machine) -> Machine {
    let (m1, value) = spec_pull_byte(m);
    spec_update_accumulator(m1, value)
}

/// PLP: the whole status byte is pulled from the stack.
pub open spec fn spec_pull_status(m: Machine) -> Machine {
    let (m1, value) = spec_pull_byte(m);
    Machine { regs: RegisterFile { status: value, ..m1.regs }, mem: m1.mem }
}

/// RTI: the status byte is pulled, then the program counter word.
pub open spec fn spec_return_from_interrupt(m: Machine) -> Machine {
    let restored = spec_pull_status(m);
    let (m2, pc) = spec_pull_word(restored);
    Machine { regs: RegisterFile { program_counter: pc, ..m2.regs }, mem: m2.mem }
}

/// RTS: the program counter word is pulled and incremented by one,
/// wrapping, undoing JSR's minus-one convention.
pub open spec fn spec_return_from_subroutine(m: Machine) -> Machine {
    let (m1, pc) = spec_pull_word(m);
    Machine {
        regs: RegisterFile {
            program_counter: if pc == 0xFFFF {
                0u16
            } else {
                (pc + 1) as u16
            },
            ..m1.regs
        },
        mem: m1.mem,
    }
}

/// The machine with one flag rewritten, as the set and clear operations
/// leave it.
pub open spec fn spec_flag_write(m: Machine, flag: StatusFlag, value: bool) -> Machine {
    Machine {
        regs: RegisterFile { status: spec_set_flag(m.regs.status, flag, value), ..m.regs },
        mem: m.mem,
    }
}

/// The execute stage: the machine after carrying one operation out on a
/// resolved operand, or the failure that forbids it. BRK is deliberately
/// unimplemented; every other documented operation is given its
/// hardware-faithful meaning.
pub open spec fn spec_execute_operation(m: Machine, op: Operation, operand: Operand) -> Result<
    Machine,
    ExecError,
> {
    match op {
        Operation::ADC => spec_adc_op(m, operand),
        Operation::AND => spec_and_op(m, operand),
        Operation::ASL => spec_asl_op(m, operand),
        Operation::BCC => spec_branch_op(m, operand, StatusFlag::CARRY, false),
        Operation::BCS => spec_branch_op(m, operand, StatusFlag::CARRY, true),
        Operation::BEQ => spec_branch_op(m, operand, StatusFlag::ZERO, true),
        Operation::BIT => spec_bit_op(m, operand),
        Operation::BMI => spec_branch_op(m, operand, StatusFlag::NEGATIVE, true),
        Operation::BNE => spec_branch_op(m, operand, StatusFlag::ZERO, false),
        Operation::BPL => spec_branch_op(m, operand, StatusFlag::NEGATIVE, false),
        Operation::BRK => Err(ExecError::Unimplemented),
        Operation::BVC => spec_branch_op(m, operand, StatusFlag::OVERFLOW, false),
        Operation::BVS => spec_branch_op(m, operand, StatusFlag::OVERFLOW, true),
        Operation::CLC => Ok(spec_flag_write(m, StatusFlag::CARRY, false)),
        Operation::CLD => Ok(spec_flag_write(m, StatusFlag::DECIMAL, false)),
        Operation::CLI => Ok(spec_flag_write(m, StatusFlag::INTERRUPT, false)),
        Operation::CLV => Ok(spec_flag_write(m, StatusFlag::OVERFLOW, false)),
        Operation::CMP => spec_compare_op(m, operand, m.regs.accumulator),
        Operation::CPX => spec_compare_op(m, operand, m.regs.x),
        Operation::CPY => spec_compare_op(m, operand, m.regs.y),
        Operation::DEC => spec_increment_op(m, operand, true),
        Operation::DEX => Ok(spec_update_x(m, spec_step_value(m.regs.x, true))),
        Operation::DEY => Ok(spec_update_y(m, spec_step_value(m.regs.y, true))),
        Operation::EOR => spec_eor_op(m, operand),
        Operation::INC => spec_increment_op(m, operand, false),
        Operation::INX => Ok(spec_update_x(m, spec_step_value(m.regs.x, false))),
        Operation::INY => Ok(spec_update_y(m, spec_step_value(m.regs.y, false))),
        Operation::JMP => spec_jump_op(m, operand, false),
        Operation::JSR => spec_jump_op(m, operand, true),
        Operation::LDA => match spec_operand_value(m, operand) {
            None => Err(ExecError::InvalidOperandForOperation),
            Some(v) => Ok(spec_update_accumulator(m, v)),
        },
        Operation::LDX => match spec_operand_value(m, operand) {
            None => Err(ExecError::InvalidOperandForOperation),
            Some(v) => Ok(spec_update_x(m, v)),
        },
        Operation::LDY => match spec_operand_value(m, operand) {
            None => Err(ExecError::InvalidOperandForOperation),
            Some(v) => Ok(spec_update_y(m, v)),
        },
        Operation::LSR => spec_lsr_op(m, operand),
        Operation::NOP => Ok(m),
        Operation::ORA => spec_ora_op(m, operand),
        Operation::PHA => Ok(spec_push_byte(m, m.regs.accumulator)),
        Operation::PHP => Ok(spec_push_byte(m, m.regs.status)),
        Operation::PLA => Ok(spec_pull_accumulator(m)),
        Operation::PLP => Ok(spec_pull_status(m)),
        Operation::ROL => spec_rol_op(m, operand),
        Operation::ROR => spec_ror_op(m, operand),
        Operation::RTI => Ok(spec_return_from_interrupt(m)),
        Operation::RTS => Ok(spec_return_from_subroutine(m)),
        Operation::SBC => spec_sbc_op(m, operand),
        Operation::SEC => Ok(spec_flag_write(m, StatusFlag::CARRY, true)),
        Operation::SED => Ok(spec_flag_write(m, StatusFlag::DECIMAL, true)),
        Operation::SEI => Ok(spec_flag_write(m, StatusFlag::INTERRUPT, true)),
        Operation::STA => spec_store_op(m, operand, m.regs.accumulator),
        Operation::STX => spec_store_op(m, operand, m.regs.x),
        Operation::STY => spec_store_op(m, operand, m.regs.y),
        Operation::TAX => Ok(spec_update_x(m, m.regs.accumulator)),
        Operation::TAY => Ok(spec_update_y(m, m.regs.accumulator)),
        Operation::TSX => Ok(spec_update_x(m, m.regs.stack_pointer)),
        Operation::TXA => Ok(spec_update_accumulator(m, m.regs.x)),
        Operation::TXS => Ok(spec_update_stack_pointer(m, m.regs.x)),
        Operation::TYA => Ok(spec_update_accumulator(m, m.regs.y)),
    }
}

/// One whole step: fetch the opcode byte at the program counter, decode
/// it, resolve its operand, execute it. The failures are surfaced
/// untouched; a failing step leaves no trace on the machine.
pub open spec fn spec_step(m: Machine) -> Result<Machine, StepError> {
    let opcode = mem_byte(m, m.regs.program_counter as int);
    match spec_decode(opcode) {
        None => Err(StepError::Decode(DecodeError::UnknownOpcode)),
        Some(instruction) => {
            let fetched = spec_fetch_operand(spec_pc_plus(m, 1), instruction.0);
            match spec_execute_operation(fetched.0, instruction.1, fetched.1) {
                Ok(m2) => Ok(m2),
                Err(e) => Err(StepError::Exec(e)),
            }
        },
    }
}

/// Up to `n` steps, stopping at the first failure; a failure carries how
/// many whole steps completed before it.
pub open spec fn spec_run(m: Machine, n: nat) -> Result<Machine, (nat, StepError)>
    decreases n,
{
    if n == 0 {
        Ok(m)
    } else {
        match spec_step(m) {
            Err(e) => Err(((0nat, e))),
            Ok(m2) => match spec_run(m2, (n - 1) as nat) {
                Ok(mf) => Ok(mf),
                Err(p) => Err(((p.0 + 1, p.1))),
            },
        }
    }
}

impl ComputerState {
    /// Reads the value an operand holds; an implied operand has none.
    pub fn get_operand_value(&self, operand: Operand) -> (r: Result<u8, ExecError>)
        ensures
            spec_operand_value(self@, operand) matches Some(v) ==> r == Ok::<u8, ExecError>(v),
            spec_operand_value(self@, operand) is None ==> r == Err::<u8, _>(
                ExecError::InvalidOperandForOperation,
            ),
    {
        match operand {
            Operand::Accumulator => Ok(self.registers.accumulator),
            Operand::Address(addr) => Ok(self.get_byte_from_memory(addr as usize)),
            Operand::Immediate(value) => Ok(value),
            Operand::Implied => Err(ExecError::InvalidOperandForOperation),
        }
    }

    /// Writes a value through an operand; a literal or implied operand
    /// cannot be written and the machine is left untouched.
    pub fn set_operand_value(&mut self, operand: Operand, value: u8) -> (r: Result<(), ExecError>)
        ensures
            spec_operand_write(old(self)@, operand, value) matches Some(m2) ==> r == Ok::<
                (),
                ExecError,
            >(()) && final(self)@ == m2,
            spec_operand_write(old(self)@, operand, value) is None ==> r == Err::<(), _>(
                ExecError::InvalidOperandForOperation,
            ) && final(self)@ == old(self)@,
    {
        match operand {
            Operand::Accumulator => {
                self.registers.accumulator = value;
                Ok(())
            },
            Operand::Address(addr) => {
                self.write_byte_to_memory(addr as usize, value);
                Ok(())
            },
            Operand::Immediate(_) => Err(ExecError::InvalidOperandForOperation),
            Operand::Implied => Err(ExecError::InvalidOperandForOperation),
        }
    }

    /// Advances the program counter by `bytes`, wrapping modulo 64 K.
    fn advance_program_counter(&mut self, bytes: u16)
        ensures
            final(self)@ == spec_pc_plus(old(self)@, bytes as int),
    {
        self.registers.program_counter = ((self.registers.program_counter as u32 + bytes as u32)
            % MEMORY_SIZE as u32) as u16;
    }

    fn get_absolute_operand(&mut self, offset: u8) -> (r: Operand)
        ensures
            final(self)@ == spec_absolute_operand(old(self)@, offset).0,
            r == spec_absolute_operand(old(self)@, offset).1,
    {
        let base = self.get_word_from_memory(self.registers.program_counter as usize);
        self.advance_program_counter(2);
        Operand::Address(((base as u32 + offset as u32) % MEMORY_SIZE as u32) as u16)
    }

    fn get_immediate_operand(&mut self) -> (r: Operand)
        ensures
            final(self)@ == spec_immediate_operand(old(self)@).0,
            r == spec_immediate_operand(old(self)@).1,
    {
        let value = self.get_byte_from_memory(self.registers.program_counter as usize);
        self.advance_program_counter(1);
        Operand::Immediate(value)
    }

    fn get_indirect_operand(&mut self) -> (r: Operand)
        ensures
            final(self)@ == spec_indirect_operand(old(self)@).0,
            r == spec_indirect_operand(old(self)@).1,
    {
        let pointer_address = self.get_word_from_memory(
            self.registers.program_counter as usize,
        );
        let pointer = self.get_word_from_memory(pointer_address as usize);
        self.advance_program_counter(2);
        Operand::Address(pointer)
    }

    fn get_indirect_x_operand(&mut self) -> (r: Operand)
        ensures
            final(self)@ == spec_indirect_x_operand(old(self)@).0,
            r == spec_indirect_x_operand(old(self)@).1,
    {
        let base = self.get_byte_from_memory(self.registers.program_counter as usize);
        let pointer_address = (base as usize + self.registers.x as usize) % 256;
        let pointer = self.get_word_from_memory(pointer_address);
        self.advance_program_counter(1);
        Operand::Address(pointer)
    }

    fn get_indirect_y_operand(&mut self) -> (r: Operand)
        ensures
            final(self)@ == spec_indirect_y_operand(old(self)@).0,
            r == spec_indirect_y_operand(old(self)@).1,
    {
        let base = self.get_byte_from_memory(self.registers.program_counter as usize);
        let pointer = self.get_word_from_memory(base as usize);
        let offset = self.registers.y;
        self.advance_program_counter(1);
        Operand::Address(((pointer as u32 + offset as u32) % MEMORY_SIZE as u32) as u16)
    }

    fn get_zero_page_operand(&mut self, offset: u8) -> (r: Operand)
        ensures
            final(self)@ == spec_zero_page_operand(old(self)@, offset).0,
            r == spec_zero_page_operand(old(self)@, offset).1,
            r matches Operand::Address(addr) && addr < 256,
    {
        let base = self.get_byte_from_memory(self.registers.program_counter as usize);
        let address = ((base as u16 + offset as u16) % 256) as u16;
        self.advance_program_counter(1);
        Operand::Address(address)
    }

    /// Resolves the operand of an addressing mode, consuming however many
    /// operand bytes the mode requires.
    pub fn fetch_operand(&mut self, mode: OperandMode) -> (r: Operand)
        ensures
            final(self)@ == spec_fetch_operand(old(self)@, mode).0,
            r == spec_fetch_operand(old(self)@, mode).1,
    {
        match mode {
            OperandMode::Absolute => self.get_absolute_operand(0),
            OperandMode::AbsoluteX => self.get_absolute_operand(self.registers.x),
            OperandMode::AbsoluteY => self.get_absolute_operand(self.registers.y),
            OperandMode::Accumulator => Operand::Accumulator,
            OperandMode::Immediate => self.get_immediate_operand(),
            OperandMode::Implied => Operand::Implied,
            OperandMode::Indirect => self.get_indirect_operand(),
            OperandMode::IndirectX => self.get_indirect_x_operand(),
            OperandMode::IndirectY => self.get_indirect_y_operand(),
            OperandMode::ZeroPage => self.get_zero_page_operand(0),
            OperandMode::ZeroPageX => self.get_zero_page_operand(self.registers.x),
            OperandMode::ZeroPageY => self.get_zero_page_operand(self.registers.y),
        }
    }

    fn execute_add_with_carry(&mut self, operand: Operand) -> (r: Result<(), ExecError>)
        ensures
            spec_adc_op(old(self)@, operand) matches Ok(m2) ==> r == Ok::<(), ExecError>(())
                && final(self)@ == m2,
            spec_adc_op(old(self)@, operand) matches Err(e) ==> r == Err::<(), ExecError>(e)
                && final(self)@ == old(self)@,
    {
        let operand_value = match self.get_operand_value(operand) {
            Ok(v) => v,
            Err(e) => {
                return Err(e);
            },
        };
        if self.get_status_flag(StatusFlag::DECIMAL) {
            return Err(ExecError::Unimplemented);
        }
        let carry: u16 = if self.get_status_flag(StatusFlag::CARRY) {
            1
        } else {
            0
        };
        let accumulator = self.registers.accumulator;
        let sum: u16 = operand_value as u16 + carry + accumulator as u16;
        let result = (sum % 256) as u8;
        let overflow = ((operand_value >= 128) == (accumulator >= 128)) && ((result >= 128)
            != (operand_value >= 128));
        self.set_status_flag(StatusFlag::CARRY, sum >= 256);
        self.set_status_flag(StatusFlag::OVERFLOW, overflow);
        self.set_zero_and_negative_flags(result);
        self.registers.accumulator = result;
        Ok(())
    }

    fn execute_substract_with_carry(&mut self, operand: Operand) -> (r: Result<(), ExecError>)
        ensures
            spec_sbc_op(old(self)@, operand) matches Ok(m2) ==> r == Ok::<(), ExecError>(())
                && final(self)@ == m2,
            spec_sbc_op(old(self)@, operand) matches Err(e) ==> r == Err::<(), ExecError>(e)
                && final(self)@ == old(self)@,
    {
        let operand_value = match self.get_operand_value(operand) {
            Ok(v) => v,
            Err(e) => {
                return Err(e);
            },
        };
        if self.get_status_flag(StatusFlag::DECIMAL) {
            return Err(ExecError::Unimplemented);
        }
        let borrow: u16 = if self.get_status_flag(StatusFlag::CARRY) {
            0
        } else {
            1
        };
        let accumulator = self.registers.accumulator;
        let shifted: u16 = 512 + accumulator as u16 - operand_value as u16 - borrow;
        let result = (shifted % 256) as u8;
        let new_carry = shifted >= 512;
        let overflow = ((operand_value >= 128) != (accumulator >= 128)) && ((result >= 128)
            == (operand_value >= 128));
        self.set_status_flag(StatusFlag::CARRY, new_carry);
        self.set_status_flag(StatusFlag::OVERFLOW, overflow);
        self.set_zero_and_negative_flags(result);
        self.registers.accumulator = result;
        Ok(())
    }

    fn execute_and(&mut self, operand: Operand) -> (r: Result<(), ExecError>)
        ensures
            spec_and_op(old(self)@, operand) matches Ok(m2) ==> r == Ok::<(), ExecError>(())
                && final(self)@ == m2,
            spec_and_op(old(self)@, operand) matches Err(e) ==> r == Err::<(), ExecError>(e)
                && final(self)@ == old(self)@,
    {
        let operand_value = match self.get_operand_value(operand) {
            Ok(v) => v,
            Err(e) => {
                return Err(e);
            },
        };
        let result = self.registers.accumulator & operand_value;
        self.set_zero_and_negative_flags(result);
        self.registers.accumulator = result;
        Ok(())
    }

    fn execute_exclusive_or(&mut self, operand: Operand) -> (r: Result<(), ExecError>)
        ensures
            spec_eor_op(old(self)@, operand) matches Ok(m2) ==> r == Ok::<(), ExecError>(())
                && final(self)@ == m2,
            spec_eor_op(old(self)@, operand) matches Err(e) ==> r == Err::<(), ExecError>(e)
                && final(self)@ == old(self)@,
    {
        let operand_value = match self.get_operand_value(operand) {
            Ok(v) => v,
            Err(e) => {
                return Err(e);
            },
        };
        let result = self.registers.accumulator ^ operand_value;
        self.set_zero_and_negative_flags(result);
        self.registers.accumulator = result;
        Ok(())
    }

    fn execute_inclusive_or(&mut self, operand: Operand) -> (r: Result<(), ExecError>)
        ensures
            spec_ora_op(old(self)@, operand) matches Ok(m2) ==> r == Ok::<(), ExecError>(())
                && final(self)@ == m2,
            spec_ora_op(old(self)@, operand) matches Err(e) ==> r == Err::<(), ExecError>(e)
                && final(self)@ == old(self)@,
    {
        let operand_value = match self.get_operand_value(operand) {
            Ok(v) => v,
            Err(e) => {
                return Err(e);
            },
        };
        let result = self.registers.accumulator | operand_value;
        self.set_zero_and_negative_flags(result);
        self.registers.accumulator = result;
        Ok(())
    }

    fn execute_left_shift(&mut self, operand: Operand) -> (r: Result<(), ExecError>)
        ensures
            spec_asl_op(old(self)@, operand) matches Ok(m2) ==> r == Ok::<(), ExecError>(())
                && final(self)@ == m2,
            spec_asl_op(old(self)@, operand) matches Err(e) ==> r == Err::<(), ExecError>(e)
                && final(self)@ == old(self)@,
    {
        let operand_value = match self.get_operand_value(operand) {
            Ok(v) => v,
            Err(e) => {
                return Err(e);
            },
        };
        let high_bit = operand_value >= 128;
        let result = ((operand_value as u16 * 2) % 256) as u8;
        match self.set_operand_value(operand, result) {
            Ok(()) => {},
            Err(e) => {
                return Err(e);
            },
        }
        self.set_status_flag(StatusFlag::CARRY, high_bit);
        self.set_zero_and_negative_flags(result);
        Ok(())
    }

    fn execute_right_shift(&mut self, operand: Operand) -> (r: Result<(), ExecError>)
        ensures
            spec_lsr_op(old(self)@, operand) matches Ok(m2) ==> r == Ok::<(), ExecError>(())
                && final(self)@ == m2,
            spec_lsr_op(old(self)@, operand) matches Err(e) ==> r == Err::<(), ExecError>(e)
                && final(self)@ == old(self)@,
    {
        let operand_value = match self.get_operand_value(operand) {
            Ok(v) => v,
            Err(e) => {
                return Err(e);
            },
        };
        let low_bit = operand_value % 2 == 1;
        let result = operand_value / 2;
        match self.set_operand_value(operand, result) {
            Ok(()) => {},
            Err(e) => {
                return Err(e);
            },
        }
        self.set_status_flag(StatusFlag::CARRY, low_bit);
        self.set_zero_and_negative_flags(result);
        Ok(())
    }

    fn execute_rotate_left(&mut self, operand: Operand) -> (r: Result<(), ExecError>)
        ensures
            spec_rol_op(old(self)@, operand) matches Ok(m2) ==> r == Ok::<(), ExecError>(())
                && final(self)@ == m2,
            spec_rol_op(old(self)@, operand) matches Err(e) ==> r == Err::<(), ExecError>(e)
                && final(self)@ == old(self)@,
    {
        let operand_value = match self.get_operand_value(operand) {
            Ok(v) => v,
            Err(e) => {
                return Err(e);
            },
        };
        let high_bit = operand_value >= 128;
        let new_low_bit: u8 = if self.get_status_flag(StatusFlag::CARRY) {
            1
        } else {
            0
        };
        let result = (((operand_value as u16 * 2) % 256) as u8) + new_low_bit;
        match self.set_operand_value(operand, result) {
            Ok(()) => {},
            Err(e) => {
                return Err(e);
            },
        }
        self.set_zero_and_negative_flags(result);
        self.set_status_flag(StatusFlag::CARRY, high_bit);
        Ok(())
    }

    fn execute_rotate_right(&mut self, operand: Operand) -> (r: Result<(), ExecError>)
        ensures
            spec_ror_op(old(self)@, operand) matches Ok(m2) ==> r == Ok::<(), ExecError>(())
                && final(self)@ == m2,
            spec_ror_op(old(self)@, operand) matches Err(e) ==> r == Err::<(), ExecError>(e)
                && final(self)@ == old(self)@,
    {
        let operand_value = match self.get_operand_value(operand) {
            Ok(v) => v,
            Err(e) => {
                return Err(e);
            },
        };
        let low_bit = operand_value % 2 == 1;
        let new_high_bit: u8 = if self.get_status_flag(StatusFlag::CARRY) {
            128
        } else {
            0
        };
        let result = operand_value / 2 + new_high_bit;
        match self.set_operand_value(operand, result) {
            Ok(()) => {},
            Err(e) => {
                return Err(e);
            },
        }
        self.set_zero_and_negative_flags(result);
        self.set_status_flag(StatusFlag::CARRY, low_bit);
        Ok(())
    }

    fn execute_bit_test(&mut self, operand: Operand) -> (r: Result<(), ExecError>)
        ensures
            spec_bit_op(old(self)@, operand) matches Ok(m2) ==> r == Ok::<(), ExecError>(())
                && final(self)@ == m2,
            spec_bit_op(old(self)@, operand) matches Err(e) ==> r == Err::<(), ExecError>(e)
                && final(self)@ == old(self)@,
    {
        let operand_value = match self.get_operand_value(operand) {
            Ok(v) => v,
            Err(e) => {
                return Err(e);
            },
        };
        let bit_7 = operand_value >= 128;
        let bit_6 = (operand_value / 64) % 2 == 1;
        let and_result = self.registers.accumulator & operand_value;
        self.set_status_flag(StatusFlag::NEGATIVE, bit_7);
        self.set_status_flag(StatusFlag::OVERFLOW, bit_6);
        self.set_status_flag(StatusFlag::ZERO, and_result == 0);
        Ok(())
    }

    fn execute_compare(&mut self, operand: Operand, register: u8) -> (r: Result<(), ExecError>)
        ensures
            spec_compare_op(old(self)@, operand, register) matches Ok(m2) ==> r == Ok::<
                (),
                ExecError,
            >(()) && final(self)@ == m2,
            spec_compare_op(old(self)@, operand, register) matches Err(e) ==> r == Err::<
                (),
                ExecError,
            >(e) && final(self)@ == old(self)@,
    {
        let operand_value = match self.get_operand_value(operand) {
            Ok(v) => v,
            Err(e) => {
                return Err(e);
            },
        };
        let difference = ((register as u16 + 256 - operand_value as u16) % 256) as u8;
        self.set_zero_and_negative_flags(difference);
        self.set_status_flag(StatusFlag::CARRY, register >= operand_value);
        Ok(())
    }

    fn step_value(value: u8, negate: bool) -> (r: u8)
        ensures
            r == spec_step_value(value, negate),
    {
        if negate {
            if value == 0 {
                255
            } else {
                value - 1
            }
        } else {
            if value == 255 {
                0
            } else {
                value + 1
            }
        }
    }

    fn execute_increment(&mut self, operand: Operand, negate: bool) -> (r: Result<(), ExecError>)
        ensures
            spec_increment_op(old(self)@, operand, negate) matches Ok(m2) ==> r == Ok::<
                (),
                ExecError,
            >(()) && final(self)@ == m2,
            spec_increment_op(old(self)@, operand, negate) matches Err(e) ==> r == Err::<
                (),
                ExecError,
            >(e) && final(self)@ == old(self)@,
    {
        let operand_value = match self.get_operand_value(operand) {
            Ok(v) => v,
            Err(e) => {
                return Err(e);
            },
        };
        let result = Self::step_value(operand_value, negate);
        match self.set_operand_value(operand, result) {
            Ok(()) => {},
            Err(e) => {
                return Err(e);
            },
        }
        self.set_zero_and_negative_flags(result);
        Ok(())
    }

    fn execute_increment_x(&mut self, negate: bool) -> (r: Result<(), ExecError>)
        ensures
            r == Ok::<(), ExecError>(()),
            final(self)@ == spec_update_x(old(self)@, spec_step_value(old(self).registers.x, negate)),
    {
        let result = Self::step_value(self.registers.x, negate);
        self.set_zero_and_negative_flags(result);
        self.registers.x = result;
        Ok(())
    }

    fn execute_increment_y(&mut self, negate: bool) -> (r: Result<(), ExecError>)
        ensures
            r == Ok::<(), ExecError>(()),
            final(self)@ == spec_update_y(old(self)@, spec_step_value(old(self).registers.y, negate)),
    {
        let result = Self::step_value(self.registers.y, negate);
        self.set_zero_and_negative_flags(result);
        self.registers.y = result;
        Ok(())
    }

    fn execute_branch_if(&mut self, operand: Operand, flag: StatusFlag, value: bool) -> (r: Result<
        (),
        ExecError,
    >)
        ensures
            spec_branch_op(old(self)@, operand, flag, value) matches Ok(m2) ==> r == Ok::<
                (),
                ExecError,
            >(()) && final(self)@ == m2,
            spec_branch_op(old(self)@, operand, flag, value) matches Err(e) ==> r == Err::<
                (),
                ExecError,
            >(e) && final(self)@ == old(self)@,
    {
        if self.get_status_flag(flag) == value {
            let operand_value = match self.get_operand_value(operand) {
                Ok(v) => v,
                Err(e) => {
                    return Err(e);
                },
            };
            let extension: u32 = if operand_value > 127 {
                0x10000 - 256
            } else {
                0
            };
            let target = ((self.registers.program_counter as u32 + operand_value as u32
                + extension) % MEMORY_SIZE as u32) as u16;
            self.registers.program_counter = target;
        }
        Ok(())
    }

    fn execute_jump(&mut self, operand: Operand, save_return_address: bool) -> (r: Result<
        (),
        ExecError,
    >)
        ensures
            spec_jump_op(old(self)@, operand, save_return_address) matches Ok(m2) ==> r == Ok::<
                (),
                ExecError,
            >(()) && final(self)@ == m2,
            spec_jump_op(old(self)@, operand, save_return_address) matches Err(e) ==> r == Err::<
                (),
                ExecError,
            >(e) && final(self)@ == old(self)@,
    {
        let jump_address = match operand {
            Operand::Address(addr) => addr,
            _ => {
                return Err(ExecError::InvalidOperandForOperation);
            },
        };
        if save_return_address {
            let pc = self.registers.program_counter;
            let return_address = if pc == 0 {
                0xFFFF
            } else {
                pc - 1
            };
            self.push_word_to_stack(return_address);
        }
        self.registers.program_counter = jump_address;
        Ok(())
    }

    fn execute_store(&mut self, operand: Operand, value: u8) -> (r: Result<(), ExecError>)
        ensures
            spec_store_op(old(self)@, operand, value) matches Ok(m2) ==> r == Ok::<(), ExecError>(
                (),
            ) && final(self)@ == m2,
            spec_store_op(old(self)@, operand, value) matches Err(e) ==> r == Err::<(), ExecError>(
                e,
            ) && final(self)@ == old(self)@,
    {
        match self.set_operand_value(operand, value) {
            Ok(()) => Ok(()),
            Err(e) => Err(e),
        }
    }

    fn execute_load_accumulator(&mut self, operand: Operand) -> (r: Result<(), ExecError>)
        ensures
            spec_operand_value(old(self)@, operand) matches Some(v) ==> r == Ok::<(), ExecError>(
                (),
            ) && final(self)@ == spec_update_accumulator(old(self)@, v),
            spec_operand_value(old(self)@, operand) is None ==> r == Err::<(), _>(
                ExecError::InvalidOperandForOperation,
            ) && final(self)@ == old(self)@,
    {
        let operand_value = match self.get_operand_value(operand) {
            Ok(v) => v,
            Err(e) => {
                return Err(e);
            },
        };
        self.set_zero_and_negative_flags(operand_value);
        self.registers.accumulator = operand_value;
        Ok(())
    }

    fn execute_load_x(&mut self, operand: Operand) -> (r: Result<(), ExecError>)
        ensures
            spec_operand_value(old(self)@, operand) matches Some(v) ==> r == Ok::<(), ExecError>(
                (),
            ) && final(self)@ == spec_update_x(old(self)@, v),
            spec_operand_value(old(self)@, operand) is None ==> r == Err::<(), _>(
                ExecError::InvalidOperandForOperation,
            ) && final(self)@ == old(self)@,
    {
        let operand_value = match self.get_operand_value(operand) {
            Ok(v) => v,
            Err(e) => {
                return Err(e);
            },
        };
        self.set_zero_and_negative_flags(operand_value);
        self.registers.x = operand_value;
        Ok(())
    }

    fn execute_load_y(&mut self, operand: Operand) -> (r: Result<(), ExecError>)
        ensures
            spec_operand_value(old(self)@, operand) matches Some(v) ==> r == Ok::<(), ExecError>(
                (),
            ) && final(self)@ == spec_update_y(old(self)@, v),
            spec_operand_value(old(self)@, operand) is None ==> r == Err::<(), _>(
                ExecError::InvalidOperandForOperation,
            ) && final(self)@ == old(self)@,
    {
        let operand_value = match self.get_operand_value(operand) {
            Ok(v) => v,
            Err(e) => {
                return Err(e);
            },
        };
        self.set_zero_and_negative_flags(operand_value);
        self.registers.y = operand_value;
        Ok(())
    }

    fn execute_pull_accumulator(&mut self) -> (r: Result<(), ExecError>)
        ensures
            r == Ok::<(), ExecError>(()),
            final(self)@ == spec_pull_accumulator(old(self)@),
    {
        let new_accumulator = self.pull_byte_from_stack();
        self.set_zero_and_negative_flags(new_accumulator);
        self.registers.accumulator = new_accumulator;
        Ok(())
    }

    fn execute_pull_status(&mut self) -> (r: Result<(), ExecError>)
        ensures
            r == Ok::<(), ExecError>(()),
            final(self)@ == spec_pull_status(old(self)@),
    {
        self.registers.status = self.pull_byte_from_stack();
        Ok(())
    }

    fn execute_return_from_interrupt(&mut self) -> (r: Result<(), ExecError>)
        ensures
            r == Ok::<(), ExecError>(()),
            final(self)@ == spec_return_from_interrupt(old(self)@),
    {
        self.registers.status = self.pull_byte_from_stack();
        self.registers.program_counter = self.pull_word_from_stack();
        Ok(())
    }

    fn execute_return_from_subroutine(&mut self) -> (r: Result<(), ExecError>)
        ensures
            r == Ok::<(), ExecError>(()),
            final(self)@ == spec_return_from_subroutine(old(self)@),
    {
        let pulled = self.pull_word_from_stack();
        self.registers.program_counter = if pulled == 0xFFFF {
            0
        } else {
            pulled + 1
        };
        Ok(())
    }

    /// Carries one operation out on a resolved operand. On failure the
    /// machine is left exactly as it was: a handler fails before it
    /// mutates anything.
    pub fn execute_operation(&mut self, op: Operation, operand: Operand) -> (r: Result<
        (),
        ExecError,
    >)
        ensures
            spec_execute_operation(old(self)@, op, operand) matches Ok(m2) ==> r == Ok::<
                (),
                ExecError,
            >(()) && final(self)@ == m2,
            spec_execute_operation(old(self)@, op, operand) matches Err(e) ==> r == Err::<
                (),
                ExecError,
            >(e) && final(self)@ == old(self)@,
    {
        match op {
            Operation::ADC => self.execute_add_with_carry(operand),
            Operation::AND => self.execute_and(operand),
            Operation::ASL => self.execute_left_shift(operand),
            Operation::BCC => self.execute_branch_if(operand, StatusFlag::CARRY, false),
            Operation::BCS => self.execute_branch_if(operand, StatusFlag::CARRY, true),
            Operation::BEQ => self.execute_branch_if(operand, StatusFlag::ZERO, true),
            Operation::BIT => self.execute_bit_test(operand),
            Operation::BMI => self.execute_branch_if(operand, StatusFlag::NEGATIVE, true),
            Operation::BNE => self.execute_branch_if(operand, StatusFlag::ZERO, false),
            Operation::BPL => self.execute_branch_if(operand, StatusFlag::NEGATIVE, false),
            Operation::BRK => Err(ExecError::Unimplemented),
            Operation::BVC => self.execute_branch_if(operand, StatusFlag::OVERFLOW, false),
            Operation::BVS => self.execute_branch_if(operand, StatusFlag::OVERFLOW, true),
            Operation::CLC => {
                self.set_status_flag(StatusFlag::CARRY, false);
                Ok(())
            },
            Operation::CLD => {
                self.set_status_flag(StatusFlag::DECIMAL, false);
                Ok(())
            },
            Operation::CLI => {
                self.set_status_flag(StatusFlag::INTERRUPT, false);
                Ok(())
            },
            Operation::CLV => {
                self.set_status_flag(StatusFlag::OVERFLOW, false);
                Ok(())
            },
            Operation::CMP => self.execute_compare(operand, self.registers.accumulator),
            Operation::CPX => self.execute_compare(operand, self.registers.x),
            Operation::CPY => self.execute_compare(operand, self.registers.y),
            Operation::DEC => self.execute_increment(operand, true),
            Operation::DEX => self.execute_increment_x(true),
            Operation::DEY => self.execute_increment_y(true),
            Operation::EOR => self.execute_exclusive_or(operand),
            Operation::INC => self.execute_increment(operand, false),
            Operation::INX => self.execute_increment_x(false),
            Operation::INY => self.execute_increment_y(false),
            Operation::JMP => self.execute_jump(operand, false),
            Operation::JSR => self.execute_jump(operand, true),
            Operation::LDA => self.execute_load_accumulator(operand),
            Operation::LDX => self.execute_load_x(operand),
            Operation::LDY => self.execute_load_y(operand),
            Operation::LSR => self.execute_right_shift(operand),
            Operation::NOP => Ok(()),
            Operation::ORA => self.execute_inclusive_or(operand),
            Operation::PHA => {
                self.push_byte_to_stack(self.registers.accumulator);
                Ok(())
            },
            Operation::PHP => {
                self.push_byte_to_stack(self.registers.status);
                Ok(())
            },
            Operation::PLA => self.execute_pull_accumulator(),
            Operation::PLP => self.execute_pull_status(),
            Operation::ROL => self.execute_rotate_left(operand),
            Operation::ROR => self.execute_rotate_right(operand),
            Operation::RTI => self.execute_return_from_interrupt(),
            Operation::RTS => self.execute_return_from_subroutine(),
            Operation::SBC => self.execute_substract_with_carry(operand),
            Operation::SEC => {
                self.set_status_flag(StatusFlag::CARRY, true);
                Ok(())
            },
            Operation::SED => {
                self.set_status_flag(StatusFlag::DECIMAL, true);
                Ok(())
            },
            Operation::SEI => {
                self.set_status_flag(StatusFlag::INTERRUPT, true);
                Ok(())
            },
            Operation::STA => self.execute_store(operand, self.registers.accumulator),
            Operation::STX => self.execute_store(operand, self.registers.x),
            Operation::STY => self.execute_store(operand, self.registers.y),
            Operation::TAX => {
                let value = self.registers.accumulator;
                self.set_zero_and_negative_flags(value);
                self.registers.x = value;
                Ok(())
            },
            Operation::TAY => {
                let value = self.registers.accumulator;
                self.set_zero_and_negative_flags(value);
                self.registers.y = value;
                Ok(())
            },
            Operation::TSX => {
                let value = self.registers.stack_pointer;
                self.set_zero_and_negative_flags(value);
                self.registers.x = value;
                Ok(())
            },
            Operation::TXA => {
                let value = self.registers.x;
                self.set_zero_and_negative_flags(value);
                self.registers.accumulator = value;
                Ok(())
            },
            Operation::TXS => {
                let value = self.registers.x;
                self.set_zero_and_negative_flags(value);
                self.registers.stack_pointer = value;
                Ok(())
            },
            Operation::TYA => {
                let value = self.registers.y;
                self.set_zero_and_negative_flags(value);
                self.registers.accumulator = value;
                Ok(())
            },
        }
    }

    /// Executes exactly one instruction: fetch, decode, resolve, execute.
    /// On failure the machine value is consumed and the error alone is
    /// returned, so a failed step exposes no partial state.
    pub fn step(self) -> (r: Result<ComputerState, StepError>)
        ensures
            spec_step(self@) matches Ok(m2) ==> r matches Ok(s2) && s2@ == m2,
            spec_step(self@) matches Err(e) ==> r == Err::<ComputerState, _>(e),
    {
        let mut state = self;
        let opcode = state.get_byte_from_memory(state.registers.program_counter as usize);
        state.advance_program_counter(1);
        let decoded = match bytecode_to_instruction(opcode) {
            Ok(instruction) => instruction,
            Err(e) => {
                return Err(StepError::Decode(e));
            },
        };
        let operand = state.fetch_operand(decoded.0);
        match state.execute_operation(decoded.1, operand) {
            Ok(()) => Ok(state),
            Err(e) => Err(StepError::Exec(e)),
        }
    }

    /// Executes up to `steps` instructions, stopping at the first failure
    /// and reporting it together with how many whole steps completed.
    pub fn multiple_steps(self, steps: u32) -> (r: Result<ComputerState, RunError>)
        ensures
            spec_run(self@, steps as nat) matches Ok(mf) ==> r matches Ok(sf) && sf@ == mf,
            spec_run(self@, steps as nat) matches Err(p) ==> r matches Err(f)
                && f.steps_completed == p.0 && f.error == p.1,
    {
        let ghost whole = spec_run(self@, steps as nat);
        let mut state = self;
        let mut completed: u32 = 0;
        while completed < steps
            invariant
                completed <= steps,
                whole == spec_run(self@, steps as nat),
                spec_run_offset(spec_run(state@, (steps - completed) as nat), completed as nat)
                    == whole,
            decreases steps - completed,
        {
            let ghost before = state@;
            state = match state.step() {
                Ok(next) => next,
                Err(e) => {
                    proof {
                        lemma_spec_run_unfold(before, (steps - completed) as nat);
                    }
                    return Err(RunError { steps_completed: completed, error: e });
                },
            };
            proof {
                lemma_spec_run_unfold(before, (steps - completed) as nat);
                lemma_spec_run_offset_step(
                    spec_run(state@, (steps - completed - 1) as nat),
                    completed as nat,
                );
            }
            completed = completed + 1;
        }
        Ok(state)
    }
}

/// A run result with `k` more completed steps counted into its failure.
pub open spec fn spec_run_offset(r: Result<Machine, (nat, StepError)>, k: nat) -> Result<
    Machine,
    (nat, StepError),
> {
    match r {
        Ok(m) => Ok(m),
        Err(p) => Err(((p.0 + k, p.1))),
    }
}

proof fn lemma_spec_run_unfold(m: Machine, n: nat)
    requires
        n > 0,
    ensures
        spec_run(m, n) == (match spec_step(m) {
            Err(e) => Err::<Machine, (nat, StepError)>(((0nat, e))),
            Ok(m2) => spec_run_offset(spec_run(m2, (n - 1) as nat), 1nat),
        }),
{
    match spec_step(m) {
        Err(e) => {},
        Ok(m2) => {
            match spec_run(m2, (n - 1) as nat) {
                Ok(mf) => {},
                Err(p) => {},
            }
        },
    }
}

proof fn lemma_spec_run_offset_step(r: Result<Machine, (nat, StepError)>, k: nat)
    ensures
        spec_run_offset(spec_run_offset(r, 1nat), k) == spec_run_offset(r, k + 1),
{
}

/// Flag determinism of ADC in binary mode: for every accumulator value,
/// operand value and carry-in, the resulting accumulator and the Carry,
/// Overflow, Zero and Negative flags follow exactly the documented
/// derivation, and no other register, flag or memory byte moves. The
/// outputs are a function of accumulator, operand and carry-in alone.
pub proof fn lemma_adc_flags(m: Machine, v: u8)
    ensures
        ({
            let a = m.regs.accumulator;
            let carry_in: int = if spec_get_flag(m.regs.status, StatusFlag::CARRY) {
                1
            } else {
                0
            };
            let sum = a + v + carry_in;
            let after = spec_adc(m, v);
            let result = after.regs.accumulator;
            &&& result == sum % 256
            &&& spec_get_flag(after.regs.status, StatusFlag::CARRY) == (sum >= 256)
            &&& spec_get_flag(after.regs.status, StatusFlag::OVERFLOW) == (((v >= 128) == (a
                >= 128)) && ((result >= 128) != (v >= 128)))
            &&& spec_get_flag(after.regs.status, StatusFlag::ZERO) == (result == 0)
            &&& spec_get_flag(after.regs.status, StatusFlag::NEGATIVE) == (result >= 128)
            &&& forall|other: StatusFlag|
                other != StatusFlag::CARRY && other != StatusFlag::OVERFLOW && other
                    != StatusFlag::ZERO && other != StatusFlag::NEGATIVE
                    ==> #[trigger] spec_get_flag(after.regs.status, other) == spec_get_flag(
                    m.regs.status,
                    other,
                )
            &&& after.regs.x == m.regs.x
            &&& after.regs.y == m.regs.y
            &&& after.regs.stack_pointer == m.regs.stack_pointer
            &&& after.regs.program_counter == m.regs.program_counter
            &&& after.mem == m.mem
        }),
{
    let a = m.regs.accumulator;
    let carry_in: int = if spec_get_flag(m.regs.status, StatusFlag::CARRY) {
        1
    } else {
        0
    };
    let sum = a + v + carry_in;
    let result = (sum % 256) as u8;
    let overflow = ((v >= 128) == (a >= 128)) && ((result >= 128) != (v >= 128));
    let st1 = spec_set_flag(m.regs.status, StatusFlag::CARRY, sum >= 256);
    let st2 = spec_set_flag(st1, StatusFlag::OVERFLOW, overflow);
    let st3 = spec_set_flag(st2, StatusFlag::ZERO, result == 0);
    lemma_set_flag(m.regs.status, StatusFlag::CARRY, sum >= 256);
    lemma_set_flag(st1, StatusFlag::OVERFLOW, overflow);
    lemma_set_flag(st2, StatusFlag::ZERO, result == 0);
    lemma_set_flag(st3, StatusFlag::NEGATIVE, result >= 128);
}

/// With the Decimal flag clear, ADC on a readable operand always
/// succeeds, and its whole effect is the binary-mode derivation that
/// `lemma_adc_flags` describes; the machine ADC leaves is determined by
/// the operand value and the old machine alone.
pub proof fn lemma_adc_binary_mode(m: Machine, operand: Operand)
    requires
        !spec_get_flag(m.regs.status, StatusFlag::DECIMAL),
    ensures
        spec_operand_value(m, operand) matches Some(v) ==> spec_adc_op(m, operand) == Ok::<
            Machine,
            ExecError,
        >(spec_adc(m, v)),
{
}

/// Zero-page wraparound: whatever the base byte and index offset, a
/// zero-page indexed operand is an address strictly below 256.
pub proof fn lemma_zero_page_stays_in_page(m: Machine, offset: u8)
    ensures
        spec_zero_page_operand(m, offset).1 matches Operand::Address(addr) && addr < 256,
{
}

/// The machine after pushing a whole sequence of bytes, first element
/// first.
pub open spec fn spec_push_bytes(m: Machine, values: Seq<u8>) -> Machine
    decreases values.len(),
{
    if values.len() == 0 {
        m
    } else {
        spec_push_bytes(spec_push_byte(m, values[0]), values.drop_first())
    }
}

/// The machine after pulling `n` bytes in a row, the pulled values
/// discarded.
pub open spec fn spec_pull_bytes(m: Machine, n: nat) -> Machine
    decreases n,
{
    if n == 0 {
        m
    } else {
        spec_pull_bytes(spec_pull_byte(m).0, (n - 1) as nat)
    }
}

/// Pushing bytes moves the stack pointer down by their count, modulo 256,
/// and never signals any overflow.
pub proof fn lemma_push_bytes_stack_pointer(m: Machine, values: Seq<u8>)
    ensures
        spec_push_bytes(m, values).regs.stack_pointer as int == (m.regs.stack_pointer
            - values.len()) % 256,
    decreases values.len(),
{
    if values.len() == 0 {
    } else {
        let m1 = spec_push_byte(m, values[0]);
        lemma_push_bytes_stack_pointer(m1, values.drop_first());
        vstd::arithmetic::div_mod::lemma_mod_add_multiples_vanish(
            m.regs.stack_pointer - values.len(),
            256,
        );
    }
}

/// Pulling bytes moves the stack pointer up by their count, modulo 256.
pub proof fn lemma_pull_bytes_stack_pointer(m: Machine, n: nat)
    ensures
        spec_pull_bytes(m, n).regs.stack_pointer as int == (m.regs.stack_pointer + n) % 256,
    decreases n,
{
    if n == 0 {
    } else {
        let m1 = spec_pull_byte(m).0;
        lemma_pull_bytes_stack_pointer(m1, (n - 1) as nat);
        vstd::arithmetic::div_mod::lemma_mod_add_multiples_vanish(
            m.regs.stack_pointer + n - 256,
            256,
        );
    }
}

/// Stack pointer wraparound: a push sequence of length 256 returns the
/// stack pointer to its original value, and so does a pull sequence.
pub proof fn lemma_stack_pointer_wraps_after_256(m: Machine, values: Seq<u8>)
    requires
        values.len() == 256,
    ensures
        spec_push_bytes(m, values).regs.stack_pointer == m.regs.stack_pointer,
        spec_pull_bytes(m, 256).regs.stack_pointer == m.regs.stack_pointer,
{
    lemma_push_bytes_stack_pointer(m, values);
    lemma_pull_bytes_stack_pointer(m, 256);
    vstd::arithmetic::div_mod::lemma_mod_add_multiples_vanish(
        m.regs.stack_pointer - 256,
        256,
    );
    vstd::arithmetic::div_mod::lemma_small_mod(m.regs.stack_pointer as nat, 256);
}

/// Subroutine linkage: from any machine state, JSR to an address moves the
/// program counter there after pushing the program counter minus one, and
/// a following RTS restores the program counter exactly.
pub proof fn lemma_jsr_rts_linkage(m: Machine, addr: u16)
    requires
        m.mem.len() == MEMORY_SIZE,
    ensures
        spec_jump_op(m, Operand::Address(addr), true) matches Ok(m1)
            && m1.regs.program_counter == addr
            && spec_return_from_subroutine(m1).regs.program_counter == m.regs.program_counter,
{
    let pc = m.regs.program_counter;
    let return_address: u16 = if pc == 0 {
        0xFFFFu16
    } else {
        (pc - 1) as u16
    };
    let sp = m.regs.stack_pointer;
    let high_slot = 0x100 + sp;
    let low_slot = 0x100 + (if sp == 0 { 255int } else { sp - 1 });
    let pushed = spec_push_word(m, return_address);
    assert(pushed.mem[high_slot] == (return_address / 256) as u8);
    assert(pushed.mem[low_slot] == (return_address % 256) as u8);
    let m1 = spec_jump_op(m, Operand::Address(addr), true)->Ok_0;
    assert(spec_pull_word(m1).1 == return_address);
}

/// Idempotence of NOP: executing NOP always succeeds and changes no
/// register, flag or memory byte.
pub proof fn lemma_nop_changes_nothing(m: Machine, operand: Operand)
    ensures
        spec_execute_operation(m, Operation::NOP, operand) == Ok::<Machine, ExecError>(m),
{
}

fn flag_index(flag: StatusFlag) -> (r: u8)
    ensures
        r == spec_flag_index(flag),
        r < 8,
{
    match flag {
        StatusFlag::CARRY => 0,
        StatusFlag::ZERO => 1,
        StatusFlag::INTERRUPT => 2,
        StatusFlag::DECIMAL => 3,
        StatusFlag::BREAK => 4,
        StatusFlag::RESERVED => 5,
        StatusFlag::OVERFLOW => 6,
        StatusFlag::NEGATIVE => 7,
    }
}

} // verus!
