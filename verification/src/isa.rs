//! The instruction set as a mathematical model: what a word decodes to, and
//! what the decoded instruction does to the machine.
//!
//! Registers hold 64-bit two's-complement values. Immediates are 32-bit
//! values, sign-extended before use. Addition and subtraction wrap modulo
//! 2^64, on registers and on the program counter alike. `andi` is a bitwise
//! AND. `sltiu` compares with the twelve immediate bits read without a
//! sign. The right shifts are recognised only with the upper seven bits of
//! the immediate at `0000000` or `0100000`; the left shift ignores them.
use crate::alu::{
    shift_left, shift_right_arithmetic, shift_right_logical, truth, wrap_signed, wrap_unsigned,
};
use crate::error::Error;
use crate::mem::stored;
use crate::parse::{
    encode_i, encode_j, encode_u, funct3_of, funct7_of, i_imm_of, i_uimm_of, j_imm_of,
    lemma_fields_cover_word, lemma_fields_round_trip, lemma_i_type_round_trip,
    lemma_immediates_in_range, lemma_j_type_round_trip, lemma_u_type_round_trip, opcode_of,
    pack_fields, rd_of, rs1_of, rs2_of, u_imm_of, unsigned64, unsigned_word, word_of,
};
use vstd::prelude::*;

verus! {

/// Number of general-purpose registers.
pub const REGISTER_COUNT: usize = 32;

/// Width of one instruction in bytes.
pub const INSTRUCTION_SIZE: u64 = 4;

/// Opcode of `lui` (U-type).
pub const OPCODE_LUI: i32 = 0b0110111;

/// Opcode of `auipc` (U-type).
pub const OPCODE_AUIPC: i32 = 0b0010111;

/// Opcode of the instructions that take a register and an immediate
/// (I-type).
pub const OPCODE_OP_IMM: i32 = 0b0010011;

/// Opcode of `jal` (J-type).
pub const OPCODE_JAL: i32 = 0b1101111;

/// Opcode of the instructions that take two registers (R-type).
pub const OPCODE_OP: i32 = 0b0110011;

/// A decoded instruction with its operands: register indices, and immediates
/// as the numbers they stand for.
pub enum Instruction {
    /// `rd <- imm`
    Lui { rd: int, imm: int },
    /// `rd <- pc + imm`
    Auipc { rd: int, imm: int },
    /// `rd <- rs1 + imm`
    Addi { rd: int, rs1: int, imm: int },
    /// `rd <- 1` if `rs1 < imm` as signed numbers, else `0`
    Slti { rd: int, rs1: int, imm: int },
    /// `rd <- 1` if `rs1` read as unsigned is below the zero-extended
    /// immediate, else `0`
    Sltiu { rd: int, rs1: int, imm: int },
    /// `rd <- rs1 ^ imm`
    Xori { rd: int, rs1: int, imm: int },
    /// `rd <- rs1 | imm`
    Ori { rd: int, rs1: int, imm: int },
    /// `rd <- rs1 & imm`
    Andi { rd: int, rs1: int, imm: int },
    /// `rd <- rs1 << shamt`
    Slli { rd: int, rs1: int, shamt: int },
    /// `rd <- rs1 >> shamt`, filling with zeros
    Srli { rd: int, rs1: int, shamt: int },
    /// `rd <- rs1 >> shamt`, filling with the sign
    Srai { rd: int, rs1: int, shamt: int },
    /// `rd <- pc + 4; pc <- pc + imm`
    Jal { rd: int, imm: int },
    /// `rd <- rs1 + rs2`
    Add { rd: int, rs1: int, rs2: int },
    /// `rd <- rs1 - rs2`
    Sub { rd: int, rs1: int, rs2: int },
}

/// The machine's architectural state.
pub struct Machine {
    pub regs: Seq<i64>,
    pub pc: u64,
}

/// What a word with a U-type opcode decodes to.
pub open spec fn decode_utype(w: i32) -> Option<Instruction> {
    if opcode_of(w) == OPCODE_LUI {
        Some(Instruction::Lui { rd: rd_of(w), imm: u_imm_of(w) })
    } else if opcode_of(w) == OPCODE_AUIPC {
        Some(Instruction::Auipc { rd: rd_of(w), imm: u_imm_of(w) })
    } else {
        None
    }
}

/// What a word decodes to when read in the I-type layout. The opcode is not
/// looked at.
pub open spec fn decode_itype(w: i32) -> Option<Instruction> {
    let rd = rd_of(w);
    let rs1 = rs1_of(w);
    let imm = i_imm_of(w);
    let shamt = i_uimm_of(w) % 32;
    let funct3 = funct3_of(w);
    if funct3 == 0b000 {
        Some(Instruction::Addi { rd, rs1, imm })
    } else if funct3 == 0b010 {
        Some(Instruction::Slti { rd, rs1, imm })
    } else if funct3 == 0b011 {
        Some(Instruction::Sltiu { rd, rs1, imm: i_uimm_of(w) })
    } else if funct3 == 0b100 {
        Some(Instruction::Xori { rd, rs1, imm })
    } else if funct3 == 0b110 {
        Some(Instruction::Ori { rd, rs1, imm })
    } else if funct3 == 0b111 {
        Some(Instruction::Andi { rd, rs1, imm })
    } else if funct3 == 0b001 {
        Some(Instruction::Slli { rd, rs1, shamt })
    } else if funct3 == 0b101 && funct7_of(w) == 0b0000000 {
        Some(Instruction::Srli { rd, rs1, shamt })
    } else if funct3 == 0b101 && funct7_of(w) == 0b0100000 {
        Some(Instruction::Srai { rd, rs1, shamt })
    } else {
        None
    }
}

/// What a word with the J-type opcode decodes to.
pub open spec fn decode_jtype(w: i32) -> Option<Instruction> {
    if opcode_of(w) == OPCODE_JAL {
        Some(Instruction::Jal { rd: rd_of(w), imm: j_imm_of(w) })
    } else {
        None
    }
}

/// What a word decodes to when read in the R-type layout. The opcode is not
/// looked at.
pub open spec fn decode_rtype(w: i32) -> Option<Instruction> {
    let rd = rd_of(w);
    let rs1 = rs1_of(w);
    let rs2 = rs2_of(w);
    if funct3_of(w) == 0b000 && funct7_of(w) == 0b0000000 {
        Some(Instruction::Add { rd, rs1, rs2 })
    } else if funct3_of(w) == 0b000 && funct7_of(w) == 0b0100000 {
        Some(Instruction::Sub { rd, rs1, rs2 })
    } else {
        None
    }
}

/// What an instruction word decodes to; `None` for a word that is no
/// instruction of the implemented subset.
pub open spec fn decode(w: i32) -> Option<Instruction> {
    let opcode = opcode_of(w);
    if opcode == OPCODE_LUI || opcode == OPCODE_AUIPC {
        decode_utype(w)
    } else if opcode == OPCODE_OP_IMM {
        decode_itype(w)
    } else if opcode == OPCODE_JAL {
        decode_jtype(w)
    } else if opcode == OPCODE_OP {
        decode_rtype(w)
    } else {
        None
    }
}

/// The word that four bytes spell, the first byte being the lowest.
pub open spec fn little_endian_word(b0: u8, b1: u8, b2: u8, b3: u8) -> i32 {
    word_of(b0 + b1 * 0x100 + b2 * 0x1_0000 + b3 * 0x100_0000)
}

/// The instruction word at address `pc` of a memory, which must hold all
/// four of its bytes.
pub open spec fn fetch(mem: Seq<u8>, pc: u64) -> Result<i32, Error> {
    if pc + INSTRUCTION_SIZE <= mem.len() {
        Ok(little_endian_word(mem[pc as int], mem[pc + 1], mem[pc + 2], mem[pc + 3]))
    } else {
        Err(Error::OutOfBounds)
    }
}

/// The four bytes of a word, the lowest first.
pub open spec fn word_bytes(w: i32) -> Seq<u8> {
    let u = unsigned_word(w);
    seq![
        (u % 0x100) as u8,
        (u / 0x100 % 0x100) as u8,
        (u / 0x1_0000 % 0x100) as u8,
        (u / 0x100_0000) as u8,
    ]
}

impl Instruction {
    /// Whether the instruction is one of the three shifts.
    pub open spec fn is_shift(self) -> bool {
        self is Slli || self is Srli || self is Srai
    }

    /// Whether every operand is in the range that its field can hold:
    /// register indices below 32, immediates within the width of their
    /// format, shift amounts below 32.
    pub open spec fn operands_in_range(self) -> bool {
        match self {
            Instruction::Lui { rd, imm } | Instruction::Auipc { rd, imm } => {
                &&& 0 <= rd < 32
                &&& -0x8000_0000 <= imm < 0x8000_0000
                &&& imm % 0x1000 == 0
            },
            Instruction::Addi { rd, rs1, imm }
            | Instruction::Slti { rd, rs1, imm }
            | Instruction::Xori { rd, rs1, imm }
            | Instruction::Ori { rd, rs1, imm }
            | Instruction::Andi { rd, rs1, imm } => {
                &&& 0 <= rd < 32
                &&& 0 <= rs1 < 32
                &&& -0x800 <= imm < 0x800
            },
            Instruction::Sltiu { rd, rs1, imm } => {
                &&& 0 <= rd < 32
                &&& 0 <= rs1 < 32
                &&& 0 <= imm < 0x1000
            },
            Instruction::Slli { rd, rs1, shamt }
            | Instruction::Srli { rd, rs1, shamt }
            | Instruction::Srai { rd, rs1, shamt } => {
                &&& 0 <= rd < 32
                &&& 0 <= rs1 < 32
                &&& 0 <= shamt < 32
            },
            Instruction::Jal { rd, imm } => {
                &&& 0 <= rd < 32
                &&& -0x10_0000 <= imm < 0x10_0000
                &&& imm % 2 == 0
            },
            Instruction::Add { rd, rs1, rs2 } | Instruction::Sub { rd, rs1, rs2 } => {
                &&& 0 <= rd < 32
                &&& 0 <= rs1 < 32
                &&& 0 <= rs2 < 32
            },
        }
    }

    /// The register that the instruction writes.
    pub open spec fn rd(self) -> int {
        match self {
            Instruction::Lui { rd, .. } => rd,
            Instruction::Auipc { rd, .. } => rd,
            Instruction::Addi { rd, .. } => rd,
            Instruction::Slti { rd, .. } => rd,
            Instruction::Sltiu { rd, .. } => rd,
            Instruction::Xori { rd, .. } => rd,
            Instruction::Ori { rd, .. } => rd,
            Instruction::Andi { rd, .. } => rd,
            Instruction::Slli { rd, .. } => rd,
            Instruction::Srli { rd, .. } => rd,
            Instruction::Srai { rd, .. } => rd,
            Instruction::Jal { rd, .. } => rd,
            Instruction::Add { rd, .. } => rd,
            Instruction::Sub { rd, .. } => rd,
        }
    }
}

impl Machine {
    /// Thirty-two registers, of which register 0 holds zero.
    pub open spec fn wf(self) -> bool {
        self.regs.len() == REGISTER_COUNT && self.regs[0] == 0
    }

    /// The state at construction: every register and the program counter
    /// are zero.
    pub open spec fn initial() -> Machine {
        Machine { regs: Seq::new(REGISTER_COUNT as nat, |i: int| 0i64), pc: 0 }
    }

    /// The state after a write of `v` to register `rd`. Register 0 is
    /// hard-wired to zero: a write to it changes nothing.
    pub open spec fn with_reg(self, rd: int, v: i64) -> Machine {
        if rd == 0 {
            self
        } else {
            Machine { regs: self.regs.update(rd, v), pc: self.pc }
        }
    }

    /// The state with the program counter moved forward by `step`.
    pub open spec fn advance(self, step: int) -> Machine {
        Machine { regs: self.regs, pc: wrap_unsigned(self.pc + step) }
    }

    /// The state with the program counter moved back by `step`.
    pub open spec fn rewind(self, step: int) -> Machine {
        Machine { regs: self.regs, pc: wrap_unsigned(self.pc - step) }
    }

    /// The value that the instruction writes to its destination register.
    pub open spec fn result(self, i: Instruction) -> i64 {
        match i {
            Instruction::Lui { imm, .. } => imm as i64,
            Instruction::Auipc { imm, .. } => wrap_signed(self.pc + imm),
            Instruction::Addi { rs1, imm, .. } => wrap_signed(self.regs[rs1] + imm),
            Instruction::Slti { rs1, imm, .. } => truth(self.regs[rs1] < imm),
            Instruction::Sltiu { rs1, imm, .. } => truth(unsigned64(self.regs[rs1]) < imm),
            Instruction::Xori { rs1, imm, .. } => self.regs[rs1] ^ (imm as i64),
            Instruction::Ori { rs1, imm, .. } => self.regs[rs1] | (imm as i64),
            Instruction::Andi { rs1, imm, .. } => self.regs[rs1] & (imm as i64),
            Instruction::Slli { rs1, shamt, .. } => shift_left(self.regs[rs1], shamt),
            Instruction::Srli { rs1, shamt, .. } => shift_right_logical(self.regs[rs1], shamt),
            Instruction::Srai { rs1, shamt, .. } => shift_right_arithmetic(self.regs[rs1], shamt),
            Instruction::Jal { .. } => wrap_signed(self.pc + INSTRUCTION_SIZE),
            Instruction::Add { rs1, rs2, .. } => wrap_signed(self.regs[rs1] + self.regs[rs2]),
            Instruction::Sub { rs1, rs2, .. } => wrap_signed(self.regs[rs1] - self.regs[rs2]),
        }
    }

    /// The address of the instruction that follows `i` in execution.
    pub open spec fn next_pc(self, i: Instruction) -> u64 {
        match i {
            Instruction::Jal { imm, .. } => wrap_unsigned(self.pc + imm),
            _ => wrap_unsigned(self.pc + INSTRUCTION_SIZE),
        }
    }

    /// The state after the instruction has executed: its result is in the
    /// destination register, and the program counter is at the next
    /// instruction.
    pub open spec fn execute(self, i: Instruction) -> Machine {
        Machine { regs: self.with_reg(i.rd(), self.result(i)).regs, pc: self.next_pc(i) }
    }
}

/// Register 0 is hard-wired to zero: a write to it is discarded, whatever
/// the value, and it reads zero afterwards.
pub proof fn lemma_zero_register_is_invariant(m: Machine, v: i64)
    requires
        m.wf(),
    ensures
        m.with_reg(0, v) == m,
        m.with_reg(0, v).regs[0] == 0,
{
}

/// A write to a register other than register 0 is read back from it, leaves
/// every other register and the program counter as they were, and keeps the
/// machine well formed.
pub proof fn lemma_write_then_read(m: Machine, rd: int, v: i64)
    requires
        m.wf(),
        1 <= rd < 32,
    ensures
        m.with_reg(rd, v).wf(),
        m.with_reg(rd, v).regs[rd] == v,
        m.with_reg(rd, v).pc == m.pc,
        forall|i: int| 0 <= i < 32 && i != rd ==> m.with_reg(rd, v).regs[i] == m.regs[i],
{
}

/// No instruction can unsettle the machine: after any instruction with
/// operands in range there are still thirty-two registers and register 0
/// still reads zero. The same holds after the program counter is moved.
pub proof fn lemma_execute_preserves_wf(m: Machine, i: Instruction, step: int)
    requires
        m.wf(),
        i.operands_in_range(),
    ensures
        m.execute(i).wf(),
        m.advance(step).wf(),
        m.rewind(step).wf(),
{
}

/// An instruction that is no jump only moves the program counter to the
/// instruction behind it; `jal` moves it by its offset, not by its offset
/// and an instruction width.
pub proof fn lemma_next_pc(m: Machine, i: Instruction)
    ensures
        i is Jal ==> m.execute(i).pc == wrap_unsigned(m.pc + i->Jal_imm),
        !(i is Jal) ==> m.execute(i).pc == wrap_unsigned(m.pc + 4),
        !(i is Jal) ==> m.execute(i).rewind(4).pc == m.pc,
        i is Jal ==> m.execute(i).rewind(4).pc == wrap_unsigned(m.pc + i->Jal_imm - 4),
{
}

/// Moving the program counter back and then forward by the same amount
/// leaves the machine as it was.
pub proof fn lemma_rewind_then_advance(m: Machine, step: int)
    ensures
        m.rewind(step).advance(step) == m,
{
}

/// Whatever a word decodes to has its operands in range. In particular no
/// decoded instruction names a register that does not exist.
pub proof fn lemma_decoded_operands_in_range(w: i32)
    ensures
        decode_utype(w) matches Some(i) ==> i.operands_in_range(),
        decode_itype(w) matches Some(i) ==> i.operands_in_range(),
        decode_jtype(w) matches Some(i) ==> i.operands_in_range(),
        decode_rtype(w) matches Some(i) ==> i.operands_in_range(),
        decode(w) matches Some(i) ==> i.operands_in_range(),
{
    lemma_fields_cover_word(w);
    lemma_immediates_in_range(w);
}

/// A word is read back from its four bytes.
pub proof fn lemma_word_from_its_bytes(w: i32)
    ensures
        word_bytes(w).len() == 4,
        little_endian_word(word_bytes(w)[0], word_bytes(w)[1], word_bytes(w)[2], word_bytes(w)[3])
            == w,
{
}

/// A word stored in memory in little-endian order is the word that a fetch
/// at its address finds.
pub proof fn lemma_fetch_finds_stored_word(mem: Seq<u8>, addr: u64, w: i32)
    requires
        addr + 4 <= mem.len(),
    ensures
        fetch(stored(mem, addr as int, word_bytes(w)), addr) == Ok::<i32, Error>(w),
{
    lemma_word_from_its_bytes(w);
}

/// The zero word, which ends a program, is no instruction.
pub proof fn lemma_zero_word_is_no_instruction()
    ensures
        decode(0) is None,
{
}

/// Only the low five bits of the immediate of a shift count. Two words that
/// decode to the same shift on the same registers, with shift amounts that
/// agree modulo 32, decode to the same instruction.
pub proof fn lemma_shift_amount_is_masked(w1: i32, w2: i32)
    requires
        decode_itype(w1) matches Some(i1) && i1.is_shift(),
        decode_itype(w2) matches Some(i2) && i2.is_shift(),
        funct3_of(w1) == funct3_of(w2),
        funct3_of(w1) == 0b101 ==> funct7_of(w1) == funct7_of(w2),
        rd_of(w1) == rd_of(w2),
        rs1_of(w1) == rs1_of(w2),
        i_uimm_of(w1) % 32 == i_uimm_of(w2) % 32,
    ensures
        decode_itype(w1) == decode_itype(w2),
        opcode_of(w1) == OPCODE_OP_IMM && opcode_of(w2) == OPCODE_OP_IMM ==> decode(w1) == decode(
            w2,
        ),
        forall|m: Machine|
            #![trigger m.execute(decode_itype(w1)->Some_0)]
            m.execute(decode_itype(w1)->Some_0) == m.execute(decode_itype(w2)->Some_0),
{
}

/// A shift-left word decodes whatever the upper seven bits of its immediate
/// hold, and shifts by the low five.
pub proof fn lemma_decode_slli(rd: int, rs1: int, imm: int)
    requires
        0 <= rd < 32,
        0 <= rs1 < 32,
        0 <= imm < 0x800,
    ensures
        decode(encode_i(OPCODE_OP_IMM as int, rd, 0b001, rs1, imm)) == Some(
            Instruction::Slli { rd, rs1, shamt: imm % 32 },
        ),
{
    lemma_i_type_round_trip(OPCODE_OP_IMM as int, rd, 0b001, rs1, imm);
}

/// The two U-type opcodes decode to `lui` and `auipc` of the upper twenty
/// bits.
pub proof fn lemma_decode_u_type(rd: int, upper: int)
    requires
        0 <= rd < 32,
        -0x8_0000 <= upper < 0x8_0000,
    ensures
        decode(encode_u(OPCODE_LUI as int, rd, upper)) == Some(
            Instruction::Lui { rd, imm: upper * 0x1000 },
        ),
        decode(encode_u(OPCODE_AUIPC as int, rd, upper)) == Some(
            Instruction::Auipc { rd, imm: upper * 0x1000 },
        ),
{
    lemma_u_type_round_trip(OPCODE_LUI as int, rd, upper);
    lemma_u_type_round_trip(OPCODE_AUIPC as int, rd, upper);
}

/// The immediate instructions that are no shifts decode by their function
/// code, each with the immediate that was encoded; `sltiu` takes the same
/// twelve bits without a sign.
pub proof fn lemma_decode_i_type(rd: int, rs1: int, imm: int)
    requires
        0 <= rd < 32,
        0 <= rs1 < 32,
        -0x800 <= imm < 0x800,
    ensures
        decode(encode_i(OPCODE_OP_IMM as int, rd, 0b000, rs1, imm)) == Some(
            Instruction::Addi { rd, rs1, imm },
        ),
        decode(encode_i(OPCODE_OP_IMM as int, rd, 0b010, rs1, imm)) == Some(
            Instruction::Slti { rd, rs1, imm },
        ),
        decode(encode_i(OPCODE_OP_IMM as int, rd, 0b011, rs1, imm)) == Some(
            Instruction::Sltiu { rd, rs1, imm: imm % 0x1000 },
        ),
        decode(encode_i(OPCODE_OP_IMM as int, rd, 0b100, rs1, imm)) == Some(
            Instruction::Xori { rd, rs1, imm },
        ),
        decode(encode_i(OPCODE_OP_IMM as int, rd, 0b110, rs1, imm)) == Some(
            Instruction::Ori { rd, rs1, imm },
        ),
        decode(encode_i(OPCODE_OP_IMM as int, rd, 0b111, rs1, imm)) == Some(
            Instruction::Andi { rd, rs1, imm },
        ),
{
    lemma_i_type_round_trip(OPCODE_OP_IMM as int, rd, 0b000, rs1, imm);
    lemma_i_type_round_trip(OPCODE_OP_IMM as int, rd, 0b010, rs1, imm);
    lemma_i_type_round_trip(OPCODE_OP_IMM as int, rd, 0b011, rs1, imm);
    lemma_i_type_round_trip(OPCODE_OP_IMM as int, rd, 0b100, rs1, imm);
    lemma_i_type_round_trip(OPCODE_OP_IMM as int, rd, 0b110, rs1, imm);
    lemma_i_type_round_trip(OPCODE_OP_IMM as int, rd, 0b111, rs1, imm);
}

/// The right shifts decode only with the upper seven bits of the immediate
/// at `0000000` (logical) or `0100000` (arithmetic). With any other value
/// there, as for a shift amount of 32 or more, the word is no instruction.
pub proof fn lemma_decode_right_shift(rd: int, rs1: int, shamt: int, funct7: int)
    requires
        0 <= rd < 32,
        0 <= rs1 < 32,
        0 <= shamt < 32,
        0 <= funct7 < 0x80,
    ensures
        ({
            let w = word_of(pack_fields(OPCODE_OP_IMM as int, rd, 0b101, rs1, shamt, funct7));
            decode(w) == (if funct7 == 0b0000000 {
                Some(Instruction::Srli { rd, rs1, shamt })
            } else if funct7 == 0b0100000 {
                Some(Instruction::Srai { rd, rs1, shamt })
            } else {
                None
            })
        }),
{
    lemma_fields_round_trip(OPCODE_OP_IMM as int, rd, 0b101, rs1, shamt, funct7);
}

/// The J-type opcode decodes to `jal` with the offset that was encoded.
pub proof fn lemma_decode_jal(rd: int, imm: int)
    requires
        0 <= rd < 32,
        -0x10_0000 <= imm < 0x10_0000,
        imm % 2 == 0,
    ensures
        decode(encode_j(OPCODE_JAL as int, rd, imm)) == Some(Instruction::Jal { rd, imm }),
{
    lemma_j_type_round_trip(OPCODE_JAL as int, rd, imm);
}

/// The R-type opcode decodes to `add` and `sub`, told apart by the upper
/// seven bits, and to nothing else.
pub proof fn lemma_decode_r_type(rd: int, funct3: int, rs1: int, rs2: int, funct7: int)
    requires
        0 <= rd < 32,
        0 <= funct3 < 8,
        0 <= rs1 < 32,
        0 <= rs2 < 32,
        0 <= funct7 < 0x80,
    ensures
        ({
            let w = word_of(pack_fields(OPCODE_OP as int, rd, funct3, rs1, rs2, funct7));
            decode(w) == (if funct3 == 0 && funct7 == 0b0000000 {
                Some(Instruction::Add { rd, rs1, rs2 })
            } else if funct3 == 0 && funct7 == 0b0100000 {
                Some(Instruction::Sub { rd, rs1, rs2 })
            } else {
                None
            })
        }),
{
    lemma_fields_round_trip(OPCODE_OP as int, rd, funct3, rs1, rs2, funct7);
}

/// A word whose opcode is none of the five implemented ones is no
/// instruction.
pub proof fn lemma_unknown_opcode(w: i32)
    requires
        opcode_of(w) != OPCODE_LUI,
        opcode_of(w) != OPCODE_AUIPC,
        opcode_of(w) != OPCODE_OP_IMM,
        opcode_of(w) != OPCODE_JAL,
        opcode_of(w) != OPCODE_OP,
    ensures
        decode(w) is None,
{
}

} // verus!
