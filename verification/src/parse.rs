//! Field extraction from 32-bit instruction words.
//!
//! The executable functions work with shifts and masks on the signed word.
//! Their contracts say what each field is as a number: a quotient and a
//! remainder of the word read as an unsigned 32-bit value.
use vstd::prelude::*;

verus! {

/// The instruction word read as an unsigned 32-bit number.
pub open spec fn unsigned_word(w: i32) -> int {
    if w < 0 {
        w + 0x1_0000_0000
    } else {
        w as int
    }
}

/// Bits [6:0].
pub open spec fn opcode_of(w: i32) -> int {
    unsigned_word(w) % 0x80
}

/// Bits [11:7].
pub open spec fn rd_of(w: i32) -> int {
    unsigned_word(w) / 0x80 % 0x20
}

/// Bits [14:12].
pub open spec fn funct3_of(w: i32) -> int {
    unsigned_word(w) / 0x1000 % 0x8
}

/// Bits [19:15].
pub open spec fn rs1_of(w: i32) -> int {
    unsigned_word(w) / 0x8000 % 0x20
}

/// Bits [24:20].
pub open spec fn rs2_of(w: i32) -> int {
    unsigned_word(w) / 0x10_0000 % 0x20
}

/// Bits [31:25].
pub open spec fn funct7_of(w: i32) -> int {
    unsigned_word(w) / 0x200_0000
}

/// The U-type immediate: the word with its low twelve bits cleared.
pub open spec fn u_imm_of(w: i32) -> int {
    w - unsigned_word(w) % 0x1000
}

/// The I-type immediate: bits [31:20] as a signed twelve-bit number, which is
/// the word divided by 2^20, rounded down.
pub open spec fn i_imm_of(w: i32) -> int {
    w as int / 0x10_0000
}

/// Bits [31:20] as an unsigned twelve-bit number.
pub open spec fn i_uimm_of(w: i32) -> int {
    unsigned_word(w) / 0x10_0000
}

/// The J-type immediate: a signed 21-bit offset whose bit 20 is word bit 31,
/// bits [19:12] are word bits [19:12], bit 11 is word bit 20, bits [10:1] are
/// word bits [30:21], and whose bit 0 is zero.
pub open spec fn j_imm_of(w: i32) -> int {
    let u = unsigned_word(w);
    (u / 0x20_0000 % 0x400) * 0x2 + (u / 0x10_0000 % 0x2) * 0x800 + (u / 0x1000 % 0x100) * 0x1000
        - (u / 0x8000_0000) * 0x10_0000
}

/// A signed 64-bit value read as an unsigned one (two's complement).
pub open spec fn unsigned64(v: i64) -> int {
    if v < 0 {
        v + 0x1_0000_0000_0000_0000
    } else {
        v as int
    }
}

/// An unsigned 64-bit value read as a signed one (two's complement).
pub open spec fn signed64(v: u64) -> int {
    if v >= 0x8000_0000_0000_0000 {
        v - 0x1_0000_0000_0000_0000
    } else {
        v as int
    }
}

/// The signed instruction word whose unsigned value is `u`.
pub open spec fn word_of(u: int) -> i32
    recommends
        0 <= u < 0x1_0000_0000,
{
    if u >= 0x8000_0000 {
        (u - 0x1_0000_0000) as i32
    } else {
        u as i32
    }
}

/// The unsigned value of the word with the given fields, each at its place:
/// opcode at bit 0, rd at bit 7, funct3 at bit 12, rs1 at bit 15, rs2 at
/// bit 20, funct7 at bit 25.
pub open spec fn pack_fields(
    opcode: int,
    rd: int,
    funct3: int,
    rs1: int,
    rs2: int,
    funct7: int,
) -> int {
    opcode + rd * 0x80 + funct3 * 0x1000 + rs1 * 0x8000 + rs2 * 0x10_0000 + funct7 * 0x200_0000
}

/// The I-type word with the given fields and the signed twelve-bit immediate
/// `imm` in bits [31:20].
pub open spec fn encode_i(opcode: int, rd: int, funct3: int, rs1: int, imm: int) -> i32 {
    word_of(pack_fields(opcode, rd, funct3, rs1, 0, 0) + (imm % 0x1000) * 0x10_0000)
}

/// The U-type word with the given fields and the signed twenty-bit value
/// `upper` in bits [31:12].
pub open spec fn encode_u(opcode: int, rd: int, upper: int) -> i32 {
    word_of(opcode + rd * 0x80 + (upper % 0x10_0000) * 0x1000)
}

/// The J-type word with the given fields and the signed, even 21-bit offset
/// `imm`, its bits scattered as the format prescribes.
pub open spec fn encode_j(opcode: int, rd: int, imm: int) -> i32 {
    let m = imm % 0x20_0000;
    word_of(
        opcode + rd * 0x80 + (m / 0x1000 % 0x100) * 0x1000 + (m / 0x800 % 0x2) * 0x10_0000 + (m
            / 0x2 % 0x400) * 0x20_0000 + (m / 0x10_0000) * 0x8000_0000,
    )
}

/// Reading a word as unsigned and back gives the word, and the other way
/// round.
pub proof fn lemma_word_of_unsigned(w: i32, u: int)
    ensures
        word_of(unsigned_word(w)) == w,
        0 <= unsigned_word(w) < 0x1_0000_0000,
        0 <= u < 0x1_0000_0000 ==> unsigned_word(word_of(u)) == u,
{
}

/// Every field extractor recovers the value that was packed at its place.
pub proof fn lemma_fields_round_trip(
    opcode: int,
    rd: int,
    funct3: int,
    rs1: int,
    rs2: int,
    funct7: int,
)
    requires
        0 <= opcode < 0x80,
        0 <= rd < 0x20,
        0 <= funct3 < 0x8,
        0 <= rs1 < 0x20,
        0 <= rs2 < 0x20,
        0 <= funct7 < 0x80,
    ensures
        ({
            let w = word_of(pack_fields(opcode, rd, funct3, rs1, rs2, funct7));
            &&& opcode_of(w) == opcode
            &&& rd_of(w) == rd
            &&& funct3_of(w) == funct3
            &&& rs1_of(w) == rs1
            &&& rs2_of(w) == rs2
            &&& funct7_of(w) == funct7
        }),
{
    let (a, b, c, d, e, f) = (
        opcode as u32,
        rd as u32,
        funct3 as u32,
        rs1 as u32,
        rs2 as u32,
        funct7 as u32,
    );
    assert({
        let w = word_of(pack_fields(a as int, b as int, c as int, d as int, e as int, f as int));
        &&& opcode_of(w) == a
        &&& rd_of(w) == b
        &&& funct3_of(w) == c
        &&& rs1_of(w) == d
        &&& rs2_of(w) == e
        &&& funct7_of(w) == f
    }) by (bit_vector)
        requires
            a < 0x80,
            b < 0x20,
            c < 0x8,
            d < 0x20,
            e < 0x20,
            f < 0x80,
    ;
}

/// Packing the fields of a word gives the word back: the six fields cover
/// all thirty-two bits.
pub proof fn lemma_fields_cover_word(w: i32)
    ensures
        word_of(
            pack_fields(opcode_of(w), rd_of(w), funct3_of(w), rs1_of(w), rs2_of(w), funct7_of(w)),
        ) == w,
        0 <= opcode_of(w) < 0x80,
        0 <= rd_of(w) < 0x20,
        0 <= funct3_of(w) < 0x8,
        0 <= rs1_of(w) < 0x20,
        0 <= rs2_of(w) < 0x20,
        0 <= funct7_of(w) < 0x80,
{
    assert(word_of(
        pack_fields(opcode_of(w), rd_of(w), funct3_of(w), rs1_of(w), rs2_of(w), funct7_of(w)),
    ) == w && funct7_of(w) < 0x80) by (bit_vector);
}

/// Every immediate lies in the range of its format: twelve bits for the
/// I-type, signed or unsigned; a multiple of 2^12 in 32 bits for the U-type;
/// an even number in 21 bits for the J-type.
pub proof fn lemma_immediates_in_range(w: i32)
    ensures
        -0x800 <= i_imm_of(w) < 0x800,
        0 <= i_uimm_of(w) < 0x1000,
        -0x8000_0000 <= u_imm_of(w) < 0x8000_0000,
        u_imm_of(w) % 0x1000 == 0,
        -0x10_0000 <= j_imm_of(w) < 0x10_0000,
        j_imm_of(w) % 2 == 0,
{
    assert({
        &&& -0x800 <= i_imm_of(w) < 0x800
        &&& 0 <= i_uimm_of(w) < 0x1000
        &&& -0x8000_0000 <= u_imm_of(w) < 0x8000_0000
        &&& u_imm_of(w) % 0x1000 == 0
        &&& -0x10_0000 <= j_imm_of(w) < 0x10_0000
        &&& j_imm_of(w) % 2 == 0
    }) by (bit_vector);
}

/// The I-type decoders recover the fields and the immediate of an encoded
/// word; the unsigned immediate is the signed one modulo 2^12.
pub proof fn lemma_i_type_round_trip(opcode: int, rd: int, funct3: int, rs1: int, imm: int)
    requires
        0 <= opcode < 0x80,
        0 <= rd < 0x20,
        0 <= funct3 < 0x8,
        0 <= rs1 < 0x20,
        -0x800 <= imm < 0x800,
    ensures
        ({
            let w = encode_i(opcode, rd, funct3, rs1, imm);
            &&& opcode_of(w) == opcode
            &&& rd_of(w) == rd
            &&& funct3_of(w) == funct3
            &&& rs1_of(w) == rs1
            &&& i_imm_of(w) == imm
            &&& i_uimm_of(w) == imm % 0x1000
        }),
{
    let (a, b, c, d, m) = (opcode as u32, rd as u32, funct3 as u32, rs1 as u32, imm as i32);
    assert({
        let w = encode_i(a as int, b as int, c as int, d as int, m as int);
        &&& opcode_of(w) == a
        &&& rd_of(w) == b
        &&& funct3_of(w) == c
        &&& rs1_of(w) == d
        &&& w >> 20 == m
        &&& i_uimm_of(w) == (m as int) % 0x1000
    }) by (bit_vector)
        requires
            a < 0x80,
            b < 0x20,
            c < 0x8,
            d < 0x20,
            -0x800 <= m < 0x800,
    ;
    lemma_shifts_and_masks(encode_i(opcode, rd, funct3, rs1, imm));
}

/// The U-type decoder recovers the upper twenty bits, placed at bit 12.
pub proof fn lemma_u_type_round_trip(opcode: int, rd: int, upper: int)
    requires
        0 <= opcode < 0x80,
        0 <= rd < 0x20,
        -0x8_0000 <= upper < 0x8_0000,
    ensures
        ({
            let w = encode_u(opcode, rd, upper);
            &&& opcode_of(w) == opcode
            &&& rd_of(w) == rd
            &&& u_imm_of(w) == upper * 0x1000
        }),
{
}

/// The J-type decoder recovers every even offset in `-2^20 .. 2^20`.
pub proof fn lemma_j_type_round_trip(opcode: int, rd: int, imm: int)
    requires
        0 <= opcode < 0x80,
        0 <= rd < 0x20,
        -0x10_0000 <= imm < 0x10_0000,
        imm % 2 == 0,
    ensures
        ({
            let w = encode_j(opcode, rd, imm);
            &&& opcode_of(w) == opcode
            &&& rd_of(w) == rd
            &&& j_imm_of(w) == imm
        }),
{
    let (a, b, m) = (opcode as u32, rd as u32, imm as i32);
    assert({
        let w = encode_j(a as int, b as int, m as int);
        &&& opcode_of(w) == a
        &&& rd_of(w) == b
        &&& j_imm_of(w) == m
    }) by (bit_vector)
        requires
            a < 0x80,
            b < 0x20,
            -0x10_0000 <= m < 0x10_0000,
            (m as int) % 2 == 0,
    ;
}

/// The two readings of a 64-bit value are inverse to each other.
pub proof fn lemma_signed_unsigned_inverse(v: i64, u: u64)
    ensures
        0 <= unsigned64(v) <= u64::MAX,
        i64::MIN <= signed64(u) <= i64::MAX,
        signed64(unsigned64(v) as u64) == v,
        unsigned64(signed64(u) as i64) == u,
{
}

/// What the shifts and masks of the executable decoders compute, as numbers.
proof fn lemma_shifts_and_masks(w: i32)
    ensures
        w & 0x7f == opcode_of(w),
        (w >> 7) & 0x1f == rd_of(w),
        (w >> 12) & 0x7 == funct3_of(w),
        (w >> 15) & 0x1f == rs1_of(w),
        (w >> 20) & 0x1f == rs2_of(w),
        ((w as u32) >> 25) as i32 == funct7_of(w),
        (w >> 12) << 12 == u_imm_of(w),
        w >> 20 == i_imm_of(w),
        (w >> 20) & 0xFFF == i_uimm_of(w),
{
    assert({
        &&& w & 0x7f == opcode_of(w)
        &&& (w >> 7) & 0x1f == rd_of(w)
        &&& (w >> 12) & 0x7 == funct3_of(w)
        &&& (w >> 15) & 0x1f == rs1_of(w)
        &&& (w >> 20) & 0x1f == rs2_of(w)
        &&& ((w as u32) >> 25) as i32 == funct7_of(w)
        &&& (w >> 12) << 12 == u_imm_of(w)
        &&& w >> 20 == i_imm_of(w)
        &&& (w >> 20) & 0xFFF == i_uimm_of(w)
    }) by (bit_vector);
}

pub fn get_opcode(instruction: i32) -> (r: i32)
    ensures
        r == instruction & 0x7f,
        r == opcode_of(instruction),
{
    proof {
        lemma_shifts_and_masks(instruction);
    }
    instruction & 0x7f
}

pub fn get_rd(instruction: i32) -> (r: i32)
    ensures
        r == (instruction >> 7) & 0x1f,
        r == rd_of(instruction),
{
    proof {
        lemma_shifts_and_masks(instruction);
    }
    (instruction >> 7) & 0x1f
}

pub fn get_rs1(instruction: i32) -> (r: i32)
    ensures
        r == (instruction >> 15) & 0x1f,
        r == rs1_of(instruction),
{
    proof {
        lemma_shifts_and_masks(instruction);
    }
    (instruction >> 15) & 0x1f
}

pub fn get_rs2(instruction: i32) -> (r: i32)
    ensures
        r == (instruction >> 20) & 0x1f,
        r == rs2_of(instruction),
{
    proof {
        lemma_shifts_and_masks(instruction);
    }
    (instruction >> 20) & 0x1f
}

pub fn get_funct3(instruction: i32) -> (r: i32)
    ensures
        r == (instruction >> 12) & 0x7,
        r == funct3_of(instruction),
{
    proof {
        lemma_shifts_and_masks(instruction);
    }
    (instruction >> 12) & 0x7
}

pub fn get_funct7(instruction: i32) -> (r: i32)
    ensures
        r == ((instruction as u32) >> 25) as i32,
        r == funct7_of(instruction),
{
    proof {
        lemma_shifts_and_masks(instruction);
    }
    ((instruction as u32) >> 25) as i32
}

pub fn get_u_type_imm(instruction: i32) -> (r: i32)
    ensures
        r == (instruction >> 12) << 12,
        r == u_imm_of(instruction),
{
    proof {
        lemma_shifts_and_masks(instruction);
    }
    (instruction >> 12) << 12
}

pub fn get_i_type_imm(instruction: i32) -> (r: i32)
    ensures
        r == instruction >> 20,
        r == i_imm_of(instruction),
        r == (if i_uimm_of(instruction) >= 0x800 {
            i_uimm_of(instruction) - 0x1000
        } else {
            i_uimm_of(instruction)
        }),
{
    let temp_imm: i32 = (instruction >> 20) & 0xFFF;
    proof {
        lemma_shifts_and_masks(instruction);
        assert((if (temp_imm & 0x800) != 0 {
            temp_imm | !0xFFFi32
        } else {
            temp_imm
        }) == instruction >> 20) by (bit_vector)
            requires
                temp_imm == (instruction >> 20) & 0xFFF,
        ;
    }
    if (temp_imm & 0x800) != 0 {
        temp_imm | !0xFFF
    } else {
        temp_imm
    }
}

pub fn get_i_type_unsinged_imm(instruction: i32) -> (r: i32)
    ensures
        r == (instruction >> 20) & 0xFFF,
        r == i_uimm_of(instruction),
{
    proof {
        lemma_shifts_and_masks(instruction);
    }
    (instruction >> 20) & 0xFFF
}

pub fn get_j_type_imm(instruction: i32) -> (r: i32)
    ensures
        r == j_imm_of(instruction),
{
    let imm_20: i32 = (instruction >> 31) & 0x1;
    let imm_10_1: i32 = (instruction >> 21) & 0x3FF;
    let imm_11: i32 = (instruction >> 20) & 0x1;
    let imm_19_12: i32 = (instruction >> 12) & 0xFF;

    let imm: i32 = (imm_20 << 20) | (imm_19_12 << 12) | (imm_11 << 11) | (imm_10_1 << 1);
    proof {
        assert((if (imm & (1 << 20)) != 0 {
            imm | (!0x001F_FFFFi32)
        } else {
            imm
        }) == j_imm_of(instruction)) by (bit_vector)
            requires
                imm_20 == (instruction >> 31) & 0x1,
                imm_10_1 == (instruction >> 21) & 0x3FF,
                imm_11 == (instruction >> 20) & 0x1,
                imm_19_12 == (instruction >> 12) & 0xFF,
                imm == (imm_20 << 20) | (imm_19_12 << 12) | (imm_11 << 11) | (imm_10_1 << 1),
        ;
    }
    if (imm & (1 << 20)) != 0 {
        imm | (!0x001F_FFFF)
    } else {
        imm
    }
}

pub fn i64_to_u64(num: i64) -> (r: u64)
    ensures
        r == unsigned64(num),
{
    proof {
        assert(num as u64 == unsigned64(num)) by (bit_vector);
    }
    num as u64
}

pub fn u64_to_i64(num: u64) -> (r: i64)
    ensures
        r == signed64(num),
{
    proof {
        assert(num as i64 == signed64(num)) by (bit_vector);
    }
    num as i64
}

} // verus!
