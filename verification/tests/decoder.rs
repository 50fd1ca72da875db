use rvsim::parse::{
    get_funct3, get_funct7, get_i_type_imm, get_i_type_unsinged_imm, get_j_type_imm, get_opcode,
    get_rd, get_rs1, get_rs2, get_u_type_imm, i64_to_u64, u64_to_i64,
};

fn pack(opcode: u32, rd: u32, funct3: u32, rs1: u32, rs2: u32, funct7: u32) -> i32 {
    (opcode | rd << 7 | funct3 << 12 | rs1 << 15 | rs2 << 20 | funct7 << 25) as i32
}

fn encode_j(rd: u32, imm: i32) -> i32 {
    let m = (imm as u32) & 0x1f_ffff;
    let word = 0x6f
        | rd << 7
        | ((m >> 12) & 0xff) << 12
        | ((m >> 11) & 0x1) << 20
        | ((m >> 1) & 0x3ff) << 21
        | ((m >> 20) & 0x1) << 31;
    word as i32
}

#[test]
fn opcode_is_low_seven_bits() {
    for w in [0i32, 1, 0x7f, 0x80, 0x0050_0093, 0x1234_5137, -1, i32::MIN, i32::MAX, 0x00ff_00ff] {
        assert_eq!(get_opcode(w), w & 0x7f);
    }
    assert_eq!(get_opcode(0x0050_0093), 0x13);
    assert_eq!(get_opcode(0x1234_5137), 0x37);
    assert_eq!(get_opcode(-1), 0x7f);
}

#[test]
fn fields_follow_the_bit_layout() {
    let w: i32 = 0x0050_0093u32 as i32;
    assert_eq!(get_rd(w), 1);
    assert_eq!(get_funct3(w), 0);
    assert_eq!(get_rs1(w), 0);
    assert_eq!(get_rs2(w), 5);
    assert_eq!(get_funct7(w), 0);

    let all_ones: i32 = -1;
    assert_eq!(get_rd(all_ones), 0x1f);
    assert_eq!(get_funct3(all_ones), 0x7);
    assert_eq!(get_rs1(all_ones), 0x1f);
    assert_eq!(get_rs2(all_ones), 0x1f);
    assert_eq!(get_funct7(all_ones), 0x7f);

    let top_bit: i32 = i32::MIN;
    assert_eq!(get_opcode(top_bit), 0);
    assert_eq!(get_rd(top_bit), 0);
    assert_eq!(get_rs2(top_bit), 0);
    assert_eq!(get_funct7(top_bit), 0x40);
}

#[test]
fn fields_round_trip() {
    let opcodes = [0u32, 0x13, 0x33, 0x37, 0x6f, 0x7f];
    let regs = [0u32, 1, 2, 15, 16, 31];
    let funct3s = [0u32, 1, 5, 7];
    let funct7s = [0u32, 1, 0x20, 0x40, 0x7f];
    for &opcode in &opcodes {
        for &rd in &regs {
            for &funct3 in &funct3s {
                for &rs1 in &regs {
                    for &rs2 in &regs {
                        for &funct7 in &funct7s {
                            let w = pack(opcode, rd, funct3, rs1, rs2, funct7);
                            assert_eq!(get_opcode(w), opcode as i32);
                            assert_eq!(get_rd(w), rd as i32);
                            assert_eq!(get_funct3(w), funct3 as i32);
                            assert_eq!(get_rs1(w), rs1 as i32);
                            assert_eq!(get_rs2(w), rs2 as i32);
                            assert_eq!(get_funct7(w), funct7 as i32);
                        }
                    }
                }
            }
        }
    }
}

#[test]
fn u_type_immediate_keeps_the_upper_twenty_bits() {
    assert_eq!(get_u_type_imm(0x1234_5137), 0x1234_5000);
    assert_eq!(get_u_type_imm(0x0000_0fff), 0);
    assert_eq!(get_u_type_imm(-1), -4096);
    assert_eq!(get_u_type_imm(0x8000_0037u32 as i32), i32::MIN);
    assert_eq!(get_u_type_imm(0x7fff_f0b7), 0x7fff_f000);
}

#[test]
fn i_type_immediate_is_sign_extended() {
    // All twelve bits set: -1.
    assert_eq!(get_i_type_imm(0xfff0_0093u32 as i32), -1);
    // Only bit 11 set: the lowest twelve-bit number.
    assert_eq!(get_i_type_imm(0x8000_0093u32 as i32), -2048);
    // Bit 11 clear: the highest.
    assert_eq!(get_i_type_imm(0x7ff0_0093), 2047);
    assert_eq!(get_i_type_imm(0x0050_0093), 5);
    assert_eq!(get_i_type_imm(0x0000_0093), 0);
    assert_eq!(get_i_type_imm(0xffb0_0093u32 as i32), -5);
}

#[test]
fn i_type_unsigned_immediate_is_zero_extended() {
    assert_eq!(get_i_type_unsinged_imm(0xfff0_0093u32 as i32), 0xfff);
    assert_eq!(get_i_type_unsinged_imm(0x8000_0093u32 as i32), 0x800);
    assert_eq!(get_i_type_unsinged_imm(0x7ff0_0093), 0x7ff);
    assert_eq!(get_i_type_unsinged_imm(0x0050_0093), 5);
    assert_eq!(get_i_type_unsinged_imm(0x0210_1093), 33);
}

#[test]
fn i_type_immediates_agree_modulo_4096() {
    for imm in -2048i32..2048 {
        let w = ((imm as u32) << 20 | 0x93) as i32;
        assert_eq!(get_i_type_imm(w), imm);
        assert_eq!(get_i_type_unsinged_imm(w), imm & 0xfff);
    }
}

#[test]
fn j_type_immediate_plus_eight() {
    assert_eq!(encode_j(1, 8), 0x0080_00ef);
    assert_eq!(get_j_type_imm(0x0080_00ef), 8);
}

#[test]
fn j_type_immediate_minus_four() {
    assert_eq!(encode_j(0, -4), 0xffdf_f06fu32 as i32);
    assert_eq!(get_j_type_imm(0xffdf_f06fu32 as i32), -4);
}

#[test]
fn j_type_immediate_bit_groups() {
    // Each group of the offset alone, at its place in the word.
    assert_eq!(get_j_type_imm(0x0020_006f), 2);
    assert_eq!(get_j_type_imm(0x7fe0_006f), 0x7fe);
    assert_eq!(get_j_type_imm(0x0010_006f), 0x800);
    assert_eq!(get_j_type_imm(0x0000_106f), 0x1000);
    assert_eq!(get_j_type_imm(0x000f_f06f), 0xf_f000);
    assert_eq!(get_j_type_imm(0x8000_006fu32 as i32), -0x10_0000);
    assert_eq!(get_j_type_imm(0x7fff_f06f), 0xf_fffe);
    assert_eq!(get_j_type_imm(-1), -2);
    assert_eq!(get_j_type_imm(0x0000_006f), 0);
}

#[test]
fn j_type_immediate_round_trips() {
    let mut imm: i32 = -0x10_0000;
    while imm < 0x10_0000 {
        assert_eq!(get_j_type_imm(encode_j(3, imm)), imm);
        assert_eq!(get_rd(encode_j(3, imm)), 3);
        assert_eq!(get_opcode(encode_j(3, imm)), 0x6f);
        imm += 2 * 37;
    }
    for imm in [-0x10_0000, -2, 0, 2, 0xf_fffe, 0x800, -0x800, 0x1000, -0x1000] {
        assert_eq!(get_j_type_imm(encode_j(31, imm)), imm);
    }
}

#[test]
fn signed_to_unsigned_keeps_the_bits() {
    assert_eq!(i64_to_u64(0), 0);
    assert_eq!(i64_to_u64(5), 5);
    assert_eq!(i64_to_u64(-1), u64::MAX);
    assert_eq!(i64_to_u64(i64::MIN), 0x8000_0000_0000_0000);
    assert_eq!(i64_to_u64(i64::MAX), 0x7fff_ffff_ffff_ffff);
    assert_eq!(i64_to_u64(-2), 0xffff_ffff_ffff_fffe);
}

#[test]
fn unsigned_to_signed_keeps_the_bits() {
    assert_eq!(u64_to_i64(0), 0);
    assert_eq!(u64_to_i64(5), 5);
    assert_eq!(u64_to_i64(u64::MAX), -1);
    assert_eq!(u64_to_i64(0x8000_0000_0000_0000), i64::MIN);
    assert_eq!(u64_to_i64(0x7fff_ffff_ffff_ffff), i64::MAX);
}

#[test]
fn conversions_are_inverse() {
    for v in [0i64, 1, -1, 42, -42, i64::MIN, i64::MAX, 0x1234_5678_9abc_def0] {
        assert_eq!(u64_to_i64(i64_to_u64(v)), v);
    }
    for u in [0u64, 1, u64::MAX, 0x8000_0000_0000_0000, 0x7fff_ffff_ffff_ffff] {
        assert_eq!(i64_to_u64(u64_to_i64(u)), u);
    }
}
