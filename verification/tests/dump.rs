use rvsim::cpu::CPU;
use rvsim::error::Error;

fn expected_dump(pc: u64, regs: &[i64; 32]) -> String {
    let mut text = format!("PC: {}", pc);
    for (idx, reg) in regs.iter().enumerate() {
        if idx % 4 == 0 {
            text += "\n";
        }
        text += &format!("{:>24}", format!("R{}: {:#016x}", idx, reg));
    }
    text
}

fn cpu_from(pc: u64, regs: &[i64; 32]) -> CPU {
    let mut cpu = CPU::default();
    for (idx, &value) in regs.iter().enumerate() {
        cpu.set_reg(idx, value).unwrap();
    }
    cpu.increment_pc(pc);
    cpu
}

#[test]
fn dbg_reg_shows_the_program_counter() {
    let mut cpu = CPU::default();
    assert_eq!(cpu.dbg_reg(CPU::PC), Ok(String::from("PC:0")));
    cpu.increment_pc(4);
    assert_eq!(cpu.dbg_reg(32), Ok(String::from("PC:4")));
    cpu.increment_pc(8092);
    assert_eq!(cpu.dbg_reg(32), Ok(String::from("PC:8096")));
    cpu.increment_pc(u64::MAX - 8096);
    assert_eq!(cpu.dbg_reg(32), Ok(String::from("PC:18446744073709551615")));
}

#[test]
fn dbg_reg_shows_a_register_in_decimal() {
    let mut cpu = CPU::default();
    cpu.set_reg(1, 5).unwrap();
    cpu.set_reg(2, -17).unwrap();
    cpu.set_reg(10, 1234567890).unwrap();
    cpu.set_reg(30, i64::MIN).unwrap();
    cpu.set_reg(31, i64::MAX).unwrap();
    assert_eq!(cpu.dbg_reg(0), Ok(String::from("0:0")));
    assert_eq!(cpu.dbg_reg(1), Ok(String::from("1:5")));
    assert_eq!(cpu.dbg_reg(2), Ok(String::from("2:-17")));
    assert_eq!(cpu.dbg_reg(3), Ok(String::from("3:0")));
    assert_eq!(cpu.dbg_reg(10), Ok(String::from("10:1234567890")));
    assert_eq!(cpu.dbg_reg(30), Ok(String::from("30:-9223372036854775808")));
    assert_eq!(cpu.dbg_reg(31), Ok(String::from("31:9223372036854775807")));
    for reg in 0..32usize {
        let value = cpu.get_reg(reg).unwrap();
        assert_eq!(cpu.dbg_reg(reg), Ok(format!("{}:{}", reg, value)));
    }
}

#[test]
fn dbg_reg_refuses_an_index_past_the_program_counter() {
    let cpu = CPU::default();
    assert_eq!(cpu.dbg_reg(33), Err(Error::InvalidRegisterIndex));
    assert_eq!(cpu.dbg_reg(usize::MAX), Err(Error::InvalidRegisterIndex));
}

#[test]
fn dbg_cpu_of_the_initial_state() {
    let cpu = CPU::default();
    let text = cpu.dbg_cpu();
    let mut lines = text.lines();
    assert_eq!(lines.next(), Some("PC: 0"));
    assert_eq!(
        lines.next(),
        Some("    R0: 0x00000000000000    R1: 0x00000000000000    R2: 0x00000000000000    R3: 0x00000000000000")
    );
    assert_eq!(text.lines().count(), 9);
    assert_eq!(
        text.lines().last(),
        Some("   R28: 0x00000000000000   R29: 0x00000000000000   R30: 0x00000000000000   R31: 0x00000000000000")
    );
    assert_eq!(text, expected_dump(0, &[0; 32]));
}

#[test]
fn dbg_cpu_shows_values_in_hexadecimal() {
    let mut regs = [0i64; 32];
    regs[1] = 5;
    regs[2] = 0x1234_5000;
    regs[3] = -1;
    regs[4] = i64::MIN;
    regs[5] = i64::MAX;
    regs[6] = 0xab_cdef;
    regs[7] = 0xff_ffff_ffff_ffff;
    regs[8] = 0x100_0000_0000_0000;
    regs[9] = -2;
    regs[12] = 0x1000_0000_0000_0000;
    regs[31] = 0x7b;
    let cpu = cpu_from(8192, &regs);
    let text = cpu.dbg_cpu();
    assert_eq!(text, expected_dump(8192, &regs));
    let lines: Vec<&str> = text.lines().collect();
    assert_eq!(lines[0], "PC: 8192");
    assert_eq!(
        lines[1],
        "    R0: 0x00000000000000    R1: 0x00000000000005    R2: 0x00000012345000  R3: 0xffffffffffffffff"
    );
    assert_eq!(
        lines[2],
        "  R4: 0x8000000000000000  R5: 0x7fffffffffffffff    R6: 0x00000000abcdef    R7: 0xffffffffffffff"
    );
    assert_eq!(
        lines[3],
        "   R8: 0x100000000000000  R9: 0xfffffffffffffffe   R10: 0x00000000000000   R11: 0x00000000000000"
    );
    assert!(lines[4].starts_with(" R12: 0x1000000000000000"));
    assert!(lines[8].ends_with("   R31: 0x0000000000007b"));
}

#[test]
fn dbg_cpu_agrees_with_the_standard_formatter() {
    let mut seed: u64 = 0x9e37_79b9_7f4a_7c15;
    for round in 0..50u64 {
        let mut regs = [0i64; 32];
        for reg in regs.iter_mut().skip(1) {
            seed = seed.wrapping_mul(6364136223846793005).wrapping_add(1442695040888963407);
            let shift = (seed >> 58) as u32;
            *reg = (seed >> shift) as i64;
            if seed & 1 == 1 {
                *reg = reg.wrapping_neg();
            }
        }
        let pc = seed.rotate_left(round as u32);
        let cpu = cpu_from(pc, &regs);
        assert_eq!(cpu.dbg_cpu(), expected_dump(pc, &regs));
        assert_eq!(cpu.dbg_reg(32), Ok(format!("PC:{}", pc)));
        for idx in 0..32usize {
            assert_eq!(cpu.dbg_reg(idx), Ok(format!("{}:{}", idx, regs[idx])));
        }
    }
}
