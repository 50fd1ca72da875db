//! The execution engine: thirty-two 64-bit registers and a program counter,
//! driven one instruction at a time.
use crate::alu::{lemma_wrap_absorbs, lemma_wrapping_operations};
use crate::error::Error;
use crate::isa::{
    decode, decode_itype, decode_jtype, decode_rtype, decode_utype, fetch,
    lemma_rewind_then_advance, Machine, INSTRUCTION_SIZE,
};
use crate::mem::Mem;
use crate::parse::{
    get_funct3, get_funct7, get_i_type_imm, get_i_type_unsinged_imm, get_j_type_imm, get_opcode,
    get_rd, get_rs1, get_rs2, get_u_type_imm, i64_to_u64, signed64, u64_to_i64, unsigned64,
    word_of,
};
use crate::text::{
    decimal, machine_dump, push_decimal, push_register_cell, push_signed_decimal, register_line,
    register_table,
};
use vstd::prelude::*;
use vstd::string::StringExecFns;

verus! {

/// The registers and the program counter. Its view is the [`Machine`] that
/// it holds, which is well formed at all times: register 0 reads zero.
pub struct CPU {
    regs: [i64; 32],
    pc: u64,
}

impl View for CPU {
    type V = Machine;

    closed spec fn view(&self) -> Machine {
        Machine { regs: self.regs@, pc: self.pc }
    }
}

impl Default for CPU {
    fn default() -> (cpu: CPU)
        ensures
            cpu@ == Machine::initial(),
            cpu@.wf(),
    {
        let cpu = CPU { regs: [0i64; 32], pc: 0 };
        assert(cpu@.regs =~= Machine::initial().regs);
        cpu
    }
}

/// Whether the run goes on after a step.
#[derive(Clone, Copy, Debug, PartialEq, Eq, Structural)]
pub enum Status {
    /// The word at the program counter was zero, which ends the program.
    /// Nothing was executed.
    Halted,
    /// One instruction was executed and the program counter is at the next.
    Running,
}

/// One turn of the run loop on a machine and its memory: the state it leaves
/// and what it reports.
pub open spec fn cycle(m: Machine, mem: Seq<u8>) -> (Machine, Result<Status, Error>) {
    match fetch(mem, m.pc) {
        Err(e) => (m, Err(e)),
        Ok(w) => if w == 0 {
            (m, Ok(Status::Halted))
        } else {
            match decode(w) {
                Some(i) => (m.execute(i), Ok(Status::Running)),
                None => (m, Err(Error::UnknownInstruction)),
            }
        },
    }
}

impl CPU {
    /// The index under which [`CPU::dbg_reg`] shows the program counter.
    pub const PC: usize = 32;

    #[verifier::type_invariant]
    spec fn zero_register_is_zero(self) -> bool {
        self.regs[0] == 0
    }

    /// The instruction word at the program counter, its four bytes read in
    /// little-endian order. Fails unless all four lie inside the memory.
        pub fn fetch_instruction(&self, mem: &Mem) -> (r: Result<i32, Error>)
        ensures
            self@.wf(),
            r == fetch(mem@, self@.pc),
    {
        proof {
            use_type_invariant(self);
        }
        let window = match mem.get(self.pc) {
            Ok(window) => window,
            Err(e) => {
                return Err(e);
            },
        };
        if window.len() < 4 {
            return Err(Error::OutOfBounds);
        }
        let (b0, b1, b2, b3) = (window[0], window[1], window[2], window[3]);
        let word: u32 = (b0 as u32) | (b1 as u32) << 8 | (b2 as u32) << 16 | (b3 as u32) << 24;
        proof {
            assert(((b0 as u32) | (b1 as u32) << 8 | (b2 as u32) << 16 | (b3 as u32) << 24) == b0
                + b1 * 0x100 + b2 * 0x1_0000 + b3 * 0x100_0000) by (bit_vector);
            assert(word as i32 == word_of(word as int)) by (bit_vector);
        }
        Ok(word as i32)
    }

    /// Decodes and executes one instruction word. On success the registers
    /// are those after the instruction, and the program counter stands one
    /// instruction width before the next instruction, so that the advance
    /// which follows every instruction lands on it. A word that is no
    /// instruction is refused and changes nothing.
        pub fn process_instruction(&mut self, instruction: i32) -> (r: Result<(), Error>)
        ensures
            final(self)@.wf(),
            (match decode(instruction) {
                Some(i) => r is Ok && final(self)@ == old(self)@.execute(i).rewind(4),
                None => r == Err::<(), Error>(Error::UnknownInstruction) && final(self)@
                    == old(self)@,
            }),
    {
        proof {
            use_type_invariant(&*self);
        }
        let opcode: i32 = get_opcode(instruction);
        match opcode {
            0b0110111 | 0b0010111 => utype(self, instruction),
            0b0010011 => itype(self, instruction),
            0b1101111 => jtype(self, instruction),
            0b0110011 => rtype(self, instruction),
            _ => Err(Error::UnknownInstruction),
        }
    }

    /// Moves the program counter forward by `instruction_size`, modulo 2^64.
    pub fn increment_pc(&mut self, instruction_size: u64)
        ensures
            final(self)@.wf(),
            final(self)@ == old(self)@.advance(instruction_size as int),
    {
        proof {
            use_type_invariant(&*self);
        }
        self.pc = self.pc.wrapping_add(instruction_size);
    }

    /// Writes `data` to register `reg`. A write to register 0 is discarded.
    pub fn set_reg(&mut self, reg: usize, data: i64) -> (r: Result<(), Error>)
        ensures
            final(self)@.wf(),
            reg < 32 ==> r is Ok && final(self)@ == old(self)@.with_reg(reg as int, data),
            reg >= 32 ==> r == Err::<(), Error>(Error::InvalidRegisterIndex) && final(self)@
                == old(self)@,
    {
        proof {
            use_type_invariant(&*self);
        }
        if reg >= 32 {
            return Err(Error::InvalidRegisterIndex);
        }
        if reg == 0 {
            return Ok(());
        }
        self.regs[reg] = data;
        Ok(())
    }

    /// The value of register `reg`.
    pub fn get_reg(&self, reg: usize) -> (r: Result<i64, Error>)
        ensures
            self@.wf(),
            reg < 32 ==> r == Ok::<i64, Error>(self@.regs[reg as int]),
            reg >= 32 ==> r == Err::<i64, Error>(Error::InvalidRegisterIndex),
    {
        proof {
            use_type_invariant(self);
        }
        if reg >= 32 {
            return Err(Error::InvalidRegisterIndex);
        }
        Ok(self.regs[reg])
    }

    /// One line of text for register `reg`, or for the program counter
    /// where `reg` is [`CPU::PC`].
        pub fn dbg_reg(&self, reg: usize) -> (r: Result<String, Error>)
        ensures
            self@.wf(),
            reg <= 32 ==> r is Ok && r->Ok_0@ == register_line(self@, reg as int),
            reg > 32 ==> r == Err::<String, Error>(Error::InvalidRegisterIndex),
    {
        proof {
            use_type_invariant(self);
            reveal_strlit("PC:");
            reveal_strlit(":");
        }
        let mut line = String::new();
        if reg == 32 {
            line.append("PC:");
            push_decimal(&mut line, self.pc);
        } else {
            let value: i64 = self.get_reg(reg)?;
            push_decimal(&mut line, reg as u64);
            line.append(":");
            push_signed_decimal(&mut line, value);
        }
        Ok(line)
    }

    /// The whole state as text: the program counter, then the registers in
    /// hexadecimal, four to a line.
    pub fn dbg_cpu(&self) -> (text: String)
        ensures
            self@.wf(),
            text@ == machine_dump(self@),
    {
        proof {
            use_type_invariant(self);
            reveal_strlit("PC: ");
        }
        let mut text = String::new();
        text.append("PC: ");
        push_decimal(&mut text, self.pc);
        let ghost header = text@;
        assert(header =~= seq!['P', 'C', ':', ' '] + decimal(self.pc as nat));
        let mut idx: usize = 0;
        while idx < 32
            invariant
                idx <= 32,
                text@ == header + register_table(self@.regs, idx as nat),
            decreases 32 - idx,
        {
            proof {
                reveal_strlit("\n");
            }
            if idx % 4 == 0 {
                text.append("\n");
            }
            push_register_cell(&mut text, idx, self.regs[idx]);
            idx += 1;
            assert(text@ =~= header + register_table(self@.regs, idx as nat));
        }
        text
    }

    /// The program counter.
    pub fn pc(&self) -> (pc: u64)
        ensures
            pc == self@.pc,
    {
        self.pc
    }

    /// One turn of the run loop: fetch, stop on the zero word, else execute
    /// and advance. Whatever fails leaves the state as it was.
        pub fn step(&mut self, mem: &Mem) -> (r: Result<Status, Error>)
        ensures
            final(self)@.wf(),
            (final(self)@, r) == cycle(old(self)@, mem@),
    {
        let instruction: i32 = match self.fetch_instruction(mem) {
            Ok(word) => word,
            Err(e) => {
                return Err(e);
            },
        };
        if instruction == 0 {
            return Ok(Status::Halted);
        }
        match self.process_instruction(instruction) {
            Ok(()) => {},
            Err(e) => {
                return Err(e);
            },
        }
        self.increment_pc(INSTRUCTION_SIZE);
        proof {
            lemma_rewind_then_advance(
                old(self)@.execute(decode(instruction)->Some_0),
                INSTRUCTION_SIZE as int,
            );
        }
        Ok(Status::Running)
    }
}

/// Executes a word with one of the two U-type opcodes: `lui`, `auipc`.
pub fn utype(cpu: &mut CPU, instruction: i32) -> (r: Result<(), Error>)
    ensures
        final(cpu)@.wf(),
        (match decode_utype(instruction) {
            Some(i) => r is Ok && final(cpu)@ == old(cpu)@.execute(i).rewind(4),
            None => r == Err::<(), Error>(Error::UnknownInstruction) && final(cpu)@ == old(cpu)@,
        }),
{
    proof {
        use_type_invariant(&*cpu);
    }
    let opcode: i32 = get_opcode(instruction);
    let imm: i32 = get_u_type_imm(instruction);
    let rd: usize = get_rd(instruction) as usize;
    proof {
        lemma_wrapping_operations(imm as i64, signed64(cpu.pc) as i64, 0, 0);
        lemma_wrap_absorbs(imm as int, 0, cpu.pc, 0);
    }
    match opcode {
        // lui
        0b0110111 => cpu.set_reg(rd, imm as i64),
        // auipc
        0b0010111 => cpu.set_reg(rd, (imm as i64).wrapping_add(u64_to_i64(cpu.pc))),
        _ => Err(Error::UnknownInstruction),
    }
}

/// Executes a word read in the I-type layout: the arithmetic, logic and
/// shift instructions that take an immediate.
pub fn itype(cpu: &mut CPU, instruction: i32) -> (r: Result<(), Error>)
    ensures
        final(cpu)@.wf(),
        (match decode_itype(instruction) {
            Some(i) => r is Ok && final(cpu)@ == old(cpu)@.execute(i).rewind(4),
            None => r == Err::<(), Error>(Error::UnknownInstruction) && final(cpu)@ == old(cpu)@,
        }),
{
    proof {
        use_type_invariant(&*cpu);
    }
    let funct3: i32 = get_funct3(instruction);
    let funct7: i32 = get_funct7(instruction);

    let imm: i32 = get_i_type_imm(instruction);
    let uimm: i32 = get_i_type_unsinged_imm(instruction);
    let rd: usize = get_rd(instruction) as usize;
    let rs1: usize = get_rs1(instruction) as usize;
    let shamt: i32 = uimm & 0b11111;
    proof {
        assert(0 <= uimm < 0x1000 ==> (uimm & 0b11111) == (uimm as int) % 32) by (bit_vector);
    }
    let value: i64 = cpu.get_reg(rs1)?;
    match funct3 {
        // addi
        0b000 => cpu.set_reg(rd, value.wrapping_add(imm as i64)),
        // slti
        0b010 => cpu.set_reg(rd, if value < imm as i64 { 1 } else { 0 }),
        // sltiu
        0b011 => cpu.set_reg(rd, if i64_to_u64(value) < uimm as u64 { 1 } else { 0 }),
        // xori
        0b100 => cpu.set_reg(rd, value ^ imm as i64),
        // ori
        0b110 => cpu.set_reg(rd, value | imm as i64),
        // andi
        0b111 => cpu.set_reg(rd, value & imm as i64),
        // slli
        0b001 => cpu.set_reg(rd, u64_to_i64(i64_to_u64(value) << shamt)),
        0b101 => {
            if funct7 == 0b0000000 {
                // srli
                cpu.set_reg(rd, u64_to_i64(i64_to_u64(value) >> shamt))
            } else if funct7 == 0b0100000 {
                // srai
                cpu.set_reg(rd, value >> shamt)
            } else {
                Err(Error::UnknownInstruction)
            }
        },
        _ => Err(Error::UnknownInstruction),
    }
}

/// Executes a word with the J-type opcode: `jal`.
pub fn jtype(cpu: &mut CPU, instruction: i32) -> (r: Result<(), Error>)
    ensures
        final(cpu)@.wf(),
        (match decode_jtype(instruction) {
            Some(i) => r is Ok && final(cpu)@ == old(cpu)@.execute(i).rewind(4),
            None => r == Err::<(), Error>(Error::UnknownInstruction) && final(cpu)@ == old(cpu)@,
        }),
{
    proof {
        use_type_invariant(&*cpu);
    }
    let opcode: i32 = get_opcode(instruction);
    let imm: i32 = get_j_type_imm(instruction);
    let rd: usize = get_rd(instruction) as usize;
    match opcode {
        // jal
        0b1101111 => {
            proof {
                lemma_wrapping_operations(0, 0, cpu.pc, INSTRUCTION_SIZE);
            }
            let link: i64 = u64_to_i64(cpu.pc.wrapping_add(INSTRUCTION_SIZE));
            cpu.set_reg(rd, link)?;
            let target: u64 = cpu.pc.wrapping_add(i64_to_u64(imm as i64));
            proof {
                lemma_wrapping_operations(0, 0, cpu.pc, unsigned64(imm as i64) as u64);
                lemma_wrapping_operations(0, 0, target, INSTRUCTION_SIZE);
                lemma_wrap_absorbs(cpu.pc as int, imm as i64, 0, 0);
            }
            cpu.pc = target.wrapping_sub(INSTRUCTION_SIZE);
            Ok(())
        },
        _ => Err(Error::UnknownInstruction),
    }
}

/// Executes a word read in the R-type layout: `add`, `sub`.
pub fn rtype(cpu: &mut CPU, instruction: i32) -> (r: Result<(), Error>)
    ensures
        final(cpu)@.wf(),
        (match decode_rtype(instruction) {
            Some(i) => r is Ok && final(cpu)@ == old(cpu)@.execute(i).rewind(4),
            None => r == Err::<(), Error>(Error::UnknownInstruction) && final(cpu)@ == old(cpu)@,
        }),
{
    proof {
        use_type_invariant(&*cpu);
    }
    let funct3: i32 = get_funct3(instruction);
    let funct7: i32 = get_funct7(instruction);
    let rs1: usize = get_rs1(instruction) as usize;
    let rs2: usize = get_rs2(instruction) as usize;
    let rd: usize = get_rd(instruction) as usize;
    let a: i64 = cpu.get_reg(rs1)?;
    let b: i64 = cpu.get_reg(rs2)?;
    proof {
        lemma_wrapping_operations(a, b, 0, 0);
    }
    if funct3 == 0b000 && funct7 == 0b0000000 {
        // add
        cpu.set_reg(rd, a.wrapping_add(b))
    } else if funct3 == 0b000 && funct7 == 0b0100000 {
        // sub
        cpu.set_reg(rd, a.wrapping_sub(b))
    } else {
        Err(Error::UnknownInstruction)
    }
}

} // verus!
