//! Numbers as text, for the human-readable dumps of the machine state.
use crate::isa::Machine;
use crate::parse::{i64_to_u64, unsigned64};
use vstd::prelude::*;
use vstd::string::{StrSliceExecFns, StringExecFns};

verus! {

/// The character for one digit, in lower case from ten on.
pub open spec fn digit_char(d: int) -> char
    recommends
        0 <= d < 16,
{
    if d == 0 {
        '0'
    } else if d == 1 {
        '1'
    } else if d == 2 {
        '2'
    } else if d == 3 {
        '3'
    } else if d == 4 {
        '4'
    } else if d == 5 {
        '5'
    } else if d == 6 {
        '6'
    } else if d == 7 {
        '7'
    } else if d == 8 {
        '8'
    } else if d == 9 {
        '9'
    } else if d == 10 {
        'a'
    } else if d == 11 {
        'b'
    } else if d == 12 {
        'c'
    } else if d == 13 {
        'd'
    } else if d == 14 {
        'e'
    } else {
        'f'
    }
}

/// The digits of `n` in the given base, most significant first, without
/// leading zeros; zero is the single digit `0`.
pub open spec fn digits(n: nat, base: nat) -> Seq<char>
    recommends
        2 <= base <= 16,
    decreases n,
{
    if n < base || base < 2 {
        seq![digit_char(n as int)]
    } else {
        proof {
            assert(n / base < n) by (nonlinear_arith)
                requires
                    2 <= base <= n,
            ;
        }
        digits(n / base, base).push(digit_char((n % base) as int))
    }
}

/// `n` in decimal.
pub open spec fn decimal(n: nat) -> Seq<char> {
    digits(n, 10)
}

/// `v` in decimal, with a minus sign before a negative number.
pub open spec fn signed_decimal(v: int) -> Seq<char> {
    if v < 0 {
        seq!['-'] + decimal((-v) as nat)
    } else {
        decimal(v as nat)
    }
}

/// `count` copies of `fill`.
pub open spec fn filler(fill: char, count: int) -> Seq<char> {
    Seq::new(
        if count < 0 {
            0
        } else {
            count as nat
        },
        |i: int| fill,
    )
}

/// `s`, with as many copies of `fill` before it as it takes to reach
/// `width`; `s` itself if it is that long already.
pub open spec fn right_aligned(s: Seq<char>, width: nat, fill: char) -> Seq<char> {
    filler(fill, width - s.len()) + s
}

/// A register value as sixteen characters: `0x` and the two's-complement
/// bits in hexadecimal, zero-filled to fourteen digits. A value that needs
/// more digits takes more room.
pub open spec fn register_hex(v: i64) -> Seq<char> {
    seq!['0', 'x'] + right_aligned(digits(unsigned64(v) as nat, 16), 14, '0')
}

/// One line for register `reg`, or for the program counter where `reg` is
/// 32: `PC:` and the address, or the register's number, a colon and its
/// value, all in decimal.
pub open spec fn register_line(m: Machine, reg: int) -> Seq<char> {
    if reg == 32 {
        seq!['P', 'C', ':'] + decimal(m.pc as nat)
    } else {
        decimal(reg as nat) + seq![':'] + signed_decimal(m.regs[reg] as int)
    }
}

/// One cell of the register table: `R`, the register's number, a colon, a
/// space and the value in hexadecimal, right-aligned in twenty-four columns.
pub open spec fn register_cell(idx: int, v: i64) -> Seq<char> {
    right_aligned(seq!['R'] + decimal(idx as nat) + seq![':', ' '] + register_hex(v), 24, ' ')
}

/// The cells of the first `count` registers, four to a line, each line
/// begun by a line feed.
pub open spec fn register_table(regs: Seq<i64>, count: nat) -> Seq<char>
    decreases count,
{
    if count == 0 {
        Seq::empty()
    } else {
        let idx = (count - 1) as nat;
        register_table(regs, idx) + (if idx % 4 == 0 {
            seq!['\n']
        } else {
            Seq::empty()
        }) + register_cell(idx as int, regs[idx as int])
    }
}

/// The whole state as text: `PC: ` and the address in decimal, then the
/// table of all thirty-two registers.
pub open spec fn machine_dump(m: Machine) -> Seq<char> {
    seq!['P', 'C', ':', ' '] + decimal(m.pc as nat) + register_table(m.regs, 32)
}

fn digit_str(d: u64) -> (s: &'static str)
    requires
        d < 16,
    ensures
        s@ == seq![digit_char(d as int)],
{
    proof {
        reveal_strlit("0");
        reveal_strlit("1");
        reveal_strlit("2");
        reveal_strlit("3");
        reveal_strlit("4");
        reveal_strlit("5");
        reveal_strlit("6");
        reveal_strlit("7");
        reveal_strlit("8");
        reveal_strlit("9");
        reveal_strlit("a");
        reveal_strlit("b");
        reveal_strlit("c");
        reveal_strlit("d");
        reveal_strlit("e");
        reveal_strlit("f");
    }
    let s = match d {
        0 => "0",
        1 => "1",
        2 => "2",
        3 => "3",
        4 => "4",
        5 => "5",
        6 => "6",
        7 => "7",
        8 => "8",
        9 => "9",
        10 => "a",
        11 => "b",
        12 => "c",
        13 => "d",
        14 => "e",
        _ => "f",
    };
    s
}

/// Appends the digits of `n` in the given base.
pub(crate) fn push_digits(out: &mut String, n: u64, base: u64)
    requires
        2 <= base <= 16,
    ensures
        final(out)@ == old(out)@ + digits(n as nat, base as nat),
    decreases n,
{
    if n < base {
        out.append(digit_str(n));
    } else {
        proof {
            assert(n / base < n) by (nonlinear_arith)
                requires
                    2 <= base <= n,
            ;
        }
        push_digits(out, n / base, base);
        out.append(digit_str(n % base));
    }
}

/// Appends `count` copies of the one-character string `fill`.
pub(crate) fn push_filler(out: &mut String, fill: &str, count: usize)
    requires
        fill@.len() == 1,
    ensures
        final(out)@ == old(out)@ + filler(fill@[0], count as int),
{
    let mut i: usize = 0;
    while i < count
        invariant
            i <= count,
            fill@.len() == 1,
            out@ == old(out)@ + filler(fill@[0], i as int),
        decreases count - i,
    {
        out.append(fill);
        i += 1;
    }
}

/// Appends `n` in decimal.
pub(crate) fn push_decimal(out: &mut String, n: u64)
    ensures
        final(out)@ == old(out)@ + decimal(n as nat),
{
    push_digits(out, n, 10);
}

/// Appends `v` in decimal, with its sign if it is negative.
pub(crate) fn push_signed_decimal(out: &mut String, v: i64)
    ensures
        final(out)@ == old(out)@ + signed_decimal(v as int),
{
    if v < 0 {
        proof {
            reveal_strlit("-");
        }
        out.append("-");
        let magnitude: u64 = (-(v + 1)) as u64 + 1;
        push_digits(out, magnitude, 10);
    } else {
        push_digits(out, v as u64, 10);
    }
}

/// Appends `s`, with as many copies of the one-character string `fill`
/// before it as it takes to reach `width`.
pub(crate) fn push_right_aligned(out: &mut String, s: &str, width: usize, fill: &str)
    requires
        fill@.len() == 1,
    ensures
        final(out)@ == old(out)@ + right_aligned(s@, width as nat, fill@[0]),
{
    let len: usize = s.unicode_len();
    if len < width {
        push_filler(out, fill, width - len);
    }
    out.append(s);
}

/// Appends a register value in hexadecimal.
pub(crate) fn push_register_hex(out: &mut String, v: i64)
    ensures
        final(out)@ == old(out)@ + register_hex(v),
{
    proof {
        reveal_strlit("0x");
        reveal_strlit("0");
    }
    let mut hex = String::new();
    push_digits(&mut hex, i64_to_u64(v), 16);
    out.append("0x");
    push_right_aligned(out, hex.as_str(), 14, "0");
}

/// Appends the cell of register `idx` in the register table.
pub(crate) fn push_register_cell(out: &mut String, idx: usize, v: i64)
    ensures
        final(out)@ == old(out)@ + register_cell(idx as int, v),
{
    proof {
        reveal_strlit("R");
        reveal_strlit(": ");
        reveal_strlit(" ");
    }
    let mut cell = String::new();
    cell.append("R");
    push_decimal(&mut cell, idx as u64);
    cell.append(": ");
    push_register_hex(&mut cell, v);
    push_right_aligned(out, cell.as_str(), 24, " ");
}

} // verus!
