use crate::instruction::{decode, decode_spec, Instruction, Operand};
use crate::lc3::{TRAP_GETC, TRAP_HALT, TRAP_IN, TRAP_OUT, TRAP_PUTS, TRAP_PUTSP};
use crate::word::{add_wrapping, wrap_add};
use vstd::prelude::*;

verus! {

/// The ASCII character of the number `d`, from `'0'` on.
pub open spec fn digit_char(d: nat) -> char {
    (48 + d) as char
}

/// A lower-case hexadecimal digit.
pub open spec fn hex_digit(d: nat) -> char {
    if d < 10 {
        (48 + d) as char
    } else {
        (87 + d) as char
    }
}

/// A word as `0x` and four lower-case hexadecimal digits.
pub open spec fn hex_text(v: u16) -> Seq<char> {
    seq![
        '0',
        'x',
        hex_digit(v as nat / 0x1000),
        hex_digit(v as nat / 0x100 % 16),
        hex_digit(v as nat / 16 % 16),
        hex_digit(v as nat % 16),
    ]
}

/// A number in decimal, without leading zeros.
pub open spec fn decimal_text(v: nat) -> Seq<char>
    decreases v,
{
    if v < 10 {
        seq![digit_char(v)]
    } else {
        decimal_text(v / 10) + seq![digit_char(v % 10)]
    }
}

/// A register operand: `$` and its number.
pub open spec fn register_text(r: usize) -> Seq<char> {
    seq!['$', digit_char(r as nat)]
}

/// The second operand of ADD or AND: a register, or the immediate in decimal.
pub open spec fn operand_text(src: Operand) -> Seq<char> {
    match src {
        Operand::Register(r) => register_text(r),
        Operand::Immediate(v) => decimal_text(v as nat),
    }
}

/// The letter `c` if `on`, else nothing.
pub open spec fn flag_text(on: bool, c: char) -> Seq<char> {
    if on {
        seq![c]
    } else {
        Seq::empty()
    }
}

/// A mnemonic followed by register `r` and an address in hexadecimal.
pub open spec fn reg_addr_text(mnemonic: Seq<char>, r: usize, a: u16) -> Seq<char> {
    mnemonic + register_text(r) + seq![' '] + hex_text(a)
}

/// The name of a trap service, or `illegal trap` and its vector in decimal.
pub open spec fn trap_text(vector: u16) -> Seq<char> {
    if vector == TRAP_GETC {
        seq!['g', 'e', 't', 'c']
    } else if vector == TRAP_OUT {
        seq!['o', 'u', 't']
    } else if vector == TRAP_IN {
        seq!['i', 'n']
    } else if vector == TRAP_PUTS {
        seq!['p', 'u', 't', 's']
    } else if vector == TRAP_PUTSP {
        seq!['p', 'u', 't', 's', 'p']
    } else if vector == TRAP_HALT {
        seq!['h', 'a', 'l', 't']
    } else {
        seq!['i', 'l', 'l', 'e', 'g', 'a', 'l', ' ', 't', 'r', 'a', 'p', ' '] + decimal_text(
            vector as nat,
        )
    }
}

/// The symbolic form of a decoded instruction.
pub open spec fn instruction_text(i: Instruction) -> Seq<char> {
    match i {
        Instruction::Add { dr, sr1, src } => seq!['a', 'd', 'd', ' '] + register_text(dr) + seq![' ']
            + register_text(sr1) + seq![' '] + operand_text(src),
        Instruction::And { dr, sr1, src } => seq!['a', 'n', 'd', ' '] + register_text(dr) + seq![' ']
            + register_text(sr1) + seq![' '] + operand_text(src),
        Instruction::Not { dr, sr } => seq!['n', 'o', 't', ' '] + register_text(dr) + seq![' ']
            + register_text(sr),
        Instruction::Ld { dr, addr } => reg_addr_text(seq!['l', 'd', ' ', ' '], dr, addr),
        Instruction::Ldr { dr, base, offset } => seq!['l', 'd', 'r', ' '] + register_text(dr)
            + seq![' '] + register_text(base) + seq![' '] + hex_text(offset),
        Instruction::Ldi { dr, addr } => reg_addr_text(seq!['l', 'd', 'i', ' '], dr, addr),
        Instruction::Lea { dr, addr } => reg_addr_text(seq!['l', 'e', 'a', ' '], dr, addr),
        Instruction::St { sr, addr } => reg_addr_text(seq!['s', 't', ' ', ' '], sr, addr),
        Instruction::Str { sr, base, offset } => seq!['s', 't', 'r', ' '] + register_text(sr)
            + seq![' '] + register_text(base) + seq![' '] + decimal_text(offset as nat),
        Instruction::Sti { sr, addr } => reg_addr_text(seq!['s', 't', 'i', ' '], sr, addr),
        Instruction::Br { nzp, target } => seq!['b', 'r'] + flag_text(nzp / 0x800 % 2 == 1, 'n')
            + flag_text(nzp / 0x400 % 2 == 1, 'z') + flag_text(nzp / 0x200 % 2 == 1, 'p') + seq![
            ' ',
        ] + hex_text(target),
        Instruction::Jmp { base } => seq!['j', 'm', 'p', ' '] + register_text(base),
        Instruction::Jsr { target } => seq!['j', 's', 'r', ' '] + hex_text(target),
        Instruction::Jsrr { base } => seq!['j', 's', 'r', ' '] + register_text(base),
        Instruction::Trap { vector } => trap_text(vector),
        Instruction::Illegal { opcode } => seq!['i', 'l', 'l', 'e', 'g', 'a', 'l', ' ', 'o', 'p', ' ']
            + decimal_text(opcode as nat),
    }
}

/// One line of a listing: the address in hexadecimal, a colon, and the word
/// at that address in symbolic form.
pub open spec fn line_text(w: u16, addr: u16) -> Seq<char> {
    hex_text(addr) + seq![':', ' '] + instruction_text(decode_spec(w, wrap_add(addr, 1)))
}

/// The header of a listing: `origin` and the load address.
pub open spec fn origin_text(origin: u16) -> Seq<char> {
    seq!['o', 'r', 'i', 'g', 'i', 'n', ' '] + hex_text(origin)
}

/// Appends `s` to `out`.
fn append(out: &mut Vec<char>, s: &[char])
    ensures
        final(out)@ == old(out)@ + s@,
{
    let mut i: usize = 0;
    while i < s.len()
        invariant
            i <= s@.len(),
            out@ == old(out)@ + s@.subrange(0, i as int),
        decreases s@.len() - i,
    {
        out.push(s[i]);
        assert(out@ =~= old(out)@ + s@.subrange(0, i + 1));
        i = i + 1;
    }
    assert(s@.subrange(0, i as int) =~= s@);
}

fn hex_char(d: u16) -> (c: char)
    requires
        d < 16,
    ensures
        c == hex_digit(d as nat),
{
    if d < 10 {
        ((48 + d) as u8) as char
    } else {
        ((87 + d) as u8) as char
    }
}

fn append_hex(out: &mut Vec<char>, v: u16)
    ensures
        final(out)@ == old(out)@ + hex_text(v),
{
    append(
        out,
        &['0', 'x', hex_char(v / 0x1000), hex_char(v / 0x100 % 16), hex_char(v / 16 % 16), hex_char(v % 16)],
    );
    assert(old(out)@ + hex_text(v) =~= out@);
}

fn append_decimal(out: &mut Vec<char>, v: u16)
    ensures
        final(out)@ == old(out)@ + decimal_text(v as nat),
    decreases v,
{
    if v >= 10 {
        append_decimal(out, v / 10);
    }
    out.push(((48 + v % 10) as u8) as char);
    assert(old(out)@ + decimal_text(v as nat) =~= out@);
}

fn append_register(out: &mut Vec<char>, r: usize)
    requires
        r < 8,
    ensures
        final(out)@ == old(out)@ + register_text(r),
{
    append(out, &['$', ((48 + r) as u8) as char]);
    assert(old(out)@ + register_text(r) =~= out@);
}

/// The registers of a decoded word are numbers 0 to 7.
proof fn lemma_decoded_registers(w: u16, next_pc: u16)
    ensures
        match decode_spec(w, next_pc) {
            Instruction::Add { dr, sr1, src } | Instruction::And { dr, sr1, src } => dr < 8 && sr1 < 8
                && (src matches Operand::Register(r) ==> r < 8),
            Instruction::Not { dr, sr } => dr < 8 && sr < 8,
            Instruction::Ld { dr, .. } | Instruction::Ldi { dr, .. } | Instruction::Lea {
                dr,
                ..
            } => dr < 8,
            Instruction::Ldr { dr, base, .. } => dr < 8 && base < 8,
            Instruction::St { sr, .. } | Instruction::Sti { sr, .. } => sr < 8,
            Instruction::Str { sr, base, .. } => sr < 8 && base < 8,
            Instruction::Jmp { base } | Instruction::Jsrr { base } => base < 8,
            _ => true,
        },
{
}

/// The listing line for the word `w` stored at `addr`.
pub fn disassemble(w: u16, addr: u16) -> (r: Vec<char>)
    ensures
        r@ == line_text(w, addr),
{
    let mut out: Vec<char> = Vec::new();
    append_hex(&mut out, addr);
    append(&mut out, &[':', ' ']);
    let ghost head = out@;
    let i = decode(w, add_wrapping(addr, 1));
    proof {
        lemma_decoded_registers(w, wrap_add(addr, 1));
    }
    match i {
        Instruction::Add { dr, sr1, src } | Instruction::And { dr, sr1, src } => {
            match i {
                Instruction::Add { .. } => append(&mut out, &['a', 'd', 'd', ' ']),
                _ => append(&mut out, &['a', 'n', 'd', ' ']),
            }
            append_register(&mut out, dr);
            append(&mut out, &[' ']);
            append_register(&mut out, sr1);
            append(&mut out, &[' ']);
            match src {
                Operand::Register(r) => append_register(&mut out, r),
                Operand::Immediate(v) => append_decimal(&mut out, v),
            }
        },
        Instruction::Not { dr, sr } => {
            append(&mut out, &['n', 'o', 't', ' ']);
            append_register(&mut out, dr);
            append(&mut out, &[' ']);
            append_register(&mut out, sr);
        },
        Instruction::Ld { dr, addr } | Instruction::Ldi { dr, addr } | Instruction::Lea {
            dr,
            addr,
        } | Instruction::St { sr: dr, addr } | Instruction::Sti { sr: dr, addr } => {
            match i {
                Instruction::Ld { .. } => append(&mut out, &['l', 'd', ' ', ' ']),
                Instruction::Ldi { .. } => append(&mut out, &['l', 'd', 'i', ' ']),
                Instruction::Lea { .. } => append(&mut out, &['l', 'e', 'a', ' ']),
                Instruction::St { .. } => append(&mut out, &['s', 't', ' ', ' ']),
                _ => append(&mut out, &['s', 't', 'i', ' ']),
            }
            append_register(&mut out, dr);
            append(&mut out, &[' ']);
            append_hex(&mut out, addr);
        },
        Instruction::Ldr { dr, base, offset } => {
            append(&mut out, &['l', 'd', 'r', ' ']);
            append_register(&mut out, dr);
            append(&mut out, &[' ']);
            append_register(&mut out, base);
            append(&mut out, &[' ']);
            append_hex(&mut out, offset);
        },
        Instruction::Str { sr, base, offset } => {
            append(&mut out, &['s', 't', 'r', ' ']);
            append_register(&mut out, sr);
            append(&mut out, &[' ']);
            append_register(&mut out, base);
            append(&mut out, &[' ']);
            append_decimal(&mut out, offset);
        },
        Instruction::Br { nzp, target } => {
            append(&mut out, &['b', 'r']);
            if nzp / 0x800 % 2 == 1 {
                out.push('n');
            }
            if nzp / 0x400 % 2 == 1 {
                out.push('z');
            }
            if nzp / 0x200 % 2 == 1 {
                out.push('p');
            }
            out.push(' ');
            append_hex(&mut out, target);
        },
        Instruction::Jmp { base } => {
            append(&mut out, &['j', 'm', 'p', ' ']);
            append_register(&mut out, base);
        },
        Instruction::Jsr { target } => {
            append(&mut out, &['j', 's', 'r', ' ']);
            append_hex(&mut out, target);
        },
        Instruction::Jsrr { base } => {
            append(&mut out, &['j', 's', 'r', ' ']);
            append_register(&mut out, base);
        },
        Instruction::Trap { vector } => {
            if vector == TRAP_GETC {
                append(&mut out, &['g', 'e', 't', 'c']);
            } else if vector == TRAP_OUT {
                append(&mut out, &['o', 'u', 't']);
            } else if vector == TRAP_IN {
                append(&mut out, &['i', 'n']);
            } else if vector == TRAP_PUTS {
                append(&mut out, &['p', 'u', 't', 's']);
            } else if vector == TRAP_PUTSP {
                append(&mut out, &['p', 'u', 't', 's', 'p']);
            } else if vector == TRAP_HALT {
                append(&mut out, &['h', 'a', 'l', 't']);
            } else {
                append(&mut out, &['i', 'l', 'l', 'e', 'g', 'a', 'l', ' ', 't', 'r', 'a', 'p', ' ']);
                append_decimal(&mut out, vector);
            }
        },
        Instruction::Illegal { opcode } => {
            append(&mut out, &['i', 'l', 'l', 'e', 'g', 'a', 'l', ' ', 'o', 'p', ' ']);
            append_decimal(&mut out, opcode);
        },
    }
    assert(out@ =~= head + instruction_text(i));
    assert(out@ =~= line_text(w, addr));
    out
}

/// The header line of a listing for an image loaded at `origin`.
pub fn origin_line(origin: u16) -> (r: Vec<char>)
    ensures
        r@ == origin_text(origin),
{
    let mut out: Vec<char> = Vec::new();
    append(&mut out, &['o', 'r', 'i', 'g', 'i', 'n', ' ']);
    append_hex(&mut out, origin);
    assert(out@ =~= origin_text(origin));
    out
}

} // verus!
