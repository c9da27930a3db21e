use crate::word::{add_wrapping, sext, sext_spec, wrap_add};
use vstd::prelude::*;

verus! {

// Opcodes, the top four bits of an instruction word. 0x8 (RTI) and 0xD
// (reserved) are not emulated.
pub const OP_BR: u16 = 0x0;
pub const OP_ADD: u16 = 0x1;
pub const OP_LD: u16 = 0x2;
pub const OP_ST: u16 = 0x3;
pub const OP_JSR: u16 = 0x4;
pub const OP_AND: u16 = 0x5;
pub const OP_LDR: u16 = 0x6;
pub const OP_STR: u16 = 0x7;
pub const OP_NOT: u16 = 0x9;
pub const OP_LDI: u16 = 0xA;
pub const OP_STI: u16 = 0xB;
pub const OP_JMP: u16 = 0xC;
pub const OP_LEA: u16 = 0xE;
pub const OP_TRAP: u16 = 0xF;

/// The opcode: the top four bits of an instruction word.
pub open spec fn opcode_of(w: u16) -> u16 {
    w / 0x1000
}

/// The destination (or, for stores, source) register: bits 11..9.
pub open spec fn dr_of(w: u16) -> usize {
    ((w / 0x200) % 8) as usize
}

/// The first source or base register: bits 8..6.
pub open spec fn sr_of(w: u16) -> usize {
    ((w / 0x40) % 8) as usize
}

/// A PC-relative address: the incremented PC plus the sign-extended low
/// `width` bits of the instruction, modulo 2^16.
pub open spec fn pc_relative(next_pc: u16, w: u16, width: nat) -> u16 {
    wrap_add(next_pc, sext_spec(w, width))
}

/// The second operand of ADD and AND.
#[derive(Clone, Copy, Debug, PartialEq, Eq, Structural)]
pub enum Operand {
    /// A register, by number.
    Register(usize),
    /// A sign-extended five-bit immediate.
    Immediate(u16),
}

/// A decoded instruction. Registers are numbers 0 to 7; PC-relative
/// addresses are already resolved against the incremented PC.
#[derive(Clone, Copy, Debug, PartialEq, Eq, Structural)]
pub enum Instruction {
    Add { dr: usize, sr1: usize, src: Operand },
    And { dr: usize, sr1: usize, src: Operand },
    Not { dr: usize, sr: usize },
    Ld { dr: usize, addr: u16 },
    Ldr { dr: usize, base: usize, offset: u16 },
    Ldi { dr: usize, addr: u16 },
    Lea { dr: usize, addr: u16 },
    St { sr: usize, addr: u16 },
    Str { sr: usize, base: usize, offset: u16 },
    Sti { sr: usize, addr: u16 },
    /// `nzp` holds the condition mask in place (bits 11..9 of the word).
    Br { nzp: u16, target: u16 },
    Jmp { base: usize },
    Jsr { target: u16 },
    Jsrr { base: usize },
    /// `vector` is the low byte of the word.
    Trap { vector: u16 },
    /// An opcode that is not emulated (RTI and the reserved one).
    Illegal { opcode: u16 },
}

/// The second operand of an ADD or AND word: a register if bit 5 is clear,
/// else the sign-extended low five bits.
pub open spec fn operand_spec(w: u16) -> Operand {
    if (w / 0x20) % 2 == 0 {
        Operand::Register((w % 8) as usize)
    } else {
        Operand::Immediate(sext_spec(w, 5))
    }
}

/// What the word `w` means, fetched from the address before `next_pc`.
pub open spec fn decode_spec(w: u16, next_pc: u16) -> Instruction {
    let op = opcode_of(w);
    let dr = dr_of(w);
    let sr = sr_of(w);
    if op == OP_ADD {
        Instruction::Add { dr, sr1: sr, src: operand_spec(w) }
    } else if op == OP_AND {
        Instruction::And { dr, sr1: sr, src: operand_spec(w) }
    } else if op == OP_NOT {
        Instruction::Not { dr, sr }
    } else if op == OP_LD {
        Instruction::Ld { dr, addr: pc_relative(next_pc, w, 9) }
    } else if op == OP_LDR {
        Instruction::Ldr { dr, base: sr, offset: sext_spec(w, 6) }
    } else if op == OP_LDI {
        Instruction::Ldi { dr, addr: pc_relative(next_pc, w, 9) }
    } else if op == OP_LEA {
        Instruction::Lea { dr, addr: pc_relative(next_pc, w, 9) }
    } else if op == OP_ST {
        Instruction::St { sr: dr, addr: pc_relative(next_pc, w, 9) }
    } else if op == OP_STR {
        Instruction::Str { sr: dr, base: sr, offset: sext_spec(w, 6) }
    } else if op == OP_STI {
        Instruction::Sti { sr: dr, addr: pc_relative(next_pc, w, 9) }
    } else if op == OP_BR {
        Instruction::Br { nzp: (w / 0x200 % 8 * 0x200) as u16, target: pc_relative(next_pc, w, 9) }
    } else if op == OP_JMP {
        Instruction::Jmp { base: sr }
    } else if op == OP_JSR {
        if (w / 0x800) % 2 == 1 {
            Instruction::Jsr { target: pc_relative(next_pc, w, 11) }
        } else {
            Instruction::Jsrr { base: sr }
        }
    } else if op == OP_TRAP {
        Instruction::Trap { vector: w % 0x100 }
    } else {
        Instruction::Illegal { opcode: op }
    }
}

fn operand(w: u16) -> (r: Operand)
    ensures
        r == operand_spec(w),
{
    if (w / 0x20) % 2 == 0 {
        Operand::Register((w % 8) as usize)
    } else {
        Operand::Immediate(sext(w, 5))
    }
}

/// Decodes the word `w`, fetched from the address before `next_pc`.
pub fn decode(w: u16, next_pc: u16) -> (r: Instruction)
    ensures
        r == decode_spec(w, next_pc),
{
    let op = w / 0x1000;
    let dr = ((w / 0x200) % 8) as usize;
    let sr = ((w / 0x40) % 8) as usize;
    match op {
        OP_ADD => Instruction::Add { dr, sr1: sr, src: operand(w) },
        OP_AND => Instruction::And { dr, sr1: sr, src: operand(w) },
        OP_NOT => Instruction::Not { dr, sr },
        OP_LD => Instruction::Ld { dr, addr: add_wrapping(next_pc, sext(w, 9)) },
        OP_LDR => Instruction::Ldr { dr, base: sr, offset: sext(w, 6) },
        OP_LDI => Instruction::Ldi { dr, addr: add_wrapping(next_pc, sext(w, 9)) },
        OP_LEA => Instruction::Lea { dr, addr: add_wrapping(next_pc, sext(w, 9)) },
        OP_ST => Instruction::St { sr: dr, addr: add_wrapping(next_pc, sext(w, 9)) },
        OP_STR => Instruction::Str { sr: dr, base: sr, offset: sext(w, 6) },
        OP_STI => Instruction::Sti { sr: dr, addr: add_wrapping(next_pc, sext(w, 9)) },
        OP_BR => Instruction::Br {
            nzp: (w / 0x200) % 8 * 0x200,
            target: add_wrapping(next_pc, sext(w, 9)),
        },
        OP_JMP => Instruction::Jmp { base: sr },
        OP_JSR => {
            if (w / 0x800) % 2 == 1 {
                Instruction::Jsr { target: add_wrapping(next_pc, sext(w, 11)) }
            } else {
                Instruction::Jsrr { base: sr }
            }
        },
        OP_TRAP => Instruction::Trap { vector: w % 0x100 },
        _ => Instruction::Illegal { opcode: op },
    }
}

} // verus!
