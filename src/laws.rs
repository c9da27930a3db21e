use crate::instruction::{decode_spec, dr_of, opcode_of, pc_relative, Instruction, OP_BR, OP_JSR};
use crate::lc3::{
    cc_of, initial_state, read_spec, step_spec, well_formed, write_spec, Lc3State, Status, DDR,
    DSR, FLAG_N, FLAG_P, FLAG_Z, KBDR, KBSR, MCR,
};
use crate::word::{sext_spec, wrap_add};
use vstd::prelude::*;

verus! {

/// Whether `i` writes a register and sets the condition code from it.
pub open spec fn writes_register(i: Instruction) -> bool {
    match i {
        Instruction::Add { .. } | Instruction::And { .. } | Instruction::Not { .. } | Instruction::Ld {
            ..
        } | Instruction::Ldr { .. } | Instruction::Ldi { .. } | Instruction::Lea { .. } => true,
        _ => false,
    }
}

/// The condition code of a written value is exactly one of N, Z and P, and
/// it is the sign of the value read as a signed 16-bit number.
pub proof fn lemma_cc_of_sign(v: u16)
    ensures
        cc_of(v) == FLAG_N || cc_of(v) == FLAG_Z || cc_of(v) == FLAG_P,
        cc_of(v) == FLAG_N <==> (v as i16) < 0,
        cc_of(v) == FLAG_Z <==> (v as i16) == 0,
        cc_of(v) == FLAG_P <==> (v as i16) > 0,
{
    assert((v as i16) < 0 <==> v >= 0x8000) by (bit_vector);
    assert((v as i16) == 0 <==> v == 0) by (bit_vector);
}

/// After an instruction that writes a register with a value `v`, exactly one
/// of N, Z and P is set, and it matches the sign of `v` read as signed.
pub proof fn lemma_register_write_sets_cc(s: Lc3State)
    requires
        well_formed(s),
        writes_register(decode_spec(s.mem[s.pc as int], wrap_add(s.pc, 1))),
        step_spec(s).1 == Status::Running,
    ensures
        ({
            let t = step_spec(s).0;
            let v = t.reg[dr_of(s.mem[s.pc as int]) as int];
            &&& t.cc == cc_of(v)
            &&& t.cc == FLAG_N || t.cc == FLAG_Z || t.cc == FLAG_P
            &&& t.cc == FLAG_N <==> (v as i16) < 0
            &&& t.cc == FLAG_Z <==> (v as i16) == 0
            &&& t.cc == FLAG_P <==> (v as i16) > 0
        }),
{
    let t = step_spec(s).0;
    let v = t.reg[dr_of(s.mem[s.pc as int]) as int];
    lemma_cc_of_sign(v);
}

/// The effective address of a PC-relative instruction fetched at `pc`:
/// `pc + 1` plus the sign-extended low `width` bits, modulo 2^16.
pub open spec fn effective_address(pc: u16, w: u16, width: nat) -> u16 {
    ((pc + 1 + sext_spec(w, width)) % 0x10000) as u16
}

/// Every PC-relative address, of LD, LDI, LEA, ST, STI and BR with nine
/// offset bits and of JSR with eleven, is the fetch address plus one plus
/// the sign-extended offset, modulo 2^16; LEA writes it, a taken BR and JSR
/// jump to it.
pub proof fn lemma_pc_relative_address(s: Lc3State)
    requires
        well_formed(s),
    ensures
        ({
            let w = s.mem[s.pc as int];
            let ea9 = effective_address(s.pc, w, 9);
            let ea11 = effective_address(s.pc, w, 11);
            let (t, st) = step_spec(s);
            match decode_spec(w, wrap_add(s.pc, 1)) {
                Instruction::Ld { addr, .. } | Instruction::Ldi { addr, .. } | Instruction::St {
                    addr,
                    ..
                } | Instruction::Sti { addr, .. } => addr == ea9,
                Instruction::Lea { dr, addr } => addr == ea9 && t.reg[dr as int] == ea9,
                Instruction::Br { nzp, target } => target == ea9 && (nzp & s.cc != 0 ==> t.pc
                    == ea9),
                Instruction::Jsr { target } => target == ea11 && t.pc == ea11,
                _ => true,
            }
        }),
{
    let w = s.mem[s.pc as int];
    lemma_wrap_add_assoc(s.pc, sext_spec(w, 9));
    lemma_wrap_add_assoc(s.pc, sext_spec(w, 11));
}

proof fn lemma_wrap_add_assoc(pc: u16, x: u16)
    ensures
        wrap_add(wrap_add(pc, 1), x) == ((pc + 1 + x) % 0x10000) as u16,
{
    if pc == 0xFFFF {
        assert(wrap_add(pc, 1) == 0);
    }
}

/// Whether `a` is one of the memory-mapped device registers.
pub open spec fn is_device_register(a: u16) -> bool {
    a == KBSR || a == KBDR || a == DSR || a == DDR || a == MCR
}

/// At an ordinary address, reading what was just written gives it back and
/// changes nothing more.
pub proof fn lemma_read_after_write(s: Lc3State, a: u16, v: u16)
    requires
        well_formed(s),
        !is_device_register(a),
    ensures
        read_spec(write_spec(s, a, v).0, a) == Some((v, write_spec(s, a, v).0)),
{
}

/// Reading KBSR gives `0x8000` when a key is waiting and `0` otherwise, and
/// changes nothing.
pub proof fn lemma_kbsr_status(s: Lc3State)
    ensures
        ({
            let (v, t) = read_spec(s, KBSR).unwrap();
            &&& read_spec(s, KBSR) is Some
            &&& v == 0x8000 || v == 0
            &&& v == 0x8000 <==> s.keys.len() > 0
            &&& t == s
        }),
{
}

/// DSR reads `0x8000` on a freshly loaded machine; a write to DSR changes
/// nothing, and a write elsewhere leaves the DSR cell alone, so DSR keeps
/// reading what it read before.
pub proof fn lemma_dsr_ready(
    code: Seq<u16>,
    origin: u16,
    keys: Seq<char>,
    s: Lc3State,
    a: u16,
    v: u16,
)
    requires
        origin + code.len() <= 0x10000,
        well_formed(s),
    ensures
        read_spec(initial_state(code, origin, keys), DSR) == Some(
            (0x8000u16, initial_state(code, origin, keys)),
        ),
        write_spec(s, DSR, v) == (s, false),
        write_spec(s, a, v).0.mem[DSR as int] == s.mem[DSR as int],
        read_spec(write_spec(s, a, v).0, DSR) matches Some((r, _)) && r == s.mem[DSR as int],
{
}

/// No instruction changes the DSR cell, so on a loaded machine DSR reads
/// `0x8000` at every instruction boundary.
pub proof fn lemma_step_keeps_dsr(s: Lc3State)
    requires
        well_formed(s),
    ensures
        step_spec(s).0.mem[DSR as int] == s.mem[DSR as int],
{
}

/// After JSR or JSRR, R7 holds the address of the instruction that follows
/// it.
pub proof fn lemma_jsr_links(s: Lc3State)
    requires
        well_formed(s),
        opcode_of(s.mem[s.pc as int]) == OP_JSR,
    ensures
        step_spec(s).1 == Status::Running,
        step_spec(s).0.reg[7] == wrap_add(s.pc, 1),
{
}

/// BR with an empty mask never branches; BR with the full mask branches
/// whenever a condition code is set, which is the case after the first
/// register write.
pub proof fn lemma_branch_masks(s: Lc3State)
    requires
        well_formed(s),
        opcode_of(s.mem[s.pc as int]) == OP_BR,
    ensures
        step_spec(s).1 == Status::Running,
        (s.mem[s.pc as int] / 0x200) % 8 == 0 ==> step_spec(s).0.pc == wrap_add(s.pc, 1),
        (s.mem[s.pc as int] / 0x200) % 8 == 7 && (s.cc == FLAG_N || s.cc == FLAG_Z || s.cc
            == FLAG_P) ==> step_spec(s).0.pc == pc_relative(
            wrap_add(s.pc, 1),
            s.mem[s.pc as int],
            9,
        ),
{
    let cc = s.cc;
    assert(0u16 & cc == 0) by (bit_vector);
    assert(0xE00u16 & FLAG_N != 0 && 0xE00u16 & FLAG_Z != 0 && 0xE00u16 & FLAG_P != 0)
        by (bit_vector);
}

} // verus!
