use crate::instruction::{decode, decode_spec, Instruction, Operand};
use crate::key_event_queue::KeyEventQueue;
use crate::word::{add_wrapping, char_of, to_char, wrap_add};
use vstd::prelude::*;

verus! {

/// Keyboard status register.
pub const KBSR: u16 = 0xFE00;
/// Keyboard data register.
pub const KBDR: u16 = 0xFE02;
/// Display status register.
pub const DSR: u16 = 0xFE04;
/// Display data register.
pub const DDR: u16 = 0xFE06;
/// Machine control register.
pub const MCR: u16 = 0xFFFE;

/// Trap vector: read a key into R0, without echo.
pub const TRAP_GETC: u16 = 0x20;
/// Trap vector: emit R0 as a character.
pub const TRAP_OUT: u16 = 0x21;
/// Trap vector: emit the string at R0, one character per word.
pub const TRAP_PUTS: u16 = 0x22;
/// Trap vector: prompt, read a key into R0 and echo it.
pub const TRAP_IN: u16 = 0x23;
/// Trap vector: emit the string at R0, two characters per word.
pub const TRAP_PUTSP: u16 = 0x24;
/// Trap vector: stop the machine.
pub const TRAP_HALT: u16 = 0x25;

/// Condition code: the last value written was negative.
pub const FLAG_N: u16 = 0x800;
/// Condition code: the last value written was zero.
pub const FLAG_Z: u16 = 0x400;
/// Condition code: the last value written was positive.
pub const FLAG_P: u16 = 0x200;

/// Number of words of memory.
pub const MEMORY_WORDS: usize = 0x10000;

/// The condition code that a written value sets: its sign as a 16-bit
/// two's complement number.
pub open spec fn cc_of(v: u16) -> u16 {
    if v >= 0x8000 {
        FLAG_N
    } else if v == 0 {
        FLAG_Z
    } else {
        FLAG_P
    }
}

/// The word that a key gives when read through KBDR or GETC: its low seven bits.
pub open spec fn key_word(c: char) -> u16 {
    (c as u32 % 128) as u16
}

/// The word that IN stores for a key: its low byte.
pub open spec fn key_byte(c: char) -> u16 {
    (c as u32 % 256) as u16
}

/// The machine as a mathematical value.
pub struct Lc3State {
    pub pc: u16,
    pub reg: Seq<u16>,
    pub cc: u16,
    pub mem: Seq<u16>,
    /// Keys typed and not yet consumed, oldest first.
    pub keys: Seq<char>,
    /// Characters emitted to the terminal and not yet taken.
    pub out: Seq<char>,
    /// Whether an IN has shown its prompt and is still waiting for a key.
    pub prompted: bool,
}

/// Eight registers and a full address space.
pub open spec fn well_formed(s: Lc3State) -> bool {
    s.reg.len() == 8 && s.mem.len() == MEMORY_WORDS
}

/// What one step of the machine ended with.
#[derive(Clone, Copy, Debug, PartialEq, Eq, Structural)]
pub enum Status {
    /// The next instruction can be fetched.
    Running,
    /// HALT ran, or a store cleared bit 15 of MCR.
    Halted,
    /// The instruction needs a key and none is buffered; it has not run.
    NeedKey,
    /// The opcode (top four bits) is not emulated.
    IllegalOpcode(u16),
    /// The trap vector (low byte) is not one of the services.
    IllegalTrap(u16),
}

/// Reading address `a`: the value read and the state after, or `None` when
/// the read needs a key and none is buffered.
pub open spec fn read_spec(s: Lc3State, a: u16) -> Option<(u16, Lc3State)> {
    if a == KBSR {
        Some((if s.keys.len() > 0 { 0x8000u16 } else { 0u16 }, s))
    } else if a == KBDR {
        if s.keys.len() > 0 {
            Some((key_word(s.keys[0]), Lc3State { keys: s.keys.drop_first(), ..s }))
        } else {
            None
        }
    } else {
        Some((s.mem[a as int], s))
    }
}

/// Writing `v` at address `a`: the state after, and whether the write halts
/// the machine.
pub open spec fn write_spec(s: Lc3State, a: u16, v: u16) -> (Lc3State, bool) {
    if a == DSR {
        (s, false)
    } else {
        let t = Lc3State { mem: s.mem.update(a as int, v), ..s };
        if a == DDR {
            (Lc3State { out: t.out.push(char_of(v)), ..t }, false)
        } else if a == MCR {
            (t, v < 0x8000)
        } else {
            (t, false)
        }
    }
}

/// Writing `v` into register `r`, with the condition code it sets.
pub open spec fn set_reg(s: Lc3State, r: usize, v: u16) -> Lc3State {
    Lc3State { reg: s.reg.update(r as int, v), cc: cc_of(v), ..s }
}

/// The text that PUTS emits for the string at `a`: one character per word,
/// up to the first zero word or the end of memory.
pub open spec fn puts_text(mem: Seq<u16>, a: int) -> Seq<char>
    decreases mem.len() - a,
{
    if a < 0 || a >= mem.len() || mem[a] == 0 {
        Seq::empty()
    } else {
        seq![char_of(mem[a])] + puts_text(mem, a + 1)
    }
}

/// The text that PUTSP emits for the packed string at `a`: for each word its
/// low byte, then its high byte, up to the first zero byte or the end of
/// memory.
pub open spec fn putsp_text(mem: Seq<u16>, a: int) -> Seq<char>
    decreases mem.len() - a,
{
    if a < 0 || a >= mem.len() || mem[a] % 0x100 == 0 {
        Seq::empty()
    } else if mem[a] / 0x100 == 0 {
        seq![char_of(mem[a] % 0x100)]
    } else {
        seq![char_of(mem[a] % 0x100), char_of(mem[a] / 0x100)] + putsp_text(mem, a + 1)
    }
}

/// The value of the second operand of ADD or AND.
pub open spec fn operand_value(s: Lc3State, src: Operand) -> u16 {
    match src {
        Operand::Register(r) => s.reg[r as int],
        Operand::Immediate(v) => v,
    }
}

/// Loading register `dr` from address `a`.
pub open spec fn load_spec(s: Lc3State, dr: usize, a: u16) -> (Lc3State, Status) {
    match read_spec(s, a) {
        Some((v, t)) => (set_reg(t, dr, v), Status::Running),
        None => (s, Status::NeedKey),
    }
}

/// Storing register `sr` at address `a`.
pub open spec fn store_spec(s: Lc3State, sr: usize, a: u16) -> (Lc3State, Status) {
    let (t, halt) = write_spec(s, a, s.reg[sr as int]);
    (t, if halt { Status::Halted } else { Status::Running })
}

/// Whether every register that `i` names is one of the eight.
pub open spec fn registers_valid(i: Instruction) -> bool {
    match i {
        Instruction::Add { dr, sr1, src } | Instruction::And { dr, sr1, src } => dr < 8 && sr1 < 8
            && match src {
            Operand::Register(r) => r < 8,
            Operand::Immediate(_) => true,
        },
        Instruction::Not { dr, sr } => dr < 8 && sr < 8,
        Instruction::Ld { dr, .. } | Instruction::Ldi { dr, .. } | Instruction::Lea { dr, .. } => dr
            < 8,
        Instruction::Ldr { dr, base, .. } => dr < 8 && base < 8,
        Instruction::St { sr, .. } | Instruction::Sti { sr, .. } => sr < 8,
        Instruction::Str { sr, base, .. } => sr < 8 && base < 8,
        Instruction::Jmp { base } | Instruction::Jsrr { base } => base < 8,
        _ => true,
    }
}

/// The six trap services. Any other vector is illegal.
pub open spec fn trap_spec(s: Lc3State, vector: u16) -> (Lc3State, Status) {
    if vector == TRAP_GETC {
        match read_spec(s, KBDR) {
            Some((v, t)) => (Lc3State { reg: t.reg.update(0, v), ..t }, Status::Running),
            None => (s, Status::NeedKey),
        }
    } else if vector == TRAP_OUT {
        (write_spec(s, DDR, s.reg[0]).0, Status::Running)
    } else if vector == TRAP_PUTS {
        (Lc3State { out: s.out + puts_text(s.mem, s.reg[0] as int), ..s }, Status::Running)
    } else if vector == TRAP_IN {
        let prompt = if s.prompted {
            Seq::<char>::empty()
        } else {
            seq!['>', ' ']
        };
        if s.keys.len() > 0 {
            let b = key_byte(s.keys[0]);
            (
                Lc3State {
                    reg: s.reg.update(0, b),
                    keys: s.keys.drop_first(),
                    out: s.out + prompt + seq![char_of(b)],
                    prompted: false,
                    ..s
                },
                Status::Running,
            )
        } else {
            (Lc3State { out: s.out + prompt, prompted: true, ..s }, Status::NeedKey)
        }
    } else if vector == TRAP_PUTSP {
        (Lc3State { out: s.out + putsp_text(s.mem, s.reg[0] as int), ..s }, Status::Running)
    } else if vector == TRAP_HALT {
        (s, Status::Halted)
    } else {
        (s, Status::IllegalTrap(vector))
    }
}

/// Running the decoded instruction `i` on `s`, whose PC has already been
/// incremented past it.
pub open spec fn execute_spec(s: Lc3State, i: Instruction) -> (Lc3State, Status) {
    match i {
        Instruction::Add { dr, sr1, src } => (
            set_reg(s, dr, wrap_add(s.reg[sr1 as int], operand_value(s, src))),
            Status::Running,
        ),
        Instruction::And { dr, sr1, src } => (
            set_reg(s, dr, s.reg[sr1 as int] & operand_value(s, src)),
            Status::Running,
        ),
        Instruction::Not { dr, sr } => (set_reg(s, dr, !s.reg[sr as int]), Status::Running),
        Instruction::Ld { dr, addr } => load_spec(s, dr, addr),
        Instruction::Ldr { dr, base, offset } => load_spec(
            s,
            dr,
            wrap_add(s.reg[base as int], offset),
        ),
        Instruction::Ldi { dr, addr } => match read_spec(s, addr) {
            Some((p, t)) => match read_spec(t, p) {
                Some((v, u)) => (set_reg(u, dr, v), Status::Running),
                None => (s, Status::NeedKey),
            },
            None => (s, Status::NeedKey),
        },
        Instruction::Lea { dr, addr } => (set_reg(s, dr, addr), Status::Running),
        Instruction::St { sr, addr } => store_spec(s, sr, addr),
        Instruction::Str { sr, base, offset } => store_spec(
            s,
            sr,
            wrap_add(s.reg[base as int], offset),
        ),
        Instruction::Sti { sr, addr } => match read_spec(s, addr) {
            Some((p, t)) => store_spec(t, sr, p),
            None => (s, Status::NeedKey),
        },
        Instruction::Br { nzp, target } => (
            if nzp & s.cc != 0 {
                Lc3State { pc: target, ..s }
            } else {
                s
            },
            Status::Running,
        ),
        Instruction::Jmp { base } => (Lc3State { pc: s.reg[base as int], ..s }, Status::Running),
        Instruction::Jsr { target } => (
            Lc3State { pc: target, reg: s.reg.update(7, s.pc), ..s },
            Status::Running,
        ),
        Instruction::Jsrr { base } => {
            let reg = s.reg.update(7, s.pc);
            (Lc3State { pc: reg[base as int], reg, ..s }, Status::Running)
        },
        Instruction::Trap { vector } => trap_spec(s, vector),
        Instruction::Illegal { opcode } => (s, Status::IllegalOpcode(opcode)),
    }
}

/// One step: fetch the word at PC, increment PC, run the instruction. An
/// instruction that waits for a key leaves PC on itself.
pub open spec fn step_spec(s: Lc3State) -> (Lc3State, Status) {
    let next = wrap_add(s.pc, 1);
    let (t, st) = execute_spec(
        Lc3State { pc: next, ..s },
        decode_spec(s.mem[s.pc as int], next),
    );
    if st == Status::NeedKey {
        (Lc3State { pc: s.pc, ..t }, st)
    } else {
        (t, st)
    }
}

/// Up to `n` steps, stopping after the first that does not end `Running`.
pub open spec fn run_spec(s: Lc3State, n: nat) -> (Lc3State, Status)
    decreases n,
{
    if n == 0 {
        (s, Status::Running)
    } else {
        let (t, st) = step_spec(s);
        if st == Status::Running {
            run_spec(t, (n - 1) as nat)
        } else {
            (t, st)
        }
    }
}

/// The memory a program starts with: `code` from `origin` on, DSR and MCR
/// with bit 15 set, zero elsewhere.
pub open spec fn initial_memory(code: Seq<u16>, origin: u16) -> Seq<u16> {
    Seq::new(
        MEMORY_WORDS as nat,
        |i: int|
            if i == DSR || i == MCR {
                0x8000u16
            } else if origin <= i < origin + code.len() {
                code[i - origin]
            } else {
                0u16
            },
    )
}

/// The loaded machine before its first instruction.
pub open spec fn initial_state(code: Seq<u16>, origin: u16, keys: Seq<char>) -> Lc3State {
    Lc3State {
        pc: origin,
        reg: Seq::new(8, |i: int| 0u16),
        cc: 0,
        mem: initial_memory(code, origin),
        keys,
        out: Seq::empty(),
        prompted: false,
    }
}

/// The emulated LC-3 machine.
pub struct LC3 {
    pc: u16,
    reg: Vec<u16>,
    regcc: u16,
    key_queue: KeyEventQueue,
    mem: Vec<u16>,
    out: Vec<char>,
    prompted: bool,
}

impl View for LC3 {
    type V = Lc3State;

    closed spec fn view(&self) -> Lc3State {
        Lc3State {
            pc: self.pc,
            reg: self.reg@,
            cc: self.regcc,
            mem: self.mem@,
            keys: self.key_queue@,
            out: self.out@,
            prompted: self.prompted,
        }
    }
}

fn key_to_word(c: char) -> (r: u16)
    ensures
        r == key_word(c),
{
    (c as u32 % 128) as u16
}

fn key_to_byte(c: char) -> (r: u16)
    ensures
        r == key_byte(c),
{
    (c as u32 % 256) as u16
}

/// Emits the string at `start`, one character per word, as PUTS does.
fn emit_words(mem: &Vec<u16>, start: usize, out: &mut Vec<char>)
    requires
        mem@.len() == MEMORY_WORDS,
        start < MEMORY_WORDS,
    ensures
        final(out)@ == old(out)@ + puts_text(mem@, start as int),
{
    let mut a: usize = start;
    while a < MEMORY_WORDS && mem[a] != 0
        invariant
            mem@.len() == MEMORY_WORDS,
            start <= a <= MEMORY_WORDS,
            out@ + puts_text(mem@, a as int) == old(out)@ + puts_text(mem@, start as int),
        decreases MEMORY_WORDS - a,
    {
        let c = to_char(mem[a]);
        let ghost before = out@;
        let ghost rest = puts_text(mem@, a + 1);
        assert(puts_text(mem@, a as int) == seq![c] + rest);
        out.push(c);
        assert(before + (seq![c] + rest) =~= out@ + rest);
        a = a + 1;
    }
    assert(puts_text(mem@, a as int) =~= Seq::<char>::empty());
    assert(out@ + Seq::<char>::empty() =~= out@);
}

/// Emits the packed string at `start`, two characters per word, as PUTSP
/// does.
fn emit_packed(mem: &Vec<u16>, start: usize, out: &mut Vec<char>)
    requires
        mem@.len() == MEMORY_WORDS,
        start < MEMORY_WORDS,
    ensures
        final(out)@ == old(out)@ + putsp_text(mem@, start as int),
{
    let mut a: usize = start;
    while a < MEMORY_WORDS
        invariant_except_break
            out@ + putsp_text(mem@, a as int) == old(out)@ + putsp_text(mem@, start as int),
        invariant
            mem@.len() == MEMORY_WORDS,
            start <= a <= MEMORY_WORDS,
        ensures
            out@ == old(out)@ + putsp_text(mem@, start as int),
        decreases MEMORY_WORDS - a,
    {
        let w = mem[a];
        let lo = w % 0x100;
        let hi = w / 0x100;
        let ghost before = out@;
        if lo == 0 {
            assert(putsp_text(mem@, a as int) =~= Seq::<char>::empty());
            assert(out@ + Seq::<char>::empty() =~= out@);
            break;
        }
        out.push(to_char(lo));
        if hi == 0 {
            assert(putsp_text(mem@, a as int) == seq![char_of(lo)]);
            assert(before + seq![char_of(lo)] =~= out@);
            break;
        }
        out.push(to_char(hi));
        let ghost rest = putsp_text(mem@, a + 1);
        assert(putsp_text(mem@, a as int) == seq![char_of(lo), char_of(hi)] + rest);
        assert(before + (seq![char_of(lo), char_of(hi)] + rest) =~= out@ + rest);
        a = a + 1;
    }
}

impl LC3 {
    /// Eight registers and a full address space; every machine that `new`
    /// makes has it, and every method keeps it.
    pub open spec fn wf(&self) -> bool {
        well_formed(self@)
    }

    /// A machine with `code` loaded at `pc`, about to run from `pc`.
    pub fn new(code: &[u16], pc: u16, key_queue: KeyEventQueue) -> (m: Self)
        requires
            pc + code@.len() <= MEMORY_WORDS,
        ensures
            m@ == initial_state(code@, pc, key_queue@),
            m.wf(),
    {
        let mut mem: Vec<u16> = vec![0u16; MEMORY_WORDS];
        let mut i: usize = 0;
        while i < code.len()
            invariant
                pc + code@.len() <= MEMORY_WORDS,
                i <= code@.len(),
                mem@.len() == MEMORY_WORDS,
                forall|k: int|
                    0 <= k < MEMORY_WORDS ==> #[trigger] mem@[k] == (if pc <= k < pc + i {
                        code@[k - pc]
                    } else {
                        0u16
                    }),
            decreases code@.len() - i,
        {
            mem.set(pc as usize + i, code[i]);
            i = i + 1;
        }
        mem.set(DSR as usize, 0x8000);
        mem.set(MCR as usize, 0x8000);
        let m = LC3 {
            pc,
            reg: vec![0u16; 8],
            regcc: 0,
            key_queue,
            mem,
            out: Vec::new(),
            prompted: false,
        };
        assert(m@.mem =~= initial_memory(code@, pc));
        assert(m@.reg =~= Seq::new(8, |i: int| 0u16));
        m
    }

    /// Reads address `adr` as a load does, with the device registers'
    /// effects. `None`, with nothing changed, when KBDR is read and no key is
    /// buffered.
    pub fn rmem(&mut self, adr: u16) -> (r: Option<u16>)
        requires
            old(self).wf(),
        ensures
            final(self).wf(),
            match read_spec(old(self)@, adr) {
                Some((v, t)) => r == Some(v) && final(self)@ == t,
                None => r is None && final(self)@ == old(self)@,
            },
    {
        if adr == KBSR {
            if self.key_queue.has_buffered() {
                Some(0x8000)
            } else {
                Some(0)
            }
        } else if adr == KBDR {
            match self.key_queue.take_buffered() {
                Some(c) => Some(key_to_word(c)),
                None => None,
            }
        } else {
            Some(self.mem[adr as usize])
        }
    }

    /// Writes `v` at address `adr` as a store does, with the device
    /// registers' effects. Returns whether the write halts the machine.
    pub fn wmem(&mut self, adr: u16, v: u16) -> (halt: bool)
        requires
            old(self).wf(),
        ensures
            final(self).wf(),
            (final(self)@, halt) == write_spec(old(self)@, adr, v),
    {
        if adr == DSR {
            return false;
        }
        self.mem.set(adr as usize, v);
        if adr == DDR {
            self.out.push(to_char(v));
            false
        } else if adr == MCR {
            v < 0x8000
        } else {
            false
        }
    }

    /// The second operand of an ADD or AND.
    fn add_and_arg(&self, src: Operand) -> (v: u16)
        requires
            self.wf(),
            src matches Operand::Register(r) ==> r < 8,
        ensures
            v == operand_value(self@, src),
    {
        match src {
            Operand::Register(r) => self.reg[r],
            Operand::Immediate(v) => v,
        }
    }

    /// Loads register `dr` from address `adr`.
    fn load(&mut self, dr: usize, adr: u16) -> (st: Status)
        requires
            old(self).wf(),
            dr < 8,
        ensures
            final(self).wf(),
            (final(self)@, st) == load_spec(old(self)@, dr, adr),
    {
        match self.rmem(adr) {
            Some(v) => {
                self.cset(dr, v);
                Status::Running
            },
            None => Status::NeedKey,
        }
    }

    /// Stores register `sr` at address `adr`.
    fn store(&mut self, sr: usize, adr: u16) -> (st: Status)
        requires
            old(self).wf(),
            sr < 8,
        ensures
            final(self).wf(),
            (final(self)@, st) == store_spec(old(self)@, sr, adr),
    {
        let v = self.reg[sr];
        if self.wmem(adr, v) {
            Status::Halted
        } else {
            Status::Running
        }
    }

    /// Runs the trap service `vector`.
    fn trap(&mut self, vector: u16) -> (st: Status)
        requires
            old(self).wf(),
        ensures
            final(self).wf(),
            (final(self)@, st) == trap_spec(old(self)@, vector),
    {
        if vector == TRAP_GETC {
            match self.rmem(KBDR) {
                Some(v) => {
                    self.reg.set(0, v);
                    Status::Running
                },
                None => Status::NeedKey,
            }
        } else if vector == TRAP_OUT {
            let v = self.reg[0];
            self.wmem(DDR, v);
            Status::Running
        } else if vector == TRAP_PUTS {
            let a = self.reg[0];
            emit_words(&self.mem, a as usize, &mut self.out);
            Status::Running
        } else if vector == TRAP_IN {
            let ghost out0 = self.out@;
            if !self.prompted {
                self.out.push('>');
                self.out.push(' ');
            }
            match self.key_queue.take_buffered() {
                Some(c) => {
                    let b = key_to_byte(c);
                    self.out.push(to_char(b));
                    self.reg.set(0, b);
                    self.prompted = false;
                    proof {
                        let prompt = if old(self).prompted {
                            Seq::<char>::empty()
                        } else {
                            seq!['>', ' ']
                        };
                        assert(self.out@ =~= out0 + prompt + seq![char_of(b)]);
                    }
                    Status::Running
                },
                None => {
                    self.prompted = true;
                    proof {
                        let prompt = if old(self).prompted {
                            Seq::<char>::empty()
                        } else {
                            seq!['>', ' ']
                        };
                        assert(self.out@ =~= out0 + prompt);
                    }
                    Status::NeedKey
                },
            }
        } else if vector == TRAP_PUTSP {
            let a = self.reg[0];
            emit_packed(&self.mem, a as usize, &mut self.out);
            Status::Running
        } else if vector == TRAP_HALT {
            Status::Halted
        } else {
            Status::IllegalTrap(vector)
        }
    }

    /// Runs the decoded instruction `i`; PC has already moved past it.
    fn perform(&mut self, i: Instruction) -> (st: Status)
        requires
            old(self).wf(),
            registers_valid(i),
        ensures
            final(self).wf(),
            (final(self)@, st) == execute_spec(old(self)@, i),
    {
        match i {
            Instruction::Add { dr, sr1, src } => {
                let v = add_wrapping(self.reg[sr1], self.add_and_arg(src));
                self.cset(dr, v);
                Status::Running
            },
            Instruction::And { dr, sr1, src } => {
                let v = self.reg[sr1] & self.add_and_arg(src);
                self.cset(dr, v);
                Status::Running
            },
            Instruction::Not { dr, sr } => {
                let v = !self.reg[sr];
                self.cset(dr, v);
                Status::Running
            },
            Instruction::Ld { dr, addr } => self.load(dr, addr),
            Instruction::Ldr { dr, base, offset } => {
                let adr = add_wrapping(self.reg[base], offset);
                self.load(dr, adr)
            },
            Instruction::Ldi { dr, addr } => {
                match self.rmem(addr) {
                    Some(p) => {
                        proof {
                            if addr == KBDR {
                                assert(p < 0x80);
                            }
                        }
                        self.load(dr, p)
                    },
                    None => Status::NeedKey,
                }
            },
            Instruction::Lea { dr, addr } => {
                self.cset(dr, addr);
                Status::Running
            },
            Instruction::St { sr, addr } => self.store(sr, addr),
            Instruction::Str { sr, base, offset } => {
                let adr = add_wrapping(self.reg[base], offset);
                self.store(sr, adr)
            },
            Instruction::Sti { sr, addr } => {
                match self.rmem(addr) {
                    Some(p) => self.store(sr, p),
                    None => Status::NeedKey,
                }
            },
            Instruction::Br { nzp, target } => {
                if nzp & self.regcc != 0 {
                    self.pc = target;
                }
                Status::Running
            },
            Instruction::Jmp { base } => {
                self.pc = self.reg[base];
                Status::Running
            },
            Instruction::Jsr { target } => {
                self.reg.set(7, self.pc);
                self.pc = target;
                Status::Running
            },
            Instruction::Jsrr { base } => {
                self.reg.set(7, self.pc);
                self.pc = self.reg[base];
                Status::Running
            },
            Instruction::Trap { vector } => self.trap(vector),
            Instruction::Illegal { opcode } => Status::IllegalOpcode(opcode),
        }
    }

    /// Runs one instruction: fetch the word at PC, increment PC, decode and
    /// execute it. An instruction that needs a key while none is buffered
    /// does not run (`NeedKey`), and PC stays on it.
    pub fn step(&mut self) -> (st: Status)
        requires
            old(self).wf(),
        ensures
            final(self).wf(),
            (final(self)@, st) == step_spec(old(self)@),
    {
        let pc0 = self.pc;
        let w = self.mem[pc0 as usize];
        let next = add_wrapping(pc0, 1);
        self.pc = next;
        let st = self.perform(decode(w, next));
        match st {
            Status::NeedKey => {
                self.pc = pc0;
            },
            _ => {},
        }
        st
    }

    /// Runs up to `max_steps` instructions, stopping after the first one
    /// that does not end `Running`, and returns how the last one ended.
    pub fn execute(&mut self, max_steps: u64) -> (st: Status)
        requires
            old(self).wf(),
        ensures
            final(self).wf(),
            (final(self)@, st) == run_spec(old(self)@, max_steps as nat),
    {
        let mut n: u64 = 0;
        let mut st = Status::Running;
        while n < max_steps
            invariant_except_break
                run_spec(old(self)@, max_steps as nat) == run_spec(self@, (max_steps - n) as nat),
                st == Status::Running,
            invariant
                self.wf(),
                n <= max_steps,
            ensures
                (self@, st) == run_spec(old(self)@, max_steps as nat),
            decreases max_steps - n,
        {
            let r = self.step();
            match r {
                Status::Running => {},
                _ => {
                    st = r;
                    break;
                },
            }
            n = n + 1;
        }
        st
    }

    /// Moves a key that the producer has sent meanwhile, if any, into the
    /// machine's queue, and returns whether a key is waiting. Never blocks.
    pub fn poll_keyboard(&mut self) -> (r: bool)
        requires
            old(self).wf(),
        ensures
            final(self).wf(),
            final(self)@ == (Lc3State { keys: final(self)@.keys, ..old(self)@ }),
            old(self)@.keys.len() > 0 ==> final(self)@.keys == old(self)@.keys,
            old(self)@.keys.len() == 0 ==> final(self)@.keys.len() <= 1,
            r == (final(self)@.keys.len() > 0),
    {
        !self.key_queue.is_empty()
    }

    /// Waits until a key is waiting in the machine's queue. `false`, with
    /// nothing changed, when the producer is gone and none will come.
    pub fn wait_for_key(&mut self) -> (r: bool)
        requires
            old(self).wf(),
        ensures
            final(self).wf(),
            final(self)@ == (Lc3State { keys: final(self)@.keys, ..old(self)@ }),
            old(self)@.keys.len() > 0 ==> r && final(self)@.keys == old(self)@.keys,
            old(self)@.keys.len() == 0 && r ==> final(self)@.keys.len() == 1,
            !r ==> final(self)@ == old(self)@,
    {
        self.key_queue.wait_key()
    }

    /// Hands over the characters emitted so far, oldest first, and forgets
    /// them.
    pub fn take_output(&mut self) -> (r: Vec<char>)
        requires
            old(self).wf(),
        ensures
            final(self).wf(),
            r@ == old(self)@.out,
            final(self)@ == (Lc3State { out: Seq::empty(), ..old(self)@ }),
    {
        let mut r: Vec<char> = Vec::new();
        std::mem::swap(&mut r, &mut self.out);
        r
    }

    /// The program counter.
    pub fn pc(&self) -> (r: u16)
        ensures
            r == self@.pc,
    {
        self.pc
    }

    /// Register `r`.
    pub fn register(&self, r: usize) -> (v: u16)
        requires
            self.wf(),
            r < 8,
        ensures
            v == self@.reg[r as int],
    {
        self.reg[r]
    }

    /// The condition-code word: `FLAG_N`, `FLAG_Z` or `FLAG_P`, or zero before
    /// the first register write.
    pub fn cc(&self) -> (r: u16)
        ensures
            r == self@.cc,
    {
        self.regcc
    }

    /// The word stored at `adr`, without any device register's effect.
    pub fn memory(&self, adr: u16) -> (v: u16)
        requires
            self.wf(),
        ensures
            v == self@.mem[adr as int],
    {
        self.mem[adr as usize]
    }

    /// Whether a key is buffered in the machine's queue.
    pub fn has_key(&self) -> (r: bool)
        ensures
            r == (self@.keys.len() > 0),
    {
        self.key_queue.has_buffered()
    }

    /// Writes `v` into register `r` and sets the condition code from it.
    fn cset(&mut self, r: usize, v: u16)
        requires
            old(self).wf(),
            r < 8,
        ensures
            final(self).wf(),
            final(self)@ == set_reg(old(self)@, r, v),
    {
        self.regcc = if v >= 0x8000 {
            FLAG_N
        } else if v == 0 {
            FLAG_Z
        } else {
            FLAG_P
        };
        self.reg.set(r, v);
    }
}

} // verus!
