use lc3::disassembly::{disassemble, origin_line};
use lc3::instruction::{decode, Instruction, Operand};
use lc3::key_event_queue::KeyEventQueue;
use lc3::lc3::{Status, DDR, DSR, FLAG_N, FLAG_P, FLAG_Z, KBDR, KBSR, LC3, MCR};
use lc3::lc3_image::parse_image;
use lc3::word::{sext, to_char};
use std::sync::mpsc::{channel, Sender};

fn queue() -> (KeyEventQueue, Sender<char>) {
    let (tx, rx) = channel();
    (KeyEventQueue::new(rx), tx)
}

fn machine(code: &[u16], origin: u16) -> LC3 {
    let (q, _tx) = queue();
    LC3::new(code, origin, q)
}

fn output(m: &mut LC3) -> String {
    m.take_output().into_iter().collect()
}

#[test]
fn sext_boundaries() {
    assert_eq!(sext(0x1F, 5), 0xFFFF);
    assert_eq!(sext(0x10, 5), 0xFFF0);
    assert_eq!(sext(0x0F, 5), 0x000F);
    assert_eq!(sext(0xFFE0, 5), 0x0000);
    assert_eq!(sext(0x01FF, 9), 0xFFFF);
    assert_eq!(sext(0x0100, 9), 0xFF00);
    assert_eq!(sext(0x0400, 11), 0xFC00);
    assert_eq!(sext(0x8000, 16), 0x8000);
}

#[test]
fn to_char_masks_high_bit() {
    assert_eq!(to_char(0x41), 'A');
    assert_eq!(to_char(0xC1), 'A');
    assert_eq!(to_char(0x1F48), 'H');
}

#[test]
fn arithmetic_and_condition_codes() {
    let mut m = machine(&[0x1261, 0x147F, 0xF025], 0x3000);
    assert_eq!(m.step(), Status::Running);
    assert_eq!(m.register(1), 1);
    assert_eq!(m.cc(), FLAG_P);
    assert_eq!(m.step(), Status::Running);
    assert_eq!(m.register(2), 0);
    assert_eq!(m.cc(), FLAG_Z);
    assert_eq!(m.step(), Status::Halted);
    assert_eq!(m.register(1), 1);
    assert_eq!(m.register(2), 0);
    assert_eq!(m.cc(), FLAG_Z);
}

#[test]
fn lea_then_puts() {
    // LEA R0, #2 points past HALT at the string
    let mut m = machine(&[0xE002, 0xF022, 0xF025, 0x48, 0x69, 0x00], 0x3000);
    assert_eq!(m.execute(100), Status::Halted);
    assert_eq!(output(&mut m), "Hi");
    assert_eq!(m.register(0), 0x3003);
}

#[test]
fn puts_reads_from_the_lea_address() {
    // LEA R0, #1 at 0x3000 resolves to 0x3002, the HALT word itself
    let mut m = machine(&[0xE001, 0xF022, 0xF025, 0x48, 0x69, 0x00], 0x3000);
    assert_eq!(m.execute(100), Status::Halted);
    assert_eq!(output(&mut m), "%Hi");
}

#[test]
fn subroutine_link() {
    let mut m = machine(&[0x4801, 0xF025, 0xC1C0], 0x3000);
    assert_eq!(m.step(), Status::Running);
    assert_eq!(m.register(7), 0x3001);
    assert_eq!(m.pc(), 0x3002);
    assert_eq!(m.execute(100), Status::Halted);
    assert_eq!(m.register(7), 0x3001);
}

#[test]
fn jsrr_links_and_jumps() {
    // LEA R2, #2 ; JSRR R2 ; HALT ; HALT
    let mut m = machine(&[0xE402, 0x4080, 0xF025, 0xF025], 0x3000);
    assert_eq!(m.execute(2), Status::Running);
    assert_eq!(m.register(7), 0x3002);
    assert_eq!(m.pc(), 0x3003);
}

#[test]
fn ldi_through_keyboard_data() {
    let mut code = vec![0u16; 0x101];
    code[0] = 0xA0FF; // LDI R0, #255: the pointer sits at 0x4000
    code[1] = 0xF025;
    code[0x100] = KBDR;
    let (mut q, _tx) = queue();
    q.push('A');
    let mut m = LC3::new(&code, 0x3F00, q);
    assert_eq!(m.memory(0x4000), 0xFE02);
    assert_eq!(m.step(), Status::Running);
    assert_eq!(m.register(0), 0x41);
    assert!(!m.has_key());
    assert_eq!(m.cc(), FLAG_P);
}

#[test]
fn ldi_waits_for_a_key() {
    let code = [0xA001, 0xF025, KBDR];
    let (q, tx) = queue();
    let mut m = LC3::new(&code, 0x3000, q);
    assert_eq!(m.step(), Status::NeedKey);
    assert_eq!(m.pc(), 0x3000);
    tx.send('z').unwrap();
    assert!(m.wait_for_key());
    assert_eq!(m.step(), Status::Running);
    assert_eq!(m.register(0), 'z' as u16);
    assert_eq!(m.step(), Status::Halted);
}

#[test]
fn store_clearing_mcr_halts() {
    let mut m = machine(&[0x5020, 0xB001, 0x1021, MCR], 0x3000);
    assert_eq!(m.execute(100), Status::Halted);
    assert_eq!(m.pc(), 0x3002);
    assert_eq!(m.memory(MCR), 0);
    assert_eq!(m.register(0), 0);
}

#[test]
fn add_immediate_zero_of_zero_sets_z() {
    let mut m = machine(&[0x1020], 0x3000);
    assert_eq!(m.step(), Status::Running);
    assert_eq!(m.register(0), 0);
    assert_eq!(m.cc(), FLAG_Z);
}

#[test]
fn not_of_zero_sets_n() {
    let mut m = machine(&[0x903F], 0x3000);
    assert_eq!(m.step(), Status::Running);
    assert_eq!(m.register(0), 0xFFFF);
    assert_eq!(m.cc(), FLAG_N);
}

#[test]
fn branch_masks() {
    // ADD R0,R0,#1 (P) ; BR (mask 0) #1 ; BRnzp #1 ; HALT ; HALT
    let mut m = machine(&[0x1021, 0x0001, 0x0E01, 0xF025, 0xF025], 0x3000);
    assert_eq!(m.step(), Status::Running);
    assert_eq!(m.step(), Status::Running);
    assert_eq!(m.pc(), 0x3002);
    assert_eq!(m.step(), Status::Running);
    assert_eq!(m.pc(), 0x3004);
}

#[test]
fn branch_before_any_write_does_not_branch() {
    let mut m = machine(&[0x0E01, 0xF025], 0x3000);
    assert_eq!(m.step(), Status::Running);
    assert_eq!(m.pc(), 0x3001);
}

#[test]
fn pc_relative_wraps() {
    // LEA R0, #-2 at 0x0000 reaches 0xFFFF
    let mut m = machine(&[0xE1FE], 0x0000);
    assert_eq!(m.step(), Status::Running);
    assert_eq!(m.register(0), 0xFFFF);
    assert_eq!(m.cc(), FLAG_N);
}

#[test]
fn ld_and_st_round_trip() {
    // LD R1, #3 ; ST R1, #3 ; LDR R2, R0... : store then load the same cell
    let mut m = machine(&[0x2203, 0x3203, 0x2402, 0xF025, 0x1234, 0x0000, 0x0000], 0x3000);
    assert_eq!(m.execute(100), Status::Halted);
    assert_eq!(m.register(1), 0x1234);
    assert_eq!(m.memory(0x3005), 0x1234);
    assert_eq!(m.register(2), 0x1234);
}

#[test]
fn memory_round_trip_at_plain_address() {
    let mut m = machine(&[], 0x3000);
    assert!(!m.wmem(0x4000, 0xBEEF));
    assert_eq!(m.rmem(0x4000), Some(0xBEEF));
}

#[test]
fn keyboard_status_register() {
    let mut idle = machine(&[], 0x3000);
    assert_eq!(idle.rmem(KBSR), Some(0x0000));
    assert_eq!(idle.rmem(KBDR), None);
    let (mut q, _tx) = queue();
    q.push('x');
    let mut m = LC3::new(&[], 0x3000, q);
    assert_eq!(m.rmem(KBSR), Some(0x8000));
    assert!(m.has_key());
    assert_eq!(m.rmem(KBDR), Some('x' as u16));
    assert_eq!(m.rmem(KBSR), Some(0x0000));
}

#[test]
fn display_status_ignores_writes() {
    let mut m = machine(&[], 0x3000);
    assert_eq!(m.rmem(DSR), Some(0x8000));
    assert!(!m.wmem(DSR, 0x0000));
    assert_eq!(m.rmem(DSR), Some(0x8000));
    assert_eq!(m.memory(DSR), 0x8000);
}

#[test]
fn display_data_emits_and_stores() {
    let mut m = machine(&[], 0x3000);
    assert!(!m.wmem(DDR, 0x00C8));
    assert_eq!(output(&mut m), "H");
    assert_eq!(m.memory(DDR), 0x00C8);
}

#[test]
fn mcr_write_with_bit_15_keeps_running() {
    let mut m = machine(&[], 0x3000);
    assert!(!m.wmem(MCR, 0x8001));
    assert!(m.wmem(MCR, 0x7FFF));
}

#[test]
fn out_trap_emits_r0() {
    // LD R0, #2 ; OUT ; HALT ; 'k'
    let mut m = machine(&[0x2002, 0xF021, 0xF025, 0x006B], 0x3000);
    assert_eq!(m.execute(100), Status::Halted);
    assert_eq!(output(&mut m), "k");
}

#[test]
fn putsp_emits_low_then_high_byte() {
    // LEA R0, #2 ; PUTSP ; HALT ; "iH" "!" 
    let mut m = machine(&[0xE002, 0xF024, 0xF025, 0x6948, 0x0021, 0x4100], 0x3000);
    assert_eq!(m.execute(100), Status::Halted);
    assert_eq!(output(&mut m), "Hi!");
}

#[test]
fn getc_reads_without_echo() {
    let (mut q, _tx) = queue();
    q.push('q');
    let mut m = LC3::new(&[0xF020, 0xF025], 0x3000, q);
    assert_eq!(m.execute(100), Status::Halted);
    assert_eq!(m.register(0), 'q' as u16);
    assert_eq!(output(&mut m), "");
}

#[test]
fn in_prompts_once_then_echoes() {
    let (q, tx) = queue();
    let mut m = LC3::new(&[0xF023, 0xF025], 0x3000, q);
    assert_eq!(m.step(), Status::NeedKey);
    assert_eq!(output(&mut m), "> ");
    assert_eq!(m.step(), Status::NeedKey);
    assert_eq!(output(&mut m), "");
    tx.send('y').unwrap();
    assert!(m.poll_keyboard());
    assert_eq!(m.step(), Status::Running);
    assert_eq!(output(&mut m), "y");
    assert_eq!(m.register(0), 'y' as u16);
    assert_eq!(m.step(), Status::Halted);
}

#[test]
fn in_with_key_ready_prompts_and_echoes() {
    let (mut q, _tx) = queue();
    q.push('5');
    let mut m = LC3::new(&[0xF023, 0xF025], 0x3000, q);
    assert_eq!(m.execute(10), Status::Halted);
    assert_eq!(output(&mut m), "> 5");
}

#[test]
fn illegal_opcode_and_trap() {
    let mut m = machine(&[0xD000], 0x3000);
    assert_eq!(m.step(), Status::IllegalOpcode(0xD));
    let mut m = machine(&[0x8000], 0x3000);
    assert_eq!(m.step(), Status::IllegalOpcode(0x8));
    let mut m = machine(&[0xF0FF], 0x3000);
    assert_eq!(m.step(), Status::IllegalTrap(0xFF));
}

#[test]
fn execute_stops_after_budget() {
    // BRnzp #-1 loops forever once a flag is set
    let mut m = machine(&[0x1021, 0x0FFF], 0x3000);
    assert_eq!(m.execute(50), Status::Running);
    assert_eq!(m.pc(), 0x3001);
}

#[test]
fn decode_add_immediate() {
    assert_eq!(
        decode(0x1261, 0x3001),
        Instruction::Add { dr: 1, sr1: 1, src: Operand::Immediate(1) }
    );
    assert_eq!(
        decode(0x5042, 0x3001),
        Instruction::And { dr: 0, sr1: 1, src: Operand::Register(2) }
    );
    assert_eq!(decode(0x4801, 0x3001), Instruction::Jsr { target: 0x3002 });
    assert_eq!(decode(0xC1C0, 0x3001), Instruction::Jmp { base: 7 });
    assert_eq!(decode(0x0E01, 0x3001), Instruction::Br { nzp: 0x0E00, target: 0x3002 });
}

#[test]
fn parse_image_splits_origin() {
    let img = vec![0x30, 0x00, 0x12, 0x61, 0xF0, 0x25, 0x07];
    let (program, origin) = parse_image(&img).unwrap();
    assert_eq!(origin, 0x3000);
    assert_eq!(program, vec![0x1261, 0xF025]);
    assert_eq!(parse_image(&vec![0x30]), None);
    assert_eq!(parse_image(&vec![0x30, 0x00]), Some((vec![], 0x3000)));
}

#[test]
fn key_queue_is_fifo() {
    let (mut q, tx) = queue();
    assert!(q.is_empty());
    tx.send('a').unwrap();
    tx.send('b').unwrap();
    assert!(!q.is_empty());
    q.push('c');
    assert_eq!(q.poll_key(), Some('a'));
    assert_eq!(q.pop_blocking(), Some('c'));
    assert_eq!(q.pop_blocking(), Some('b'));
    drop(tx);
    assert_eq!(q.poll_key(), None);
    assert_eq!(q.pop_blocking(), None);
    assert!(q.is_empty());
}

#[test]
fn listing_of_add_immediate() {
    let header: String = origin_line(0x3000).into_iter().collect();
    let line: String = disassemble(0x1261, 0x3000).into_iter().collect();
    assert_eq!(header, "origin 0x3000");
    assert_eq!(line, "0x3000: add $1 $1 1");
}

#[test]
fn listing_of_other_forms() {
    let text = |w: u16, a: u16| disassemble(w, a).into_iter().collect::<String>();
    assert_eq!(text(0x147F, 0x3001), "0x3001: add $2 $1 65535");
    assert_eq!(text(0x5042, 0x3000), "0x3000: and $0 $1 $2");
    assert_eq!(text(0x903F, 0x3000), "0x3000: not $0 $0");
    assert_eq!(text(0xE001, 0x3000), "0x3000: lea $0 0x3002");
    assert_eq!(text(0x2203, 0x3000), "0x3000: ld  $1 0x3004");
    assert_eq!(text(0x6283, 0x3000), "0x3000: ldr $1 $2 0x0003");
    assert_eq!(text(0x7283, 0x3000), "0x3000: str $1 $2 3");
    assert_eq!(text(0x0E01, 0x3000), "0x3000: brnzp 0x3002");
    assert_eq!(text(0x0401, 0x3000), "0x3000: brz 0x3002");
    assert_eq!(text(0x4801, 0x3000), "0x3000: jsr 0x3002");
    assert_eq!(text(0x4080, 0x3000), "0x3000: jsr $2");
    assert_eq!(text(0xC1C0, 0x3000), "0x3000: jmp $7");
    assert_eq!(text(0xF025, 0x3000), "0x3000: halt");
    assert_eq!(text(0xF022, 0x3000), "0x3000: puts");
    assert_eq!(text(0xF0FF, 0x3000), "0x3000: illegal trap 255");
    assert_eq!(text(0xD000, 0x3000), "0x3000: illegal op 13");
    assert_eq!(text(0x3FFF, 0xABCD), "0xabcd: st  $7 0xabcd");
}
