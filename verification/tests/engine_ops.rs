//! Tests of single-instruction semantics: arithmetic, branches, addressing,
//! and the two error kinds.

use svc16::engine::{Engine, EngineError};
use svc16::expansions::NoExpansion;

fn engine_with(program: Vec<u16>) -> Engine<NoExpansion> {
    Engine::new(&program, None)
}

/// Writes one four-word instruction into the program image at `addr`.
fn put(p: &mut Vec<u16>, addr: usize, instr: [u16; 4]) {
    for (k, w) in instr.iter().enumerate() {
        p[addr + k] = *w;
    }
}

#[test]
fn add_wraps_around() {
    let mut p = vec![0u16; 32];
    put(&mut p, 0, [3, 20, 21, 22]);
    p[20] = 65535;
    p[21] = 1;
    let mut e = engine_with(p);
    e.step().unwrap();
    assert_eq!(e.get(22), 0);
}

#[test]
fn add_plain_sum() {
    let mut p = vec![0u16; 32];
    put(&mut p, 0, [3, 20, 21, 22]);
    p[20] = 1200;
    p[21] = 34;
    let mut e = engine_with(p);
    e.step().unwrap();
    assert_eq!(e.get(22), 1234);
}

#[test]
fn sub_wraps_below_zero() {
    let mut p = vec![0u16; 32];
    put(&mut p, 0, [4, 20, 21, 22]);
    p[20] = 0;
    p[21] = 1;
    let mut e = engine_with(p);
    e.step().unwrap();
    assert_eq!(e.get(22), 65535);
}

#[test]
fn mul_wraps_modulo() {
    let mut p = vec![0u16; 32];
    put(&mut p, 0, [5, 20, 21, 22]);
    p[20] = 300;
    p[21] = 300;
    let mut e = engine_with(p);
    e.step().unwrap();
    assert_eq!(e.get(22), (300u32 * 300u32 % 65536) as u16);
}

#[test]
fn band_stores_bitwise_and() {
    let mut p = vec![0u16; 32];
    put(&mut p, 0, [13, 20, 21, 22]);
    p[20] = 0xf0f0;
    p[21] = 0x0ff0;
    let mut e = engine_with(p);
    e.step().unwrap();
    assert_eq!(e.get(22), 0x00f0);
}

#[test]
fn xor_stores_bitwise_xor() {
    let mut p = vec![0u16; 32];
    put(&mut p, 0, [14, 20, 21, 22]);
    p[20] = 0xff00;
    p[21] = 0x0ff0;
    let mut e = engine_with(p);
    e.step().unwrap();
    assert_eq!(e.get(22), 0xf0f0);
}

#[test]
fn div_stores_truncating_quotient() {
    let mut p = vec![0u16; 32];
    put(&mut p, 0, [6, 20, 21, 22]);
    p[20] = 17;
    p[21] = 5;
    let mut e = engine_with(p);
    e.step().unwrap();
    assert_eq!(e.get(22), 3);
}

#[test]
fn division_trap_reports_numerator_and_freezes_state() {
    // SET 0 10 0; SET 1 0 0; DIV 0 1 100 - the third step faults.
    let mut p = vec![0u16; 112];
    put(&mut p, 0, [0, 0, 10, 0]);
    put(&mut p, 4, [0, 1, 0, 0]);
    put(&mut p, 8, [6, 0, 1, 100]);
    let mut e = engine_with(p);
    e.step().unwrap();
    e.step().unwrap();
    let r = e.step();
    assert_eq!(r, Err(EngineError::ZeroDivision(10)));
    // The destination is untouched and the instruction pointer still points at
    // the faulting DIV.
    assert_eq!(e.get(100), 0);
    assert_eq!(e.read_instruction(), [6, 0, 1, 100]);
    // A repeated step faults identically.
    assert_eq!(e.step(), Err(EngineError::ZeroDivision(10)));
}

#[test]
fn invalid_opcode_reports_and_freezes_state() {
    let mut p = vec![0u16; 8];
    put(&mut p, 0, [16, 0, 0, 0]);
    let mut e = engine_with(p);
    assert_eq!(e.step(), Err(EngineError::InvalidInstruction(16)));
    assert_eq!(e.read_instruction(), [16, 0, 0, 0]);
}

#[test]
fn cmp_stores_one_when_less() {
    let mut p = vec![0u16; 32];
    put(&mut p, 0, [7, 20, 21, 22]);
    p[20] = 3;
    p[21] = 4;
    let mut e = engine_with(p);
    e.step().unwrap();
    assert_eq!(e.get(22), 1);
}

#[test]
fn cmp_stores_zero_when_not_less() {
    let mut p = vec![0u16; 32];
    put(&mut p, 0, [7, 20, 21, 22]);
    p[20] = 4;
    p[21] = 4;
    p[22] = 9;
    let mut e = engine_with(p);
    e.step().unwrap();
    assert_eq!(e.get(22), 0);
}

#[test]
fn set_stores_immediate() {
    let mut p = vec![0u16; 8];
    put(&mut p, 0, [0, 5, 72, 0]);
    let mut e = engine_with(p);
    e.step().unwrap();
    assert_eq!(e.get(5), 72);
}

#[test]
fn set_captures_pre_advance_ip() {
    // At IP 0: SET 100 0 1 stores 0; at IP 4 the same instruction stores 4.
    let mut p = vec![0u16; 112];
    put(&mut p, 0, [0, 100, 0, 1]);
    put(&mut p, 4, [0, 101, 0, 1]);
    p[100] = 7777;
    p[101] = 7777;
    let mut e = engine_with(p);
    e.step().unwrap();
    assert_eq!(e.get(100), 0);
    e.step().unwrap();
    assert_eq!(e.get(101), 4);
}

#[test]
fn goto_wraps_to_address_three() {
    // mem[50] holds 65535; GOTO 50 4 51 is taken (mem[51] == 0) and lands at
    // IP 3, where the overlapping words decode as SET 1 50 4 and capture IP.
    let mut p = vec![0u16; 64];
    put(&mut p, 0, [0, 50, 65535, 0]);
    put(&mut p, 4, [1, 50, 4, 51]);
    let mut e = engine_with(p);
    e.step().unwrap();
    e.step().unwrap();
    assert_eq!(e.read_instruction(), [0, 1, 50, 4]);
    e.step().unwrap();
    assert_eq!(e.get(1), 3);
}

#[test]
fn goto_not_taken_advances() {
    let mut p = vec![0u16; 32];
    put(&mut p, 0, [1, 20, 0, 21]);
    put(&mut p, 4, [0, 22, 9, 0]);
    p[21] = 1;
    let mut e = engine_with(p);
    e.step().unwrap();
    assert_eq!(e.read_instruction(), [0, 22, 9, 0]);
    e.step().unwrap();
    assert_eq!(e.get(22), 9);
}

#[test]
fn skip_backward_one_instruction() {
    // SKIP 1 2 200 at IP 4 moves the pointer back to 0.
    let mut p = vec![0u16; 224];
    put(&mut p, 0, [0, 12, 7, 0]);
    put(&mut p, 4, [2, 1, 2, 200]);
    let mut e = engine_with(p);
    e.step().unwrap();
    assert_eq!(e.read_instruction(), [2, 1, 2, 200]);
    e.step().unwrap();
    assert_eq!(e.read_instruction(), [0, 12, 7, 0]);
}

#[test]
fn skip_not_taken_advances() {
    let mut p = vec![0u16; 224];
    put(&mut p, 0, [2, 1, 2, 200]);
    put(&mut p, 4, [0, 12, 7, 0]);
    p[200] = 1;
    let mut e = engine_with(p);
    e.step().unwrap();
    assert_eq!(e.read_instruction(), [0, 12, 7, 0]);
}

#[test]
fn deref_reads_through_pointer_with_offset() {
    let mut p = vec![0u16; 48];
    put(&mut p, 0, [8, 20, 22, 5]);
    p[20] = 30;
    p[35] = 999;
    let mut e = engine_with(p);
    e.step().unwrap();
    assert_eq!(e.get(22), 999);
}

#[test]
fn ref_writes_through_pointer_with_offset() {
    let mut p = vec![0u16; 48];
    put(&mut p, 0, [9, 20, 21, 5]);
    p[20] = 30;
    p[21] = 777;
    let mut e = engine_with(p);
    e.step().unwrap();
    assert_eq!(e.get(35), 777);
}

#[test]
fn ref_target_address_wraps() {
    // Base 65535 plus offset 6 wraps to address 5.
    let mut p = vec![0u16; 48];
    put(&mut p, 0, [9, 20, 21, 6]);
    p[20] = 65535;
    p[21] = 4242;
    let mut e = engine_with(p);
    e.step().unwrap();
    assert_eq!(e.get(5), 4242);
}

#[test]
fn ref_then_deref_roundtrip() {
    let mut p = vec![0u16; 48];
    put(&mut p, 0, [9, 20, 21, 3]);
    put(&mut p, 4, [8, 20, 22, 3]);
    p[20] = 40;
    p[21] = 31415;
    let mut e = engine_with(p);
    e.step().unwrap();
    e.step().unwrap();
    assert_eq!(e.get(22), 31415);
}

#[test]
fn debug_emits_triple_without_writing() {
    let mut p = vec![0u16; 32];
    put(&mut p, 0, [10, 7, 20, 21]);
    p[20] = 111;
    p[21] = 222;
    let mut e = engine_with(p);
    let r = e.step();
    assert_eq!(r, Ok(Some((7, 111, 222))));
    assert_eq!(e.get(20), 111);
    assert_eq!(e.get(21), 222);
    assert_eq!(e.read_instruction(), [0, 0, 0, 0]);
}

#[test]
fn instruction_straddling_memory_end_wraps() {
    // Jump to IP 65535; the instruction is assembled from the last word and
    // the first three words of memory.
    let mut p = vec![0u16; 65536];
    put(&mut p, 0, [0, 10, 65535, 0]);
    put(&mut p, 4, [1, 10, 0, 11]);
    p[65535] = 3;
    let mut e = engine_with(p);
    e.step().unwrap();
    e.step().unwrap();
    // Fetched at 65535: opcode mem[65535]=3 (ADD) and, wrapping into the
    // start of memory, a1 = mem[0] = 0, a2 = mem[1] = 10, a3 = mem[2] = 65535.
    assert_eq!(e.read_instruction(), [3, 0, 10, 65535]);
    e.step().unwrap();
    // ADD stored mem[0] + mem[10] = 0 + 65535 at address 65535.
    assert_eq!(e.get(65535), 65535);
}

#[test]
fn program_prefix_loads_and_tail_stays_zero() {
    let p = vec![5u16, 6, 7];
    let e = engine_with(p);
    assert_eq!(e.get(0), 5);
    assert_eq!(e.get(1), 6);
    assert_eq!(e.get(2), 7);
    assert_eq!(e.get(3), 0);
    assert_eq!(e.get(65535), 0);
}

#[test]
fn long_program_is_truncated() {
    let mut p = vec![1u16; 70000];
    p[65535] = 4321;
    p[65536] = 9999;
    let e = engine_with(p);
    assert_eq!(e.get(65535), 4321);
    assert_eq!(e.get(0), 1);
}
