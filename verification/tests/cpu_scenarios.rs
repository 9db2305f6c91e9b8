//! Concrete single-cycle scenarios: fresh machine, zeroed RAM and registers
//! unless a scenario says otherwise.
//!
//! The CPU is pipelined: IR and D hold the instruction fetched the cycle
//! before, so each scenario places the instruction under test in S.IR/S.D
//! (and in ROM at S.PC, where it conceptually came from).

use gigatron::cpu::Instr;
use gigatron::machine::Gigatron;

#[allow(non_snake_case)]
fn with_instr(g: &mut Gigatron, ir: u8, d: u8) {
    g.ROM[g.S.PC as usize] = Instr { ir, d };
    g.S.IR = ir;
    g.S.D = d;
}

#[allow(non_snake_case)]
#[test]
fn ld_immediate_to_ac() {
    let mut g = Gigatron::new();
    with_instr(&mut g, 0b000_000_00, 0x42);
    let t = g.cpuCycle();
    assert_eq!(t.AC, 0x42);
    assert_eq!(t.PC, 1);
    assert_eq!(t.X, 0);
    assert_eq!(t.Y, 0);
    assert_eq!(t.OUT, 0);
    assert_eq!(t.undef, 0);
}

#[allow(non_snake_case)]
#[test]
fn st_ac_to_xy() {
    let mut g = Gigatron::new();
    g.S.AC = 0x5A;
    g.S.X = 0x34;
    g.S.Y = 0x12;
    with_instr(&mut g, 0b110_011_10, 0x00);
    let t = g.cpuCycle();
    assert_eq!(g.RAM[0x1234], 0x5A);
    assert_eq!(t.AC, 0x5A);
    assert_eq!(t.PC, 1);
}

#[allow(non_snake_case)]
#[test]
fn add_from_ram() {
    let mut g = Gigatron::new();
    g.RAM[0x0010] = 0x03;
    g.S.AC = 0x04;
    with_instr(&mut g, 0b100_000_01, 0x10);
    let t = g.cpuCycle();
    assert_eq!(t.AC, 0x07);
    assert_eq!(t.PC, 1);
}

#[allow(non_snake_case)]
#[test]
fn conditional_branch_on_zero() {
    let mut g = Gigatron::new();
    g.S.AC = 0;
    g.S.PC = 0x0200;
    with_instr(&mut g, 0b111_100_00, 0x40);
    let t = g.cpuCycle();
    assert_eq!(t.PC, 0x0240);
}

#[allow(non_snake_case)]
#[test]
fn conditional_branch_not_taken() {
    let mut g = Gigatron::new();
    g.S.AC = 5;
    g.S.PC = 0x0200;
    with_instr(&mut g, 0b111_100_00, 0x40);
    let t = g.cpuCycle();
    assert_eq!(t.PC, 0x0201);
}

#[allow(non_snake_case)]
#[test]
fn unconditional_far_jump() {
    let mut g = Gigatron::new();
    g.S.Y = 0x30;
    g.S.PC = 0x0200;
    with_instr(&mut g, 0b111_000_00, 0x80);
    let t = g.cpuCycle();
    assert_eq!(t.PC, 0x3080);
}

#[allow(non_snake_case)]
#[test]
fn mode7_out_with_x_increment() {
    let mut g = Gigatron::new();
    g.S.X = 0x05;
    g.S.Y = 0x00;
    g.S.AC = 0x77;
    with_instr(&mut g, 0b000_111_10, 0x00);
    let t = g.cpuCycle();
    assert_eq!(t.OUT, 0x77);
    assert_eq!(t.X, 0x06);
}

#[allow(non_snake_case)]
#[test]
fn store_suppresses_ac_and_out() {
    let mut g = Gigatron::new();
    g.S.AC = 0x11;
    g.S.OUT = 0x22;
    with_instr(&mut g, 0b110_000_00, 0x33);
    let t = g.cpuCycle();
    assert_eq!(g.RAM[0x33], 0x33);
    assert_eq!(t.AC, 0x11);
    assert_eq!(t.OUT, 0x22);
}

#[allow(non_snake_case)]
#[test]
fn store_to_x_still_loads_x() {
    let mut g = Gigatron::new();
    g.S.AC = 0x99;
    // ST with mode 4: the write happens and X still receives the ALU (AC).
    with_instr(&mut g, 0b110_100_10, 0x40);
    let t = g.cpuCycle();
    assert_eq!(g.RAM[0x40], 0x99);
    assert_eq!(t.X, 0x99);
}

#[allow(non_snake_case)]
#[test]
fn add_wraps_around() {
    let mut g = Gigatron::new();
    g.S.AC = 0xFF;
    with_instr(&mut g, 0b100_000_00, 0x01);
    let t = g.cpuCycle();
    assert_eq!(t.AC, 0x00);
}

#[allow(non_snake_case)]
#[test]
fn sub_wraps_around() {
    let mut g = Gigatron::new();
    g.S.AC = 0x00;
    with_instr(&mut g, 0b101_000_00, 0x01);
    let t = g.cpuCycle();
    assert_eq!(t.AC, 0xFF);
}

#[allow(non_snake_case)]
#[test]
fn bus_in_reads_input_byte() {
    let mut g = Gigatron::new();
    with_instr(&mut g, 0b000_000_11, 0x00);
    let t = g.cpuCycle();
    assert_eq!(t.AC, 0xFF);
}

#[allow(non_snake_case)]
#[test]
fn write_with_ram_bus_stores_undef() {
    let mut g = Gigatron::new();
    g.S.undef = 0xAB;
    with_instr(&mut g, 0b110_000_01, 0x20);
    let t = g.cpuCycle();
    assert_eq!(g.RAM[0x20], 0xAB);
    assert_eq!(t.AC, 0);
}

#[allow(non_snake_case)]
#[test]
fn fetch_fills_next_ir_and_d() {
    let mut g = Gigatron::new();
    g.ROM[0] = Instr { ir: 0b100_000_00, d: 0x42 };
    let t = g.cpuCycle();
    // The fetched entry lands in T; the executed instruction was S.IR = 0.
    assert_eq!(t.IR, 0b100_000_00);
    assert_eq!(t.D, 0x42);
    assert_eq!(t.AC, 0);
    assert_eq!(t.PC, 1);
}

#[allow(non_snake_case)]
#[test]
fn pc_wraps_at_top_of_rom() {
    let mut g = Gigatron::new();
    g.S.PC = 0xFFFF;
    let t = g.cpuCycle();
    assert_eq!(t.PC, 0x0000);
}

#[allow(non_snake_case)]
#[test]
fn ram_address_is_masked_to_15_bits() {
    let mut g = Gigatron::new();
    g.S.AC = 0x77;
    g.S.X = 0x00;
    g.S.Y = 0xFF;
    // ST to [Y,X] = 0xFF00; masked to 0x7F00.
    with_instr(&mut g, 0b110_011_10, 0x00);
    g.cpuCycle();
    assert_eq!(g.RAM[0x7F00], 0x77);
}

#[allow(non_snake_case)]
#[test]
fn step_holds_pc_at_zero_during_reset() {
    let mut g = Gigatron::new();
    g.S.PC = 0x1234;
    assert_eq!(g.t, -2);
    g.step();
    // The cycle ran from the reset PC of 0, so its successor is 1.
    assert_eq!(g.S.PC, 1);
    assert_eq!(g.t, -1);
}

#[allow(non_snake_case)]
#[test]
fn step_reports_exactly_one_vsync_edge() {
    let mut g = Gigatron::new();
    g.t = 0;
    g.S.OUT = 0xFF;
    // LD 0x00 into OUT (mode 6): bit 7 falls, then stays low.
    g.S.IR = 0b000_110_00;
    g.S.D = 0x00;
    let first = g.step();
    assert!(first);
    let second = g.step();
    assert!(!second);
}
