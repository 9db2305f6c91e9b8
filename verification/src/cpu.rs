//! The Gigatron CPU: register file, instruction decoding, and a mathematical
//! model of one cycle.
//!
//! A cycle computes a new state T from the current state S and the
//! ROM/RAM/IN environment. The instruction byte splits into an instruction
//! field (bits 5-7), an addressing-mode field (bits 2-4) and a bus field
//! (bits 0-1); instruction 6 is a RAM write and instruction 7 a jump.

use vstd::prelude::*;

verus! {

/// One ROM entry: the instruction byte and its immediate data byte.
#[derive(Clone, Copy, PartialEq, Eq, Structural, Debug)]
pub struct Instr {
    pub ir: u8,
    pub d: u8,
}

/// The registers a cycle may load with the ALU result.
#[derive(Clone, Copy, PartialEq, Eq, Structural, Debug)]
pub enum Register {
    AC,
    X,
    Y,
    OUT,
}

/// The full CPU register file carried from one cycle to the next. `undef`
/// models the floating data bus: a defined but arbitrary byte.
#[derive(Clone, Copy, PartialEq, Eq, Structural, Debug)]
pub struct CpuState {
    pub PC: u16,
    pub IR: u8,
    pub D: u8,
    pub AC: u8,
    pub X: u8,
    pub Y: u8,
    pub OUT: u8,
    pub undef: u8,
}

impl CpuState {
    /// A register file with every register cleared.
    pub fn new() -> (s: Self)
        ensures
            s == (CpuState { PC: 0, IR: 0, D: 0, AC: 0, X: 0, Y: 0, OUT: 0, undef: 0 }),
    {
        CpuState { PC: 0, IR: 0, D: 0, AC: 0, X: 0, Y: 0, OUT: 0, undef: 0 }
    }
}

/// The 3-bit instruction field: 0=LD, 1=AND, 2=OR, 3=XOR, 4=ADD, 5=SUB,
/// 6=ST, 7=Bcc/JMP.
pub open spec fn spec_ins(ir: u8) -> u8 {
    ir >> 5
}

/// The 3-bit addressing-mode field (the condition code for jumps).
pub open spec fn spec_mode(ir: u8) -> u8 {
    (ir >> 2) & 7
}

/// The 2-bit bus-source field.
pub open spec fn spec_bus(ir: u8) -> u8 {
    ir & 3
}

/// Whether the instruction writes RAM.
pub open spec fn spec_write(ir: u8) -> bool {
    spec_ins(ir) == 6
}

/// Whether the instruction is a jump.
pub open spec fn spec_jump(ir: u8) -> bool {
    spec_ins(ir) == 7
}

/// A 16-bit address from a high and a low byte.
pub open spec fn spec_make_addr(hi: u8, lo: u8) -> u16 {
    ((hi as u16) << 8) | (lo as u16)
}

/// The low address byte selected by the mode decoder: X in modes 1, 3 and 7,
/// else the immediate D. Jumps skip the decoder and leave D.
pub open spec fn spec_addr_lo(s: CpuState) -> u8 {
    let mode = spec_mode(s.IR);
    if !spec_jump(s.IR) && (mode == 1 || mode == 3 || mode == 7) {
        s.X
    } else {
        s.D
    }
}

/// The high address byte: Y in modes 2, 3 and 7, else 0.
pub open spec fn spec_addr_hi(s: CpuState) -> u8 {
    let mode = spec_mode(s.IR);
    if !spec_jump(s.IR) && (mode == 2 || mode == 3 || mode == 7) {
        s.Y
    } else {
        0
    }
}

/// The 16-bit address the cycle presents to RAM.
pub open spec fn spec_addr(s: CpuState) -> u16 {
    spec_make_addr(spec_addr_hi(s), spec_addr_lo(s))
}

/// The RAM index: the address masked to 15 bits.
pub open spec fn spec_ram_index(s: CpuState) -> int {
    (spec_addr(s) & 0x7fff) as int
}

/// The register the cycle loads with the ALU result, if any. A write cycle
/// suppresses loading AC and OUT but not X or Y; jumps load nothing.
pub open spec fn spec_target(s: CpuState) -> Option<Register> {
    let mode = spec_mode(s.IR);
    let w = spec_write(s.IR);
    if spec_jump(s.IR) {
        None
    } else if mode == 4 {
        Some(Register::X)
    } else if mode == 5 {
        Some(Register::Y)
    } else if mode == 6 || mode == 7 {
        if w {
            None
        } else {
            Some(Register::OUT)
        }
    } else {
        if w {
            None
        } else {
            Some(Register::AC)
        }
    }
}

/// Mode 7 of a non-jump auto-increments X.
pub open spec fn spec_inc_x(s: CpuState) -> bool {
    !spec_jump(s.IR) && spec_mode(s.IR) == 7
}

/// The byte on the data bus: D, RAM at the masked address, AC, or IN. During
/// a write, a RAM-sourced bus is left floating and yields `undef`.
pub open spec fn spec_bus_value(s: CpuState, ram: Seq<u8>, input: u8) -> u8 {
    let bus = spec_bus(s.IR);
    if bus == 0 {
        s.D
    } else if bus == 1 {
        if spec_write(s.IR) {
            s.undef
        } else {
            ram[spec_ram_index(s)]
        }
    } else if bus == 2 {
        s.AC
    } else {
        input
    }
}

/// The ALU output, entirely 8-bit with wrap-around.
pub open spec fn spec_alu(s: CpuState, b: u8) -> u8 {
    let ins = spec_ins(s.IR);
    if ins == 0 {
        b
    } else if ins == 1 {
        s.AC & b
    } else if ins == 2 {
        s.AC | b
    } else if ins == 3 {
        s.AC ^ b
    } else if ins == 4 {
        ((s.AC + b) % 256) as u8
    } else if ins == 5 {
        ((s.AC - b + 256) % 256) as u8
    } else if ins == 6 {
        s.AC
    } else {
        ((256 - s.AC) % 256) as u8
    }
}

/// RAM after the cycle: unchanged, unless a write stores the bus byte at the
/// masked address.
pub open spec fn spec_ram_next(s: CpuState, ram: Seq<u8>, input: u8) -> Seq<u8> {
    if spec_write(s.IR) {
        ram.update(spec_ram_index(s), spec_bus_value(s, ram, input))
    } else {
        ram
    }
}

/// The condition index derived from AC: 0 for positive nonzero, 1 for
/// negative, 2 for zero.
pub open spec fn spec_cond_index(ac: u8) -> u8 {
    if ac == 0 {
        2
    } else if ac >= 0x80 {
        1
    } else {
        0
    }
}

/// Whether a conditional branch with the given mode is taken for AC.
pub open spec fn spec_branch_taken(mode: u8, ac: u8) -> bool {
    mode & (1u8 << spec_cond_index(ac)) != 0
}

/// The next program counter: the successor by default; for jumps, a far
/// target from Y and the bus, or a within-page target when the condition
/// holds.
pub open spec fn spec_pc_next(s: CpuState, b: u8) -> u16 {
    if spec_jump(s.IR) {
        if spec_mode(s.IR) == 0 {
            spec_make_addr(s.Y, b)
        } else if spec_branch_taken(spec_mode(s.IR), s.AC) {
            (s.PC & 0xff00) | (b as u16)
        } else {
            ((s.PC + 1) % 0x10000) as u16
        }
    } else {
        ((s.PC + 1) % 0x10000) as u16
    }
}

/// The register file after one cycle: fetch from ROM at PC, run the bus and
/// ALU, load the target register, auto-increment X in mode 7, and step or
/// jump the program counter.
pub open spec fn spec_cycle(s: CpuState, rom: Seq<Instr>, ram: Seq<u8>, input: u8) -> CpuState {
    let b = spec_bus_value(s, ram, input);
    let alu = spec_alu(s, b);
    let tgt = spec_target(s);
    CpuState {
        PC: spec_pc_next(s, b),
        IR: rom[s.PC as int].ir,
        D: rom[s.PC as int].d,
        AC: if tgt == Some(Register::AC) {
            alu
        } else {
            s.AC
        },
        X: if spec_inc_x(s) {
            ((s.X + 1) % 256) as u8
        } else if tgt == Some(Register::X) {
            alu
        } else {
            s.X
        },
        Y: if tgt == Some(Register::Y) {
            alu
        } else {
            s.Y
        },
        OUT: if tgt == Some(Register::OUT) {
            alu
        } else {
            s.OUT
        },
        undef: s.undef,
    }
}

/// Disable loading AC or OUT during a RAM write: the mode decoder's enable
/// gate.
pub fn E(W: bool, p: Register) -> (r: Option<Register>)
    ensures
        r == (if W {
            None
        } else {
            Some(p)
        }),
{
    if W {
        None
    } else {
        Some(p)
    }
}

/// Join a high and a low byte into a 16-bit address.
pub fn makeAddr(hi: u8, lo: u8) -> (addr: u16)
    ensures
        addr == spec_make_addr(hi, lo),
        addr == hi * 256 + lo,
{
    proof {
        assert(((hi as u16) << 8) | (lo as u16) == hi * 256 + lo) by (bit_vector);
    }
    ((hi as u16) << 8) | (lo as u16)
}

/// After any cycle the program counter is one of exactly three values: the
/// successor of S.PC, a within-page branch target built from the bus byte,
/// or a far-jump target built from Y and the bus byte.
pub proof fn lemma_pc_step(s: CpuState, rom: Seq<Instr>, ram: Seq<u8>, input: u8)
    requires
        rom.len() == 0x10000,
        ram.len() == 0x8000,
    ensures
        ({
            let t = spec_cycle(s, rom, ram, input);
            let b = spec_bus_value(s, ram, input);
            t.PC == ((s.PC + 1) % 0x10000) as u16 || t.PC == ((s.PC & 0xff00) | (b as u16))
                || t.PC == spec_make_addr(s.Y, b)
        }),
{
}

/// The program counter advances by exactly one unless the cycle is a jump.
pub proof fn lemma_pc_advances_without_jump(s: CpuState, rom: Seq<Instr>, ram: Seq<u8>, input: u8)
    requires
        rom.len() == 0x10000,
        ram.len() == 0x8000,
        !spec_jump(s.IR),
    ensures
        spec_cycle(s, rom, ram, input).PC == ((s.PC + 1) % 0x10000) as u16,
{
}

/// RAM is untouched by any cycle that is not a store.
pub proof fn lemma_ram_unchanged_without_store(s: CpuState, ram: Seq<u8>, input: u8)
    requires
        !spec_write(s.IR),
    ensures
        spec_ram_next(s, ram, input) == ram,
{
}

/// OUT only changes when the mode decoder targets it.
pub proof fn lemma_out_only_when_targeted(s: CpuState, rom: Seq<Instr>, ram: Seq<u8>, input: u8)
    requires
        rom.len() == 0x10000,
        ram.len() == 0x8000,
        spec_target(s) != Some(Register::OUT),
    ensures
        spec_cycle(s, rom, ram, input).OUT == s.OUT,
{
}

/// A store (instruction 6) leaves both AC and OUT unchanged: the RAM write
/// consumes the bus, so their writeback is suppressed.
pub proof fn lemma_store_preserves_ac_out(s: CpuState, rom: Seq<Instr>, ram: Seq<u8>, input: u8)
    requires
        rom.len() == 0x10000,
        ram.len() == 0x8000,
        spec_ins(s.IR) == 6,
    ensures
        spec_cycle(s, rom, ram, input).AC == s.AC,
        spec_cycle(s, rom, ram, input).OUT == s.OUT,
{
}

/// A store in mode 4 or 5 still loads X or Y respectively with the ALU
/// result: only AC and OUT writeback is gated by the write signal.
pub proof fn lemma_store_to_index_register(s: CpuState, rom: Seq<Instr>, ram: Seq<u8>, input: u8)
    requires
        rom.len() == 0x10000,
        ram.len() == 0x8000,
        spec_ins(s.IR) == 6,
    ensures
        spec_mode(s.IR) == 4 ==> spec_cycle(s, rom, ram, input).X == spec_alu(
            s,
            spec_bus_value(s, ram, input),
        ),
        spec_mode(s.IR) == 5 ==> spec_cycle(s, rom, ram, input).Y == spec_alu(
            s,
            spec_bus_value(s, ram, input),
        ),
{
}

/// Every RAM access index is the 16-bit address masked to 15 bits, so it is
/// always below 0x8000.
pub proof fn lemma_ram_index_bounded(s: CpuState)
    ensures
        0 <= spec_ram_index(s) < 0x8000,
{
    let a = spec_addr(s);
    assert(a & 0x7fff < 0x8000) by (bit_vector);
}

/// A cycle changes RAM at the masked write address alone, and never its
/// length: every other cell keeps its byte.
pub proof fn lemma_ram_write_masked(s: CpuState, ram: Seq<u8>, input: u8)
    requires
        ram.len() == 0x8000,
    ensures
        spec_ram_next(s, ram, input).len() == ram.len(),
        forall|i: int|
            0 <= i < ram.len() && i != spec_ram_index(s) ==> spec_ram_next(s, ram, input)[i]
                == ram[i],
{
    lemma_ram_index_bounded(s);
}

/// The registers cannot leave their hardware widths: every 8-bit register
/// stays at or below 0xFF and the program counter at or below 0xFFFF.
pub proof fn lemma_register_bounds(s: CpuState)
    ensures
        s.IR <= 0xFF,
        s.D <= 0xFF,
        s.AC <= 0xFF,
        s.X <= 0xFF,
        s.Y <= 0xFF,
        s.OUT <= 0xFF,
        s.undef <= 0xFF,
        s.PC <= 0xFFFF,
{
}

} // verus!
