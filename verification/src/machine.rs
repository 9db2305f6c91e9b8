//! The whole machine: ROM, RAM, the input byte, the register file, the
//! reset counter, and one cycle of execution.

use vstd::prelude::*;
use crate::cpu::{CpuState, Instr, Register, E, makeAddr, spec_addr, spec_addr_hi, spec_addr_lo,
    spec_alu, spec_branch_taken, spec_bus_value, spec_cond_index, spec_cycle, spec_inc_x,
    spec_pc_next, spec_ram_next, spec_target};
use crate::rom::{spec_decode_rom, spec_encode_rom, spec_rom_image_len};

verus! {

/// A joystick direction or button, as the host reports it.
#[derive(Clone, Copy, PartialEq, Eq, Structural, Debug)]
pub enum Direction {
    Up,
    Left,
    Right,
    Down,
    ButtonA,
    ButtonB,
    Start,
    Select,
}

/// Why a ROM image was rejected.
#[derive(Clone, Copy, PartialEq, Eq, Structural, Debug)]
pub enum RomError {
    WrongSize,
}

/// The emulated machine: 65 536 ROM entries, 32 768 bytes of RAM, the input
/// byte, the register file, the signed cycle counter that drives power-on
/// reset, and the last joystick direction written to memory.
pub struct Gigatron {
    pub ROM: Vec<Instr>,
    pub RAM: Vec<u8>,
    pub IN: u8,
    pub S: CpuState,
    pub t: i64,
    pub joy: Option<Direction>,
}

/// The register file with the program counter forced to 0 while the reset
/// counter is negative.
pub open spec fn spec_reset(s: CpuState, t: i64) -> CpuState {
    if t < 0 {
        CpuState { PC: 0, ..s }
    } else {
        s
    }
}

/// A vertical sync edge: OUT bit 7 is active-low and falls.
pub open spec fn spec_vsync_edge(prev: u8, next: u8) -> bool {
    prev & 0x80 != 0 && next & 0x80 == 0
}

/// A horizontal sync edge: OUT bit 6 is active-low and falls.
pub open spec fn spec_hsync_edge(prev: u8, next: u8) -> bool {
    prev & 0x40 != 0 && next & 0x40 == 0
}

/// The active-low joystick byte for a direction: one bit cleared.
pub open spec fn spec_joy_mask(d: Direction) -> u8 {
    match d {
        Direction::Right => 0b1111_1110,
        Direction::Left => 0b1111_1101,
        Direction::Down => 0b1111_1011,
        Direction::Up => 0b1111_0111,
        Direction::Start => 0b1110_1111,
        Direction::Select => 0b1101_1111,
        Direction::ButtonB => 0b1011_1111,
        Direction::ButtonA => 0b0111_1111,
    }
}

/// A falling OUT bit 7 triggers exactly one frame: right after a vertical
/// sync edge the bit is low, so the next transition cannot be an edge again
/// until the bit has risen.
pub proof fn lemma_vsync_edge_not_consecutive(a: u8, b: u8, c: u8)
    requires
        spec_vsync_edge(a, b),
    ensures
        !spec_vsync_edge(b, c),
{
}

/// Detect a vertical sync edge between two OUT values.
pub fn vsync_edge(prev: u8, next: u8) -> (r: bool)
    ensures
        r == spec_vsync_edge(prev, next),
{
    (prev & 0x80) > 0 && (next & 0x80) == 0
}

/// Detect a horizontal sync edge between two OUT values.
pub fn hsync_edge(prev: u8, next: u8) -> (r: bool)
    ensures
        r == spec_hsync_edge(prev, next),
{
    (prev & 0x40) > 0 && (next & 0x40) == 0
}

/// The active-low joystick byte for a direction.
pub fn joy_mask(d: Direction) -> (r: u8)
    ensures
        r == spec_joy_mask(d),
{
    match d {
        Direction::Right => 0b1111_1110,
        Direction::Left => 0b1111_1101,
        Direction::Down => 0b1111_1011,
        Direction::Up => 0b1111_0111,
        Direction::Start => 0b1110_1111,
        Direction::Select => 0b1101_1111,
        Direction::ButtonB => 0b1011_1111,
        Direction::ButtonA => 0b0111_1111,
    }
}

impl Gigatron {
    /// The memories have their hardware sizes.
    pub open spec fn wf(&self) -> bool {
        self.ROM@.len() == 0x10000 && self.RAM@.len() == 0x8000
    }

    /// A machine with cleared memories and registers, no buttons pressed,
    /// and two cycles of power-on reset ahead.
    pub fn new() -> (g: Self)
        ensures
            g.wf(),
            forall|i: int| 0 <= i < 0x10000 ==> g.ROM@[i] == (Instr { ir: 0, d: 0 }),
            forall|i: int| 0 <= i < 0x8000 ==> g.RAM@[i] == 0u8,
            g.S == (CpuState { PC: 0, IR: 0, D: 0, AC: 0, X: 0, Y: 0, OUT: 0, undef: 0 }),
            g.IN == 0xff,
            g.t == -2,
            g.joy is None,
    {
        let mut rom: Vec<Instr> = Vec::new();
        let mut i: usize = 0;
        while i < 0x10000
            invariant
                i <= 0x10000,
                rom@.len() == i,
                forall|j: int| 0 <= j < i ==> rom@[j] == (Instr { ir: 0, d: 0 }),
            decreases 0x10000 - i,
        {
            rom.push(Instr { ir: 0, d: 0 });
            i += 1;
        }
        let mut ram: Vec<u8> = Vec::new();
        let mut k: usize = 0;
        while k < 0x8000
            invariant
                k <= 0x8000,
                ram@.len() == k,
                forall|j: int| 0 <= j < k ==> ram@[j] == 0u8,
            decreases 0x8000 - k,
        {
            ram.push(0);
            k += 1;
        }
        Gigatron { ROM: rom, RAM: ram, IN: 0xff, S: CpuState::new(), t: -2, joy: None }
    }

    /// Fill RAM and the register file with random bytes, modelling the
    /// indeterminate state of the hardware at power-on.
    fn garble(&mut self)
        requires
            old(self).wf(),
        ensures
            final(self).wf(),
            final(self).ROM@ == old(self).ROM@,
            final(self).IN == old(self).IN,
            final(self).t == old(self).t,
            final(self).joy == old(self).joy,
    {
        let ghost pre = *self;
        let mut i: usize = 0;
        while i < 0x8000
            invariant
                i <= 0x8000,
                self.wf(),
                self.ROM@ == pre.ROM@,
                self.IN == pre.IN,
                self.t == pre.t,
                self.joy == pre.joy,
            decreases 0x8000 - i,
        {
            let b: u8 = rand::random();
            self.RAM.set(i, b);
            i += 1;
        }
        self.S.PC = rand::random();
        self.S.IR = rand::random();
        self.S.D = rand::random();
        self.S.AC = rand::random();
        self.S.X = rand::random();
        self.S.Y = rand::random();
        self.S.OUT = rand::random();
        self.S.undef = rand::random();
    }

    /// Power-on: garble the state, then release the input byte to 0xFF
    /// (all joystick inputs inactive).
    pub fn init(&mut self)
        requires
            old(self).wf(),
        ensures
            final(self).wf(),
            final(self).ROM@ == old(self).ROM@,
            final(self).IN == 0xFF,
            final(self).t == old(self).t,
            final(self).joy == old(self).joy,
    {
        self.garble();
        self.IN = 0xFF;
    }

    /// Load a ROM image: exactly 131 072 bytes, entry i in bytes 2i and
    /// 2i+1. Any other length is rejected and the machine is untouched.
    pub fn load_rom(&mut self, bytes: &Vec<u8>) -> (r: Result<(), RomError>)
        requires
            old(self).wf(),
        ensures
            final(self).wf(),
            r is Ok <==> bytes@.len() == spec_rom_image_len(),
            r is Ok ==> final(self).ROM@ == spec_decode_rom(bytes@),
            r is Err ==> final(self).ROM@ == old(self).ROM@,
            final(self).RAM@ == old(self).RAM@,
            final(self).S == old(self).S,
            final(self).IN == old(self).IN,
            final(self).t == old(self).t,
            final(self).joy == old(self).joy,
    {
        if bytes.len() != 131072 {
            return Err(RomError::WrongSize);
        }
        let ghost pre = *self;
        let mut i: usize = 0;
        while i < 0x10000
            invariant
                i <= 0x10000,
                self.wf(),
                bytes@.len() == 0x20000,
                self.RAM@ == pre.RAM@,
                self.S == pre.S,
                self.IN == pre.IN,
                self.t == pre.t,
                self.joy == pre.joy,
                forall|j: int| 0 <= j < i ==> self.ROM@[j] == spec_decode_rom(bytes@)[j],
            decreases 0x10000 - i,
        {
            let e = Instr { ir: bytes[2 * i], d: bytes[2 * i + 1] };
            self.ROM.set(i, e);
            i += 1;
        }
        proof {
            assert(self.ROM@ =~= spec_decode_rom(bytes@));
        }
        Ok(())
    }

    /// Serialize the 65 536 (IR, D) entries back into a 131 072-byte image.
    pub fn serialize_rom(&self) -> (out: Vec<u8>)
        requires
            self.wf(),
        ensures
            out@ == spec_encode_rom(self.ROM@),
    {
        let mut out: Vec<u8> = Vec::new();
        let mut i: usize = 0;
        while i < 0x10000
            invariant
                i <= 0x10000,
                self.wf(),
                out@.len() == 2 * i,
                forall|j: int| 0 <= j < i ==> out@[2 * j] == self.ROM@[j].ir,
                forall|j: int| 0 <= j < i ==> out@[2 * j + 1] == self.ROM@[j].d,
            decreases 0x10000 - i,
        {
            let e = self.ROM[i];
            out.push(e.ir);
            out.push(e.d);
            i += 1;
        }
        proof {
            assert forall|k: int| 0 <= k < 0x20000 implies out@[k] == spec_encode_rom(self.ROM@)[k]
            by {
                let j = k / 2;
                if k % 2 == 0 {
                    assert(2 * j == k);
                    assert(out@[2 * j] == self.ROM@[j].ir);
                } else {
                    assert(2 * j + 1 == k);
                    assert(out@[2 * j + 1] == self.ROM@[j].d);
                }
            }
            assert(out@ =~= spec_encode_rom(self.ROM@));
        }
        out
    }

    /// The mode decoder: the address bytes, the writeback target, and the
    /// mode-7 X auto-increment for the instruction in S.
    fn decode_mode(s: &CpuState) -> (r: (u8, u8, Option<Register>, bool))
        ensures
            r.0 == spec_addr_lo(*s),
            r.1 == spec_addr_hi(*s),
            r.2 == spec_target(*s),
            r.3 == spec_inc_x(*s),
    {
        let ir: u8 = s.IR;
        let ins: u8 = ir >> 5;
        let mode: u8 = (ir >> 2) & 7;
        let W: bool = ins == 6;
        let J: bool = ins == 7;
        proof {
            assert(ins <= 7 && mode <= 7) by (bit_vector)
                requires
                    ins == ir >> 5,
                    mode == (ir >> 2) & 7,
            ;
        }
        let mut lo: u8 = s.D;
        let mut hi: u8 = 0;
        let mut to: Option<Register> = None;
        let mut incX: bool = false;
        if !J {
            match mode {
                0 => {
                    to = E(W, Register::AC);
                },
                1 => {
                    to = E(W, Register::AC);
                    lo = s.X;
                },
                2 => {
                    to = E(W, Register::AC);
                    hi = s.Y;
                },
                3 => {
                    to = E(W, Register::AC);
                    lo = s.X;
                    hi = s.Y;
                },
                4 => {
                    to = Some(Register::X);
                },
                5 => {
                    to = Some(Register::Y);
                },
                6 => {
                    to = E(W, Register::OUT);
                },
                _ => {
                    to = E(W, Register::OUT);
                    lo = s.X;
                    hi = s.Y;
                    incX = true;
                },
            }
        }
        (lo, hi, to, incX)
    }

    /// The ALU: combine AC and the bus byte as the instruction field asks,
    /// entirely 8-bit with wrap-around.
    fn alu_op(s: &CpuState, B: u8) -> (r: u8)
        ensures
            r == spec_alu(*s, B),
    {
        let ir: u8 = s.IR;
        let ins: u8 = ir >> 5;
        proof {
            assert(ins <= 7) by (bit_vector)
                requires
                    ins == ir >> 5,
            ;
        }
        match ins {
            0 => B,
            1 => s.AC & B,
            2 => s.AC | B,
            3 => s.AC ^ B,
            4 => s.AC.wrapping_add(B),
            5 => s.AC.wrapping_sub(B),
            6 => s.AC,
            _ => (0u8).wrapping_sub(s.AC),
        }
    }

    /// The program counter update: the successor, or for jumps the far
    /// target from Y and the bus byte, or the within-page target when the
    /// condition selected by the mode bits holds for AC.
    fn pc_next(s: &CpuState, B: u8) -> (r: u16)
        ensures
            r == spec_pc_next(*s, B),
    {
        let ir: u8 = s.IR;
        let ins: u8 = ir >> 5;
        let mode: u8 = (ir >> 2) & 7;
        let J: bool = ins == 7;
        proof {
            assert(ins <= 7 && mode <= 7) by (bit_vector)
                requires
                    ins == ir >> 5,
                    mode == (ir >> 2) & 7,
            ;
        }
        let mut pc: u16 = s.PC.wrapping_add(1);
        if J {
            if mode != 0 {
                let ac: u8 = s.AC;
                let sAC: u8 = if ac == 0 {
                    1
                } else {
                    0
                };
                let acHi: u8 = ac >> 7;
                proof {
                    assert(acHi <= 1 && acHi + 2 * sAC == spec_cond_index(ac)) by (bit_vector)
                        requires
                            acHi == ac >> 7,
                            sAC == (if ac == 0 {
                                1u8
                            } else {
                                0u8
                            }),
                    ;
                }
                let cond: u8 = acHi + 2 * sAC;
                let st: u8 = mode & (1u8 << cond);
                if st > 0 {
                    pc = (s.PC & 0xff00) | (B as u16);
                }
                proof {
                    assert((st > 0) == spec_branch_taken(mode, ac));
                }
            } else {
                pc = makeAddr(s.Y, B);
            }
        }
        pc
    }

    /// Execute one cycle: fetch at S.PC, decode, run the bus and ALU, write
    /// RAM when storing, and return the next register file. The current
    /// register file is left in place; the caller commits it.
    #[verifier::rlimit(100)]
    pub fn cpuCycle(&mut self) -> (T: CpuState)
        requires
            old(self).wf(),
        ensures
            final(self).wf(),
            final(self).ROM@ == old(self).ROM@,
            final(self).S == old(self).S,
            final(self).IN == old(self).IN,
            final(self).t == old(self).t,
            final(self).joy == old(self).joy,
            final(self).RAM@ == spec_ram_next(old(self).S, old(self).RAM@, old(self).IN),
            T == spec_cycle(old(self).S, old(self).ROM@, old(self).RAM@, old(self).IN),
    {
        let ghost s0 = self.S;
        let ghost ram0 = self.RAM@;

        let mut T: CpuState = self.S;
        let entry: Instr = self.ROM[self.S.PC as usize];
        T.IR = entry.ir;
        T.D = entry.d;

        let ir: u8 = self.S.IR;
        let ins: u8 = ir >> 5;
        let bus: u8 = ir & 3;
        let W: bool = ins == 6;
        proof {
            assert(bus <= 3) by (bit_vector)
                requires
                    bus == ir & 3,
            ;
        }

        let decoded = Self::decode_mode(&self.S);
        let lo: u8 = decoded.0;
        let hi: u8 = decoded.1;
        let to: Option<Register> = decoded.2;
        let incX: bool = decoded.3;

        let addr: u16 = makeAddr(hi, lo);
        proof {
            assert(addr == spec_addr(s0));
            assert(addr & 0x7fff < 0x8000) by (bit_vector);
        }

        let mut B: u8 = self.S.undef;
        match bus {
            0 => {
                B = self.S.D;
            },
            1 => {
                if !W {
                    let p: u16 = addr & 0x7fff;
                    B = self.RAM[p as usize];
                }
            },
            2 => {
                B = self.S.AC;
            },
            _ => {
                B = self.IN;
            },
        }
        proof {
            assert(B == spec_bus_value(s0, ram0, self.IN));
        }

        if W {
            let p: u16 = addr & 0x7fff;
            self.RAM.set(p as usize, B);
        }
        proof {
            assert(self.RAM@ == spec_ram_next(s0, ram0, self.IN));
        }

        let ALU: u8 = Self::alu_op(&self.S, B);

        if let Some(reg) = to {
            match reg {
                Register::AC => {
                    T.AC = ALU;
                },
                Register::OUT => {
                    T.OUT = ALU;
                },
                Register::X => {
                    T.X = ALU;
                },
                Register::Y => {
                    T.Y = ALU;
                },
            }
        }
        if incX {
            T.X = self.S.X.wrapping_add(1);
        }
        T.PC = Self::pc_next(&self.S, B);
        proof {
            let tt = spec_cycle(s0, self.ROM@, ram0, self.IN);
            assert(T.PC == spec_pc_next(s0, B));
            assert(T.IR == tt.IR && T.D == tt.D);
            assert(T.AC == tt.AC);
            assert(T.X == tt.X);
            assert(T.Y == tt.Y);
            assert(T.OUT == tt.OUT);
            assert(T.undef == tt.undef);
            assert(T == tt);
        }
        T
    }

    /// Advance the machine by one cycle: hold PC at 0 while reset is
    /// asserted, execute the cycle, commit the new register file, count the
    /// cycle, and report whether this cycle produced a vertical sync edge.
    pub fn step(&mut self) -> (vsync: bool)
        requires
            old(self).wf(),
            old(self).t < i64::MAX,
        ensures
            final(self).wf(),
            final(self).ROM@ == old(self).ROM@,
            final(self).IN == old(self).IN,
            final(self).joy == old(self).joy,
            final(self).t == old(self).t + 1,
            ({
                let s0 = spec_reset(old(self).S, old(self).t);
                &&& final(self).S == spec_cycle(s0, old(self).ROM@, old(self).RAM@, old(self).IN)
                &&& final(self).RAM@ == spec_ram_next(s0, old(self).RAM@, old(self).IN)
                &&& vsync == spec_vsync_edge(s0.OUT, final(self).S.OUT)
            }),
    {
        if self.t < 0 {
            self.S.PC = 0;
        }
        let T: CpuState = self.cpuCycle();
        let vsync = vsync_edge(self.S.OUT, T.OUT);
        self.S = T;
        self.t = self.t + 1;
        vsync
    }

    /// Deliver a typed character: its code to RAM 0x000F, and clear the
    /// "key pressed" latch at RAM 0x0010.
    pub fn apply_key(&mut self, code: u8)
        requires
            old(self).wf(),
        ensures
            final(self).wf(),
            final(self).RAM@ == old(self).RAM@.update(0x000f, code).update(0x0010, 0u8),
            final(self).ROM@ == old(self).ROM@,
            final(self).S == old(self).S,
            final(self).IN == old(self).IN,
            final(self).t == old(self).t,
            final(self).joy == old(self).joy,
    {
        self.RAM.set(0x000f, code);
        self.RAM.set(0x0010, 0);
    }

    /// Deliver the polled joystick state. A newly pressed direction writes
    /// its active-low byte to RAM 0x0011 and clears the latch at 0x0010;
    /// the same direction still held, or none, writes nothing.
    pub fn process_joystick(&mut self, joy: Option<Direction>)
        requires
            old(self).wf(),
        ensures
            final(self).wf(),
            final(self).ROM@ == old(self).ROM@,
            final(self).S == old(self).S,
            final(self).IN == old(self).IN,
            final(self).t == old(self).t,
            (match joy {
                Option::None => final(self).RAM@ == old(self).RAM@ && final(self).joy == old(
                    self,
                ).joy,
                Option::Some(j) => if old(self).joy == Some(j) {
                    final(self).RAM@ == old(self).RAM@ && final(self).joy == old(self).joy
                } else {
                    final(self).RAM@ == old(self).RAM@.update(0x0011, spec_joy_mask(j)).update(
                        0x0010,
                        0u8,
                    ) && final(self).joy == Some(j)
                },
            }),
    {
        if let Some(j) = joy {
            if let Some(pj) = self.joy {
                if pj == j {
                    return ;
                }
            }
            let mask: u8 = joy_mask(j);
            self.RAM.set(0x0011, mask);
            self.RAM.set(0x0010, 0);
            self.joy = Some(j);
        }
    }
}

} // verus!
