//! The mathematical model of the machine and the meaning of every instruction
//! and of one tick over it.
use vstd::prelude::*;
use vstd::arithmetic::div_mod::lemma_fundamental_div_mod_converse;
use crate::instruction::{decoded, Instruction};

verus! {

/// Bytes of addressable memory.
pub const MEMORY_SIZE: usize = 4096;

/// Address at which programs are loaded and execution starts.
pub const PROGRAM_START: u16 = 0x200;

/// Address of the first font glyph.
pub const FONT_START: u16 = 0x050;

/// Bytes per font glyph.
pub const GLYPH_SIZE: u16 = 5;

/// Framebuffer width in pixels.
pub const WIDTH: usize = 64;

/// Framebuffer height in pixels.
pub const HEIGHT: usize = 32;

/// Number of framebuffer cells.
pub const FRAME_SIZE: usize = 2048;

/// Number of general registers, of call stack slots and of keys.
pub const SLOTS: usize = 16;

/// The register that carries carry, borrow and collision flags.
pub const FLAG: usize = 15;

/// A fatal condition reported by a tick; the machine is left as it was.
#[derive(Clone, Copy, Debug, PartialEq, Eq, Structural)]
pub enum ChipError {
    /// A call with all sixteen stack slots in use.
    StackOverflow,
    /// A return with an empty call stack.
    StackUnderflow,
    /// A fetch, load or store at an address of 4096 or above.
    MemoryAccessError,
    /// An opcode that matches no instruction, reported in strict mode only.
    UnknownOpcode(u16),
}

/// How the program counter moves after an instruction.
#[derive(Clone, Copy, Debug, PartialEq, Eq, Structural)]
pub enum PC {
    /// Advance by one instruction (two bytes).
    Next,
    /// Advance by two instructions (four bytes).
    Skip,
    /// Continue at the given address.
    Jump(u16),
}

impl PC {
    /// `Skip` when `cond` holds, else `Next`.
    pub fn skip_if(cond: bool) -> (r: PC)
        ensures
            r == skip_when(cond),
    {
        if cond {
            PC::Skip
        } else {
            PC::Next
        }
    }
}

/// The move that `PC::skip_if` picks.
pub open spec fn skip_when(cond: bool) -> PC {
    if cond {
        PC::Skip
    } else {
        PC::Next
    }
}

/// The program counter after `a` is applied to `pc`.
pub open spec fn advance(pc: u16, a: PC) -> u16 {
    match a {
        PC::Next => (pc + 2) as u16,
        PC::Skip => (pc + 4) as u16,
        PC::Jump(t) => t,
    }
}

/// What one tick reports to the host.
#[derive(Clone, Copy, Debug, PartialEq, Eq, Structural)]
pub struct OutputChange {
    /// The framebuffer was written during this tick.
    pub vram: bool,
    /// The sound timer is still running after this tick.
    pub beep: bool,
}

/// The whole state of a machine, as mathematical values.
pub struct ChipState {
    /// The 4096 bytes of memory.
    pub mem: Seq<u8>,
    /// Registers V0 to VF.
    pub reg: Seq<u8>,
    /// The index register.
    pub idx: u16,
    /// The program counter.
    pub pc: u16,
    /// How many of the stack slots hold a return address.
    pub sp: u8,
    /// The sixteen call stack slots.
    pub stack: Seq<u16>,
    /// Counts down once per running tick.
    pub delay_timer: u8,
    /// Counts down once per running tick; the host beeps while it is above 0.
    pub sound_timer: u8,
    /// The 64x32 frame, row by row, one value per pixel (0 is off).
    pub vram: Seq<u8>,
    /// Whether the frame was written during the current tick.
    pub vram_change: bool,
    /// Which of the sixteen keys are held down.
    pub keys: Seq<bool>,
    /// Whether the machine waits for a key ...
    pub key_waiting: bool,
    /// ... and the register that receives it.
    pub key_register: u8,
    /// Whether unknown opcodes are reported rather than skipped.
    pub strict: bool,
}

/// The 80-byte font: glyphs for the hexadecimal digits 0 to F, five rows each.
pub open spec fn font_glyphs() -> Seq<u8> {
    seq![
        0xF0, 0x90, 0x90, 0x90, 0xF0, 0x20, 0x60, 0x20, 0x20, 0x70,
        0xF0, 0x10, 0xF0, 0x80, 0xF0, 0xF0, 0x10, 0xF0, 0x10, 0xF0,
        0x90, 0x90, 0xF0, 0x10, 0x10, 0xF0, 0x80, 0xF0, 0x10, 0xF0,
        0xF0, 0x80, 0xF0, 0x90, 0xF0, 0xF0, 0x10, 0x20, 0x40, 0x40,
        0xF0, 0x90, 0xF0, 0x90, 0xF0, 0xF0, 0x90, 0xF0, 0x10, 0xF0,
        0xF0, 0x90, 0xF0, 0x90, 0x90, 0xE0, 0x90, 0xE0, 0x90, 0xE0,
        0xF0, 0x80, 0x80, 0x80, 0xF0, 0xE0, 0x90, 0x90, 0x90, 0xE0,
        0xF0, 0x80, 0xF0, 0x80, 0xF0, 0xF0, 0x80, 0xF0, 0x80, 0x80,
    ]
}

/// Memory of a fresh machine: zero but for the font at `FONT_START`.
pub open spec fn initial_memory() -> Seq<u8> {
    Seq::new(
        MEMORY_SIZE as nat,
        |a: int|
            if FONT_START <= a < FONT_START + 80 {
                font_glyphs()[a - FONT_START]
            } else {
                0u8
            },
    )
}

/// The state of a freshly built machine (non-strict).
pub open spec fn initial_state() -> ChipState {
    ChipState {
        mem: initial_memory(),
        reg: Seq::new(16, |i: int| 0u8),
        idx: 0,
        pc: PROGRAM_START,
        sp: 0,
        stack: Seq::new(16, |i: int| 0u16),
        delay_timer: 0,
        sound_timer: 0,
        vram: Seq::new(FRAME_SIZE as nat, |i: int| 0u8),
        vram_change: false,
        keys: Seq::new(16, |i: int| false),
        key_waiting: false,
        key_register: 0,
        strict: false,
    }
}

/// `mem` after `rom` is copied to `PROGRAM_START`, bytes past the end dropped.
pub open spec fn loaded(mem: Seq<u8>, rom: Seq<u8>) -> Seq<u8> {
    Seq::new(
        mem.len(),
        |a: int|
            if PROGRAM_START <= a < PROGRAM_START + rom.len() {
                rom[a - PROGRAM_START]
            } else {
                mem[a]
            },
    )
}

/// Index in the frame of pixel (`row`, `col`).
pub open spec fn cell(row: int, col: int) -> int {
    row * WIDTH + col
}

/// Pixel (`row`, `col`) sits at row `row` and column `col` of the frame.
pub proof fn lemma_cell(row: int, col: int)
    requires
        0 <= col < WIDTH,
    ensures
        cell(row, col) / (WIDTH as int) == row,
        cell(row, col) % (WIDTH as int) == col,
{
    lemma_fundamental_div_mod_converse(cell(row, col), WIDTH as int, row, col);
}

/// Bit `col` (0 = most significant) of a sprite row.
pub open spec fn sprite_bit(b: u8, col: int) -> bool {
    (b >> ((7 - col) as u8)) & 1 == 1
}

/// How many rows of an `n`-row sprite at row `oy` lie on the screen.
pub open spec fn visible_rows(oy: int, n: int) -> int {
    if oy + n > HEIGHT {
        HEIGHT - oy
    } else {
        n
    }
}

/// Whether a set bit of the sprite at `idx`, drawn with its top left corner at
/// (`oy`, `ox`) over `rows` rows, falls on pixel (`row`, `col`).
pub open spec fn sprite_hits(
    mem: Seq<u8>,
    idx: int,
    ox: int,
    oy: int,
    rows: int,
    row: int,
    col: int,
) -> bool {
    &&& oy <= row < oy + rows
    &&& ox <= col < ox + 8
    &&& col < WIDTH
    &&& sprite_bit(mem[idx + row - oy], col - ox)
}

/// A pixel with one XOR applied: off becomes on, on becomes off.
pub open spec fn flipped(p: u8) -> u8 {
    if p == 0 {
        1
    } else {
        0
    }
}

/// The frame after the sprite is XOR-ed onto it.
pub open spec fn drawn_frame(
    vram: Seq<u8>,
    mem: Seq<u8>,
    idx: int,
    ox: int,
    oy: int,
    rows: int,
) -> Seq<u8> {
    Seq::new(
        vram.len(),
        |i: int|
            if sprite_hits(mem, idx, ox, oy, rows, i / WIDTH as int, i % WIDTH as int) {
                flipped(vram[i])
            } else {
                vram[i]
            },
    )
}

/// Whether pixel (`row`, `col`) is one that the sprite erases.
pub open spec fn erases(
    vram: Seq<u8>,
    mem: Seq<u8>,
    idx: int,
    ox: int,
    oy: int,
    rows: int,
    row: int,
    col: int,
) -> bool {
    sprite_hits(mem, idx, ox, oy, rows, row, col) && vram[cell(row, col)] != 0
}

/// Whether the sprite erases a pixel that was on.
pub open spec fn collides(
    vram: Seq<u8>,
    mem: Seq<u8>,
    idx: int,
    ox: int,
    oy: int,
    rows: int,
) -> bool {
    exists|row: int, col: int|
        0 <= row < HEIGHT && 0 <= col < WIDTH && #[trigger] erases(vram, mem, idx, ox, oy, rows, row, col)
}

/// Index of the lowest pressed key at or after `i`, or the key count when none is.
pub open spec fn first_pressed(keys: Seq<bool>, i: int) -> int
    decreases keys.len() - i,
{
    if i >= keys.len() {
        keys.len() as int
    } else if keys[i] {
        i
    } else {
        first_pressed(keys, i + 1)
    }
}

/// The opcode at address `a`, read big-endian.
pub open spec fn opcode_at(mem: Seq<u8>, a: int) -> u16 {
    (mem[a] * 256 + mem[a + 1]) as u16
}

/// A timer after one tick: one less, but never below zero.
pub open spec fn countdown(t: u8) -> u8 {
    if t > 0 {
        (t - 1) as u8
    } else {
        0
    }
}

impl ChipState {
    /// The shapes that every reachable state has; every pixel is 0 or 1.
    pub open spec fn valid(self) -> bool {
        &&& self.mem.len() == MEMORY_SIZE
        &&& self.reg.len() == SLOTS
        &&& self.stack.len() == SLOTS
        &&& self.sp <= SLOTS
        &&& self.vram.len() == FRAME_SIZE
        &&& forall|i: int| 0 <= i < FRAME_SIZE ==> #[trigger] self.vram[i] <= 1
        &&& self.keys.len() == SLOTS
        &&& self.key_register < SLOTS
    }

    /// Register `x` set to `v`.
    pub open spec fn with_reg(self, x: int, v: u8) -> ChipState {
        ChipState { reg: self.reg.update(x, v), ..self }
    }

    /// Whether key `k` is pressed; values past the last key never are.
    pub open spec fn key_pressed(self, k: u8) -> bool {
        k < SLOTS && self.keys[k as int]
    }

    /// The opcode at the program counter.
    pub open spec fn opcode(self) -> u16 {
        opcode_at(self.mem, self.pc as int)
    }

    /// The origin column and row of a draw with registers `x` and `y`,
    /// read once the flag register has been cleared.
    pub open spec fn draw_origin(self, x: u8, y: u8) -> (int, int) {
        let s = self.with_reg(FLAG as int, 0);
        ((s.reg[x as int] % 64) as int, (s.reg[y as int] % 32) as int)
    }

    /// The fatal condition that `ins` meets in this state, if any.
    pub open spec fn fault(self, ins: Instruction) -> Option<ChipError> {
        match ins {
            Instruction::Return => if self.sp == 0 {
                Some(ChipError::StackUnderflow)
            } else {
                None
            },
            Instruction::Call(_) => if self.sp >= SLOTS {
                Some(ChipError::StackOverflow)
            } else {
                None
            },
            Instruction::Draw { x, y, n } => {
                let (ox, oy) = self.draw_origin(x, y);
                let rows = visible_rows(oy, n as int);
                if rows > 0 && self.idx + rows > MEMORY_SIZE {
                    Some(ChipError::MemoryAccessError)
                } else {
                    None
                }
            },
            Instruction::StoreBcd { .. } => if self.idx + 3 > MEMORY_SIZE {
                Some(ChipError::MemoryAccessError)
            } else {
                None
            },
            Instruction::StoreRegs { x } => if self.idx + x + 1 > MEMORY_SIZE {
                Some(ChipError::MemoryAccessError)
            } else {
                None
            },
            Instruction::LoadRegs { x } => if self.idx + x + 1 > MEMORY_SIZE {
                Some(ChipError::MemoryAccessError)
            } else {
                None
            },
            Instruction::Unknown(op) => if self.strict {
                Some(ChipError::UnknownOpcode(op))
            } else {
                None
            },
            _ => None,
        }
    }

    /// The state after a draw instruction.
    pub open spec fn draw_effect(self, x: u8, y: u8, n: u8) -> ChipState {
        let (ox, oy) = self.draw_origin(x, y);
        let rows = visible_rows(oy, n as int);
        let hit = collides(self.vram, self.mem, self.idx as int, ox, oy, rows);
        ChipState {
            vram: drawn_frame(self.vram, self.mem, self.idx as int, ox, oy, rows),
            vram_change: true,
            ..self.with_reg(FLAG as int, if hit { 1 } else { 0 })
        }
    }

    /// The state after `ins` runs without fault (program counter not yet
    /// moved), and how the program counter is to move.
    pub open spec fn effect(self, ins: Instruction, random: u8) -> (ChipState, PC) {
        let r = self.reg;
        match ins {
            Instruction::ClearScreen => (
                ChipState { vram: Seq::new(FRAME_SIZE as nat, |i: int| 0u8), vram_change: true, ..self },
                PC::Next,
            ),
            Instruction::Return => (
                ChipState { sp: (self.sp - 1) as u8, ..self },
                PC::Jump(self.stack[self.sp - 1]),
            ),
            Instruction::Jump(a) => (self, PC::Jump(a)),
            Instruction::Call(a) => (
                ChipState {
                    stack: self.stack.update(self.sp as int, (self.pc + 2) as u16),
                    sp: (self.sp + 1) as u8,
                    ..self
                },
                PC::Jump(a),
            ),
            Instruction::SkipEqImm { x, kk } => (self, skip_when(r[x as int] == kk)),
            Instruction::SkipNeImm { x, kk } => (self, skip_when(r[x as int] != kk)),
            Instruction::SkipEqReg { x, y } => (self, skip_when(r[x as int] == r[y as int])),
            Instruction::LoadImm { x, kk } => (self.with_reg(x as int, kk), PC::Next),
            Instruction::AddImm { x, kk } => (
                self.with_reg(x as int, ((r[x as int] + kk) % 256) as u8),
                PC::Next,
            ),
            Instruction::Move { x, y } => (self.with_reg(x as int, r[y as int]), PC::Next),
            Instruction::Or { x, y } => (self.with_reg(x as int, r[x as int] | r[y as int]), PC::Next),
            Instruction::And { x, y } => (self.with_reg(x as int, r[x as int] & r[y as int]), PC::Next),
            Instruction::Xor { x, y } => (self.with_reg(x as int, r[x as int] ^ r[y as int]), PC::Next),
            Instruction::AddReg { x, y } => {
                let sum = r[x as int] + r[y as int];
                (
                    self.with_reg(x as int, (sum % 256) as u8).with_reg(
                        FLAG as int,
                        if sum > 255 { 1 } else { 0 },
                    ),
                    PC::Next,
                )
            },
            Instruction::Sub { x, y } => {
                let f = self.with_reg(FLAG as int, if r[x as int] >= r[y as int] { 1 } else { 0 });
                (
                    f.with_reg(x as int, ((f.reg[x as int] - f.reg[y as int]) % 256) as u8),
                    PC::Next,
                )
            },
            Instruction::ShiftRight { x } => {
                let f = self.with_reg(FLAG as int, r[x as int] % 2);
                (f.with_reg(x as int, f.reg[x as int] / 2), PC::Next)
            },
            Instruction::SubReversed { x, y } => {
                let f = self.with_reg(FLAG as int, if r[y as int] >= r[x as int] { 1 } else { 0 });
                (
                    f.with_reg(x as int, ((f.reg[y as int] - f.reg[x as int]) % 256) as u8),
                    PC::Next,
                )
            },
            Instruction::ShiftLeft { x } => {
                let f = self.with_reg(FLAG as int, r[x as int] / 128);
                (f.with_reg(x as int, ((f.reg[x as int] * 2) % 256) as u8), PC::Next)
            },
            Instruction::SkipNeReg { x, y } => (self, skip_when(r[x as int] != r[y as int])),
            Instruction::SetIndex(a) => (ChipState { idx: a, ..self }, PC::Next),
            Instruction::JumpOffset(a) => (self, PC::Jump((a + r[0]) as u16)),
            Instruction::Random { x, kk } => (self.with_reg(x as int, random & kk), PC::Next),
            Instruction::Draw { x, y, n } => (self.draw_effect(x, y, n), PC::Next),
            Instruction::SkipKey { x } => (self, skip_when(self.key_pressed(r[x as int]))),
            Instruction::SkipNotKey { x } => (self, skip_when(!self.key_pressed(r[x as int]))),
            Instruction::GetDelay { x } => (self.with_reg(x as int, self.delay_timer), PC::Next),
            Instruction::WaitKey { x } => (
                ChipState { key_waiting: true, key_register: x, ..self },
                PC::Next,
            ),
            Instruction::SetDelay { x } => (ChipState { delay_timer: r[x as int], ..self }, PC::Next),
            Instruction::SetSound { x } => (ChipState { sound_timer: r[x as int], ..self }, PC::Next),
            Instruction::AddIndex { x } => (
                ChipState { idx: ((self.idx + r[x as int]) % 0x10000) as u16, ..self },
                PC::Next,
            ),
            Instruction::FontGlyph { x } => (
                ChipState { idx: (r[x as int] * GLYPH_SIZE + FONT_START) as u16, ..self },
                PC::Next,
            ),
            Instruction::StoreBcd { x } => {
                let v = r[x as int];
                let i = self.idx as int;
                (
                    ChipState {
                        mem: self.mem.update(i, v / 100).update(i + 1, (v % 100) / 10).update(
                            i + 2,
                            v % 10,
                        ),
                        ..self
                    },
                    PC::Next,
                )
            },
            Instruction::StoreRegs { x } => (
                ChipState {
                    mem: Seq::new(
                        self.mem.len(),
                        |a: int|
                            if self.idx <= a <= self.idx + x {
                                r[a - self.idx]
                            } else {
                                self.mem[a]
                            },
                    ),
                    ..self
                },
                PC::Next,
            ),
            Instruction::LoadRegs { x } => (
                ChipState {
                    reg: Seq::new(
                        r.len(),
                        |i: int|
                            if i <= x {
                                self.mem[self.idx + i]
                            } else {
                                r[i]
                            },
                    ),
                    ..self
                },
                PC::Next,
            ),
            Instruction::Unknown(_) => (self, PC::Next),
        }
    }

    /// Running `ins`: the fault it meets, or the next state with the program
    /// counter moved.
    pub open spec fn execute(self, ins: Instruction, random: u8) -> Result<ChipState, ChipError> {
        match self.fault(ins) {
            Some(e) => Err(e),
            None => {
                let (s, a) = self.effect(ins, random);
                Ok(ChipState { pc: advance(s.pc, a), ..s })
            },
        }
    }

    /// One tick. While waiting for a key: store the lowest pressed key, if
    /// any, and stop waiting; nothing else moves. Otherwise: count both timers
    /// down, fetch the opcode at the program counter and run it. `random` is
    /// the byte that a random instruction uses.
    pub open spec fn tick(self, random: u8) -> Result<ChipState, ChipError> {
        if self.key_waiting {
            let k = first_pressed(self.keys, 0);
            let s = ChipState { vram_change: false, ..self };
            if k < SLOTS {
                Ok(ChipState { key_waiting: false, ..s.with_reg(self.key_register as int, k as u8) })
            } else {
                Ok(s)
            }
        } else if self.pc + 1 >= MEMORY_SIZE {
            Err(ChipError::MemoryAccessError)
        } else {
            let s = ChipState {
                vram_change: false,
                delay_timer: countdown(self.delay_timer),
                sound_timer: countdown(self.sound_timer),
                ..self
            };
            s.execute(decoded(self.opcode()), random)
        }
    }

    /// Whether a tick with `random` may take this state to `next` and
    /// report `r`: on success the new state and its report, on a fatal
    /// condition the error with the state unchanged.
    pub open spec fn ticked(
        self,
        random: u8,
        next: ChipState,
        r: Result<OutputChange, ChipError>,
    ) -> bool {
        match self.tick(random) {
            Ok(s) => next == s && r == Ok::<OutputChange, ChipError>(s.output()),
            Err(e) => next == self && r == Err::<OutputChange, ChipError>(e),
        }
    }

    /// What a tick that ended in this state reports.
    pub open spec fn output(self) -> OutputChange {
        OutputChange { vram: self.vram_change, beep: self.sound_timer > 0 }
    }
}

} // verus!
