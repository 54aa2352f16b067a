//! The machine itself: state, construction, loading, keypad and the tick.
use vstd::prelude::*;
use crate::instruction::Instruction;
use crate::entropy::random_byte;
use crate::model::{
    collides, lemma_cell, drawn_frame, erases, flipped, sprite_bit, sprite_hits, visible_rows,
    first_pressed, font_glyphs, initial_memory, initial_state, loaded,
    ChipError, ChipState, OutputChange, FLAG, FONT_START, FRAME_SIZE, GLYPH_SIZE, HEIGHT,
    MEMORY_SIZE, PC, PROGRAM_START, SLOTS, WIDTH,
};

verus! {

/// A CHIP-8 machine.
pub struct Chip {
    mem: Vec<u8>,
    reg: Vec<u8>,
    idx: u16,
    /// The program counter.
    pub pc: u16,
    sp: u8,
    stack: Vec<u16>,
    delay_timer: u8,
    sound_timer: u8,
    vram: Vec<u8>,
    vram_change: bool,
    keys: Vec<bool>,
    key_waiting: bool,
    key_register: u8,
    strict: bool,
}

impl View for Chip {
    type V = ChipState;

    closed spec fn view(&self) -> ChipState {
        ChipState {
            mem: self.mem@,
            reg: self.reg@,
            idx: self.idx,
            pc: self.pc,
            sp: self.sp,
            stack: self.stack@,
            delay_timer: self.delay_timer,
            sound_timer: self.sound_timer,
            vram: self.vram@,
            vram_change: self.vram_change,
            keys: self.keys@,
            key_waiting: self.key_waiting,
            key_register: self.key_register,
            strict: self.strict,
        }
    }
}

/// The font table, glyphs for 0 to F.
fn font_set() -> (r: Vec<u8>)
    ensures
        r@ == font_glyphs(),
{
    let r: Vec<u8> = vec![
        0xF0, 0x90, 0x90, 0x90, 0xF0, 0x20, 0x60, 0x20, 0x20, 0x70,
        0xF0, 0x10, 0xF0, 0x80, 0xF0, 0xF0, 0x10, 0xF0, 0x10, 0xF0,
        0x90, 0x90, 0xF0, 0x10, 0x10, 0xF0, 0x80, 0xF0, 0x10, 0xF0,
        0xF0, 0x80, 0xF0, 0x90, 0xF0, 0xF0, 0x10, 0x20, 0x40, 0x40,
        0xF0, 0x90, 0xF0, 0x90, 0xF0, 0xF0, 0x90, 0xF0, 0x10, 0xF0,
        0xF0, 0x90, 0xF0, 0x90, 0x90, 0xE0, 0x90, 0xE0, 0x90, 0xE0,
        0xF0, 0x80, 0x80, 0x80, 0xF0, 0xE0, 0x90, 0x90, 0x90, 0xE0,
        0xF0, 0x80, 0xF0, 0x80, 0xF0, 0xF0, 0x80, 0xF0, 0x80, 0x80,
    ];
    assert(r@ =~= font_glyphs());
    r
}

/// Whether pixel (`row`, `col`) comes before (`pr`, `pc`) in the order in
/// which a draw visits pixels.
spec fn visited_before(row: int, col: int, pr: int, pc: int) -> bool {
    row < pr || (row == pr && col < pc)
}

impl Chip {
    /// The machine's state is well formed.
    pub open spec fn wf(&self) -> bool {
        self@.valid()
    }

    /// A machine with zeroed state, the font in place and the program counter
    /// at `PROGRAM_START`.
    pub fn new() -> (r: Chip)
        ensures
            r.wf(),
            r@ == initial_state(),
    {
        let font = font_set();
        let mut mem: Vec<u8> = vec![0u8; MEMORY_SIZE];
        let mut i: usize = 0;
        while i < 80
            invariant
                0 <= i <= 80,
                font@ == font_glyphs(),
                mem@.len() == MEMORY_SIZE,
                forall|a: int|
                    0 <= a < MEMORY_SIZE ==> #[trigger] mem@[a] == if FONT_START <= a < FONT_START
                        + i {
                        font_glyphs()[a - FONT_START]
                    } else {
                        0u8
                    },
            decreases 80 - i,
        {
            mem[FONT_START as usize + i] = font[i];
            i += 1;
        }
        assert(mem@ =~= initial_memory());
        let r = Chip {
            mem,
            reg: vec![0u8; SLOTS],
            idx: 0,
            pc: PROGRAM_START,
            sp: 0,
            stack: vec![0u16; SLOTS],
            delay_timer: 0,
            sound_timer: 0,
            vram: vec![0u8; FRAME_SIZE],
            vram_change: false,
            keys: vec![false; SLOTS],
            key_waiting: false,
            key_register: 0,
            strict: false,
        };
        assert(r@.reg =~= initial_state().reg);
        assert(r@.stack =~= initial_state().stack);
        assert(r@.vram =~= initial_state().vram);
        assert(r@.keys =~= initial_state().keys);
        r
    }

    /// Copies `rom` into memory from `PROGRAM_START` on; bytes that would land
    /// at address 4096 or above are dropped.
    pub fn load(self, rom: &[u8]) -> (r: Chip)
        requires
            self.wf(),
        ensures
            r.wf(),
            r@ == (ChipState { mem: loaded(self@.mem, rom@), ..self@ }),
    {
        let mut c = self;
        let ghost m0 = c.mem@;
        let mut offset: usize = 0;
        while offset < rom.len() && PROGRAM_START as usize + offset < MEMORY_SIZE
            invariant
                0 <= offset <= rom@.len(),
                offset <= MEMORY_SIZE,
                c@ == (ChipState { mem: c@.mem, ..self@ }),
                m0 == self@.mem,
                c.mem@.len() == MEMORY_SIZE,
                forall|a: int|
                    0 <= a < MEMORY_SIZE ==> #[trigger] c.mem@[a] == if PROGRAM_START <= a
                        < PROGRAM_START + offset {
                        rom@[a - PROGRAM_START]
                    } else {
                        m0[a]
                    },
            decreases rom@.len() - offset,
        {
            c.mem[PROGRAM_START as usize + offset] = rom[offset];
            offset += 1;
        }
        assert(c.mem@ =~= loaded(self@.mem, rom@));
        c
    }

    /// Marks key `key` as pressed; keys past the last are ignored.
    pub fn set_key(&mut self, key: u8)
        requires
            old(self).wf(),
        ensures
            final(self).wf(),
            final(self)@ == if key < SLOTS {
                ChipState { keys: old(self)@.keys.update(key as int, true), ..old(self)@ }
            } else {
                old(self)@
            },
    {
        if key < 16 {
            self.keys[key as usize] = true;
        }
    }

    /// Marks key `key` as released; keys past the last are ignored.
    pub fn unset_key(&mut self, key: u8)
        requires
            old(self).wf(),
        ensures
            final(self).wf(),
            final(self)@ == if key < SLOTS {
                ChipState { keys: old(self)@.keys.update(key as int, false), ..old(self)@ }
            } else {
                old(self)@
            },
    {
        if key < 16 {
            self.keys[key as usize] = false;
        }
    }

    /// Chooses whether an opcode that matches no instruction is reported
    /// (`true`) or run as a no-op (`false`, the default).
    pub fn set_strict(&mut self, strict: bool)
        requires
            old(self).wf(),
        ensures
            final(self).wf(),
            final(self)@ == (ChipState { strict, ..old(self)@ }),
    {
        self.strict = strict;
    }

    fn op_00e0(&mut self) -> (r: PC)
        requires
            old(self).wf(),
        ensures
            final(self).wf(),
            (final(self)@, r) == old(self)@.effect(Instruction::ClearScreen, 0),
    {
        self.vram = vec![0u8; FRAME_SIZE];
        self.vram_change = true;
        assert(self@.vram =~= Seq::new(FRAME_SIZE as nat, |i: int| 0u8));
        PC::Next
    }

    fn op_00ee(&mut self) -> (r: PC)
        requires
            old(self).wf(),
            old(self)@.fault(Instruction::Return) is None,
        ensures
            final(self).wf(),
            (final(self)@, r) == old(self)@.effect(Instruction::Return, 0),
    {
        self.sp -= 1;
        PC::Jump(self.stack[self.sp as usize])
    }

    fn op_2nnn(&mut self, nnn: u16) -> (r: PC)
        requires
            old(self).wf(),
            old(self)@.pc + 2 <= MEMORY_SIZE,
            old(self)@.fault(Instruction::Call(nnn)) is None,
        ensures
            final(self).wf(),
            (final(self)@, r) == old(self)@.effect(Instruction::Call(nnn), 0),
    {
        self.stack[self.sp as usize] = self.pc + 2;
        self.sp += 1;
        PC::Jump(nnn)
    }

    fn op_6xkk(&mut self, x: u8, kk: u8) -> (r: PC)
        requires
            old(self).wf(),
            x < SLOTS,
        ensures
            final(self).wf(),
            (final(self)@, r) == old(self)@.effect(Instruction::LoadImm { x, kk }, 0),
    {
        self.reg[x as usize] = kk;
        PC::Next
    }

    fn op_7xkk(&mut self, x: u8, kk: u8) -> (r: PC)
        requires
            old(self).wf(),
            x < SLOTS,
        ensures
            final(self).wf(),
            (final(self)@, r) == old(self)@.effect(Instruction::AddImm { x, kk }, 0),
    {
        self.reg[x as usize] = self.reg[x as usize].wrapping_add(kk);
        PC::Next
    }

    fn op_8xy0(&mut self, x: u8, y: u8) -> (r: PC)
        requires
            old(self).wf(),
            x < SLOTS,
            y < SLOTS,
        ensures
            final(self).wf(),
            (final(self)@, r) == old(self)@.effect(Instruction::Move { x, y }, 0),
    {
        self.reg[x as usize] = self.reg[y as usize];
        PC::Next
    }

    fn op_8xy1(&mut self, x: u8, y: u8) -> (r: PC)
        requires
            old(self).wf(),
            x < SLOTS,
            y < SLOTS,
        ensures
            final(self).wf(),
            (final(self)@, r) == old(self)@.effect(Instruction::Or { x, y }, 0),
    {
        self.reg[x as usize] = self.reg[x as usize] | self.reg[y as usize];
        PC::Next
    }

    fn op_8xy2(&mut self, x: u8, y: u8) -> (r: PC)
        requires
            old(self).wf(),
            x < SLOTS,
            y < SLOTS,
        ensures
            final(self).wf(),
            (final(self)@, r) == old(self)@.effect(Instruction::And { x, y }, 0),
    {
        self.reg[x as usize] = self.reg[x as usize] & self.reg[y as usize];
        PC::Next
    }

    fn op_8xy3(&mut self, x: u8, y: u8) -> (r: PC)
        requires
            old(self).wf(),
            x < SLOTS,
            y < SLOTS,
        ensures
            final(self).wf(),
            (final(self)@, r) == old(self)@.effect(Instruction::Xor { x, y }, 0),
    {
        self.reg[x as usize] = self.reg[x as usize] ^ self.reg[y as usize];
        PC::Next
    }

    fn op_8xy4(&mut self, x: u8, y: u8) -> (r: PC)
        requires
            old(self).wf(),
            x < SLOTS,
            y < SLOTS,
        ensures
            final(self).wf(),
            (final(self)@, r) == old(self)@.effect(Instruction::AddReg { x, y }, 0),
    {
        let (x, y) = (x as usize, y as usize);
        let sum: u16 = self.reg[x] as u16 + self.reg[y] as u16;
        self.reg[x] = (sum % 256) as u8;
        self.reg[FLAG] = if sum > 0xFF { 1 } else { 0 };
        PC::Next
    }

    fn op_8xy5(&mut self, x: u8, y: u8) -> (r: PC)
        requires
            old(self).wf(),
            x < SLOTS,
            y < SLOTS,
        ensures
            final(self).wf(),
            (final(self)@, r) == old(self)@.effect(Instruction::Sub { x, y }, 0),
    {
        let (x, y) = (x as usize, y as usize);
        self.reg[FLAG] = if self.reg[x] >= self.reg[y] { 1 } else { 0 };
        self.reg[x] = self.reg[x].wrapping_sub(self.reg[y]);
        PC::Next
    }

    fn op_8xy6(&mut self, x: u8) -> (r: PC)
        requires
            old(self).wf(),
            x < SLOTS,
        ensures
            final(self).wf(),
            (final(self)@, r) == old(self)@.effect(Instruction::ShiftRight { x }, 0),
    {
        let x = x as usize;
        self.reg[FLAG] = self.reg[x] % 2;
        self.reg[x] = self.reg[x] / 2;
        PC::Next
    }

    fn op_8xy7(&mut self, x: u8, y: u8) -> (r: PC)
        requires
            old(self).wf(),
            x < SLOTS,
            y < SLOTS,
        ensures
            final(self).wf(),
            (final(self)@, r) == old(self)@.effect(Instruction::SubReversed { x, y }, 0),
    {
        let (x, y) = (x as usize, y as usize);
        self.reg[FLAG] = if self.reg[y] >= self.reg[x] { 1 } else { 0 };
        self.reg[x] = self.reg[y].wrapping_sub(self.reg[x]);
        PC::Next
    }

    fn op_8xye(&mut self, x: u8) -> (r: PC)
        requires
            old(self).wf(),
            x < SLOTS,
        ensures
            final(self).wf(),
            (final(self)@, r) == old(self)@.effect(Instruction::ShiftLeft { x }, 0),
    {
        let x = x as usize;
        self.reg[FLAG] = self.reg[x] / 128;
        self.reg[x] = (self.reg[x] % 128) * 2;
        PC::Next
    }

    fn op_annn(&mut self, nnn: u16) -> (r: PC)
        requires
            old(self).wf(),
        ensures
            final(self).wf(),
            (final(self)@, r) == old(self)@.effect(Instruction::SetIndex(nnn), 0),
    {
        self.idx = nnn;
        PC::Next
    }

    fn op_cxkk(&mut self, x: u8, kk: u8, random: u8) -> (r: PC)
        requires
            old(self).wf(),
            x < SLOTS,
        ensures
            final(self).wf(),
            (final(self)@, r) == old(self)@.effect(Instruction::Random { x, kk }, random),
    {
        self.reg[x as usize] = random & kk;
        PC::Next
    }

    fn op_fx07(&mut self, x: u8) -> (r: PC)
        requires
            old(self).wf(),
            x < SLOTS,
        ensures
            final(self).wf(),
            (final(self)@, r) == old(self)@.effect(Instruction::GetDelay { x }, 0),
    {
        self.reg[x as usize] = self.delay_timer;
        PC::Next
    }

    fn op_fx0a(&mut self, x: u8) -> (r: PC)
        requires
            old(self).wf(),
            x < SLOTS,
        ensures
            final(self).wf(),
            (final(self)@, r) == old(self)@.effect(Instruction::WaitKey { x }, 0),
    {
        self.key_waiting = true;
        self.key_register = x;
        PC::Next
    }

    fn op_fx15(&mut self, x: u8) -> (r: PC)
        requires
            old(self).wf(),
            x < SLOTS,
        ensures
            final(self).wf(),
            (final(self)@, r) == old(self)@.effect(Instruction::SetDelay { x }, 0),
    {
        self.delay_timer = self.reg[x as usize];
        PC::Next
    }

    fn op_fx18(&mut self, x: u8) -> (r: PC)
        requires
            old(self).wf(),
            x < SLOTS,
        ensures
            final(self).wf(),
            (final(self)@, r) == old(self)@.effect(Instruction::SetSound { x }, 0),
    {
        self.sound_timer = self.reg[x as usize];
        PC::Next
    }

    fn op_fx1e(&mut self, x: u8) -> (r: PC)
        requires
            old(self).wf(),
            x < SLOTS,
        ensures
            final(self).wf(),
            (final(self)@, r) == old(self)@.effect(Instruction::AddIndex { x }, 0),
    {
        self.idx = self.idx.wrapping_add(self.reg[x as usize] as u16);
        PC::Next
    }

    fn op_fx29(&mut self, x: u8) -> (r: PC)
        requires
            old(self).wf(),
            x < SLOTS,
        ensures
            final(self).wf(),
            (final(self)@, r) == old(self)@.effect(Instruction::FontGlyph { x }, 0),
    {
        self.idx = self.reg[x as usize] as u16 * GLYPH_SIZE + FONT_START;
        PC::Next
    }

    fn op_fx33(&mut self, x: u8) -> (r: PC)
        requires
            old(self).wf(),
            x < SLOTS,
            old(self)@.fault(Instruction::StoreBcd { x }) is None,
        ensures
            final(self).wf(),
            (final(self)@, r) == old(self)@.effect(Instruction::StoreBcd { x }, 0),
    {
        let num = self.reg[x as usize];
        let i = self.idx as usize;
        self.mem[i] = num / 100;
        self.mem[i + 1] = (num % 100) / 10;
        self.mem[i + 2] = num % 10;
        PC::Next
    }

    fn op_fx55(&mut self, x: u8) -> (r: PC)
        requires
            old(self).wf(),
            x < SLOTS,
            old(self)@.fault(Instruction::StoreRegs { x }) is None,
        ensures
            final(self).wf(),
            (final(self)@, r) == old(self)@.effect(Instruction::StoreRegs { x }, 0),
    {
        let ghost s0 = self@;
        let x = x as usize;
        let base = self.idx as usize;
        let mut i: usize = 0;
        while i <= x
            invariant
                s0 == old(self)@,
                s0.valid(),
                x < SLOTS,
                base == s0.idx,
                base + x + 1 <= MEMORY_SIZE,
                0 <= i <= x + 1,
                self@ == (ChipState { mem: self@.mem, ..s0 }),
                self.mem@.len() == MEMORY_SIZE,
                forall|a: int|
                    0 <= a < MEMORY_SIZE ==> #[trigger] self.mem@[a] == if base <= a < base + i {
                        s0.reg[a - base]
                    } else {
                        s0.mem[a]
                    },
            decreases x + 1 - i,
        {
            self.mem[base + i] = self.reg[i];
            i += 1;
        }
        assert(self@.mem =~= old(self)@.effect(Instruction::StoreRegs { x: x as u8 }, 0).0.mem);
        PC::Next
    }

    fn op_fx65(&mut self, x: u8) -> (r: PC)
        requires
            old(self).wf(),
            x < SLOTS,
            old(self)@.fault(Instruction::LoadRegs { x }) is None,
        ensures
            final(self).wf(),
            (final(self)@, r) == old(self)@.effect(Instruction::LoadRegs { x }, 0),
    {
        let ghost s0 = self@;
        let x = x as usize;
        let base = self.idx as usize;
        let mut i: usize = 0;
        while i <= x
            invariant
                s0 == old(self)@,
                s0.valid(),
                x < SLOTS,
                base == s0.idx,
                base + x + 1 <= MEMORY_SIZE,
                0 <= i <= x + 1,
                self@ == (ChipState { reg: self@.reg, ..s0 }),
                self.reg@.len() == SLOTS,
                forall|j: int|
                    0 <= j < SLOTS ==> #[trigger] self.reg@[j] == if j < i {
                        s0.mem[base + j]
                    } else {
                        s0.reg[j]
                    },
            decreases x + 1 - i,
        {
            self.reg[i] = self.mem[base + i];
            i += 1;
        }
        assert(self@.reg =~= old(self)@.effect(Instruction::LoadRegs { x: x as u8 }, 0).0.reg);
        PC::Next
    }
    fn op_dxyn(&mut self, x: u8, y: u8, n: u8) -> (r: PC)
        requires
            old(self).wf(),
            x < SLOTS,
            y < SLOTS,
            n < SLOTS,
            old(self)@.fault(Instruction::Draw { x, y, n }) is None,
        ensures
            final(self).wf(),
            (final(self)@, r) == old(self)@.effect(Instruction::Draw { x, y, n }, 0),
    {
        self.reg[FLAG] = 0;
        let ox = (self.reg[x as usize] % 64) as usize;
        let oy = (self.reg[y as usize] % 32) as usize;
        let rows: usize = if oy + n as usize > HEIGHT {
            HEIGHT - oy
        } else {
            n as usize
        };
        let ghost s0 = self@;
        let ghost v0 = self.vram@;
        let ghost m0 = self.mem@;
        assert(old(self)@.draw_origin(x, y) == (ox as int, oy as int));
        assert(rows == visible_rows(oy as int, n as int));
        let base = self.idx as usize;
        let mut hit = false;
        let mut row: usize = 0;
        while row < rows
            invariant
                s0.valid(),
                v0 == s0.vram,
                m0 == s0.mem,
                base == s0.idx,
                ox < WIDTH,
                oy < HEIGHT,
                rows <= HEIGHT - oy,
                rows > 0 ==> base + rows <= MEMORY_SIZE,
                row <= rows,
                self@ == (ChipState { vram: self@.vram, ..s0 }),
                self.vram@.len() == FRAME_SIZE,
                forall|i: int|
                    0 <= i < FRAME_SIZE ==> #[trigger] self.vram@[i] == if sprite_hits(
                        m0,
                        base as int,
                        ox as int,
                        oy as int,
                        rows as int,
                        i / WIDTH as int,
                        i % WIDTH as int,
                    ) && visited_before(i / WIDTH as int, i % WIDTH as int, oy + row, 0) {
                        flipped(v0[i])
                    } else {
                        v0[i]
                    },
                hit == exists|r: int, c: int|
                    0 <= r < HEIGHT && 0 <= c < WIDTH && visited_before(r, c, oy + row, 0)
                        && #[trigger] erases(v0, m0, base as int, ox as int, oy as int, rows as int, r, c),
            decreases rows - row,
        {
            let sprite = self.mem[base + row];
            let py = oy + row;
            let mut col: usize = 0;
            while col < 8 && ox + col < WIDTH
                invariant
                    s0.valid(),
                    v0 == s0.vram,
                    m0 == s0.mem,
                    base == s0.idx,
                    ox < WIDTH,
                    oy < HEIGHT,
                    rows <= HEIGHT - oy,
                    row < rows,
                    py == oy + row,
                    sprite == m0[base + row],
                    col <= 8,
                    ox + col <= WIDTH,
                    self@ == (ChipState { vram: self@.vram, ..s0 }),
                    self.vram@.len() == FRAME_SIZE,
                    forall|i: int|
                        0 <= i < FRAME_SIZE ==> #[trigger] self.vram@[i] == if sprite_hits(
                            m0,
                            base as int,
                            ox as int,
                            oy as int,
                            rows as int,
                            i / WIDTH as int,
                            i % WIDTH as int,
                        ) && visited_before(i / WIDTH as int, i % WIDTH as int, py as int, ox + col) {
                            flipped(v0[i])
                        } else {
                            v0[i]
                        },
                    hit == exists|r: int, c: int|
                        0 <= r < HEIGHT && 0 <= c < WIDTH && visited_before(r, c, py as int, ox + col)
                            && #[trigger] erases(v0, m0, base as int, ox as int, oy as int, rows as int, r, c),
                decreases 8 - col,
            {
                let ghost hit0 = hit;
                let i = py * WIDTH + ox + col;
                proof {
                    lemma_cell(py as int, ox + col);
                }
                assert(sprite_hits(m0, base as int, ox as int, oy as int, rows as int, py as int, ox + col)
                    <==> sprite_bit(sprite, col as int));
                if (sprite >> ((7 - col) as u8)) & 1 == 1 {
                    if self.vram[i] == 0 {
                        self.vram[i] = 1;
                    } else {
                        self.vram[i] = 0;
                        hit = true;
                        assert(erases(v0, m0, base as int, ox as int, oy as int, rows as int, py as int, ox + col));
                    }
                }
                assert forall|r: int, c: int|
                    0 <= r < HEIGHT && 0 <= c < WIDTH && visited_before(r, c, py as int, ox + col + 1)
                        && #[trigger] erases(v0, m0, base as int, ox as int, oy as int, rows as int, r, c)
                    implies hit by {
                    if !visited_before(r, c, py as int, ox + col) {
                        assert(r == py && c == ox + col);
                    }
                }
                assert forall|i: int| 0 <= i < FRAME_SIZE implies #[trigger] self.vram@[i] == if sprite_hits(
                    m0,
                    base as int,
                    ox as int,
                    oy as int,
                    rows as int,
                    i / WIDTH as int,
                    i % WIDTH as int,
                ) && visited_before(i / WIDTH as int, i % WIDTH as int, py as int, ox + col + 1) {
                    flipped(v0[i])
                } else {
                    v0[i]
                } by {
                }
                col += 1;
            }
            assert forall|r: int, c: int|
                0 <= r < HEIGHT && 0 <= c < WIDTH && sprite_hits(m0, base as int, ox as int, oy as int, rows as int, r, c)
                implies visited_before(r, c, py as int, ox + col) == visited_before(r, c, py + 1, 0) by {
            }
            row += 1;
        }
        if hit {
            self.reg[FLAG] = 1;
        }
        self.vram_change = true;
        assert forall|i: int| 0 <= i < FRAME_SIZE implies self.vram@[i] == drawn_frame(
            v0,
            m0,
            base as int,
            ox as int,
            oy as int,
            rows as int,
        )[i] by {
            assert(0 <= i / (WIDTH as int) < HEIGHT);
        }
        assert(self.vram@ =~= drawn_frame(v0, m0, base as int, ox as int, oy as int, rows as int));
        assert(hit == collides(v0, m0, base as int, ox as int, oy as int, rows as int));
        assert(self@.reg =~= old(self)@.draw_effect(x, y, n).reg);
        PC::Next
    }
    /// The fatal condition that `ins` meets in the current state, if any.
    fn fault(&self, ins: Instruction) -> (r: Option<ChipError>)
        requires
            self.wf(),
            ins.in_range(),
        ensures
            r == self@.fault(ins),
    {
        match ins {
            Instruction::Return => if self.sp == 0 {
                Some(ChipError::StackUnderflow)
            } else {
                None
            },
            Instruction::Call(_) => if self.sp as usize >= SLOTS {
                Some(ChipError::StackOverflow)
            } else {
                None
            },
            Instruction::Draw { x, y, n } => {
                let vy = if y as usize == FLAG {
                    0
                } else {
                    self.reg[y as usize]
                };
                let oy = (vy % 32) as usize;
                let rows: usize = if oy + n as usize > HEIGHT {
                    HEIGHT - oy
                } else {
                    n as usize
                };
                if rows > 0 && self.idx as usize + rows > MEMORY_SIZE {
                    Some(ChipError::MemoryAccessError)
                } else {
                    None
                }
            },
            Instruction::StoreBcd { .. } => if self.idx as usize + 3 > MEMORY_SIZE {
                Some(ChipError::MemoryAccessError)
            } else {
                None
            },
            Instruction::StoreRegs { x } | Instruction::LoadRegs { x } => if self.idx as usize
                + x as usize + 1 > MEMORY_SIZE {
                Some(ChipError::MemoryAccessError)
            } else {
                None
            },
            Instruction::Unknown(op) => if self.strict {
                Some(ChipError::UnknownOpcode(op))
            } else {
                None
            },
            _ => None,
        }
    }

    /// Runs `ins`, which meets no fault, and says how the program counter moves.
    fn execute(&mut self, ins: Instruction, random: u8) -> (r: PC)
        requires
            old(self).wf(),
            old(self)@.pc + 2 <= MEMORY_SIZE,
            ins.in_range(),
            old(self)@.fault(ins) is None,
        ensures
            final(self).wf(),
            (final(self)@, r) == old(self)@.effect(ins, random),
    {
        match ins {
            Instruction::ClearScreen => self.op_00e0(),
            Instruction::Return => self.op_00ee(),
            Instruction::Jump(nnn) => PC::Jump(nnn),
            Instruction::Call(nnn) => self.op_2nnn(nnn),
            Instruction::SkipEqImm { x, kk } => PC::skip_if(self.reg[x as usize] == kk),
            Instruction::SkipNeImm { x, kk } => PC::skip_if(self.reg[x as usize] != kk),
            Instruction::SkipEqReg { x, y } => PC::skip_if(
                self.reg[x as usize] == self.reg[y as usize],
            ),
            Instruction::LoadImm { x, kk } => self.op_6xkk(x, kk),
            Instruction::AddImm { x, kk } => self.op_7xkk(x, kk),
            Instruction::Move { x, y } => self.op_8xy0(x, y),
            Instruction::Or { x, y } => self.op_8xy1(x, y),
            Instruction::And { x, y } => self.op_8xy2(x, y),
            Instruction::Xor { x, y } => self.op_8xy3(x, y),
            Instruction::AddReg { x, y } => self.op_8xy4(x, y),
            Instruction::Sub { x, y } => self.op_8xy5(x, y),
            Instruction::ShiftRight { x } => self.op_8xy6(x),
            Instruction::SubReversed { x, y } => self.op_8xy7(x, y),
            Instruction::ShiftLeft { x } => self.op_8xye(x),
            Instruction::SkipNeReg { x, y } => PC::skip_if(
                self.reg[x as usize] != self.reg[y as usize],
            ),
            Instruction::SetIndex(nnn) => self.op_annn(nnn),
            Instruction::JumpOffset(nnn) => PC::Jump(nnn + self.reg[0] as u16),
            Instruction::Random { x, kk } => self.op_cxkk(x, kk, random),
            Instruction::Draw { x, y, n } => self.op_dxyn(x, y, n),
            Instruction::SkipKey { x } => PC::skip_if(self.key_pressed(self.reg[x as usize])),
            Instruction::SkipNotKey { x } => PC::skip_if(!self.key_pressed(self.reg[x as usize])),
            Instruction::GetDelay { x } => self.op_fx07(x),
            Instruction::WaitKey { x } => self.op_fx0a(x),
            Instruction::SetDelay { x } => self.op_fx15(x),
            Instruction::SetSound { x } => self.op_fx18(x),
            Instruction::AddIndex { x } => self.op_fx1e(x),
            Instruction::FontGlyph { x } => self.op_fx29(x),
            Instruction::StoreBcd { x } => self.op_fx33(x),
            Instruction::StoreRegs { x } => self.op_fx55(x),
            Instruction::LoadRegs { x } => self.op_fx65(x),
            Instruction::Unknown(_) => PC::Next,
        }
    }

    /// Whether key `k` is pressed; values past the last key never are.
    fn key_pressed(&self, k: u8) -> (r: bool)
        requires
            self.wf(),
        ensures
            r == self@.key_pressed(k),
    {
        (k as usize) < SLOTS && self.keys[k as usize]
    }

    /// The opcode at the program counter.
    fn fetch(&self) -> (r: u16)
        requires
            self.wf(),
            self@.pc + 1 < MEMORY_SIZE,
        ensures
            r == self@.opcode(),
    {
        let pc = self.pc as usize;
        self.mem[pc] as u16 * 256 + self.mem[pc + 1] as u16
    }

    /// A tick spent waiting for a key.
    fn key_wait_tick(&mut self, random: u8) -> (r: OutputChange)
        requires
            old(self).wf(),
            old(self)@.key_waiting,
        ensures
            final(self).wf(),
            old(self)@.ticked(random, final(self)@, Ok(r)),
    {
        self.vram_change = false;
        let mut i: usize = 0;
        while i < SLOTS && !self.keys[i]
            invariant
                self.wf(),
                i <= SLOTS,
                first_pressed(self.keys@, 0) == first_pressed(self.keys@, i as int),
                self@ == (ChipState { vram_change: false, ..old(self)@ }),
            decreases SLOTS - i,
        {
            i += 1;
        }
        if i < SLOTS {
            self.key_waiting = false;
            self.reg[self.key_register as usize] = i as u8;
        }
        OutputChange { vram: self.vram_change, beep: self.sound_timer > 0 }
    }

    /// One tick, with `random` as the byte that a random instruction uses.
    /// While waiting for a key it stores the lowest pressed key, if any, in
    /// the waiting register and stops waiting; nothing else moves. Otherwise
    /// both timers count down, and the instruction at the program counter
    /// runs. A fatal condition leaves the machine as it was.
    #[verifier::rlimit(40)]
    pub fn tick_with_random(&mut self, random: u8) -> (r: Result<OutputChange, ChipError>)
        requires
            old(self).wf(),
        ensures
            final(self).wf(),
            old(self)@.ticked(random, final(self)@, r),
    {
        if self.key_waiting {
            return Ok(self.key_wait_tick(random));
        }
        if self.pc as usize + 1 >= MEMORY_SIZE {
            return Err(ChipError::MemoryAccessError);
        }
        let ins = Instruction::decode(self.fetch());
        match self.fault(ins) {
            Some(e) => {
                return Err(e);
            },
            None => {},
        }
        self.vram_change = false;
        if self.delay_timer > 0 {
            self.delay_timer -= 1;
        }
        if self.sound_timer > 0 {
            self.sound_timer -= 1;
        }
        let a = self.execute(ins, random);
        self.pc = match a {
            PC::Next => self.pc + 2,
            PC::Skip => self.pc + 4,
            PC::Jump(addr) => addr,
        };
        Ok(OutputChange { vram: self.vram_change, beep: self.sound_timer > 0 })
    }

    /// Whether the next tick runs a random-byte instruction.
    fn next_is_random(&self) -> bool
        requires
            self.wf(),
    {
        if self.key_waiting || self.pc as usize + 1 >= MEMORY_SIZE {
            return false;
        }
        match Instruction::decode(self.fetch()) {
            Instruction::Random { .. } => true,
            _ => false,
        }
    }

    /// One tick, as `tick_with_random`, where a random instruction takes its
    /// byte from the system's random source (0 when the source fails).
    pub fn tick(&mut self) -> (r: Result<OutputChange, ChipError>)
        requires
            old(self).wf(),
        ensures
            final(self).wf(),
            exists|random: u8| #[trigger] old(self)@.ticked(random, final(self)@, r),
    {
        let random = if self.next_is_random() {
            random_byte()
        } else {
            0
        };
        self.tick_with_random(random)
    }

    /// The general registers, V0 to VF.
    pub fn registers(&self) -> (r: &[u8])
        ensures
            r@ == self@.reg,
    {
        self.reg.as_slice()
    }

    /// The whole memory.
    pub fn memory(&self) -> (r: &[u8])
        ensures
            r@ == self@.mem,
    {
        self.mem.as_slice()
    }

    /// The framebuffer, row by row, one byte (0 or 1) per pixel.
    pub fn framebuffer(&self) -> (r: &[u8])
        ensures
            r@ == self@.vram,
    {
        self.vram.as_slice()
    }

    /// The index register.
    pub fn index(&self) -> (r: u16)
        ensures
            r == self@.idx,
    {
        self.idx
    }

    /// The number of return addresses on the call stack.
    pub fn stack_pointer(&self) -> (r: u8)
        ensures
            r == self@.sp,
    {
        self.sp
    }

    /// The delay timer.
    pub fn delay_timer(&self) -> (r: u8)
        ensures
            r == self@.delay_timer,
    {
        self.delay_timer
    }

    /// The sound timer.
    pub fn sound_timer(&self) -> (r: u8)
        ensures
            r == self@.sound_timer,
    {
        self.sound_timer
    }

    /// Whether the machine is waiting for a key.
    pub fn is_waiting_for_key(&self) -> (r: bool)
        ensures
            r == self@.key_waiting,
    {
        self.key_waiting
    }
}

} // verus!
