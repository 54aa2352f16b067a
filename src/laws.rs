//! Properties of the machine that hold for every state and every input,
//! stated over the model and proved.
use vstd::prelude::*;
use crate::instruction::{decoded, Instruction};
use crate::model::{
    cell, countdown, erases, first_pressed, flipped, lemma_cell, opcode_at, sprite_bit, sprite_hits,
    visible_rows,
    ChipError, ChipState, FLAG, HEIGHT, MEMORY_SIZE, SLOTS, WIDTH,
};

verus! {

/// A tick that adds register `y` to register `x` sets the flag register to
/// 1 exactly when the unsigned sum exceeds 255 and stores the sum modulo 256
/// in `x` (unless `x` is the flag register itself, which the flag, written
/// last, overwrites); no other register changes.
pub proof fn law_add_carry(s: ChipState, random: u8)
    requires
        s.valid(),
        !s.key_waiting,
        s.pc + 1 < MEMORY_SIZE,
        decoded(s.opcode()) is AddReg,
    ensures
        s.tick(random) is Ok,
        ({
            let t = s.tick(random)->Ok_0;
            let (x, y) = (decoded(s.opcode())->AddReg_x, decoded(s.opcode())->AddReg_y);
            let sum = s.reg[x as int] + s.reg[y as int];
            &&& t.reg[FLAG as int] == (if sum > 255 { 1u8 } else { 0u8 })
            &&& x != FLAG ==> t.reg[x as int] == sum % 256
            &&& forall|i: int|
                0 <= i < SLOTS && i != x && i != FLAG ==> #[trigger] t.reg[i] == s.reg[i]
            &&& t.pc == s.pc + 2
        }),
{
}

/// A tick that subtracts register `y` from register `x` first sets the flag
/// register to 1 exactly when `Vx >= Vy`, then stores `(Vx - Vy) mod 256` in
/// `x`, never overflowing; when `x` is the flag register the difference
/// overwrites the flag, and when `y` is, the flag just written is subtracted.
/// No other register changes.
pub proof fn law_sub_borrow(s: ChipState, random: u8)
    requires
        s.valid(),
        !s.key_waiting,
        s.pc + 1 < MEMORY_SIZE,
        decoded(s.opcode()) is Sub,
    ensures
        s.tick(random) is Ok,
        ({
            let t = s.tick(random)->Ok_0;
            let (x, y) = (decoded(s.opcode())->Sub_x, decoded(s.opcode())->Sub_y);
            let (vx, vy) = (s.reg[x as int], s.reg[y as int]);
            &&& x != FLAG ==> t.reg[FLAG as int] == (if vx >= vy { 1u8 } else { 0u8 })
            &&& x != FLAG && y != FLAG ==> t.reg[x as int] == (vx - vy) % 256
            &&& forall|i: int|
                0 <= i < SLOTS && i != x && i != FLAG ==> #[trigger] t.reg[i] == s.reg[i]
            &&& t.pc == s.pc + 2
        }),
{
}

/// A tick that runs clear-screen leaves every pixel off and reports the
/// framebuffer as changed, whatever it held before.
pub proof fn law_clear_screen(s: ChipState, random: u8)
    requires
        s.valid(),
        !s.key_waiting,
        s.pc + 1 < MEMORY_SIZE,
        s.opcode() == 0x00E0,
    ensures
        s.tick(random) is Ok,
        ({
            let t = s.tick(random)->Ok_0;
            &&& t.vram.len() == s.vram.len()
            &&& forall|i: int| 0 <= i < t.vram.len() ==> t.vram[i] == 0
            &&& t.output().vram
        }),
{
}

/// Drawing a sprite whose every set bit that lands on the screen falls on a
/// pixel that is on, with at least one such bit, turns those pixels off and
/// sets the flag register to 1.
pub proof fn law_draw_over_set_pixels(s: ChipState, x: u8, y: u8, n: u8)
    requires
        s.valid(),
        x < SLOTS,
        y < SLOTS,
        n < SLOTS,
        s.fault(Instruction::Draw { x, y, n }) is None,
        ({
            let (ox, oy) = s.draw_origin(x, y);
            let rows = visible_rows(oy, n as int);
            &&& exists|r: int, c: int|
                0 <= r < HEIGHT && 0 <= c < WIDTH && #[trigger] sprite_hits(
                    s.mem,
                    s.idx as int,
                    ox,
                    oy,
                    rows,
                    r,
                    c,
                )
            &&& forall|r: int, c: int|
                0 <= r < HEIGHT && 0 <= c < WIDTH && #[trigger] sprite_hits(
                    s.mem,
                    s.idx as int,
                    ox,
                    oy,
                    rows,
                    r,
                    c,
                ) ==> s.vram[cell(r, c)] != 0
        }),
    ensures
        ({
            let t = s.effect(Instruction::Draw { x, y, n }, 0).0;
            let (ox, oy) = s.draw_origin(x, y);
            let rows = visible_rows(oy, n as int);
            &&& t.reg[FLAG as int] == 1
            &&& forall|r: int, c: int|
                0 <= r < HEIGHT && 0 <= c < WIDTH && #[trigger] sprite_hits(
                    s.mem,
                    s.idx as int,
                    ox,
                    oy,
                    rows,
                    r,
                    c,
                ) ==> t.vram[cell(r, c)] == 0
        }),
{
    let (ox, oy) = s.draw_origin(x, y);
    let rows = visible_rows(oy, n as int);
    let (r, c) = choose|r: int, c: int|
        0 <= r < HEIGHT && 0 <= c < WIDTH && #[trigger] sprite_hits(
            s.mem,
            s.idx as int,
            ox,
            oy,
            rows,
            r,
            c,
        );
    assert(erases(s.vram, s.mem, s.idx as int, ox, oy, rows, r, c));
    let t = s.effect(Instruction::Draw { x, y, n }, 0).0;
    assert forall|r: int, c: int|
        0 <= r < HEIGHT && 0 <= c < WIDTH && #[trigger] sprite_hits(
            s.mem,
            s.idx as int,
            ox,
            oy,
            rows,
            r,
            c,
        ) implies t.vram[cell(r, c)] == 0 by {
        lemma_cell(r, c);
    }
}

/// Drawing a sprite over pixels that are all off turns on every pixel that a
/// set bit falls on and leaves the flag register at 0.
pub proof fn law_draw_over_blank(s: ChipState, x: u8, y: u8, n: u8)
    requires
        s.valid(),
        x < SLOTS,
        y < SLOTS,
        n < SLOTS,
        ({
            let (ox, oy) = s.draw_origin(x, y);
            let rows = visible_rows(oy, n as int);
            forall|r: int, c: int|
                0 <= r < HEIGHT && 0 <= c < WIDTH && #[trigger] sprite_hits(
                    s.mem,
                    s.idx as int,
                    ox,
                    oy,
                    rows,
                    r,
                    c,
                ) ==> s.vram[cell(r, c)] == 0
        }),
    ensures
        ({
            let t = s.effect(Instruction::Draw { x, y, n }, 0).0;
            let (ox, oy) = s.draw_origin(x, y);
            let rows = visible_rows(oy, n as int);
            &&& t.reg[FLAG as int] == 0
            &&& forall|r: int, c: int|
                0 <= r < HEIGHT && 0 <= c < WIDTH && #[trigger] sprite_hits(
                    s.mem,
                    s.idx as int,
                    ox,
                    oy,
                    rows,
                    r,
                    c,
                ) ==> t.vram[cell(r, c)] == 1
        }),
{
    let (ox, oy) = s.draw_origin(x, y);
    let rows = visible_rows(oy, n as int);
    let t = s.effect(Instruction::Draw { x, y, n }, 0).0;
    assert forall|r: int, c: int|
        0 <= r < HEIGHT && 0 <= c < WIDTH && #[trigger] sprite_hits(
            s.mem,
            s.idx as int,
            ox,
            oy,
            rows,
            r,
            c,
        ) implies t.vram[cell(r, c)] == 1 by {
        lemma_cell(r, c);
    }
}

/// 1 where a set bit of the `n`-row sprite at `idx`, with its top left
/// corner at (`oy`, `ox`), falls on pixel (`r`, `c`); else 0.
pub open spec fn sprite_mask(mem: Seq<u8>, idx: int, ox: int, oy: int, n: int, r: int, c: int) -> u8 {
    if oy <= r < oy + n && ox <= c < ox + 8 && sprite_bit(mem[idx + r - oy], c - ox) {
        1
    } else {
        0
    }
}

proof fn lemma_xor_pixel(p: u8)
    requires
        p <= 1,
    ensures
        p ^ 1 == flipped(p),
        p ^ 0 == p,
{
    assert(p ^ 1 == (if p == 0 { 1u8 } else { 0u8 }) && p ^ 0 == p) by (bit_vector)
        requires
            p <= 1,
    ;
}

/// Drawing XORs the sprite onto the frame, clipped and never wrapped: rows
/// past the bottom edge and columns past the right edge are dropped, each
/// column on its own, and every pixel on the screen becomes its old value
/// XOR the sprite bit that falls on it (0 where none does).
pub proof fn law_draw_clips(s: ChipState, x: u8, y: u8, n: u8)
    requires
        s.valid(),
        x < SLOTS,
        y < SLOTS,
        n < SLOTS,
    ensures
        ({
            let t = s.effect(Instruction::Draw { x, y, n }, 0).0;
            let (ox, oy) = s.draw_origin(x, y);
            forall|r: int, c: int|
                0 <= r < HEIGHT && 0 <= c < WIDTH ==> #[trigger] t.vram[cell(r, c)] == s.vram[cell(
                    r,
                    c,
                )] ^ sprite_mask(s.mem, s.idx as int, ox, oy, n as int, r, c)
        }),
{
    let t = s.effect(Instruction::Draw { x, y, n }, 0).0;
    let (ox, oy) = s.draw_origin(x, y);
    assert forall|r: int, c: int| 0 <= r < HEIGHT && 0 <= c < WIDTH implies #[trigger] t.vram[cell(
        r,
        c,
    )] == s.vram[cell(r, c)] ^ sprite_mask(s.mem, s.idx as int, ox, oy, n as int, r, c) by {
        lemma_cell(r, c);
        lemma_xor_pixel(s.vram[cell(r, c)]);
    }
}

/// Drawing the same sprite twice at the same place gives back the frame
/// as it was.
pub proof fn law_draw_twice(s: ChipState, x: u8, y: u8, n: u8)
    requires
        s.valid(),
        x < SLOTS,
        y < SLOTS,
        n < SLOTS,
    ensures
        ({
            let t = s.effect(Instruction::Draw { x, y, n }, 0).0;
            t.effect(Instruction::Draw { x, y, n }, 0).0.vram == s.vram
        }),
{
    let t = s.effect(Instruction::Draw { x, y, n }, 0).0;
    assert(t.with_reg(FLAG as int, 0).reg =~= s.with_reg(FLAG as int, 0).reg);
    assert(t.draw_origin(x, y) == s.draw_origin(x, y));
    let u = t.effect(Instruction::Draw { x, y, n }, 0).0;
    assert(u.vram =~= s.vram);
}

/// A tick that runs a draw which meets no fault leaves the frame and the
/// registers exactly as the draw instruction alone does, so the laws on
/// drawing above hold of such ticks.
pub proof fn law_tick_draw(s: ChipState, random: u8)
    requires
        s.valid(),
        !s.key_waiting,
        s.pc + 1 < MEMORY_SIZE,
        decoded(s.opcode()) is Draw,
        s.fault(decoded(s.opcode())) is None,
    ensures
        s.tick(random) is Ok,
        ({
            let t = s.tick(random)->Ok_0;
            let d = s.effect(decoded(s.opcode()), 0).0;
            &&& t.vram == d.vram
            &&& t.reg == d.reg
            &&& t.output().vram
            &&& t.pc == s.pc + 2
        }),
{
}

/// Facts about the lowest pressed key at or after `i`.
pub proof fn lemma_first_pressed(keys: Seq<bool>, i: int)
    requires
        0 <= i <= keys.len(),
    ensures
        i <= first_pressed(keys, i) <= keys.len(),
        first_pressed(keys, i) < keys.len() ==> keys[first_pressed(keys, i)],
        forall|j: int| i <= j < first_pressed(keys, i) ==> !keys[j],
    decreases keys.len() - i,
{
    if i < keys.len() && !keys[i] {
        lemma_first_pressed(keys, i + 1);
    }
}

/// While waiting for a key with none pressed, a tick changes nothing that the
/// program sees: program counter, timers, registers and memory stay, the
/// machine keeps waiting and the framebuffer is reported unchanged.
pub proof fn law_wait_without_key(s: ChipState, random: u8)
    requires
        s.valid(),
        s.key_waiting,
        forall|k: int| 0 <= k < SLOTS ==> !s.keys[k],
    ensures
        s.tick(random) is Ok,
        ({
            let t = s.tick(random)->Ok_0;
            &&& t.pc == s.pc
            &&& t.delay_timer == s.delay_timer
            &&& t.sound_timer == s.sound_timer
            &&& t.reg == s.reg
            &&& t.mem == s.mem
            &&& t.key_waiting
            &&& !t.output().vram
        }),
{
    lemma_first_pressed(s.keys, 0);
}

/// While waiting for a key with some key pressed, a tick stores the lowest
/// pressed key in the waiting register and stops waiting, without moving the
/// program counter or the timers; the tick after that counts the timers down
/// and runs the instruction at the program counter.
pub proof fn law_wait_with_key(s: ChipState, k: int, random: u8, next_random: u8)
    requires
        s.valid(),
        s.key_waiting,
        0 <= k < SLOTS,
        s.keys[k],
        forall|j: int| 0 <= j < k ==> !s.keys[j],
    ensures
        s.tick(random) is Ok,
        ({
            let t = s.tick(random)->Ok_0;
            &&& t.reg[s.key_register as int] == k
            &&& !t.key_waiting
            &&& t.pc == s.pc
            &&& t.delay_timer == s.delay_timer
            &&& t.sound_timer == s.sound_timer
            &&& !t.output().vram
            &&& t.pc + 1 < MEMORY_SIZE ==> t.tick(next_random) == (ChipState {
                vram_change: false,
                delay_timer: countdown(t.delay_timer),
                sound_timer: countdown(t.sound_timer),
                ..t
            }).execute(decoded(t.opcode()), next_random)
        }),
{
    lemma_first_pressed(s.keys, 0);
}

/// Each tick moves each timer down by one at most, never below zero, and not
/// at all while waiting for a key; the instructions that set a timer are the
/// exception for that timer.
pub proof fn law_timers(s: ChipState, random: u8)
    requires
        s.valid(),
        s.tick(random) is Ok,
    ensures
        ({
            let t = s.tick(random)->Ok_0;
            let ins = decoded(s.opcode());
            &&& s.key_waiting ==> t.delay_timer == s.delay_timer && t.sound_timer
                == s.sound_timer
            &&& !s.key_waiting && !(ins is SetDelay) ==> t.delay_timer == countdown(
                s.delay_timer,
            )
            &&& !s.key_waiting && !(ins is SetSound) ==> t.sound_timer == countdown(
                s.sound_timer,
            )
        }),
{
}

/// A call at address `p` to a subroutine whose first instruction returns
/// brings execution back to `p + 2` with the stack as it was, at every
/// nesting depth that leaves room for the call.
pub proof fn law_call_return(s: ChipState, random1: u8, random2: u8)
    requires
        s.valid(),
        !s.key_waiting,
        s.pc + 1 < MEMORY_SIZE,
        decoded(s.opcode()) is Call,
        s.sp < SLOTS,
        ({
            let target = decoded(s.opcode())->Call_0;
            target + 1 < MEMORY_SIZE && decoded(opcode_at(s.mem, target as int)) is Return
        }),
    ensures
        s.tick(random1) is Ok,
        s.tick(random1)->Ok_0.tick(random2) is Ok,
        ({
            let u = s.tick(random1)->Ok_0.tick(random2)->Ok_0;
            &&& u.pc == s.pc + 2
            &&& u.sp == s.sp
            &&& u.reg == s.reg
        }),
{
}

/// A call with all sixteen stack slots in use is reported as a stack
/// overflow and leaves the machine as it was.
pub proof fn law_call_overflow(s: ChipState, random: u8)
    requires
        s.valid(),
        !s.key_waiting,
        s.pc + 1 < MEMORY_SIZE,
        decoded(s.opcode()) is Call,
        s.sp == SLOTS,
    ensures
        s.tick(random) == Err::<ChipState, ChipError>(ChipError::StackOverflow),
{
}

} // verus!
