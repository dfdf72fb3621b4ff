use vstd::prelude::*;
use crate::machine::{
    FLAG, MEM_SIZE, MachineState, PROGRAM_START, SCREEN_HEIGHT, SCREEN_WIDTH, bit_of, can_fetch,
    cycle_result, draw_collides, mem_range_ok, op_result, opcode_at, sprite_col, sprite_covers,
    sprite_row,
};
use crate::cpu::lemma_pixel_at;
use crate::ops::{Opcode, decode};

verus! {

/// Adding register `y` to register `x` leaves `(a + b) mod 256` in `x` and
/// sets the flag register to 1 exactly when `a + b` exceeds 255. (When `x` is
/// the flag register itself the flag overwrites the sum.)
pub proof fn lemma_add_sets_carry(s: MachineState, x: u8, y: u8, rnd: u8)
    requires
        s.wf(),
        x < 16,
        y < 16,
        x != FLAG,
    ensures
        op_result(s, Opcode::Add(x, y), rnd) is Ok,
        ({
            let t = op_result(s, Opcode::Add(x, y), rnd)->Ok_0.0;
            let (a, b) = (s.reg(x), s.reg(y));
            &&& t.regs[FLAG as int] == (if a + b > 255 { 1u8 } else { 0u8 })
            &&& t.regs[x as int] == (a + b) % 256
        }),
{
}

/// `Substract(x, y)` leaves `(a - b) mod 256` in `x` and sets the flag to 1
/// exactly when `a >= b` (no borrow); `MinusReg(x, y)` does the same with the
/// operands swapped. (When `x` is the flag register the flag overwrites the
/// difference.)
pub proof fn lemma_subtract_sets_no_borrow(s: MachineState, x: u8, y: u8, rnd: u8)
    requires
        s.wf(),
        x < 16,
        y < 16,
        x != FLAG,
    ensures
        op_result(s, Opcode::Substract(x, y), rnd) is Ok,
        op_result(s, Opcode::MinusReg(x, y), rnd) is Ok,
        ({
            let t = op_result(s, Opcode::Substract(x, y), rnd)->Ok_0.0;
            let (a, b) = (s.reg(x), s.reg(y));
            &&& t.regs[FLAG as int] == (if a >= b { 1u8 } else { 0u8 })
            &&& t.regs[x as int] == (a - b) % 256
        }),
        ({
            let t = op_result(s, Opcode::MinusReg(x, y), rnd)->Ok_0.0;
            let (a, b) = (s.reg(x), s.reg(y));
            &&& t.regs[FLAG as int] == (if b >= a { 1u8 } else { 0u8 })
            &&& t.regs[x as int] == (b - a) % 256
        }),
{
}

/// A right shift moves the least significant bit into the flag register, a
/// left shift the most significant one. (When the shifted register is the
/// flag register the shifted value overwrites the bit.)
pub proof fn lemma_shift_sets_shifted_out_bit(s: MachineState, x: u8, rnd: u8)
    requires
        s.wf(),
        x < 16,
        x != FLAG,
    ensures
        op_result(s, Opcode::ShiftRight(x), rnd) is Ok,
        op_result(s, Opcode::ShiftLeft(x), rnd) is Ok,
        ({
            let t = op_result(s, Opcode::ShiftRight(x), rnd)->Ok_0.0;
            let v = s.reg(x);
            &&& t.regs[FLAG as int] == v & 1
            &&& t.regs[x as int] == v >> 1
        }),
        ({
            let t = op_result(s, Opcode::ShiftLeft(x), rnd)->Ok_0.0;
            let v = s.reg(x);
            &&& t.regs[FLAG as int] == v >> 7
            &&& t.regs[x as int] == ((v as u16) << 1u16) as u8
        }),
{
    let v = s.reg(x);
    assert(v & 1 == v % 2 && v >> 1 == v / 2) by (bit_vector);
    assert(v >> 7 == v / 128 && ((v as u16) << 1u16) as u8 == (v * 2) % 256) by (bit_vector);
}

/// Drawing the same sprite twice at the same coordinates restores the display
/// (each pixel flips twice), and the second draw reports a collision whenever
/// the first one lit a pixel.
pub proof fn lemma_draw_twice_restores(s: MachineState, xr: u8, yr: u8, rows: u8, rnd: u8)
    requires
        s.wf(),
        xr < 16,
        yr < 16,
        rows < 16,
        xr != FLAG,
        yr != FLAG,
        mem_range_ok(s.i as int, rows as int),
    ensures
        op_result(s, Opcode::DrawSprite(xr, yr, rows), rnd) is Ok,
        ({
            let once = op_result(s, Opcode::DrawSprite(xr, yr, rows), rnd)->Ok_0.0;
            &&& op_result(once, Opcode::DrawSprite(xr, yr, rows), rnd) is Ok
            &&& op_result(once, Opcode::DrawSprite(xr, yr, rows), rnd)->Ok_0.0.gfx == s.gfx
            &&& (exists|p: int|
                0 <= p < SCREEN_WIDTH * SCREEN_HEIGHT && #[trigger] once.gfx[p] && !s.gfx[p])
                ==> op_result(once, Opcode::DrawSprite(xr, yr, rows), rnd)->Ok_0.0.regs[FLAG as int]
                == 1
        }),
{
    let once = op_result(s, Opcode::DrawSprite(xr, yr, rows), rnd)->Ok_0.0;
    let twice = op_result(once, Opcode::DrawSprite(xr, yr, rows), rnd)->Ok_0.0;
    let (x, y) = (s.reg(xr), s.reg(yr));
    assert(once.reg(xr) == x && once.reg(yr) == y);
    assert(twice.gfx =~= s.gfx);
    if exists|p: int| 0 <= p < SCREEN_WIDTH * SCREEN_HEIGHT && #[trigger] once.gfx[p] && !s.gfx[p] {
        let p = choose|p: int| 0 <= p < SCREEN_WIDTH * SCREEN_HEIGHT && #[trigger] once.gfx[p] && !s.gfx[p];
        assert(sprite_covers(once.mem, once.i, rows, x, y, p));
        assert(draw_collides(once, rows, x, y));
    }
}

/// Screen coordinates wrap: the bit in column `c` of sprite row `r` lands on
/// column `(x + c) mod 64` of row `(y + r) mod 32`, and flips that pixel
/// exactly when it is set.
pub proof fn lemma_draw_wraps(s: MachineState, xr: u8, yr: u8, rows: u8, rnd: u8, r: int, c: int)
    requires
        s.wf(),
        xr < 16,
        yr < 16,
        rows < 16,
        mem_range_ok(s.i as int, rows as int),
        0 <= r < rows,
        0 <= c < 8,
    ensures
        op_result(s, Opcode::DrawSprite(xr, yr, rows), rnd) is Ok,
        ({
            let t = op_result(s, Opcode::DrawSprite(xr, yr, rows), rnd)->Ok_0.0;
            let p = ((s.reg(yr) + r) % 32) * 64 + (s.reg(xr) + c) % 64;
            t.gfx[p] == (s.gfx[p] != bit_of(s.mem[s.i + r], c))
        }),
{
    let (x, y) = (s.reg(xr), s.reg(yr));
    let p = ((y + r) % 32) * 64 + (x + c) % 64;
    lemma_pixel_at(x, y, r, c, 0);
    lemma_pixel_at(x, y, r, c, p);
    assert(sprite_covers(s.mem, s.i, rows, x, y, p) == bit_of(s.mem[s.i + r], c));
}

/// Storing a byte as binary-coded decimal writes its hundreds, tens and units
/// digits at the index register and the two addresses after it.
pub proof fn lemma_bcd_digits(s: MachineState, x: u8, rnd: u8)
    requires
        s.wf(),
        x < 16,
        s.i + 3 <= MEM_SIZE,
    ensures
        op_result(s, Opcode::StoreBCD(x), rnd) is Ok,
        ({
            let t = op_result(s, Opcode::StoreBCD(x), rnd)->Ok_0.0;
            let (h, d, u) = (t.mem[s.i as int], t.mem[s.i + 1], t.mem[s.i + 2]);
            &&& h < 10 && d < 10 && u < 10
            &&& 100 * h + 10 * d + u == s.reg(x)
        }),
{
}

/// `Store(n)` writes registers `0..n` (register `n` excluded) while
/// `Restore(n)` reads registers `0..=n` (register `n` included): so
/// `Store(0)` leaves memory as it was and `Restore(0)` still loads register 0.
pub proof fn lemma_store_restore_bounds(s: MachineState, n: u8, rnd: u8)
    requires
        s.wf(),
        n < 16,
        s.i + n + 1 <= MEM_SIZE,
    ensures
        op_result(s, Opcode::Store(n), rnd) is Ok,
        op_result(s, Opcode::Restore(n), rnd) is Ok,
        ({
            let t = op_result(s, Opcode::Store(n), rnd)->Ok_0.0;
            &&& forall|k: int| 0 <= k < n ==> #[trigger] t.mem[s.i + k] == s.regs[k]
            &&& t.mem[s.i + n] == s.mem[s.i + n]
        }),
        ({
            let t = op_result(s, Opcode::Restore(n), rnd)->Ok_0.0;
            &&& forall|k: int| 0 <= k <= n ==> #[trigger] t.regs[k] == s.mem[s.i + k]
            &&& forall|k: int| n < k < 16 ==> #[trigger] t.regs[k] == s.regs[k]
        }),
        n == 0 ==> op_result(s, Opcode::Store(n), rnd)->Ok_0.0.mem == s.mem,
{
    if n == 0 {
        assert(op_result(s, Opcode::Store(n), rnd)->Ok_0.0.mem =~= s.mem);
    }
}

/// A key wait with no key released since the previous cycle leaves the
/// program counter on itself, so it runs again next cycle; once a key has
/// been released, its index lands in the register and execution moves on.
pub proof fn lemma_key_wait(s: MachineState, x: u8, rnd: u8)
    requires
        s.wf(),
        can_fetch(s),
        decode(opcode_at(s)) == Opcode::GetKeypress(x),
    ensures
        cycle_result(s, rnd) is Ok,
        s.last_key is None ==> cycle_result(s, rnd)->Ok_0.0.pc == s.pc,
        s.last_key is Some ==> ({
            let t = cycle_result(s, rnd)->Ok_0.0;
            &&& t.pc == s.pc + 2
            &&& t.regs[x as int] == s.last_key->Some_0
        }),
{
}

/// A jump to its own address at the program start keeps the machine there:
/// each cycle succeeds and leaves the program counter where it was.
pub proof fn lemma_self_jump_loops(s: MachineState, rnd: u8)
    requires
        s.wf(),
        s.pc == PROGRAM_START,
        s.mem[PROGRAM_START as int] == 0x12,
        s.mem[PROGRAM_START + 1] == 0x00,
    ensures
        cycle_result(s, rnd) is Ok,
        cycle_result(s, rnd)->Ok_0.0.pc == PROGRAM_START,
        cycle_result(s, rnd)->Ok_0.0.mem == s.mem,
{
    assert(opcode_at(s) == 0x1200);
    assert(decode(0x1200) == Opcode::Jump(0x200));
}

} // verus!
