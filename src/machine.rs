use vstd::prelude::*;
use crate::ops::{Opcode, decode};

verus! {

/// Bytes of addressable memory.
pub const MEM_SIZE: usize = 4096;

/// Address at which a program image is loaded and execution starts.
pub const PROGRAM_START: u16 = 0x200;

/// Capacity of the call stack.
pub const STACK_DEPTH: u16 = 32;

/// Index of the flag register.
pub const FLAG: usize = 15;

/// Display width in pixels.
pub const SCREEN_WIDTH: usize = 64;

/// Display height in pixels.
pub const SCREEN_HEIGHT: usize = 32;

/// Bytes per glyph of the built-in font.
pub const GLYPH_SIZE: u16 = 5;

/// Why an instruction or a cycle could not run. The machine state is left
/// untouched when one of these is reported.
#[derive(Clone, Copy, Debug, PartialEq, Eq, Structural)]
pub enum Fault {
    /// A return with an empty call stack.
    StackUnderflow,
    /// A call with a full call stack.
    StackOverflow,
    /// A memory access beyond the last byte of memory.
    MemoryOutOfRange,
}

/// Mathematical model of the whole machine.
pub struct MachineState {
    pub regs: Seq<u8>,
    pub i: u16,
    pub pc: u16,
    pub sp: u16,
    pub mem: Seq<u8>,
    pub stack: Seq<u16>,
    pub gfx: Seq<bool>,
    pub delay_timer: u8,
    pub sound_timer: u8,
    pub keys: Seq<bool>,
    pub draw_flag: bool,
    pub last_key: Option<u8>,
    pub debug: bool,
}

impl MachineState {
    /// The stack pointer counts valid entries of the call stack.
    pub open spec fn wf(self) -> bool {
        &&& self.regs.len() == 16
        &&& self.mem.len() == MEM_SIZE
        &&& self.stack.len() == STACK_DEPTH
        &&& self.gfx.len() == SCREEN_WIDTH * SCREEN_HEIGHT
        &&& self.keys.len() == 16
        &&& self.sp <= STACK_DEPTH
    }

    pub open spec fn reg(self, x: u8) -> u8 {
        self.regs[x as int]
    }
}

/// The sixteen glyphs of the built-in font, five bytes each, for the hex
/// digits 0 to F in order.
pub open spec fn font() -> Seq<u8> {
    seq![
        0xF0u8, 0x90, 0x90, 0x90, 0xF0,
        0x20, 0x60, 0x20, 0x20, 0x70,
        0xF0, 0x10, 0xF0, 0x80, 0xF0,
        0xF0, 0x10, 0xF0, 0x10, 0xF0,
        0x90, 0x90, 0xF0, 0x10, 0x10,
        0xF0, 0x80, 0xF0, 0x10, 0xF0,
        0xF0, 0x80, 0xF0, 0x90, 0xF0,
        0xF0, 0x10, 0x20, 0x40, 0x40,
        0xF0, 0x90, 0xF0, 0x90, 0xF0,
        0xF0, 0x90, 0xF0, 0x10, 0xF0,
        0xF0, 0x90, 0xF0, 0x90, 0x90,
        0xE0, 0x90, 0xE0, 0x90, 0xE0,
        0xF0, 0x80, 0x80, 0x80, 0xF0,
        0xE0, 0x90, 0x90, 0x90, 0xE0,
        0xF0, 0x80, 0xF0, 0x80, 0xF0,
        0xF0, 0x80, 0xF0, 0x80, 0x80
    ]
}

/// The machine as it is created: everything zeroed but the font at the
/// start of memory, and the program counter at the program start.
pub open spec fn power_on(debug: bool) -> MachineState {
    MachineState {
        regs: Seq::new(16, |k: int| 0u8),
        i: 0,
        pc: PROGRAM_START,
        sp: 0,
        mem: font() + Seq::new((MEM_SIZE - 80) as nat, |k: int| 0u8),
        stack: Seq::new(STACK_DEPTH as nat, |k: int| 0u16),
        gfx: Seq::new((SCREEN_WIDTH * SCREEN_HEIGHT) as nat, |k: int| false),
        delay_timer: 0,
        sound_timer: 0,
        keys: Seq::new(16, |k: int| false),
        draw_flag: false,
        last_key: None,
        debug,
    }
}

/// A 16-bit quantity, wrapping around.
pub open spec fn wrap16(v: int) -> u16 {
    (v % 0x10000) as u16
}

/// Whether `len` bytes from `start` lie within memory (no access at all when
/// `len` is zero).
pub open spec fn mem_range_ok(start: int, len: int) -> bool {
    len == 0 || start + len <= MEM_SIZE
}

pub open spec fn with_reg(s: MachineState, x: u8, v: u8) -> MachineState {
    MachineState { regs: s.regs.update(x as int, v), ..s }
}

/// Writes `v` to register `x`, then `f` to the flag register.
pub open spec fn with_reg_flag(s: MachineState, x: u8, v: u8, f: u8) -> MachineState {
    MachineState { regs: s.regs.update(x as int, v).update(FLAG as int, f), ..s }
}

/// Advances the program counter past the next instruction when `cond` holds.
pub open spec fn skip_if(s: MachineState, cond: bool) -> MachineState {
    if cond {
        MachineState { pc: wrap16(s.pc + 2), ..s }
    } else {
        s
    }
}

/// Whether a key register value names a key that is held. Values of 16 and
/// more name no key, so they count as never pressed.
pub open spec fn key_held(s: MachineState, key: u8) -> bool {
    key < 16 && s.keys[key as int]
}

/// `(a + b) mod 256`.
pub open spec fn sum_byte(a: u8, b: u8) -> u8 {
    ((a + b) % 256) as u8
}

/// `(a - b) mod 256`.
pub open spec fn diff_byte(a: u8, b: u8) -> u8 {
    ((a - b) % 256) as u8
}

/// 1 when `a + b` does not fit in a byte.
pub open spec fn carry(a: u8, b: u8) -> u8 {
    if a + b > 255 {
        1
    } else {
        0
    }
}

/// 1 when `a - b` needs no borrow.
pub open spec fn no_borrow(a: u8, b: u8) -> u8 {
    if a >= b {
        1
    } else {
        0
    }
}

/// Hundreds, tens and units of a byte.
pub open spec fn bcd_digits(v: u8) -> Seq<u8> {
    seq![(v / 100) as u8, ((v / 10) % 10) as u8, (v % 10) as u8]
}

/// Memory after registers `0..n` are written from the index register on.
pub open spec fn stored(s: MachineState, n: int) -> Seq<u8> {
    Seq::new(
        MEM_SIZE as nat,
        |a: int|
            if s.i <= a < s.i + n {
                s.regs[a - s.i]
            } else {
                s.mem[a]
            },
    )
}

/// Registers after registers `0..=n` are read from the index register on.
pub open spec fn restored(s: MachineState, n: int) -> Seq<u8> {
    Seq::new(
        16,
        |r: int|
            if r <= n {
                s.mem[s.i + r]
            } else {
                s.regs[r]
            },
    )
}

/// Column of the sprite that lands on pixel `p` when drawn at `x`
/// (screen coordinates wrap around).
pub open spec fn sprite_col(x: u8, p: int) -> int {
    (p % 64 - x) % 64
}

/// Row of the sprite that lands on pixel `p` when drawn at `y`.
pub open spec fn sprite_row(y: u8, p: int) -> int {
    (p / 64 - y) % 32
}

/// Whether column `c` (0 is the leftmost) of a sprite row is set.
pub open spec fn bit_of(b: u8, c: int) -> bool {
    b & (0x80u8 >> (c as u8)) != 0
}

/// Whether a set bit of the `rows`-row sprite at memory address `i`, drawn
/// at `(x, y)`, lands on pixel `p`.
pub open spec fn sprite_covers(mem: Seq<u8>, i: u16, rows: u8, x: u8, y: u8, p: int) -> bool {
    let c = sprite_col(x, p);
    let r = sprite_row(y, p);
    c < 8 && r < rows && bit_of(mem[i + r], c)
}

/// Whether drawing the sprite turns some lit pixel off.
pub open spec fn draw_collides(s: MachineState, rows: u8, x: u8, y: u8) -> bool {
    exists|p: int|
        0 <= p < SCREEN_WIDTH * SCREEN_HEIGHT && #[trigger] sprite_covers(s.mem, s.i, rows, x, y, p)
            && s.gfx[p]
}

/// The machine after drawing the sprite at the coordinates held in registers
/// `xr` and `yr`: each covered pixel flips, the flag register tells whether a
/// lit pixel went dark, and the draw flag is raised.
pub open spec fn drawn(s: MachineState, xr: u8, yr: u8, rows: u8) -> MachineState {
    let x = s.reg(xr);
    let y = s.reg(yr);
    MachineState {
        gfx: Seq::new(
            (SCREEN_WIDTH * SCREEN_HEIGHT) as nat,
            |p: int| s.gfx[p] != sprite_covers(s.mem, s.i, rows, x, y, p),
        ),
        regs: s.regs.update(FLAG as int, if draw_collides(s, rows, x, y) { 1u8 } else { 0u8 }),
        draw_flag: true,
        ..s
    }
}

pub open spec fn done(t: MachineState) -> Result<(MachineState, bool), Fault> {
    Ok((t, false))
}

/// Effect of one instruction, before the released-key latch is cleared.
/// `Ok((t, repeat))` gives the next state and whether the instruction asks to
/// be run again; `rnd` is the random byte that `Random` uses.
pub open spec fn apply(s: MachineState, op: Opcode, rnd: u8) -> Result<(MachineState, bool), Fault> {
    match op {
        Opcode::Rca(_) | Opcode::Unknown(_) => done(s),
        Opcode::Clear => done(
            MachineState { gfx: Seq::new((SCREEN_WIDTH * SCREEN_HEIGHT) as nat, |p: int| false), ..s },
        ),
        Opcode::Return => if s.sp == 0 {
            Err(Fault::StackUnderflow)
        } else {
            done(MachineState { sp: (s.sp - 1) as u16, pc: s.stack[s.sp - 1], ..s })
        },
        Opcode::Jump(a) => done(MachineState { pc: a, ..s }),
        Opcode::JumpPlus(a) => done(MachineState { pc: wrap16(a + s.reg(0)), ..s }),
        Opcode::Call(a) => if s.sp >= STACK_DEPTH {
            Err(Fault::StackOverflow)
        } else {
            done(
                MachineState {
                    stack: s.stack.update(s.sp as int, s.pc),
                    sp: (s.sp + 1) as u16,
                    pc: a,
                    ..s
                },
            )
        },
        Opcode::SkipEqVal(x, v) => done(skip_if(s, s.reg(x) == v)),
        Opcode::SkipNotEqVal(x, v) => done(skip_if(s, s.reg(x) != v)),
        Opcode::SkipEq(x, y) => done(skip_if(s, s.reg(x) == s.reg(y))),
        Opcode::SkipNotEq(x, y) => done(skip_if(s, s.reg(x) != s.reg(y))),
        Opcode::SetReg(x, v) => done(with_reg(s, x, v)),
        Opcode::AddVal(x, v) => done(with_reg(s, x, sum_byte(s.reg(x), v))),
        Opcode::CopyReg(x, y) => done(with_reg(s, x, s.reg(y))),
        Opcode::And(x, y) => done(with_reg(s, x, s.reg(x) & s.reg(y))),
        Opcode::Or(x, y) => done(with_reg(s, x, s.reg(x) | s.reg(y))),
        Opcode::Xor(x, y) => done(with_reg(s, x, s.reg(x) ^ s.reg(y))),
        Opcode::Add(x, y) => {
            let (a, b) = (s.reg(x), s.reg(y));
            done(with_reg_flag(s, x, sum_byte(a, b), carry(a, b)))
        },
        Opcode::Substract(x, y) => {
            let (a, b) = (s.reg(x), s.reg(y));
            done(with_reg_flag(s, x, diff_byte(a, b), no_borrow(a, b)))
        },
        Opcode::MinusReg(x, y) => {
            let (a, b) = (s.reg(x), s.reg(y));
            done(with_reg_flag(s, x, diff_byte(b, a), no_borrow(b, a)))
        },
        Opcode::ShiftRight(x) => {
            let v = s.reg(x);
            done(MachineState { regs: s.regs.update(FLAG as int, v % 2).update(x as int, v / 2), ..s })
        },
        Opcode::ShiftLeft(x) => {
            let v = s.reg(x);
            done(
                MachineState {
                    regs: s.regs.update(FLAG as int, v / 128).update(x as int, ((v * 2) % 256) as u8),
                    ..s
                },
            )
        },
        Opcode::SetI(a) => done(MachineState { i: a, ..s }),
        Opcode::Random(x, mask) => done(with_reg(s, x, rnd & mask)),
        Opcode::DrawSprite(x, y, rows) => if mem_range_ok(s.i as int, rows as int) {
            done(drawn(s, x, y, rows))
        } else {
            Err(Fault::MemoryOutOfRange)
        },
        Opcode::SkipIfKeyPressed(x) => done(skip_if(s, key_held(s, s.reg(x)))),
        Opcode::SkipIfKeyNotPressed(x) => done(skip_if(s, !key_held(s, s.reg(x)))),
        Opcode::GetDelayTimer(x) => done(with_reg(s, x, s.delay_timer)),
        Opcode::GetKeypress(x) => match s.last_key {
            Some(k) => done(with_reg(s, x, k)),
            None => Ok((s, true)),
        },
        Opcode::SetDelayTimer(x) => done(MachineState { delay_timer: s.reg(x), ..s }),
        Opcode::SetSoundTimer(x) => done(MachineState { sound_timer: s.reg(x), ..s }),
        Opcode::AddI(x) => done(MachineState { i: wrap16(s.i + s.reg(x)), ..s }),
        Opcode::SetISprite(x) => done(MachineState { i: (s.reg(x) * GLYPH_SIZE) as u16, ..s }),
        Opcode::StoreBCD(x) => if mem_range_ok(s.i as int, 3) {
            let d = bcd_digits(s.reg(x));
            done(
                MachineState {
                    mem: s.mem.update(s.i as int, d[0]).update(s.i + 1, d[1]).update(s.i + 2, d[2]),
                    ..s
                },
            )
        } else {
            Err(Fault::MemoryOutOfRange)
        },
        Opcode::Store(x) => if mem_range_ok(s.i as int, x as int) {
            done(MachineState { mem: stored(s, x as int), ..s })
        } else {
            Err(Fault::MemoryOutOfRange)
        },
        Opcode::Restore(x) => if mem_range_ok(s.i as int, x + 1) {
            done(MachineState { regs: restored(s, x as int), ..s })
        } else {
            Err(Fault::MemoryOutOfRange)
        },
    }
}

/// Effect of executing one instruction: `apply`, after which the latch of the
/// key released since the previous cycle is cleared.
pub open spec fn op_result(s: MachineState, op: Opcode, rnd: u8) -> Result<(MachineState, bool), Fault> {
    match apply(s, op, rnd) {
        Ok((t, repeat)) => Ok((MachineState { last_key: None, ..t }, repeat)),
        Err(e) => Err(e),
    }
}

/// Whether the two bytes of the instruction at the program counter lie in
/// memory.
pub open spec fn can_fetch(s: MachineState) -> bool {
    s.pc + 1 < MEM_SIZE
}

/// The big-endian opcode at the program counter.
pub open spec fn opcode_at(s: MachineState) -> u16 {
    (s.mem[s.pc as int] * 256 + s.mem[s.pc + 1]) as u16
}

/// Decrements both timers towards zero; the flag tells whether the sound
/// timer ran out on this tick.
pub open spec fn tick(s: MachineState) -> (MachineState, bool) {
    (
        MachineState {
            delay_timer: if s.delay_timer > 0 { (s.delay_timer - 1) as u8 } else { 0 },
            sound_timer: if s.sound_timer > 0 { (s.sound_timer - 1) as u8 } else { 0 },
            ..s
        },
        s.sound_timer == 1,
    )
}

/// One cycle: fetch, advance the program counter, decode, execute (rewinding
/// the counter when the instruction asks to be repeated), then tick the
/// timers. `Ok((t, beep))` gives the next state and whether to beep.
pub open spec fn cycle_result(s: MachineState, rnd: u8) -> Result<(MachineState, bool), Fault> {
    if !can_fetch(s) {
        Err(Fault::MemoryOutOfRange)
    } else {
        let advanced = MachineState { pc: (s.pc + 2) as u16, ..s };
        match op_result(advanced, decode(opcode_at(s)), rnd) {
            Ok((t, repeat)) => Ok(tick(if repeat { MachineState { pc: s.pc, ..t } } else { t })),
            Err(e) => Err(e),
        }
    }
}

/// `r` and `t` are the result and the state that `result` gives from `s`:
/// on a fault the state is unchanged.
pub open spec fn outcome(
    s: MachineState,
    result: Result<(MachineState, bool), Fault>,
    r: Result<bool, Fault>,
    t: MachineState,
) -> bool {
    match result {
        Ok((next, flag)) => r == Ok::<bool, Fault>(flag) && t == next,
        Err(e) => r == Err::<bool, Fault>(e) && t == s,
    }
}

} // verus!
