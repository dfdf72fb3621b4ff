use vstd::prelude::*;
use crate::machine::{
    FLAG, GLYPH_SIZE, MEM_SIZE, MachineState, STACK_DEPTH, SCREEN_HEIGHT, SCREEN_WIDTH, Fault,
    PROGRAM_START, apply, can_fetch, cycle_result, font, opcode_at, power_on, wrap16, diff_byte, sum_byte, draw_collides, skip_if, with_reg, with_reg_flag, drawn, mem_range_ok, op_result, outcome, restored, sprite_col, sprite_covers, sprite_row,
    stored,
};
use crate::ops::{Opcode, binary_to_opcode, decode, operands_in_range};

verus! {

/// A CHIP-8 machine: register file, memory, call stack, timers, display
/// buffer and key matrix.
pub struct ChipU8 {
    pub regs: [u8; 16],
    pub i: u16,
    pub pc: u16,
    pub sp: u16,
    pub mem: [u8; 4096],
    pub stack: [u16; 32],
    /// Display buffer, 64 x 32 pixels, row-major.
    pub gfx: [bool; 2048],
    pub delay_timer: u8,
    pub sound_timer: u8,
    /// Keys currently held.
    pub keys: [bool; 16],
    /// Raised by every sprite draw.
    pub draw_flag: bool,
    /// The key released since the previous instruction, if any.
    pub last_key: Option<u8>,
    /// Whether the driver logs each instruction before it runs.
    pub debug: bool,
}

impl View for ChipU8 {
    type V = MachineState;

    open spec fn view(&self) -> MachineState {
        MachineState {
            regs: self.regs@,
            i: self.i,
            pc: self.pc,
            sp: self.sp,
            mem: self.mem@,
            stack: self.stack@,
            gfx: self.gfx@,
            delay_timer: self.delay_timer,
            sound_timer: self.sound_timer,
            keys: self.keys@,
            draw_flag: self.draw_flag,
            last_key: self.last_key,
            debug: self.debug,
        }
    }
}

impl ChipU8 {
    pub open spec fn wf(&self) -> bool {
        self@.wf()
    }

    /// A powered-on machine: registers, stack, timers, keys and display
    /// zeroed, the font loaded at the start of memory, and the program counter
    /// at the program start.
    pub fn new(debug: bool) -> (r: ChipU8)
        ensures
            r.wf(),
            r@ == power_on(debug),
    {
        let mut cpu = ChipU8 {
            regs: [0u8; 16],
            i: 0,
            pc: PROGRAM_START,
            sp: 0,
            mem: [0u8; 4096],
            stack: [0u16; 32],
            gfx: [false; 2048],
            delay_timer: 0,
            sound_timer: 0,
            keys: [false; 16],
            draw_flag: false,
            last_key: None,
            debug,
        };
        let ghost blank = cpu@;
        cpu.load_font();
        let ghost target = power_on(debug);
        assert(cpu.mem@ =~= target.mem) by {
            assert(blank.mem.subrange(80, MEM_SIZE as int) =~= Seq::new((MEM_SIZE - 80) as nat, |k: int| 0u8));
        }
        assert(cpu.regs@ =~= target.regs);
        assert(cpu.stack@ =~= target.stack);
        assert(cpu.gfx@ =~= target.gfx);
        assert(cpu.keys@ =~= target.keys);
        cpu
    }

    /// Copies the built-in font into the first 80 bytes of memory.
    pub fn load_font(&mut self)
        requires
            old(self).wf(),
        ensures
            final(self).wf(),
            final(self)@ == (MachineState {
                mem: font() + old(self)@.mem.subrange(80, MEM_SIZE as int),
                ..old(self)@
            }),
    {
        let glyphs: [u8; 80] = [
            0xF0, 0x90, 0x90, 0x90, 0xF0,
            0x20, 0x60, 0x20, 0x20, 0x70,
            0xF0, 0x10, 0xF0, 0x80, 0xF0,
            0xF0, 0x10, 0xF0, 0x10, 0xF0,
            0x90, 0x90, 0xF0, 0x10, 0x10,
            0xF0, 0x80, 0xF0, 0x10, 0xF0,
            0xF0, 0x80, 0xF0, 0x90, 0xF0,
            0xF0, 0x10, 0x20, 0x40, 0x40,
            0xF0, 0x90, 0xF0, 0x90, 0xF0,
            0xF0, 0x90, 0xF0, 0x10, 0xF0,
            0xF0, 0x90, 0xF0, 0x90, 0x90,
            0xE0, 0x90, 0xE0, 0x90, 0xE0,
            0xF0, 0x80, 0x80, 0x80, 0xF0,
            0xE0, 0x90, 0x90, 0x90, 0xE0,
            0xF0, 0x80, 0xF0, 0x80, 0xF0,
            0xF0, 0x80, 0xF0, 0x80, 0x80,
        ];
        assert(glyphs@ =~= font());
        let ghost s = self@;
        let mut k: usize = 0;
        while k < 80
            invariant
                k <= 80,
                s.wf(),
                glyphs@ == font(),
                self@ == (MachineState { mem: self.mem@, ..s }),
                forall|a: int|
                    0 <= a < MEM_SIZE ==> #[trigger] self.mem@[a] == if a < k {
                        font()[a]
                    } else {
                        s.mem[a]
                    },
            decreases 80 - k,
        {
            self.mem[k] = glyphs[k];
            k = k + 1;
        }
        assert(self.mem@ =~= font() + s.mem.subrange(80, MEM_SIZE as int));
    }

    /// Copies a program image into memory from the program start on. An image
    /// that does not fit in the memory after the program start is refused and
    /// leaves the machine unchanged.
    pub fn load(&mut self, rom: &[u8]) -> (r: Result<(), Fault>)
        requires
            old(self).wf(),
        ensures
            final(self).wf(),
            r is Err <==> PROGRAM_START + rom@.len() > MEM_SIZE,
            r is Err ==> r == Err::<(), Fault>(Fault::MemoryOutOfRange) && final(self)@ == old(self)@,
            r is Ok ==> final(self)@ == (MachineState {
                mem: old(self)@.mem.subrange(0, PROGRAM_START as int) + rom@ + old(self)@.mem.subrange(
                    PROGRAM_START + rom@.len(),
                    MEM_SIZE as int,
                ),
                ..old(self)@
            }),
    {
        let start = PROGRAM_START as usize;
        if rom.len() > MEM_SIZE - start {
            return Err(Fault::MemoryOutOfRange);
        }
        let ghost s = self@;
        let mut k: usize = 0;
        while k < rom.len()
            invariant
                k <= rom@.len(),
                start + rom@.len() <= MEM_SIZE,
                start == PROGRAM_START,
                s.wf(),
                self@ == (MachineState { mem: self.mem@, ..s }),
                forall|a: int|
                    0 <= a < MEM_SIZE ==> #[trigger] self.mem@[a] == if start <= a < start + k {
                        rom@[a - start]
                    } else {
                        s.mem[a]
                    },
            decreases rom@.len() - k,
        {
            self.mem[start + k] = rom[k];
            k = k + 1;
        }
        assert(self.mem@ =~= s.mem.subrange(0, PROGRAM_START as int) + rom@ + s.mem.subrange(
            PROGRAM_START + rom@.len(),
            MEM_SIZE as int,
        ));
        Ok(())
    }

    /// Decodes the instruction at the program counter, without running it.
    pub fn fetch_op(&mut self) -> (r: Result<Opcode, Fault>)
        requires
            old(self).wf(),
        ensures
            *final(self) == *old(self),
            r == if can_fetch(old(self)@) {
                Ok::<Opcode, Fault>(decode(opcode_at(old(self)@)))
            } else {
                Err::<Opcode, Fault>(Fault::MemoryOutOfRange)
            },
            r is Ok ==> operands_in_range(r->Ok_0),
    {
        if self.pc as usize + 1 >= MEM_SIZE {
            return Err(Fault::MemoryOutOfRange);
        }
        let first_byte = self.mem[self.pc as usize];
        let second_byte = self.mem[self.pc as usize + 1];
        let word: u16 = first_byte as u16 * 256 + second_byte as u16;
        Ok(binary_to_opcode(word))
    }

    /// One cycle with `random_byte` as the value that a `Random` instruction
    /// draws: fetch, advance the program counter, decode, execute (rewinding
    /// the counter when the instruction is a key wait with no key released),
    /// then tick both timers. `Ok(true)` tells the caller to beep: the sound
    /// timer ran out. A fault leaves the machine unchanged.
    pub fn cycle_with_random(&mut self, random_byte: u8) -> (r: Result<bool, Fault>)
        requires
            old(self).wf(),
        ensures
            final(self).wf(),
            outcome(old(self)@, cycle_result(old(self)@, random_byte), r, final(self)@),
    {
        let start = self.pc;
        let op = match self.fetch_op() {
            Ok(op) => op,
            Err(e) => {
                return Err(e);
            },
        };
        self.pc = start + 2;
        match self.run_op(op, random_byte) {
            Ok(repeat) => {
                if repeat {
                    self.pc = start;
                }
            },
            Err(e) => {
                self.pc = start;
                return Err(e);
            },
        }
        let beep = self.sound_timer == 1;
        if self.delay_timer > 0 {
            self.delay_timer = self.delay_timer - 1;
        }
        if self.sound_timer > 0 {
            self.sound_timer = self.sound_timer - 1;
        }
        Ok(beep)
    }

    /// One cycle. A random byte is drawn only when the instruction at the
    /// program counter is `Random`. `Ok(true)` tells the caller to beep.
    pub fn cycle(&mut self) -> (r: Result<bool, Fault>)
        requires
            old(self).wf(),
        ensures
            final(self).wf(),
            exists|b: u8| outcome(old(self)@, #[trigger] cycle_result(old(self)@, b), r, final(self)@),
            !(can_fetch(old(self)@) && decode(opcode_at(old(self)@)) is Random) ==> outcome(
                old(self)@,
                cycle_result(old(self)@, 0),
                r,
                final(self)@,
            ),
    {
        let b = match self.fetch_op() {
            Ok(Opcode::Random(_, _)) => random_byte(),
            _ => 0,
        };
        self.cycle_with_random(b)
    }

    /// The display buffer to present, when a draw has happened. The draw flag
    /// is left raised.
    pub fn draw(&self) -> (r: Option<[bool; 2048]>)
        ensures
            r == if self.draw_flag {
                Some(self.gfx)
            } else {
                None::<[bool; 2048]>
            },
    {
        if self.draw_flag {
            Some(self.gfx)
        } else {
            None
        }
    }

    /// Marks `key` as held.
    pub fn press_key(&mut self, key: u8)
        requires
            old(self).wf(),
            key < 16,
        ensures
            final(self).wf(),
            final(self)@ == (MachineState { keys: old(self)@.keys.update(key as int, true), ..old(self)@ }),
    {
        self.keys[key as usize] = true;
    }

    /// Marks `key` as no longer held, and latches it as the key released
    /// since the previous instruction.
    pub fn release_key(&mut self, key: u8)
        requires
            old(self).wf(),
            key < 16,
        ensures
            final(self).wf(),
            final(self)@ == (MachineState {
                keys: old(self)@.keys.update(key as int, false),
                last_key: Some(key),
                ..old(self)@
            }),
    {
        self.keys[key as usize] = false;
        self.last_key = Some(key);
    }

    /// Executes one decoded instruction. `random_byte` is the value that
    /// `Random` masks. Returns whether the instruction asks to be run again
    /// (a key wait with no key released), or the fault that stopped it; a
    /// fault leaves the machine unchanged.
    pub fn run_op(&mut self, op: Opcode, random_byte: u8) -> (r: Result<bool, Fault>)
        requires
            old(self).wf(),
            operands_in_range(op),
        ensures
            final(self).wf(),
            outcome(old(self)@, op_result(old(self)@, op, random_byte), r, final(self)@),
    {
        let r = match op {
            Opcode::Rca(_)
            | Opcode::Clear
            | Opcode::Return
            | Opcode::Jump(_)
            | Opcode::JumpPlus(_)
            | Opcode::Call(_)
            | Opcode::SkipEqVal(_, _)
            | Opcode::SkipNotEqVal(_, _)
            | Opcode::SkipEq(_, _)
            | Opcode::SkipNotEq(_, _)
            | Opcode::SkipIfKeyPressed(_)
            | Opcode::SkipIfKeyNotPressed(_)
            | Opcode::Unknown(_) => self.run_flow(op),
            Opcode::SetReg(_, _)
            | Opcode::AddVal(_, _)
            | Opcode::CopyReg(_, _)
            | Opcode::And(_, _)
            | Opcode::Or(_, _)
            | Opcode::Xor(_, _)
            | Opcode::Add(_, _)
            | Opcode::Substract(_, _)
            | Opcode::MinusReg(_, _)
            | Opcode::ShiftRight(_)
            | Opcode::ShiftLeft(_)
            | Opcode::Random(_, _) => self.run_register(op, random_byte),
            Opcode::GetDelayTimer(_)
            | Opcode::GetKeypress(_)
            | Opcode::SetDelayTimer(_)
            | Opcode::SetSoundTimer(_)
            | Opcode::SetI(_)
            | Opcode::AddI(_)
            | Opcode::SetISprite(_) => self.run_timer_key_index(op),
            _ => self.run_memory(op),
        };
        match r {
            Ok(repeat) => {
                self.last_key = None;
                Ok(repeat)
            },
            Err(e) => Err(e),
        }
    }

    /// Display clearing, control flow and no-ops.
    fn run_flow(&mut self, op: Opcode) -> (r: Result<bool, Fault>)
        requires
            old(self).wf(),
            operands_in_range(op),
            is_flow(op),
        ensures
            final(self).wf(),
            outcome(old(self)@, apply(old(self)@, op, 0), r, final(self)@),
    {
        match op {
            Opcode::Rca(_) | Opcode::Unknown(_) => {},
            Opcode::Clear => {
                self.clear_screen();
            },
            Opcode::Return => {
                if self.sp == 0 {
                    return Err(Fault::StackUnderflow);
                }
                self.sp = self.sp - 1;
                self.pc = self.stack[self.sp as usize];
            },
            Opcode::Jump(a) => {
                self.pc = a;
            },
            Opcode::JumpPlus(a) => {
                self.pc = add_words(a, self.regs[0] as u16);
            },
            Opcode::Call(a) => {
                if self.sp >= STACK_DEPTH {
                    return Err(Fault::StackOverflow);
                }
                self.stack[self.sp as usize] = self.pc;
                self.sp = self.sp + 1;
                self.pc = a;
            },
            Opcode::SkipEqVal(x, v) => {
                self.skip_next(self.regs[x as usize] == v);
            },
            Opcode::SkipNotEqVal(x, v) => {
                self.skip_next(self.regs[x as usize] != v);
            },
            Opcode::SkipEq(x, y) => {
                self.skip_next(self.regs[x as usize] == self.regs[y as usize]);
            },
            Opcode::SkipNotEq(x, y) => {
                self.skip_next(self.regs[x as usize] != self.regs[y as usize]);
            },
            Opcode::SkipIfKeyPressed(x) => {
                let key = self.regs[x as usize];
                self.skip_next(key < 16 && self.keys[key as usize]);
            },
            Opcode::SkipIfKeyNotPressed(x) => {
                let key = self.regs[x as usize];
                self.skip_next(!(key < 16 && self.keys[key as usize]));
            },
            _ => {},
        }
        Ok(false)
    }

    /// Register loads and arithmetic.
    fn run_register(&mut self, op: Opcode, random_byte: u8) -> (r: Result<bool, Fault>)
        requires
            old(self).wf(),
            operands_in_range(op),
            is_register_op(op),
        ensures
            final(self).wf(),
            outcome(old(self)@, apply(old(self)@, op, random_byte), r, final(self)@),
    {
        match op {
            Opcode::SetReg(x, v) => self.write_reg(x, v),
            Opcode::AddVal(x, v) => {
                let a = self.regs[x as usize];
                self.write_reg(x, add_bytes(a, v));
            },
            Opcode::CopyReg(x, y) => {
                let b = self.regs[y as usize];
                self.write_reg(x, b);
            },
            Opcode::And(x, y) => {
                let v = self.regs[x as usize] & self.regs[y as usize];
                self.write_reg(x, v);
            },
            Opcode::Or(x, y) => {
                let v = self.regs[x as usize] | self.regs[y as usize];
                self.write_reg(x, v);
            },
            Opcode::Xor(x, y) => {
                let v = self.regs[x as usize] ^ self.regs[y as usize];
                self.write_reg(x, v);
            },
            Opcode::Random(x, mask) => self.write_reg(x, random_byte & mask),
            Opcode::Add(x, y) => {
                let a = self.regs[x as usize];
                let b = self.regs[y as usize];
                let carried = a as u16 + b as u16 > 255;
                self.write_reg_flag(x, add_bytes(a, b), if carried { 1 } else { 0 });
            },
            Opcode::Substract(x, y) => {
                let a = self.regs[x as usize];
                let b = self.regs[y as usize];
                self.write_reg_flag(x, sub_bytes(a, b), if a >= b { 1 } else { 0 });
            },
            Opcode::MinusReg(x, y) => {
                let a = self.regs[x as usize];
                let b = self.regs[y as usize];
                self.write_reg_flag(x, sub_bytes(b, a), if b >= a { 1 } else { 0 });
            },
            Opcode::ShiftRight(x) => {
                let v = self.regs[x as usize];
                assert(v & 1 == v % 2 && v >> 1 == v / 2) by (bit_vector);
                self.write_flag_reg(v & 1, x, v >> 1);
            },
            Opcode::ShiftLeft(x) => {
                let v = self.regs[x as usize];
                assert(v >> 7 == v / 128 && (v << 1) as int == (v * 2) % 256) by (bit_vector);
                self.write_flag_reg(v >> 7, x, v << 1);
            },
            _ => {},
        }
        Ok(false)
    }

    /// Writes `v` to register `x`.
    fn write_reg(&mut self, x: u8, v: u8)
        requires
            old(self).wf(),
            x < 16,
        ensures
            final(self)@ == with_reg(old(self)@, x, v),
    {
        self.regs[x as usize] = v;
    }

    /// Writes `v` to register `x`, then `f` to the flag register.
    fn write_reg_flag(&mut self, x: u8, v: u8, f: u8)
        requires
            old(self).wf(),
            x < 16,
        ensures
            final(self)@ == with_reg_flag(old(self)@, x, v, f),
    {
        self.regs[x as usize] = v;
        self.regs[FLAG] = f;
    }

    /// Writes `f` to the flag register, then `v` to register `x`.
    fn write_flag_reg(&mut self, f: u8, x: u8, v: u8)
        requires
            old(self).wf(),
            x < 16,
        ensures
            final(self)@ == (MachineState {
                regs: old(self)@.regs.update(FLAG as int, f).update(x as int, v),
                ..old(self)@
            }),
    {
        self.regs[FLAG] = f;
        self.regs[x as usize] = v;
    }

    /// Timers, the key wait and the index register.
    fn run_timer_key_index(&mut self, op: Opcode) -> (r: Result<bool, Fault>)
        requires
            old(self).wf(),
            operands_in_range(op),
            is_timer_key_index_op(op),
        ensures
            final(self).wf(),
            outcome(old(self)@, apply(old(self)@, op, 0), r, final(self)@),
    {
        let mut repeat = false;
        match op {
            Opcode::GetDelayTimer(x) => {
                let t = self.delay_timer;
                self.write_reg(x, t);
            },
            Opcode::GetKeypress(x) => {
                match self.last_key {
                    Some(k) => {
                        self.write_reg(x, k);
                    },
                    None => {
                        repeat = true;
                    },
                }
            },
            Opcode::SetDelayTimer(x) => {
                self.delay_timer = self.regs[x as usize];
            },
            Opcode::SetSoundTimer(x) => {
                self.sound_timer = self.regs[x as usize];
            },
            Opcode::SetI(a) => {
                self.i = a;
            },
            Opcode::AddI(x) => {
                self.i = add_words(self.i, self.regs[x as usize] as u16);
            },
            Opcode::SetISprite(x) => {
                self.i = self.regs[x as usize] as u16 * GLYPH_SIZE;
            },
            _ => {},
        }
        Ok(repeat)
    }

    /// Instructions that read or write memory from the index register on.
    fn run_memory(&mut self, op: Opcode) -> (r: Result<bool, Fault>)
        requires
            old(self).wf(),
            operands_in_range(op),
            is_memory_op(op),
        ensures
            final(self).wf(),
            outcome(old(self)@, apply(old(self)@, op, 0), r, final(self)@),
    {
        match op {
            Opcode::DrawSprite(x, y, rows) => {
                if rows > 0 && self.i as usize + rows as usize > MEM_SIZE {
                    return Err(Fault::MemoryOutOfRange);
                }
                self.draw_sprite(x, y, rows);
            },
            Opcode::StoreBCD(x) => {
                if self.i as usize + 3 > MEM_SIZE {
                    return Err(Fault::MemoryOutOfRange);
                }
                let v = self.regs[x as usize];
                let at = self.i as usize;
                self.mem[at] = v / 100;
                self.mem[at + 1] = (v / 10) % 10;
                self.mem[at + 2] = v % 10;
            },
            Opcode::Store(x) => {
                if x > 0 && self.i as usize + x as usize > MEM_SIZE {
                    return Err(Fault::MemoryOutOfRange);
                }
                self.store_regs(x);
            },
            Opcode::Restore(x) => {
                if self.i as usize + x as usize + 1 > MEM_SIZE {
                    return Err(Fault::MemoryOutOfRange);
                }
                self.restore_regs(x);
            },
            _ => {},
        }
        Ok(false)
    }

    /// Turns every pixel off.
    fn clear_screen(&mut self)
        ensures
            final(self)@ == (MachineState {
                gfx: Seq::new((SCREEN_WIDTH * SCREEN_HEIGHT) as nat, |p: int| false),
                ..old(self)@
            }),
    {
        self.gfx = [false; 2048];
        assert(self.gfx@ =~= Seq::new((SCREEN_WIDTH * SCREEN_HEIGHT) as nat, |p: int| false));
    }

    /// Skips the next instruction when `cond` holds.
    fn skip_next(&mut self, cond: bool)
        ensures
            final(self)@ == skip_if(old(self)@, cond),
    {
        if cond {
            self.pc = add_words(self.pc, 2);
        }
    }

    /// Writes registers `0..n` to memory from the index register on.
    fn store_regs(&mut self, n: u8)
        requires
            old(self).wf(),
            n < 16,
            mem_range_ok(old(self).i as int, n as int),
        ensures
            final(self)@ == (MachineState { mem: stored(old(self)@, n as int), ..old(self)@ }),
    {
        let ghost s = self@;
        let base = self.i as usize;
        let mut k: u8 = 0;
        while k < n
            invariant
                k <= n,
                n < 16,
                base == s.i,
                mem_range_ok(base as int, n as int),
                self@ == (MachineState { mem: self.mem@, ..s }),
                s.wf(),
                forall|a: int|
                    0 <= a < MEM_SIZE ==> #[trigger] self.mem@[a] == if base <= a < base + k {
                        s.regs[a - base]
                    } else {
                        s.mem[a]
                    },
            decreases n - k,
        {
            let v = self.regs[k as usize];
            self.mem[base + k as usize] = v;
            k = k + 1;
        }
        assert(self.mem@ =~= stored(s, n as int));
    }

    /// Reads registers `0..=n` from memory from the index register on.
    fn restore_regs(&mut self, n: u8)
        requires
            old(self).wf(),
            n < 16,
            old(self).i + n + 1 <= MEM_SIZE,
        ensures
            final(self)@ == (MachineState { regs: restored(old(self)@, n as int), ..old(self)@ }),
    {
        let ghost s = self@;
        let base = self.i as usize;
        let mut k: u8 = 0;
        while k <= n
            invariant
                k <= n + 1,
                n < 16,
                base == s.i,
                base + n + 1 <= MEM_SIZE,
                self@ == (MachineState { regs: self.regs@, ..s }),
                s.wf(),
                forall|r: int|
                    0 <= r < 16 ==> #[trigger] self.regs@[r] == if r < k {
                        s.mem[base + r]
                    } else {
                        s.regs[r]
                    },
            decreases n + 1 - k,
        {
            let v = self.mem[base + k as usize];
            self.regs[k as usize] = v;
            k = k + 1;
        }
        assert(self.regs@ =~= restored(s, n as int));
    }

    /// Draws the `rows`-row sprite at the index register at the coordinates
    /// held in registers `xr` and `yr`, flipping each pixel under a set bit.
    fn draw_sprite(&mut self, xr: u8, yr: u8, rows: u8)
        requires
            old(self).wf(),
            xr < 16,
            yr < 16,
            rows < 16,
            mem_range_ok(old(self).i as int, rows as int),
        ensures
            final(self)@ == drawn(old(self)@, xr, yr, rows),
    {
        let ghost s = self@;
        let x = self.regs[xr as usize];
        let y = self.regs[yr as usize];
        let base = self.i as usize;
        let mut hit = false;
        let mut row: u8 = 0;
        while row < rows
            invariant
                s.wf(),
                row <= rows,
                rows < 16,
                x == s.reg(xr),
                y == s.reg(yr),
                base == s.i,
                mem_range_ok(base as int, rows as int),
                self@ == (MachineState { gfx: self.gfx@, ..s }),
                forall|p: int|
                    0 <= p < SCREEN_WIDTH * SCREEN_HEIGHT ==> #[trigger] self.gfx@[p] == (s.gfx[p]
                        != flipped(s, rows, x, y, row as int, 0, p)),
                hit == exists|p: int|
                    0 <= p < SCREEN_WIDTH * SCREEN_HEIGHT && #[trigger] flipped(
                        s,
                        rows,
                        x,
                        y,
                        row as int,
                        0,
                        p,
                    ) && s.gfx[p],
            decreases rows - row,
        {
            let row_data = self.mem[base + row as usize];
            let mut col: u8 = 0;
            while col < 8
                invariant
                    s.wf(),
                    row < rows,
                    col <= 8,
                    rows < 16,
                    x == s.reg(xr),
                    y == s.reg(yr),
                    base == s.i,
                    row_data == s.mem[base + row],
                    self@ == (MachineState { gfx: self.gfx@, ..s }),
                    forall|p: int|
                        0 <= p < SCREEN_WIDTH * SCREEN_HEIGHT ==> #[trigger] self.gfx@[p] == (s.gfx[p]
                            != flipped(s, rows, x, y, row as int, col as int, p)),
                    hit == exists|p: int|
                        0 <= p < SCREEN_WIDTH * SCREEN_HEIGHT && #[trigger] flipped(
                            s,
                            rows,
                            x,
                            y,
                            row as int,
                            col as int,
                            p,
                        ) && s.gfx[p],
                decreases 8 - col,
            {
                let q = ((y as usize + row as usize) % SCREEN_HEIGHT) * SCREEN_WIDTH + (x as usize
                    + col as usize) % SCREEN_WIDTH;
                let set = row_data & (0x80u8 >> col) != 0;
                let ghost was_hit = hit;
                let ghost before = self.gfx@;
                proof {
                    lemma_pixel_at(x, y, row as int, col as int, q as int);
                    assert forall|p: int| 0 <= p < SCREEN_WIDTH * SCREEN_HEIGHT implies #[trigger] flipped(
                        s,
                        rows,
                        x,
                        y,
                        row as int,
                        col + 1,
                        p,
                    ) == (flipped(s, rows, x, y, row as int, col as int, p) || (p == q && set)) by {
                        lemma_pixel_at(x, y, row as int, col as int, p);
                    }
                    assert(!flipped(s, rows, x, y, row as int, col as int, q as int));
                }
                if set {
                    let lit = self.gfx[q];
                    if lit {
                        hit = true;
                    }
                    self.gfx[q] = !lit;
                }
                proof {
                    if set && s.gfx[q as int] {
                        assert(flipped(s, rows, x, y, row as int, col + 1, q as int));
                    } else {
                        if was_hit {
                            let p = choose|p: int|
                                0 <= p < SCREEN_WIDTH * SCREEN_HEIGHT && #[trigger] flipped(
                                    s,
                                    rows,
                                    x,
                                    y,
                                    row as int,
                                    col as int,
                                    p,
                                ) && s.gfx[p];
                            assert(flipped(s, rows, x, y, row as int, col + 1, p));
                        }
                    }
                }
                col = col + 1;
            }
            proof {
                assert forall|p: int| 0 <= p < SCREEN_WIDTH * SCREEN_HEIGHT implies #[trigger] flipped(
                    s,
                    rows,
                    x,
                    y,
                    row + 1,
                    0,
                    p,
                ) == flipped(s, rows, x, y, row as int, 8, p) by {}
                if hit {
                    let p = choose|p: int|
                        0 <= p < SCREEN_WIDTH * SCREEN_HEIGHT && #[trigger] flipped(
                            s,
                            rows,
                            x,
                            y,
                            row as int,
                            8,
                            p,
                        ) && s.gfx[p];
                    assert(flipped(s, rows, x, y, row + 1, 0, p));
                }
            }
            row = row + 1;
        }
        proof {
            assert forall|p: int| 0 <= p < SCREEN_WIDTH * SCREEN_HEIGHT implies #[trigger] flipped(
                s,
                rows,
                x,
                y,
                rows as int,
                0,
                p,
            ) == sprite_covers(s.mem, s.i, rows, x, y, p) by {}
            if hit {
                let p = choose|p: int|
                    0 <= p < SCREEN_WIDTH * SCREEN_HEIGHT && #[trigger] flipped(
                        s,
                        rows,
                        x,
                        y,
                        rows as int,
                        0,
                        p,
                    ) && s.gfx[p];
                assert(sprite_covers(s.mem, s.i, rows, x, y, p));
            }
            if draw_collides(s, rows, x, y) {
                let p = choose|p: int|
                    0 <= p < SCREEN_WIDTH * SCREEN_HEIGHT && #[trigger] sprite_covers(
                        s.mem,
                        s.i,
                        rows,
                        x,
                        y,
                        p,
                    ) && s.gfx[p];
                assert(flipped(s, rows, x, y, rows as int, 0, p));
            }
        }
        self.regs[FLAG] = if hit { 1 } else { 0 };
        self.draw_flag = true;
        assert(self.gfx@ =~= drawn(s, xr, yr, rows).gfx);
    }
}

/// Relies on `rand::random::<u8>`: one byte drawn from the thread-local
/// generator. Nothing is promised of its value.
#[verifier::external_body]
fn random_byte() -> (r: u8) {
    rand::random::<u8>()
}

/// `(a + b) mod 256`.
fn add_bytes(a: u8, b: u8) -> (r: u8)
    ensures
        r == sum_byte(a, b),
{
    a.wrapping_add(b)
}

/// `(a + b) mod 65536`.
fn add_words(a: u16, b: u16) -> (r: u16)
    ensures
        r == wrap16(a + b),
{
    a.wrapping_add(b)
}

/// `(a - b) mod 256`.
fn sub_bytes(a: u8, b: u8) -> (r: u8)
    ensures
        r == diff_byte(a, b),
{
    a.wrapping_sub(b)
}

/// Display clearing, control flow and no-ops.
spec fn is_flow(op: Opcode) -> bool {
    match op {
        Opcode::Rca(_)
        | Opcode::Clear
        | Opcode::Return
        | Opcode::Jump(_)
        | Opcode::JumpPlus(_)
        | Opcode::Call(_)
        | Opcode::SkipEqVal(_, _)
        | Opcode::SkipNotEqVal(_, _)
        | Opcode::SkipEq(_, _)
        | Opcode::SkipNotEq(_, _)
        | Opcode::SkipIfKeyPressed(_)
        | Opcode::SkipIfKeyNotPressed(_)
        | Opcode::Unknown(_) => true,
        _ => false,
    }
}

/// Register loads and arithmetic.
spec fn is_register_op(op: Opcode) -> bool {
    match op {
        Opcode::SetReg(_, _)
        | Opcode::AddVal(_, _)
        | Opcode::CopyReg(_, _)
        | Opcode::And(_, _)
        | Opcode::Or(_, _)
        | Opcode::Xor(_, _)
        | Opcode::Add(_, _)
        | Opcode::Substract(_, _)
        | Opcode::MinusReg(_, _)
        | Opcode::ShiftRight(_)
        | Opcode::ShiftLeft(_)
        | Opcode::Random(_, _) => true,
        _ => false,
    }
}

/// Timers, the key wait and the index register.
spec fn is_timer_key_index_op(op: Opcode) -> bool {
    match op {
        Opcode::GetDelayTimer(_)
        | Opcode::GetKeypress(_)
        | Opcode::SetDelayTimer(_)
        | Opcode::SetSoundTimer(_)
        | Opcode::SetI(_)
        | Opcode::AddI(_)
        | Opcode::SetISprite(_) => true,
        _ => false,
    }
}

/// Instructions that touch memory beyond the instruction fetch.
spec fn is_memory_op(op: Opcode) -> bool {
    !is_flow(op) && !is_register_op(op) && !is_timer_key_index_op(op)
}

/// Whether pixel `p` is under a set bit of the sprite that the draw has
/// already reached: every row before `row`, and in `row` every column
/// before `col`.
spec fn flipped(s: MachineState, rows: u8, x: u8, y: u8, row: int, col: int, p: int) -> bool {
    sprite_covers(s.mem, s.i, rows, x, y, p) && (sprite_row(y, p) < row || (sprite_row(y, p) == row
        && sprite_col(x, p) < col))
}

/// Pixel `p` is the one on which column `col` of sprite row `row` lands,
/// drawn at `(x, y)`, exactly when its wrapped offsets from `(x, y)` are
/// `col` and `row`.
pub(crate) proof fn lemma_pixel_at(x: u8, y: u8, row: int, col: int, p: int)
    requires
        0 <= row < 32,
        0 <= col < 64,
        0 <= p < 2048,
    ensures
        0 <= ((y + row) % 32) * 64 + (x + col) % 64 < 2048,
        (sprite_row(y, p) == row && sprite_col(x, p) == col) <==> p == ((y + row) % 32) * 64 + (x
            + col) % 64,
{
}

} // verus!
