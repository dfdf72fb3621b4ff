use vstd::prelude::*;

verus! {

/// One decoded CHIP-8 instruction.
///
/// Register operands are 4-bit indices (0..=15), byte operands are the full
/// low byte of the opcode, and address operands are its low 12 bits.
#[derive(Clone, Copy, Debug, PartialEq, Eq, Structural)]
pub enum Opcode {
    /// `0NNN`: machine-code routine call, executed as a no-op.
    Rca(u16),
    /// `00E0`
    Clear,
    /// `00EE`
    Return,
    /// `1NNN`
    Jump(u16),
    /// `2NNN`
    Call(u16),
    /// `3XKK`
    SkipEqVal(u8, u8),
    /// `4XKK`
    SkipNotEqVal(u8, u8),
    /// `5XY0`
    SkipEq(u8, u8),
    /// `6XKK`
    SetReg(u8, u8),
    /// `7XKK`
    AddVal(u8, u8),
    /// `8XY0`
    CopyReg(u8, u8),
    /// `8XY1`
    Or(u8, u8),
    /// `8XY2`
    And(u8, u8),
    /// `8XY3`
    Xor(u8, u8),
    /// `8XY4`
    Add(u8, u8),
    /// `8XY5`
    Substract(u8, u8),
    /// `8XY6`
    ShiftRight(u8),
    /// `8XY7`
    MinusReg(u8, u8),
    /// `8XYE`
    ShiftLeft(u8),
    /// `9XY0`
    SkipNotEq(u8, u8),
    /// `ANNN`
    SetI(u16),
    /// `BNNN`
    JumpPlus(u16),
    /// `CXKK`
    Random(u8, u8),
    /// `DXYN`
    DrawSprite(u8, u8, u8),
    /// `EX9E`
    SkipIfKeyPressed(u8),
    /// `EXA1`
    SkipIfKeyNotPressed(u8),
    /// `FX07`
    GetDelayTimer(u8),
    /// `FX0A`
    GetKeypress(u8),
    /// `FX15`
    SetDelayTimer(u8),
    /// `FX18`
    SetSoundTimer(u8),
    /// `FX1E`
    AddI(u8),
    /// `FX29`
    SetISprite(u8),
    /// `FX33`
    StoreBCD(u8),
    /// `FX55`
    Store(u8),
    /// `FX65`
    Restore(u8),
    /// Any other bit pattern, carrying the raw opcode.
    Unknown(u16),
}

/// The first (most significant) nibble of an opcode.
pub open spec fn nib_top(w: u16) -> u8 {
    (w / 4096) as u8
}

/// The second nibble: the `X` register operand.
pub open spec fn nib_x(w: u16) -> u8 {
    ((w / 256) % 16) as u8
}

/// The third nibble: the `Y` register operand.
pub open spec fn nib_y(w: u16) -> u8 {
    ((w / 16) % 16) as u8
}

/// The last nibble.
pub open spec fn nib_n(w: u16) -> u8 {
    (w % 16) as u8
}

/// The low byte: an immediate byte operand.
pub open spec fn low_byte(w: u16) -> u8 {
    (w % 256) as u8
}

/// The low twelve bits: an address operand.
pub open spec fn low_addr(w: u16) -> u16 {
    (w % 4096) as u16
}

/// Decoding of the `8XY_` arithmetic family.
pub open spec fn decode_alu(w: u16) -> Opcode {
    let (x, y) = (nib_x(w), nib_y(w));
    let n = nib_n(w);
    if n == 0x0 {
        Opcode::CopyReg(x, y)
    } else if n == 0x1 {
        Opcode::Or(x, y)
    } else if n == 0x2 {
        Opcode::And(x, y)
    } else if n == 0x3 {
        Opcode::Xor(x, y)
    } else if n == 0x4 {
        Opcode::Add(x, y)
    } else if n == 0x5 {
        Opcode::Substract(x, y)
    } else if n == 0x6 {
        Opcode::ShiftRight(x)
    } else if n == 0x7 {
        Opcode::MinusReg(x, y)
    } else if n == 0xE {
        Opcode::ShiftLeft(x)
    } else {
        Opcode::Unknown(w)
    }
}

/// Decoding of the `EX__` key family.
pub open spec fn decode_key(w: u16) -> Opcode {
    let kk = low_byte(w);
    if kk == 0x9E {
        Opcode::SkipIfKeyPressed(nib_x(w))
    } else if kk == 0xA1 {
        Opcode::SkipIfKeyNotPressed(nib_x(w))
    } else {
        Opcode::Unknown(w)
    }
}

/// Decoding of the `FX__` timer, index and memory family.
pub open spec fn decode_misc(w: u16) -> Opcode {
    let x = nib_x(w);
    let kk = low_byte(w);
    if kk == 0x07 {
        Opcode::GetDelayTimer(x)
    } else if kk == 0x0A {
        Opcode::GetKeypress(x)
    } else if kk == 0x15 {
        Opcode::SetDelayTimer(x)
    } else if kk == 0x18 {
        Opcode::SetSoundTimer(x)
    } else if kk == 0x1E {
        Opcode::AddI(x)
    } else if kk == 0x29 {
        Opcode::SetISprite(x)
    } else if kk == 0x33 {
        Opcode::StoreBCD(x)
    } else if kk == 0x55 {
        Opcode::Store(x)
    } else if kk == 0x65 {
        Opcode::Restore(x)
    } else {
        Opcode::Unknown(w)
    }
}

/// The instruction that a 16-bit opcode denotes.
pub open spec fn decode(w: u16) -> Opcode {
    let top = nib_top(w);
    let (x, y) = (nib_x(w), nib_y(w));
    if w == 0x00E0 {
        Opcode::Clear
    } else if w == 0x00EE {
        Opcode::Return
    } else if top == 0x0 {
        Opcode::Rca(low_addr(w))
    } else if top == 0x1 {
        Opcode::Jump(low_addr(w))
    } else if top == 0x2 {
        Opcode::Call(low_addr(w))
    } else if top == 0x3 {
        Opcode::SkipEqVal(x, low_byte(w))
    } else if top == 0x4 {
        Opcode::SkipNotEqVal(x, low_byte(w))
    } else if top == 0x5 {
        if nib_n(w) == 0 {
            Opcode::SkipEq(x, y)
        } else {
            Opcode::Unknown(w)
        }
    } else if top == 0x6 {
        Opcode::SetReg(x, low_byte(w))
    } else if top == 0x7 {
        Opcode::AddVal(x, low_byte(w))
    } else if top == 0x8 {
        decode_alu(w)
    } else if top == 0x9 {
        if nib_n(w) == 0 {
            Opcode::SkipNotEq(x, y)
        } else {
            Opcode::Unknown(w)
        }
    } else if top == 0xA {
        Opcode::SetI(low_addr(w))
    } else if top == 0xB {
        Opcode::JumpPlus(low_addr(w))
    } else if top == 0xC {
        Opcode::Random(x, low_byte(w))
    } else if top == 0xD {
        Opcode::DrawSprite(x, y, nib_n(w))
    } else if top == 0xE {
        decode_key(w)
    } else {
        decode_misc(w)
    }
}

/// Every register operand of an instruction names one of the sixteen
/// registers, a sprite has at most 15 rows, and addresses fit in 12 bits: true
/// of every decoded instruction.
pub open spec fn operands_in_range(op: Opcode) -> bool {
    match op {
        Opcode::SkipEqVal(x, _) | Opcode::SkipNotEqVal(x, _) | Opcode::SetReg(x, _)
        | Opcode::AddVal(x, _) | Opcode::Random(x, _) => x < 16,
        Opcode::SkipEq(x, y) | Opcode::SkipNotEq(x, y) | Opcode::CopyReg(x, y)
        | Opcode::Or(x, y) | Opcode::And(x, y) | Opcode::Xor(x, y) | Opcode::Add(x, y)
        | Opcode::Substract(x, y) | Opcode::MinusReg(x, y) => x < 16 && y < 16,
        Opcode::DrawSprite(x, y, n) => x < 16 && y < 16 && n < 16,
        Opcode::ShiftRight(x) | Opcode::ShiftLeft(x) | Opcode::SkipIfKeyPressed(x)
        | Opcode::SkipIfKeyNotPressed(x) | Opcode::GetDelayTimer(x) | Opcode::GetKeypress(x)
        | Opcode::SetDelayTimer(x) | Opcode::SetSoundTimer(x) | Opcode::AddI(x)
        | Opcode::SetISprite(x) | Opcode::StoreBCD(x) | Opcode::Store(x)
        | Opcode::Restore(x) => x < 16,
        Opcode::Rca(a) | Opcode::Jump(a) | Opcode::Call(a) | Opcode::SetI(a)
        | Opcode::JumpPlus(a) => a < 4096,
        _ => true,
    }
}

/// Decodes a raw 16-bit opcode. Total: every bit pattern gives exactly one
/// instruction, unrecognised ones as `Opcode::Unknown` carrying the raw value.
pub fn binary_to_opcode(w: u16) -> (op: Opcode)
    ensures
        op == decode(w),
        operands_in_range(op),
{
    let top: u16 = w >> 12;
    let x: u8 = ((w >> 8) & 0xF) as u8;
    let y: u8 = ((w >> 4) & 0xF) as u8;
    let n: u8 = (w & 0xF) as u8;
    let kk: u8 = (w & 0xFF) as u8;
    let nnn: u16 = w & 0xFFF;
    assert(top == w / 4096 && top < 16) by (bit_vector)
        requires
            top == w >> 12,
    ;
    assert((w >> 8) & 0xF == (w / 256) % 16) by (bit_vector);
    assert((w >> 4) & 0xF == (w / 16) % 16) by (bit_vector);
    assert(w & 0xF == w % 16) by (bit_vector);
    assert(w & 0xFF == w % 256) by (bit_vector);
    assert(nnn == w % 4096) by (bit_vector)
        requires
            nnn == w & 0xFFF,
    ;
    if w == 0x00E0 {
        Opcode::Clear
    } else if w == 0x00EE {
        Opcode::Return
    } else if top == 0x0 {
        Opcode::Rca(nnn)
    } else if top == 0x1 {
        Opcode::Jump(nnn)
    } else if top == 0x2 {
        Opcode::Call(nnn)
    } else if top == 0x3 {
        Opcode::SkipEqVal(x, kk)
    } else if top == 0x4 {
        Opcode::SkipNotEqVal(x, kk)
    } else if top == 0x5 {
        if n == 0 {
            Opcode::SkipEq(x, y)
        } else {
            Opcode::Unknown(w)
        }
    } else if top == 0x6 {
        Opcode::SetReg(x, kk)
    } else if top == 0x7 {
        Opcode::AddVal(x, kk)
    } else if top == 0x8 {
        if n == 0x0 {
            Opcode::CopyReg(x, y)
        } else if n == 0x1 {
            Opcode::Or(x, y)
        } else if n == 0x2 {
            Opcode::And(x, y)
        } else if n == 0x3 {
            Opcode::Xor(x, y)
        } else if n == 0x4 {
            Opcode::Add(x, y)
        } else if n == 0x5 {
            Opcode::Substract(x, y)
        } else if n == 0x6 {
            Opcode::ShiftRight(x)
        } else if n == 0x7 {
            Opcode::MinusReg(x, y)
        } else if n == 0xE {
            Opcode::ShiftLeft(x)
        } else {
            Opcode::Unknown(w)
        }
    } else if top == 0x9 {
        if n == 0 {
            Opcode::SkipNotEq(x, y)
        } else {
            Opcode::Unknown(w)
        }
    } else if top == 0xA {
        Opcode::SetI(nnn)
    } else if top == 0xB {
        Opcode::JumpPlus(nnn)
    } else if top == 0xC {
        Opcode::Random(x, kk)
    } else if top == 0xD {
        Opcode::DrawSprite(x, y, n)
    } else if top == 0xE {
        if kk == 0x9E {
            Opcode::SkipIfKeyPressed(x)
        } else if kk == 0xA1 {
            Opcode::SkipIfKeyNotPressed(x)
        } else {
            Opcode::Unknown(w)
        }
    } else if kk == 0x07 {
        Opcode::GetDelayTimer(x)
    } else if kk == 0x0A {
        Opcode::GetKeypress(x)
    } else if kk == 0x15 {
        Opcode::SetDelayTimer(x)
    } else if kk == 0x18 {
        Opcode::SetSoundTimer(x)
    } else if kk == 0x1E {
        Opcode::AddI(x)
    } else if kk == 0x29 {
        Opcode::SetISprite(x)
    } else if kk == 0x33 {
        Opcode::StoreBCD(x)
    } else if kk == 0x55 {
        Opcode::Store(x)
    } else if kk == 0x65 {
        Opcode::Restore(x)
    } else {
        Opcode::Unknown(w)
    }
}

} // verus!
