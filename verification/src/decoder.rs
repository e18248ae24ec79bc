//! Turns a fetched 16-bit word into a structured instruction.

use vstd::prelude::*;

verus! {

/// One decoded instruction. `x` and `y` name registers, `kk` is an
/// immediate byte, `nnn` a 12-bit address and `n` a sprite height.
#[derive(Clone, Copy, Debug, PartialEq, Eq, Structural)]
pub enum Instruction {
    /// `0000`: stop the machine.
    Halt,
    /// `00E0` and `2030`: blank the display.
    ClearDisplay,
    /// `00EE`: return from a subroutine.
    Return,
    /// `1nnn`: jump to `nnn`.
    Jump { nnn: u16 },
    /// `2nnn`: call the subroutine at `nnn`.
    Call { nnn: u16 },
    /// `3xkk`: skip the next instruction if `Vx == kk`.
    SkipEqualImmediate { x: u8, kk: u8 },
    /// `4xkk`: skip the next instruction if `Vx != kk`.
    SkipNotEqualImmediate { x: u8, kk: u8 },
    /// `5xy_`: skip the next instruction if `Vx == Vy`.
    SkipEqualRegister { x: u8, y: u8 },
    /// `6xkk`: `Vx = kk`.
    LoadImmediate { x: u8, kk: u8 },
    /// `7xkk`: `Vx = Vx + kk`, without touching the flag register.
    AddImmediate { x: u8, kk: u8 },
    /// `8xy0`: `Vx = Vy`.
    LoadRegister { x: u8, y: u8 },
    /// `8xy1`: `Vx = Vx | Vy`.
    Or { x: u8, y: u8 },
    /// `8xy2`: `Vx = Vx & Vy`.
    And { x: u8, y: u8 },
    /// `8xy3`: `Vx = Vx ^ Vy`.
    Xor { x: u8, y: u8 },
    /// `8xy4`: `Vx = Vx + Vy`, the flag register receives the carry.
    AddRegister { x: u8, y: u8 },
    /// `8xy5`: `Vx = Vx - Vy`, the flag register receives "no borrow".
    Subtract { x: u8, y: u8 },
    /// `8x_6`: `Vx = Vx >> 1`, the flag register receives the bit shifted out.
    ShiftRight { x: u8 },
    /// `8xy7`: `Vx = Vy - Vx`, the flag register receives "no borrow".
    SubtractReversed { x: u8, y: u8 },
    /// `8x_E`: `Vx = Vx << 1`, the flag register receives the bit shifted out.
    ShiftLeft { x: u8 },
    /// `9xy_`: skip the next instruction if `Vx != Vy`.
    SkipNotEqualRegister { x: u8, y: u8 },
    /// `Annn`: `I = nnn`.
    LoadIndex { nnn: u16 },
    /// `Bnnn`: jump to `nnn + V0`.
    JumpOffset { nnn: u16 },
    /// `Cxkk`: `Vx = random byte & kk`.
    Random { x: u8, kk: u8 },
    /// `Dxyn`: draw the `n`-byte sprite at `I` at column `Vx`, row `Vy`.
    Draw { x: u8, y: u8, n: u8 },
    /// `Ex9E`: skip the next instruction if key `Vx` is down.
    SkipKeyDown { x: u8 },
    /// `ExA1`: skip the next instruction if key `Vx` is up.
    SkipKeyUp { x: u8 },
    /// `Fx07`: `Vx = delay timer`.
    ReadDelay { x: u8 },
    /// `Fx0A`: wait until a key is down, then `Vx = that key`.
    WaitKey { x: u8 },
    /// `Fx15`: `delay timer = Vx`.
    SetDelay { x: u8 },
    /// `Fx18`: `sound timer = Vx`.
    SetSound { x: u8 },
    /// `Fx1E`: `I = I + Vx`.
    AddIndex { x: u8 },
    /// `Fx29`: `I = address of the glyph for Vx`.
    LoadGlyph { x: u8 },
    /// `Fx33`: store the three decimal digits of `Vx` at `I`, `I+1`, `I+2`.
    StoreDecimal { x: u8 },
    /// `Fx55`: store `V0..=Vx` at `I..=I+x`.
    StoreRegisters { x: u8 },
    /// `Fx65`: load `V0..=Vx` from `I..=I+x`.
    LoadRegisters { x: u8 },
    /// Any other word, carried along.
    Illegal { opcode: u16 },
}

/// The operand fields of an instruction word.
#[derive(Clone, Copy, Debug)]
pub struct Fields {
    /// The four nibbles, most significant first.
    pub op1: u16,
    pub op2: u16,
    pub op3: u16,
    pub op4: u16,
    /// The lowest twelve bits.
    pub nnn: u16,
    /// The lowest eight bits.
    pub kk: u8,
}

/// The most significant nibble of `word`.
pub open spec fn nibble1(word: u16) -> u16 {
    (word & 0xF000) >> 12
}

/// The second nibble of `word`, which names register `x`.
pub open spec fn nibble2(word: u16) -> u16 {
    (word & 0x0F00) >> 8
}

/// The third nibble of `word`, which names register `y`.
pub open spec fn nibble3(word: u16) -> u16 {
    (word & 0x00F0) >> 4
}

/// The least significant nibble of `word`, the sprite height `n`.
pub open spec fn nibble4(word: u16) -> u16 {
    word & 0x000F
}

/// The address field `nnn` of `word`.
pub open spec fn address_of(word: u16) -> u16 {
    word & 0x0FFF
}

/// The immediate byte `kk` of `word`.
pub open spec fn immediate_of(word: u16) -> u8 {
    (word & 0x00FF) as u8
}

/// The fields of `word`, as `split` computes them.
pub open spec fn fields_of(word: u16) -> Fields {
    Fields {
        op1: nibble1(word),
        op2: nibble2(word),
        op3: nibble3(word),
        op4: nibble4(word),
        nnn: address_of(word),
        kk: immediate_of(word),
    }
}

/// Each nibble is below 16, the address below 4096, and the fields are the
/// hexadecimal digits of the word.
pub proof fn lemma_fields(word: u16)
    ensures
        nibble1(word) < 16,
        nibble2(word) < 16,
        nibble3(word) < 16,
        nibble4(word) < 16,
        address_of(word) < 4096,
        nibble1(word) == word / 4096,
        nibble2(word) == (word / 256) % 16,
        nibble3(word) == (word / 16) % 16,
        nibble4(word) == word % 16,
        address_of(word) == word % 4096,
        immediate_of(word) == word % 256,
{
    assert((word & 0xF000) >> 12 == word / 4096) by (bit_vector);
    assert((word & 0x0F00) >> 8 == (word / 256) % 16) by (bit_vector);
    assert((word & 0x00F0) >> 4 == (word / 16) % 16) by (bit_vector);
    assert(word & 0x000F == word % 16) by (bit_vector);
    assert(word & 0x0FFF == word % 4096) by (bit_vector);
    assert((word & 0x00FF) as u8 == word % 256) by (bit_vector);
}

/// The instruction that `word` encodes: its nibble tuple selects the
/// operation, and a word that no rule matches is `Illegal`.
pub open spec fn decode_spec(word: u16) -> Instruction {
    let f = fields_of(word);
    let x = f.op2 as u8;
    let y = f.op3 as u8;
    let n = f.op4 as u8;
    let nnn = f.nnn;
    let kk = f.kk;
    let (a, b, c, d) = (f.op1, f.op2, f.op3, f.op4);
    if a == 0 && b == 0 && c == 0 && d == 0 {
        Instruction::Halt
    } else if (a == 0 && b == 0 && c == 0xE && d == 0) || (a == 2 && b == 0 && c == 3 && d == 0) {
        Instruction::ClearDisplay
    } else if a == 0 && b == 0 && c == 0xE && d == 0xE {
        Instruction::Return
    } else if a == 0x1 {
        Instruction::Jump { nnn }
    } else if a == 0x2 {
        Instruction::Call { nnn }
    } else if a == 0x3 {
        Instruction::SkipEqualImmediate { x, kk }
    } else if a == 0x4 {
        Instruction::SkipNotEqualImmediate { x, kk }
    } else if a == 0x5 {
        Instruction::SkipEqualRegister { x, y }
    } else if a == 0x6 {
        Instruction::LoadImmediate { x, kk }
    } else if a == 0x7 {
        Instruction::AddImmediate { x, kk }
    } else if a == 0x8 && d == 0x0 {
        Instruction::LoadRegister { x, y }
    } else if a == 0x8 && d == 0x1 {
        Instruction::Or { x, y }
    } else if a == 0x8 && d == 0x2 {
        Instruction::And { x, y }
    } else if a == 0x8 && d == 0x3 {
        Instruction::Xor { x, y }
    } else if a == 0x8 && d == 0x4 {
        Instruction::AddRegister { x, y }
    } else if a == 0x8 && d == 0x5 {
        Instruction::Subtract { x, y }
    } else if a == 0x8 && d == 0x6 {
        Instruction::ShiftRight { x }
    } else if a == 0x8 && d == 0x7 {
        Instruction::SubtractReversed { x, y }
    } else if a == 0x8 && d == 0xE {
        Instruction::ShiftLeft { x }
    } else if a == 0x9 {
        Instruction::SkipNotEqualRegister { x, y }
    } else if a == 0xA {
        Instruction::LoadIndex { nnn }
    } else if a == 0xB {
        Instruction::JumpOffset { nnn }
    } else if a == 0xC {
        Instruction::Random { x, kk }
    } else if a == 0xD {
        Instruction::Draw { x, y, n }
    } else if a == 0xE && c == 0x9 && d == 0xE {
        Instruction::SkipKeyDown { x }
    } else if a == 0xE && c == 0xA && d == 0x1 {
        Instruction::SkipKeyUp { x }
    } else if a == 0xF && c == 0x0 && d == 0x7 {
        Instruction::ReadDelay { x }
    } else if a == 0xF && c == 0x0 && d == 0xA {
        Instruction::WaitKey { x }
    } else if a == 0xF && c == 0x1 && d == 0x5 {
        Instruction::SetDelay { x }
    } else if a == 0xF && c == 0x1 && d == 0x8 {
        Instruction::SetSound { x }
    } else if a == 0xF && c == 0x1 && d == 0xE {
        Instruction::AddIndex { x }
    } else if a == 0xF && c == 0x2 && d == 0x9 {
        Instruction::LoadGlyph { x }
    } else if a == 0xF && c == 0x3 && d == 0x3 {
        Instruction::StoreDecimal { x }
    } else if a == 0xF && c == 0x5 && d == 0x5 {
        Instruction::StoreRegisters { x }
    } else if a == 0xF && c == 0x6 && d == 0x5 {
        Instruction::LoadRegisters { x }
    } else {
        Instruction::Illegal { opcode: word }
    }
}

impl Instruction {
    /// The operands are in range: registers and sprite height below 16,
    /// addresses below 4096.
    pub open spec fn wf(self) -> bool {
        match self {
            Instruction::Halt | Instruction::ClearDisplay | Instruction::Return => true,
            Instruction::Jump { nnn } => nnn < 4096,
            Instruction::Call { nnn } => nnn < 4096,
            Instruction::SkipEqualImmediate { x, kk } => x < 16,
            Instruction::SkipNotEqualImmediate { x, kk } => x < 16,
            Instruction::SkipEqualRegister { x, y } => x < 16 && y < 16,
            Instruction::LoadImmediate { x, kk } => x < 16,
            Instruction::AddImmediate { x, kk } => x < 16,
            Instruction::LoadRegister { x, y } => x < 16 && y < 16,
            Instruction::Or { x, y } => x < 16 && y < 16,
            Instruction::And { x, y } => x < 16 && y < 16,
            Instruction::Xor { x, y } => x < 16 && y < 16,
            Instruction::AddRegister { x, y } => x < 16 && y < 16,
            Instruction::Subtract { x, y } => x < 16 && y < 16,
            Instruction::ShiftRight { x } => x < 16,
            Instruction::SubtractReversed { x, y } => x < 16 && y < 16,
            Instruction::ShiftLeft { x } => x < 16,
            Instruction::SkipNotEqualRegister { x, y } => x < 16 && y < 16,
            Instruction::LoadIndex { nnn } => nnn < 4096,
            Instruction::JumpOffset { nnn } => nnn < 4096,
            Instruction::Random { x, kk } => x < 16,
            Instruction::Draw { x, y, n } => x < 16 && y < 16 && n < 16,
            Instruction::SkipKeyDown { x } => x < 16,
            Instruction::SkipKeyUp { x } => x < 16,
            Instruction::ReadDelay { x } => x < 16,
            Instruction::WaitKey { x } => x < 16,
            Instruction::SetDelay { x } => x < 16,
            Instruction::SetSound { x } => x < 16,
            Instruction::AddIndex { x } => x < 16,
            Instruction::LoadGlyph { x } => x < 16,
            Instruction::StoreDecimal { x } => x < 16,
            Instruction::StoreRegisters { x } => x < 16,
            Instruction::LoadRegisters { x } => x < 16,
            Instruction::Illegal { opcode } => true,
        }
    }
}

/// Every word decodes to an instruction whose operands are in range.
pub proof fn lemma_decode_wf(word: u16)
    ensures
        decode_spec(word).wf(),
{
    lemma_fields(word);
}

/// Splits `word` into its nibbles and operand fields.
pub fn split(word: u16) -> (f: Fields)
    ensures
        f == fields_of(word),
        f.op1 < 16,
        f.op2 < 16,
        f.op3 < 16,
        f.op4 < 16,
        f.nnn < 4096,
{
    proof {
        lemma_fields(word);
    }
    Fields {
        op1: (word & 0xF000) >> 12,
        op2: (word & 0x0F00) >> 8,
        op3: (word & 0x00F0) >> 4,
        op4: word & 0x000F,
        nnn: word & 0x0FFF,
        kk: (word & 0x00FF) as u8,
    }
}

/// Decodes `word`: the nibble tuple selects the operation, the remaining
/// nibbles are its operands. A word that no rule matches decodes to
/// `Illegal`, which carries it.
pub fn decode(word: u16) -> (instruction: Instruction)
    ensures
        instruction == decode_spec(word),
        instruction.wf(),
{
    let f = split(word);
    proof {
        lemma_decode_wf(word);
    }
    let x = f.op2 as u8;
    let y = f.op3 as u8;
    let n = f.op4 as u8;
    let nnn = f.nnn;
    let kk = f.kk;
    match (f.op1, f.op2, f.op3, f.op4) {
        (0, 0, 0, 0) => Instruction::Halt,
        (0, 0, 0xE, 0) | (2, 0, 3, 0) => Instruction::ClearDisplay,
        (0, 0, 0xE, 0xE) => Instruction::Return,
        (0x1, _, _, _) => Instruction::Jump { nnn },
        (0x2, _, _, _) => Instruction::Call { nnn },
        (0x3, _, _, _) => Instruction::SkipEqualImmediate { x, kk },
        (0x4, _, _, _) => Instruction::SkipNotEqualImmediate { x, kk },
        (0x5, _, _, _) => Instruction::SkipEqualRegister { x, y },
        (0x6, _, _, _) => Instruction::LoadImmediate { x, kk },
        (0x7, _, _, _) => Instruction::AddImmediate { x, kk },
        (0x8, _, _, 0x0) => Instruction::LoadRegister { x, y },
        (0x8, _, _, 0x1) => Instruction::Or { x, y },
        (0x8, _, _, 0x2) => Instruction::And { x, y },
        (0x8, _, _, 0x3) => Instruction::Xor { x, y },
        (0x8, _, _, 0x4) => Instruction::AddRegister { x, y },
        (0x8, _, _, 0x5) => Instruction::Subtract { x, y },
        (0x8, _, _, 0x6) => Instruction::ShiftRight { x },
        (0x8, _, _, 0x7) => Instruction::SubtractReversed { x, y },
        (0x8, _, _, 0xE) => Instruction::ShiftLeft { x },
        (0x9, _, _, _) => Instruction::SkipNotEqualRegister { x, y },
        (0xA, _, _, _) => Instruction::LoadIndex { nnn },
        (0xB, _, _, _) => Instruction::JumpOffset { nnn },
        (0xC, _, _, _) => Instruction::Random { x, kk },
        (0xD, _, _, _) => Instruction::Draw { x, y, n },
        (0xE, _, 0x9, 0xE) => Instruction::SkipKeyDown { x },
        (0xE, _, 0xA, 0x1) => Instruction::SkipKeyUp { x },
        (0xF, _, 0x0, 0x7) => Instruction::ReadDelay { x },
        (0xF, _, 0x0, 0xA) => Instruction::WaitKey { x },
        (0xF, _, 0x1, 0x5) => Instruction::SetDelay { x },
        (0xF, _, 0x1, 0x8) => Instruction::SetSound { x },
        (0xF, _, 0x1, 0xE) => Instruction::AddIndex { x },
        (0xF, _, 0x2, 0x9) => Instruction::LoadGlyph { x },
        (0xF, _, 0x3, 0x3) => Instruction::StoreDecimal { x },
        (0xF, _, 0x5, 0x5) => Instruction::StoreRegisters { x },
        (0xF, _, 0x6, 0x5) => Instruction::LoadRegisters { x },
        _ => Instruction::Illegal { opcode: word },
    }
}

} // verus!
