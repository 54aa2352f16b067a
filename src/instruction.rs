//! Decoding of 16-bit opcodes into a tagged instruction.
use vstd::prelude::*;

verus! {

/// One decoded CHIP-8 instruction. `x` and `y` are register indices (0..16),
/// `kk` a byte immediate, `n` a sprite height and the `u16` payloads are
/// 12-bit addresses.
#[derive(Clone, Copy, Debug, PartialEq, Eq, Structural)]
pub enum Instruction {
    /// 00E0
    ClearScreen,
    /// 00EE
    Return,
    /// 1nnn
    Jump(u16),
    /// 2nnn
    Call(u16),
    /// 3xkk
    SkipEqImm { x: u8, kk: u8 },
    /// 4xkk
    SkipNeImm { x: u8, kk: u8 },
    /// 5xy0
    SkipEqReg { x: u8, y: u8 },
    /// 6xkk
    LoadImm { x: u8, kk: u8 },
    /// 7xkk
    AddImm { x: u8, kk: u8 },
    /// 8xy0
    Move { x: u8, y: u8 },
    /// 8xy1
    Or { x: u8, y: u8 },
    /// 8xy2
    And { x: u8, y: u8 },
    /// 8xy3
    Xor { x: u8, y: u8 },
    /// 8xy4
    AddReg { x: u8, y: u8 },
    /// 8xy5
    Sub { x: u8, y: u8 },
    /// 8xy6
    ShiftRight { x: u8 },
    /// 8xy7
    SubReversed { x: u8, y: u8 },
    /// 8xyE
    ShiftLeft { x: u8 },
    /// 9xy0
    SkipNeReg { x: u8, y: u8 },
    /// Annn
    SetIndex(u16),
    /// Bnnn
    JumpOffset(u16),
    /// Cxkk
    Random { x: u8, kk: u8 },
    /// Dxyn
    Draw { x: u8, y: u8, n: u8 },
    /// Ex9E
    SkipKey { x: u8 },
    /// ExA1
    SkipNotKey { x: u8 },
    /// Fx07
    GetDelay { x: u8 },
    /// Fx0A
    WaitKey { x: u8 },
    /// Fx15
    SetDelay { x: u8 },
    /// Fx18
    SetSound { x: u8 },
    /// Fx1E
    AddIndex { x: u8 },
    /// Fx29
    FontGlyph { x: u8 },
    /// Fx33
    StoreBcd { x: u8 },
    /// Fx55
    StoreRegs { x: u8 },
    /// Fx65
    LoadRegs { x: u8 },
    /// Any opcode that matches none of the patterns above.
    Unknown(u16),
}

/// The most significant nibble of an opcode.
pub open spec fn op_kind(op: u16) -> u16 {
    op / 0x1000
}

/// The second nibble (register index `x`).
pub open spec fn op_x(op: u16) -> u8 {
    ((op / 0x100) % 0x10) as u8
}

/// The third nibble (register index `y`).
pub open spec fn op_y(op: u16) -> u8 {
    ((op / 0x10) % 0x10) as u8
}

/// The least significant nibble (`n`).
pub open spec fn op_n(op: u16) -> u8 {
    (op % 0x10) as u8
}

/// The low byte (`kk`).
pub open spec fn op_kk(op: u16) -> u8 {
    (op % 0x100) as u8
}

/// The low twelve bits (`nnn`).
pub open spec fn op_nnn(op: u16) -> u16 {
    op % 0x1000
}

/// The instruction that an opcode stands for.
pub open spec fn decoded(op: u16) -> Instruction {
    let (k, x, y, n, kk, nnn) = (op_kind(op), op_x(op), op_y(op), op_n(op), op_kk(op), op_nnn(op));
    if k == 0x0 {
        if op == 0x00E0 {
            Instruction::ClearScreen
        } else if op == 0x00EE {
            Instruction::Return
        } else {
            Instruction::Unknown(op)
        }
    } else if k == 0x1 {
        Instruction::Jump(nnn)
    } else if k == 0x2 {
        Instruction::Call(nnn)
    } else if k == 0x3 {
        Instruction::SkipEqImm { x, kk }
    } else if k == 0x4 {
        Instruction::SkipNeImm { x, kk }
    } else if k == 0x5 && n == 0x0 {
        Instruction::SkipEqReg { x, y }
    } else if k == 0x6 {
        Instruction::LoadImm { x, kk }
    } else if k == 0x7 {
        Instruction::AddImm { x, kk }
    } else if k == 0x8 && n == 0x0 {
        Instruction::Move { x, y }
    } else if k == 0x8 && n == 0x1 {
        Instruction::Or { x, y }
    } else if k == 0x8 && n == 0x2 {
        Instruction::And { x, y }
    } else if k == 0x8 && n == 0x3 {
        Instruction::Xor { x, y }
    } else if k == 0x8 && n == 0x4 {
        Instruction::AddReg { x, y }
    } else if k == 0x8 && n == 0x5 {
        Instruction::Sub { x, y }
    } else if k == 0x8 && n == 0x6 {
        Instruction::ShiftRight { x }
    } else if k == 0x8 && n == 0x7 {
        Instruction::SubReversed { x, y }
    } else if k == 0x8 && n == 0xE {
        Instruction::ShiftLeft { x }
    } else if k == 0x9 && n == 0x0 {
        Instruction::SkipNeReg { x, y }
    } else if k == 0xA {
        Instruction::SetIndex(nnn)
    } else if k == 0xB {
        Instruction::JumpOffset(nnn)
    } else if k == 0xC {
        Instruction::Random { x, kk }
    } else if k == 0xD {
        Instruction::Draw { x, y, n }
    } else if k == 0xE && kk == 0x9E {
        Instruction::SkipKey { x }
    } else if k == 0xE && kk == 0xA1 {
        Instruction::SkipNotKey { x }
    } else if k == 0xF && kk == 0x07 {
        Instruction::GetDelay { x }
    } else if k == 0xF && kk == 0x0A {
        Instruction::WaitKey { x }
    } else if k == 0xF && kk == 0x15 {
        Instruction::SetDelay { x }
    } else if k == 0xF && kk == 0x18 {
        Instruction::SetSound { x }
    } else if k == 0xF && kk == 0x1E {
        Instruction::AddIndex { x }
    } else if k == 0xF && kk == 0x29 {
        Instruction::FontGlyph { x }
    } else if k == 0xF && kk == 0x33 {
        Instruction::StoreBcd { x }
    } else if k == 0xF && kk == 0x55 {
        Instruction::StoreRegs { x }
    } else if k == 0xF && kk == 0x65 {
        Instruction::LoadRegs { x }
    } else {
        Instruction::Unknown(op)
    }
}

impl Instruction {
    /// Register indices and sprite heights are nibbles, addresses twelve bits.
    pub open spec fn in_range(self) -> bool {
        match self {
            Instruction::Jump(a) | Instruction::Call(a) | Instruction::SetIndex(a)
            | Instruction::JumpOffset(a) => a < 0x1000,
            Instruction::SkipEqImm { x, kk } | Instruction::SkipNeImm { x, kk }
            | Instruction::LoadImm { x, kk } | Instruction::AddImm { x, kk }
            | Instruction::Random { x, kk } => x < 16,
            Instruction::SkipEqReg { x, y } | Instruction::Move { x, y } | Instruction::Or { x, y }
            | Instruction::And { x, y } | Instruction::Xor { x, y } | Instruction::AddReg { x, y }
            | Instruction::Sub { x, y } | Instruction::SubReversed { x, y }
            | Instruction::SkipNeReg { x, y } => x < 16 && y < 16,
            Instruction::Draw { x, y, n } => x < 16 && y < 16 && n < 16,
            Instruction::ShiftRight { x } | Instruction::ShiftLeft { x } | Instruction::SkipKey { x }
            | Instruction::SkipNotKey { x } | Instruction::GetDelay { x } | Instruction::WaitKey { x }
            | Instruction::SetDelay { x } | Instruction::SetSound { x } | Instruction::AddIndex { x }
            | Instruction::FontGlyph { x } | Instruction::StoreBcd { x } | Instruction::StoreRegs { x }
            | Instruction::LoadRegs { x } => x < 16,
            Instruction::ClearScreen | Instruction::Return | Instruction::Unknown(_) => true,
        }
    }

    /// Splits `op` into its nibble fields and picks the matching instruction.
    pub fn decode(op: u16) -> (r: Instruction)
        ensures
            r == decoded(op),
            r.in_range(),
    {
        let k: u16 = (op & 0xF000) >> 12;
        let xw: u16 = (op & 0x0F00) >> 8;
        let yw: u16 = (op & 0x00F0) >> 4;
        let nw: u16 = op & 0x000F;
        let kkw: u16 = op & 0x00FF;
        let nnn: u16 = op & 0x0FFF;
        assert(k == op / 0x1000) by (bit_vector)
            requires k == (op & 0xF000) >> 12;
        assert(xw == (op / 0x100) % 0x10 && xw < 0x10) by (bit_vector)
            requires xw == (op & 0x0F00) >> 8;
        assert(yw == (op / 0x10) % 0x10 && yw < 0x10) by (bit_vector)
            requires yw == (op & 0x00F0) >> 4;
        assert(nw == op % 0x10 && nw < 0x10) by (bit_vector)
            requires nw == op & 0x000F;
        assert(kkw == op % 0x100 && kkw < 0x100) by (bit_vector)
            requires kkw == op & 0x00FF;
        assert(nnn == op % 0x1000 && nnn < 0x1000) by (bit_vector)
            requires nnn == op & 0x0FFF;
        let x: u8 = xw as u8;
        let y: u8 = yw as u8;
        let n: u8 = nw as u8;
        let kk: u8 = kkw as u8;
        if k == 0x0 {
            if op == 0x00E0 {
                Instruction::ClearScreen
            } else if op == 0x00EE {
                Instruction::Return
            } else {
                Instruction::Unknown(op)
            }
        } else if k == 0x1 {
            Instruction::Jump(nnn)
        } else if k == 0x2 {
            Instruction::Call(nnn)
        } else if k == 0x3 {
            Instruction::SkipEqImm { x, kk }
        } else if k == 0x4 {
            Instruction::SkipNeImm { x, kk }
        } else if k == 0x5 && n == 0x0 {
            Instruction::SkipEqReg { x, y }
        } else if k == 0x6 {
            Instruction::LoadImm { x, kk }
        } else if k == 0x7 {
            Instruction::AddImm { x, kk }
        } else if k == 0x8 {
            match n {
                0x0 => Instruction::Move { x, y },
                0x1 => Instruction::Or { x, y },
                0x2 => Instruction::And { x, y },
                0x3 => Instruction::Xor { x, y },
                0x4 => Instruction::AddReg { x, y },
                0x5 => Instruction::Sub { x, y },
                0x6 => Instruction::ShiftRight { x },
                0x7 => Instruction::SubReversed { x, y },
                0xE => Instruction::ShiftLeft { x },
                _ => Instruction::Unknown(op),
            }
        } else if k == 0x9 && n == 0x0 {
            Instruction::SkipNeReg { x, y }
        } else if k == 0xA {
            Instruction::SetIndex(nnn)
        } else if k == 0xB {
            Instruction::JumpOffset(nnn)
        } else if k == 0xC {
            Instruction::Random { x, kk }
        } else if k == 0xD {
            Instruction::Draw { x, y, n }
        } else if k == 0xE {
            match kk {
                0x9E => Instruction::SkipKey { x },
                0xA1 => Instruction::SkipNotKey { x },
                _ => Instruction::Unknown(op),
            }
        } else if k == 0xF {
            match kk {
                0x07 => Instruction::GetDelay { x },
                0x0A => Instruction::WaitKey { x },
                0x15 => Instruction::SetDelay { x },
                0x18 => Instruction::SetSound { x },
                0x1E => Instruction::AddIndex { x },
                0x29 => Instruction::FontGlyph { x },
                0x33 => Instruction::StoreBcd { x },
                0x55 => Instruction::StoreRegs { x },
                0x65 => Instruction::LoadRegs { x },
                _ => Instruction::Unknown(op),
            }
        } else {
            Instruction::Unknown(op)
        }
    }
}

} // verus!
