use vstd::prelude::*;

verus! {

/// Top nibble of the opcode: the instruction family selector.
pub open spec fn op_family(op: u16) -> int {
    op as int / 4096
}

/// Register selector X: bits 8 to 11 of the opcode.
pub open spec fn op_x(op: u16) -> int {
    (op as int / 256) % 16
}

/// Register selector Y: bits 4 to 7 of the opcode.
pub open spec fn op_y(op: u16) -> int {
    (op as int / 16) % 16
}

/// Four-bit immediate or sub-opcode N: bits 0 to 3.
pub open spec fn op_n(op: u16) -> int {
    op as int % 16
}

/// Eight-bit immediate NN: bits 0 to 7.
pub open spec fn op_nn(op: u16) -> int {
    op as int % 256
}

/// Twelve-bit address NNN: bits 0 to 11.
pub open spec fn op_nnn(op: u16) -> int {
    op as int % 4096
}

/// One decoded instruction. Families whose top nibble does not determine the
/// instruction (0x0, 0x8, 0xE, 0xF) are resolved here by a secondary decode
/// on the low nibble or low byte; an opcode that matches no defined
/// instruction decodes to `Unknown`.
#[derive(Clone, Copy, PartialEq, Eq, Structural, Debug)]
pub enum Instr {
    /// 00E0: zero the whole framebuffer.
    ClearScreen,
    /// 00EE: pop the stack into the program counter.
    Return,
    /// 1NNN: jump to NNN.
    Jump { nnn: u16 },
    /// 2NNN: push the program counter, then jump to NNN.
    Call { nnn: u16 },
    /// 3XNN: skip the next instruction if VX == NN.
    SkipEqImm { x: usize, nn: u8 },
    /// 4XNN: skip the next instruction if VX != NN.
    SkipNeImm { x: usize, nn: u8 },
    /// 5XY0: skip the next instruction if VX == VY.
    SkipEqReg { x: usize, y: usize },
    /// 6XNN: VX := NN.
    SetImm { x: usize, nn: u8 },
    /// 7XNN: VX := VX + NN modulo 256, no flag effect.
    AddImm { x: usize, nn: u8 },
    /// 8XY0: VX := VY.
    Copy { x: usize, y: usize },
    /// 8XY1: VX := VX | VY.
    BitOr { x: usize, y: usize },
    /// 8XY2: VX := VX & VY.
    BitAnd { x: usize, y: usize },
    /// 8XY3: VX := VX ^ VY.
    BitXor { x: usize, y: usize },
    /// 8XY4: VX := VX + VY modulo 256, VF := carry.
    AddReg { x: usize, y: usize },
    /// 8XY5: VX := VX - VY modulo 256, VF := no-borrow.
    SubReg { x: usize, y: usize },
    /// 8XY6: VF := low bit of VX, VX := VX >> 1.
    ShiftRight { x: usize },
    /// 8XY7: VX := VY - VX modulo 256, VF := no-borrow.
    SubRev { x: usize, y: usize },
    /// 8XYE: VF := high bit of VX as 0/1, VX := VX << 1 modulo 256.
    ShiftLeft { x: usize },
    /// 9XY0: skip the next instruction if VX != VY.
    SkipNeReg { x: usize, y: usize },
    /// ANNN: I := NNN.
    SetIndex { nnn: u16 },
    /// BNNN: jump to NNN + V0.
    JumpV0 { nnn: u16 },
    /// CXNN: VX := pseudo-random byte & NN.
    Rand { x: usize, nn: u8 },
    /// DXYN: draw an N-row sprite from memory at I at position (VX, VY).
    Draw { x: usize, y: usize, n: usize },
    /// EX9E: skip the next instruction if the key indexed by VX is pressed.
    SkipKey { x: usize },
    /// EXA1: skip the next instruction if the key indexed by VX is not pressed.
    SkipNoKey { x: usize },
    /// FX07: VX := delay timer.
    ReadDelay { x: usize },
    /// FX0A: wait for a key press, then VX := its index.
    WaitKey { x: usize },
    /// FX15: delay timer := VX.
    SetDelay { x: usize },
    /// FX18: sound timer := VX.
    SetSound { x: usize },
    /// FX1E: I := I + VX modulo 4096.
    AddIndex { x: usize },
    /// FX29: I := address of the font glyph for the low nibble of VX.
    FontAddr { x: usize },
    /// FX33: store the decimal digits of VX at memory I, I+1, I+2.
    StoreBcd { x: usize },
    /// FX55: store V0..VX inclusive into memory starting at I.
    StoreRegs { x: usize },
    /// FX65: load memory starting at I into V0..VX inclusive.
    LoadRegs { x: usize },
    /// No defined instruction has this opcode.
    Unknown,
}

/// The decode map: which instruction a 16-bit opcode denotes.
pub open spec fn spec_decode(op: u16) -> Instr {
    let x = op_x(op) as usize;
    let y = op_y(op) as usize;
    let n = op_n(op) as usize;
    let nn = op_nn(op) as u8;
    let nnn = op_nnn(op) as u16;
    if op == 0x00E0 {
        Instr::ClearScreen
    } else if op == 0x00EE {
        Instr::Return
    } else if op_family(op) == 0x1 {
        Instr::Jump { nnn }
    } else if op_family(op) == 0x2 {
        Instr::Call { nnn }
    } else if op_family(op) == 0x3 {
        Instr::SkipEqImm { x, nn }
    } else if op_family(op) == 0x4 {
        Instr::SkipNeImm { x, nn }
    } else if op_family(op) == 0x5 && op_n(op) == 0 {
        Instr::SkipEqReg { x, y }
    } else if op_family(op) == 0x6 {
        Instr::SetImm { x, nn }
    } else if op_family(op) == 0x7 {
        Instr::AddImm { x, nn }
    } else if op_family(op) == 0x8 {
        if n == 0x0 {
            Instr::Copy { x, y }
        } else if n == 0x1 {
            Instr::BitOr { x, y }
        } else if n == 0x2 {
            Instr::BitAnd { x, y }
        } else if n == 0x3 {
            Instr::BitXor { x, y }
        } else if n == 0x4 {
            Instr::AddReg { x, y }
        } else if n == 0x5 {
            Instr::SubReg { x, y }
        } else if n == 0x6 {
            Instr::ShiftRight { x }
        } else if n == 0x7 {
            Instr::SubRev { x, y }
        } else if n == 0xE {
            Instr::ShiftLeft { x }
        } else {
            Instr::Unknown
        }
    } else if op_family(op) == 0x9 && op_n(op) == 0 {
        Instr::SkipNeReg { x, y }
    } else if op_family(op) == 0xA {
        Instr::SetIndex { nnn }
    } else if op_family(op) == 0xB {
        Instr::JumpV0 { nnn }
    } else if op_family(op) == 0xC {
        Instr::Rand { x, nn }
    } else if op_family(op) == 0xD {
        Instr::Draw { x, y, n }
    } else if op_family(op) == 0xE && op_nn(op) == 0x9E {
        Instr::SkipKey { x }
    } else if op_family(op) == 0xE && op_nn(op) == 0xA1 {
        Instr::SkipNoKey { x }
    } else if op_family(op) == 0xF && op_nn(op) == 0x07 {
        Instr::ReadDelay { x }
    } else if op_family(op) == 0xF && op_nn(op) == 0x0A {
        Instr::WaitKey { x }
    } else if op_family(op) == 0xF && op_nn(op) == 0x15 {
        Instr::SetDelay { x }
    } else if op_family(op) == 0xF && op_nn(op) == 0x18 {
        Instr::SetSound { x }
    } else if op_family(op) == 0xF && op_nn(op) == 0x1E {
        Instr::AddIndex { x }
    } else if op_family(op) == 0xF && op_nn(op) == 0x29 {
        Instr::FontAddr { x }
    } else if op_family(op) == 0xF && op_nn(op) == 0x33 {
        Instr::StoreBcd { x }
    } else if op_family(op) == 0xF && op_nn(op) == 0x55 {
        Instr::StoreRegs { x }
    } else if op_family(op) == 0xF && op_nn(op) == 0x65 {
        Instr::LoadRegs { x }
    } else {
        Instr::Unknown
    }
}

/// Every field of a decoded instruction is in range: register selectors
/// below 16, sprite heights below 16, addresses below 4096.
pub open spec fn instr_wf(i: Instr) -> bool {
    match i {
        Instr::ClearScreen => true,
        Instr::Return => true,
        Instr::Jump { nnn } => nnn < 4096,
        Instr::Call { nnn } => nnn < 4096,
        Instr::SkipEqImm { x, nn } => x < 16,
        Instr::SkipNeImm { x, nn } => x < 16,
        Instr::SkipEqReg { x, y } => x < 16 && y < 16,
        Instr::SetImm { x, nn } => x < 16,
        Instr::AddImm { x, nn } => x < 16,
        Instr::Copy { x, y } => x < 16 && y < 16,
        Instr::BitOr { x, y } => x < 16 && y < 16,
        Instr::BitAnd { x, y } => x < 16 && y < 16,
        Instr::BitXor { x, y } => x < 16 && y < 16,
        Instr::AddReg { x, y } => x < 16 && y < 16,
        Instr::SubReg { x, y } => x < 16 && y < 16,
        Instr::ShiftRight { x } => x < 16,
        Instr::SubRev { x, y } => x < 16 && y < 16,
        Instr::ShiftLeft { x } => x < 16,
        Instr::SkipNeReg { x, y } => x < 16 && y < 16,
        Instr::SetIndex { nnn } => nnn < 4096,
        Instr::JumpV0 { nnn } => nnn < 4096,
        Instr::Rand { x, nn } => x < 16,
        Instr::Draw { x, y, n } => x < 16 && y < 16 && n < 16,
        Instr::SkipKey { x } => x < 16,
        Instr::SkipNoKey { x } => x < 16,
        Instr::ReadDelay { x } => x < 16,
        Instr::WaitKey { x } => x < 16,
        Instr::SetDelay { x } => x < 16,
        Instr::SetSound { x } => x < 16,
        Instr::AddIndex { x } => x < 16,
        Instr::FontAddr { x } => x < 16,
        Instr::StoreBcd { x } => x < 16,
        Instr::StoreRegs { x } => x < 16,
        Instr::LoadRegs { x } => x < 16,
        Instr::Unknown => true,
    }
}

/// Whatever the opcode, the decoded instruction's fields are in range.
pub proof fn lemma_decode_wf(op: u16)
    ensures
        instr_wf(spec_decode(op)),
{
}

/// Decodes a 16-bit opcode into its instruction, extracting the register
/// selectors, immediates and address fields.
pub fn decode(op: u16) -> (i: Instr)
    ensures
        i == spec_decode(op),
{
    let x: usize = ((op / 256) % 16) as usize;
    let y: usize = ((op / 16) % 16) as usize;
    let n: usize = (op % 16) as usize;
    let nn: u8 = (op % 256) as u8;
    let nnn: u16 = op % 4096;
    let family: u16 = op / 4096;
    if op == 0x00E0 {
        Instr::ClearScreen
    } else if op == 0x00EE {
        Instr::Return
    } else if family == 0x1 {
        Instr::Jump { nnn }
    } else if family == 0x2 {
        Instr::Call { nnn }
    } else if family == 0x3 {
        Instr::SkipEqImm { x, nn }
    } else if family == 0x4 {
        Instr::SkipNeImm { x, nn }
    } else if family == 0x5 && n == 0 {
        Instr::SkipEqReg { x, y }
    } else if family == 0x6 {
        Instr::SetImm { x, nn }
    } else if family == 0x7 {
        Instr::AddImm { x, nn }
    } else if family == 0x8 {
        if n == 0x0 {
            Instr::Copy { x, y }
        } else if n == 0x1 {
            Instr::BitOr { x, y }
        } else if n == 0x2 {
            Instr::BitAnd { x, y }
        } else if n == 0x3 {
            Instr::BitXor { x, y }
        } else if n == 0x4 {
            Instr::AddReg { x, y }
        } else if n == 0x5 {
            Instr::SubReg { x, y }
        } else if n == 0x6 {
            Instr::ShiftRight { x }
        } else if n == 0x7 {
            Instr::SubRev { x, y }
        } else if n == 0xE {
            Instr::ShiftLeft { x }
        } else {
            Instr::Unknown
        }
    } else if family == 0x9 && n == 0 {
        Instr::SkipNeReg { x, y }
    } else if family == 0xA {
        Instr::SetIndex { nnn }
    } else if family == 0xB {
        Instr::JumpV0 { nnn }
    } else if family == 0xC {
        Instr::Rand { x, nn }
    } else if family == 0xD {
        Instr::Draw { x, y, n }
    } else if family == 0xE && nn == 0x9E {
        Instr::SkipKey { x }
    } else if family == 0xE && nn == 0xA1 {
        Instr::SkipNoKey { x }
    } else if family == 0xF && nn == 0x07 {
        Instr::ReadDelay { x }
    } else if family == 0xF && nn == 0x0A {
        Instr::WaitKey { x }
    } else if family == 0xF && nn == 0x15 {
        Instr::SetDelay { x }
    } else if family == 0xF && nn == 0x18 {
        Instr::SetSound { x }
    } else if family == 0xF && nn == 0x1E {
        Instr::AddIndex { x }
    } else if family == 0xF && nn == 0x29 {
        Instr::FontAddr { x }
    } else if family == 0xF && nn == 0x33 {
        Instr::StoreBcd { x }
    } else if family == 0xF && nn == 0x55 {
        Instr::StoreRegs { x }
    } else if family == 0xF && nn == 0x65 {
        Instr::LoadRegs { x }
    } else {
        Instr::Unknown
    }
}

} // verus!
