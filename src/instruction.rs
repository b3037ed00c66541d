//! Instruction words and their decoding into operations.
use vstd::prelude::*;

verus! {

/// One decoded instruction word. `x` and `y` name registers, `n` is a 4-bit immediate, `nn` an
/// 8-bit immediate and `nnn` a 12-bit address.
#[derive(Clone, Copy, Debug, PartialEq, Eq, Structural)]
pub enum ChipInst {
    /// `00E0`: turn every pixel off.
    Cls,
    /// `00EE`: return from a subroutine.
    Ret,
    /// `0NNN`: call a machine-code routine; ignored.
    Sys { nnn: u16 },
    /// `1NNN`: jump to `nnn`.
    Jp { nnn: u16 },
    /// `2NNN`: call the subroutine at `nnn`.
    Call { nnn: u16 },
    /// `3XNN`: skip the next instruction if `Vx == nn`.
    SeImm { x: u8, nn: u8 },
    /// `4XNN`: skip the next instruction if `Vx != nn`.
    SneImm { x: u8, nn: u8 },
    /// `5XY0`: skip the next instruction if `Vx == Vy`.
    SeReg { x: u8, y: u8 },
    /// `6XNN`: `Vx = nn`.
    LdImm { x: u8, nn: u8 },
    /// `7XNN`: `Vx += nn`, without touching the flag.
    AddImm { x: u8, nn: u8 },
    /// `8XY0`: `Vx = Vy`.
    LdReg { x: u8, y: u8 },
    /// `8XY1`: `Vx |= Vy`.
    Or { x: u8, y: u8 },
    /// `8XY2`: `Vx &= Vy`.
    And { x: u8, y: u8 },
    /// `8XY3`: `Vx ^= Vy`.
    Xor { x: u8, y: u8 },
    /// `8XY4`: `Vx += Vy`, `VF` = carry.
    AddReg { x: u8, y: u8 },
    /// `8XY5`: `Vx -= Vy`, `VF` = no borrow.
    SubReg { x: u8, y: u8 },
    /// `8XY6`: `Vx >>= 1`, `VF` = the bit shifted out.
    Shr { x: u8, y: u8 },
    /// `8XY7`: `Vx = Vy - Vx`, `VF` = no borrow.
    Subn { x: u8, y: u8 },
    /// `8XYE`: `Vx <<= 1`, `VF` = the bit shifted out.
    Shl { x: u8, y: u8 },
    /// `9XY0`: skip the next instruction if `Vx != Vy`.
    SneReg { x: u8, y: u8 },
    /// `ANNN`: `I = nnn`.
    LdI { nnn: u16 },
    /// `BNNN`: jump to `nnn` plus `Vx`, where `x` is the top nibble of `nnn` (or plus `V0`).
    JpOff { x: u8, nnn: u16 },
    /// `CXNN`: `Vx` = a random byte AND `nn`.
    Rnd { x: u8, nn: u8 },
    /// `DXYN`: draw the `n`-byte sprite at `I` at (`Vx`, `Vy`), `VF` = collision.
    Drw { x: u8, y: u8, n: u8 },
    /// `EX9E`: skip the next instruction if key `Vx` is pressed.
    Skp { x: u8 },
    /// `EXA1`: skip the next instruction if key `Vx` is not pressed.
    Sknp { x: u8 },
    /// `FX07`: `Vx` = delay timer.
    LdVxDt { x: u8 },
    /// `FX0A`: wait for a key press and store the key in `Vx`.
    LdKey { x: u8 },
    /// `FX15`: delay timer = `Vx`.
    LdDtVx { x: u8 },
    /// `FX18`: sound timer = `Vx`.
    LdStVx { x: u8 },
    /// `FX1E`: `I += Vx`.
    AddI { x: u8 },
    /// `FX29`: `I` = address of the font glyph for digit `Vx`.
    LdFont { x: u8 },
    /// `FX33`: store the three decimal digits of `Vx` at `I`, `I+1`, `I+2`.
    Bcd { x: u8 },
    /// `FX55`: store `V0..=Vx` at `I`.
    Store { x: u8 },
    /// `FX65`: load `V0..=Vx` from `I`.
    Load { x: u8 },
    /// A word that names no operation.
    Unknown { word: u16 },
}

/// The leading nibble of `w`.
pub open spec fn nib_op(w: u16) -> int {
    (w / 0x1000) as int
}

/// The second nibble of `w`: the first register operand.
pub open spec fn nib_x(w: u16) -> u8 {
    ((w / 0x100) % 0x10) as u8
}

/// The third nibble of `w`: the second register operand.
pub open spec fn nib_y(w: u16) -> u8 {
    ((w / 0x10) % 0x10) as u8
}

/// The last nibble of `w`.
pub open spec fn nib_n(w: u16) -> u8 {
    (w % 0x10) as u8
}

/// The low byte of `w`.
pub open spec fn low_byte(w: u16) -> u8 {
    (w % 0x100) as u8
}

/// The low twelve bits of `w`: an address.
pub open spec fn low_addr(w: u16) -> u16 {
    (w % 0x1000) as u16
}

/// The instruction that the word `w` stands for.
pub open spec fn decode(w: u16) -> ChipInst {
    let (x, y, n, nn, nnn) = (nib_x(w), nib_y(w), nib_n(w), low_byte(w), low_addr(w));
    let op = nib_op(w);
    if op == 0x0 {
        if w == 0x00E0 {
            ChipInst::Cls
        } else if w == 0x00EE {
            ChipInst::Ret
        } else {
            ChipInst::Sys { nnn }
        }
    } else if op == 0x1 {
        ChipInst::Jp { nnn }
    } else if op == 0x2 {
        ChipInst::Call { nnn }
    } else if op == 0x3 {
        ChipInst::SeImm { x, nn }
    } else if op == 0x4 {
        ChipInst::SneImm { x, nn }
    } else if op == 0x5 && n == 0 {
        ChipInst::SeReg { x, y }
    } else if op == 0x6 {
        ChipInst::LdImm { x, nn }
    } else if op == 0x7 {
        ChipInst::AddImm { x, nn }
    } else if op == 0x8 && n == 0x0 {
        ChipInst::LdReg { x, y }
    } else if op == 0x8 && n == 0x1 {
        ChipInst::Or { x, y }
    } else if op == 0x8 && n == 0x2 {
        ChipInst::And { x, y }
    } else if op == 0x8 && n == 0x3 {
        ChipInst::Xor { x, y }
    } else if op == 0x8 && n == 0x4 {
        ChipInst::AddReg { x, y }
    } else if op == 0x8 && n == 0x5 {
        ChipInst::SubReg { x, y }
    } else if op == 0x8 && n == 0x6 {
        ChipInst::Shr { x, y }
    } else if op == 0x8 && n == 0x7 {
        ChipInst::Subn { x, y }
    } else if op == 0x8 && n == 0xE {
        ChipInst::Shl { x, y }
    } else if op == 0x9 && n == 0 {
        ChipInst::SneReg { x, y }
    } else if op == 0xA {
        ChipInst::LdI { nnn }
    } else if op == 0xB {
        ChipInst::JpOff { x, nnn }
    } else if op == 0xC {
        ChipInst::Rnd { x, nn }
    } else if op == 0xD {
        ChipInst::Drw { x, y, n }
    } else if op == 0xE && nn == 0x9E {
        ChipInst::Skp { x }
    } else if op == 0xE && nn == 0xA1 {
        ChipInst::Sknp { x }
    } else if op == 0xF && nn == 0x07 {
        ChipInst::LdVxDt { x }
    } else if op == 0xF && nn == 0x0A {
        ChipInst::LdKey { x }
    } else if op == 0xF && nn == 0x15 {
        ChipInst::LdDtVx { x }
    } else if op == 0xF && nn == 0x18 {
        ChipInst::LdStVx { x }
    } else if op == 0xF && nn == 0x1E {
        ChipInst::AddI { x }
    } else if op == 0xF && nn == 0x29 {
        ChipInst::LdFont { x }
    } else if op == 0xF && nn == 0x33 {
        ChipInst::Bcd { x }
    } else if op == 0xF && nn == 0x55 {
        ChipInst::Store { x }
    } else if op == 0xF && nn == 0x65 {
        ChipInst::Load { x }
    } else {
        ChipInst::Unknown { word: w }
    }
}

impl ChipInst {
    /// Whether every operand fits its field: registers and `n` in four bits, addresses in twelve.
    pub open spec fn wf(self) -> bool {
        match self {
            ChipInst::Sys { nnn } | ChipInst::Jp { nnn } | ChipInst::Call { nnn } | ChipInst::LdI {
                nnn,
            } => nnn < 0x1000,
            ChipInst::SeImm { x, .. } | ChipInst::SneImm { x, .. } | ChipInst::LdImm { x, .. }
            | ChipInst::AddImm { x, .. } | ChipInst::Rnd { x, .. } => x < 16,
            ChipInst::SeReg { x, y } | ChipInst::LdReg { x, y } | ChipInst::Or { x, y }
            | ChipInst::And { x, y } | ChipInst::Xor { x, y } | ChipInst::AddReg { x, y }
            | ChipInst::SubReg { x, y } | ChipInst::Shr { x, y } | ChipInst::Subn { x, y }
            | ChipInst::Shl { x, y } | ChipInst::SneReg { x, y } => x < 16 && y < 16,
            ChipInst::JpOff { x, nnn } => nnn < 0x1000 && x as int == nnn / 0x100,
            ChipInst::Drw { x, y, n } => x < 16 && y < 16 && n < 16,
            ChipInst::Skp { x } | ChipInst::Sknp { x } | ChipInst::LdVxDt { x } | ChipInst::LdKey {
                x,
            } | ChipInst::LdDtVx { x } | ChipInst::LdStVx { x } | ChipInst::AddI { x }
            | ChipInst::LdFont { x } | ChipInst::Bcd { x } | ChipInst::Store { x }
            | ChipInst::Load { x } => x < 16,
            _ => true,
        }
    }

    /// The word this instruction is written as.
    pub open spec fn word(self) -> int {
        match self {
            ChipInst::Cls => 0x00E0,
            ChipInst::Ret => 0x00EE,
            ChipInst::Sys { nnn } => nnn as int,
            ChipInst::Jp { nnn } => 0x1000 + nnn,
            ChipInst::Call { nnn } => 0x2000 + nnn,
            ChipInst::SeImm { x, nn } => 0x3000 + x * 0x100 + nn,
            ChipInst::SneImm { x, nn } => 0x4000 + x * 0x100 + nn,
            ChipInst::SeReg { x, y } => 0x5000 + x * 0x100 + y * 0x10,
            ChipInst::LdImm { x, nn } => 0x6000 + x * 0x100 + nn,
            ChipInst::AddImm { x, nn } => 0x7000 + x * 0x100 + nn,
            ChipInst::LdReg { x, y } => 0x8000 + x * 0x100 + y * 0x10,
            ChipInst::Or { x, y } => 0x8001 + x * 0x100 + y * 0x10,
            ChipInst::And { x, y } => 0x8002 + x * 0x100 + y * 0x10,
            ChipInst::Xor { x, y } => 0x8003 + x * 0x100 + y * 0x10,
            ChipInst::AddReg { x, y } => 0x8004 + x * 0x100 + y * 0x10,
            ChipInst::SubReg { x, y } => 0x8005 + x * 0x100 + y * 0x10,
            ChipInst::Shr { x, y } => 0x8006 + x * 0x100 + y * 0x10,
            ChipInst::Subn { x, y } => 0x8007 + x * 0x100 + y * 0x10,
            ChipInst::Shl { x, y } => 0x800E + x * 0x100 + y * 0x10,
            ChipInst::SneReg { x, y } => 0x9000 + x * 0x100 + y * 0x10,
            ChipInst::LdI { nnn } => 0xA000 + nnn,
            ChipInst::JpOff { nnn, .. } => 0xB000 + nnn,
            ChipInst::Rnd { x, nn } => 0xC000 + x * 0x100 + nn,
            ChipInst::Drw { x, y, n } => 0xD000 + x * 0x100 + y * 0x10 + n,
            ChipInst::Skp { x } => 0xE09E + x * 0x100,
            ChipInst::Sknp { x } => 0xE0A1 + x * 0x100,
            ChipInst::LdVxDt { x } => 0xF007 + x * 0x100,
            ChipInst::LdKey { x } => 0xF00A + x * 0x100,
            ChipInst::LdDtVx { x } => 0xF015 + x * 0x100,
            ChipInst::LdStVx { x } => 0xF018 + x * 0x100,
            ChipInst::AddI { x } => 0xF01E + x * 0x100,
            ChipInst::LdFont { x } => 0xF029 + x * 0x100,
            ChipInst::Bcd { x } => 0xF033 + x * 0x100,
            ChipInst::Store { x } => 0xF055 + x * 0x100,
            ChipInst::Load { x } => 0xF065 + x * 0x100,
            ChipInst::Unknown { word } => word as int,
        }
    }

    /// Decodes the instruction word `w`. Every word decodes: one that names no operation
    /// becomes `Unknown`, carrying the word.
    pub fn new(w: u16) -> (inst: ChipInst)
        ensures
            inst == decode(w),
            inst.wf(),
    {
        let op: u16 = w / 0x1000;
        let x: u8 = ((w / 0x100) % 0x10) as u8;
        let y: u8 = ((w / 0x10) % 0x10) as u8;
        let n: u8 = (w % 0x10) as u8;
        let nn: u8 = (w % 0x100) as u8;
        let nnn: u16 = w % 0x1000;
        assert(nnn / 0x100 == x as int);
        match op {
            0x0 => if w == 0x00E0 {
                ChipInst::Cls
            } else if w == 0x00EE {
                ChipInst::Ret
            } else {
                ChipInst::Sys { nnn }
            },
            0x1 => ChipInst::Jp { nnn },
            0x2 => ChipInst::Call { nnn },
            0x3 => ChipInst::SeImm { x, nn },
            0x4 => ChipInst::SneImm { x, nn },
            0x5 if n == 0 => ChipInst::SeReg { x, y },
            0x6 => ChipInst::LdImm { x, nn },
            0x7 => ChipInst::AddImm { x, nn },
            0x8 => match n {
                0x0 => ChipInst::LdReg { x, y },
                0x1 => ChipInst::Or { x, y },
                0x2 => ChipInst::And { x, y },
                0x3 => ChipInst::Xor { x, y },
                0x4 => ChipInst::AddReg { x, y },
                0x5 => ChipInst::SubReg { x, y },
                0x6 => ChipInst::Shr { x, y },
                0x7 => ChipInst::Subn { x, y },
                0xE => ChipInst::Shl { x, y },
                _ => ChipInst::Unknown { word: w },
            },
            0x9 if n == 0 => ChipInst::SneReg { x, y },
            0xA => ChipInst::LdI { nnn },
            0xB => ChipInst::JpOff { x, nnn },
            0xC => ChipInst::Rnd { x, nn },
            0xD => ChipInst::Drw { x, y, n },
            0xE => match nn {
                0x9E => ChipInst::Skp { x },
                0xA1 => ChipInst::Sknp { x },
                _ => ChipInst::Unknown { word: w },
            },
            0xF => match nn {
                0x07 => ChipInst::LdVxDt { x },
                0x0A => ChipInst::LdKey { x },
                0x15 => ChipInst::LdDtVx { x },
                0x18 => ChipInst::LdStVx { x },
                0x1E => ChipInst::AddI { x },
                0x29 => ChipInst::LdFont { x },
                0x33 => ChipInst::Bcd { x },
                0x55 => ChipInst::Store { x },
                0x65 => ChipInst::Load { x },
                _ => ChipInst::Unknown { word: w },
            },
            _ => ChipInst::Unknown { word: w },
        }
    }
}

} // verus!
