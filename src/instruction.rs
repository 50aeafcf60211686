use vstd::prelude::*;

verus! {

/// A decoded instruction. `x` and `y` name registers (`0x0` to `0xF`), `kk` is an
/// immediate byte, `addr` a 12-bit address and `n` a sprite height.
#[derive(Clone, Copy, Debug, PartialEq, Eq, Structural)]
pub enum Instruction {
    /// `00E0`: clear the display.
    Cls,
    /// `00EE`: return from a subroutine.
    Ret,
    /// `1nnn`: jump to `addr`.
    Jp(u16),
    /// `2nnn`: call the subroutine at `addr`.
    Call(u16),
    /// `3xkk`: skip the next instruction if `Vx == kk`.
    SeByte(u8, u8),
    /// `4xkk`: skip the next instruction if `Vx != kk`.
    SneByte(u8, u8),
    /// `5xy0`: skip the next instruction if `Vx == Vy`.
    SeReg(u8, u8),
    /// `6xkk`: `Vx = kk`.
    LdByte(u8, u8),
    /// `7xkk`: `Vx = Vx + kk`, wrapping.
    AddByte(u8, u8),
    /// `8xy0`: `Vx = Vy`.
    LdReg(u8, u8),
    /// `8xy1`: `Vx = Vx | Vy`.
    Or(u8, u8),
    /// `8xy2`: `Vx = Vx & Vy`.
    And(u8, u8),
    /// `8xy3`: `Vx = Vx ^ Vy`.
    Xor(u8, u8),
    /// `8xy4`: `Vx = Vx + Vy`, carry into `VF`.
    AddReg(u8, u8),
    /// `8xy5`: `Vx = Vx - Vy`, no-borrow into `VF`.
    Sub(u8, u8),
    /// `8xy6`: `Vx = Vx >> 1`, shifted-out bit into `VF`.
    Shr(u8),
    /// `8xy7`: `Vx = Vy - Vx`, no-borrow into `VF`.
    Subn(u8, u8),
    /// `8xyE`: `Vx = Vx << 1`, shifted-out bit into `VF`.
    Shl(u8),
    /// `9xy0`: skip the next instruction if `Vx != Vy`.
    SneReg(u8, u8),
    /// `Annn`: `I = addr`.
    LdI(u16),
    /// `Bnnn`: jump to `addr + V0`.
    JpV0(u16),
    /// `Cxkk`: `Vx = random byte & kk`.
    Rnd(u8, u8),
    /// `Dxyn`: draw the `n`-byte sprite at `memory[I..]` at `(Vx, Vy)`.
    Drw(u8, u8, u8),
    /// `Ex9E`: skip the next instruction if key `Vx` is held.
    Skp(u8),
    /// `ExA1`: skip the next instruction if key `Vx` is not held.
    Sknp(u8),
    /// `Fx07`: `Vx = DT`.
    LdVxDt(u8),
    /// `Fx0A`: wait for a key and store it in `Vx`.
    LdVxK(u8),
    /// `Fx15`: `DT = Vx`.
    LdDtVx(u8),
    /// `Fx18`: `ST = Vx`.
    LdStVx(u8),
    /// `Fx1E`: `I = I + Vx`, wrapping.
    AddI(u8),
    /// `Fx29`: `I` = address of the font glyph for `Vx`.
    LdF(u8),
    /// `Fx33`: store the decimal digits of `Vx` at `memory[I..I+3]`.
    LdB(u8),
    /// `Fx55`: store `V0..=Vx` at `memory[I..]`.
    StoreRegs(u8),
    /// `Fx65`: load `V0..=Vx` from `memory[I..]`.
    LoadRegs(u8),
}

/// The four nibbles of an opcode, most significant first.
pub open spec fn nibbles(op: u16) -> (u8, u8, u8, u8) {
    (((op >> 12) & 0xF) as u8, ((op >> 8) & 0xF) as u8, ((op >> 4) & 0xF) as u8, (op & 0xF) as u8)
}

/// The instruction that `op` encodes, or `None` for an illegal opcode.
pub open spec fn decoded(op: u16) -> Option<Instruction> {
    let nnn = op & 0x0FFF;
    let kk = (op & 0x00FF) as u8;
    match nibbles(op) {
        (0x0, 0x0, 0xE, 0x0) => Some(Instruction::Cls),
        (0x0, 0x0, 0xE, 0xE) => Some(Instruction::Ret),
        (0x1, _, _, _) => Some(Instruction::Jp(nnn)),
        (0x2, _, _, _) => Some(Instruction::Call(nnn)),
        (0x3, x, _, _) => Some(Instruction::SeByte(x, kk)),
        (0x4, x, _, _) => Some(Instruction::SneByte(x, kk)),
        (0x5, x, y, 0x0) => Some(Instruction::SeReg(x, y)),
        (0x6, x, _, _) => Some(Instruction::LdByte(x, kk)),
        (0x7, x, _, _) => Some(Instruction::AddByte(x, kk)),
        (0x8, x, y, 0x0) => Some(Instruction::LdReg(x, y)),
        (0x8, x, y, 0x1) => Some(Instruction::Or(x, y)),
        (0x8, x, y, 0x2) => Some(Instruction::And(x, y)),
        (0x8, x, y, 0x3) => Some(Instruction::Xor(x, y)),
        (0x8, x, y, 0x4) => Some(Instruction::AddReg(x, y)),
        (0x8, x, y, 0x5) => Some(Instruction::Sub(x, y)),
        (0x8, x, _, 0x6) => Some(Instruction::Shr(x)),
        (0x8, x, y, 0x7) => Some(Instruction::Subn(x, y)),
        (0x8, x, _, 0xE) => Some(Instruction::Shl(x)),
        (0x9, x, y, 0x0) => Some(Instruction::SneReg(x, y)),
        (0xA, _, _, _) => Some(Instruction::LdI(nnn)),
        (0xB, _, _, _) => Some(Instruction::JpV0(nnn)),
        (0xC, x, _, _) => Some(Instruction::Rnd(x, kk)),
        (0xD, x, y, n) => Some(Instruction::Drw(x, y, n)),
        (0xE, x, 0x9, 0xE) => Some(Instruction::Skp(x)),
        (0xE, x, 0xA, 0x1) => Some(Instruction::Sknp(x)),
        (0xF, x, 0x0, 0x7) => Some(Instruction::LdVxDt(x)),
        (0xF, x, 0x0, 0xA) => Some(Instruction::LdVxK(x)),
        (0xF, x, 0x1, 0x5) => Some(Instruction::LdDtVx(x)),
        (0xF, x, 0x1, 0x8) => Some(Instruction::LdStVx(x)),
        (0xF, x, 0x1, 0xE) => Some(Instruction::AddI(x)),
        (0xF, x, 0x2, 0x9) => Some(Instruction::LdF(x)),
        (0xF, x, 0x3, 0x3) => Some(Instruction::LdB(x)),
        (0xF, x, 0x5, 0x5) => Some(Instruction::StoreRegs(x)),
        (0xF, x, 0x6, 0x5) => Some(Instruction::LoadRegs(x)),
        _ => None,
    }
}

impl Instruction {
    /// Register operands are nibbles and addresses fit in twelve bits.
    pub open spec fn wf(self) -> bool {
        match self {
            Instruction::Cls | Instruction::Ret => true,
            Instruction::Jp(a) | Instruction::Call(a) | Instruction::LdI(a) | Instruction::JpV0(
                a,
            ) => a <= 0xFFF,
            Instruction::SeByte(x, _) | Instruction::SneByte(x, _) | Instruction::LdByte(x, _)
            | Instruction::AddByte(x, _) | Instruction::Rnd(x, _) => x < 16,
            Instruction::SeReg(x, y) | Instruction::LdReg(x, y) | Instruction::Or(x, y)
            | Instruction::And(x, y) | Instruction::Xor(x, y) | Instruction::AddReg(x, y)
            | Instruction::Sub(x, y) | Instruction::Subn(x, y) | Instruction::SneReg(x, y) => x < 16
                && y < 16,
            Instruction::Drw(x, y, n) => x < 16 && y < 16 && n < 16,
            Instruction::Shr(x) | Instruction::Shl(x) | Instruction::Skp(x) | Instruction::Sknp(x)
            | Instruction::LdVxDt(x) | Instruction::LdVxK(x) | Instruction::LdDtVx(x)
            | Instruction::LdStVx(x) | Instruction::AddI(x) | Instruction::LdF(x)
            | Instruction::LdB(x) | Instruction::StoreRegs(x) | Instruction::LoadRegs(x) => x < 16,
        }
    }

    /// Decodes an opcode by its nibbles; `None` when no instruction has that pattern.
    pub fn decode(op: u16) -> (r: Option<Instruction>)
        ensures
            r == decoded(op),
            r matches Some(ins) ==> ins.wf(),
    {
        let nnn = op & 0x0FFF;
        let kk = (op & 0x00FF) as u8;
        let a = ((op >> 12) & 0xF) as u8;
        let x = ((op >> 8) & 0xF) as u8;
        let y = ((op >> 4) & 0xF) as u8;
        let n = (op & 0xF) as u8;
        assert(nnn <= 0xFFF && x < 16 && y < 16 && n < 16) by (bit_vector)
            requires
                nnn == op & 0x0FFF,
                x == ((op >> 8) & 0xF) as u8,
                y == ((op >> 4) & 0xF) as u8,
                n == (op & 0xF) as u8,
        ;
        match (a, x, y, n) {
            (0x0, 0x0, 0xE, 0x0) => Some(Instruction::Cls),
            (0x0, 0x0, 0xE, 0xE) => Some(Instruction::Ret),
            (0x1, _, _, _) => Some(Instruction::Jp(nnn)),
            (0x2, _, _, _) => Some(Instruction::Call(nnn)),
            (0x3, x, _, _) => Some(Instruction::SeByte(x, kk)),
            (0x4, x, _, _) => Some(Instruction::SneByte(x, kk)),
            (0x5, x, y, 0x0) => Some(Instruction::SeReg(x, y)),
            (0x6, x, _, _) => Some(Instruction::LdByte(x, kk)),
            (0x7, x, _, _) => Some(Instruction::AddByte(x, kk)),
            (0x8, x, y, 0x0) => Some(Instruction::LdReg(x, y)),
            (0x8, x, y, 0x1) => Some(Instruction::Or(x, y)),
            (0x8, x, y, 0x2) => Some(Instruction::And(x, y)),
            (0x8, x, y, 0x3) => Some(Instruction::Xor(x, y)),
            (0x8, x, y, 0x4) => Some(Instruction::AddReg(x, y)),
            (0x8, x, y, 0x5) => Some(Instruction::Sub(x, y)),
            (0x8, x, _, 0x6) => Some(Instruction::Shr(x)),
            (0x8, x, y, 0x7) => Some(Instruction::Subn(x, y)),
            (0x8, x, _, 0xE) => Some(Instruction::Shl(x)),
            (0x9, x, y, 0x0) => Some(Instruction::SneReg(x, y)),
            (0xA, _, _, _) => Some(Instruction::LdI(nnn)),
            (0xB, _, _, _) => Some(Instruction::JpV0(nnn)),
            (0xC, x, _, _) => Some(Instruction::Rnd(x, kk)),
            (0xD, x, y, n) => Some(Instruction::Drw(x, y, n)),
            (0xE, x, 0x9, 0xE) => Some(Instruction::Skp(x)),
            (0xE, x, 0xA, 0x1) => Some(Instruction::Sknp(x)),
            (0xF, x, 0x0, 0x7) => Some(Instruction::LdVxDt(x)),
            (0xF, x, 0x0, 0xA) => Some(Instruction::LdVxK(x)),
            (0xF, x, 0x1, 0x5) => Some(Instruction::LdDtVx(x)),
            (0xF, x, 0x1, 0x8) => Some(Instruction::LdStVx(x)),
            (0xF, x, 0x1, 0xE) => Some(Instruction::AddI(x)),
            (0xF, x, 0x2, 0x9) => Some(Instruction::LdF(x)),
            (0xF, x, 0x3, 0x3) => Some(Instruction::LdB(x)),
            (0xF, x, 0x5, 0x5) => Some(Instruction::StoreRegs(x)),
            (0xF, x, 0x6, 0x5) => Some(Instruction::LoadRegs(x)),
            _ => None,
        }
    }
}

} // verus!
