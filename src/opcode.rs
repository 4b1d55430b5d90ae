use vstd::prelude::*;

verus! {

/// The fields of an instruction word: its four nibbles `h x y n` from the
/// most significant down, the address `nnn` (low twelve bits) and the byte
/// `kk` (low eight bits).
#[derive(Debug, Clone, Copy, PartialEq, Eq, Structural)]
pub struct Opcode {
    pub h: u8,
    pub x: u8,
    pub y: u8,
    pub n: u8,
    pub nnn: u16,
    pub kk: u8,
}

/// The fields of `w`, read from its big-endian bit layout.
pub open spec fn opcode_of(w: u16) -> Opcode {
    Opcode {
        h: (w / 0x1000) as u8,
        x: ((w / 0x100) % 0x10) as u8,
        y: ((w / 0x10) % 0x10) as u8,
        n: (w % 0x10) as u8,
        nnn: (w % 0x1000) as u16,
        kk: (w % 0x100) as u8,
    }
}

impl Opcode {
    /// Splits an instruction word into its fields.
    pub fn parse(instr: u16) -> (op: Opcode)
        ensures
            op == opcode_of(instr),
    {
        let op = Opcode {
            h: ((instr & 0xF000) >> 12) as u8,
            x: ((instr & 0x0F00) >> 8) as u8,
            y: ((instr & 0x00F0) >> 4) as u8,
            n: (instr & 0x000F) as u8,
            nnn: instr & 0x0FFF,
            kk: (instr & 0x00FF) as u8,
        };
        assert(((instr & 0xF000) >> 12) == instr / 0x1000 && ((instr & 0x0F00) >> 8) == (instr
            / 0x100) % 0x10 && ((instr & 0x00F0) >> 4) == (instr / 0x10) % 0x10 && (instr
            & 0x000F) == instr % 0x10 && (instr & 0x0FFF) == instr % 0x1000 && (instr & 0x00FF)
            == instr % 0x100) by (bit_vector);
        op
    }
}

/// Decoding is exact: the nibbles are below 16 and put back together give
/// the word, the address is the low three nibbles and the byte the low two.
pub proof fn law_decode(w: u16)
    ensures
        opcode_of(w).h < 16 && opcode_of(w).x < 16 && opcode_of(w).y < 16 && opcode_of(w).n < 16,
        w == opcode_of(w).h * 0x1000 + opcode_of(w).x * 0x100 + opcode_of(w).y * 0x10
            + opcode_of(w).n,
        opcode_of(w).nnn == opcode_of(w).x * 0x100 + opcode_of(w).y * 0x10 + opcode_of(w).n,
        opcode_of(w).kk == opcode_of(w).y * 0x10 + opcode_of(w).n,
{
    assert(w / 0x1000 < 16 && w == (w / 0x1000) * 0x1000 + ((w / 0x100) % 0x10) * 0x100 + ((w
        / 0x10) % 0x10) * 0x10 + w % 0x10 && w % 0x1000 == ((w / 0x100) % 0x10) * 0x100 + ((w
        / 0x10) % 0x10) * 0x10 + w % 0x10 && w % 0x100 == ((w / 0x10) % 0x10) * 0x10 + w % 0x10)
        by (bit_vector);
}

/// One decoded operation with its operands.
#[derive(Debug, Clone, Copy, PartialEq, Eq, Structural)]
pub enum Instruction {
    /// `00E0`: clear the display.
    Cls,
    /// `00EE`: return from a subroutine.
    Ret,
    /// `1nnn`: jump to `addr`.
    Jp { addr: u16 },
    /// `2nnn`: call the subroutine at `addr`.
    Call { addr: u16 },
    /// `3xkk`: skip if `Vx == kk`.
    SeByte { x: u8, kk: u8 },
    /// `4xkk`: skip if `Vx != kk`.
    SneByte { x: u8, kk: u8 },
    /// `5xy0`: skip if `Vx == Vy`.
    SeReg { x: u8, y: u8 },
    /// `6xkk`: `Vx := kk`.
    LdByte { x: u8, kk: u8 },
    /// `7xkk`: `Vx := Vx + kk`, wrapping, no flag.
    AddByte { x: u8, kk: u8 },
    /// `8xy0`: `Vx := Vy`.
    LdReg { x: u8, y: u8 },
    /// `8xy1`: `Vx := Vx | Vy`.
    Or { x: u8, y: u8 },
    /// `8xy2`: `Vx := Vx & Vy`.
    And { x: u8, y: u8 },
    /// `8xy3`: `Vx := Vx ^ Vy`.
    Xor { x: u8, y: u8 },
    /// `8xy4`: `Vx := Vx + Vy`, `VF :=` carry.
    AddReg { x: u8, y: u8 },
    /// `8xy5`: `Vx := Vx - Vy`, `VF :=` no borrow.
    Sub { x: u8, y: u8 },
    /// `8xy6`: `Vx := Vx >> 1`, `VF :=` the bit shifted out.
    Shr { x: u8 },
    /// `8xy7`: `Vx := Vy - Vx`, `VF :=` no borrow.
    Subn { x: u8, y: u8 },
    /// `8xyE`: `Vx := Vx << 1`, `VF :=` the bit shifted out.
    Shl { x: u8 },
    /// `9xy0`: skip if `Vx != Vy`.
    SneReg { x: u8, y: u8 },
    /// `Annn`: `I := addr`.
    LdI { addr: u16 },
    /// `Bnnn`: jump to `addr + V0`.
    JpV0 { addr: u16 },
    /// `Cxkk`: `Vx :=` a random byte `& kk`.
    Rnd { x: u8, kk: u8 },
    /// `Dxyn`: draw the `n` bytes at `I` at `(Vx, Vy)`, `VF :=` collision.
    Drw { x: u8, y: u8, n: u8 },
    /// `Ex9E`: skip if key `Vx` is down.
    Skp { x: u8 },
    /// `ExA1`: skip if key `Vx` is up.
    Sknp { x: u8 },
    /// `Fx07`: `Vx := DT`.
    LdVxDt { x: u8 },
    /// `Fx0A`: wait for a key press and store it in `Vx`.
    LdKey { x: u8 },
    /// `Fx15`: `DT := Vx`.
    LdDtVx { x: u8 },
    /// `Fx18`: `ST := Vx`.
    LdStVx { x: u8 },
    /// `Fx1E`: `I := I + Vx`, wrapping at 16 bits.
    AddI { x: u8 },
    /// `Fx29`: `I :=` address of the glyph of digit `Vx`.
    LdF { x: u8 },
    /// `Fx33`: decimal digits of `Vx` at `I`, `I+1`, `I+2`.
    LdB { x: u8 },
    /// `Fx55`: `V0..=Vx` to memory from `I` on.
    StoreRegs { x: u8 },
    /// `Fx65`: `V0..=Vx` from memory from `I` on.
    LoadRegs { x: u8 },
    /// A word that matches no operation.
    Unknown { word: u16 },
}

/// The operation that the fields `op` of word `w` encode.
pub open spec fn decode_fields(op: Opcode, w: u16) -> Instruction {
    let (x, y, n, nnn, kk) = (op.x, op.y, op.n, op.nnn, op.kk);
    match (op.h, op.x, op.y, op.n) {
        (0, 0, 0xE, 0) => Instruction::Cls,
        (0, 0, 0xE, 0xE) => Instruction::Ret,
        (1, _, _, _) => Instruction::Jp { addr: nnn },
        (2, _, _, _) => Instruction::Call { addr: nnn },
        (3, _, _, _) => Instruction::SeByte { x, kk },
        (4, _, _, _) => Instruction::SneByte { x, kk },
        (5, _, _, 0) => Instruction::SeReg { x, y },
        (6, _, _, _) => Instruction::LdByte { x, kk },
        (7, _, _, _) => Instruction::AddByte { x, kk },
        (8, _, _, 0) => Instruction::LdReg { x, y },
        (8, _, _, 1) => Instruction::Or { x, y },
        (8, _, _, 2) => Instruction::And { x, y },
        (8, _, _, 3) => Instruction::Xor { x, y },
        (8, _, _, 4) => Instruction::AddReg { x, y },
        (8, _, _, 5) => Instruction::Sub { x, y },
        (8, _, _, 6) => Instruction::Shr { x },
        (8, _, _, 7) => Instruction::Subn { x, y },
        (8, _, _, 0xE) => Instruction::Shl { x },
        (9, _, _, 0) => Instruction::SneReg { x, y },
        (0xA, _, _, _) => Instruction::LdI { addr: nnn },
        (0xB, _, _, _) => Instruction::JpV0 { addr: nnn },
        (0xC, _, _, _) => Instruction::Rnd { x, kk },
        (0xD, _, _, _) => Instruction::Drw { x, y, n },
        (0xE, _, 9, 0xE) => Instruction::Skp { x },
        (0xE, _, 0xA, 1) => Instruction::Sknp { x },
        (0xF, _, 0, 7) => Instruction::LdVxDt { x },
        (0xF, _, 0, 0xA) => Instruction::LdKey { x },
        (0xF, _, 1, 5) => Instruction::LdDtVx { x },
        (0xF, _, 1, 8) => Instruction::LdStVx { x },
        (0xF, _, 1, 0xE) => Instruction::AddI { x },
        (0xF, _, 2, 9) => Instruction::LdF { x },
        (0xF, _, 3, 3) => Instruction::LdB { x },
        (0xF, _, 5, 5) => Instruction::StoreRegs { x },
        (0xF, _, 6, 5) => Instruction::LoadRegs { x },
        _ => Instruction::Unknown { word: w },
    }
}

/// The operation that word `w` encodes.
pub open spec fn instruction_of(w: u16) -> Instruction {
    decode_fields(opcode_of(w), w)
}

impl Instruction {
    /// Register operands are below 16, addresses below `0x1000`, sprite
    /// heights below 16.
    pub open spec fn wf(self) -> bool {
        match self {
            Instruction::Jp { addr } | Instruction::Call { addr } | Instruction::LdI { addr }
            | Instruction::JpV0 { addr } => addr < 0x1000,
            Instruction::SeByte { x, .. } | Instruction::SneByte { x, .. }
            | Instruction::LdByte { x, .. } | Instruction::AddByte { x, .. }
            | Instruction::Rnd { x, .. } => x < 16,
            Instruction::SeReg { x, y } | Instruction::LdReg { x, y } | Instruction::Or { x, y }
            | Instruction::And { x, y } | Instruction::Xor { x, y } | Instruction::AddReg { x, y }
            | Instruction::Sub { x, y } | Instruction::Subn { x, y }
            | Instruction::SneReg { x, y } => x < 16 && y < 16,
            Instruction::Drw { x, y, n } => x < 16 && y < 16 && n < 16,
            Instruction::Shr { x } | Instruction::Shl { x } | Instruction::Skp { x }
            | Instruction::Sknp { x } | Instruction::LdVxDt { x } | Instruction::LdKey { x }
            | Instruction::LdDtVx { x } | Instruction::LdStVx { x } | Instruction::AddI { x }
            | Instruction::LdF { x } | Instruction::LdB { x } | Instruction::StoreRegs { x }
            | Instruction::LoadRegs { x } => x < 16,
            Instruction::Cls | Instruction::Ret | Instruction::Unknown { .. } => true,
        }
    }

    /// Decodes an instruction word.
    pub fn decode(instr: u16) -> (ins: Instruction)
        ensures
            ins == instruction_of(instr),
            ins.wf(),
    {
        let op = Opcode::parse(instr);
        proof {
            law_decode(instr);
        }
        let (x, y, n, nnn, kk) = (op.x, op.y, op.n, op.nnn, op.kk);
        match (op.h, op.x, op.y, op.n) {
            (0, 0, 0xE, 0) => Instruction::Cls,
            (0, 0, 0xE, 0xE) => Instruction::Ret,
            (1, _, _, _) => Instruction::Jp { addr: nnn },
            (2, _, _, _) => Instruction::Call { addr: nnn },
            (3, _, _, _) => Instruction::SeByte { x, kk },
            (4, _, _, _) => Instruction::SneByte { x, kk },
            (5, _, _, 0) => Instruction::SeReg { x, y },
            (6, _, _, _) => Instruction::LdByte { x, kk },
            (7, _, _, _) => Instruction::AddByte { x, kk },
            (8, _, _, 0) => Instruction::LdReg { x, y },
            (8, _, _, 1) => Instruction::Or { x, y },
            (8, _, _, 2) => Instruction::And { x, y },
            (8, _, _, 3) => Instruction::Xor { x, y },
            (8, _, _, 4) => Instruction::AddReg { x, y },
            (8, _, _, 5) => Instruction::Sub { x, y },
            (8, _, _, 6) => Instruction::Shr { x },
            (8, _, _, 7) => Instruction::Subn { x, y },
            (8, _, _, 0xE) => Instruction::Shl { x },
            (9, _, _, 0) => Instruction::SneReg { x, y },
            (0xA, _, _, _) => Instruction::LdI { addr: nnn },
            (0xB, _, _, _) => Instruction::JpV0 { addr: nnn },
            (0xC, _, _, _) => Instruction::Rnd { x, kk },
            (0xD, _, _, _) => Instruction::Drw { x, y, n },
            (0xE, _, 9, 0xE) => Instruction::Skp { x },
            (0xE, _, 0xA, 1) => Instruction::Sknp { x },
            (0xF, _, 0, 7) => Instruction::LdVxDt { x },
            (0xF, _, 0, 0xA) => Instruction::LdKey { x },
            (0xF, _, 1, 5) => Instruction::LdDtVx { x },
            (0xF, _, 1, 8) => Instruction::LdStVx { x },
            (0xF, _, 1, 0xE) => Instruction::AddI { x },
            (0xF, _, 2, 9) => Instruction::LdF { x },
            (0xF, _, 3, 3) => Instruction::LdB { x },
            (0xF, _, 5, 5) => Instruction::StoreRegs { x },
            (0xF, _, 6, 5) => Instruction::LoadRegs { x },
            _ => Instruction::Unknown { word: instr },
        }
    }
}

} // verus!
