//! Instruction words: their fields and the instruction set.

use vstd::prelude::*;

verus! {

/// The fields of one 16-bit instruction word.
///
/// An instruction is made by [`Instruction::new`], which cuts every field out
/// of the same word; [`Instruction::wf`] says so.
#[derive(Clone, Copy, Debug, PartialEq, Eq)]
pub struct Instruction {
    /// The whole word, high byte first.
    pub raw_instr: u16,
    /// Highest 4 bits: the opcode class.
    pub op: u8,
    /// Lowest 12 bits: an address.
    pub nnn: u16,
    /// Lowest 4 bits.
    pub n: u8,
    /// Lower 4 bits of the high byte: the first register selector.
    pub x: u8,
    /// Upper 4 bits of the low byte: the second register selector.
    pub y: u8,
    /// Lowest 8 bits: an immediate byte.
    pub kk: u8,
}

/// The instruction set.
#[derive(Clone, Copy, Debug, PartialEq, Eq, Hash)]
pub enum InstructionType {
    /// `00E0`: clear the display.
    Cls,
    /// `00EE`: return from a subroutine.
    Ret,
    /// `1nnn`: jump to `nnn`.
    Jmp,
    /// `2nnn`: call the subroutine at `nnn`.
    CallNnn,
    /// `3xkk`: skip the next instruction if `Vx == kk`.
    SeVxKk,
    /// `4xkk`: skip the next instruction if `Vx != kk`.
    SneVxKk,
    /// `5xy_`: skip the next instruction if `Vx == Vy`.
    SeVxVy,
    /// `6xkk`: `Vx = kk`.
    LdVxKk,
    /// `7xkk`: `Vx = Vx + kk`, without a flag.
    AddVxKk,
    /// `8xy0`: `Vx = Vy`.
    LdVxVy,
    /// `8xy1`: `Vx = Vx | Vy`.
    OrVxVy,
    /// `8xy2`: `Vx = Vx & Vy`.
    AndVxVy,
    /// `8xy3`: `Vx = Vx ^ Vy`.
    XorVxVy,
    /// `8xy4`: `Vx = Vx + Vy`, `VF` = carry.
    AddVxVy,
    /// `8xy5`: `Vx = Vx - Vy`, `VF` = no borrow.
    SubVxVy,
    /// `8xy6`: `Vx = Vx >> 1`, `VF` = the bit shifted out.
    ShrVxVy,
    /// `8xy7`: `Vx = Vy - Vx`, `VF` = no borrow.
    SubnVxVy,
    /// `8xyE`: `Vx = Vx << 1`, `VF` = the bit shifted out.
    ShlVxVy,
    /// `9xy_`: skip the next instruction if `Vx != Vy`.
    SneVxVy,
    /// `Annn`: `I = nnn`.
    LdINnn,
    /// `Bnnn`: jump to `nnn + V0`.
    JmpV0Nnn,
    /// `Cxkk`: `Vx` = a pseudo-random byte masked with `kk`.
    RndVxKk,
    /// `Dxyn`: draw the `n`-row sprite at `I` at column `Vx`, row `Vy`.
    DrwVxVyN,
    /// `Ex9E`: skip the next instruction if the key `Vx` is down.
    SkpVx,
    /// `ExA1`: skip the next instruction if the key `Vx` is not down.
    SkNpVx,
    /// `Fx07`: `Vx` = the delay timer.
    LdVxDt,
    /// `Fx0A`: wait for a key and put its number into `Vx`.
    LdVxK,
    /// `Fx15`: the delay timer = `Vx`.
    LdDtVx,
    /// `Fx18`: the sound timer = `Vx`.
    LdStVx,
    /// `Fx1E`: `I = I + Vx`.
    AddIVx,
    /// `Fx29`: `I` = the address of the glyph for `Vx`.
    LdFVx,
    /// `Fx33`: store the decimal digits of `Vx` at `I`, `I + 1`, `I + 2`.
    LdBVx,
    /// `Fx55`: store `V0..=Vx` at `I`.
    LdIVx,
    /// `Fx65`: load `V0..=Vx` from `I`.
    LdVxI,
}

impl InstructionType {
    /// The bits of a word that make it this instruction: the word is one
    /// where its bits under the first number, a mask, are the second number.
    /// The bits that the mask leaves out are operands, or are not looked at.
    pub open spec fn encoding(self) -> (u16, u16) {
        match self {
            InstructionType::Cls => (0xFFFF, 0x00E0),
            InstructionType::Ret => (0xFFFF, 0x00EE),
            InstructionType::Jmp => (0xF000, 0x1000),
            InstructionType::CallNnn => (0xF000, 0x2000),
            InstructionType::SeVxKk => (0xF000, 0x3000),
            InstructionType::SneVxKk => (0xF000, 0x4000),
            InstructionType::SeVxVy => (0xF000, 0x5000),
            InstructionType::LdVxKk => (0xF000, 0x6000),
            InstructionType::AddVxKk => (0xF000, 0x7000),
            InstructionType::LdVxVy => (0xF00F, 0x8000),
            InstructionType::OrVxVy => (0xF00F, 0x8001),
            InstructionType::AndVxVy => (0xF00F, 0x8002),
            InstructionType::XorVxVy => (0xF00F, 0x8003),
            InstructionType::AddVxVy => (0xF00F, 0x8004),
            InstructionType::SubVxVy => (0xF00F, 0x8005),
            InstructionType::ShrVxVy => (0xF00F, 0x8006),
            InstructionType::SubnVxVy => (0xF00F, 0x8007),
            InstructionType::ShlVxVy => (0xF00F, 0x800E),
            InstructionType::SneVxVy => (0xF000, 0x9000),
            InstructionType::LdINnn => (0xF000, 0xA000),
            InstructionType::JmpV0Nnn => (0xF000, 0xB000),
            InstructionType::RndVxKk => (0xF000, 0xC000),
            InstructionType::DrwVxVyN => (0xF000, 0xD000),
            InstructionType::SkpVx => (0xF0FF, 0xE09E),
            InstructionType::SkNpVx => (0xF0FF, 0xE0A1),
            InstructionType::LdVxDt => (0xF0FF, 0xF007),
            InstructionType::LdVxK => (0xF0FF, 0xF00A),
            InstructionType::LdDtVx => (0xF0FF, 0xF015),
            InstructionType::LdStVx => (0xF0FF, 0xF018),
            InstructionType::AddIVx => (0xF0FF, 0xF01E),
            InstructionType::LdFVx => (0xF0FF, 0xF029),
            InstructionType::LdBVx => (0xF0FF, 0xF033),
            InstructionType::LdIVx => (0xF0FF, 0xF055),
            InstructionType::LdVxI => (0xF0FF, 0xF065),
        }
    }

    /// Whether `word` is an encoding of this instruction.
    pub open spec fn encodes(self, word: u16) -> bool {
        word & self.encoding().0 == self.encoding().1
    }
}

impl Instruction {
    /// The fields of the word `raw`.
    pub open spec fn of_word(raw: u16) -> Instruction {
        Instruction {
            raw_instr: raw,
            op: (raw / 0x1000) as u8,
            nnn: raw % 0x1000,
            n: (raw % 0x10) as u8,
            x: (raw / 0x100 % 0x10) as u8,
            y: (raw / 0x10 % 0x10) as u8,
            kk: (raw % 0x100) as u8,
        }
    }

    /// Every field is the part of `raw_instr` that it is named after.
    pub open spec fn wf(self) -> bool {
        self == Instruction::of_word(self.raw_instr)
    }

    /// The instruction that the word selects, or `None` where the word is
    /// no instruction.
    ///
    /// The classes `0`, `8`, `E` and `F` are told apart by their low byte or
    /// low nibble; every other class is one instruction, whatever its
    /// operands.
    pub open spec fn kind(self) -> Option<InstructionType> {
        match self.op {
            0x0 => match self.raw_instr {
                0x00E0 => Some(InstructionType::Cls),
                0x00EE => Some(InstructionType::Ret),
                _ => None,
            },
            0x1 => Some(InstructionType::Jmp),
            0x2 => Some(InstructionType::CallNnn),
            0x3 => Some(InstructionType::SeVxKk),
            0x4 => Some(InstructionType::SneVxKk),
            0x5 => Some(InstructionType::SeVxVy),
            0x6 => Some(InstructionType::LdVxKk),
            0x7 => Some(InstructionType::AddVxKk),
            0x8 => match self.n {
                0x0 => Some(InstructionType::LdVxVy),
                0x1 => Some(InstructionType::OrVxVy),
                0x2 => Some(InstructionType::AndVxVy),
                0x3 => Some(InstructionType::XorVxVy),
                0x4 => Some(InstructionType::AddVxVy),
                0x5 => Some(InstructionType::SubVxVy),
                0x6 => Some(InstructionType::ShrVxVy),
                0x7 => Some(InstructionType::SubnVxVy),
                0xE => Some(InstructionType::ShlVxVy),
                _ => None,
            },
            0x9 => Some(InstructionType::SneVxVy),
            0xA => Some(InstructionType::LdINnn),
            0xB => Some(InstructionType::JmpV0Nnn),
            0xC => Some(InstructionType::RndVxKk),
            0xD => Some(InstructionType::DrwVxVyN),
            0xE => match self.kk {
                0x9E => Some(InstructionType::SkpVx),
                0xA1 => Some(InstructionType::SkNpVx),
                _ => None,
            },
            0xF => match self.kk {
                0x07 => Some(InstructionType::LdVxDt),
                0x0A => Some(InstructionType::LdVxK),
                0x15 => Some(InstructionType::LdDtVx),
                0x18 => Some(InstructionType::LdStVx),
                0x1E => Some(InstructionType::AddIVx),
                0x29 => Some(InstructionType::LdFVx),
                0x33 => Some(InstructionType::LdBVx),
                0x55 => Some(InstructionType::LdIVx),
                0x65 => Some(InstructionType::LdVxI),
                _ => None,
            },
            _ => None,
        }
    }

    /// Splits the word `raw` into its fields.
    pub fn new(raw: u16) -> (instr: Instruction)
        ensures
            instr == Instruction::of_word(raw),
            instr.wf(),
            instr.op < 16,
            instr.x < 16,
            instr.y < 16,
            instr.n < 16,
            instr.nnn < 0x1000,
    {
        assert((raw & 0xf000) >> 12 == raw / 0x1000) by (bit_vector);
        assert(raw & 0xfff == raw % 0x1000) by (bit_vector);
        assert(raw & 0xf == raw % 0x10) by (bit_vector);
        assert((raw & 0xf00) >> 8 == raw / 0x100 % 0x10) by (bit_vector);
        assert((raw & 0xf0) >> 4 == raw / 0x10 % 0x10) by (bit_vector);
        assert(raw & 0xff == raw % 0x100) by (bit_vector);
        Instruction {
            raw_instr: raw,
            op: ((raw & 0xf000) >> 12) as u8,
            nnn: raw & 0xfff,
            n: (raw & 0xf) as u8,
            x: ((raw & 0xf00) >> 8) as u8,
            y: ((raw & 0xf0) >> 4) as u8,
            kk: (raw & 0xff) as u8,
        }
    }
}

} // verus!
