//! Instruction words and their decoding.
//!
//! An instruction is two bytes, high byte first. Decoding is pure bit
//! extraction: four nibbles, a twelve-bit immediate and an eight-bit
//! immediate, from which the operation is chosen.

use vstd::prelude::*;
use crate::mmu::{wrap_address, Mmu};

verus! {

/// One decoded operation. Fields named `x` and `y` are register numbers,
/// `addr` is a twelve-bit immediate and `byte` an eight-bit immediate.
#[derive(Clone, Copy, Debug, PartialEq, Eq, Structural)]
pub enum Instruction {
    /// `00E0`: clear the display.
    ClearScreen,
    /// `0230`: clear the display, as the high-resolution extension writes it.
    /// The grid has one size, and all of it is cleared, as by `00E0`.
    ClearScreenHires,
    /// `00EE`: return from a subroutine.
    Return,
    /// Any other word whose first nibble is 0: no operation.
    Nop,
    /// `1nnn`: jump to `addr`.
    Jump { addr: u16 },
    /// `2nnn`: call the subroutine at `addr`.
    Call { addr: u16 },
    /// `3xkk`: skip the next instruction if `Vx == byte`.
    SkipEqImm { x: u8, byte: u8 },
    /// `4xkk`: skip the next instruction if `Vx != byte`.
    SkipNeImm { x: u8, byte: u8 },
    /// `5xy_`: skip the next instruction if `Vx == Vy`.
    SkipEqReg { x: u8, y: u8 },
    /// `6xkk`: set `Vx` to `byte`.
    LoadImm { x: u8, byte: u8 },
    /// `7xkk`: add `byte` to `Vx`, without a flag.
    AddImm { x: u8, byte: u8 },
    /// `8xy0`: set `Vx` to `Vy`.
    Move { x: u8, y: u8 },
    /// `8xy1`: set `Vx` to `Vx | Vy`.
    Or { x: u8, y: u8 },
    /// `8xy2`: set `Vx` to `Vx & Vy`.
    And { x: u8, y: u8 },
    /// `8xy3`: set `Vx` to `Vx ^ Vy`.
    Xor { x: u8, y: u8 },
    /// `8xy4`: set `Vx` to `Vx + Vy` and `VF` to the carry.
    Add { x: u8, y: u8 },
    /// `8xy5`: set `Vx` to `Vx - Vy` and `VF` to 1 if `Vx > Vy`.
    Sub { x: u8, y: u8 },
    /// `8x_6`: shift `Vx` right by one bit and set `VF` to the bit dropped.
    ShiftRight { x: u8 },
    /// `8xy7`: set `Vx` to `Vy - Vx` and `VF` to 1 if `Vy > Vx`.
    SubReverse { x: u8, y: u8 },
    /// `8x_E`: shift `Vx` left by one bit and set `VF` to the bit dropped.
    ShiftLeft { x: u8 },
    /// `9xy0`: skip the next instruction if `Vx != Vy`.
    SkipNeReg { x: u8, y: u8 },
    /// `Annn`: set the index register to `addr`.
    LoadIndex { addr: u16 },
    /// `Bnnn`: jump to `addr + V0`.
    JumpOffset { addr: u16 },
    /// `Cxkk`: set `Vx` to a random byte masked by `byte`.
    Random { x: u8, byte: u8 },
    /// `Dxyn`: draw the `n`-row sprite at the index register at `(Vx, Vy)`.
    Draw { x: u8, y: u8, n: u8 },
    /// `Ex9E`: skip the next instruction if the key named by `Vx` is down.
    SkipKey { x: u8 },
    /// `ExA1`: skip the next instruction if the key named by `Vx` is up.
    SkipNoKey { x: u8 },
    /// `Fx07`: set `Vx` to the delay timer.
    ReadDelay { x: u8 },
    /// `Fx15`: set the delay timer to `Vx`.
    SetDelay { x: u8 },
    /// `Fx18`: set the sound timer to `Vx`.
    SetSound { x: u8 },
    /// `Fx1E`: add `Vx` to the index register.
    AddIndex { x: u8 },
    /// `Fx29`: point the index register at the glyph of digit `Vx`.
    Glyph { x: u8 },
    /// `Fx33`: store the decimal digits of `Vx` at the index register.
    Decimal { x: u8 },
    /// `Fx55`: store `V0` to `Vx` at the index register.
    Store { x: u8 },
    /// `Fx65`: load `V0` to `Vx` from the index register.
    Load { x: u8 },
}

/// The four nibbles of the word `hi lo`, most significant first.
pub open spec fn nibbles(hi: u8, lo: u8) -> (u8, u8, u8, u8) {
    (hi / 16, hi % 16, lo / 16, lo % 16)
}

/// The twelve-bit immediate of the word `hi lo`: the low nibble of `hi`
/// followed by `lo`.
pub open spec fn immediate12(hi: u8, lo: u8) -> u16 {
    ((hi % 16) * 256 + lo) as u16
}

/// The operation that the word `hi lo` encodes, if it encodes one.
pub open spec fn decoded(hi: u8, lo: u8) -> Option<Instruction> {
    let (op, x, y, n) = nibbles(hi, lo);
    let addr = immediate12(hi, lo);
    let byte = lo;
    if op == 0x0 {
        if hi == 0x00 && lo == 0xE0 {
            Some(Instruction::ClearScreen)
        } else if hi == 0x02 && lo == 0x30 {
            Some(Instruction::ClearScreenHires)
        } else if hi == 0x00 && lo == 0xEE {
            Some(Instruction::Return)
        } else {
            Some(Instruction::Nop)
        }
    } else if op == 0x1 {
        Some(Instruction::Jump { addr })
    } else if op == 0x2 {
        Some(Instruction::Call { addr })
    } else if op == 0x3 {
        Some(Instruction::SkipEqImm { x, byte })
    } else if op == 0x4 {
        Some(Instruction::SkipNeImm { x, byte })
    } else if op == 0x5 {
        Some(Instruction::SkipEqReg { x, y })
    } else if op == 0x6 {
        Some(Instruction::LoadImm { x, byte })
    } else if op == 0x7 {
        Some(Instruction::AddImm { x, byte })
    } else if op == 0x8 {
        if n == 0x0 {
            Some(Instruction::Move { x, y })
        } else if n == 0x1 {
            Some(Instruction::Or { x, y })
        } else if n == 0x2 {
            Some(Instruction::And { x, y })
        } else if n == 0x3 {
            Some(Instruction::Xor { x, y })
        } else if n == 0x4 {
            Some(Instruction::Add { x, y })
        } else if n == 0x5 {
            Some(Instruction::Sub { x, y })
        } else if n == 0x6 {
            Some(Instruction::ShiftRight { x })
        } else if n == 0x7 {
            Some(Instruction::SubReverse { x, y })
        } else if n == 0xE {
            Some(Instruction::ShiftLeft { x })
        } else {
            None
        }
    } else if op == 0x9 {
        if n == 0x0 {
            Some(Instruction::SkipNeReg { x, y })
        } else {
            None
        }
    } else if op == 0xA {
        Some(Instruction::LoadIndex { addr })
    } else if op == 0xB {
        Some(Instruction::JumpOffset { addr })
    } else if op == 0xC {
        Some(Instruction::Random { x, byte })
    } else if op == 0xD {
        Some(Instruction::Draw { x, y, n })
    } else if op == 0xE {
        if lo == 0x9E {
            Some(Instruction::SkipKey { x })
        } else if lo == 0xA1 {
            Some(Instruction::SkipNoKey { x })
        } else {
            None
        }
    } else {
        if lo == 0x07 {
            Some(Instruction::ReadDelay { x })
        } else if lo == 0x15 {
            Some(Instruction::SetDelay { x })
        } else if lo == 0x18 {
            Some(Instruction::SetSound { x })
        } else if lo == 0x1E {
            Some(Instruction::AddIndex { x })
        } else if lo == 0x29 {
            Some(Instruction::Glyph { x })
        } else if lo == 0x33 {
            Some(Instruction::Decimal { x })
        } else if lo == 0x55 {
            Some(Instruction::Store { x })
        } else if lo == 0x65 {
            Some(Instruction::Load { x })
        } else {
            None
        }
    }
}

impl Instruction {
    /// Every register number and row count is a nibble and every address has
    /// twelve bits.
    pub open spec fn wf(self) -> bool {
        match self {
            Instruction::ClearScreen
            | Instruction::ClearScreenHires
            | Instruction::Return
            | Instruction::Nop => true,
            Instruction::Jump { addr }
            | Instruction::Call { addr }
            | Instruction::LoadIndex { addr }
            | Instruction::JumpOffset { addr } => addr < 0x1000,
            Instruction::SkipEqImm { x, .. }
            | Instruction::SkipNeImm { x, .. }
            | Instruction::LoadImm { x, .. }
            | Instruction::AddImm { x, .. }
            | Instruction::Random { x, .. }
            | Instruction::ShiftRight { x }
            | Instruction::ShiftLeft { x }
            | Instruction::SkipKey { x }
            | Instruction::SkipNoKey { x }
            | Instruction::ReadDelay { x }
            | Instruction::SetDelay { x }
            | Instruction::SetSound { x }
            | Instruction::AddIndex { x }
            | Instruction::Glyph { x }
            | Instruction::Decimal { x }
            | Instruction::Store { x }
            | Instruction::Load { x } => x < 16,
            Instruction::SkipEqReg { x, y }
            | Instruction::Move { x, y }
            | Instruction::Or { x, y }
            | Instruction::And { x, y }
            | Instruction::Xor { x, y }
            | Instruction::Add { x, y }
            | Instruction::Sub { x, y }
            | Instruction::SubReverse { x, y }
            | Instruction::SkipNeReg { x, y } => x < 16 && y < 16,
            Instruction::Draw { x, y, n } => x < 16 && y < 16 && n < 16,
        }
    }
}

/// Whatever the word, the operation it decodes to has well-formed operands.
pub proof fn lemma_decoded_wf(hi: u8, lo: u8)
    ensures
        decoded(hi, lo) matches Some(ins) ==> ins.wf(),
{
}

/// A two-byte instruction word.
#[derive(Clone, Copy, Debug, PartialEq, Eq, Structural)]
pub struct Opcode {
    hi: u8,
    lo: u8,
}

impl View for Opcode {
    type V = (u8, u8);

    closed spec fn view(&self) -> (u8, u8) {
        (self.hi, self.lo)
    }
}

impl Opcode {
    /// The word whose high byte is `hi` and whose low byte is `lo`.
    pub fn new(hi: u8, lo: u8) -> (op: Opcode)
        ensures
            op@ == (hi, lo),
    {
        Opcode { hi, lo }
    }

    /// Fetches the word at `*pc` through the bus and advances `*pc` past it.
    /// Both byte addresses are reduced by the bus; the counter itself wraps at
    /// the width of its type. The bus is left as it was.
    pub fn read_next(pc: &mut u32, m: &mut Mmu) -> (op: Opcode)
        ensures
            op@ == (
                old(m)@[wrap_address(*old(pc) as int)],
                old(m)@[wrap_address(*old(pc) + 1)],
            ),
            *final(pc) == (*old(pc) + 2) % 0x1_0000_0000,
            final(m)@ == old(m)@,
    {
        let first: u32 = *pc;
        let second: u32 = first.wrapping_add(1);
        let op = Opcode { hi: m.read(first as usize), lo: m.read(second as usize) };
        *pc = first.wrapping_add(2);
        op
    }

    /// The two bytes of the word, high byte first.
    pub fn bytes(&self) -> (r: (u8, u8))
        ensures
            r == self@,
    {
        (self.hi, self.lo)
    }

    /// Splits the word into its four nibbles, most significant first.
    pub fn unwrap(&self) -> (r: (u8, u8, u8, u8))
        ensures
            r == nibbles(self@.0, self@.1),
    {
        let hi = self.hi;
        let lo = self.lo;
        assert(hi >> 4 == hi / 16 && hi & 0xF == hi % 16) by (bit_vector);
        assert(lo >> 4 == lo / 16 && lo & 0xF == lo % 16) by (bit_vector);
        (hi >> 4, hi & 0xF, lo >> 4, lo & 0xF)
    }

    /// Extracts the low twelve bits of the word.
    pub fn extract_u12(&self) -> (r: u16)
        ensures
            r == immediate12(self@.0, self@.1),
            r < 0x1000,
    {
        let hi = self.hi;
        let lo = self.lo;
        assert((lo as u16) | (((hi & 0xF) as u16) << 8) == (hi % 16) * 256 + lo) by (bit_vector);
        (lo as u16) | (((hi & 0xF) as u16) << 8)
    }

    /// Extracts the low eight bits of the word.
    pub fn extract_u8(&self) -> (r: u8)
        ensures
            r == self@.1,
    {
        self.lo
    }

    /// Decodes the word. `None` marks a word that encodes no operation.
    pub fn decode(&self) -> (r: Option<Instruction>)
        ensures
            r == decoded(self@.0, self@.1),
            r matches Some(ins) ==> ins.wf(),
    {
        let (op, x, y, n) = self.unwrap();
        let addr = self.extract_u12();
        let byte = self.extract_u8();
        let hi = self.hi;
        match op {
            0x0 => {
                if hi == 0x00 && byte == 0xE0 {
                    Some(Instruction::ClearScreen)
                } else if hi == 0x02 && byte == 0x30 {
                    Some(Instruction::ClearScreenHires)
                } else if hi == 0x00 && byte == 0xEE {
                    Some(Instruction::Return)
                } else {
                    Some(Instruction::Nop)
                }
            },
            0x1 => Some(Instruction::Jump { addr }),
            0x2 => Some(Instruction::Call { addr }),
            0x3 => Some(Instruction::SkipEqImm { x, byte }),
            0x4 => Some(Instruction::SkipNeImm { x, byte }),
            0x5 => Some(Instruction::SkipEqReg { x, y }),
            0x6 => Some(Instruction::LoadImm { x, byte }),
            0x7 => Some(Instruction::AddImm { x, byte }),
            0x8 => match n {
                0x0 => Some(Instruction::Move { x, y }),
                0x1 => Some(Instruction::Or { x, y }),
                0x2 => Some(Instruction::And { x, y }),
                0x3 => Some(Instruction::Xor { x, y }),
                0x4 => Some(Instruction::Add { x, y }),
                0x5 => Some(Instruction::Sub { x, y }),
                0x6 => Some(Instruction::ShiftRight { x }),
                0x7 => Some(Instruction::SubReverse { x, y }),
                0xE => Some(Instruction::ShiftLeft { x }),
                _ => None,
            },
            0x9 => if n == 0x0 {
                Some(Instruction::SkipNeReg { x, y })
            } else {
                None
            },
            0xA => Some(Instruction::LoadIndex { addr }),
            0xB => Some(Instruction::JumpOffset { addr }),
            0xC => Some(Instruction::Random { x, byte }),
            0xD => Some(Instruction::Draw { x, y, n }),
            0xE => match byte {
                0x9E => Some(Instruction::SkipKey { x }),
                0xA1 => Some(Instruction::SkipNoKey { x }),
                _ => None,
            },
            _ => match byte {
                0x07 => Some(Instruction::ReadDelay { x }),
                0x15 => Some(Instruction::SetDelay { x }),
                0x18 => Some(Instruction::SetSound { x }),
                0x1E => Some(Instruction::AddIndex { x }),
                0x29 => Some(Instruction::Glyph { x }),
                0x33 => Some(Instruction::Decimal { x }),
                0x55 => Some(Instruction::Store { x }),
                0x65 => Some(Instruction::Load { x }),
                _ => None,
            },
        }
    }
}

} // verus!
