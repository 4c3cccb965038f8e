//! Instructions and the decoder from 2-byte instruction words.

use vstd::prelude::*;
use crate::text::{
    decimal, decimal_text, hex_text, one_operand, one_operand_text, push_str, two_operands,
    two_operands_text, upper_hex,
};

verus! {

/// One decoded CHIP-8 instruction. `x` and `y` name registers, `byte` is an
/// 8-bit immediate, addresses are 12-bit.
#[derive(Debug, Clone, Copy, PartialEq, Eq, Structural)]
pub enum Instruction {
    /// `0nnn`: legacy machine-code call, executed as a no-op.
    SYS(u16),
    /// `00E0`: clear the framebuffer.
    CLS,
    /// `00EE`: return from a subroutine.
    RET,
    /// A word that matches no instruction; holds the whole word.
    ERR(u16),
    /// `1nnn`: jump to `nnn`.
    JP(u16),
    /// `Bnnn`: jump to `nnn + V0`.
    JP3N(u16),
    /// `2nnn`: call the subroutine at `nnn`.
    CALL(u16),
    /// `3xkk`: skip the next instruction if `Vx == kk`.
    SIREB(u8, u8),
    /// `4xkk`: skip the next instruction if `Vx != kk`.
    SIRNEB(u8, u8),
    /// `9xy0`: skip the next instruction if `Vx != Vy`.
    SIRNER(u8, u8),
    /// `5xy0`: skip the next instruction if `Vx == Vy`.
    SIRER(u8, u8),
    /// `Ex9E`: skip the next instruction if the key of value `Vx` is pressed.
    SKP(u8),
    /// `ExA1`: skip the next instruction unless the key of value `Vx` is pressed.
    SKNP(u8),
    /// `6xkk`: `Vx = kk`.
    LDBR(u8, u8),
    /// `8xy0`: `Vx = Vy`.
    LDRR(u8, u8),
    /// `Annn`: `I = nnn`.
    LD3NI(u16),
    /// `Fx07`: `Vx = DT`.
    LDDTR(u8),
    /// `Fx15`: `DT = Vx`.
    LDRDT(u8),
    /// `Fx0A`: wait for a key press and store its value in `Vx`.
    LDKR(u8),
    /// `Fx18`: `ST = Vx`.
    LDRST(u8),
    /// `Fx29`: `I` = address of the font glyph of the digit `Vx`.
    LDSI(u8),
    /// `Fx33`: store the hundreds, tens and units digits of `Vx` at `I`, `I+1`, `I+2`.
    LDRBCDL(u8),
    /// `Fx55`: store `V0..=Vx` in memory from `I` on.
    LDRRL(u8),
    /// `Fx65`: load `V0..=Vx` from memory from `I` on.
    LDLRR(u8),
    /// `7xkk`: `Vx = Vx + kk`, wrapping.
    ADDBR(u8, u8),
    /// `8xy4`: `Vx = Vx + Vy`, wrapping; `VF` = carry.
    ADDRR(u8, u8),
    /// `Fx1E`: `I = I + Vx`, wrapping at 16 bits.
    ADDRI(u8),
    /// `8xy1`: `Vx = Vx | Vy`.
    OR(u8, u8),
    /// `8xy2`: `Vx = Vx & Vy`.
    AND(u8, u8),
    /// `8xy3`: `Vx = Vx ^ Vy`.
    XOR(u8, u8),
    /// `8xy5`: `Vx = Vx - Vy`, wrapping; `VF` = no borrow.
    SUB(u8, u8),
    /// `8xy7`: `Vy = Vy - Vx`, wrapping; `VF` = no borrow.
    SUBN(u8, u8),
    /// `8xy6`: `Vx = Vx / 2`; `VF` = the bit shifted out.
    SHR(u8),
    /// `8xyE`: `Vx = Vx * 2`, wrapping; `VF` = the bit shifted out.
    SHL(u8),
    /// `Cxkk`: `Vx = kk & random byte`.
    RND(u8, u8),
    /// `Dxyn`: draw the `n`-byte sprite at `I` at `(Vx, Vy)`; `VF` = collision.
    DRW(u8, u8, u8),
}

/// The 12-bit address field `nnn` of a word.
pub open spec fn field_addr(w: u16) -> u16 {
    (w % 4096) as u16
}

/// The register field `x` (second nibble) of a word.
pub open spec fn field_x(w: u16) -> u8 {
    ((w / 256) % 16) as u8
}

/// The register field `y` (third nibble) of a word.
pub open spec fn field_y(w: u16) -> u8 {
    ((w / 16) % 16) as u8
}

/// The low nibble `n` of a word.
pub open spec fn field_n(w: u16) -> u8 {
    (w % 16) as u8
}

/// The low byte `kk` of a word.
pub open spec fn field_byte(w: u16) -> u8 {
    (w % 256) as u8
}

/// The instruction that a 16-bit word encodes, `ERR` holding the word when
/// it encodes none.
pub open spec fn decode_spec(w: u16) -> Instruction {
    let op = w / 4096;
    let x = field_x(w);
    let y = field_y(w);
    let n = field_n(w);
    let kk = field_byte(w);
    let nnn = field_addr(w);
    if w == 0x00e0 {
        Instruction::CLS
    } else if w == 0x00ee {
        Instruction::RET
    } else if op == 0x0 {
        Instruction::SYS(nnn)
    } else if op == 0x1 {
        Instruction::JP(nnn)
    } else if op == 0x2 {
        Instruction::CALL(nnn)
    } else if op == 0x3 {
        Instruction::SIREB(x, kk)
    } else if op == 0x4 {
        Instruction::SIRNEB(x, kk)
    } else if op == 0x5 && n == 0 {
        Instruction::SIRER(x, y)
    } else if op == 0x6 {
        Instruction::LDBR(x, kk)
    } else if op == 0x7 {
        Instruction::ADDBR(x, kk)
    } else if op == 0x8 && n == 0x0 {
        Instruction::LDRR(x, y)
    } else if op == 0x8 && n == 0x1 {
        Instruction::OR(x, y)
    } else if op == 0x8 && n == 0x2 {
        Instruction::AND(x, y)
    } else if op == 0x8 && n == 0x3 {
        Instruction::XOR(x, y)
    } else if op == 0x8 && n == 0x4 {
        Instruction::ADDRR(x, y)
    } else if op == 0x8 && n == 0x5 {
        Instruction::SUB(x, y)
    } else if op == 0x8 && n == 0x6 {
        Instruction::SHR(x)
    } else if op == 0x8 && n == 0x7 {
        Instruction::SUBN(x, y)
    } else if op == 0x8 && n == 0xe {
        Instruction::SHL(x)
    } else if op == 0x9 && n == 0 {
        Instruction::SIRNER(x, y)
    } else if op == 0xa {
        Instruction::LD3NI(nnn)
    } else if op == 0xb {
        Instruction::JP3N(nnn)
    } else if op == 0xc {
        Instruction::RND(x, kk)
    } else if op == 0xd {
        Instruction::DRW(x, y, n)
    } else if op == 0xe && kk == 0x9e {
        Instruction::SKP(x)
    } else if op == 0xe && kk == 0xa1 {
        Instruction::SKNP(x)
    } else if op == 0xf && kk == 0x07 {
        Instruction::LDDTR(x)
    } else if op == 0xf && kk == 0x15 {
        Instruction::LDRDT(x)
    } else if op == 0xf && kk == 0x0a {
        Instruction::LDKR(x)
    } else if op == 0xf && kk == 0x18 {
        Instruction::LDRST(x)
    } else if op == 0xf && kk == 0x29 {
        Instruction::LDSI(x)
    } else if op == 0xf && kk == 0x33 {
        Instruction::LDRBCDL(x)
    } else if op == 0xf && kk == 0x55 {
        Instruction::LDRRL(x)
    } else if op == 0xf && kk == 0x65 {
        Instruction::LDLRR(x)
    } else if op == 0xf && kk == 0x1e {
        Instruction::ADDRI(x)
    } else {
        Instruction::ERR(w)
    }
}

/// The assembly text of an instruction: its name right-aligned in seven
/// columns and a space, then its operands in hexadecimal (the coordinates
/// registers of `DRW` in decimal), separated by tabs.
pub open spec fn instruction_text(ins: Instruction) -> Seq<char> {
    match ins {
        Instruction::CLS => "    CLS "@,
        Instruction::RET => "    RET "@,
        Instruction::SYS(a) => one_operand_text("    SYS "@, a as nat),
        Instruction::JP(a) => one_operand_text("     JP "@, a as nat),
        Instruction::JP3N(a) => one_operand_text("   JP3N "@, a as nat),
        Instruction::CALL(a) => one_operand_text("   CALL "@, a as nat),
        Instruction::SKP(x) => one_operand_text("    SKP "@, x as nat),
        Instruction::SKNP(x) => one_operand_text("   SKNP "@, x as nat),
        Instruction::LD3NI(a) => one_operand_text("  LD3NI "@, a as nat),
        Instruction::LDDTR(x) => one_operand_text("  LDDTR "@, x as nat),
        Instruction::LDRDT(x) => one_operand_text("  LDRDT "@, x as nat),
        Instruction::LDKR(x) => one_operand_text("   LDKR "@, x as nat),
        Instruction::LDRST(x) => one_operand_text("  LDRST "@, x as nat),
        Instruction::LDSI(x) => one_operand_text("   LDSI "@, x as nat),
        Instruction::LDRBCDL(x) => one_operand_text("LDRBCDL "@, x as nat),
        Instruction::LDRRL(x) => one_operand_text("  LDRRL "@, x as nat),
        Instruction::LDLRR(x) => one_operand_text("  LDLRR "@, x as nat),
        Instruction::ADDRI(x) => one_operand_text("  ADDRI "@, x as nat),
        Instruction::SHR(x) => one_operand_text("    SHR "@, x as nat),
        Instruction::SHL(x) => one_operand_text("    SHL "@, x as nat),
        Instruction::ERR(a) => one_operand_text("    ERR "@, a as nat),
        Instruction::SIREB(a, b) => two_operands_text("  SIREB "@, a as nat, b as nat),
        Instruction::SIRNEB(a, b) => two_operands_text(" SIRNEB "@, a as nat, b as nat),
        Instruction::SIRER(a, b) => two_operands_text("  SIRER "@, a as nat, b as nat),
        Instruction::SIRNER(a, b) => two_operands_text(" SIRNER "@, a as nat, b as nat),
        Instruction::LDBR(a, b) => two_operands_text("   LDBR "@, a as nat, b as nat),
        Instruction::LDRR(a, b) => two_operands_text("   LDRR "@, a as nat, b as nat),
        Instruction::ADDBR(a, b) => two_operands_text("  ADDBR "@, a as nat, b as nat),
        Instruction::ADDRR(a, b) => two_operands_text("  ADDRR "@, a as nat, b as nat),
        Instruction::OR(a, b) => two_operands_text("     OR "@, a as nat, b as nat),
        Instruction::AND(a, b) => two_operands_text("    AND "@, a as nat, b as nat),
        Instruction::XOR(a, b) => two_operands_text("    XOR "@, a as nat, b as nat),
        Instruction::SUB(a, b) => two_operands_text("    SUB "@, a as nat, b as nat),
        Instruction::SUBN(a, b) => two_operands_text("   SUBN "@, a as nat, b as nat),
        Instruction::RND(a, b) => two_operands_text("    RND "@, a as nat, b as nat),
        Instruction::DRW(x, y, n) => "    DRW "@ + decimal_text(x as nat) + "\t\t"@ + decimal_text(
            y as nat,
        ) + "\t"@ + hex_text(n as nat),
    }
}

/// The big-endian word of two bytes.
pub open spec fn word_of(hi: u8, lo: u8) -> u16 {
    (hi * 256 + lo) as u16
}

impl Instruction {
    /// A well-formed instruction names registers below 16, addresses below
    /// 0x1000 and a sprite height below 16; every decoded instruction is one.
    pub open spec fn wf(self) -> bool {
        match self {
            Instruction::SYS(a) | Instruction::JP(a) | Instruction::JP3N(a)
            | Instruction::CALL(a) | Instruction::LD3NI(a) => a < 0x1000,
            Instruction::SIREB(x, _) | Instruction::SIRNEB(x, _) | Instruction::LDBR(x, _)
            | Instruction::ADDBR(x, _) | Instruction::RND(x, _) => x < 16,
            Instruction::SIRER(x, y) | Instruction::SIRNER(x, y) | Instruction::LDRR(x, y)
            | Instruction::ADDRR(x, y) | Instruction::OR(x, y) | Instruction::AND(x, y)
            | Instruction::XOR(x, y) | Instruction::SUB(x, y) | Instruction::SUBN(x, y) => x < 16
                && y < 16,
            Instruction::SKP(x) | Instruction::SKNP(x) | Instruction::LDDTR(x)
            | Instruction::LDRDT(x) | Instruction::LDKR(x) | Instruction::LDRST(x)
            | Instruction::LDSI(x) | Instruction::LDRBCDL(x) | Instruction::LDRRL(x)
            | Instruction::LDLRR(x) | Instruction::ADDRI(x) | Instruction::SHR(x)
            | Instruction::SHL(x) => x < 16,
            Instruction::DRW(x, y, n) => x < 16 && y < 16 && n < 16,
            Instruction::CLS | Instruction::RET | Instruction::ERR(_) => true,
        }
    }

    /// The assembly text of this instruction (see `instruction_text`).
    pub fn to_text(&self) -> (r: String)
        ensures
            r@ == instruction_text(*self),
    {
        match *self {
            Instruction::CLS => "    CLS ".to_owned(),
            Instruction::RET => "    RET ".to_owned(),
            Instruction::SYS(a) => one_operand("    SYS ", a as u64),
            Instruction::JP(a) => one_operand("     JP ", a as u64),
            Instruction::JP3N(a) => one_operand("   JP3N ", a as u64),
            Instruction::CALL(a) => one_operand("   CALL ", a as u64),
            Instruction::SKP(x) => one_operand("    SKP ", x as u64),
            Instruction::SKNP(x) => one_operand("   SKNP ", x as u64),
            Instruction::LD3NI(a) => one_operand("  LD3NI ", a as u64),
            Instruction::LDDTR(x) => one_operand("  LDDTR ", x as u64),
            Instruction::LDRDT(x) => one_operand("  LDRDT ", x as u64),
            Instruction::LDKR(x) => one_operand("   LDKR ", x as u64),
            Instruction::LDRST(x) => one_operand("  LDRST ", x as u64),
            Instruction::LDSI(x) => one_operand("   LDSI ", x as u64),
            Instruction::LDRBCDL(x) => one_operand("LDRBCDL ", x as u64),
            Instruction::LDRRL(x) => one_operand("  LDRRL ", x as u64),
            Instruction::LDLRR(x) => one_operand("  LDLRR ", x as u64),
            Instruction::ADDRI(x) => one_operand("  ADDRI ", x as u64),
            Instruction::SHR(x) => one_operand("    SHR ", x as u64),
            Instruction::SHL(x) => one_operand("    SHL ", x as u64),
            Instruction::ERR(a) => one_operand("    ERR ", a as u64),
            Instruction::SIREB(a, b) => two_operands("  SIREB ", a as u64, b as u64),
            Instruction::SIRNEB(a, b) => two_operands(" SIRNEB ", a as u64, b as u64),
            Instruction::SIRER(a, b) => two_operands("  SIRER ", a as u64, b as u64),
            Instruction::SIRNER(a, b) => two_operands(" SIRNER ", a as u64, b as u64),
            Instruction::LDBR(a, b) => two_operands("   LDBR ", a as u64, b as u64),
            Instruction::LDRR(a, b) => two_operands("   LDRR ", a as u64, b as u64),
            Instruction::ADDBR(a, b) => two_operands("  ADDBR ", a as u64, b as u64),
            Instruction::ADDRR(a, b) => two_operands("  ADDRR ", a as u64, b as u64),
            Instruction::OR(a, b) => two_operands("     OR ", a as u64, b as u64),
            Instruction::AND(a, b) => two_operands("    AND ", a as u64, b as u64),
            Instruction::XOR(a, b) => two_operands("    XOR ", a as u64, b as u64),
            Instruction::SUB(a, b) => two_operands("    SUB ", a as u64, b as u64),
            Instruction::SUBN(a, b) => two_operands("   SUBN ", a as u64, b as u64),
            Instruction::RND(a, b) => two_operands("    RND ", a as u64, b as u64),
            Instruction::DRW(x, y, n) => {
                let mut s = "    DRW ".to_owned();
                push_str(&mut s, decimal(x).as_str());
                push_str(&mut s, "\t\t");
                push_str(&mut s, decimal(y).as_str());
                push_str(&mut s, "\t");
                push_str(&mut s, upper_hex(n as u64).as_str());
                s
            },
        }
    }

    /// Decodes a 16-bit instruction word. Every word gives exactly one
    /// instruction; a word that encodes none gives `ERR` with the word.
    pub fn decode(opcode: u16) -> (r: Instruction)
        ensures
            r == decode_spec(opcode),
            r.wf(),
    {
        let op = opcode / 4096;
        let x = ((opcode / 256) % 16) as u8;
        let y = ((opcode / 16) % 16) as u8;
        let n = (opcode % 16) as u8;
        let byte = (opcode % 256) as u8;
        let nnn = opcode % 4096;
        if opcode == 0x00e0 {
            Instruction::CLS
        } else if opcode == 0x00ee {
            Instruction::RET
        } else {
            match op {
                0x0 => Instruction::SYS(nnn),
                0x1 => Instruction::JP(nnn),
                0x2 => Instruction::CALL(nnn),
                0x3 => Instruction::SIREB(x, byte),
                0x4 => Instruction::SIRNEB(x, byte),
                0x5 => if n == 0 {
                    Instruction::SIRER(x, y)
                } else {
                    Instruction::ERR(opcode)
                },
                0x6 => Instruction::LDBR(x, byte),
                0x7 => Instruction::ADDBR(x, byte),
                0x8 => match n {
                    0x0 => Instruction::LDRR(x, y),
                    0x1 => Instruction::OR(x, y),
                    0x2 => Instruction::AND(x, y),
                    0x3 => Instruction::XOR(x, y),
                    0x4 => Instruction::ADDRR(x, y),
                    0x5 => Instruction::SUB(x, y),
                    0x6 => Instruction::SHR(x),
                    0x7 => Instruction::SUBN(x, y),
                    0xe => Instruction::SHL(x),
                    _ => Instruction::ERR(opcode),
                },
                0x9 => if n == 0 {
                    Instruction::SIRNER(x, y)
                } else {
                    Instruction::ERR(opcode)
                },
                0xa => Instruction::LD3NI(nnn),
                0xb => Instruction::JP3N(nnn),
                0xc => Instruction::RND(x, byte),
                0xd => Instruction::DRW(x, y, n),
                0xe => match byte {
                    0x9e => Instruction::SKP(x),
                    0xa1 => Instruction::SKNP(x),
                    _ => Instruction::ERR(opcode),
                },
                _ => match byte {
                    0x07 => Instruction::LDDTR(x),
                    0x15 => Instruction::LDRDT(x),
                    0x0a => Instruction::LDKR(x),
                    0x18 => Instruction::LDRST(x),
                    0x29 => Instruction::LDSI(x),
                    0x33 => Instruction::LDRBCDL(x),
                    0x55 => Instruction::LDRRL(x),
                    0x65 => Instruction::LDLRR(x),
                    0x1e => Instruction::ADDRI(x),
                    _ => Instruction::ERR(opcode),
                },
            }
        }
    }
}

/// Decodes the big-endian instruction word `[hi, lo]`.
impl From<[u8; 2]> for Instruction {
    fn from(inst: [u8; 2]) -> (r: Instruction) {
        let opcode = (inst[0] as u16) * 256 + inst[1] as u16;
        Instruction::decode(opcode)
    }
}

impl vstd::std_specs::convert::FromSpecImpl<[u8; 2]> for Instruction {
    open spec fn obeys_from_spec() -> bool {
        true
    }

    open spec fn from_spec(inst: [u8; 2]) -> Instruction {
        decode_spec(word_of(inst@[0], inst@[1]))
    }
}

/// Decoding is deterministic: the same two bytes always decode to the same
/// instruction.
pub proof fn lemma_decode_deterministic(hi1: u8, lo1: u8, hi2: u8, lo2: u8)
    requires
        hi1 == hi2,
        lo1 == lo2,
    ensures
        decode_spec(word_of(hi1, lo1)) == decode_spec(word_of(hi2, lo2)),
{
}

} // verus!
