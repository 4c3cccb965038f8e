//! A ROM image viewed as a sequence of instructions, for disassembly.

use vstd::prelude::*;
use crate::chip::ROM_START;
use crate::instruction::{Instruction, decode_spec, instruction_text, word_of};
use crate::text::{hex_text, push_str, upper_hex};

verus! {

/// Line `k` of a listing of `bytes` loaded at `offset`: the addresses of
/// the word's two bytes in hexadecimal, separated by a dash, then a colon, a
/// space, the text of the instruction and a line break.
pub open spec fn listing_line(bytes: Seq<u8>, offset: nat, k: nat) -> Seq<char> {
    hex_text(offset + 2 * k) + "-"@ + hex_text(offset + 2 * k + 1) + ": "@ + instruction_text(
        decode_spec(word_of(bytes[2 * k as int], bytes[2 * k + 1 as int])),
    ) + "\n"@
}

/// The first `n` lines of a listing of `bytes` loaded at `offset`.
pub open spec fn listing_text(bytes: Seq<u8>, offset: nat, n: nat) -> Seq<char>
    decreases n,
{
    if n == 0 {
        Seq::empty()
    } else {
        listing_text(bytes, offset, (n - 1) as nat) + listing_line(bytes, offset, (n - 1) as nat)
    }
}

/// The bytes of a ROM and the address at which it is loaded.
pub struct Rom {
    instructions: Vec<u8>,
    offset: usize,
}

impl View for Rom {
    type V = Seq<u8>;

    closed spec fn view(&self) -> Seq<u8> {
        self.instructions@
    }
}

impl Rom {
    /// The load address of the ROM.
    pub closed spec fn spec_offset(&self) -> usize {
        self.offset
    }

    /// A ROM of the given bytes, loaded at `ROM_START`.
    pub fn new(instructions: Vec<u8>) -> (r: Rom)
        ensures
            r@ == instructions@,
            r.spec_offset() == ROM_START,
    {
        Rom { instructions, offset: ROM_START as usize }
    }

    /// The load address of the ROM.
    pub fn offset(&self) -> (r: usize)
        ensures
            r == self.spec_offset(),
    {
        self.offset
    }

    /// The instruction whose word starts at byte `address` of the ROM.
    pub fn instruction(&self, address: u8) -> (r: Instruction)
        requires
            address + 1 < self@.len(),
        ensures
            r == decode_spec(word_of(self@[address as int], self@[address + 1])),
    {
        Instruction::from([
            self.instructions[address as usize],
            self.instructions[address as usize + 1],
        ])
    }

    /// A listing of the ROM: one line per whole 2-byte word (see
    /// `listing_line`); a trailing odd byte is left out.
    pub fn to_text(&self) -> (r: String)
        requires
            self.spec_offset() + self@.len() <= usize::MAX,
        ensures
            r@ == listing_text(self@, self.spec_offset() as nat, self@.len() / 2),
    {
        let n = self.instructions.len() / 2;
        let mut s = String::new();
        let mut k: usize = 0;
        while k < n
            invariant
                k <= n,
                n == self@.len() / 2,
                self.offset + self@.len() <= usize::MAX,
                s@ == listing_text(self@, self.offset as nat, k as nat),
            decreases n - k,
        {
            let address = self.offset + 2 * k;
            let ins = Instruction::from([self.instructions[2 * k], self.instructions[2 * k + 1]]);
            push_str(&mut s, upper_hex(address as u64).as_str());
            push_str(&mut s, "-");
            push_str(&mut s, upper_hex((address + 1) as u64).as_str());
            push_str(&mut s, ": ");
            push_str(&mut s, ins.to_text().as_str());
            push_str(&mut s, "\n");
            k += 1;
        }
        s
    }
}

} // verus!
