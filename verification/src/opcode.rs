//! The 16-bit instruction word and its fields.

use vstd::prelude::*;

verus! {

/// One instruction word. Its fields are fixed bit ranges of `code`.
#[derive(Clone, Copy, Debug, PartialEq, Eq, Structural)]
pub struct Opcode {
    /// The word, high byte first.
    pub code: u16,
}

impl Opcode {
    /// Bits 15..12: the instruction family.
    pub open spec fn spec_first_hex_digit(&self) -> u8 {
        (self.code / 0x1000) as u8
    }

    /// Bits 11..8: the first register index.
    pub open spec fn spec_x(&self) -> usize {
        ((self.code / 0x100) % 0x10) as usize
    }

    /// Bits 7..4: the second register index.
    pub open spec fn spec_y(&self) -> usize {
        ((self.code / 0x10) % 0x10) as usize
    }

    /// Bits 11..0: an address.
    pub open spec fn spec_nnn(&self) -> usize {
        (self.code % 0x1000) as usize
    }

    /// Bits 7..0: an immediate byte.
    pub open spec fn spec_kk(&self) -> u8 {
        (self.code % 0x100) as u8
    }

    /// Bits 3..0: an immediate nibble.
    pub open spec fn spec_k(&self) -> usize {
        (self.code % 0x10) as usize
    }

    /// The instruction word `code`.
    pub fn new(code: u16) -> (opcode: Opcode)
        ensures
            opcode.code == code,
    {
        Opcode { code }
    }

    /// Packs two bytes, high byte first.
    pub fn from_bytes(bytes: (u8, u8)) -> (opcode: Opcode)
        ensures
            opcode.code == bytes.0 * 256 + bytes.1,
    {
        let hi: u16 = bytes.0 as u16;
        let lo: u16 = bytes.1 as u16;
        assert((hi << 8) | lo == hi * 256 + lo) by (bit_vector)
            requires
                hi < 256,
                lo < 256,
        ;
        Opcode { code: (hi << 8) | lo }
    }

    /// The instruction family: the highest nibble.
    #[verifier::when_used_as_spec(spec_first_hex_digit)]
    pub fn first_hex_digit(&self) -> (digit: u8)
        ensures
            digit == self.spec_first_hex_digit(),
            digit < 16,
    {
        let code: u16 = self.code;
        assert((code & 0xF000) >> 12 == code / 0x1000 && code / 0x1000 < 16) by (bit_vector);
        ((code & 0xF000) >> 12) as u8
    }

    /// The first register index: the second nibble.
    #[verifier::when_used_as_spec(spec_x)]
    pub fn x(&self) -> (x: usize)
        ensures
            x == self.spec_x(),
            x < 16,
    {
        let code: u16 = self.code;
        assert((code & 0x0F00) >> 8 == (code / 0x100) % 0x10) by (bit_vector);
        ((code & 0x0F00) >> 8) as usize
    }

    /// The second register index: the third nibble.
    #[verifier::when_used_as_spec(spec_y)]
    pub fn y(&self) -> (y: usize)
        ensures
            y == self.spec_y(),
            y < 16,
    {
        let code: u16 = self.code;
        assert((code & 0x00F0) >> 4 == (code / 0x10) % 0x10) by (bit_vector);
        ((code & 0x00F0) >> 4) as usize
    }

    /// The address: the low twelve bits.
    #[verifier::when_used_as_spec(spec_nnn)]
    pub fn nnn(&self) -> (addr: usize)
        ensures
            addr == self.spec_nnn(),
            addr < 0x1000,
    {
        let code: u16 = self.code;
        assert(code & 0x0FFF == code % 0x1000) by (bit_vector);
        (code & 0x0FFF) as usize
    }

    /// The immediate byte: the low eight bits.
    #[verifier::when_used_as_spec(spec_kk)]
    pub fn kk(&self) -> (byte: u8)
        ensures
            byte == self.spec_kk(),
    {
        let code: u16 = self.code;
        assert(code & 0xFF == code % 0x100) by (bit_vector);
        (code & 0xFF) as u8
    }

    /// The immediate nibble: the low four bits.
    #[verifier::when_used_as_spec(spec_k)]
    pub fn k(&self) -> (nibble: usize)
        ensures
            nibble == self.spec_k(),
            nibble < 16,
    {
        let code: u16 = self.code;
        assert(code & 0xF == code % 0x10) by (bit_vector);
        (code & 0xF) as usize
    }
}

} // verus!
