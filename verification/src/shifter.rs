//! The video shift register.
//!
//! The arcade hardware lets the CPU read an arbitrarily bit-aligned 8-bit
//! window of scrolled video data: a 16-bit register is refilled one byte at
//! a time at its high end, and a 3-bit offset selects which 8 of its bits a
//! port read returns.

use vstd::prelude::*;

verus! {

/// The register value after a new byte is shifted in at the high end,
/// discarding the low byte.
pub open spec fn shifted(register: u16, fill_byte: u8) -> u16 {
    ((fill_byte as u16) << 8) | (register >> 8)
}

/// The byte a port read returns: the 8 bits of `register` starting `offset`
/// bits from the top. `offset` must already be reduced to its low 3 bits.
pub open spec fn read_value(register: u16, offset: u8) -> u8 {
    ((register >> ((8 - offset) as u16)) & 0xFF) as u8
}

/// The hardware shift register plus its read offset.
#[derive(Clone, Copy, Debug)]
pub struct VideoShifter {
    register: u16,
    offset: u8,
}

impl VideoShifter {
    /// The hardware truncates the offset to 3 bits, so it is always 0 to 7.
    #[verifier::type_invariant]
    spec fn offset_in_range(self) -> bool {
        self.offset <= 7
    }

    /// The current 16-bit register value.
    pub closed spec fn reg(self) -> u16 {
        self.register
    }

    /// The current read offset, always 0 to 7.
    pub closed spec fn off(self) -> u8 {
        self.offset
    }

    /// Replaces the read offset; the hardware keeps only the low 3 bits.
    pub fn set_offset(&mut self, value: u8)
        ensures
            final(self).off() == value & 7,
            final(self).reg() == old(self).reg(),
    {
        proof {
            assert(value & 7 <= 7) by (bit_vector);
        }
        *self = VideoShifter { register: self.register, offset: value & 7 };
    }

    /// Shifts a new byte in at the high end, discarding the low byte.
    pub fn shift_right(&mut self, fill_byte: u8)
        ensures
            final(self).reg() == shifted(old(self).reg(), fill_byte),
            final(self).off() == old(self).off(),
    {
        proof {
            use_type_invariant(&*self);
        }
        *self = VideoShifter {
            register: ((fill_byte as u16) << 8u16) | (self.register >> 8u16),
            offset: self.offset,
        };
    }

    /// Reads the 8 bits of the register starting `offset` bits from the top.
    /// At offset 0 this is the high byte, the byte shifted in most recently.
    pub fn read(&self) -> (r: u8)
        ensures
            r == read_value(self.reg(), self.off()),
    {
        proof {
            use_type_invariant(self);
        }
        let shift: u16 = (8 - self.offset) as u16;
        ((self.register >> shift) & 0xFF) as u8
    }
}

impl Default for VideoShifter {
    /// A shifter with a cleared register and offset 0.
    fn default() -> (r: Self)
        ensures
            r.reg() == 0,
            r.off() == 0,
    {
        VideoShifter { register: 0, offset: 0 }
    }
}

/// After any two consecutive refills the readable window is drawn from the
/// two bytes shifted in most recently, combined per the shift formula:
/// whatever the register held before, reading at `offset` returns the 8 bits
/// of `(b2, b1)` starting `offset` bits from the top, and at offset 0 the
/// read returns `b2`, the byte shifted in last, unshifted.
pub proof fn lemma_shift_shift_read(register: u16, b1: u8, b2: u8, offset: u8)
    requires
        offset <= 7,
    ensures
        read_value(shifted(shifted(register, b1), b2), offset)
            == (((((b2 as u16) << 8) | (b1 as u16)) >> ((8 - offset) as u16)) & 0xFF) as u8,
        read_value(shifted(shifted(register, b1), b2), 0) == b2,
{
    assert(read_value(shifted(shifted(register, b1), b2), offset)
        == (((((b2 as u16) << 8) | (b1 as u16)) >> ((8 - offset) as u16)) & 0xFF) as u8)
        by (bit_vector)
        requires
            offset <= 7,
    ;
    assert(read_value(shifted(shifted(register, b1), b2), 0) == b2) by (bit_vector);
}

} // verus!
