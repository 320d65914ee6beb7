//! The two human-input port registers.
//!
//! Each is a plain set of named bit flags: coin and start switches, the
//! joystick and fire buttons, and the dip switches. Port 1 has one bit tied
//! to `1` in hardware; no operation of this module can clear it.

use vstd::prelude::*;

verus! {

/// The bit port 1's hardware ties to `1`.
pub const PORT1_ALWAYS_ONE: u8 = 0b0000_1000;

/// A named bit of port 1. The tied-off bit has no name here, so no mutation
/// can reach it.
#[derive(Clone, Copy, Debug, PartialEq, Eq, Structural)]
pub enum Port1Flag {
    Coin,
    Player2Start,
    Player1Start,
    Player1Fire,
    Player1Left,
    Player1Right,
}

impl Port1Flag {
    /// The bit this flag names.
    pub open spec fn spec_mask(self) -> u8 {
        match self {
            Port1Flag::Coin => 0b0000_0001,
            Port1Flag::Player2Start => 0b0000_0010,
            Port1Flag::Player1Start => 0b0000_0100,
            Port1Flag::Player1Fire => 0b0001_0000,
            Port1Flag::Player1Left => 0b0010_0000,
            Port1Flag::Player1Right => 0b0100_0000,
        }
    }

    /// The bit this flag names.
    pub fn mask(&self) -> (r: u8)
        ensures
            r == self.spec_mask(),
    {
        match self {
            Port1Flag::Coin => 0b0000_0001,
            Port1Flag::Player2Start => 0b0000_0010,
            Port1Flag::Player1Start => 0b0000_0100,
            Port1Flag::Player1Fire => 0b0001_0000,
            Port1Flag::Player1Left => 0b0010_0000,
            Port1Flag::Player1Right => 0b0100_0000,
        }
    }
}

/// Port 1, which consists of bit flags.
#[derive(Clone, Copy, Debug)]
pub struct Port1 {
    bits: u8,
}

impl Port1 {
    /// The hardware tie-off: bit 3 reads as `1` whatever else happens.
    #[verifier::type_invariant]
    spec fn always_one_set(self) -> bool {
        self.bits & PORT1_ALWAYS_ONE == PORT1_ALWAYS_ONE
    }

    /// The raw register value.
    pub closed spec fn spec_bits(self) -> u8 {
        self.bits
    }

    /// Sets the named bit.
    pub fn insert(&mut self, flag: Port1Flag)
        ensures
            final(self).spec_bits() == old(self).spec_bits() | flag.spec_mask(),
    {
        proof {
            use_type_invariant(&*self);
        }
        let bits = self.bits;
        let mask = flag.mask();
        proof {
            assert((bits | mask) & PORT1_ALWAYS_ONE == PORT1_ALWAYS_ONE) by (bit_vector)
                requires
                    bits & PORT1_ALWAYS_ONE == PORT1_ALWAYS_ONE,
            ;
        }
        *self = Port1 { bits: bits | mask };
    }

    /// Clears the named bit. The tied-off bit is not a named bit, so it
    /// survives every such call.
    pub fn remove(&mut self, flag: Port1Flag)
        ensures
            final(self).spec_bits() == old(self).spec_bits() & !flag.spec_mask(),
    {
        proof {
            use_type_invariant(&*self);
        }
        let bits = self.bits;
        let mask = flag.mask();
        proof {
            assert((bits & !mask) & PORT1_ALWAYS_ONE == PORT1_ALWAYS_ONE) by (bit_vector)
                requires
                    bits & PORT1_ALWAYS_ONE == PORT1_ALWAYS_ONE,
                    mask == 0b0000_0001 || mask == 0b0000_0010 || mask == 0b0000_0100
                        || mask == 0b0001_0000 || mask == 0b0010_0000 || mask == 0b0100_0000,
            ;
        }
        *self = Port1 { bits: bits & !mask };
    }

    /// The byte the CPU reads from port 1. The tied-off bit is always set
    /// in it.
    pub fn bits(&self) -> (r: u8)
        ensures
            r == self.spec_bits(),
            r & PORT1_ALWAYS_ONE == PORT1_ALWAYS_ONE,
    {
        proof {
            use_type_invariant(self);
        }
        self.bits
    }
}

impl Default for Port1 {
    /// At power-on only the tied-off bit is set.
    fn default() -> (r: Self)
        ensures
            r.spec_bits() == PORT1_ALWAYS_ONE,
    {
        proof {
            assert(0b0000_1000u8 & 0b0000_1000u8 == 0b0000_1000u8) by (bit_vector);
        }
        Port1 { bits: PORT1_ALWAYS_ONE }
    }
}

/// A named bit of port 2. The low two bits, the lives-count dip switches,
/// are driven as a two-bit number by `Port2::cycle_lives` instead.
#[derive(Clone, Copy, Debug, PartialEq, Eq, Structural)]
pub enum Port2Flag {
    Tilt,
    ExtraLifeAt,
    Player2Fire,
    Player2Left,
    Player2Right,
    PricingDisplay,
}

impl Port2Flag {
    /// The bit this flag names.
    pub open spec fn spec_mask(self) -> u8 {
        match self {
            Port2Flag::Tilt => 0b0000_0100,
            Port2Flag::ExtraLifeAt => 0b0000_1000,
            Port2Flag::Player2Fire => 0b0001_0000,
            Port2Flag::Player2Left => 0b0010_0000,
            Port2Flag::Player2Right => 0b0100_0000,
            Port2Flag::PricingDisplay => 0b1000_0000,
        }
    }

    /// The bit this flag names.
    pub fn mask(&self) -> (r: u8)
        ensures
            r == self.spec_mask(),
    {
        match self {
            Port2Flag::Tilt => 0b0000_0100,
            Port2Flag::ExtraLifeAt => 0b0000_1000,
            Port2Flag::Player2Fire => 0b0001_0000,
            Port2Flag::Player2Left => 0b0010_0000,
            Port2Flag::Player2Right => 0b0100_0000,
            Port2Flag::PricingDisplay => 0b1000_0000,
        }
    }
}

/// Port 2, which consists of bit flags plus the two-bit lives-count dip
/// switch in its low bits.
#[derive(Clone, Copy, Debug)]
pub struct Port2 {
    bits: u8,
}

impl Port2 {
    /// The raw register value.
    pub closed spec fn spec_bits(self) -> u8 {
        self.bits
    }

    /// Sets the named bit.
    pub fn insert(&mut self, flag: Port2Flag)
        ensures
            final(self).spec_bits() == old(self).spec_bits() | flag.spec_mask(),
    {
        self.bits = self.bits | flag.mask();
    }

    /// Clears the named bit.
    pub fn remove(&mut self, flag: Port2Flag)
        ensures
            final(self).spec_bits() == old(self).spec_bits() & !flag.spec_mask(),
    {
        self.bits = self.bits & !flag.mask();
    }

    /// Flips the named bit.
    pub fn toggle(&mut self, flag: Port2Flag)
        ensures
            final(self).spec_bits() == old(self).spec_bits() ^ flag.spec_mask(),
    {
        self.bits = self.bits ^ flag.mask();
    }

    /// Whether the named bit is set.
    pub fn contains(&self, flag: Port2Flag) -> (r: bool)
        ensures
            r == (self.spec_bits() & flag.spec_mask() != 0),
    {
        self.bits & flag.mask() != 0
    }

    /// Steps the lives-count dip switches, a two-bit number in the low bits,
    /// to the next value, wrapping from 3 back to 0.
    pub fn cycle_lives(&mut self)
        ensures
            final(self).spec_bits()
                == (old(self).spec_bits() & 0b1111_1100)
                    | (((old(self).spec_bits() & 0b0000_0011) + 1) % 4) as u8,
    {
        let bits = self.bits;
        proof {
            assert(bits & 0b0000_0011 < 4) by (bit_vector);
        }
        self.bits = (bits & 0b1111_1100) | (((bits & 0b0000_0011) + 1) % 4);
    }

    /// The number of lives the lives-count dip switches select: 3 plus the
    /// two-bit number in the low bits.
    pub fn lives(&self) -> (r: u8)
        ensures
            r == 3 + (self.spec_bits() & 0b0000_0011),
    {
        let bits = self.bits;
        proof {
            assert(bits & 0b0000_0011 < 4) by (bit_vector);
        }
        3 + (bits & 0b0000_0011)
    }

    /// The byte the CPU reads from port 2.
    pub fn bits(&self) -> (r: u8)
        ensures
            r == self.spec_bits(),
    {
        self.bits
    }
}

impl Default for Port2 {
    /// At power-on every switch is clear.
    fn default() -> (r: Self)
        ensures
            r.spec_bits() == 0,
    {
        Port2 { bits: 0 }
    }
}

} // verus!
