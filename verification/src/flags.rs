use vstd::prelude::*;

verus! {

/// The processor status register `P`: eight flags in one byte.
///
/// A mask is a byte with the bits of one or more flags set; the named
/// constants are the masks of the single flags.
#[derive(Clone, Copy, Debug, PartialEq, Eq, Structural)]
pub struct CPUFlags {
    pub bits: u8,
}

impl CPUFlags {
    pub const CARRY: u8 = 0b0000_0001;

    pub const ZERO: u8 = 0b0000_0010;

    pub const INTERRUPT_DISABLE: u8 = 0b0000_0100;

    pub const DECIMAL: u8 = 0b0000_1000;

    pub const BREAK: u8 = 0b0001_0000;

    pub const EXPANSION: u8 = 0b0010_0000;

    pub const OVERFLOW: u8 = 0b0100_0000;

    pub const NEGATIVE: u8 = 0b1000_0000;

    /// Every bit of `mask` is set.
    pub open spec fn has(self, mask: u8) -> bool {
        self.bits & mask == mask
    }

    /// The register with the bits of `mask` set.
    pub open spec fn with(self, mask: u8) -> CPUFlags {
        CPUFlags { bits: self.bits | mask }
    }

    /// The register with the bits of `mask` cleared.
    pub open spec fn without(self, mask: u8) -> CPUFlags {
        CPUFlags { bits: self.bits & !mask }
    }

    /// The register with the bits of `mask` set if `on`, cleared if not.
    pub open spec fn assigned(self, mask: u8, on: bool) -> CPUFlags {
        if on {
            self.with(mask)
        } else {
            self.without(mask)
        }
    }

    /// All eight bits name a flag, so no bit is dropped.
    pub fn from_bits_truncate(bits: u8) -> (flags: CPUFlags)
        ensures
            flags.bits == bits,
    {
        CPUFlags { bits }
    }

    pub fn bits(&self) -> (bits: u8)
        ensures
            bits == self.bits,
    {
        self.bits
    }

    pub fn contains(&self, mask: u8) -> (found: bool)
        ensures
            found == self.has(mask),
    {
        self.bits & mask == mask
    }

    pub fn insert(&mut self, mask: u8)
        ensures
            *final(self) == old(self).with(mask),
    {
        self.bits = self.bits | mask;
    }

    pub fn remove(&mut self, mask: u8)
        ensures
            *final(self) == old(self).without(mask),
    {
        self.bits = self.bits & !mask;
    }

    pub fn set(&mut self, mask: u8, on: bool)
        ensures
            *final(self) == old(self).assigned(mask, on),
    {
        if on {
            self.insert(mask);
        } else {
            self.remove(mask);
        }
    }
}

/// Setting a mask makes it read as set, clearing a non-empty mask makes it
/// read as not set, and neither touches a mask that shares no bit with it.
pub proof fn lemma_flag_algebra(flags: CPUFlags, mask: u8, other: u8)
    ensures
        flags.with(mask).has(mask),
        mask != 0 ==> !flags.without(mask).has(mask),
        mask & other == 0 ==> flags.with(mask).has(other) == flags.has(other),
        mask & other == 0 ==> flags.without(mask).has(other) == flags.has(other),
{
    let p = flags.bits;
    assert((p | mask) & mask == mask) by (bit_vector);
    assert(mask != 0 ==> (p & !mask) & mask != mask) by (bit_vector);
    assert(mask & other == 0 ==> (p | mask) & other == p & other) by (bit_vector);
    assert(mask & other == 0 ==> (p & !mask) & other == p & other) by (bit_vector);
}

} // verus!
