//! Bit-mask helpers shared by the configuration builders.

use vstd::prelude::*;

verus! {

/// A 32-bit mask of flags, manipulated one flag constant at a time.
#[derive(Clone, Copy, Debug, PartialEq, Eq, Structural)]
pub struct BitMask(pub u32);

impl BitMask {
    /// Creates a mask with every bit reset.
    pub fn new() -> (r: Self)
        ensures
            r.0 == 0u32,
    {
        BitMask(0)
    }

    /// Creates a mask holding exactly the bits of `val`.
    pub fn from(val: u32) -> (r: Self)
        ensures
            r.0 == val,
    {
        BitMask(val)
    }

    /// Returns the raw bits of the mask.
    pub fn bit_mask(&self) -> (r: u32)
        ensures
            r == self.0,
    {
        self.0
    }

    /// Sets the bits of `f` when `v` is true and resets them otherwise.
    pub fn set_bit_value(&mut self, f: u32, v: bool)
        ensures
            v ==> final(self).0 == (old(self).0 | f),
            !v ==> final(self).0 == (old(self).0 & !f),
    {
        match v {
            true => self.set(f),
            false => self.reset(f),
        }
    }

    /// True if any bit of `f` is set in the mask.
    pub fn get_bit_value(&self, f: u32) -> (r: bool)
        ensures
            r == ((self.0 & f) != 0),
    {
        (self.0 & f) != 0
    }

    /// Sets the bits of `f`.
    pub fn set(&mut self, f: u32)
        ensures
            final(self).0 == (old(self).0 | f),
    {
        self.0 = self.0 | f;
    }

    /// Resets the bits of `f`.
    pub fn reset(&mut self, f: u32)
        ensures
            final(self).0 == (old(self).0 & !f),
    {
        self.0 = self.0 & !f;
    }
}

} // verus!
