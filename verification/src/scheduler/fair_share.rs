use vstd::prelude::*;

verus! {

/// The IEEE 754 bit pattern of the `f64` value 1.0.
pub const ONE_SHARE_BITS: u64 = 0x3FF0_0000_0000_0000;

/// Fair-share scheduler: the share of capacity it hands out. The share is an
/// `f64`, held as its IEEE 754 bit pattern (`f64::to_bits`).
pub struct FairShareScheduler {
    shares: u64,
}

impl FairShareScheduler {
    /// The bit pattern of the share.
    pub closed spec fn spec_shares(&self) -> u64 {
        self.shares
    }

    /// A scheduler with the share whose bit pattern is `shares`.
    pub fn new(shares: u64) -> (s: Self)
        ensures
            s.spec_shares() == shares,
    {
        FairShareScheduler { shares }
    }

    /// The bit pattern of the share.
    pub fn shares(&self) -> (b: u64)
        ensures
            b == self.spec_shares(),
    {
        self.shares
    }

    /// Set the share to the one whose bit pattern is `shares`.
    pub fn set_shares(&mut self, shares: u64)
        ensures
            final(self).spec_shares() == shares,
    {
        self.shares = shares;
    }
}

impl Default for FairShareScheduler {
    /// A share of 1.0.
    fn default() -> (s: Self)
        ensures
            s.spec_shares() == ONE_SHARE_BITS,
    {
        FairShareScheduler::new(ONE_SHARE_BITS)
    }
}

} // verus!
