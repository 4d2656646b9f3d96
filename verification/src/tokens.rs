use vstd::prelude::*;

verus! {

/// An opaque readiness-interest set.
///
/// A driver hands a token set to `poll` to say which readiness sources are
/// currently known to be ready.  The set is represented as a bitmask; which
/// bit stands for which readiness source is for the driver and its reactor to
/// agree on — the combinators of this crate only ever forward the caller's
/// set or substitute the wildcard set.  The wildcard set, with every bit set,
/// means "poll unconditionally, ignore filtering".
#[derive(Clone, Copy, Debug)]
pub struct Tokens {
    bits: u64,
}

impl Tokens {
    /// The bitmask this token set carries.
    pub closed spec fn spec_bits(&self) -> u64 {
        self.bits
    }

    /// Whether this is the wildcard set that ignores filtering.
    pub open spec fn is_all(&self) -> bool {
        self.spec_bits() == u64::MAX
    }

    /// A token set from a raw bitmask.
    pub fn new(bits: u64) -> (t: Tokens)
        ensures
            t.spec_bits() == bits,
    {
        Tokens { bits }
    }

    /// The wildcard set: every readiness source counts as ready.
    pub fn all() -> (t: Tokens)
        ensures
            t.is_all(),
            t.spec_bits() == u64::MAX,
    {
        Tokens { bits: u64::MAX }
    }

    /// The bitmask this token set carries.
    pub fn bits(&self) -> (b: u64)
        ensures
            b == self.spec_bits(),
    {
        self.bits
    }
}

} // verus!
