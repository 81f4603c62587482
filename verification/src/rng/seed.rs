use vstd::prelude::*;

verus! {

/// The seed of a run, from which every random number generator of the run is derived.
#[derive(Clone, Copy, Debug, PartialEq, Eq)]
pub struct Seed {
    pub value: u64,
}

impl Seed {
    /// A seed derived from this one by adding `offset`, wrapping around on overflow; used to give
    /// each floor of the spire its own generators.
    pub fn with_offset(&self, offset: u64) -> (r: Seed)
        ensures
            r.value == vstd::wrapping::u64_specs::wrapping_add(self.value, offset),
    {
        Seed { value: self.value.wrapping_add(offset) }
    }

    pub fn as_u64(&self) -> (r: u64)
        ensures
            r == self.value,
    {
        self.value
    }
}

impl From<u64> for Seed {
    fn from(value: u64) -> (r: Seed) {
        Seed { value }
    }
}

impl vstd::std_specs::convert::FromSpecImpl<u64> for Seed {
    open spec fn obeys_from_spec() -> bool {
        true
    }

    open spec fn from_spec(v: u64) -> Seed {
        Seed { value: v }
    }
}

} // verus!
