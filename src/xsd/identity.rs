//! Marker values that stand apart from every ordinary value.
use vstd::prelude::*;

verus! {

/// A value known by its name alone.
#[derive(Debug)]
pub struct StaticIdentity {
    value: String,
}

impl StaticIdentity {
    /// The identity's name.
    pub closed spec fn name(&self) -> Seq<char> {
        self.value@
    }

    pub fn new(val: String) -> (r: Self)
        ensures
            r.name() == val@,
    {
        Self { value: val }
    }
}

} // verus!
