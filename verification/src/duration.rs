//! A span of time in whole seconds, as the configuration uses it.

use vstd::prelude::*;

verus! {

/// A span of time in whole seconds.
#[derive(Debug, Clone, Copy, PartialEq, Eq, Hash, Structural)]
pub struct Duration {
    secs: u64,
}

impl Duration {
    /// The number of seconds in this span.
    pub closed spec fn spec_secs(self) -> u64 {
        self.secs
    }

    /// A span of `secs` seconds.
    pub fn from_secs(secs: u64) -> (d: Self)
        ensures
            d.spec_secs() == secs,
    {
        Duration { secs }
    }

    /// The number of whole seconds in this span.
    pub fn as_secs(&self) -> (s: u64)
        ensures
            s == self.spec_secs(),
    {
        self.secs
    }
}

/// Two spans are equal exactly when they hold the same number of seconds.
pub proof fn lemma_duration_equality(a: Duration, b: Duration)
    ensures
        a == b <==> a.spec_secs() == b.spec_secs(),
{
}

} // verus!
