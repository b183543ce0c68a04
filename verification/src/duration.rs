use vstd::prelude::*;
use vstd::arithmetic::div_mod::lemma_fundamental_div_mod_converse;

verus! {

/// A non-negative span of CPU time: whole seconds plus a sub-second
/// nanosecond remainder. The view of a value is its total length in
/// nanoseconds.
#[derive(Clone, Copy, PartialEq, Eq, PartialOrd, Ord, Hash, Debug)]
pub struct Duration {
    secs: u64,
    nanos: u32,
}

impl View for Duration {
    type V = int;

    closed spec fn view(&self) -> int {
        self.secs * 1_000_000_000 + self.nanos
    }
}

impl Duration {
    #[verifier::type_invariant]
    spec fn wf(self) -> bool {
        self.nanos < 1_000_000_000
    }

    /// A duration of `secs` whole seconds plus `nanos` nanoseconds.
    pub fn new(secs: u64, nanos: u32) -> (r: Self)
        requires
            nanos < 1_000_000_000,
        ensures
            r@ == secs * 1_000_000_000 + nanos,
    {
        Duration { secs, nanos }
    }

    proof fn lemma_parts(self)
        requires
            self.wf(),
        ensures
            self@ / 1_000_000_000 == self.secs,
            self@ % 1_000_000_000 == self.nanos,
            self@ >= 0,
    {
        lemma_fundamental_div_mod_converse(
            self@,
            1_000_000_000,
            self.secs as int,
            self.nanos as int,
        );
    }

    /// The whole-second part of the duration.
    pub fn as_secs(&self) -> (r: u64)
        ensures
            r == self@ / 1_000_000_000,
    {
        proof {
            use_type_invariant(*self);
            self.lemma_parts();
        }
        self.secs
    }

    /// The sub-second part of the duration, in nanoseconds.
    pub fn subsec_nanos(&self) -> (r: u32)
        ensures
            r == self@ % 1_000_000_000,
            r < 1_000_000_000,
    {
        proof {
            use_type_invariant(*self);
            self.lemma_parts();
        }
        self.nanos
    }

    /// The whole duration, in nanoseconds.
    pub fn as_nanos(&self) -> (r: u128)
        ensures
            r == self@,
    {
        proof {
            use_type_invariant(*self);
            self.lemma_parts();
        }
        (self.secs as u128) * 1_000_000_000 + (self.nanos as u128)
    }

    /// Whether this duration is no longer than `other`.
    pub fn le(&self, other: &Duration) -> (r: bool)
        ensures
            r == (self@ <= other@),
    {
        proof {
            use_type_invariant(*self);
            use_type_invariant(*other);
        }
        self.secs < other.secs || (self.secs == other.secs && self.nanos <= other.nanos)
    }

    /// The difference `self - other`, or `None` when `other` is longer
    /// than `self`.
    pub fn checked_sub(&self, other: &Duration) -> (r: Option<Duration>)
        ensures
            self@ >= other@ ==> (r matches Some(d) && d@ == self@ - other@),
            self@ < other@ ==> r is None,
    {
        proof {
            use_type_invariant(*self);
            use_type_invariant(*other);
        }
        if self.secs < other.secs || (self.secs == other.secs && self.nanos < other.nanos) {
            None
        } else if self.nanos >= other.nanos {
            Some(Duration { secs: self.secs - other.secs, nanos: self.nanos - other.nanos })
        } else {
            Some(
                Duration {
                    secs: self.secs - other.secs - 1,
                    nanos: 1_000_000_000 + self.nanos - other.nanos,
                },
            )
        }
    }
}

} // verus!
