//! The time value that all of the limiter's arithmetic is done in.

use vstd::prelude::*;

verus! {

/// `a + b`, held at the largest time value.
pub open spec fn capped_sum(a: nat, b: nat) -> nat {
    if a + b > u64::MAX {
        u64::MAX as nat
    } else {
        a + b
    }
}

/// `a - b`, held at zero.
pub open spec fn floored_difference(a: nat, b: nat) -> nat {
    if a > b {
        (a - b) as nat
    } else {
        0
    }
}

/// A stored time value as a number of nanoseconds, if there is one.
pub open spec fn in_nanos(stored: Option<Nanos>) -> Option<nat> {
    match stored {
        Some(value) => Some(value@),
        None => None,
    }
}

/// The text that `std::time::Duration` shows under `{:?}` for a duration of
/// `nanos` nanoseconds.
pub uninterp spec fn duration_debug_text(nanos: u64) -> Seq<char>;

/// Makes a duration of `nanos` nanoseconds with
/// `std::time::Duration::from_nanos` and formats it with `{:?}`, that is
/// with `Duration`'s impl of `Debug`.
///
/// Nothing is proved of this function. Its contract claims that the text
/// is a function of the number of nanoseconds alone, which holds because
/// that impl reads nothing but the duration that it is given. What the
/// text looks like is not stated.
#[verifier::external_body]
pub(crate) fn duration_debug_string(nanos: u64) -> (text: String)
    ensures
        text@ == duration_debug_text(nanos),
{
    format!("{:?}", std::time::Duration::from_nanos(nanos))
}

/// A span of time in whole nanoseconds, counted from some reference point.
///
/// It is never negative and never longer than `u64::MAX` nanoseconds (about
/// 584 years): subtraction stops at zero and addition stops at the longest
/// span rather than wrapping around. Its view is the number of nanoseconds.
#[derive(Clone, Copy, Debug, PartialEq, Eq, PartialOrd, Ord, Hash)]
pub struct Nanos(u64);

impl View for Nanos {
    type V = nat;

    open spec fn view(&self) -> nat {
        self.spec_as_u64() as nat
    }
}

impl Nanos {
    /// The number of nanoseconds, as the machine integer that holds it.
    pub closed spec fn spec_as_u64(self) -> u64 {
        self.0
    }

    /// The time value of `u` nanoseconds.
    pub fn new(u: u64) -> (r: Nanos)
        ensures
            r@ == u,
    {
        Nanos(u)
    }

    /// The number of nanoseconds.
    #[verifier::when_used_as_spec(spec_as_u64)]
    pub fn as_u64(self) -> (r: u64)
        ensures
            r == self@,
    {
        self.0
    }

    /// `self + rhs`, or the longest span where the sum lies beyond it.
    pub fn saturating_add(self, rhs: Nanos) -> (r: Nanos)
        ensures
            r@ == capped_sum(self@, rhs@),
    {
        Nanos(self.0.saturating_add(rhs.0))
    }

    /// `self - rhs`, or zero where `rhs` is the longer.
    pub fn saturating_sub(self, rhs: Nanos) -> (r: Nanos)
        ensures
            r@ == floored_difference(self@, rhs@),
    {
        Nanos(self.0.saturating_sub(rhs.0))
    }
}

/// Two time values of the same number of nanoseconds are the same value.
pub proof fn nanos_equal_by_view(a: Nanos, b: Nanos)
    requires
        a@ == b@,
    ensures
        a == b,
{
}

} // verus!
