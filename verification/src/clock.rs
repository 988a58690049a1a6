//! Points in time, as a clock hands them out.

use vstd::prelude::*;
use crate::nanos::{duration_debug_string, duration_debug_text, Nanos};

verus! {

/// The time that passes from the point `earlier` to the point `later` of a
/// time line, both in nanoseconds: zero where `later` is not the later one,
/// and never more than the longest time value.
pub open spec fn elapsed_between(earlier: int, later: int) -> nat {
    if later <= earlier {
        0
    } else if later - earlier > u64::MAX {
        u64::MAX as nat
    } else {
        (later - earlier) as nat
    }
}

/// The point `duration` nanoseconds after `offset`, held at `horizon`.
pub open spec fn advanced_to(offset: int, duration: nat, horizon: int) -> int {
    if offset + duration > horizon {
        horizon
    } else {
        offset + duration
    }
}

/// A point in time as measured by some clock.
///
/// The limiter reads a clock only through this trait: it never looks at
/// the clock's own representation of time. An implementation lays its
/// points out on a time line in nanoseconds ([`Reference::offset`]) that ends
/// at [`Reference::horizon`]. A clock that has no such type of its own hands
/// its readings over as [`Nanos`], counted from its own start.
pub trait Reference: Sized + Copy {
    /// Where this point lies on the clock's time line, in nanoseconds.
    spec fn offset(&self) -> int;

    /// The last point of the time line that the type can hold.
    spec fn horizon() -> int;

    /// The text that shows the point at `offset` to people.
    spec fn rendering(offset: int) -> Seq<char>;

    /// The time that has passed since `earlier`: zero if `earlier` is in
    /// fact the later of the two.
    fn duration_since(&self, earlier: Self) -> (d: Nanos)
        ensures
            d@ == elapsed_between(earlier.offset(), self.offset()),
    ;

    /// The point that lies `duration` after this one, or the horizon where
    /// that point would lie beyond it.
    fn saturating_add(&self, duration: Nanos) -> (r: Self)
        ensures
            r.offset() == advanced_to(self.offset(), duration@, Self::horizon()),
    ;

    /// Shows this point to people.
    fn render(&self) -> (text: String)
        ensures
            text@ == Self::rendering(self.offset()),
    ;
}

/// A time value is a point in time too: the point that lies that long
/// after the start of a clock that counts from zero.
impl Reference for Nanos {
    open spec fn offset(&self) -> int {
        self@ as int
    }

    open spec fn horizon() -> int {
        u64::MAX as int
    }

    /// `Nanos(..)` around the span as `std::time::Duration` shows it under
    /// `{:?}`, such as `Nanos(1.5s)`.
    open spec fn rendering(offset: int) -> Seq<char> {
        "Nanos("@ + duration_debug_text(offset as u64) + ")"@
    }

    fn duration_since(&self, earlier: Self) -> (d: Nanos) {
        Nanos::saturating_sub(*self, earlier)
    }

    fn saturating_add(&self, duration: Nanos) -> (r: Self) {
        Nanos::saturating_add(*self, duration)
    }

    fn render(&self) -> (text: String) {
        let shown = duration_debug_string(self.as_u64());
        let mut text = String::from_str("Nanos(");
        text.append(shown.as_str());
        text.append(")");
        text
    }
}

} // verus!
