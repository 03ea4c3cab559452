//! Wall-clock time as a plain value object.
use vstd::prelude::*;
use core::cmp::Ordering;
use vstd::std_specs::cmp::PartialOrdSpec;

verus! {

/// An instant expressed as Unix-epoch milliseconds.
#[derive(Debug, Clone, Copy, PartialEq, Eq, Structural, Ord, Hash)]
pub struct Timestamp(pub i64);

impl Timestamp {
    /// Builds a timestamp from Unix-epoch milliseconds.
    pub fn from_millis(millis: i64) -> (t: Self)
        ensures
            t.0 == millis,
    {
        Timestamp(millis)
    }

    /// Returns the underlying Unix-epoch milliseconds.
    pub fn as_millis(self) -> (m: i64)
        ensures
            m == self.0,
    {
        self.0
    }
}

/// Timestamps order as their milliseconds: the earlier instant is the lesser.
impl PartialOrd for Timestamp {
    fn partial_cmp(&self, other: &Self) -> (r: Option<Ordering>) {
        if self.0 < other.0 {
            Some(Ordering::Less)
        } else if self.0 > other.0 {
            Some(Ordering::Greater)
        } else {
            Some(Ordering::Equal)
        }
    }
}

impl vstd::std_specs::cmp::PartialOrdSpecImpl for Timestamp {
    open spec fn obeys_partial_cmp_spec() -> bool {
        true
    }

    open spec fn partial_cmp_spec(&self, other: &Self) -> Option<Ordering> {
        if self.0 < other.0 {
            Some(Ordering::Less)
        } else if self.0 > other.0 {
            Some(Ordering::Greater)
        } else {
            Some(Ordering::Equal)
        }
    }
}

/// Two instants built from milliseconds compare as the milliseconds do: `from_millis(a) <=
/// from_millis(b)` exactly when `a <= b`, and they are equal exactly when `a == b`.
pub proof fn lemma_order_follows_millis(a: i64, b: i64)
    ensures
        PartialOrdSpec::partial_cmp_spec(&Timestamp(a), &Timestamp(b)) matches Some(Ordering::Less | Ordering::Equal)
            <==> a <= b,
        PartialOrdSpec::partial_cmp_spec(&Timestamp(a), &Timestamp(b)) == Some(Ordering::Less) <==> a < b,
        (Timestamp(a) == Timestamp(b)) <==> a == b,
{
}

} // verus!
