//! Shared validation error for newtype value objects.
use vstd::prelude::*;

verus! {

/// The value object a validation error is about.
#[derive(Debug, Clone, Copy, PartialEq, Eq, Structural)]
pub enum ValueField {
    /// A classification confidence.
    Confidence,
    /// The auto-classification cutoff.
    ConfidenceThreshold,
    /// A normalized track energy.
    Energy,
    /// A Camelot wheel position.
    CamelotPosition,
    /// A Camelot key in its text form.
    CamelotKey,
}

impl ValueField {
    /// The field's name as carried in error messages (e.g. `"confidence"`).
    pub fn as_str(self) -> (s: &'static str)
        ensures
            s@ == self.spec_name(),
    {
        match self {
            ValueField::Confidence => "confidence",
            ValueField::ConfidenceThreshold => "confidence_threshold",
            ValueField::Energy => "energy",
            ValueField::CamelotPosition => "camelot_position",
            ValueField::CamelotKey => "camelot_key",
        }
    }

    /// The field's name.
    pub open spec fn spec_name(self) -> Seq<char> {
        match self {
            ValueField::Confidence => "confidence"@,
            ValueField::ConfidenceThreshold => "confidence_threshold"@,
            ValueField::Energy => "energy"@,
            ValueField::CamelotPosition => "camelot_position"@,
            ValueField::CamelotKey => "camelot_key"@,
        }
    }
}

/// Error raised when a value object is constructed from an out-of-range primitive.
///
/// Bounds are carried so callers can build a client-actionable message without re-typing the
/// limits. `value` is `None` when the input was not a number at all (malformed text, NaN).
#[derive(Debug, Clone, Copy, PartialEq, Eq, Structural)]
pub enum ValueError {
    /// The provided value fell outside the inclusive `[min, max]` range for `field`.
    OutOfRange {
        /// The value object being validated.
        field: ValueField,
        /// Inclusive lower bound.
        min: i64,
        /// Inclusive upper bound.
        max: i64,
        /// The offending value, when there was one.
        value: Option<i64>,
    },
}

} // verus!
