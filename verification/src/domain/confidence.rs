//! Confidence, threshold, and energy value objects — all range-guarded newtypes.
//!
//! Confidences are held in thousandths (per mille): `0` is no confidence, `1000` is certainty.
//! Three decimal places is the precision the audit trail records them at.
use vstd::prelude::*;
use crate::domain::validation::{ValueError, ValueField};

verus! {

/// Highest confidence, in thousandths (certainty).
pub const PROBABILITY_MAX: u16 = 1000;
/// Highest energy on the normalized scale.
pub const ENERGY_MAX: u8 = 100;

/// The error for a confidence-like value above certainty.
pub open spec fn probability_error(field: ValueField, per_mille: u16) -> ValueError {
    ValueError::OutOfRange { field, min: 0, max: 1000, value: Some(per_mille as i64) }
}

/// A classification confidence in `[0, 1000]` thousandths.
#[derive(Debug, Clone, Copy, PartialEq, Eq, Structural, PartialOrd, Ord, Hash)]
pub struct Confidence {
    per_mille: u16,
}

impl View for Confidence {
    type V = int;

    closed spec fn view(&self) -> int {
        self.per_mille as int
    }
}

impl Confidence {
    #[verifier::type_invariant]
    spec fn in_range(self) -> bool {
        self.per_mille <= PROBABILITY_MAX
    }

    /// Builds a confidence, validating the `[0, 1000]` range.
    pub fn new(per_mille: u16) -> (r: Result<Self, ValueError>)
        ensures
            match r {
                Ok(c) => per_mille <= 1000 && c@ == per_mille,
                Err(e) => per_mille > 1000 && e == probability_error(ValueField::Confidence, per_mille),
            },
    {
        ensure_probability(ValueField::Confidence, per_mille)?;
        Ok(Confidence { per_mille })
    }

    /// Returns the confidence in thousandths.
    pub fn value(self) -> (v: u16)
        ensures
            v == self@,
            v <= 1000,
    {
        proof {
            use_type_invariant(&self);
        }
        self.per_mille
    }

    /// Whether this confidence meets or exceeds `threshold` (the auto-classification gate).
    pub fn meets(self, threshold: ConfidenceThreshold) -> (b: bool)
        ensures
            b == (self@ >= threshold@),
    {
        self.per_mille >= threshold.value()
    }
}

/// The adjustable cutoff separating auto-classification from manual triage, in thousandths.
#[derive(Debug, Clone, Copy, PartialEq, Eq, Structural, PartialOrd, Ord, Hash)]
pub struct ConfidenceThreshold {
    per_mille: u16,
}

impl View for ConfidenceThreshold {
    type V = int;

    closed spec fn view(&self) -> int {
        self.per_mille as int
    }
}

impl ConfidenceThreshold {
    #[verifier::type_invariant]
    spec fn in_range(self) -> bool {
        self.per_mille <= PROBABILITY_MAX
    }

    /// Builds a threshold, validating the `[0, 1000]` range.
    pub fn new(per_mille: u16) -> (r: Result<Self, ValueError>)
        ensures
            match r {
                Ok(t) => per_mille <= 1000 && t@ == per_mille,
                Err(e) => per_mille > 1000 && e == probability_error(
                    ValueField::ConfidenceThreshold,
                    per_mille,
                ),
            },
    {
        ensure_probability(ValueField::ConfidenceThreshold, per_mille)?;
        Ok(ConfidenceThreshold { per_mille })
    }

    /// Returns the threshold in thousandths.
    pub fn value(self) -> (v: u16)
        ensures
            v == self@,
            v <= 1000,
    {
        proof {
            use_type_invariant(&self);
        }
        self.per_mille
    }
}

/// Normalized track energy in `[0, 100]` (loudness-derived; audio analysis only).
#[derive(Debug, Clone, Copy, PartialEq, Eq, Structural, PartialOrd, Ord, Hash)]
pub struct Energy {
    level: u8,
}

impl View for Energy {
    type V = int;

    closed spec fn view(&self) -> int {
        self.level as int
    }
}

impl Energy {
    #[verifier::type_invariant]
    spec fn in_range(self) -> bool {
        self.level <= ENERGY_MAX
    }

    /// Builds an energy value, validating the `[0, 100]` range.
    pub fn new(value: u8) -> (r: Result<Self, ValueError>)
        ensures
            match r {
                Ok(e) => value <= 100 && e@ == value,
                Err(err) => value > 100 && err == (ValueError::OutOfRange {
                    field: ValueField::Energy,
                    min: 0,
                    max: 100,
                    value: Some(value as i64),
                }),
            },
    {
        if value > ENERGY_MAX {
            return Err(ValueError::OutOfRange {
                field: ValueField::Energy,
                min: 0,
                max: 100,
                value: Some(value as i64),
            });
        }
        Ok(Energy { level: value })
    }

    /// Returns the energy level.
    pub fn value(self) -> (v: u8)
        ensures
            v == self@,
            v <= 100,
    {
        proof {
            use_type_invariant(&self);
        }
        self.level
    }
}

/// Validates that a value in thousandths lies within `[0, 1000]`.
fn ensure_probability(field: ValueField, per_mille: u16) -> (r: Result<(), ValueError>)
    ensures
        per_mille <= 1000 ==> r == Ok::<(), ValueError>(()),
        per_mille > 1000 ==> r == Err::<(), ValueError>(probability_error(field, per_mille)),
{
    if per_mille > PROBABILITY_MAX {
        return Err(ValueError::OutOfRange {
            field,
            min: 0,
            max: 1000,
            value: Some(per_mille as i64),
        });
    }
    Ok(())
}

} // verus!
