//! The crate repository port's input: which crate to resolve, and how to stamp a new one.
use vstd::prelude::*;
use crate::domain::crate_::{CrateOrigin, EnergyRole};

verus! {

/// What identifies a crate to resolve, and how to stamp it if it has to be created.
#[derive(Debug, PartialEq, Eq)]
pub struct CrateSpec {
    /// The primary genre axis.
    pub genre: String,
    /// The optional energy sub-role.
    pub role: Option<EnergyRole>,
    /// Origin stamped on the crate only when the call creates it.
    pub origin: CrateOrigin,
}

} // verus!
