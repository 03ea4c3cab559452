//! Crate sorter: the verified domain and decision logic of a likes-library organiser.

pub mod application;
pub mod domain;
pub mod text;
