//! Domain entities and value objects.
pub mod audio;
pub mod audit;
pub mod camelot_key;
pub mod classification;
pub mod confidence;
pub mod crate_;
pub mod identity;
pub mod settings;
pub mod timestamp;
pub mod track;
pub mod validation;
