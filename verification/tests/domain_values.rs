use crate_sorter::domain::audio::TempoAmbiguity;
use crate_sorter::domain::camelot_key::{CamelotKey, CamelotLetter};
use crate_sorter::domain::confidence::{Confidence, ConfidenceThreshold, Energy};
use crate_sorter::domain::crate_::{Crate, CrateId, CrateOrigin, EnergyRole};
use crate_sorter::domain::settings::{ExportMode, Settings};
use crate_sorter::domain::timestamp::Timestamp;
use crate_sorter::domain::validation::{ValueError, ValueField};
use uuid::Uuid;

#[test]
fn only_half_or_double_time_is_uncertain() {
    assert!(!TempoAmbiguity::Confident.is_uncertain());
    assert!(TempoAmbiguity::HalfOrDoubleTime.is_uncertain());
}

#[test]
fn tokens_round_trip() {
    for ambiguity in [TempoAmbiguity::Confident, TempoAmbiguity::HalfOrDoubleTime] {
        assert_eq!(TempoAmbiguity::from_token(ambiguity.as_str()), Some(ambiguity));
    }
}

#[test]
fn unknown_token_is_rejected_not_defaulted() {
    assert_eq!(TempoAmbiguity::from_token("probably_fine"), None);
}

#[test]
fn displays_as_position_then_letter() {
    let key = CamelotKey::new(8, CamelotLetter::A).unwrap();
    assert_eq!(key.to_string(), "8A");
}

#[test]
fn rejects_position_outside_wheel() {
    assert!(CamelotKey::new(0, CamelotLetter::B).is_err());
    assert!(CamelotKey::new(13, CamelotLetter::B).is_err());
}

#[test]
fn confidence_rejects_out_of_range() {
    // Thousandths: 1.1 is 1100; a negative or NaN confidence has no representation here.
    assert!(Confidence::new(1100).is_err());
    assert!(Confidence::new(1001).is_err());
    assert!(Confidence::new(1000).is_ok());
}

#[test]
fn confidence_meets_threshold_at_or_above() {
    let threshold = ConfidenceThreshold::new(600).unwrap();
    assert!(Confidence::new(600).unwrap().meets(threshold));
    assert!(Confidence::new(900).unwrap().meets(threshold));
    assert!(!Confidence::new(590).unwrap().meets(threshold));
}

#[test]
fn energy_rejects_above_hundred() {
    assert!(Energy::new(101).is_err());
    assert_eq!(Energy::new(100).unwrap().value(), 100);
}

fn crate_id() -> CrateId {
    CrateId::from_uuid(Uuid::nil())
}

#[test]
fn display_name_without_role_is_just_genre() {
    let c = Crate::new(crate_id(), "Deep House".into(), None, CrateOrigin::Auto);
    assert_eq!(c.display_name(), "Deep House");
}

#[test]
fn display_name_with_role_joins_genre_and_role() {
    let c = Crate::new(crate_id(), "Deep House".into(), Some(EnergyRole::Peak), CrateOrigin::Auto);
    assert_eq!(c.display_name(), "Deep House · Peak");
}

fn role_at(energy: u8) -> EnergyRole {
    EnergyRole::for_energy(Energy::new(energy).expect("energy in range"))
}

#[test]
fn energy_maps_to_four_ascending_bands() {
    assert_eq!(role_at(0), EnergyRole::Closing);
    assert_eq!(role_at(30), EnergyRole::Warmup);
    assert_eq!(role_at(50), EnergyRole::Groove);
    assert_eq!(role_at(100), EnergyRole::Peak);
}

#[test]
fn band_boundaries_are_contiguous() {
    assert_eq!(role_at(19), EnergyRole::Closing);
    assert_eq!(role_at(20), EnergyRole::Warmup);
    assert_eq!(role_at(44), EnergyRole::Warmup);
    assert_eq!(role_at(45), EnergyRole::Groove);
    assert_eq!(role_at(69), EnergyRole::Groove);
    assert_eq!(role_at(70), EnergyRole::Peak);
}

#[test]
fn mapping_is_monotonic_across_the_whole_scale() {
    let rank = |role: EnergyRole| match role {
        EnergyRole::Closing => 0,
        EnergyRole::Warmup => 1,
        EnergyRole::Groove => 2,
        EnergyRole::Peak => 3,
    };
    for energy in 0..100u8 {
        assert!(
            rank(role_at(energy)) <= rank(role_at(energy + 1)),
            "energy {energy} outranks {}",
            energy + 1
        );
    }
}

#[test]
fn defaults_are_download_off_and_local_export() {
    let s = Settings::default();
    assert!(!s.download_enabled());
    assert_eq!(s.export_mode(), ExportMode::Local);
    assert_eq!(s.confidence_threshold().value(), 600);
}

#[test]
fn energy_error_carries_the_bounds_and_the_value() {
    assert_eq!(
        Energy::new(101),
        Err(ValueError::OutOfRange { field: ValueField::Energy, min: 0, max: 100, value: Some(101) })
    );
    assert_eq!(ValueField::Energy.as_str(), "energy");
}

#[test]
fn instants_order_as_their_milliseconds() {
    assert!(Timestamp::from_millis(-5) < Timestamp::from_millis(3));
    assert!(Timestamp::from_millis(3) <= Timestamp::from_millis(3));
    assert!(Timestamp::from_millis(4) > Timestamp::from_millis(3));
    assert_eq!(Timestamp::from_millis(7).cmp(&Timestamp::from_millis(2)), std::cmp::Ordering::Greater);
    assert_eq!(Timestamp::from_millis(2).partial_cmp(&Timestamp::from_millis(2)), Some(std::cmp::Ordering::Equal));
}
