use crate_sorter::application::ports::genre_vibe_classifier::{
    ClassifyError, GenreCandidate, GenreVibeSuggestion,
};
use crate_sorter::application::testkit::in_memory_crate_repository::InMemoryCrateRepository;
use crate_sorter::application::use_cases::classify_track::{
    classification_for, classification_input, crate_spec_for, decide_genre_from_ai,
    decide_genre_from_metadata, decision_detail, decision_record, energy_role_for,
    fallback_decision, has_genre_evidence, is_likely_non_music, reason_for,
    split_off_most_confident, uplifted_confidence, Classification, MAX_ALTERNATIVES,
};
use crate_sorter::domain::audio::{AudioFeatures, TempoAmbiguity};
use crate_sorter::domain::classification::{ClassificationReason, DecisionId, DecisionSource};
use crate_sorter::domain::confidence::{Confidence, Energy};
use crate_sorter::domain::crate_::{CrateId, EnergyRole};
use crate_sorter::domain::timestamp::Timestamp;
use crate_sorter::domain::track::{LikedTrack, Track, TrackId};
use uuid::Uuid;

fn confidence(per_mille: u16) -> Confidence {
    Confidence::new(per_mille).unwrap()
}

fn candidate(genre: &str, per_mille: u16) -> GenreCandidate {
    GenreCandidate { genre: genre.to_owned(), confidence: confidence(per_mille) }
}

fn track(source_genre: Option<&str>, duration_ms: u64) -> Track {
    Track::from_scan(
        TrackId::from_uuid(Uuid::nil()),
        LikedTrack {
            source_track_id: "sc:1".into(),
            title: "Night Drive".into(),
            artist: "Artist".into(),
            source_genre: source_genre.map(str::to_owned),
            duration_ms,
            permalink_url: "https://sc/x".into(),
            artwork_url: None,
        },
    )
}

fn analyzed(t: Track, energy: u8) -> Track {
    t.analyzed(AudioFeatures {
        bpm: 128,
        tempo_ambiguity: TempoAmbiguity::Confident,
        key: None,
        energy: Energy::new(energy).unwrap(),
    })
}

fn suggestion(genre: &str, per_mille: u16) -> GenreVibeSuggestion {
    GenreVibeSuggestion { candidates: vec![candidate(genre, per_mille)], vibe_tags: vec!["dark".into()] }
}

/// Runs the decision steps of a classification against an in-memory crate store.
fn classify(
    t: &Track,
    ai: Result<GenreVibeSuggestion, ClassifyError>,
    crates: &mut InMemoryCrateRepository,
    next_id: u128,
) -> (Classification, ClassificationReason, String) {
    let decision = decide_genre_from_metadata(t).unwrap_or_else(|| decide_genre_from_ai(ai));
    let role = energy_role_for(t, decision.reason);
    let crate_ = crates.find_or_create(&crate_spec_for(&decision, role), CrateId::from_uuid(Uuid::from_u128(next_id)));
    let classification = classification_for(&decision, role, crate_.id());
    (classification, decision.reason, decision.genre)
}

#[test]
fn picks_the_highest_confidence_candidate_regardless_of_model_ordering() {
    let (picked, _) = split_off_most_confident(vec![candidate("Ambient", 700), candidate("Techno", 950)])
        .expect("a candidate is returned");
    assert_eq!(picked.genre, "Techno");
    assert_eq!(picked.confidence.value(), 950);
}

#[test]
fn runners_up_are_ranked_by_confidence_not_model_order() {
    let (_, alternatives) = split_off_most_confident(vec![
        candidate("Ambient", 200),
        candidate("Techno", 950),
        candidate("Trance", 600),
    ])
    .expect("a candidate is returned");
    let genres: Vec<&str> = alternatives.iter().map(|a| a.genre.as_str()).collect();
    assert_eq!(genres, vec!["Trance", "Ambient"]);
}

#[test]
fn runners_up_are_capped_to_a_small_set() {
    let candidates = vec![
        candidate("A", 900),
        candidate("B", 800),
        candidate("C", 700),
        candidate("D", 600),
        candidate("E", 500),
        candidate("F", 400),
    ];
    let (_, alternatives) = split_off_most_confident(candidates).expect("a candidate");
    assert_eq!(alternatives.len(), MAX_ALTERNATIVES);
}

#[test]
fn no_candidates_yields_none() {
    assert!(split_off_most_confident(vec![]).is_none());
}

#[test]
fn equally_confident_candidates_keep_the_model_order() {
    let (picked, alternatives) = split_off_most_confident(vec![
        candidate("First", 500),
        candidate("Second", 500),
        candidate("Third", 900),
    ])
    .unwrap();
    assert_eq!(picked.genre, "Third");
    let genres: Vec<&str> = alternatives.iter().map(|a| a.genre.as_str()).collect();
    assert_eq!(genres, vec!["First", "Second"]);
}

#[test]
fn uplift_saturates_at_full_confidence() {
    let lifted = uplifted_confidence(confidence(990), Some(EnergyRole::Peak));
    assert_eq!(lifted.value(), 1000);
    assert_eq!(uplifted_confidence(confidence(700), Some(EnergyRole::Groove)).value(), 750);
    assert_eq!(uplifted_confidence(confidence(700), None).value(), 700);
}

#[test]
fn likely_non_music_is_outside_one_minute_to_half_an_hour() {
    assert!(is_likely_non_music(59_999));
    assert!(!is_likely_non_music(60_000));
    assert!(!is_likely_non_music(1_800_000));
    assert!(is_likely_non_music(1_800_001));
}

#[test]
fn genre_evidence_and_reasons() {
    assert!(has_genre_evidence(ClassificationReason::GenreFromSourceTag));
    assert!(has_genre_evidence(ClassificationReason::GenreFromAi));
    assert!(!has_genre_evidence(ClassificationReason::ClassifierUnavailable));
    assert!(!has_genre_evidence(ClassificationReason::LikelyNonMusic));
    assert_eq!(
        reason_for(ClassificationReason::GenreFromAi, Some(EnergyRole::Peak)),
        ClassificationReason::AudioFeatures
    );
    assert_eq!(reason_for(ClassificationReason::GenreFromAi, None), ClassificationReason::GenreFromAi);
}

#[test]
fn uses_source_tag_without_calling_ai() {
    let decision = decide_genre_from_metadata(&track(Some("Deep House"), 300_000)).expect("decided");
    assert_eq!(decision.reason, ClassificationReason::GenreFromSourceTag);
    assert_eq!(decision.confidence.value(), 900);
    assert_eq!(decision.genre, "Deep House");
}

#[test]
fn calls_ai_only_when_genre_missing() {
    let t = track(None, 300_000);
    assert!(decide_genre_from_metadata(&t).is_none(), "the classifier must be asked");
    let input = classification_input(&t);
    assert_eq!(input.title, "Night Drive");
    assert_eq!(input.artist, "Artist");
    assert_eq!(input.source_genre, None);
    let decision = decide_genre_from_ai(Ok(suggestion("Techno", 720)));
    assert_eq!(decision.reason, ClassificationReason::GenreFromAi);
    assert_eq!(decision.confidence.value(), 720);
    assert_eq!(decision.vibe_tags, vec!["dark".to_string()]);
}

#[test]
fn ai_failure_degrades_to_low_confidence() {
    let decision = decide_genre_from_ai(Err(ClassifyError::BadResponse));
    assert_eq!(decision.confidence.value(), 100);
    assert_eq!(decision.reason, ClassificationReason::ClassifierUnavailable);
    assert_eq!(decision.genre, "Unknown");
}

#[test]
fn an_empty_ai_answer_is_the_fallback_found_by_the_ai() {
    let decision = decide_genre_from_ai(Ok(GenreVibeSuggestion { candidates: vec![], vibe_tags: vec!["x".into()] }));
    assert_eq!(decision.reason, ClassificationReason::GenreFromAi);
    assert_eq!(decision.genre, "Unknown");
    assert!(decision.vibe_tags.is_empty());
    let fallback = fallback_decision(ClassificationReason::GenreFromAi);
    assert_eq!(fallback.confidence.value(), 100);
}

#[test]
fn short_upload_routed_to_review_crate() {
    let decision = decide_genre_from_metadata(&track(Some("House"), 30_000)).expect("decided");
    assert_eq!(decision.reason, ClassificationReason::LikelyNonMusic);
    assert_eq!(decision.genre, "Review");
    assert_eq!(decision.confidence.value(), 950);
}

#[test]
fn measured_energy_files_the_track_into_an_energy_sub_crate() {
    let mut crates = InMemoryCrateRepository::new();
    classify(&analyzed(track(Some("Deep House"), 300_000), 85), Err(ClassifyError::BadResponse), &mut crates, 1);
    let created = &crates.list()[0];
    assert_eq!(created.genre(), "Deep House");
    assert_eq!(created.energy_role(), Some(EnergyRole::Peak));
    assert_eq!(created.display_name(), "Deep House · Peak");
}

#[test]
fn a_track_without_audio_still_files_by_genre_alone() {
    let mut crates = InMemoryCrateRepository::new();
    let (result, _, _) = classify(&track(Some("Deep House"), 300_000), Err(ClassifyError::BadResponse), &mut crates, 1);
    assert_eq!(result.reason, ClassificationReason::GenreFromSourceTag);
    assert_eq!(result.confidence.value(), 900);
    assert_eq!(crates.list()[0].energy_role(), None);
}

#[test]
fn analysis_lifts_confidence_and_records_audio_as_the_reason() {
    let mut crates = InMemoryCrateRepository::new();
    let (result, _, _) = classify(&analyzed(track(None, 300_000), 50), Ok(suggestion("Techno", 700)), &mut crates, 1);
    assert_eq!(result.confidence.value(), 750);
    assert_eq!(result.reason, ClassificationReason::AudioFeatures);
}

#[test]
fn an_undetermined_genre_gains_neither_uplift_nor_sub_role() {
    let mut crates = InMemoryCrateRepository::new();
    let (result, _, _) = classify(&analyzed(track(None, 300_000), 85), Err(ClassifyError::RateLimited), &mut crates, 1);
    assert_eq!(result.confidence.value(), 100);
    assert_eq!(result.reason, ClassificationReason::ClassifierUnavailable);
    let created = &crates.list()[0];
    assert_eq!(created.genre(), "Unknown");
    assert_eq!(created.energy_role(), None);
}

#[test]
fn refining_an_analyzed_track_is_idempotent() {
    let mut crates = InMemoryCrateRepository::new();
    let t = analyzed(track(Some("Deep House"), 300_000), 85);
    let (first, _, _) = classify(&t, Err(ClassifyError::BadResponse), &mut crates, 1);
    let (second, _, _) = classify(&t, Err(ClassifyError::BadResponse), &mut crates, 2);
    assert_eq!(first.crate_id, second.crate_id);
    assert_eq!(crates.list().len(), 1, "a re-run must not fork a second crate");
}

#[test]
fn the_trail_keeps_the_genre_provenance_when_audio_refines_it() {
    let t = analyzed(track(Some("Deep House"), 300_000), 85);
    let decision = decide_genre_from_metadata(&t).unwrap();
    let role = energy_role_for(&t, decision.reason);
    let classification = classification_for(&decision, role, CrateId::from_uuid(Uuid::from_u128(1)));
    let detail = decision_detail(&decision, &classification);
    let pairs: Vec<(String, String)> = detail.entries().to_vec();
    assert!(pairs.contains(&("reason".into(), "audio_features".into())));
    assert!(pairs.contains(&("genre_reason".into(), "genre_from_source_tag".into())));
    assert!(pairs.contains(&("confidence".into(), "0.950".into())));
    assert!(pairs.contains(&("crate_id".into(), "00000000-0000-0000-0000-000000000001".into())));
    assert!(pairs.contains(&("genre".into(), "Deep House".into())));
}

#[test]
fn the_decision_detail_joins_vibe_tags_and_sorts_its_keys() {
    let decision = decide_genre_from_ai(Ok(GenreVibeSuggestion {
        candidates: vec![candidate("Techno", 720)],
        vibe_tags: vec!["dark".into(), "driving".into()],
    }));
    let classification = classification_for(&decision, None, CrateId::from_uuid(Uuid::nil()));
    let detail = decision_detail(&decision, &classification);
    let keys: Vec<&str> = detail.entries().iter().map(|(k, _)| k.as_str()).collect();
    assert_eq!(keys, vec!["confidence", "crate_id", "genre", "reason", "vibe_tags"]);
    assert!(detail.entries().contains(&("vibe_tags".into(), "dark,driving".into())));
    assert!(detail.entries().contains(&("confidence".into(), "0.720".into())));
}

#[test]
fn persists_the_decision_with_its_alternatives_for_triage() {
    let decision = decide_genre_from_ai(Ok(GenreVibeSuggestion {
        candidates: vec![candidate("Techno", 400), candidate("Trance", 300)],
        vibe_tags: vec!["dark".into()],
    }));
    let classification = classification_for(&decision, None, CrateId::from_uuid(Uuid::from_u128(4)));
    let record = decision_record(
        DecisionId::from_uuid(Uuid::from_u128(8)),
        TrackId::from_uuid(Uuid::nil()),
        &classification,
        Timestamp::from_millis(1_000),
    );
    assert_eq!(record.crate_id(), classification.crate_id);
    assert_eq!(record.source(), DecisionSource::Auto);
    assert_eq!(record.reason(), ClassificationReason::GenreFromAi);
    assert_eq!(record.confidence().map(Confidence::value), Some(400));
    assert_eq!(record.alternatives().first().map(|a| a.genre.as_str()), Some("Trance"));
    assert_eq!(record.decided_at().as_millis(), 1_000);
}
