use crate_sorter::application::ports::crate_repository::CrateSpec;
use crate_sorter::application::ports::repo_error::RepoError;
use crate_sorter::application::testkit::in_memory_audit_log::InMemoryAuditLog;
use crate_sorter::application::testkit::in_memory_crate_repository::InMemoryCrateRepository;
use crate_sorter::application::testkit::in_memory_decision_repository::InMemoryDecisionRepository;
use crate_sorter::application::testkit::in_memory_settings_repository::InMemorySettingsRepository;
use crate_sorter::application::testkit::in_memory_track_repository::InMemoryTrackRepository;
use crate_sorter::application::use_cases::adjust_threshold::{
    replay_classification, reroute, reroute_all, split_for, tally, ThresholdSplit,
};
use crate_sorter::application::use_cases::classify_track::Classification;
use crate_sorter::application::use_cases::route_to_triage::{
    route, route_effects, routing_detail, RouteOutcome,
};
use crate_sorter::domain::audio::{AudioFeatures, TempoAmbiguity};
use crate_sorter::domain::audit::{
    AuditDetail, AuditEvent, AuditEventId, AuditKind, AuditOutcome, NewAuditEvent, PipelineStage,
    RunId,
};
use crate_sorter::domain::classification::{
    ClassificationDecision, ClassificationReason, DecisionId, DecisionSource, NewDecision,
};
use crate_sorter::domain::confidence::{Confidence, ConfidenceThreshold, Energy};
use crate_sorter::domain::crate_::{CrateId, CrateOrigin};
use crate_sorter::domain::settings::{ExportMode, Settings};
use crate_sorter::domain::timestamp::Timestamp;
use crate_sorter::domain::track::{LikedTrack, Track, TrackId, TrackStatus};
use uuid::Uuid;

fn track_with(seed: u128, source: &str) -> Track {
    Track::from_scan(
        TrackId::from_uuid(Uuid::from_u128(seed)),
        LikedTrack {
            source_track_id: source.into(),
            title: "t".into(),
            artist: "a".into(),
            source_genre: Some("House".into()),
            duration_ms: 240_000,
            permalink_url: "https://sc/x".into(),
            artwork_url: None,
        },
    )
}

fn track() -> Track {
    track_with(42, "sc:1")
}

fn classification(per_mille: u16) -> Classification {
    Classification {
        crate_id: CrateId::from_uuid(Uuid::from_u128(7)),
        confidence: Confidence::new(per_mille).unwrap(),
        reason: ClassificationReason::GenreFromSourceTag,
        vibe_tags: Vec::new(),
        alternatives: Vec::new(),
    }
}

fn threshold() -> ConfidenceThreshold {
    ConfidenceThreshold::new(600).unwrap()
}

fn with_tempo(t: Track, bpm: u16, tempo: TempoAmbiguity) -> Track {
    t.analyzed(AudioFeatures { bpm, tempo_ambiguity: tempo, key: None, energy: Energy::new(80).unwrap() })
}

#[test]
fn above_threshold_auto_classifies() {
    let mut tracks = InMemoryTrackRepository::new();
    let routed = route(&track(), &classification(900), threshold());
    assert_eq!(routed.outcome, RouteOutcome::Auto);
    assert_eq!(routed.track.status(), TrackStatus::AutoClassified);
    assert!(routed.track.crate_id().is_some());
    tracks.upsert(&routed.track).unwrap();
    assert_eq!(tracks.list_all().len(), 1);
}

#[test]
fn below_threshold_sends_to_triage() {
    let routed = route(&track(), &classification(200), threshold());
    assert_eq!(routed.outcome, RouteOutcome::Triage);
    assert_eq!(routed.track.status(), TrackStatus::InTriage);
    assert!(routed.track.crate_id().is_none());
}

#[test]
fn an_uncertain_tempo_overrides_a_confident_genre() {
    let mut tracks = InMemoryTrackRepository::new();
    let analyzed = with_tempo(track(), 70, TempoAmbiguity::HalfOrDoubleTime);
    let routed = route(&analyzed, &classification(900), threshold());
    assert_eq!(routed.outcome, RouteOutcome::Triage);
    assert_eq!(routed.track.status(), TrackStatus::InTriage);
    tracks.upsert(&routed.track).unwrap();
    assert_eq!(tracks.list_in_triage().len(), 1);
    let detail = routing_detail(&classification(900), threshold(), routed.outcome, true);
    assert!(detail.entries().contains(&("triage_reason".into(), "uncertain_tempo".into())));
    assert!(detail.entries().contains(&("status".into(), "in_triage".into())));
    assert!(detail.entries().contains(&("threshold".into(), "0.600".into())));
    assert!(detail.entries().contains(&("confidence".into(), "0.900".into())));
}

#[test]
fn a_confident_tempo_routes_on_confidence_as_usual() {
    let analyzed = with_tempo(track(), 128, TempoAmbiguity::Confident);
    let routed = route(&analyzed, &classification(900), threshold());
    assert_eq!(routed.outcome, RouteOutcome::Auto);
    let detail = routing_detail(&classification(900), threshold(), routed.outcome, false);
    assert_eq!(detail.entries().len(), 3);
}

#[test]
fn an_uncertain_tempo_still_cannot_move_a_human_decided_track() {
    let decided = with_tempo(track(), 70, TempoAmbiguity::HalfOrDoubleTime)
        .assigned_manual(CrateId::from_uuid(Uuid::from_u128(99)));
    let routed = route(&decided, &classification(900), threshold());
    assert_eq!(routed.outcome, RouteOutcome::PreservedManual);
    assert_eq!(routed.track.status(), TrackStatus::ManuallyDecided);
}

#[test]
fn manually_decided_track_is_preserved() {
    let manual = track().assigned_manual(CrateId::from_uuid(Uuid::from_u128(99)));
    let routed = route(&manual, &classification(200), threshold());
    assert_eq!(routed.outcome, RouteOutcome::PreservedManual);
    assert_eq!(routed.track.status(), TrackStatus::ManuallyDecided);
    assert_eq!(routed.track.crate_id(), Some(CrateId::from_uuid(Uuid::from_u128(99))));
}

#[test]
fn upsert_rejects_a_second_track_claiming_a_source_id() {
    let mut tracks = InMemoryTrackRepository::new();
    tracks.upsert(&track_with(1, "sc:1")).unwrap();
    assert_eq!(tracks.upsert(&track_with(2, "sc:1")), Err(RepoError::Constraint));
    assert_eq!(tracks.list_all().len(), 1);
}

#[test]
fn upsert_never_undoes_a_human_decision() {
    let mut tracks = InMemoryTrackRepository::new();
    let decided = track().assigned_manual(CrateId::from_uuid(Uuid::from_u128(3)));
    tracks.upsert(&decided).unwrap();
    tracks.upsert(&track().sent_to_triage(Confidence::new(100).unwrap())).unwrap();
    let stored = tracks.find_by_id(track().id()).unwrap();
    assert_eq!(stored.status(), TrackStatus::ManuallyDecided);
    tracks.upsert(&track().assigned_manual(CrateId::from_uuid(Uuid::from_u128(4)))).unwrap();
    let restored = tracks.find_by_id(track().id()).unwrap();
    assert_eq!(restored.crate_id(), Some(CrateId::from_uuid(Uuid::from_u128(4))));
}

#[test]
fn a_decided_track_leaves_the_triage_queue() {
    let mut tracks = InMemoryTrackRepository::new();
    tracks.upsert(&track().sent_to_triage(Confidence::new(200).unwrap())).unwrap();
    assert_eq!(tracks.list_in_triage().len(), 1);
    tracks.upsert(&track().assigned_manual(CrateId::from_uuid(Uuid::from_u128(1)))).unwrap();
    assert!(tracks.list_in_triage().is_empty(), "a decided track must never be re-presented");
    assert_eq!(tracks.list_by_crate(CrateId::from_uuid(Uuid::from_u128(1))).len(), 1);
    assert_eq!(tracks.find_by_source_id("sc:1").map(|t| t.id()), Some(track().id()));
    assert!(tracks.find_by_source_id("sc:2").is_none());
}

#[test]
fn deferred_tracks_return_to_the_queue() {
    let mut tracks = InMemoryTrackRepository::new();
    let confidence = Confidence::new(200).unwrap();
    tracks.upsert(&track_with(1, "sc:1").sent_to_triage(confidence).deferred()).unwrap();
    tracks.upsert(&track_with(2, "sc:2").sent_to_triage(confidence)).unwrap();
    let deferred = tracks.list_deferred();
    for t in &deferred {
        tracks.upsert(&t.returned_to_triage()).unwrap();
    }
    assert_eq!(deferred.len(), 1);
    assert_eq!(tracks.list_in_triage().len(), 2);
    assert!(tracks.list_deferred().is_empty());
}

#[test]
fn find_or_create_is_idempotent_and_keeps_the_first_origin() {
    let mut crates = InMemoryCrateRepository::new();
    let spec = CrateSpec { genre: "House".into(), role: None, origin: CrateOrigin::Auto };
    let first = crates.find_or_create(&spec, CrateId::from_uuid(Uuid::from_u128(1)));
    let manual = CrateSpec { genre: "House".into(), role: None, origin: CrateOrigin::Manual };
    let second = crates.find_or_create(&manual, CrateId::from_uuid(Uuid::from_u128(2)));
    assert_eq!(first.id(), second.id());
    assert_eq!(second.created_by(), CrateOrigin::Auto);
    assert_eq!(crates.list().len(), 1);
    assert!(crates.find_by_id(CrateId::from_uuid(Uuid::from_u128(2))).is_none());
    assert!(crates.find_matching("House", None).is_some());
    assert!(crates.find_matching("house", None).is_none());
}

fn decision(track: u128, crate_seed: u128, at: i64, per_mille: Option<u16>) -> ClassificationDecision {
    ClassificationDecision::new(NewDecision {
        id: DecisionId::from_uuid(Uuid::from_u128(crate_seed + 500)),
        track_id: TrackId::from_uuid(Uuid::from_u128(track)),
        crate_id: CrateId::from_uuid(Uuid::from_u128(crate_seed)),
        source: if per_mille.is_some() { DecisionSource::Auto } else { DecisionSource::Manual },
        confidence: per_mille.map(|p| Confidence::new(p).unwrap()),
        reason: ClassificationReason::GenreFromSourceTag,
        alternatives: Vec::new(),
        decided_at: Timestamp::from_millis(at),
    })
}

#[test]
fn the_latest_decision_wins_and_ties_go_to_the_last_recorded() {
    let mut decisions = InMemoryDecisionRepository::new();
    assert!(decisions.is_empty());
    decisions.record(decision(1, 10, 1_000, Some(500)));
    decisions.record(decision(2, 20, 5_000, Some(500)));
    decisions.record(decision(1, 11, 1_000, Some(700)));
    decisions.record(decision(1, 12, 900, Some(900)));
    let latest = decisions.find_latest_for_track(TrackId::from_uuid(Uuid::from_u128(1))).unwrap();
    assert_eq!(latest.crate_id(), CrateId::from_uuid(Uuid::from_u128(11)));
    assert_eq!(decisions.len(), 4);
    assert!(decisions.find_latest_for_track(TrackId::from_uuid(Uuid::from_u128(3))).is_none());
}

fn event(seed: u128, track: Option<u128>, at: i64) -> AuditEvent {
    AuditEvent::new(NewAuditEvent {
        id: AuditEventId::from_uuid(Uuid::from_u128(seed)),
        run_id: RunId::from_uuid(Uuid::nil()),
        track_id: track.map(|t| TrackId::from_uuid(Uuid::from_u128(t))),
        stage: PipelineStage::Classify,
        kind: AuditKind::Classification,
        outcome: AuditOutcome::Created,
        detail: AuditDetail::new(),
        occurred_at: Timestamp::from_millis(at),
    })
}

#[test]
fn a_tracks_events_come_back_oldest_first() {
    let mut log = InMemoryAuditLog::new();
    log.record(event(1, Some(1), 300));
    log.record(event(2, None, 100));
    log.record(event(3, Some(1), 100));
    log.record(event(4, Some(2), 50));
    log.record(event(5, Some(1), 300));
    let ids: Vec<Uuid> = log
        .events_for_track(TrackId::from_uuid(Uuid::from_u128(1)))
        .iter()
        .map(|e| e.id().as_uuid())
        .collect();
    assert_eq!(ids, vec![Uuid::from_u128(3), Uuid::from_u128(1), Uuid::from_u128(5)]);
    assert_eq!(log.all().len(), 5);
}

#[test]
fn settings_store_returns_defaults_until_saved() {
    let mut settings = InMemorySettingsRepository::new();
    assert_eq!(settings.load().confidence_threshold().value(), 600);
    let saved = Settings::new(ConfidenceThreshold::new(800).unwrap(), true, ExportMode::Both);
    settings.save(saved);
    assert_eq!(settings.load(), saved);
    assert_eq!(saved.with_download_enabled(false).download_enabled(), false);
    assert_eq!(
        saved.with_confidence_threshold(threshold()).confidence_threshold().value(),
        600
    );
}

fn classified(seed: u128, per_mille: u16) -> Track {
    track_with(seed, &format!("sc:{seed}"))
        .assigned_auto(CrateId::from_uuid(Uuid::from_u128(100)), Confidence::new(per_mille).unwrap())
}

/// A track auto-filed at `per_mille`, paired with the decision behind it.
fn classified_entry(seed: u128, per_mille: u16) -> (Track, Option<ClassificationDecision>) {
    (classified(seed, per_mille), Some(decision(seed, 100, 500, Some(per_mille))))
}

#[test]
fn preview_splits_on_the_candidate_threshold_without_touching_anything() {
    let entries = vec![classified_entry(1, 900), classified_entry(2, 500)];
    let strict = split_for(&entries, ConfidenceThreshold::new(800).unwrap());
    assert_eq!((strict.auto, strict.manual), (1, 1));
    let lax = split_for(&entries, ConfidenceThreshold::new(400).unwrap());
    assert_eq!((lax.auto, lax.manual), (2, 0));
    assert_eq!(entries[1].0.status(), TrackStatus::AutoClassified, "preview must not re-route tracks");
}

#[test]
fn preview_counts_manually_decided_tracks_as_preserved_not_as_a_side() {
    let (track, latest) = classified_entry(1, 900);
    let entries = vec![(track.assigned_manual(CrateId::from_uuid(Uuid::from_u128(1))), latest)];
    let split = split_for(&entries, ConfidenceThreshold::new(1000).unwrap());
    assert_eq!(split, ThresholdSplit { auto: 0, manual: 0, preserved: 1 });
}

#[test]
fn an_unclassified_track_is_not_predicted_on_either_side() {
    let split = split_for(&[(track_with(1, "sc:1"), None)], threshold());
    assert_eq!(split, ThresholdSplit { auto: 0, manual: 0, preserved: 0 });
}

#[test]
fn applying_a_laxer_threshold_promotes_triaged_tracks_back_to_auto() {
    let triaged = track_with(1, "sc:1").sent_to_triage(Confidence::new(500).unwrap());
    let stored = decision(1, 100, 500, Some(500));
    let replay = replay_classification(&triaged, Some(&stored)).expect("a decision to replay");
    let routed = route(&triaged, &replay, ConfidenceThreshold::new(400).unwrap());
    assert_eq!(routed.outcome, RouteOutcome::Auto);
    assert_eq!(routed.track.crate_id(), Some(CrateId::from_uuid(Uuid::from_u128(100))));
    let split = tally(ThresholdSplit { auto: 0, manual: 0, preserved: 0 }, Some(routed.outcome));
    assert_eq!(split.auto, 1);
}

#[test]
fn a_human_pick_has_nothing_to_replay() {
    let t = track_with(1, "sc:1");
    assert!(replay_classification(&t, Some(&decision(1, 100, 500, None))).is_none());
    assert!(replay_classification(&t, None).is_none());
    assert_eq!(tally(ThresholdSplit { auto: 0, manual: 0, preserved: 0 }, None).manual, 0);
}

#[test]
fn a_preserved_decision_is_neither_stored_nor_audited() {
    let manual = track().assigned_manual(CrateId::from_uuid(Uuid::from_u128(99)));
    let (routed, detail) = route_effects(&manual, &classification(900), threshold());
    assert_eq!(routed.outcome, RouteOutcome::PreservedManual);
    assert!(detail.is_none());
    let (routed, detail) = route_effects(&track(), &classification(900), threshold());
    assert_eq!(routed.outcome, RouteOutcome::Auto);
    let detail = detail.expect("a routing to record");
    assert!(detail.entries().contains(&("status".into(), "auto_classified".into())));
}

#[test]
fn the_preview_predicts_what_committing_reroutes() {
    let (picked, _) = classified_entry(4, 900);
    let picked = picked.assigned_manual(CrateId::from_uuid(Uuid::from_u128(5)));
    let uncertain = with_tempo(classified(6, 900), 70, TempoAmbiguity::HalfOrDoubleTime);
    let entries = vec![
        classified_entry(1, 900),
        classified_entry(2, 500),
        (track_with(3, "sc:3"), None),
        (picked, Some(decision(4, 5, 600, None))),
        (uncertain, Some(decision(6, 100, 500, Some(900)))),
    ];
    let strict = ConfidenceThreshold::new(800).unwrap();
    let preview = split_for(&entries, strict);
    let mut committed = ThresholdSplit { auto: 0, manual: 0, preserved: 0 };
    for (track, latest) in &entries {
        let (outcome, _) = reroute(track, latest, strict);
        committed = tally(committed, outcome);
    }
    assert_eq!(preview, committed);
    let (whole, rerouted) = reroute_all(&entries, strict);
    assert_eq!(whole, preview);
    assert_eq!(rerouted.len(), entries.len());
    assert_eq!(preview, ThresholdSplit { auto: 1, manual: 2, preserved: 1 });
}

#[test]
fn committing_files_into_the_decisions_crate_or_sends_to_triage() {
    let strict = ConfidenceThreshold::new(800).unwrap();
    let (track, latest) = classified_entry(1, 900);
    let (outcome, effects) = reroute(&track.sent_to_triage(Confidence::new(900).unwrap()), &latest, strict);
    assert_eq!(outcome, Some(RouteOutcome::Auto));
    let (routed, detail) = effects.expect("a routing to store");
    assert_eq!(routed.track.crate_id(), Some(CrateId::from_uuid(Uuid::from_u128(100))));
    assert!(detail.entries().contains(&("threshold".into(), "0.800".into())));
    let (track, latest) = classified_entry(2, 500);
    let (outcome, effects) = reroute(&track, &latest, strict);
    assert_eq!(outcome, Some(RouteOutcome::Triage));
    assert_eq!(effects.expect("a routing to store").0.track.crate_id(), None);
    let manual = track.assigned_manual(CrateId::from_uuid(Uuid::from_u128(9)));
    let (outcome, effects) = reroute(&manual, &None, strict);
    assert_eq!(outcome, Some(RouteOutcome::PreservedManual));
    assert!(effects.is_none());
}
