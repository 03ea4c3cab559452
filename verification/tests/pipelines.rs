//! The use cases run end to end over the in-memory stores and stubs, step by step as the
//! orchestrating layer drives them.

use crate_sorter::application::audit_recorder::{stamped_event, RecordParams};
use crate_sorter::application::ports::audio_downloader::{DownloadError, DownloadedAudio};
use crate_sorter::application::ports::crate_repository::CrateSpec;
use crate_sorter::application::ports::likes_source::{LikesSourceError, LikesSourcePort};
use crate_sorter::application::testkit::in_memory_audit_log::InMemoryAuditLog;
use crate_sorter::application::testkit::in_memory_crate_repository::InMemoryCrateRepository;
use crate_sorter::application::testkit::in_memory_decision_repository::InMemoryDecisionRepository;
use crate_sorter::application::testkit::in_memory_settings_repository::InMemorySettingsRepository;
use crate_sorter::application::testkit::in_memory_track_repository::InMemoryTrackRepository;
use crate_sorter::application::testkit::seq_id_provider::SeqIdProvider;
use crate_sorter::application::testkit::stub_audio_analyzer::StubAudioAnalyzer;
use crate_sorter::application::testkit::stub_audio_downloader::StubAudioDownloader;
use crate_sorter::application::testkit::stub_likes_source::StubLikesSource;
use crate_sorter::application::use_cases::adjust_threshold::{
    reroute, tally, ThresholdSplit,
};
use crate_sorter::application::use_cases::analyze_audio::{
    analysis_result, no_audio_result, AnalyzeOutcome,
};
use crate_sorter::application::use_cases::analyze_library::{
    record_analysis, record_download, record_refinement, AnalyzeLibrarySummary,
};
use crate_sorter::application::use_cases::apply_manual_decision::{
    apply_triage, ApplyManualDecisionError, TriageAction, TriagedTrack,
};
use crate_sorter::application::use_cases::classify_track::{
    classification_for, crate_spec_for, decide_genre_from_metadata, energy_role_for,
};
use crate_sorter::application::use_cases::deduplicate_library::deduplicate;
use crate_sorter::application::use_cases::download_audio::{
    download_step, fetch_result, result_detail, skip_detail, DownloadOutcome, DownloadStep,
    SkipReason,
};
use crate_sorter::application::use_cases::route_to_triage::{route_effects, RouteOutcome};
use crate_sorter::application::use_cases::scan_likes::{record_scanned, start_summary, ScanError, ScanSummary};
use crate_sorter::domain::audit::{
    AuditDetail, AuditEventId, AuditKind, AuditOutcome, PipelineStage, RunId,
};
use crate_sorter::domain::classification::{
    ClassificationDecision, ClassificationReason, DecisionId, DecisionSource, NewDecision,
};
use crate_sorter::domain::confidence::{Confidence, ConfidenceThreshold};
use crate_sorter::domain::crate_::{CrateId, CrateOrigin, EnergyRole};
use crate_sorter::domain::timestamp::Timestamp;
use crate_sorter::domain::track::{LikedTrack, Track, TrackId, TrackStatus};
use uuid::Uuid;

const DEST: &str = "/downloads";

fn liked(source_id: &str) -> LikedTrack {
    LikedTrack {
        source_track_id: source_id.to_owned(),
        title: "t".into(),
        artist: "a".into(),
        source_genre: Some("House".into()),
        duration_ms: 240_000,
        permalink_url: "https://sc/x".into(),
        artwork_url: None,
    }
}

fn track(seed: u128, source_id: &str) -> Track {
    Track::from_scan(TrackId::from_uuid(Uuid::from_u128(seed)), liked(source_id))
}

/// The stores, the stubs, and the files on disk one library run works against.
struct Library {
    tracks: InMemoryTrackRepository,
    crates: InMemoryCrateRepository,
    decisions: InMemoryDecisionRepository,
    settings: InMemorySettingsRepository,
    audit: InMemoryAuditLog,
    ids: SeqIdProvider,
    downloader: StubAudioDownloader,
    analyzer: StubAudioAnalyzer,
    on_disk: Vec<String>,
}

impl Library {
    fn new(downloader: StubAudioDownloader, analyzer: StubAudioAnalyzer, download_enabled: bool) -> Self {
        let mut settings = InMemorySettingsRepository::new();
        let defaults = settings.load();
        settings.save(defaults.with_download_enabled(download_enabled));
        Self {
            tracks: InMemoryTrackRepository::new(),
            crates: InMemoryCrateRepository::new(),
            decisions: InMemoryDecisionRepository::new(),
            settings,
            audit: InMemoryAuditLog::new(),
            ids: SeqIdProvider::new(),
            downloader,
            analyzer,
            on_disk: Vec::new(),
        }
    }

    fn fresh_id(&mut self) -> Uuid {
        Uuid::from_u128(1_000 + self.ids.next_id())
    }

    fn record(&mut self, track: &Track, stage: PipelineStage, kind: AuditKind, outcome: AuditOutcome, detail: AuditDetail) {
        let id = AuditEventId::from_uuid(self.fresh_id());
        let params = RecordParams {
            run_id: RunId::from_uuid(Uuid::nil()),
            track_id: Some(track.id()),
            stage,
            kind,
            outcome,
            detail,
        };
        self.audit.record(stamped_event(params, id, Timestamp::from_millis(1_000)));
    }

    /// One track through the download step.
    fn download(&mut self, track: &Track) -> DownloadOutcome {
        let enabled = self.settings.load().download_enabled();
        let usable = enabled
            && track.local_audio_path().is_some_and(|path| self.on_disk.iter().any(|f| f == path));
        match download_step(enabled, usable) {
            DownloadStep::Skip(reason) => {
                self.record(track, PipelineStage::Download, AuditKind::DownloadResult, AuditOutcome::Failed, skip_detail(reason));
                DownloadOutcome::Skipped(reason)
            }
            DownloadStep::AlreadyPresent => {
                self.record(track, PipelineStage::Download, AuditKind::DownloadResult, AuditOutcome::Completed, result_detail(None));
                DownloadOutcome::AlreadyPresent(track.clone())
            }
            DownloadStep::Fetch => {
                let fetched: Result<DownloadedAudio, DownloadError> = self.downloader.attempt().map(|()| {
                    DownloadedAudio { path: format!("{DEST}/{}", StubAudioDownloader::file_name(track)) }
                });
                if let Ok(audio) = &fetched {
                    self.on_disk.push(audio.path.clone());
                }
                let (outcome, audit, detail) = fetch_result(track, fetched);
                if let DownloadOutcome::Downloaded(downloaded) = &outcome {
                    self.tracks.upsert(downloaded).unwrap();
                }
                self.record(track, PipelineStage::Download, AuditKind::DownloadResult, audit, detail);
                outcome
            }
        }
    }

    /// One track through the analysis step.
    fn analyze(&mut self, track: &Track) -> AnalyzeOutcome {
        let (outcome, audit, detail) = match track.local_audio_path() {
            None => no_audio_result(),
            Some(path) => analysis_result(track, self.analyzer.analyze(path)),
        };
        if let AnalyzeOutcome::Analyzed(analyzed) = &outcome {
            self.tracks.upsert(analyzed).unwrap();
        }
        self.record(track, PipelineStage::Analyze, AuditKind::AnalyzeResult, audit, detail);
        outcome
    }

    /// Classifies a track by its source tag and routes it against `threshold`.
    fn refile(&mut self, track: &Track, threshold: ConfidenceThreshold) -> RouteOutcome {
        let decision = decide_genre_from_metadata(track).expect("the source tag names the genre");
        let role = energy_role_for(track, decision.reason);
        let fresh = CrateId::from_uuid(self.fresh_id());
        let crate_ = self.crates.find_or_create(&crate_spec_for(&decision, role), fresh);
        let classification = classification_for(&decision, role, crate_.id());
        let (routed, detail) = route_effects(track, &classification, threshold);
        if let Some(detail) = detail {
            self.tracks.upsert(&routed.track).unwrap();
            self.record(track, PipelineStage::Classify, AuditKind::Classification, AuditOutcome::Completed, detail);
        }
        routed.outcome
    }

    /// Download, analyze and re-file every track.
    fn analyze_library(&mut self) -> AnalyzeLibrarySummary {
        let threshold = self.settings.load().confidence_threshold();
        let mut summary = AnalyzeLibrarySummary::default();
        let tracks = self.tracks.list_all();
        let total = tracks.len();
        for (index, track) in tracks.into_iter().enumerate() {
            let outcome = self.download(&track);
            let Some(with_audio) = record_download(&mut summary, outcome, total - index - 1) else {
                if summary.halted.is_some() {
                    break;
                }
                continue;
            };
            let outcome = self.analyze(&with_audio);
            let Some(analyzed) = record_analysis(&mut summary, outcome) else {
                continue;
            };
            let outcome = self.refile(&analyzed, threshold);
            record_refinement(&mut summary, outcome);
        }
        summary
    }

    /// Seeds a track auto-filed into a House crate at `per_mille`, with the decision behind it.
    fn seed_classified(&mut self, seed: u128, per_mille: u16) -> CrateId {
        let spec = CrateSpec { genre: "House".into(), role: None, origin: CrateOrigin::Auto };
        let fresh = CrateId::from_uuid(self.fresh_id());
        let crate_id = self.crates.find_or_create(&spec, fresh).id();
        let confidence = Confidence::new(per_mille).unwrap();
        let filed = track(seed, &format!("sc:{seed}")).assigned_auto(crate_id, confidence);
        self.tracks.upsert(&filed).unwrap();
        self.decisions.record(ClassificationDecision::new(NewDecision {
            id: DecisionId::from_uuid(Uuid::from_u128(seed + 500)),
            track_id: filed.id(),
            crate_id,
            source: DecisionSource::Auto,
            confidence: Some(confidence),
            reason: ClassificationReason::GenreFromSourceTag,
            alternatives: Vec::new(),
            decided_at: Timestamp::from_millis(500),
        }));
        crate_id
    }

    /// Commits `threshold` and re-routes every track by replaying its latest decision.
    fn apply_threshold(&mut self, threshold: ConfidenceThreshold) -> ThresholdSplit {
        let current = self.settings.load();
        self.settings.save(current.with_confidence_threshold(threshold));
        let mut split = ThresholdSplit { auto: 0, manual: 0, preserved: 0 };
        for track in self.tracks.list_all() {
            let latest = self.decisions.find_latest_for_track(track.id());
            let (outcome, effects) = reroute(&track, &latest, threshold);
            if let Some((routed, _)) = effects {
                self.tracks.upsert(&routed.track).unwrap();
            }
            split = tally(split, outcome);
        }
        split
    }

    /// Applies a human triage action to a track.
    fn triage(&mut self, track_id: TrackId, action: TriageAction) -> Result<TriagedTrack, ApplyManualDecisionError> {
        let ids = (
            RunId::from_uuid(Uuid::nil()),
            AuditEventId::from_uuid(self.fresh_id()),
            DecisionId::from_uuid(self.fresh_id()),
            CrateId::from_uuid(self.fresh_id()),
        );
        apply_triage(
            &mut self.tracks,
            &mut self.crates,
            &mut self.decisions,
            &mut self.audit,
            track_id,
            &action,
            ids,
            Timestamp::from_millis(2_000),
        )
    }

    /// Returns every deferred track to the triage queue, counting them.
    fn resume_deferred(&mut self) -> usize {
        let deferred = self.tracks.list_deferred();
        for track in &deferred {
            self.tracks.upsert(&track.returned_to_triage()).unwrap();
        }
        deferred.len()
    }
}

/// One scan of `source` into `tracks`.
fn scan(source: &StubLikesSource, tracks: &mut InMemoryTrackRepository, ids: &mut SeqIdProvider) -> Result<ScanSummary, ScanError> {
    let user = source.resolve_user("https://soundcloud.com/u1").map_err(ScanError::Source)?;
    let liked = source.list_likes(&user).map_err(ScanError::Source)?;
    let (deduped, _) = deduplicate(liked);
    let mut summary = start_summary(&deduped);
    for like in deduped.unique {
        let existing = tracks.find_by_source_id(&like.source_track_id);
        let (counted, import) = record_scanned(summary, &existing);
        summary = counted;
        if import {
            let id = TrackId::from_uuid(Uuid::from_u128(ids.next_id()));
            tracks.upsert(&Track::from_scan(id, like)).unwrap();
        }
    }
    Ok(summary)
}

#[test]
fn scans_dedups_and_persists_new_tracks() {
    let source = StubLikesSource::with_likes("u1".into(), vec![liked("sc:1"), liked("sc:2"), liked("sc:1")]);
    let mut tracks = InMemoryTrackRepository::new();
    let summary = scan(&source, &mut tracks, &mut SeqIdProvider::new()).unwrap();
    assert_eq!(summary.liked_total, 3);
    assert_eq!(summary.duplicates_collapsed, 1);
    assert_eq!(summary.new_tracks, 2);
    assert_eq!(summary.already_in_library, 0);
    let stored = tracks.list_all();
    assert_eq!(stored.len(), 2);
    assert!(stored.iter().all(|t| matches!(t.status(), TrackStatus::Scanned)));
}

#[test]
fn re_running_imports_nothing_new() {
    let source = StubLikesSource::with_likes("u1".into(), vec![liked("sc:1"), liked("sc:2")]);
    let mut tracks = InMemoryTrackRepository::new();
    let mut ids = SeqIdProvider::new();
    scan(&source, &mut tracks, &mut ids).unwrap();
    let second = scan(&source, &mut tracks, &mut ids).unwrap();
    assert_eq!(second.new_tracks, 0);
    assert_eq!(second.already_in_library, 2);
    assert_eq!(tracks.list_all().len(), 2);
}

#[test]
fn missing_profile_is_reported() {
    let source = StubLikesSource::profile_not_found();
    let result = scan(&source, &mut InMemoryTrackRepository::new(), &mut SeqIdProvider::new());
    assert!(matches!(result, Err(ScanError::Source(LikesSourceError::ProfileNotFound))));
}

#[test]
fn opt_in_downloads_and_persists_the_path() {
    let mut lib = Library::new(StubAudioDownloader::available(), StubAudioAnalyzer::typical(), true);
    let outcome = lib.download(&track(1, "sc:1"));
    let DownloadOutcome::Downloaded(downloaded) = outcome else {
        panic!("expected a download, got {outcome:?}");
    };
    let path = downloaded.local_audio_path().expect("path").to_owned();
    assert!(lib.on_disk.contains(&path));
    let stored = lib.tracks.find_by_id(track(1, "sc:1").id()).expect("persisted");
    assert!(stored.local_audio_path().is_some());
}

#[test]
fn unavailable_track_is_a_reported_skip_not_an_error() {
    let mut lib = Library::new(StubAudioDownloader::unavailable(), StubAudioAnalyzer::typical(), true);
    let outcome = lib.download(&track(1, "sc:1"));
    assert_eq!(outcome, DownloadOutcome::Skipped(SkipReason::Unavailable));
    let events = lib.audit.events_for_track(track(1, "sc:1").id());
    assert_eq!(events.len(), 1);
    assert_eq!(events[0].outcome(), AuditOutcome::Failed);
}

#[test]
fn a_recorded_path_to_a_missing_file_is_re_downloaded() {
    let mut lib = Library::new(StubAudioDownloader::available(), StubAudioAnalyzer::typical(), true);
    let ghost = track(1, "sc:1").downloaded(format!("{DEST}/deleted-by-the-user.mp3"));
    let outcome = lib.download(&ghost);
    assert!(matches!(outcome, DownloadOutcome::Downloaded(_)));
    assert_eq!(lib.downloader.call_count(), 1);
}

#[test]
fn analysis_leaves_a_human_decided_track_where_the_human_put_it() {
    let mut lib = Library::new(StubAudioDownloader::available(), StubAudioAnalyzer::typical(), true);
    let crate_id = CrateId::from_uuid(Uuid::from_u128(9));
    let decided = track(1, "sc:1").downloaded(format!("{DEST}/sc:1.mp3")).assigned_manual(crate_id);
    let outcome = lib.analyze(&decided);
    let AnalyzeOutcome::Analyzed(analyzed) = outcome else {
        panic!("expected an analysis");
    };
    assert_eq!(analyzed.status(), TrackStatus::ManuallyDecided);
    assert_eq!(analyzed.crate_id(), Some(crate_id));
    assert_eq!(analyzed.bpm(), Some(128), "it is still analyzed");
}

#[test]
fn enriches_and_refiles_the_library() {
    let mut lib = Library::new(StubAudioDownloader::available(), StubAudioAnalyzer::typical(), true);
    lib.tracks.upsert(&track(1, "sc:1")).unwrap();
    let summary = lib.analyze_library();
    assert_eq!(summary.downloaded, 1);
    assert_eq!(summary.analyzed, 1);
    assert_eq!(summary.refined, 1);
    let stored = lib.tracks.list_all();
    assert_eq!(stored[0].bpm(), Some(128));
    assert_eq!(stored[0].status(), TrackStatus::AutoClassified);
    let crates = lib.crates.list();
    assert_eq!(crates[0].energy_role(), Some(EnergyRole::Peak));
}

#[test]
fn without_opt_in_nothing_is_downloaded_or_analyzed() {
    let mut lib = Library::new(StubAudioDownloader::available(), StubAudioAnalyzer::typical(), false);
    lib.tracks.upsert(&track(1, "sc:1")).unwrap();
    let summary = lib.analyze_library();
    assert_eq!(summary.halted, Some(SkipReason::DownloadDisabled));
    assert_eq!(summary.analyzed, 0);
    assert_eq!(lib.downloader.call_count(), 0);
    assert_eq!(lib.analyzer.call_count(), 0);
}

#[test]
fn an_uncertain_tempo_sends_the_track_to_triage() {
    let mut lib = Library::new(StubAudioDownloader::available(), StubAudioAnalyzer::uncertain_tempo(), true);
    lib.tracks.upsert(&track(1, "sc:1")).unwrap();
    let summary = lib.analyze_library();
    assert_eq!(summary.sent_to_triage, 1);
    assert_eq!(summary.refined, 0);
    assert_eq!(lib.tracks.list_in_triage().len(), 1);
}

#[test]
fn a_human_decided_track_is_analyzed_but_never_moved() {
    let mut lib = Library::new(StubAudioDownloader::available(), StubAudioAnalyzer::typical(), true);
    let crate_id = CrateId::from_uuid(Uuid::from_u128(500));
    lib.tracks.upsert(&track(1, "sc:1").assigned_manual(crate_id)).unwrap();
    let summary = lib.analyze_library();
    assert_eq!(summary.preserved_manual, 1);
    assert_eq!(summary.refined, 0);
    let stored = lib.tracks.list_all();
    assert_eq!(stored[0].status(), TrackStatus::ManuallyDecided);
    assert_eq!(stored[0].crate_id(), Some(crate_id), "the human's crate stands");
    assert_eq!(stored[0].bpm(), Some(128), "it still gained its measurements");
}

#[test]
fn applying_a_stricter_threshold_persists_it_and_reroutes_to_triage() {
    let mut lib = Library::new(StubAudioDownloader::available(), StubAudioAnalyzer::typical(), false);
    lib.seed_classified(1, 900);
    lib.seed_classified(2, 500);
    let split = lib.apply_threshold(ConfidenceThreshold::new(800).unwrap());
    assert_eq!(split.auto, 1);
    assert_eq!(split.manual, 1);
    assert_eq!(lib.settings.load().confidence_threshold(), ConfidenceThreshold::new(800).unwrap());
    let demoted = lib.tracks.find_by_id(TrackId::from_uuid(Uuid::from_u128(2))).unwrap();
    assert_eq!(demoted.status(), TrackStatus::InTriage);
}

#[test]
fn a_manually_decided_track_survives_any_threshold_change() {
    let mut lib = Library::new(StubAudioDownloader::available(), StubAudioAnalyzer::typical(), false);
    let crate_id = lib.seed_classified(1, 900);
    let decided = track(1, "sc:1").assigned_manual(crate_id);
    lib.tracks.upsert(&decided).unwrap();
    let split = lib.apply_threshold(ConfidenceThreshold::new(1000).unwrap());
    assert_eq!(split.preserved, 1);
    assert_eq!(split.manual, 0);
    let reloaded = lib.tracks.find_by_id(decided.id()).unwrap();
    assert_eq!(reloaded.status(), TrackStatus::ManuallyDecided);
    assert_eq!(reloaded.crate_id(), Some(crate_id));
}

#[test]
fn picking_an_existing_crate_preserves_its_original_origin() {
    let mut lib = Library::new(StubAudioDownloader::available(), StubAudioAnalyzer::typical(), false);
    let queued = track(1, "sc:1").sent_to_triage(Confidence::new(300).unwrap());
    lib.tracks.upsert(&queued).unwrap();
    let spec = CrateSpec { genre: "House".into(), role: None, origin: CrateOrigin::Auto };
    let fresh = CrateId::from_uuid(Uuid::from_u128(77));
    let existing = lib.crates.find_or_create(&spec, fresh).id();
    lib.triage(queued.id(), TriageAction::AssignToCrate(existing)).unwrap();
    let crate_ = lib.crates.find_by_id(existing).unwrap();
    assert_eq!(crate_.created_by(), CrateOrigin::Auto);
}

#[test]
fn an_unknown_track_is_reported_not_silently_ignored() {
    let mut lib = Library::new(StubAudioDownloader::available(), StubAudioAnalyzer::typical(), false);
    let error = lib
        .triage(TrackId::from_uuid(Uuid::from_u128(1)), TriageAction::Defer)
        .expect_err("unknown track rejected");
    assert!(matches!(error, ApplyManualDecisionError::TrackNotFound));
}

#[test]
fn resuming_preserves_the_tracks_confidence() {
    let mut lib = Library::new(StubAudioDownloader::available(), StubAudioAnalyzer::typical(), false);
    lib.tracks
        .upsert(&track(1, "sc:1").sent_to_triage(Confidence::new(350).unwrap()).deferred())
        .unwrap();
    assert_eq!(lib.resume_deferred(), 1);
    let resumed = lib.tracks.list_in_triage();
    assert_eq!(resumed[0].status(), TrackStatus::InTriage);
    assert_eq!(resumed[0].confidence().map(|c| c.value()), Some(350));
}

#[test]
fn resuming_an_empty_deferred_list_is_a_no_op() {
    let mut lib = Library::new(StubAudioDownloader::available(), StubAudioAnalyzer::typical(), false);
    assert_eq!(lib.resume_deferred(), 0);
}

#[test]
fn minted_ids_count_up_from_one() {
    let mut ids = SeqIdProvider::new();
    assert_eq!(ids.new_id(), Uuid::from_u128(1));
    assert_eq!(ids.new_id(), Uuid::from_u128(2));
    assert_eq!(ids.next_id(), 3);
    assert_eq!(ids.new_id().to_string(), "00000000-0000-0000-0000-000000000004");
}

#[test]
fn an_id_and_its_uuid_convert_both_ways() {
    let u = Uuid::from_u128(0x1234_5678_9abc_def0_1122_3344_5566_7788);
    assert_eq!(TrackId::from_uuid(u).as_uuid(), u);
    assert_eq!(CrateId::from_uuid(u).as_uuid(), u);
    assert_eq!(DecisionId::from_uuid(u).as_uuid(), u);
    assert_eq!(RunId::from_uuid(u).as_uuid(), u);
    assert_eq!(AuditEventId::from_uuid(u).as_uuid(), u);
    let t = TrackId::from_uuid(u);
    assert_eq!(TrackId::from_uuid(t.as_uuid()), t);
    assert_ne!(TrackId::from_uuid(Uuid::from_u128(1)), TrackId::from_uuid(Uuid::from_u128(2)));
}

#[test]
fn a_missing_tool_halts_the_run_after_one_attempt() {
    let mut lib = Library::new(StubAudioDownloader::tool_missing(), StubAudioAnalyzer::typical(), true);
    for seed in 1..=5u128 {
        lib.tracks.upsert(&track(seed, &format!("sc:{seed}"))).unwrap();
    }
    let summary = lib.analyze_library();
    assert_eq!(summary.halted, Some(SkipReason::ToolMissing));
    assert_eq!(lib.downloader.call_count(), 1, "it kept trying");
    assert_eq!(summary.analyzed, 0);
    assert_eq!(summary.skipped, 5, "every track ended the run without features");
}

#[test]
fn a_refused_triage_action_writes_nothing() {
    let mut lib = Library::new(StubAudioDownloader::available(), StubAudioAnalyzer::typical(), false);
    let queued = track(1, "sc:1").sent_to_triage(Confidence::new(300).unwrap());
    lib.tracks.upsert(&queued).unwrap();
    let dangling = lib.triage(queued.id(), TriageAction::AssignToCrate(CrateId::from_uuid(Uuid::from_u128(999))));
    assert!(matches!(dangling, Err(ApplyManualDecisionError::CrateNotFound)));
    let unsuggested = lib.triage(queued.id(), TriageAction::AcceptSuggestion);
    assert!(matches!(unsuggested, Err(ApplyManualDecisionError::NoSuggestion)));
    assert_eq!(lib.tracks.find_by_id(queued.id()).unwrap().status(), TrackStatus::InTriage);
    assert!(lib.crates.list().is_empty());
    assert!(lib.decisions.is_empty());
    assert!(lib.audit.all().is_empty());

    let filed = lib.triage(queued.id(), TriageAction::CreateCrate { genre: "Techno".into() }).unwrap();
    assert_eq!(filed.track.status(), TrackStatus::ManuallyDecided);
    assert_eq!(lib.crates.list()[0].created_by(), CrateOrigin::Manual);
    assert_eq!(lib.decisions.len(), 1);
    assert_eq!(lib.audit.all().len(), 1);
}
