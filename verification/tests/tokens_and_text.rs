use crate_sorter::domain::audit::{AuditDetail, AuditKind, AuditOutcome, PipelineStage};
use crate_sorter::domain::classification::{ClassificationReason, DecisionSource};
use crate_sorter::domain::crate_::{CrateOrigin, EnergyRole};
use crate_sorter::domain::settings::ExportMode;
use crate_sorter::text::{
    decimal_text, fixed3_text, is_blank, is_whitespace, join_commas, str_eq, str_lt,
};

#[test]
fn every_stage_kind_and_outcome_reads_back_from_its_token() {
    for stage in [
        PipelineStage::Scan,
        PipelineStage::Dedup,
        PipelineStage::Download,
        PipelineStage::Analyze,
        PipelineStage::Classify,
        PipelineStage::Triage,
        PipelineStage::Export,
    ] {
        assert_eq!(PipelineStage::from_token(stage.as_str()), Some(stage));
    }
    for kind in [
        AuditKind::RunLifecycle,
        AuditKind::Classification,
        AuditKind::TriageAction,
        AuditKind::DownloadResult,
        AuditKind::AnalyzeResult,
        AuditKind::DedupSkip,
        AuditKind::ExportResult,
    ] {
        assert_eq!(AuditKind::from_token(kind.as_str()), Some(kind));
    }
    for outcome in [
        AuditOutcome::Started,
        AuditOutcome::Completed,
        AuditOutcome::Created,
        AuditOutcome::Updated,
        AuditOutcome::SkippedDuplicate,
        AuditOutcome::SkippedNoAudio,
        AuditOutcome::Failed,
    ] {
        assert_eq!(AuditOutcome::from_token(outcome.as_str()), Some(outcome));
    }
    assert_eq!(PipelineStage::from_token("Scan"), None);
    assert_eq!(AuditKind::from_token(""), None);
    assert_eq!(AuditOutcome::from_token("skipped"), None);
    assert_eq!(AuditOutcome::SkippedNoAudio.as_str(), "skipped_no_audio");
}

#[test]
fn roles_origins_and_modes_read_back_from_their_tokens() {
    for role in [EnergyRole::Warmup, EnergyRole::Groove, EnergyRole::Peak, EnergyRole::Closing] {
        assert_eq!(EnergyRole::from_token(role.as_str()), Some(role));
    }
    assert_eq!(EnergyRole::Warmup.label(), "Warmup");
    assert_eq!(EnergyRole::from_token("Peak"), None);
    for origin in [CrateOrigin::Auto, CrateOrigin::Manual] {
        assert_eq!(CrateOrigin::from_token(origin.as_str()), Some(origin));
    }
    assert_eq!(CrateOrigin::from_token("human"), None);
    for mode in [ExportMode::Local, ExportMode::SoundCloud, ExportMode::Both] {
        assert_eq!(ExportMode::from_token(mode.as_str()), mode);
    }
    assert_eq!(ExportMode::from_token("usb"), ExportMode::Local, "unknown defaults to local");
    assert_eq!(DecisionSource::Manual.as_str(), "manual");
    assert_eq!(ClassificationReason::ClassifierUnavailable.as_str(), "classifier_unavailable");
    assert_eq!(ClassificationReason::LikelyNonMusic.as_str(), "likely_non_music");
}

#[test]
fn decimal_and_three_decimal_rendering() {
    assert_eq!(decimal_text(0), "0");
    assert_eq!(decimal_text(7), "7");
    assert_eq!(decimal_text(1_800_000), "1800000");
    assert_eq!(decimal_text(u64::MAX), u64::MAX.to_string());
    assert_eq!(fixed3_text(0), "0.000");
    assert_eq!(fixed3_text(5), "0.005");
    assert_eq!(fixed3_text(50), "0.050");
    assert_eq!(fixed3_text(950), "0.950");
    assert_eq!(fixed3_text(1000), "1.000");
    assert_eq!(fixed3_text(600), format!("{:.3}", 0.6f32));
}

#[test]
fn joining_and_comparing_text() {
    assert_eq!(join_commas(&[]), "");
    assert_eq!(join_commas(&["a".to_string()]), "a");
    assert_eq!(join_commas(&["a".to_string(), "b c".to_string(), "d".to_string()]), "a,b c,d");
    assert!(str_eq("peak", "peak"));
    assert!(!str_eq("peak", "peaks"));
    assert!(str_lt("a", "b"));
    assert!(str_lt("ab", "abc"));
    assert!(!str_lt("abc", "ab"));
    assert!(!str_lt("same", "same"));
    assert!(str_lt("Z", "a"));
    assert!(str_lt("é", "ê"));
}

#[test]
fn whitespace_matches_the_standard_library_everywhere() {
    for c in (0u32..=0x10FFFF).filter_map(char::from_u32) {
        assert_eq!(is_whitespace(c), c.is_whitespace(), "{c:?}");
    }
    assert!(is_blank(" \t\u{2003}"));
    assert!(is_blank(""));
    assert!(!is_blank(" x"));
}

#[test]
fn detail_keys_stay_sorted_and_unique() {
    let detail = AuditDetail::new()
        .with("status", "in_triage".into())
        .with("confidence", "0.200".into())
        .with("threshold", "0.600".into())
        .with("confidence", "0.250".into());
    let keys: Vec<&str> = detail.entries().iter().map(|(k, _)| k.as_str()).collect();
    assert_eq!(keys, vec!["confidence", "status", "threshold"]);
    assert!(detail.entries().contains(&("confidence".into(), "0.250".into())));
    assert!(!detail.is_empty());
    let copy = detail.clone();
    assert_eq!(copy.entries(), detail.entries());
}
