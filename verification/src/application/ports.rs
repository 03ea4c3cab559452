//! Data crossing the application's ports, and the ports that are plain synchronous calls.
pub mod audio_analyzer;
pub mod audio_downloader;
pub mod audit_log;
pub mod clock;
pub mod crate_repository;
pub mod genre_vibe_classifier;
pub mod likes_source;
pub mod playlist_publisher;
pub mod repo_error;
pub mod tag_writer;
