use std::path::PathBuf;

use localtube::error::AppError;
use localtube::models::{AcquisitionStage, ProgressReport, VideoMetadata};
use localtube::session::{
    session_dir_name, PlaybackSession, PlaybackStatus, SessionManager, SessionUpdate, Timestamp,
};

fn metadata() -> VideoMetadata {
    VideoMetadata {
        id: "demo".into(),
        title: "Demo".into(),
        description: None,
        thumbnail_url: None,
        duration_seconds: None,
    }
}

fn at(secs: i64) -> Timestamp {
    Timestamp { secs, nanos: 0 }
}

#[test]
fn creates_and_finds_sessions() {
    let mut manager = SessionManager::default();
    let session = manager.create("demo".into(), metadata());
    assert_eq!(manager.get(session.id).unwrap().video_id, "demo");
}

#[test]
fn detects_expiration() {
    let now = at(1_700_000_031);
    let mut session = PlaybackSession::new("demo".into(), metadata());
    session.last_activity = at(1_700_000_000);
    assert!(session.is_expired(30, now));
}

#[test]
fn expiration_needs_strictly_more_than_the_timeout() {
    let mut session = PlaybackSession::new_at(1, "demo".into(), metadata(), at(100));
    assert!(!session.is_expired(30, at(130)));
    assert!(session.is_expired(30, Timestamp { secs: 130, nanos: 1 }));
    session.last_activity = at(200);
    assert!(!session.is_expired(0, at(100)));
}

#[test]
fn new_sessions_are_queued_and_distinct() {
    let a = PlaybackSession::new("demo".into(), metadata());
    let b = PlaybackSession::new("demo".into(), metadata());
    assert_ne!(a.id, b.id);
    assert_eq!(a.status, PlaybackStatus::Queued);
    assert_eq!(a.created_at, a.last_activity);
    assert!(a.created_at.secs > 1_600_000_000);
    assert!(a.media_path.is_none() && a.progress.is_none() && a.error.is_none());
}

#[test]
fn unknown_sessions_are_not_found() {
    let mut manager = SessionManager::new();
    assert!(matches!(manager.get(5), Err(AppError::SessionNotFound)));
    assert!(matches!(
        manager.update_at(5, SessionUpdate::Touch, at(1)),
        Err(AppError::SessionNotFound)
    ));
    assert!(manager.remove(5).is_none());
}

#[test]
fn lifecycle_follows_updates() {
    let mut manager = SessionManager::new();
    let s = manager.create_at(9, "demo".into(), metadata(), at(10));
    assert_eq!(s.id, 9);

    let s = manager.update_at(9, SessionUpdate::MarkPlaying, at(11)).unwrap();
    assert_eq!(s.status, PlaybackStatus::Queued);
    assert_eq!(s.last_activity, at(11));

    let s = manager.update_at(9, SessionUpdate::BeginDownload, at(12)).unwrap();
    assert_eq!(s.status, PlaybackStatus::Downloading);

    let report = ProgressReport {
        stage: AcquisitionStage::Downloading,
        percent_bits: Some(50.0f64.to_bits()),
        downloaded_bytes: Some(5),
        total_bytes: Some(10),
        speed_bits: None,
        eta_seconds: Some(3),
    };
    let s = manager.update_at(9, SessionUpdate::Progress(report), at(13)).unwrap();
    assert_eq!(s.progress, Some(report));

    let s = manager.update_at(9, SessionUpdate::BeginValidation, at(14)).unwrap();
    assert_eq!(s.status, PlaybackStatus::Processing);
    assert_eq!(s.progress, Some(ProgressReport::processing()));

    let path = PathBuf::from("/tmp/cache/9/video.mp4");
    let s = manager.update_at(9, SessionUpdate::Ready(path.clone()), at(15)).unwrap();
    assert_eq!(s.status, PlaybackStatus::Ready);
    assert_eq!(s.media_path, Some(path));
    assert_eq!(s.progress, None);

    let s = manager.update_at(9, SessionUpdate::Progress(report), at(16)).unwrap();
    assert_eq!(s.status, PlaybackStatus::Ready);
    assert_eq!(s.progress, None);

    let s = manager.update_at(9, SessionUpdate::MarkPlaying, at(17)).unwrap();
    assert_eq!(s.status, PlaybackStatus::Playing);

    let s = manager.update_at(9, SessionUpdate::Complete, at(18)).unwrap();
    assert_eq!(s.status, PlaybackStatus::Completed);
    assert_eq!(manager.get(9).unwrap().last_activity, at(18));
    assert_eq!(manager.get(9).unwrap().created_at, at(10));

    assert_eq!(manager.remove(9).unwrap().status, PlaybackStatus::Completed);
    assert!(matches!(manager.get(9), Err(AppError::SessionNotFound)));
}

#[test]
fn failure_clears_media_and_records_message() {
    let mut manager = SessionManager::new();
    manager.create_at(1, "demo".into(), metadata(), at(0));
    manager
        .update_at(1, SessionUpdate::Ready(PathBuf::from("/tmp/x")), at(1))
        .unwrap();
    let s = manager.update_at(1, SessionUpdate::Fail, at(2)).unwrap();
    assert_eq!(s.status, PlaybackStatus::Failed);
    assert_eq!(s.media_path, None);
    assert_eq!(s.error.as_deref(), Some("The media could not be acquired."));
    let s = manager.update_at(1, SessionUpdate::Expire, at(3)).unwrap();
    assert_eq!(s.status, PlaybackStatus::Expired);
}

#[test]
fn updates_touch_only_their_session() {
    let mut manager = SessionManager::new();
    manager.create_at(1, "one".into(), metadata(), at(0));
    manager.create_at(2, "two".into(), metadata(), at(0));
    manager.update_at(1, SessionUpdate::BeginDownload, at(5)).unwrap();
    let other = manager.get(2).unwrap();
    assert_eq!(other.status, PlaybackStatus::Queued);
    assert_eq!(other.last_activity, at(0));
}

#[test]
fn lists_exactly_the_expired_sessions() {
    let mut manager = SessionManager::new();
    manager.create_at(1, "old".into(), metadata(), at(0));
    manager.create_at(2, "fresh".into(), metadata(), at(90));
    manager.create_at(3, "older".into(), metadata(), at(10));
    let mut expired: Vec<u128> = manager.expired_at(30, at(100)).iter().map(|s| s.id).collect();
    expired.sort();
    assert_eq!(expired, vec![1, 3]);
    manager.update_at(1, SessionUpdate::Touch, at(100)).unwrap();
    let expired: Vec<u128> = manager.expired_at(30, at(100)).iter().map(|s| s.id).collect();
    assert_eq!(expired, vec![3]);
    assert!(manager.expired(30).len() <= 3);
}

#[test]
fn session_directory_names_are_hyphenated_uuids() {
    assert_eq!(session_dir_name(0), "00000000-0000-0000-0000-000000000000");
    assert_eq!(
        session_dir_name(0xa1a2a3a4b1b2c1c2d1d2d3d4d5d6d7d8),
        "a1a2a3a4-b1b2-c1c2-d1d2-d3d4d5d6d7d8"
    );
    assert_eq!(
        session_dir_name(u128::MAX),
        "ffffffff-ffff-ffff-ffff-ffffffffffff"
    );
}
