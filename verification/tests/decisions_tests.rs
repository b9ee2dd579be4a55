use std::path::PathBuf;
use std::time::Duration;

use localtube::cleanup::is_stale_cache_entry;
use localtube::error::AppError;
use localtube::media::check_media_file;
use localtube::models::{valid_video_id, VideoMetadata};
use localtube::routes::{origin_allowed, playable_media};
use localtube::session::{SessionManager, SessionUpdate, Timestamp};
use localtube::ytdlp::{execution_failure, CommandArg, YtDlpProvider};

#[test]
fn health_allows_firefox_extension_origin() {
    assert!(origin_allowed(b"moz-extension://development-uuid", &[]));
}

#[test]
fn health_allows_chromium_extension_origin() {
    assert!(origin_allowed(b"chrome-extension://abcdefghijklmnop", &[]));
}

#[test]
fn health_denies_arbitrary_web_origin() {
    assert!(!origin_allowed(b"https://evil.example", &[]));
}

#[test]
fn health_allows_explicitly_configured_origin() {
    let configured = vec!["https://trusted.example".to_string()];
    assert!(origin_allowed(b"https://trusted.example", &configured));
}

#[test]
fn watch_rejects_traversal() {
    assert!(!valid_video_id("../secret"));
    assert_eq!(AppError::InvalidVideoId.status_code(), 400);
}

#[test]
fn unknown_session_cannot_access_media() {
    let manager = SessionManager::new();
    let error = manager.get(0x1234).unwrap_err();
    assert!(matches!(error, AppError::SessionNotFound));
    assert_eq!(error.status_code(), 404);
}

fn metadata(id: &str) -> VideoMetadata {
    VideoMetadata {
        id: id.into(),
        title: "Test Video".into(),
        description: None,
        thumbnail_url: None,
        duration_seconds: Some(60),
    }
}

#[test]
fn sessions_only_serve_their_own_paths() {
    let mut manager = SessionManager::new();
    let now = Timestamp { secs: 100, nanos: 0 };
    let first = manager.create_at(1, "one".into(), metadata("one"), now);
    let second = manager.create_at(2, "two".into(), metadata("two"), now);
    let first_path = PathBuf::from("/tmp/localtube/1/video.mp4");
    let second_path = PathBuf::from("/tmp/localtube/2/video.mp4");
    manager
        .update_at(first.id, SessionUpdate::Ready(first_path.clone()), now)
        .unwrap();
    manager
        .update_at(second.id, SessionUpdate::Ready(second_path.clone()), now)
        .unwrap();
    assert_eq!(playable_media(&manager.get(first.id).unwrap()).unwrap(), first_path);
    assert_eq!(playable_media(&manager.get(second.id).unwrap()).unwrap(), second_path);
}

#[test]
fn rejects_empty_media_before_probing() {
    assert!(matches!(
        check_media_file(true, 0),
        Err(AppError::MediaProcessingFailed(_))
    ));
}

#[test]
fn removes_stale_directories_only() {
    let age = Duration::from_millis(20).as_nanos();
    let timeout = Duration::from_millis(1).as_nanos();
    assert!(is_stale_cache_entry(true, age, timeout));
    assert!(!is_stale_cache_entry(false, age, timeout));
    assert!(!is_stale_cache_entry(true, timeout, timeout));
}

#[test]
fn missing_executable_is_reported() {
    assert!(matches!(
        execution_failure(true, "No such file or directory (os error 2)"),
        AppError::YtDlpNotInstalled
    ));
}

fn follows(args: &[CommandArg], flag: &str, value: &str) -> bool {
    args.windows(2).any(|pair| match (&pair[0], &pair[1]) {
        (CommandArg::Text(f), CommandArg::Text(v)) => f == flag && v == value,
        (CommandArg::Text(f), CommandArg::Path(p)) => f == flag && p == &PathBuf::from(value),
        _ => false,
    })
}

fn provider(cookies_from_browser: Option<&str>, cookies_file: Option<&str>) -> YtDlpProvider {
    YtDlpProvider::new(
        PathBuf::from("yt-dlp"),
        "https://www.youtube.com/watch?v={video_id}".into(),
        cookies_from_browser.map(String::from),
        cookies_file.map(PathBuf::from),
        Duration::from_secs(5),
    )
    .unwrap()
}

#[test]
fn metadata_uses_node_runtime_arg() {
    let p = provider(None, None).with_js_runtime("node".into());
    let source = p.source_url("demo").unwrap();
    assert!(follows(&p.metadata_args(&source), "--js-runtimes", "node"));
}

#[test]
fn metadata_uses_cookies_from_browser_arg() {
    let p = provider(Some("firefox"), None);
    let source = p.source_url("demo").unwrap();
    assert!(follows(&p.metadata_args(&source), "--cookies-from-browser", "firefox"));
}

#[test]
fn metadata_uses_cookies_file_arg() {
    let p = provider(None, Some("/tmp/localtube-cookies.txt"));
    let source = p.source_url("demo").unwrap();
    assert!(follows(&p.metadata_args(&source), "--cookies", "/tmp/localtube-cookies.txt"));
}
