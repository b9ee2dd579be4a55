use std::path::PathBuf;

use localtube::error::AppError;
use localtube::models::VideoMetadata;
use localtube::routes::{
    acquisition_time_left, content_range_value, escape_html, format_duration, health,
    origin_allowed, parse_range, plan_media_response, playable_media, render_player, status_label,
};
use localtube::session::{PlaybackSession, PlaybackStatus, Timestamp};

#[test]
fn parses_byte_ranges() {
    assert_eq!(parse_range("bytes=2-4", 10), Some((2, 4)));
    assert_eq!(parse_range("bytes=5-", 10), Some((5, 9)));
    assert_eq!(parse_range("bytes=-3", 10), Some((7, 9)));
}

#[test]
fn rejects_unsatisfiable_or_malformed_ranges() {
    assert_eq!(parse_range("bytes=2-4", 0), None);
    assert_eq!(parse_range("bytes=0-1,3-4", 10), None);
    assert_eq!(parse_range("bytes=10-", 10), None);
    assert_eq!(parse_range("bytes=5-2", 10), None);
    assert_eq!(parse_range("bytes=-", 10), None);
    assert_eq!(parse_range("items=0-1", 10), None);
    assert_eq!(parse_range("bytes=a-b", 10), None);
    assert_eq!(parse_range("bytes=5", 10), None);
}

#[test]
fn clips_ranges_to_the_media() {
    assert_eq!(parse_range("bytes=2-400", 10), Some((2, 9)));
    assert_eq!(parse_range("bytes=-400", 10), Some((0, 9)));
    assert_eq!(parse_range("bytes=+2-4", 10), Some((2, 4)));
    assert_eq!(parse_range("bytes=-0", 10), Some((10, 9)));
    assert_eq!(parse_range("bytes=3-4-5", 10), None);
}

#[test]
fn plans_media_responses() {
    let partial = plan_media_response(Some("bytes=2-4"), 10);
    assert_eq!((partial.start, partial.end, partial.partial, partial.content_length), (2, 4, true, 3));
    let whole = plan_media_response(None, 10);
    assert_eq!((whole.start, whole.end, whole.partial, whole.content_length), (0, 9, false, 10));
    let ignored = plan_media_response(Some("bytes=20-"), 10);
    assert_eq!((ignored.start, ignored.end, ignored.partial), (0, 9, false));
    let empty_file = plan_media_response(None, 0);
    assert_eq!((empty_file.start, empty_file.end, empty_file.content_length), (0, 0, 1));
    let empty_suffix = plan_media_response(Some("bytes=-0"), 10);
    assert_eq!(empty_suffix.content_length, 0);
}

#[test]
fn content_range_lists_start_end_and_length() {
    assert_eq!(content_range_value(2, 4, 10), "bytes 2-4/10");
}

#[test]
fn formats_durations() {
    assert_eq!(format_duration(0), "0:00");
    assert_eq!(format_duration(60), "1:00");
    assert_eq!(format_duration(65), "1:05");
    assert_eq!(format_duration(3599), "59:59");
    assert_eq!(format_duration(3600), "60:00");
}

#[test]
fn labels_statuses() {
    assert_eq!(status_label(PlaybackStatus::Queued), "Queued");
    assert_eq!(status_label(PlaybackStatus::Downloading), "Downloading");
    assert_eq!(status_label(PlaybackStatus::Processing), "Processing");
    assert_eq!(status_label(PlaybackStatus::Ready), "Ready");
    assert_eq!(status_label(PlaybackStatus::Playing), "Playing");
    assert_eq!(status_label(PlaybackStatus::Completed), "Completed");
    assert_eq!(status_label(PlaybackStatus::Failed), "Failed");
    assert_eq!(status_label(PlaybackStatus::Expired), "Expired");
}

#[test]
fn escapes_html() {
    assert_eq!(
        escape_html(r#"<a href="x">Tom & 'Jerry'</a>"#),
        "&lt;a href=&quot;x&quot;&gt;Tom &amp; &#39;Jerry&#39;&lt;/a&gt;"
    );
    assert_eq!(escape_html("plain"), "plain");
    let escaped = escape_html("<script>'\"");
    assert!(!escaped.contains('<') && !escaped.contains('"') && !escaped.contains('\''));
}

#[test]
fn renders_player_page() {
    let metadata = VideoMetadata {
        id: "demo".into(),
        title: "Test <Video>".into(),
        description: None,
        thumbnail_url: Some("https://img.example/t.jpg".into()),
        duration_seconds: Some(60),
    };
    let template = "<h1>{{TITLE}}</h1><p>{{DURATION}}</p><img src=\"{{THUMBNAIL}}\"><div>{{DESCRIPTION}}</div><video data-session=\"{{SESSION_ID}}\"></video>";
    let page = render_player(template, &metadata, 0xa1a2a3a4b1b2c1c2d1d2d3d4d5d6d7d8);
    assert_eq!(
        page,
        "<h1>Test &lt;Video&gt;</h1><p>1:00</p><img src=\"https://img.example/t.jpg\"><div></div><video data-session=\"a1a2a3a4-b1b2-c1c2-d1d2-d3d4d5d6d7d8\"></video>"
    );
    let unknown = VideoMetadata { duration_seconds: None, ..metadata };
    assert!(render_player("{{DURATION}}", &unknown, 0).contains("Unknown"));
}

#[test]
fn health_reports_ok() {
    assert_eq!(health().status, "ok");
}

#[test]
fn allows_extension_and_configured_origins_only() {
    let configured = vec!["https://trusted.example".to_string()];
    assert!(origin_allowed(b"moz-extension://development-uuid", &[]));
    assert!(origin_allowed(b"chrome-extension://abcdefghijklmnop", &[]));
    assert!(!origin_allowed(b"https://evil.example", &configured));
    assert!(origin_allowed(b"https://trusted.example", &configured));
    assert!(!origin_allowed(b"https://trusted.example.evil", &configured));
    assert!(!origin_allowed(b"moz-extension://\x80", &[]));
    let unusable = vec!["https://bad\x7f.example".to_string()];
    assert!(!origin_allowed(b"https://bad\x7f.example", &unusable));
}

#[test]
fn acquisition_budget_runs_out() {
    assert_eq!(acquisition_time_left(30, 10_000_000_000).unwrap(), 20_000_000_000);
    assert_eq!(acquisition_time_left(30, 30_000_000_000).unwrap(), 0);
    assert!(matches!(
        acquisition_time_left(30, 30_000_000_001),
        Err(AppError::MediaAcquisitionTimeout)
    ));
}

fn session(status: PlaybackStatus, media_path: Option<PathBuf>) -> PlaybackSession {
    let mut s = PlaybackSession::new_at(
        7,
        "demo".into(),
        VideoMetadata {
            id: "demo".into(),
            title: "Demo".into(),
            description: None,
            thumbnail_url: None,
            duration_seconds: None,
        },
        Timestamp { secs: 0, nanos: 0 },
    );
    s.status = status;
    s.media_path = media_path;
    s
}

#[test]
fn only_ready_sessions_serve_media() {
    let path = PathBuf::from("/tmp/cache/x/video.mp4");
    assert_eq!(
        playable_media(&session(PlaybackStatus::Ready, Some(path.clone()))).unwrap(),
        path
    );
    assert_eq!(
        playable_media(&session(PlaybackStatus::Playing, Some(path.clone()))).unwrap(),
        path
    );
    assert!(matches!(
        playable_media(&session(PlaybackStatus::Downloading, Some(path.clone()))),
        Err(AppError::MediaNotReady)
    ));
    assert!(matches!(
        playable_media(&session(PlaybackStatus::Ready, None)),
        Err(AppError::MediaNotReady)
    ));
}

#[test]
fn ended_sessions_serve_nothing() {
    let mut manager = localtube::session::SessionManager::new();
    let path = PathBuf::from("/tmp/cache/1/video.mp4");
    manager.create_at(1, "demo".into(), session(PlaybackStatus::Queued, None).metadata, Timestamp { secs: 0, nanos: 0 });
    manager
        .update_at(1, localtube::session::SessionUpdate::Ready(path.clone()), Timestamp { secs: 1, nanos: 0 })
        .unwrap();
    let ready = manager.get(1).unwrap();
    assert_eq!(playable_media(&ready).unwrap(), path);
    let completed = manager
        .update_at(1, localtube::session::SessionUpdate::Complete, Timestamp { secs: 2, nanos: 0 })
        .unwrap();
    assert!(matches!(playable_media(&completed), Err(AppError::MediaNotReady)));
    let expired = manager
        .update_at(1, localtube::session::SessionUpdate::Expire, Timestamp { secs: 3, nanos: 0 })
        .unwrap();
    assert!(matches!(playable_media(&expired), Err(AppError::MediaNotReady)));
}

#[test]
fn media_plans_stay_inside_the_file() {
    for (range, length) in [
        (None, 1_u64),
        (Some("bytes=0-"), 1),
        (Some("bytes=3-100"), 10),
        (Some("bytes=-100"), 10),
        (Some("bytes=-0"), 10),
        (Some("bytes=9-9"), 10),
        (Some("bytes=10-"), 10),
    ] {
        let plan = plan_media_response(range, length);
        assert!(plan.start + plan.content_length <= length);
        assert!(plan.end < length);
        assert_eq!(plan.content_length, plan.end + 1 - plan.start);
    }
}
