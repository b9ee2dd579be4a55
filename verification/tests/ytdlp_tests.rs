use std::path::PathBuf;
use std::time::Duration;

use localtube::error::AppError;
use localtube::ytdlp::{
    execution_failure, metadata_failure, metadata_from_ytdlp, partial_artifact_names,
    progress_event, CommandArg, DiagnosticsLog, ProgressEvent, UrlParts, YtDlpMetadata,
    YtDlpProvider,
};
use localtube::models::ProgressReport;

fn texts(args: &[CommandArg]) -> Vec<String> {
    args.iter()
        .map(|a| match a {
            CommandArg::Text(s) => s.clone(),
            CommandArg::Path(p) => format!("path:{}", p.display()),
        })
        .collect()
}

#[test]
fn source_url_uses_template_and_validated_id() {
    let provider = YtDlpProvider::new(
        PathBuf::from("yt-dlp"),
        "https://www.youtube.com/watch?v={video_id}".into(),
        None,
        None,
        Duration::from_secs(5),
    )
    .unwrap();
    assert_eq!(
        provider.source_url("abc123").unwrap(),
        "https://www.youtube.com/watch?v=abc123"
    );
    assert!(provider.source_url("../bad").is_err());

    let base_form = YtDlpProvider::new(
        PathBuf::from("yt-dlp"),
        "https://www.youtube.com/watch?v=".into(),
        None,
        None,
        Duration::from_secs(5),
    )
    .unwrap();
    assert_eq!(
        base_form.source_url("abc123").unwrap(),
        "https://www.youtube.com/watch?v=abc123"
    );
}

#[test]
fn reject_conflicting_auth_configuration() {
    let result = YtDlpProvider::new(
        PathBuf::from("yt-dlp"),
        "https://www.youtube.com/watch?v={video_id}".into(),
        Some("firefox".into()),
        Some(PathBuf::from("cookies.txt")),
        Duration::from_secs(5),
    );
    assert!(matches!(result, Err(AppError::Configuration(_))));
}

#[test]
fn provider_records_trusted_scheme_and_host() {
    let provider = YtDlpProvider::new(
        PathBuf::from("yt-dlp"),
        "https://www.youtube.com/watch?v={video_id}".into(),
        None,
        None,
        Duration::from_secs(5),
    )
    .unwrap();
    assert_eq!(provider.trusted_scheme, "https");
    assert_eq!(provider.trusted_host, "www.youtube.com");
    assert!(provider.js_runtime.is_none());
}

#[test]
fn rejects_untrusted_templates() {
    for (template, expected) in [
        ("not a url {video_id}", "invalid LOCALTUBE_YOUTUBE_BASE_URL: relative URL without a base"),
        ("ftp://example.com/{video_id}", "LOCALTUBE_YOUTUBE_BASE_URL must use http or https"),
        ("data:text/plain,{video_id}", "LOCALTUBE_YOUTUBE_BASE_URL must include a host"),
    ] {
        match YtDlpProvider::new(PathBuf::from("yt-dlp"), template.into(), None, None, Duration::from_secs(1)) {
            Err(AppError::Configuration(message)) => assert_eq!(message, expected),
            other => panic!("unexpected {:?}", other),
        }
    }
}

#[test]
fn source_url_keeps_trusted_host() {
    let provider = YtDlpProvider::new(
        PathBuf::from("yt-dlp"),
        "https://{video_id}.example.com/watch".into(),
        None,
        None,
        Duration::from_secs(5),
    )
    .unwrap();
    assert_eq!(provider.trusted_host, "demo.example.com");
    assert!(matches!(
        provider.source_url("other"),
        Err(AppError::YtDlpMetadataFailed(m)) if m == "source URL host/scheme mismatch"
    ));
    assert_eq!(provider.source_url("demo").unwrap(), "https://demo.example.com/watch");
    assert!(matches!(provider.source_url(""), Err(AppError::InvalidVideoId)));
}

#[test]
fn builds_command_lines() {
    let provider = YtDlpProvider::new(
        PathBuf::from("yt-dlp"),
        "https://www.youtube.com/watch?v={video_id}".into(),
        None,
        Some(PathBuf::from("/tmp/localtube-cookies.txt")),
        Duration::from_secs(5),
    )
    .unwrap()
    .with_js_runtime("node".into());
    assert_eq!(
        texts(&provider.metadata_args("https://www.youtube.com/watch?v=demo")),
        vec![
            "--ignore-config",
            "--dump-single-json",
            "--skip-download",
            "--ignore-no-formats-error",
            "--no-playlist",
            "--js-runtimes",
            "node",
            "--cookies",
            "path:/tmp/localtube-cookies.txt",
            "https://www.youtube.com/watch?v=demo",
        ]
    );
    let args = texts(&provider.acquisition_args("https://x.example/v", &PathBuf::from("/tmp/out/video.mp4")));
    assert_eq!(args.len(), 13 + 4 + 3);
    assert_eq!(args[5], "download:localtube:download:%(progress)j");
    assert_eq!(&args[17..], &["-o", "path:/tmp/out/video.mp4", "https://x.example/v"]);

    let browser = YtDlpProvider::new(
        PathBuf::from("yt-dlp"),
        "https://www.youtube.com/watch?v={video_id}".into(),
        Some("firefox".into()),
        None,
        Duration::from_secs(5),
    )
    .unwrap();
    assert_eq!(texts(&browser.auth_args()), vec!["--cookies-from-browser", "firefox"]);
}

#[test]
fn classifies_metadata_failures() {
    assert!(matches!(metadata_failure("ERROR: Unsupported URL: x"), AppError::MetadataUnavailable));
    assert!(matches!(metadata_failure("Video unavailable"), AppError::MetadataUnavailable));
    assert!(matches!(metadata_failure("unable to extract uploader"), AppError::MetadataUnavailable));
    assert!(matches!(
        metadata_failure("ERROR: Requested format is not available"),
        AppError::YtDlpMetadataFailed(m) if m == "yt-dlp format selection failed; ensure custom yt-dlp config is compatible"
    ));
    assert!(matches!(
        metadata_failure("failed"),
        AppError::YtDlpMetadataFailed(m) if m == "yt-dlp could not fetch metadata"
    ));
}

#[test]
fn classifies_execution_failures() {
    assert!(matches!(execution_failure(true, "x"), AppError::YtDlpNotInstalled));
    assert!(matches!(
        execution_failure(false, "permission denied"),
        AppError::YtDlpExecutionFailed(m) if m == "unable to execute yt-dlp: permission denied"
    ));
}

fn parsed(id: Option<&str>, title: Option<&str>) -> YtDlpMetadata {
    YtDlpMetadata {
        id: id.map(str::to_string),
        title: title.map(str::to_string),
        description: Some("d".into()),
        duration_seconds: Some(5),
        thumbnail: None,
    }
}

#[test]
fn checks_ytdlp_metadata() {
    let m = metadata_from_ytdlp("demo", parsed(Some("demo"), Some("Demo"))).unwrap();
    assert_eq!(m.id, "demo");
    assert_eq!(m.title, "Demo");
    assert_eq!(m.duration_seconds, Some(5));
    assert_eq!(m.description.as_deref(), Some("d"));
    let m = metadata_from_ytdlp("demo", parsed(None, Some("Demo"))).unwrap();
    assert_eq!(m.id, "demo");
    assert!(matches!(
        metadata_from_ytdlp("demo", parsed(Some("other"), Some("Demo"))),
        Err(AppError::YtDlpMetadataFailed(m)) if m == "yt-dlp metadata id mismatch"
    ));
    assert!(matches!(
        metadata_from_ytdlp("demo", parsed(Some("other"), None)),
        Err(AppError::YtDlpMetadataFailed(m)) if m == "yt-dlp metadata missing title"
    ));
}

#[test]
fn reads_progress_lines() {
    match progress_event(r#"localtube:download:{"downloaded_bytes":512,"total_bytes_estimate":1024}"#) {
        Some(ProgressEvent::Downloading(value)) => {
            assert_eq!(value["downloaded_bytes"].as_u64(), Some(512));
        }
        other => panic!("unexpected {:?}", other),
    }
    assert!(matches!(
        progress_event(r#"localtube:processing:{"status":"started"}"#),
        Some(ProgressEvent::Processing(_))
    ));
    assert!(progress_event("localtube:download:{bad json").is_none());
    assert!(progress_event("localtube:processing:").is_none());
    assert!(progress_event("[download] 43.2% of 10MiB at 2MiB/s ETA 00:03").is_none());
    assert!(progress_event("unrelated diagnostic").is_none());
}

#[test]
fn diagnostics_stop_at_sixteen_kib() {
    let mut log = DiagnosticsLog::new();
    log.record("first");
    log.record("second");
    assert_eq!(log.text(), "first\nsecond\n");
    let long = "x".repeat(16_380);
    log.record(&long);
    let kept = log.text().len();
    assert_eq!(kept, 13 + 16_381);
    log.record("dropped");
    assert_eq!(log.text().len(), kept);
}

#[test]
fn names_partial_artifacts() {
    assert_eq!(
        partial_artifact_names("video.mp4"),
        vec!["video.mp4.part".to_string(), "video.mp4.ytdl".to_string()]
    );
}

#[test]
fn processing_event_clears_stale_download_values() {
    match progress_event(r#"localtube:processing:{"status":"started"}"#).unwrap() {
        ProgressEvent::Processing(progress) => assert_eq!(progress, ProgressReport::processing()),
        other => panic!("unexpected {:?}", other),
    }
}

#[test]
fn malformed_and_human_progress_are_ignored() {
    assert!(progress_event("localtube:download:{bad json").is_none());
    assert!(progress_event("[download] 43.2% of 10MiB at 2MiB/s ETA 00:03").is_none());
    assert!(progress_event("unrelated diagnostic").is_none());
}

fn parts(scheme: &str, host: Option<&str>) -> UrlParts {
    UrlParts {
        scheme: scheme.to_string(),
        host: host.map(|h| h.to_string()),
        serialization: String::new(),
        path: String::new(),
    }
}

#[test]
fn parsed_templates_decide_the_trusted_source() {
    let provider = YtDlpProvider::from_parsed_template(
        PathBuf::from("yt-dlp"),
        "https://videos.example/{video_id}".to_string(),
        Ok(parts("https", Some("videos.example"))),
        None,
        None,
    )
    .unwrap();
    assert_eq!(provider.trusted_scheme, "https");
    assert_eq!(provider.trusted_host, "videos.example");
    assert_eq!(provider.youtube_base_url, "https://videos.example/{video_id}");
    assert!(matches!(
        YtDlpProvider::from_parsed_template(PathBuf::from("yt-dlp"), "x".to_string(), Ok(parts("https", None)), None, None),
        Err(AppError::Configuration(m)) if m == "LOCALTUBE_YOUTUBE_BASE_URL must include a host"
    ));
    assert!(matches!(
        YtDlpProvider::from_parsed_template(PathBuf::from("yt-dlp"), "x".to_string(), Ok(parts("file", Some("h"))), None, None),
        Err(AppError::Configuration(m)) if m == "LOCALTUBE_YOUTUBE_BASE_URL must use http or https"
    ));
    assert!(matches!(
        YtDlpProvider::from_parsed_template(PathBuf::from("yt-dlp"), "x".to_string(), Err("bad".to_string()), None, None),
        Err(AppError::Configuration(m)) if m == "invalid LOCALTUBE_YOUTUBE_BASE_URL: bad"
    ));
}

#[test]
fn parsed_sources_must_keep_scheme_and_host() {
    let provider = YtDlpProvider::new(
        PathBuf::from("yt-dlp"),
        "https://www.youtube.com/watch?v={video_id}".into(),
        None,
        None,
        Duration::from_secs(5),
    )
    .unwrap();
    assert_eq!(
        provider.check_source("s".to_string(), Ok(parts("https", Some("www.youtube.com")))).unwrap(),
        "s"
    );
    assert!(matches!(
        provider.check_source("s".to_string(), Ok(parts("http", Some("www.youtube.com")))),
        Err(AppError::YtDlpMetadataFailed(m)) if m == "source URL host/scheme mismatch"
    ));
    assert!(matches!(
        provider.check_source("s".to_string(), Ok(parts("https", Some("evil.example")))),
        Err(AppError::YtDlpMetadataFailed(m)) if m == "source URL host/scheme mismatch"
    ));
    assert!(matches!(
        provider.check_source("s".to_string(), Err("oops".to_string())),
        Err(AppError::YtDlpMetadataFailed(m)) if m == "invalid source URL: oops"
    ));
}
