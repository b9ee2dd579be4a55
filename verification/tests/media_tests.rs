use std::path::PathBuf;
use std::time::Duration;

use localtube::cleanup::is_stale_cache_entry;
use localtube::error::AppError;
use localtube::fixture::{fixture_media_reply, fixture_metadata_reply, FixtureMediaReply, FixtureMetadataReply};
use localtube::media::{
    candidate_file_names, check_fixture_base, check_fixture_media_status,
    check_fixture_metadata, check_fixture_metadata_status, check_media_file, check_probe,
    directory_path, fallback_title, fixture_media_request_failure,
    fixture_metadata_request_failure, local_metadata, DownloadCounter, HttpFixtureProvider,
    LocalFileProvider, ProbeFormat, ProbeResult, ProbeStream, ProbeTags, probe_args, remux_args,
};
use localtube::ytdlp::UrlParts;
use localtube::models::VideoMetadata;

#[test]
fn constructs_only_safe_fixture_paths() {
    let provider = HttpFixtureProvider::new(
        "http://127.0.0.1:6970/api/",
        Duration::from_secs(1),
        Duration::from_secs(1),
    )
    .unwrap();
    assert_eq!(
        provider.endpoint("metadata", "demo-1").unwrap().as_str(),
        "http://127.0.0.1:6970/api/metadata/demo-1"
    );
    assert!(provider.endpoint("media", "../secret").is_err());
    assert!(provider.endpoint("media", "https://evil.example").is_err());
}

#[test]
fn fixture_base_url_must_be_http_with_host() {
    assert!(HttpFixtureProvider::new("https://fixture.example", Duration::from_secs(1), Duration::from_secs(2)).is_ok());
    assert!(matches!(
        HttpFixtureProvider::new("ftp://fixture.example", Duration::from_secs(1), Duration::from_secs(1)),
        Err(AppError::Configuration(m)) if m == "fixture base URL must be an absolute HTTP(S) URL"
    ));
    assert!(matches!(
        HttpFixtureProvider::new("127.0.0.1:6970", Duration::from_secs(1), Duration::from_secs(1)),
        Err(AppError::Configuration(m)) if m == "invalid fixture base URL: relative URL without a base"
    ));
}

#[test]
fn fixture_base_url_is_normalized() {
    let provider = HttpFixtureProvider::new(
        "http://127.0.0.1:6970/api?token=1#top",
        Duration::from_secs(3),
        Duration::from_secs(30),
    )
    .unwrap();
    assert_eq!(provider.base_url(), "http://127.0.0.1:6970/api/");
    assert_eq!(provider.connect_timeout(), Duration::from_secs(3));
    assert_eq!(provider.request_timeout(), Duration::from_secs(30));
    assert_eq!(
        provider.endpoint("media", "demo").unwrap(),
        "http://127.0.0.1:6970/api/media/demo"
    );
    let root = HttpFixtureProvider::new("http://127.0.0.1:6970", Duration::from_secs(1), Duration::from_secs(1)).unwrap();
    assert_eq!(root.base_url(), "http://127.0.0.1:6970/");
    assert_eq!(
        root.endpoint("metadata", "demo").unwrap(),
        "http://127.0.0.1:6970/metadata/demo"
    );
}

fn parts(scheme: &str, host: Option<&str>, serialization: &str, path: &str) -> UrlParts {
    UrlParts {
        scheme: scheme.to_string(),
        host: host.map(|h| h.to_string()),
        serialization: serialization.to_string(),
        path: path.to_string(),
    }
}

#[test]
fn parsed_fixture_base_is_checked() {
    assert_eq!(
        check_fixture_base(Ok(parts("https", Some("f.example"), "https://f.example/x", "/x"))).unwrap(),
        "https://f.example/x"
    );
    assert!(matches!(
        check_fixture_base(Ok(parts("http", None, "http:/x", "/x"))),
        Err(AppError::Configuration(m)) if m == "fixture base URL must be an absolute HTTP(S) URL"
    ));
    assert!(matches!(
        check_fixture_base(Err("empty host".to_string())),
        Err(AppError::Configuration(m)) if m == "invalid fixture base URL: empty host"
    ));
}

#[test]
fn base_paths_end_with_a_slash() {
    assert_eq!(directory_path("/api"), Some("/api/".to_string()));
    assert_eq!(directory_path(""), Some("/".to_string()));
    assert_eq!(directory_path("/api/"), None);
    assert_eq!(directory_path("/"), None);
}

#[test]
fn local_provider_keeps_its_root() {
    let provider = LocalFileProvider::new(PathBuf::from("media"));
    assert_eq!(provider.root(), &PathBuf::from("media"));
}

#[test]
fn local_sources_are_tried_by_extension() {
    assert_eq!(
        candidate_file_names("demo"),
        vec!["demo.mp4", "demo.webm", "demo.mkv", "demo.mov"]
    );
}

#[test]
fn local_metadata_falls_back_to_identifier() {
    assert_eq!(fallback_title("my-demo_video"), "my demo video");
    let probe = ProbeResult { format: None, streams: vec![] };
    let m = local_metadata("my-demo", probe, Some(3));
    assert_eq!(m.id, "my-demo");
    assert_eq!(m.title, "my demo");
    assert_eq!(m.description, None);
    assert_eq!(m.thumbnail_url, None);
    assert_eq!(m.duration_seconds, Some(3));

    let probe = ProbeResult {
        format: Some(ProbeFormat {
            duration: Some("2.5".into()),
            tags: Some(ProbeTags { title: Some("Tagged".into()), comment: Some("About".into()) }),
        }),
        streams: vec![],
    };
    let m = local_metadata("demo", probe, Some(3));
    assert_eq!(m.title, "Tagged");
    assert_eq!(m.description.as_deref(), Some("About"));
}

#[test]
fn validation_requires_nonempty_video() {
    assert!(check_media_file(true, 1).is_ok());
    assert!(matches!(check_media_file(true, 0), Err(AppError::MediaProcessingFailed(_))));
    assert!(matches!(check_media_file(false, 10), Err(AppError::MediaProcessingFailed(_))));
    let audio = ProbeResult { format: None, streams: vec![ProbeStream { codec_type: "audio".into() }] };
    assert!(!audio.has_video());
    assert!(matches!(check_probe(&audio), Err(AppError::UnsupportedMedia)));
    let video = ProbeResult {
        format: None,
        streams: vec![
            ProbeStream { codec_type: "audio".into() },
            ProbeStream { codec_type: "video".into() },
        ],
    };
    assert!(video.has_video());
    assert!(check_probe(&video).is_ok());
}

#[test]
fn fixture_statuses_map_to_errors() {
    assert!(check_fixture_metadata_status(200).is_ok());
    assert!(matches!(check_fixture_metadata_status(404), Err(AppError::MetadataUnavailable)));
    assert!(matches!(check_fixture_metadata_status(500), Err(AppError::MetadataUnavailable)));
    assert!(check_fixture_media_status(204).is_ok());
    assert!(matches!(
        check_fixture_media_status(404),
        Err(AppError::MediaAcquisitionFailed(m)) if m == "fixture media is unavailable"
    ));
    assert!(matches!(
        check_fixture_media_status(302),
        Err(AppError::MediaAcquisitionFailed(m)) if m == "fixture server returned an unsuccessful response"
    ));
    assert!(matches!(fixture_metadata_request_failure(true), AppError::MediaAcquisitionTimeout));
    assert!(matches!(fixture_metadata_request_failure(false), AppError::MetadataUnavailable));
    assert!(matches!(fixture_media_request_failure(true), AppError::MediaAcquisitionTimeout));
    assert!(matches!(fixture_media_request_failure(false), AppError::MediaAcquisitionFailed(_)));
}

#[test]
fn fixture_metadata_must_match_request() {
    let meta = |id: &str, title: &str| VideoMetadata {
        id: id.into(),
        title: title.into(),
        description: None,
        thumbnail_url: None,
        duration_seconds: None,
    };
    assert!(check_fixture_metadata("demo", &meta("demo", "Fixture")).is_ok());
    assert!(matches!(check_fixture_metadata("demo", &meta("other", "Fixture")), Err(AppError::MetadataUnavailable)));
    assert!(matches!(check_fixture_metadata("demo", &meta("demo", "  ")), Err(AppError::MetadataUnavailable)));
}

#[test]
fn empty_downloads_fail() {
    let mut counter = DownloadCounter::new();
    assert!(matches!(counter.finish(), Err(AppError::MediaProcessingFailed(m)) if m == "downloaded media is empty"));
    counter.record(4);
    counter.record(0);
    assert_eq!(counter.downloaded, 4);
    assert!(counter.finish().is_ok());
}

#[test]
fn stale_cache_entries_are_old_directories() {
    assert!(is_stale_cache_entry(true, 20_000_000, 1_000_000));
    assert!(!is_stale_cache_entry(false, 20_000_000, 1_000_000));
    assert!(!is_stale_cache_entry(true, 1_000_000, 1_000_000));
}

#[test]
fn fixture_server_answers_by_identifier() {
    assert_eq!(fixture_metadata_reply("demo"), FixtureMetadataReply::Demo);
    assert_eq!(fixture_metadata_reply("invalid-json"), FixtureMetadataReply::InvalidJson);
    assert_eq!(fixture_metadata_reply("server-error"), FixtureMetadataReply::ServerError);
    assert_eq!(fixture_metadata_reply("timeout"), FixtureMetadataReply::Timeout);
    assert_eq!(fixture_metadata_reply("missing"), FixtureMetadataReply::NotFound);
    assert_eq!(fixture_media_reply("demo"), FixtureMediaReply::Demo);
    assert_eq!(fixture_media_reply("empty"), FixtureMediaReply::Empty);
    assert_eq!(fixture_media_reply("invalid-media"), FixtureMediaReply::InvalidMedia);
    assert_eq!(fixture_media_reply("server-error"), FixtureMediaReply::ServerError);
    assert_eq!(fixture_media_reply("timeout"), FixtureMediaReply::Timeout);
    assert_eq!(fixture_media_reply("invalid-json"), FixtureMediaReply::NotFound);
}

fn arg_texts(args: &[localtube::ytdlp::CommandArg]) -> Vec<String> {
    args.iter()
        .map(|a| match a {
            localtube::ytdlp::CommandArg::Text(s) => s.clone(),
            localtube::ytdlp::CommandArg::Path(p) => format!("path:{}", p.display()),
        })
        .collect()
}

#[test]
fn remux_copies_streams_into_the_output() {
    let args = remux_args(&PathBuf::from("media/demo.mp4"), &PathBuf::from("cache/x/video.mp4"));
    assert_eq!(
        arg_texts(&args),
        vec![
            "-hide_banner", "-loglevel", "error", "-y", "-i", "path:media/demo.mp4", "-map",
            "0:v:0", "-map", "0:a:0?", "-c", "copy", "-movflags", "+faststart",
            "path:cache/x/video.mp4",
        ]
    );
}

#[test]
fn probe_reports_format_and_streams_as_json() {
    let args = probe_args(&PathBuf::from("cache/x/video.mp4"));
    assert_eq!(
        arg_texts(&args),
        vec!["-v", "error", "-show_format", "-show_streams", "-of", "json", "path:cache/x/video.mp4"]
    );
}

#[test]
fn fixture_media_is_synthesized_by_ffmpeg() {
    let args = localtube::fixture::fixture_media_args(&PathBuf::from("/tmp/demo.mp4"));
    let texts = arg_texts(&args);
    assert_eq!(texts.len(), 23);
    assert_eq!(texts[7], "testsrc=size=640x360:rate=30");
    assert_eq!(texts[13], "5");
    assert_eq!(texts[22], "path:/tmp/demo.mp4");
}
