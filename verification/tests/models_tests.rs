use localtube::models::{valid_video_id, ProgressReport, AcquisitionStage, VideoMetadata};

#[test]
fn validates_safe_identifiers() {
    assert!(valid_video_id("demo-video_01"));
    assert!(!valid_video_id(""));
    assert!(!valid_video_id("../secret"));
    assert!(!valid_video_id("https://example.com/video"));
    assert!(!valid_video_id(&"a".repeat(129)));
}

#[test]
fn identifier_length_and_alphabet_edges() {
    assert!(valid_video_id(&"a".repeat(128)));
    assert!(valid_video_id("-"));
    assert!(!valid_video_id("dé"));
    assert!(!valid_video_id("a b"));
    assert!(!valid_video_id("a.b"));
}

#[test]
fn processing_report_carries_no_counters() {
    let report = ProgressReport::processing();
    assert_eq!(report.stage, AcquisitionStage::Processing);
    assert_eq!(report.percent_bits, None);
    assert_eq!(report.downloaded_bytes, None);
    assert_eq!(report.total_bytes, None);
    assert_eq!(report.speed_bits, None);
    assert_eq!(report.eta_seconds, None);
}

#[test]
fn metadata_copy_is_equal() {
    let metadata = VideoMetadata {
        id: "demo".into(),
        title: "Demo".into(),
        description: Some("about".into()),
        thumbnail_url: None,
        duration_seconds: Some(5),
    };
    let copy = metadata.duplicate();
    assert_eq!(copy.id, "demo");
    assert_eq!(copy.title, "Demo");
    assert_eq!(copy.description.as_deref(), Some("about"));
    assert_eq!(copy.thumbnail_url, None);
    assert_eq!(copy.duration_seconds, Some(5));
}
