//! Plain data shared across the library: video metadata, acquisition
//! progress and video identifier validation.

use vstd::prelude::*;

use crate::text::{chars_of, is_ascii_alphanumeric, is_ascii_alphanumeric_char};

verus! {

/// Copies an optional string; the copy is equal to it.
pub fn copy_opt_string(s: &Option<String>) -> (r: Option<String>)
    ensures
        r == *s,
{
    match s {
        Some(v) => Some(v.clone()),
        None => None,
    }
}

/// What is known of a video before it is acquired.
#[derive(Debug)]
pub struct VideoMetadata {
    pub id: String,
    pub title: String,
    pub description: Option<String>,
    pub thumbnail_url: Option<String>,
    pub duration_seconds: Option<u64>,
}

impl VideoMetadata {
    /// A field-by-field copy.
    pub fn duplicate(&self) -> (r: Self)
        ensures
            r == *self,
    {
        VideoMetadata {
            id: self.id.clone(),
            title: self.title.clone(),
            description: copy_opt_string(&self.description),
            thumbnail_url: copy_opt_string(&self.thumbnail_url),
            duration_seconds: self.duration_seconds,
        }
    }
}

/// The phase an acquisition is in.
#[derive(Clone, Copy, Debug, PartialEq, Eq, Structural)]
pub enum AcquisitionStage {
    Downloading,
    Processing,
}

/// A progress report as a session records it.
///
/// The integer fields are the counters the acquisition reported.  The
/// completion percentage and the transfer speed are binary floating-point
/// values computed outside the library; they are carried here unchanged as
/// their IEEE-754 bit patterns (`f64::to_bits`) and never interpreted.
#[derive(Clone, Copy, Debug, PartialEq, Eq, Structural)]
pub struct ProgressReport {
    pub stage: AcquisitionStage,
    pub percent_bits: Option<u64>,
    pub downloaded_bytes: Option<u64>,
    pub total_bytes: Option<u64>,
    pub speed_bits: Option<u64>,
    pub eta_seconds: Option<u64>,
}

impl ProgressReport {
    pub open spec fn processing_spec() -> ProgressReport {
        ProgressReport {
            stage: AcquisitionStage::Processing,
            percent_bits: None,
            downloaded_bytes: None,
            total_bytes: None,
            speed_bits: None,
            eta_seconds: None,
        }
    }

    /// The report that marks the start of post-processing: it carries no
    /// download counters.
    pub fn processing() -> (r: ProgressReport)
        ensures
            r == Self::processing_spec(),
    {
        ProgressReport {
            stage: AcquisitionStage::Processing,
            percent_bits: None,
            downloaded_bytes: None,
            total_bytes: None,
            speed_bits: None,
            eta_seconds: None,
        }
    }
}

/// The query string of `/watch`.
#[derive(Debug)]
pub struct WatchQuery {
    pub v: String,
}

/// The body of `/health`.
#[derive(Debug)]
pub struct HealthResponse {
    pub status: &'static str,
}

pub open spec fn is_video_id_char(c: char) -> bool {
    is_ascii_alphanumeric(c) || c == '_' || c == '-'
}

/// A safe video identifier: 1 to 128 characters, each an ASCII letter or
/// digit, `_` or `-`.
pub open spec fn valid_video_id_spec(s: Seq<char>) -> bool {
    &&& 1 <= s.len() <= 128
    &&& forall|i: int| 0 <= i < s.len() ==> is_video_id_char(#[trigger] s[i])
}

/// Whether `value` is a safe video identifier.
///
/// The identifier may contain only ASCII characters, so its length in
/// characters is its length in bytes.
pub fn valid_video_id(value: &str) -> (r: bool)
    ensures
        r == valid_video_id_spec(value@),
{
    let chars = chars_of(value);
    if chars.len() < 1 || chars.len() > 128 {
        return false;
    }
    let mut i: usize = 0;
    while i < chars.len()
        invariant
            i <= chars.len(),
            chars@ == value@,
            forall|j: int| 0 <= j < i ==> is_video_id_char(#[trigger] chars@[j]),
        decreases chars.len() - i,
    {
        let c = chars[i];
        if !(is_ascii_alphanumeric_char(c) || c == '_' || c == '-') {
            assert(!is_video_id_char(chars@[i as int]));
            return false;
        }
        i = i + 1;
    }
    true
}

} // verus!
