//! The decisions behind the HTTP endpoints: byte ranges, the player page,
//! which sessions may serve media, cross-origin access and time budgets.

use std::path::PathBuf;

use vstd::prelude::*;
use vstd::utf8::encode_utf8;

use crate::error::AppError;
use crate::external::uuid_text_spec;
use crate::models::{HealthResponse, VideoMetadata};
use crate::session::{session_dir_name, PlaybackSession, PlaybackStatus};
use crate::text::{
    chars_of, decimal, owned, parse_u64_chars, parse_u64_seq, push_char, push_decimal, push_str,
    replace_seq, replace_str,
};

verus! {

// ---------------------------------------------------------------------
// Byte ranges
// ---------------------------------------------------------------------

/// `i` is the position of the first `c` in `s`.
pub open spec fn first_at(s: Seq<char>, c: char, i: int) -> bool {
    &&& 0 <= i < s.len()
    &&& s[i] == c
    &&& forall|j: int| 0 <= j < i ==> s[j] != c
}

pub open spec fn has_char(s: Seq<char>, c: char) -> bool {
    exists|i: int| 0 <= i < s.len() && s[i] == c
}

pub open spec fn min_u64(a: u64, b: u64) -> u64 {
    if a < b {
        a
    } else {
        b
    }
}

/// The byte range `start..=end` of a media file of `length` bytes that a
/// `Range: bytes=...` header selects, if it selects one: a single range, a
/// suffix (`-n`, the last `n` bytes), an open range (`a-`) or a closed one
/// (`a-b`, with `b` clipped to the end of the file).
pub open spec fn parse_range_spec(value: Seq<char>, length: u64) -> Option<(u64, u64)> {
    let prefix = "bytes="@;
    if !(prefix.len() <= value.len() && value.subrange(0, prefix.len() as int) == prefix) {
        None
    } else {
        let v = value.skip(prefix.len() as int);
        if has_char(v, ',') || length == 0 {
            None
        } else if !has_char(v, '-') {
            None
        } else {
            let k = choose|k: int| first_at(v, '-', k);
            let start = v.take(k);
            let end = v.skip(k + 1);
            if start.len() == 0 {
                match parse_u64_seq(end) {
                    Some(n) => {
                        let suffix = min_u64(n, length);
                        Some(((length - suffix) as u64, (length - 1) as u64))
                    },
                    None => None,
                }
            } else {
                match parse_u64_seq(start) {
                    Some(s) => if s >= length {
                        None
                    } else {
                        let e = if end.len() == 0 {
                            Some((length - 1) as u64)
                        } else {
                            match parse_u64_seq(end) {
                                Some(n) => Some(min_u64(n, (length - 1) as u64)),
                                None => None,
                            }
                        };
                        match e {
                            Some(e) => if s <= e {
                                Some((s, e))
                            } else {
                                None
                            },
                            None => None,
                        }
                    },
                    None => None,
                }
            }
        }
    }
}

/// The byte range a `Range` header selects in a file of `length` bytes.
pub fn parse_range(value: &str, length: u64) -> (r: Option<(u64, u64)>)
    ensures
        r == parse_range_spec(value@, length),
{
    let s = chars_of(value);
    let prefix = chars_of("bytes=");
    let plen = prefix.len();
    if plen > s.len() {
        return None;
    }
    let mut i: usize = 0;
    while i < plen
        invariant
            plen == prefix@.len(),
            plen <= s.len(),
            s@ == value@,
            prefix@ == "bytes="@,
            i <= plen,
            forall|j: int| 0 <= j < i ==> s@[j] == prefix@[j],
        decreases plen - i,
    {
        if s[i] != prefix[i] {
            assert(s@.subrange(0, plen as int)[i as int] != prefix@[i as int]);
            return None;
        }
        i = i + 1;
    }
    assert(s@.subrange(0, plen as int) =~= prefix@);
    let ghost v = s@.skip(plen as int);
    // Find the first ',' and the first '-' after the prefix.
    let mut comma = false;
    let mut dash: usize = s.len();
    let mut k: usize = plen;
    while k < s.len()
        invariant
            plen <= k <= s.len(),
            s@ == value@,
            v == s@.skip(plen as int),
            dash <= s.len(),
            comma <==> exists|j: int| plen <= j < k && s@[j] == ',',
            dash == s.len() ==> forall|j: int| plen <= j < k ==> s@[j] != '-',
            dash < s.len() ==> plen <= dash < k && s@[dash as int] == '-' && forall|j: int|
                plen <= j < dash ==> s@[j] != '-',
        decreases s.len() - k,
    {
        if s[k] == ',' {
            comma = true;
        }
        if s[k] == '-' && dash == s.len() {
            dash = k;
        }
        k = k + 1;
    }
    assert(comma <==> has_char(v, ',')) by {
        if comma {
            let j = choose|j: int| plen <= j < s.len() && s@[j] == ',';
            assert(v[j - plen] == ',');
        }
        if has_char(v, ',') {
            let j = choose|j: int| 0 <= j < v.len() && v[j] == ',';
            assert(s@[j + plen] == ',');
        }
    }
    if comma || length == 0 {
        return None;
    }
    if dash == s.len() {
        assert(!has_char(v, '-')) by {
            if has_char(v, '-') {
                let j = choose|j: int| 0 <= j < v.len() && v[j] == '-';
                assert(s@[j + plen] == '-');
            }
        }
        return None;
    }
    let ghost kk = (dash - plen) as int;
    assert forall|j: int| 0 <= j < kk implies v[j] != '-' by {
        assert(v[j] == s@[j + plen]);
    }
    assert(v[kk] == s@[dash as int]);
    assert(first_at(v, '-', kk));
    assert(has_char(v, '-'));
    assert(forall|k2: int| first_at(v, '-', k2) ==> k2 == kk) by {
        assert forall|k2: int| first_at(v, '-', k2) implies k2 == kk by {
            if k2 < kk {
                assert(v[k2] == '-');
            }
            if k2 > kk {
                assert(v[kk] == '-');
            }
        }
    }
    let ghost chosen = choose|k2: int| first_at(v, '-', k2);
    assert(chosen == kk);
    let start_chars = slice_chars(s.as_slice(), plen, dash);
    let end_chars = slice_chars(s.as_slice(), dash + 1, s.len());
    assert(start_chars@ =~= v.take(kk));
    assert(end_chars@ =~= v.skip(kk + 1));
    if start_chars.len() == 0 {
        match parse_u64_chars(end_chars.as_slice()) {
            Some(n) => {
                let suffix = if n < length {
                    n
                } else {
                    length
                };
                Some((length - suffix, length - 1))
            },
            None => None,
        }
    } else {
        match parse_u64_chars(start_chars.as_slice()) {
            Some(st) => {
                if st >= length {
                    return None;
                }
                let e = if end_chars.len() == 0 {
                    length - 1
                } else {
                    match parse_u64_chars(end_chars.as_slice()) {
                        Some(n) => if n < length - 1 {
                            n
                        } else {
                            length - 1
                        },
                        None => {
                            return None;
                        },
                    }
                };
                if st <= e {
                    Some((st, e))
                } else {
                    None
                }
            },
            None => None,
        }
    }
}

/// The characters `s[from..to]`.
fn slice_chars(s: &[char], from: usize, to: usize) -> (r: Vec<char>)
    requires
        from <= to <= s.len(),
    ensures
        r@ == s@.subrange(from as int, to as int),
{
    let mut r: Vec<char> = Vec::new();
    let mut i = from;
    while i < to
        invariant
            from <= i <= to,
            to <= s.len(),
            r@ == s@.subrange(from as int, i as int),
        decreases to - i,
    {
        r.push(s[i]);
        i = i + 1;
        assert(r@ =~= s@.subrange(from as int, i as int));
    }
    r
}

/// A selected range always lies within the file: it ends before `length`,
/// and it starts at most one byte past its end (the empty suffix `-0`).
pub proof fn lemma_range_within_file(value: Seq<char>, length: u64)
    ensures
        parse_range_spec(value, length) matches Some((s, e)) ==> e < length && s <= e + 1,
{
}

/// How the media endpoint answers: the byte range it sends, whether it is a
/// partial response, and the body length.
#[derive(Clone, Copy, Debug, PartialEq, Eq, Structural)]
pub struct MediaPlan {
    pub start: u64,
    pub end: u64,
    pub partial: bool,
    pub content_length: u64,
}

/// The answer to a media request for a file of `length` bytes: the range
/// the `Range` header selects, as a partial response; else the whole file
/// (for an empty file, its first byte).  The body holds the bytes from
/// `start` to `end`, both included.
pub open spec fn media_plan_spec(range: Option<Seq<char>>, length: u64) -> MediaPlan {
    let selected = match range {
        Some(v) => parse_range_spec(v, length),
        None => None,
    };
    match selected {
        Some((s, e)) => MediaPlan {
            start: s,
            end: e,
            partial: true,
            content_length: (e + 1 - s) as u64,
        },
        None => {
            let end: u64 = if length == 0 {
                0
            } else {
                (length - 1) as u64
            };
            MediaPlan { start: 0, end, partial: false, content_length: (end + 1) as u64 }
        },
    }
}

/// The answer to a media request for a file of `length` bytes: the
/// selected range with a partial response, or else the whole file.
pub fn plan_media_response(range: Option<&str>, length: u64) -> (r: MediaPlan)
    ensures
        r == media_plan_spec(
            match range {
                Some(v) => Some(v@),
                None => None,
            },
            length,
        ),
{
    let parsed = match range {
        Some(v) => parse_range(v, length),
        None => None,
    };
    match parsed {
        Some((start, end)) => {
            proof {
                lemma_range_within_file(range.unwrap()@, length);
            }
            MediaPlan { start, end, partial: true, content_length: end + 1 - start }
        },
        None => {
            let end = if length == 0 {
                0
            } else {
                length - 1
            };
            MediaPlan { start: 0, end, partial: false, content_length: end + 1 }
        },
    }
}

/// The `Content-Range` value `bytes start-end/length`.
pub fn content_range_value(start: u64, end: u64, length: u64) -> (r: String)
    ensures
        r@ == "bytes "@ + decimal(start as nat) + "-"@ + decimal(end as nat) + "/"@ + decimal(
            length as nat,
        ),
{
    let mut s = owned("bytes ");
    push_decimal(&mut s, start);
    push_str(&mut s, "-");
    push_decimal(&mut s, end);
    push_str(&mut s, "/");
    push_decimal(&mut s, length);
    s
}

// ---------------------------------------------------------------------
// Sessions and media
// ---------------------------------------------------------------------

/// Only a ready or playing session with acquired media serves it.
pub open spec fn serves_media(s: PlaybackSession) -> bool {
    (s.status == PlaybackStatus::Ready || s.status == PlaybackStatus::Playing) && s.media_path is Some
}

/// The media file of a session, if the session may serve it.
pub fn playable_media(session: &PlaybackSession) -> (r: Result<PathBuf, AppError>)
    ensures
        serves_media(*session) ==> r == Ok::<PathBuf, AppError>(session.media_path.unwrap()),
        !serves_media(*session) ==> (r matches Err(AppError::MediaNotReady)),
{
    if !(session.status == PlaybackStatus::Ready || session.status == PlaybackStatus::Playing) {
        return Err(AppError::MediaNotReady);
    }
    match &session.media_path {
        Some(p) => Ok(p.clone()),
        None => Err(AppError::MediaNotReady),
    }
}

/// The time left of an acquisition budget of `timeout_secs` seconds after
/// `elapsed_nanos` nanoseconds, or a timeout once it is used up.
pub fn acquisition_time_left(timeout_secs: u64, elapsed_nanos: u128) -> (r: Result<u128, AppError>)
    ensures
        elapsed_nanos <= timeout_secs * 1_000_000_000 ==> r == Ok::<u128, AppError>(
            (timeout_secs * 1_000_000_000 - elapsed_nanos) as u128,
        ),
        elapsed_nanos > timeout_secs * 1_000_000_000 ==> (r matches Err(
            AppError::MediaAcquisitionTimeout,
        )),
{
    let budget: u128 = (timeout_secs as u128) * 1_000_000_000;
    if elapsed_nanos > budget {
        Err(AppError::MediaAcquisitionTimeout)
    } else {
        Ok(budget - elapsed_nanos)
    }
}

// ---------------------------------------------------------------------
// Labels, durations and the player page
// ---------------------------------------------------------------------

pub open spec fn status_label_spec(status: PlaybackStatus) -> Seq<char> {
    match status {
        PlaybackStatus::Queued => "Queued"@,
        PlaybackStatus::Downloading => "Downloading"@,
        PlaybackStatus::Processing => "Processing"@,
        PlaybackStatus::Ready => "Ready"@,
        PlaybackStatus::Playing => "Playing"@,
        PlaybackStatus::Completed => "Completed"@,
        PlaybackStatus::Failed => "Failed"@,
        PlaybackStatus::Expired => "Expired"@,
    }
}

/// The label shown for a status.
pub fn status_label(status: PlaybackStatus) -> (r: &'static str)
    ensures
        r@ == status_label_spec(status),
{
    match status {
        PlaybackStatus::Queued => "Queued",
        PlaybackStatus::Downloading => "Downloading",
        PlaybackStatus::Processing => "Processing",
        PlaybackStatus::Ready => "Ready",
        PlaybackStatus::Playing => "Playing",
        PlaybackStatus::Completed => "Completed",
        PlaybackStatus::Failed => "Failed",
        PlaybackStatus::Expired => "Expired",
    }
}

/// `m:ss`: whole minutes, then the seconds in two digits.
pub open spec fn format_duration_spec(seconds: u64) -> Seq<char> {
    let m = seconds / 60;
    let s = seconds % 60;
    decimal(m as nat) + ":"@ + if s < 10 {
        "0"@ + decimal(s as nat)
    } else {
        decimal(s as nat)
    }
}

/// A duration in seconds as `m:ss`.
pub fn format_duration(seconds: u64) -> (r: String)
    ensures
        r@ == format_duration_spec(seconds),
{
    let mut out = String::new();
    push_decimal(&mut out, seconds / 60);
    push_str(&mut out, ":");
    let s = seconds % 60;
    if s < 10 {
        push_str(&mut out, "0");
    }
    push_decimal(&mut out, s);
    out
}

/// The HTML escape of one character.
pub open spec fn escape_char(c: char) -> Seq<char> {
    if c == '&' {
        "&amp;"@
    } else if c == '<' {
        "&lt;"@
    } else if c == '>' {
        "&gt;"@
    } else if c == '"' {
        "&quot;"@
    } else if c == '\'' {
        "&#39;"@
    } else {
        seq![c]
    }
}

/// HTML escaping: `& < > " '` each replaced by its character reference.
pub open spec fn escape_html_spec(s: Seq<char>) -> Seq<char>
    decreases s.len(),
{
    if s.len() == 0 {
        seq![]
    } else {
        escape_html_spec(s.drop_last()) + escape_char(s.last())
    }
}

/// The text `value` escaped for use in HTML.
pub fn escape_html(value: &str) -> (r: String)
    ensures
        r@ == escape_html_spec(value@),
{
    let v = chars_of(value);
    let mut out = String::new();
    let mut i: usize = 0;
    while i < v.len()
        invariant
            i <= v.len(),
            out@ == escape_html_spec(v@.take(i as int)),
        decreases v.len() - i,
    {
        let c = v[i];
        if c == '&' {
            push_str(&mut out, "&amp;");
        } else if c == '<' {
            push_str(&mut out, "&lt;");
        } else if c == '>' {
            push_str(&mut out, "&gt;");
        } else if c == '"' {
            push_str(&mut out, "&quot;");
        } else if c == '\'' {
            push_str(&mut out, "&#39;");
        } else {
            push_char(&mut out, c);
        }
        assert(v@.take(i + 1).drop_last() =~= v@.take(i as int));
        i = i + 1;
    }
    assert(v@.take(v.len() as int) =~= v@);
    out
}

/// The duration shown on the player page.
pub open spec fn duration_text(metadata: VideoMetadata) -> Seq<char> {
    match metadata.duration_seconds {
        Some(s) => format_duration_spec(s),
        None => "Unknown"@,
    }
}

pub open spec fn opt_text(v: Option<String>) -> Seq<char> {
    match v {
        Some(s) => s@,
        None => Seq::empty(),
    }
}

/// The player page: the template with its placeholders filled in, the
/// title and description escaped.
pub open spec fn player_page_spec(template: Seq<char>, m: VideoMetadata, id: u128) -> Seq<char> {
    let t1 = replace_seq(template, "{{TITLE}}"@, escape_html_spec(m.title@));
    let t2 = replace_seq(t1, "{{SESSION_ID}}"@, uuid_text_spec(id));
    let t3 = replace_seq(t2, "{{THUMBNAIL}}"@, opt_text(m.thumbnail_url));
    let t4 = replace_seq(t3, "{{DURATION}}"@, duration_text(m));
    replace_seq(t4, "{{DESCRIPTION}}"@, escape_html_spec(opt_text(m.description)))
}

fn text_or_empty(v: &Option<String>) -> (r: String)
    ensures
        r@ == opt_text(*v),
{
    match v {
        Some(s) => s.clone(),
        None => String::new(),
    }
}

/// Fills the player template for a session.
pub fn render_player(template: &str, metadata: &VideoMetadata, session_id: u128) -> (r: String)
    ensures
        r@ == player_page_spec(template@, *metadata, session_id),
{
    proof {
        reveal_strlit("{{TITLE}}");
        reveal_strlit("{{SESSION_ID}}");
        reveal_strlit("{{THUMBNAIL}}");
        reveal_strlit("{{DURATION}}");
        reveal_strlit("{{DESCRIPTION}}");
    }
    let duration = match metadata.duration_seconds {
        Some(s) => format_duration(s),
        None => owned("Unknown"),
    };
    let title = escape_html(metadata.title.as_str());
    let id = session_dir_name(session_id);
    let thumbnail = text_or_empty(&metadata.thumbnail_url);
    let description_raw = text_or_empty(&metadata.description);
    let description = escape_html(description_raw.as_str());
    let t1 = replace_str(template, "{{TITLE}}", title.as_str());
    let t2 = replace_str(t1.as_str(), "{{SESSION_ID}}", id.as_str());
    let t3 = replace_str(t2.as_str(), "{{THUMBNAIL}}", thumbnail.as_str());
    let t4 = replace_str(t3.as_str(), "{{DURATION}}", duration.as_str());
    replace_str(t4.as_str(), "{{DESCRIPTION}}", description.as_str())
}

/// The `/health` answer.
pub fn health() -> (r: HealthResponse)
    ensures
        r.status@ == "ok"@,
{
    HealthResponse { status: "ok" }
}

// ---------------------------------------------------------------------
// Cross-origin access
// ---------------------------------------------------------------------

/// A byte allowed in an HTTP header value.
pub open spec fn header_value_byte(b: u8) -> bool {
    (b >= 32 && b != 127) || b == 9
}

/// A byte of a header value that can be read as text (visible ASCII).
pub open spec fn visible_ascii_byte(b: u8) -> bool {
    (b >= 32 && b < 127) || b == 9
}

pub open spec fn has_byte_prefix(s: Seq<u8>, p: Seq<u8>) -> bool {
    p.len() <= s.len() && s.subrange(0, p.len() as int) == p
}

/// A browser-extension origin: readable text starting with
/// `moz-extension://` or `chrome-extension://`.
pub open spec fn extension_origin(origin: Seq<u8>) -> bool {
    &&& forall|i: int| 0 <= i < origin.len() ==> visible_ascii_byte(#[trigger] origin[i])
    &&& (has_byte_prefix(origin, encode_utf8("moz-extension://"@)) || has_byte_prefix(
        origin,
        encode_utf8("chrome-extension://"@),
    ))
}

/// A configured origin is usable when it is a valid header value.
pub open spec fn usable_origin(configured: Seq<u8>) -> bool {
    forall|i: int| 0 <= i < configured.len() ==> header_value_byte(#[trigger] configured[i])
}

/// Cross-origin `GET` requests are allowed from browser extensions and
/// from exactly the configured origins; no other origin is.
pub open spec fn origin_allowed_spec(origin: Seq<u8>, configured: Seq<String>) -> bool {
    ||| extension_origin(origin)
    ||| exists|i: int|
        0 <= i < configured.len() && usable_origin(#[trigger] encode_utf8(configured[i]@))
            && encode_utf8(configured[i]@) == origin
}

fn bytes_equal(a: &[u8], b: &[u8]) -> (r: bool)
    ensures
        r == (a@ == b@),
{
    if a.len() != b.len() {
        return false;
    }
    let mut i: usize = 0;
    while i < a.len()
        invariant
            a.len() == b.len(),
            i <= a.len(),
            forall|j: int| 0 <= j < i ==> a@[j] == b@[j],
        decreases a.len() - i,
    {
        if a[i] != b[i] {
            return false;
        }
        i = i + 1;
    }
    assert(a@ =~= b@);
    true
}

fn bytes_start_with(s: &[u8], p: &[u8]) -> (r: bool)
    ensures
        r == has_byte_prefix(s@, p@),
{
    if p.len() > s.len() {
        return false;
    }
    let mut i: usize = 0;
    while i < p.len()
        invariant
            p.len() <= s.len(),
            i <= p.len(),
            forall|j: int| 0 <= j < i ==> s@[j] == p@[j],
        decreases p.len() - i,
    {
        if s[i] != p[i] {
            assert(s@.subrange(0, p.len() as int)[i as int] != p@[i as int]);
            return false;
        }
        i = i + 1;
    }
    assert(s@.subrange(0, p.len() as int) =~= p@);
    true
}

fn all_bytes_visible(s: &[u8]) -> (r: bool)
    ensures
        r == forall|i: int| 0 <= i < s@.len() ==> visible_ascii_byte(#[trigger] s@[i]),
{
    let mut i: usize = 0;
    while i < s.len()
        invariant
            i <= s.len(),
            forall|j: int| 0 <= j < i ==> visible_ascii_byte(#[trigger] s@[j]),
        decreases s.len() - i,
    {
        let b = s[i];
        if !((b >= 32 && b < 127) || b == 9) {
            assert(!visible_ascii_byte(s@[i as int]));
            return false;
        }
        i = i + 1;
    }
    true
}

fn all_bytes_header_valid(s: &[u8]) -> (r: bool)
    ensures
        r == usable_origin(s@),
{
    let mut i: usize = 0;
    while i < s.len()
        invariant
            i <= s.len(),
            forall|j: int| 0 <= j < i ==> header_value_byte(#[trigger] s@[j]),
        decreases s.len() - i,
    {
        let b = s[i];
        if !((b >= 32 && b != 127) || b == 9) {
            assert(!header_value_byte(s@[i as int]));
            return false;
        }
        i = i + 1;
    }
    true
}

/// Whether a request from `origin` (the raw bytes of its `Origin` header)
/// may read responses cross-origin.
pub fn origin_allowed(origin: &[u8], configured: &[String]) -> (r: bool)
    ensures
        r == origin_allowed_spec(origin@, configured@),
{
    let visible = all_bytes_visible(origin);
    let moz = bytes_start_with(origin, "moz-extension://".as_bytes());
    let chrome = bytes_start_with(origin, "chrome-extension://".as_bytes());
    if visible && (moz || chrome) {
        return true;
    }
    let mut i: usize = 0;
    while i < configured.len()
        invariant
            i <= configured.len(),
            !extension_origin(origin@),
            forall|j: int|
                0 <= j < i ==> !(usable_origin(#[trigger] encode_utf8(configured@[j]@))
                    && encode_utf8(configured@[j]@) == origin@),
        decreases configured.len() - i,
    {
        let bytes = configured[i].as_str().as_bytes();
        if all_bytes_header_valid(bytes) && bytes_equal(bytes, origin) {
            return true;
        }
        i = i + 1;
    }
    false
}

} // verus!
