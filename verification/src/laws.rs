//! Properties of the library as a whole, stated over the specifications its
//! functions are proved against.

use vstd::prelude::*;
use vstd::utf8::encode_utf8;

use crate::config::{
    comma_list_spec, config_error, config_from_spec, nonempty_piece, valid_cookies_source_spec,
    valid_js_runtime_spec, Config, EnvSettings,
};
use crate::external::{hex_digit, uuid_nibble, uuid_text_spec, url_parse_result};
use crate::models::{valid_video_id_spec, AcquisitionStage, ProgressReport};
use crate::routes::{
    escape_char, escape_html_spec, format_duration_spec, has_byte_prefix, lemma_range_within_file,
    media_plan_spec, origin_allowed_spec, parse_range_spec, serves_media, MediaPlan,
};
use crate::session::{
    epoch_nanos, is_expired_spec, keyed_by_id, updated, PlaybackSession, PlaybackStatus,
    SessionUpdate, Timestamp,
};
use crate::text::{decimal, is_whitespace, trim_end_seq, trim_seq, trim_start_seq};
use crate::ytdlp::{provider_from_parsed_spec, source_url_spec, YtDlpProvider};

verus! {

// ---------------------------------------------------------------------
// Sessions
// ---------------------------------------------------------------------

/// Any update counts as activity: a session just updated is not expired at
/// that moment, whatever the timeout.
pub proof fn law_update_is_activity(
    old: PlaybackSession,
    u: SessionUpdate,
    now: Timestamp,
    new: PlaybackSession,
    timeout_secs: u64,
)
    requires
        updated(old, u, now, new),
    ensures
        !is_expired_spec(new, timeout_secs, now),
{
}

/// Playback starts only from a ready session; marking any other session
/// as playing leaves its status as it was.
pub proof fn law_playing_only_from_ready(old: PlaybackSession, now: Timestamp, new: PlaybackSession)
    requires
        updated(old, SessionUpdate::MarkPlaying, now, new),
    ensures
        old.status == PlaybackStatus::Ready ==> new.status == PlaybackStatus::Playing,
        old.status != PlaybackStatus::Ready ==> new.status == old.status,
{
}

/// Progress reported after the acquisition ended (the session is no longer
/// downloading or processing) changes nothing but the activity time.
pub proof fn law_late_progress_is_ignored(
    old: PlaybackSession,
    p: ProgressReport,
    now: Timestamp,
    new: PlaybackSession,
)
    requires
        updated(old, SessionUpdate::Progress(p), now, new),
        old.status != PlaybackStatus::Downloading,
        old.status != PlaybackStatus::Processing,
    ensures
        new.status == old.status,
        new.progress == old.progress,
        new.media_path == old.media_path,
        new.error == old.error,
{
}

/// A session whose acquisition failed never serves media.
pub proof fn law_failed_session_serves_nothing(old: PlaybackSession, now: Timestamp, new: PlaybackSession)
    requires
        updated(old, SessionUpdate::Fail, now, new),
    ensures
        !serves_media(new),
        new.status == PlaybackStatus::Failed,
{
}

/// A session made ready serves exactly the media it was made ready with,
/// and keeps serving it once playback starts.
pub proof fn law_ready_serves_its_media(
    old: PlaybackSession,
    path: std::path::PathBuf,
    now: Timestamp,
    ready: PlaybackSession,
    later: Timestamp,
    playing: PlaybackSession,
)
    requires
        updated(old, SessionUpdate::Ready(path), now, ready),
        updated(ready, SessionUpdate::MarkPlaying, later, playing),
    ensures
        serves_media(ready),
        ready.media_path == Some(path),
        serves_media(playing),
        playing.media_path == Some(path),
        playing.status == PlaybackStatus::Playing,
{
}

/// A session becomes ready only by being made ready with its acquired
/// media: no other update turns a session that is not ready into a ready
/// one.
pub proof fn law_ready_only_with_media(
    old: PlaybackSession,
    u: SessionUpdate,
    now: Timestamp,
    new: PlaybackSession,
)
    requires
        updated(old, u, now, new),
        old.status != PlaybackStatus::Ready,
        new.status == PlaybackStatus::Ready,
    ensures
        u matches SessionUpdate::Ready(path) && new.media_path == Some(path),
{
}

/// A session that completed or expired serves no media any more.
pub proof fn law_ended_session_serves_nothing(
    old: PlaybackSession,
    u: SessionUpdate,
    now: Timestamp,
    new: PlaybackSession,
)
    requires
        updated(old, u, now, new),
        u is Complete || u is Expire,
    ensures
        !serves_media(new),
{
}

/// An update keeps the session's identity: its identifier, video,
/// metadata and creation time.
pub proof fn law_update_keeps_identity(
    old: PlaybackSession,
    u: SessionUpdate,
    now: Timestamp,
    new: PlaybackSession,
)
    requires
        updated(old, u, now, new),
    ensures
        new.id == old.id,
        new.video_id == old.video_id,
        new.metadata == old.metadata,
        new.created_at == old.created_at,
{
}

/// In a registry where sessions are stored under their identifiers,
/// storing a session and then looking it up gives that session, and
/// removing it makes it unknown; other sessions are untouched.
pub proof fn law_registry_read_after_write(
    m: Map<u128, PlaybackSession>,
    s: PlaybackSession,
    other: u128,
)
    requires
        keyed_by_id(m),
        other != s.id,
    ensures
        keyed_by_id(m.insert(s.id, s)),
        m.insert(s.id, s).contains_key(s.id) && m.insert(s.id, s)[s.id] == s,
        m.insert(s.id, s).contains_key(other) == m.contains_key(other),
        m.contains_key(other) ==> m.insert(s.id, s)[other] == m[other],
        !m.remove(s.id).contains_key(s.id),
        keyed_by_id(m.remove(s.id)),
{
}

/// A session is expired only once strictly more than the timeout has
/// passed since its last activity; exactly the timeout is not enough.
pub proof fn law_expiry_is_strict(s: PlaybackSession, timeout_secs: u64, now: Timestamp)
    requires
        epoch_nanos(now) - epoch_nanos(s.last_activity) == timeout_secs * 1_000_000_000,
    ensures
        !is_expired_spec(s, timeout_secs, now),
{
}

// ---------------------------------------------------------------------
// Untrusted input
// ---------------------------------------------------------------------

/// A valid video identifier is a single, plain path component: it holds no
/// path separator and no dot, so it cannot climb out of a directory.
pub proof fn law_video_id_is_plain_component(id: Seq<char>)
    requires
        valid_video_id_spec(id),
    ensures
        forall|i: int| 0 <= i < id.len() ==> #[trigger] id[i] != '/' && id[i] != '\\' && id[i] != '.',
        id.len() > 0,
{
}

/// A session's cache directory name is 36 characters of lower-case
/// hexadecimal digits and hyphens: one path component inside the cache.
pub proof fn law_session_dir_is_confined(id: u128)
    ensures
        uuid_text_spec(id).len() == 36,
        forall|i: int|
            0 <= i < 36 ==> {
                let c = #[trigger] uuid_text_spec(id)[i];
                ('0' <= c && c <= '9') || ('a' <= c && c <= 'f') || c == '-'
            },
{
    assert forall|i: int| 0 <= i < 36 implies {
        let c = #[trigger] uuid_text_spec(id)[i];
        ('0' <= c && c <= '9') || ('a' <= c && c <= 'f') || c == '-'
    } by {
        if !(i == 8 || i == 13 || i == 18 || i == 23) {
            let k = if i < 8 {
                i
            } else if i < 13 {
                i - 1
            } else if i < 18 {
                i - 2
            } else if i < 23 {
                i - 3
            } else {
                i - 4
            };
            let p = vstd::arithmetic::power::pow(16, (31 - k) as nat);
            vstd::arithmetic::power::lemma_pow_positive(16, (31 - k) as nat);
            let d = uuid_nibble(id, k);
            assert(0 <= d < 16) by {
                vstd::arithmetic::div_mod::lemma_div_pos_is_pos(id as int, p);
            }
            assert(uuid_text_spec(id)[i] == hex_digit(d));
        }
    }
}

/// Escaped text contains none of `< > " '`, so it cannot open a tag or
/// leave an attribute value.
pub proof fn law_escaped_text_is_inert(s: Seq<char>)
    ensures
        forall|i: int|
            0 <= i < escape_html_spec(s).len() ==> {
                let c = #[trigger] escape_html_spec(s)[i];
                c != '<' && c != '>' && c != '"' && c != '\''
            },
    decreases s.len(),
{
    reveal_strlit("&amp;");
    reveal_strlit("&lt;");
    reveal_strlit("&gt;");
    reveal_strlit("&quot;");
    reveal_strlit("&#39;");
    if s.len() > 0 {
        law_escaped_text_is_inert(s.drop_last());
        let prefix = escape_html_spec(s.drop_last());
        let tail = escape_char(s.last());
        assert(escape_html_spec(s) == prefix + tail);
        assert forall|i: int| 0 <= i < tail.len() implies {
            let c = #[trigger] tail[i];
            c != '<' && c != '>' && c != '"' && c != '\''
        } by {}
        assert forall|i: int| 0 <= i < escape_html_spec(s).len() implies {
            let c = #[trigger] escape_html_spec(s)[i];
            c != '<' && c != '>' && c != '"' && c != '\''
        } by {
            if i < prefix.len() {
                assert(escape_html_spec(s)[i] == prefix[i]);
            } else {
                assert(escape_html_spec(s)[i] == tail[i - prefix.len()]);
            }
        }
    }
}

/// A selected byte range never reaches past the end of the media, and it
/// is empty at most in the one case of a zero-length suffix.
pub proof fn law_range_within_media(value: Seq<char>, length: u64)
    ensures
        parse_range_spec(value, length) matches Some((s, e)) ==> e < length && s <= e + 1
            && (s == e + 1 ==> s == length),
{
}

/// The response to a media request for a non-empty file never reaches
/// past its end: it sends `content_length` bytes from `start`, the whole
/// file when no usable range was asked for.
pub proof fn law_media_plan_within_file(range: Option<Seq<char>>, length: u64)
    requires
        length > 0,
    ensures
        ({
            let p = media_plan_spec(range, length);
            &&& p.start + p.content_length <= length
            &&& p.content_length == p.end + 1 - p.start
            &&& p.end < length
            &&& !p.partial ==> p.start == 0 && p.content_length == length
        }),
{
    match range {
        Some(v) => lemma_range_within_file(v, length),
        None => {},
    }
}

/// Besides browser extensions, a web origin may read responses only when
/// it is exactly one of the configured origins; with none configured, only
/// browser extensions may.
pub proof fn law_web_origins_must_be_configured(origin: Seq<u8>, configured: Seq<String>)
    requires
        !has_byte_prefix(origin, encode_utf8("moz-extension://"@)),
        !has_byte_prefix(origin, encode_utf8("chrome-extension://"@)),
    ensures
        origin_allowed_spec(origin, configured) ==> exists|i: int|
            0 <= i < configured.len() && #[trigger] encode_utf8(configured[i]@) == origin,
        configured.len() == 0 ==> !origin_allowed_spec(origin, configured),
{
}

/// The yt-dlp provider only ever hands out source URLs with the trusted
/// scheme and host.
pub proof fn law_source_url_is_trusted(p: YtDlpProvider, video_id: Seq<char>, r: Result<String, crate::error::AppError>)
    requires
        source_url_spec(p, video_id, r),
    ensures
        r matches Ok(s) ==> (url_parse_result(s@) matches Ok((scheme, host, _, _)) && scheme
            == p.trusted_scheme@ && host == Some(p.trusted_host@)),
        r is Ok ==> valid_video_id_spec(video_id),
{
}

// ---------------------------------------------------------------------
// Configuration
// ---------------------------------------------------------------------

/// An accepted configuration names at most one cookie source, an
/// acceptable cookie browser and JavaScript runtime, and allows at least one
/// concurrent acquisition.
pub proof fn law_accepted_configuration_is_consistent(c: Config, s: EnvSettings, host_ok: bool)
    requires
        config_error(s, host_ok) is None,
        config_from_spec(c, s),
    ensures
        host_ok,
        !(c.ytdlp_cookies_from_browser is Some && c.ytdlp_cookies_file is Some),
        c.ytdlp_cookies_from_browser matches Some(b) ==> valid_cookies_source_spec(b@),
        valid_js_runtime_spec(c.ytdlp_js_runtime@),
        c.max_concurrent_downloads >= 1,
{
}

proof fn lemma_trim_start_bounds(s: Seq<char>)
    ensures
        trim_start_seq(s).len() > 0 ==> !is_whitespace(trim_start_seq(s)[0]),
    decreases s.len(),
{
    if s.len() > 0 && is_whitespace(s[0]) {
        lemma_trim_start_bounds(s.drop_first());
    }
}

proof fn lemma_trim_end_bounds(s: Seq<char>)
    ensures
        trim_end_seq(s).len() > 0 ==> !is_whitespace(trim_end_seq(s).last()),
        trim_end_seq(s).len() <= s.len(),
        forall|i: int| 0 <= i < trim_end_seq(s).len() ==> #[trigger] trim_end_seq(s)[i] == s[i],
    decreases s.len(),
{
    if s.len() > 0 && is_whitespace(s.last()) {
        lemma_trim_end_bounds(s.drop_last());
        assert forall|i: int| 0 <= i < trim_end_seq(s).len() implies #[trigger] trim_end_seq(s)[i]
            == s[i] by {
            assert(trim_end_seq(s) == trim_end_seq(s.drop_last()));
            assert(trim_end_seq(s.drop_last())[i] == s.drop_last()[i]);
        }
    }
}

/// Trimmed text neither starts nor ends with white space.
pub proof fn law_trimmed_text_has_no_outer_space(s: Seq<char>)
    ensures
        trim_seq(s).len() > 0 ==> !is_whitespace(trim_seq(s)[0]) && !is_whitespace(
            trim_seq(s).last(),
        ),
{
    lemma_trim_start_bounds(s);
    lemma_trim_end_bounds(trim_start_seq(s));
    if trim_seq(s).len() > 0 {
        assert(trim_seq(s)[0] == trim_start_seq(s)[0]);
    }
}

/// Every configured origin in the list is non-empty.
pub proof fn law_comma_items_are_nonempty(raw: Seq<char>)
    ensures
        forall|i: int|
            0 <= i < comma_list_spec(raw).len() ==> #[trigger] comma_list_spec(raw)[i].len() > 0,
{
    let pieces = crate::config::split_seq(raw, ',').map_values(|p: Seq<char>| trim_seq(p));
    let f = |p: Seq<char>| nonempty_piece(p);
    assert forall|i: int| 0 <= i < pieces.filter(f).len() implies #[trigger] pieces.filter(f)[i].len() > 0 by {
        pieces.lemma_filter_pred(f, i);
    }
}


// ---------------------------------------------------------------------
// What the operations answer
// ---------------------------------------------------------------------

/// Every range the `Range` header selects is answered as a partial
/// response covering exactly that range, whatever part of the file it
/// covers (the whole file included); a response that is not partial is
/// only given when no range was selected, and then covers the whole file.
pub proof fn law_selected_range_is_partial(range: Option<Seq<char>>, length: u64)
    ensures
        (match range {
            Some(v) => parse_range_spec(v, length),
            None => None,
        }) matches Some((s, e)) ==> media_plan_spec(range, length) == (MediaPlan {
            start: s,
            end: e,
            partial: true,
            content_length: (e + 1 - s) as u64,
        }),
        !media_plan_spec(range, length).partial ==> (match range {
            Some(v) => parse_range_spec(v, length),
            None => None,
        }) is None && media_plan_spec(range, length).start == 0,
{
    match range {
        Some(v) => lemma_range_within_file(v, length),
        None => {},
    }
}

/// Progress on a session that is downloading or processing puts it in the
/// status named by the reported stage: `Processing` for a processing
/// report, `Downloading` for a download report, and keeps the report.
pub proof fn law_progress_names_its_stage(
    old: PlaybackSession,
    p: ProgressReport,
    now: Timestamp,
    new: PlaybackSession,
)
    requires
        updated(old, SessionUpdate::Progress(p), now, new),
        old.status == PlaybackStatus::Downloading || old.status == PlaybackStatus::Processing,
    ensures
        p.stage == AcquisitionStage::Processing ==> new.status == PlaybackStatus::Processing,
        p.stage == AcquisitionStage::Downloading ==> new.status == PlaybackStatus::Downloading,
        new.progress == Some(p),
{
}

/// A source template whose sample URL parses with scheme `http` or
/// `https` and a host is accepted (given at most one cookie source), and
/// that scheme and host become the trusted ones; a template with any other
/// scheme is refused.
pub proof fn law_http_and_https_templates_are_accepted(
    r: Result<YtDlpProvider, crate::error::AppError>,
    executable: std::path::PathBuf,
    template: Seq<char>,
    scheme: Seq<char>,
    host: Seq<char>,
    serialization: Seq<char>,
    path: Seq<char>,
    cookies_from_browser: Option<String>,
    cookies_file: Option<std::path::PathBuf>,
)
    requires
        provider_from_parsed_spec(
            r,
            executable,
            template,
            Ok((scheme, Some(host), serialization, path)),
            cookies_from_browser,
            cookies_file,
        ),
    ensures
        (scheme == "http"@ || scheme == "https"@) && !(cookies_from_browser is Some
            && cookies_file is Some) ==> (r matches Ok(p) && p.trusted_scheme@ == scheme
            && p.trusted_host@ == host && p.youtube_base_url@ == template),
        !(scheme == "http"@ || scheme == "https"@) ==> r is Err,
{
}

/// The decimal digit character of `d` (0..10).
pub open spec fn digit_of(d: int) -> char {
    ('0' as int + d) as char
}

/// A duration is shown as whole minutes, a colon, and the remaining
/// seconds in exactly two digits: tens, then units.
pub proof fn law_duration_seconds_in_two_digits(seconds: u64)
    ensures
        format_duration_spec(seconds) == decimal((seconds / 60) as nat) + seq![
            ':',
            digit_of(((seconds % 60) / 10) as int),
            digit_of(((seconds % 60) % 10) as int),
        ],
{
    reveal_strlit(":");
    reveal_strlit("0");
    let s: int = (seconds % 60) as int;
    let m: int = (seconds / 60) as int;
    if s < 10 {
        assert(decimal(s as nat) == seq![digit_of(s % 10)]);
        assert(format_duration_spec(seconds) =~= decimal(m as nat) + seq![
            ':',
            digit_of(s / 10),
            digit_of(s % 10),
        ]);
    } else {
        let t: nat = (s / 10) as nat;
        assert(t < 10);
        assert(decimal(t) == seq![digit_of(s / 10)]);
        assert(decimal(s as nat) == decimal(t).push(digit_of(s % 10)));
        assert(format_duration_spec(seconds) =~= decimal(m as nat) + seq![
            ':',
            digit_of(s / 10),
            digit_of(s % 10),
        ]);
    }
}

/// A video identifier is valid exactly when it has 1 to 128 characters,
/// each an ASCII letter of either case, a digit, `_` or `-`.
pub proof fn law_video_id_alphabet(id: Seq<char>)
    ensures
        valid_video_id_spec(id) <==> (1 <= id.len() <= 128 && forall|i: int|
            0 <= i < id.len() ==> ('a' <= #[trigger] id[i] && id[i] <= 'z') || ('A' <= id[i]
                && id[i] <= 'Z') || ('0' <= id[i] && id[i] <= '9') || id[i] == '_' || id[i]
                == '-'),
{
}

} // verus!
