//! The local-library and HTTP-fixture media providers, and the checks that
//! acquired media must pass before it is served.

use std::path::PathBuf;
use std::time::Duration;

use vstd::prelude::*;

use crate::error::AppError;
use crate::external::{
    clear_url_fragment, clear_url_query, join_url, parse_url, replace_url_path, url_fragment_cleared,
    url_join_result, url_parse_result, url_parts_view, url_path_replaced, url_query_cleared,
};
use crate::ytdlp::{arg_views, push_texts, text_args, ArgView, CommandArg, UrlParts};
use crate::models::{valid_video_id, valid_video_id_spec, VideoMetadata};
use crate::text::{chars_of, owned, push_char, push_str, str_equal, trim_seq, trim_str};

verus! {

// ---------------------------------------------------------------------
// Local library
// ---------------------------------------------------------------------

/// Serves media from an authorized local directory.
#[derive(Debug)]
pub struct LocalFileProvider {
    root: PathBuf,
}

impl LocalFileProvider {
    pub closed spec fn root_spec(&self) -> PathBuf {
        self.root
    }

    /// A provider for the library directory `root`.
    pub fn new(root: PathBuf) -> (r: Self)
        ensures
            r.root_spec() == root,
    {
        LocalFileProvider { root }
    }

    /// The library directory.
    pub fn root(&self) -> (r: &PathBuf)
        ensures
            *r == self.root_spec(),
    {
        &self.root
    }
}

pub open spec fn source_extensions() -> Seq<Seq<char>> {
    seq!["mp4"@, "webm"@, "mkv"@, "mov"@]
}

/// The file names that may hold the source of `video_id`, in the order
/// they are tried: `<id>.mp4`, `<id>.webm`, `<id>.mkv`, `<id>.mov`.
pub fn candidate_file_names(video_id: &str) -> (r: Vec<String>)
    ensures
        r@.len() == 4,
        forall|i: int|
            0 <= i < 4 ==> #[trigger] r@[i]@ == video_id@ + "."@ + source_extensions()[i],
{
    let exts: [&str; 4] = ["mp4", "webm", "mkv", "mov"];
    let mut r: Vec<String> = Vec::new();
    let mut i: usize = 0;
    while i < 4
        invariant
            i <= 4,
            r@.len() == i,
            exts@.map_values(|s: &str| s@) == source_extensions(),
            forall|j: int|
                0 <= j < i ==> #[trigger] r@[j]@ == video_id@ + "."@ + source_extensions()[j],
        decreases 4 - i,
    {
        let mut name = owned(video_id);
        push_str(&mut name, ".");
        push_str(&mut name, exts[i]);
        assert(exts@.map_values(|s: &str| s@)[i as int] == exts@[i as int]@);
        r.push(name);
        i = i + 1;
    }
    r
}

pub open spec fn title_char(c: char) -> char {
    if c == '-' || c == '_' {
        ' '
    } else {
        c
    }
}

/// The title used when the media has none: the identifier with `-` and
/// `_` shown as spaces.
pub open spec fn fallback_title_spec(video_id: Seq<char>) -> Seq<char> {
    video_id.map_values(|c: char| title_char(c))
}

pub fn fallback_title(video_id: &str) -> (r: String)
    ensures
        r@ == fallback_title_spec(video_id@),
{
    let v = chars_of(video_id);
    let mut out = String::new();
    let mut i: usize = 0;
    while i < v.len()
        invariant
            i <= v.len(),
            out@ == fallback_title_spec(v@.take(i as int)),
        decreases v.len() - i,
    {
        let c = v[i];
        if c == '-' || c == '_' {
            push_char(&mut out, ' ');
        } else {
            push_char(&mut out, c);
        }
        i = i + 1;
        assert(out@ =~= fallback_title_spec(v@.take(i as int)));
    }
    assert(v@.take(v.len() as int) =~= v@);
    out
}

/// What ffprobe reports of a media file.
#[derive(Debug)]
pub struct ProbeResult {
    pub format: Option<ProbeFormat>,
    pub streams: Vec<ProbeStream>,
}

#[derive(Debug)]
pub struct ProbeFormat {
    pub duration: Option<String>,
    pub tags: Option<ProbeTags>,
}

#[derive(Debug)]
pub struct ProbeTags {
    pub title: Option<String>,
    pub comment: Option<String>,
}

#[derive(Debug)]
pub struct ProbeStream {
    pub codec_type: String,
}

impl ProbeResult {
    /// Whether some stream is a video stream.
    pub fn has_video(&self) -> (r: bool)
        ensures
            r == exists|i: int|
                0 <= i < self.streams@.len() && #[trigger] self.streams@[i].codec_type@ == "video"@,
    {
        let mut i: usize = 0;
        while i < self.streams.len()
            invariant
                i <= self.streams.len(),
                forall|j: int| 0 <= j < i ==> #[trigger] self.streams@[j].codec_type@ != "video"@,
            decreases self.streams.len() - i,
        {
            if str_equal(self.streams[i].codec_type.as_str(), "video") {
                return true;
            }
            i = i + 1;
        }
        false
    }
}

pub open spec fn probe_tags(probe: ProbeResult) -> Option<ProbeTags> {
    match probe.format {
        Some(f) => f.tags,
        None => None,
    }
}

/// The metadata of a local video: the title tag or else the identifier
/// shown as a title, the comment tag as description, no thumbnail.
pub open spec fn local_metadata_spec(
    video_id: Seq<char>,
    probe: ProbeResult,
    duration_seconds: Option<u64>,
    r: VideoMetadata,
) -> bool {
    let tags = probe_tags(probe);
    &&& r.id@ == video_id
    &&& r.title@ == (match tags {
        Some(t) => match t.title {
            Some(title) => title@,
            None => fallback_title_spec(video_id),
        },
        None => fallback_title_spec(video_id),
    })
    &&& r.description == (match tags {
        Some(t) => t.comment,
        None => None,
    })
    &&& r.thumbnail_url is None
    &&& r.duration_seconds == duration_seconds
}

/// The metadata of local video `video_id` from what ffprobe reported;
/// `duration_seconds` is the probed duration rounded up to whole seconds.
pub fn local_metadata(video_id: &str, probe: ProbeResult, duration_seconds: Option<u64>) -> (r:
    VideoMetadata)
    ensures
        local_metadata_spec(video_id@, probe, duration_seconds, r),
{
    let ghost p = probe;
    let tags = match probe.format {
        Some(format) => format.tags,
        None => None,
    };
    let (title, description) = match tags {
        Some(t) => {
            let title = match t.title {
                Some(title) => title,
                None => fallback_title(video_id),
            };
            (title, t.comment)
        },
        None => (fallback_title(video_id), None),
    };
    VideoMetadata {
        id: owned(video_id),
        title,
        description,
        thumbnail_url: None,
        duration_seconds,
    }
}

/// The ffmpeg flags that precede the source file of a remux.
pub open spec fn remux_input_flags() -> Seq<Seq<char>> {
    seq!["-hide_banner"@, "-loglevel"@, "error"@, "-y"@, "-i"@]
}

/// The ffmpeg flags between the source and the output file of a remux: the
/// first video stream and, when there is one, the first audio stream,
/// copied without re-encoding, with the index moved to the front.
pub open spec fn remux_output_flags() -> Seq<Seq<char>> {
    seq![
        "-map"@,
        "0:v:0"@,
        "-map"@,
        "0:a:0?"@,
        "-c"@,
        "copy"@,
        "-movflags"@,
        "+faststart"@,
    ]
}

/// The arguments of the ffmpeg run that remuxes `source` into `output`.
pub open spec fn remux_args_spec(source: PathBuf, output: PathBuf) -> Seq<ArgView> {
    text_args(remux_input_flags()) + seq![ArgView::Path(source)] + text_args(remux_output_flags())
        + seq![ArgView::Path(output)]
}

/// The arguments of the ffmpeg run that remuxes a local source into the
/// session's output file.
pub fn remux_args(source: &PathBuf, output: &PathBuf) -> (r: Vec<CommandArg>)
    ensures
        arg_views(r@) == remux_args_spec(*source, *output),
{
    let mut args: Vec<CommandArg> = Vec::new();
    let input_flags: [&str; 5] = ["-hide_banner", "-loglevel", "error", "-y", "-i"];
    push_texts(&mut args, input_flags.as_slice());
    assert(input_flags@.map_values(|s: &str| s@) =~= remux_input_flags());
    let ghost before = args@;
    args.push(CommandArg::Path(source.clone()));
    assert(arg_views(args@) =~= arg_views(before).push(ArgView::Path(*source)));
    let output_flags: [&str; 8] = [
        "-map",
        "0:v:0",
        "-map",
        "0:a:0?",
        "-c",
        "copy",
        "-movflags",
        "+faststart",
    ];
    push_texts(&mut args, output_flags.as_slice());
    assert(output_flags@.map_values(|s: &str| s@) =~= remux_output_flags());
    let ghost before2 = args@;
    args.push(CommandArg::Path(output.clone()));
    assert(arg_views(args@) =~= arg_views(before2).push(ArgView::Path(*output)));
    assert(arg_views(args@) =~= remux_args_spec(*source, *output));
    args
}

/// The ffprobe flags that report the format and the streams as JSON.
pub open spec fn probe_flags() -> Seq<Seq<char>> {
    seq!["-v"@, "error"@, "-show_format"@, "-show_streams"@, "-of"@, "json"@]
}

/// The arguments of the ffprobe run that inspects `path`.
pub open spec fn probe_args_spec(path: PathBuf) -> Seq<ArgView> {
    text_args(probe_flags()) + seq![ArgView::Path(path)]
}

/// The arguments of the ffprobe run that inspects `path`.
pub fn probe_args(path: &PathBuf) -> (r: Vec<CommandArg>)
    ensures
        arg_views(r@) == probe_args_spec(*path),
{
    let mut args: Vec<CommandArg> = Vec::new();
    let flags: [&str; 6] = ["-v", "error", "-show_format", "-show_streams", "-of", "json"];
    push_texts(&mut args, flags.as_slice());
    assert(flags@.map_values(|s: &str| s@) =~= probe_flags());
    let ghost before = args@;
    args.push(CommandArg::Path(path.clone()));
    assert(arg_views(args@) =~= arg_views(before).push(ArgView::Path(*path)));
    assert(arg_views(args@) =~= probe_args_spec(*path));
    args
}

// ---------------------------------------------------------------------
// Validation of acquired media
// ---------------------------------------------------------------------

/// An acquired file must exist as a regular, non-empty file.
pub fn check_media_file(is_file: bool, len: u64) -> (r: Result<(), AppError>)
    ensures
        is_file && len > 0 ==> r is Ok,
        !(is_file && len > 0) ==> (r matches Err(AppError::MediaProcessingFailed(m)) && m@
            == "media file is missing or empty"@),
{
    if !is_file || len == 0 {
        return Err(AppError::MediaProcessingFailed(owned("media file is missing or empty")));
    }
    Ok(())
}

/// Acquired media must hold a video stream.
pub fn check_probe(probe: &ProbeResult) -> (r: Result<(), AppError>)
    ensures
        (exists|i: int|
            0 <= i < probe.streams@.len() && #[trigger] probe.streams@[i].codec_type@ == "video"@)
            ==> r is Ok,
        !(exists|i: int|
            0 <= i < probe.streams@.len() && #[trigger] probe.streams@[i].codec_type@ == "video"@)
            ==> (r matches Err(AppError::UnsupportedMedia)),
{
    if !probe.has_video() {
        return Err(AppError::UnsupportedMedia);
    }
    Ok(())
}

// ---------------------------------------------------------------------
// HTTP fixture
// ---------------------------------------------------------------------

/// The configuration error for a fixture base URL that does not parse.
pub open spec fn invalid_fixture_base_message(e: Seq<char>) -> Seq<char> {
    "invalid fixture base URL: "@ + e
}

/// What a parsed fixture base URL is accepted as: its serialization when
/// it is an HTTP(S) URL with a host, else the configuration error's message.
pub open spec fn fixture_base_check_spec(
    parsed: Result<(Seq<char>, Option<Seq<char>>, Seq<char>, Seq<char>), Seq<char>>,
) -> Result<Seq<char>, Seq<char>> {
    match parsed {
        Err(e) => Err(invalid_fixture_base_message(e)),
        Ok((scheme, host, serialization, _)) => if (scheme == "http"@ || scheme == "https"@)
            && host is Some {
            Ok(serialization)
        } else {
            Err("fixture base URL must be an absolute HTTP(S) URL"@)
        },
    }
}

/// The path a base URL needs so that resources resolve beneath it: none
/// when the path already ends with `/`, else the path with `/` appended.
pub open spec fn directory_path_spec(path: Seq<char>) -> Option<Seq<char>> {
    if path.len() > 0 && path.last() == '/' {
        None
    } else {
        Some(path + "/"@)
    }
}

/// The normalized fixture base URL for the configured `input`: parsed and
/// checked, its query and fragment cleared, and its path made to end with
/// `/`; or the message of the configuration error.
pub open spec fn fixture_base_spec(input: Seq<char>) -> Result<Seq<char>, Seq<char>> {
    match fixture_base_check_spec(url_parse_result(input)) {
        Err(m) => Err(m),
        Ok(serialization) => match url_query_cleared(serialization) {
            Err(e) => Err(invalid_fixture_base_message(e)),
            Ok(without_query) => match url_fragment_cleared(without_query) {
                Err(e) => Err(invalid_fixture_base_message(e)),
                Ok(cleared) => match url_parse_result(cleared) {
                    Err(e) => Err(invalid_fixture_base_message(e)),
                    Ok((_, _, _, path)) => match directory_path_spec(path) {
                        None => Ok(cleared),
                        Some(directory) => match url_path_replaced(cleared, directory) {
                            Err(e) => Err(invalid_fixture_base_message(e)),
                            Ok(normalized) => Ok(normalized),
                        },
                    },
                },
            },
        },
    }
}

fn invalid_fixture_base(e: &str) -> (r: AppError)
    ensures
        r matches AppError::Configuration(m) && m@ == invalid_fixture_base_message(e@),
{
    let mut m = owned("invalid fixture base URL: ");
    push_str(&mut m, e);
    AppError::Configuration(m)
}

/// Accepts a parsed fixture base URL that is an HTTP(S) URL with a host,
/// giving its serialization.
pub fn check_fixture_base(parsed: Result<UrlParts, String>) -> (r: Result<String, AppError>)
    ensures
        match fixture_base_check_spec(url_parts_view(parsed)) {
            Ok(serialization) => r matches Ok(s) && s@ == serialization,
            Err(message) => r matches Err(AppError::Configuration(m)) && m@ == message,
        },
{
    let parts = match parsed {
        Ok(parts) => parts,
        Err(error) => return Err(invalid_fixture_base(error.as_str())),
    };
    let http = str_equal(parts.scheme.as_str(), "http") || str_equal(parts.scheme.as_str(), "https");
    if !http || parts.host.is_none() {
        return Err(
            AppError::Configuration(owned("fixture base URL must be an absolute HTTP(S) URL")),
        );
    }
    Ok(parts.serialization)
}

/// The path a base URL with path `path` needs, if any: `path` with `/`
/// appended, unless it already ends with `/`.
pub fn directory_path(path: &str) -> (r: Option<String>)
    ensures
        match directory_path_spec(path@) {
            None => r is None,
            Some(d) => r matches Some(s) && s@ == d,
        },
{
    let chars = chars_of(path);
    if chars.len() > 0 && chars[chars.len() - 1] == '/' {
        None
    } else {
        let mut d = owned(path);
        push_char(&mut d, '/');
        proof {
            reveal_strlit("/");
            assert(path@ + "/"@ =~= path@.push('/'));
        }
        Some(d)
    }
}

/// Fetches metadata and media from a development fixture server.  The
/// base URL is held normalized, so that resources resolve beneath it; the
/// HTTP client is built from the two timeouts where the requests are made.
#[derive(Debug)]
pub struct HttpFixtureProvider {
    base_url: String,
    connect_timeout: Duration,
    request_timeout: Duration,
}

impl HttpFixtureProvider {
    pub closed spec fn base_spec(&self) -> Seq<char> {
        self.base_url@
    }

    pub closed spec fn connect_timeout_spec(&self) -> Duration {
        self.connect_timeout
    }

    pub closed spec fn request_timeout_spec(&self) -> Duration {
        self.request_timeout
    }

    /// A provider for the fixture server at `base_url`, which must be an
    /// absolute HTTP(S) URL; its query and fragment are dropped and its
    /// path is made to end with `/`.
    pub fn new(base_url: &str, connect_timeout: Duration, request_timeout: Duration) -> (r: Result<
        Self,
        AppError,
    >)
        ensures
            match fixture_base_spec(base_url@) {
                Ok(normalized) => r matches Ok(p) && p.base_spec() == normalized
                    && p.connect_timeout_spec() == connect_timeout && p.request_timeout_spec()
                    == request_timeout,
                Err(message) => r matches Err(AppError::Configuration(m)) && m@ == message,
            },
    {
        let serialization = match check_fixture_base(parse_url(base_url)) {
            Ok(s) => s,
            Err(error) => return Err(error),
        };
        let without_query = match clear_url_query(serialization.as_str()) {
            Ok(s) => s,
            Err(error) => return Err(invalid_fixture_base(error.as_str())),
        };
        let cleared = match clear_url_fragment(without_query.as_str()) {
            Ok(s) => s,
            Err(error) => return Err(invalid_fixture_base(error.as_str())),
        };
        let parts = match parse_url(cleared.as_str()) {
            Ok(parts) => parts,
            Err(error) => return Err(invalid_fixture_base(error.as_str())),
        };
        let normalized = match directory_path(parts.path.as_str()) {
            None => cleared,
            Some(directory) => match replace_url_path(cleared.as_str(), directory.as_str()) {
                Ok(s) => s,
                Err(error) => return Err(invalid_fixture_base(error.as_str())),
            },
        };
        Ok(HttpFixtureProvider { base_url: normalized, connect_timeout, request_timeout })
    }

    /// The normalized base URL.
    pub fn base_url(&self) -> (r: &str)
        ensures
            r@ == self.base_spec(),
    {
        self.base_url.as_str()
    }

    /// The timeout for establishing a connection.
    pub fn connect_timeout(&self) -> (r: Duration)
        ensures
            r == self.connect_timeout_spec(),
    {
        self.connect_timeout
    }

    /// The timeout for a whole request.
    pub fn request_timeout(&self) -> (r: Duration)
        ensures
            r == self.request_timeout_spec(),
    {
        self.request_timeout
    }

    /// The URL of a fixture resource: `<resource>/<video_id>` resolved
    /// against the base URL, for a valid identifier only.
    pub fn endpoint(&self, resource: &str, video_id: &str) -> (r: Result<String, AppError>)
        ensures
            !valid_video_id_spec(video_id@) ==> (r matches Err(AppError::InvalidVideoId)),
            valid_video_id_spec(video_id@) ==> match url_join_result(
                self.base_spec(),
                resource@ + "/"@ + video_id@,
            ) {
                Ok(u) => r matches Ok(s) && s@ == u,
                Err(e) => r matches Err(AppError::Internal(m)) && m@
                    == "unable to construct fixture URL: "@ + e,
            },
    {
        let path = match fixture_resource_path(resource, video_id) {
            Ok(path) => path,
            Err(error) => return Err(error),
        };
        match join_url(self.base_url.as_str(), path.as_str()) {
            Ok(url) => Ok(url),
            Err(error) => {
                let mut m = owned("unable to construct fixture URL: ");
                push_str(&mut m, error.as_str());
                Err(AppError::Internal(m))
            },
        }
    }
}

/// The path, relative to the fixture base URL, of a fixture resource:
/// `<resource>/<video_id>`, only for a valid identifier.
pub fn fixture_resource_path(resource: &str, video_id: &str) -> (r: Result<String, AppError>)
    ensures
        valid_video_id_spec(video_id@) ==> (r matches Ok(p) && p@ == resource@ + "/"@
            + video_id@),
        !valid_video_id_spec(video_id@) ==> (r matches Err(AppError::InvalidVideoId)),
{
    if !valid_video_id(video_id) {
        return Err(AppError::InvalidVideoId);
    }
    let mut p = owned(resource);
    push_str(&mut p, "/");
    push_str(&mut p, video_id);
    Ok(p)
}

pub open spec fn is_success_status(status: u16) -> bool {
    200 <= status <= 299
}

/// A fixture metadata response is usable only with a success status; a
/// missing or failing fixture means no metadata.
pub fn check_fixture_metadata_status(status: u16) -> (r: Result<(), AppError>)
    ensures
        is_success_status(status) ==> r is Ok,
        !is_success_status(status) ==> (r matches Err(AppError::MetadataUnavailable)),
{
    if status == 404 {
        return Err(AppError::MetadataUnavailable);
    }
    if !(200 <= status && status <= 299) {
        return Err(AppError::MetadataUnavailable);
    }
    Ok(())
}

/// A fixture media response is usable only with a success status.
pub fn check_fixture_media_status(status: u16) -> (r: Result<(), AppError>)
    ensures
        is_success_status(status) ==> r is Ok,
        status == 404 ==> (r matches Err(AppError::MediaAcquisitionFailed(m)) && m@
            == "fixture media is unavailable"@),
        status != 404 && !is_success_status(status) ==> (r matches Err(
            AppError::MediaAcquisitionFailed(m),
        ) && m@ == "fixture server returned an unsuccessful response"@),
{
    if status == 404 {
        return Err(AppError::MediaAcquisitionFailed(owned("fixture media is unavailable")));
    }
    if !(200 <= status && status <= 299) {
        return Err(
            AppError::MediaAcquisitionFailed(
                owned("fixture server returned an unsuccessful response"),
            ),
        );
    }
    Ok(())
}

/// A failed metadata request: a timeout, or no metadata.
pub fn fixture_metadata_request_failure(timed_out: bool) -> (r: AppError)
    ensures
        timed_out ==> (r matches AppError::MediaAcquisitionTimeout),
        !timed_out ==> (r matches AppError::MetadataUnavailable),
{
    if timed_out {
        AppError::MediaAcquisitionTimeout
    } else {
        AppError::MetadataUnavailable
    }
}

/// A failed media request: a timeout, or a failed acquisition.
pub fn fixture_media_request_failure(timed_out: bool) -> (r: AppError)
    ensures
        timed_out ==> (r matches AppError::MediaAcquisitionTimeout),
        !timed_out ==> (r matches AppError::MediaAcquisitionFailed(m) && m@
            == "fixture media request failed"@),
{
    if timed_out {
        AppError::MediaAcquisitionTimeout
    } else {
        AppError::MediaAcquisitionFailed(owned("fixture media request failed"))
    }
}

/// Fixture metadata must describe the requested video and have a title
/// that is not blank.
pub fn check_fixture_metadata(video_id: &str, metadata: &VideoMetadata) -> (r: Result<(), AppError>)
    ensures
        metadata.id@ == video_id@ && trim_seq(metadata.title@).len() > 0 ==> r is Ok,
        !(metadata.id@ == video_id@ && trim_seq(metadata.title@).len() > 0) ==> (r matches Err(
            AppError::MetadataUnavailable,
        )),
{
    let title = trim_str(metadata.title.as_str());
    if !str_equal(metadata.id.as_str(), video_id) || title.as_str().is_empty() {
        return Err(AppError::MetadataUnavailable);
    }
    Ok(())
}

/// Counts the bytes of a streamed download.
pub struct DownloadCounter {
    pub downloaded: u64,
}

impl DownloadCounter {
    pub fn new() -> (r: Self)
        ensures
            r.downloaded == 0,
    {
        DownloadCounter { downloaded: 0 }
    }

    /// Records a received chunk of `len` bytes.
    pub fn record(&mut self, len: u64)
        requires
            old(self).downloaded + len <= u64::MAX,
        ensures
            final(self).downloaded == old(self).downloaded + len,
    {
        self.downloaded = self.downloaded + len;
    }

    /// A finished download must not be empty.
    pub fn finish(&self) -> (r: Result<(), AppError>)
        ensures
            self.downloaded > 0 ==> r is Ok,
            self.downloaded == 0 ==> (r matches Err(AppError::MediaProcessingFailed(m)) && m@
                == "downloaded media is empty"@),
    {
        if self.downloaded == 0 {
            return Err(AppError::MediaProcessingFailed(owned("downloaded media is empty")));
        }
        Ok(())
    }
}

} // verus!
