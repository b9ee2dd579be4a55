//! The yt-dlp provider: which source URL it may fetch, the arguments it
//! runs yt-dlp with, how it reads yt-dlp's output and failures.

use std::path::PathBuf;
use std::time::Duration;

use vstd::prelude::*;
use vstd::utf8::encode_utf8;

use crate::error::AppError;
use crate::external::{json_text_parses, parse_json, parse_url, url_parse_result, url_parts_view};
use crate::models::{
    valid_video_id, valid_video_id_spec, ProgressReport, VideoMetadata,
};
use crate::text::{
    ascii_lower_chars, ascii_lower_seq, chars_of, contains_chars, contains_seq, has_prefix, owned,
    push_str, replace_seq, replace_str, starts_with_chars, str_equal, string_of,
};

verus! {

/// The parts of a parsed URL that the library reads: its scheme, host,
/// whole serialization and path.
#[derive(Debug)]
pub struct UrlParts {
    pub scheme: String,
    pub host: Option<String>,
    pub serialization: String,
    pub path: String,
}

/// Runs an authorized yt-dlp executable against a trusted source.
#[derive(Debug)]
pub struct YtDlpProvider {
    pub executable: PathBuf,
    pub youtube_base_url: String,
    pub trusted_scheme: String,
    pub trusted_host: String,
    pub cookies_from_browser: Option<String>,
    pub cookies_file: Option<PathBuf>,
    pub js_runtime: Option<String>,
}

/// The source URL template: the configured one, with `{video_id}` appended
/// when it has no such placeholder.
pub open spec fn source_template(base: Seq<char>) -> Seq<char> {
    if contains_seq(base, "{video_id}"@) {
        base
    } else {
        base + "{video_id}"@
    }
}

/// What a provider is made of, given the source template and the parse of
/// the template with a sample identifier put in: the template must parse as
/// an HTTP(S) URL with a host, whose scheme and host become the trusted
/// ones, and at most one cookie source may be given.
pub open spec fn provider_from_parsed_spec(
    r: Result<YtDlpProvider, AppError>,
    executable: PathBuf,
    template: Seq<char>,
    parsed: Result<(Seq<char>, Option<Seq<char>>, Seq<char>, Seq<char>), Seq<char>>,
    cookies_from_browser: Option<String>,
    cookies_file: Option<PathBuf>,
) -> bool {
    match parsed {
        Err(e) => r matches Err(AppError::Configuration(m)) && m@
            == "invalid LOCALTUBE_YOUTUBE_BASE_URL: "@ + e,
        Ok((scheme, host, _, _)) => match host {
            None => r matches Err(AppError::Configuration(m)) && m@
                == "LOCALTUBE_YOUTUBE_BASE_URL must include a host"@,
            Some(h) => if scheme != "http"@ && scheme != "https"@ {
                r matches Err(AppError::Configuration(m)) && m@
                    == "LOCALTUBE_YOUTUBE_BASE_URL must use http or https"@
            } else if cookies_from_browser is Some && cookies_file is Some {
                r matches Err(AppError::Configuration(m)) && m@
                    == "set only one of yt-dlp cookies-from-browser or cookies file"@
            } else {
                r matches Ok(p) && p.executable == executable && p.youtube_base_url@ == template
                    && p.trusted_scheme@ == scheme && p.trusted_host@ == h
                    && p.cookies_from_browser == cookies_from_browser && p.cookies_file
                    == cookies_file && p.js_runtime is None
            },
        },
    }
}

/// The sample source URL that a template is checked with.
pub open spec fn probe_url(template: Seq<char>) -> Seq<char> {
    replace_seq(template, "{video_id}"@, "demo"@)
}

/// What `YtDlpProvider::new` gives.
pub open spec fn new_provider_spec(
    r: Result<YtDlpProvider, AppError>,
    executable: PathBuf,
    base: Seq<char>,
    cookies_from_browser: Option<String>,
    cookies_file: Option<PathBuf>,
) -> bool {
    let template = source_template(base);
    provider_from_parsed_spec(
        r,
        executable,
        template,
        url_parse_result(probe_url(template)),
        cookies_from_browser,
        cookies_file,
    )
}

/// What a source URL is accepted as, given its parse: itself, when it has
/// the provider's trusted scheme and host.
pub open spec fn checked_source_spec(
    p: YtDlpProvider,
    source: Seq<char>,
    parsed: Result<(Seq<char>, Option<Seq<char>>, Seq<char>, Seq<char>), Seq<char>>,
    r: Result<String, AppError>,
) -> bool {
    match parsed {
        Err(e) => r matches Err(AppError::YtDlpMetadataFailed(m)) && m@ == "invalid source URL: "@
            + e,
        Ok((scheme, host, _, _)) => if scheme != p.trusted_scheme@ || host != Some(p.trusted_host@) {
            r matches Err(AppError::YtDlpMetadataFailed(m)) && m@
                == "source URL host/scheme mismatch"@
        } else {
            r matches Ok(s) && s@ == source
        },
    }
}

/// What `YtDlpProvider::source_url` gives for `video_id`.
pub open spec fn source_url_spec(p: YtDlpProvider, video_id: Seq<char>, r: Result<String, AppError>) -> bool {
    let source = replace_seq(p.youtube_base_url@, "{video_id}"@, video_id);
    if !valid_video_id_spec(video_id) {
        r matches Err(AppError::InvalidVideoId)
    } else {
        checked_source_spec(p, source, url_parse_result(source), r)
    }
}

/// One argument of a yt-dlp command line: text, or a filesystem path.
#[derive(Debug)]
pub enum CommandArg {
    Text(String),
    Path(PathBuf),
}

/// The abstract form of a command-line argument.
pub enum ArgView {
    Text(Seq<char>),
    Path(PathBuf),
}

pub open spec fn arg_view(a: CommandArg) -> ArgView {
    match a {
        CommandArg::Text(s) => ArgView::Text(s@),
        CommandArg::Path(p) => ArgView::Path(p),
    }
}

pub open spec fn arg_views(v: Seq<CommandArg>) -> Seq<ArgView> {
    v.map_values(|a: CommandArg| arg_view(a))
}

pub open spec fn text_args(v: Seq<Seq<char>>) -> Seq<ArgView> {
    v.map_values(|s: Seq<char>| ArgView::Text(s))
}

/// The authentication arguments: the JavaScript runtime, then the browser
/// to take cookies from, then the cookies file, each only when configured.
pub open spec fn auth_args_spec(p: YtDlpProvider) -> Seq<ArgView> {
    (match p.js_runtime {
        Some(r) => seq![ArgView::Text("--js-runtimes"@), ArgView::Text(r@)],
        None => seq![],
    }) + (match p.cookies_from_browser {
        Some(s) => seq![ArgView::Text("--cookies-from-browser"@), ArgView::Text(s@)],
        None => seq![],
    }) + (match p.cookies_file {
        Some(f) => seq![ArgView::Text("--cookies"@), ArgView::Path(f)],
        None => seq![],
    })
}

pub open spec fn metadata_flags() -> Seq<Seq<char>> {
    seq![
        "--ignore-config"@,
        "--dump-single-json"@,
        "--skip-download"@,
        "--ignore-no-formats-error"@,
        "--no-playlist"@,
    ]
}

pub open spec fn acquisition_flags() -> Seq<Seq<char>> {
    seq![
        "--ignore-config"@,
        "--no-playlist"@,
        "--newline"@,
        "--progress"@,
        "--progress-template"@,
        "download:localtube:download:%(progress)j"@,
        "--progress-template"@,
        "postprocess:localtube:processing:%(progress)j"@,
        "--no-part"@,
        "--merge-output-format"@,
        "mp4"@,
        "--remux-video"@,
        "mp4"@,
    ]
}

/// The arguments of the metadata command.
pub open spec fn metadata_args_spec(p: YtDlpProvider, source: Seq<char>) -> Seq<ArgView> {
    text_args(metadata_flags()) + auth_args_spec(p) + seq![ArgView::Text(source)]
}

/// The arguments of the acquisition command.
pub open spec fn acquisition_args_spec(p: YtDlpProvider, source: Seq<char>, output: PathBuf) -> Seq<
    ArgView,
> {
    text_args(acquisition_flags()) + auth_args_spec(p) + seq![
        ArgView::Text("-o"@),
        ArgView::Path(output),
        ArgView::Text(source),
    ]
}

pub(crate) fn push_text(args: &mut Vec<CommandArg>, s: &str)
    ensures
        arg_views(final(args)@) == arg_views(old(args)@).push(ArgView::Text(s@)),
{
    let ghost before = args@;
    args.push(CommandArg::Text(owned(s)));
    assert(arg_views(args@) =~= arg_views(before).push(ArgView::Text(s@)));
}

pub(crate) fn push_texts(args: &mut Vec<CommandArg>, items: &[&str])
    ensures
        arg_views(final(args)@) == arg_views(old(args)@) + text_args(
            items@.map_values(|s: &str| s@),
        ),
{
    let ghost before = arg_views(args@);
    let mut i: usize = 0;
    while i < items.len()
        invariant
            i <= items.len(),
            arg_views(args@) == before + text_args(items@.map_values(|s: &str| s@).take(i as int)),
        decreases items.len() - i,
    {
        push_text(args, items[i]);
        i = i + 1;
        assert(text_args(items@.map_values(|s: &str| s@).take(i as int)) =~= text_args(
            items@.map_values(|s: &str| s@).take((i - 1) as int),
        ).push(ArgView::Text(items@[i - 1]@)));
    }
    assert(items@.map_values(|s: &str| s@).take(items.len() as int) =~= items@.map_values(
        |s: &str| s@,
    ));
}

impl YtDlpProvider {
    /// A provider for the configured executable and source template.  The
    /// template must parse as an HTTP(S) URL with a host once a video
    /// identifier is put in, and at most one cookie source may be given.
    pub fn new(
        executable: PathBuf,
        youtube_base_url: String,
        cookies_from_browser: Option<String>,
        cookies_file: Option<PathBuf>,
        _request_timeout: Duration,
    ) -> (r: Result<Self, AppError>)
        ensures
            new_provider_spec(
                r,
                executable,
                youtube_base_url@,
                cookies_from_browser,
                cookies_file,
            ),
    {
        let base = chars_of(youtube_base_url.as_str());
        let placeholder = chars_of("{video_id}");
        let template = if contains_chars(base.as_slice(), placeholder.as_slice()) {
            youtube_base_url
        } else {
            let mut t = youtube_base_url;
            push_str(&mut t, "{video_id}");
            t
        };
        proof {
            reveal_strlit("{video_id}");
        }
        let probe = replace_str(template.as_str(), "{video_id}", "demo");
        let parsed = parse_url(probe.as_str());
        Self::from_parsed_template(executable, template, parsed, cookies_from_browser, cookies_file)
    }

    /// A provider for the source template `template`, given the parse of
    /// the template with a sample identifier put in.
    pub fn from_parsed_template(
        executable: PathBuf,
        template: String,
        parsed: Result<UrlParts, String>,
        cookies_from_browser: Option<String>,
        cookies_file: Option<PathBuf>,
    ) -> (r: Result<Self, AppError>)
        ensures
            provider_from_parsed_spec(
                r,
                executable,
                template@,
                url_parts_view(parsed),
                cookies_from_browser,
                cookies_file,
            ),
    {
        let parts = match parsed {
            Ok(parts) => parts,
            Err(error) => {
                let mut m = owned("invalid LOCALTUBE_YOUTUBE_BASE_URL: ");
                push_str(&mut m, error.as_str());
                return Err(AppError::Configuration(m));
            },
        };
        let host = match parts.host {
            Some(h) => h,
            None => {
                return Err(
                    AppError::Configuration(owned("LOCALTUBE_YOUTUBE_BASE_URL must include a host")),
                );
            },
        };
        let scheme = parts.scheme;
        if !str_equal(scheme.as_str(), "http") && !str_equal(scheme.as_str(), "https") {
            return Err(
                AppError::Configuration(owned("LOCALTUBE_YOUTUBE_BASE_URL must use http or https")),
            );
        }
        if cookies_from_browser.is_some() && cookies_file.is_some() {
            return Err(
                AppError::Configuration(
                    owned("set only one of yt-dlp cookies-from-browser or cookies file"),
                ),
            );
        }
        Ok(YtDlpProvider {
            executable,
            youtube_base_url: template,
            trusted_scheme: scheme,
            trusted_host: host,
            cookies_from_browser,
            cookies_file,
            js_runtime: None,
        })
    }

    /// The same provider, passing `js_runtime` to yt-dlp.
    pub fn with_js_runtime(self, js_runtime: String) -> (r: Self)
        ensures
            r == (YtDlpProvider { js_runtime: Some(js_runtime), ..self }),
    {
        YtDlpProvider { js_runtime: Some(js_runtime), ..self }
    }

    /// The source URL for `video_id`: the template with the identifier put
    /// in, provided the identifier is valid and the URL keeps the trusted
    /// scheme and host.
    pub fn source_url(&self, video_id: &str) -> (r: Result<String, AppError>)
        ensures
            source_url_spec(*self, video_id@, r),
    {
        if !valid_video_id(video_id) {
            return Err(AppError::InvalidVideoId);
        }
        proof {
            reveal_strlit("{video_id}");
        }
        let source = replace_str(self.youtube_base_url.as_str(), "{video_id}", video_id);
        let parsed = parse_url(source.as_str());
        self.check_source(source, parsed)
    }

    /// Accepts the source URL `source`, given its parse, when it keeps the
    /// trusted scheme and host.
    pub fn check_source(&self, source: String, parsed: Result<UrlParts, String>) -> (r: Result<
        String,
        AppError,
    >)
        ensures
            checked_source_spec(*self, source@, url_parts_view(parsed), r),
    {
        let parts = match parsed {
            Ok(parts) => parts,
            Err(error) => {
                let mut m = owned("invalid source URL: ");
                push_str(&mut m, error.as_str());
                return Err(AppError::YtDlpMetadataFailed(m));
            },
        };
        let host_matches = match &parts.host {
            Some(h) => str_equal(h.as_str(), self.trusted_host.as_str()),
            None => false,
        };
        if !str_equal(parts.scheme.as_str(), self.trusted_scheme.as_str()) || !host_matches {
            return Err(AppError::YtDlpMetadataFailed(owned("source URL host/scheme mismatch")));
        }
        Ok(source)
    }

    /// The authentication arguments.
    pub fn auth_args(&self) -> (r: Vec<CommandArg>)
        ensures
            arg_views(r@) == auth_args_spec(*self),
    {
        let mut args: Vec<CommandArg> = Vec::new();
        match &self.js_runtime {
            Some(runtime) => {
                push_text(&mut args, "--js-runtimes");
                push_text(&mut args, runtime.as_str());
            },
            None => {},
        }
        match &self.cookies_from_browser {
            Some(source) => {
                push_text(&mut args, "--cookies-from-browser");
                push_text(&mut args, source.as_str());
            },
            None => {},
        }
        match &self.cookies_file {
            Some(file) => {
                push_text(&mut args, "--cookies");
                let ghost before = args@;
                args.push(CommandArg::Path(file.clone()));
                assert(arg_views(args@) =~= arg_views(before).push(ArgView::Path(*file)));
            },
            None => {},
        }
        assert(arg_views(args@) =~= auth_args_spec(*self));
        args
    }

    /// The arguments that make yt-dlp print the metadata of `source_url`.
    pub fn metadata_args(&self, source_url: &str) -> (r: Vec<CommandArg>)
        ensures
            arg_views(r@) == metadata_args_spec(*self, source_url@),
    {
        let mut args: Vec<CommandArg> = Vec::new();
        let flags: [&str; 5] = [
            "--ignore-config",
            "--dump-single-json",
            "--skip-download",
            "--ignore-no-formats-error",
            "--no-playlist",
        ];
        push_texts(&mut args, flags.as_slice());
        assert(flags@.map_values(|s: &str| s@) =~= metadata_flags());
        let auth = self.auth_args();
        let ghost before = arg_views(args@);
        let mut auth = auth;
        args.append(&mut auth);
        assert(arg_views(args@) =~= before + auth_args_spec(*self));
        push_text(&mut args, source_url);
        assert(arg_views(args@) =~= metadata_args_spec(*self, source_url@));
        args
    }

    /// The arguments that make yt-dlp write the media of `source_url` to
    /// `output`, reporting machine-readable progress.
    pub fn acquisition_args(&self, source_url: &str, output: &PathBuf) -> (r: Vec<CommandArg>)
        ensures
            arg_views(r@) == acquisition_args_spec(*self, source_url@, *output),
    {
        let mut args: Vec<CommandArg> = Vec::new();
        let flags: [&str; 13] = [
            "--ignore-config",
            "--no-playlist",
            "--newline",
            "--progress",
            "--progress-template",
            "download:localtube:download:%(progress)j",
            "--progress-template",
            "postprocess:localtube:processing:%(progress)j",
            "--no-part",
            "--merge-output-format",
            "mp4",
            "--remux-video",
            "mp4",
        ];
        push_texts(&mut args, flags.as_slice());
        assert(flags@.map_values(|s: &str| s@) =~= acquisition_flags());
        let auth = self.auth_args();
        let ghost before = arg_views(args@);
        let mut auth = auth;
        args.append(&mut auth);
        assert(arg_views(args@) =~= before + auth_args_spec(*self));
        push_text(&mut args, "-o");
        let ghost before2 = args@;
        args.push(CommandArg::Path(output.clone()));
        assert(arg_views(args@) =~= arg_views(before2).push(ArgView::Path(*output)));
        push_text(&mut args, source_url);
        assert(arg_views(args@) =~= acquisition_args_spec(*self, source_url@, *output));
        args
    }
}

// ---------------------------------------------------------------------
// Failures and metadata
// ---------------------------------------------------------------------

/// The error for a yt-dlp process that could not be started: a missing
/// executable, or any other failure with its description.
pub fn execution_failure(not_found: bool, detail: &str) -> (r: AppError)
    ensures
        not_found ==> (r matches AppError::YtDlpNotInstalled),
        !not_found ==> (r matches AppError::YtDlpExecutionFailed(m) && m@
            == "unable to execute yt-dlp: "@ + detail@),
{
    if not_found {
        AppError::YtDlpNotInstalled
    } else {
        let mut m = owned("unable to execute yt-dlp: ");
        push_str(&mut m, detail);
        AppError::YtDlpExecutionFailed(m)
    }
}

/// How a failed metadata run is reported, from what yt-dlp wrote to
/// standard error (compared without regard to ASCII case).
pub open spec fn metadata_failure_spec(stderr: Seq<char>, r: AppError) -> bool {
    let n = ascii_lower_seq(stderr);
    if contains_seq(n, "unsupported url"@) || contains_seq(n, "video unavailable"@)
        || contains_seq(n, "unable to extract"@) {
        r matches AppError::MetadataUnavailable
    } else if contains_seq(n, "requested format is not available"@) {
        r matches AppError::YtDlpMetadataFailed(m) && m@
            == "yt-dlp format selection failed; ensure custom yt-dlp config is compatible"@
    } else {
        r matches AppError::YtDlpMetadataFailed(m) && m@ == "yt-dlp could not fetch metadata"@
    }
}

/// The error for a metadata run that exited unsuccessfully.
pub fn metadata_failure(stderr: &str) -> (r: AppError)
    ensures
        metadata_failure_spec(stderr@, r),
{
    let raw = chars_of(stderr);
    let n = ascii_lower_chars(raw.as_slice());
    let unsupported = chars_of("unsupported url");
    let unavailable = chars_of("video unavailable");
    let unable = chars_of("unable to extract");
    let format = chars_of("requested format is not available");
    if contains_chars(n.as_slice(), unsupported.as_slice()) || contains_chars(
        n.as_slice(),
        unavailable.as_slice(),
    ) || contains_chars(n.as_slice(), unable.as_slice()) {
        AppError::MetadataUnavailable
    } else if contains_chars(n.as_slice(), format.as_slice()) {
        AppError::YtDlpMetadataFailed(
            owned("yt-dlp format selection failed; ensure custom yt-dlp config is compatible"),
        )
    } else {
        AppError::YtDlpMetadataFailed(owned("yt-dlp could not fetch metadata"))
    }
}

/// The fields of yt-dlp's metadata document that the service reads.  The
/// duration is yt-dlp's duration rounded to whole seconds.
#[derive(Debug)]
pub struct YtDlpMetadata {
    pub id: Option<String>,
    pub title: Option<String>,
    pub description: Option<String>,
    pub duration_seconds: Option<u64>,
    pub thumbnail: Option<String>,
}

/// The metadata of `video_id` from yt-dlp's document: it must have a title
/// and, if it names an identifier, name `video_id`.
pub open spec fn ytdlp_metadata_spec(
    video_id: Seq<char>,
    parsed: YtDlpMetadata,
    r: Result<VideoMetadata, AppError>,
) -> bool {
    let id = match parsed.id {
        Some(i) => i@,
        None => video_id,
    };
    match parsed.title {
        None => r matches Err(AppError::YtDlpMetadataFailed(m)) && m@
            == "yt-dlp metadata missing title"@,
        Some(title) => if id != video_id {
            r matches Err(AppError::YtDlpMetadataFailed(m)) && m@ == "yt-dlp metadata id mismatch"@
        } else {
            r matches Ok(md) && md.id@ == video_id && md.title == title && md.description
                == parsed.description && md.thumbnail_url == parsed.thumbnail
                && md.duration_seconds == parsed.duration_seconds
        },
    }
}

/// Checks yt-dlp's metadata document against the requested identifier.
pub fn metadata_from_ytdlp(video_id: &str, parsed: YtDlpMetadata) -> (r: Result<
    VideoMetadata,
    AppError,
>)
    ensures
        ytdlp_metadata_spec(video_id@, parsed, r),
{
    let id = match &parsed.id {
        Some(i) => i.clone(),
        None => owned(video_id),
    };
    let title = match parsed.title {
        Some(t) => t,
        None => {
            return Err(AppError::YtDlpMetadataFailed(owned("yt-dlp metadata missing title")));
        },
    };
    if !str_equal(id.as_str(), video_id) {
        return Err(AppError::YtDlpMetadataFailed(owned("yt-dlp metadata id mismatch")));
    }
    Ok(VideoMetadata {
        id,
        title,
        description: parsed.description,
        thumbnail_url: parsed.thumbnail,
        duration_seconds: parsed.duration_seconds,
    })
}

// ---------------------------------------------------------------------
// Output of the acquisition run
// ---------------------------------------------------------------------

/// A machine-readable progress line of yt-dlp: a download report, with
/// its JSON payload, or the start of post-processing, with the report that
/// replaces any earlier download counters.
#[derive(Debug)]
pub enum ProgressEvent {
    Downloading(serde_json::Value),
    Processing(ProgressReport),
}

pub open spec fn download_prefix() -> Seq<char> {
    "localtube:download:"@
}

pub open spec fn processing_prefix() -> Seq<char> {
    "localtube:processing:"@
}

/// A line is a progress event when it starts with the download or the
/// processing prefix and the rest is a JSON document; any other line,
/// including one with malformed JSON, is not.
pub open spec fn progress_event_spec(line: Seq<char>, r: Option<ProgressEvent>) -> bool {
    if has_prefix(line, download_prefix()) {
        let payload = line.skip(download_prefix().len() as int);
        if json_text_parses(payload) {
            r matches Some(ProgressEvent::Downloading(_))
        } else {
            r is None
        }
    } else if has_prefix(line, processing_prefix()) {
        let payload = line.skip(processing_prefix().len() as int);
        if json_text_parses(payload) {
            r matches Some(ProgressEvent::Processing(report)) && report
                == ProgressReport::processing_spec()
        } else {
            r is None
        }
    } else {
        r is None
    }
}

fn suffix_string(s: &[char], from: usize) -> (r: String)
    requires
        from <= s.len(),
    ensures
        r@ == s@.skip(from as int),
{
    let mut v: Vec<char> = Vec::new();
    let mut i = from;
    while i < s.len()
        invariant
            from <= i <= s.len(),
            v@ == s@.subrange(from as int, i as int),
        decreases s.len() - i,
    {
        v.push(s[i]);
        i = i + 1;
        assert(v@ =~= s@.subrange(from as int, i as int));
    }
    assert(s@.subrange(from as int, s.len() as int) =~= s@.skip(from as int));
    string_of(v.as_slice())
}

/// Reads one line of yt-dlp's standard output as a progress event.
pub fn progress_event(line: &str) -> (r: Option<ProgressEvent>)
    ensures
        progress_event_spec(line@, r),
{
    let s = chars_of(line);
    let download = chars_of("localtube:download:");
    let processing = chars_of("localtube:processing:");
    if starts_with_chars(s.as_slice(), download.as_slice()) {
        let payload = suffix_string(s.as_slice(), download.len());
        match parse_json(payload.as_str()) {
            Some(value) => Some(ProgressEvent::Downloading(value)),
            None => None,
        }
    } else if starts_with_chars(s.as_slice(), processing.as_slice()) {
        let payload = suffix_string(s.as_slice(), processing.len());
        match parse_json(payload.as_str()) {
            Some(_) => Some(ProgressEvent::Processing(ProgressReport::processing())),
            None => None,
        }
    } else {
        None
    }
}

/// The diagnostics kept from a yt-dlp run: whole lines, each followed by a
/// newline, until 16 KiB have been kept.
pub struct DiagnosticsLog {
    text: String,
}

/// The text kept once `line` has been offered to a log holding `text`.
pub open spec fn diagnostics_after(text: Seq<char>, line: Seq<char>) -> Seq<char> {
    if (encode_utf8(text).len() as usize) < 16_384 {
        text + line + "\n"@
    } else {
        text
    }
}

impl View for DiagnosticsLog {
    type V = Seq<char>;

    closed spec fn view(&self) -> Seq<char> {
        self.text@
    }
}

impl DiagnosticsLog {
    /// An empty log.
    pub fn new() -> (r: Self)
        ensures
            r@ == Seq::<char>::empty(),
    {
        DiagnosticsLog { text: String::new() }
    }

    /// Offers one line: it is kept, with a newline, while the log holds
    /// fewer than 16 KiB.
    pub fn record(&mut self, line: &str)
        ensures
            final(self)@ == diagnostics_after(old(self)@, line@),
    {
        if self.text.as_str().len() < 16_384 {
            push_str(&mut self.text, line);
            push_str(&mut self.text, "\n");
        }
    }

    /// The text kept so far.
    pub fn text(&self) -> (r: &str)
        ensures
            r@ == self@,
    {
        self.text.as_str()
    }
}

/// The partial artifacts yt-dlp may leave beside an output file named
/// `file_name`: `<name>.part` and `<name>.ytdl`.
pub fn partial_artifact_names(file_name: &str) -> (r: Vec<String>)
    ensures
        r@.len() == 2,
        r@[0]@ == file_name@ + ".part"@,
        r@[1]@ == file_name@ + ".ytdl"@,
{
    let mut part = owned(file_name);
    push_str(&mut part, ".part");
    let mut ytdl = owned(file_name);
    push_str(&mut ytdl, ".ytdl");
    let mut r = Vec::new();
    r.push(part);
    r.push(ytdl);
    r
}

} // verus!
