//! Service configuration: the settings read from the environment, their
//! defaults, and the checks every setting must pass.

use vstd::prelude::*;

use crate::error::AppError;
use crate::text::{chars_of, owned, parse_u64, parse_u64_seq, push_str, trim_str, has_prefix, is_ascii_alphanumeric, is_ascii_alphanumeric_char, starts_with_chars, str_equal, string_of, trim_chars, trim_seq};

verus! {

/// Which source acquires media.
#[derive(Clone, Copy, Debug, PartialEq, Eq, Structural)]
pub enum MediaProviderKind {
    Local,
    HttpFixture,
    YtDlp,
}

/// The provider named by a setting value, if any.
pub open spec fn provider_kind_spec(s: Seq<char>) -> Option<MediaProviderKind> {
    if s == "local"@ {
        Some(MediaProviderKind::Local)
    } else if s == "http-fixture"@ {
        Some(MediaProviderKind::HttpFixture)
    } else if s == "yt-dlp"@ {
        Some(MediaProviderKind::YtDlp)
    } else {
        None
    }
}

impl MediaProviderKind {
    /// Parses `local`, `http-fixture` or `yt-dlp`; anything else is refused.
    pub fn parse_kind(value: &str) -> (r: Result<Self, ()>)
        ensures
            r == (match provider_kind_spec(value@) {
                Some(k) => Ok(k),
                None => Err(()),
            }),
    {
        if str_equal(value, "local") {
            Ok(MediaProviderKind::Local)
        } else if str_equal(value, "http-fixture") {
            Ok(MediaProviderKind::HttpFixture)
        } else if str_equal(value, "yt-dlp") {
            Ok(MediaProviderKind::YtDlp)
        } else {
            Err(())
        }
    }
}

impl std::str::FromStr for MediaProviderKind {
    type Err = ();

    fn from_str(value: &str) -> (r: Result<Self, Self::Err>)
        ensures
            r == (match provider_kind_spec(value@) {
                Some(k) => Ok(k),
                None => Err(()),
            }),
    {
        Self::parse_kind(value)
    }
}

/// `node`, or `node:` followed by an absolute path on one line.
pub open spec fn valid_js_runtime_spec(s: Seq<char>) -> bool {
    ||| s == "node"@
    ||| {
        &&& has_prefix(s, "node:"@)
        &&& s.len() > "node:"@.len()
        &&& s["node:"@.len() as int] == '/'
        &&& forall|i: int|
            "node:"@.len() <= i < s.len() ==> #[trigger] s[i] != '\n' && s[i] != '\r'
    }
}

/// Whether `value` names an acceptable JavaScript runtime for yt-dlp.
pub fn valid_js_runtime(value: &str) -> (r: bool)
    ensures
        r == valid_js_runtime_spec(value@),
{
    if str_equal(value, "node") {
        return true;
    }
    let s = chars_of(value);
    let p = chars_of("node:");
    if !starts_with_chars(s.as_slice(), p.as_slice()) {
        return false;
    }
    let start = p.len();
    if start >= s.len() || s[start] != '/' {
        return false;
    }
    let mut i = start;
    while i < s.len()
        invariant
            start <= i <= s.len(),
            start == "node:"@.len(),
            s@ == value@,
            value@ != "node"@,
            forall|j: int| start <= j < i ==> #[trigger] s@[j] != '\n' && s@[j] != '\r',
        decreases s.len() - i,
    {
        if s[i] == '\n' || s[i] == '\r' {
            assert(!(s@[i as int] != '\n' && s@[i as int] != '\r'));
            return false;
        }
        i = i + 1;
    }
    true
}

pub open spec fn is_cookie_source_char(c: char) -> bool {
    is_ascii_alphanumeric(c) || c == '_' || c == '-' || c == '.' || c == ':' || c == ','
}

/// At most 128 characters, each an ASCII letter or digit or one of
/// `_ - . : ,`.  (All such characters are ASCII, so the character count is
/// the byte count.)
pub open spec fn valid_cookies_source_spec(s: Seq<char>) -> bool {
    &&& s.len() <= 128
    &&& forall|i: int| 0 <= i < s.len() ==> is_cookie_source_char(#[trigger] s[i])
}

/// Whether `value` is an acceptable yt-dlp `--cookies-from-browser` value.
pub fn valid_cookies_source(value: &str) -> (r: bool)
    ensures
        r == valid_cookies_source_spec(value@),
{
    let s = chars_of(value);
    if s.len() > 128 {
        return false;
    }
    let mut i: usize = 0;
    while i < s.len()
        invariant
            i <= s.len(),
            s@ == value@,
            forall|j: int| 0 <= j < i ==> is_cookie_source_char(#[trigger] s@[j]),
        decreases s.len() - i,
    {
        let c = s[i];
        if !(is_ascii_alphanumeric_char(c) || c == '_' || c == '-' || c == '.' || c == ':' || c
            == ',') {
            assert(!is_cookie_source_char(s@[i as int]));
            return false;
        }
        i = i + 1;
    }
    true
}

// ---------------------------------------------------------------------
// Comma-separated lists
// ---------------------------------------------------------------------

/// `str::split` on one separator character: the pieces between separators,
/// always at least one.
pub open spec fn split_seq(s: Seq<char>, sep: char) -> Seq<Seq<char>>
    decreases s.len(),
{
    if s.len() == 0 {
        seq![Seq::<char>::empty()]
    } else {
        let rest = split_seq(s.drop_last(), sep);
        if s.last() == sep {
            rest.push(Seq::<char>::empty())
        } else {
            rest.update(rest.len() - 1, rest.last().push(s.last()))
        }
    }
}

proof fn lemma_split_nonempty(s: Seq<char>, sep: char)
    ensures
        split_seq(s, sep).len() >= 1,
    decreases s.len(),
{
    if s.len() > 0 {
        lemma_split_nonempty(s.drop_last(), sep);
    }
}

pub open spec fn nonempty_piece(p: Seq<char>) -> bool {
    p.len() > 0
}

/// The items of a comma-separated list: pieces trimmed, empty ones dropped.
pub open spec fn comma_list_spec(s: Seq<char>) -> Seq<Seq<char>> {
    split_seq(s, ',').map_values(|p: Seq<char>| trim_seq(p)).filter(|p: Seq<char>| nonempty_piece(p))
}

pub open spec fn views_of(v: Seq<String>) -> Seq<Seq<char>> {
    v.map_values(|s: String| s@)
}

proof fn lemma_filter_push(s: Seq<Seq<char>>, e: Seq<char>)
    ensures
        nonempty_piece(e) ==> s.push(e).filter(|p: Seq<char>| nonempty_piece(p)) == s.filter(
            |p: Seq<char>| nonempty_piece(p),
        ).push(e),
        !nonempty_piece(e) ==> s.push(e).filter(|p: Seq<char>| nonempty_piece(p)) == s.filter(
            |p: Seq<char>| nonempty_piece(p),
        ),
{
    reveal(Seq::filter);
    assert(s.push(e).drop_last() =~= s);
}

/// The non-empty, trimmed items of a comma-separated list.
pub fn comma_separated(raw: &str) -> (r: Vec<String>)
    ensures
        views_of(r@) == comma_list_spec(raw@),
{
    let s = chars_of(raw);
    let mut done: Vec<String> = Vec::new();
    let mut current: Vec<char> = Vec::new();
    let ghost mut finished: Seq<Seq<char>> = Seq::empty();
    let mut i: usize = 0;
    assert(s@.take(0) =~= Seq::<char>::empty());
    while i < s.len()
        invariant
            i <= s.len(),
            s@ == raw@,
            split_seq(s@.take(i as int), ',') == finished.push(current@),
            views_of(done@) == finished.map_values(|p: Seq<char>| trim_seq(p)).filter(
                |p: Seq<char>| nonempty_piece(p),
            ),
        decreases s.len() - i,
    {
        let c = s[i];
        let ghost prefix = s@.take(i as int);
        assert(s@.take(i + 1).drop_last() =~= prefix);
        assert(s@.take(i + 1).last() == c);
        if c == ',' {
            let item = trim_chars(current.as_slice());
            let ghost raw_piece = current@;
            proof {
                lemma_filter_push(finished.map_values(|p: Seq<char>| trim_seq(p)), trim_seq(raw_piece));
                assert(finished.push(raw_piece).map_values(|p: Seq<char>| trim_seq(p)) =~= finished.map_values(
                    |p: Seq<char>| trim_seq(p),
                ).push(trim_seq(raw_piece)));
            }
            if item.len() > 0 {
                let ghost old_done = done@;
                done.push(string_of(item.as_slice()));
                assert(views_of(done@) =~= views_of(old_done).push(item@));
            }
            proof {
                finished = finished.push(raw_piece);
            }
            current = Vec::new();
        } else {
            let ghost old_current = current@;
            current.push(c);
            assert(finished.push(old_current).update(finished.len() as int, old_current.push(c)) =~= finished.push(current@));
        }
        i = i + 1;
    }
    assert(s@.take(s.len() as int) =~= s@);
    let item = trim_chars(current.as_slice());
    proof {
        lemma_filter_push(finished.map_values(|p: Seq<char>| trim_seq(p)), trim_seq(current@));
        assert(finished.push(current@).map_values(|p: Seq<char>| trim_seq(p)) =~= finished.map_values(
            |p: Seq<char>| trim_seq(p),
        ).push(trim_seq(current@)));
    }
    if item.len() > 0 {
        let ghost old_done = done@;
        done.push(string_of(item.as_slice()));
        assert(views_of(done@) =~= views_of(old_done).push(item@));
    }
    done
}

// ---------------------------------------------------------------------
// Settings and the configuration they give
// ---------------------------------------------------------------------

/// The raw value of each `LOCALTUBE_*` environment variable: `None` where
/// the variable is unset or not valid Unicode.
#[derive(Debug)]
pub struct EnvSettings {
    pub host: Option<String>,
    pub port: Option<String>,
    pub cache_dir: Option<String>,
    pub media_dir: Option<String>,
    pub session_timeout: Option<String>,
    pub cleanup_interval: Option<String>,
    pub max_concurrent_downloads: Option<String>,
    pub allowed_origins: Option<String>,
    pub media_provider: Option<String>,
    pub fixture_base_url: Option<String>,
    pub ytdlp_path: Option<String>,
    pub youtube_base_url: Option<String>,
    pub ytdlp_cookies_from_browser: Option<String>,
    pub ytdlp_cookies_file: Option<String>,
    pub ytdlp_js_runtime: Option<String>,
    pub acquisition_timeout: Option<String>,
    pub fixture_connect_timeout: Option<String>,
}

/// The validated configuration.  Durations are whole seconds.
#[derive(Debug)]
pub struct Config {
    pub host: String,
    pub port: u16,
    pub cache_dir: String,
    pub media_dir: String,
    pub session_timeout_secs: u64,
    pub cleanup_interval_secs: u64,
    pub max_concurrent_downloads: usize,
    pub allowed_origins: Vec<String>,
    pub media_provider: MediaProviderKind,
    pub fixture_base_url: String,
    pub ytdlp_path: String,
    pub youtube_base_url: String,
    pub ytdlp_cookies_from_browser: Option<String>,
    pub ytdlp_cookies_file: Option<String>,
    pub ytdlp_js_runtime: String,
    pub acquisition_timeout_secs: u64,
    pub fixture_connect_timeout_secs: u64,
}

/// A setting's value, or its default when unset.
pub open spec fn setting_text(v: Option<String>, default: Seq<char>) -> Seq<char> {
    match v {
        Some(s) => s@,
        None => default,
    }
}

/// A numeric setting: its default when unset, else its value if it parses.
pub open spec fn setting_u64(v: Option<String>, default: u64) -> Option<u64> {
    match v {
        Some(s) => parse_u64_seq(s@),
        None => Some(default),
    }
}

pub open spec fn setting_u16(v: Option<String>, default: u16) -> Option<u16> {
    match v {
        Some(s) => match parse_u64_seq(s@) {
            Some(n) => if n <= u16::MAX {
                Some(n as u16)
            } else {
                None
            },
            None => None,
        },
        None => Some(default),
    }
}

pub open spec fn setting_usize(v: Option<String>, default: usize) -> Option<usize> {
    match v {
        Some(s) => match parse_u64_seq(s@) {
            Some(n) => if n <= usize::MAX {
                Some(n as usize)
            } else {
                None
            },
            None => None,
        },
        None => Some(default),
    }
}

pub open spec fn setting_kind(v: Option<String>) -> Option<MediaProviderKind> {
    match v {
        Some(s) => provider_kind_spec(s@),
        None => Some(MediaProviderKind::Local),
    }
}

/// An optional text setting: trimmed, and absent when empty.
pub open spec fn optional_setting(v: Option<String>) -> Option<Seq<char>> {
    match v {
        Some(s) => if trim_seq(s@).len() > 0 {
            Some(trim_seq(s@))
        } else {
            None
        },
        None => None,
    }
}

pub open spec fn opt_view(v: Option<String>) -> Option<Seq<char>> {
    match v {
        Some(s) => Some(s@),
        None => None,
    }
}

/// The cleanup interval used when none is set: the session timeout, at
/// most 300 seconds and at least 1.
pub open spec fn cleanup_default(timeout: u64) -> u64 {
    if timeout == 0 {
        1
    } else if timeout < 300 {
        timeout
    } else {
        300
    }
}

pub open spec fn invalid_value_message(name: Seq<char>) -> Seq<char> {
    name + " has an invalid value"@
}

/// The first problem with the settings, in the order they are checked.
pub open spec fn config_error(s: EnvSettings, host_ok: bool) -> Option<Seq<char>> {
    let timeout = setting_u64(s.session_timeout, 1800);
    if !host_ok {
        Some("LOCALTUBE_HOST must be a valid IP address"@)
    } else if setting_u16(s.port, 6969) is None {
        Some(invalid_value_message("LOCALTUBE_PORT"@))
    } else if timeout is None {
        Some(invalid_value_message("LOCALTUBE_SESSION_TIMEOUT"@))
    } else if optional_setting(s.ytdlp_cookies_from_browser) is Some && optional_setting(
        s.ytdlp_cookies_file,
    ) is Some {
        Some(
            "set only one of LOCALTUBE_YTDLP_COOKIES_FROM_BROWSER or LOCALTUBE_YTDLP_COOKIES_FILE"@,
        )
    } else if optional_setting(s.ytdlp_cookies_from_browser) is Some && !valid_cookies_source_spec(
        optional_setting(s.ytdlp_cookies_from_browser).unwrap(),
    ) {
        Some("LOCALTUBE_YTDLP_COOKIES_FROM_BROWSER contains invalid characters"@)
    } else if !valid_js_runtime_spec(setting_text(s.ytdlp_js_runtime, "node"@)) {
        Some("LOCALTUBE_YTDLP_JS_RUNTIME must be node or node:/absolute/path"@)
    } else if setting_u64(s.cleanup_interval, cleanup_default(timeout.unwrap())) is None {
        Some(invalid_value_message("LOCALTUBE_CLEANUP_INTERVAL"@))
    } else if setting_usize(s.max_concurrent_downloads, 2) is None {
        Some(invalid_value_message("LOCALTUBE_MAX_CONCURRENT_DOWNLOADS"@))
    } else if setting_kind(s.media_provider) is None {
        Some(invalid_value_message("LOCALTUBE_MEDIA_PROVIDER"@))
    } else if setting_u64(s.acquisition_timeout, timeout.unwrap()) is None {
        Some(invalid_value_message("LOCALTUBE_ACQUISITION_TIMEOUT"@))
    } else if setting_u64(s.fixture_connect_timeout, 3) is None {
        Some(invalid_value_message("LOCALTUBE_FIXTURE_CONNECT_TIMEOUT"@))
    } else {
        None
    }
}

/// The configuration that settings without a problem give.
pub open spec fn config_from_spec(c: Config, s: EnvSettings) -> bool {
    let timeout = setting_u64(s.session_timeout, 1800).unwrap();
    &&& c.host@ == setting_text(s.host, "127.0.0.1"@)
    &&& c.port == setting_u16(s.port, 6969).unwrap()
    &&& c.cache_dir@ == setting_text(s.cache_dir, "cache"@)
    &&& c.media_dir@ == setting_text(s.media_dir, "media"@)
    &&& c.session_timeout_secs == timeout
    &&& c.cleanup_interval_secs == setting_u64(s.cleanup_interval, cleanup_default(timeout)).unwrap()
    &&& c.max_concurrent_downloads == (if setting_usize(s.max_concurrent_downloads, 2).unwrap() < 1 {
        1
    } else {
        setting_usize(s.max_concurrent_downloads, 2).unwrap()
    })
    &&& views_of(c.allowed_origins@) == comma_list_spec(setting_text(s.allowed_origins, ""@))
    &&& c.media_provider == setting_kind(s.media_provider).unwrap()
    &&& c.fixture_base_url@ == setting_text(s.fixture_base_url, "http://127.0.0.1:6970"@)
    &&& c.ytdlp_path@ == setting_text(s.ytdlp_path, "yt-dlp"@)
    &&& c.youtube_base_url@ == setting_text(
        s.youtube_base_url,
        "https://www.youtube.com/watch?v={video_id}"@,
    )
    &&& opt_view(c.ytdlp_cookies_from_browser) == optional_setting(s.ytdlp_cookies_from_browser)
    &&& opt_view(c.ytdlp_cookies_file) == optional_setting(s.ytdlp_cookies_file)
    &&& c.ytdlp_js_runtime@ == setting_text(s.ytdlp_js_runtime, "node"@)
    &&& c.acquisition_timeout_secs == setting_u64(s.acquisition_timeout, timeout).unwrap()
    &&& c.fixture_connect_timeout_secs == setting_u64(s.fixture_connect_timeout, 3).unwrap()
}

fn text_setting(v: &Option<String>, default: &str) -> (r: String)
    ensures
        r@ == setting_text(*v, default@),
{
    match v {
        Some(s) => s.clone(),
        None => owned(default),
    }
}

fn invalid_value(name: &str) -> (r: AppError)
    ensures
        r matches AppError::Configuration(m) && m@ == invalid_value_message(name@),
{
    let mut m = owned(name);
    push_str(&mut m, " has an invalid value");
    AppError::Configuration(m)
}

fn u64_setting(v: &Option<String>, default: u64, name: &str) -> (r: Result<u64, AppError>)
    ensures
        match setting_u64(*v, default) {
            Some(n) => r matches Ok(x) && x == n,
            None => r matches Err(AppError::Configuration(m)) && m@ == invalid_value_message(name@),
        },
{
    match v {
        Some(s) => match parse_u64(s.as_str()) {
            Some(n) => Ok(n),
            None => Err(invalid_value(name)),
        },
        None => Ok(default),
    }
}

fn optional_text(v: &Option<String>) -> (r: Option<String>)
    ensures
        opt_view(r) == optional_setting(*v),
{
    match v {
        Some(s) => {
            let t = trim_str(s.as_str());
            if t.as_str().is_empty() {
                None
            } else {
                Some(t)
            }
        },
        None => None,
    }
}

impl Config {
    /// The host text that must name an IP address.
    pub fn effective_host(settings: &EnvSettings) -> (r: String)
        ensures
            r@ == setting_text(settings.host, "127.0.0.1"@),
    {
        text_setting(&settings.host, "127.0.0.1")
    }

    /// Builds the configuration from the raw settings.  `host_ok` tells
    /// whether [`Config::effective_host`] parses as an IP address.
    pub fn from_settings(settings: &EnvSettings, host_ok: bool) -> (r: Result<Config, AppError>)
        ensures
            match config_error(*settings, host_ok) {
                Some(msg) => r matches Err(AppError::Configuration(m)) && m@ == msg,
                None => r matches Ok(c) && config_from_spec(c, *settings),
            },
    {
        if !host_ok {
            return Err(AppError::Configuration(owned("LOCALTUBE_HOST must be a valid IP address")));
        }
        let port = match &settings.port {
            Some(s) => match parse_u64(s.as_str()) {
                Some(n) => if n <= 65535 {
                    n as u16
                } else {
                    return Err(invalid_value("LOCALTUBE_PORT"));
                },
                None => {
                    return Err(invalid_value("LOCALTUBE_PORT"));
                },
            },
            None => 6969,
        };
        let session_timeout = u64_setting(
            &settings.session_timeout,
            1800,
            "LOCALTUBE_SESSION_TIMEOUT",
        )?;
        let cleanup_default_secs: u64 = if session_timeout == 0 {
            1
        } else if session_timeout < 300 {
            session_timeout
        } else {
            300
        };
        let cookies_from_browser = optional_text(&settings.ytdlp_cookies_from_browser);
        let cookies_file = optional_text(&settings.ytdlp_cookies_file);
        let js_runtime = text_setting(&settings.ytdlp_js_runtime, "node");
        if cookies_from_browser.is_some() && cookies_file.is_some() {
            return Err(
                AppError::Configuration(
                    owned(
                        "set only one of LOCALTUBE_YTDLP_COOKIES_FROM_BROWSER or LOCALTUBE_YTDLP_COOKIES_FILE",
                    ),
                ),
            );
        }
        match &cookies_from_browser {
            Some(source) => {
                if !valid_cookies_source(source.as_str()) {
                    return Err(
                        AppError::Configuration(
                            owned("LOCALTUBE_YTDLP_COOKIES_FROM_BROWSER contains invalid characters"),
                        ),
                    );
                }
            },
            None => {},
        }
        if !valid_js_runtime(js_runtime.as_str()) {
            return Err(
                AppError::Configuration(
                    owned("LOCALTUBE_YTDLP_JS_RUNTIME must be node or node:/absolute/path"),
                ),
            );
        }
        let cache_dir = text_setting(&settings.cache_dir, "cache");
        let media_dir = text_setting(&settings.media_dir, "media");
        let cleanup_interval = u64_setting(
            &settings.cleanup_interval,
            cleanup_default_secs,
            "LOCALTUBE_CLEANUP_INTERVAL",
        )?;
        let max_concurrent: usize = match &settings.max_concurrent_downloads {
            Some(s) => match parse_u64(s.as_str()) {
                Some(n) => if n <= usize::MAX as u64 {
                    n as usize
                } else {
                    return Err(invalid_value("LOCALTUBE_MAX_CONCURRENT_DOWNLOADS"));
                },
                None => {
                    return Err(invalid_value("LOCALTUBE_MAX_CONCURRENT_DOWNLOADS"));
                },
            },
            None => 2,
        };
        let max_concurrent_downloads: usize = if max_concurrent < 1 {
            1
        } else {
            max_concurrent
        };
        let allowed_origins = match &settings.allowed_origins {
            Some(s) => comma_separated(s.as_str()),
            None => comma_separated(""),
        };
        let media_provider = match &settings.media_provider {
            Some(s) => match MediaProviderKind::parse_kind(s.as_str()) {
                Ok(k) => k,
                Err(()) => {
                    return Err(invalid_value("LOCALTUBE_MEDIA_PROVIDER"));
                },
            },
            None => MediaProviderKind::Local,
        };
        let fixture_base_url = text_setting(&settings.fixture_base_url, "http://127.0.0.1:6970");
        let ytdlp_path = text_setting(&settings.ytdlp_path, "yt-dlp");
        let youtube_base_url = text_setting(
            &settings.youtube_base_url,
            "https://www.youtube.com/watch?v={video_id}",
        );
        let acquisition_timeout = u64_setting(
            &settings.acquisition_timeout,
            session_timeout,
            "LOCALTUBE_ACQUISITION_TIMEOUT",
        )?;
        let fixture_connect_timeout = u64_setting(
            &settings.fixture_connect_timeout,
            3,
            "LOCALTUBE_FIXTURE_CONNECT_TIMEOUT",
        )?;
        Ok(Config {
            host: Config::effective_host(settings),
            port,
            cache_dir,
            media_dir,
            session_timeout_secs: session_timeout,
            cleanup_interval_secs: cleanup_interval,
            max_concurrent_downloads,
            allowed_origins,
            media_provider,
            fixture_base_url,
            ytdlp_path,
            youtube_base_url,
            ytdlp_cookies_from_browser: cookies_from_browser,
            ytdlp_cookies_file: cookies_file,
            ytdlp_js_runtime: js_runtime,
            acquisition_timeout_secs: acquisition_timeout,
            fixture_connect_timeout_secs: fixture_connect_timeout,
        })
    }
}

} // verus!
