//! Declarations of the std and outside types the library carries, and the
//! trusted declarations through which it calls outside code.  Everything here is
//! believed by the verifier without proof.

use vstd::prelude::*;

use crate::session::Timestamp;
use crate::ytdlp::UrlParts;

verus! {

/// `std::path::PathBuf`, carried opaquely.
#[verifier::external_type_specification]
#[verifier::external_body]
pub struct ExPathBuf(std::path::PathBuf);

/// `<PathBuf as Clone>::clone`: the clone is the same path.
pub assume_specification[ <std::path::PathBuf as Clone>::clone ](p: &std::path::PathBuf) -> (r:
    std::path::PathBuf)
    ensures
        r == *p,
;

/// A fresh random (version 4) session identifier: `uuid::Uuid::new_v4`,
/// taken as its 128-bit value.  The value is random, so nothing is promised
/// of it.
#[verifier::external_body]
pub(crate) fn new_session_id() -> u128 {
    uuid::Uuid::new_v4().as_u128()
}

/// The current time: `chrono::Utc::now`, taken as whole seconds since the
/// Unix epoch and the nanoseconds past that second.  chrono documents the
/// nanoseconds as below 2,000,000,000 (they pass 999,999,999 only within a
/// leap second).  Which time comes back is not stated.
#[verifier::external_body]
pub(crate) fn utc_now() -> (r: Timestamp)
    ensures
        r.nanos < 2_000_000_000,
{
    let now = chrono::Utc::now();
    Timestamp { secs: now.timestamp(), nanos: now.timestamp_subsec_nanos() }
}

/// Hexadecimal digit `d` (0..16) in lower case.
pub open spec fn hex_digit(d: int) -> char {
    if d < 10 {
        (d + 48) as char
    } else {
        (d + 87) as char
    }
}

/// The `k`-th of the 32 hexadecimal digits of `id`, most significant first.
pub open spec fn uuid_nibble(id: u128, k: int) -> int {
    (id as int / vstd::arithmetic::power::pow(16, (31 - k) as nat)) % 16
}

/// The hyphenated lower-case form of a UUID: 32 hexadecimal digits of its
/// big-endian value, in groups of 8, 4, 4, 4 and 12 separated by `-`.
pub open spec fn uuid_text_spec(id: u128) -> Seq<char> {
    Seq::new(
        36,
        |i: int|
            if i == 8 || i == 13 || i == 18 || i == 23 {
                '-'
            } else {
                let k = if i < 8 {
                    i
                } else if i < 13 {
                    i - 1
                } else if i < 18 {
                    i - 2
                } else if i < 23 {
                    i - 3
                } else {
                    i - 4
                };
                hex_digit(uuid_nibble(id, k))
            },
    )
}

/// The display text of `uuid::Uuid::from_u128(id)`, which the uuid crate
/// documents and implements as the hyphenated lower-case form.
#[verifier::external_body]
pub(crate) fn uuid_text(id: u128) -> (r: String)
    ensures
        r@ == uuid_text_spec(id),
{
    uuid::Uuid::from_u128(id).to_string()
}

/// `serde_json::Value`, carried opaquely.
#[verifier::external_type_specification]
#[verifier::external_body]
pub struct ExJsonValue(serde_json::Value);

/// What `reqwest::Url::parse` (the url crate's parser) gives for `input`:
/// the parsed URL's scheme, host, serialization and path, or the display
/// text of the parse error.
pub uninterp spec fn url_parse_result(input: Seq<char>) -> Result<
    (Seq<char>, Option<Seq<char>>, Seq<char>, Seq<char>),
    Seq<char>,
>;

/// The view of a converted parse outcome.
pub open spec fn url_parts_view(r: Result<UrlParts, String>) -> Result<
    (Seq<char>, Option<Seq<char>>, Seq<char>, Seq<char>),
    Seq<char>,
> {
    match r {
        Ok(p) => Ok(
            (
                p.scheme@,
                match p.host {
                    Some(h) => Some(h@),
                    None => None,
                },
                p.serialization@,
                p.path@,
            ),
        ),
        Err(e) => Err(e@),
    }
}

/// `reqwest::Url::parse`, its result taken as the URL's scheme
/// (`Url::scheme`), host (`Url::host_str`), serialization (`Url::as_str`)
/// and path (`Url::path`), or its error's display text.  The parse depends
/// on `input` alone, which is all the contract states.
#[verifier::external_body]
pub(crate) fn parse_url(input: &str) -> (r: Result<UrlParts, String>)
    ensures
        url_parts_view(r) == url_parse_result(input@),
{
    match reqwest::Url::parse(input) {
        Ok(url) => Ok(UrlParts {
            scheme: url.scheme().to_string(),
            host: url.host_str().map(|h| h.to_string()),
            serialization: url.as_str().to_string(),
            path: url.path().to_string(),
        }),
        Err(error) => Err(error.to_string()),
    }
}

/// The view of an outcome that is a URL serialization or an error text.
pub open spec fn text_result_view(r: Result<String, String>) -> Result<Seq<char>, Seq<char>> {
    match r {
        Ok(s) => Ok(s@),
        Err(e) => Err(e@),
    }
}

/// The serialization of the URL that `url` parses to once
/// `Url::set_query(None)` has cleared its query, or the parse error's text.
pub uninterp spec fn url_query_cleared(url: Seq<char>) -> Result<Seq<char>, Seq<char>>;

/// `reqwest::Url::set_query(None)` on the URL parsed from `url`, given back
/// serialized.  The result depends on `url` alone.
#[verifier::external_body]
pub(crate) fn clear_url_query(url: &str) -> (r: Result<String, String>)
    ensures
        text_result_view(r) == url_query_cleared(url@),
{
    match reqwest::Url::parse(url) {
        Ok(mut parsed) => {
            parsed.set_query(None);
            Ok(parsed.as_str().to_string())
        },
        Err(error) => Err(error.to_string()),
    }
}

/// The serialization of the URL that `url` parses to once
/// `Url::set_fragment(None)` has cleared its fragment, or the parse error's
/// text.
pub uninterp spec fn url_fragment_cleared(url: Seq<char>) -> Result<Seq<char>, Seq<char>>;

/// `reqwest::Url::set_fragment(None)` on the URL parsed from `url`, given
/// back serialized.  The result depends on `url` alone.
#[verifier::external_body]
pub(crate) fn clear_url_fragment(url: &str) -> (r: Result<String, String>)
    ensures
        text_result_view(r) == url_fragment_cleared(url@),
{
    match reqwest::Url::parse(url) {
        Ok(mut parsed) => {
            parsed.set_fragment(None);
            Ok(parsed.as_str().to_string())
        },
        Err(error) => Err(error.to_string()),
    }
}

/// The serialization of the URL that `url` parses to once `Url::set_path`
/// has given it the path `path`, or the parse error's text.
pub uninterp spec fn url_path_replaced(url: Seq<char>, path: Seq<char>) -> Result<
    Seq<char>,
    Seq<char>,
>;

/// `reqwest::Url::set_path(path)` on the URL parsed from `url`, given back
/// serialized.  The result depends on `url` and `path` alone.
#[verifier::external_body]
pub(crate) fn replace_url_path(url: &str, path: &str) -> (r: Result<String, String>)
    ensures
        text_result_view(r) == url_path_replaced(url@, path@),
{
    match reqwest::Url::parse(url) {
        Ok(mut parsed) => {
            parsed.set_path(path);
            Ok(parsed.as_str().to_string())
        },
        Err(error) => Err(error.to_string()),
    }
}

/// The serialization of `Url::join(input)` on the URL that `base` parses
/// to, or the text of the error of either step.
pub uninterp spec fn url_join_result(base: Seq<char>, input: Seq<char>) -> Result<
    Seq<char>,
    Seq<char>,
>;

/// `reqwest::Url::join`: `input` resolved against the URL parsed from
/// `base`, given back serialized.  The result depends on `base` and `input`
/// alone.
#[verifier::external_body]
pub(crate) fn join_url(base: &str, input: &str) -> (r: Result<String, String>)
    ensures
        text_result_view(r) == url_join_result(base@, input@),
{
    match reqwest::Url::parse(base) {
        Ok(parsed) => match parsed.join(input) {
            Ok(joined) => Ok(joined.as_str().to_string()),
            Err(error) => Err(error.to_string()),
        },
        Err(error) => Err(error.to_string()),
    }
}

/// Whether `serde_json` accepts `text` as a JSON document.
pub uninterp spec fn json_text_parses(text: Seq<char>) -> bool;

/// `serde_json::from_str::<serde_json::Value>`: the parsed document, present
/// exactly when the text is valid JSON.  What the value holds is not
/// stated.
#[verifier::external_body]
pub(crate) fn parse_json(text: &str) -> (r: Option<serde_json::Value>)
    ensures
        r is Some == json_text_parses(text@),
{
    serde_json::from_str::<serde_json::Value>(text).ok()
}

} // verus!
