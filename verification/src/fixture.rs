//! The answers of the deterministic HTTP fixture server, by video
//! identifier.

use vstd::prelude::*;

use std::path::PathBuf;

use crate::text::str_equal;
use crate::ytdlp::{arg_views, push_texts, text_args, ArgView, CommandArg};

verus! {

/// How the fixture answers a metadata request.
#[derive(Clone, Copy, Debug, PartialEq, Eq, Structural)]
pub enum FixtureMetadataReply {
    /// The metadata of the demo video.
    Demo,
    /// A malformed JSON body.
    InvalidJson,
    /// A server error.
    ServerError,
    /// An answer that comes too late.
    Timeout,
    /// Not found.
    NotFound,
}

/// How the fixture answers a media request.
#[derive(Clone, Copy, Debug, PartialEq, Eq, Structural)]
pub enum FixtureMediaReply {
    /// The demo media file.
    Demo,
    /// An empty body.
    Empty,
    /// A body that is not media.
    InvalidMedia,
    /// A server error.
    ServerError,
    /// An answer that comes too late.
    Timeout,
    /// Not found.
    NotFound,
}

pub open spec fn fixture_metadata_reply_spec(id: Seq<char>) -> FixtureMetadataReply {
    if id == "demo"@ {
        FixtureMetadataReply::Demo
    } else if id == "invalid-json"@ {
        FixtureMetadataReply::InvalidJson
    } else if id == "server-error"@ {
        FixtureMetadataReply::ServerError
    } else if id == "timeout"@ {
        FixtureMetadataReply::Timeout
    } else {
        FixtureMetadataReply::NotFound
    }
}

pub open spec fn fixture_media_reply_spec(id: Seq<char>) -> FixtureMediaReply {
    if id == "demo"@ {
        FixtureMediaReply::Demo
    } else if id == "empty"@ {
        FixtureMediaReply::Empty
    } else if id == "invalid-media"@ {
        FixtureMediaReply::InvalidMedia
    } else if id == "server-error"@ {
        FixtureMediaReply::ServerError
    } else if id == "timeout"@ {
        FixtureMediaReply::Timeout
    } else {
        FixtureMediaReply::NotFound
    }
}

/// The fixture's answer to `GET /metadata/<id>`.
pub fn fixture_metadata_reply(id: &str) -> (r: FixtureMetadataReply)
    ensures
        r == fixture_metadata_reply_spec(id@),
{
    if str_equal(id, "demo") {
        FixtureMetadataReply::Demo
    } else if str_equal(id, "invalid-json") {
        FixtureMetadataReply::InvalidJson
    } else if str_equal(id, "server-error") {
        FixtureMetadataReply::ServerError
    } else if str_equal(id, "timeout") {
        FixtureMetadataReply::Timeout
    } else {
        FixtureMetadataReply::NotFound
    }
}

/// The fixture's answer to `GET /media/<id>`.
pub fn fixture_media_reply(id: &str) -> (r: FixtureMediaReply)
    ensures
        r == fixture_media_reply_spec(id@),
{
    if str_equal(id, "demo") {
        FixtureMediaReply::Demo
    } else if str_equal(id, "empty") {
        FixtureMediaReply::Empty
    } else if str_equal(id, "invalid-media") {
        FixtureMediaReply::InvalidMedia
    } else if str_equal(id, "server-error") {
        FixtureMediaReply::ServerError
    } else if str_equal(id, "timeout") {
        FixtureMediaReply::Timeout
    } else {
        FixtureMediaReply::NotFound
    }
}

/// The ffmpeg flags that synthesize the demo media: five seconds of a test
/// pattern at 640x360 and 30 frames per second with a 440 Hz tone, encoded
/// as browser-playable H.264 and AAC with the index at the front.
pub open spec fn fixture_media_flags() -> Seq<Seq<char>> {
    seq![
        "-hide_banner"@,
        "-loglevel"@,
        "error"@,
        "-y"@,
        "-f"@,
        "lavfi"@,
        "-i"@,
        "testsrc=size=640x360:rate=30"@,
        "-f"@,
        "lavfi"@,
        "-i"@,
        "sine=frequency=440:sample_rate=48000"@,
        "-t"@,
        "5"@,
        "-c:v"@,
        "libx264"@,
        "-pix_fmt"@,
        "yuv420p"@,
        "-c:a"@,
        "aac"@,
        "-movflags"@,
        "+faststart"@,
    ]
}

/// The arguments of the ffmpeg run that writes the demo media to `path`.
pub fn fixture_media_args(path: &PathBuf) -> (r: Vec<CommandArg>)
    ensures
        arg_views(r@) == text_args(fixture_media_flags()) + seq![ArgView::Path(*path)],
{
    let mut args: Vec<CommandArg> = Vec::new();
    let flags: [&str; 22] = [
        "-hide_banner",
        "-loglevel",
        "error",
        "-y",
        "-f",
        "lavfi",
        "-i",
        "testsrc=size=640x360:rate=30",
        "-f",
        "lavfi",
        "-i",
        "sine=frequency=440:sample_rate=48000",
        "-t",
        "5",
        "-c:v",
        "libx264",
        "-pix_fmt",
        "yuv420p",
        "-c:a",
        "aac",
        "-movflags",
        "+faststart",
    ];
    push_texts(&mut args, flags.as_slice());
    assert(flags@.map_values(|s: &str| s@) =~= fixture_media_flags());
    let ghost before = args@;
    args.push(CommandArg::Path(path.clone()));
    assert(arg_views(args@) =~= arg_views(before).push(ArgView::Path(*path)));
    args
}

} // verus!
