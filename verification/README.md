# LocalTube

A local video playback backend: it accepts a safe video identifier,
acquires the media from an authorized source (a local library, a
development HTTP fixture server, or a configured yt-dlp executable) into a
per-session cache directory, validates it with ffprobe, serves it with HTTP
range support, and removes it when playback ends or the session expires.

## Layout

- `src/` is the library, written in Verus and verified: every decision the
  service takes is a function with a contract.
  - `config.rs`: reading and validating the `LOCALTUBE_*` settings.
  - `session.rs`: playback sessions, their life cycle and the registry.
  - `acquisition.rs`: the course of one background acquisition, as a step
    function from phase and observed event to next phase and action.
  - `routes.rs`: byte ranges, the media response plan, the player page,
    HTML escaping, CORS origins.
  - `media.rs`: the local and HTTP fixture providers, the ffmpeg and
    ffprobe command lines, and the checks acquired media must pass.
  - `ytdlp.rs`: the trusted yt-dlp source URL, its command lines, and how
    its output and failures are read.
  - `fixture.rs`: the answers of the development fixture server.
  - `error.rs`, `models.rs`, `text.rs`, `cleanup.rs`: errors, shared data,
    string routines proved against std's semantics, stale cache entries.
  - `external.rs`: the trusted declarations through which the library calls
    uuid, chrono, the url parser and serde_json.
  - `laws.rs`: properties that span several functions.
- `app/` is the server around it: environment, processes, files, HTTP
  (axum, reqwest, tokio), JSON forms and floating-point progress.  Run it
  with `fixture-server` as its argument to serve the development fixture.
- `tests/` exercises the library on concrete values.
