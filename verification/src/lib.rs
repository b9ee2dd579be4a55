//! LocalTube: the verified core of a local video playback backend.
//!
//! The service accepts a safe video identifier, acquires the media from an
//! authorized source into a per-session cache directory, serves it with
//! HTTP range support and cleans it up.  This crate holds its decisions;
//! the HTTP server, processes and files are driven around it.

pub mod acquisition;
pub mod cleanup;
pub mod config;
pub mod error;
pub mod external;
pub mod fixture;
pub mod laws;
pub mod media;
pub mod models;
pub mod routes;
pub mod session;
pub mod text;
pub mod ytdlp;
