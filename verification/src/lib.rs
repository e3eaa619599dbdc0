//! Verified core of a daily-picture downloader.
//!
//! The library turns calendar dates into the photo archive's day offsets,
//! builds the archive query URL for an offset, validates the archive's JSON
//! reply and resolves the picture's absolute URL, re-encodes downloaded
//! picture bytes as JPEG, and drives the per-date pipeline as a state
//! machine. All network and file traffic stays with the caller, which hands
//! the library plain bytes and status codes.

pub mod archive;
pub mod date;
pub mod error;
pub mod imagecodec;
pub mod json;
pub mod pipeline;
pub mod urls;
