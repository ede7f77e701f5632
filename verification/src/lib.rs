//! A small geolocation-echo library.
//!
//! The library turns a platform-supplied bundle of per-request network and
//! geolocation facts into an HTTP response: a JSON rendering of the facts for
//! the one known path, a fixed plain-text hint for every other path.  All of
//! the logic — routing, query-string inspection, field mapping and the JSON
//! rendering itself — is verified; the host that actually speaks HTTP hands
//! in plain values and sends the finished response out.

pub mod handler;
pub mod json;
pub mod laws;
pub mod number;
pub mod props;
pub mod query;
pub mod text;
