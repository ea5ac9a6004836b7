//! Core logic of a Bluesky tool server: parameter validation, notification
//! reason codes, AT-URI handling, reply-thread root resolution, timestamp
//! normalization of JSON payloads, and the unreplied-mentions resolver.
//!
//! Network transport and the remote API client live outside this crate; the
//! functions here take and return plain values and are verified against the
//! contracts they state.

pub mod at_uri;
pub mod atproto;
pub mod errors;
pub mod json;
pub mod params;
pub mod reason;
pub mod reply;
pub mod resolver;
pub mod strings;
