//! Client-side logic for a public-transit stationboard API: a typed model of
//! the JSON responses, a builder for the query URLs, and the extraction and
//! formatting of departure records for display.
//!
//! The modules, leaf to root: `digits` reads and writes decimal tokens;
//! `timestamp` models the wire's offset-carrying instants; `json` is the
//! document tree that `codec` obtains from text through `serde_json`;
//! `model` holds the response entities, which `decode` reads out of a
//! document and `encode` writes back; `request` builds the form-encoded
//! query URLs; `extract` projects a response into display records; `laws`
//! proves the round-trip and unknown-member properties across those parts.

pub mod codec;
pub mod decode;
pub mod digits;
pub mod encode;
pub mod errors;
pub mod extract;
pub mod json;
pub mod laws;
pub mod model;
pub mod request;
pub mod timestamp;

pub use errors::{ApiError, DisplayField};
