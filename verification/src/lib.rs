//! Schema detection and normalization for rhythm-game level files.
//!
//! A level file is a loosely typed JSON document in one of two historical
//! shapes (an "old" and a "new" generation). This crate models the decoded
//! document as [`json::JsonValue`], detects which shape a document matches,
//! decodes it into an exact raw schema model, and normalizes the result
//! into one version-independent event timeline, [`primary::Beatmap`].
//!
//! The set-level metadata document (song info and difficulty list) has one
//! fixed flat shape and is decoded by [`meta`]. Reading text or files is
//! the hosting application's concern; the library starts from a decoded
//! document.

pub mod common;
pub mod decode;
pub mod error;
pub mod json;
pub mod lightning;
pub mod meta;
pub mod normalize;
pub mod primary;
pub mod schema;

pub use error::DecodeError;
pub use error::Error;
pub use json::JsonNum;
pub use json::JsonValue;
pub use primary::Beatmap;
pub use meta::BeatmapSetMeta;
pub use schema::BeatmapFile;
