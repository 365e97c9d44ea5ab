//! Decides what to ask of an Immich server and what to tell the user when the
//! original timestamps of an album's assets are listed or corrected.

pub mod album;
pub mod ascii;
pub mod asset;
pub mod client;
pub mod datetime;
pub mod fix;
pub mod metadata;
pub mod offset;
pub mod text;
