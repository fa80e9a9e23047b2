//! Metadata retrieval layer for a content-rendering system: resolves a user
//! identity by name against a per-user storage unit and represents per-page
//! metadata (URL, title, rating, tags).

pub mod config;
pub mod decimal;
pub mod lookup;
pub mod metadata;
