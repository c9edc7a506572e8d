//! Content store and response pipeline of a small CMS: posts, windowed
//! pagination over post ids, the error taxonomy shared by every operation,
//! and the markdown transform used when pages are rendered.
pub mod config;
pub mod error;
pub mod laws;
pub mod markdown;
pub mod pagination;
pub mod post;
pub mod render;
pub mod store;
