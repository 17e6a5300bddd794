//! The shapes of the documents that the API and the CDN answer with.
pub mod api;
pub mod ddragon;
