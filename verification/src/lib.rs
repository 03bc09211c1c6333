//! A crash-safe single-file JSON store.
//!
//! The library owns one JSON document on durable storage. A save stages the
//! new content in a side file, verifies it by reading it back, and commits it
//! with a single atomic rename, so the committed document is always either the
//! last fully written value or the previous one, never a partial write. A load
//! validates what it reads and quarantines a corrupt document instead of
//! failing.
//!
//! The store's decisions live here as verified functions; the embedding
//! program performs the file operations they call for and reports each outcome
//! back.

pub mod errors;
pub mod json;
pub mod laws;
pub mod load;
pub mod naming;
pub mod save;
