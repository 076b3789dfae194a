//! A JSON document loaded once from a file's contents and rendered back to
//! JSON text on demand.
//!
//! Reading the file is the caller's business: the library starts from what the
//! read gave, the bytes or the reason it failed, and decides from there. JSON
//! parsing and printing are done by `serde_json`, reached through the small
//! trusted boundary in [`json`]; every other function is verified against it.

pub mod document;
pub mod error;
pub mod json;
