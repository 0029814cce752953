//! Lumen: identifies file types by their magic bytes.
//!
//! The library matches bytes read from a file against a table of signature
//! patterns (uppercase hexadecimal at fixed offsets), probes containers and
//! large files, and falls back to recognising plain text. The library's own
//! functions are verified against their contracts; the few calls into `hex`,
//! `serde_json` and std's string functions sit in small wrappers whose
//! contracts are trusted, each documented where it stands.

pub mod catalog;
pub mod plan;
pub mod hexcode;
pub mod import;
pub mod sample;
pub mod scanner;
pub mod seeds;
pub mod textdetect;
pub mod textutil;
pub mod types;
