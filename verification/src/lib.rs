//! Decisions of a music library tool, with proofs: how a compact disc is
//! imported (table of contents, release metadata, cover art, reading,
//! lossless encoding, tagging), how files are sorted into
//! `Artists/<artist>/<album>`, and what is reported along the way. Drives,
//! networks and file systems are worked by the caller; the functions here
//! say what to do next and what it means.

pub mod art;
pub mod audio;
pub mod cd;
pub mod cli;
pub mod cover_art;
pub mod directory;
pub mod encode;
pub mod import;
pub mod json;
pub mod metadata;
pub mod musicbrainz;
pub mod organize;
pub mod paths;
pub mod pcm;
pub mod progress;
pub mod release;
pub mod rip;
pub mod run;
pub mod symlinks;
pub mod sync;
pub mod tagging;
pub mod tally;
pub mod text;
pub mod track;
pub mod tui;
pub mod utils;
