//! Core of an autosplitter for a dialogue-driven adventure game: turns raw
//! process-memory reads into "dialogue text changed" events and maps those,
//! through an ordered rule set gated by operator toggles, onto timer
//! transitions (start, split, reset). All process and timer I/O stays with
//! the host; this crate holds the verified decision logic.
pub mod machine;
pub mod resolver;
pub mod rules;
pub mod sample;
pub mod scanner;
pub mod settings;
pub mod text;
pub mod watcher;
