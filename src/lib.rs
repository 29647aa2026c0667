//! Merging of rhythm-game chart scripts: an opcode table per release, a
//! binary and a plaintext codec for command timelines, a subtitle-to-lyric
//! compiler and a merge engine that buckets commands by timestamp.
pub mod application;
pub mod binary;
pub mod common;
pub mod dsc;
pub mod error;
pub mod logger;
pub mod merger;
pub mod opcodes;
pub mod plaintext;
pub mod subtitle;
pub mod table;
pub mod text;
