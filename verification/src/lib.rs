//! Verified core of a sticker export service.
//!
//! The library holds the decision logic of the export pipeline: per-asset
//! format detection and conversion, pack-level aggregation with progress
//! reporting and fail-fast semantics, the dialogue state machine that routes
//! inbound events, and per-key token-bucket admission control. All remote
//! calls (the chat platform, downloads, the transcoding tool) are performed
//! by the surrounding application, which feeds their results back in as
//! plain values.

pub mod archive;
pub mod dialogue;
pub mod export;
pub mod limiter;
pub mod media;
pub mod pack;

pub use dialogue::State;
