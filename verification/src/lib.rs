//! Media-acquisition pipeline for a messaging bot.
//!
//! Given a reference to a track on a remote music service, the library
//! resolves it to playable audio plus optional cover art, caches the
//! uploaded-media handle keyed by the track's source URL, and drives
//! delivery to a waiting conversation, retrying once with a forced cache
//! bypass when delivery fails.  Network, file and transport I/O live
//! outside the library; the decisions they interleave with are modelled
//! here as explicit state machines and verified functions.

pub mod cache;
pub mod commands;
pub mod digest;
pub mod error;
pub mod ids;
pub mod inline_audio;
pub mod keys;
pub mod module_type;
pub mod pipeline;
pub mod progress;
pub mod retrier;
pub mod search_cache;
pub mod text;
pub mod track;
pub mod tracking;
