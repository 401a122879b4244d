//! Webhook-triggered throttling relay for a torrent-client backend.
//!
//! The library covers the decision-and-dispatch path of the relay: validating
//! an incoming playback event, deciding whether bandwidth throttling applies
//! to it, issuing at most one mutation against the backend per event, and
//! rendering every outcome as a uniform response envelope. The HTTP server
//! and the backend's wire protocol live outside the library.

pub mod handler;
pub mod plex;
pub mod policy;
pub mod transmission;
