//! Session-orchestration core of a WebRTC client: SDP offer/answer
//! signalling, ICE-candidate buffering, local-media-track negotiation,
//! and statistics deduplication for a single peer-to-peer connection.
//!
//! The native peer-connection transport, the per-track registry and the
//! media-acquisition subsystem are external collaborators reached over
//! awaited calls; the core exposes its decisions as synchronous functions
//! with contracts, and a thin driver performs each collaborator call.

pub mod media;
pub mod peer;
pub mod proto;
pub mod stats;
pub mod stream_update_criteria;
pub mod tracks_request;
