//! Plain-value models of the signalling vocabulary shared with the server:
//! identifiers, connection states, and outbound track-patch commands.

use vstd::prelude::*;

verus! {

/// Unique identifier of a peer session, assigned externally at construction
/// and immutable for the session's lifetime.
#[derive(Clone, Copy, Debug, PartialEq, Eq, Structural)]
pub struct PeerId(pub u32);

/// Identifier of a single media track slot.
#[derive(Clone, Copy, Debug, PartialEq, Eq, Structural)]
pub struct TrackId(pub u32);

/// Identifier of a remote member that sends media to this session.
#[derive(Clone, Copy, Debug, PartialEq, Eq, Structural)]
pub struct MemberId(pub u32);

/// State of the ICE agent of the native connection.
#[derive(Clone, Copy, Debug, PartialEq, Eq, Structural)]
pub enum IceConnectionState {
    New,
    Checking,
    Connected,
    Completed,
    Failed,
    Disconnected,
    Closed,
}

/// Overall state of the native connection.
#[derive(Clone, Copy, Debug, PartialEq, Eq, Structural)]
pub enum PeerConnectionState {
    New,
    Connecting,
    Connected,
    Disconnected,
    Failed,
    Closed,
}

/// A single-track patch: the intention to mute or to enable one track.
///
/// A patch carries at most one of the two intentions; the other field
/// stays `None`.
#[derive(Clone, Copy, Debug, PartialEq, Eq, Structural)]
pub struct TrackPatchCommand {
    /// Track that the patch applies to.
    pub id: TrackId,
    /// Muting intention, if the patch carries one.
    pub muted: Option<bool>,
    /// Enabling intention, if the patch carries one.
    pub enabled: Option<bool>,
}

/// An outbound signalling command sent to the server.
#[derive(Clone, Debug, PartialEq, Eq)]
pub enum Command {
    /// Requests the server to apply the given patches to the session's
    /// tracks.
    UpdateTracks {
        /// Session whose tracks are patched.
        peer_id: PeerId,
        /// The patches to apply.
        tracks_patches: Vec<TrackPatchCommand>,
    },
}

} // verus!
