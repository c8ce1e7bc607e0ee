//! Plain-value models of local media: track kinds and sources, acquired
//! local tracks, and the statically configured local constraints.

use vstd::prelude::*;

verus! {

/// Kind of a media track.
#[derive(Clone, Copy, Debug, PartialEq, Eq, Structural)]
pub enum MediaKind {
    Audio,
    Video,
}

/// Source that a media track is captured from.
#[derive(Clone, Copy, Debug, PartialEq, Eq, Structural)]
pub enum MediaSourceKind {
    /// A capture device (microphone or camera).
    Device,
    /// A screen or window capture.
    Display,
}

/// A local media track handed over by the media-acquisition collaborator.
///
/// The track's platform object is opaque; this model holds what the
/// negotiation logic reads of it: its kind, its source, and the identity
/// of the device it was captured from.
#[derive(Clone, Copy, Debug, PartialEq, Eq, Structural)]
pub struct LocalTrack {
    /// Kind of the track.
    pub kind: MediaKind,
    /// Source the track is captured from.
    pub source: MediaSourceKind,
    /// Identity of the capture device the track came from.
    pub device: u64,
}

/// Statically configured local constraints, supplied at session
/// construction: for each track slot, the capture device that local media
/// must come from, if the host pinned one.
#[derive(Clone, Copy, Debug, PartialEq, Eq, Structural)]
pub struct LocalTracksConstraints {
    /// Device constraint for the audio slot.
    pub audio: Option<u64>,
    /// Device constraint for the device-video slot.
    pub device_video: Option<u64>,
    /// Device constraint for the display-video slot.
    pub display_video: Option<u64>,
}

/// Per-slot settings handed to the media-acquisition collaborator: the
/// slot is requested, from the given device if one is pinned.
#[derive(Clone, Copy, Debug, PartialEq, Eq, Structural)]
pub struct TrackSettings {
    /// Device the track must be captured from, if pinned.
    pub device: Option<u64>,
}

/// The merged specification of local media to acquire: which of the three
/// track slots are requested, and with which settings.
#[derive(Clone, Copy, Debug, PartialEq, Eq, Structural)]
pub struct MediaStreamSettings {
    /// Settings of the audio slot, if requested.
    pub audio: Option<TrackSettings>,
    /// Settings of the device-video slot, if requested.
    pub device_video: Option<TrackSettings>,
    /// Settings of the display-video slot, if requested.
    pub display_video: Option<TrackSettings>,
}

/// Failure of the media-acquisition collaborator, reported by the layer
/// that performs the acquisition call.
#[derive(Clone, Debug, PartialEq, Eq)]
pub enum InitLocalTracksError {
    /// The acquisition subsystem was torn down.
    Detached,
    /// Capturing from a device failed, with the platform's reason.
    GetUserMediaFailed(String),
    /// Capturing a display failed, with the platform's reason.
    GetDisplayMediaFailed(String),
}

} // verus!
