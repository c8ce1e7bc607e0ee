//! Local track negotiation: reducing the track registry's raw requirement
//! to the minimal specification of local media to acquire, merging it with
//! the statically configured local constraints, and validating the tracks
//! that the acquisition collaborator handed back.

use vstd::prelude::*;

use crate::media::{
    LocalTrack, LocalTracksConstraints, MediaKind, MediaSourceKind, MediaStreamSettings,
    TrackSettings,
};
use crate::proto::TrackId;

verus! {

/// The three local track slots a session can send from: one audio slot and
/// one video slot per source.
#[derive(Clone, Copy, Debug, PartialEq, Eq, Structural)]
pub enum TrackSlot {
    Audio,
    DeviceVideo,
    DisplayVideo,
}

/// A single sender slot that the track registry requires local media for.
#[derive(Clone, Copy, Debug, PartialEq, Eq, Structural)]
pub struct RequiredTrack {
    /// Track the requirement belongs to.
    pub id: TrackId,
    /// Kind of the required media.
    pub kind: MediaKind,
    /// Source the required media must be captured from.
    pub source: MediaSourceKind,
    /// Capture device the media must come from, if the server pinned one.
    pub device: Option<u64>,
}

/// The track registry's raw requirement: every sender slot that currently
/// lacks a local track, in registry order.
#[derive(Clone, Debug, PartialEq, Eq)]
pub struct TracksRequest {
    /// The required sender slots.
    pub tracks: Vec<RequiredTrack>,
}

/// Validation failures of the local track negotiator.
#[derive(Clone, Copy, Debug, PartialEq, Eq, Structural)]
pub enum TracksRequestError {
    /// More than one audio track was required.
    TooManyAudioTracks,
    /// More than one device-video track was required.
    TooManyDeviceVideoTracks,
    /// More than one display-video track was required.
    TooManyDisplayVideoTracks,
    /// A required slot and the local constraints pin different devices.
    ConflictingDeviceConstraint(TrackId),
    /// A required audio track was not among the acquired tracks.
    ExpectedAudioTracks,
    /// A required device-video track was not among the acquired tracks.
    ExpectedDeviceVideoTracks,
    /// A required display-video track was not among the acquired tracks.
    ExpectedDisplayVideoTracks,
    /// The acquired track for this slot comes from the wrong device.
    UnsatisfiedConstraints(TrackId),
}

/// The slot a required track falls into: all audio shares the one audio
/// slot; video is split by source.
pub open spec fn track_slot(t: RequiredTrack) -> TrackSlot {
    match t.kind {
        MediaKind::Audio => TrackSlot::Audio,
        MediaKind::Video => match t.source {
            MediaSourceKind::Device => TrackSlot::DeviceVideo,
            MediaSourceKind::Display => TrackSlot::DisplayVideo,
        },
    }
}

/// The slot an acquired local track can fill.
pub open spec fn local_track_slot(t: LocalTrack) -> TrackSlot {
    match t.kind {
        MediaKind::Audio => TrackSlot::Audio,
        MediaKind::Video => match t.source {
            MediaSourceKind::Device => TrackSlot::DeviceVideo,
            MediaSourceKind::Display => TrackSlot::DisplayVideo,
        },
    }
}

/// How many required tracks fall into the given slot.
pub open spec fn slot_count(ts: Seq<RequiredTrack>, slot: TrackSlot) -> nat
    decreases ts.len(),
{
    if ts.len() == 0 {
        0
    } else {
        (if track_slot(ts[0]) == slot {
            1nat
        } else {
            0nat
        }) + slot_count(ts.skip(1), slot)
    }
}

/// The first required track that falls into the given slot.
pub open spec fn first_in_slot(ts: Seq<RequiredTrack>, slot: TrackSlot) -> Option<RequiredTrack>
    decreases ts.len(),
{
    if ts.len() == 0 {
        None
    } else if track_slot(ts[0]) == slot {
        Some(ts[0])
    } else {
        first_in_slot(ts.skip(1), slot)
    }
}

/// The first acquired track that can fill the given slot.
pub open spec fn first_local_in_slot(ts: Seq<LocalTrack>, slot: TrackSlot) -> Option<LocalTrack>
    decreases ts.len(),
{
    if ts.len() == 0 {
        None
    } else if local_track_slot(ts[0]) == slot {
        Some(ts[0])
    } else {
        first_local_in_slot(ts.skip(1), slot)
    }
}

/// The device constraint of a merged slot: the registry's requirement
/// wins; the local constraint fills a slot the registry left open.
pub open spec fn merged_device(required: Option<u64>, local: Option<u64>) -> Option<u64> {
    match required {
        Some(d) => Some(d),
        None => local,
    }
}

/// Whether a required slot is compatible with a local device constraint:
/// they must not pin different devices.
pub open spec fn slot_compatible(slot: Option<RequiredTrack>, local: Option<u64>) -> bool {
    match slot {
        None => true,
        Some(t) => match (t.device, local) {
            (Some(d), Some(l)) => d == l,
            _ => true,
        },
    }
}

/// A required slot after merging with a local device constraint.
pub open spec fn merged_slot(
    slot: Option<RequiredTrack>,
    local: Option<u64>,
) -> Option<RequiredTrack> {
    match slot {
        None => None,
        Some(t) => Some(RequiredTrack { device: merged_device(t.device, local), ..t }),
    }
}

/// Whether a required slot is satisfied by the acquired tracks: the slot's
/// first matching track exists and comes from the pinned device, if any.
pub open spec fn slot_satisfied(
    slot: Option<RequiredTrack>,
    ts: Seq<LocalTrack>,
    kind: TrackSlot,
) -> bool {
    match slot {
        None => true,
        Some(req) => match first_local_in_slot(ts, kind) {
            None => false,
            Some(t) => match req.device {
                None => true,
                Some(d) => t.device == d,
            },
        },
    }
}

/// The association of one required slot with the acquired track that
/// fills it, assuming the slot is satisfied.
pub open spec fn slot_pairing(
    slot: Option<RequiredTrack>,
    ts: Seq<LocalTrack>,
    kind: TrackSlot,
) -> Seq<(TrackId, LocalTrack)> {
    match slot {
        None => Seq::empty(),
        Some(req) => seq![(req.id, first_local_in_slot(ts, kind)->Some_0)],
    }
}

/// Whether a raw requirement respects the cardinality rules: at most one
/// track per slot, hence at most one audio and at most two video tracks.
pub open spec fn tracks_counts_valid(tracks: Seq<RequiredTrack>) -> bool {
    &&& slot_count(tracks, TrackSlot::Audio) <= 1
    &&& slot_count(tracks, TrackSlot::DeviceVideo) <= 1
    &&& slot_count(tracks, TrackSlot::DisplayVideo) <= 1
}

/// The minimal requirement a valid raw requirement reduces to, before
/// the local constraints are merged in.
pub open spec fn unmerged_simple(tracks: Seq<RequiredTrack>) -> SimpleTracksRequest {
    SimpleTracksRequest {
        audio: first_in_slot(tracks, TrackSlot::Audio),
        device_video: first_in_slot(tracks, TrackSlot::DeviceVideo),
        display_video: first_in_slot(tracks, TrackSlot::DisplayVideo),
    }
}

/// Whether a minimal requirement and the local constraints agree on every
/// slot's device.
pub open spec fn merge_compatible(s: SimpleTracksRequest, c: LocalTracksConstraints) -> bool {
    &&& slot_compatible(s.audio, c.audio)
    &&& slot_compatible(s.device_video, c.device_video)
    &&& slot_compatible(s.display_video, c.display_video)
}

/// The minimal requirement a valid raw requirement reduces to, with the
/// local constraints merged in.
pub open spec fn merged_simple(
    tracks: Seq<RequiredTrack>,
    c: LocalTracksConstraints,
) -> SimpleTracksRequest {
    SimpleTracksRequest {
        audio: merged_slot(first_in_slot(tracks, TrackSlot::Audio), c.audio),
        device_video: merged_slot(first_in_slot(tracks, TrackSlot::DeviceVideo), c.device_video),
        display_video: merged_slot(first_in_slot(tracks, TrackSlot::DisplayVideo), c.display_video),
    }
}

/// The acquisition settings a minimal requirement translates into.
pub open spec fn settings_of(s: SimpleTracksRequest) -> MediaStreamSettings {
    MediaStreamSettings {
        audio: match s.audio {
            None => None,
            Some(t) => Some(TrackSettings { device: t.device }),
        },
        device_video: match s.device_video {
            None => None,
            Some(t) => Some(TrackSettings { device: t.device }),
        },
        display_video: match s.display_video {
            None => None,
            Some(t) => Some(TrackSettings { device: t.device }),
        },
    }
}

/// The minimal local-media requirement: at most one audio track, at most
/// one device-video track and at most one display-video track, each with
/// its constraints.
#[derive(Clone, Copy, Debug, PartialEq, Eq, Structural)]
pub struct SimpleTracksRequest {
    /// The audio slot, if required.
    pub audio: Option<RequiredTrack>,
    /// The device-video slot, if required.
    pub device_video: Option<RequiredTrack>,
    /// The display-video slot, if required.
    pub display_video: Option<RequiredTrack>,
}

impl SimpleTracksRequest {
    /// The track whose device constraint conflicts first, in slot order.
    pub open spec fn conflicting_track(
        self,
        constraints: LocalTracksConstraints,
    ) -> Option<RequiredTrack> {
        if !slot_compatible(self.audio, constraints.audio) {
            self.audio
        } else if !slot_compatible(self.device_video, constraints.device_video) {
            self.device_video
        } else {
            self.display_video
        }
    }

    /// Reduces the registry's raw requirement to the minimal
    /// specification, rejecting any cardinality over one track per slot.
    /// The first track of each slot wins; a second one in the same slot is
    /// the cardinality violation that the error names.
    pub fn try_from(request: &TracksRequest) -> (r: Result<Self, TracksRequestError>)
        ensures
            (r matches Ok(_)) <==> {
                &&& slot_count(request.tracks@, TrackSlot::Audio) <= 1
                &&& slot_count(request.tracks@, TrackSlot::DeviceVideo) <= 1
                &&& slot_count(request.tracks@, TrackSlot::DisplayVideo) <= 1
            },
            r matches Ok(s) ==> {
                &&& s.audio == first_in_slot(request.tracks@, TrackSlot::Audio)
                &&& s.device_video == first_in_slot(request.tracks@, TrackSlot::DeviceVideo)
                &&& s.display_video == first_in_slot(request.tracks@, TrackSlot::DisplayVideo)
            },
            r matches Err(e) ==> {
                ||| e == TracksRequestError::TooManyAudioTracks && slot_count(
                    request.tracks@,
                    TrackSlot::Audio,
                ) >= 2
                ||| e == TracksRequestError::TooManyDeviceVideoTracks && slot_count(
                    request.tracks@,
                    TrackSlot::DeviceVideo,
                ) >= 2
                ||| e == TracksRequestError::TooManyDisplayVideoTracks && slot_count(
                    request.tracks@,
                    TrackSlot::DisplayVideo,
                ) >= 2
            },
    {
        let ts = &request.tracks;
        let ghost full = ts@;
        let mut audio: Option<RequiredTrack> = None;
        let mut device_video: Option<RequiredTrack> = None;
        let mut display_video: Option<RequiredTrack> = None;
        let mut i: usize = 0;
        proof {
            assert(full.skip(0) =~= full);
        }
        while i < ts.len()
            invariant
                i <= ts.len(),
                ts@ == full,
                full == request.tracks@,
                first_in_slot(full, TrackSlot::Audio) == (if audio is Some {
                    audio
                } else {
                    first_in_slot(full.skip(i as int), TrackSlot::Audio)
                }),
                first_in_slot(full, TrackSlot::DeviceVideo) == (if device_video is Some {
                    device_video
                } else {
                    first_in_slot(full.skip(i as int), TrackSlot::DeviceVideo)
                }),
                first_in_slot(full, TrackSlot::DisplayVideo) == (if display_video is Some {
                    display_video
                } else {
                    first_in_slot(full.skip(i as int), TrackSlot::DisplayVideo)
                }),
                slot_count(full, TrackSlot::Audio) == (if audio is Some {
                    1nat
                } else {
                    0nat
                }) + slot_count(full.skip(i as int), TrackSlot::Audio),
                slot_count(full, TrackSlot::DeviceVideo) == (if device_video is Some {
                    1nat
                } else {
                    0nat
                }) + slot_count(full.skip(i as int), TrackSlot::DeviceVideo),
                slot_count(full, TrackSlot::DisplayVideo) == (if display_video is Some {
                    1nat
                } else {
                    0nat
                }) + slot_count(full.skip(i as int), TrackSlot::DisplayVideo),
            decreases ts.len() - i,
        {
            let t = ts[i];
            proof {
                assert(full.skip(i as int)[0] == full[i as int]);
                assert(full.skip(i as int).skip(1) =~= full.skip(i as int + 1));
                assert(slot_count(full.skip(i as int), TrackSlot::Audio) == (if track_slot(
                    full[i as int],
                ) == TrackSlot::Audio {
                    1nat
                } else {
                    0nat
                }) + slot_count(full.skip(i as int + 1), TrackSlot::Audio));
                assert(slot_count(full.skip(i as int), TrackSlot::DeviceVideo) == (if track_slot(
                    full[i as int],
                ) == TrackSlot::DeviceVideo {
                    1nat
                } else {
                    0nat
                }) + slot_count(full.skip(i as int + 1), TrackSlot::DeviceVideo));
                assert(slot_count(full.skip(i as int), TrackSlot::DisplayVideo) == (if track_slot(
                    full[i as int],
                ) == TrackSlot::DisplayVideo {
                    1nat
                } else {
                    0nat
                }) + slot_count(full.skip(i as int + 1), TrackSlot::DisplayVideo));
            }
            match slot_of(&t) {
                TrackSlot::Audio => {
                    if audio.is_some() {
                        return Err(TracksRequestError::TooManyAudioTracks);
                    }
                    audio = Some(t);
                }
                TrackSlot::DeviceVideo => {
                    if device_video.is_some() {
                        return Err(TracksRequestError::TooManyDeviceVideoTracks);
                    }
                    device_video = Some(t);
                }
                TrackSlot::DisplayVideo => {
                    if display_video.is_some() {
                        return Err(TracksRequestError::TooManyDisplayVideoTracks);
                    }
                    display_video = Some(t);
                }
            }
            i = i + 1;
        }
        proof {
            assert(full.skip(ts@.len() as int) =~= Seq::<RequiredTrack>::empty());
        }
        Ok(Self { audio, device_video, display_video })
    }

    /// Merges the statically configured local constraints into this
    /// requirement. Fails, leaving the requirement unchanged, if a slot
    /// and the constraints pin different devices.
    pub fn merge(&mut self, constraints: &LocalTracksConstraints) -> (r: Result<
        (),
        TracksRequestError,
    >)
        ensures
            (r matches Ok(_)) <==> {
                &&& slot_compatible(old(self).audio, constraints.audio)
                &&& slot_compatible(old(self).device_video, constraints.device_video)
                &&& slot_compatible(old(self).display_video, constraints.display_video)
            },
            r matches Ok(_) ==> {
                &&& final(self).audio == merged_slot(old(self).audio, constraints.audio)
                &&& final(self).device_video == merged_slot(
                    old(self).device_video,
                    constraints.device_video,
                )
                &&& final(self).display_video == merged_slot(
                    old(self).display_video,
                    constraints.display_video,
                )
            },
            r matches Err(e) ==> {
                &&& *final(self) == *old(self)
                &&& e == TracksRequestError::ConflictingDeviceConstraint(
                    old(self).conflicting_track(*constraints)->Some_0.id,
                )
            },
    {
        let audio = match merge_slot(&self.audio, constraints.audio) {
            Ok(s) => s,
            Err(id) => {
                return Err(TracksRequestError::ConflictingDeviceConstraint(id));
            }
        };
        let device_video = match merge_slot(&self.device_video, constraints.device_video) {
            Ok(s) => s,
            Err(id) => {
                return Err(TracksRequestError::ConflictingDeviceConstraint(id));
            }
        };
        let display_video = match merge_slot(&self.display_video, constraints.display_video) {
            Ok(s) => s,
            Err(id) => {
                return Err(TracksRequestError::ConflictingDeviceConstraint(id));
            }
        };
        self.audio = audio;
        self.device_video = device_video;
        self.display_video = display_video;
        Ok(())
    }

    /// The specification handed to the media-acquisition collaborator:
    /// one settings entry per required slot.
    pub fn media_settings(&self) -> (s: MediaStreamSettings)
        ensures
            s == settings_of(*self),
    {
        MediaStreamSettings {
            audio: match &self.audio {
                None => None,
                Some(t) => Some(TrackSettings { device: t.device }),
            },
            device_video: match &self.device_video {
                None => None,
                Some(t) => Some(TrackSettings { device: t.device }),
            },
            display_video: match &self.display_video {
                None => None,
                Some(t) => Some(TrackSettings { device: t.device }),
            },
        }
    }

    /// Validates the acquired tracks against this requirement and pairs
    /// every required slot with the track that fills it, in slot order.
    /// Fails if a required slot has no matching track, or its track comes
    /// from a device other than the pinned one.
    pub fn parse_tracks(&self, tracks: &Vec<LocalTrack>) -> (r: Result<
        Vec<(TrackId, LocalTrack)>,
        TracksRequestError,
    >)
        ensures
            (r matches Ok(_)) <==> {
                &&& slot_satisfied(self.audio, tracks@, TrackSlot::Audio)
                &&& slot_satisfied(self.device_video, tracks@, TrackSlot::DeviceVideo)
                &&& slot_satisfied(self.display_video, tracks@, TrackSlot::DisplayVideo)
            },
            r matches Ok(pairs) ==> pairs@ == slot_pairing(self.audio, tracks@, TrackSlot::Audio)
                + slot_pairing(self.device_video, tracks@, TrackSlot::DeviceVideo) + slot_pairing(
                self.display_video,
                tracks@,
                TrackSlot::DisplayVideo,
            ),
            r matches Err(e) ==> {
                ||| e == TracksRequestError::ExpectedAudioTracks && self.audio is Some
                    && first_local_in_slot(tracks@, TrackSlot::Audio) is None
                ||| e == TracksRequestError::ExpectedDeviceVideoTracks && self.device_video is Some
                    && first_local_in_slot(tracks@, TrackSlot::DeviceVideo) is None
                ||| e == TracksRequestError::ExpectedDisplayVideoTracks && self.display_video
                    is Some && first_local_in_slot(tracks@, TrackSlot::DisplayVideo) is None
                ||| e matches TracksRequestError::UnsatisfiedConstraints(_)
            },
    {
        let mut pairs: Vec<(TrackId, LocalTrack)> = Vec::new();
        if let Some(req) = &self.audio {
            match find_local(tracks, TrackSlot::Audio) {
                None => {
                    return Err(TracksRequestError::ExpectedAudioTracks);
                }
                Some(t) => {
                    if let Some(d) = req.device {
                        if t.device != d {
                            return Err(TracksRequestError::UnsatisfiedConstraints(req.id));
                        }
                    }
                    pairs.push((req.id, t));
                }
            }
        }
        if let Some(req) = &self.device_video {
            match find_local(tracks, TrackSlot::DeviceVideo) {
                None => {
                    return Err(TracksRequestError::ExpectedDeviceVideoTracks);
                }
                Some(t) => {
                    if let Some(d) = req.device {
                        if t.device != d {
                            return Err(TracksRequestError::UnsatisfiedConstraints(req.id));
                        }
                    }
                    pairs.push((req.id, t));
                }
            }
        }
        if let Some(req) = &self.display_video {
            match find_local(tracks, TrackSlot::DisplayVideo) {
                None => {
                    return Err(TracksRequestError::ExpectedDisplayVideoTracks);
                }
                Some(t) => {
                    if let Some(d) = req.device {
                        if t.device != d {
                            return Err(TracksRequestError::UnsatisfiedConstraints(req.id));
                        }
                    }
                    pairs.push((req.id, t));
                }
            }
        }
        proof {
            assert(pairs@ =~= slot_pairing(self.audio, tracks@, TrackSlot::Audio) + slot_pairing(
                self.device_video,
                tracks@,
                TrackSlot::DeviceVideo,
            ) + slot_pairing(self.display_video, tracks@, TrackSlot::DisplayVideo));
        }
        Ok(pairs)
    }
}

/// The slot a required track falls into.
fn slot_of(t: &RequiredTrack) -> (s: TrackSlot)
    ensures
        s == track_slot(*t),
{
    match t.kind {
        MediaKind::Audio => TrackSlot::Audio,
        MediaKind::Video => match t.source {
            MediaSourceKind::Device => TrackSlot::DeviceVideo,
            MediaSourceKind::Display => TrackSlot::DisplayVideo,
        },
    }
}

/// Merges one required slot with a local device constraint, yielding the
/// merged slot, or the slot's track id on a device conflict.
fn merge_slot(slot: &Option<RequiredTrack>, local: Option<u64>) -> (r: Result<
    Option<RequiredTrack>,
    TrackId,
>)
    ensures
        slot_compatible(*slot, local) ==> r == Ok::<_, TrackId>(merged_slot(*slot, local)),
        !slot_compatible(*slot, local) ==> r == Err::<Option<RequiredTrack>, _>(
            slot->Some_0.id,
        ),
{
    match slot {
        None => Ok(None),
        Some(t) => {
            let device = match (t.device, local) {
                (Some(d), Some(l)) => {
                    if d != l {
                        return Err(t.id);
                    }
                    Some(d)
                }
                (Some(d), None) => Some(d),
                (None, l) => l,
            };
            Ok(Some(RequiredTrack { id: t.id, kind: t.kind, source: t.source, device }))
        }
    }
}

/// The first acquired track that can fill the given slot.
fn find_local(tracks: &Vec<LocalTrack>, slot: TrackSlot) -> (r: Option<LocalTrack>)
    ensures
        r == first_local_in_slot(tracks@, slot),
{
    let mut i: usize = 0;
    proof {
        assert(tracks@.skip(0) =~= tracks@);
    }
    while i < tracks.len()
        invariant
            i <= tracks.len(),
            first_local_in_slot(tracks@, slot) == first_local_in_slot(
                tracks@.skip(i as int),
                slot,
            ),
        decreases tracks.len() - i,
    {
        proof {
            assert(tracks@.skip(i as int)[0] == tracks@[i as int]);
            assert(tracks@.skip(i as int).skip(1) =~= tracks@.skip(i as int + 1));
        }
        if slot_of_local(&tracks[i]) == slot {
            return Some(tracks[i]);
        }
        i = i + 1;
    }
    proof {
        assert(tracks@.skip(tracks@.len() as int) =~= Seq::<LocalTrack>::empty());
    }
    None
}

/// The slot an acquired local track can fill.
fn slot_of_local(t: &LocalTrack) -> (s: TrackSlot)
    ensures
        s == local_track_slot(*t),
{
    match t.kind {
        MediaKind::Audio => TrackSlot::Audio,
        MediaKind::Video => match t.source {
            MediaSourceKind::Device => TrackSlot::DeviceVideo,
            MediaSourceKind::Display => TrackSlot::DisplayVideo,
        },
    }
}

} // verus!
