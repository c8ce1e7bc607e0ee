//! The peer session orchestrator: remote-description application,
//! ICE-candidate buffering and flushing, local-stream synchronization,
//! statistics reporting, and the wiring of native callbacks to outbound
//! events.
//!
//! The native connection, the track registry and the media-acquisition
//! subsystem are external collaborators reached over awaited calls. The
//! session therefore exposes its decisions as synchronous functions: a
//! driver performs each collaborator call and hands its outcome back.

use vstd::prelude::*;

use std::collections::HashMap;
use std::rc::Rc;

use futures::channel::mpsc;

use crate::media::{InitLocalTracksError, LocalTrack, LocalTracksConstraints, MediaStreamSettings};
use crate::proto::{
    Command, IceConnectionState, MemberId, PeerConnectionState, PeerId, TrackId, TrackPatchCommand,
};
use crate::stats::{RtcStat, dedup_cache, dedup_filter, filter_stats};
use crate::tracks_request::{
    SimpleTracksRequest, TrackSlot, TracksRequest, TracksRequestError, merge_compatible,
    merged_simple, settings_of, slot_count, tracks_counts_valid, unmerged_simple,
};

verus! {

/// A discovered network path descriptor, exchanged during connectivity
/// establishment. The candidate string is an opaque payload.
#[derive(Clone, Debug, PartialEq, Eq)]
pub struct IceCandidate {
    /// The candidate descriptor itself.
    pub candidate: String,
    /// Index of the media description the candidate belongs to.
    pub sdp_m_line_index: Option<u16>,
    /// Identifier of the media description the candidate belongs to.
    pub sdp_mid: Option<String>,
}

/// A tagged remote session description: an offer or an answer, with the
/// SDP body as an opaque payload.
#[derive(Clone, Debug, PartialEq, Eq)]
pub enum SdpType {
    Offer(String),
    Answer(String),
}

/// Failures reported by the native connection, each with its native cause.
#[derive(Clone, Debug, PartialEq, Eq)]
pub enum RtcPeerConnectionError {
    /// The native connection could not be created.
    PeerCreationError(String),
    /// The native connection rejected a remote description.
    SetRemoteDescriptionFailed(String),
    /// The native connection rejected an ICE candidate.
    AddIceCandidateFailed(String),
    /// The native connection could not produce a statistics snapshot.
    GetStatsFailed(String),
}

/// Failure of the track registry while inserting validated local tracks.
#[derive(Clone, Debug, PartialEq, Eq)]
pub enum InsertLocalTracksError {
    /// No sender slot exists for the given track.
    NoSender(TrackId),
    /// The native layer rejected the insertion, with its cause.
    CouldNotInsertLocalTrack(String),
}

/// Failure while creating a sender in the track registry.
#[derive(Clone, Debug, PartialEq, Eq)]
pub enum SenderCreateError {
    /// No transceiver exists for the given track.
    TransceiverNotFound(TrackId),
}

/// Errors of a local-stream update, one variant per failing stage.
#[derive(Clone, Debug, PartialEq, Eq)]
pub enum UpdateLocalStreamError {
    /// The requirement could not be validated or merged.
    InvalidLocalTracks(TracksRequestError),
    /// The media-acquisition collaborator could not provide the tracks.
    CouldNotGetLocalMedia(InitLocalTracksError),
    /// The track registry could not take the validated tracks.
    InsertLocalTracksError(InsertLocalTracksError),
}

/// Local media update errors reported in `FailedLocalMedia` events.
#[derive(Clone, Debug, PartialEq, Eq)]
pub enum LocalMediaError {
    /// A local-stream update failed.
    UpdateLocalStreamError(UpdateLocalStreamError),
    /// A sender could not be created.
    SenderCreateError(SenderCreateError),
}

/// An intention emitted by a single media track.
#[derive(Clone, Copy, Debug, PartialEq, Eq, Structural)]
pub enum TrackEvent {
    /// The track intends to mute or unmute itself.
    MuteUpdateIntention {
        /// Track that sends the intention.
        id: TrackId,
        /// The muting intention itself.
        muted: bool,
    },
    /// The track intends to enable or disable itself.
    MediaExchangeIntention {
        /// Track that sends the intention.
        id: TrackId,
        /// The enabling intention itself.
        enabled: bool,
    },
}

/// Details of a failed ICE candidate, as the native connection reports
/// them.
#[derive(Clone, Debug, PartialEq, Eq)]
pub struct IceCandidateError {
    /// Local address used to communicate with the server.
    pub address: Option<String>,
    /// Port used to communicate with the server.
    pub port: Option<u32>,
    /// URL identifying the server the failure occurred with.
    pub url: String,
    /// Numeric error code returned by the server.
    pub error_code: i32,
    /// Reason text returned by the server.
    pub error_text: String,
}

/// Events the session emits over its outbound channel to the signalling
/// layer.
#[derive(Clone, Debug, PartialEq, Eq)]
pub enum PeerEvent {
    /// The native connection discovered a new ICE candidate.
    IceCandidateDiscovered {
        /// Session that discovered the candidate.
        peer_id: PeerId,
        /// The candidate descriptor.
        candidate: String,
        /// Index of the media description the candidate belongs to.
        sdp_m_line_index: Option<u16>,
        /// Identifier of the media description the candidate belongs to.
        sdp_mid: Option<String>,
    },
    /// An ICE candidate of the session failed.
    IceCandidateError {
        /// Session the failure belongs to.
        peer_id: PeerId,
        /// Local address used to communicate with the server.
        address: Option<String>,
        /// Port used to communicate with the server.
        port: Option<u32>,
        /// URL identifying the server the failure occurred with.
        url: String,
        /// Numeric error code returned by the server.
        error_code: i32,
        /// Reason text returned by the server.
        error_text: String,
    },
    /// The native connection received a new track from a remote member.
    NewRemoteTrack {
        /// Remote member that sends the track.
        sender_id: MemberId,
        /// Track the registry assigned to the received media.
        track_id: TrackId,
    },
    /// A new local track is sent to remote members.
    NewLocalTrack {
        /// The local track being sent.
        local_track: LocalTrack,
    },
    /// The ICE connection state of the native connection changed.
    IceConnectionStateChanged {
        /// Session whose state changed.
        peer_id: PeerId,
        /// The new state.
        ice_connection_state: IceConnectionState,
    },
    /// The overall state of the native connection changed.
    PeerConnectionStateChanged {
        /// Session whose state changed.
        peer_id: PeerId,
        /// The new state.
        peer_connection_state: PeerConnectionState,
    },
    /// Metrics of the session changed since they were last sent.
    StatsUpdate {
        /// Session the metrics belong to.
        peer_id: PeerId,
        /// The changed metrics only.
        stats: Vec<RtcStat>,
    },
    /// A local-stream update failed; observers are notified.
    FailedLocalMedia {
        /// Reason of the failure.
        error: LocalMediaError,
    },
    /// A new SDP answer was generated.
    NewSdpAnswer {
        /// Session the answer belongs to.
        peer_id: PeerId,
        /// The SDP answer body.
        sdp_answer: String,
        /// Publishing status of each transceiver.
        transceivers_statuses: Vec<(TrackId, bool)>,
    },
    /// A new SDP offer was generated.
    NewSdpOffer {
        /// Session the offer belongs to.
        peer_id: PeerId,
        /// The SDP offer body.
        sdp_offer: String,
        /// Media-description identifier of each track.
        mids: Vec<(TrackId, String)>,
        /// Publishing status of each transceiver.
        transceivers_statuses: Vec<(TrackId, bool)>,
    },
    /// The session resends its track intentions as a command.
    MediaUpdateCommand {
        /// The command carrying the intentions.
        command: Command,
    },
}

/// Relies on `futures::channel::mpsc::UnboundedSender`: the outbound
/// event channel's sending half. Its values are opaque to the library;
/// they are only handed to `send_event`.
#[verifier::external_type_specification]
#[verifier::external_body]
#[verifier::reject_recursive_types(T)]
pub struct ExUnboundedSender<T>(mpsc::UnboundedSender<T>);

/// Relies on `futures::channel::mpsc::UnboundedSender::unbounded_send`:
/// queues a copy of the event for the receiver and returns whether the
/// channel accepted it. A disconnected channel (the receiver was dropped)
/// makes it return an error, reported here as `false`; the event is then
/// silently dropped, which is the expected behaviour during teardown.
#[verifier::external_body]
fn send_event(sender: &mpsc::UnboundedSender<PeerEvent>, event: &PeerEvent) -> bool {
    sender.unbounded_send(event.clone()).is_ok()
}

/// The patch command that a track's intention translates into: exactly
/// one of the two intention fields is set.
pub open spec fn patch_of_event(event: TrackEvent) -> TrackPatchCommand {
    match event {
        TrackEvent::MediaExchangeIntention { id, enabled } => (TrackPatchCommand {
            id,
            muted: None,
            enabled: Some(enabled),
        }),
        TrackEvent::MuteUpdateIntention { id, muted } => (TrackPatchCommand {
            id,
            muted: Some(muted),
            enabled: None,
        }),
    }
}

/// The `NewLocalTrack` events for the freshly acquired tracks among the
/// given ones, in order; reused tracks produce no event.
pub open spec fn new_local_track_events(tracks: Seq<(LocalTrack, bool)>) -> Seq<PeerEvent>
    decreases tracks.len(),
{
    if tracks.len() == 0 {
        Seq::empty()
    } else {
        let rest = new_local_track_events(tracks.skip(1));
        if tracks[0].1 {
            seq![PeerEvent::NewLocalTrack { local_track: tracks[0].0 }] + rest
        } else {
            rest
        }
    }
}

/// The first failure among the outcomes of the flushed candidate
/// submissions, if any.
pub open spec fn first_failure(results: Seq<Result<(), String>>) -> Option<String>
    decreases results.len(),
{
    if results.len() == 0 {
        None
    } else {
        match results[0] {
            Err(cause) => Some(cause),
            Ok(_) => first_failure(results.skip(1)),
        }
    }
}

/// The buffer after a whole run of candidates is added to it.
pub open spec fn buffer_all(buf: Seq<IceCandidate>, cs: Seq<IceCandidate>) -> Seq<IceCandidate>
    decreases cs.len(),
{
    if cs.len() == 0 {
        buf
    } else {
        buffer_all(buf.push(cs[0]), cs.skip(1))
    }
}

/// Law: candidates that arrive while no remote description is applied are
/// buffered in arrival order, none of them reaching the native connection
/// (`add_ice_candidate` returns nothing to submit), and the flush on the
/// remote-description transition hands over exactly the buffer's run —
/// the earlier contents followed by every added candidate, in order.
pub proof fn lemma_candidate_buffering(buf: Seq<IceCandidate>, cs: Seq<IceCandidate>)
    ensures
        buffer_all(buf, cs) == buf + cs,
    decreases cs.len(),
{
    if cs.len() == 0 {
        assert(buffer_all(buf, cs) =~= buf + cs);
    } else {
        lemma_candidate_buffering(buf.push(cs[0]), cs.skip(1));
        assert(buf.push(cs[0]) + cs.skip(1) =~= buf + cs);
    }
}

/// A single peer session: the orchestrator of one peer-to-peer
/// connection's signalling lifecycle.
#[derive(Debug)]
pub struct PeerConnection {
    /// Unique identifier of this session.
    id: PeerId,
    /// Sending half of the outbound event channel, shared with the
    /// native-callback closures through non-owning references.
    peer_events_sender: Rc<mpsc::UnboundedSender<PeerEvent>>,
    /// Whether a remote description was applied. Transitions to `true`
    /// exactly once and never reverts.
    has_remote_description: bool,
    /// Candidates that arrived before a remote description, in arrival
    /// order; drained in full on the remote-description transition and
    /// never repopulated.
    ice_candidates_buffer: Vec<IceCandidate>,
    /// Content hash of every metric last sent, by metric id.
    sent_stats_cache: HashMap<u64, u64>,
    /// Local media constraints, supplied at construction.
    send_constraints: LocalTracksConstraints,
}

impl PeerConnection {
    /// Identifier of this session.
    pub closed spec fn peer_id(&self) -> PeerId {
        self.id
    }

    /// Whether a remote description was applied.
    pub closed spec fn remote_description_applied(&self) -> bool {
        self.has_remote_description
    }

    /// The buffered candidates, in arrival order.
    pub closed spec fn buffered(&self) -> Seq<IceCandidate> {
        self.ice_candidates_buffer@
    }

    /// The last-sent hash of every metric, by metric id.
    pub closed spec fn stats_cache(&self) -> Map<u64, u64> {
        self.sent_stats_cache@
    }

    /// The local media constraints of this session.
    pub closed spec fn constraints(&self) -> LocalTracksConstraints {
        self.send_constraints
    }

    /// The session invariant: once a remote description is applied, the
    /// candidate buffer is and stays empty — late candidates pass through.
    pub open spec fn wf(&self) -> bool {
        self.remote_description_applied() ==> self.buffered().len() == 0
    }

    /// Creates a new session around the given outbound event channel.
    /// The native connection and the track registry are created by the
    /// driver; their callbacks are handed non-owning references to
    /// `peer_events_sender`.
    pub fn new(
        id: PeerId,
        peer_events_sender: Rc<mpsc::UnboundedSender<PeerEvent>>,
        send_constraints: LocalTracksConstraints,
    ) -> (c: Self)
        ensures
            c.peer_id() == id,
            !c.remote_description_applied(),
            c.buffered() == Seq::<IceCandidate>::empty(),
            c.stats_cache() == Map::<u64, u64>::empty(),
            c.constraints() == send_constraints,
            c.wf(),
    {
        let c = Self {
            id,
            peer_events_sender,
            has_remote_description: false,
            ice_candidates_buffer: Vec::new(),
            sent_stats_cache: HashMap::new(),
            send_constraints,
        };
        proof {
            assert(c.buffered() =~= Seq::<IceCandidate>::empty());
            assert(c.stats_cache() =~= Map::<u64, u64>::empty());
        }
        c
    }

    /// The identifier of this session.
    pub fn id(&self) -> (r: PeerId)
        ensures
            r == self.peer_id(),
    {
        self.id
    }

    /// How many candidates are buffered.
    pub fn candidates_buffer_len(&self) -> (n: usize)
        ensures
            n == self.buffered().len(),
    {
        self.ice_candidates_buffer.len()
    }

    /// Ingests a remote ICE candidate. While no remote description is
    /// applied the candidate is buffered — buffering never fails — and
    /// nothing is submitted; afterwards the candidate is returned for
    /// direct submission to the native connection, the buffer staying
    /// untouched.
    pub fn add_ice_candidate(
        &mut self,
        candidate: String,
        sdp_m_line_index: Option<u16>,
        sdp_mid: Option<String>,
    ) -> (submit: Option<IceCandidate>)
        ensures
            old(self).remote_description_applied() ==> submit == Some(
                (IceCandidate { candidate, sdp_m_line_index, sdp_mid }),
            ) && *final(self) == *old(self),
            !old(self).remote_description_applied() ==> {
                &&& submit is None
                &&& final(self).buffered() == old(self).buffered().push(
                    (IceCandidate { candidate, sdp_m_line_index, sdp_mid }),
                )
                &&& !final(self).remote_description_applied()
                &&& final(self).stats_cache() == old(self).stats_cache()
                &&& final(self).peer_id() == old(self).peer_id()
                &&& final(self).constraints() == old(self).constraints()
            },
            old(self).wf() ==> final(self).wf(),
    {
        let c = IceCandidate { candidate, sdp_m_line_index, sdp_mid };
        if self.has_remote_description {
            Some(c)
        } else {
            self.ice_candidates_buffer.push(c);
            None
        }
    }

    /// Records the native connection's outcome of applying a remote
    /// description. On failure the failure is surfaced and nothing
    /// changes — the flag stays unset. On success the session is marked
    /// as having a remote description before the buffer is drained, and
    /// the full buffer is handed back, in arrival order, for submission
    /// to the native connection.
    ///
    /// The driver applies the description to the native connection and
    /// asks the track registry to synchronize its receivers before it
    /// submits the returned candidates.
    pub fn set_remote_description(&mut self, native_result: Result<(), String>) -> (r: Result<
        Vec<IceCandidate>,
        RtcPeerConnectionError,
    >)
        ensures
            native_result matches Err(cause) ==> r == Err::<Vec<IceCandidate>, _>(
                RtcPeerConnectionError::SetRemoteDescriptionFailed(cause),
            ) && *final(self) == *old(self),
            native_result matches Ok(_) ==> {
                &&& r matches Ok(flushed) && flushed@ == old(self).buffered()
                &&& final(self).remote_description_applied()
                &&& final(self).buffered() == Seq::<IceCandidate>::empty()
                &&& final(self).stats_cache() == old(self).stats_cache()
                &&& final(self).peer_id() == old(self).peer_id()
                &&& final(self).constraints() == old(self).constraints()
            },
            old(self).wf() ==> final(self).wf(),
    {
        match native_result {
            Err(cause) => Err(RtcPeerConnectionError::SetRemoteDescriptionFailed(cause)),
            Ok(_) => {
                self.has_remote_description = true;
                let mut flushed: Vec<IceCandidate> = Vec::new();
                core::mem::swap(&mut flushed, &mut self.ice_candidates_buffer);
                proof {
                    assert(self.buffered() =~= Seq::<IceCandidate>::empty());
                }
                Ok(flushed)
            }
        }
    }

    /// Filters a statistics snapshot against the last-sent hashes and, if
    /// any entry survives, emits a stats-update event carrying exactly
    /// the surviving entries; an empty filtered result emits nothing.
    /// The cache of last-sent hashes never shrinks.
    pub fn send_peer_stats(&mut self, stats: Vec<RtcStat>) -> (emitted: Option<PeerEvent>)
        ensures
            final(self).stats_cache() == dedup_cache(old(self).stats_cache(), stats@),
            final(self).buffered() == old(self).buffered(),
            final(self).remote_description_applied() == old(self).remote_description_applied(),
            final(self).peer_id() == old(self).peer_id(),
            final(self).constraints() == old(self).constraints(),
            old(self).wf() ==> final(self).wf(),
            dedup_filter(old(self).stats_cache(), stats@).len() == 0 ==> emitted is None,
            dedup_filter(old(self).stats_cache(), stats@).len() > 0 ==> (emitted matches Some(ev)
                && ev matches PeerEvent::StatsUpdate { peer_id, stats: kept } && peer_id == old(
                self,
            ).peer_id() && kept@ == dedup_filter(old(self).stats_cache(), stats@)),
    {
        let kept = filter_stats(&mut self.sent_stats_cache, stats);
        if kept.len() > 0 {
            let ev = PeerEvent::StatsUpdate { peer_id: self.id, stats: kept };
            let _delivered = send_event(&self.peer_events_sender, &ev);
            Some(ev)
        } else {
            None
        }
    }

    /// Builds the minimal local-media requirement for the registry's raw
    /// requirement, merged with this session's local constraints. A
    /// registry that requires nothing yields nothing.
    pub fn get_simple_tracks_request(&self, request: Option<TracksRequest>) -> (r: Result<
        Option<SimpleTracksRequest>,
        TracksRequestError,
    >)
        ensures
            request is None ==> r == Ok::<Option<SimpleTracksRequest>, TracksRequestError>(None),
            request matches Some(req) ==> {
                &&& (r matches Ok(_)) <==> (tracks_counts_valid(req.tracks@) && merge_compatible(
                    unmerged_simple(req.tracks@),
                    self.constraints(),
                ))
                &&& r matches Ok(o) ==> o == Some(merged_simple(req.tracks@, self.constraints()))
                &&& r matches Err(e) ==> {
                    ||| e == TracksRequestError::TooManyAudioTracks && slot_count(
                        req.tracks@,
                        TrackSlot::Audio,
                    ) >= 2
                    ||| e == TracksRequestError::TooManyDeviceVideoTracks && slot_count(
                        req.tracks@,
                        TrackSlot::DeviceVideo,
                    ) >= 2
                    ||| e == TracksRequestError::TooManyDisplayVideoTracks && slot_count(
                        req.tracks@,
                        TrackSlot::DisplayVideo,
                    ) >= 2
                    ||| e == TracksRequestError::ConflictingDeviceConstraint(
                        unmerged_simple(req.tracks@).conflicting_track(
                            self.constraints(),
                        )->Some_0.id,
                    ) && !merge_compatible(unmerged_simple(req.tracks@), self.constraints())
                }
            },
    {
        match request {
            None => Ok(None),
            Some(req) => {
                let mut simple = match SimpleTracksRequest::try_from(&req) {
                    Ok(s) => s,
                    Err(e) => {
                        return Err(e);
                    }
                };
                match simple.merge(&self.send_constraints) {
                    Ok(_) => Ok(Some(simple)),
                    Err(e) => Err(e),
                }
            }
        }
    }

    /// Returns the merged acquisition settings for the registry's raw
    /// requirement, or nothing where the registry requires nothing.
    pub fn get_media_settings(&self, request: Option<TracksRequest>) -> (r: Result<
        Option<MediaStreamSettings>,
        TracksRequestError,
    >)
        ensures
            request is None ==> r == Ok::<Option<MediaStreamSettings>, TracksRequestError>(None),
            request matches Some(req) ==> {
                &&& (r matches Ok(_)) <==> (tracks_counts_valid(req.tracks@) && merge_compatible(
                    unmerged_simple(req.tracks@),
                    self.constraints(),
                ))
                &&& r matches Ok(o) ==> o == Some(
                    settings_of(merged_simple(req.tracks@, self.constraints())),
                )
            },
    {
        match self.get_simple_tracks_request(request) {
            Ok(None) => Ok(None),
            Ok(Some(simple)) => Ok(Some(simple.media_settings())),
            Err(e) => Err(e),
        }
    }

    /// The first stage of a local-stream update: derives the minimal
    /// requirement and the acquisition settings. A registry that needs
    /// nothing yields nothing and the update is a no-op; an invalid or
    /// conflicting requirement fails before any acquisition.
    pub fn plan_local_stream_update(&self, request: Option<TracksRequest>) -> (r: Result<
        Option<(SimpleTracksRequest, MediaStreamSettings)>,
        UpdateLocalStreamError,
    >)
        ensures
            request is None ==> r == Ok::<
                Option<(SimpleTracksRequest, MediaStreamSettings)>,
                UpdateLocalStreamError,
            >(None),
            request matches Some(req) ==> {
                &&& (r matches Ok(_)) <==> (tracks_counts_valid(req.tracks@) && merge_compatible(
                    unmerged_simple(req.tracks@),
                    self.constraints(),
                ))
                &&& r matches Ok(o) ==> o == Some(
                    (
                        merged_simple(req.tracks@, self.constraints()),
                        settings_of(merged_simple(req.tracks@, self.constraints())),
                    ),
                )
                &&& r matches Err(e) ==> e matches UpdateLocalStreamError::InvalidLocalTracks(_)
            },
    {
        match self.get_simple_tracks_request(request) {
            Ok(None) => Ok(None),
            Ok(Some(simple)) => {
                let settings = simple.media_settings();
                Ok(Some((simple, settings)))
            }
            Err(e) => Err(UpdateLocalStreamError::InvalidLocalTracks(e)),
        }
    }

    /// Emits a `NewLocalTrack` event for every freshly acquired track
    /// among the given ones, in order, and returns the emitted events;
    /// reused tracks emit nothing.
    pub fn emit_new_local_tracks(&self, media_tracks: &Vec<(LocalTrack, bool)>) -> (evs: Vec<
        PeerEvent,
    >)
        ensures
            evs@ == new_local_track_events(media_tracks@),
    {
        let ghost full = media_tracks@;
        let mut evs: Vec<PeerEvent> = Vec::new();
        let mut i: usize = 0;
        proof {
            assert(full.skip(0) =~= full);
            assert(evs@ + new_local_track_events(full) =~= new_local_track_events(full));
        }
        while i < media_tracks.len()
            invariant
                i <= media_tracks.len(),
                media_tracks@ == full,
                new_local_track_events(full) == evs@ + new_local_track_events(full.skip(i as int)),
            decreases media_tracks.len() - i,
        {
            proof {
                assert(full.skip(i as int)[0] == full[i as int]);
                assert(full.skip(i as int).skip(1) =~= full.skip(i as int + 1));
            }
            let (track, is_new) = media_tracks[i];
            if is_new {
                let ev = PeerEvent::NewLocalTrack { local_track: track };
                let _delivered = send_event(&self.peer_events_sender, &ev);
                let ghost pre = evs@;
                evs.push(ev);
                proof {
                    assert(pre + (seq![ev] + new_local_track_events(full.skip(i as int + 1)))
                        =~= evs@ + new_local_track_events(full.skip(i as int + 1)));
                }
            }
            i = i + 1;
        }
        proof {
            assert(new_local_track_events(full.skip(media_tracks@.len() as int))
                =~= Seq::<PeerEvent>::empty());
            assert(evs@ + Seq::<PeerEvent>::empty() =~= evs@);
        }
        evs
    }

    /// Emits the best-effort notification that a local-stream update
    /// failed, carrying the cause, and returns the emitted event. The
    /// update's own error is propagated separately by the caller.
    pub fn report_local_media_error(&self, error: UpdateLocalStreamError) -> (ev: PeerEvent)
        ensures
            ev == (PeerEvent::FailedLocalMedia {
                error: LocalMediaError::UpdateLocalStreamError(error),
            }),
    {
        let ev = PeerEvent::FailedLocalMedia {
            error: LocalMediaError::UpdateLocalStreamError(error),
        };
        let _delivered = send_event(&self.peer_events_sender, &ev);
        ev
    }

    /// Translates a track's intention into a media-update command carrying
    /// exactly one single-track patch, emits it, and returns it.
    pub fn handle_track_event(
        peer_id: PeerId,
        peer_events_sender: &mpsc::UnboundedSender<PeerEvent>,
        event: TrackEvent,
    ) -> (ev: PeerEvent)
        ensures
            ev matches PeerEvent::MediaUpdateCommand { command } && command matches
                Command::UpdateTracks { peer_id: p, tracks_patches } && p == peer_id
                && tracks_patches@ == seq![patch_of_event(event)],
    {
        let patch = match event {
            TrackEvent::MediaExchangeIntention { id, enabled } => TrackPatchCommand {
                id,
                muted: None,
                enabled: Some(enabled),
            },
            TrackEvent::MuteUpdateIntention { id, muted } => TrackPatchCommand {
                id,
                muted: Some(muted),
                enabled: None,
            },
        };
        let mut tracks_patches: Vec<TrackPatchCommand> = Vec::new();
        tracks_patches.push(patch);
        proof {
            assert(tracks_patches@ =~= seq![patch_of_event(event)]);
        }
        let ev = PeerEvent::MediaUpdateCommand {
            command: Command::UpdateTracks { peer_id, tracks_patches },
        };
        let _delivered = send_event(peer_events_sender, &ev);
        ev
    }

    /// Converts a discovered ICE candidate into its outbound event, emits
    /// it, and returns it. Fired synchronously from the native callback.
    pub fn on_ice_candidate(
        id: PeerId,
        sender: &mpsc::UnboundedSender<PeerEvent>,
        candidate: IceCandidate,
    ) -> (ev: PeerEvent)
        ensures
            ev == (PeerEvent::IceCandidateDiscovered {
                peer_id: id,
                candidate: candidate.candidate,
                sdp_m_line_index: candidate.sdp_m_line_index,
                sdp_mid: candidate.sdp_mid,
            }),
    {
        let ev = PeerEvent::IceCandidateDiscovered {
            peer_id: id,
            candidate: candidate.candidate,
            sdp_m_line_index: candidate.sdp_m_line_index,
            sdp_mid: candidate.sdp_mid,
        };
        let _delivered = send_event(sender, &ev);
        ev
    }

    /// Converts a failed ICE candidate into its outbound event, emits it,
    /// and returns it. Fired synchronously from the native callback.
    pub fn on_ice_candidate_error(
        id: PeerId,
        sender: &mpsc::UnboundedSender<PeerEvent>,
        error: IceCandidateError,
    ) -> (ev: PeerEvent)
        ensures
            ev == (PeerEvent::IceCandidateError {
                peer_id: id,
                address: error.address,
                port: error.port,
                url: error.url,
                error_code: error.error_code,
                error_text: error.error_text,
            }),
    {
        let ev = PeerEvent::IceCandidateError {
            peer_id: id,
            address: error.address,
            port: error.port,
            url: error.url,
            error_code: error.error_code,
            error_text: error.error_text,
        };
        let _delivered = send_event(sender, &ev);
        ev
    }

    /// Converts an ICE connection state change into its outbound event,
    /// emits it, and returns it.
    pub fn on_ice_connection_state_changed(
        peer_id: PeerId,
        sender: &mpsc::UnboundedSender<PeerEvent>,
        ice_connection_state: IceConnectionState,
    ) -> (ev: PeerEvent)
        ensures
            ev == (PeerEvent::IceConnectionStateChanged { peer_id, ice_connection_state }),
    {
        let ev = PeerEvent::IceConnectionStateChanged { peer_id, ice_connection_state };
        let _delivered = send_event(sender, &ev);
        ev
    }

    /// Converts an overall connection state change into its outbound
    /// event, emits it, and returns it.
    pub fn on_connection_state_changed(
        peer_id: PeerId,
        sender: &mpsc::UnboundedSender<PeerEvent>,
        peer_connection_state: PeerConnectionState,
    ) -> (ev: PeerEvent)
        ensures
            ev == (PeerEvent::PeerConnectionStateChanged { peer_id, peer_connection_state }),
    {
        let ev = PeerEvent::PeerConnectionStateChanged { peer_id, peer_connection_state };
        let _delivered = send_event(sender, &ev);
        ev
    }

    /// Emits the session's current connection state and ICE connection
    /// state, as the driver read them from the native connection, and
    /// returns the two events in emission order.
    pub fn send_current_connection_states(
        &self,
        ice_connection_state: IceConnectionState,
        peer_connection_state: PeerConnectionState,
    ) -> (evs: (PeerEvent, PeerEvent))
        ensures
            evs.0 == (PeerEvent::IceConnectionStateChanged {
                peer_id: self.peer_id(),
                ice_connection_state,
            }),
            evs.1 == (PeerEvent::PeerConnectionStateChanged {
                peer_id: self.peer_id(),
                peer_connection_state,
            }),
    {
        let first = Self::on_ice_connection_state_changed(
            self.id,
            &self.peer_events_sender,
            ice_connection_state,
        );
        let second = Self::on_connection_state_changed(
            self.id,
            &self.peer_events_sender,
            peer_connection_state,
        );
        (first, second)
    }
}

/// Maps the outcome of creating the native connection: a creation
/// failure surfaces as `PeerCreationError` and is not retried — the
/// caller decides.
pub fn peer_creation_outcome<N>(result: Result<N, String>) -> (r: Result<
    N,
    RtcPeerConnectionError,
>)
    ensures
        result matches Ok(native) ==> r == Ok::<N, RtcPeerConnectionError>(native),
        result matches Err(cause) ==> r == Err::<N, _>(
            RtcPeerConnectionError::PeerCreationError(cause),
        ),
{
    match result {
        Ok(native) => Ok(native),
        Err(cause) => Err(RtcPeerConnectionError::PeerCreationError(cause)),
    }
}

/// Maps the native outcome of a statistics fetch: a failure surfaces as
/// `GetStatsFailed`, which the driver only logs — metrics are
/// best-effort, never fatal.
pub fn stats_fetch_outcome(result: Result<Vec<RtcStat>, String>) -> (r: Result<
    Vec<RtcStat>,
    RtcPeerConnectionError,
>)
    ensures
        result matches Ok(stats) ==> r == Ok::<Vec<RtcStat>, RtcPeerConnectionError>(stats),
        result matches Err(cause) ==> r == Err::<Vec<RtcStat>, _>(
            RtcPeerConnectionError::GetStatsFailed(cause),
        ),
{
    match result {
        Ok(stats) => Ok(stats),
        Err(cause) => Err(RtcPeerConnectionError::GetStatsFailed(cause)),
    }
}

/// Maps the native outcome of one direct candidate submission to the
/// session's result: a native rejection surfaces with its cause.
pub fn candidate_submission_outcome(result: Result<(), String>) -> (r: Result<
    (),
    RtcPeerConnectionError,
>)
    ensures
        result matches Ok(_) ==> r == Ok::<(), RtcPeerConnectionError>(()),
        result matches Err(cause) ==> r == Err::<(), _>(
            RtcPeerConnectionError::AddIceCandidateFailed(cause),
        ),
{
    match result {
        Ok(_) => Ok(()),
        Err(cause) => Err(RtcPeerConnectionError::AddIceCandidateFailed(cause)),
    }
}

/// Maps the native outcomes of a whole buffer flush to the session's
/// result. Every submission was already attempted — the flush is
/// best-effort and nothing is re-buffered — so only the first failure is
/// surfaced.
#[verifier::loop_isolation(false)]
pub fn flush_outcome(results: Vec<Result<(), String>>) -> (r: Result<(), RtcPeerConnectionError>)
    ensures
        first_failure(results@) is None ==> r == Ok::<(), RtcPeerConnectionError>(()),
        first_failure(results@) matches Some(cause) ==> r == Err::<(), _>(
            RtcPeerConnectionError::AddIceCandidateFailed(cause),
        ),
{
    let ghost full = results@;
    let mut remaining = results;
    proof {
        assert(full.skip(0) =~= full);
    }
    while remaining.len() > 0
        invariant
            first_failure(full) == first_failure(remaining@),
        decreases remaining.len(),
    {
        let ghost pre = remaining@;
        let outcome = remaining.remove(0);
        proof {
            assert(pre.remove(0) =~= pre.skip(1));
        }
        match outcome {
            Ok(_) => {}
            Err(cause) => {
                return Err(RtcPeerConnectionError::AddIceCandidateFailed(cause));
            }
        }
    }
    Ok(())
}

} // verus!
