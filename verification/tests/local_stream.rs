//! Local-stream update planning, validation, merging and track parsing.

use std::rc::Rc;

use futures::channel::mpsc;

use peer_session::media::{
    LocalTrack, LocalTracksConstraints, MediaKind, MediaSourceKind, MediaStreamSettings,
    TrackSettings,
};
use peer_session::peer::{LocalMediaError, PeerConnection, PeerEvent, UpdateLocalStreamError};
use peer_session::proto::{PeerId, TrackId};
use peer_session::tracks_request::{
    RequiredTrack, SimpleTracksRequest, TracksRequest, TracksRequestError,
};

fn required(id: u32, kind: MediaKind, source: MediaSourceKind) -> RequiredTrack {
    RequiredTrack { id: TrackId(id), kind, source, device: None }
}

fn session_with(
    constraints: LocalTracksConstraints,
) -> (PeerConnection, mpsc::UnboundedReceiver<PeerEvent>) {
    let (tx, rx) = mpsc::unbounded();
    (PeerConnection::new(PeerId(1), Rc::new(tx), constraints), rx)
}

fn session() -> (PeerConnection, mpsc::UnboundedReceiver<PeerEvent>) {
    session_with(LocalTracksConstraints { audio: None, device_video: None, display_video: None })
}

/// A stand-in for the media-acquisition collaborator that records whether
/// it was called.
struct AcquisitionStub {
    calls: usize,
}

impl AcquisitionStub {
    fn get_tracks(&mut self, _settings: &MediaStreamSettings) -> Vec<(LocalTrack, bool)> {
        self.calls += 1;
        Vec::new()
    }
}

#[test]
fn local_stream_noop() {
    let (conn, mut rx) = session();
    let mut acquisition = AcquisitionStub { calls: 0 };

    // The registry reports that nothing is needed: the update is a no-op.
    let plan = conn.plan_local_stream_update(None).unwrap();
    let updates: Vec<(TrackId, bool)> = match plan {
        None => Vec::new(),
        Some((_required, settings)) => {
            acquisition.get_tracks(&settings);
            panic!("no acquisition may happen for an empty requirement");
        }
    };
    assert!(updates.is_empty());
    assert_eq!(acquisition.calls, 0);
    assert!(rx.try_next().is_err());
}

#[test]
fn cardinality_rejection() {
    let (conn, _rx) = session();
    let mut acquisition = AcquisitionStub { calls: 0 };

    // Two audio tracks and one video track: rejected before acquisition.
    let request = TracksRequest {
        tracks: vec![
            required(1, MediaKind::Audio, MediaSourceKind::Device),
            required(2, MediaKind::Audio, MediaSourceKind::Device),
            required(3, MediaKind::Video, MediaSourceKind::Device),
        ],
    };
    let r = conn.plan_local_stream_update(Some(request));
    assert_eq!(
        r,
        Err(UpdateLocalStreamError::InvalidLocalTracks(TracksRequestError::TooManyAudioTracks))
    );
    assert_eq!(acquisition.calls, 0);

    // Too many video tracks per source are rejected alike.
    let request = TracksRequest {
        tracks: vec![
            required(4, MediaKind::Video, MediaSourceKind::Device),
            required(5, MediaKind::Video, MediaSourceKind::Device),
        ],
    };
    assert_eq!(
        conn.plan_local_stream_update(Some(request)),
        Err(UpdateLocalStreamError::InvalidLocalTracks(
            TracksRequestError::TooManyDeviceVideoTracks
        ))
    );
    let request = TracksRequest {
        tracks: vec![
            required(6, MediaKind::Video, MediaSourceKind::Display),
            required(7, MediaKind::Video, MediaSourceKind::Display),
        ],
    };
    assert_eq!(
        conn.plan_local_stream_update(Some(request)),
        Err(UpdateLocalStreamError::InvalidLocalTracks(
            TracksRequestError::TooManyDisplayVideoTracks
        ))
    );
}

#[test]
fn failed_update_is_reported_to_observers() {
    let (conn, mut rx) = session();
    let error =
        UpdateLocalStreamError::InvalidLocalTracks(TracksRequestError::TooManyAudioTracks);
    let ev = conn.report_local_media_error(error.clone());
    assert_eq!(
        ev,
        PeerEvent::FailedLocalMedia { error: LocalMediaError::UpdateLocalStreamError(error) }
    );
    assert_eq!(rx.try_next().unwrap(), Some(ev));

    // The other failing stages are reported the same way.
    let error = UpdateLocalStreamError::CouldNotGetLocalMedia(
        peer_session::media::InitLocalTracksError::GetUserMediaFailed("denied".to_string()),
    );
    let ev = conn.report_local_media_error(error.clone());
    assert_eq!(
        ev,
        PeerEvent::FailedLocalMedia { error: LocalMediaError::UpdateLocalStreamError(error) }
    );
    let error = UpdateLocalStreamError::InsertLocalTracksError(
        peer_session::peer::InsertLocalTracksError::NoSender(TrackId(4)),
    );
    let ev = conn.report_local_media_error(error.clone());
    assert_eq!(
        ev,
        PeerEvent::FailedLocalMedia { error: LocalMediaError::UpdateLocalStreamError(error) }
    );
}

#[test]
fn merge_conflict_is_rejected() {
    let (conn, _rx) = session_with(LocalTracksConstraints {
        audio: Some(1),
        device_video: None,
        display_video: None,
    });
    let request = TracksRequest {
        tracks: vec![RequiredTrack {
            id: TrackId(8),
            kind: MediaKind::Audio,
            source: MediaSourceKind::Device,
            device: Some(2),
        }],
    };
    assert_eq!(
        conn.plan_local_stream_update(Some(request)),
        Err(UpdateLocalStreamError::InvalidLocalTracks(
            TracksRequestError::ConflictingDeviceConstraint(TrackId(8))
        ))
    );
}

#[test]
fn merge_fills_open_slots_from_constraints() {
    let (conn, _rx) = session_with(LocalTracksConstraints {
        audio: Some(5),
        device_video: Some(6),
        display_video: None,
    });
    let request = TracksRequest {
        tracks: vec![
            required(1, MediaKind::Audio, MediaSourceKind::Device),
            required(2, MediaKind::Video, MediaSourceKind::Device),
            required(3, MediaKind::Video, MediaSourceKind::Display),
        ],
    };
    let (simple, settings) = conn.plan_local_stream_update(Some(request)).unwrap().unwrap();
    assert_eq!(simple.audio.unwrap().device, Some(5));
    assert_eq!(simple.device_video.unwrap().device, Some(6));
    assert_eq!(simple.display_video.unwrap().device, None);
    assert_eq!(
        settings,
        MediaStreamSettings {
            audio: Some(TrackSettings { device: Some(5) }),
            device_video: Some(TrackSettings { device: Some(6) }),
            display_video: Some(TrackSettings { device: None }),
        }
    );
}

#[test]
fn get_media_settings_maps_requirement() {
    let (conn, _rx) = session();
    assert_eq!(conn.get_media_settings(None), Ok(None));

    let request = TracksRequest {
        tracks: vec![required(1, MediaKind::Audio, MediaSourceKind::Device)],
    };
    assert_eq!(
        conn.get_media_settings(Some(request)),
        Ok(Some(MediaStreamSettings {
            audio: Some(TrackSettings { device: None }),
            device_video: None,
            display_video: None,
        }))
    );
}

#[test]
fn parse_tracks_pairs_required_slots() {
    let simple = SimpleTracksRequest {
        audio: Some(required(1, MediaKind::Audio, MediaSourceKind::Device)),
        device_video: Some(required(2, MediaKind::Video, MediaSourceKind::Device)),
        display_video: None,
    };
    let audio_track =
        LocalTrack { kind: MediaKind::Audio, source: MediaSourceKind::Device, device: 10 };
    let video_track =
        LocalTrack { kind: MediaKind::Video, source: MediaSourceKind::Device, device: 11 };
    let pairs = simple.parse_tracks(&vec![video_track, audio_track]).unwrap();
    assert_eq!(pairs, vec![(TrackId(1), audio_track), (TrackId(2), video_track)]);
}

#[test]
fn parse_tracks_missing_slots() {
    let audio_only = SimpleTracksRequest {
        audio: Some(required(1, MediaKind::Audio, MediaSourceKind::Device)),
        device_video: None,
        display_video: None,
    };
    assert_eq!(
        audio_only.parse_tracks(&Vec::new()),
        Err(TracksRequestError::ExpectedAudioTracks)
    );

    let device_video_only = SimpleTracksRequest {
        audio: None,
        device_video: Some(required(2, MediaKind::Video, MediaSourceKind::Device)),
        display_video: None,
    };
    assert_eq!(
        device_video_only.parse_tracks(&Vec::new()),
        Err(TracksRequestError::ExpectedDeviceVideoTracks)
    );

    let display_video_only = SimpleTracksRequest {
        audio: None,
        device_video: None,
        display_video: Some(required(3, MediaKind::Video, MediaSourceKind::Display)),
    };
    assert_eq!(
        display_video_only.parse_tracks(&Vec::new()),
        Err(TracksRequestError::ExpectedDisplayVideoTracks)
    );
}

#[test]
fn parse_tracks_wrong_device() {
    let simple = SimpleTracksRequest {
        audio: Some(RequiredTrack {
            id: TrackId(1),
            kind: MediaKind::Audio,
            source: MediaSourceKind::Device,
            device: Some(3),
        }),
        device_video: None,
        display_video: None,
    };
    let track = LocalTrack { kind: MediaKind::Audio, source: MediaSourceKind::Device, device: 4 };
    assert_eq!(
        simple.parse_tracks(&vec![track]),
        Err(TracksRequestError::UnsatisfiedConstraints(TrackId(1)))
    );
}

#[test]
fn new_local_tracks_are_announced() {
    let (conn, mut rx) = session();
    let fresh = LocalTrack { kind: MediaKind::Audio, source: MediaSourceKind::Device, device: 1 };
    let reused = LocalTrack { kind: MediaKind::Video, source: MediaSourceKind::Device, device: 2 };
    let evs = conn.emit_new_local_tracks(&vec![(reused, false), (fresh, true)]);
    assert_eq!(evs, vec![PeerEvent::NewLocalTrack { local_track: fresh }]);
    assert_eq!(rx.try_next().unwrap(), Some(PeerEvent::NewLocalTrack { local_track: fresh }));
    assert!(rx.try_next().is_err());
}
