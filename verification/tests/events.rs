//! Callback-to-event wiring, track-intention translation, and criteria.

use std::rc::Rc;

use futures::channel::mpsc;

use peer_session::media::{LocalTracksConstraints, MediaKind, MediaSourceKind};
use peer_session::peer::{
    IceCandidate, IceCandidateError, PeerConnection, PeerEvent, TrackEvent,
};
use peer_session::proto::{
    Command, IceConnectionState, PeerConnectionState, PeerId, TrackId, TrackPatchCommand,
};
use peer_session::stream_update_criteria::LocalStreamUpdateCriteria;

fn channel() -> (mpsc::UnboundedSender<PeerEvent>, mpsc::UnboundedReceiver<PeerEvent>) {
    mpsc::unbounded()
}

#[test]
fn mute_intention_becomes_patch_command() {
    let (tx, mut rx) = channel();
    let ev = PeerConnection::handle_track_event(
        PeerId(4),
        &tx,
        TrackEvent::MuteUpdateIntention { id: TrackId(2), muted: true },
    );
    let expected = PeerEvent::MediaUpdateCommand {
        command: Command::UpdateTracks {
            peer_id: PeerId(4),
            tracks_patches: vec![TrackPatchCommand {
                id: TrackId(2),
                muted: Some(true),
                enabled: None,
            }],
        },
    };
    assert_eq!(ev, expected);
    // The command is also emitted on the channel, unchanged.
    assert_eq!(rx.try_next().unwrap(), Some(expected));
}

#[test]
fn media_exchange_intention_becomes_patch_command() {
    let (tx, mut rx) = channel();
    let ev = PeerConnection::handle_track_event(
        PeerId(4),
        &tx,
        TrackEvent::MediaExchangeIntention { id: TrackId(9), enabled: false },
    );
    let expected = PeerEvent::MediaUpdateCommand {
        command: Command::UpdateTracks {
            peer_id: PeerId(4),
            tracks_patches: vec![TrackPatchCommand {
                id: TrackId(9),
                muted: None,
                enabled: Some(false),
            }],
        },
    };
    assert_eq!(ev, expected);
    assert_eq!(rx.try_next().unwrap(), Some(expected));
}

#[test]
fn discovered_candidate_becomes_event() {
    let (tx, mut rx) = channel();
    let ev = PeerConnection::on_ice_candidate(
        PeerId(1),
        &tx,
        IceCandidate {
            candidate: "candidate:42".to_string(),
            sdp_m_line_index: Some(1),
            sdp_mid: Some("0".to_string()),
        },
    );
    let expected = PeerEvent::IceCandidateDiscovered {
        peer_id: PeerId(1),
        candidate: "candidate:42".to_string(),
        sdp_m_line_index: Some(1),
        sdp_mid: Some("0".to_string()),
    };
    assert_eq!(ev, expected);
    assert_eq!(rx.try_next().unwrap(), Some(expected));
}

#[test]
fn candidate_error_becomes_event() {
    let (tx, mut rx) = channel();
    let ev = PeerConnection::on_ice_candidate_error(
        PeerId(1),
        &tx,
        IceCandidateError {
            address: Some("10.0.0.2".to_string()),
            port: Some(3478),
            url: "stun:example".to_string(),
            error_code: 701,
            error_text: "unreachable".to_string(),
        },
    );
    let expected = PeerEvent::IceCandidateError {
        peer_id: PeerId(1),
        address: Some("10.0.0.2".to_string()),
        port: Some(3478),
        url: "stun:example".to_string(),
        error_code: 701,
        error_text: "unreachable".to_string(),
    };
    assert_eq!(ev, expected);
    assert_eq!(rx.try_next().unwrap(), Some(expected));
}

#[test]
fn connection_states_are_forwarded_in_order() {
    let (tx, mut rx) = channel();
    let constraints =
        LocalTracksConstraints { audio: None, device_video: None, display_video: None };
    let conn = PeerConnection::new(PeerId(6), Rc::new(tx), constraints);
    assert_eq!(conn.id(), PeerId(6));

    let (first, second) = conn.send_current_connection_states(
        IceConnectionState::Checking,
        PeerConnectionState::Connecting,
    );
    assert_eq!(
        first,
        PeerEvent::IceConnectionStateChanged {
            peer_id: PeerId(6),
            ice_connection_state: IceConnectionState::Checking,
        }
    );
    assert_eq!(
        second,
        PeerEvent::PeerConnectionStateChanged {
            peer_id: PeerId(6),
            peer_connection_state: PeerConnectionState::Connecting,
        }
    );
    assert_eq!(rx.try_next().unwrap(), Some(first));
    assert_eq!(rx.try_next().unwrap(), Some(second));
}

#[test]
fn criteria_selection() {
    let mut c = LocalStreamUpdateCriteria::empty();
    assert!(!c.has(MediaKind::Audio, MediaSourceKind::Device));
    c.add(MediaKind::Audio, MediaSourceKind::Device);
    assert!(c.has(MediaKind::Audio, MediaSourceKind::Device));
    assert!(!c.has(MediaKind::Video, MediaSourceKind::Device));

    let all = LocalStreamUpdateCriteria::all();
    assert!(all.has(MediaKind::Video, MediaSourceKind::Display));

    let single =
        LocalStreamUpdateCriteria::for_media_settings(MediaKind::Video, Some(MediaSourceKind::Device));
    assert!(single.has(MediaKind::Video, MediaSourceKind::Device));
    assert!(!single.has(MediaKind::Video, MediaSourceKind::Display));

    let both = LocalStreamUpdateCriteria::for_media_settings(MediaKind::Audio, None);
    assert!(both.has(MediaKind::Audio, MediaSourceKind::Device));
    assert!(both.has(MediaKind::Audio, MediaSourceKind::Display));
    assert!(!both.has(MediaKind::Video, MediaSourceKind::Device));
}
