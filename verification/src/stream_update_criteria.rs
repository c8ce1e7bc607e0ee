//! Criteria selecting which track slots a local-stream update refreshes:
//! a set of (kind, source) pairs.

use vstd::prelude::*;

use crate::media::{MediaKind, MediaSourceKind};

verus! {

/// A set of (kind, source) pairs naming the track slots that a
/// local-stream update applies to.
#[derive(Clone, Copy, Debug, PartialEq, Eq, Structural)]
pub struct LocalStreamUpdateCriteria {
    /// Device-captured audio is selected.
    pub device_audio: bool,
    /// Display-captured audio is selected.
    pub display_audio: bool,
    /// Device-captured video is selected.
    pub device_video: bool,
    /// Display-captured video is selected.
    pub display_video: bool,
}

impl LocalStreamUpdateCriteria {
    /// Whether the given (kind, source) pair is selected.
    pub open spec fn spec_has(self, kind: MediaKind, source: MediaSourceKind) -> bool {
        match (kind, source) {
            (MediaKind::Audio, MediaSourceKind::Device) => self.device_audio,
            (MediaKind::Audio, MediaSourceKind::Display) => self.display_audio,
            (MediaKind::Video, MediaSourceKind::Device) => self.device_video,
            (MediaKind::Video, MediaSourceKind::Display) => self.display_video,
        }
    }

    /// Criteria selecting no slot at all.
    pub fn empty() -> (c: Self)
        ensures
            forall|kind: MediaKind, source: MediaSourceKind| !c.spec_has(kind, source),
    {
        Self { device_audio: false, display_audio: false, device_video: false, display_video: false }
    }

    /// Criteria selecting every slot.
    pub fn all() -> (c: Self)
        ensures
            forall|kind: MediaKind, source: MediaSourceKind| c.spec_has(kind, source),
    {
        Self { device_audio: true, display_audio: true, device_video: true, display_video: true }
    }

    /// Adds the given (kind, source) pair to the selection.
    pub fn add(&mut self, kind: MediaKind, source: MediaSourceKind)
        ensures
            final(self).spec_has(kind, source),
            forall|k: MediaKind, s: MediaSourceKind|
                (k != kind || s != source) ==> final(self).spec_has(k, s) == old(self).spec_has(k, s),
    {
        match (kind, source) {
            (MediaKind::Audio, MediaSourceKind::Device) => self.device_audio = true,
            (MediaKind::Audio, MediaSourceKind::Display) => self.display_audio = true,
            (MediaKind::Video, MediaSourceKind::Device) => self.device_video = true,
            (MediaKind::Video, MediaSourceKind::Display) => self.display_video = true,
        }
    }

    /// Whether the given (kind, source) pair is selected.
    pub fn has(&self, kind: MediaKind, source: MediaSourceKind) -> (r: bool)
        ensures
            r == self.spec_has(kind, source),
    {
        match (kind, source) {
            (MediaKind::Audio, MediaSourceKind::Device) => self.device_audio,
            (MediaKind::Audio, MediaSourceKind::Display) => self.display_audio,
            (MediaKind::Video, MediaSourceKind::Device) => self.device_video,
            (MediaKind::Video, MediaSourceKind::Display) => self.display_video,
        }
    }

    /// Criteria selecting the given kind: from the given source where one
    /// is named, else from both sources.
    pub fn for_media_settings(kind: MediaKind, source: Option<MediaSourceKind>) -> (c: Self)
        ensures
            match source {
                Some(s) => forall|k: MediaKind, s2: MediaSourceKind|
                    c.spec_has(k, s2) == (k == kind && s2 == s),
                None => forall|k: MediaKind, s2: MediaSourceKind| c.spec_has(k, s2) == (k == kind),
            },
    {
        let mut c = Self::empty();
        match source {
            Some(s) => c.add(kind, s),
            None => {
                c.add(kind, MediaSourceKind::Device);
                c.add(kind, MediaSourceKind::Display);
            }
        }
        c
    }
}

} // verus!
