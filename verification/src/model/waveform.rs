//! Requests for the waveform of a track.
use crate::model::ids::{ServerId, TrackId};
use crate::model::settings::{PlaybackSettings, PlaybackSettingsView};
use crate::value::Value;
use vstd::prelude::*;

verus! {

/// Whether a waveform is wanted now or only to be ready later.
#[derive(Clone, Copy, Debug, PartialEq, Eq, Structural)]
pub enum WaveformGenerationKind {
    Foreground,
    Warm,
}

impl DeepView for WaveformGenerationKind {
    type V = WaveformGenerationKind;

    open spec fn deep_view(&self) -> WaveformGenerationKind {
        *self
    }
}

impl Value for WaveformGenerationKind {
    fn copy(&self) -> (result: WaveformGenerationKind) {
        *self
    }

    fn same(&self, other: &WaveformGenerationKind) -> (result: bool) {
        *self == *other
    }
}

/// The right to generate one waveform.
#[derive(Clone, Debug, PartialEq, Eq)]
pub struct WaveformGenerationPermit {
    pub cache_key: String,
    pub kind: WaveformGenerationKind,
}

/// The contents of a [`WaveformGenerationPermit`].
#[verifier::ext_equal]
pub struct WaveformGenerationPermitView {
    pub cache_key: Seq<char>,
    pub kind: WaveformGenerationKind,
}

impl DeepView for WaveformGenerationPermit {
    type V = WaveformGenerationPermitView;

    open spec fn deep_view(&self) -> WaveformGenerationPermitView {
        WaveformGenerationPermitView {
            cache_key: self.cache_key.deep_view(),
            kind: self.kind.deep_view(),
        }
    }
}

impl Value for WaveformGenerationPermit {
    fn copy(&self) -> (result: WaveformGenerationPermit) {
        WaveformGenerationPermit {
            cache_key: self.cache_key.copy(),
            kind: self.kind.copy(),
        }
    }

    fn same(&self, other: &WaveformGenerationPermit) -> (result: bool) {
        self.cache_key.same(&other.cache_key)
            && self.kind.same(&other.kind)
    }
}

/// A track whose waveform is to be made ready.
#[derive(Clone, Debug, PartialEq, Eq)]
pub struct WaveformWarmRequest {
    pub server_id: ServerId,
    pub track_id: TrackId,
    pub duration_seconds: u32,
    pub source_format: Option<String>,
    pub playback_settings: PlaybackSettings,
}

/// The contents of a [`WaveformWarmRequest`].
#[verifier::ext_equal]
pub struct WaveformWarmRequestView {
    pub server_id: Seq<char>,
    pub track_id: Seq<char>,
    pub duration_seconds: u32,
    pub source_format: Option<Seq<char>>,
    pub playback_settings: PlaybackSettingsView,
}

impl DeepView for WaveformWarmRequest {
    type V = WaveformWarmRequestView;

    open spec fn deep_view(&self) -> WaveformWarmRequestView {
        WaveformWarmRequestView {
            server_id: self.server_id.deep_view(),
            track_id: self.track_id.deep_view(),
            duration_seconds: self.duration_seconds.deep_view(),
            source_format: self.source_format.deep_view(),
            playback_settings: self.playback_settings.deep_view(),
        }
    }
}

impl Value for WaveformWarmRequest {
    fn copy(&self) -> (result: WaveformWarmRequest) {
        WaveformWarmRequest {
            server_id: self.server_id.copy(),
            track_id: self.track_id.copy(),
            duration_seconds: self.duration_seconds.copy(),
            source_format: self.source_format.copy(),
            playback_settings: self.playback_settings.copy(),
        }
    }

    fn same(&self, other: &WaveformWarmRequest) -> (result: bool) {
        self.server_id.same(&other.server_id)
            && self.track_id.same(&other.track_id)
            && self.duration_seconds.same(&other.duration_seconds)
            && self.source_format.same(&other.source_format)
            && self.playback_settings.same(&other.playback_settings)
    }
}

/// A waveform to be generated from a stream.
#[derive(Clone, Debug, PartialEq, Eq)]
pub struct WaveformGenerationRequest {
    pub cache_key: String,
    pub track_id: TrackId,
    pub duration_seconds: u32,
    pub source_format: Option<String>,
    pub uri: String,
    pub redacted_uri: String,
}

/// The contents of a [`WaveformGenerationRequest`].
#[verifier::ext_equal]
pub struct WaveformGenerationRequestView {
    pub cache_key: Seq<char>,
    pub track_id: Seq<char>,
    pub duration_seconds: u32,
    pub source_format: Option<Seq<char>>,
    pub uri: Seq<char>,
    pub redacted_uri: Seq<char>,
}

impl DeepView for WaveformGenerationRequest {
    type V = WaveformGenerationRequestView;

    open spec fn deep_view(&self) -> WaveformGenerationRequestView {
        WaveformGenerationRequestView {
            cache_key: self.cache_key.deep_view(),
            track_id: self.track_id.deep_view(),
            duration_seconds: self.duration_seconds.deep_view(),
            source_format: self.source_format.deep_view(),
            uri: self.uri.deep_view(),
            redacted_uri: self.redacted_uri.deep_view(),
        }
    }
}

impl Value for WaveformGenerationRequest {
    fn copy(&self) -> (result: WaveformGenerationRequest) {
        WaveformGenerationRequest {
            cache_key: self.cache_key.copy(),
            track_id: self.track_id.copy(),
            duration_seconds: self.duration_seconds.copy(),
            source_format: self.source_format.copy(),
            uri: self.uri.copy(),
            redacted_uri: self.redacted_uri.copy(),
        }
    }

    fn same(&self, other: &WaveformGenerationRequest) -> (result: bool) {
        self.cache_key.same(&other.cache_key)
            && self.track_id.same(&other.track_id)
            && self.duration_seconds.same(&other.duration_seconds)
            && self.source_format.same(&other.source_format)
            && self.uri.same(&other.uri)
            && self.redacted_uri.same(&other.redacted_uri)
    }
}

} // verus!
