//! The player: its state, its commands and its events.
use crate::model::ids::{TrackId};
use crate::model::queue::{QueueEntry, QueueEntryView, RepeatMode};
use crate::model::settings::{PlaybackSettings, PlaybackSettingsView, Volume, VolumeView};
use crate::value::Value;
use vstd::prelude::*;

verus! {

/// What the player is doing.
#[derive(Clone, Copy, Debug, PartialEq, Eq, Structural)]
pub enum PlaybackState {
    Stopped,
    Playing,
    Paused,
    Buffering,
}

impl DeepView for PlaybackState {
    type V = PlaybackState;

    open spec fn deep_view(&self) -> PlaybackState {
        *self
    }
}

impl Value for PlaybackState {
    fn copy(&self) -> (result: PlaybackState) {
        *self
    }

    fn same(&self, other: &PlaybackState) -> (result: bool) {
        *self == *other
    }
}

/// The state of the player as it is shown.
#[derive(Clone, Debug, PartialEq, Eq)]
pub struct PlaybackSnapshot {
    pub current: Option<QueueEntry>,
    pub state: PlaybackState,
    pub position_seconds: u32,
    pub position_millis: u64,
    pub duration_seconds: u32,
    pub volume: Volume,
    pub muted: bool,
    pub repeat_mode: RepeatMode,
    pub shuffle_enabled: bool,
    pub auto_dj_enabled: bool,
    pub buffering_percent: Option<u8>,
    pub last_error: Option<String>,
    pub waveform_cache_key: Option<String>,
    pub waveform: Option<u64>,
}

/// The contents of a [`PlaybackSnapshot`].
#[verifier::ext_equal]
pub struct PlaybackSnapshotView {
    pub current: Option<QueueEntryView>,
    pub state: PlaybackState,
    pub position_seconds: u32,
    pub position_millis: u64,
    pub duration_seconds: u32,
    pub volume: VolumeView,
    pub muted: bool,
    pub repeat_mode: RepeatMode,
    pub shuffle_enabled: bool,
    pub auto_dj_enabled: bool,
    pub buffering_percent: Option<u8>,
    pub last_error: Option<Seq<char>>,
    pub waveform_cache_key: Option<Seq<char>>,
    pub waveform: Option<u64>,
}

impl DeepView for PlaybackSnapshot {
    type V = PlaybackSnapshotView;

    open spec fn deep_view(&self) -> PlaybackSnapshotView {
        PlaybackSnapshotView {
            current: self.current.deep_view(),
            state: self.state.deep_view(),
            position_seconds: self.position_seconds.deep_view(),
            position_millis: self.position_millis.deep_view(),
            duration_seconds: self.duration_seconds.deep_view(),
            volume: self.volume.deep_view(),
            muted: self.muted.deep_view(),
            repeat_mode: self.repeat_mode.deep_view(),
            shuffle_enabled: self.shuffle_enabled.deep_view(),
            auto_dj_enabled: self.auto_dj_enabled.deep_view(),
            buffering_percent: self.buffering_percent.deep_view(),
            last_error: self.last_error.deep_view(),
            waveform_cache_key: self.waveform_cache_key.deep_view(),
            waveform: self.waveform.deep_view(),
        }
    }
}

impl Value for PlaybackSnapshot {
    fn copy(&self) -> (result: PlaybackSnapshot) {
        PlaybackSnapshot {
            current: self.current.copy(),
            state: self.state.copy(),
            position_seconds: self.position_seconds.copy(),
            position_millis: self.position_millis.copy(),
            duration_seconds: self.duration_seconds.copy(),
            volume: self.volume.copy(),
            muted: self.muted.copy(),
            repeat_mode: self.repeat_mode.copy(),
            shuffle_enabled: self.shuffle_enabled.copy(),
            auto_dj_enabled: self.auto_dj_enabled.copy(),
            buffering_percent: self.buffering_percent.copy(),
            last_error: self.last_error.copy(),
            waveform_cache_key: self.waveform_cache_key.copy(),
            waveform: self.waveform.copy(),
        }
    }

    fn same(&self, other: &PlaybackSnapshot) -> (result: bool) {
        self.current.same(&other.current)
            && self.state.same(&other.state)
            && self.position_seconds.same(&other.position_seconds)
            && self.position_millis.same(&other.position_millis)
            && self.duration_seconds.same(&other.duration_seconds)
            && self.volume.same(&other.volume)
            && self.muted.same(&other.muted)
            && self.repeat_mode.same(&other.repeat_mode)
            && self.shuffle_enabled.same(&other.shuffle_enabled)
            && self.auto_dj_enabled.same(&other.auto_dj_enabled)
            && self.buffering_percent.same(&other.buffering_percent)
            && self.last_error.same(&other.last_error)
            && self.waveform_cache_key.same(&other.waveform_cache_key)
            && self.waveform.same(&other.waveform)
    }
}

/// A track as the player knows it.
#[derive(Clone, Debug, PartialEq, Eq)]
pub struct PlaybackTrack {
    pub id: TrackId,
    pub title: String,
    pub artist: String,
    pub album: String,
    pub duration_seconds: u32,
}

/// The contents of a [`PlaybackTrack`].
#[verifier::ext_equal]
pub struct PlaybackTrackView {
    pub id: Seq<char>,
    pub title: Seq<char>,
    pub artist: Seq<char>,
    pub album: Seq<char>,
    pub duration_seconds: u32,
}

impl DeepView for PlaybackTrack {
    type V = PlaybackTrackView;

    open spec fn deep_view(&self) -> PlaybackTrackView {
        PlaybackTrackView {
            id: self.id.deep_view(),
            title: self.title.deep_view(),
            artist: self.artist.deep_view(),
            album: self.album.deep_view(),
            duration_seconds: self.duration_seconds.deep_view(),
        }
    }
}

impl Value for PlaybackTrack {
    fn copy(&self) -> (result: PlaybackTrack) {
        PlaybackTrack {
            id: self.id.copy(),
            title: self.title.copy(),
            artist: self.artist.copy(),
            album: self.album.copy(),
            duration_seconds: self.duration_seconds.copy(),
        }
    }

    fn same(&self, other: &PlaybackTrack) -> (result: bool) {
        self.id.same(&other.id)
            && self.title.same(&other.title)
            && self.artist.same(&other.artist)
            && self.album.same(&other.album)
            && self.duration_seconds.same(&other.duration_seconds)
    }
}

/// Where the sound of a track is read from; the second form is fit for a log.
#[derive(Clone, Debug, PartialEq, Eq)]
pub struct StreamDescriptor {
    pub uri: String,
    pub redacted_uri: String,
}

/// The contents of a [`StreamDescriptor`].
#[verifier::ext_equal]
pub struct StreamDescriptorView {
    pub uri: Seq<char>,
    pub redacted_uri: Seq<char>,
}

impl DeepView for StreamDescriptor {
    type V = StreamDescriptorView;

    open spec fn deep_view(&self) -> StreamDescriptorView {
        StreamDescriptorView {
            uri: self.uri.deep_view(),
            redacted_uri: self.redacted_uri.deep_view(),
        }
    }
}

impl Value for StreamDescriptor {
    fn copy(&self) -> (result: StreamDescriptor) {
        StreamDescriptor {
            uri: self.uri.copy(),
            redacted_uri: self.redacted_uri.copy(),
        }
    }

    fn same(&self, other: &StreamDescriptor) -> (result: bool) {
        self.uri.same(&other.uri)
            && self.redacted_uri.same(&other.redacted_uri)
    }
}

/// A track with its stream.
#[derive(Clone, Debug, PartialEq, Eq)]
pub struct PreparedPlaybackItem {
    pub track: PlaybackTrack,
    pub stream: StreamDescriptor,
}

/// The contents of a [`PreparedPlaybackItem`].
#[verifier::ext_equal]
pub struct PreparedPlaybackItemView {
    pub track: PlaybackTrackView,
    pub stream: StreamDescriptorView,
}

impl DeepView for PreparedPlaybackItem {
    type V = PreparedPlaybackItemView;

    open spec fn deep_view(&self) -> PreparedPlaybackItemView {
        PreparedPlaybackItemView {
            track: self.track.deep_view(),
            stream: self.stream.deep_view(),
        }
    }
}

impl Value for PreparedPlaybackItem {
    fn copy(&self) -> (result: PreparedPlaybackItem) {
        PreparedPlaybackItem {
            track: self.track.copy(),
            stream: self.stream.copy(),
        }
    }

    fn same(&self, other: &PreparedPlaybackItem) -> (result: bool) {
        self.track.same(&other.track)
            && self.stream.same(&other.stream)
    }
}

/// What the player is told.
#[derive(Clone, Debug, PartialEq, Eq)]
pub enum PlaybackCommand {
    Pause,
    Resume,
    Stop,
    SeekMillis(u64),
    SetVolume(Volume),
    SetMuted(bool),
    UpdateSettings(PlaybackSettings),
    WarmUp(PlaybackSettings),
    PlayPrepared {
        item: PreparedPlaybackItem,
        next: Option<PreparedPlaybackItem>,
        start_position_seconds: u32,
        settings: PlaybackSettings,
    },
    PrepareNext(Option<PreparedPlaybackItem>),
}

/// The contents of a [`PlaybackCommand`].
#[verifier::ext_equal]
pub enum PlaybackCommandView {
    Pause,
    Resume,
    Stop,
    SeekMillis(u64),
    SetVolume(VolumeView),
    SetMuted(bool),
    UpdateSettings(PlaybackSettingsView),
    WarmUp(PlaybackSettingsView),
    PlayPrepared {
        item: PreparedPlaybackItemView,
        next: Option<PreparedPlaybackItemView>,
        start_position_seconds: u32,
        settings: PlaybackSettingsView,
    },
    PrepareNext(Option<PreparedPlaybackItemView>),
}

impl DeepView for PlaybackCommand {
    type V = PlaybackCommandView;

    open spec fn deep_view(&self) -> PlaybackCommandView {
        match self {
            PlaybackCommand::Pause => PlaybackCommandView::Pause,
            PlaybackCommand::Resume => PlaybackCommandView::Resume,
            PlaybackCommand::Stop => PlaybackCommandView::Stop,
            PlaybackCommand::SeekMillis(value) => PlaybackCommandView::SeekMillis(
                value.deep_view(),
            ),
            PlaybackCommand::SetVolume(value) => PlaybackCommandView::SetVolume(value.deep_view()),
            PlaybackCommand::SetMuted(value) => PlaybackCommandView::SetMuted(value.deep_view()),
            PlaybackCommand::UpdateSettings(value) => PlaybackCommandView::UpdateSettings(
                value.deep_view(),
            ),
            PlaybackCommand::WarmUp(value) => PlaybackCommandView::WarmUp(value.deep_view()),
            PlaybackCommand::PlayPrepared { item, next, start_position_seconds, settings } =>
                PlaybackCommandView::PlayPrepared {
                item: item.deep_view(),
                next: next.deep_view(),
                start_position_seconds: start_position_seconds.deep_view(),
                settings: settings.deep_view(),
            },
            PlaybackCommand::PrepareNext(value) => PlaybackCommandView::PrepareNext(
                value.deep_view(),
            ),
        }
    }
}

impl Value for PlaybackCommand {
    fn copy(&self) -> (result: PlaybackCommand) {
        match self {
            PlaybackCommand::Pause => PlaybackCommand::Pause,
            PlaybackCommand::Resume => PlaybackCommand::Resume,
            PlaybackCommand::Stop => PlaybackCommand::Stop,
            PlaybackCommand::SeekMillis(value) => PlaybackCommand::SeekMillis(value.copy()),
            PlaybackCommand::SetVolume(value) => PlaybackCommand::SetVolume(value.copy()),
            PlaybackCommand::SetMuted(value) => PlaybackCommand::SetMuted(value.copy()),
            PlaybackCommand::UpdateSettings(value) => PlaybackCommand::UpdateSettings(value.copy()),
            PlaybackCommand::WarmUp(value) => PlaybackCommand::WarmUp(value.copy()),
            PlaybackCommand::PlayPrepared { item, next, start_position_seconds, settings } =>
                PlaybackCommand::PlayPrepared {
                item: item.copy(),
                next: next.copy(),
                start_position_seconds: start_position_seconds.copy(),
                settings: settings.copy(),
            },
            PlaybackCommand::PrepareNext(value) => PlaybackCommand::PrepareNext(value.copy()),
        }
    }

    fn same(&self, other: &PlaybackCommand) -> (result: bool) {
        match (self, other) {
            (PlaybackCommand::Pause, PlaybackCommand::Pause) => true,
            (PlaybackCommand::Resume, PlaybackCommand::Resume) => true,
            (PlaybackCommand::Stop, PlaybackCommand::Stop) => true,
            (
                PlaybackCommand::SeekMillis(left_value),
                PlaybackCommand::SeekMillis(right_value),
            ) => left_value.same(right_value),
            (
                PlaybackCommand::SetVolume(left_value),
                PlaybackCommand::SetVolume(right_value),
            ) => left_value.same(right_value),
            (
                PlaybackCommand::SetMuted(left_value),
                PlaybackCommand::SetMuted(right_value),
            ) => left_value.same(right_value),
            (
                PlaybackCommand::UpdateSettings(left_value),
                PlaybackCommand::UpdateSettings(right_value),
            ) => left_value.same(right_value),
            (
                PlaybackCommand::WarmUp(left_value),
                PlaybackCommand::WarmUp(right_value),
            ) => left_value.same(right_value),
            (
                PlaybackCommand::PlayPrepared {
                    item: left_item,
                    next: left_next,
                    start_position_seconds: left_start_position_seconds,
                    settings: left_settings,
                },
                PlaybackCommand::PlayPrepared {
                    item: right_item,
                    next: right_next,
                    start_position_seconds: right_start_position_seconds,
                    settings: right_settings,
                },
            ) => left_item.same(right_item)
                && left_next.same(right_next)
                && left_start_position_seconds.same(right_start_position_seconds)
                && left_settings.same(right_settings),
            (
                PlaybackCommand::PrepareNext(left_value),
                PlaybackCommand::PrepareNext(right_value),
            ) => left_value.same(right_value),
            _ => false,
        }
    }
}

/// What the player tells.
#[derive(Clone, Debug, PartialEq, Eq)]
pub enum PlaybackEvent {
    StateChanged(PlaybackState),
    PositionChanged { track_id: Option<TrackId>, seconds: u32, millis: u64 },
    DurationChanged { track_id: Option<TrackId>, seconds: u32 },
    Buffering(u8),
    EndOfStream,
    PreparedTrackStarted(PlaybackTrack),
    VolumeChanged { volume: Volume, muted: bool },
    Error(String),
}

/// The contents of a [`PlaybackEvent`].
#[verifier::ext_equal]
pub enum PlaybackEventView {
    StateChanged(PlaybackState),
    PositionChanged { track_id: Option<Seq<char>>, seconds: u32, millis: u64 },
    DurationChanged { track_id: Option<Seq<char>>, seconds: u32 },
    Buffering(u8),
    EndOfStream,
    PreparedTrackStarted(PlaybackTrackView),
    VolumeChanged { volume: VolumeView, muted: bool },
    Error(Seq<char>),
}

impl DeepView for PlaybackEvent {
    type V = PlaybackEventView;

    open spec fn deep_view(&self) -> PlaybackEventView {
        match self {
            PlaybackEvent::StateChanged(value) => PlaybackEventView::StateChanged(
                value.deep_view(),
            ),
            PlaybackEvent::PositionChanged { track_id, seconds, millis } =>
                PlaybackEventView::PositionChanged {
                track_id: track_id.deep_view(),
                seconds: seconds.deep_view(),
                millis: millis.deep_view(),
            },
            PlaybackEvent::DurationChanged { track_id, seconds } =>
                PlaybackEventView::DurationChanged {
                track_id: track_id.deep_view(),
                seconds: seconds.deep_view(),
            },
            PlaybackEvent::Buffering(value) => PlaybackEventView::Buffering(value.deep_view()),
            PlaybackEvent::EndOfStream => PlaybackEventView::EndOfStream,
            PlaybackEvent::PreparedTrackStarted(value) => PlaybackEventView::PreparedTrackStarted(
                value.deep_view(),
            ),
            PlaybackEvent::VolumeChanged { volume, muted } => PlaybackEventView::VolumeChanged {
                volume: volume.deep_view(),
                muted: muted.deep_view(),
            },
            PlaybackEvent::Error(value) => PlaybackEventView::Error(value.deep_view()),
        }
    }
}

impl Value for PlaybackEvent {
    fn copy(&self) -> (result: PlaybackEvent) {
        match self {
            PlaybackEvent::StateChanged(value) => PlaybackEvent::StateChanged(value.copy()),
            PlaybackEvent::PositionChanged { track_id, seconds, millis } =>
                PlaybackEvent::PositionChanged {
                track_id: track_id.copy(),
                seconds: seconds.copy(),
                millis: millis.copy(),
            },
            PlaybackEvent::DurationChanged { track_id, seconds } => PlaybackEvent::DurationChanged {
                track_id: track_id.copy(),
                seconds: seconds.copy(),
            },
            PlaybackEvent::Buffering(value) => PlaybackEvent::Buffering(value.copy()),
            PlaybackEvent::EndOfStream => PlaybackEvent::EndOfStream,
            PlaybackEvent::PreparedTrackStarted(value) => PlaybackEvent::PreparedTrackStarted(
                value.copy(),
            ),
            PlaybackEvent::VolumeChanged { volume, muted } => PlaybackEvent::VolumeChanged {
                volume: volume.copy(),
                muted: muted.copy(),
            },
            PlaybackEvent::Error(value) => PlaybackEvent::Error(value.copy()),
        }
    }

    fn same(&self, other: &PlaybackEvent) -> (result: bool) {
        match (self, other) {
            (
                PlaybackEvent::StateChanged(left_value),
                PlaybackEvent::StateChanged(right_value),
            ) => left_value.same(right_value),
            (
                PlaybackEvent::PositionChanged {
                    track_id: left_track_id,
                    seconds: left_seconds,
                    millis: left_millis,
                },
                PlaybackEvent::PositionChanged {
                    track_id: right_track_id,
                    seconds: right_seconds,
                    millis: right_millis,
                },
            ) => left_track_id.same(right_track_id)
                && left_seconds.same(right_seconds)
                && left_millis.same(right_millis),
            (
                PlaybackEvent::DurationChanged { track_id: left_track_id, seconds: left_seconds },
                PlaybackEvent::DurationChanged { track_id: right_track_id, seconds: right_seconds },
            ) => left_track_id.same(right_track_id) && left_seconds.same(right_seconds),
            (
                PlaybackEvent::Buffering(left_value),
                PlaybackEvent::Buffering(right_value),
            ) => left_value.same(right_value),
            (PlaybackEvent::EndOfStream, PlaybackEvent::EndOfStream) => true,
            (
                PlaybackEvent::PreparedTrackStarted(left_value),
                PlaybackEvent::PreparedTrackStarted(right_value),
            ) => left_value.same(right_value),
            (
                PlaybackEvent::VolumeChanged { volume: left_volume, muted: left_muted },
                PlaybackEvent::VolumeChanged { volume: right_volume, muted: right_muted },
            ) => left_volume.same(right_volume) && left_muted.same(right_muted),
            (
                PlaybackEvent::Error(left_value),
                PlaybackEvent::Error(right_value),
            ) => left_value.same(right_value),
            _ => false,
        }
    }
}

/// The moments that are reported to a server.
#[derive(Clone, Copy, Debug, PartialEq, Eq, Structural)]
pub enum PlaybackReportKind {
    Started,
    Progress,
    Stopped,
}

impl DeepView for PlaybackReportKind {
    type V = PlaybackReportKind;

    open spec fn deep_view(&self) -> PlaybackReportKind {
        *self
    }
}

impl Value for PlaybackReportKind {
    fn copy(&self) -> (result: PlaybackReportKind) {
        *self
    }

    fn same(&self, other: &PlaybackReportKind) -> (result: bool) {
        *self == *other
    }
}

/// What a server is told about playback.
#[derive(Clone, Debug, PartialEq, Eq)]
pub struct PlaybackReport {
    pub kind: PlaybackReportKind,
    pub track_id: TrackId,
    pub position_seconds: u32,
    pub paused: bool,
    pub muted: bool,
    pub volume: Volume,
    pub shuffle: bool,
    pub repeat_one: bool,
    pub repeat_all: bool,
    pub failed: bool,
}

/// The contents of a [`PlaybackReport`].
#[verifier::ext_equal]
pub struct PlaybackReportView {
    pub kind: PlaybackReportKind,
    pub track_id: Seq<char>,
    pub position_seconds: u32,
    pub paused: bool,
    pub muted: bool,
    pub volume: VolumeView,
    pub shuffle: bool,
    pub repeat_one: bool,
    pub repeat_all: bool,
    pub failed: bool,
}

impl DeepView for PlaybackReport {
    type V = PlaybackReportView;

    open spec fn deep_view(&self) -> PlaybackReportView {
        PlaybackReportView {
            kind: self.kind.deep_view(),
            track_id: self.track_id.deep_view(),
            position_seconds: self.position_seconds.deep_view(),
            paused: self.paused.deep_view(),
            muted: self.muted.deep_view(),
            volume: self.volume.deep_view(),
            shuffle: self.shuffle.deep_view(),
            repeat_one: self.repeat_one.deep_view(),
            repeat_all: self.repeat_all.deep_view(),
            failed: self.failed.deep_view(),
        }
    }
}

impl Value for PlaybackReport {
    fn copy(&self) -> (result: PlaybackReport) {
        PlaybackReport {
            kind: self.kind.copy(),
            track_id: self.track_id.copy(),
            position_seconds: self.position_seconds.copy(),
            paused: self.paused.copy(),
            muted: self.muted.copy(),
            volume: self.volume.copy(),
            shuffle: self.shuffle.copy(),
            repeat_one: self.repeat_one.copy(),
            repeat_all: self.repeat_all.copy(),
            failed: self.failed.copy(),
        }
    }

    fn same(&self, other: &PlaybackReport) -> (result: bool) {
        self.kind.same(&other.kind)
            && self.track_id.same(&other.track_id)
            && self.position_seconds.same(&other.position_seconds)
            && self.paused.same(&other.paused)
            && self.muted.same(&other.muted)
            && self.volume.same(&other.volume)
            && self.shuffle.same(&other.shuffle)
            && self.repeat_one.same(&other.repeat_one)
            && self.repeat_all.same(&other.repeat_all)
            && self.failed.same(&other.failed)
    }
}

impl PlaybackSnapshotView {
    /// A player with nothing to play.
    pub open spec fn idle() -> PlaybackSnapshotView {
        PlaybackSnapshotView {
            current: None,
            state: PlaybackState::Stopped,
            position_seconds: 0,
            position_millis: 0,
            duration_seconds: 0,
            volume: VolumeView { bits: 0x3FF0_0000_0000_0000 },
            muted: false,
            repeat_mode: RepeatMode::Off,
            shuffle_enabled: false,
            auto_dj_enabled: false,
            buffering_percent: None,
            last_error: None,
            waveform_cache_key: None,
            waveform: None,
        }
    }
}

impl Default for PlaybackSnapshot {
    fn default() -> (result: PlaybackSnapshot)
        ensures
            result.deep_view() == PlaybackSnapshotView::idle(),
    {
        PlaybackSnapshot {
            current: None,
            state: PlaybackState::Stopped,
            position_seconds: 0,
            position_millis: 0,
            duration_seconds: 0,
            volume: Volume { bits: 0x3FF0_0000_0000_0000 },
            muted: false,
            repeat_mode: RepeatMode::Off,
            shuffle_enabled: false,
            auto_dj_enabled: false,
            buffering_percent: None,
            last_error: None,
            waveform_cache_key: None,
            waveform: None,
        }
    }
}

} // verus!
