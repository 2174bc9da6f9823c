//! The settings of the application.
use crate::model::source::{
    LibrarySourceSelection, LibrarySourceSelectionView, LocalLibraryFolder,
    LocalLibraryFolderView,
};
use crate::value::Value;
use vstd::prelude::*;

verus! {

/// The look that was chosen.
#[derive(Clone, Copy, Debug, PartialEq, Eq, Structural)]
pub enum ThemePreference {
    System,
    Light,
    Dark,
}

impl DeepView for ThemePreference {
    type V = ThemePreference;

    open spec fn deep_view(&self) -> ThemePreference {
        *self
    }
}

impl Value for ThemePreference {
    fn copy(&self) -> (result: ThemePreference) {
        *self
    }

    fn same(&self, other: &ThemePreference) -> (result: bool) {
        *self == *other
    }
}

/// A playback volume, held as the bit pattern of its floating-point value.
#[derive(Clone, Debug, PartialEq, Eq)]
pub struct Volume {
    pub bits: u64,
}

/// The contents of a [`Volume`].
#[verifier::ext_equal]
pub struct VolumeView {
    pub bits: u64,
}

impl DeepView for Volume {
    type V = VolumeView;

    open spec fn deep_view(&self) -> VolumeView {
        VolumeView {
            bits: self.bits.deep_view(),
        }
    }
}

impl Value for Volume {
    fn copy(&self) -> (result: Volume) {
        Volume {
            bits: self.bits.copy(),
        }
    }

    fn same(&self, other: &Volume) -> (result: bool) {
        self.bits.same(&other.bits)
    }
}

/// The settings of the player.
#[derive(Clone, Debug, PartialEq, Eq)]
pub struct PlaybackSettings {
    pub volume: Volume,
    pub muted: bool,
    pub stream_quality: u32,
}

/// The contents of a [`PlaybackSettings`].
#[verifier::ext_equal]
pub struct PlaybackSettingsView {
    pub volume: VolumeView,
    pub muted: bool,
    pub stream_quality: u32,
}

impl DeepView for PlaybackSettings {
    type V = PlaybackSettingsView;

    open spec fn deep_view(&self) -> PlaybackSettingsView {
        PlaybackSettingsView {
            volume: self.volume.deep_view(),
            muted: self.muted.deep_view(),
            stream_quality: self.stream_quality.deep_view(),
        }
    }
}

impl Value for PlaybackSettings {
    fn copy(&self) -> (result: PlaybackSettings) {
        PlaybackSettings {
            volume: self.volume.copy(),
            muted: self.muted.copy(),
            stream_quality: self.stream_quality.copy(),
        }
    }

    fn same(&self, other: &PlaybackSettings) -> (result: bool) {
        self.volume.same(&other.volume)
            && self.muted.same(&other.muted)
            && self.stream_quality.same(&other.stream_quality)
    }
}

/// The selected source and the local folders.
#[derive(Clone, Debug, PartialEq, Eq)]
pub struct SourceSettings {
    pub selected: Option<LibrarySourceSelection>,
    pub local_folders: Vec<LocalLibraryFolder>,
}

/// The contents of a [`SourceSettings`].
#[verifier::ext_equal]
pub struct SourceSettingsView {
    pub selected: Option<LibrarySourceSelectionView>,
    pub local_folders: Seq<LocalLibraryFolderView>,
}

impl DeepView for SourceSettings {
    type V = SourceSettingsView;

    open spec fn deep_view(&self) -> SourceSettingsView {
        SourceSettingsView {
            selected: self.selected.deep_view(),
            local_folders: self.local_folders.deep_view(),
        }
    }
}

impl Value for SourceSettings {
    fn copy(&self) -> (result: SourceSettings) {
        SourceSettings {
            selected: self.selected.copy(),
            local_folders: self.local_folders.copy(),
        }
    }

    fn same(&self, other: &SourceSettings) -> (result: bool) {
        self.selected.same(&other.selected)
            && self.local_folders.same(&other.local_folders)
    }
}

/// The settings of the application.
#[derive(Clone, Debug, PartialEq, Eq)]
pub struct AppSettings {
    pub theme_preference: ThemePreference,
    pub auto_dj_enabled: bool,
    pub auto_dj_refill_threshold: u16,
    pub external_metadata_enabled: bool,
    pub private_mode: bool,
    pub lastfm_api_key: String,
    pub external_lyrics_enabled: bool,
    pub external_lyrics_providers: Vec<String>,
    pub prefer_server_lyrics: bool,
    pub prefer_server_playlist_covers: bool,
    pub seekbar_waveform_enabled: bool,
    pub jellyfin_device_id: String,
    pub sources: SourceSettings,
    pub playback: PlaybackSettings,
}

/// The contents of an [`AppSettings`].
#[verifier::ext_equal]
pub struct AppSettingsView {
    pub theme_preference: ThemePreference,
    pub auto_dj_enabled: bool,
    pub auto_dj_refill_threshold: u16,
    pub external_metadata_enabled: bool,
    pub private_mode: bool,
    pub lastfm_api_key: Seq<char>,
    pub external_lyrics_enabled: bool,
    pub external_lyrics_providers: Seq<Seq<char>>,
    pub prefer_server_lyrics: bool,
    pub prefer_server_playlist_covers: bool,
    pub seekbar_waveform_enabled: bool,
    pub jellyfin_device_id: Seq<char>,
    pub sources: SourceSettingsView,
    pub playback: PlaybackSettingsView,
}

impl DeepView for AppSettings {
    type V = AppSettingsView;

    open spec fn deep_view(&self) -> AppSettingsView {
        AppSettingsView {
            theme_preference: self.theme_preference.deep_view(),
            auto_dj_enabled: self.auto_dj_enabled.deep_view(),
            auto_dj_refill_threshold: self.auto_dj_refill_threshold.deep_view(),
            external_metadata_enabled: self.external_metadata_enabled.deep_view(),
            private_mode: self.private_mode.deep_view(),
            lastfm_api_key: self.lastfm_api_key.deep_view(),
            external_lyrics_enabled: self.external_lyrics_enabled.deep_view(),
            external_lyrics_providers: self.external_lyrics_providers.deep_view(),
            prefer_server_lyrics: self.prefer_server_lyrics.deep_view(),
            prefer_server_playlist_covers: self.prefer_server_playlist_covers.deep_view(),
            seekbar_waveform_enabled: self.seekbar_waveform_enabled.deep_view(),
            jellyfin_device_id: self.jellyfin_device_id.deep_view(),
            sources: self.sources.deep_view(),
            playback: self.playback.deep_view(),
        }
    }
}

impl Value for AppSettings {
    fn copy(&self) -> (result: AppSettings) {
        AppSettings {
            theme_preference: self.theme_preference.copy(),
            auto_dj_enabled: self.auto_dj_enabled.copy(),
            auto_dj_refill_threshold: self.auto_dj_refill_threshold.copy(),
            external_metadata_enabled: self.external_metadata_enabled.copy(),
            private_mode: self.private_mode.copy(),
            lastfm_api_key: self.lastfm_api_key.copy(),
            external_lyrics_enabled: self.external_lyrics_enabled.copy(),
            external_lyrics_providers: self.external_lyrics_providers.copy(),
            prefer_server_lyrics: self.prefer_server_lyrics.copy(),
            prefer_server_playlist_covers: self.prefer_server_playlist_covers.copy(),
            seekbar_waveform_enabled: self.seekbar_waveform_enabled.copy(),
            jellyfin_device_id: self.jellyfin_device_id.copy(),
            sources: self.sources.copy(),
            playback: self.playback.copy(),
        }
    }

    fn same(&self, other: &AppSettings) -> (result: bool) {
        self.theme_preference.same(&other.theme_preference)
            && self.auto_dj_enabled.same(&other.auto_dj_enabled)
            && self.auto_dj_refill_threshold.same(&other.auto_dj_refill_threshold)
            && self.external_metadata_enabled.same(&other.external_metadata_enabled)
            && self.private_mode.same(&other.private_mode)
            && self.lastfm_api_key.same(&other.lastfm_api_key)
            && self.external_lyrics_enabled.same(&other.external_lyrics_enabled)
            && self.external_lyrics_providers.same(&other.external_lyrics_providers)
            && self.prefer_server_lyrics.same(&other.prefer_server_lyrics)
            && self.prefer_server_playlist_covers.same(&other.prefer_server_playlist_covers)
            && self.seekbar_waveform_enabled.same(&other.seekbar_waveform_enabled)
            && self.jellyfin_device_id.same(&other.jellyfin_device_id)
            && self.sources.same(&other.sources)
            && self.playback.same(&other.playback)
    }
}

impl PlaybackSettingsView {
    /// The settings of the player before any was changed: full volume, sound on.
    pub open spec fn initial() -> PlaybackSettingsView {
        PlaybackSettingsView {
            volume: VolumeView { bits: 0x3FF0_0000_0000_0000 },
            muted: false,
            stream_quality: 0,
        }
    }
}

impl Default for PlaybackSettings {
    fn default() -> (result: PlaybackSettings)
        ensures
            result.deep_view() == PlaybackSettingsView::initial(),
    {
        PlaybackSettings {
            volume: Volume { bits: 0x3FF0_0000_0000_0000 },
            muted: false,
            stream_quality: 0,
        }
    }
}

impl AppSettingsView {
    /// The settings before any was changed.
    pub open spec fn initial() -> AppSettingsView {
        AppSettingsView {
            theme_preference: ThemePreference::System,
            auto_dj_enabled: true,
            auto_dj_refill_threshold: 1,
            external_metadata_enabled: false,
            private_mode: false,
            lastfm_api_key: Seq::empty(),
            external_lyrics_enabled: true,
            external_lyrics_providers: seq!["lrclib"@],
            prefer_server_lyrics: true,
            prefer_server_playlist_covers: false,
            seekbar_waveform_enabled: false,
            jellyfin_device_id: Seq::empty(),
            sources: SourceSettingsView { selected: None, local_folders: Seq::empty() },
            playback: PlaybackSettingsView::initial(),
        }
    }
}

impl Default for AppSettings {
    fn default() -> (result: AppSettings)
        ensures
            result.deep_view() == AppSettingsView::initial(),
    {
        let local_folders: Vec<LocalLibraryFolder> = Vec::new();
        assert(local_folders.deep_view() =~= Seq::empty());
        let mut external_lyrics_providers: Vec<String> = Vec::new();
        external_lyrics_providers.push(crate::text::owned("lrclib"));
        assert(external_lyrics_providers.deep_view() =~= seq!["lrclib"@]);
        AppSettings {
            theme_preference: ThemePreference::System,
            auto_dj_enabled: true,
            auto_dj_refill_threshold: 1,
            external_metadata_enabled: false,
            private_mode: false,
            lastfm_api_key: String::new(),
            external_lyrics_enabled: true,
            external_lyrics_providers,
            prefer_server_lyrics: true,
            prefer_server_playlist_covers: false,
            seekbar_waveform_enabled: false,
            jellyfin_device_id: String::new(),
            sources: SourceSettings { selected: None, local_folders },
            playback: PlaybackSettings::default(),
        }
    }
}

} // verus!
