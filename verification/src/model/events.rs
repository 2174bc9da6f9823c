//! What the controller tells, and what it asks to be done.
use crate::model::ids::{
    AlbumId, ArtistId, FolderId, MusicFolderId, PlaylistId, QueueEntryId, ServerId, TrackId,
};
use crate::model::library::{
    HomeSection, HomeSectionKind, HomeSectionView, ImageRef, ImageRefView, Track, TrackView,
};
use crate::model::lyrics::{
    JellyfinLyricsSearch, Lyrics, LyricsSearchResult, LyricsSearchResultView, LyricsView,
};
use crate::model::playback::{
    PlaybackCommand, PlaybackCommandView, PlaybackReport, PlaybackReportKind, PlaybackReportView,
    PlaybackSnapshot, PlaybackSnapshotView, StreamDescriptor, StreamDescriptorView,
};
use crate::model::queue::{QueueEntry, QueueEntryView, QueueSnapshot, QueueSnapshotView};
use crate::model::settings::{PlaybackSettings, PlaybackSettingsView};
use crate::model::snapshot::{LibrarySnapshot, LibrarySnapshotView};
use crate::model::source::{SavedServer, SavedServerView, StreamingProvider};
use crate::model::waveform::{WaveformWarmRequest, WaveformWarmRequestView};
use crate::value::Value;
use vstd::prelude::*;

verus! {

/// An item that can be a favorite.
#[derive(Clone, Debug, PartialEq, Eq)]
pub enum FavoriteItemId {
    Album(AlbumId),
    Track(TrackId),
    Artist(ArtistId),
}

/// The contents of a [`FavoriteItemId`].
#[verifier::ext_equal]
pub enum FavoriteItemIdView {
    Album(Seq<char>),
    Track(Seq<char>),
    Artist(Seq<char>),
}

impl DeepView for FavoriteItemId {
    type V = FavoriteItemIdView;

    open spec fn deep_view(&self) -> FavoriteItemIdView {
        match self {
            FavoriteItemId::Album(value) => FavoriteItemIdView::Album(value.deep_view()),
            FavoriteItemId::Track(value) => FavoriteItemIdView::Track(value.deep_view()),
            FavoriteItemId::Artist(value) => FavoriteItemIdView::Artist(value.deep_view()),
        }
    }
}

impl Value for FavoriteItemId {
    fn copy(&self) -> (result: FavoriteItemId) {
        match self {
            FavoriteItemId::Album(value) => FavoriteItemId::Album(value.copy()),
            FavoriteItemId::Track(value) => FavoriteItemId::Track(value.copy()),
            FavoriteItemId::Artist(value) => FavoriteItemId::Artist(value.copy()),
        }
    }

    fn same(&self, other: &FavoriteItemId) -> (result: bool) {
        match (self, other) {
            (
                FavoriteItemId::Album(left_value),
                FavoriteItemId::Album(right_value),
            ) => left_value.same(right_value),
            (
                FavoriteItemId::Track(left_value),
                FavoriteItemId::Track(right_value),
            ) => left_value.same(right_value),
            (
                FavoriteItemId::Artist(left_value),
                FavoriteItemId::Artist(right_value),
            ) => left_value.same(right_value),
            _ => false,
        }
    }
}

/// A folder on the way to the shown one.
#[derive(Clone, Debug, PartialEq, Eq)]
pub struct FolderPathItem {
    pub id: FolderId,
    pub name: String,
}

/// The contents of a [`FolderPathItem`].
#[verifier::ext_equal]
pub struct FolderPathItemView {
    pub id: Seq<char>,
    pub name: Seq<char>,
}

impl DeepView for FolderPathItem {
    type V = FolderPathItemView;

    open spec fn deep_view(&self) -> FolderPathItemView {
        FolderPathItemView {
            id: self.id.deep_view(),
            name: self.name.deep_view(),
        }
    }
}

impl Value for FolderPathItem {
    fn copy(&self) -> (result: FolderPathItem) {
        FolderPathItem {
            id: self.id.copy(),
            name: self.name.copy(),
        }
    }

    fn same(&self, other: &FolderPathItem) -> (result: bool) {
        self.id.same(&other.id)
            && self.name.same(&other.name)
    }
}

/// What a folder holds.
#[derive(Clone, Debug, PartialEq, Eq)]
pub struct FolderDetail {
    pub folders: Vec<FolderPathItem>,
    pub tracks: Vec<Track>,
}

/// The contents of a [`FolderDetail`].
#[verifier::ext_equal]
pub struct FolderDetailView {
    pub folders: Seq<FolderPathItemView>,
    pub tracks: Seq<TrackView>,
}

impl DeepView for FolderDetail {
    type V = FolderDetailView;

    open spec fn deep_view(&self) -> FolderDetailView {
        FolderDetailView {
            folders: self.folders.deep_view(),
            tracks: self.tracks.deep_view(),
        }
    }
}

impl Value for FolderDetail {
    fn copy(&self) -> (result: FolderDetail) {
        FolderDetail {
            folders: self.folders.copy(),
            tracks: self.tracks.copy(),
        }
    }

    fn same(&self, other: &FolderDetail) -> (result: bool) {
        self.folders.same(&other.folders)
            && self.tracks.same(&other.tracks)
    }
}

/// The part of the home page that is read anew.
#[derive(Clone, Debug, PartialEq, Eq)]
pub enum HomeRefreshTarget {
    WithoutExplore,
    Section(HomeSectionKind),
}

/// The contents of a [`HomeRefreshTarget`].
#[verifier::ext_equal]
pub enum HomeRefreshTargetView {
    WithoutExplore,
    Section(HomeSectionKind),
}

impl DeepView for HomeRefreshTarget {
    type V = HomeRefreshTargetView;

    open spec fn deep_view(&self) -> HomeRefreshTargetView {
        match self {
            HomeRefreshTarget::WithoutExplore => HomeRefreshTargetView::WithoutExplore,
            HomeRefreshTarget::Section(value) => HomeRefreshTargetView::Section(value.deep_view()),
        }
    }
}

impl Value for HomeRefreshTarget {
    fn copy(&self) -> (result: HomeRefreshTarget) {
        match self {
            HomeRefreshTarget::WithoutExplore => HomeRefreshTarget::WithoutExplore,
            HomeRefreshTarget::Section(value) => HomeRefreshTarget::Section(value.copy()),
        }
    }

    fn same(&self, other: &HomeRefreshTarget) -> (result: bool) {
        match (self, other) {
            (HomeRefreshTarget::WithoutExplore, HomeRefreshTarget::WithoutExplore) => true,
            (
                HomeRefreshTarget::Section(left_value),
                HomeRefreshTarget::Section(right_value),
            ) => left_value.same(right_value),
            _ => false,
        }
    }
}

/// What a login is tried with.
#[derive(Clone, Debug, PartialEq, Eq)]
pub struct LoginRequest {
    pub provider: StreamingProvider,
    pub server_url: String,
    pub username: String,
    pub password: String,
    pub trust_invalid_cert: bool,
    pub local_access_root: Option<String>,
    pub path_replace_from: Option<String>,
}

/// The contents of a [`LoginRequest`].
#[verifier::ext_equal]
pub struct LoginRequestView {
    pub provider: StreamingProvider,
    pub server_url: Seq<char>,
    pub username: Seq<char>,
    pub password: Seq<char>,
    pub trust_invalid_cert: bool,
    pub local_access_root: Option<Seq<char>>,
    pub path_replace_from: Option<Seq<char>>,
}

impl DeepView for LoginRequest {
    type V = LoginRequestView;

    open spec fn deep_view(&self) -> LoginRequestView {
        LoginRequestView {
            provider: self.provider.deep_view(),
            server_url: self.server_url.deep_view(),
            username: self.username.deep_view(),
            password: self.password.deep_view(),
            trust_invalid_cert: self.trust_invalid_cert.deep_view(),
            local_access_root: self.local_access_root.deep_view(),
            path_replace_from: self.path_replace_from.deep_view(),
        }
    }
}

impl Value for LoginRequest {
    fn copy(&self) -> (result: LoginRequest) {
        LoginRequest {
            provider: self.provider.copy(),
            server_url: self.server_url.copy(),
            username: self.username.copy(),
            password: self.password.copy(),
            trust_invalid_cert: self.trust_invalid_cert.copy(),
            local_access_root: self.local_access_root.copy(),
            path_replace_from: self.path_replace_from.copy(),
        }
    }

    fn same(&self, other: &LoginRequest) -> (result: bool) {
        self.provider.same(&other.provider)
            && self.server_url.same(&other.server_url)
            && self.username.same(&other.username)
            && self.password.same(&other.password)
            && self.trust_invalid_cert.same(&other.trust_invalid_cert)
            && self.local_access_root.same(&other.local_access_root)
            && self.path_replace_from.same(&other.path_replace_from)
    }
}

/// What the controller tells.
#[derive(Clone, Debug, PartialEq, Eq)]
pub enum ControllerEvent {
    CoverReady { key: String, path: String },
    Error(String),
    FavoriteChanged { item_id: FavoriteItemId, favorite: bool, snapshot: LibrarySnapshot },
    FolderLoadFailed { request_id: u64, path: Vec<FolderPathItem>, error: String },
    FolderLoaded { request_id: u64, path: Vec<FolderPathItem>, detail: FolderDetail },
    HomeSectionPrefetched { server_id: ServerId, section: HomeSection },
    HomeSectionsUpdated { snapshot: LibrarySnapshot, include_explore: bool },
    LoginStatus(String),
    Lyrics(Option<Lyrics>),
    LyricsSaved { path: String, lyrics: Lyrics },
    LyricsSearchFailed {
        track_id: TrackId,
        artist_name: String,
        track_name: String,
        error: String,
    },
    LyricsSearchResults {
        track_id: TrackId,
        artist_name: String,
        track_name: String,
        results: Vec<LyricsSearchResult>,
    },
    Playback(PlaybackSnapshot),
    PlaylistChanged { playlist_id: PlaylistId, snapshot: LibrarySnapshot },
    Queue(Option<QueueSnapshot>),
    Snapshot(LibrarySnapshot),
}

/// The contents of a [`ControllerEvent`].
#[verifier::ext_equal]
pub enum ControllerEventView {
    CoverReady { key: Seq<char>, path: Seq<char> },
    Error(Seq<char>),
    FavoriteChanged { item_id: FavoriteItemIdView, favorite: bool, snapshot: LibrarySnapshotView },
    FolderLoadFailed { request_id: u64, path: Seq<FolderPathItemView>, error: Seq<char> },
    FolderLoaded { request_id: u64, path: Seq<FolderPathItemView>, detail: FolderDetailView },
    HomeSectionPrefetched { server_id: Seq<char>, section: HomeSectionView },
    HomeSectionsUpdated { snapshot: LibrarySnapshotView, include_explore: bool },
    LoginStatus(Seq<char>),
    Lyrics(Option<LyricsView>),
    LyricsSaved { path: Seq<char>, lyrics: LyricsView },
    LyricsSearchFailed {
        track_id: Seq<char>,
        artist_name: Seq<char>,
        track_name: Seq<char>,
        error: Seq<char>,
    },
    LyricsSearchResults {
        track_id: Seq<char>,
        artist_name: Seq<char>,
        track_name: Seq<char>,
        results: Seq<LyricsSearchResultView>,
    },
    Playback(PlaybackSnapshotView),
    PlaylistChanged { playlist_id: Seq<char>, snapshot: LibrarySnapshotView },
    Queue(Option<QueueSnapshotView>),
    Snapshot(LibrarySnapshotView),
}

impl DeepView for ControllerEvent {
    type V = ControllerEventView;

    open spec fn deep_view(&self) -> ControllerEventView {
        match self {
            ControllerEvent::CoverReady { key, path } => ControllerEventView::CoverReady {
                key: key.deep_view(),
                path: path.deep_view(),
            },
            ControllerEvent::Error(value) => ControllerEventView::Error(value.deep_view()),
            ControllerEvent::FavoriteChanged {
                item_id,
                favorite,
                snapshot,
            } => ControllerEventView::FavoriteChanged {
                item_id: item_id.deep_view(),
                favorite: favorite.deep_view(),
                snapshot: snapshot.deep_view(),
            },
            ControllerEvent::FolderLoadFailed {
                request_id,
                path,
                error,
            } => ControllerEventView::FolderLoadFailed {
                request_id: request_id.deep_view(),
                path: path.deep_view(),
                error: error.deep_view(),
            },
            ControllerEvent::FolderLoaded {
                request_id,
                path,
                detail,
            } => ControllerEventView::FolderLoaded {
                request_id: request_id.deep_view(),
                path: path.deep_view(),
                detail: detail.deep_view(),
            },
            ControllerEvent::HomeSectionPrefetched {
                server_id,
                section,
            } => ControllerEventView::HomeSectionPrefetched {
                server_id: server_id.deep_view(),
                section: section.deep_view(),
            },
            ControllerEvent::HomeSectionsUpdated {
                snapshot,
                include_explore,
            } => ControllerEventView::HomeSectionsUpdated {
                snapshot: snapshot.deep_view(),
                include_explore: include_explore.deep_view(),
            },
            ControllerEvent::LoginStatus(value) => ControllerEventView::LoginStatus(
                value.deep_view(),
            ),
            ControllerEvent::Lyrics(value) => ControllerEventView::Lyrics(value.deep_view()),
            ControllerEvent::LyricsSaved { path, lyrics } => ControllerEventView::LyricsSaved {
                path: path.deep_view(),
                lyrics: lyrics.deep_view(),
            },
            ControllerEvent::LyricsSearchFailed {
                track_id,
                artist_name,
                track_name,
                error,
            } => ControllerEventView::LyricsSearchFailed {
                track_id: track_id.deep_view(),
                artist_name: artist_name.deep_view(),
                track_name: track_name.deep_view(),
                error: error.deep_view(),
            },
            ControllerEvent::LyricsSearchResults {
                track_id,
                artist_name,
                track_name,
                results,
            } => ControllerEventView::LyricsSearchResults {
                track_id: track_id.deep_view(),
                artist_name: artist_name.deep_view(),
                track_name: track_name.deep_view(),
                results: results.deep_view(),
            },
            ControllerEvent::Playback(value) => ControllerEventView::Playback(value.deep_view()),
            ControllerEvent::PlaylistChanged {
                playlist_id,
                snapshot,
            } => ControllerEventView::PlaylistChanged {
                playlist_id: playlist_id.deep_view(),
                snapshot: snapshot.deep_view(),
            },
            ControllerEvent::Queue(value) => ControllerEventView::Queue(value.deep_view()),
            ControllerEvent::Snapshot(value) => ControllerEventView::Snapshot(value.deep_view()),
        }
    }
}

impl Value for ControllerEvent {
    fn copy(&self) -> (result: ControllerEvent) {
        match self {
            ControllerEvent::CoverReady { key, path } => ControllerEvent::CoverReady {
                key: key.copy(),
                path: path.copy(),
            },
            ControllerEvent::Error(value) => ControllerEvent::Error(value.copy()),
            ControllerEvent::FavoriteChanged {
                item_id,
                favorite,
                snapshot,
            } => ControllerEvent::FavoriteChanged {
                item_id: item_id.copy(),
                favorite: favorite.copy(),
                snapshot: snapshot.copy(),
            },
            ControllerEvent::FolderLoadFailed {
                request_id,
                path,
                error,
            } => ControllerEvent::FolderLoadFailed {
                request_id: request_id.copy(),
                path: path.copy(),
                error: error.copy(),
            },
            ControllerEvent::FolderLoaded {
                request_id,
                path,
                detail,
            } => ControllerEvent::FolderLoaded {
                request_id: request_id.copy(),
                path: path.copy(),
                detail: detail.copy(),
            },
            ControllerEvent::HomeSectionPrefetched {
                server_id,
                section,
            } => ControllerEvent::HomeSectionPrefetched {
                server_id: server_id.copy(),
                section: section.copy(),
            },
            ControllerEvent::HomeSectionsUpdated {
                snapshot,
                include_explore,
            } => ControllerEvent::HomeSectionsUpdated {
                snapshot: snapshot.copy(),
                include_explore: include_explore.copy(),
            },
            ControllerEvent::LoginStatus(value) => ControllerEvent::LoginStatus(value.copy()),
            ControllerEvent::Lyrics(value) => ControllerEvent::Lyrics(value.copy()),
            ControllerEvent::LyricsSaved { path, lyrics } => ControllerEvent::LyricsSaved {
                path: path.copy(),
                lyrics: lyrics.copy(),
            },
            ControllerEvent::LyricsSearchFailed {
                track_id,
                artist_name,
                track_name,
                error,
            } => ControllerEvent::LyricsSearchFailed {
                track_id: track_id.copy(),
                artist_name: artist_name.copy(),
                track_name: track_name.copy(),
                error: error.copy(),
            },
            ControllerEvent::LyricsSearchResults {
                track_id,
                artist_name,
                track_name,
                results,
            } => ControllerEvent::LyricsSearchResults {
                track_id: track_id.copy(),
                artist_name: artist_name.copy(),
                track_name: track_name.copy(),
                results: results.copy(),
            },
            ControllerEvent::Playback(value) => ControllerEvent::Playback(value.copy()),
            ControllerEvent::PlaylistChanged {
                playlist_id,
                snapshot,
            } => ControllerEvent::PlaylistChanged {
                playlist_id: playlist_id.copy(),
                snapshot: snapshot.copy(),
            },
            ControllerEvent::Queue(value) => ControllerEvent::Queue(value.copy()),
            ControllerEvent::Snapshot(value) => ControllerEvent::Snapshot(value.copy()),
        }
    }

    fn same(&self, other: &ControllerEvent) -> (result: bool) {
        match (self, other) {
            (
                ControllerEvent::CoverReady { key: left_key, path: left_path },
                ControllerEvent::CoverReady { key: right_key, path: right_path },
            ) => left_key.same(right_key) && left_path.same(right_path),
            (
                ControllerEvent::Error(left_value),
                ControllerEvent::Error(right_value),
            ) => left_value.same(right_value),
            (
                ControllerEvent::FavoriteChanged {
                    item_id: left_item_id,
                    favorite: left_favorite,
                    snapshot: left_snapshot,
                },
                ControllerEvent::FavoriteChanged {
                    item_id: right_item_id,
                    favorite: right_favorite,
                    snapshot: right_snapshot,
                },
            ) => left_item_id.same(right_item_id)
                && left_favorite.same(right_favorite)
                && left_snapshot.same(right_snapshot),
            (
                ControllerEvent::FolderLoadFailed {
                    request_id: left_request_id,
                    path: left_path,
                    error: left_error,
                },
                ControllerEvent::FolderLoadFailed {
                    request_id: right_request_id,
                    path: right_path,
                    error: right_error,
                },
            ) => left_request_id.same(right_request_id)
                && left_path.same(right_path)
                && left_error.same(right_error),
            (
                ControllerEvent::FolderLoaded {
                    request_id: left_request_id,
                    path: left_path,
                    detail: left_detail,
                },
                ControllerEvent::FolderLoaded {
                    request_id: right_request_id,
                    path: right_path,
                    detail: right_detail,
                },
            ) => left_request_id.same(right_request_id)
                && left_path.same(right_path)
                && left_detail.same(right_detail),
            (
                ControllerEvent::HomeSectionPrefetched {
                    server_id: left_server_id,
                    section: left_section,
                },
                ControllerEvent::HomeSectionPrefetched {
                    server_id: right_server_id,
                    section: right_section,
                },
            ) => left_server_id.same(right_server_id) && left_section.same(right_section),
            (
                ControllerEvent::HomeSectionsUpdated {
                    snapshot: left_snapshot,
                    include_explore: left_include_explore,
                },
                ControllerEvent::HomeSectionsUpdated {
                    snapshot: right_snapshot,
                    include_explore: right_include_explore,
                },
            ) => left_snapshot.same(right_snapshot)
                && left_include_explore.same(right_include_explore),
            (
                ControllerEvent::LoginStatus(left_value),
                ControllerEvent::LoginStatus(right_value),
            ) => left_value.same(right_value),
            (
                ControllerEvent::Lyrics(left_value),
                ControllerEvent::Lyrics(right_value),
            ) => left_value.same(right_value),
            (
                ControllerEvent::LyricsSaved { path: left_path, lyrics: left_lyrics },
                ControllerEvent::LyricsSaved { path: right_path, lyrics: right_lyrics },
            ) => left_path.same(right_path) && left_lyrics.same(right_lyrics),
            (
                ControllerEvent::LyricsSearchFailed {
                    track_id: left_track_id,
                    artist_name: left_artist_name,
                    track_name: left_track_name,
                    error: left_error,
                },
                ControllerEvent::LyricsSearchFailed {
                    track_id: right_track_id,
                    artist_name: right_artist_name,
                    track_name: right_track_name,
                    error: right_error,
                },
            ) => left_track_id.same(right_track_id)
                && left_artist_name.same(right_artist_name)
                && left_track_name.same(right_track_name)
                && left_error.same(right_error),
            (
                ControllerEvent::LyricsSearchResults {
                    track_id: left_track_id,
                    artist_name: left_artist_name,
                    track_name: left_track_name,
                    results: left_results,
                },
                ControllerEvent::LyricsSearchResults {
                    track_id: right_track_id,
                    artist_name: right_artist_name,
                    track_name: right_track_name,
                    results: right_results,
                },
            ) => left_track_id.same(right_track_id)
                && left_artist_name.same(right_artist_name)
                && left_track_name.same(right_track_name)
                && left_results.same(right_results),
            (
                ControllerEvent::Playback(left_value),
                ControllerEvent::Playback(right_value),
            ) => left_value.same(right_value),
            (
                ControllerEvent::PlaylistChanged {
                    playlist_id: left_playlist_id,
                    snapshot: left_snapshot,
                },
                ControllerEvent::PlaylistChanged {
                    playlist_id: right_playlist_id,
                    snapshot: right_snapshot,
                },
            ) => left_playlist_id.same(right_playlist_id) && left_snapshot.same(right_snapshot),
            (
                ControllerEvent::Queue(left_value),
                ControllerEvent::Queue(right_value),
            ) => left_value.same(right_value),
            (
                ControllerEvent::Snapshot(left_value),
                ControllerEvent::Snapshot(right_value),
            ) => left_value.same(right_value),
            _ => false,
        }
    }
}

/// The login that an edit of a server needs.
#[derive(Clone, Debug, PartialEq, Eq)]
pub struct ServerSettingsReauthRequest {
    pub provider: StreamingProvider,
    pub base_url: String,
    pub username: String,
    pub password: String,
    pub trust_invalid_cert: bool,
}

/// The contents of a [`ServerSettingsReauthRequest`].
#[verifier::ext_equal]
pub struct ServerSettingsReauthRequestView {
    pub provider: StreamingProvider,
    pub base_url: Seq<char>,
    pub username: Seq<char>,
    pub password: Seq<char>,
    pub trust_invalid_cert: bool,
}

impl DeepView for ServerSettingsReauthRequest {
    type V = ServerSettingsReauthRequestView;

    open spec fn deep_view(&self) -> ServerSettingsReauthRequestView {
        ServerSettingsReauthRequestView {
            provider: self.provider.deep_view(),
            base_url: self.base_url.deep_view(),
            username: self.username.deep_view(),
            password: self.password.deep_view(),
            trust_invalid_cert: self.trust_invalid_cert.deep_view(),
        }
    }
}

impl Value for ServerSettingsReauthRequest {
    fn copy(&self) -> (result: ServerSettingsReauthRequest) {
        ServerSettingsReauthRequest {
            provider: self.provider.copy(),
            base_url: self.base_url.copy(),
            username: self.username.copy(),
            password: self.password.copy(),
            trust_invalid_cert: self.trust_invalid_cert.copy(),
        }
    }

    fn same(&self, other: &ServerSettingsReauthRequest) -> (result: bool) {
        self.provider.same(&other.provider)
            && self.base_url.same(&other.base_url)
            && self.username.same(&other.username)
            && self.password.same(&other.password)
            && self.trust_invalid_cert.same(&other.trust_invalid_cert)
    }
}

/// A checked edit of a server.
#[derive(Clone, Debug, PartialEq, Eq)]
pub struct PreparedServerSettingsUpdate {
    pub saved: SavedServer,
    pub next_name: String,
    pub next_base_url: String,
    pub next_username: String,
    pub next_trust_invalid_cert: bool,
    pub reauth: Option<ServerSettingsReauthRequest>,
}

/// The contents of a [`PreparedServerSettingsUpdate`].
#[verifier::ext_equal]
pub struct PreparedServerSettingsUpdateView {
    pub saved: SavedServerView,
    pub next_name: Seq<char>,
    pub next_base_url: Seq<char>,
    pub next_username: Seq<char>,
    pub next_trust_invalid_cert: bool,
    pub reauth: Option<ServerSettingsReauthRequestView>,
}

impl DeepView for PreparedServerSettingsUpdate {
    type V = PreparedServerSettingsUpdateView;

    open spec fn deep_view(&self) -> PreparedServerSettingsUpdateView {
        PreparedServerSettingsUpdateView {
            saved: self.saved.deep_view(),
            next_name: self.next_name.deep_view(),
            next_base_url: self.next_base_url.deep_view(),
            next_username: self.next_username.deep_view(),
            next_trust_invalid_cert: self.next_trust_invalid_cert.deep_view(),
            reauth: self.reauth.deep_view(),
        }
    }
}

impl Value for PreparedServerSettingsUpdate {
    fn copy(&self) -> (result: PreparedServerSettingsUpdate) {
        PreparedServerSettingsUpdate {
            saved: self.saved.copy(),
            next_name: self.next_name.copy(),
            next_base_url: self.next_base_url.copy(),
            next_username: self.next_username.copy(),
            next_trust_invalid_cert: self.next_trust_invalid_cert.copy(),
            reauth: self.reauth.copy(),
        }
    }

    fn same(&self, other: &PreparedServerSettingsUpdate) -> (result: bool) {
        self.saved.same(&other.saved)
            && self.next_name.same(&other.next_name)
            && self.next_base_url.same(&other.next_base_url)
            && self.next_username.same(&other.next_username)
            && self.next_trust_invalid_cert.same(&other.next_trust_invalid_cert)
            && self.reauth.same(&other.reauth)
    }
}

/// An entry of a playlist and where it goes.
#[derive(Clone, Debug, PartialEq, Eq)]
pub struct PlaylistMove {
    pub entry_id: String,
    pub new_index: usize,
}

/// The contents of a [`PlaylistMove`].
#[verifier::ext_equal]
pub struct PlaylistMoveView {
    pub entry_id: Seq<char>,
    pub new_index: usize,
}

impl DeepView for PlaylistMove {
    type V = PlaylistMoveView;

    open spec fn deep_view(&self) -> PlaylistMoveView {
        PlaylistMoveView {
            entry_id: self.entry_id.deep_view(),
            new_index: self.new_index.deep_view(),
        }
    }
}

impl Value for PlaylistMove {
    fn copy(&self) -> (result: PlaylistMove) {
        PlaylistMove {
            entry_id: self.entry_id.copy(),
            new_index: self.new_index.copy(),
        }
    }

    fn same(&self, other: &PlaylistMove) -> (result: bool) {
        self.entry_id.same(&other.entry_id)
            && self.new_index.same(&other.new_index)
    }
}

/// What a server is told to make of a playlist.
#[derive(Clone, Debug, PartialEq, Eq)]
pub struct PlaylistMutation {
    pub playlist_id: PlaylistId,
    pub removed: Vec<String>,
    pub added: Vec<TrackId>,
    pub moved: Vec<PlaylistMove>,
}

/// The contents of a [`PlaylistMutation`].
#[verifier::ext_equal]
pub struct PlaylistMutationView {
    pub playlist_id: Seq<char>,
    pub removed: Seq<Seq<char>>,
    pub added: Seq<Seq<char>>,
    pub moved: Seq<PlaylistMoveView>,
}

impl DeepView for PlaylistMutation {
    type V = PlaylistMutationView;

    open spec fn deep_view(&self) -> PlaylistMutationView {
        PlaylistMutationView {
            playlist_id: self.playlist_id.deep_view(),
            removed: self.removed.deep_view(),
            added: self.added.deep_view(),
            moved: self.moved.deep_view(),
        }
    }
}

impl Value for PlaylistMutation {
    fn copy(&self) -> (result: PlaylistMutation) {
        PlaylistMutation {
            playlist_id: self.playlist_id.copy(),
            removed: self.removed.copy(),
            added: self.added.copy(),
            moved: self.moved.copy(),
        }
    }

    fn same(&self, other: &PlaylistMutation) -> (result: bool) {
        self.playlist_id.same(&other.playlist_id)
            && self.removed.same(&other.removed)
            && self.added.same(&other.added)
            && self.moved.same(&other.moved)
    }
}

/// A change of the entries of a playlist.
#[derive(Clone, Debug, PartialEq, Eq)]
pub enum PlaylistEdit {
    Add { prefix: u64, tracks: Vec<Track> },
    Remove { entry_id: String },
    Move { entry_id: String, new_index: usize },
}

/// The contents of a [`PlaylistEdit`].
#[verifier::ext_equal]
pub enum PlaylistEditView {
    Add { prefix: u64, tracks: Seq<TrackView> },
    Remove { entry_id: Seq<char> },
    Move { entry_id: Seq<char>, new_index: usize },
}

impl DeepView for PlaylistEdit {
    type V = PlaylistEditView;

    open spec fn deep_view(&self) -> PlaylistEditView {
        match self {
            PlaylistEdit::Add { prefix, tracks } => PlaylistEditView::Add {
                prefix: prefix.deep_view(),
                tracks: tracks.deep_view(),
            },
            PlaylistEdit::Remove { entry_id } => PlaylistEditView::Remove {
                entry_id: entry_id.deep_view(),
            },
            PlaylistEdit::Move { entry_id, new_index } => PlaylistEditView::Move {
                entry_id: entry_id.deep_view(),
                new_index: new_index.deep_view(),
            },
        }
    }
}

impl Value for PlaylistEdit {
    fn copy(&self) -> (result: PlaylistEdit) {
        match self {
            PlaylistEdit::Add { prefix, tracks } => PlaylistEdit::Add {
                prefix: prefix.copy(),
                tracks: tracks.copy(),
            },
            PlaylistEdit::Remove { entry_id } => PlaylistEdit::Remove { entry_id: entry_id.copy() },
            PlaylistEdit::Move { entry_id, new_index } => PlaylistEdit::Move {
                entry_id: entry_id.copy(),
                new_index: new_index.copy(),
            },
        }
    }

    fn same(&self, other: &PlaylistEdit) -> (result: bool) {
        match (self, other) {
            (
                PlaylistEdit::Add { prefix: left_prefix, tracks: left_tracks },
                PlaylistEdit::Add { prefix: right_prefix, tracks: right_tracks },
            ) => left_prefix.same(right_prefix) && left_tracks.same(right_tracks),
            (
                PlaylistEdit::Remove { entry_id: left_entry_id },
                PlaylistEdit::Remove { entry_id: right_entry_id },
            ) => left_entry_id.same(right_entry_id),
            (
                PlaylistEdit::Move { entry_id: left_entry_id, new_index: left_new_index },
                PlaylistEdit::Move { entry_id: right_entry_id, new_index: right_new_index },
            ) => left_entry_id.same(right_entry_id) && left_new_index.same(right_new_index),
            _ => false,
        }
    }
}

/// The stream of the current track that is asked for.
#[derive(Clone, Debug, PartialEq, Eq)]
pub struct CurrentStreamRequest {
    pub generation: u64,
    pub server_id: ServerId,
    pub entry: QueueEntry,
    pub has_next: bool,
    pub position_seconds: u32,
    pub settings: PlaybackSettings,
    pub waveform_enabled: bool,
}

/// The contents of a [`CurrentStreamRequest`].
#[verifier::ext_equal]
pub struct CurrentStreamRequestView {
    pub generation: u64,
    pub server_id: Seq<char>,
    pub entry: QueueEntryView,
    pub has_next: bool,
    pub position_seconds: u32,
    pub settings: PlaybackSettingsView,
    pub waveform_enabled: bool,
}

impl DeepView for CurrentStreamRequest {
    type V = CurrentStreamRequestView;

    open spec fn deep_view(&self) -> CurrentStreamRequestView {
        CurrentStreamRequestView {
            generation: self.generation.deep_view(),
            server_id: self.server_id.deep_view(),
            entry: self.entry.deep_view(),
            has_next: self.has_next.deep_view(),
            position_seconds: self.position_seconds.deep_view(),
            settings: self.settings.deep_view(),
            waveform_enabled: self.waveform_enabled.deep_view(),
        }
    }
}

impl Value for CurrentStreamRequest {
    fn copy(&self) -> (result: CurrentStreamRequest) {
        CurrentStreamRequest {
            generation: self.generation.copy(),
            server_id: self.server_id.copy(),
            entry: self.entry.copy(),
            has_next: self.has_next.copy(),
            position_seconds: self.position_seconds.copy(),
            settings: self.settings.copy(),
            waveform_enabled: self.waveform_enabled.copy(),
        }
    }

    fn same(&self, other: &CurrentStreamRequest) -> (result: bool) {
        self.generation.same(&other.generation)
            && self.server_id.same(&other.server_id)
            && self.entry.same(&other.entry)
            && self.has_next.same(&other.has_next)
            && self.position_seconds.same(&other.position_seconds)
            && self.settings.same(&other.settings)
            && self.waveform_enabled.same(&other.waveform_enabled)
    }
}

/// The stream of the following track that is asked for.
#[derive(Clone, Debug, PartialEq, Eq)]
pub struct NextStreamRequest {
    pub server_id: ServerId,
    pub current_entry_id: QueueEntryId,
    pub next_entry: QueueEntry,
    pub settings: PlaybackSettings,
}

/// The contents of a [`NextStreamRequest`].
#[verifier::ext_equal]
pub struct NextStreamRequestView {
    pub server_id: Seq<char>,
    pub current_entry_id: Seq<char>,
    pub next_entry: QueueEntryView,
    pub settings: PlaybackSettingsView,
}

impl DeepView for NextStreamRequest {
    type V = NextStreamRequestView;

    open spec fn deep_view(&self) -> NextStreamRequestView {
        NextStreamRequestView {
            server_id: self.server_id.deep_view(),
            current_entry_id: self.current_entry_id.deep_view(),
            next_entry: self.next_entry.deep_view(),
            settings: self.settings.deep_view(),
        }
    }
}

impl Value for NextStreamRequest {
    fn copy(&self) -> (result: NextStreamRequest) {
        NextStreamRequest {
            server_id: self.server_id.copy(),
            current_entry_id: self.current_entry_id.copy(),
            next_entry: self.next_entry.copy(),
            settings: self.settings.copy(),
        }
    }

    fn same(&self, other: &NextStreamRequest) -> (result: bool) {
        self.server_id.same(&other.server_id)
            && self.current_entry_id.same(&other.current_entry_id)
            && self.next_entry.same(&other.next_entry)
            && self.settings.same(&other.settings)
    }
}

/// A waveform that is wanted, with the stream to make it from where that is known.
#[derive(Clone, Debug, PartialEq, Eq)]
pub struct WaveformSearch {
    pub cache_key: String,
    pub request: WaveformWarmRequest,
    pub stream: Option<StreamDescriptor>,
}

/// The contents of a [`WaveformSearch`].
#[verifier::ext_equal]
pub struct WaveformSearchView {
    pub cache_key: Seq<char>,
    pub request: WaveformWarmRequestView,
    pub stream: Option<StreamDescriptorView>,
}

impl DeepView for WaveformSearch {
    type V = WaveformSearchView;

    open spec fn deep_view(&self) -> WaveformSearchView {
        WaveformSearchView {
            cache_key: self.cache_key.deep_view(),
            request: self.request.deep_view(),
            stream: self.stream.deep_view(),
        }
    }
}

impl Value for WaveformSearch {
    fn copy(&self) -> (result: WaveformSearch) {
        WaveformSearch {
            cache_key: self.cache_key.copy(),
            request: self.request.copy(),
            stream: self.stream.copy(),
        }
    }

    fn same(&self, other: &WaveformSearch) -> (result: bool) {
        self.cache_key.same(&other.cache_key)
            && self.request.same(&other.request)
            && self.stream.same(&other.stream)
    }
}

/// What follows once the images kept of a source were deleted.
#[derive(Clone, Debug, PartialEq, Eq)]
pub enum AfterDiskClear {
    Cleared,
    Forgotten { was_active: bool },
    ForgottenActive,
    IdentityChanged { saved: SavedServer },
}

/// The contents of an [`AfterDiskClear`].
#[verifier::ext_equal]
pub enum AfterDiskClearView {
    Cleared,
    Forgotten { was_active: bool },
    ForgottenActive,
    IdentityChanged { saved: SavedServerView },
}

impl DeepView for AfterDiskClear {
    type V = AfterDiskClearView;

    open spec fn deep_view(&self) -> AfterDiskClearView {
        match self {
            AfterDiskClear::Cleared => AfterDiskClearView::Cleared,
            AfterDiskClear::Forgotten { was_active } => AfterDiskClearView::Forgotten {
                was_active: was_active.deep_view(),
            },
            AfterDiskClear::ForgottenActive => AfterDiskClearView::ForgottenActive,
            AfterDiskClear::IdentityChanged { saved } => AfterDiskClearView::IdentityChanged {
                saved: saved.deep_view(),
            },
        }
    }
}

impl Value for AfterDiskClear {
    fn copy(&self) -> (result: AfterDiskClear) {
        match self {
            AfterDiskClear::Cleared => AfterDiskClear::Cleared,
            AfterDiskClear::Forgotten { was_active } => AfterDiskClear::Forgotten {
                was_active: was_active.copy(),
            },
            AfterDiskClear::ForgottenActive => AfterDiskClear::ForgottenActive,
            AfterDiskClear::IdentityChanged { saved } => AfterDiskClear::IdentityChanged {
                saved: saved.copy(),
            },
        }
    }

    fn same(&self, other: &AfterDiskClear) -> (result: bool) {
        match (self, other) {
            (AfterDiskClear::Cleared, AfterDiskClear::Cleared) => true,
            (
                AfterDiskClear::Forgotten { was_active: left_was_active },
                AfterDiskClear::Forgotten { was_active: right_was_active },
            ) => left_was_active.same(right_was_active),
            (AfterDiskClear::ForgottenActive, AfterDiskClear::ForgottenActive) => true,
            (
                AfterDiskClear::IdentityChanged { saved: left_saved },
                AfterDiskClear::IdentityChanged { saved: right_saved },
            ) => left_saved.same(right_saved),
            _ => false,
        }
    }
}

/// An edit of a server, as it was entered.
#[derive(Clone, Debug, PartialEq, Eq)]
pub struct ServerSettingsInput {
    pub server_id: ServerId,
    pub name: String,
    pub base_url: String,
    pub username: String,
    pub password: String,
    pub trust_invalid_cert: bool,
}

/// The contents of a [`ServerSettingsInput`].
#[verifier::ext_equal]
pub struct ServerSettingsInputView {
    pub server_id: Seq<char>,
    pub name: Seq<char>,
    pub base_url: Seq<char>,
    pub username: Seq<char>,
    pub password: Seq<char>,
    pub trust_invalid_cert: bool,
}

impl DeepView for ServerSettingsInput {
    type V = ServerSettingsInputView;

    open spec fn deep_view(&self) -> ServerSettingsInputView {
        ServerSettingsInputView {
            server_id: self.server_id.deep_view(),
            name: self.name.deep_view(),
            base_url: self.base_url.deep_view(),
            username: self.username.deep_view(),
            password: self.password.deep_view(),
            trust_invalid_cert: self.trust_invalid_cert.deep_view(),
        }
    }
}

impl Value for ServerSettingsInput {
    fn copy(&self) -> (result: ServerSettingsInput) {
        ServerSettingsInput {
            server_id: self.server_id.copy(),
            name: self.name.copy(),
            base_url: self.base_url.copy(),
            username: self.username.copy(),
            password: self.password.copy(),
            trust_invalid_cert: self.trust_invalid_cert.copy(),
        }
    }

    fn same(&self, other: &ServerSettingsInput) -> (result: bool) {
        self.server_id.same(&other.server_id)
            && self.name.same(&other.name)
            && self.base_url.same(&other.base_url)
            && self.username.same(&other.username)
            && self.password.same(&other.password)
            && self.trust_invalid_cert.same(&other.trust_invalid_cert)
    }
}

/// What became of an edit of a server.
#[derive(Clone, Debug, PartialEq, Eq)]
pub struct ServerSettingsUpdateOutcome {
    pub changed: bool,
    pub identity_changed: bool,
    pub saved: Option<SavedServer>,
}

/// The contents of a [`ServerSettingsUpdateOutcome`].
#[verifier::ext_equal]
pub struct ServerSettingsUpdateOutcomeView {
    pub changed: bool,
    pub identity_changed: bool,
    pub saved: Option<SavedServerView>,
}

impl DeepView for ServerSettingsUpdateOutcome {
    type V = ServerSettingsUpdateOutcomeView;

    open spec fn deep_view(&self) -> ServerSettingsUpdateOutcomeView {
        ServerSettingsUpdateOutcomeView {
            changed: self.changed.deep_view(),
            identity_changed: self.identity_changed.deep_view(),
            saved: self.saved.deep_view(),
        }
    }
}

impl Value for ServerSettingsUpdateOutcome {
    fn copy(&self) -> (result: ServerSettingsUpdateOutcome) {
        ServerSettingsUpdateOutcome {
            changed: self.changed.copy(),
            identity_changed: self.identity_changed.copy(),
            saved: self.saved.copy(),
        }
    }

    fn same(&self, other: &ServerSettingsUpdateOutcome) -> (result: bool) {
        self.changed.same(&other.changed)
            && self.identity_changed.same(&other.identity_changed)
            && self.saved.same(&other.saved)
    }
}

/// How far into the current track the queue of a source was last saved, in tens of seconds.
#[derive(Clone, Debug, PartialEq, Eq)]
pub struct ProgressMark {
    pub server_id: ServerId,
    pub bucket: u32,
}

/// The contents of a [`ProgressMark`].
#[verifier::ext_equal]
pub struct ProgressMarkView {
    pub server_id: Seq<char>,
    pub bucket: u32,
}

impl DeepView for ProgressMark {
    type V = ProgressMarkView;

    open spec fn deep_view(&self) -> ProgressMarkView {
        ProgressMarkView {
            server_id: self.server_id.deep_view(),
            bucket: self.bucket.deep_view(),
        }
    }
}

impl Value for ProgressMark {
    fn copy(&self) -> (result: ProgressMark) {
        ProgressMark {
            server_id: self.server_id.copy(),
            bucket: self.bucket.copy(),
        }
    }

    fn same(&self, other: &ProgressMark) -> (result: bool) {
        self.server_id.same(&other.server_id)
            && self.bucket.same(&other.bucket)
    }
}

/// How far into a track its playback was last reported, in tens of seconds.
#[derive(Clone, Debug, PartialEq, Eq)]
pub struct ReportMark {
    pub track_id: TrackId,
    pub bucket: u32,
}

/// The contents of a [`ReportMark`].
#[verifier::ext_equal]
pub struct ReportMarkView {
    pub track_id: Seq<char>,
    pub bucket: u32,
}

impl DeepView for ReportMark {
    type V = ReportMarkView;

    open spec fn deep_view(&self) -> ReportMarkView {
        ReportMarkView {
            track_id: self.track_id.deep_view(),
            bucket: self.bucket.deep_view(),
        }
    }
}

impl Value for ReportMark {
    fn copy(&self) -> (result: ReportMark) {
        ReportMark {
            track_id: self.track_id.copy(),
            bucket: self.bucket.copy(),
        }
    }

    fn same(&self, other: &ReportMark) -> (result: bool) {
        self.track_id.same(&other.track_id)
            && self.bucket.same(&other.bucket)
    }
}

/// What is to happen with randomly picked tracks.
#[derive(Clone, Copy, Debug, PartialEq, Eq, Structural)]
pub enum RandomPlayAction {
    PlayNow,
    PlayNext,
    AddLast,
}

impl DeepView for RandomPlayAction {
    type V = RandomPlayAction;

    open spec fn deep_view(&self) -> RandomPlayAction {
        *self
    }
}

impl Value for RandomPlayAction {
    fn copy(&self) -> (result: RandomPlayAction) {
        *self
    }

    fn same(&self, other: &RandomPlayAction) -> (result: bool) {
        *self == *other
    }
}

/// A request to play random tracks.
#[derive(Clone, Debug, PartialEq, Eq)]
pub struct RandomPlayRequest {
    pub action: RandomPlayAction,
    pub count: usize,
}

/// The contents of a [`RandomPlayRequest`].
#[verifier::ext_equal]
pub struct RandomPlayRequestView {
    pub action: RandomPlayAction,
    pub count: usize,
}

impl DeepView for RandomPlayRequest {
    type V = RandomPlayRequestView;

    open spec fn deep_view(&self) -> RandomPlayRequestView {
        RandomPlayRequestView {
            action: self.action.deep_view(),
            count: self.count.deep_view(),
        }
    }
}

impl Value for RandomPlayRequest {
    fn copy(&self) -> (result: RandomPlayRequest) {
        RandomPlayRequest {
            action: self.action.copy(),
            count: self.count.copy(),
        }
    }

    fn same(&self, other: &RandomPlayRequest) -> (result: bool) {
        self.action.same(&other.action)
            && self.count.same(&other.count)
    }
}

/// What the controller asks to be done outside.
#[derive(Clone, Debug, PartialEq, Eq)]
pub enum Effect {
    Playback(PlaybackCommand),
    PlayStream {
        request: CurrentStreamRequest,
        stream: StreamDescriptor,
        command: PlaybackCommand,
    },
    StopPlayer,
    ResolveCurrent(CurrentStreamRequest),
    ResolveNext(NextStreamRequest),
    Report { server_id: ServerId, report: PlaybackReport },
    Scrobble { kind: PlaybackReportKind, failed: bool, snapshot: PlaybackSnapshot },
    ActivityStarted { server_id: ServerId, entry: QueueEntry, position_seconds: u32 },
    ActivityEnded,
    ActivitySkipped,
    ActivityCleared,
    PersistQueue { generation: u64, snapshot: QueueSnapshot },
    ReadWaveform { cache_key: String, duration_seconds: u32 },
    FindWaveform(WaveformSearch),
    GenerateWaveform(WaveformSearch),
    WarmWaveforms { generation: u64, requests: Vec<WaveformWarmRequest> },
    TopUpQueue,
    Sync { saved: SavedServer, generation: u64, prefetch_covers: bool },
    RefreshHome { saved: SavedServer, target: HomeRefreshTarget },
    RefreshPlaylists(SavedServer),
    PrefetchExplore(SavedServer),
    PrefetchExternalCovers { saved: SavedServer, retry_generation: u64 },
    FetchCover { key: String, saved: SavedServer, image_ref: ImageRef, size: u32 },
    ReadSidecarLyrics {
        server_id: ServerId,
        entry: QueueEntry,
        use_cache: bool,
        search: JellyfinLyricsSearch,
        providers: Vec<String>,
        candidates: Vec<String>,
    },
    FetchServerLyrics {
        saved: SavedServer,
        entry: QueueEntry,
        search: JellyfinLyricsSearch,
        providers: Vec<String>,
    },
    FetchExternalLyrics {
        server_id: ServerId,
        entry: QueueEntry,
        providers: Vec<String>,
        server_error: Option<String>,
    },
    SearchLyrics {
        providers: Vec<String>,
        track_id: TrackId,
        artist_name: String,
        track_name: String,
    },
    WriteLyrics { server_id: ServerId, path: String, content: String, lyrics: Lyrics },
    Login { request: LoginRequest, device_id: Option<String> },
    Reauthenticate(PreparedServerSettingsUpdate),
    SetFavorite { saved: SavedServer, item_id: FavoriteItemId, favorite: bool },
    CreatePlaylist { saved: SavedServer, name: String, tracks: Vec<Track> },
    RenamePlaylist { saved: SavedServer, playlist_id: PlaylistId, name: String },
    MutatePlaylist { saved: SavedServer, mutation: PlaylistMutation },
    LoadFolder {
        saved: SavedServer,
        request_id: u64,
        path: Vec<FolderPathItem>,
        selected_music_folder_id: Option<MusicFolderId>,
    },
    MatchLocalTracks { server_id: ServerId, root_path: String },
    ClearDiskCovers { server_id: ServerId, next: AfterDiskClear },
}

/// The contents of an [`Effect`].
#[verifier::ext_equal]
pub enum EffectView {
    Playback(PlaybackCommandView),
    PlayStream {
        request: CurrentStreamRequestView,
        stream: StreamDescriptorView,
        command: PlaybackCommandView,
    },
    StopPlayer,
    ResolveCurrent(CurrentStreamRequestView),
    ResolveNext(NextStreamRequestView),
    Report { server_id: Seq<char>, report: PlaybackReportView },
    Scrobble { kind: PlaybackReportKind, failed: bool, snapshot: PlaybackSnapshotView },
    ActivityStarted { server_id: Seq<char>, entry: QueueEntryView, position_seconds: u32 },
    ActivityEnded,
    ActivitySkipped,
    ActivityCleared,
    PersistQueue { generation: u64, snapshot: QueueSnapshotView },
    ReadWaveform { cache_key: Seq<char>, duration_seconds: u32 },
    FindWaveform(WaveformSearchView),
    GenerateWaveform(WaveformSearchView),
    WarmWaveforms { generation: u64, requests: Seq<WaveformWarmRequestView> },
    TopUpQueue,
    Sync { saved: SavedServerView, generation: u64, prefetch_covers: bool },
    RefreshHome { saved: SavedServerView, target: HomeRefreshTargetView },
    RefreshPlaylists(SavedServerView),
    PrefetchExplore(SavedServerView),
    PrefetchExternalCovers { saved: SavedServerView, retry_generation: u64 },
    FetchCover { key: Seq<char>, saved: SavedServerView, image_ref: ImageRefView, size: u32 },
    ReadSidecarLyrics {
        server_id: Seq<char>,
        entry: QueueEntryView,
        use_cache: bool,
        search: JellyfinLyricsSearch,
        providers: Seq<Seq<char>>,
        candidates: Seq<Seq<char>>,
    },
    FetchServerLyrics {
        saved: SavedServerView,
        entry: QueueEntryView,
        search: JellyfinLyricsSearch,
        providers: Seq<Seq<char>>,
    },
    FetchExternalLyrics {
        server_id: Seq<char>,
        entry: QueueEntryView,
        providers: Seq<Seq<char>>,
        server_error: Option<Seq<char>>,
    },
    SearchLyrics {
        providers: Seq<Seq<char>>,
        track_id: Seq<char>,
        artist_name: Seq<char>,
        track_name: Seq<char>,
    },
    WriteLyrics { server_id: Seq<char>, path: Seq<char>, content: Seq<char>, lyrics: LyricsView },
    Login { request: LoginRequestView, device_id: Option<Seq<char>> },
    Reauthenticate(PreparedServerSettingsUpdateView),
    SetFavorite { saved: SavedServerView, item_id: FavoriteItemIdView, favorite: bool },
    CreatePlaylist { saved: SavedServerView, name: Seq<char>, tracks: Seq<TrackView> },
    RenamePlaylist { saved: SavedServerView, playlist_id: Seq<char>, name: Seq<char> },
    MutatePlaylist { saved: SavedServerView, mutation: PlaylistMutationView },
    LoadFolder {
        saved: SavedServerView,
        request_id: u64,
        path: Seq<FolderPathItemView>,
        selected_music_folder_id: Option<Seq<char>>,
    },
    MatchLocalTracks { server_id: Seq<char>, root_path: Seq<char> },
    ClearDiskCovers { server_id: Seq<char>, next: AfterDiskClearView },
}

impl DeepView for Effect {
    type V = EffectView;

    open spec fn deep_view(&self) -> EffectView {
        match self {
            Effect::Playback(value) => EffectView::Playback(value.deep_view()),
            Effect::PlayStream { request, stream, command } => EffectView::PlayStream {
                request: request.deep_view(),
                stream: stream.deep_view(),
                command: command.deep_view(),
            },
            Effect::StopPlayer => EffectView::StopPlayer,
            Effect::ResolveCurrent(value) => EffectView::ResolveCurrent(value.deep_view()),
            Effect::ResolveNext(value) => EffectView::ResolveNext(value.deep_view()),
            Effect::Report { server_id, report } => EffectView::Report {
                server_id: server_id.deep_view(),
                report: report.deep_view(),
            },
            Effect::Scrobble { kind, failed, snapshot } => EffectView::Scrobble {
                kind: kind.deep_view(),
                failed: failed.deep_view(),
                snapshot: snapshot.deep_view(),
            },
            Effect::ActivityStarted {
                server_id,
                entry,
                position_seconds,
            } => EffectView::ActivityStarted {
                server_id: server_id.deep_view(),
                entry: entry.deep_view(),
                position_seconds: position_seconds.deep_view(),
            },
            Effect::ActivityEnded => EffectView::ActivityEnded,
            Effect::ActivitySkipped => EffectView::ActivitySkipped,
            Effect::ActivityCleared => EffectView::ActivityCleared,
            Effect::PersistQueue { generation, snapshot } => EffectView::PersistQueue {
                generation: generation.deep_view(),
                snapshot: snapshot.deep_view(),
            },
            Effect::ReadWaveform { cache_key, duration_seconds } => EffectView::ReadWaveform {
                cache_key: cache_key.deep_view(),
                duration_seconds: duration_seconds.deep_view(),
            },
            Effect::FindWaveform(value) => EffectView::FindWaveform(value.deep_view()),
            Effect::GenerateWaveform(value) => EffectView::GenerateWaveform(value.deep_view()),
            Effect::WarmWaveforms { generation, requests } => EffectView::WarmWaveforms {
                generation: generation.deep_view(),
                requests: requests.deep_view(),
            },
            Effect::TopUpQueue => EffectView::TopUpQueue,
            Effect::Sync { saved, generation, prefetch_covers } => EffectView::Sync {
                saved: saved.deep_view(),
                generation: generation.deep_view(),
                prefetch_covers: prefetch_covers.deep_view(),
            },
            Effect::RefreshHome { saved, target } => EffectView::RefreshHome {
                saved: saved.deep_view(),
                target: target.deep_view(),
            },
            Effect::RefreshPlaylists(value) => EffectView::RefreshPlaylists(value.deep_view()),
            Effect::PrefetchExplore(value) => EffectView::PrefetchExplore(value.deep_view()),
            Effect::PrefetchExternalCovers {
                saved,
                retry_generation,
            } => EffectView::PrefetchExternalCovers {
                saved: saved.deep_view(),
                retry_generation: retry_generation.deep_view(),
            },
            Effect::FetchCover { key, saved, image_ref, size } => EffectView::FetchCover {
                key: key.deep_view(),
                saved: saved.deep_view(),
                image_ref: image_ref.deep_view(),
                size: size.deep_view(),
            },
            Effect::ReadSidecarLyrics {
                server_id,
                entry,
                use_cache,
                search,
                providers,
                candidates,
            } => EffectView::ReadSidecarLyrics {
                server_id: server_id.deep_view(),
                entry: entry.deep_view(),
                use_cache: use_cache.deep_view(),
                search: search.deep_view(),
                providers: providers.deep_view(),
                candidates: candidates.deep_view(),
            },
            Effect::FetchServerLyrics {
                saved,
                entry,
                search,
                providers,
            } => EffectView::FetchServerLyrics {
                saved: saved.deep_view(),
                entry: entry.deep_view(),
                search: search.deep_view(),
                providers: providers.deep_view(),
            },
            Effect::FetchExternalLyrics {
                server_id,
                entry,
                providers,
                server_error,
            } => EffectView::FetchExternalLyrics {
                server_id: server_id.deep_view(),
                entry: entry.deep_view(),
                providers: providers.deep_view(),
                server_error: server_error.deep_view(),
            },
            Effect::SearchLyrics {
                providers,
                track_id,
                artist_name,
                track_name,
            } => EffectView::SearchLyrics {
                providers: providers.deep_view(),
                track_id: track_id.deep_view(),
                artist_name: artist_name.deep_view(),
                track_name: track_name.deep_view(),
            },
            Effect::WriteLyrics { server_id, path, content, lyrics } => EffectView::WriteLyrics {
                server_id: server_id.deep_view(),
                path: path.deep_view(),
                content: content.deep_view(),
                lyrics: lyrics.deep_view(),
            },
            Effect::Login { request, device_id } => EffectView::Login {
                request: request.deep_view(),
                device_id: device_id.deep_view(),
            },
            Effect::Reauthenticate(value) => EffectView::Reauthenticate(value.deep_view()),
            Effect::SetFavorite { saved, item_id, favorite } => EffectView::SetFavorite {
                saved: saved.deep_view(),
                item_id: item_id.deep_view(),
                favorite: favorite.deep_view(),
            },
            Effect::CreatePlaylist { saved, name, tracks } => EffectView::CreatePlaylist {
                saved: saved.deep_view(),
                name: name.deep_view(),
                tracks: tracks.deep_view(),
            },
            Effect::RenamePlaylist { saved, playlist_id, name } => EffectView::RenamePlaylist {
                saved: saved.deep_view(),
                playlist_id: playlist_id.deep_view(),
                name: name.deep_view(),
            },
            Effect::MutatePlaylist { saved, mutation } => EffectView::MutatePlaylist {
                saved: saved.deep_view(),
                mutation: mutation.deep_view(),
            },
            Effect::LoadFolder {
                saved,
                request_id,
                path,
                selected_music_folder_id,
            } => EffectView::LoadFolder {
                saved: saved.deep_view(),
                request_id: request_id.deep_view(),
                path: path.deep_view(),
                selected_music_folder_id: selected_music_folder_id.deep_view(),
            },
            Effect::MatchLocalTracks { server_id, root_path } => EffectView::MatchLocalTracks {
                server_id: server_id.deep_view(),
                root_path: root_path.deep_view(),
            },
            Effect::ClearDiskCovers { server_id, next } => EffectView::ClearDiskCovers {
                server_id: server_id.deep_view(),
                next: next.deep_view(),
            },
        }
    }
}

impl Value for Effect {
    fn copy(&self) -> (result: Effect) {
        match self {
            Effect::Playback(value) => Effect::Playback(value.copy()),
            Effect::PlayStream { request, stream, command } => Effect::PlayStream {
                request: request.copy(),
                stream: stream.copy(),
                command: command.copy(),
            },
            Effect::StopPlayer => Effect::StopPlayer,
            Effect::ResolveCurrent(value) => Effect::ResolveCurrent(value.copy()),
            Effect::ResolveNext(value) => Effect::ResolveNext(value.copy()),
            Effect::Report { server_id, report } => Effect::Report {
                server_id: server_id.copy(),
                report: report.copy(),
            },
            Effect::Scrobble { kind, failed, snapshot } => Effect::Scrobble {
                kind: kind.copy(),
                failed: failed.copy(),
                snapshot: snapshot.copy(),
            },
            Effect::ActivityStarted {
                server_id,
                entry,
                position_seconds,
            } => Effect::ActivityStarted {
                server_id: server_id.copy(),
                entry: entry.copy(),
                position_seconds: position_seconds.copy(),
            },
            Effect::ActivityEnded => Effect::ActivityEnded,
            Effect::ActivitySkipped => Effect::ActivitySkipped,
            Effect::ActivityCleared => Effect::ActivityCleared,
            Effect::PersistQueue { generation, snapshot } => Effect::PersistQueue {
                generation: generation.copy(),
                snapshot: snapshot.copy(),
            },
            Effect::ReadWaveform { cache_key, duration_seconds } => Effect::ReadWaveform {
                cache_key: cache_key.copy(),
                duration_seconds: duration_seconds.copy(),
            },
            Effect::FindWaveform(value) => Effect::FindWaveform(value.copy()),
            Effect::GenerateWaveform(value) => Effect::GenerateWaveform(value.copy()),
            Effect::WarmWaveforms { generation, requests } => Effect::WarmWaveforms {
                generation: generation.copy(),
                requests: requests.copy(),
            },
            Effect::TopUpQueue => Effect::TopUpQueue,
            Effect::Sync { saved, generation, prefetch_covers } => Effect::Sync {
                saved: saved.copy(),
                generation: generation.copy(),
                prefetch_covers: prefetch_covers.copy(),
            },
            Effect::RefreshHome { saved, target } => Effect::RefreshHome {
                saved: saved.copy(),
                target: target.copy(),
            },
            Effect::RefreshPlaylists(value) => Effect::RefreshPlaylists(value.copy()),
            Effect::PrefetchExplore(value) => Effect::PrefetchExplore(value.copy()),
            Effect::PrefetchExternalCovers {
                saved,
                retry_generation,
            } => Effect::PrefetchExternalCovers {
                saved: saved.copy(),
                retry_generation: retry_generation.copy(),
            },
            Effect::FetchCover { key, saved, image_ref, size } => Effect::FetchCover {
                key: key.copy(),
                saved: saved.copy(),
                image_ref: image_ref.copy(),
                size: size.copy(),
            },
            Effect::ReadSidecarLyrics {
                server_id,
                entry,
                use_cache,
                search,
                providers,
                candidates,
            } => Effect::ReadSidecarLyrics {
                server_id: server_id.copy(),
                entry: entry.copy(),
                use_cache: use_cache.copy(),
                search: search.copy(),
                providers: providers.copy(),
                candidates: candidates.copy(),
            },
            Effect::FetchServerLyrics {
                saved,
                entry,
                search,
                providers,
            } => Effect::FetchServerLyrics {
                saved: saved.copy(),
                entry: entry.copy(),
                search: search.copy(),
                providers: providers.copy(),
            },
            Effect::FetchExternalLyrics {
                server_id,
                entry,
                providers,
                server_error,
            } => Effect::FetchExternalLyrics {
                server_id: server_id.copy(),
                entry: entry.copy(),
                providers: providers.copy(),
                server_error: server_error.copy(),
            },
            Effect::SearchLyrics {
                providers,
                track_id,
                artist_name,
                track_name,
            } => Effect::SearchLyrics {
                providers: providers.copy(),
                track_id: track_id.copy(),
                artist_name: artist_name.copy(),
                track_name: track_name.copy(),
            },
            Effect::WriteLyrics { server_id, path, content, lyrics } => Effect::WriteLyrics {
                server_id: server_id.copy(),
                path: path.copy(),
                content: content.copy(),
                lyrics: lyrics.copy(),
            },
            Effect::Login { request, device_id } => Effect::Login {
                request: request.copy(),
                device_id: device_id.copy(),
            },
            Effect::Reauthenticate(value) => Effect::Reauthenticate(value.copy()),
            Effect::SetFavorite { saved, item_id, favorite } => Effect::SetFavorite {
                saved: saved.copy(),
                item_id: item_id.copy(),
                favorite: favorite.copy(),
            },
            Effect::CreatePlaylist { saved, name, tracks } => Effect::CreatePlaylist {
                saved: saved.copy(),
                name: name.copy(),
                tracks: tracks.copy(),
            },
            Effect::RenamePlaylist { saved, playlist_id, name } => Effect::RenamePlaylist {
                saved: saved.copy(),
                playlist_id: playlist_id.copy(),
                name: name.copy(),
            },
            Effect::MutatePlaylist { saved, mutation } => Effect::MutatePlaylist {
                saved: saved.copy(),
                mutation: mutation.copy(),
            },
            Effect::LoadFolder {
                saved,
                request_id,
                path,
                selected_music_folder_id,
            } => Effect::LoadFolder {
                saved: saved.copy(),
                request_id: request_id.copy(),
                path: path.copy(),
                selected_music_folder_id: selected_music_folder_id.copy(),
            },
            Effect::MatchLocalTracks { server_id, root_path } => Effect::MatchLocalTracks {
                server_id: server_id.copy(),
                root_path: root_path.copy(),
            },
            Effect::ClearDiskCovers { server_id, next } => Effect::ClearDiskCovers {
                server_id: server_id.copy(),
                next: next.copy(),
            },
        }
    }

    fn same(&self, other: &Effect) -> (result: bool) {
        match (self, other) {
            (
                Effect::Playback(left_value),
                Effect::Playback(right_value),
            ) => left_value.same(right_value),
            (
                Effect::PlayStream {
                    request: left_request,
                    stream: left_stream,
                    command: left_command,
                },
                Effect::PlayStream {
                    request: right_request,
                    stream: right_stream,
                    command: right_command,
                },
            ) => left_request.same(right_request)
                && left_stream.same(right_stream)
                && left_command.same(right_command),
            (Effect::StopPlayer, Effect::StopPlayer) => true,
            (
                Effect::ResolveCurrent(left_value),
                Effect::ResolveCurrent(right_value),
            ) => left_value.same(right_value),
            (
                Effect::ResolveNext(left_value),
                Effect::ResolveNext(right_value),
            ) => left_value.same(right_value),
            (
                Effect::Report { server_id: left_server_id, report: left_report },
                Effect::Report { server_id: right_server_id, report: right_report },
            ) => left_server_id.same(right_server_id) && left_report.same(right_report),
            (
                Effect::Scrobble { kind: left_kind, failed: left_failed, snapshot: left_snapshot },
                Effect::Scrobble {
                    kind: right_kind,
                    failed: right_failed,
                    snapshot: right_snapshot,
                },
            ) => left_kind.same(right_kind)
                && left_failed.same(right_failed)
                && left_snapshot.same(right_snapshot),
            (
                Effect::ActivityStarted {
                    server_id: left_server_id,
                    entry: left_entry,
                    position_seconds: left_position_seconds,
                },
                Effect::ActivityStarted {
                    server_id: right_server_id,
                    entry: right_entry,
                    position_seconds: right_position_seconds,
                },
            ) => left_server_id.same(right_server_id)
                && left_entry.same(right_entry)
                && left_position_seconds.same(right_position_seconds),
            (Effect::ActivityEnded, Effect::ActivityEnded) => true,
            (Effect::ActivitySkipped, Effect::ActivitySkipped) => true,
            (Effect::ActivityCleared, Effect::ActivityCleared) => true,
            (
                Effect::PersistQueue { generation: left_generation, snapshot: left_snapshot },
                Effect::PersistQueue { generation: right_generation, snapshot: right_snapshot },
            ) => left_generation.same(right_generation) && left_snapshot.same(right_snapshot),
            (
                Effect::ReadWaveform {
                    cache_key: left_cache_key,
                    duration_seconds: left_duration_seconds,
                },
                Effect::ReadWaveform {
                    cache_key: right_cache_key,
                    duration_seconds: right_duration_seconds,
                },
            ) => left_cache_key.same(right_cache_key)
                && left_duration_seconds.same(right_duration_seconds),
            (
                Effect::FindWaveform(left_value),
                Effect::FindWaveform(right_value),
            ) => left_value.same(right_value),
            (
                Effect::GenerateWaveform(left_value),
                Effect::GenerateWaveform(right_value),
            ) => left_value.same(right_value),
            (
                Effect::WarmWaveforms { generation: left_generation, requests: left_requests },
                Effect::WarmWaveforms { generation: right_generation, requests: right_requests },
            ) => left_generation.same(right_generation) && left_requests.same(right_requests),
            (Effect::TopUpQueue, Effect::TopUpQueue) => true,
            (
                Effect::Sync {
                    saved: left_saved,
                    generation: left_generation,
                    prefetch_covers: left_prefetch_covers,
                },
                Effect::Sync {
                    saved: right_saved,
                    generation: right_generation,
                    prefetch_covers: right_prefetch_covers,
                },
            ) => left_saved.same(right_saved)
                && left_generation.same(right_generation)
                && left_prefetch_covers.same(right_prefetch_covers),
            (
                Effect::RefreshHome { saved: left_saved, target: left_target },
                Effect::RefreshHome { saved: right_saved, target: right_target },
            ) => left_saved.same(right_saved) && left_target.same(right_target),
            (
                Effect::RefreshPlaylists(left_value),
                Effect::RefreshPlaylists(right_value),
            ) => left_value.same(right_value),
            (
                Effect::PrefetchExplore(left_value),
                Effect::PrefetchExplore(right_value),
            ) => left_value.same(right_value),
            (
                Effect::PrefetchExternalCovers {
                    saved: left_saved,
                    retry_generation: left_retry_generation,
                },
                Effect::PrefetchExternalCovers {
                    saved: right_saved,
                    retry_generation: right_retry_generation,
                },
            ) => left_saved.same(right_saved) && left_retry_generation.same(right_retry_generation),
            (
                Effect::FetchCover {
                    key: left_key,
                    saved: left_saved,
                    image_ref: left_image_ref,
                    size: left_size,
                },
                Effect::FetchCover {
                    key: right_key,
                    saved: right_saved,
                    image_ref: right_image_ref,
                    size: right_size,
                },
            ) => left_key.same(right_key)
                && left_saved.same(right_saved)
                && left_image_ref.same(right_image_ref)
                && left_size.same(right_size),
            (
                Effect::ReadSidecarLyrics {
                    server_id: left_server_id,
                    entry: left_entry,
                    use_cache: left_use_cache,
                    search: left_search,
                    providers: left_providers,
                    candidates: left_candidates,
                },
                Effect::ReadSidecarLyrics {
                    server_id: right_server_id,
                    entry: right_entry,
                    use_cache: right_use_cache,
                    search: right_search,
                    providers: right_providers,
                    candidates: right_candidates,
                },
            ) => left_server_id.same(right_server_id)
                && left_entry.same(right_entry)
                && left_use_cache.same(right_use_cache)
                && left_search.same(right_search)
                && left_providers.same(right_providers)
                && left_candidates.same(right_candidates),
            (
                Effect::FetchServerLyrics {
                    saved: left_saved,
                    entry: left_entry,
                    search: left_search,
                    providers: left_providers,
                },
                Effect::FetchServerLyrics {
                    saved: right_saved,
                    entry: right_entry,
                    search: right_search,
                    providers: right_providers,
                },
            ) => left_saved.same(right_saved)
                && left_entry.same(right_entry)
                && left_search.same(right_search)
                && left_providers.same(right_providers),
            (
                Effect::FetchExternalLyrics {
                    server_id: left_server_id,
                    entry: left_entry,
                    providers: left_providers,
                    server_error: left_server_error,
                },
                Effect::FetchExternalLyrics {
                    server_id: right_server_id,
                    entry: right_entry,
                    providers: right_providers,
                    server_error: right_server_error,
                },
            ) => left_server_id.same(right_server_id)
                && left_entry.same(right_entry)
                && left_providers.same(right_providers)
                && left_server_error.same(right_server_error),
            (
                Effect::SearchLyrics {
                    providers: left_providers,
                    track_id: left_track_id,
                    artist_name: left_artist_name,
                    track_name: left_track_name,
                },
                Effect::SearchLyrics {
                    providers: right_providers,
                    track_id: right_track_id,
                    artist_name: right_artist_name,
                    track_name: right_track_name,
                },
            ) => left_providers.same(right_providers)
                && left_track_id.same(right_track_id)
                && left_artist_name.same(right_artist_name)
                && left_track_name.same(right_track_name),
            (
                Effect::WriteLyrics {
                    server_id: left_server_id,
                    path: left_path,
                    content: left_content,
                    lyrics: left_lyrics,
                },
                Effect::WriteLyrics {
                    server_id: right_server_id,
                    path: right_path,
                    content: right_content,
                    lyrics: right_lyrics,
                },
            ) => left_server_id.same(right_server_id)
                && left_path.same(right_path)
                && left_content.same(right_content)
                && left_lyrics.same(right_lyrics),
            (
                Effect::Login { request: left_request, device_id: left_device_id },
                Effect::Login { request: right_request, device_id: right_device_id },
            ) => left_request.same(right_request) && left_device_id.same(right_device_id),
            (
                Effect::Reauthenticate(left_value),
                Effect::Reauthenticate(right_value),
            ) => left_value.same(right_value),
            (
                Effect::SetFavorite {
                    saved: left_saved,
                    item_id: left_item_id,
                    favorite: left_favorite,
                },
                Effect::SetFavorite {
                    saved: right_saved,
                    item_id: right_item_id,
                    favorite: right_favorite,
                },
            ) => left_saved.same(right_saved)
                && left_item_id.same(right_item_id)
                && left_favorite.same(right_favorite),
            (
                Effect::CreatePlaylist { saved: left_saved, name: left_name, tracks: left_tracks },
                Effect::CreatePlaylist {
                    saved: right_saved,
                    name: right_name,
                    tracks: right_tracks,
                },
            ) => left_saved.same(right_saved)
                && left_name.same(right_name)
                && left_tracks.same(right_tracks),
            (
                Effect::RenamePlaylist {
                    saved: left_saved,
                    playlist_id: left_playlist_id,
                    name: left_name,
                },
                Effect::RenamePlaylist {
                    saved: right_saved,
                    playlist_id: right_playlist_id,
                    name: right_name,
                },
            ) => left_saved.same(right_saved)
                && left_playlist_id.same(right_playlist_id)
                && left_name.same(right_name),
            (
                Effect::MutatePlaylist { saved: left_saved, mutation: left_mutation },
                Effect::MutatePlaylist { saved: right_saved, mutation: right_mutation },
            ) => left_saved.same(right_saved) && left_mutation.same(right_mutation),
            (
                Effect::LoadFolder {
                    saved: left_saved,
                    request_id: left_request_id,
                    path: left_path,
                    selected_music_folder_id: left_selected_music_folder_id,
                },
                Effect::LoadFolder {
                    saved: right_saved,
                    request_id: right_request_id,
                    path: right_path,
                    selected_music_folder_id: right_selected_music_folder_id,
                },
            ) => left_saved.same(right_saved)
                && left_request_id.same(right_request_id)
                && left_path.same(right_path)
                && left_selected_music_folder_id.same(right_selected_music_folder_id),
            (
                Effect::MatchLocalTracks { server_id: left_server_id, root_path: left_root_path },
                Effect::MatchLocalTracks { server_id: right_server_id, root_path: right_root_path },
            ) => left_server_id.same(right_server_id) && left_root_path.same(right_root_path),
            (
                Effect::ClearDiskCovers { server_id: left_server_id, next: left_next },
                Effect::ClearDiskCovers { server_id: right_server_id, next: right_next },
            ) => left_server_id.same(right_server_id) && left_next.same(right_next),
            _ => false,
        }
    }
}

} // verus!
