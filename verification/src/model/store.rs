//! What is kept of the libraries and of the sources that they come from.
use crate::model::ids::{MusicFolderId, PlaylistId, ServerId, TrackId};
use crate::model::library::{
    Album, AlbumView, Artist, ArtistView, Genre, GenreView, HomeSection, HomeSectionView,
    MusicFolder, MusicFolderView, Playlist, PlaylistEntry, PlaylistEntryView, PlaylistView,
    SmartPlaylistDetail, SmartPlaylistDetailView, Track, TrackView,
};
use crate::model::lyrics::{Lyrics, LyricsView};
use crate::model::queue::{QueueSnapshot, QueueSnapshotView};
use crate::model::settings::{AppSettings, AppSettingsView};
use crate::model::source::{
    SavedServer, SavedServerView, ServerLocalAccess, ServerLocalAccessView, TrackLocalMatch,
    TrackLocalMatchView,
};
use crate::value::Value;
use vstd::prelude::*;

verus! {

/// How far the library of a source is read.
#[derive(Clone, Debug, PartialEq, Eq)]
pub struct SyncState {
    pub status: String,
    pub generation: u64,
    pub error: Option<String>,
}

/// The contents of a [`SyncState`].
#[verifier::ext_equal]
pub struct SyncStateView {
    pub status: Seq<char>,
    pub generation: u64,
    pub error: Option<Seq<char>>,
}

impl DeepView for SyncState {
    type V = SyncStateView;

    open spec fn deep_view(&self) -> SyncStateView {
        SyncStateView {
            status: self.status.deep_view(),
            generation: self.generation.deep_view(),
            error: self.error.deep_view(),
        }
    }
}

impl Value for SyncState {
    fn copy(&self) -> (result: SyncState) {
        SyncState {
            status: self.status.copy(),
            generation: self.generation.copy(),
            error: self.error.copy(),
        }
    }

    fn same(&self, other: &SyncState) -> (result: bool) {
        self.status.same(&other.status)
            && self.generation.same(&other.generation)
            && self.error.same(&other.error)
    }
}

/// An image that was fetched, and where it lies.
#[derive(Clone, Debug, PartialEq, Eq)]
pub struct CoverCacheEntry {
    pub server_id: ServerId,
    pub item_id: String,
    pub image_tag: String,
    pub size: u32,
    pub path: String,
}

/// The contents of a [`CoverCacheEntry`].
#[verifier::ext_equal]
pub struct CoverCacheEntryView {
    pub server_id: Seq<char>,
    pub item_id: Seq<char>,
    pub image_tag: Seq<char>,
    pub size: u32,
    pub path: Seq<char>,
}

impl DeepView for CoverCacheEntry {
    type V = CoverCacheEntryView;

    open spec fn deep_view(&self) -> CoverCacheEntryView {
        CoverCacheEntryView {
            server_id: self.server_id.deep_view(),
            item_id: self.item_id.deep_view(),
            image_tag: self.image_tag.deep_view(),
            size: self.size.deep_view(),
            path: self.path.deep_view(),
        }
    }
}

impl Value for CoverCacheEntry {
    fn copy(&self) -> (result: CoverCacheEntry) {
        CoverCacheEntry {
            server_id: self.server_id.copy(),
            item_id: self.item_id.copy(),
            image_tag: self.image_tag.copy(),
            size: self.size.copy(),
            path: self.path.copy(),
        }
    }

    fn same(&self, other: &CoverCacheEntry) -> (result: bool) {
        self.server_id.same(&other.server_id)
            && self.item_id.same(&other.item_id)
            && self.image_tag.same(&other.image_tag)
            && self.size.same(&other.size)
            && self.path.same(&other.path)
    }
}

/// An image that was looked for elsewhere and not found.
#[derive(Clone, Debug, PartialEq, Eq)]
pub struct LookupMiss {
    pub item_id: String,
    pub image_tag: String,
    pub size: u32,
    pub reason: String,
}

/// The contents of a [`LookupMiss`].
#[verifier::ext_equal]
pub struct LookupMissView {
    pub item_id: Seq<char>,
    pub image_tag: Seq<char>,
    pub size: u32,
    pub reason: Seq<char>,
}

impl DeepView for LookupMiss {
    type V = LookupMissView;

    open spec fn deep_view(&self) -> LookupMissView {
        LookupMissView {
            item_id: self.item_id.deep_view(),
            image_tag: self.image_tag.deep_view(),
            size: self.size.deep_view(),
            reason: self.reason.deep_view(),
        }
    }
}

impl Value for LookupMiss {
    fn copy(&self) -> (result: LookupMiss) {
        LookupMiss {
            item_id: self.item_id.copy(),
            image_tag: self.image_tag.copy(),
            size: self.size.copy(),
            reason: self.reason.copy(),
        }
    }

    fn same(&self, other: &LookupMiss) -> (result: bool) {
        self.item_id.same(&other.item_id)
            && self.image_tag.same(&other.image_tag)
            && self.size.same(&other.size)
            && self.reason.same(&other.reason)
    }
}

/// The entries of a playlist.
#[derive(Clone, Debug, PartialEq, Eq)]
pub struct PlaylistRows {
    pub playlist_id: PlaylistId,
    pub entries: Vec<PlaylistEntry>,
}

/// The contents of a [`PlaylistRows`].
#[verifier::ext_equal]
pub struct PlaylistRowsView {
    pub playlist_id: Seq<char>,
    pub entries: Seq<PlaylistEntryView>,
}

impl DeepView for PlaylistRows {
    type V = PlaylistRowsView;

    open spec fn deep_view(&self) -> PlaylistRowsView {
        PlaylistRowsView {
            playlist_id: self.playlist_id.deep_view(),
            entries: self.entries.deep_view(),
        }
    }
}

impl Value for PlaylistRows {
    fn copy(&self) -> (result: PlaylistRows) {
        PlaylistRows {
            playlist_id: self.playlist_id.copy(),
            entries: self.entries.copy(),
        }
    }

    fn same(&self, other: &PlaylistRows) -> (result: bool) {
        self.playlist_id.same(&other.playlist_id)
            && self.entries.same(&other.entries)
    }
}

/// A track in a music folder.
#[derive(Clone, Debug, PartialEq, Eq)]
pub struct FolderMember {
    pub folder_id: MusicFolderId,
    pub track_id: TrackId,
}

/// The contents of a [`FolderMember`].
#[verifier::ext_equal]
pub struct FolderMemberView {
    pub folder_id: Seq<char>,
    pub track_id: Seq<char>,
}

impl DeepView for FolderMember {
    type V = FolderMemberView;

    open spec fn deep_view(&self) -> FolderMemberView {
        FolderMemberView {
            folder_id: self.folder_id.deep_view(),
            track_id: self.track_id.deep_view(),
        }
    }
}

impl Value for FolderMember {
    fn copy(&self) -> (result: FolderMember) {
        FolderMember {
            folder_id: self.folder_id.copy(),
            track_id: self.track_id.copy(),
        }
    }

    fn same(&self, other: &FolderMember) -> (result: bool) {
        self.folder_id.same(&other.folder_id)
            && self.track_id.same(&other.track_id)
    }
}

/// What is kept of one source.
#[derive(Clone, Debug, PartialEq, Eq)]
pub struct ServerLibrary {
    pub server_id: ServerId,
    pub albums: Vec<Album>,
    pub tracks: Vec<Track>,
    pub artists: Vec<Artist>,
    pub album_artists: Vec<Artist>,
    pub genres: Vec<Genre>,
    pub playlists: Vec<Playlist>,
    pub playlist_rows: Vec<PlaylistRows>,
    pub smart_playlists: Vec<SmartPlaylistDetail>,
    pub music_folders: Vec<MusicFolder>,
    pub folder_members: Vec<FolderMember>,
    pub selected_music_folder_id: Option<MusicFolderId>,
    pub home_sections: Vec<HomeSection>,
    pub prefetched_sections: Vec<HomeSection>,
    pub sync: SyncState,
    pub queue: Option<QueueSnapshot>,
    pub local_access: Option<ServerLocalAccess>,
    pub local_matches: Vec<TrackLocalMatch>,
    pub lyrics: Vec<Lyrics>,
    pub covers: Vec<CoverCacheEntry>,
    pub misses: Vec<LookupMiss>,
}

/// The contents of a [`ServerLibrary`].
#[verifier::ext_equal]
pub struct ServerLibraryView {
    pub server_id: Seq<char>,
    pub albums: Seq<AlbumView>,
    pub tracks: Seq<TrackView>,
    pub artists: Seq<ArtistView>,
    pub album_artists: Seq<ArtistView>,
    pub genres: Seq<GenreView>,
    pub playlists: Seq<PlaylistView>,
    pub playlist_rows: Seq<PlaylistRowsView>,
    pub smart_playlists: Seq<SmartPlaylistDetailView>,
    pub music_folders: Seq<MusicFolderView>,
    pub folder_members: Seq<FolderMemberView>,
    pub selected_music_folder_id: Option<Seq<char>>,
    pub home_sections: Seq<HomeSectionView>,
    pub prefetched_sections: Seq<HomeSectionView>,
    pub sync: SyncStateView,
    pub queue: Option<QueueSnapshotView>,
    pub local_access: Option<ServerLocalAccessView>,
    pub local_matches: Seq<TrackLocalMatchView>,
    pub lyrics: Seq<LyricsView>,
    pub covers: Seq<CoverCacheEntryView>,
    pub misses: Seq<LookupMissView>,
}

impl DeepView for ServerLibrary {
    type V = ServerLibraryView;

    open spec fn deep_view(&self) -> ServerLibraryView {
        ServerLibraryView {
            server_id: self.server_id.deep_view(),
            albums: self.albums.deep_view(),
            tracks: self.tracks.deep_view(),
            artists: self.artists.deep_view(),
            album_artists: self.album_artists.deep_view(),
            genres: self.genres.deep_view(),
            playlists: self.playlists.deep_view(),
            playlist_rows: self.playlist_rows.deep_view(),
            smart_playlists: self.smart_playlists.deep_view(),
            music_folders: self.music_folders.deep_view(),
            folder_members: self.folder_members.deep_view(),
            selected_music_folder_id: self.selected_music_folder_id.deep_view(),
            home_sections: self.home_sections.deep_view(),
            prefetched_sections: self.prefetched_sections.deep_view(),
            sync: self.sync.deep_view(),
            queue: self.queue.deep_view(),
            local_access: self.local_access.deep_view(),
            local_matches: self.local_matches.deep_view(),
            lyrics: self.lyrics.deep_view(),
            covers: self.covers.deep_view(),
            misses: self.misses.deep_view(),
        }
    }
}

impl Value for ServerLibrary {
    fn copy(&self) -> (result: ServerLibrary) {
        ServerLibrary {
            server_id: self.server_id.copy(),
            albums: self.albums.copy(),
            tracks: self.tracks.copy(),
            artists: self.artists.copy(),
            album_artists: self.album_artists.copy(),
            genres: self.genres.copy(),
            playlists: self.playlists.copy(),
            playlist_rows: self.playlist_rows.copy(),
            smart_playlists: self.smart_playlists.copy(),
            music_folders: self.music_folders.copy(),
            folder_members: self.folder_members.copy(),
            selected_music_folder_id: self.selected_music_folder_id.copy(),
            home_sections: self.home_sections.copy(),
            prefetched_sections: self.prefetched_sections.copy(),
            sync: self.sync.copy(),
            queue: self.queue.copy(),
            local_access: self.local_access.copy(),
            local_matches: self.local_matches.copy(),
            lyrics: self.lyrics.copy(),
            covers: self.covers.copy(),
            misses: self.misses.copy(),
        }
    }

    fn same(&self, other: &ServerLibrary) -> (result: bool) {
        self.server_id.same(&other.server_id)
            && self.albums.same(&other.albums)
            && self.tracks.same(&other.tracks)
            && self.artists.same(&other.artists)
            && self.album_artists.same(&other.album_artists)
            && self.genres.same(&other.genres)
            && self.playlists.same(&other.playlists)
            && self.playlist_rows.same(&other.playlist_rows)
            && self.smart_playlists.same(&other.smart_playlists)
            && self.music_folders.same(&other.music_folders)
            && self.folder_members.same(&other.folder_members)
            && self.selected_music_folder_id.same(&other.selected_music_folder_id)
            && self.home_sections.same(&other.home_sections)
            && self.prefetched_sections.same(&other.prefetched_sections)
            && self.sync.same(&other.sync)
            && self.queue.same(&other.queue)
            && self.local_access.same(&other.local_access)
            && self.local_matches.same(&other.local_matches)
            && self.lyrics.same(&other.lyrics)
            && self.covers.same(&other.covers)
            && self.misses.same(&other.misses)
    }
}

/// What is kept between runs. While it has a fault, nothing can be read or written.
#[derive(Clone, Debug, PartialEq, Eq)]
pub struct Store {
    pub fault: Option<String>,
    pub settings: AppSettings,
    pub servers: Vec<SavedServer>,
    pub active: Option<ServerId>,
    pub libraries: Vec<ServerLibrary>,
}

/// The contents of a [`Store`].
#[verifier::ext_equal]
pub struct StoreView {
    pub fault: Option<Seq<char>>,
    pub settings: AppSettingsView,
    pub servers: Seq<SavedServerView>,
    pub active: Option<Seq<char>>,
    pub libraries: Seq<ServerLibraryView>,
}

impl DeepView for Store {
    type V = StoreView;

    open spec fn deep_view(&self) -> StoreView {
        StoreView {
            fault: self.fault.deep_view(),
            settings: self.settings.deep_view(),
            servers: self.servers.deep_view(),
            active: self.active.deep_view(),
            libraries: self.libraries.deep_view(),
        }
    }
}

impl Value for Store {
    fn copy(&self) -> (result: Store) {
        Store {
            fault: self.fault.copy(),
            settings: self.settings.copy(),
            servers: self.servers.copy(),
            active: self.active.copy(),
            libraries: self.libraries.copy(),
        }
    }

    fn same(&self, other: &Store) -> (result: bool) {
        self.fault.same(&other.fault)
            && self.settings.same(&other.settings)
            && self.servers.same(&other.servers)
            && self.active.same(&other.active)
            && self.libraries.same(&other.libraries)
    }
}

/// The access token for a source.
#[derive(Clone, Debug, PartialEq, Eq)]
pub struct ServerToken {
    pub server_id: ServerId,
    pub token: String,
}

/// The contents of a [`ServerToken`].
#[verifier::ext_equal]
pub struct ServerTokenView {
    pub server_id: Seq<char>,
    pub token: Seq<char>,
}

impl DeepView for ServerToken {
    type V = ServerTokenView;

    open spec fn deep_view(&self) -> ServerTokenView {
        ServerTokenView {
            server_id: self.server_id.deep_view(),
            token: self.token.deep_view(),
        }
    }
}

impl Value for ServerToken {
    fn copy(&self) -> (result: ServerToken) {
        ServerToken {
            server_id: self.server_id.copy(),
            token: self.token.copy(),
        }
    }

    fn same(&self, other: &ServerToken) -> (result: bool) {
        self.server_id.same(&other.server_id)
            && self.token.same(&other.token)
    }
}

/// The access tokens, with what reading, writing and deleting them fails with.
#[derive(Clone, Debug, PartialEq, Eq)]
pub struct TokenStore {
    pub tokens: Vec<ServerToken>,
    pub load_fault: Option<String>,
    pub save_fault: Option<String>,
    pub delete_fault: Option<String>,
}

/// The contents of a [`TokenStore`].
#[verifier::ext_equal]
pub struct TokenStoreView {
    pub tokens: Seq<ServerTokenView>,
    pub load_fault: Option<Seq<char>>,
    pub save_fault: Option<Seq<char>>,
    pub delete_fault: Option<Seq<char>>,
}

impl DeepView for TokenStore {
    type V = TokenStoreView;

    open spec fn deep_view(&self) -> TokenStoreView {
        TokenStoreView {
            tokens: self.tokens.deep_view(),
            load_fault: self.load_fault.deep_view(),
            save_fault: self.save_fault.deep_view(),
            delete_fault: self.delete_fault.deep_view(),
        }
    }
}

impl Value for TokenStore {
    fn copy(&self) -> (result: TokenStore) {
        TokenStore {
            tokens: self.tokens.copy(),
            load_fault: self.load_fault.copy(),
            save_fault: self.save_fault.copy(),
            delete_fault: self.delete_fault.copy(),
        }
    }

    fn same(&self, other: &TokenStore) -> (result: bool) {
        self.tokens.same(&other.tokens)
            && self.load_fault.same(&other.load_fault)
            && self.save_fault.same(&other.save_fault)
            && self.delete_fault.same(&other.delete_fault)
    }
}

} // verus!
