//! The state of the library as it is shown.
use crate::model::library::{
    Album, AlbumView, HomeSection, HomeSectionView, Playlist, PlaylistView, SearchResults,
    SearchResultsView, Track, TrackView,
};
use crate::model::source::{
    LibrarySourceSelection, LibrarySourceSelectionView, LocalAccessStatus, LocalAccessStatusView,
    LocalLibraryFolder, LocalLibraryFolderView, ServerIdentity, ServerIdentityView,
    ServerLocalAccess, ServerLocalAccessView,
};
use crate::value::Value;
use vstd::prelude::*;

verus! {

/// The state of the library as it is shown.
#[derive(Clone, Debug, PartialEq, Eq)]
pub struct LibrarySnapshot {
    pub first_run: bool,
    pub server: Option<ServerIdentity>,
    pub servers: Vec<ServerIdentity>,
    pub selected_source: Option<LibrarySourceSelection>,
    pub local_folders: Vec<LocalLibraryFolder>,
    pub albums: Vec<Album>,
    pub tracks: Vec<Track>,
    pub favorites: Vec<Track>,
    pub playlists: Vec<Playlist>,
    pub home_sections: Vec<HomeSection>,
    pub search: SearchResults,
    pub cached_album_count: usize,
    pub cached_track_count: usize,
    pub sync_status: String,
    pub local_access: Option<ServerLocalAccess>,
    pub local_access_status: LocalAccessStatus,
}

/// The contents of a [`LibrarySnapshot`].
#[verifier::ext_equal]
pub struct LibrarySnapshotView {
    pub first_run: bool,
    pub server: Option<ServerIdentityView>,
    pub servers: Seq<ServerIdentityView>,
    pub selected_source: Option<LibrarySourceSelectionView>,
    pub local_folders: Seq<LocalLibraryFolderView>,
    pub albums: Seq<AlbumView>,
    pub tracks: Seq<TrackView>,
    pub favorites: Seq<TrackView>,
    pub playlists: Seq<PlaylistView>,
    pub home_sections: Seq<HomeSectionView>,
    pub search: SearchResultsView,
    pub cached_album_count: usize,
    pub cached_track_count: usize,
    pub sync_status: Seq<char>,
    pub local_access: Option<ServerLocalAccessView>,
    pub local_access_status: LocalAccessStatusView,
}

impl DeepView for LibrarySnapshot {
    type V = LibrarySnapshotView;

    open spec fn deep_view(&self) -> LibrarySnapshotView {
        LibrarySnapshotView {
            first_run: self.first_run.deep_view(),
            server: self.server.deep_view(),
            servers: self.servers.deep_view(),
            selected_source: self.selected_source.deep_view(),
            local_folders: self.local_folders.deep_view(),
            albums: self.albums.deep_view(),
            tracks: self.tracks.deep_view(),
            favorites: self.favorites.deep_view(),
            playlists: self.playlists.deep_view(),
            home_sections: self.home_sections.deep_view(),
            search: self.search.deep_view(),
            cached_album_count: self.cached_album_count.deep_view(),
            cached_track_count: self.cached_track_count.deep_view(),
            sync_status: self.sync_status.deep_view(),
            local_access: self.local_access.deep_view(),
            local_access_status: self.local_access_status.deep_view(),
        }
    }
}

impl Value for LibrarySnapshot {
    fn copy(&self) -> (result: LibrarySnapshot) {
        LibrarySnapshot {
            first_run: self.first_run.copy(),
            server: self.server.copy(),
            servers: self.servers.copy(),
            selected_source: self.selected_source.copy(),
            local_folders: self.local_folders.copy(),
            albums: self.albums.copy(),
            tracks: self.tracks.copy(),
            favorites: self.favorites.copy(),
            playlists: self.playlists.copy(),
            home_sections: self.home_sections.copy(),
            search: self.search.copy(),
            cached_album_count: self.cached_album_count.copy(),
            cached_track_count: self.cached_track_count.copy(),
            sync_status: self.sync_status.copy(),
            local_access: self.local_access.copy(),
            local_access_status: self.local_access_status.copy(),
        }
    }

    fn same(&self, other: &LibrarySnapshot) -> (result: bool) {
        self.first_run.same(&other.first_run)
            && self.server.same(&other.server)
            && self.servers.same(&other.servers)
            && self.selected_source.same(&other.selected_source)
            && self.local_folders.same(&other.local_folders)
            && self.albums.same(&other.albums)
            && self.tracks.same(&other.tracks)
            && self.favorites.same(&other.favorites)
            && self.playlists.same(&other.playlists)
            && self.home_sections.same(&other.home_sections)
            && self.search.same(&other.search)
            && self.cached_album_count.same(&other.cached_album_count)
            && self.cached_track_count.same(&other.cached_track_count)
            && self.sync_status.same(&other.sync_status)
            && self.local_access.same(&other.local_access)
            && self.local_access_status.same(&other.local_access_status)
    }
}

} // verus!
