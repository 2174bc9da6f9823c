//! Reading a whole library, one request after the other.

use crate::controller::sync_commands::keep_sections;
use crate::model::ids::{MusicFolderId, PlaylistId};
use crate::model::library::{
    Album, Artist, Genre, HomeSection, HomeSectionView, MusicFolder, MusicFolderView, Playlist,
    PlaylistEntry, PlaylistEntryView, PlaylistView, Track, TrackView,
};
use crate::model::source::{SavedServer, SavedServerView};
use crate::model::store::{
    FolderMemberView, PlaylistRows, PlaylistRowsView, ServerLibrary, ServerLibraryView, Store,
    StoreView, SyncStateView,
};
use crate::providers::{display_name, provider_display_name};
use crate::store::{members_are_read_back, with_members, wrote};
use crate::sync_progress::{
    is_last_page, known_sync_total, sync_page_finished, SyncCollection, SyncPageProgress,
    SyncProgressReporter, SyncProgressReporterView, PAGE_SIZE,
};
use crate::table::{
    lemma_row_place, lemma_rows_have_keys, put_row, put_row_is_found, put_rows, rows_with_keys,
    Keyed,
};
use crate::value::Value;
use vstd::prelude::*;

verus! {

/// How far the reading of a library has come.
#[derive(Clone, Copy, Debug, PartialEq, Eq, Structural)]
pub enum SyncStage {
    Albums,
    Tracks,
    MusicFolders,
    FolderTracks,
    Artists,
    AlbumArtists,
    Genres,
    Playlists,
    PlaylistDetails,
    HomeSections,
    Finished,
}

/// What is asked of a server next. Pages are asked for by position and length.
#[derive(Clone, Debug, PartialEq, Eq)]
pub enum SyncRequest {
    Albums { offset: usize, limit: usize },
    Tracks { offset: usize, limit: usize },
    MusicFolders,
    FolderTracks { folder_id: MusicFolderId, offset: usize, limit: usize },
    Artists { offset: usize, limit: usize },
    AlbumArtists { offset: usize, limit: usize },
    Genres { offset: usize, limit: usize },
    Playlists { offset: usize, limit: usize },
    PlaylistDetail(PlaylistId),
    HomeSections,
    Nothing,
}

/// The contents of a [`SyncRequest`].
#[verifier::ext_equal]
pub enum SyncRequestView {
    Albums { offset: usize, limit: usize },
    Tracks { offset: usize, limit: usize },
    MusicFolders,
    FolderTracks { folder_id: Seq<char>, offset: usize, limit: usize },
    Artists { offset: usize, limit: usize },
    AlbumArtists { offset: usize, limit: usize },
    Genres { offset: usize, limit: usize },
    Playlists { offset: usize, limit: usize },
    PlaylistDetail(Seq<char>),
    HomeSections,
    Nothing,
}

impl DeepView for SyncRequest {
    type V = SyncRequestView;

    open spec fn deep_view(&self) -> SyncRequestView {
        match self {
            SyncRequest::Albums { offset, limit } => SyncRequestView::Albums {
                offset: *offset,
                limit: *limit,
            },
            SyncRequest::Tracks { offset, limit } => SyncRequestView::Tracks {
                offset: *offset,
                limit: *limit,
            },
            SyncRequest::MusicFolders => SyncRequestView::MusicFolders,
            SyncRequest::FolderTracks { folder_id, offset, limit } =>
                SyncRequestView::FolderTracks {
                folder_id: folder_id.deep_view(),
                offset: *offset,
                limit: *limit,
            },
            SyncRequest::Artists { offset, limit } => SyncRequestView::Artists {
                offset: *offset,
                limit: *limit,
            },
            SyncRequest::AlbumArtists { offset, limit } => SyncRequestView::AlbumArtists {
                offset: *offset,
                limit: *limit,
            },
            SyncRequest::Genres { offset, limit } => SyncRequestView::Genres {
                offset: *offset,
                limit: *limit,
            },
            SyncRequest::Playlists { offset, limit } => SyncRequestView::Playlists {
                offset: *offset,
                limit: *limit,
            },
            SyncRequest::PlaylistDetail(playlist_id) => SyncRequestView::PlaylistDetail(
                playlist_id.deep_view(),
            ),
            SyncRequest::HomeSections => SyncRequestView::HomeSections,
            SyncRequest::Nothing => SyncRequestView::Nothing,
        }
    }
}

/// A library that is being read.
#[derive(Clone, Debug, PartialEq, Eq)]
pub struct LibrarySync {
    pub saved: SavedServer,
    pub generation: u64,
    pub has_music_folders: bool,
    pub playlists_only: bool,
    pub stage: SyncStage,
    pub offset: usize,
    pub page_number: usize,
    pub last_page: bool,
    pub folders: Vec<MusicFolderId>,
    pub pending: Vec<PlaylistId>,
    pub seen: Vec<String>,
    pub reporter: SyncProgressReporter,
    pub told: Vec<String>,
}

/// The contents of a [`LibrarySync`].
#[verifier::ext_equal]
pub struct LibrarySyncView {
    pub saved: SavedServerView,
    pub generation: u64,
    pub has_music_folders: bool,
    pub playlists_only: bool,
    pub stage: SyncStage,
    pub offset: usize,
    pub page_number: usize,
    pub last_page: bool,
    pub folders: Seq<Seq<char>>,
    pub pending: Seq<Seq<char>>,
    pub seen: Seq<Seq<char>>,
    pub reporter: SyncProgressReporterView,
    pub told: Seq<Seq<char>>,
}

impl DeepView for LibrarySync {
    type V = LibrarySyncView;

    open spec fn deep_view(&self) -> LibrarySyncView {
        LibrarySyncView {
            saved: self.saved.deep_view(),
            generation: self.generation,
            has_music_folders: self.has_music_folders,
            playlists_only: self.playlists_only,
            stage: self.stage,
            offset: self.offset,
            page_number: self.page_number,
            last_page: self.last_page,
            folders: self.folders.deep_view(),
            pending: self.pending.deep_view(),
            seen: self.seen.deep_view(),
            reporter: self.reporter.deep_view(),
            told: self.told.deep_view(),
        }
    }
}

/// The ids of playlists.
pub open spec fn playlist_keys(playlists: Seq<PlaylistView>) -> Seq<Seq<char>> {
    Seq::new(playlists.len(), |i: int| playlists[i].id)
}

/// The ids of music folders.
pub open spec fn folder_keys(folders: Seq<MusicFolderView>) -> Seq<Seq<char>> {
    Seq::new(folders.len(), |i: int| folders[i].id)
}

impl LibrarySyncView {
    /// Each page but the last has an item, playlists are read one by one while there are any,
    /// and so are music folders.
    pub open spec fn wf(self) -> bool {
        &&& self.page_number <= self.offset + 1
        &&& self.stage == SyncStage::PlaylistDetails ==> self.pending.len() > 0
        &&& self.stage == SyncStage::FolderTracks ==> self.folders.len() > 0
    }

    /// With a message told, where there is one.
    pub open spec fn say(self, status: Option<Seq<char>>) -> LibrarySyncView {
        match status {
            Some(status) => LibrarySyncView { told: self.told.push(status), ..self },
            None => self,
        }
    }

    /// With a message offered that must be told, or that may be.
    pub open spec fn offer(self, force: bool, status: Seq<char>, now: u64) -> LibrarySyncView {
        (LibrarySyncView { reporter: self.reporter.after(force, now), ..self }).say(
            self.reporter.told(force, now, status),
        )
    }

    /// With it told that a collection is begun.
    pub open spec fn started(self, collection: SyncCollection, now: u64) -> LibrarySyncView {
        self.offer(true, self.reporter.started_text(collection, now), now)
    }

    /// With it told that a page is being waited for.
    pub open spec fn fetching(self, collection: SyncCollection, now: u64) -> LibrarySyncView {
        self.offer(
            false,
            self.reporter.fetching_text(collection, self.page_number, self.offset, None, now),
            now,
        )
    }

    /// At the first page of a stage.
    pub open spec fn at(self, stage: SyncStage) -> LibrarySyncView {
        LibrarySyncView { stage, offset: 0, page_number: 1, last_page: false, ..self }
    }

    /// With a page noted.
    pub open spec fn page_noted(self, item_count: nat, total: usize) -> LibrarySyncView {
        let offset = (self.offset + item_count) as usize;
        let last_page = is_last_page(item_count as usize, total, offset);
        LibrarySyncView {
            offset,
            last_page,
            page_number: if last_page {
                self.page_number
            } else {
                (self.page_number + 1) as usize
            },
            ..self
        }
    }

    /// The message that a page was kept, given what was known before it came.
    pub open spec fn page_told(
        self,
        collection: SyncCollection,
        before: LibrarySyncView,
        total: usize,
        now: u64,
    ) -> LibrarySyncView {
        let progress = SyncPageProgress {
            collection,
            page_number: before.page_number,
            fetched: self.offset,
            written: self.offset,
            total: if total > 0 {
                Some(total)
            } else {
                None
            },
            finished: self.last_page,
        };
        self.offer(self.last_page, self.reporter.written_text(progress, now), now)
    }

    /// With the albums begun.
    pub open spec fn begin_albums(self, now: u64) -> LibrarySyncView {
        self.at(SyncStage::Albums).started(SyncCollection::Albums, now).fetching(
            SyncCollection::Albums,
            now,
        )
    }

    /// With the tracks begun.
    pub open spec fn begin_tracks(self, now: u64) -> LibrarySyncView {
        self.at(SyncStage::Tracks).started(SyncCollection::Tracks, now).fetching(
            SyncCollection::Tracks,
            now,
        )
    }

    /// With the music folders begun, or passed over where the server has none.
    pub open spec fn begin_folders(self, now: u64) -> LibrarySyncView {
        let told = self.at(SyncStage::MusicFolders).started(SyncCollection::MusicFolders, now);
        if self.has_music_folders {
            told
        } else {
            told.begin_artists(now)
        }
    }

    /// With the next music folder begun, or the artists where there is none left.
    pub open spec fn begin_folder(self, now: u64) -> LibrarySyncView {
        if self.folders.len() > 0 {
            self.at(SyncStage::FolderTracks)
        } else {
            self.begin_artists(now)
        }
    }

    /// With the artists begun.
    pub open spec fn begin_artists(self, now: u64) -> LibrarySyncView {
        self.at(SyncStage::Artists).started(SyncCollection::Artists, now)
    }

    /// With the artists of albums begun.
    pub open spec fn begin_album_artists(self, now: u64) -> LibrarySyncView {
        self.at(SyncStage::AlbumArtists).started(SyncCollection::AlbumArtists, now)
    }

    /// With the genres begun.
    pub open spec fn begin_genres(self, now: u64) -> LibrarySyncView {
        self.at(SyncStage::Genres).started(SyncCollection::Genres, now)
    }

    /// With the playlists begun.
    pub open spec fn begin_playlists(self, now: u64) -> LibrarySyncView {
        self.at(SyncStage::Playlists).started(SyncCollection::Playlists, now)
    }

    /// With the home page begun.
    pub open spec fn begin_home(self, now: u64) -> LibrarySyncView {
        self.at(SyncStage::HomeSections).started(SyncCollection::HomeSections, now)
    }

    /// With albums read.
    pub open spec fn albums_read(self, item_count: nat, total: usize, now: u64) -> LibrarySyncView {
        let noted = self.page_noted(item_count, total).page_told(
            SyncCollection::Albums,
            self,
            total,
            now,
        );
        if noted.last_page {
            noted.begin_tracks(now)
        } else {
            noted.fetching(SyncCollection::Albums, now)
        }
    }

    /// With tracks read.
    pub open spec fn tracks_read(self, item_count: nat, total: usize, now: u64) -> LibrarySyncView {
        let noted = self.page_noted(item_count, total).page_told(
            SyncCollection::Tracks,
            self,
            total,
            now,
        );
        if noted.last_page {
            noted.begin_folders(now)
        } else {
            noted.fetching(SyncCollection::Tracks, now)
        }
    }

    /// With the list of music folders read.
    pub open spec fn folders_read(
        self,
        folders: Seq<MusicFolderView>,
        now: u64,
    ) -> LibrarySyncView {
        (LibrarySyncView { folders: folder_keys(folders), ..self }).begin_folder(now)
    }

    /// With tracks of a music folder read.
    pub open spec fn folder_tracks_read(
        self,
        item_count: nat,
        total: usize,
        now: u64,
    ) -> LibrarySyncView {
        let noted = self.page_noted(item_count, total);
        if noted.last_page {
            (LibrarySyncView { folders: noted.folders.drop_first(), ..noted }).begin_folder(now)
        } else {
            noted
        }
    }

    /// With artists read.
    pub open spec fn artists_read(
        self,
        item_count: nat,
        total: usize,
        now: u64,
    ) -> LibrarySyncView {
        let noted = self.page_noted(item_count, total);
        if !noted.last_page {
            noted
        } else if self.stage == SyncStage::AlbumArtists {
            noted.begin_genres(now)
        } else {
            noted.begin_album_artists(now)
        }
    }

    /// With genres read.
    pub open spec fn genres_read(self, item_count: nat, total: usize, now: u64) -> LibrarySyncView {
        let noted = self.page_noted(item_count, total);
        if noted.last_page {
            noted.begin_playlists(now)
        } else {
            noted
        }
    }

    /// With what follows in the reading of playlists: the entries of the next one, the next
    /// page, or what comes after the last.
    pub open spec fn next_playlist(self, now: u64) -> LibrarySyncView {
        if self.pending.len() > 0 {
            LibrarySyncView { stage: SyncStage::PlaylistDetails, ..self }
        } else if !self.last_page {
            LibrarySyncView { stage: SyncStage::Playlists, ..self }
        } else if self.playlists_only {
            self.at(SyncStage::Finished)
        } else {
            self.begin_home(now)
        }
    }

    /// Whether the last of the playlists was read where nothing else is.
    pub open spec fn ends_playlists(self) -> bool {
        self.pending.len() == 0 && self.last_page && self.playlists_only
    }

    /// With playlists noted that were read, before what follows.
    pub open spec fn playlists_noted(
        self,
        playlists: Seq<PlaylistView>,
        total: usize,
    ) -> LibrarySyncView {
        LibrarySyncView {
            pending: playlist_keys(playlists),
            seen: self.seen + playlist_keys(playlists),
            ..self.page_noted(playlists.len(), total)
        }
    }

    /// With the entries of a playlist noted, before what follows.
    pub open spec fn playlist_noted(self) -> LibrarySyncView {
        LibrarySyncView { pending: self.pending.drop_first(), ..self }
    }

    /// With the home page read, and with it all.
    pub open spec fn home_read(self, now: u64) -> LibrarySyncView {
        let finalizing = self.offer(true, self.reporter.finalizing_text(now), now);
        finalizing.offer(true, finalizing.reporter.finished_text(now), now).at(SyncStage::Finished)
    }

    /// What is asked for next.
    pub open spec fn request(self) -> SyncRequestView {
        match self.stage {
            SyncStage::Albums => SyncRequestView::Albums { offset: self.offset, limit: PAGE_SIZE },
            SyncStage::Tracks => SyncRequestView::Tracks { offset: self.offset, limit: PAGE_SIZE },
            SyncStage::MusicFolders => SyncRequestView::MusicFolders,
            SyncStage::FolderTracks => SyncRequestView::FolderTracks {
                folder_id: self.folders.first(),
                offset: self.offset,
                limit: PAGE_SIZE,
            },
            SyncStage::Artists => SyncRequestView::Artists {
                offset: self.offset,
                limit: PAGE_SIZE,
            },
            SyncStage::AlbumArtists => SyncRequestView::AlbumArtists {
                offset: self.offset,
                limit: PAGE_SIZE,
            },
            SyncStage::Genres => SyncRequestView::Genres { offset: self.offset, limit: PAGE_SIZE },
            SyncStage::Playlists => SyncRequestView::Playlists {
                offset: self.offset,
                limit: PAGE_SIZE,
            },
            SyncStage::PlaylistDetails => SyncRequestView::PlaylistDetail(self.pending.first()),
            SyncStage::HomeSections => SyncRequestView::HomeSections,
            SyncStage::Finished => SyncRequestView::Nothing,
        }
    }
}

impl StoreView {
    /// The store with tracks of a music folder that were read, kept as its members.
    pub open spec fn with_folder_tracks(
        self,
        server_id: Seq<char>,
        folder_id: Seq<char>,
        tracks: Seq<TrackView>,
    ) -> StoreView {
        self.with_tracks(server_id, tracks).with_folder_members(server_id, folder_id, tracks)
    }

    /// The store with the entries of a playlist that were read, and their tracks.
    pub open spec fn with_entries_read(
        self,
        server_id: Seq<char>,
        playlist_id: Seq<char>,
        tracks: Seq<TrackView>,
        entries: Seq<PlaylistEntryView>,
    ) -> StoreView {
        let with_tracks = self.with_tracks(server_id, tracks);
        let library = with_tracks.library(server_id);
        with_tracks.with_library(
            server_id,
            ServerLibraryView {
                playlist_rows: put_row::<PlaylistRows>(
                    library.playlist_rows,
                    PlaylistRowsView { playlist_id, entries },
                ),
                ..library
            },
        )
    }

    /// The store with playlists of a source that were read.
    pub open spec fn with_playlists_read(
        self,
        server_id: Seq<char>,
        playlists: Seq<PlaylistView>,
    ) -> StoreView {
        let library = self.library(server_id);
        self.with_library(
            server_id,
            ServerLibraryView {
                playlists: put_rows::<Playlist>(library.playlists, playlists),
                ..library
            },
        )
    }

    /// The store without the playlists of a source that were not seen.
    pub open spec fn without_unseen_playlists(
        self,
        server_id: Seq<char>,
        seen: Seq<Seq<char>>,
    ) -> StoreView {
        let library = self.library(server_id);
        self.with_library(
            server_id,
            ServerLibraryView {
                playlists: rows_with_keys::<Playlist>(library.playlists, seen),
                playlist_rows: rows_with_keys::<PlaylistRows>(library.playlist_rows, seen),
                ..library
            },
        )
    }

    /// The store once all the playlists of a source were seen, where nothing else is read.
    pub open spec fn with_playlists_ended(self, sync: LibrarySyncView) -> StoreView {
        if sync.ends_playlists() {
            self.without_unseen_playlists(sync.saved.server.id, sync.seen)
        } else {
            self
        }
    }

    /// The store with the library of a source read.
    pub open spec fn synced(self, server_id: Seq<char>, generation: u64) -> StoreView {
        let library = self.library(server_id);
        self.with_library(server_id, library.with_sync("idle"@, generation, None))
    }
}

/// Whether a part of a library was kept and the reading went on, or neither.
pub open spec fn went_on(
    result: Result<(), String>,
    store: StoreView,
    store_after: StoreView,
    kept: StoreView,
    sync: LibrarySyncView,
    sync_after: LibrarySyncView,
    next: LibrarySyncView,
) -> bool {
    &&& wrote(result, store, store_after, kept)
    &&& sync_after == (if result is Ok {
        next
    } else {
        sync
    })
}

fn keys_of_playlists(playlists: &Vec<Playlist>) -> (result: Vec<PlaylistId>)
    ensures
        result.deep_view() == playlist_keys(playlists.deep_view()),
{
    let mut result: Vec<PlaylistId> = Vec::new();
    let mut i: usize = 0;
    while i < playlists.len()
        invariant
            i <= playlists@.len(),
            result@.len() == i,
            forall|j: int|
                0 <= j < i ==> #[trigger] result@[j].deep_view() == playlists@[j].deep_view().id,
        decreases playlists.len() - i,
    {
        result.push(playlists[i].id.copy());
        i += 1;
    }
    assert(result.deep_view() =~= playlist_keys(playlists.deep_view()));
    result
}

fn keys_of_folders(folders: &Vec<MusicFolder>) -> (result: Vec<MusicFolderId>)
    ensures
        result.deep_view() == folder_keys(folders.deep_view()),
{
    let mut result: Vec<MusicFolderId> = Vec::new();
    let mut i: usize = 0;
    while i < folders.len()
        invariant
            i <= folders@.len(),
            result@.len() == i,
            forall|j: int|
                0 <= j < i ==> #[trigger] result@[j].deep_view() == folders@[j].deep_view().id,
        decreases folders.len() - i,
    {
        result.push(folders[i].id.copy());
        i += 1;
    }
    assert(result.deep_view() =~= folder_keys(folders.deep_view()));
    result
}

impl LibrarySync {
    /// Begins to read a library; the times are in milliseconds since some fixed moment.
    pub fn begin(saved: SavedServer, generation: u64, has_music_folders: bool, now: u64) -> (result:
        LibrarySync)
        ensures
            result.deep_view() == (LibrarySyncView {
                saved: saved.deep_view(),
                generation,
                has_music_folders,
                playlists_only: false,
                stage: SyncStage::Albums,
                offset: 0,
                page_number: 1,
                last_page: false,
                folders: Seq::empty(),
                pending: Seq::empty(),
                seen: Seq::empty(),
                reporter: SyncProgressReporterView {
                    source_name: saved.deep_view().server.name,
                    provider_kind: display_name(saved.deep_view().server.provider),
                    started_at: now,
                    last_status_at: None,
                    silent: false,
                },
                told: Seq::empty(),
            }).begin_albums(now),
            result.deep_view().wf(),
    {
        let mut result: LibrarySync = LibrarySync::new(
            saved,
            generation,
            has_music_folders,
            false,
            now,
        );
        result.begin_albums(now);
        result
    }

    /// Begins to read the playlists of a source, and nothing else.
    pub fn begin_playlists_only(saved: SavedServer, now: u64) -> (result: LibrarySync)
        ensures
            result.deep_view() == (LibrarySyncView {
                saved: saved.deep_view(),
                generation: 0,
                has_music_folders: false,
                playlists_only: true,
                stage: SyncStage::Playlists,
                offset: 0,
                page_number: 1,
                last_page: false,
                folders: Seq::empty(),
                pending: Seq::empty(),
                seen: Seq::empty(),
                reporter: SyncProgressReporterView {
                    source_name: saved.deep_view().server.name,
                    provider_kind: display_name(saved.deep_view().server.provider),
                    started_at: now,
                    last_status_at: None,
                    silent: true,
                },
                told: Seq::empty(),
            }),
            result.deep_view().wf(),
    {
        let mut result: LibrarySync = LibrarySync::new(saved, 0, false, true, now);
        result.stage = SyncStage::Playlists;
        result
    }

    fn new(
        saved: SavedServer,
        generation: u64,
        has_music_folders: bool,
        playlists_only: bool,
        now: u64,
    ) -> (result: LibrarySync)
        ensures
            result.deep_view() == (LibrarySyncView {
                saved: saved.deep_view(),
                generation,
                has_music_folders,
                playlists_only,
                stage: SyncStage::Albums,
                offset: 0,
                page_number: 1,
                last_page: false,
                folders: Seq::empty(),
                pending: Seq::empty(),
                seen: Seq::empty(),
                reporter: SyncProgressReporterView {
                    source_name: saved.deep_view().server.name,
                    provider_kind: display_name(saved.deep_view().server.provider),
                    started_at: now,
                    last_status_at: None,
                    silent: playlists_only,
                },
                told: Seq::empty(),
            }),
    {
        let reporter: SyncProgressReporter = SyncProgressReporter::new(
            saved.server.name.copy(),
            provider_display_name(&saved.server.provider),
            playlists_only,
            now,
        );
        let result: LibrarySync = LibrarySync {
            saved,
            generation,
            has_music_folders,
            playlists_only,
            stage: SyncStage::Albums,
            offset: 0,
            page_number: 1,
            last_page: false,
            folders: Vec::new(),
            pending: Vec::new(),
            seen: Vec::new(),
            reporter,
            told: Vec::new(),
        };
        assert(result.folders.deep_view() =~= Seq::empty());
        assert(result.pending.deep_view() =~= Seq::empty());
        assert(result.seen.deep_view() =~= Seq::empty());
        assert(result.told.deep_view() =~= Seq::empty());
        result
    }

    /// What is to be asked of the server next.
    pub fn request(&self) -> (result: SyncRequest)
        requires
            self.deep_view().wf(),
        ensures
            result.deep_view() == self.deep_view().request(),
    {
        let offset: usize = self.offset;
        let limit: usize = PAGE_SIZE;
        assert(self.folders.deep_view().len() == self.folders@.len());
        assert(self.pending.deep_view().len() == self.pending@.len());
        match self.stage {
            SyncStage::Albums => SyncRequest::Albums { offset, limit },
            SyncStage::Tracks => SyncRequest::Tracks { offset, limit },
            SyncStage::MusicFolders => SyncRequest::MusicFolders,
            SyncStage::FolderTracks => SyncRequest::FolderTracks {
                folder_id: self.folders[0].copy(),
                offset,
                limit,
            },
            SyncStage::Artists => SyncRequest::Artists { offset, limit },
            SyncStage::AlbumArtists => SyncRequest::AlbumArtists { offset, limit },
            SyncStage::Genres => SyncRequest::Genres { offset, limit },
            SyncStage::Playlists => SyncRequest::Playlists { offset, limit },
            SyncStage::PlaylistDetails => SyncRequest::PlaylistDetail(self.pending[0].copy()),
            SyncStage::HomeSections => SyncRequest::HomeSections,
            SyncStage::Finished => SyncRequest::Nothing,
        }
    }

    /// Gives out the messages that were told.
    pub fn drain_told(&mut self) -> (result: Vec<String>)
        ensures
            result.deep_view() == old(self).deep_view().told,
            final(self).deep_view() == (LibrarySyncView {
                told: Seq::empty(),
                ..old(self).deep_view()
            }),
    {
        let mut told: Vec<String> = Vec::new();
        assert(told.deep_view() =~= Seq::empty());
        std::mem::swap(&mut told, &mut self.told);
        told
    }

    fn say(&mut self, status: Option<String>)
        ensures
            final(self).deep_view() == old(self).deep_view().say(status.deep_view()),
    {
        if let Some(status) = status {
            let ghost before = self.told.deep_view();
            self.told.push(status);
            assert(self.told.deep_view() =~= before.push(status@));
        }
    }

    fn started(&mut self, collection: SyncCollection, now: u64)
        ensures
            final(self).deep_view() == old(self).deep_view().started(collection, now),
    {
        let status: Option<String> = self.reporter.collection_started(collection, now);
        self.say(status);
    }

    fn fetching(&mut self, collection: SyncCollection, now: u64)
        ensures
            final(self).deep_view() == old(self).deep_view().fetching(collection, now),
    {
        let status: Option<String> = self.reporter.page_fetching(
            collection,
            self.page_number,
            self.offset,
            None,
            now,
        );
        self.say(status);
    }

    /// Tells that a page of albums or tracks is still being waited for, where that is so.
    pub fn still_fetching(&mut self, now: u64)
        ensures
            final(self).deep_view() == (match old(self).deep_view().stage {
                SyncStage::Albums => old(self).deep_view().fetching(SyncCollection::Albums, now),
                SyncStage::Tracks => old(self).deep_view().fetching(SyncCollection::Tracks, now),
                _ => old(self).deep_view(),
            }),
            old(self).deep_view().wf() ==> final(self).deep_view().wf(),
    {
        match self.stage {
            SyncStage::Albums => self.fetching(SyncCollection::Albums, now),
            SyncStage::Tracks => self.fetching(SyncCollection::Tracks, now),
            _ => {},
        }
    }

    fn go_to(&mut self, stage: SyncStage)
        ensures
            final(self).deep_view() == old(self).deep_view().at(stage),
    {
        self.stage = stage;
        self.offset = 0;
        self.page_number = 1;
        self.last_page = false;
    }

    fn note_page(&mut self, item_count: usize, total: usize)
        requires
            old(self).deep_view().wf(),
            old(self).offset + item_count < usize::MAX,
        ensures
            final(self).deep_view() == old(self).deep_view().page_noted(item_count as nat, total),
            final(self).deep_view().wf(),
    {
        self.offset = self.offset + item_count;
        self.last_page = sync_page_finished(item_count, total, self.offset);
        if !self.last_page {
            self.page_number = self.page_number + 1;
        }
    }

    fn tell_page(&mut self, collection: SyncCollection, page_number: usize, total: usize, now: u64)
        ensures
            forall|before: LibrarySyncView|
                before.page_number == page_number ==> final(self).deep_view()
                    == #[trigger] old(self).deep_view().page_told(collection, before, total, now),
    {
        let progress: SyncPageProgress = SyncPageProgress {
            collection,
            page_number,
            fetched: self.offset,
            written: self.offset,
            total: known_sync_total(total),
            finished: self.last_page,
        };
        let status: Option<String> = self.reporter.page_written(progress, now);
        self.say(status);
    }

    fn begin_albums(&mut self, now: u64)
        ensures
            final(self).deep_view() == old(self).deep_view().begin_albums(now),
    {
        self.go_to(SyncStage::Albums);
        self.started(SyncCollection::Albums, now);
        self.fetching(SyncCollection::Albums, now);
    }

    fn begin_tracks(&mut self, now: u64)
        ensures
            final(self).deep_view() == old(self).deep_view().begin_tracks(now),
    {
        self.go_to(SyncStage::Tracks);
        self.started(SyncCollection::Tracks, now);
        self.fetching(SyncCollection::Tracks, now);
    }

    fn begin_folders(&mut self, now: u64)
        ensures
            final(self).deep_view() == old(self).deep_view().begin_folders(now),
    {
        self.go_to(SyncStage::MusicFolders);
        self.started(SyncCollection::MusicFolders, now);
        if !self.has_music_folders {
            self.begin_artists(now);
        }
    }

    fn begin_folder(&mut self, now: u64)
        ensures
            final(self).deep_view() == old(self).deep_view().begin_folder(now),
    {
        assert(self.folders.deep_view().len() == self.folders@.len());
        if self.folders.len() > 0 {
            self.go_to(SyncStage::FolderTracks);
        } else {
            self.begin_artists(now);
        }
    }

    fn begin_artists(&mut self, now: u64)
        ensures
            final(self).deep_view() == old(self).deep_view().begin_artists(now),
    {
        self.go_to(SyncStage::Artists);
        self.started(SyncCollection::Artists, now);
    }

    /// Takes a page of albums.
    pub fn albums_read(
        &mut self,
        store: &mut Store,
        albums: &Vec<Album>,
        total: usize,
        now: u64,
    ) -> (result: Result<(), String>)
        requires
            old(self).deep_view().wf(),
            old(self).stage == SyncStage::Albums,
            old(self).offset + albums@.len() < usize::MAX,
        ensures
            ({
                let before = old(store).deep_view();
                let server_id = old(self).deep_view().saved.server.id;
                let library = before.library(server_id);
                went_on(
                    result,
                    before,
                    final(store).deep_view(),
                    before.with_library(
                        server_id,
                        ServerLibraryView {
                            albums: put_rows::<Album>(library.albums, albums.deep_view()),
                            ..library
                        },
                    ),
                    old(self).deep_view(),
                    final(self).deep_view(),
                    old(self).deep_view().albums_read(albums@.len(), total, now),
                )
            }),
            final(self).deep_view().wf(),
    {
        if let Err(error) = store.upsert_albums(&self.saved.server.id, albums) {
            return Err(error);
        }
        let page_number: usize = self.page_number;
        self.note_page(albums.len(), total);
        self.tell_page(SyncCollection::Albums, page_number, total, now);
        if self.last_page {
            self.begin_tracks(now);
        } else {
            self.fetching(SyncCollection::Albums, now);
        }
        Ok(())
    }

    /// Takes a page of tracks.
    pub fn tracks_read(
        &mut self,
        store: &mut Store,
        tracks: &Vec<Track>,
        total: usize,
        now: u64,
    ) -> (result: Result<(), String>)
        requires
            old(self).deep_view().wf(),
            old(self).stage == SyncStage::Tracks,
            old(self).offset + tracks@.len() < usize::MAX,
        ensures
            went_on(
                result,
                old(store).deep_view(),
                final(store).deep_view(),
                old(store).deep_view().with_tracks(
                    old(self).deep_view().saved.server.id,
                    tracks.deep_view(),
                ),
                old(self).deep_view(),
                final(self).deep_view(),
                old(self).deep_view().tracks_read(tracks@.len(), total, now),
            ),
            final(self).deep_view().wf(),
    {
        if let Err(error) = store.upsert_tracks(&self.saved.server.id, tracks) {
            return Err(error);
        }
        let page_number: usize = self.page_number;
        self.note_page(tracks.len(), total);
        self.tell_page(SyncCollection::Tracks, page_number, total, now);
        if self.last_page {
            self.begin_folders(now);
        } else {
            self.fetching(SyncCollection::Tracks, now);
        }
        Ok(())
    }

    /// Takes the list of music folders.
    pub fn music_folders_read(
        &mut self,
        store: &mut Store,
        folders: &Vec<MusicFolder>,
        now: u64,
    ) -> (result: Result<(), String>)
        requires
            old(self).deep_view().wf(),
            old(self).stage == SyncStage::MusicFolders,
        ensures
            ({
                let before = old(store).deep_view();
                let server_id = old(self).deep_view().saved.server.id;
                let library = before.library(server_id);
                went_on(
                    result,
                    before,
                    final(store).deep_view(),
                    before.with_library(
                        server_id,
                        ServerLibraryView {
                            music_folders: put_rows::<MusicFolder>(
                                library.music_folders,
                                folders.deep_view(),
                            ),
                            ..library
                        },
                    ),
                    old(self).deep_view(),
                    final(self).deep_view(),
                    old(self).deep_view().folders_read(folders.deep_view(), now),
                )
            }),
            final(self).deep_view().wf(),
    {
        if let Err(error) = store.upsert_music_folders(&self.saved.server.id, folders) {
            return Err(error);
        }
        self.folders = keys_of_folders(folders);
        self.begin_folder(now);
        Ok(())
    }

    /// Takes a page of the tracks of a music folder, which are kept as its members.
    pub fn folder_tracks_read(
        &mut self,
        store: &mut Store,
        tracks: &Vec<Track>,
        total: usize,
        now: u64,
    ) -> (result: Result<(), String>)
        requires
            old(self).deep_view().wf(),
            old(self).stage == SyncStage::FolderTracks,
            old(self).offset + tracks@.len() < usize::MAX,
        ensures
            went_on(
                result,
                old(store).deep_view(),
                final(store).deep_view(),
                old(store).deep_view().with_folder_tracks(
                    old(self).deep_view().saved.server.id,
                    old(self).deep_view().folders.first(),
                    tracks.deep_view(),
                ),
                old(self).deep_view(),
                final(self).deep_view(),
                old(self).deep_view().folder_tracks_read(tracks@.len(), total, now),
            ),
            final(self).deep_view().wf(),
    {
        if let Err(error) = store.upsert_tracks(&self.saved.server.id, tracks) {
            return Err(error);
        }
        if let Err(error) = store.upsert_track_music_folder_memberships(
            &self.saved.server.id,
            &self.folders[0],
            tracks,
        ) {
            return Err(error);
        }
        self.note_page(tracks.len(), total);
        if self.last_page {
            let ghost folders = self.folders.deep_view();
            let _read: MusicFolderId = self.folders.remove(0);
            assert(self.folders.deep_view() =~= folders.drop_first());
            self.begin_folder(now);
        }
        Ok(())
    }

    /// Takes a page of artists, or of the artists of albums.
    pub fn artists_read(
        &mut self,
        store: &mut Store,
        artists: &Vec<Artist>,
        total: usize,
        now: u64,
    ) -> (result: Result<(), String>)
        requires
            old(self).deep_view().wf(),
            old(self).stage == SyncStage::Artists || old(self).stage == SyncStage::AlbumArtists,
            old(self).offset + artists@.len() < usize::MAX,
        ensures
            ({
                let before = old(store).deep_view();
                let server_id = old(self).deep_view().saved.server.id;
                let library = before.library(server_id);
                went_on(
                    result,
                    before,
                    final(store).deep_view(),
                    before.with_library(
                        server_id,
                        if old(self).stage == SyncStage::AlbumArtists {
                            ServerLibraryView {
                                album_artists: put_rows::<Artist>(
                                    library.album_artists,
                                    artists.deep_view(),
                                ),
                                ..library
                            }
                        } else {
                            ServerLibraryView {
                                artists: put_rows::<Artist>(library.artists, artists.deep_view()),
                                ..library
                            }
                        },
                    ),
                    old(self).deep_view(),
                    final(self).deep_view(),
                    old(self).deep_view().artists_read(artists@.len(), total, now),
                )
            }),
            final(self).deep_view().wf(),
    {
        let of_albums: bool = self.stage == SyncStage::AlbumArtists;
        if let Err(error) = store.upsert_artists(&self.saved.server.id, artists, of_albums) {
            return Err(error);
        }
        self.note_page(artists.len(), total);
        if self.last_page {
            if of_albums {
                self.go_to(SyncStage::Genres);
                self.started(SyncCollection::Genres, now);
            } else {
                self.go_to(SyncStage::AlbumArtists);
                self.started(SyncCollection::AlbumArtists, now);
            }
        }
        Ok(())
    }

    /// Takes a page of genres.
    pub fn genres_read(
        &mut self,
        store: &mut Store,
        genres: &Vec<Genre>,
        total: usize,
        now: u64,
    ) -> (result: Result<(), String>)
        requires
            old(self).deep_view().wf(),
            old(self).stage == SyncStage::Genres,
            old(self).offset + genres@.len() < usize::MAX,
        ensures
            ({
                let before = old(store).deep_view();
                let server_id = old(self).deep_view().saved.server.id;
                let library = before.library(server_id);
                went_on(
                    result,
                    before,
                    final(store).deep_view(),
                    before.with_library(
                        server_id,
                        ServerLibraryView {
                            genres: put_rows::<Genre>(library.genres, genres.deep_view()),
                            ..library
                        },
                    ),
                    old(self).deep_view(),
                    final(self).deep_view(),
                    old(self).deep_view().genres_read(genres@.len(), total, now),
                )
            }),
            final(self).deep_view().wf(),
    {
        if let Err(error) = store.upsert_genres(&self.saved.server.id, genres) {
            return Err(error);
        }
        self.note_page(genres.len(), total);
        if self.last_page {
            self.go_to(SyncStage::Playlists);
            self.started(SyncCollection::Playlists, now);
        }
        Ok(())
    }

    fn next_playlist(&mut self, now: u64)
        requires
            old(self).deep_view().wf(),
        ensures
            final(self).deep_view() == old(self).deep_view().next_playlist(now),
            final(self).deep_view().wf(),
    {
        assert(self.pending.deep_view().len() == self.pending@.len());
        if self.pending.len() > 0 {
            self.stage = SyncStage::PlaylistDetails;
        } else if !self.last_page {
            self.stage = SyncStage::Playlists;
        } else if self.playlists_only {
            self.go_to(SyncStage::Finished);
        } else {
            self.go_to(SyncStage::HomeSections);
            self.started(SyncCollection::HomeSections, now);
        }
    }

    fn end_playlists(&self, store: &mut Store)
        requires
            old(store).deep_view().fault is None,
        ensures
            final(store).deep_view() == old(store).deep_view().with_playlists_ended(
                self.deep_view(),
            ),
            old(store).deep_view().wf() ==> final(store).deep_view().wf(),
    {
        assert(self.pending.deep_view().len() == self.pending@.len());
        if self.pending.len() == 0 && self.last_page && self.playlists_only {
            let _kept: Result<(), String> = store.prune_playlists_except(
                &self.saved.server.id,
                &self.seen,
            );
        }
    }

    fn see(&mut self, playlists: &Vec<Playlist>)
        ensures
            final(self).deep_view() == (LibrarySyncView {
                seen: old(self).deep_view().seen + playlist_keys(playlists.deep_view()),
                ..old(self).deep_view()
            }),
    {
        let ghost all = playlists.deep_view();
        let ghost before = self.deep_view();
        let mut i: usize = 0;
        assert(before.seen + playlist_keys(all.take(0)) =~= before.seen);
        while i < playlists.len()
            invariant
                i <= playlists@.len(),
                all == playlists.deep_view(),
                self.deep_view() == (LibrarySyncView {
                    seen: before.seen + playlist_keys(all.take(i as int)),
                    ..before
                }),
            decreases playlists.len() - i,
        {
            let ghost seen = self.seen.deep_view();
            let key: String = playlists[i].id.value.copy();
            assert(key@ == all[i as int].id);
            self.seen.push(key);
            assert(self.seen.deep_view() =~= seen.push(key@));
            assert(seen.push(key@) =~= before.seen + playlist_keys(all.take(i + 1)));
            i += 1;
        }
        assert(all.take(i as int) =~= all);
    }

    /// Takes a page of playlists.
    pub fn playlists_read(
        &mut self,
        store: &mut Store,
        playlists: &Vec<Playlist>,
        total: usize,
        now: u64,
    ) -> (result: Result<(), String>)
        requires
            old(self).deep_view().wf(),
            old(self).stage == SyncStage::Playlists,
            old(self).offset + playlists@.len() < usize::MAX,
        ensures
            ({
                let noted = old(self).deep_view().playlists_noted(playlists.deep_view(), total);
                went_on(
                    result,
                    old(store).deep_view(),
                    final(store).deep_view(),
                    old(store).deep_view().with_playlists_read(
                        old(self).deep_view().saved.server.id,
                        playlists.deep_view(),
                    ).with_playlists_ended(noted),
                    old(self).deep_view(),
                    final(self).deep_view(),
                    noted.next_playlist(now),
                )
            }),
            final(self).deep_view().wf(),
    {
        if let Err(error) = store.upsert_playlists(&self.saved.server.id, playlists) {
            return Err(error);
        }
        self.note_page(playlists.len(), total);
        self.pending = keys_of_playlists(playlists);
        self.see(playlists);
        self.end_playlists(store);
        self.next_playlist(now);
        Ok(())
    }

    /// Takes the entries of a playlist, and their tracks.
    pub fn playlist_read(
        &mut self,
        store: &mut Store,
        playlist_id: &PlaylistId,
        tracks: &Vec<Track>,
        entries: &Vec<PlaylistEntry>,
        now: u64,
    ) -> (result: Result<(), String>)
        requires
            old(self).deep_view().wf(),
            old(self).stage == SyncStage::PlaylistDetails,
        ensures
            ({
                let noted = old(self).deep_view().playlist_noted();
                went_on(
                    result,
                    old(store).deep_view(),
                    final(store).deep_view(),
                    old(store).deep_view().with_entries_read(
                        old(self).deep_view().saved.server.id,
                        playlist_id.deep_view(),
                        tracks.deep_view(),
                        entries.deep_view(),
                    ).with_playlists_ended(noted),
                    old(self).deep_view(),
                    final(self).deep_view(),
                    noted.next_playlist(now),
                )
            }),
            final(self).deep_view().wf(),
    {
        if let Err(error) = store.upsert_tracks(&self.saved.server.id, tracks) {
            return Err(error);
        }
        if let Err(error) = store.upsert_playlist_entries(
            &self.saved.server.id,
            playlist_id,
            entries,
        ) {
            return Err(error);
        }
        let ghost pending = self.pending.deep_view();
        assert(pending.len() == self.pending@.len());
        let _read: PlaylistId = self.pending.remove(0);
        assert(self.pending.deep_view() =~= pending.drop_first());
        self.end_playlists(store);
        self.stage = SyncStage::Playlists;
        self.next_playlist(now);
        Ok(())
    }

    /// Takes the sections of the home page; the library was read with them.
    pub fn home_sections_read(
        &mut self,
        store: &mut Store,
        sections: &Vec<HomeSection>,
        now: u64,
    ) -> (result: Result<(), String>)
        requires
            old(self).deep_view().wf(),
            old(self).stage == SyncStage::HomeSections,
        ensures
            ({
                let saved = old(self).deep_view().saved;
                went_on(
                    result,
                    old(store).deep_view(),
                    final(store).deep_view(),
                    old(store).deep_view().with_sections(saved, sections.deep_view()).synced(
                        saved.server.id,
                        old(self).deep_view().generation,
                    ),
                    old(self).deep_view(),
                    final(self).deep_view(),
                    old(self).deep_view().home_read(now),
                )
            }),
            final(self).deep_view().wf(),
    {
        if let Err(error) = store.check() {
            return Err(error);
        }
        keep_sections(store, &self.saved, sections);
        let finalizing: Option<String> = self.reporter.finalizing(now);
        self.say(finalizing);
        proof {
            lemma_sections_keep_the_fault(
                old(store).deep_view(),
                self.saved.deep_view(),
                sections.deep_view(),
            );
        }
        let completed: Result<(), String> = store.complete_sync(
            &self.saved.server.id,
            self.generation,
        );
        assert(completed is Ok);
        let finished: Option<String> = self.reporter.finished(now);
        self.say(finished);
        self.go_to(SyncStage::Finished);
        completed
    }
}

/// Sections of the home page are kept without a fault where there was none.
pub proof fn lemma_sections_keep_the_fault(
    store: StoreView,
    saved: SavedServerView,
    sections: Seq<HomeSectionView>,
)
    ensures
        store.with_sections(saved, sections).fault == store.fault,
    decreases sections.len(),
{
    if sections.len() > 0 {
        lemma_sections_keep_the_fault(store, saved, sections.drop_last());
    }
}

/// Rows read in two pages are kept like those read at once.
pub proof fn pages_add_up<T: Keyed>(
    rows: Seq<T::V>,
    first: Seq<T::V>,
    second: Seq<T::V>,
)
    ensures
        put_rows::<T>(put_rows::<T>(rows, first), second) == put_rows::<T>(rows, first + second),
    decreases second.len(),
{
    if second.len() == 0 {
        assert(first + second =~= first);
    } else {
        pages_add_up::<T>(rows, first, second.drop_last());
        assert((first + second).drop_last() =~= first + second.drop_last());
        assert((first + second).last() == second.last());
    }
}

/// A page that was not the last had items, and is followed by the page right behind it.
pub proof fn pages_are_read_in_order(
    sync: LibrarySyncView,
    item_count: nat,
    total: usize,
    now: u64,
)
    requires
        sync.wf(),
        sync.offset + item_count < usize::MAX,
        !sync.page_noted(item_count, total).last_page,
    ensures
        item_count > 0,
        ({
            let offset = (sync.offset + item_count) as usize;
            match sync.stage {
                SyncStage::Albums => sync.albums_read(item_count, total, now).request() == (
                SyncRequestView::Albums { offset, limit: PAGE_SIZE }),
                SyncStage::Tracks => sync.tracks_read(item_count, total, now).request() == (
                SyncRequestView::Tracks { offset, limit: PAGE_SIZE }),
                SyncStage::FolderTracks => sync.folder_tracks_read(
                    item_count,
                    total,
                    now,
                ).request() == (SyncRequestView::FolderTracks {
                    folder_id: sync.folders.first(),
                    offset,
                    limit: PAGE_SIZE,
                }),
                SyncStage::Artists => sync.artists_read(item_count, total, now).request() == (
                SyncRequestView::Artists { offset, limit: PAGE_SIZE }),
                SyncStage::AlbumArtists => sync.artists_read(item_count, total, now).request() == (
                SyncRequestView::AlbumArtists { offset, limit: PAGE_SIZE }),
                SyncStage::Genres => sync.genres_read(item_count, total, now).request() == (
                SyncRequestView::Genres { offset, limit: PAGE_SIZE }),
                _ => true,
            }
        }),
{
}

/// The place of a stage in the reading of a library.
pub open spec fn stage_rank(stage: SyncStage) -> nat {
    match stage {
        SyncStage::Albums => 0,
        SyncStage::Tracks => 1,
        SyncStage::MusicFolders => 2,
        SyncStage::FolderTracks => 3,
        SyncStage::Artists => 4,
        SyncStage::AlbumArtists => 5,
        SyncStage::Genres => 6,
        SyncStage::Playlists => 7,
        SyncStage::PlaylistDetails => 7,
        SyncStage::HomeSections => 8,
        SyncStage::Finished => 9,
    }
}

/// Whether the reading went forward: to a later stage, behind more items, to the next music
/// folder or to the next playlist.
pub open spec fn went_forward(before: LibrarySyncView, after: LibrarySyncView) -> bool {
    ||| stage_rank(after.stage) > stage_rank(before.stage)
    ||| stage_rank(after.stage) == stage_rank(before.stage) && (after.offset > before.offset
        || after.folders.len() < before.folders.len() || after.pending.len()
        < before.pending.len())
}

/// Each answer takes the reading forward, so that it comes to an end where the pages do.
pub proof fn reading_goes_forward(
    sync: LibrarySyncView,
    item_count: nat,
    playlists: Seq<PlaylistView>,
    folders: Seq<MusicFolderView>,
    total: usize,
    now: u64,
)
    requires
        sync.wf(),
        sync.offset + item_count < usize::MAX,
        sync.offset + playlists.len() < usize::MAX,
    ensures
        sync.stage == SyncStage::Albums ==> went_forward(
            sync,
            sync.albums_read(item_count, total, now),
        ),
        sync.stage == SyncStage::Tracks ==> went_forward(
            sync,
            sync.tracks_read(item_count, total, now),
        ),
        sync.stage == SyncStage::MusicFolders ==> went_forward(
            sync,
            sync.folders_read(folders, now),
        ),
        sync.stage == SyncStage::FolderTracks ==> went_forward(
            sync,
            sync.folder_tracks_read(item_count, total, now),
        ),
        sync.stage == SyncStage::Artists || sync.stage == SyncStage::AlbumArtists ==> went_forward(
            sync,
            sync.artists_read(item_count, total, now),
        ),
        sync.stage == SyncStage::Genres ==> went_forward(
            sync,
            sync.genres_read(item_count, total, now),
        ),
        sync.stage == SyncStage::Playlists ==> went_forward(
            sync,
            sync.playlists_noted(playlists, total).next_playlist(now),
        ),
        sync.stage == SyncStage::PlaylistDetails ==> went_forward(
            sync,
            sync.playlist_noted().next_playlist(now),
        ),
        sync.stage == SyncStage::HomeSections ==> went_forward(sync, sync.home_read(now)),
{
}

/// Once a page of a music folder was read, the members kept of the folder are those that it had
/// and the tracks of the page, the members of the other folders are as they were, and the
/// tracks themselves are kept.
pub proof fn folder_tracks_are_read_back(
    store: StoreView,
    server_id: Seq<char>,
    folder_id: Seq<char>,
    tracks: Seq<TrackView>,
    member: FolderMemberView,
)
    ensures
        ({
            let before = store.library(server_id);
            let after = store.with_folder_tracks(server_id, folder_id, tracks).library(server_id);
            &&& after.folder_members.contains(member) <==> before.folder_members.contains(member)
                || (member.folder_id == folder_id && exists|i: int|
                0 <= i < tracks.len() && (#[trigger] tracks[i]).id == member.track_id)
            &&& before.folder_members.no_duplicates() ==> after.folder_members.no_duplicates()
            &&& after.tracks == put_rows::<Track>(before.tracks, tracks)
        }),
{
    let library = store.library(server_id);
    let first = ServerLibraryView {
        tracks: put_rows::<Track>(library.tracks, tracks),
        ..library
    };
    lemma_row_place::<ServerLibrary>(store.libraries, server_id);
    put_row_is_found::<ServerLibrary>(store.libraries, first);
    let written = store.with_tracks(server_id, tracks);
    let second = ServerLibraryView {
        folder_members: with_members(first.folder_members, folder_id, tracks),
        ..first
    };
    put_row_is_found::<ServerLibrary>(written.libraries, second);
    members_are_read_back(library.folder_members, folder_id, tracks, member);
}

/// A library that was read is at rest, and nothing is known to have failed.
pub proof fn read_libraries_are_at_rest(store: StoreView, server_id: Seq<char>, generation: u64)
    ensures
        store.synced(server_id, generation).library(server_id).sync == (SyncStateView {
            status: "idle"@,
            generation,
            error: None,
        }),
{
    lemma_row_place::<ServerLibrary>(store.libraries, server_id);
    put_row_is_found::<ServerLibrary>(
        store.libraries,
        store.library(server_id).with_sync("idle"@, generation, None),
    );
}

/// The playlists that were seen are the ones that are left, where they alone were read.
pub proof fn only_seen_playlists_are_left(
    store: StoreView,
    server_id: Seq<char>,
    seen: Seq<Seq<char>>,
    i: int,
)
    requires
        0 <= i < store.without_unseen_playlists(server_id, seen).library(server_id).playlists.len(),
    ensures
        seen.contains(
            store.without_unseen_playlists(server_id, seen).library(server_id).playlists[i].id,
        ),
{
    let library = store.library(server_id);
    let kept = ServerLibraryView {
        playlists: rows_with_keys::<Playlist>(library.playlists, seen),
        playlist_rows: rows_with_keys::<PlaylistRows>(library.playlist_rows, seen),
        ..library
    };
    lemma_row_place::<ServerLibrary>(store.libraries, server_id);
    put_row_is_found::<ServerLibrary>(store.libraries, kept);
    lemma_rows_have_keys::<Playlist>(library.playlists, seen, i);
}

/// A library is read part by part: after the albums the tracks, after these the music folders
/// and the tracks of each where the server has folders, after these the artists, the artists of
/// albums, the genres, the playlists with the entries of each, and the sections of the home page
/// last. Each part begins with its first page.
pub proof fn libraries_are_read_part_by_part(
    sync: LibrarySyncView,
    item_count: nat,
    folders: Seq<MusicFolderView>,
    total: usize,
    now: u64,
)
    requires
        sync.wf(),
        sync.offset + item_count < usize::MAX,
        sync.page_noted(item_count, total).last_page,
    ensures
        sync.stage == SyncStage::Albums ==> sync.albums_read(item_count, total, now).request() == (
        SyncRequestView::Tracks { offset: 0, limit: 500 }),
        sync.stage == SyncStage::Tracks && sync.has_music_folders ==> sync.tracks_read(
            item_count,
            total,
            now,
        ).request() == SyncRequestView::MusicFolders,
        sync.stage == SyncStage::Tracks && !sync.has_music_folders ==> sync.tracks_read(
            item_count,
            total,
            now,
        ).request() == (SyncRequestView::Artists { offset: 0, limit: 500 }),
        sync.stage == SyncStage::MusicFolders && folders.len() > 0 ==> sync.folders_read(
            folders,
            now,
        ).request() == (SyncRequestView::FolderTracks {
            folder_id: folders[0].id,
            offset: 0,
            limit: 500,
        }),
        sync.stage == SyncStage::MusicFolders && folders.len() == 0 ==> sync.folders_read(
            folders,
            now,
        ).request() == (SyncRequestView::Artists { offset: 0, limit: 500 }),
        sync.stage == SyncStage::FolderTracks && sync.folders.len() > 1 ==> sync.folder_tracks_read(
            item_count,
            total,
            now,
        ).request() == (SyncRequestView::FolderTracks {
            folder_id: sync.folders[1],
            offset: 0,
            limit: 500,
        }),
        sync.stage == SyncStage::FolderTracks && sync.folders.len() == 1
            ==> sync.folder_tracks_read(item_count, total, now).request() == (
        SyncRequestView::Artists { offset: 0, limit: 500 }),
        sync.stage == SyncStage::Artists ==> sync.artists_read(item_count, total, now).request()
            == (SyncRequestView::AlbumArtists { offset: 0, limit: 500 }),
        sync.stage == SyncStage::AlbumArtists ==> sync.artists_read(
            item_count,
            total,
            now,
        ).request() == (SyncRequestView::Genres { offset: 0, limit: 500 }),
        sync.stage == SyncStage::Genres ==> sync.genres_read(item_count, total, now).request() == (
        SyncRequestView::Playlists { offset: 0, limit: 500 }),
        sync.stage == SyncStage::HomeSections ==> sync.home_read(now).request()
            == SyncRequestView::Nothing,
{
}

/// Of a page of playlists the entries of each are asked for, in their order; after the last of
/// them comes the next page, or the home page where there is none, or nothing where playlists
/// alone are read. All that were seen are noted.
pub proof fn playlists_are_read_one_by_one(
    sync: LibrarySyncView,
    playlists: Seq<PlaylistView>,
    total: usize,
    now: u64,
)
    requires
        sync.wf(),
        sync.offset + playlists.len() < usize::MAX,
    ensures
        ({
            let noted = sync.playlists_noted(playlists, total);
            let next = noted.next_playlist(now);
            &&& noted.seen == sync.seen + Seq::new(playlists.len(), |i: int| playlists[i].id)
            &&& playlists.len() > 0 ==> next.request() == SyncRequestView::PlaylistDetail(
                playlists[0].id,
            )
            &&& playlists.len() == 0 && noted.last_page && !sync.playlists_only ==> next.request()
                == SyncRequestView::HomeSections
            &&& playlists.len() == 0 && noted.last_page && sync.playlists_only ==> next.request()
                == SyncRequestView::Nothing
            &&& playlists.len() > 1 ==> noted.playlist_noted().next_playlist(now).request()
                == SyncRequestView::PlaylistDetail(playlists[1].id)
            &&& playlists.len() == 1 && !noted.last_page
                ==> noted.playlist_noted().next_playlist(now).request() == (
            SyncRequestView::Playlists {
                offset: (sync.offset + playlists.len()) as usize,
                limit: 500,
            })
        }),
{
    let noted = sync.playlists_noted(playlists, total);
    if playlists.len() > 1 {
        assert(noted.pending.drop_first()[0] == playlists[1].id);
    }
}

} // verus!
