//! Commands that change what is kept of a library, and that look things up in it.

use crate::cached_reads::{
    active_settings, load_settings_for_active_server, load_settings_for_saved, load_snapshot,
    reconciled, snapshot_of, source_settings,
};
use crate::controller::cached_library::{kept_playlist, load_playlist_detail};
use crate::controller::sync_commands::NO_SERVER;
use crate::controller::{AppController, ControllerView};
use crate::external_metadata::{
    normalize_search_results, normalize_tracks, normalized_search_results, normalized_tracks,
};
use crate::local_access::LOCAL_PROVIDER_ID;
use crate::model::events::{
    ControllerEvent, ControllerEventView, Effect, EffectView, FavoriteItemId, FavoriteItemIdView,
    FolderDetail, FolderDetailView, FolderPathItem, FolderPathItemView, PlaylistEdit,
    PlaylistEditView,
};
use crate::model::ids::{AlbumId, ArtistId, MusicFolderId, PlaylistId, ServerId, TrackId};
use crate::model::library::{
    Playlist, PlaylistDetail, PlaylistDetailView, PlaylistEntry, PlaylistEntryView, PlaylistView,
    Track, TrackView,
};
use crate::model::playback::PlaybackSnapshotView;
use crate::model::queue::{QueueEntryView, QueueSnapshot};
use crate::model::snapshot::LibrarySnapshotView;
use crate::model::source::{SavedServer, SavedServerView};
use crate::model::store::{PlaylistRows, PlaylistRowsView, ServerLibraryView, Store, StoreView};
use crate::playlists::{
    move_entry, mutation_of, new_entries, playlist_entries_for_tracks, playlist_mutation,
    remove_entry, summarize, summarized, with_entry_at, without_entry,
};
use crate::search::{search_library, search_of};
use crate::store::{album_favorite, artist_favorite, playlist_renamed, track_favorite, wrote};
use crate::table::{put_row, put_rows};
use crate::text;
use crate::value::Value;
use vstd::prelude::*;

verus! {

/// What is told where a playlist is not kept.
pub const NO_PLAYLIST: &'static str = "The selected cached playlist was not found.";

/// What is told where a folder is asked for and no source is shown.
pub const NO_FOLDER_SERVER: &'static str = "No active server.";

/// Whether a source is changed here alone, with nothing to be told to a server.
pub open spec fn is_kept_here(saved: SavedServerView) -> bool {
    saved.server.provider == "fake"@ || saved.server.provider == LOCAL_PROVIDER_ID@
}

fn kept_here(saved: &SavedServer) -> (result: bool)
    ensures
        result == is_kept_here(saved.deep_view()),
{
    saved.server.provider.same(&text::owned("fake")) || saved.server.provider.same(
        &text::owned(LOCAL_PROVIDER_ID),
    )
}

/// The entries of a playlist after a change.
pub open spec fn edited_entries(
    playlist_id: Seq<char>,
    entries: Seq<PlaylistEntryView>,
    edit: PlaylistEditView,
) -> Seq<PlaylistEntryView> {
    match edit {
        PlaylistEditView::Add { prefix, tracks } => entries + new_entries(
            playlist_id,
            prefix,
            tracks,
        ),
        PlaylistEditView::Remove { entry_id } => without_entry(entries, entry_id),
        PlaylistEditView::Move { entry_id, new_index } => with_entry_at(
            entries,
            entry_id,
            new_index,
        ),
    }
}

/// Changes the entries of a playlist.
pub fn edit_entries(
    playlist_id: &PlaylistId,
    entries: &Vec<PlaylistEntry>,
    edit: &PlaylistEdit,
) -> (result: Vec<PlaylistEntry>)
    ensures
        result.deep_view() == edited_entries(
            playlist_id.deep_view(),
            entries.deep_view(),
            edit.deep_view(),
        ),
{
    match edit {
        PlaylistEdit::Add { prefix, tracks } => {
            let mut result: Vec<PlaylistEntry> = entries.copy();
            let mut added: Vec<PlaylistEntry> = playlist_entries_for_tracks(
                playlist_id,
                *prefix,
                tracks,
            );
            let ghost kept = result.deep_view();
            let ghost new = added.deep_view();
            result.append(&mut added);
            assert(result.deep_view() =~= kept + new);
            result
        },
        PlaylistEdit::Remove { entry_id } => remove_entry(entries, entry_id),
        PlaylistEdit::Move { entry_id, new_index } => {
            let mut result: Vec<PlaylistEntry> = entries.copy();
            move_entry(&mut result, entry_id, *new_index);
            result
        },
    }
}

fn tracks_of(entries: &Vec<PlaylistEntry>) -> (result: Vec<Track>)
    ensures
        result.deep_view() == crate::controller::cached_library::tracks_of_entries(
            entries.deep_view(),
        ),
{
    let ghost expected = crate::controller::cached_library::tracks_of_entries(entries.deep_view());
    let mut result: Vec<Track> = Vec::new();
    let mut i: usize = 0;
    assert(result.deep_view() =~= expected.take(0));
    while i < entries.len()
        invariant
            i <= entries@.len(),
            expected == crate::controller::cached_library::tracks_of_entries(entries.deep_view()),
            result.deep_view() == expected.take(i as int),
        decreases entries.len() - i,
    {
        let ghost before = result.deep_view();
        let track: Track = entries[i].track.copy();
        assert(track.deep_view() == expected[i as int]);
        result.push(track);
        assert(result.deep_view() =~= before.push(expected[i as int]));
        assert(expected.take(i + 1) =~= before.push(expected[i as int]));
        i += 1;
    }
    assert(expected.take(i as int) =~= expected);
    result
}

/// The playlist that tracks become under a name.
pub open spec fn new_playlist(
    playlist_id: Seq<char>,
    name: Seq<char>,
    entries: Seq<PlaylistEntryView>,
) -> PlaylistView {
    summarized(
        PlaylistView {
            id: playlist_id,
            name: text::trimmed(name),
            track_count: 0,
            duration_seconds: 0,
            image_refs: Seq::empty(),
            image_ref: None,
        },
        entries,
    )
}

/// The identifier of a playlist that no server gave one.
pub open spec fn own_playlist_id(unique: u64) -> Seq<char> {
    "fake:playlist:"@ + text::decimal(unique as nat)
}

impl StoreView {
    /// The store with an item of a source marked, or not, as a favorite.
    #[verifier::opaque]
    pub open spec fn with_favorite(
        self,
        server_id: Seq<char>,
        item_id: FavoriteItemIdView,
        favorite: bool,
    ) -> StoreView {
        let library = self.library(server_id);
        self.with_library(
            server_id,
            match item_id {
                FavoriteItemIdView::Album(id) => ServerLibraryView {
                    albums: library.albums.map_values(album_favorite(id, favorite)),
                    ..library
                },
                FavoriteItemIdView::Track(id) => ServerLibraryView {
                    tracks: library.tracks.map_values(track_favorite(id, favorite)),
                    ..library
                },
                FavoriteItemIdView::Artist(id) => ServerLibraryView {
                    artists: library.artists.map_values(artist_favorite(id, favorite)),
                    album_artists: library.album_artists.map_values(artist_favorite(id, favorite)),
                    ..library
                },
            },
        )
    }

    /// The store with a playlist of a source under another name.
    #[verifier::opaque]
    pub open spec fn with_renamed_playlist(
        self,
        server_id: Seq<char>,
        playlist_id: Seq<char>,
        name: Seq<char>,
    ) -> StoreView {
        let library = self.library(server_id);
        self.with_library(
            server_id,
            ServerLibraryView {
                playlists: library.playlists.map_values(playlist_renamed(playlist_id, name)),
                ..library
            },
        )
    }

    /// The store with a playlist of a source.
    pub open spec fn with_playlist_row(
        self,
        server_id: Seq<char>,
        playlist: PlaylistView,
    ) -> StoreView {
        let library = self.library(server_id);
        self.with_library(
            server_id,
            ServerLibraryView {
                playlists: put_rows::<Playlist>(library.playlists, seq![playlist]),
                ..library
            },
        )
    }

    /// The store with tracks of a source.
    pub open spec fn with_tracks(self, server_id: Seq<char>, tracks: Seq<TrackView>) -> StoreView {
        let library = self.library(server_id);
        self.with_library(
            server_id,
            ServerLibraryView { tracks: put_rows::<Track>(library.tracks, tracks), ..library },
        )
    }

    /// The store with the entries of a playlist of a source.
    pub open spec fn with_entries(
        self,
        server_id: Seq<char>,
        playlist_id: Seq<char>,
        entries: Seq<PlaylistEntryView>,
    ) -> StoreView {
        let library = self.library(server_id);
        self.with_library(
            server_id,
            ServerLibraryView {
                playlist_rows: put_row::<PlaylistRows>(
                    library.playlist_rows,
                    PlaylistRowsView { playlist_id, entries },
                ),
                ..library
            },
        )
    }

    /// The store with a playlist of a source, its entries and their tracks.
    #[verifier::opaque]
    pub open spec fn with_playlist(
        self,
        server_id: Seq<char>,
        playlist: PlaylistView,
        tracks: Seq<TrackView>,
        entries: Seq<PlaylistEntryView>,
    ) -> StoreView {
        self.with_playlist_row(server_id, playlist).with_tracks(server_id, tracks).with_entries(
            server_id,
            playlist.id,
            entries,
        )
    }

    /// The store with another music folder of a source shown.
    #[verifier::opaque]
    pub open spec fn with_music_folder(
        self,
        server_id: Seq<char>,
        folder_id: Option<Seq<char>>,
    ) -> StoreView {
        self.with_library(
            server_id,
            ServerLibraryView { selected_music_folder_id: folder_id, ..self.library(server_id) },
        )
    }
}

fn keep_favorite(store: &mut Store, server_id: &ServerId, item_id: &FavoriteItemId, favorite: bool)
    -> (result: Result<(), String>)
    ensures
        wrote(
            result,
            old(store).deep_view(),
            final(store).deep_view(),
            old(store).deep_view().with_favorite(
                server_id.deep_view(),
                item_id.deep_view(),
                favorite,
            ),
        ),
{
    reveal(StoreView::with_favorite);
    match item_id {
        FavoriteItemId::Album(id) => store.set_album_favorite(server_id, id, favorite),
        FavoriteItemId::Track(id) => store.set_track_favorite(server_id, id, favorite),
        FavoriteItemId::Artist(id) => store.set_artist_favorite(server_id, id, favorite),
    }
}

fn keep_playlist(
    store: &mut Store,
    server_id: &ServerId,
    playlist: Playlist,
    tracks: &Vec<Track>,
    entries: &Vec<PlaylistEntry>,
) -> (result: Result<(), String>)
    ensures
        wrote(
            result,
            old(store).deep_view(),
            final(store).deep_view(),
            old(store).deep_view().with_playlist(
                server_id.deep_view(),
                playlist.deep_view(),
                tracks.deep_view(),
                entries.deep_view(),
            ),
        ),
{
    reveal(StoreView::with_playlist);
    let ghost row = playlist.deep_view();
    let playlist_id: PlaylistId = playlist.id.copy();
    let mut playlists: Vec<Playlist> = Vec::new();
    playlists.push(playlist);
    assert(playlists.deep_view() =~= seq![row]);
    if let Err(error) = store.upsert_playlists(server_id, &playlists) {
        return Err(error);
    }
    let _kept: Result<(), String> = store.upsert_tracks(server_id, tracks);
    store.upsert_playlist_entries(server_id, &playlist_id, entries)
}

impl ControllerView {
    /// With the current track of the player marked, or not, as a favorite, where it is this one.
    #[verifier::opaque]
    pub open spec fn mark_player(self, track_id: Seq<char>, favorite: bool) -> ControllerView {
        match self.playback_snapshot.current {
            Some(entry) => if entry.track_id == track_id {
                self.with_player(
                    PlaybackSnapshotView {
                        current: Some(QueueEntryView { favorite, ..entry }),
                        ..self.playback_snapshot
                    },
                ).emit_player()
            } else {
                self
            },
            None => self,
        }
    }

    /// With a track of the queue marked, or not, as a favorite.
    #[verifier::opaque]
    pub open spec fn mark_queue(self, track_id: Seq<char>, favorite: bool) -> ControllerView {
        match self.queue {
            Some(queue) => {
                let marked = queue.with_favorite(track_id, favorite);
                self.with_queue(marked).with_store(
                    if self.store.fault is Some {
                        self.store
                    } else {
                        self.store.with_queue(marked.snapshot())
                    },
                ).emit(ControllerEventView::Queue(Some(marked.snapshot())))
            },
            None => self,
        }
    }

    /// With a changed favorite told, along with the library.
    #[verifier::opaque]
    pub open spec fn show_favorite(self, item_id: FavoriteItemIdView, favorite: bool)
        -> ControllerView {
        match self.store.fault {
            Some(fault) => self.fail(fault),
            None => self.with_store(reconciled(self.store)).emit(
                ControllerEventView::FavoriteChanged {
                    item_id,
                    favorite,
                    snapshot: snapshot_of(reconciled(self.store)),
                },
            ),
        }
    }

    /// With an item of a source marked, or not, as a favorite: in the library, and a track in
    /// the queue and the player too.
    #[verifier::opaque]
    pub open spec fn favorite_set(
        self,
        saved: SavedServerView,
        item_id: FavoriteItemIdView,
        favorite: bool,
    ) -> ControllerView {
        match self.store.fault {
            Some(fault) => self.fail(fault),
            None => {
                let kept = self.with_store(
                    self.store.with_favorite(saved.server.id, item_id, favorite),
                );
                (match item_id {
                    FavoriteItemIdView::Track(id) => kept.mark_queue(id, favorite).mark_player(
                        id,
                        favorite,
                    ),
                    _ => kept,
                }).show_favorite(item_id, favorite)
            },
        }
    }

    /// With an item marked, or not, as a favorite. A server is told first.
    #[verifier::opaque]
    pub open spec fn set_favorite(self, item_id: FavoriteItemIdView, favorite: bool)
        -> ControllerView {
        match self.store.shown() {
            None => self.fail(NO_SERVER@),
            Some(saved) => if is_kept_here(saved) {
                self.favorite_set(saved, item_id, favorite)
            } else {
                self.ask(EffectView::SetFavorite { saved, item_id, favorite })
            },
        }
    }

    /// With a new playlist kept.
    #[verifier::opaque]
    pub open spec fn playlist_created(
        self,
        saved: SavedServerView,
        playlist_id: Seq<char>,
        name: Seq<char>,
        tracks: Seq<TrackView>,
        unique: u64,
    ) -> ControllerView {
        let entries = new_entries(playlist_id, unique, tracks);
        match self.store.fault {
            Some(fault) => self.fail(fault),
            None => self.with_store(
                self.store.with_playlist(
                    saved.server.id,
                    new_playlist(playlist_id, name, entries),
                    tracks,
                    entries,
                ),
            ).show_library(),
        }
    }

    /// With a new playlist, that a server is asked for first.
    #[verifier::opaque]
    pub open spec fn create_playlist(
        self,
        name: Seq<char>,
        tracks: Seq<TrackView>,
        unique: u64,
    ) -> ControllerView {
        match self.store.shown() {
            None => self.fail(NO_SERVER@),
            Some(saved) => if saved.server.provider == "fake"@ {
                self.playlist_created(saved, own_playlist_id(unique), name, tracks, unique)
            } else {
                self.ask(EffectView::CreatePlaylist { saved, name, tracks })
            },
        }
    }

    /// With a playlist kept under another name.
    #[verifier::opaque]
    pub open spec fn playlist_renamed(
        self,
        saved: SavedServerView,
        playlist_id: Seq<char>,
        name: Seq<char>,
    ) -> ControllerView {
        match self.store.fault {
            Some(fault) => self.fail(fault),
            None => self.with_store(
                self.store.with_renamed_playlist(
                    saved.server.id,
                    playlist_id,
                    text::trimmed(name),
                ),
            ).show_library(),
        }
    }

    /// With a playlist renamed, which a server is told first.
    #[verifier::opaque]
    pub open spec fn rename_playlist(self, playlist_id: Seq<char>, name: Seq<char>)
        -> ControllerView {
        match self.store.shown() {
            None => self.fail(NO_SERVER@),
            Some(saved) => if is_kept_here(saved) {
                self.playlist_renamed(saved, playlist_id, name)
            } else {
                self.ask(EffectView::RenamePlaylist { saved, playlist_id, name })
            },
        }
    }

    /// With a changed playlist told, along with the library.
    #[verifier::opaque]
    pub open spec fn show_playlist(self, playlist_id: Seq<char>) -> ControllerView {
        match self.store.fault {
            Some(fault) => self.fail(fault),
            None => self.with_store(reconciled(self.store)).emit(
                ControllerEventView::PlaylistChanged {
                    playlist_id,
                    snapshot: snapshot_of(reconciled(self.store)),
                },
            ),
        }
    }

    /// With a changed playlist kept.
    #[verifier::opaque]
    pub open spec fn playlist_changed(self, saved: SavedServerView, detail: PlaylistDetailView)
        -> ControllerView {
        match self.store.fault {
            Some(fault) => self.fail(fault),
            None => self.with_store(
                self.store.with_playlist(
                    saved.server.id,
                    summarized(detail.playlist, detail.entries),
                    crate::controller::cached_library::tracks_of_entries(detail.entries),
                    detail.entries,
                ),
            ).show_playlist(detail.playlist.id),
        }
    }

    /// With the entries of a playlist changed. A server is told first, and what it makes of the
    /// playlist is kept.
    #[verifier::opaque]
    pub open spec fn edit_playlist(self, playlist_id: Seq<char>, edit: PlaylistEditView)
        -> ControllerView {
        match self.store.shown() {
            None => self.fail(NO_SERVER@),
            Some(saved) => match kept_playlist(self.store.library(saved.server.id), playlist_id) {
                None => self.fail(NO_PLAYLIST@),
                Some(detail) => {
                    let after = edited_entries(detail.playlist.id, detail.entries, edit);
                    if saved.server.provider == "fake"@ {
                        self.playlist_changed(
                            saved,
                            PlaylistDetailView { entries: after, ..detail },
                        )
                    } else {
                        self.ask(
                            EffectView::MutatePlaylist {
                                saved,
                                mutation: mutation_of(detail.playlist.id, detail.entries, after),
                            },
                        )
                    }
                },
            },
        }
    }

    /// With another music folder of a source shown.
    #[verifier::opaque]
    pub open spec fn select_music_folder(self, server_id: Seq<char>, folder_id: Option<Seq<char>>)
        -> ControllerView {
        match self.store.fault {
            Some(fault) => self.fail(fault),
            None => self.with_store(
                self.store.with_music_folder(server_id, folder_id),
            ).show_library(),
        }
    }

    /// With a folder of the source that is shown asked for.
    #[verifier::opaque]
    pub open spec fn load_folder(self, request_id: u64, path: Seq<FolderPathItemView>)
        -> ControllerView {
        if let Some(fault) = self.store.fault {
            self.emit(ControllerEventView::FolderLoadFailed { request_id, path, error: fault })
        } else {
            match self.store.active_server() {
                None => self.emit(
                    ControllerEventView::FolderLoadFailed {
                        request_id,
                        path,
                        error: NO_FOLDER_SERVER@,
                    },
                ),
                Some(saved) => self.ask(
                    EffectView::LoadFolder {
                        saved,
                        request_id,
                        path,
                        selected_music_folder_id: self.store.library(
                            saved.server.id,
                        ).selected_music_folder_id,
                    },
                ),
            }
        }
    }

    /// With the library told, along with what a query finds in it.
    #[verifier::opaque]
    pub open spec fn search(self, query: Seq<char>) -> ControllerView {
        match self.store.fault {
            Some(fault) => self.fail(fault),
            None => {
                let store = reconciled(self.store);
                let snapshot = snapshot_of(store);
                self.with_store(store).emit(
                    ControllerEventView::Snapshot(
                        LibrarySnapshotView {
                            search: match snapshot.server {
                                Some(server) => normalized_search_results(
                                    search_of(store.library(server.id), query),
                                    active_settings(self.store),
                                ),
                                None => snapshot.search,
                            },
                            ..snapshot
                        },
                    ),
                )
            },
        }
    }
}

impl AppController {
    fn mark_player(&mut self, track_id: &TrackId, favorite: bool)
        requires
            old(self).deep_view().wf(),
        ensures
            final(self).deep_view() == old(self).deep_view().mark_player(
                track_id.deep_view(),
                favorite,
            ),
            final(self).deep_view().wf(),
    {
        reveal(ControllerView::mark_player);
        let is_current: bool = match &self.playback_snapshot.current {
            Some(entry) => entry.track_id.same(track_id),
            None => false,
        };
        if is_current {
            if let Some(entry) = &mut self.playback_snapshot.current {
                entry.favorite = favorite;
            }
            self.emit_playback_snapshot();
        }
    }

    fn mark_queue(&mut self, track_id: &TrackId, favorite: bool)
        requires
            old(self).deep_view().wf(),
        ensures
            final(self).deep_view() == old(self).deep_view().mark_queue(
                track_id.deep_view(),
                favorite,
            ),
            final(self).deep_view().wf(),
    {
        reveal(ControllerView::mark_queue);
        if let Some(queue) = &mut self.queue {
            queue.set_track_favorite(track_id, favorite);
            let snapshot: QueueSnapshot = queue.snapshot();
            let _kept: Result<(), String> = self.store.save_queue_snapshot(&snapshot);
            self.emit(ControllerEvent::Queue(Some(snapshot)));
        }
    }

    fn show_favorite(&mut self, item_id: FavoriteItemId, favorite: bool)
        requires
            old(self).deep_view().wf(),
        ensures
            final(self).deep_view() == old(self).deep_view().show_favorite(
                item_id.deep_view(),
                favorite,
            ),
            final(self).deep_view().wf(),
    {
        reveal(ControllerView::show_favorite);
        match load_snapshot(&mut self.store) {
            Ok(snapshot) => self.emit(
                ControllerEvent::FavoriteChanged { item_id, favorite, snapshot },
            ),
            Err(error) => self.fail(error),
        }
    }

    /// Takes it that an item was marked, or not, as a favorite where it comes from.
    pub fn favorite_set(&mut self, saved: &SavedServer, item_id: FavoriteItemId, favorite: bool)
        requires
            old(self).deep_view().wf(),
        ensures
            final(self).deep_view() == old(self).deep_view().favorite_set(
                saved.deep_view(),
                item_id.deep_view(),
                favorite,
            ),
            final(self).deep_view().wf(),
    {
        reveal(ControllerView::favorite_set);
        if let Err(error) = keep_favorite(&mut self.store, &saved.server.id, &item_id, favorite) {
            self.fail(error);
            return;
        }
        if let FavoriteItemId::Track(track_id) = &item_id {
            self.mark_queue(track_id, favorite);
            self.mark_player(track_id, favorite);
        }
        self.show_favorite(item_id, favorite);
    }

    /// Marks an item, or not, as a favorite.
    pub fn set_favorite(&mut self, item_id: FavoriteItemId, favorite: bool)
        requires
            old(self).deep_view().wf(),
        ensures
            final(self).deep_view() == old(self).deep_view().set_favorite(
                item_id.deep_view(),
                favorite,
            ),
            final(self).deep_view().wf(),
    {
        reveal(ControllerView::set_favorite);
        match self.store.shown() {
            None => self.fail(text::owned(NO_SERVER)),
            Some(saved) => if kept_here(&saved) {
                self.favorite_set(&saved, item_id, favorite);
            } else {
                self.ask(Effect::SetFavorite { saved, item_id, favorite });
            },
        }
    }

    /// Marks an album, or not, as a favorite.
    pub fn set_album_favorite(&mut self, album_id: AlbumId, favorite: bool)
        requires
            old(self).deep_view().wf(),
        ensures
            final(self).deep_view() == old(self).deep_view().set_favorite(
                FavoriteItemIdView::Album(album_id.deep_view()),
                favorite,
            ),
            final(self).deep_view().wf(),
    {
        self.set_favorite(FavoriteItemId::Album(album_id), favorite);
    }

    /// Marks a track, or not, as a favorite.
    pub fn set_track_favorite(&mut self, track_id: TrackId, favorite: bool)
        requires
            old(self).deep_view().wf(),
        ensures
            final(self).deep_view() == old(self).deep_view().set_favorite(
                FavoriteItemIdView::Track(track_id.deep_view()),
                favorite,
            ),
            final(self).deep_view().wf(),
    {
        self.set_favorite(FavoriteItemId::Track(track_id), favorite);
    }

    /// Marks an artist, or not, as a favorite.
    pub fn set_artist_favorite(&mut self, artist_id: ArtistId, favorite: bool)
        requires
            old(self).deep_view().wf(),
        ensures
            final(self).deep_view() == old(self).deep_view().set_favorite(
                FavoriteItemIdView::Artist(artist_id.deep_view()),
                favorite,
            ),
            final(self).deep_view().wf(),
    {
        self.set_favorite(FavoriteItemId::Artist(artist_id), favorite);
    }

    /// Marks the current track as a favorite where it is none, and as none where it is.
    pub fn toggle_current_favorite(&mut self)
        requires
            old(self).deep_view().wf(),
        ensures
            final(self).deep_view() == (match old(self).deep_view().playback_snapshot.current {
                Some(entry) => old(self).deep_view().set_favorite(
                    FavoriteItemIdView::Track(entry.track_id),
                    !entry.favorite,
                ),
                None => old(self).deep_view().fail("No track is playing."@),
            }),
            final(self).deep_view().wf(),
    {
        match self.playback_snapshot.current.copy() {
            Some(entry) => self.set_track_favorite(entry.track_id, !entry.favorite),
            None => self.fail(text::owned("No track is playing.")),
        }
    }

    /// Takes it that a playlist was created where its tracks come from.
    pub fn playlist_created(
        &mut self,
        saved: &SavedServer,
        playlist_id: PlaylistId,
        name: &str,
        tracks: &Vec<Track>,
        unique: u64,
    )
        requires
            old(self).deep_view().wf(),
        ensures
            final(self).deep_view() == old(self).deep_view().playlist_created(
                saved.deep_view(),
                playlist_id.deep_view(),
                name@,
                tracks.deep_view(),
                unique,
            ),
            final(self).deep_view().wf(),
    {
        reveal(ControllerView::playlist_created);
        let entries: Vec<PlaylistEntry> = playlist_entries_for_tracks(
            &playlist_id,
            unique,
            tracks,
        );
        let image_refs: Vec<crate::model::library::ImageRef> = Vec::new();
        assert(image_refs.deep_view() =~= Seq::empty());
        let playlist: Playlist = summarize(
            &Playlist {
                id: playlist_id,
                name: text::trim(name),
                track_count: 0,
                duration_seconds: 0,
                image_refs,
                image_ref: None,
            },
            &entries,
        );
        match keep_playlist(&mut self.store, &saved.server.id, playlist, tracks, &entries) {
            Ok(()) => self.emit_snapshot(),
            Err(error) => self.fail(error),
        }
    }

    /// Creates a playlist; the number tells it from those created at another time.
    pub fn create_playlist(&mut self, name: String, tracks: Vec<Track>, unique: u64)
        requires
            old(self).deep_view().wf(),
        ensures
            final(self).deep_view() == old(self).deep_view().create_playlist(
                name@,
                tracks.deep_view(),
                unique,
            ),
            final(self).deep_view().wf(),
    {
        reveal(ControllerView::create_playlist);
        match self.store.shown() {
            None => self.fail(text::owned(NO_SERVER)),
            Some(saved) => if saved.server.provider.same(&text::owned("fake")) {
                let number: String = text::decimal_text(unique);
                let playlist_id: PlaylistId = PlaylistId {
                    value: text::concat("fake:playlist:", number.as_str()),
                };
                self.playlist_created(&saved, playlist_id, name.as_str(), &tracks, unique);
            } else {
                self.ask(Effect::CreatePlaylist { saved, name, tracks });
            },
        }
    }

    /// Takes it that a playlist was renamed where it comes from.
    pub fn playlist_renamed(&mut self, saved: &SavedServer, playlist_id: &PlaylistId, name: &str)
        requires
            old(self).deep_view().wf(),
        ensures
            final(self).deep_view() == old(self).deep_view().playlist_renamed(
                saved.deep_view(),
                playlist_id.deep_view(),
                name@,
            ),
            final(self).deep_view().wf(),
    {
        reveal(ControllerView::playlist_renamed);
        reveal(StoreView::with_renamed_playlist);
        let trimmed: String = text::trim(name);
        match self.store.rename_playlist(&saved.server.id, playlist_id, trimmed.as_str()) {
            Ok(()) => self.emit_snapshot(),
            Err(error) => self.fail(error),
        }
    }

    /// Renames a playlist.
    pub fn rename_playlist(&mut self, playlist_id: PlaylistId, name: String)
        requires
            old(self).deep_view().wf(),
        ensures
            final(self).deep_view() == old(self).deep_view().rename_playlist(
                playlist_id.deep_view(),
                name@,
            ),
            final(self).deep_view().wf(),
    {
        reveal(ControllerView::rename_playlist);
        match self.store.shown() {
            None => self.fail(text::owned(NO_SERVER)),
            Some(saved) => if kept_here(&saved) {
                self.playlist_renamed(&saved, &playlist_id, name.as_str());
            } else {
                self.ask(Effect::RenamePlaylist { saved, playlist_id, name });
            },
        }
    }

    fn show_playlist(&mut self, playlist_id: PlaylistId)
        requires
            old(self).deep_view().wf(),
        ensures
            final(self).deep_view() == old(self).deep_view().show_playlist(
                playlist_id.deep_view(),
            ),
            final(self).deep_view().wf(),
    {
        reveal(ControllerView::show_playlist);
        match load_snapshot(&mut self.store) {
            Ok(snapshot) => self.emit(ControllerEvent::PlaylistChanged { playlist_id, snapshot }),
            Err(error) => self.fail(error),
        }
    }

    /// Takes it that a playlist now is as it is given.
    pub fn playlist_changed(&mut self, saved: &SavedServer, detail: &PlaylistDetail)
        requires
            old(self).deep_view().wf(),
        ensures
            final(self).deep_view() == old(self).deep_view().playlist_changed(
                saved.deep_view(),
                detail.deep_view(),
            ),
            final(self).deep_view().wf(),
    {
        reveal(ControllerView::playlist_changed);
        let playlist: Playlist = summarize(&detail.playlist, &detail.entries);
        let tracks: Vec<Track> = tracks_of(&detail.entries);
        match keep_playlist(
            &mut self.store,
            &saved.server.id,
            playlist,
            &tracks,
            &detail.entries,
        ) {
            Ok(()) => self.show_playlist(detail.playlist.id.copy()),
            Err(error) => self.fail(error),
        }
    }

    /// Changes the entries of a playlist.
    pub fn mutate_playlist_entries(&mut self, playlist_id: &PlaylistId, edit: &PlaylistEdit)
        requires
            old(self).deep_view().wf(),
        ensures
            final(self).deep_view() == old(self).deep_view().edit_playlist(
                playlist_id.deep_view(),
                edit.deep_view(),
            ),
            final(self).deep_view().wf(),
    {
        reveal(ControllerView::edit_playlist);
        match self.store.shown() {
            None => self.fail(text::owned(NO_SERVER)),
            Some(saved) => match load_playlist_detail(
                &self.store.library(&saved.server.id),
                playlist_id,
            ) {
                None => self.fail(text::owned(NO_PLAYLIST)),
                Some(detail) => {
                    let after: Vec<PlaylistEntry> = edit_entries(
                        &detail.playlist.id,
                        &detail.entries,
                        edit,
                    );
                    if saved.server.provider.same(&text::owned("fake")) {
                        let changed: PlaylistDetail = PlaylistDetail {
                            playlist: detail.playlist,
                            entries: after,
                        };
                        self.playlist_changed(&saved, &changed);
                    } else {
                        let mutation = playlist_mutation(
                            &detail.playlist.id,
                            &detail.entries,
                            &after,
                        );
                        self.ask(Effect::MutatePlaylist { saved, mutation });
                    }
                },
            },
        }
    }

    /// Adds tracks to the end of a playlist; the number tells their entries from those added
    /// at another time.
    pub fn add_tracks_to_playlist(
        &mut self,
        playlist_id: &PlaylistId,
        tracks: Vec<Track>,
        unique: u64,
    )
        requires
            old(self).deep_view().wf(),
        ensures
            final(self).deep_view() == old(self).deep_view().edit_playlist(
                playlist_id.deep_view(),
                PlaylistEditView::Add { prefix: unique, tracks: tracks.deep_view() },
            ),
            final(self).deep_view().wf(),
    {
        self.mutate_playlist_entries(playlist_id, &PlaylistEdit::Add { prefix: unique, tracks });
    }

    /// Takes an entry out of a playlist.
    pub fn remove_playlist_entry(&mut self, playlist_id: &PlaylistId, entry_id: String)
        requires
            old(self).deep_view().wf(),
        ensures
            final(self).deep_view() == old(self).deep_view().edit_playlist(
                playlist_id.deep_view(),
                PlaylistEditView::Remove { entry_id: entry_id@ },
            ),
            final(self).deep_view().wf(),
    {
        self.mutate_playlist_entries(playlist_id, &PlaylistEdit::Remove { entry_id });
    }

    /// Moves an entry of a playlist to another place.
    pub fn move_playlist_entry(
        &mut self,
        playlist_id: &PlaylistId,
        entry_id: String,
        new_index: usize,
    )
        requires
            old(self).deep_view().wf(),
        ensures
            final(self).deep_view() == old(self).deep_view().edit_playlist(
                playlist_id.deep_view(),
                PlaylistEditView::Move { entry_id: entry_id@, new_index },
            ),
            final(self).deep_view().wf(),
    {
        self.mutate_playlist_entries(playlist_id, &PlaylistEdit::Move { entry_id, new_index });
    }

    /// Shows another music folder of a source.
    pub fn set_selected_music_folder(
        &mut self,
        server_id: &ServerId,
        folder_id: Option<MusicFolderId>,
    )
        requires
            old(self).deep_view().wf(),
        ensures
            final(self).deep_view() == old(self).deep_view().select_music_folder(
                server_id.deep_view(),
                folder_id.deep_view(),
            ),
            final(self).deep_view().wf(),
    {
        reveal(ControllerView::select_music_folder);
        reveal(StoreView::with_music_folder);
        match self.store.set_selected_music_folder_id(server_id, folder_id) {
            Ok(()) => self.emit_snapshot(),
            Err(error) => self.fail(error),
        }
    }

    /// Asks for a folder of the source that is shown.
    pub fn load_folder_for_active(&mut self, request_id: u64, path: Vec<FolderPathItem>)
        requires
            old(self).deep_view().wf(),
        ensures
            final(self).deep_view() == old(self).deep_view().load_folder(
                request_id,
                path.deep_view(),
            ),
            final(self).deep_view().wf(),
    {
        reveal(ControllerView::load_folder);
        match self.store.active_server() {
            Err(error) => self.folder_load_failed(request_id, path, error),
            Ok(None) => self.folder_load_failed(request_id, path, text::owned(NO_FOLDER_SERVER)),
            Ok(Some(saved)) => {
                let selected_music_folder_id: Option<MusicFolderId> = self.store.library(
                    &saved.server.id,
                ).selected_music_folder_id;
                self.ask(
                    Effect::LoadFolder { saved, request_id, path, selected_music_folder_id },
                );
            },
        }
    }

    /// Takes what a folder of a source holds.
    pub fn folder_loaded(
        &mut self,
        saved: &SavedServer,
        request_id: u64,
        path: Vec<FolderPathItem>,
        detail: FolderDetail,
    )
        requires
            old(self).deep_view().wf(),
        ensures
            final(self).deep_view() == old(self).deep_view().emit(
                ControllerEventView::FolderLoaded {
                    request_id,
                    path: path.deep_view(),
                    detail: FolderDetailView {
                        folders: detail.folders.deep_view(),
                        tracks: normalized_tracks(
                            detail.tracks.deep_view(),
                            source_settings(old(self).deep_view().settings(), saved.deep_view()),
                        ),
                    },
                },
            ),
            final(self).deep_view().wf(),
    {
        let settings = load_settings_for_saved(&self.store, saved);
        let folders = detail.folders;
        let mut tracks: Vec<Track> = detail.tracks;
        normalize_tracks(&mut tracks, &settings);
        self.emit(
            ControllerEvent::FolderLoaded {
                request_id,
                path,
                detail: FolderDetail { folders, tracks },
            },
        );
    }

    /// Takes it that a folder could not be read.
    pub fn folder_load_failed(
        &mut self,
        request_id: u64,
        path: Vec<FolderPathItem>,
        error: String,
    )
        requires
            old(self).deep_view().wf(),
        ensures
            final(self).deep_view() == old(self).deep_view().emit(
                ControllerEventView::FolderLoadFailed {
                    request_id,
                    path: path.deep_view(),
                    error: error@,
                },
            ),
            final(self).deep_view().wf(),
    {
        self.emit(ControllerEvent::FolderLoadFailed { request_id, path, error });
    }

    /// Looks for a query in the library of the source that is shown.
    pub fn search(&mut self, query: &str)
        requires
            old(self).deep_view().wf(),
        ensures
            final(self).deep_view() == old(self).deep_view().search(query@),
            final(self).deep_view().wf(),
    {
        reveal(ControllerView::search);
        let settings = load_settings_for_active_server(&self.store);
        match load_snapshot(&mut self.store) {
            Err(error) => self.fail(error),
            Ok(snapshot) => {
                let mut shown = snapshot;
                if let Some(server) = &shown.server {
                    let mut results = search_library(&self.store.library(&server.id), query);
                    normalize_search_results(&mut results, &settings);
                    shown.search = results;
                }
                self.emit(ControllerEvent::Snapshot(shown));
            },
        }
    }

    /// Tells the library as it is kept.
    pub fn reload_snapshot(&mut self)
        requires
            old(self).deep_view().wf(),
        ensures
            final(self).deep_view() == old(self).deep_view().show_library(),
            final(self).deep_view().wf(),
    {
        self.emit_snapshot();
    }
}

} // verus!
