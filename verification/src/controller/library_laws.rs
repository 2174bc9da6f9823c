//! What the commands of the library, the sources and the servers do, in terms of what is kept,
//! told and asked for before and after them.

use crate::cached_reads::{reconciled, snapshot_of};
use crate::controller::cached_library::kept_playlist;
use crate::controller::library_commands::own_playlist_id;
use crate::controller::ControllerView;
use crate::model::events::{
    AfterDiskClearView, ControllerEventView, EffectView, FavoriteItemIdView, LoginRequestView,
    PlaylistEditView,
};
use crate::model::library::{
    AlbumView, ArtistView, HomeSectionView, PlaylistView, TrackView,
};
use crate::model::playback::PlaybackState;
use crate::model::queue::QueueEntryView;
use crate::model::source::{
    LibrarySourceSelectionView, LocalLibraryFolderView, ProviderSessionView, SavedServer,
    SavedServerView, ServerLocalAccessView, TrackLocalMatchView,
};
use crate::model::store::{
    ServerLibrary, ServerLibraryView, ServerToken, StoreView, SyncStateView,
};
use crate::playlists::{
    additions_ask_for_the_new_tracks, carried_out, distinct_entries, moves_lead_to_the_wanted_order,
    new_entries, new_entries_hold_the_tracks, removals_ask_for_one_entry, track_ids,
};
use crate::queue::QueueView;
use crate::search::search_of;
use crate::select::{chosen, chosen_keeps_the_order};
use crate::store::{empty_library, token_of};
use crate::table::{
    lemma_row_place, put_row_is_found, put_row_keeps_the_others, removed_row_is_gone,
};
use crate::text::trimmed;
use vstd::prelude::*;

verus! {

/// A library that was written is read back as it was, and those of other sources stay.
pub proof fn libraries_are_kept_apart(
    store: StoreView,
    server_id: Seq<char>,
    library: ServerLibraryView,
    other: Seq<char>,
)
    requires
        library.server_id == server_id,
    ensures
        store.with_library(server_id, library).library(server_id) == library,
        other != server_id ==> store.with_library(server_id, library).library(other)
            == store.library(other),
        store.with_library(server_id, library).settings == store.settings,
        store.with_library(server_id, library).servers == store.servers,
        store.with_library(server_id, library).active == store.active,
        store.with_library(server_id, library).fault == store.fault,
{
    put_row_is_found::<ServerLibrary>(store.libraries, library);
    if other != server_id {
        put_row_keeps_the_others::<ServerLibrary>(store.libraries, library, other);
    }
}

proof fn lemma_library_id(store: StoreView, server_id: Seq<char>)
    ensures
        store.library(server_id).server_id == server_id,
{
    lemma_row_place::<ServerLibrary>(store.libraries, server_id);
}

proof fn lemma_reconciled(store: StoreView)
    ensures
        reconciled(store).libraries == store.libraries,
        reconciled(store).settings == store.settings,
        reconciled(store).fault == store.fault,
        forall|server_id: Seq<char>| #[trigger]
            reconciled(store).library(server_id) == store.library(server_id),
{
}

/// To show the library tells what is kept of the selected source, and keeps everything.
pub proof fn shown_libraries_are_told(before: ControllerView)
    requires
        before.store.fault is None,
    ensures
        ({
            let after = before.show_library();
            &&& after.events == before.events.push(
                ControllerEventView::Snapshot(snapshot_of(after.store)),
            )
            &&& after.store.libraries == before.store.libraries
            &&& after.store.settings == before.store.settings
            &&& after.queue == before.queue
            &&& after.playback_snapshot == before.playback_snapshot
            &&& after.effects == before.effects
            &&& after.tokens == before.tokens
        }),
{
    reveal(ControllerView::show_library);
}

/// Exactly the albums, or the artists, with an identifier are marked, all alike, and nothing
/// else about any of them changes.
pub proof fn album_and_artist_favorites_are_marked(
    store: StoreView,
    server_id: Seq<char>,
    id: Seq<char>,
    favorite: bool,
)
    ensures
        ({
            let before = store.library(server_id);
            let albums = store.with_favorite(
                server_id,
                FavoriteItemIdView::Album(id),
                favorite,
            ).library(server_id);
            let artists = store.with_favorite(
                server_id,
                FavoriteItemIdView::Artist(id),
                favorite,
            ).library(server_id);
            &&& albums.albums.len() == before.albums.len()
            &&& forall|i: int|
                0 <= i < before.albums.len() ==> #[trigger] albums.albums[i] == (AlbumView {
                    favorite: if before.albums[i].id == id {
                        favorite
                    } else {
                        before.albums[i].favorite
                    },
                    ..before.albums[i]
                })
            &&& albums.tracks == before.tracks
            &&& artists.artists.len() == before.artists.len()
            &&& forall|i: int|
                0 <= i < before.artists.len() ==> #[trigger] artists.artists[i] == (ArtistView {
                    favorite: if before.artists[i].id == id {
                        favorite
                    } else {
                        before.artists[i].favorite
                    },
                    ..before.artists[i]
                })
            &&& artists.album_artists.len() == before.album_artists.len()
            &&& forall|i: int|
                0 <= i < before.album_artists.len() ==> #[trigger] artists.album_artists[i] == (
                ArtistView {
                    favorite: if before.album_artists[i].id == id {
                        favorite
                    } else {
                        before.album_artists[i].favorite
                    },
                    ..before.album_artists[i]
                })
            &&& artists.albums == before.albums
        }),
{
    reveal(StoreView::with_favorite);
    lemma_library_id(store, server_id);
    let library = store.library(server_id);
    libraries_are_kept_apart(
        store,
        server_id,
        ServerLibraryView {
            albums: library.albums.map_values(crate::store::album_favorite(id, favorite)),
            ..library
        },
        server_id,
    );
    libraries_are_kept_apart(
        store,
        server_id,
        ServerLibraryView {
            artists: library.artists.map_values(crate::store::artist_favorite(id, favorite)),
            album_artists: library.album_artists.map_values(
                crate::store::artist_favorite(id, favorite),
            ),
            ..library
        },
        server_id,
    );
}

/// A favorite of a server is asked of that server, as given, and changes nothing before the
/// server took it; one that is kept here is set at once.
pub proof fn favorites_are_asked_of_their_server(
    before: ControllerView,
    saved: SavedServerView,
    item_id: FavoriteItemIdView,
    favorite: bool,
)
    requires
        before.store.fault is None,
        before.store.active_server() == Some(saved),
    ensures
        saved.server.provider != "fake"@ && saved.server.provider != "local"@
            ==> before.set_favorite(item_id, favorite) == before.ask(
            EffectView::SetFavorite { saved, item_id, favorite },
        ),
        saved.server.provider == "fake"@ || saved.server.provider == "local"@
            ==> before.set_favorite(item_id, favorite) == before.favorite_set(
            saved,
            item_id,
            favorite,
        ),
{
    reveal(ControllerView::set_favorite);
}

/// A track that was marked as a favorite, or not, is marked alike in the library, in the queue
/// and where it is played, and that is told.
pub proof fn favorite_tracks_are_marked_everywhere(
    before: ControllerView,
    saved: SavedServerView,
    track_id: Seq<char>,
    favorite: bool,
    at: int,
)
    requires
        before.store.fault is None,
        before.queue is Some,
        0 <= at < before.store.library(saved.server.id).tracks.len(),
    ensures
        ({
            let after = before.favorite_set(saved, FavoriteItemIdView::Track(track_id), favorite);
            let queue = before.queue->0;
            let kept = before.store.library(saved.server.id).tracks;
            let marked = after.store.library(saved.server.id).tracks;
            &&& marked.len() == kept.len()
            &&& marked[at] == (TrackView {
                favorite: if kept[at].id == track_id {
                    favorite
                } else {
                    kept[at].favorite
                },
                ..kept[at]
            })
            &&& after.queue matches Some(longer) && longer.entries.len() == queue.entries.len()
                && forall|i: int|
                0 <= i < queue.entries.len() ==> (#[trigger] longer.entries[i]) == (
                QueueEntryView {
                    favorite: if queue.entries[i].track_id == track_id {
                        favorite
                    } else {
                        queue.entries[i].favorite
                    },
                    ..queue.entries[i]
                })
            &&& before.playback_snapshot.current matches Some(entry) ==> (
            after.playback_snapshot.current == Some(
                QueueEntryView {
                    favorite: if entry.track_id == track_id {
                        favorite
                    } else {
                        entry.favorite
                    },
                    ..entry
                },
            ))
            &&& after.events.last() matches ControllerEventView::FavoriteChanged {
                item_id,
                favorite: told,
                ..
            } && item_id == FavoriteItemIdView::Track(track_id) && told == favorite
        }),
{
    reveal(ControllerView::favorite_set);
    reveal(ControllerView::mark_queue);
    reveal(ControllerView::mark_player);
    reveal(ControllerView::show_favorite);
    crate::controller::laws::favorites_are_marked(
        before.store,
        saved.server.id,
        track_id,
        favorite,
    );
    let kept = before.store.with_favorite(
        saved.server.id,
        FavoriteItemIdView::Track(track_id),
        favorite,
    );
    assert(kept.fault is None && kept.settings == before.store.settings) by {
        reveal(StoreView::with_favorite);
    }
    let marked = before.queue->0.with_favorite(track_id, favorite);
    let snapshot = marked.snapshot();
    lemma_library_id(kept, snapshot.server_id);
    libraries_are_kept_apart(
        kept,
        snapshot.server_id,
        ServerLibraryView { queue: Some(snapshot), ..kept.library(snapshot.server_id) },
        saved.server.id,
    );
    lemma_reconciled(kept.with_queue(snapshot));
    if let Some(entry) = before.playback_snapshot.current {
        assert(entry == QueueEntryView { favorite: entry.favorite, ..entry });
    }
}

/// A playlist that is created here is kept under its name, without the white space around it,
/// with the given tracks in their order; of a server it is asked, as given.
pub proof fn created_playlists_hold_the_tracks(
    before: ControllerView,
    saved: SavedServerView,
    name: Seq<char>,
    tracks: Seq<TrackView>,
    unique: u64,
)
    requires
        before.store.fault is None,
        before.store.active_server() == Some(saved),
        tracks.len() <= u32::MAX,
    ensures
        saved.server.provider == "fake"@ ==> {
            let after = before.create_playlist(name, tracks, unique);
            kept_playlist(
                after.store.library(saved.server.id),
                own_playlist_id(unique),
            ) matches Some(detail) && {
                &&& detail.playlist.name == trimmed(name)
                &&& detail.playlist.id == own_playlist_id(unique)
                &&& detail.playlist.track_count == tracks.len()
                &&& detail.entries.len() == tracks.len()
                &&& forall|i: int|
                    0 <= i < tracks.len() ==> (#[trigger] detail.entries[i]).track == tracks[i]
            }
        },
        saved.server.provider != "fake"@ ==> before.create_playlist(name, tracks, unique)
            == before.ask(EffectView::CreatePlaylist { saved, name, tracks }),
{
    reveal(ControllerView::create_playlist);
    if saved.server.provider == "fake"@ {
        let id = own_playlist_id(unique);
        let entries = new_entries(id, unique, tracks);
        lemma_playlist_created(before, saved, id, name, tracks, unique);
        new_entries_hold_the_tracks(id, unique, tracks, unique, tracks);
    }
}

proof fn lemma_playlist_created(
    before: ControllerView,
    saved: SavedServerView,
    id: Seq<char>,
    name: Seq<char>,
    tracks: Seq<TrackView>,
    unique: u64,
)
    requires
        before.store.fault is None,
    ensures
        ({
            let entries = new_entries(id, unique, tracks);
            kept_playlist(
                before.playlist_created(saved, id, name, tracks, unique).store.library(
                    saved.server.id,
                ),
                id,
            ) == Some(
                crate::model::library::PlaylistDetailView {
                    playlist: crate::controller::library_commands::new_playlist(id, name, entries),
                    entries,
                },
            )
        }),
{
    reveal(ControllerView::playlist_created);
    reveal(ControllerView::show_library);
    let entries = new_entries(id, unique, tracks);
    let playlist = crate::controller::library_commands::new_playlist(id, name, entries);
    let kept = before.store.with_playlist(saved.server.id, playlist, tracks, entries);
    crate::controller::laws::playlists_are_read_back(
        before.store,
        saved.server.id,
        playlist,
        tracks,
        entries,
    );
    assert(kept.fault is None) by {
        reveal(StoreView::with_playlist);
    }
    lemma_reconciled(kept);
}

/// A playlist that a server has created is kept under the identifier that the server gave it.
pub proof fn playlists_of_servers_are_kept_once_created(
    before: ControllerView,
    saved: SavedServerView,
    playlist_id: Seq<char>,
    name: Seq<char>,
    tracks: Seq<TrackView>,
    unique: u64,
)
    requires
        before.store.fault is None,
    ensures
        kept_playlist(
            before.playlist_created(saved, playlist_id, name, tracks, unique).store.library(
                saved.server.id,
            ),
            playlist_id,
        ) matches Some(detail) && detail.playlist.id == playlist_id && detail.playlist.name
            == trimmed(name) && detail.entries.len() == tracks.len() && forall|i: int|
            0 <= i < tracks.len() ==> (#[trigger] detail.entries[i]).track == tracks[i],
{
    lemma_playlist_created(before, saved, playlist_id, name, tracks, unique);
}

/// Renaming a playlist gives it the new name, without the white space around it, and changes
/// nothing else and no other playlist; of a server it is asked, as given.
pub proof fn renamed_playlists_keep_all_but_their_name(
    before: ControllerView,
    saved: SavedServerView,
    playlist_id: Seq<char>,
    name: Seq<char>,
    at: int,
)
    requires
        before.store.fault is None,
        before.store.active_server() == Some(saved),
        0 <= at < before.store.library(saved.server.id).playlists.len(),
    ensures
        saved.server.provider == "fake"@ || saved.server.provider == "local"@ ==> {
            let kept = before.store.library(saved.server.id).playlists;
            let after = before.rename_playlist(playlist_id, name).store.library(
                saved.server.id,
            ).playlists;
            &&& after.len() == kept.len()
            &&& after[at] == (PlaylistView {
                name: if kept[at].id == playlist_id {
                    trimmed(name)
                } else {
                    kept[at].name
                },
                ..kept[at]
            })
        },
        saved.server.provider != "fake"@ && saved.server.provider != "local"@
            ==> before.rename_playlist(playlist_id, name) == before.ask(
            EffectView::RenamePlaylist { saved, playlist_id, name },
        ),
{
    reveal(ControllerView::rename_playlist);
    reveal(ControllerView::playlist_renamed);
    reveal(ControllerView::show_library);
    reveal(StoreView::with_renamed_playlist);
    let server_id = saved.server.id;
    let library = before.store.library(server_id);
    lemma_library_id(before.store, server_id);
    let renamed = ServerLibraryView {
        playlists: library.playlists.map_values(
            crate::store::playlist_renamed(playlist_id, trimmed(name)),
        ),
        ..library
    };
    libraries_are_kept_apart(before.store, server_id, renamed, server_id);
    lemma_reconciled(before.store.with_library(server_id, renamed));
}

/// Adding tracks to a playlist of a server asks it to add exactly these tracks, in their order;
/// removing an entry asks it to remove exactly that one; and moving an entry asks for moves that
/// lead to the wanted order.
pub proof fn playlist_edits_are_asked_of_their_server(
    before: ControllerView,
    saved: SavedServerView,
    playlist_id: Seq<char>,
    prefix: u64,
    tracks: Seq<TrackView>,
    at: int,
    new_index: usize,
)
    requires
        before.store.fault is None,
        before.store.active_server() == Some(saved),
        saved.server.provider != "fake"@,
        kept_playlist(before.store.library(saved.server.id), playlist_id) matches Some(detail) && {
            &&& distinct_entries(
                detail.entries + new_entries(detail.playlist.id, prefix, tracks),
            )
            &&& distinct_entries(detail.entries)
            &&& detail.entries.len() + tracks.len() <= usize::MAX
            &&& 0 <= at < detail.entries.len()
            &&& new_index < detail.entries.len()
        },
    ensures
        ({
            let detail = kept_playlist(before.store.library(saved.server.id), playlist_id)->0;
            let entry = detail.entries[at];
            let adding = before.edit_playlist(
                playlist_id,
                PlaylistEditView::Add { prefix, tracks },
            );
            let removing = before.edit_playlist(
                playlist_id,
                PlaylistEditView::Remove { entry_id: entry.entry_id },
            );
            let moving = before.edit_playlist(
                playlist_id,
                PlaylistEditView::Move { entry_id: entry.entry_id, new_index },
            );
            &&& adding.store == before.store && removing.store == before.store && moving.store
                == before.store
            &&& adding.effects.last() matches EffectView::MutatePlaylist {
                saved: asked,
                mutation,
            } && asked == saved && mutation.playlist_id == detail.playlist.id
                && mutation.removed.len() == 0 && mutation.moved.len() == 0 && mutation.added
                == Seq::new(tracks.len(), |i: int| tracks[i].id)
            &&& removing.effects.last() matches EffectView::MutatePlaylist {
                saved: asked,
                mutation,
            } && asked == saved && mutation.playlist_id == detail.playlist.id && mutation.removed
                == seq![entry.entry_id] && mutation.added.len() == 0 && carried_out(
                detail.entries,
                mutation,
            ) == track_ids(detail.entries.remove(at))
            &&& moving.effects.last() matches EffectView::MutatePlaylist {
                saved: asked,
                mutation,
            } && asked == saved && mutation.playlist_id == detail.playlist.id
                && mutation.removed.len() == 0 && mutation.added.len() == 0 && carried_out(
                detail.entries,
                mutation,
            ) == track_ids(detail.entries.remove(at).insert(new_index as int, entry))
        }),
{
    reveal(ControllerView::edit_playlist);
    let detail = kept_playlist(before.store.library(saved.server.id), playlist_id)->0;
    let entry = detail.entries[at];
    let added = new_entries(detail.playlist.id, prefix, tracks);
    additions_ask_for_the_new_tracks(detail.playlist.id, detail.entries, added);
    assert(Seq::new(added.len(), |i: int| added[i].track.id) =~= Seq::new(
        tracks.len(),
        |i: int| tracks[i].id,
    ));
    removals_ask_for_one_entry(detail.playlist.id, detail.entries, at);
    moves_lead_to_the_wanted_order(
        detail.playlist.id,
        detail.entries,
        entry.entry_id,
        new_index,
    );
    crate::playlists::moving_puts_the_entry_at_its_place(detail.entries, at, new_index);
}

/// An edit of a playlist that is kept here is kept at once: added tracks at its end, in their
/// order, a removed entry gone, a moved one at its place; and its length is counted anew.
pub proof fn playlist_edits_are_kept_here(
    before: ControllerView,
    saved: SavedServerView,
    playlist_id: Seq<char>,
    prefix: u64,
    tracks: Seq<TrackView>,
    at: int,
    new_index: usize,
)
    requires
        before.store.fault is None,
        before.store.active_server() == Some(saved),
        saved.server.provider == "fake"@,
        kept_playlist(before.store.library(saved.server.id), playlist_id) matches Some(detail) && {
            &&& distinct_entries(detail.entries)
            &&& detail.playlist.id == playlist_id
            &&& detail.entries.len() + tracks.len() <= u32::MAX
            &&& 0 <= at < detail.entries.len()
            &&& new_index < detail.entries.len()
        },
    ensures
        ({
            let detail = kept_playlist(before.store.library(saved.server.id), playlist_id)->0;
            let entry = detail.entries[at];
            let count = detail.entries.len() as int;
            let added = kept_playlist(
                before.edit_playlist(
                    playlist_id,
                    PlaylistEditView::Add { prefix, tracks },
                ).store.library(saved.server.id),
                playlist_id,
            );
            let removed = kept_playlist(
                before.edit_playlist(
                    playlist_id,
                    PlaylistEditView::Remove { entry_id: entry.entry_id },
                ).store.library(saved.server.id),
                playlist_id,
            );
            let moved = kept_playlist(
                before.edit_playlist(
                    playlist_id,
                    PlaylistEditView::Move { entry_id: entry.entry_id, new_index },
                ).store.library(saved.server.id),
                playlist_id,
            );
            &&& added matches Some(longer) && {
                &&& longer.entries.len() == count + tracks.len()
                &&& longer.entries.take(count) == detail.entries
                &&& forall|i: int|
                    0 <= i < tracks.len() ==> (#[trigger] longer.entries[count + i]).track
                        == tracks[i]
                &&& longer.playlist.track_count == count + tracks.len()
                &&& longer.playlist.name == detail.playlist.name
            }
            &&& removed matches Some(shorter) && shorter.entries == detail.entries.remove(at)
                && shorter.playlist.track_count == count - 1
            &&& moved matches Some(other) && other.entries == detail.entries.remove(at).insert(
                new_index as int,
                entry,
            ) && other.playlist.track_count == count
        }),
{
    let detail = kept_playlist(before.store.library(saved.server.id), playlist_id)->0;
    let entry = detail.entries[at];
    let added = new_entries(playlist_id, prefix, tracks);
    lemma_edited(before, saved, playlist_id, PlaylistEditView::Add { prefix, tracks });
    lemma_edited(
        before,
        saved,
        playlist_id,
        PlaylistEditView::Remove { entry_id: entry.entry_id },
    );
    lemma_edited(
        before,
        saved,
        playlist_id,
        PlaylistEditView::Move { entry_id: entry.entry_id, new_index },
    );
    new_entries_hold_the_tracks(playlist_id, prefix, tracks, prefix, tracks);
    let longer = detail.entries + added;
    assert(longer.take(detail.entries.len() as int) =~= detail.entries);
    assert forall|i: int| 0 <= i < tracks.len() implies (
    #[trigger] longer[detail.entries.len() as int + i]).track == tracks[i] by {
        assert(longer[detail.entries.len() as int + i] == added[i]);
    }
    removals_ask_for_one_entry(playlist_id, detail.entries, at);
    crate::playlists::moving_puts_the_entry_at_its_place(detail.entries, at, new_index);
}

proof fn lemma_edited(
    before: ControllerView,
    saved: SavedServerView,
    playlist_id: Seq<char>,
    edit: PlaylistEditView,
)
    requires
        before.store.fault is None,
        before.store.active_server() == Some(saved),
        saved.server.provider == "fake"@,
        kept_playlist(before.store.library(saved.server.id), playlist_id) matches Some(detail)
            && detail.playlist.id == playlist_id,
    ensures
        ({
            let detail = kept_playlist(before.store.library(saved.server.id), playlist_id)->0;
            let entries = crate::controller::library_commands::edited_entries(
                playlist_id,
                detail.entries,
                edit,
            );
            kept_playlist(
                before.edit_playlist(playlist_id, edit).store.library(saved.server.id),
                playlist_id,
            ) == Some(
                crate::model::library::PlaylistDetailView {
                    playlist: crate::playlists::summarized(detail.playlist, entries),
                    entries,
                },
            )
        }),
{
    reveal(ControllerView::edit_playlist);
    reveal(ControllerView::playlist_changed);
    reveal(ControllerView::show_playlist);
    let detail = kept_playlist(before.store.library(saved.server.id), playlist_id)->0;
    let entries = crate::controller::library_commands::edited_entries(
        playlist_id,
        detail.entries,
        edit,
    );
    let tracks = crate::controller::cached_library::tracks_of_entries(entries);
    let playlist = crate::playlists::summarized(detail.playlist, entries);
    let kept = before.store.with_playlist(saved.server.id, playlist, tracks, entries);
    crate::controller::laws::playlists_are_read_back(
        before.store,
        saved.server.id,
        playlist,
        tracks,
        entries,
    );
    assert(kept.fault is None) by {
        reveal(StoreView::with_playlist);
    }
    lemma_reconciled(kept);
}

/// The music folder that was selected is kept as selected, and what is in the library stays.
pub proof fn selected_folders_are_kept(
    before: ControllerView,
    server_id: Seq<char>,
    folder_id: Option<Seq<char>>,
)
    requires
        before.store.fault is None,
    ensures
        before.select_music_folder(server_id, folder_id).store.library(server_id) == (
        ServerLibraryView {
            selected_music_folder_id: folder_id,
            ..before.store.library(server_id)
        }),
        before.select_music_folder(server_id, folder_id).queue == before.queue,
{
    reveal(ControllerView::select_music_folder);
    reveal(ControllerView::show_library);
    reveal(StoreView::with_music_folder);
    lemma_library_id(before.store, server_id);
    let kept = ServerLibraryView {
        selected_music_folder_id: folder_id,
        ..before.store.library(server_id)
    };
    libraries_are_kept_apart(before.store, server_id, kept, server_id);
    lemma_reconciled(before.store.with_library(server_id, kept));
}

/// What a search finds in the library of the shown source is told with what is kept of it.
pub proof fn found_items_are_told(before: ControllerView, query: Seq<char>)
    requires
        before.store.fault is None,
        reconciled(before.store).active_server() is Some,
    ensures
        ({
            let after = before.search(query);
            let saved = reconciled(before.store).active_server()->0;
            let found = search_of(before.store.library(saved.server.id), query);
            &&& after.events.len() == before.events.len() + 1
            &&& after.events.last() matches ControllerEventView::Snapshot(snapshot) && {
                &&& snapshot.search.albums.len() == found.albums.len()
                &&& forall|i: int|
                    0 <= i < found.albums.len() ==> (#[trigger] snapshot.search.albums[i]).id
                        == found.albums[i].id
                &&& snapshot.search.tracks.len() == found.tracks.len()
                &&& forall|i: int|
                    0 <= i < found.tracks.len() ==> (#[trigger] snapshot.search.tracks[i]).id
                        == found.tracks[i].id
                &&& snapshot.search.artists.len() == found.artists.len()
                &&& forall|i: int|
                    0 <= i < found.artists.len() ==> (#[trigger] snapshot.search.artists[i]).id
                        == found.artists[i].id
                &&& snapshot.search.playlists == found.playlists
                &&& snapshot.server == Some(saved.server)
            }
            &&& after.effects == before.effects
            &&& after.queue == before.queue
        }),
{
    reveal(ControllerView::search);
    lemma_reconciled(before.store);
}

/// A source that is selected is the one that is shown, with the queue that was kept for it, at
/// the place where it was left; the player is asked to stop.
pub proof fn selecting_a_server_takes_up_its_queue(
    before: ControllerView,
    saved: SavedServerView,
    age_seconds: Option<u64>,
)
    requires
        before.store.fault is None,
        before.store.server(saved.server.id) == Some(saved),
    ensures
        ({
            let source = LibrarySourceSelectionView::Server(saved.server.id);
            let after = before.select_source(source, age_seconds);
            &&& after.store.settings.sources.selected == Some(source)
            &&& after.store.settings.sources.local_folders
                == before.store.settings.sources.local_folders
            &&& after.store.active == Some(saved.server.id)
            &&& after.store.servers == before.store.servers
            &&& before.store.library(saved.server.id).queue is None ==> after.queue == Some(
                QueueView::empty(saved.server.id),
            )
            &&& before.store.library(saved.server.id).queue matches Some(snapshot)
                ==> after.queue == Some(crate::queue::restored(snapshot))
            &&& after.effects.contains(EffectView::StopPlayer)
            &&& after.playback_snapshot.current == after.current()
            &&& after.playback_snapshot.state == PlaybackState::Stopped
        }),
{
    reveal(crate::controller::source_commands::kept_queue);
    reveal(ControllerView::select_source);
    reveal(crate::controller::source_commands::settings_selecting);
    let source = LibrarySourceSelectionView::Server(saved.server.id);
    let selected = before.with_store(
        before.store.with_settings(
            crate::controller::source_commands::settings_selecting(
                before.store.settings,
                Some(source),
            ),
        ),
    );
    lemma_show_source(selected, saved, selected.store.needs_sync(saved, age_seconds));
}

proof fn lemma_show_source(before: ControllerView, saved: SavedServerView, sync: bool)
    requires
        before.store.fault is None,
        before.store.server(saved.server.id) == Some(saved),
        before.store.settings.sources.selected == Some(
            LibrarySourceSelectionView::Server(saved.server.id),
        ) || (before.store.settings.sources.selected == Some(LibrarySourceSelectionView::Local)
            && saved.server.id == "local"@),
    ensures
        ({
            let after = before.show_source(saved, sync);
            &&& after.store.settings == before.store.settings
            &&& after.store.active == Some(saved.server.id)
            &&& after.store.servers == before.store.servers
            &&& after.queue == Some(
                crate::controller::source_commands::kept_queue(before.store, saved.server.id),
            )
            &&& after.effects.contains(EffectView::StopPlayer)
            &&& after.playback_snapshot.current == after.current()
            &&& after.playback_snapshot.state == PlaybackState::Stopped
            &&& after.tokens == before.tokens
            &&& !sync ==> after.store.libraries == before.store.libraries
        }),
{
    reveal(ControllerView::show_source);
    reveal(ControllerView::put_queue);
    reveal(ControllerView::show_library);
    reveal(ControllerView::start_sync);
    reveal(crate::controller::source_commands::waiting_player);
    reveal(crate::controller::source_commands::kept_queue);
    let placed = before.with_store(before.store.with_active(saved.server.id)).activate_queue(
        saved,
    );
    assert(placed.store == before.store.with_active(saved.server.id));
    assert(reconciled(placed.store) == placed.store);
    let at = placed.effects.len() - 1;
    assert(placed.effects[at] == EffectView::StopPlayer);
    let shown = placed.show_library();
    assert(shown.effects == placed.effects);
    assert(shown.effects[at] == EffectView::StopPlayer);
    if sync {
        let server_id = saved.server.id;
        let after = shown.start_sync(saved);
        lemma_library_id(shown.store, server_id);
        let syncing = shown.store.syncing(server_id);
        assert(reconciled(syncing) == syncing);
        assert(after.effects[at] == EffectView::StopPlayer);
    }
}

/// Local folders that are added are kept after those that there were, each once, and are shown
/// from there on; nothing else in the settings changes.
pub proof fn added_folders_are_kept_once(
    folders: Seq<LocalLibraryFolderView>,
    paths: Seq<Seq<char>>,
)
    ensures
        ({
            let after = crate::controller::source_commands::with_folders(folders, paths);
            &&& after.len() >= folders.len()
            &&& after.take(folders.len() as int) == folders
            &&& forall|i: int|
                0 <= i < paths.len() ==> after.contains(
                    (LocalLibraryFolderView { path: #[trigger] paths[i] }),
                )
            &&& forall|i: int|
                folders.len() <= i < after.len() ==> paths.contains((#[trigger] after[i]).path)
        }),
    decreases paths.len(),
{
    let after = crate::controller::source_commands::with_folders(folders, paths);
    let count = folders.len() as int;
    if paths.len() > 0 {
        let front = paths.drop_last();
        let before = crate::controller::source_commands::with_folders(folders, front);
        added_folders_are_kept_once(folders, front);
        let added = LocalLibraryFolderView { path: paths.last() };
        assert(after.take(count) =~= before.take(count));
        assert forall|i: int| 0 <= i < paths.len() implies after.contains(
            (LocalLibraryFolderView { path: #[trigger] paths[i] }),
        ) by {
            let wanted = LocalLibraryFolderView { path: paths[i] };
            if i < front.len() {
                assert(front[i] == paths[i]);
                assert(before.contains(wanted));
                let at = choose|at: int| 0 <= at < before.len() && before[at] == wanted;
                assert(after[at] == wanted);
            } else if !before.contains(added) {
                assert(after[before.len() as int] == added);
            }
        }
        assert forall|i: int| count <= i < after.len() implies paths.contains(
            (#[trigger] after[i]).path,
        ) by {
            if i < before.len() {
                assert(after[i] == before[i]);
                assert(front.contains(before[i].path));
                let at = choose|at: int| 0 <= at < front.len() && front[at] == before[i].path;
                assert(paths[at] == before[i].path);
            } else {
                assert(paths[paths.len() - 1] == after[i].path);
            }
        }
    } else {
        assert(after.take(count) =~= folders);
    }
}

/// After folders were added the local source is selected and shown, and they are kept.
pub proof fn adding_folders_shows_the_local_source(before: ControllerView, paths: Seq<Seq<char>>)
    requires
        before.store.fault is None,
        paths.len() > 0,
        before.store.server("local"@) matches Some(saved) && saved.server.id == "local"@,
    ensures
        ({
            let after = before.add_local_folders(paths);
            &&& after.store.settings.sources.selected == Some(LibrarySourceSelectionView::Local)
            &&& after.store.settings.sources.local_folders
                == crate::controller::source_commands::with_folders(
                before.store.settings.sources.local_folders,
                paths,
            )
            &&& after.store.active == Some("local"@)
        }),
{
    reveal(ControllerView::add_local_folders);
    reveal(crate::controller::source_commands::settings_selecting);
    reveal(crate::controller::source_commands::settings_with_folders);
    let added = before.with_store(
        before.store.with_settings(
            crate::controller::source_commands::settings_selecting(
                crate::controller::source_commands::settings_with_folders(
                    before.store.settings,
                    crate::controller::source_commands::with_folders(
                        before.store.settings.sources.local_folders,
                        paths,
                    ),
                ),
                Some(LibrarySourceSelectionView::Local),
            ),
        ),
    );
    let saved = before.store.server("local"@)->0;
    assert(added.store.server("local"@) == Some(saved));
    lemma_show_source(added, saved, true);
}

/// A folder that is removed is gone from the settings, and the others stay in their order.
pub proof fn removed_folders_are_gone(before: ControllerView, path: Seq<char>)
    requires
        before.store.fault is None,
        before.store.settings.sources.local_folders.contains(LocalLibraryFolderView { path }),
    ensures
        ({
            let after = before.remove_local_folder(path);
            let left = before.store.settings.sources.local_folders.filter(
                |folder: LocalLibraryFolderView| folder.path != path,
            );
            &&& after.store.settings.sources.local_folders == left
            &&& before.store.settings.sources.selected == Some(LibrarySourceSelectionView::Local)
                && left.len() == 0 ==> after.store.settings.sources.selected is None
            &&& left.len() > 0 ==> after.store.settings.sources.selected
                == before.store.settings.sources.selected
        }),
{
    reveal(ControllerView::remove_local_folder);
    reveal(ControllerView::show_library);
    reveal(ControllerView::start_sync);
    reveal(crate::controller::source_commands::settings_selecting);
    reveal(crate::controller::source_commands::settings_with_folders);
    let folders = before.store.settings.sources.local_folders;
    let test = crate::controller::source_commands::not_at(path);
    chosen_keeps_the_order(folders, test);
    lemma_fewer(folders, path);
}

proof fn lemma_fewer(folders: Seq<LocalLibraryFolderView>, path: Seq<char>)
    requires
        folders.contains(LocalLibraryFolderView { path }),
    ensures
        chosen(folders, crate::controller::source_commands::not_at(path)).len() < folders.len(),
    decreases folders.len(),
{
    let front = folders.drop_last();
    let wanted = LocalLibraryFolderView { path };
    lemma_no_more(front, path);
    if folders.last().path != path {
        let at = choose|at: int| 0 <= at < folders.len() && folders[at] == wanted;
        assert(front[at] == wanted);
        lemma_fewer(front, path);
    }
}

proof fn lemma_no_more(folders: Seq<LocalLibraryFolderView>, path: Seq<char>)
    ensures
        chosen(folders, crate::controller::source_commands::not_at(path)).len() <= folders.len(),
    decreases folders.len(),
{
    if folders.len() > 0 {
        lemma_no_more(folders.drop_last(), path);
    }
}

/// After a login its server is known as the session gave it, with its token, selected and shown,
/// and where a place of its files was given that is kept too; other servers and tokens stay.
pub proof fn logins_are_kept(
    before: ControllerView,
    request: LoginRequestView,
    session: ProviderSessionView,
    other: Seq<char>,
)
    requires
        before.store.fault is None,
        before.tokens.save_fault is None,
        other != session.server.id,
    ensures
        ({
            let after = before.take_login(request, session);
            let server_id = session.server.id;
            &&& after.store.server(server_id) matches Some(saved) && {
                &&& saved.server == session.server
                &&& saved.user_id == session.user_id
                &&& saved.username == session.username
                &&& saved.trust_invalid_cert == request.trust_invalid_cert
            }
            &&& after.store.server(other) == before.store.server(other)
            &&& token_of(after.tokens, server_id) == Some(session.access_token)
            &&& token_of(after.tokens, other) == token_of(before.tokens, other)
            &&& after.store.active == Some(server_id)
            &&& after.store.settings.sources.selected == Some(
                LibrarySourceSelectionView::Server(server_id),
            )
            &&& request.local_access_root is Some && trimmed(request.local_access_root->0).len() > 0
                ==> (after.store.library(server_id).local_access matches Some(access)
                && access.root_path == trimmed(request.local_access_root->0))
            &&& request.local_access_root is None ==> after.store.library(server_id).local_access
                == before.store.library(server_id).local_access
        }),
{
    reveal(ControllerView::take_login);
    reveal(ControllerView::activate_login);
    reveal(StoreView::with_login);
    reveal(crate::controller::source_commands::settings_selecting);
    let server_id = session.server.id;
    let saved = crate::controller::server_commands::saved_of(session, request.trust_invalid_cert);
    crate::controller::laws::tokens_are_read_back(
        before.tokens,
        server_id,
        session.access_token,
        other,
    );
    put_row_is_found::<SavedServer>(before.store.servers, saved);
    put_row_keeps_the_others::<SavedServer>(before.store.servers, saved, other);
    let known = before.store.with_server(saved);
    lemma_library_id(known, server_id);
    if let Some(root) = crate::controller::server_commands::trimmed_option(
        request.local_access_root,
    ) {
        let access = crate::controller::server_commands::access_of(
            server_id,
            root,
            request.path_replace_from,
            None,
        );
        libraries_are_kept_apart(
            known,
            server_id,
            ServerLibraryView { local_access: Some(access), ..known.library(server_id) },
            server_id,
        );
    }
    let kept = before.store.with_login(
        saved,
        request.local_access_root,
        request.path_replace_from,
    );
    let logged = ControllerView {
        tokens: crate::store::with_token(before.tokens, server_id, session.access_token),
        ..before
    };
    lemma_show_source(logged.with_store(kept), saved, false);
}

/// A server that is forgotten is gone, with all that was kept of its library, and is no longer
/// selected; others stay. Its images and its token go with it.
pub proof fn forgotten_servers_are_gone(
    before: ControllerView,
    saved: SavedServerView,
    other: Seq<char>,
)
    requires
        before.store.fault is None,
        before.store.wf(),
        !before.sync_in_flight.blocked,
        before.store.server(saved.server.id) == Some(saved),
        other != saved.server.id,
    ensures
        ({
            let server_id = saved.server.id;
            let after = before.forget_server(server_id);
            &&& after.store.server(server_id) is None
            &&& after.store.library(server_id) == empty_library(server_id)
            &&& after.store.server(other) == before.store.server(other)
            &&& after.store.library(other) == before.store.library(other)
            &&& after.store.active != Some(server_id)
            &&& after.store.settings.sources.selected != Some(
                LibrarySourceSelectionView::Server(server_id),
            )
            &&& after.effects.last() matches EffectView::ClearDiskCovers {
                server_id: cleared,
                next: AfterDiskClearView::Forgotten { was_active },
            } && cleared == server_id && was_active == (before.store.active == Some(server_id))
        }),
{
    reveal(ControllerView::forget_server);
    reveal(ControllerView::forget);
    reveal(StoreView::forgetting);
    reveal(crate::controller::source_commands::settings_selecting);
    let server_id = saved.server.id;
    reveal(StoreView::wf);
    removed_row_is_gone::<SavedServer>(before.store.servers, server_id, other);
    removed_row_is_gone::<ServerLibrary>(before.store.libraries, server_id, other);
    lemma_row_place::<SavedServer>(before.store.servers, server_id);
    if let Some(active) = before.store.active {
        lemma_row_place::<SavedServer>(before.store.servers, active);
    }
}

/// Once the images of a forgotten server are gone from the disk its token is too, and where it
/// was shown nothing is played any more.
pub proof fn forgotten_servers_leave_no_token(
    before: ControllerView,
    server_id: Seq<char>,
    was_active: bool,
    other: Seq<char>,
)
    requires
        before.tokens.delete_fault is None,
        before.tokens.wf(),
        other != server_id,
    ensures
        ({
            let after = before.disk_cleared(
                server_id,
                AfterDiskClearView::Forgotten { was_active },
            );
            &&& token_of(after.tokens, server_id) is None
            &&& token_of(after.tokens, other) == token_of(before.tokens, other)
            &&& was_active ==> after.queue is None && after.playback_snapshot.current is None
                && after.playback_snapshot.state == PlaybackState::Stopped
            &&& !was_active ==> after.queue == before.queue && after.playback_snapshot
                == before.playback_snapshot
        }),
{
    reveal(ControllerView::disk_cleared);
    reveal(ControllerView::drop_queue);
    reveal(ControllerView::show_library);
    removed_row_is_gone::<ServerToken>(before.tokens.tokens, server_id, other);
}

/// Clearing what was kept of a server leaves its library empty, but for what was chosen in it
/// and its queue, and asks for its images to be removed; other libraries stay.
pub proof fn cleared_libraries_are_empty(
    before: ControllerView,
    saved: SavedServerView,
    other: Seq<char>,
)
    requires
        before.store.fault is None,
        !before.sync_in_flight.blocked,
        !before.sync_in_flight.running.contains(saved.server.id),
        other != saved.server.id,
    ensures
        ({
            let kept = before.store.library(saved.server.id);
            let after = before.clear_cache(saved);
            let left = after.store.library(saved.server.id);
            &&& left.albums.len() == 0 && left.tracks.len() == 0 && left.artists.len() == 0
            &&& left.genres.len() == 0 && left.playlists.len() == 0 && left.lyrics.len() == 0
            &&& left.covers.len() == 0 && left.local_matches.len() == 0
            &&& left.queue == kept.queue
            &&& left.selected_music_folder_id == kept.selected_music_folder_id
            &&& left.local_access == kept.local_access
            &&& left.sync.status == "idle"@
            &&& after.store.library(other) == before.store.library(other)
            &&& after.store.servers == before.store.servers
            &&& after.effects.last() == (EffectView::ClearDiskCovers {
                server_id: saved.server.id,
                next: AfterDiskClearView::Cleared,
            })
        }),
{
    reveal(ControllerView::clear_cache);
    lemma_library_id(before.store, saved.server.id);
    libraries_are_kept_apart(
        before.store,
        saved.server.id,
        before.store.library(saved.server.id).cleared(),
        other,
    );
}

/// The place of a server's files is kept as given, and its tracks are asked to be matched with
/// the files there; where it is taken back the matches go too.
pub proof fn places_of_files_are_kept(
    before: ControllerView,
    access: ServerLocalAccessView,
)
    requires
        before.store.fault is None,
    ensures
        ({
            let server_id = access.server_id;
            let set = before.save_access(access);
            let cleared = before.clear_access(server_id);
            &&& set.store.library(server_id) == (ServerLibraryView {
                local_access: Some(access),
                ..before.store.library(server_id)
            })
            &&& set.effects == before.effects.push(
                EffectView::MatchLocalTracks { server_id, root_path: access.root_path },
            )
            &&& cleared.store.library(server_id) == (ServerLibraryView {
                local_access: None,
                local_matches: Seq::empty(),
                ..before.store.library(server_id)
            })
        }),
{
    reveal(ControllerView::save_access);
    reveal(ControllerView::clear_access);
    reveal(ControllerView::show_library);
    reveal(ControllerView::prepare_next);
    let server_id = access.server_id;
    lemma_library_id(before.store, server_id);
    let kept = before.store.library(server_id);
    libraries_are_kept_apart(
        before.store,
        server_id,
        ServerLibraryView { local_access: Some(access), ..kept },
        server_id,
    );
    let without = ServerLibraryView { local_access: None, ..kept };
    libraries_are_kept_apart(before.store, server_id, without, server_id);
    let first = before.store.with_access(server_id, None);
    libraries_are_kept_apart(
        first,
        server_id,
        ServerLibraryView { local_matches: Seq::empty(), ..without },
        server_id,
    );
    lemma_reconciled(first.with_matches(server_id, Seq::empty()));
}

/// Once the files of a server were read its tracks are matched with them, where its files may
/// be reached; other libraries stay.
pub proof fn read_files_are_matched(
    before: ControllerView,
    server_id: Seq<char>,
    files: Seq<TrackView>,
)
    requires
        before.store.fault is None,
        before.store.library(server_id).local_access is Some,
        before.store.server(server_id) matches Some(saved) && saved.server.provider != "local"@,
    ensures
        ({
            let kept = before.store.library(server_id);
            let after = before.files_read(server_id, Some(files));
            after.store.library(server_id) == (ServerLibraryView {
                local_matches: if kept.tracks.len() == 0 {
                    Seq::<TrackLocalMatchView>::empty()
                } else {
                    crate::local_access::sure_matches(kept.tracks, files)
                },
                ..kept
            })
        }),
        before.files_read(server_id, None).store.library(server_id) == before.store.library(
            server_id,
        ),
{
    reveal(ControllerView::files_read);
    reveal(ControllerView::show_library);
    reveal(ControllerView::prepare_next);
    reveal(StoreView::rematched);
    let kept = before.store.library(server_id);
    lemma_library_id(before.store, server_id);
    let matches = if kept.tracks.len() == 0 {
        Seq::<TrackLocalMatchView>::empty()
    } else {
        crate::local_access::sure_matches(kept.tracks, files)
    };
    libraries_are_kept_apart(
        before.store,
        server_id,
        ServerLibraryView { local_matches: matches, ..kept },
        server_id,
    );
    lemma_reconciled(before.store.with_matches(server_id, matches));
    lemma_reconciled(before.store);
}

/// To read a library marks it as being read, under a new number, and asks for it once; where
/// that fails the error is kept and told, and where it ends that is told.
pub proof fn libraries_are_marked_while_read(
    before: ControllerView,
    saved: SavedServerView,
    error: Seq<char>,
)
    requires
        before.store.fault is None,
        !before.sync_in_flight.blocked,
        !before.sync_in_flight.running.contains(saved.server.id),
        before.store.active_server() == Some(saved),
    ensures
        ({
            let server_id = saved.server.id;
            let kept = before.store.library(server_id);
            let started = before.start_sync(saved);
            let failed = before.sync_failed(server_id, error);
            let finished = before.sync_finished(saved);
            &&& started.store.library(server_id) == (ServerLibraryView {
                sync: SyncStateView {
                    status: "syncing"@,
                    generation: kept.sync.generation.wrapping_add(1),
                    error: None,
                },
                ..kept
            })
            &&& started.effects.drop_last() == before.effects
            &&& started.effects.last() matches EffectView::Sync { saved: asked, generation, .. }
                && asked == saved && generation == kept.sync.generation.wrapping_add(1)
            &&& started.sync_in_flight.running.contains(server_id)
            &&& failed.store.library(server_id) == (ServerLibraryView {
                sync: SyncStateView {
                    status: "error"@,
                    generation: kept.sync.generation,
                    error: Some(error),
                },
                ..kept
            })
            &&& failed.events == before.events.push(ControllerEventView::Error(error))
            &&& !failed.sync_in_flight.running.contains(server_id)
            &&& !finished.sync_in_flight.running.contains(server_id)
            &&& finished.store.library(server_id) == kept
        }),
{
    reveal(ControllerView::start_sync);
    reveal(ControllerView::sync_failed);
    reveal(ControllerView::sync_finished);
    reveal(ControllerView::show_library);
    let server_id = saved.server.id;
    let kept = before.store.library(server_id);
    lemma_library_id(before.store, server_id);
    let syncing = kept.with_sync("syncing"@, kept.sync.generation.wrapping_add(1), None);
    libraries_are_kept_apart(before.store, server_id, syncing, server_id);
    lemma_reconciled(before.store.syncing(server_id));
    let failed = kept.with_sync("error"@, kept.sync.generation, Some(error));
    libraries_are_kept_apart(before.store, server_id, failed, server_id);
    lemma_reconciled(before.store);
    assert(before.start_sync(saved).effects.drop_last() =~= before.effects);
}

/// A section of the home page that was read again takes the place of the one of its kind, and
/// the others stay as they were.
pub proof fn refreshed_sections_take_their_place(
    sections: Seq<HomeSectionView>,
    section: HomeSectionView,
    at: int,
)
    requires
        0 <= at < sections.len(),
        sections[at].kind != section.kind,
    ensures
        ({
            let after = crate::store::put_section(sections, section);
            &&& after.contains(section)
            &&& after[at] == sections[at]
            &&& sections.len() <= after.len() <= sections.len() + 1
            &&& (exists|i: int|
                0 <= i < sections.len() && (#[trigger] sections[i]).kind == section.kind)
                ==> after.len() == sections.len()
        }),
{
    lemma_section_place(sections, section);
    let after = crate::store::put_section(sections, section);
    let place = crate::store::section_place(sections, section.kind);
    if place < sections.len() {
        assert(after[place] == section);
    } else {
        assert(after[sections.len() as int] == section);
    }
}

proof fn lemma_section_place(sections: Seq<HomeSectionView>, section: HomeSectionView)
    ensures
        0 <= crate::store::section_place(sections, section.kind) <= sections.len(),
        crate::store::section_place(sections, section.kind) < sections.len()
            ==> sections[crate::store::section_place(sections, section.kind)].kind == section.kind,
        crate::store::section_place(sections, section.kind) == sections.len() ==> forall|i: int|
            0 <= i < sections.len() ==> (#[trigger] sections[i]).kind != section.kind,
    decreases sections.len(),
{
    if sections.len() > 0 && sections[0].kind != section.kind {
        let rest = sections.drop_first();
        lemma_section_place(rest, section);
        if crate::store::section_place(sections, section.kind) == sections.len() {
            assert forall|i: int| 0 <= i < sections.len() implies (#[trigger] sections[i]).kind
                != section.kind by {
                if i > 0 {
                    assert(rest[i - 1] == sections[i]);
                }
            }
        }
    }
}

/// The place of a server's files is kept with the prefix that it replaces, without the white
/// space around it; where nothing stands for that prefix the place itself does.
pub proof fn places_of_files_are_put_in(
    server_id: Seq<char>,
    root: Seq<char>,
    from: Seq<char>,
    to: Seq<char>,
)
    ensures
        ({
            let access = crate::controller::server_commands::access_of(
                server_id,
                root,
                Some(from),
                Some(to),
            );
            &&& access.server_id == server_id
            &&& access.root_path == root
            &&& trimmed(from).len() > 0 ==> access.path_replace_from == Some(trimmed(from))
            &&& trimmed(from).len() == 0 ==> access.path_replace_from is None
            &&& trimmed(to).len() > 0 ==> access.path_replace_to == Some(trimmed(to))
            &&& trimmed(to).len() == 0 ==> access.path_replace_to == Some(root)
        }),
        crate::controller::server_commands::access_of(
            server_id,
            root,
            None,
            None,
        ).path_replace_from is None,
{
}

/// A login is asked of the server with what was put in, for Jellyfin under the identifier of
/// this device, which is kept.
pub proof fn logins_are_asked_as_put_in(
    before: ControllerView,
    request: LoginRequestView,
    generated: Seq<char>,
)
    requires
        before.store.fault is None,
    ensures
        ({
            let after = before.login(request, generated);
            &&& after.effects.drop_last() == before.effects
            &&& after.effects.last() matches EffectView::Login { request: asked, device_id }
                && asked == request && (device_id is Some <==> request.provider
                == crate::model::source::StreamingProvider::Jellyfin) && (device_id matches Some(id)
                ==> after.store.settings.jellyfin_device_id == id)
            &&& after.store.servers == before.store.servers
            &&& after.store.libraries == before.store.libraries
            &&& after.queue == before.queue
            &&& after.tokens == before.tokens
        }),
{
    reveal(ControllerView::login);
    reveal(crate::controller::server_commands::settings_with_device);
    assert(before.login(request, generated).effects.drop_last() =~= before.effects);
}

/// An edit of a server that changes no credentials is kept at once; one that does is kept only
/// after a new login, which is asked for; one that changes nothing is told so.
pub proof fn edits_of_servers_are_kept_or_logged_in(
    before: ControllerView,
    saved: SavedServerView,
    input: crate::model::events::ServerSettingsInputView,
)
    requires
        before.store.fault is None,
        before.store.server(input.server_id) == Some(saved),
        saved.server.id == input.server_id,
        !before.sync_in_flight.blocked,
        !before.sync_in_flight.running.contains(input.server_id),
    ensures
        ({
            let after = before.update_server(input);
            match crate::server_settings::prepared(saved, input) {
                Err(error) => after == before.fail(error),
                Ok(None) => after.store == before.store && after.effects == before.effects,
                Ok(Some(update)) => if update.reauth is Some {
                    after.store == before.store && after.tokens == before.tokens
                        && after.effects == before.effects.push(EffectView::Reauthenticate(update))
                } else {
                    &&& after.store.server(input.server_id) == Some(
                        crate::server_settings::edited(update, None),
                    )
                    &&& after.store.library(input.server_id) == before.store.library(
                        input.server_id,
                    )
                    &&& after.tokens == before.tokens
                },
            }
        }),
{
    reveal(ControllerView::update_server);
    reveal(ControllerView::apply_edit);
    reveal(ControllerView::keep_edit);
    reveal(ControllerView::show_library);
    if let Ok(Some(update)) = crate::server_settings::prepared(saved, input) {
        let edited = crate::server_settings::edited(update, None);
        put_row_is_found::<SavedServer>(before.store.servers, edited);
        let kept = before.store.with_server(edited);
        lemma_reconciled(kept);
        lemma_reconciled_server(kept, input.server_id);
    }
}

proof fn lemma_reconciled_server(store: StoreView, server_id: Seq<char>)
    requires
        store.server(server_id) is Some,
    ensures
        reconciled(store).server(server_id) == store.server(server_id),
{
    if store.server("local"@) is None {
        let local = crate::cached_reads::local_source();
        put_row_keeps_the_others::<SavedServer>(store.servers, local, server_id);
    }
}

/// After a login with another identity nothing of the old library is left, nor its queue; with
/// the same identity the library stays. The new token is kept either way.
pub proof fn other_identities_clear_the_library(
    before: ControllerView,
    update: crate::model::events::PreparedServerSettingsUpdateView,
    session: ProviderSessionView,
)
    requires
        before.store.fault is None,
        before.tokens.load_fault is None,
        before.tokens.save_fault is None,
        session.server.provider == update.saved.server.provider,
    ensures
        ({
            let server_id = update.saved.server.id;
            let after = before.keep_edit(update, Some(session));
            let left = after.store.library(server_id);
            let same = session.server.id == server_id && session.user_id == update.saved.user_id;
            &&& token_of(after.tokens, server_id) == Some(session.access_token)
            &&& after.store.server(server_id) == Some(
                crate::server_settings::edited(update, Some(session)),
            )
            &&& same ==> left == before.store.library(server_id)
            &&& !same ==> left.albums.len() == 0 && left.tracks.len() == 0 && left.playlists.len()
                == 0 && left.lyrics.len() == 0 && left.queue is None
        }),
{
    reveal(ControllerView::keep_edit);
    let server_id = update.saved.server.id;
    let edited = crate::server_settings::edited(update, Some(session));
    put_row_is_found::<SavedServer>(before.store.servers, edited);
    crate::controller::laws::tokens_are_read_back(
        before.tokens,
        server_id,
        session.access_token,
        server_id + seq!['x'],
    );
    let known = before.store.with_server(edited);
    lemma_library_id(known, server_id);
    libraries_are_kept_apart(
        known,
        server_id,
        ServerLibraryView { queue: None, ..known.library(server_id).cleared() },
        server_id,
    );
}

/// Once a login succeeded its library is asked for; where it cannot be kept that is told, and
/// nothing is asked for.
pub proof fn logins_lead_to_a_reading(
    before: ControllerView,
    request: LoginRequestView,
    session: ProviderSessionView,
    fault: Seq<char>,
)
    requires
        !before.sync_in_flight.blocked,
        !before.sync_in_flight.running.contains(session.server.id),
    ensures
        before.store.fault is None && before.tokens.save_fault is None ==> (before.login_succeeded(
            request,
            session,
        ).effects.last() matches EffectView::Sync { saved, .. } && saved.server == session.server
            && saved.user_id == session.user_id),
        before.tokens.save_fault == Some(fault) ==> before.login_succeeded(request, session)
            == before.fail(fault),
{
    reveal(ControllerView::login_succeeded);
    reveal(ControllerView::take_login);
    reveal(ControllerView::activate_login);
    reveal(ControllerView::start_sync);
    reveal(ControllerView::show_source);
    reveal(ControllerView::put_queue);
    reveal(ControllerView::show_library);
    reveal(StoreView::with_login);
}

/// A folder is asked of the shown source with its path and the music folder that is selected;
/// without a source that it cannot be had is told.
pub proof fn folders_are_asked_of_the_shown_source(
    before: ControllerView,
    request_id: u64,
    path: Seq<crate::model::events::FolderPathItemView>,
)
    requires
        before.store.fault is None,
    ensures
        before.store.active_server() matches Some(saved) ==> before.load_folder(request_id, path)
            == before.ask(
            EffectView::LoadFolder {
                saved,
                request_id,
                path,
                selected_music_folder_id: before.store.library(
                    saved.server.id,
                ).selected_music_folder_id,
            },
        ),
        before.store.active_server() is None ==> before.load_folder(request_id, path).effects
            == before.effects && before.load_folder(request_id, path).events.last()
            is FolderLoadFailed,
{
    reveal(ControllerView::load_folder);
}

/// A section that was read ahead is kept aside and told, and the home page stays; once it is
/// taken up it is on the home page and no longer aside.
pub proof fn sections_read_ahead_wait_until_taken_up(
    before: ControllerView,
    saved: SavedServerView,
    section: HomeSectionView,
)
    requires
        before.store.fault is None,
        before.store.active_server() == Some(saved),
        saved.server.provider != "local"@,
        section.kind == crate::model::library::HomeSectionKind::Explore,
    ensures
        ({
            let server_id = saved.server.id;
            let kept = before.store.library(server_id);
            let ahead = before.explore_prefetched(saved, section);
            let taken = before.promote_explore(section);
            &&& ahead.store.library(server_id).home_sections == kept.home_sections
            &&& ahead.store.library(server_id).prefetched_sections.contains(section)
            &&& ahead.events == before.events.push(
                ControllerEventView::HomeSectionPrefetched { server_id, section },
            )
            &&& taken.store.library(server_id).home_sections.contains(section)
            &&& forall|i: int|
                0 <= i < taken.store.library(server_id).prefetched_sections.len() ==> (
                #[trigger] taken.store.library(server_id).prefetched_sections[i]).kind
                    != section.kind
        }),
{
    reveal(ControllerView::explore_prefetched);
    reveal(ControllerView::promote_explore);
    let server_id = saved.server.id;
    let kept = before.store.library(server_id);
    lemma_library_id(before.store, server_id);
    crate::home_sections::sections_keep_what_fits_their_source(section);
    let aside = ServerLibraryView {
        prefetched_sections: crate::store::put_section(kept.prefetched_sections, section),
        ..kept
    };
    libraries_are_kept_apart(before.store, server_id, aside, server_id);
    lemma_section_kept(kept.prefetched_sections, section);
    lemma_section_kept(kept.home_sections, section);
    let test = crate::store::not_of_kind(section.kind);
    let others = chosen(kept.prefetched_sections, test);
    let shown = ServerLibraryView {
        home_sections: crate::store::put_section(kept.home_sections, section),
        prefetched_sections: others,
        ..kept
    };
    libraries_are_kept_apart(before.store, server_id, shown, server_id);
    lemma_reconciled(before.store.with_library(server_id, shown));
    assert forall|i: int| 0 <= i < others.len() implies (#[trigger] others[i]).kind
        != section.kind by {
        assert(others.contains(others[i]));
        crate::select::chosen_are_those_that_pass(kept.prefetched_sections, test, others[i]);
    }
}

proof fn lemma_section_kept(sections: Seq<HomeSectionView>, section: HomeSectionView)
    ensures
        crate::store::put_section(sections, section).contains(section),
{
    lemma_section_place(sections, section);
    let after = crate::store::put_section(sections, section);
    let place = crate::store::section_place(sections, section.kind);
    if place < sections.len() {
        assert(after[place] == section);
    } else {
        assert(after[sections.len() as int] == section);
    }
}

/// The library of a server is to be read where nothing of it is kept, where the last reading
/// failed, or where none ended within six hours.
pub proof fn libraries_are_read_where_empty_failed_or_old(
    store: StoreView,
    saved: SavedServerView,
    age_seconds: Option<u64>,
)
    requires
        saved.server.provider != "local"@,
    ensures
        ({
            let library = store.library(saved.server.id);
            let empty = library.albums.len() == 0 && library.tracks.len() == 0;
            let recent = age_seconds matches Some(age) && age < 6 * 60 * 60;
            store.needs_sync(saved, age_seconds) <==> empty || library.sync.status == "error"@
                || !recent
        }),
{
    reveal(StoreView::needs_sync);
    crate::readiness::server_libraries_are_read_again_after_six_hours(
        store.readiness_input(saved, age_seconds, false),
    );
}

/// The home page, the playlists and what is shown ahead are read again once at a time, and not
/// while the library itself is read.
pub proof fn parts_are_read_again_once_at_a_time(
    before: ControllerView,
    saved: SavedServerView,
    target: crate::model::events::HomeRefreshTargetView,
)
    requires
        saved.server.provider != "fake"@,
        saved.server.provider != "local"@,
        !before.sync_in_flight.blocked,
        !before.home_refresh_in_flight.blocked,
        !before.playlist_refresh_in_flight.blocked,
        !before.explore_prefetch_in_flight.blocked,
    ensures
        ({
            let server_id = saved.server.id;
            let busy = before.sync_in_flight.running.contains(server_id);
            let home = before.start_home_refresh(saved, target);
            let playlists = before.start_playlist_refresh(saved);
            let explore = before.start_explore_prefetch(saved);
            &&& busy ==> home == before && playlists == before && explore == before
            &&& !busy && !before.home_refresh_in_flight.running.contains(server_id)
                ==> home.effects == before.effects.push(EffectView::RefreshHome { saved, target })
                && home.start_home_refresh(saved, target) == home
            &&& before.home_refresh_in_flight.running.contains(server_id) ==> home == before
            &&& !busy && !before.playlist_refresh_in_flight.running.contains(server_id)
                ==> playlists.effects == before.effects.push(EffectView::RefreshPlaylists(saved))
                && playlists.start_playlist_refresh(saved) == playlists
            &&& before.playlist_refresh_in_flight.running.contains(server_id) ==> playlists
                == before
            &&& !busy && !before.explore_prefetch_in_flight.running.contains(server_id)
                ==> explore.effects == before.effects.push(EffectView::PrefetchExplore(saved))
                && explore.start_explore_prefetch(saved) == explore
            &&& before.explore_prefetch_in_flight.running.contains(server_id) ==> explore
                == before
        }),
{
    reveal(ControllerView::start_home_refresh);
    reveal(ControllerView::start_playlist_refresh);
    reveal(ControllerView::start_explore_prefetch);
}

/// A section of the home page that was read again is on the home page after that, and it may be
/// read again; other libraries stay.
pub proof fn refreshed_sections_are_kept(
    before: ControllerView,
    saved: SavedServerView,
    target: crate::model::events::HomeRefreshTargetView,
    section: HomeSectionView,
    other: Seq<char>,
)
    requires
        before.store.fault is None,
        saved.server.provider != "local"@,
        other != saved.server.id,
    ensures
        ({
            let after = before.home_refreshed(saved, target, seq![section]);
            &&& after.store.library(saved.server.id).home_sections.contains(section)
            &&& after.store.library(other) == before.store.library(other)
            &&& !after.home_refresh_in_flight.running.contains(saved.server.id)
            &&& after.events.last() is HomeSectionsUpdated
        }),
{
    reveal(ControllerView::home_refreshed);
    reveal_with_fuel(StoreView::with_sections, 2);
    let server_id = saved.server.id;
    let kept = before.store.library(server_id);
    lemma_library_id(before.store, server_id);
    crate::home_sections::sections_keep_what_fits_their_source(section);
    let sections = seq![section];
    assert(sections.drop_last() =~= Seq::<HomeSectionView>::empty());
    assert(before.store.with_sections(saved, Seq::<HomeSectionView>::empty()) == before.store);
    let shown = ServerLibraryView {
        home_sections: crate::store::put_section(kept.home_sections, section),
        ..kept
    };
    assert(before.store.with_sections(saved, sections) == before.store.with_library(
        server_id,
        shown,
    ));
    libraries_are_kept_apart(before.store, server_id, shown, other);
    lemma_section_kept(kept.home_sections, section);
    lemma_reconciled(before.store.with_library(server_id, shown));
}

} // verus!
