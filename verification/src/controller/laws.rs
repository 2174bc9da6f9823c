//! What holds of the controller and the store as a whole: what is read back of what was
//! written, what is never told, and what late answers do.

use crate::cached_reads::{is_local, scrubbed, shown_albums, source_settings};
use crate::controller::cached_library::kept_playlist;
use crate::controller::ControllerView;
use crate::external_metadata::{
    album_ref, album_ref_round_trip, is_external, normalized_album,
};
use crate::model::events::{
    ControllerEventView, CurrentStreamRequestView, FavoriteItemIdView,
    PreparedServerSettingsUpdateView,
};
use crate::model::library::{
    AlbumView, Playlist, PlaylistDetailView, PlaylistEntryView, PlaylistView, Track, TrackView,
};
use crate::model::lyrics::{Lyrics, LyricsView};
use crate::model::playback::{
    PlaybackCommandView, PlaybackReportKind, PlaybackSnapshotView, PlaybackState,
    StreamDescriptorView,
};
use crate::model::queue::QueueSnapshotView;
use crate::model::settings::{AppSettingsView, PlaybackSettingsView};
use crate::model::source::{ProviderSessionView, SavedServerView};
use crate::model::store::{
    CoverCacheEntryView, PlaylistRows, PlaylistRowsView, ServerLibrary, ServerLibraryView,
    ServerToken, ServerTokenView, StoreView, TokenStoreView,
};
use crate::queue::{ids, QueueView};
use crate::select::{chosen, chosen_are_those_that_pass};
use crate::store::{
    is_cover_of, is_other_cover, token_of, track_favorite, with_token, without_token,
};
use crate::store_keys::libraries_are_wf;
use crate::table::{
    lemma_row_place, put_row, put_row_is_found, put_row_keeps_the_others, put_rows,
    removed_row_is_gone, row, row_place, without_row,
};
use vstd::prelude::*;

verus! {

proof fn lemma_library_of(store: StoreView, server_id: Seq<char>)
    ensures
        store.library(server_id).server_id == server_id,
{
    lemma_row_place::<ServerLibrary>(store.libraries, server_id);
}

proof fn lemma_written(store: StoreView, server_id: Seq<char>, library: ServerLibraryView)
    requires
        library.server_id == server_id,
    ensures
        store.with_library(server_id, library).library(server_id) == library,
{
    put_row_is_found::<ServerLibrary>(store.libraries, library);
}

/// A playlist that was written is read back as it was, with its entries.
pub proof fn playlists_are_read_back(
    store: StoreView,
    server_id: Seq<char>,
    playlist: PlaylistView,
    tracks: Seq<TrackView>,
    entries: Seq<PlaylistEntryView>,
)
    ensures
        kept_playlist(
            store.with_playlist(server_id, playlist, tracks, entries).library(server_id),
            playlist.id,
        ) == Some(PlaylistDetailView { playlist, entries }),
{
    reveal(StoreView::with_playlist);
    let first = store.with_playlist_row(server_id, playlist);
    let second = first.with_tracks(server_id, tracks);
    lemma_library_of(store, server_id);
    let kept = store.library(server_id);
    lemma_written(
        store,
        server_id,
        ServerLibraryView {
            playlists: put_rows::<Playlist>(kept.playlists, seq![playlist]),
            ..kept
        },
    );
    let listed = first.library(server_id);
    lemma_written(
        first,
        server_id,
        ServerLibraryView { tracks: put_rows::<Track>(listed.tracks, tracks), ..listed },
    );
    let known = second.library(server_id);
    let rows = PlaylistRowsView { playlist_id: playlist.id, entries };
    lemma_written(
        second,
        server_id,
        ServerLibraryView {
            playlist_rows: put_row::<PlaylistRows>(known.playlist_rows, rows),
            ..known
        },
    );
    put_row_is_found::<PlaylistRows>(known.playlist_rows, rows);
    assert(seq![playlist].drop_last() =~= Seq::<PlaylistView>::empty());
    reveal_with_fuel(put_rows, 2);
    put_row_is_found::<Playlist>(kept.playlists, playlist);
}

/// A queue that was saved is read back as it was.
pub proof fn queues_are_read_back(store: StoreView, snapshot: QueueSnapshotView)
    ensures
        store.with_queue(snapshot).library(snapshot.server_id).queue == Some(snapshot),
{
    lemma_library_of(store, snapshot.server_id);
    lemma_written(
        store,
        snapshot.server_id,
        ServerLibraryView { queue: Some(snapshot), ..store.library(snapshot.server_id) },
    );
}

/// Lyrics that were kept are read back as they were.
pub proof fn lyrics_are_read_back(store: StoreView, server_id: Seq<char>, lyrics: LyricsView)
    ensures
        row::<Lyrics>(
            store.with_lyrics(server_id, lyrics).library(server_id).lyrics,
            lyrics.track_id,
        ) == Some(lyrics),
{
    let library = store.library(server_id);
    lemma_library_of(store, server_id);
    lemma_written(
        store,
        server_id,
        ServerLibraryView { lyrics: put_row::<Lyrics>(library.lyrics, lyrics), ..library },
    );
    put_row_is_found::<Lyrics>(library.lyrics, lyrics);
}

/// Lyrics from elsewhere that were forgotten are gone, and those of other tracks stay.
pub proof fn forgotten_lyrics_are_gone(
    store: StoreView,
    server_id: Seq<char>,
    track_id: Seq<char>,
    other: Seq<char>,
)
    requires
        store.wf(),
        store.library(server_id).has_remote_lyrics(track_id),
        other != track_id,
    ensures
        ({
            let left = store.without_remote_lyrics(server_id, track_id).library(server_id).lyrics;
            &&& row::<Lyrics>(left, track_id) is None
            &&& row::<Lyrics>(left, other) == row::<Lyrics>(store.library(server_id).lyrics, other)
        }),
{
    reveal(StoreView::without_remote_lyrics);
    let library = store.library(server_id);
    libraries_are_wf(store, server_id);
    lemma_written(
        store,
        server_id,
        ServerLibraryView { lyrics: without_row::<Lyrics>(library.lyrics, track_id), ..library },
    );
    removed_row_is_gone::<Lyrics>(library.lyrics, track_id, other);
}

/// An image that was kept is found for its item, tag and size.
pub proof fn images_are_read_back(store: StoreView, entry: CoverCacheEntryView)
    ensures
        store.with_cover(entry).library(entry.server_id).cover(
            entry.item_id,
            entry.image_tag,
            entry.size,
        ) == Some(entry),
{
    let library = store.library(entry.server_id);
    let others = chosen(
        library.covers,
        is_other_cover(entry.item_id, entry.image_tag, entry.size),
    );
    lemma_library_of(store, entry.server_id);
    lemma_written(
        store,
        entry.server_id,
        ServerLibraryView { covers: others.push(entry), ..library },
    );
    let test = is_cover_of(entry.item_id, entry.image_tag, entry.size);
    assert forall|i: int| 0 <= i < others.len() implies !test(#[trigger] others[i]) by {
        assert(others.contains(others[i]));
        chosen_are_those_that_pass(
            library.covers,
            is_other_cover(entry.item_id, entry.image_tag, entry.size),
            others[i],
        );
    }
    lemma_none_chosen(others, test);
    assert(others.push(entry).drop_last() =~= others);
}

proof fn lemma_none_chosen(
    entries: Seq<CoverCacheEntryView>,
    test: spec_fn(CoverCacheEntryView) -> bool,
)
    requires
        forall|i: int| 0 <= i < entries.len() ==> !test(#[trigger] entries[i]),
    ensures
        chosen(entries, test) == Seq::<CoverCacheEntryView>::empty(),
    decreases entries.len(),
{
    if entries.len() > 0 {
        assert forall|i: int| 0 <= i < entries.drop_last().len() implies !test(
            #[trigger] entries.drop_last()[i],
        ) by {
            assert(entries.drop_last()[i] == entries[i]);
        }
        lemma_none_chosen(entries.drop_last(), test);
        assert(!test(entries[entries.len() - 1]));
    }
}

/// A token that was kept is read back as it was, and those of other sources stay.
pub proof fn tokens_are_read_back(
    tokens: TokenStoreView,
    server_id: Seq<char>,
    token: Seq<char>,
    other: Seq<char>,
)
    requires
        other != server_id,
    ensures
        token_of(with_token(tokens, server_id, token), server_id) == Some(token),
        token_of(with_token(tokens, server_id, token), other) == token_of(tokens, other),
{
    let row = ServerTokenView { server_id, token };
    put_row_is_found::<ServerToken>(tokens.tokens, row);
    put_row_keeps_the_others::<ServerToken>(tokens.tokens, row, other);
}

/// Exactly the tracks with an identifier are marked, all alike, and nothing else about any
/// track changes.
pub proof fn favorites_are_marked(
    store: StoreView,
    server_id: Seq<char>,
    track_id: Seq<char>,
    favorite: bool,
)
    ensures
        ({
            let before = store.library(server_id).tracks;
            let after = store.with_favorite(
                server_id,
                FavoriteItemIdView::Track(track_id),
                favorite,
            ).library(server_id).tracks;
            &&& after.len() == before.len()
            &&& forall|i: int|
                0 <= i < before.len() ==> #[trigger] after[i] == (TrackView {
                    favorite: if before[i].id == track_id {
                        favorite
                    } else {
                        before[i].favorite
                    },
                    ..before[i]
                })
        }),
{
    reveal(StoreView::with_favorite);
    let library = store.library(server_id);
    lemma_library_of(store, server_id);
    lemma_written(
        store,
        server_id,
        ServerLibraryView {
            tracks: library.tracks.map_values(track_favorite(track_id, favorite)),
            ..library
        },
    );
}

/// A stream that comes late, after something else was asked for, is not played, and that it
/// cannot be had is not told.
pub proof fn late_streams_are_ignored(
    before: ControllerView,
    request: CurrentStreamRequestView,
    stream: StreamDescriptorView,
    error: Seq<char>,
)
    requires
        !before.is_current_request(request.generation, request.server_id, request.entry),
    ensures
        before.play_stream(request, stream) == before,
        before.stream_failed(request, error) == before,
{
    reveal(ControllerView::play_stream);
}

/// Once another entry is started, what was asked for before is late.
pub proof fn starting_makes_earlier_requests_late(
    before: ControllerView,
    request: CurrentStreamRequestView,
)
    requires
        before.current() is Some,
        request.generation == before.playback_request_generation,
    ensures
        !before.start_current().is_current_request(
            request.generation,
            request.server_id,
            request.entry,
        ),
{
    reveal(ControllerView::start_current);
    reveal(ControllerView::report);
}

/// Once the queue of another source is taken up, what was asked for before is late.
pub proof fn another_source_makes_earlier_requests_late(
    before: ControllerView,
    saved: SavedServerView,
    request: CurrentStreamRequestView,
)
    requires
        request.generation == before.playback_request_generation,
    ensures
        !before.activate_queue(saved).is_current_request(
            request.generation,
            request.server_id,
            request.entry,
        ),
{
    reveal(ControllerView::put_queue);
}

/// What the player refuses changes nothing: what is kept, the queue and the player's state stay
/// as they were, and the error is told once. An entry that it refuses to play leaves it stopped,
/// with the error known.
pub proof fn refusals_change_nothing(
    before: ControllerView,
    command: PlaybackCommandView,
    error: Seq<char>,
)
    requires
        !(command is UpdateSettings),
        command != PlaybackCommandView::PrepareNext(None),
    ensures
        ({
            let after = before.command_rejected(command, error);
            &&& after.store == before.store
            &&& after.queue == before.queue
            &&& after.effects == before.effects
            &&& after.events == before.events.push(ControllerEventView::Error(error))
            &&& after.playback_snapshot == (if command is PlayPrepared {
                PlaybackSnapshotView {
                    state: PlaybackState::Stopped,
                    last_error: Some(error),
                    ..before.playback_snapshot
                }
            } else {
                before.playback_snapshot
            })
        }),
{
}

/// To tell the player something changes no state of it and keeps nothing: only its answer does.
pub proof fn commands_wait_for_their_answer(
    before: ControllerView,
    millis: u64,
    playback: PlaybackSettingsView,
)
    ensures
        before.stop().playback_snapshot == before.playback_snapshot,
        before.stop().store == before.store,
        before.seek_millis(millis).playback_snapshot == before.playback_snapshot,
        before.seek_millis(millis).store == before.store,
        before.update_playback_settings(playback).playback_snapshot == before.playback_snapshot,
        before.playback_snapshot.state != PlaybackState::Stopped ==> before.play_pause().store
            == before.store && before.play_pause().playback_snapshot == before.playback_snapshot,
{
    reveal(ControllerView::stop);
    reveal(ControllerView::report);
    reveal(ControllerView::with_progress);
    reveal(ControllerView::seek_millis);
    reveal(ControllerView::update_playback_settings);
}

/// In private mode nobody is told what is played.
pub proof fn private_mode_tells_nobody(
    before: ControllerView,
    kind: PlaybackReportKind,
    failed: bool,
)
    requires
        before.settings().private_mode,
    ensures
        before.report(kind, failed) == before,
{
    reveal(ControllerView::report);
}

/// Of queues that are to be saved later, only the last one is.
pub proof fn only_the_last_queue_is_saved(
    before: ControllerView,
    first: QueueSnapshotView,
    last: QueueSnapshotView,
)
    requires
        before.deferred_queue_writes,
    ensures
        before.persist_deferred(first).persist_deferred(last).queue_persist_generation
            != before.persist_deferred(first).queue_persist_generation,
{
}

/// The library of a source is read at most once at a time: to ask again asks for nothing more,
/// and changes nothing that is kept.
pub proof fn libraries_are_read_once_at_a_time(before: ControllerView, saved: SavedServerView)
    requires
        !before.sync_in_flight.blocked,
        before.store.fault is None,
    ensures
        before.start_sync(saved).start_sync(saved).effects == before.start_sync(saved).effects,
        before.start_sync(saved).start_sync(saved).store == before.start_sync(saved).store,
{
    reveal(ControllerView::start_sync);
    reveal(ControllerView::show_library);
}

/// A source that is not shown any more when its library was read is not spoken of.
pub proof fn other_sources_are_read_silently(
    before: ControllerView,
    saved: SavedServerView,
    error: Seq<char>,
)
    requires
        !before.shows(saved.server.id),
    ensures
        before.sync_finished(saved).events == before.events,
        before.sync_finished(saved).store == before.store,
        before.sync_failed(saved.server.id, error).events == before.events,
        before.sync_failed(saved.server.id, error).store == before.store,
{
    reveal(ControllerView::sync_finished);
    reveal(ControllerView::sync_failed);
}

/// An edit of a server that cannot be kept changes nothing: not what is kept of the servers and
/// their libraries, and not the tokens, where the one that there was, or was not, can be put
/// back.
pub proof fn failed_edits_change_nothing(
    before: ControllerView,
    update: PreparedServerSettingsUpdateView,
    session: Option<ProviderSessionView>,
    server_id: Seq<char>,
)
    requires
        before.edit_fault(update, session) is Some,
        token_of(before.tokens, update.saved.server.id) is Some
            || before.tokens.delete_fault is None,
    ensures
        before.keep_edit(update, session).store == before.store,
        token_of(before.keep_edit(update, session).tokens, server_id) == token_of(
            before.tokens,
            server_id,
        ),
{
    reveal(ControllerView::keep_edit);
    let edited = update.saved.server.id;
    if let Some(session) = session {
        let changed = with_token(before.tokens, edited, session.access_token);
        let new = ServerTokenView { server_id: edited, token: session.access_token };
        put_row_is_found::<ServerToken>(before.tokens.tokens, new);
        if server_id != edited {
            put_row_keeps_the_others::<ServerToken>(before.tokens.tokens, new, server_id);
        }
        match token_of(before.tokens, edited) {
            Some(previous) => {
                let old_row = ServerTokenView { server_id: edited, token: previous };
                put_row_is_found::<ServerToken>(changed.tokens, old_row);
                if server_id != edited {
                    put_row_keeps_the_others::<ServerToken>(changed.tokens, old_row, server_id);
                }
            },
            None => {
                lemma_row_place::<ServerToken>(before.tokens.tokens, edited);
                assert(changed.tokens == before.tokens.tokens.push(new));
                lemma_row_place::<ServerToken>(changed.tokens, edited);
                let at = row_place::<ServerToken>(changed.tokens, edited);
                assert(at == before.tokens.tokens.len()) by {
                    if at < before.tokens.tokens.len() {
                        assert(changed.tokens[at] == before.tokens.tokens[at]);
                    }
                }
                assert(without_token(changed, edited).tokens =~= before.tokens.tokens);
            },
        }
    }
}

/// Local folders show no image from elsewhere, and servers none of local files.
pub proof fn shown_images_fit_their_source(
    albums: Seq<AlbumView>,
    saved: SavedServerView,
    settings: AppSettingsView,
    i: int,
)
    requires
        0 <= i < albums.len(),
    ensures
        shown_albums(albums, saved, settings)[i].image_ref matches Some(image_ref) ==> {
            &&& is_local(saved) ==> !is_external(image_ref)
            &&& !is_local(saved) ==> !"local:cover:"@.is_prefix_of(image_ref.item_id)
        },
{
    let album = AlbumView {
        image_ref: scrubbed(albums[i].image_ref, is_local(saved)),
        ..albums[i]
    };
    assert(shown_albums(albums, saved, settings)[i] == normalized_album(
        album,
        source_settings(settings, saved),
    ));
    if let Some(image_ref) = album_ref(album.artist, album.title) {
        album_ref_round_trip(album.artist, album.title);
        reveal_strlit("local:cover:");
        reveal_strlit("external:album:");
        assert(image_ref.item_id[0] == 'e');
        if "local:cover:"@.is_prefix_of(image_ref.item_id) {
            assert(image_ref.item_id.subrange(0, 12)[0] == 'l');
        }
    }
}

/// A queue that is no longer shuffled is played in its own order again.
pub proof fn unshuffled_queues_keep_their_order(queue: QueueView, seed: u64)
    requires
        queue.shuffle.enabled,
    ensures
        queue.with_toggled_shuffle(seed).order == ids(queue.entries),
        queue.with_toggled_shuffle(seed).current == queue.current,
        queue.with_toggled_shuffle(seed).entries == queue.entries,
{
}

/// Shuffling a queue and putting it back in its own order leaves it as it was but for the seed.
pub proof fn shuffling_twice_changes_no_order(queue: QueueView, first: u64, second: u64)
    requires
        queue.wf(),
        !queue.shuffle.enabled,
    ensures
        queue.with_toggled_shuffle(first).with_toggled_shuffle(second).order == queue.order,
        queue.with_toggled_shuffle(first).with_toggled_shuffle(second).shuffle.enabled
            == queue.shuffle.enabled,
        queue.with_toggled_shuffle(first).with_toggled_shuffle(second).entries == queue.entries,
{
    crate::queue::unshuffled_order(queue);
}

} // verus!
