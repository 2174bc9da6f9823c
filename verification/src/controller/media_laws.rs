//! What is done about the lyrics, the images and the waveform of what is played, in terms of
//! what is kept, told and asked for before and after.

use crate::controller::ControllerView;
use crate::covers::{cache_key, kept_tag};
use crate::external_metadata::{is_external, tells_a_miss};
use crate::lyrics::lyrics_in;
use crate::model::events::{ControllerEventView, EffectView};
use crate::model::library::ImageRefView;
use crate::model::lyrics::{
    JellyfinLyricsSearch, Lyrics, LyricsSearchResultView, LyricsSource, LyricsView,
};
use crate::model::playback::{PlaybackSnapshotView, PlaybackState};
use crate::model::queue::QueueEntryView;
use crate::model::source::SavedServerView;
use crate::model::store::{StoreView, TokenStoreView};
use crate::queue::QueueView;
use crate::table::row;
use crate::text::{blank, trimmed};
use vstd::prelude::*;

verus! {

/// Lyrics that are shown are told and kept for their track.
pub proof fn shown_lyrics_are_told_and_kept(
    before: ControllerView,
    server_id: Seq<char>,
    lyrics: LyricsView,
)
    requires
        before.store.fault is None,
    ensures
        before.show_lyrics(server_id, lyrics).events == before.events.push(
            ControllerEventView::Lyrics(Some(lyrics)),
        ),
        row::<Lyrics>(
            before.show_lyrics(server_id, lyrics).store.library(server_id).lyrics,
            lyrics.track_id,
        ) == Some(lyrics),
        before.show_lyrics(server_id, lyrics).effects == before.effects,
{
    reveal(ControllerView::show_lyrics);
    crate::controller::laws::lyrics_are_read_back(before.store, server_id, lyrics);
}

/// Lyrics are taken from the file beside the track first, and after that from what was kept,
/// where that is wanted and may be shown; only where there are neither is anybody asked: its
/// server, or for a local track those elsewhere, where that is allowed.
pub proof fn lyrics_are_looked_for_nearest_first(
    before: ControllerView,
    server_id: Seq<char>,
    entry: QueueEntryView,
    use_cache: bool,
    search: JellyfinLyricsSearch,
    providers: Seq<Seq<char>>,
    content: Option<Seq<char>>,
    saved: SavedServerView,
)
    requires
        before.store.fault is None,
        before.store.server(server_id) == Some(saved),
    ensures
        ({
            let after = before.look_for_lyrics(
                server_id,
                entry,
                use_cache,
                search,
                providers,
                content,
            );
            let beside = content is Some && lyrics_in(content->0).len() > 0;
            let cached = before.store.usable_cached_lyrics(server_id, entry.track_id, search);
            &&& beside ==> after == before.show_lyrics(
                server_id,
                LyricsView {
                    track_id: entry.track_id,
                    source: LyricsSource::Local,
                    lines: lyrics_in(content->0),
                },
            )
            &&& !beside && use_cache && cached is Some ==> after == before.emit(
                ControllerEventView::Lyrics(cached),
            )
            &&& !beside && !(use_cache && cached is Some) ==> {
                &&& saved.server.provider == "local"@ && search != JellyfinLyricsSearch::ServerOnly
                    ==> after == before.ask(
                    EffectView::FetchExternalLyrics {
                        server_id,
                        entry,
                        providers,
                        server_error: None,
                    },
                )
                &&& saved.server.provider == "local"@ && search == JellyfinLyricsSearch::ServerOnly
                    ==> after == before.emit(ControllerEventView::Lyrics(None))
                &&& saved.server.provider != "local"@ && saved.server.provider != "fake"@ ==> after
                    == before.ask(
                    EffectView::FetchServerLyrics { saved, entry, search, providers },
                )
            }
        }),
{
    reveal(ControllerView::look_for_lyrics);
}

/// Kept lyrics are shown where they are those of the track, may be shown and do not belong to a
/// whole file that holds several tracks.
pub proof fn kept_lyrics_are_those_of_the_track(
    store: StoreView,
    server_id: Seq<char>,
    track_id: Seq<char>,
    search: JellyfinLyricsSearch,
)
    ensures
        store.usable_cached_lyrics(server_id, track_id, search) matches Some(lyrics) ==> {
            &&& row::<Lyrics>(store.library(server_id).lyrics, track_id) == Some(lyrics)
            &&& lyrics.source == LyricsSource::Remote ==> search
                != JellyfinLyricsSearch::ServerOnly
            &&& !store.has_cue_source(server_id, track_id)
        },
        store.fault is None && !store.has_cue_source(server_id, track_id) && search
            != JellyfinLyricsSearch::ServerOnly ==> store.usable_cached_lyrics(
            server_id,
            track_id,
            search,
        ) == row::<Lyrics>(store.library(server_id).lyrics, track_id),
{
    reveal(StoreView::usable_cached_lyrics);
}

/// Where a server has no lyrics they are looked for elsewhere, if that is allowed; else that
/// there are none is told, after the error where there was one.
pub proof fn missing_lyrics_are_looked_for_elsewhere(
    before: ControllerView,
    server_id: Seq<char>,
    entry: QueueEntryView,
    search: JellyfinLyricsSearch,
    providers: Seq<Seq<char>>,
    error: Seq<char>,
    lyrics: LyricsView,
)
    ensures
        search != JellyfinLyricsSearch::ServerOnly ==> before.server_lyrics_missing(
            server_id,
            entry,
            search,
            providers,
            Some(error),
        ) == before.ask(
            EffectView::FetchExternalLyrics {
                server_id,
                entry,
                providers,
                server_error: Some(error),
            },
        ),
        search == JellyfinLyricsSearch::ServerOnly ==> before.server_lyrics_missing(
            server_id,
            entry,
            search,
            providers,
            Some(error),
        ).events == before.events.push(ControllerEventView::Error(error)).push(
            ControllerEventView::Lyrics(None),
        ),
        before.external_lyrics(server_id, Some(lyrics), Some(error)) == before.show_lyrics(
            server_id,
            lyrics,
        ),
        before.external_lyrics(server_id, None, Some(error)).events == before.events.push(
            ControllerEventView::Error(error),
        ).push(ControllerEventView::Lyrics(None)),
        before.external_lyrics(server_id, None, None).events == before.events.push(
            ControllerEventView::Lyrics(None),
        ),
{
    reveal(ControllerView::server_lyrics_missing);
    reveal(ControllerView::external_lyrics);
}

/// A search for lyrics by hand asks for the names that were put in, without the white space
/// around them, for the track that is played; in private mode, or with lyrics from elsewhere
/// off, nobody is asked and nothing is found.
pub proof fn lyrics_searches_ask_for_the_names(
    before: ControllerView,
    artist_name: Seq<char>,
    track_name: Seq<char>,
)
    requires
        before.current() is Some,
        before.store.fault is None,
        !blank(artist_name) || !blank(track_name),
    ensures
        ({
            let settings = before.store.settings;
            let track_id = before.current()->0.track_id;
            let after = before.search_lyrics(artist_name, track_name);
            &&& settings.external_lyrics_enabled && !settings.private_mode ==> after == before.ask(
                EffectView::SearchLyrics {
                    providers: settings.external_lyrics_providers,
                    track_id,
                    artist_name: trimmed(artist_name),
                    track_name: trimmed(track_name),
                },
            )
            &&& !settings.external_lyrics_enabled || settings.private_mode ==> after.effects
                == before.effects && (after.events.last() matches
                ControllerEventView::LyricsSearchResults { track_id: told, results, .. } && told
                == track_id && results.len() == 0)
        }),
{
    reveal(ControllerView::search_lyrics);
}

/// Lyrics that were chosen are written as they are, the timed ones where there are any, and are
/// shown at once where that is asked; but only while their track is played.
pub proof fn chosen_lyrics_are_written_for_their_track(
    before: ControllerView,
    track_id: Seq<char>,
    result: LyricsSearchResultView,
    synced: Seq<char>,
    path: Seq<char>,
)
    requires
        before.current() is Some,
        result.synced_lyrics == Some(synced),
        !blank(synced),
    ensures
        before.current()->0.track_id == track_id ==> (before.save_lyrics_result(
            track_id,
            result,
            path,
        ).effects.last() matches EffectView::WriteLyrics {
            server_id,
            path: written,
            content,
            lyrics,
        } && server_id == before.queue->0.server_id && written == path && content == synced
            && lyrics.track_id == track_id && lyrics.lines == lyrics_in(synced)),
        before.current()->0.track_id == track_id && lyrics_in(synced).len() > 0
            ==> before.preview_lyrics_result(track_id, result) == before.show_lyrics(
            before.queue->0.server_id,
            LyricsView { track_id, source: LyricsSource::Remote, lines: lyrics_in(synced) },
        ),
        before.current()->0.track_id != track_id ==> {
            &&& before.save_lyrics_result(track_id, result, path).effects == before.effects
            &&& before.preview_lyrics_result(track_id, result).store == before.store
        },
{
    reveal(ControllerView::save_lyrics_result);
    reveal(ControllerView::preview_lyrics_result);
}

/// An image that is kept is told at once; else it is asked for, once at a time.
pub proof fn images_are_told_or_asked_for_once(
    before: ControllerView,
    saved: SavedServerView,
    image_ref: ImageRefView,
    size: u32,
    existing: Seq<Seq<char>>,
)
    requires
        before.store.fault is None,
        before.store.active_server() == Some(saved),
        saved.server.provider != "fake"@,
    ensures
        ({
            let key = cache_key(saved.server.id, image_ref.item_id, kept_tag(image_ref), size);
            let after = before.request_cover(image_ref, size, existing);
            let found = before.cached_cover(saved, image_ref, size, existing);
            &&& found matches Some(path) ==> after.events == before.events.push(
                ControllerEventView::CoverReady { key, path },
            ) && after.effects == before.effects
            &&& found is None && before.cover_in_flight.contains(key) ==> after.effects
                == before.effects && after.events == before.events
            &&& found is None && !before.cover_in_flight.contains(key) ==> after.events
                == before.events && after.effects == before.effects.push(
                EffectView::FetchCover { key, saved, image_ref, size },
            ) && after.cover_in_flight.contains(key)
        }),
{
    reveal(ControllerView::request_cover);
    reveal(ControllerView::looked_for_cover);
}

/// An image that was fetched is kept for its item and size and told; one that cannot be had is
/// not, and that it is missing is noted where the answer says so for good.
pub proof fn fetched_images_are_kept_and_told(
    before: ControllerView,
    key: Seq<char>,
    saved: SavedServerView,
    image_ref: ImageRefView,
    size: u32,
    path: Seq<char>,
    error: Seq<char>,
)
    requires
        before.store.fault is None,
    ensures
        ({
            let fetched = before.cover_fetched(key, saved, image_ref, size, path);
            let failed = before.cover_fetch_failed(key, image_ref, size, error);
            &&& fetched.store.library(saved.server.id).cover(
                image_ref.item_id,
                kept_tag(image_ref),
                size,
            ) matches Some(kept) && kept.path == path
            &&& fetched.events == before.events.push(ControllerEventView::CoverReady { key, path })
            &&& !fetched.cover_in_flight.contains(key)
            &&& !failed.cover_in_flight.contains(key)
            &&& failed.events == before.events
            &&& !is_external(image_ref) || !tells_a_miss(error) ==> failed.store == before.store
        }),
{
    reveal(ControllerView::cover_fetched);
    reveal(ControllerView::cover_fetch_failed);
    crate::controller::laws::images_are_read_back(
        before.store,
        crate::model::store::CoverCacheEntryView {
            server_id: saved.server.id,
            item_id: image_ref.item_id,
            image_tag: kept_tag(image_ref),
            size,
            path,
        },
    );
}

/// Images from elsewhere are not asked for where looking outside is off.
pub proof fn images_from_elsewhere_are_asked_for_only_where_allowed(
    before: ControllerView,
    key: Seq<char>,
    image_ref: ImageRefView,
    size: u32,
    existing: Seq<Seq<char>>,
)
    requires
        is_external(image_ref),
        before.store.fault is None,
        before.store.settings.private_mode || !before.store.settings.external_metadata_enabled,
    ensures
        before.request_cover_for_key(key, image_ref, size, existing) == before,
{
    reveal(ControllerView::request_cover_for_key);
}

/// Of places where an image may be the first that is there is taken.
pub proof fn the_first_place_of_an_image_counts(
    paths: Seq<Seq<char>>,
    existing: Seq<Seq<char>>,
    at: int,
)
    requires
        0 <= at < paths.len(),
        existing.contains(paths[at]),
        forall|i: int| 0 <= i < at ==> !existing.contains(#[trigger] paths[i]),
    ensures
        crate::controller::cover_commands::first_existing(paths, existing) == Some(paths[at]),
    decreases at,
{
    if at > 0 {
        let rest = paths.drop_first();
        assert(!existing.contains(paths[0]));
        assert(rest[at - 1] == paths[at]);
        assert forall|i: int| 0 <= i < at - 1 implies !existing.contains(#[trigger] rest[i]) by {
            assert(rest[i] == paths[i + 1]);
        }
        the_first_place_of_an_image_counts(rest, existing, at - 1);
    }
}

/// The waveform of the track that is played is looked for where waveforms are shown, and is
/// shown once it is there, unless another track is played by then.
pub proof fn waveforms_are_those_of_the_played_track(
    before: ControllerView,
    cache_key: Seq<char>,
    waveform: u64,
)
    requires
        before.store.fault is None,
    ensures
        before.store.settings.seekbar_waveform_enabled && before.current() is Some ==> (
        before.request_waveform().effects.last() matches EffectView::FindWaveform(search)
            && search.request.track_id == before.current()->0.track_id && search.request.server_id
            == before.queue->0.server_id && search.request.duration_seconds
            == before.current()->0.duration_seconds && Some(search.cache_key)
            == before.request_waveform().playback_snapshot.waveform_cache_key),
        !before.store.settings.seekbar_waveform_enabled ==> before.request_waveform() == before,
        before.playback_snapshot.waveform_cache_key == Some(cache_key) ==> before.show_waveform(
            cache_key,
            waveform,
        ).playback_snapshot == (PlaybackSnapshotView {
            waveform: Some(waveform),
            ..before.playback_snapshot
        }),
        before.playback_snapshot.waveform_cache_key != Some(cache_key) ==> before.show_waveform(
            cache_key,
            waveform,
        ) == before,
{
    reveal(ControllerView::request_waveform);
}

/// The application begins with what was kept: the selected source shown, its queue at the place
/// where it was left, the kept volume, and nothing playing.
pub proof fn the_application_begins_where_it_was_left(
    store: StoreView,
    tokens: TokenStoreView,
    random_seed: u64,
    deferred: bool,
    cover_dir: Option<Seq<char>>,
    saved: SavedServerView,
)
    requires
        store.fault is None,
        crate::cached_reads::reconciled(store).active_server() == Some(saved),
        crate::cached_reads::reconciled(store).library(saved.server.id) == store.library(
            saved.server.id,
        ),
    ensures
        ({
            let begun = ControllerView::begun(store, tokens, random_seed, deferred, cover_dir);
            &&& store.library(saved.server.id).queue is None ==> begun.queue == Some(
                QueueView::empty(saved.server.id),
            )
            &&& store.library(saved.server.id).queue matches Some(snapshot) ==> begun.queue == Some(
                crate::queue::restored(snapshot),
            )
            &&& begun.playback_snapshot.current == begun.current()
            &&& begun.playback_snapshot.state == PlaybackState::Stopped
            &&& begun.playback_snapshot.volume == store.settings.playback.volume
            &&& begun.playback_snapshot.muted == store.settings.playback.muted
            &&& begun.auto_dj_enabled == store.settings.auto_dj_enabled
            &&& begun.playback_snapshot.auto_dj_enabled == store.settings.auto_dj_enabled
            &&& begun.store.settings == store.settings
            &&& begun.store.libraries == store.libraries
            &&& begun.tokens == tokens
            &&& begun.events.len() == 0 && begun.effects.len() == 0
        }),
{
    reveal(crate::controller::source_commands::kept_queue);
    reveal(crate::controller::source_commands::waiting_player);
}

/// The switch of automatic filling turns it on where it is off and off where it is on, and
/// keeps and shows that; turned on, it adds tracks only after what is there.
pub proof fn the_filling_switch_is_kept(before: ControllerView)
    requires
        before.store.fault is None,
        before.queue matches Some(queue) ==> queue.wf(),
    ensures
        ({
            let after = before.toggle_auto_dj();
            &&& after.auto_dj_enabled == !before.auto_dj_enabled
            &&& after.playback_snapshot.auto_dj_enabled == !before.auto_dj_enabled
            &&& after.store.settings == (crate::model::settings::AppSettingsView {
                auto_dj_enabled: !before.auto_dj_enabled,
                ..before.store.settings
            })
            &&& after.current() == before.current()
            &&& before.auto_dj_enabled ==> after.queue == before.queue
        }),
{
    reveal(ControllerView::with_auto_dj);
    reveal(ControllerView::marked_auto_dj);
    reveal(ControllerView::save_or_fail);
    reveal(crate::controller::auto_dj_commands::settings_with_auto_dj);
    reveal(ControllerView::refill);
    let toggled = before.with_auto_dj(!before.auto_dj_enabled);
    if !before.auto_dj_enabled {
        crate::controller::command_laws::filling_adds_at_the_end(toggled);
        let filled = toggled.top_up();
        crate::controller::command_laws::changed_queues_are_told_and_kept(filled, true);
        reveal(ControllerView::show_queue);
        reveal(ControllerView::prepare_next);
    }
}

/// Lyrics from elsewhere that are cleared are gone for the track that is played, and that there
/// are none is told; other lyrics stay.
pub proof fn cleared_lyrics_are_gone(before: ControllerView, other: Seq<char>)
    requires
        before.store.fault is None,
        before.store.wf(),
        before.current() matches Some(entry) && before.store.library(
            before.queue->0.server_id,
        ).has_remote_lyrics(entry.track_id) && other != entry.track_id,
    ensures
        ({
            let server_id = before.queue->0.server_id;
            let track_id = before.current()->0.track_id;
            let after = before.clear_remote_lyrics();
            &&& row::<Lyrics>(after.store.library(server_id).lyrics, track_id) is None
            &&& row::<Lyrics>(after.store.library(server_id).lyrics, other) == row::<Lyrics>(
                before.store.library(server_id).lyrics,
                other,
            )
            &&& after.events == before.events.push(ControllerEventView::Lyrics(None))
        }),
{
    reveal(ControllerView::clear_remote_lyrics);
    crate::controller::laws::forgotten_lyrics_are_gone(
        before.store,
        before.queue->0.server_id,
        before.current()->0.track_id,
        other,
    );
}

/// Lyrics that were written beside the track are kept for it and told, with the place where they
/// are.
pub proof fn written_lyrics_are_kept_and_told(
    before: ControllerView,
    server_id: Seq<char>,
    path: Seq<char>,
    lyrics: LyricsView,
)
    requires
        before.store.fault is None,
    ensures
        row::<Lyrics>(
            before.lyrics_written(server_id, path, lyrics).store.library(server_id).lyrics,
            lyrics.track_id,
        ) == Some(lyrics),
        before.lyrics_written(server_id, path, lyrics).events == before.events.push(
            ControllerEventView::LyricsSaved { path, lyrics },
        ),
{
    reveal(ControllerView::lyrics_written);
    crate::controller::laws::lyrics_are_read_back(before.store, server_id, lyrics);
}

/// An image is looked for where it is known to be kept for its source, tag and size, and after
/// that in its own place below the directory of images.
pub proof fn images_are_looked_for_where_they_are_kept(
    store: StoreView,
    dir: Seq<char>,
    server_id: Seq<char>,
    image_ref: ImageRefView,
    size: u32,
)
    requires
        !is_external(image_ref),
    ensures
        ({
            let paths = store.cover_paths(Some(dir), server_id, image_ref, size);
            let kept = store.library(server_id).cover(
                image_ref.item_id,
                kept_tag(image_ref),
                size,
            );
            &&& paths.last() == crate::local_access::joined_path(
                dir,
                cache_key(server_id, image_ref.item_id, kept_tag(image_ref), size),
            )
            &&& kept matches Some(entry) ==> paths.len() == 2 && paths[0] == entry.path
            &&& kept is None ==> paths.len() == 1
        }),
{
}

} // verus!
