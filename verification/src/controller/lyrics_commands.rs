//! Lyrics of the track that is played.

use crate::cached_reads::{is_local, source_is_local};
use crate::controller::{AppController, ControllerView};
use crate::lyrics::{
    cached_lyrics_allowed, lyrics_from_lrclib_search_result, lyrics_from_text, lyrics_in,
    lyrics_result_content, lyrics_search_for_settings, remote_allowed, remote_lyrics,
    result_content, search_order, sidecar_lyrics, source_allowed, usable_lyrics,
};
use crate::model::events::{ControllerEvent, ControllerEventView, Effect, EffectView};
use crate::model::ids::{ServerId, TrackId};
use crate::model::library::Track;
use crate::model::lyrics::{
    JellyfinLyricsSearch, Lyrics, LyricsSearchResult, LyricsSearchResultView, LyricsSource,
    LyricsView,
};
use crate::model::queue::{QueueEntry, QueueEntryView};
use crate::model::settings::AppSettings;
use crate::model::source::{SavedServer, SavedServerView};
use crate::model::store::{ServerLibrary, ServerLibraryView, StoreView};
use crate::streams::{kept_candidates, local_audio_path_for_track};
use crate::table::{get_row, row, without_row};
use crate::text::{self, trimmed};
use crate::value::Value;
use vstd::prelude::*;

verus! {

/// What is told where lyrics are wanted and nothing is played.
pub const NOTHING_PLAYS: &'static str = "No track is playing.";

/// The lyrics in a file beside the track's own, where they have at least one line.
pub open spec fn lyrics_beside(track_id: Seq<char>, content: Option<Seq<char>>) -> Option<
    LyricsView,
> {
    match content {
        Some(content) if lyrics_in(content).len() > 0 => Some(
            LyricsView { track_id, source: LyricsSource::Local, lines: lyrics_in(content) },
        ),
        _ => None,
    }
}

impl StoreView {
    /// Whether a track is a part of a file that a cue sheet divides.
    pub open spec fn has_cue_source(self, server_id: Seq<char>, track_id: Seq<char>) -> bool {
        row::<Track>(self.library(server_id).tracks, track_id) matches Some(track)
            && track.from_cue
    }

    /// The lyrics kept of a track that may be shown by a search. Those kept of a track that is a
    /// part of a file are not.
    #[verifier::opaque]
    pub open spec fn usable_cached_lyrics(
        self,
        server_id: Seq<char>,
        track_id: Seq<char>,
        search: JellyfinLyricsSearch,
    ) -> Option<LyricsView> {
        match row::<Lyrics>(self.library(server_id).lyrics, track_id) {
            Some(lyrics) if self.fault is None && source_allowed(lyrics.source, search)
                && !self.has_cue_source(server_id, track_id) => Some(lyrics),
            _ => None,
        }
    }

    /// A source, unless there is a fault.
    pub open spec fn known_server(self, server_id: Seq<char>) -> Option<SavedServerView> {
        if self.fault is Some {
            None
        } else {
            self.server(server_id)
        }
    }

    /// The store without the lyrics of a track that came from elsewhere than its source.
    #[verifier::opaque]
    pub open spec fn without_remote_lyrics(
        self,
        server_id: Seq<char>,
        track_id: Seq<char>,
    ) -> StoreView {
        let library = self.library(server_id);
        if library.has_remote_lyrics(track_id) {
            self.with_library(
                server_id,
                ServerLibraryView {
                    lyrics: without_row::<Lyrics>(library.lyrics, track_id),
                    ..library
                },
            )
        } else {
            self
        }
    }
}

impl ControllerView {
    /// With lyrics told, or that there are none.
    pub open spec fn tell_lyrics(self, lyrics: Option<LyricsView>) -> ControllerView {
        self.emit(ControllerEventView::Lyrics(lyrics))
    }

    /// With lyrics kept, where they can be, and told.
    #[verifier::opaque]
    pub open spec fn show_lyrics(self, server_id: Seq<char>, lyrics: LyricsView)
        -> ControllerView {
        (if self.store.fault is Some {
            self
        } else {
            self.with_store(self.store.with_lyrics(server_id, lyrics))
        }).tell_lyrics(Some(lyrics))
    }

    /// With lyrics looked for after the file beside the track was read, or found missing:
    /// first those in the file, those kept before, and those of the server.
    #[verifier::opaque]
    pub open spec fn look_for_lyrics(
        self,
        server_id: Seq<char>,
        entry: QueueEntryView,
        use_cache: bool,
        search: JellyfinLyricsSearch,
        providers: Seq<Seq<char>>,
        content: Option<Seq<char>>,
    ) -> ControllerView {
        let cached = self.store.usable_cached_lyrics(server_id, entry.track_id, search);
        if let Some(lyrics) = lyrics_beside(entry.track_id, content) {
            self.show_lyrics(server_id, lyrics)
        } else if use_cache && cached is Some {
            self.tell_lyrics(cached)
        } else {
            match self.store.known_server(server_id) {
                Some(saved) if is_local(saved) => if remote_allowed(search) {
                    self.ask(
                        EffectView::FetchExternalLyrics {
                            server_id,
                            entry,
                            providers,
                            server_error: None,
                        },
                    )
                } else {
                    self.tell_lyrics(None)
                },
                Some(saved) if saved.server.provider != "fake"@ => self.ask(
                    EffectView::FetchServerLyrics { saved, entry, search, providers },
                ),
                _ => self.tell_lyrics(None),
            }
        }
    }

    /// With lyrics of the current track looked for.
    #[verifier::opaque]
    pub open spec fn lyrics_search(self, use_cache: bool, search: JellyfinLyricsSearch)
        -> ControllerView {
        match self.current() {
            None => self.tell_lyrics(None),
            Some(entry) => {
                let server_id = self.queue->0.server_id;
                let providers = self.settings().external_lyrics_providers;
                let candidates = kept_candidates(self.store, server_id, entry.track_id);
                if candidates.len() > 0 {
                    self.ask(
                        EffectView::ReadSidecarLyrics {
                            server_id,
                            entry,
                            use_cache,
                            search,
                            providers,
                            candidates,
                        },
                    )
                } else {
                    self.look_for_lyrics(server_id, entry, use_cache, search, providers, None)
                }
            },
        }
    }

    /// With no lyrics from the server: they are looked for elsewhere where that is allowed.
    #[verifier::opaque]
    pub open spec fn server_lyrics_missing(
        self,
        server_id: Seq<char>,
        entry: QueueEntryView,
        search: JellyfinLyricsSearch,
        providers: Seq<Seq<char>>,
        server_error: Option<Seq<char>>,
    ) -> ControllerView {
        if remote_allowed(search) {
            self.ask(
                EffectView::FetchExternalLyrics { server_id, entry, providers, server_error },
            )
        } else {
            self.fail_if(server_error).tell_lyrics(None)
        }
    }

    /// With lyrics from elsewhere, or none. What went wrong at the server is told only where
    /// there are none.
    #[verifier::opaque]
    pub open spec fn external_lyrics(
        self,
        server_id: Seq<char>,
        lyrics: Option<LyricsView>,
        server_error: Option<Seq<char>>,
    ) -> ControllerView {
        match lyrics {
            Some(lyrics) => self.show_lyrics(server_id, lyrics),
            None => self.fail_if(server_error).tell_lyrics(None),
        }
    }

    /// With the lyrics of the current track that came from elsewhere forgotten.
    #[verifier::opaque]
    pub open spec fn clear_remote_lyrics(self) -> ControllerView {
        match self.current() {
            None => self,
            Some(entry) => {
                let server_id = self.queue->0.server_id;
                if let Some(fault) = self.store.fault {
                    self.fail(fault)
                } else if self.store.library(server_id).has_remote_lyrics(entry.track_id) {
                    self.with_store(
                        self.store.without_remote_lyrics(server_id, entry.track_id),
                    ).tell_lyrics(None)
                } else {
                    self
                }
            },
        }
    }

    /// With lyrics searched for by names. Nothing is searched in private mode.
    #[verifier::opaque]
    pub open spec fn search_lyrics(self, artist_name: Seq<char>, track_name: Seq<char>)
        -> ControllerView {
        let artist_name = trimmed(artist_name);
        let track_name = trimmed(track_name);
        let settings = self.settings();
        if artist_name.len() == 0 && track_name.len() == 0 {
            self
        } else {
            match self.current() {
                None => self.fail(NOTHING_PLAYS@),
                Some(entry) => if settings.private_mode || !settings.external_lyrics_enabled {
                    self.emit(
                        ControllerEventView::LyricsSearchResults {
                            track_id: entry.track_id,
                            artist_name,
                            track_name,
                            results: Seq::empty(),
                        },
                    )
                } else {
                    self.ask(
                        EffectView::SearchLyrics {
                            providers: settings.external_lyrics_providers,
                            track_id: entry.track_id,
                            artist_name,
                            track_name,
                        },
                    )
                },
            }
        }
    }

    /// With lyrics that were found to be written to a file, while their track is played.
    #[verifier::opaque]
    pub open spec fn save_lyrics_result(
        self,
        track_id: Seq<char>,
        result: LyricsSearchResultView,
        path: Seq<char>,
    ) -> ControllerView {
        match self.current() {
            None => self.fail(NOTHING_PLAYS@),
            Some(entry) => if entry.track_id != track_id {
                self.fail("The playing track changed before lyrics were saved."@)
            } else {
                match result_content(result) {
                    None => self.fail("Selected lyric result has no lyrics to save."@),
                    Some(content) => self.ask(
                        EffectView::WriteLyrics {
                            server_id: self.queue->0.server_id,
                            path,
                            content,
                            lyrics: remote_lyrics(track_id, result),
                        },
                    ),
                }
            },
        }
    }

    /// With lyrics that were written to a file kept, where they can be, and told.
    #[verifier::opaque]
    pub open spec fn lyrics_written(
        self,
        server_id: Seq<char>,
        path: Seq<char>,
        lyrics: LyricsView,
    ) -> ControllerView {
        (if self.store.fault is Some {
            self
        } else {
            self.with_store(self.store.with_lyrics(server_id, lyrics))
        }).emit(ControllerEventView::LyricsSaved { path, lyrics })
    }

    /// With lyrics that were found shown, while their track is played.
    #[verifier::opaque]
    pub open spec fn preview_lyrics_result(
        self,
        track_id: Seq<char>,
        result: LyricsSearchResultView,
    ) -> ControllerView {
        match self.current() {
            None => self.fail(NOTHING_PLAYS@),
            Some(entry) => if entry.track_id != track_id {
                self.fail("The playing track changed before lyrics were loaded."@)
            } else {
                match usable_lyrics(track_id, result) {
                    None => self.fail("Selected lyric result has no lyrics to load."@),
                    Some(lyrics) => self.show_lyrics(self.queue->0.server_id, lyrics),
                }
            },
        }
    }
}

impl AppController {
    fn tell_lyrics(&mut self, lyrics: Option<Lyrics>)
        requires
            old(self).deep_view().wf(),
        ensures
            final(self).deep_view() == old(self).deep_view().tell_lyrics(lyrics.deep_view()),
            final(self).deep_view().wf(),
    {
        self.emit(ControllerEvent::Lyrics(lyrics));
    }

    /// Keeps lyrics and tells them.
    pub fn show_lyrics(&mut self, server_id: &ServerId, lyrics: Lyrics)
        requires
            old(self).deep_view().wf(),
        ensures
            final(self).deep_view() == old(self).deep_view().show_lyrics(
                server_id.deep_view(),
                lyrics.deep_view(),
            ),
            final(self).deep_view().wf(),
    {
        reveal(ControllerView::show_lyrics);
        let _saved: Result<(), String> = self.store.save_lyrics(server_id, &lyrics);
        self.tell_lyrics(Some(lyrics));
    }

    fn cached_lyrics(
        &self,
        server_id: &ServerId,
        track_id: &TrackId,
        search: JellyfinLyricsSearch,
    ) -> (result: Option<Lyrics>)
        ensures
            result.deep_view() == self.deep_view().store.usable_cached_lyrics(
                server_id.deep_view(),
                track_id.deep_view(),
                search,
            ),
    {
        reveal(StoreView::usable_cached_lyrics);
        match self.store.load_lyrics(server_id, track_id) {
            Ok(Some(lyrics)) => {
                let library: ServerLibrary = self.store.library(server_id);
                let cue_track: bool = match get_row(&library.tracks, track_id.as_str()) {
                    Some(track) => track.from_cue,
                    None => false,
                };
                if cached_lyrics_allowed(&lyrics, search) && !cue_track {
                    Some(lyrics)
                } else {
                    None
                }
            },
            _ => None,
        }
    }

    fn known_server(&self, server_id: &ServerId) -> (result: Option<SavedServer>)
        ensures
            result.deep_view() == self.deep_view().store.known_server(server_id.deep_view()),
    {
        match self.store.saved_server(server_id) {
            Ok(saved) => saved,
            Err(_) => None,
        }
    }

    /// Looks for lyrics after the file beside the track was read, or found missing.
    pub fn sidecar_lyrics_read(
        &mut self,
        server_id: &ServerId,
        entry: &QueueEntry,
        use_cache: bool,
        search: JellyfinLyricsSearch,
        providers: &Vec<String>,
        content: &Option<String>,
    )
        requires
            old(self).deep_view().wf(),
        ensures
            final(self).deep_view() == old(self).deep_view().look_for_lyrics(
                server_id.deep_view(),
                entry.deep_view(),
                use_cache,
                search,
                providers.deep_view(),
                content.deep_view(),
            ),
            final(self).deep_view().wf(),
    {
        reveal(ControllerView::look_for_lyrics);
        let beside: Option<Lyrics> = match content {
            Some(content) => sidecar_lyrics(&entry.track_id, content.as_str()),
            None => None,
        };
        if let Some(lyrics) = beside {
            self.show_lyrics(server_id, lyrics);
            return;
        }
        if use_cache {
            let cached: Option<Lyrics> = self.cached_lyrics(server_id, &entry.track_id, search);
            if cached.is_some() {
                self.tell_lyrics(cached);
                return;
            }
        }
        match self.known_server(server_id) {
            None => self.tell_lyrics(None),
            Some(saved) => {
                if source_is_local(&saved) {
                    if search != JellyfinLyricsSearch::ServerOnly {
                        self.ask(
                            Effect::FetchExternalLyrics {
                                server_id: server_id.copy(),
                                entry: entry.copy(),
                                providers: providers.copy(),
                                server_error: None,
                            },
                        );
                    } else {
                        self.tell_lyrics(None);
                    }
                } else if saved.server.provider.same(&text::owned("fake")) {
                    self.tell_lyrics(None);
                } else {
                    self.ask(
                        Effect::FetchServerLyrics {
                            saved,
                            entry: entry.copy(),
                            search,
                            providers: providers.copy(),
                        },
                    );
                }
            },
        }
    }

    /// Looks for lyrics of the current track.
    pub fn lyrics_search(&mut self, use_cache: bool, search: JellyfinLyricsSearch)
        requires
            old(self).deep_view().wf(),
        ensures
            final(self).deep_view() == old(self).deep_view().lyrics_search(use_cache, search),
            final(self).deep_view().wf(),
    {
        reveal(ControllerView::lyrics_search);
        match self.current_queue_entry() {
            None => self.tell_lyrics(None),
            Some((server_id, entry, _)) => {
                let providers: Vec<String> = self.load_settings().external_lyrics_providers;
                let candidates: Vec<String> = local_audio_path_for_track(
                    &self.store,
                    &server_id,
                    &entry.track_id,
                );
                assert(candidates.deep_view().len() == candidates@.len());
                if candidates.len() > 0 {
                    self.ask(
                        Effect::ReadSidecarLyrics {
                            server_id,
                            entry,
                            use_cache,
                            search,
                            providers,
                            candidates,
                        },
                    );
                } else {
                    self.sidecar_lyrics_read(
                        &server_id,
                        &entry,
                        use_cache,
                        search,
                        &providers,
                        &None,
                    );
                }
            },
        }
    }

    /// Shows lyrics of the current track.
    pub fn request_lyrics_for_current(&mut self)
        requires
            old(self).deep_view().wf(),
        ensures
            final(self).deep_view() == old(self).deep_view().lyrics_search(
                true,
                search_order(old(self).deep_view().settings()),
            ),
            final(self).deep_view().wf(),
    {
        let search: JellyfinLyricsSearch = lyrics_search_for_settings(&self.load_settings());
        self.lyrics_search(true, search);
    }

    /// Shows lyrics of the current track that its own source has.
    pub fn request_server_lyrics_for_current(&mut self)
        requires
            old(self).deep_view().wf(),
        ensures
            final(self).deep_view() == old(self).deep_view().lyrics_search(
                true,
                JellyfinLyricsSearch::ServerOnly,
            ),
            final(self).deep_view().wf(),
    {
        self.lyrics_search(true, JellyfinLyricsSearch::ServerOnly);
    }

    /// Shows lyrics of the current track, not those kept before.
    pub fn refresh_lyrics_for_current(&mut self)
        requires
            old(self).deep_view().wf(),
        ensures
            final(self).deep_view() == old(self).deep_view().lyrics_search(
                false,
                search_order(old(self).deep_view().settings()),
            ),
            final(self).deep_view().wf(),
    {
        let search: JellyfinLyricsSearch = lyrics_search_for_settings(&self.load_settings());
        self.lyrics_search(false, search);
    }

    /// Goes on where the server has no lyrics, or could not tell.
    pub fn server_lyrics_missing(
        &mut self,
        server_id: &ServerId,
        entry: &QueueEntry,
        search: JellyfinLyricsSearch,
        providers: &Vec<String>,
        server_error: Option<String>,
    )
        requires
            old(self).deep_view().wf(),
        ensures
            final(self).deep_view() == old(self).deep_view().server_lyrics_missing(
                server_id.deep_view(),
                entry.deep_view(),
                search,
                providers.deep_view(),
                server_error.deep_view(),
            ),
            final(self).deep_view().wf(),
    {
        reveal(ControllerView::server_lyrics_missing);
        if search != JellyfinLyricsSearch::ServerOnly {
            self.ask(
                Effect::FetchExternalLyrics {
                    server_id: server_id.copy(),
                    entry: entry.copy(),
                    providers: providers.copy(),
                    server_error,
                },
            );
            return;
        }
        if let Some(error) = server_error {
            self.fail(error);
        }
        self.tell_lyrics(None);
    }

    /// Takes what was found of lyrics elsewhere.
    pub fn external_lyrics_fetched(
        &mut self,
        server_id: &ServerId,
        lyrics: Option<Lyrics>,
        server_error: Option<String>,
    )
        requires
            old(self).deep_view().wf(),
        ensures
            final(self).deep_view() == old(self).deep_view().external_lyrics(
                server_id.deep_view(),
                lyrics.deep_view(),
                server_error.deep_view(),
            ),
            final(self).deep_view().wf(),
    {
        reveal(ControllerView::external_lyrics);
        if let Some(lyrics) = lyrics {
            self.show_lyrics(server_id, lyrics);
            return;
        }
        if let Some(error) = server_error {
            self.fail(error);
        }
        self.tell_lyrics(None);
    }

    fn drop_remote_lyrics(&mut self, server_id: &ServerId, track_id: &TrackId) -> (result: Result<
        bool,
        String,
    >)
        requires
            old(self).deep_view().wf(),
        ensures
            crate::store::answers(
                result,
                old(self).deep_view().store.fault,
                old(self).deep_view().store.library(
                    server_id.deep_view(),
                ).has_remote_lyrics(track_id.deep_view()),
            ),
            final(self).deep_view() == (if result is Ok {
                old(self).deep_view().with_store(
                    old(self).deep_view().store.without_remote_lyrics(
                        server_id.deep_view(),
                        track_id.deep_view(),
                    ),
                )
            } else {
                old(self).deep_view()
            }),
            final(self).deep_view().wf(),
    {
        reveal(StoreView::without_remote_lyrics);
        self.store.delete_remote_lyrics(server_id, track_id)
    }

    /// Forgets the lyrics of the current track that came from elsewhere than its source.
    pub fn clear_remote_lyrics_for_current(&mut self)
        requires
            old(self).deep_view().wf(),
        ensures
            final(self).deep_view() == old(self).deep_view().clear_remote_lyrics(),
            final(self).deep_view().wf(),
    {
        reveal(ControllerView::clear_remote_lyrics);
        if let Some((server_id, entry, _)) = self.current_queue_entry() {
            let ghost before = self.deep_view();
            match self.drop_remote_lyrics(&server_id, &entry.track_id) {
                Ok(true) => self.tell_lyrics(None),
                Ok(false) => {
                    assert(before.store.without_remote_lyrics(
                        server_id.deep_view(),
                        entry.deep_view().track_id,
                    ) == before.store) by {
                        reveal(StoreView::without_remote_lyrics);
                    }
                },
                Err(error) => self.fail(error),
            }
        }
    }

    /// Searches lyrics for the current track by names.
    pub fn search_lyrics_for_current(&mut self, artist_name: &str, track_name: &str)
        requires
            old(self).deep_view().wf(),
        ensures
            final(self).deep_view() == old(self).deep_view().search_lyrics(
                artist_name@,
                track_name@,
            ),
            final(self).deep_view().wf(),
    {
        reveal(ControllerView::search_lyrics);
        if text::is_blank(artist_name) && text::is_blank(track_name) {
            return;
        }
        let artist_name: String = text::trim(artist_name);
        let track_name: String = text::trim(track_name);
        let settings: AppSettings = self.load_settings();
        match self.current_queue_entry() {
            None => self.fail(text::owned(NOTHING_PLAYS)),
            Some((_, entry, _)) => {
                if settings.private_mode || !settings.external_lyrics_enabled {
                    let results: Vec<LyricsSearchResult> = Vec::new();
                    assert(results.deep_view() =~= Seq::empty());
                    self.lyrics_search_finished(
                        entry.track_id,
                        artist_name,
                        track_name,
                        results,
                    );
                } else {
                    self.ask(
                        Effect::SearchLyrics {
                            providers: settings.external_lyrics_providers,
                            track_id: entry.track_id,
                            artist_name,
                            track_name,
                        },
                    );
                }
            },
        }
    }

    /// Tells what was found of lyrics.
    pub fn lyrics_search_finished(
        &mut self,
        track_id: TrackId,
        artist_name: String,
        track_name: String,
        results: Vec<LyricsSearchResult>,
    )
        requires
            old(self).deep_view().wf(),
        ensures
            final(self).deep_view() == old(self).deep_view().emit(
                ControllerEventView::LyricsSearchResults {
                    track_id: track_id.deep_view(),
                    artist_name: artist_name@,
                    track_name: track_name@,
                    results: results.deep_view(),
                },
            ),
            final(self).deep_view().wf(),
    {
        self.emit(
            ControllerEvent::LyricsSearchResults { track_id, artist_name, track_name, results },
        );
    }

    /// Tells that lyrics could not be searched.
    pub fn lyrics_search_failed(
        &mut self,
        track_id: TrackId,
        artist_name: String,
        track_name: String,
        error: String,
    )
        requires
            old(self).deep_view().wf(),
        ensures
            final(self).deep_view() == old(self).deep_view().emit(
                ControllerEventView::LyricsSearchFailed {
                    track_id: track_id.deep_view(),
                    artist_name: artist_name@,
                    track_name: track_name@,
                    error: error@,
                },
            ),
            final(self).deep_view().wf(),
    {
        self.emit(
            ControllerEvent::LyricsSearchFailed { track_id, artist_name, track_name, error },
        );
    }

    /// Has lyrics that were found written to a file.
    pub fn save_lyrics_search_result(
        &mut self,
        track_id: &TrackId,
        result: &LyricsSearchResult,
        output_path: String,
    )
        requires
            old(self).deep_view().wf(),
        ensures
            final(self).deep_view() == old(self).deep_view().save_lyrics_result(
                track_id.deep_view(),
                result.deep_view(),
                output_path@,
            ),
            final(self).deep_view().wf(),
    {
        reveal(ControllerView::save_lyrics_result);
        match self.current_queue_entry() {
            None => self.fail(text::owned(NOTHING_PLAYS)),
            Some((server_id, entry, _)) => {
                if !entry.track_id.same(track_id) {
                    self.fail(
                        text::owned("The playing track changed before lyrics were saved."),
                    );
                    return;
                }
                let content: String = match lyrics_result_content(result) {
                    Some(content) => text::owned(content),
                    None => {
                        self.fail(text::owned("Selected lyric result has no lyrics to save."));
                        return;
                    },
                };
                let lyrics: Lyrics = lyrics_from_text(track_id.copy(), result);
                self.ask(Effect::WriteLyrics { server_id, path: output_path, content, lyrics });
            },
        }
    }

    /// Takes it that lyrics were written to a file.
    pub fn lyrics_written(&mut self, server_id: &ServerId, path: String, lyrics: Lyrics)
        requires
            old(self).deep_view().wf(),
        ensures
            final(self).deep_view() == old(self).deep_view().lyrics_written(
                server_id.deep_view(),
                path@,
                lyrics.deep_view(),
            ),
            final(self).deep_view().wf(),
    {
        reveal(ControllerView::lyrics_written);
        let _saved: Result<(), String> = self.store.save_lyrics(server_id, &lyrics);
        self.emit(ControllerEvent::LyricsSaved { path, lyrics });
    }

    /// Shows lyrics that were found.
    pub fn preview_lyrics_search_result(
        &mut self,
        track_id: &TrackId,
        result: &LyricsSearchResult,
    )
        requires
            old(self).deep_view().wf(),
        ensures
            final(self).deep_view() == old(self).deep_view().preview_lyrics_result(
                track_id.deep_view(),
                result.deep_view(),
            ),
            final(self).deep_view().wf(),
    {
        reveal(ControllerView::preview_lyrics_result);
        match self.current_queue_entry() {
            None => self.fail(text::owned(NOTHING_PLAYS)),
            Some((server_id, entry, _)) => {
                if !entry.track_id.same(track_id) {
                    self.fail(
                        text::owned("The playing track changed before lyrics were loaded."),
                    );
                    return;
                }
                match lyrics_from_lrclib_search_result(track_id.copy(), result) {
                    Some(lyrics) => self.show_lyrics(&server_id, lyrics),
                    None => self.fail(
                        text::owned("Selected lyric result has no lyrics to load."),
                    ),
                }
            },
        }
    }
}

/// What is found where lyrics are looked for: in the file beside the track, at the server, which
/// may fail, and elsewhere.
#[verifier::ext_equal]
pub struct LyricsFound {
    pub content: Option<Seq<char>>,
    pub server: Result<Option<LyricsView>, Seq<char>>,
    pub external: Option<LyricsView>,
}

impl ControllerView {
    /// With something that was asked for lyrics answered.
    pub open spec fn lyrics_answered(self, asked: EffectView, found: LyricsFound)
        -> ControllerView {
        match asked {
            EffectView::ReadSidecarLyrics {
                server_id,
                entry,
                use_cache,
                search,
                providers,
                candidates: _,
            } => self.look_for_lyrics(
                server_id,
                entry,
                use_cache,
                search,
                providers,
                found.content,
            ),
            EffectView::FetchServerLyrics { saved, entry, search, providers } =>
                match found.server {
                Ok(Some(lyrics)) => self.show_lyrics(saved.server.id, lyrics),
                Ok(None) => self.server_lyrics_missing(
                    saved.server.id,
                    entry,
                    search,
                    providers,
                    None,
                ),
                Err(error) => self.server_lyrics_missing(
                    saved.server.id,
                    entry,
                    search,
                    providers,
                    Some(error),
                ),
            },
            EffectView::FetchExternalLyrics { server_id, entry: _, providers: _, server_error } =>
                self.external_lyrics(server_id, found.external, server_error),
            _ => self,
        }
    }

    /// With what was asked since an earlier state answered, where something was.
    pub open spec fn lyrics_went_on(self, earlier: ControllerView, found: LyricsFound)
        -> ControllerView {
        if self.effects.len() > earlier.effects.len() {
            self.lyrics_answered(self.effects.last(), found)
        } else {
            self
        }
    }

    /// With a request for lyrics carried to its end: the file beside the track, the server and
    /// what is elsewhere are each asked where it comes to that.
    pub open spec fn lyrics_requested(
        self,
        use_cache: bool,
        search: JellyfinLyricsSearch,
        found: LyricsFound,
    ) -> ControllerView {
        let first = self.lyrics_search(use_cache, search);
        let second = first.lyrics_went_on(self, found);
        let third = second.lyrics_went_on(first, found);
        third.lyrics_went_on(second, found)
    }

    /// The events told since an earlier state.
    pub open spec fn told_since(self, earlier: ControllerView) -> Seq<ControllerEventView> {
        self.events.skip(earlier.events.len() as int)
    }
}

/// Whether what is asked for is lyrics, and how far a request for them is from its end.
pub open spec fn lyrics_steps_left(asked: EffectView) -> nat {
    match asked {
        EffectView::ReadSidecarLyrics { .. } => 3,
        EffectView::FetchServerLyrics { .. } => 2,
        EffectView::FetchExternalLyrics { .. } => 1,
        _ => 0,
    }
}

/// Whether lyrics are told, or that there are none, as one event, or as one that follows an error.
pub open spec fn lyrics_told_once(told: Seq<ControllerEventView>) -> bool {
    ||| told.len() == 1 && told[0] is Lyrics
    ||| told.len() == 2 && told[0] is Error && told[1] == ControllerEventView::Lyrics(None)
}

/// Whether a step of a request told lyrics once and asked for nothing, or told nothing and asked
/// for one thing more, nearer to the end of the request.
pub open spec fn lyrics_step(before: ControllerView, after: ControllerView, left: nat) -> bool {
    ||| after.effects == before.effects && after.events.take(before.events.len() as int)
        == before.events && lyrics_told_once(after.told_since(before))
    ||| after.events == before.events && after.effects.len() == before.effects.len() + 1
        && after.effects.drop_last() == before.effects && 0 < lyrics_steps_left(
        after.effects.last(),
    ) < left
}

proof fn lemma_look_for_lyrics_steps(
    before: ControllerView,
    server_id: Seq<char>,
    entry: QueueEntryView,
    use_cache: bool,
    search: JellyfinLyricsSearch,
    providers: Seq<Seq<char>>,
    content: Option<Seq<char>>,
)
    ensures
        ({
            let after = before.look_for_lyrics(
                server_id,
                entry,
                use_cache,
                search,
                providers,
                content,
            );
            &&& lyrics_step(before, after, 3)
            &&& after.told_since(before).len() <= 1
            &&& after.effects.len() > before.effects.len()
                && after.effects.last() is FetchExternalLyrics ==> after.effects.last()
                == (EffectView::FetchExternalLyrics {
                server_id,
                entry,
                providers,
                server_error: None,
            })
        }),
{
    reveal(ControllerView::look_for_lyrics);
    reveal(ControllerView::show_lyrics);
    let after = before.look_for_lyrics(
        server_id,
        entry,
        use_cache,
        search,
        providers,
        content,
    );
    assert(after.events.take(before.events.len() as int) =~= before.events);
    if after.effects.len() > before.effects.len() {
        assert(after.effects.drop_last() =~= before.effects);
    }
}

/// A request for lyrics either ends at once, with lyrics told once and no error, or leads to one
/// question.
pub proof fn each_request_tells_or_asks_once(
    before: ControllerView,
    use_cache: bool,
    search: JellyfinLyricsSearch,
)
    ensures
        lyrics_step(before, before.lyrics_search(use_cache, search), 4),
        before.lyrics_search(use_cache, search).told_since(before).len() <= 1,
{
    reveal(ControllerView::lyrics_search);
    let after = before.lyrics_search(use_cache, search);
    if let Some(entry) = before.current() {
        lemma_look_for_lyrics_steps(
            before,
            before.queue->0.server_id,
            entry,
            use_cache,
            search,
            before.settings().external_lyrics_providers,
            None,
        );
    }
    assert(after.events.take(before.events.len() as int) =~= before.events);
    if after.effects.len() > before.effects.len() {
        assert(after.effects.drop_last() =~= before.effects);
    }
}

/// Whatever happened meanwhile, an answer that a request for lyrics waits for either ends the
/// request, with lyrics told once, or leads to one more question, nearer to the end. An error is
/// told only where the server failed and nothing was found elsewhere.
pub proof fn each_answer_tells_or_asks_once(
    before: ControllerView,
    asked: EffectView,
    found: LyricsFound,
)
    requires
        lyrics_steps_left(asked) > 0,
    ensures
        lyrics_step(before, before.lyrics_answered(asked, found), lyrics_steps_left(asked)),
        before.lyrics_answered(asked, found).told_since(before).len() == 2 ==> (match asked {
            EffectView::FetchServerLyrics { search, .. } => !remote_allowed(search)
                && found.server is Err,
            EffectView::FetchExternalLyrics { server_error, .. } => server_error is Some
                && found.external is None,
            _ => false,
        }),
{
    let after = before.lyrics_answered(asked, found);
    match asked {
        EffectView::ReadSidecarLyrics {
            server_id,
            entry,
            use_cache,
            search,
            providers,
            candidates: _,
        } => {
            lemma_look_for_lyrics_steps(
                before,
                server_id,
                entry,
                use_cache,
                search,
                providers,
                found.content,
            );
        },
        _ => {
            reveal(ControllerView::show_lyrics);
            reveal(ControllerView::server_lyrics_missing);
            reveal(ControllerView::external_lyrics);
            assert(after.events.take(before.events.len() as int) =~= before.events);
            if after.effects.len() > before.effects.len() {
                assert(after.effects.drop_last() =~= before.effects);
            }
        },
    }
}

/// A request for lyrics tells lyrics, or that there are none, exactly once, whatever is kept,
/// set and found. An error is told only where the server failed and nothing was found
/// elsewhere; it comes first, and that there are no lyrics follows. Where nothing is played,
/// only that there are none is told.
pub proof fn lyrics_are_told_exactly_once(
    before: ControllerView,
    use_cache: bool,
    search: JellyfinLyricsSearch,
    found: LyricsFound,
)
    ensures
        ({
            let after = before.lyrics_requested(use_cache, search, found);
            let told = after.told_since(before);
            &&& after.events.take(before.events.len() as int) == before.events
            &&& lyrics_told_once(told)
            &&& told.len() == 2 ==> (found.server matches Err(error) && told[0]
                == ControllerEventView::Error(error))
            &&& told.len() == 2 ==> found.external is None || !remote_allowed(search)
            &&& before.current() is None ==> told =~= seq![ControllerEventView::Lyrics(None)]
        }),
{
    reveal(ControllerView::lyrics_search);
    let first = before.lyrics_search(use_cache, search);
    let second = first.lyrics_went_on(before, found);
    let third = second.lyrics_went_on(first, found);
    let after = third.lyrics_went_on(second, found);
    reveal(ControllerView::server_lyrics_missing);
    reveal(ControllerView::external_lyrics);
    reveal(ControllerView::look_for_lyrics);
    reveal(ControllerView::show_lyrics);
    assert(after.events.take(before.events.len() as int) =~= before.events);
}

/// Looking for lyrics in private mode never leads beyond the source of the track.
pub proof fn private_mode_stays_at_the_source(
    controller: ControllerView,
    server_id: Seq<char>,
    entry: QueueEntryView,
    use_cache: bool,
    providers: Seq<Seq<char>>,
    content: Option<Seq<char>>,
    server_error: Option<Seq<char>>,
)
    requires
        controller.settings().private_mode,
    ensures
        ({
            let search = search_order(controller.settings());
            let found = controller.look_for_lyrics(
                server_id,
                entry,
                use_cache,
                search,
                providers,
                content,
            );
            &&& found.effects.len() > controller.effects.len() ==> found.effects.last() is
                FetchServerLyrics
            &&& found.effects.take(controller.effects.len() as int) == controller.effects
            &&& found.effects.len() <= controller.effects.len() + 1
            &&& controller.server_lyrics_missing(
                server_id,
                entry,
                search,
                providers,
                server_error,
            ).effects == controller.effects
        }),
{
    reveal(ControllerView::look_for_lyrics);
    reveal(ControllerView::server_lyrics_missing);
    reveal(ControllerView::show_lyrics);
    let search = search_order(controller.settings());
    let found = controller.look_for_lyrics(
        server_id,
        entry,
        use_cache,
        search,
        providers,
        content,
    );
    assert(found.effects.take(controller.effects.len() as int) =~= controller.effects);
}

} // verus!
