//! What is kept of the source that is shown.

use crate::cached_reads::{
    is_local, load_settings_for_saved, scrubbed_genre, scrubbed_playlist, scrubbed_smart,
    scrubbed_track, show_albums, show_tracks, shown_albums, shown_tracks, source_is_local,
    source_settings, Scrub,
};
use crate::controller::AppController;
use crate::library_details::{
    album_detail, artist_detail, genre_detail, load_album_detail, load_artist_detail,
    load_genre_detail, load_tracks_for_albums, show_artists, shown_artists, tracks_of_album,
};
use crate::local_access::{local_match_path, path_of_match};
use crate::model::ids::{AlbumId, ArtistId, GenreId, PlaylistId, SmartPlaylistId, TrackId};
use crate::model::library::{
    Album, AlbumTracks, AlbumTracksView, AlbumView, Artist, ArtistView, CachedArtistDetail,
    CachedGenreDetail, Genre, GenreView, ImageRef, ImageRefView, Playlist, PlaylistDetail,
    PlaylistDetailView, PlaylistEntry, PlaylistEntryView, PlaylistView, SmartPlaylist,
    SmartPlaylistBuiltin, SmartPlaylistDetail, SmartPlaylistDetailView, SmartPlaylistView, Track,
    TrackView,
};
use crate::model::settings::AppSettings;
use crate::model::source::{SavedServer, SavedServerView};
use crate::model::store::{PlaylistRows, ServerLibrary, ServerLibraryView};
use crate::playlists::{grouped_cover_refs_for_items, grouped_covers};
use crate::search::{
    album_found, artist_found, genre_found, playlist_found, track_found, Found,
};
use crate::select::{change_items, choose_items, chosen, Change};
use crate::store::answers;
use crate::table::{get_row, page_of, row, take_page};
use crate::value::Value;
use vstd::prelude::*;

verus! {

/// The tracks of the entries of a playlist.
pub open spec fn tracks_of_entries(entries: Seq<PlaylistEntryView>) -> Seq<TrackView> {
    entries.map_values(|entry: PlaylistEntryView| entry.track)
}

/// Entries of a playlist with other tracks.
pub open spec fn with_tracks(entries: Seq<PlaylistEntryView>, tracks: Seq<TrackView>) -> Seq<
    PlaylistEntryView,
> {
    Seq::new(
        entries.len(),
        |i: int| PlaylistEntryView { entry_id: entries[i].entry_id, track: tracks[i] },
    )
}

/// A playlist with its entries, as they are kept.
pub open spec fn kept_playlist(library: ServerLibraryView, playlist_id: Seq<char>) -> Option<
    PlaylistDetailView,
> {
    match row::<Playlist>(library.playlists, playlist_id) {
        None => None,
        Some(playlist) => Some(
            PlaylistDetailView {
                playlist,
                entries: match row::<PlaylistRows>(library.playlist_rows, playlist_id) {
                    Some(rows) => rows.entries,
                    None => Seq::empty(),
                },
            },
        ),
    }
}

/// A playlist with its entries, as they are kept.
pub fn load_playlist_detail(library: &ServerLibrary, playlist_id: &PlaylistId) -> (result: Option<
    PlaylistDetail,
>)
    ensures
        result.deep_view() == kept_playlist(library.deep_view(), playlist_id.deep_view()),
{
    match get_row(&library.playlists, playlist_id.as_str()) {
        None => None,
        Some(playlist) => {
            let entries: Vec<PlaylistEntry> = match get_row(
                &library.playlist_rows,
                playlist_id.as_str(),
            ) {
                Some(rows) => rows.entries,
                None => Vec::new(),
            };
            assert(row::<PlaylistRows>(
                library.deep_view().playlist_rows,
                playlist_id.deep_view(),
            ) is None ==> entries.deep_view() =~= Seq::empty());
            Some(PlaylistDetail { playlist, entries })
        },
    }
}

fn entry_tracks(entries: &Vec<PlaylistEntry>) -> (result: Vec<Track>)
    ensures
        result.deep_view() == tracks_of_entries(entries.deep_view()),
{
    let ghost expected = tracks_of_entries(entries.deep_view());
    let mut result: Vec<Track> = Vec::new();
    let mut i: usize = 0;
    assert(result.deep_view() =~= expected.take(0));
    while i < entries.len()
        invariant
            i <= entries@.len(),
            expected == tracks_of_entries(entries.deep_view()),
            result.deep_view() == expected.take(i as int),
        decreases entries.len() - i,
    {
        let ghost before = result.deep_view();
        result.push(entries[i].track.copy());
        assert(result.deep_view() =~= before.push(expected[i as int]));
        assert(expected.take(i + 1) =~= before.push(expected[i as int]));
        i += 1;
    }
    assert(expected.take(i as int) =~= expected);
    result
}

fn put_tracks(entries: &mut Vec<PlaylistEntry>, tracks: Vec<Track>)
    requires
        old(entries)@.len() == tracks@.len(),
    ensures
        final(entries).deep_view() == with_tracks(old(entries).deep_view(), tracks.deep_view()),
{
    let ghost before = entries.deep_view();
    let ghost expected = with_tracks(before, tracks.deep_view());
    let mut result: Vec<PlaylistEntry> = Vec::new();
    let mut i: usize = 0;
    assert(result.deep_view() =~= expected.take(0));
    while i < entries.len()
        invariant
            i <= entries@.len(),
            entries@.len() == tracks@.len(),
            before == entries.deep_view(),
            expected == with_tracks(before, tracks.deep_view()),
            result.deep_view() == expected.take(i as int),
        decreases entries.len() - i,
    {
        let ghost done = result.deep_view();
        let entry: PlaylistEntry = PlaylistEntry {
            entry_id: entries[i].entry_id.copy(),
            track: tracks[i].copy(),
        };
        assert(entry.deep_view() == expected[i as int]);
        result.push(entry);
        assert(result.deep_view() =~= done.push(expected[i as int]));
        assert(expected.take(i + 1) =~= done.push(expected[i as int]));
        i += 1;
    }
    assert(expected.take(i as int) =~= expected);
    *entries = result;
}

/// A playlist with its entries, as they are shown.
pub open spec fn playlist_detail(
    library: ServerLibraryView,
    playlist_id: Seq<char>,
    saved: SavedServerView,
    settings: crate::model::settings::AppSettingsView,
) -> Option<PlaylistDetailView> {
    match kept_playlist(library, playlist_id) {
        None => None,
        Some(kept) => Some(
            PlaylistDetailView {
                entries: with_tracks(
                    kept.entries,
                    shown_tracks(
                        tracks_of_entries(kept.entries),
                        library.albums,
                        saved,
                        settings,
                    ),
                ),
                ..kept
            },
        ),
    }
}

/// The smart playlists of a library.
pub open spec fn smart_playlists(details: Seq<SmartPlaylistDetailView>) -> Seq<SmartPlaylistView> {
    details.map_values(|detail: SmartPlaylistDetailView| detail.playlist)
}

fn list_smart_playlists(details: &Vec<SmartPlaylistDetail>) -> (result: Vec<SmartPlaylist>)
    ensures
        result.deep_view() == smart_playlists(details.deep_view()),
{
    let ghost expected = smart_playlists(details.deep_view());
    let mut result: Vec<SmartPlaylist> = Vec::new();
    let mut i: usize = 0;
    assert(result.deep_view() =~= expected.take(0));
    while i < details.len()
        invariant
            i <= details@.len(),
            expected == smart_playlists(details.deep_view()),
            result.deep_view() == expected.take(i as int),
        decreases details.len() - i,
    {
        let ghost before = result.deep_view();
        result.push(details[i].playlist.copy());
        assert(result.deep_view() =~= before.push(expected[i as int]));
        assert(expected.take(i + 1) =~= before.push(expected[i as int]));
        i += 1;
    }
    assert(expected.take(i as int) =~= expected);
    result
}

/// A smart playlist with its tracks, as they are shown.
pub open spec fn smart_detail(
    library: ServerLibraryView,
    id: Seq<char>,
    saved: SavedServerView,
) -> Option<SmartPlaylistDetailView> {
    match row::<SmartPlaylistDetail>(library.smart_playlists, id) {
        None => None,
        Some(detail) => Some(
            SmartPlaylistDetailView {
                playlist: scrubbed_smart(is_local(saved))(detail.playlist),
                tracks: detail.tracks.map_values(scrubbed_track(is_local(saved))),
            },
        ),
    }
}

/// Whether one of the smart playlists that come by themselves is there.
pub open spec fn has_builtin(
    details: Seq<SmartPlaylistDetailView>,
    builtin: SmartPlaylistBuiltin,
) -> bool {
    exists|i: int|
        0 <= i < details.len() && (#[trigger] details[i]).playlist.builtin == Some(builtin)
}

/// The smart playlists that come by themselves and are not there, in their order.
pub open spec fn missing_builtins(details: Seq<SmartPlaylistDetailView>) -> Seq<
    SmartPlaylistBuiltin,
> {
    let wanted = seq![
        SmartPlaylistBuiltin::Favorites,
        SmartPlaylistBuiltin::RecentlyAdded,
        SmartPlaylistBuiltin::RecentlyPlayed,
        SmartPlaylistBuiltin::MostPlayed,
    ];
    chosen(wanted, is_missing(details))
}

/// Whether a smart playlist that comes by itself is not there.
pub open spec fn is_missing(details: Seq<SmartPlaylistDetailView>) -> spec_fn(
    SmartPlaylistBuiltin,
) -> bool {
    |builtin: SmartPlaylistBuiltin| !has_builtin(details, builtin)
}

struct Missing<'a> {
    details: &'a Vec<SmartPlaylistDetail>,
}

impl<'a> crate::select::Choice<SmartPlaylistBuiltin> for Missing<'a> {
    closed spec fn test(&self) -> spec_fn(SmartPlaylistBuiltin) -> bool {
        is_missing(self.details.deep_view())
    }

    fn takes(&self, item: &SmartPlaylistBuiltin) -> (result: bool) {
        let ghost all = self.details.deep_view();
        let mut i: usize = 0;
        while i < self.details.len()
            invariant
                i <= self.details@.len(),
                all == self.details.deep_view(),
                forall|j: int|
                    0 <= j < i ==> (#[trigger] all[j]).playlist.builtin != Some(*item),
            decreases self.details.len() - i,
        {
            assert(all[i as int] == self.details@[i as int].deep_view());
            let same: bool = match &self.details[i].playlist.builtin {
                Some(builtin) => *builtin == *item,
                None => false,
            };
            if same {
                assert(has_builtin(all, *item));
                return false;
            }
            i += 1;
        }
        assert(!has_builtin(all, *item));
        true
    }
}

impl AppController {
    fn shown_library(&self) -> (result: Result<
        Option<(SavedServer, ServerLibrary, AppSettings)>,
        String,
    >)
        ensures
            match result {
                Err(error) => self.deep_view().store.fault == Some(error@),
                Ok(None) => self.deep_view().store.fault is None
                    && self.deep_view().store.active_server() is None,
                Ok(Some((saved, library, settings))) => {
                    let store = self.deep_view().store;
                    &&& store.fault is None
                    &&& store.active_server() == Some(saved.deep_view())
                    &&& library.deep_view() == store.library(saved.deep_view().server.id)
                    &&& settings.deep_view() == source_settings(
                        store.settings,
                        saved.deep_view(),
                    )
                },
            },
    {
        match self.store.active_server() {
            Err(error) => Err(error),
            Ok(None) => Ok(None),
            Ok(Some(saved)) => {
                let library: ServerLibrary = self.store.library(&saved.server.id);
                let settings: AppSettings = load_settings_for_saved(&self.store, &saved);
                Ok(Some((saved, library, settings)))
            },
        }
    }

    /// An album with its tracks.
    pub fn cached_album_detail(&self, album_id: &AlbumId) -> (result: Result<
        Option<(Album, Vec<Track>)>,
        String,
    >)
        ensures
            ({
                let store = self.deep_view().store;
                answers(
                    result,
                    store.fault,
                    match store.active_server() {
                        Some(saved) => album_detail(
                            store.library(saved.server.id),
                            album_id.deep_view(),
                            saved,
                            store.settings,
                        ),
                        None => None,
                    },
                )
            }),
    {
        match self.shown_library() {
            Err(error) => Err(error),
            Ok(None) => Ok(None),
            Ok(Some((saved, library, settings))) => Ok(
                load_album_detail(&library, album_id, &saved, &settings),
            ),
        }
    }

    /// The tracks of albums.
    pub fn cached_album_tracks(&self, album_ids: &Vec<AlbumId>) -> (result: Result<
        Vec<AlbumTracks>,
        String,
    >)
        ensures
            ({
                let store = self.deep_view().store;
                answers(
                    result,
                    store.fault,
                    match store.active_server() {
                        Some(saved) => Seq::new(
                            album_ids.deep_view().len(),
                            |i: int|
                                tracks_of_album(
                                    store.library(saved.server.id),
                                    album_ids.deep_view()[i],
                                    saved,
                                    store.settings,
                                ),
                        ),
                        None => Seq::<AlbumTracksView>::empty(),
                    },
                )
            }),
    {
        match self.shown_library() {
            Err(error) => Err(error),
            Ok(None) => {
                let none: Vec<AlbumTracks> = Vec::new();
                assert(none.deep_view() =~= Seq::empty());
                Ok(none)
            },
            Ok(Some((saved, library, settings))) => {
                let found: Vec<AlbumTracks> = load_tracks_for_albums(
                    &library,
                    album_ids,
                    &saved,
                    &settings,
                );
                proof {
                    let store = self.deep_view().store;
                    assert(found.deep_view() =~= Seq::new(
                        album_ids.deep_view().len(),
                        |i: int|
                            tracks_of_album(
                                store.library(saved.deep_view().server.id),
                                album_ids.deep_view()[i],
                                saved.deep_view(),
                                store.settings,
                            ),
                    ));
                }
                Ok(found)
            },
        }
    }

    /// An artist with their work.
    pub fn cached_artist_detail(&self, artist_id: &ArtistId) -> (result: Result<
        Option<CachedArtistDetail>,
        String,
    >)
        ensures
            ({
                let store = self.deep_view().store;
                answers(
                    result,
                    store.fault,
                    match store.active_server() {
                        Some(saved) => artist_detail(
                            store.library(saved.server.id),
                            artist_id.deep_view(),
                            saved,
                            store.settings,
                        ),
                        None => None,
                    },
                )
            }),
    {
        match self.shown_library() {
            Err(error) => Err(error),
            Ok(None) => Ok(None),
            Ok(Some((saved, library, settings))) => Ok(
                load_artist_detail(&library, artist_id, &saved, &settings),
            ),
        }
    }

    /// A genre with what is of it.
    pub fn cached_genre_detail(&self, genre_id: &GenreId) -> (result: Result<
        Option<CachedGenreDetail>,
        String,
    >)
        ensures
            ({
                let store = self.deep_view().store;
                answers(
                    result,
                    store.fault,
                    match store.active_server() {
                        Some(saved) => genre_detail(
                            store.library(saved.server.id),
                            genre_id.deep_view(),
                            saved,
                            store.settings,
                        ),
                        None => None,
                    },
                )
            }),
    {
        match self.shown_library() {
            Err(error) => Err(error),
            Ok(None) => Ok(None),
            Ok(Some((saved, library, settings))) => Ok(
                load_genre_detail(&library, genre_id.as_str(), &saved, &settings),
            ),
        }
    }

    /// A playlist with its entries.
    pub fn cached_playlist_detail(&self, playlist_id: &PlaylistId) -> (result: Result<
        Option<PlaylistDetail>,
        String,
    >)
        ensures
            ({
                let store = self.deep_view().store;
                answers(
                    result,
                    store.fault,
                    match store.active_server() {
                        Some(saved) => playlist_detail(
                            store.library(saved.server.id),
                            playlist_id.deep_view(),
                            saved,
                            store.settings,
                        ),
                        None => None,
                    },
                )
            }),
    {
        match self.shown_library() {
            Err(error) => Err(error),
            Ok(None) => Ok(None),
            Ok(Some((saved, library, settings))) => {
                match load_playlist_detail(&library, playlist_id) {
                    None => Ok(None),
                    Some(mut detail) => {
                        let mut tracks: Vec<Track> = entry_tracks(&detail.entries);
                        assert(tracks.deep_view().len() == detail.entries@.len());
                        let ghost before = tracks.deep_view();
                        show_tracks(&mut tracks, &library.albums, &saved, &settings);
                        assert(tracks.deep_view().len() == before.len());
                        assert(tracks@.len() == tracks.deep_view().len());
                        put_tracks(&mut detail.entries, tracks);
                        Ok(Some(detail))
                    },
                }
            },
        }
    }

    /// The images that a playlist is shown by.
    pub fn cached_playlist_cover_refs(&self, playlist_id: &PlaylistId) -> (result: Result<
        Vec<ImageRef>,
        String,
    >)
        ensures
            ({
                let store = self.deep_view().store;
                let detail = match store.active_server() {
                    Some(saved) => playlist_detail(
                        store.library(saved.server.id),
                        playlist_id.deep_view(),
                        saved,
                        store.settings,
                    ),
                    None => None,
                };
                answers(
                    result,
                    store.fault,
                    match detail {
                        Some(detail) => grouped_covers(
                            Seq::empty(),
                            tracks_of_entries(detail.entries),
                        ),
                        None => Seq::<ImageRefView>::empty(),
                    },
                )
            }),
    {
        match self.cached_playlist_detail(playlist_id) {
            Err(error) => Err(error),
            Ok(None) => {
                let none: Vec<ImageRef> = Vec::new();
                assert(none.deep_view() =~= Seq::empty());
                Ok(none)
            },
            Ok(Some(detail)) => {
                let albums: Vec<Album> = Vec::new();
                assert(albums.deep_view() =~= Seq::empty());
                Ok(grouped_cover_refs_for_items(&albums, &entry_tracks(&detail.entries)))
            },
        }
    }

    /// A part of the albums that are found by a query, and how many there are; without a
    /// query all are.
    pub fn cached_albums_page_matching(&self, query: &str, offset: usize, limit: usize) -> (result:
        Result<(Vec<Album>, usize), String>)
        ensures
            ({
                let store = self.deep_view().store;
                answers(
                    result,
                    store.fault,
                    match store.active_server() {
                        Some(saved) => {
                            let found = chosen(
                                store.library(saved.server.id).albums,
                                album_found(query@),
                            );
                            (
                                shown_albums(
                                    page_of(found, offset as nat, limit as nat),
                                    saved,
                                    store.settings,
                                ),
                                found.len() as usize,
                            )
                        },
                        None => (Seq::<AlbumView>::empty(), 0usize),
                    },
                )
            }),
    {
        match self.shown_library() {
            Err(error) => Err(error),
            Ok(None) => {
                let none: Vec<Album> = Vec::new();
                assert(none.deep_view() =~= Seq::empty());
                Ok((none, 0))
            },
            Ok(Some((saved, library, settings))) => {
                let found: Vec<Album> = choose_items(&library.albums, &Found { query });
                assert(found.deep_view().len() == found@.len());
                let mut page: Vec<Album> = take_page(&found, offset, limit);
                show_albums(&mut page, &saved, &settings);
                Ok((page, found.len()))
            },
        }
    }

    /// A part of the albums, and how many there are.
    pub fn cached_albums_page(&self, offset: usize, limit: usize) -> (result: Result<
        (Vec<Album>, usize),
        String,
    >)
        ensures
            ({
                let store = self.deep_view().store;
                answers(
                    result,
                    store.fault,
                    match store.active_server() {
                        Some(saved) => {
                            let all = store.library(saved.server.id).albums;
                            (
                                shown_albums(
                                    page_of(all, offset as nat, limit as nat),
                                    saved,
                                    store.settings,
                                ),
                                all.len() as usize,
                            )
                        },
                        None => (Seq::<AlbumView>::empty(), 0usize),
                    },
                )
            }),
    {
        match self.shown_library() {
            Err(error) => Err(error),
            Ok(None) => {
                let none: Vec<Album> = Vec::new();
                assert(none.deep_view() =~= Seq::empty());
                Ok((none, 0))
            },
            Ok(Some((saved, library, settings))) => {
                assert(library.deep_view().albums.len() == library.albums@.len());
                let mut page: Vec<Album> = take_page(&library.albums, offset, limit);
                show_albums(&mut page, &saved, &settings);
                Ok((page, library.albums.len()))
            },
        }
    }

    /// A part of the tracks that are found by a query, and how many there are.
    pub fn cached_tracks_page_matching(&self, query: &str, offset: usize, limit: usize) -> (result:
        Result<(Vec<Track>, usize), String>)
        ensures
            ({
                let store = self.deep_view().store;
                answers(
                    result,
                    store.fault,
                    match store.active_server() {
                        Some(saved) => {
                            let library = store.library(saved.server.id);
                            let found = chosen(library.tracks, track_found(query@));
                            (
                                shown_tracks(
                                    page_of(found, offset as nat, limit as nat),
                                    library.albums,
                                    saved,
                                    store.settings,
                                ),
                                found.len() as usize,
                            )
                        },
                        None => (Seq::<TrackView>::empty(), 0usize),
                    },
                )
            }),
    {
        match self.shown_library() {
            Err(error) => Err(error),
            Ok(None) => {
                let none: Vec<Track> = Vec::new();
                assert(none.deep_view() =~= Seq::empty());
                Ok((none, 0))
            },
            Ok(Some((saved, library, settings))) => {
                let found: Vec<Track> = choose_items(&library.tracks, &Found { query });
                assert(found.deep_view().len() == found@.len());
                let mut page: Vec<Track> = take_page(&found, offset, limit);
                show_tracks(&mut page, &library.albums, &saved, &settings);
                Ok((page, found.len()))
            },
        }
    }

    /// A part of the tracks, and how many there are.
    pub fn cached_tracks_page(&self, offset: usize, limit: usize) -> (result: Result<
        (Vec<Track>, usize),
        String,
    >)
        ensures
            ({
                let store = self.deep_view().store;
                answers(
                    result,
                    store.fault,
                    match store.active_server() {
                        Some(saved) => {
                            let library = store.library(saved.server.id);
                            (
                                shown_tracks(
                                    page_of(library.tracks, offset as nat, limit as nat),
                                    library.albums,
                                    saved,
                                    store.settings,
                                ),
                                library.tracks.len() as usize,
                            )
                        },
                        None => (Seq::<TrackView>::empty(), 0usize),
                    },
                )
            }),
    {
        match self.shown_library() {
            Err(error) => Err(error),
            Ok(None) => {
                let none: Vec<Track> = Vec::new();
                assert(none.deep_view() =~= Seq::empty());
                Ok((none, 0))
            },
            Ok(Some((saved, library, settings))) => {
                assert(library.deep_view().tracks.len() == library.tracks@.len());
                let mut page: Vec<Track> = take_page(&library.tracks, offset, limit);
                show_tracks(&mut page, &library.albums, &saved, &settings);
                Ok((page, library.tracks.len()))
            },
        }
    }

    /// A track.
    pub fn cached_track(&self, track_id: &TrackId) -> (result: Result<Option<Track>, String>)
        ensures
            ({
                let store = self.deep_view().store;
                answers(
                    result,
                    store.fault,
                    match store.active_server() {
                        Some(saved) => {
                            let library = store.library(saved.server.id);
                            match row::<Track>(library.tracks, track_id.deep_view()) {
                                Some(track) => Some(
                                    shown_tracks(
                                        seq![track],
                                        library.albums,
                                        saved,
                                        store.settings,
                                    )[0],
                                ),
                                None => None,
                            }
                        },
                        None => None,
                    },
                )
            }),
    {
        match self.shown_library() {
            Err(error) => Err(error),
            Ok(None) => Ok(None),
            Ok(Some((saved, library, settings))) => {
                match get_row(&library.tracks, track_id.as_str()) {
                    None => Ok(None),
                    Some(track) => {
                        let ghost only = track.deep_view();
                        let mut tracks: Vec<Track> = Vec::new();
                        tracks.push(track);
                        assert(tracks.deep_view() =~= seq![only]);
                        show_tracks(&mut tracks, &library.albums, &saved, &settings);
                        assert(tracks.deep_view().len() == 1);
                        assert(tracks@.len() == 1);
                        Ok(tracks.pop())
                    },
                }
            },
        }
    }

    /// A part of the artists, or of those of albums, that are found by a query, and how many
    /// there are.
    pub fn cached_artists_page_matching(
        &self,
        album_artist: bool,
        query: &str,
        offset: usize,
        limit: usize,
    ) -> (result: Result<(Vec<Artist>, usize), String>)
        ensures
            ({
                let store = self.deep_view().store;
                answers(
                    result,
                    store.fault,
                    match store.active_server() {
                        Some(saved) => {
                            let library = store.library(saved.server.id);
                            let all = if album_artist {
                                library.album_artists
                            } else {
                                library.artists
                            };
                            let found = chosen(all, artist_found(query@));
                            (
                                shown_artists(
                                    page_of(found, offset as nat, limit as nat),
                                    library.albums,
                                    saved,
                                    store.settings,
                                ),
                                found.len() as usize,
                            )
                        },
                        None => (Seq::<ArtistView>::empty(), 0usize),
                    },
                )
            }),
    {
        match self.shown_library() {
            Err(error) => Err(error),
            Ok(None) => {
                let none: Vec<Artist> = Vec::new();
                assert(none.deep_view() =~= Seq::empty());
                Ok((none, 0))
            },
            Ok(Some((saved, library, settings))) => {
                let found: Vec<Artist> = if album_artist {
                    choose_items(&library.album_artists, &Found { query })
                } else {
                    choose_items(&library.artists, &Found { query })
                };
                assert(found.deep_view().len() == found@.len());
                let mut page: Vec<Artist> = take_page(&found, offset, limit);
                show_artists(&mut page, &library.albums, &saved, &settings);
                Ok((page, found.len()))
            },
        }
    }

    /// A part of the artists, or of those of albums, and how many there are.
    pub fn cached_artists_page(&self, album_artist: bool, offset: usize, limit: usize) -> (result:
        Result<(Vec<Artist>, usize), String>)
        ensures
            ({
                let store = self.deep_view().store;
                answers(
                    result,
                    store.fault,
                    match store.active_server() {
                        Some(saved) => {
                            let library = store.library(saved.server.id);
                            let all = if album_artist {
                                library.album_artists
                            } else {
                                library.artists
                            };
                            (
                                shown_artists(
                                    page_of(all, offset as nat, limit as nat),
                                    library.albums,
                                    saved,
                                    store.settings,
                                ),
                                all.len() as usize,
                            )
                        },
                        None => (Seq::<ArtistView>::empty(), 0usize),
                    },
                )
            }),
    {
        match self.shown_library() {
            Err(error) => Err(error),
            Ok(None) => {
                let none: Vec<Artist> = Vec::new();
                assert(none.deep_view() =~= Seq::empty());
                Ok((none, 0))
            },
            Ok(Some((saved, library, settings))) => {
                let all: &Vec<Artist> = if album_artist {
                    &library.album_artists
                } else {
                    &library.artists
                };
                assert(all.deep_view().len() == all@.len());
                let mut page: Vec<Artist> = take_page(all, offset, limit);
                show_artists(&mut page, &library.albums, &saved, &settings);
                Ok((page, all.len()))
            },
        }
    }

    /// A part of the genres that are found by a query, and how many there are.
    pub fn cached_genres_page_matching(&self, query: &str, offset: usize, limit: usize) -> (result:
        Result<(Vec<Genre>, usize), String>)
        ensures
            ({
                let store = self.deep_view().store;
                answers(
                    result,
                    store.fault,
                    match store.active_server() {
                        Some(saved) => {
                            let found = chosen(
                                store.library(saved.server.id).genres,
                                genre_found(query@),
                            );
                            (
                                page_of(found, offset as nat, limit as nat).map_values(
                                    scrubbed_genre(is_local(saved)),
                                ),
                                found.len() as usize,
                            )
                        },
                        None => (Seq::<GenreView>::empty(), 0usize),
                    },
                )
            }),
    {
        match self.shown_library() {
            Err(error) => Err(error),
            Ok(None) => {
                let none: Vec<Genre> = Vec::new();
                assert(none.deep_view() =~= Seq::empty());
                Ok((none, 0))
            },
            Ok(Some((saved, library, _))) => {
                let found: Vec<Genre> = choose_items(&library.genres, &Found { query });
                assert(found.deep_view().len() == found@.len());
                let mut page: Vec<Genre> = take_page(&found, offset, limit);
                change_items(&mut page, &Scrub { local: source_is_local(&saved) });
                Ok((page, found.len()))
            },
        }
    }

    /// A part of the genres, and how many there are.
    pub fn cached_genres_page(&self, offset: usize, limit: usize) -> (result: Result<
        (Vec<Genre>, usize),
        String,
    >)
        ensures
            ({
                let store = self.deep_view().store;
                answers(
                    result,
                    store.fault,
                    match store.active_server() {
                        Some(saved) => {
                            let all = store.library(saved.server.id).genres;
                            (
                                page_of(all, offset as nat, limit as nat).map_values(
                                    scrubbed_genre(is_local(saved)),
                                ),
                                all.len() as usize,
                            )
                        },
                        None => (Seq::<GenreView>::empty(), 0usize),
                    },
                )
            }),
    {
        match self.shown_library() {
            Err(error) => Err(error),
            Ok(None) => {
                let none: Vec<Genre> = Vec::new();
                assert(none.deep_view() =~= Seq::empty());
                Ok((none, 0))
            },
            Ok(Some((saved, library, _))) => {
                assert(library.deep_view().genres.len() == library.genres@.len());
                let mut page: Vec<Genre> = take_page(&library.genres, offset, limit);
                change_items(&mut page, &Scrub { local: source_is_local(&saved) });
                Ok((page, library.genres.len()))
            },
        }
    }

    /// A part of the playlists that are found by a query, and how many there are.
    pub fn cached_playlists_page_matching(&self, query: &str, offset: usize, limit: usize) -> (
    result: Result<(Vec<Playlist>, usize), String>)
        ensures
            ({
                let store = self.deep_view().store;
                answers(
                    result,
                    store.fault,
                    match store.active_server() {
                        Some(saved) => {
                            let found = chosen(
                                store.library(saved.server.id).playlists,
                                playlist_found(query@),
                            );
                            (
                                page_of(found, offset as nat, limit as nat).map_values(
                                    scrubbed_playlist(is_local(saved)),
                                ),
                                found.len() as usize,
                            )
                        },
                        None => (Seq::<PlaylistView>::empty(), 0usize),
                    },
                )
            }),
    {
        match self.shown_library() {
            Err(error) => Err(error),
            Ok(None) => {
                let none: Vec<Playlist> = Vec::new();
                assert(none.deep_view() =~= Seq::empty());
                Ok((none, 0))
            },
            Ok(Some((saved, library, _))) => {
                let found: Vec<Playlist> = choose_items(&library.playlists, &Found { query });
                assert(found.deep_view().len() == found@.len());
                let mut page: Vec<Playlist> = take_page(&found, offset, limit);
                change_items(&mut page, &Scrub { local: source_is_local(&saved) });
                Ok((page, found.len()))
            },
        }
    }

    /// A part of the playlists, and how many there are.
    pub fn cached_playlists_page(&self, offset: usize, limit: usize) -> (result: Result<
        (Vec<Playlist>, usize),
        String,
    >)
        ensures
            ({
                let store = self.deep_view().store;
                answers(
                    result,
                    store.fault,
                    match store.active_server() {
                        Some(saved) => {
                            let all = store.library(saved.server.id).playlists;
                            (
                                page_of(all, offset as nat, limit as nat).map_values(
                                    scrubbed_playlist(is_local(saved)),
                                ),
                                all.len() as usize,
                            )
                        },
                        None => (Seq::<PlaylistView>::empty(), 0usize),
                    },
                )
            }),
    {
        match self.shown_library() {
            Err(error) => Err(error),
            Ok(None) => {
                let none: Vec<Playlist> = Vec::new();
                assert(none.deep_view() =~= Seq::empty());
                Ok((none, 0))
            },
            Ok(Some((saved, library, _))) => {
                assert(library.deep_view().playlists.len() == library.playlists@.len());
                let mut page: Vec<Playlist> = take_page(&library.playlists, offset, limit);
                change_items(&mut page, &Scrub { local: source_is_local(&saved) });
                Ok((page, library.playlists.len()))
            },
        }
    }

    /// A part of the smart playlists, and how many there are.
    pub fn cached_smart_playlists_page(&self, offset: usize, limit: usize) -> (result: Result<
        (Vec<SmartPlaylist>, usize),
        String,
    >)
        ensures
            ({
                let store = self.deep_view().store;
                answers(
                    result,
                    store.fault,
                    match store.active_server() {
                        Some(saved) => {
                            let all = smart_playlists(
                                store.library(saved.server.id).smart_playlists,
                            );
                            (
                                page_of(all, offset as nat, limit as nat).map_values(
                                    scrubbed_smart(is_local(saved)),
                                ),
                                all.len() as usize,
                            )
                        },
                        None => (Seq::<SmartPlaylistView>::empty(), 0usize),
                    },
                )
            }),
    {
        match self.shown_library() {
            Err(error) => Err(error),
            Ok(None) => {
                let none: Vec<SmartPlaylist> = Vec::new();
                assert(none.deep_view() =~= Seq::empty());
                Ok((none, 0))
            },
            Ok(Some((saved, library, _))) => {
                let all: Vec<SmartPlaylist> = list_smart_playlists(&library.smart_playlists);
                assert(all.deep_view().len() == all@.len());
                let mut page: Vec<SmartPlaylist> = take_page(&all, offset, limit);
                change_items(&mut page, &Scrub { local: source_is_local(&saved) });
                Ok((page, all.len()))
            },
        }
    }

    /// A smart playlist with its tracks.
    pub fn cached_smart_playlist_detail(&self, smart_playlist_id: &SmartPlaylistId) -> (result:
        Result<Option<SmartPlaylistDetail>, String>)
        ensures
            ({
                let store = self.deep_view().store;
                answers(
                    result,
                    store.fault,
                    match store.active_server() {
                        Some(saved) => smart_detail(
                            store.library(saved.server.id),
                            smart_playlist_id.deep_view(),
                            saved,
                        ),
                        None => None,
                    },
                )
            }),
    {
        match self.shown_library() {
            Err(error) => Err(error),
            Ok(None) => Ok(None),
            Ok(Some((saved, library, _))) => {
                match get_row(&library.smart_playlists, smart_playlist_id.as_str()) {
                    None => Ok(None),
                    Some(detail) => {
                        let mut detail: SmartPlaylistDetail = detail;
                        let local: bool = source_is_local(&saved);
                        Scrub { local }.apply(&mut detail.playlist);
                        change_items(&mut detail.tracks, &Scrub { local });
                        Ok(Some(detail))
                    },
                }
            },
        }
    }

    /// The smart playlists that come by themselves and are not there.
    pub fn missing_builtin_smart_playlists(&self) -> (result: Result<
        Vec<SmartPlaylistBuiltin>,
        String,
    >)
        ensures
            ({
                let store = self.deep_view().store;
                answers(
                    result,
                    store.fault,
                    match store.active_server() {
                        Some(saved) => missing_builtins(
                            store.library(saved.server.id).smart_playlists,
                        ),
                        None => Seq::<SmartPlaylistBuiltin>::empty(),
                    },
                )
            }),
    {
        match self.shown_library() {
            Err(error) => Err(error),
            Ok(None) => {
                let none: Vec<SmartPlaylistBuiltin> = Vec::new();
                assert(none.deep_view() =~= Seq::empty());
                Ok(none)
            },
            Ok(Some((_, library, _))) => {
                let mut wanted: Vec<SmartPlaylistBuiltin> = Vec::new();
                wanted.push(SmartPlaylistBuiltin::Favorites);
                wanted.push(SmartPlaylistBuiltin::RecentlyAdded);
                wanted.push(SmartPlaylistBuiltin::RecentlyPlayed);
                wanted.push(SmartPlaylistBuiltin::MostPlayed);
                assert(wanted.deep_view() =~= seq![
                    SmartPlaylistBuiltin::Favorites,
                    SmartPlaylistBuiltin::RecentlyAdded,
                    SmartPlaylistBuiltin::RecentlyPlayed,
                    SmartPlaylistBuiltin::MostPlayed,
                ]);
                Ok(choose_items(&wanted, &Missing { details: &library.smart_playlists }))
            },
        }
    }

    /// The file of a track: its own, or the one that stands for it.
    pub fn cached_track_local_path(&self, track_id: &TrackId) -> (result: Option<String>)
        ensures
            result.deep_view() == (match self.deep_view().store.shown() {
                None => None,
                Some(saved) => {
                    let library = self.deep_view().store.library(saved.server.id);
                    match row::<Track>(library.tracks, track_id.deep_view()) {
                        Some(track) if track.local_path is Some => track.local_path,
                        _ => path_of_match(library.local_matches, track_id.deep_view()),
                    }
                },
            }),
    {
        match self.store.shown() {
            None => None,
            Some(saved) => {
                let library: ServerLibrary = self.store.library(&saved.server.id);
                match get_row(&library.tracks, track_id.as_str()) {
                    Some(track) => if track.local_path.is_some() {
                        track.local_path
                    } else {
                        local_match_path(&library.local_matches, track_id)
                    },
                    None => local_match_path(&library.local_matches, track_id),
                }
            },
        }
    }

    /// The format that a track has at its source.
    pub fn cached_track_source_format(&self, track_id: &TrackId) -> (result: Option<String>)
        ensures
            result.deep_view() == (match self.deep_view().store.shown() {
                None => None,
                Some(saved) => match row::<Track>(
                    self.deep_view().store.library(saved.server.id).tracks,
                    track_id.deep_view(),
                ) {
                    Some(track) => track.source_format,
                    None => None,
                },
            }),
    {
        match self.store.shown() {
            None => None,
            Some(saved) => match get_row(
                &self.store.library(&saved.server.id).tracks,
                track_id.as_str(),
            ) {
                Some(track) => track.source_format,
                None => None,
            },
        }
    }
}

/// A playlist is shown with its entries in their order, each with its own track; only images
/// are changed.
pub proof fn playlists_are_shown_with_their_entries(
    library: ServerLibraryView,
    playlist_id: Seq<char>,
    saved: SavedServerView,
    settings: crate::model::settings::AppSettingsView,
)
    ensures
        playlist_detail(library, playlist_id, saved, settings) is Some <==> kept_playlist(
            library,
            playlist_id,
        ) is Some,
        playlist_detail(library, playlist_id, saved, settings) matches Some(detail) ==> {
            let kept = kept_playlist(library, playlist_id)->0;
            &&& detail.playlist == kept.playlist
            &&& detail.entries.len() == kept.entries.len()
            &&& forall|i: int|
                0 <= i < kept.entries.len() ==> (#[trigger] detail.entries[i]).entry_id
                    == kept.entries[i].entry_id && detail.entries[i].track == (TrackView {
                    image_ref: detail.entries[i].track.image_ref,
                    ..kept.entries[i].track
                })
        },
{
    if let Some(kept) = kept_playlist(library, playlist_id) {
        crate::cached_reads::shown_items_keep_all_but_their_images(
            Seq::empty(),
            tracks_of_entries(kept.entries),
            library.albums,
            saved,
            settings,
        );
    }
}

/// The built-in smart playlists that are missing are exactly those that none of the kept ones
/// is, each once.
pub proof fn missing_smart_playlists_are_those_not_kept(
    details: Seq<SmartPlaylistDetailView>,
    builtin: SmartPlaylistBuiltin,
)
    requires
        builtin == SmartPlaylistBuiltin::Favorites || builtin
            == SmartPlaylistBuiltin::RecentlyAdded || builtin
            == SmartPlaylistBuiltin::RecentlyPlayed || builtin == SmartPlaylistBuiltin::MostPlayed,
    ensures
        missing_builtins(details).contains(builtin) <==> forall|i: int|
            0 <= i < details.len() ==> (#[trigger] details[i]).playlist.builtin != Some(builtin),
        missing_builtins(details).len() <= 4,
{
    let wanted = seq![
        SmartPlaylistBuiltin::Favorites,
        SmartPlaylistBuiltin::RecentlyAdded,
        SmartPlaylistBuiltin::RecentlyPlayed,
        SmartPlaylistBuiltin::MostPlayed,
    ];
    crate::select::chosen_are_those_that_pass(wanted, is_missing(details), builtin);
    crate::select::chosen_keeps_the_order(wanted, is_missing(details));
    wanted.lemma_filter_len(is_missing(details));
    assert(wanted[0] == SmartPlaylistBuiltin::Favorites);
    assert(wanted[1] == SmartPlaylistBuiltin::RecentlyAdded);
    assert(wanted[2] == SmartPlaylistBuiltin::RecentlyPlayed);
    assert(wanted[3] == SmartPlaylistBuiltin::MostPlayed);
    assert(wanted.contains(builtin));
}

/// A smart playlist is shown with its tracks in their order; only images are changed.
pub proof fn smart_playlists_are_shown_with_their_tracks(
    library: ServerLibraryView,
    id: Seq<char>,
    saved: SavedServerView,
)
    ensures
        smart_detail(library, id, saved) matches Some(shown) ==> {
            let kept = row::<SmartPlaylistDetail>(library.smart_playlists, id)->0;
            &&& shown.playlist.name == kept.playlist.name
            &&& shown.playlist.id == kept.playlist.id
            &&& shown.tracks.len() == kept.tracks.len()
            &&& forall|i: int|
                0 <= i < kept.tracks.len() ==> (#[trigger] shown.tracks[i]) == (TrackView {
                    image_ref: shown.tracks[i].image_ref,
                    ..kept.tracks[i]
                })
        },
        smart_detail(library, id, saved) is Some <==> row::<SmartPlaylistDetail>(
            library.smart_playlists,
            id,
        ) is Some,
{
}

} // verus!
