//! Searching the kept library.

use crate::model::library::{
    Album, AlbumView, Artist, ArtistView, Genre, GenreView, Playlist, PlaylistView, SearchResults,
    SearchResultsView, Track, TrackView,
};
use crate::model::store::{ServerLibrary, ServerLibraryView};
use crate::select::{choose_items, chosen, chosen_keeps_the_order, Choice};
use crate::table::{page_of, take_page};
use crate::text::{self, occurs, trimmed};
use crate::waveforms::{ascii_lower, lower_ascii};
use vstd::prelude::*;

verus! {

/// How many items of a kind a search shows at most.
pub const SEARCH_LIMIT: usize = 50;

/// A text with its ASCII letters in lower case.
pub open spec fn lowered(value: Seq<char>) -> Seq<char> {
    value.map_values(|character: char| ascii_lower(character))
}

/// A text with its ASCII letters in lower case.
pub fn lower_text(value: &str) -> (result: String)
    ensures
        result@ == lowered(value@),
{
    let characters: Vec<char> = text::chars(value);
    let mut result: String = String::new();
    let mut i: usize = 0;
    while i < characters.len()
        invariant
            i <= characters@.len(),
            characters@ == value@,
            result@ == lowered(value@).take(i as int),
        decreases characters.len() - i,
    {
        let ghost before = result@;
        result.push(lower_ascii(characters[i]));
        assert(result@ =~= before.push(lowered(value@)[i as int]));
        assert(lowered(value@).take(i + 1) =~= before.push(lowered(value@)[i as int]));
        i += 1;
    }
    assert(lowered(value@).take(i as int) =~= lowered(value@));
    result
}

/// Whether a text is found by a query: whatever the case of its letters, and the white space
/// at the ends of the query.
pub open spec fn is_found(value: Seq<char>, query: Seq<char>) -> bool {
    occurs(lowered(value), lowered(trimmed(query)))
}

/// Whether a text is found by a query.
pub fn found_by(value: &str, query: &str) -> (result: bool)
    ensures
        result == is_found(value@, query@),
{
    text::contains(lower_text(value).as_str(), lower_text(text::trim(query).as_str()).as_str())
}

/// Whether an album is found by its title or artist.
pub open spec fn album_found(query: Seq<char>) -> spec_fn(AlbumView) -> bool {
    |album: AlbumView| is_found(album.title, query) || is_found(album.artist, query)
}

/// Whether a track is found by its title, artist or album.
pub open spec fn track_found(query: Seq<char>) -> spec_fn(TrackView) -> bool {
    |track: TrackView|
        is_found(track.title, query) || is_found(track.artist, query) || is_found(
            track.album,
            query,
        )
}

/// Whether an artist is found by their name.
pub open spec fn artist_found(query: Seq<char>) -> spec_fn(ArtistView) -> bool {
    |artist: ArtistView| is_found(artist.name, query)
}

/// Whether a genre is found by its name.
pub open spec fn genre_found(query: Seq<char>) -> spec_fn(GenreView) -> bool {
    |genre: GenreView| is_found(genre.name, query)
}

/// Whether a playlist is found by its name.
pub open spec fn playlist_found(query: Seq<char>) -> spec_fn(PlaylistView) -> bool {
    |playlist: PlaylistView| is_found(playlist.name, query)
}

/// Picks what is found by a query.
pub struct Found<'a> {
    pub query: &'a str,
}

impl<'a> Choice<Album> for Found<'a> {
    open spec fn test(&self) -> spec_fn(AlbumView) -> bool {
        album_found(self.query@)
    }

    fn takes(&self, item: &Album) -> (result: bool) {
        found_by(item.title.as_str(), self.query) || found_by(item.artist.as_str(), self.query)
    }
}

impl<'a> Choice<Track> for Found<'a> {
    open spec fn test(&self) -> spec_fn(TrackView) -> bool {
        track_found(self.query@)
    }

    fn takes(&self, item: &Track) -> (result: bool) {
        found_by(item.title.as_str(), self.query) || found_by(item.artist.as_str(), self.query)
            || found_by(item.album.as_str(), self.query)
    }
}

impl<'a> Choice<Artist> for Found<'a> {
    open spec fn test(&self) -> spec_fn(ArtistView) -> bool {
        artist_found(self.query@)
    }

    fn takes(&self, item: &Artist) -> (result: bool) {
        found_by(item.name.as_str(), self.query)
    }
}

impl<'a> Choice<Genre> for Found<'a> {
    open spec fn test(&self) -> spec_fn(GenreView) -> bool {
        genre_found(self.query@)
    }

    fn takes(&self, item: &Genre) -> (result: bool) {
        found_by(item.name.as_str(), self.query)
    }
}

impl<'a> Choice<Playlist> for Found<'a> {
    open spec fn test(&self) -> spec_fn(PlaylistView) -> bool {
        playlist_found(self.query@)
    }

    fn takes(&self, item: &Playlist) -> (result: bool) {
        found_by(item.name.as_str(), self.query)
    }
}

/// What a query finds in a library.
pub open spec fn search_of(library: ServerLibraryView, query: Seq<char>) -> SearchResultsView {
    let limit = SEARCH_LIMIT as nat;
    SearchResultsView {
        albums: page_of(chosen(library.albums, album_found(query)), 0, limit),
        tracks: page_of(chosen(library.tracks, track_found(query)), 0, limit),
        artists: page_of(chosen(library.artists, artist_found(query)), 0, limit),
        playlists: page_of(chosen(library.playlists, playlist_found(query)), 0, limit),
    }
}

/// What a query finds in a library.
pub fn search_library(library: &ServerLibrary, query: &str) -> (result: SearchResults)
    ensures
        result.deep_view() == search_of(library.deep_view(), query@),
{
    let found: Found = Found { query };
    SearchResults {
        albums: take_page(&choose_items(&library.albums, &found), 0, SEARCH_LIMIT),
        tracks: take_page(&choose_items(&library.tracks, &found), 0, SEARCH_LIMIT),
        artists: take_page(&choose_items(&library.artists, &found), 0, SEARCH_LIMIT),
        playlists: take_page(&choose_items(&library.playlists, &found), 0, SEARCH_LIMIT),
    }
}

/// A name that holds the query, whatever the case of its Latin letters and the white space
/// around the query, is found.
pub proof fn names_that_hold_the_query_are_found(
    before: Seq<char>,
    written: Seq<char>,
    after: Seq<char>,
    query: Seq<char>,
)
    requires
        written.len() == trimmed(query).len(),
        forall|i: int|
            0 <= i < written.len() ==> ascii_lower(#[trigger] written[i]) == ascii_lower(
                trimmed(query)[i],
            ),
    ensures
        is_found(before + written + after, query),
        forall|character: char|
            'A' <= character <= 'Z' ==> #[trigger] ascii_lower(character) == (((character as u32)
                + 32) as char),
        forall|character: char|
            !('A' <= character <= 'Z') ==> #[trigger] ascii_lower(character) == character,
{
    let value = before + written + after;
    let wanted = lowered(trimmed(query));
    assert(lowered(value).subrange(before.len() as int, (before.len() + written.len()) as int)
        =~= wanted);
    assert(text::stands_at(lowered(value), wanted, before.len() as int));
}

/// A name that is found holds the query.
pub proof fn found_names_hold_the_query(value: Seq<char>, query: Seq<char>)
    requires
        is_found(value, query),
    ensures
        exists|at: int|
            0 <= at && at + trimmed(query).len() <= value.len() && #[trigger] lowered(
                value,
            ).subrange(at, at + trimmed(query).len()) == lowered(trimmed(query)),
{
    let at = choose|at: int| text::stands_at(lowered(value), lowered(trimmed(query)), at);
    assert(lowered(value).subrange(at, at + trimmed(query).len()) == lowered(trimmed(query)));
}

/// A search finds albums by title or artist, tracks by title, artist or album, and artists and
/// playlists by name: the first fifty of each, in their order, and nothing else.
pub proof fn searches_find_the_first_of_each_kind(library: ServerLibraryView, query: Seq<char>)
    ensures
        ({
            let found = search_of(library, query);
            let albums = library.albums.filter(
                |album: AlbumView| is_found(album.title, query) || is_found(album.artist, query),
            );
            let tracks = library.tracks.filter(
                |track: TrackView|
                    is_found(track.title, query) || is_found(track.artist, query) || is_found(
                        track.album,
                        query,
                    ),
            );
            let artists = library.artists.filter(
                |artist: ArtistView| is_found(artist.name, query),
            );
            let playlists = library.playlists.filter(
                |playlist: PlaylistView| is_found(playlist.name, query),
            );
            &&& found.albums == albums.take(if albums.len() < 50 {
                albums.len() as int
            } else {
                50
            })
            &&& found.tracks == tracks.take(if tracks.len() < 50 {
                tracks.len() as int
            } else {
                50
            })
            &&& found.artists == artists.take(if artists.len() < 50 {
                artists.len() as int
            } else {
                50
            })
            &&& found.playlists == playlists.take(if playlists.len() < 50 {
                playlists.len() as int
            } else {
                50
            })
        }),
{
    chosen_keeps_the_order(library.albums, album_found(query));
    chosen_keeps_the_order(library.tracks, track_found(query));
    chosen_keeps_the_order(library.artists, artist_found(query));
    chosen_keeps_the_order(library.playlists, playlist_found(query));
}

} // verus!
