//! Albums, artists and genres with what belongs to them.

use crate::cached_reads::{
    is_local, scrubbed_album, scrubbed_artist, scrubbed_track, shown_albums, shown_tracks,
    settings_for_source, source_is_local, source_settings, show_albums, show_tracks,
    with_album_image, AlbumImages, Scrub,
};
use crate::external_metadata::{
    normalize_album, normalize_albums, normalize_artist, normalize_artists,
    normalize_track_with_album_ref, normalize_tracks, normalized_album, normalized_albums,
    normalized_artist, normalized_artists, normalized_track_beside, normalized_tracks,
};
use crate::model::ids::{AlbumId, ArtistId};
use crate::model::library::{
    Album, AlbumTracks, AlbumTracksView, AlbumView, Artist, ArtistView, CachedArtistDetail,
    CachedArtistDetailView, CachedGenreDetail, CachedGenreDetailView, Genre, ImageRef, ImageRefView,
    Track, TrackView,
};
use crate::model::settings::{AppSettings, AppSettingsView};
use crate::model::source::{SavedServer, SavedServerView};
use crate::model::store::{ServerLibrary, ServerLibraryView};
use crate::select::{change_items, choose_items, chosen, Change, Choice};
use crate::table::{get_row, row};
use crate::value::{holds, Value};
use vstd::prelude::*;

verus! {

/// Whether a track belongs to an album.
pub open spec fn of_album(album_id: Seq<char>) -> spec_fn(TrackView) -> bool {
    |track: TrackView| track.album_id == album_id
}

/// Whether a track is one of an artist.
pub open spec fn track_by(artist_id: Seq<char>) -> spec_fn(TrackView) -> bool {
    |track: TrackView| track.artist_id == Some(artist_id)
}

/// Whether an album is one of an artist.
pub open spec fn album_by(artist_id: Seq<char>) -> spec_fn(AlbumView) -> bool {
    |album: AlbumView| album.artist_id == Some(artist_id)
}

/// Whether an album is one of another artist, but has tracks of an artist.
pub open spec fn album_with(artist_id: Seq<char>, tracks: Seq<TrackView>) -> spec_fn(
    AlbumView,
) -> bool {
    |album: AlbumView|
        album.artist_id != Some(artist_id) && chosen(
            chosen(tracks, track_by(artist_id)),
            of_album(album.id),
        ).len() > 0
}

/// Whether an album is of a genre.
pub open spec fn album_in(genre: Seq<char>) -> spec_fn(AlbumView) -> bool {
    |album: AlbumView| album.genres.contains(genre)
}

/// Whether a track is of a genre.
pub open spec fn track_in(genre: Seq<char>) -> spec_fn(TrackView) -> bool {
    |track: TrackView| track.genres.contains(genre)
}

struct OfAlbum<'a> {
    album_id: &'a AlbumId,
}

impl<'a> Choice<Track> for OfAlbum<'a> {
    closed spec fn test(&self) -> spec_fn(TrackView) -> bool {
        of_album(self.album_id.deep_view())
    }

    fn takes(&self, item: &Track) -> (result: bool) {
        item.album_id.same(self.album_id)
    }
}

struct By<'a> {
    artist_id: &'a ArtistId,
}

fn is_artist(found: &Option<ArtistId>, wanted: &ArtistId) -> (result: bool)
    ensures
        result == (found.deep_view() == Some(wanted.deep_view())),
{
    match found {
        Some(found) => found.same(wanted),
        None => false,
    }
}

impl<'a> Choice<Track> for By<'a> {
    closed spec fn test(&self) -> spec_fn(TrackView) -> bool {
        track_by(self.artist_id.deep_view())
    }

    fn takes(&self, item: &Track) -> (result: bool) {
        is_artist(&item.artist_id, self.artist_id)
    }
}

impl<'a> Choice<Album> for By<'a> {
    closed spec fn test(&self) -> spec_fn(AlbumView) -> bool {
        album_by(self.artist_id.deep_view())
    }

    fn takes(&self, item: &Album) -> (result: bool) {
        is_artist(&item.artist_id, self.artist_id)
    }
}

struct With<'a> {
    artist_id: &'a ArtistId,
    tracks: &'a Vec<Track>,
}

impl<'a> Choice<Album> for With<'a> {
    closed spec fn test(&self) -> spec_fn(AlbumView) -> bool {
        album_with(self.artist_id.deep_view(), self.tracks.deep_view())
    }

    fn takes(&self, item: &Album) -> (result: bool) {
        if is_artist(&item.artist_id, self.artist_id) {
            return false;
        }
        let own: Vec<Track> = choose_items(self.tracks, &By { artist_id: self.artist_id });
        let there: Vec<Track> = choose_items(&own, &OfAlbum { album_id: &item.id });
        assert(there.deep_view().len() == there@.len());
        there.len() > 0
    }
}

struct InGenre<'a> {
    genre: &'a String,
}

impl<'a> Choice<Album> for InGenre<'a> {
    closed spec fn test(&self) -> spec_fn(AlbumView) -> bool {
        album_in(self.genre@)
    }

    fn takes(&self, item: &Album) -> (result: bool) {
        holds(&item.genres, self.genre)
    }
}

impl<'a> Choice<Track> for InGenre<'a> {
    closed spec fn test(&self) -> spec_fn(TrackView) -> bool {
        track_in(self.genre@)
    }

    fn takes(&self, item: &Track) -> (result: bool) {
        holds(&item.genres, self.genre)
    }
}

/// Tracks of an album as they are shown: with the image of the album where they have none.
pub open spec fn shown_beside(album: AlbumView, settings: AppSettingsView) -> spec_fn(
    TrackView,
) -> TrackView {
    |track: TrackView| normalized_track_beside(track, album.image_ref, settings)
}

struct Beside<'a> {
    album: &'a Album,
    settings: &'a AppSettings,
}

impl<'a> Change<Track> for Beside<'a> {
    closed spec fn effect(&self) -> spec_fn(TrackView) -> TrackView {
        shown_beside(self.album.deep_view(), self.settings.deep_view())
    }

    fn apply(&self, item: &mut Track) {
        normalize_track_with_album_ref(item, self.album.image_ref.as_ref(), self.settings);
    }
}

/// An album as it is shown with its tracks.
pub open spec fn detailed_album(
    album: AlbumView,
    saved: SavedServerView,
    settings: AppSettingsView,
) -> AlbumView {
    normalized_album(scrubbed_album(is_local(saved))(album), source_settings(settings, saved))
}

/// An album with its tracks, as they are shown.
pub open spec fn album_detail(
    library: ServerLibraryView,
    album_id: Seq<char>,
    saved: SavedServerView,
    settings: AppSettingsView,
) -> Option<(AlbumView, Seq<TrackView>)> {
    match row::<Album>(library.albums, album_id) {
        None => None,
        Some(album) => {
            let shown = detailed_album(album, saved, settings);
            Some(
                (
                    shown,
                    chosen(library.tracks, of_album(album_id)).map_values(
                        scrubbed_track(is_local(saved)),
                    ).map_values(
                        shown_beside(shown, source_settings(settings, saved)),
                    ).map_values(with_album_image(library.albums, is_local(saved))),
                ),
            )
        },
    }
}

/// An album with its tracks, as they are shown.
pub fn load_album_detail(
    library: &ServerLibrary,
    album_id: &AlbumId,
    saved: &SavedServer,
    settings: &AppSettings,
) -> (result: Option<(Album, Vec<Track>)>)
    ensures
        result.deep_view() == album_detail(
            library.deep_view(),
            album_id.deep_view(),
            saved.deep_view(),
            settings.deep_view(),
        ),
{
    let settings: &AppSettings = &settings_for_source(settings, saved);
    let local: bool = source_is_local(saved);
    let mut album: Album = match get_row(&library.albums, album_id.as_str()) {
        Some(album) => album,
        None => {
            return None;
        },
    };
    Scrub { local }.apply(&mut album);
    normalize_album(&mut album, settings);
    let mut tracks: Vec<Track> = choose_items(&library.tracks, &OfAlbum { album_id });
    change_items(&mut tracks, &Scrub { local });
    change_items(&mut tracks, &Beside { album: &album, settings });
    change_items(&mut tracks, &AlbumImages { albums: &library.albums, local });
    Some((album, tracks))
}

/// The tracks of an album, as they are shown.
pub open spec fn tracks_of_album(
    library: ServerLibraryView,
    album_id: Seq<char>,
    saved: SavedServerView,
    settings: AppSettingsView,
) -> AlbumTracksView {
    AlbumTracksView {
        album_id,
        tracks: shown_tracks(
            chosen(library.tracks, of_album(album_id)),
            library.albums,
            saved,
            settings,
        ),
    }
}

/// The tracks of albums, as they are shown.
pub fn load_tracks_for_albums(
    library: &ServerLibrary,
    album_ids: &Vec<AlbumId>,
    saved: &SavedServer,
    settings: &AppSettings,
) -> (result: Vec<AlbumTracks>)
    ensures
        result.deep_view() == Seq::new(
            album_ids.deep_view().len(),
            |i: int|
                tracks_of_album(
                    library.deep_view(),
                    album_ids.deep_view()[i],
                    saved.deep_view(),
                    settings.deep_view(),
                ),
        ),
{
    let ghost expected = Seq::new(
        album_ids.deep_view().len(),
        |i: int|
            tracks_of_album(
                library.deep_view(),
                album_ids.deep_view()[i],
                saved.deep_view(),
                settings.deep_view(),
            ),
    );
    let mut result: Vec<AlbumTracks> = Vec::new();
    let mut i: usize = 0;
    assert(result.deep_view() =~= expected.take(0));
    while i < album_ids.len()
        invariant
            i <= album_ids@.len(),
            expected == Seq::new(
                album_ids.deep_view().len(),
                |i: int|
                    tracks_of_album(
                        library.deep_view(),
                        album_ids.deep_view()[i],
                        saved.deep_view(),
                        settings.deep_view(),
                    ),
            ),
            result.deep_view() == expected.take(i as int),
        decreases album_ids.len() - i,
    {
        let ghost before = result.deep_view();
        let mut tracks: Vec<Track> = choose_items(
            &library.tracks,
            &OfAlbum { album_id: &album_ids[i] },
        );
        show_tracks(&mut tracks, &library.albums, saved, settings);
        let found: AlbumTracks = AlbumTracks { album_id: album_ids[i].copy(), tracks };
        assert(found.deep_view() == expected[i as int]);
        result.push(found);
        assert(result.deep_view() =~= before.push(expected[i as int]));
        assert(expected.take(i + 1) =~= before.push(expected[i as int]));
        i += 1;
    }
    assert(expected.take(i as int) =~= expected);
    result
}

/// The first image among albums.
pub open spec fn first_album_image(albums: Seq<AlbumView>) -> Option<ImageRefView>
    decreases albums.len(),
{
    if albums.len() == 0 {
        None
    } else if albums[0].image_ref is Some {
        albums[0].image_ref
    } else {
        first_album_image(albums.drop_first())
    }
}

fn image_of_albums(albums: &Vec<Album>) -> (result: Option<ImageRef>)
    ensures
        result.deep_view() == first_album_image(albums.deep_view()),
{
    let ghost all = albums.deep_view();
    let mut i: usize = 0;
    assert(all.skip(0) =~= all);
    while i < albums.len()
        invariant
            i <= albums@.len(),
            all == albums.deep_view(),
            first_album_image(all) == first_album_image(all.skip(i as int)),
        decreases albums.len() - i,
    {
        assert(all.skip(i as int)[0] == albums@[i as int].deep_view());
        if albums[i].image_ref.is_some() {
            return albums[i].image_ref.copy();
        }
        assert(all.skip(i as int).drop_first() =~= all.skip(i + 1));
        i += 1;
    }
    assert(all.skip(i as int).len() == 0);
    None
}

/// An artist with an image where they have none.
pub open spec fn artist_with_image(artist: ArtistView, image_ref: Option<ImageRefView>)
    -> ArtistView {
    if artist.image_ref is Some {
        artist
    } else {
        ArtistView { image_ref, ..artist }
    }
}

/// An artist with their work, as it is shown; an artist without an image has that of their
/// first album.
pub open spec fn normalized_artist_detail(
    detail: CachedArtistDetailView,
    settings: AppSettingsView,
) -> CachedArtistDetailView {
    let albums = normalized_albums(detail.albums, settings);
    CachedArtistDetailView {
        artist: artist_with_image(
            normalized_artist(detail.artist, settings),
            first_album_image(albums),
        ),
        albums,
        appears_on: normalized_albums(detail.appears_on, settings),
        tracks: normalized_tracks(detail.tracks, settings),
    }
}

/// Makes the images of an artist and their work those that are shown.
pub fn normalize_artist_detail_image_refs(
    detail: &mut CachedArtistDetail,
    settings: &AppSettings,
)
    ensures
        final(detail).deep_view() == normalized_artist_detail(
            old(detail).deep_view(),
            settings.deep_view(),
        ),
{
    normalize_artist(&mut detail.artist, settings);
    normalize_albums(&mut detail.albums, settings);
    normalize_albums(&mut detail.appears_on, settings);
    normalize_tracks(&mut detail.tracks, settings);
    if detail.artist.image_ref.is_none() {
        detail.artist.image_ref = image_of_albums(&detail.albums);
    }
}

/// An artist, from among all and those of albums.
pub open spec fn artist_of(library: ServerLibraryView, artist_id: Seq<char>) -> Option<ArtistView> {
    match row::<Artist>(library.artists, artist_id) {
        Some(artist) => Some(artist),
        None => row::<Artist>(library.album_artists, artist_id),
    }
}

/// An artist with what is kept of their work.
pub open spec fn kept_artist_detail(library: ServerLibraryView, artist_id: Seq<char>) -> Option<
    CachedArtistDetailView,
> {
    match artist_of(library, artist_id) {
        None => None,
        Some(artist) => Some(
            CachedArtistDetailView {
                artist,
                albums: chosen(library.albums, album_by(artist_id)),
                appears_on: chosen(library.albums, album_with(artist_id, library.tracks)),
                tracks: chosen(library.tracks, track_by(artist_id)),
            },
        ),
    }
}

/// An artist with their work, as it is shown.
pub open spec fn artist_detail(
    library: ServerLibraryView,
    artist_id: Seq<char>,
    saved: SavedServerView,
    settings: AppSettingsView,
) -> Option<CachedArtistDetailView> {
    let local = is_local(saved);
    match kept_artist_detail(library, artist_id) {
        None => None,
        Some(kept) => {
            let shown = normalized_artist_detail(
                CachedArtistDetailView {
                    artist: scrubbed_artist(local)(kept.artist),
                    albums: kept.albums.map_values(scrubbed_album(local)),
                    appears_on: kept.appears_on.map_values(scrubbed_album(local)),
                    tracks: kept.tracks.map_values(scrubbed_track(local)),
                },
                source_settings(settings, saved),
            );
            Some(
                CachedArtistDetailView {
                    tracks: shown.tracks.map_values(with_album_image(library.albums, local)),
                    ..shown
                },
            )
        },
    }
}

/// An artist with their work, as it is shown.
pub fn load_artist_detail(
    library: &ServerLibrary,
    artist_id: &ArtistId,
    saved: &SavedServer,
    settings: &AppSettings,
) -> (result: Option<CachedArtistDetail>)
    ensures
        result.deep_view() == artist_detail(
            library.deep_view(),
            artist_id.deep_view(),
            saved.deep_view(),
            settings.deep_view(),
        ),
{
    let settings: &AppSettings = &settings_for_source(settings, saved);
    let local: bool = source_is_local(saved);
    let mut artist: Artist = match get_row(&library.artists, artist_id.as_str()) {
        Some(artist) => artist,
        None => match get_row(&library.album_artists, artist_id.as_str()) {
            Some(artist) => artist,
            None => {
                return None;
            },
        },
    };
    let mut albums: Vec<Album> = choose_items(&library.albums, &By { artist_id });
    let mut appears_on: Vec<Album> = choose_items(
        &library.albums,
        &With { artist_id, tracks: &library.tracks },
    );
    let mut tracks: Vec<Track> = choose_items(&library.tracks, &By { artist_id });
    Scrub { local }.apply(&mut artist);
    change_items(&mut albums, &Scrub { local });
    change_items(&mut appears_on, &Scrub { local });
    change_items(&mut tracks, &Scrub { local });
    let mut detail: CachedArtistDetail = CachedArtistDetail { artist, albums, appears_on, tracks };
    normalize_artist_detail_image_refs(&mut detail, settings);
    change_items(&mut detail.tracks, &AlbumImages { albums: &library.albums, local });
    Some(detail)
}

/// A genre with what is kept of it, as it is shown.
pub open spec fn genre_detail(
    library: ServerLibraryView,
    genre_id: Seq<char>,
    saved: SavedServerView,
    settings: AppSettingsView,
) -> Option<CachedGenreDetailView> {
    match row::<Genre>(library.genres, genre_id) {
        None => None,
        Some(genre) => Some(
            CachedGenreDetailView {
                genre,
                albums: shown_albums(
                    chosen(library.albums, album_in(genre.name)),
                    saved,
                    settings,
                ),
                tracks: shown_tracks(
                    chosen(library.tracks, track_in(genre.name)),
                    library.albums,
                    saved,
                    settings,
                ),
            },
        ),
    }
}

/// A genre with what is kept of it, as it is shown.
pub fn load_genre_detail(
    library: &ServerLibrary,
    genre_id: &str,
    saved: &SavedServer,
    settings: &AppSettings,
) -> (result: Option<CachedGenreDetail>)
    ensures
        result.deep_view() == genre_detail(
            library.deep_view(),
            genre_id@,
            saved.deep_view(),
            settings.deep_view(),
        ),
{
    let genre: Genre = match get_row(&library.genres, genre_id) {
        Some(genre) => genre,
        None => {
            return None;
        },
    };
    let mut albums: Vec<Album> = choose_items(&library.albums, &InGenre { genre: &genre.name });
    show_albums(&mut albums, saved, settings);
    let mut tracks: Vec<Track> = choose_items(&library.tracks, &InGenre { genre: &genre.name });
    show_tracks(&mut tracks, &library.albums, saved, settings);
    Some(CachedGenreDetail { genre, albums, tracks })
}

/// Artists as they are shown in a list: those without an image have that of their first
/// album.
pub open spec fn with_album_fallback(albums: Seq<AlbumView>, settings: AppSettingsView) -> spec_fn(
    ArtistView,
) -> ArtistView {
    |artist: ArtistView|
        artist_with_image(
            artist,
            first_album_image(normalized_albums(chosen(albums, album_by(artist.id)), settings)),
        )
}

struct AlbumFallback<'a> {
    albums: &'a Vec<Album>,
    settings: &'a AppSettings,
}

impl<'a> Change<Artist> for AlbumFallback<'a> {
    closed spec fn effect(&self) -> spec_fn(ArtistView) -> ArtistView {
        with_album_fallback(self.albums.deep_view(), self.settings.deep_view())
    }

    fn apply(&self, item: &mut Artist) {
        if item.image_ref.is_none() {
            let mut own: Vec<Album> = choose_items(self.albums, &By { artist_id: &item.id });
            normalize_albums(&mut own, self.settings);
            item.image_ref = image_of_albums(&own);
        }
    }
}

/// Gives artists without an image that of their first album.
pub fn apply_artist_album_fallback_image_refs(
    artists: &mut Vec<Artist>,
    albums: &Vec<Album>,
    settings: &AppSettings,
)
    ensures
        final(artists).deep_view() == old(artists).deep_view().map_values(
            with_album_fallback(albums.deep_view(), settings.deep_view()),
        ),
{
    change_items(artists, &AlbumFallback { albums, settings });
}

/// Artists of a source as they are shown in a list.
pub open spec fn shown_artists(
    artists: Seq<ArtistView>,
    albums: Seq<AlbumView>,
    saved: SavedServerView,
    settings: AppSettingsView,
) -> Seq<ArtistView> {
    let local = is_local(saved);
    normalized_artists(
        artists.map_values(scrubbed_artist(local)),
        source_settings(settings, saved),
    ).map_values(
        with_album_fallback(
            albums.map_values(scrubbed_album(local)),
            source_settings(settings, saved),
        ),
    )
}

/// Makes artists of a source those that are shown in a list.
pub fn show_artists(
    artists: &mut Vec<Artist>,
    albums: &Vec<Album>,
    saved: &SavedServer,
    settings: &AppSettings,
)
    ensures
        final(artists).deep_view() == shown_artists(
            old(artists).deep_view(),
            albums.deep_view(),
            saved.deep_view(),
            settings.deep_view(),
        ),
{
    let settings: &AppSettings = &settings_for_source(settings, saved);
    let local: bool = source_is_local(saved);
    let mut albums: Vec<Album> = albums.copy();
    change_items(&mut albums, &Scrub { local });
    change_items(artists, &Scrub { local });
    normalize_artists(artists, settings);
    apply_artist_album_fallback_image_refs(artists, &albums, settings);
}

/// In a list every artist whose first album has an image is shown with one.
pub proof fn artists_are_shown_by_their_albums(
    artist: ArtistView,
    albums: Seq<AlbumView>,
    settings: AppSettingsView,
)
    requires
        first_album_image(
            normalized_albums(chosen(albums, album_by(artist.id)), settings),
        ) is Some,
    ensures
        with_album_fallback(albums, settings)(artist).image_ref is Some,
{
}

/// An album is shown with exactly its own tracks, in their order, and nothing about album or
/// tracks but their images is changed.
pub proof fn albums_are_shown_with_their_tracks(
    library: ServerLibraryView,
    album_id: Seq<char>,
    saved: SavedServerView,
    settings: AppSettingsView,
)
    ensures
        album_detail(library, album_id, saved, settings) is Some <==> row::<Album>(
            library.albums,
            album_id,
        ) is Some,
        album_detail(library, album_id, saved, settings) matches Some((album, tracks)) ==> {
            let kept = row::<Album>(library.albums, album_id)->0;
            let own = library.tracks.filter(|track: TrackView| track.album_id == album_id);
            &&& album == (AlbumView { image_ref: album.image_ref, ..kept })
            &&& tracks.len() == own.len()
            &&& forall|i: int|
                0 <= i < own.len() ==> (#[trigger] tracks[i]) == (TrackView {
                    image_ref: tracks[i].image_ref,
                    ..own[i]
                })
        },
        ({
            let own = library.tracks.filter(|track: TrackView| track.album_id == album_id);
            let listed = tracks_of_album(library, album_id, saved, settings);
            &&& listed.album_id == album_id
            &&& listed.tracks.len() == own.len()
            &&& forall|i: int|
                0 <= i < own.len() ==> (#[trigger] listed.tracks[i]) == (TrackView {
                    image_ref: listed.tracks[i].image_ref,
                    ..own[i]
                })
        }),
{
    crate::select::chosen_keeps_the_order(library.tracks, of_album(album_id));
    let own = chosen(library.tracks, of_album(album_id));
    if let Some((album, tracks)) = album_detail(library, album_id, saved, settings) {
        assert forall|i: int| 0 <= i < own.len() implies (#[trigger] tracks[i]) == (TrackView {
            image_ref: tracks[i].image_ref,
            ..own[i]
        }) by {}
    }
    let listed = tracks_of_album(library, album_id, saved, settings);
    assert forall|i: int| 0 <= i < own.len() implies (#[trigger] listed.tracks[i]) == (TrackView {
        image_ref: listed.tracks[i].image_ref,
        ..own[i]
    }) by {}
}

/// An artist is shown with exactly the albums and the tracks that are theirs, in their order,
/// and with those albums of others on which a track is theirs.
pub proof fn artists_are_shown_with_what_is_theirs(
    library: ServerLibraryView,
    artist_id: Seq<char>,
)
    ensures
        kept_artist_detail(library, artist_id) is Some <==> row::<Artist>(
            library.artists,
            artist_id,
        ) is Some || row::<Artist>(library.album_artists, artist_id) is Some,
        kept_artist_detail(library, artist_id) matches Some(detail) ==> {
            &&& row::<Artist>(library.artists, artist_id) matches Some(artist) ==> detail.artist
                == artist
            &&& detail.albums == library.albums.filter(
                |album: AlbumView| album.artist_id == Some(artist_id),
            )
            &&& detail.tracks == library.tracks.filter(
                |track: TrackView| track.artist_id == Some(artist_id),
            )
            &&& forall|album: AlbumView| #[trigger]
                detail.appears_on.contains(album) <==> library.albums.contains(album)
                    && album.artist_id != Some(artist_id) && exists|i: int|
                    0 <= i < library.tracks.len() && (#[trigger] library.tracks[i]).artist_id
                        == Some(artist_id) && library.tracks[i].album_id == album.id
        },
{
    crate::select::chosen_keeps_the_order(library.albums, album_by(artist_id));
    crate::select::chosen_keeps_the_order(library.tracks, track_by(artist_id));
    if let Some(detail) = kept_artist_detail(library, artist_id) {
        assert forall|album: AlbumView| #[trigger]
            detail.appears_on.contains(album) <==> library.albums.contains(album)
                && album.artist_id != Some(artist_id) && exists|i: int|
                0 <= i < library.tracks.len() && (#[trigger] library.tracks[i]).artist_id == Some(
                    artist_id,
                ) && library.tracks[i].album_id == album.id by {
            crate::select::chosen_are_those_that_pass(
                library.albums,
                album_with(artist_id, library.tracks),
                album,
            );
            lemma_track_on_album(library.tracks, artist_id, album.id);
        }
    }
}

proof fn lemma_track_on_album(tracks: Seq<TrackView>, artist_id: Seq<char>, album_id: Seq<char>)
    ensures
        chosen(chosen(tracks, track_by(artist_id)), of_album(album_id)).len() > 0 <==> exists|
            i: int,
        |
            0 <= i < tracks.len() && (#[trigger] tracks[i]).artist_id == Some(artist_id)
                && tracks[i].album_id == album_id,
{
    let theirs = chosen(tracks, track_by(artist_id));
    let found = chosen(theirs, of_album(album_id));
    if found.len() > 0 {
        let track = found[0];
        assert(found.contains(track));
        crate::select::chosen_are_those_that_pass(theirs, of_album(album_id), track);
        crate::select::chosen_are_those_that_pass(tracks, track_by(artist_id), track);
        let i = choose|i: int| 0 <= i < tracks.len() && tracks[i] == track;
        assert(tracks[i].artist_id == Some(artist_id));
    }
    if exists|i: int|
        0 <= i < tracks.len() && (#[trigger] tracks[i]).artist_id == Some(artist_id)
            && tracks[i].album_id == album_id {
        let i = choose|i: int|
            0 <= i < tracks.len() && (#[trigger] tracks[i]).artist_id == Some(artist_id)
                && tracks[i].album_id == album_id;
        assert(tracks.contains(tracks[i]));
        crate::select::chosen_are_those_that_pass(tracks, track_by(artist_id), tracks[i]);
        crate::select::chosen_are_those_that_pass(theirs, of_album(album_id), tracks[i]);
        assert(found.contains(tracks[i]));
    }
}

/// A genre is shown with exactly the albums and the tracks that name it, in their order.
pub proof fn genres_are_shown_with_what_names_them(
    library: ServerLibraryView,
    genre_id: Seq<char>,
    saved: SavedServerView,
    settings: AppSettingsView,
)
    ensures
        genre_detail(library, genre_id, saved, settings) is Some <==> row::<Genre>(
            library.genres,
            genre_id,
        ) is Some,
        genre_detail(library, genre_id, saved, settings) matches Some(detail) ==> {
            let albums = library.albums.filter(
                |album: AlbumView| album.genres.contains(detail.genre.name),
            );
            let tracks = library.tracks.filter(
                |track: TrackView| track.genres.contains(detail.genre.name),
            );
            &&& Some(detail.genre) == row::<Genre>(library.genres, genre_id)
            &&& detail.albums.len() == albums.len()
            &&& forall|i: int|
                0 <= i < albums.len() ==> (#[trigger] detail.albums[i]).id == albums[i].id
            &&& detail.tracks.len() == tracks.len()
            &&& forall|i: int|
                0 <= i < tracks.len() ==> (#[trigger] detail.tracks[i]).id == tracks[i].id
        },
{
    if let Some(genre) = row::<Genre>(library.genres, genre_id) {
        crate::select::chosen_keeps_the_order(library.albums, album_in(genre.name));
        crate::select::chosen_keeps_the_order(library.tracks, track_in(genre.name));
    }
}

/// What is shown of an artist is what is kept of them: the same albums and tracks in their
/// order, with nothing changed but images.
pub proof fn shown_artists_keep_all_but_images(
    library: ServerLibraryView,
    artist_id: Seq<char>,
    saved: SavedServerView,
    settings: AppSettingsView,
)
    ensures
        artist_detail(library, artist_id, saved, settings) is Some <==> kept_artist_detail(
            library,
            artist_id,
        ) is Some,
        artist_detail(library, artist_id, saved, settings) matches Some(shown) ==> {
            let kept = kept_artist_detail(library, artist_id)->0;
            &&& shown.artist == (ArtistView { image_ref: shown.artist.image_ref, ..kept.artist })
            &&& shown.albums.len() == kept.albums.len()
            &&& forall|i: int|
                0 <= i < kept.albums.len() ==> (#[trigger] shown.albums[i]) == (AlbumView {
                    image_ref: shown.albums[i].image_ref,
                    ..kept.albums[i]
                })
            &&& shown.appears_on.len() == kept.appears_on.len()
            &&& forall|i: int|
                0 <= i < kept.appears_on.len() ==> (#[trigger] shown.appears_on[i]).id
                    == kept.appears_on[i].id
            &&& shown.tracks.len() == kept.tracks.len()
            &&& forall|i: int|
                0 <= i < kept.tracks.len() ==> (#[trigger] shown.tracks[i]) == (TrackView {
                    image_ref: shown.tracks[i].image_ref,
                    ..kept.tracks[i]
                })
        },
{
}

} // verus!
