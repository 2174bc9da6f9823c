//! Tracks, albums, artists, playlists and what groups them.
use crate::model::ids::{
    AlbumId, ArtistId, GenreId, MusicFolderId, PlaylistId, SmartPlaylistId, TrackId,
};
use crate::value::Value;
use vstd::prelude::*;

verus! {

/// Names an image: the item that has it and, where known, its version.
#[derive(Clone, Debug, PartialEq, Eq)]
pub struct ImageRef {
    pub item_id: String,
    pub tag: Option<String>,
}

/// The contents of an [`ImageRef`].
#[verifier::ext_equal]
pub struct ImageRefView {
    pub item_id: Seq<char>,
    pub tag: Option<Seq<char>>,
}

impl DeepView for ImageRef {
    type V = ImageRefView;

    open spec fn deep_view(&self) -> ImageRefView {
        ImageRefView {
            item_id: self.item_id.deep_view(),
            tag: self.tag.deep_view(),
        }
    }
}

impl Value for ImageRef {
    fn copy(&self) -> (result: ImageRef) {
        ImageRef {
            item_id: self.item_id.copy(),
            tag: self.tag.copy(),
        }
    }

    fn same(&self, other: &ImageRef) -> (result: bool) {
        self.item_id.same(&other.item_id)
            && self.tag.same(&other.tag)
    }
}

impl ImageRef {
    pub fn new(item_id: &str, tag: Option<String>) -> (result: ImageRef)
        ensures
            result.deep_view() == (ImageRefView { item_id: item_id@, tag: tag.deep_view() }),
    {
        ImageRef { item_id: item_id.to_owned(), tag }
    }
}

/// An artist as credited on an item.
#[derive(Clone, Debug, PartialEq, Eq)]
pub struct ArtistCredit {
    pub id: ArtistId,
    pub name: String,
}

/// The contents of an [`ArtistCredit`].
#[verifier::ext_equal]
pub struct ArtistCreditView {
    pub id: Seq<char>,
    pub name: Seq<char>,
}

impl DeepView for ArtistCredit {
    type V = ArtistCreditView;

    open spec fn deep_view(&self) -> ArtistCreditView {
        ArtistCreditView {
            id: self.id.deep_view(),
            name: self.name.deep_view(),
        }
    }
}

impl Value for ArtistCredit {
    fn copy(&self) -> (result: ArtistCredit) {
        ArtistCredit {
            id: self.id.copy(),
            name: self.name.copy(),
        }
    }

    fn same(&self, other: &ArtistCredit) -> (result: bool) {
        self.id.same(&other.id)
            && self.name.same(&other.name)
    }
}

/// A track of the library.
#[derive(Clone, Debug, PartialEq, Eq)]
pub struct Track {
    pub id: TrackId,
    pub album_id: AlbumId,
    pub title: String,
    pub artist: String,
    pub artist_id: Option<ArtistId>,
    pub artist_credits: Vec<ArtistCredit>,
    pub album_artist_credits: Vec<ArtistCredit>,
    pub album: String,
    pub year: u16,
    pub release_date: Option<String>,
    pub date_added: Option<String>,
    pub last_played: Option<String>,
    pub play_count: Option<u32>,
    pub user_rating: Option<u8>,
    pub duration_seconds: u32,
    pub favorite: bool,
    pub disc_number: u16,
    pub track_number: u16,
    pub image_ref: Option<ImageRef>,
    pub genres: Vec<String>,
    pub musicbrainz_recording_id: Option<String>,
    pub musicbrainz_release_track_id: Option<String>,
    pub local_path: Option<String>,
    pub source_format: Option<String>,
    pub comment: Option<String>,
    pub skip_count: Option<u32>,
    pub from_cue: bool,
}

/// The contents of a [`Track`].
#[verifier::ext_equal]
pub struct TrackView {
    pub id: Seq<char>,
    pub album_id: Seq<char>,
    pub title: Seq<char>,
    pub artist: Seq<char>,
    pub artist_id: Option<Seq<char>>,
    pub artist_credits: Seq<ArtistCreditView>,
    pub album_artist_credits: Seq<ArtistCreditView>,
    pub album: Seq<char>,
    pub year: u16,
    pub release_date: Option<Seq<char>>,
    pub date_added: Option<Seq<char>>,
    pub last_played: Option<Seq<char>>,
    pub play_count: Option<u32>,
    pub user_rating: Option<u8>,
    pub duration_seconds: u32,
    pub favorite: bool,
    pub disc_number: u16,
    pub track_number: u16,
    pub image_ref: Option<ImageRefView>,
    pub genres: Seq<Seq<char>>,
    pub musicbrainz_recording_id: Option<Seq<char>>,
    pub musicbrainz_release_track_id: Option<Seq<char>>,
    pub local_path: Option<Seq<char>>,
    pub source_format: Option<Seq<char>>,
    pub comment: Option<Seq<char>>,
    pub skip_count: Option<u32>,
    pub from_cue: bool,
}

impl DeepView for Track {
    type V = TrackView;

    open spec fn deep_view(&self) -> TrackView {
        TrackView {
            id: self.id.deep_view(),
            album_id: self.album_id.deep_view(),
            title: self.title.deep_view(),
            artist: self.artist.deep_view(),
            artist_id: self.artist_id.deep_view(),
            artist_credits: self.artist_credits.deep_view(),
            album_artist_credits: self.album_artist_credits.deep_view(),
            album: self.album.deep_view(),
            year: self.year.deep_view(),
            release_date: self.release_date.deep_view(),
            date_added: self.date_added.deep_view(),
            last_played: self.last_played.deep_view(),
            play_count: self.play_count.deep_view(),
            user_rating: self.user_rating.deep_view(),
            duration_seconds: self.duration_seconds.deep_view(),
            favorite: self.favorite.deep_view(),
            disc_number: self.disc_number.deep_view(),
            track_number: self.track_number.deep_view(),
            image_ref: self.image_ref.deep_view(),
            genres: self.genres.deep_view(),
            musicbrainz_recording_id: self.musicbrainz_recording_id.deep_view(),
            musicbrainz_release_track_id: self.musicbrainz_release_track_id.deep_view(),
            local_path: self.local_path.deep_view(),
            source_format: self.source_format.deep_view(),
            comment: self.comment.deep_view(),
            skip_count: self.skip_count.deep_view(),
            from_cue: self.from_cue.deep_view(),
        }
    }
}

impl Value for Track {
    fn copy(&self) -> (result: Track) {
        Track {
            id: self.id.copy(),
            album_id: self.album_id.copy(),
            title: self.title.copy(),
            artist: self.artist.copy(),
            artist_id: self.artist_id.copy(),
            artist_credits: self.artist_credits.copy(),
            album_artist_credits: self.album_artist_credits.copy(),
            album: self.album.copy(),
            year: self.year.copy(),
            release_date: self.release_date.copy(),
            date_added: self.date_added.copy(),
            last_played: self.last_played.copy(),
            play_count: self.play_count.copy(),
            user_rating: self.user_rating.copy(),
            duration_seconds: self.duration_seconds.copy(),
            favorite: self.favorite.copy(),
            disc_number: self.disc_number.copy(),
            track_number: self.track_number.copy(),
            image_ref: self.image_ref.copy(),
            genres: self.genres.copy(),
            musicbrainz_recording_id: self.musicbrainz_recording_id.copy(),
            musicbrainz_release_track_id: self.musicbrainz_release_track_id.copy(),
            local_path: self.local_path.copy(),
            source_format: self.source_format.copy(),
            comment: self.comment.copy(),
            skip_count: self.skip_count.copy(),
            from_cue: self.from_cue.copy(),
        }
    }

    fn same(&self, other: &Track) -> (result: bool) {
        self.id.same(&other.id)
            && self.album_id.same(&other.album_id)
            && self.title.same(&other.title)
            && self.artist.same(&other.artist)
            && self.artist_id.same(&other.artist_id)
            && self.artist_credits.same(&other.artist_credits)
            && self.album_artist_credits.same(&other.album_artist_credits)
            && self.album.same(&other.album)
            && self.year.same(&other.year)
            && self.release_date.same(&other.release_date)
            && self.date_added.same(&other.date_added)
            && self.last_played.same(&other.last_played)
            && self.play_count.same(&other.play_count)
            && self.user_rating.same(&other.user_rating)
            && self.duration_seconds.same(&other.duration_seconds)
            && self.favorite.same(&other.favorite)
            && self.disc_number.same(&other.disc_number)
            && self.track_number.same(&other.track_number)
            && self.image_ref.same(&other.image_ref)
            && self.genres.same(&other.genres)
            && self.musicbrainz_recording_id.same(&other.musicbrainz_recording_id)
            && self.musicbrainz_release_track_id.same(&other.musicbrainz_release_track_id)
            && self.local_path.same(&other.local_path)
            && self.source_format.same(&other.source_format)
            && self.comment.same(&other.comment)
            && self.skip_count.same(&other.skip_count)
            && self.from_cue.same(&other.from_cue)
    }
}

/// An album of the library.
#[derive(Clone, Debug, PartialEq, Eq)]
pub struct Album {
    pub id: AlbumId,
    pub title: String,
    pub artist: String,
    pub artist_id: Option<ArtistId>,
    pub album_artist_credits: Vec<ArtistCredit>,
    pub artist_credits: Vec<ArtistCredit>,
    pub year: u16,
    pub release_date: Option<String>,
    pub date_added: Option<String>,
    pub last_played: Option<String>,
    pub play_count: Option<u32>,
    pub user_rating: Option<u8>,
    pub track_count: u32,
    pub duration_seconds: u32,
    pub favorite: bool,
    pub color_seed: u32,
    pub image_ref: Option<ImageRef>,
    pub genres: Vec<String>,
    pub release_types: Vec<String>,
    pub is_compilation: Option<bool>,
    pub musicbrainz_album_id: Option<String>,
    pub musicbrainz_release_group_id: Option<String>,
}

/// The contents of an [`Album`].
#[verifier::ext_equal]
pub struct AlbumView {
    pub id: Seq<char>,
    pub title: Seq<char>,
    pub artist: Seq<char>,
    pub artist_id: Option<Seq<char>>,
    pub album_artist_credits: Seq<ArtistCreditView>,
    pub artist_credits: Seq<ArtistCreditView>,
    pub year: u16,
    pub release_date: Option<Seq<char>>,
    pub date_added: Option<Seq<char>>,
    pub last_played: Option<Seq<char>>,
    pub play_count: Option<u32>,
    pub user_rating: Option<u8>,
    pub track_count: u32,
    pub duration_seconds: u32,
    pub favorite: bool,
    pub color_seed: u32,
    pub image_ref: Option<ImageRefView>,
    pub genres: Seq<Seq<char>>,
    pub release_types: Seq<Seq<char>>,
    pub is_compilation: Option<bool>,
    pub musicbrainz_album_id: Option<Seq<char>>,
    pub musicbrainz_release_group_id: Option<Seq<char>>,
}

impl DeepView for Album {
    type V = AlbumView;

    open spec fn deep_view(&self) -> AlbumView {
        AlbumView {
            id: self.id.deep_view(),
            title: self.title.deep_view(),
            artist: self.artist.deep_view(),
            artist_id: self.artist_id.deep_view(),
            album_artist_credits: self.album_artist_credits.deep_view(),
            artist_credits: self.artist_credits.deep_view(),
            year: self.year.deep_view(),
            release_date: self.release_date.deep_view(),
            date_added: self.date_added.deep_view(),
            last_played: self.last_played.deep_view(),
            play_count: self.play_count.deep_view(),
            user_rating: self.user_rating.deep_view(),
            track_count: self.track_count.deep_view(),
            duration_seconds: self.duration_seconds.deep_view(),
            favorite: self.favorite.deep_view(),
            color_seed: self.color_seed.deep_view(),
            image_ref: self.image_ref.deep_view(),
            genres: self.genres.deep_view(),
            release_types: self.release_types.deep_view(),
            is_compilation: self.is_compilation.deep_view(),
            musicbrainz_album_id: self.musicbrainz_album_id.deep_view(),
            musicbrainz_release_group_id: self.musicbrainz_release_group_id.deep_view(),
        }
    }
}

impl Value for Album {
    fn copy(&self) -> (result: Album) {
        Album {
            id: self.id.copy(),
            title: self.title.copy(),
            artist: self.artist.copy(),
            artist_id: self.artist_id.copy(),
            album_artist_credits: self.album_artist_credits.copy(),
            artist_credits: self.artist_credits.copy(),
            year: self.year.copy(),
            release_date: self.release_date.copy(),
            date_added: self.date_added.copy(),
            last_played: self.last_played.copy(),
            play_count: self.play_count.copy(),
            user_rating: self.user_rating.copy(),
            track_count: self.track_count.copy(),
            duration_seconds: self.duration_seconds.copy(),
            favorite: self.favorite.copy(),
            color_seed: self.color_seed.copy(),
            image_ref: self.image_ref.copy(),
            genres: self.genres.copy(),
            release_types: self.release_types.copy(),
            is_compilation: self.is_compilation.copy(),
            musicbrainz_album_id: self.musicbrainz_album_id.copy(),
            musicbrainz_release_group_id: self.musicbrainz_release_group_id.copy(),
        }
    }

    fn same(&self, other: &Album) -> (result: bool) {
        self.id.same(&other.id)
            && self.title.same(&other.title)
            && self.artist.same(&other.artist)
            && self.artist_id.same(&other.artist_id)
            && self.album_artist_credits.same(&other.album_artist_credits)
            && self.artist_credits.same(&other.artist_credits)
            && self.year.same(&other.year)
            && self.release_date.same(&other.release_date)
            && self.date_added.same(&other.date_added)
            && self.last_played.same(&other.last_played)
            && self.play_count.same(&other.play_count)
            && self.user_rating.same(&other.user_rating)
            && self.track_count.same(&other.track_count)
            && self.duration_seconds.same(&other.duration_seconds)
            && self.favorite.same(&other.favorite)
            && self.color_seed.same(&other.color_seed)
            && self.image_ref.same(&other.image_ref)
            && self.genres.same(&other.genres)
            && self.release_types.same(&other.release_types)
            && self.is_compilation.same(&other.is_compilation)
            && self.musicbrainz_album_id.same(&other.musicbrainz_album_id)
            && self.musicbrainz_release_group_id.same(&other.musicbrainz_release_group_id)
    }
}

/// An artist of the library.
#[derive(Clone, Debug, PartialEq, Eq)]
pub struct Artist {
    pub id: ArtistId,
    pub name: String,
    pub album_count: u32,
    pub track_count: u32,
    pub favorite: bool,
    pub last_played: Option<String>,
    pub play_count: Option<u32>,
    pub user_rating: Option<u8>,
    pub image_ref: Option<ImageRef>,
}

/// The contents of an [`Artist`].
#[verifier::ext_equal]
pub struct ArtistView {
    pub id: Seq<char>,
    pub name: Seq<char>,
    pub album_count: u32,
    pub track_count: u32,
    pub favorite: bool,
    pub last_played: Option<Seq<char>>,
    pub play_count: Option<u32>,
    pub user_rating: Option<u8>,
    pub image_ref: Option<ImageRefView>,
}

impl DeepView for Artist {
    type V = ArtistView;

    open spec fn deep_view(&self) -> ArtistView {
        ArtistView {
            id: self.id.deep_view(),
            name: self.name.deep_view(),
            album_count: self.album_count.deep_view(),
            track_count: self.track_count.deep_view(),
            favorite: self.favorite.deep_view(),
            last_played: self.last_played.deep_view(),
            play_count: self.play_count.deep_view(),
            user_rating: self.user_rating.deep_view(),
            image_ref: self.image_ref.deep_view(),
        }
    }
}

impl Value for Artist {
    fn copy(&self) -> (result: Artist) {
        Artist {
            id: self.id.copy(),
            name: self.name.copy(),
            album_count: self.album_count.copy(),
            track_count: self.track_count.copy(),
            favorite: self.favorite.copy(),
            last_played: self.last_played.copy(),
            play_count: self.play_count.copy(),
            user_rating: self.user_rating.copy(),
            image_ref: self.image_ref.copy(),
        }
    }

    fn same(&self, other: &Artist) -> (result: bool) {
        self.id.same(&other.id)
            && self.name.same(&other.name)
            && self.album_count.same(&other.album_count)
            && self.track_count.same(&other.track_count)
            && self.favorite.same(&other.favorite)
            && self.last_played.same(&other.last_played)
            && self.play_count.same(&other.play_count)
            && self.user_rating.same(&other.user_rating)
            && self.image_ref.same(&other.image_ref)
    }
}

/// A genre of the library.
#[derive(Clone, Debug, PartialEq, Eq)]
pub struct Genre {
    pub id: GenreId,
    pub name: String,
    pub image_ref: Option<ImageRef>,
}

/// The contents of a [`Genre`].
#[verifier::ext_equal]
pub struct GenreView {
    pub id: Seq<char>,
    pub name: Seq<char>,
    pub image_ref: Option<ImageRefView>,
}

impl DeepView for Genre {
    type V = GenreView;

    open spec fn deep_view(&self) -> GenreView {
        GenreView {
            id: self.id.deep_view(),
            name: self.name.deep_view(),
            image_ref: self.image_ref.deep_view(),
        }
    }
}

impl Value for Genre {
    fn copy(&self) -> (result: Genre) {
        Genre {
            id: self.id.copy(),
            name: self.name.copy(),
            image_ref: self.image_ref.copy(),
        }
    }

    fn same(&self, other: &Genre) -> (result: bool) {
        self.id.same(&other.id)
            && self.name.same(&other.name)
            && self.image_ref.same(&other.image_ref)
    }
}

/// A playlist, without its entries.
#[derive(Clone, Debug, PartialEq, Eq)]
pub struct Playlist {
    pub id: PlaylistId,
    pub name: String,
    pub track_count: u32,
    pub duration_seconds: u32,
    pub image_refs: Vec<ImageRef>,
    pub image_ref: Option<ImageRef>,
}

/// The contents of a [`Playlist`].
#[verifier::ext_equal]
pub struct PlaylistView {
    pub id: Seq<char>,
    pub name: Seq<char>,
    pub track_count: u32,
    pub duration_seconds: u32,
    pub image_refs: Seq<ImageRefView>,
    pub image_ref: Option<ImageRefView>,
}

impl DeepView for Playlist {
    type V = PlaylistView;

    open spec fn deep_view(&self) -> PlaylistView {
        PlaylistView {
            id: self.id.deep_view(),
            name: self.name.deep_view(),
            track_count: self.track_count.deep_view(),
            duration_seconds: self.duration_seconds.deep_view(),
            image_refs: self.image_refs.deep_view(),
            image_ref: self.image_ref.deep_view(),
        }
    }
}

impl Value for Playlist {
    fn copy(&self) -> (result: Playlist) {
        Playlist {
            id: self.id.copy(),
            name: self.name.copy(),
            track_count: self.track_count.copy(),
            duration_seconds: self.duration_seconds.copy(),
            image_refs: self.image_refs.copy(),
            image_ref: self.image_ref.copy(),
        }
    }

    fn same(&self, other: &Playlist) -> (result: bool) {
        self.id.same(&other.id)
            && self.name.same(&other.name)
            && self.track_count.same(&other.track_count)
            && self.duration_seconds.same(&other.duration_seconds)
            && self.image_refs.same(&other.image_refs)
            && self.image_ref.same(&other.image_ref)
    }
}

/// One occurrence of a track in a playlist.
#[derive(Clone, Debug, PartialEq, Eq)]
pub struct PlaylistEntry {
    pub entry_id: String,
    pub track: Track,
}

/// The contents of a [`PlaylistEntry`].
#[verifier::ext_equal]
pub struct PlaylistEntryView {
    pub entry_id: Seq<char>,
    pub track: TrackView,
}

impl DeepView for PlaylistEntry {
    type V = PlaylistEntryView;

    open spec fn deep_view(&self) -> PlaylistEntryView {
        PlaylistEntryView {
            entry_id: self.entry_id.deep_view(),
            track: self.track.deep_view(),
        }
    }
}

impl Value for PlaylistEntry {
    fn copy(&self) -> (result: PlaylistEntry) {
        PlaylistEntry {
            entry_id: self.entry_id.copy(),
            track: self.track.copy(),
        }
    }

    fn same(&self, other: &PlaylistEntry) -> (result: bool) {
        self.entry_id.same(&other.entry_id)
            && self.track.same(&other.track)
    }
}

/// A playlist with its entries in order.
#[derive(Clone, Debug, PartialEq, Eq)]
pub struct PlaylistDetail {
    pub playlist: Playlist,
    pub entries: Vec<PlaylistEntry>,
}

/// The contents of a [`PlaylistDetail`].
#[verifier::ext_equal]
pub struct PlaylistDetailView {
    pub playlist: PlaylistView,
    pub entries: Seq<PlaylistEntryView>,
}

impl DeepView for PlaylistDetail {
    type V = PlaylistDetailView;

    open spec fn deep_view(&self) -> PlaylistDetailView {
        PlaylistDetailView {
            playlist: self.playlist.deep_view(),
            entries: self.entries.deep_view(),
        }
    }
}

impl Value for PlaylistDetail {
    fn copy(&self) -> (result: PlaylistDetail) {
        PlaylistDetail {
            playlist: self.playlist.copy(),
            entries: self.entries.copy(),
        }
    }

    fn same(&self, other: &PlaylistDetail) -> (result: bool) {
        self.playlist.same(&other.playlist)
            && self.entries.same(&other.entries)
    }
}

/// The rules that come with the application.
#[derive(Clone, Copy, Debug, PartialEq, Eq, Structural)]
pub enum SmartPlaylistBuiltin {
    Favorites,
    RecentlyAdded,
    RecentlyPlayed,
    MostPlayed,
}

impl DeepView for SmartPlaylistBuiltin {
    type V = SmartPlaylistBuiltin;

    open spec fn deep_view(&self) -> SmartPlaylistBuiltin {
        *self
    }
}

impl Value for SmartPlaylistBuiltin {
    fn copy(&self) -> (result: SmartPlaylistBuiltin) {
        *self
    }

    fn same(&self, other: &SmartPlaylistBuiltin) -> (result: bool) {
        *self == *other
    }
}

/// A playlist that a rule fills.
#[derive(Clone, Debug, PartialEq, Eq)]
pub struct SmartPlaylist {
    pub id: SmartPlaylistId,
    pub name: String,
    pub builtin: Option<SmartPlaylistBuiltin>,
    pub image_ref: Option<ImageRef>,
}

/// The contents of a [`SmartPlaylist`].
#[verifier::ext_equal]
pub struct SmartPlaylistView {
    pub id: Seq<char>,
    pub name: Seq<char>,
    pub builtin: Option<SmartPlaylistBuiltin>,
    pub image_ref: Option<ImageRefView>,
}

impl DeepView for SmartPlaylist {
    type V = SmartPlaylistView;

    open spec fn deep_view(&self) -> SmartPlaylistView {
        SmartPlaylistView {
            id: self.id.deep_view(),
            name: self.name.deep_view(),
            builtin: self.builtin.deep_view(),
            image_ref: self.image_ref.deep_view(),
        }
    }
}

impl Value for SmartPlaylist {
    fn copy(&self) -> (result: SmartPlaylist) {
        SmartPlaylist {
            id: self.id.copy(),
            name: self.name.copy(),
            builtin: self.builtin.copy(),
            image_ref: self.image_ref.copy(),
        }
    }

    fn same(&self, other: &SmartPlaylist) -> (result: bool) {
        self.id.same(&other.id)
            && self.name.same(&other.name)
            && self.builtin.same(&other.builtin)
            && self.image_ref.same(&other.image_ref)
    }
}

/// A smart playlist with the tracks that its rule picked.
#[derive(Clone, Debug, PartialEq, Eq)]
pub struct SmartPlaylistDetail {
    pub playlist: SmartPlaylist,
    pub tracks: Vec<Track>,
}

/// The contents of a [`SmartPlaylistDetail`].
#[verifier::ext_equal]
pub struct SmartPlaylistDetailView {
    pub playlist: SmartPlaylistView,
    pub tracks: Seq<TrackView>,
}

impl DeepView for SmartPlaylistDetail {
    type V = SmartPlaylistDetailView;

    open spec fn deep_view(&self) -> SmartPlaylistDetailView {
        SmartPlaylistDetailView {
            playlist: self.playlist.deep_view(),
            tracks: self.tracks.deep_view(),
        }
    }
}

impl Value for SmartPlaylistDetail {
    fn copy(&self) -> (result: SmartPlaylistDetail) {
        SmartPlaylistDetail {
            playlist: self.playlist.copy(),
            tracks: self.tracks.copy(),
        }
    }

    fn same(&self, other: &SmartPlaylistDetail) -> (result: bool) {
        self.playlist.same(&other.playlist)
            && self.tracks.same(&other.tracks)
    }
}

/// A music folder of a server.
#[derive(Clone, Debug, PartialEq, Eq)]
pub struct MusicFolder {
    pub id: MusicFolderId,
    pub name: String,
}

/// The contents of a [`MusicFolder`].
#[verifier::ext_equal]
pub struct MusicFolderView {
    pub id: Seq<char>,
    pub name: Seq<char>,
}

impl DeepView for MusicFolder {
    type V = MusicFolderView;

    open spec fn deep_view(&self) -> MusicFolderView {
        MusicFolderView {
            id: self.id.deep_view(),
            name: self.name.deep_view(),
        }
    }
}

impl Value for MusicFolder {
    fn copy(&self) -> (result: MusicFolder) {
        MusicFolder {
            id: self.id.copy(),
            name: self.name.copy(),
        }
    }

    fn same(&self, other: &MusicFolder) -> (result: bool) {
        self.id.same(&other.id)
            && self.name.same(&other.name)
    }
}

/// The sections of the home page.
#[derive(Clone, Copy, Debug, PartialEq, Eq, Structural)]
pub enum HomeSectionKind {
    Explore,
    MostPlayed,
}

impl DeepView for HomeSectionKind {
    type V = HomeSectionKind;

    open spec fn deep_view(&self) -> HomeSectionKind {
        *self
    }
}

impl Value for HomeSectionKind {
    fn copy(&self) -> (result: HomeSectionKind) {
        *self
    }

    fn same(&self, other: &HomeSectionKind) -> (result: bool) {
        *self == *other
    }
}

/// A section of the home page with its items.
#[derive(Clone, Debug, PartialEq, Eq)]
pub struct HomeSection {
    pub kind: HomeSectionKind,
    pub albums: Vec<Album>,
    pub tracks: Vec<Track>,
}

/// The contents of a [`HomeSection`].
#[verifier::ext_equal]
pub struct HomeSectionView {
    pub kind: HomeSectionKind,
    pub albums: Seq<AlbumView>,
    pub tracks: Seq<TrackView>,
}

impl DeepView for HomeSection {
    type V = HomeSectionView;

    open spec fn deep_view(&self) -> HomeSectionView {
        HomeSectionView {
            kind: self.kind.deep_view(),
            albums: self.albums.deep_view(),
            tracks: self.tracks.deep_view(),
        }
    }
}

impl Value for HomeSection {
    fn copy(&self) -> (result: HomeSection) {
        HomeSection {
            kind: self.kind.copy(),
            albums: self.albums.copy(),
            tracks: self.tracks.copy(),
        }
    }

    fn same(&self, other: &HomeSection) -> (result: bool) {
        self.kind.same(&other.kind)
            && self.albums.same(&other.albums)
            && self.tracks.same(&other.tracks)
    }
}

/// What a search of the library found.
#[derive(Clone, Debug, PartialEq, Eq)]
pub struct SearchResults {
    pub albums: Vec<Album>,
    pub tracks: Vec<Track>,
    pub artists: Vec<Artist>,
    pub playlists: Vec<Playlist>,
}

/// The contents of a [`SearchResults`].
#[verifier::ext_equal]
pub struct SearchResultsView {
    pub albums: Seq<AlbumView>,
    pub tracks: Seq<TrackView>,
    pub artists: Seq<ArtistView>,
    pub playlists: Seq<PlaylistView>,
}

impl DeepView for SearchResults {
    type V = SearchResultsView;

    open spec fn deep_view(&self) -> SearchResultsView {
        SearchResultsView {
            albums: self.albums.deep_view(),
            tracks: self.tracks.deep_view(),
            artists: self.artists.deep_view(),
            playlists: self.playlists.deep_view(),
        }
    }
}

impl Value for SearchResults {
    fn copy(&self) -> (result: SearchResults) {
        SearchResults {
            albums: self.albums.copy(),
            tracks: self.tracks.copy(),
            artists: self.artists.copy(),
            playlists: self.playlists.copy(),
        }
    }

    fn same(&self, other: &SearchResults) -> (result: bool) {
        self.albums.same(&other.albums)
            && self.tracks.same(&other.tracks)
            && self.artists.same(&other.artists)
            && self.playlists.same(&other.playlists)
    }
}

/// An album with its tracks.
#[derive(Clone, Debug, PartialEq, Eq)]
pub struct AlbumDetail {
    pub album: Album,
    pub tracks: Vec<Track>,
}

/// The contents of an [`AlbumDetail`].
#[verifier::ext_equal]
pub struct AlbumDetailView {
    pub album: AlbumView,
    pub tracks: Seq<TrackView>,
}

impl DeepView for AlbumDetail {
    type V = AlbumDetailView;

    open spec fn deep_view(&self) -> AlbumDetailView {
        AlbumDetailView {
            album: self.album.deep_view(),
            tracks: self.tracks.deep_view(),
        }
    }
}

impl Value for AlbumDetail {
    fn copy(&self) -> (result: AlbumDetail) {
        AlbumDetail {
            album: self.album.copy(),
            tracks: self.tracks.copy(),
        }
    }

    fn same(&self, other: &AlbumDetail) -> (result: bool) {
        self.album.same(&other.album)
            && self.tracks.same(&other.tracks)
    }
}

/// The tracks of one album.
#[derive(Clone, Debug, PartialEq, Eq)]
pub struct AlbumTracks {
    pub album_id: AlbumId,
    pub tracks: Vec<Track>,
}

/// The contents of an [`AlbumTracks`].
#[verifier::ext_equal]
pub struct AlbumTracksView {
    pub album_id: Seq<char>,
    pub tracks: Seq<TrackView>,
}

impl DeepView for AlbumTracks {
    type V = AlbumTracksView;

    open spec fn deep_view(&self) -> AlbumTracksView {
        AlbumTracksView {
            album_id: self.album_id.deep_view(),
            tracks: self.tracks.deep_view(),
        }
    }
}

impl Value for AlbumTracks {
    fn copy(&self) -> (result: AlbumTracks) {
        AlbumTracks {
            album_id: self.album_id.copy(),
            tracks: self.tracks.copy(),
        }
    }

    fn same(&self, other: &AlbumTracks) -> (result: bool) {
        self.album_id.same(&other.album_id)
            && self.tracks.same(&other.tracks)
    }
}

/// An artist with the albums and tracks that credit them.
#[derive(Clone, Debug, PartialEq, Eq)]
pub struct CachedArtistDetail {
    pub artist: Artist,
    pub albums: Vec<Album>,
    pub appears_on: Vec<Album>,
    pub tracks: Vec<Track>,
}

/// The contents of a [`CachedArtistDetail`].
#[verifier::ext_equal]
pub struct CachedArtistDetailView {
    pub artist: ArtistView,
    pub albums: Seq<AlbumView>,
    pub appears_on: Seq<AlbumView>,
    pub tracks: Seq<TrackView>,
}

impl DeepView for CachedArtistDetail {
    type V = CachedArtistDetailView;

    open spec fn deep_view(&self) -> CachedArtistDetailView {
        CachedArtistDetailView {
            artist: self.artist.deep_view(),
            albums: self.albums.deep_view(),
            appears_on: self.appears_on.deep_view(),
            tracks: self.tracks.deep_view(),
        }
    }
}

impl Value for CachedArtistDetail {
    fn copy(&self) -> (result: CachedArtistDetail) {
        CachedArtistDetail {
            artist: self.artist.copy(),
            albums: self.albums.copy(),
            appears_on: self.appears_on.copy(),
            tracks: self.tracks.copy(),
        }
    }

    fn same(&self, other: &CachedArtistDetail) -> (result: bool) {
        self.artist.same(&other.artist)
            && self.albums.same(&other.albums)
            && self.appears_on.same(&other.appears_on)
            && self.tracks.same(&other.tracks)
    }
}

/// A genre with its albums and tracks.
#[derive(Clone, Debug, PartialEq, Eq)]
pub struct CachedGenreDetail {
    pub genre: Genre,
    pub albums: Vec<Album>,
    pub tracks: Vec<Track>,
}

/// The contents of a [`CachedGenreDetail`].
#[verifier::ext_equal]
pub struct CachedGenreDetailView {
    pub genre: GenreView,
    pub albums: Seq<AlbumView>,
    pub tracks: Seq<TrackView>,
}

impl DeepView for CachedGenreDetail {
    type V = CachedGenreDetailView;

    open spec fn deep_view(&self) -> CachedGenreDetailView {
        CachedGenreDetailView {
            genre: self.genre.deep_view(),
            albums: self.albums.deep_view(),
            tracks: self.tracks.deep_view(),
        }
    }
}

impl Value for CachedGenreDetail {
    fn copy(&self) -> (result: CachedGenreDetail) {
        CachedGenreDetail {
            genre: self.genre.copy(),
            albums: self.albums.copy(),
            tracks: self.tracks.copy(),
        }
    }

    fn same(&self, other: &CachedGenreDetail) -> (result: bool) {
        self.genre.same(&other.genre)
            && self.albums.same(&other.albums)
            && self.tracks.same(&other.tracks)
    }
}

/// A page of albums, with the number of albums in all.
#[derive(Clone, Debug, PartialEq, Eq)]
pub struct AlbumPage {
    pub items: Vec<Album>,
    pub total: usize,
}

/// The contents of an [`AlbumPage`].
#[verifier::ext_equal]
pub struct AlbumPageView {
    pub items: Seq<AlbumView>,
    pub total: usize,
}

impl DeepView for AlbumPage {
    type V = AlbumPageView;

    open spec fn deep_view(&self) -> AlbumPageView {
        AlbumPageView {
            items: self.items.deep_view(),
            total: self.total.deep_view(),
        }
    }
}

impl Value for AlbumPage {
    fn copy(&self) -> (result: AlbumPage) {
        AlbumPage {
            items: self.items.copy(),
            total: self.total.copy(),
        }
    }

    fn same(&self, other: &AlbumPage) -> (result: bool) {
        self.items.same(&other.items)
            && self.total.same(&other.total)
    }
}

/// A page of tracks, with the number of tracks in all.
#[derive(Clone, Debug, PartialEq, Eq)]
pub struct TrackPage {
    pub items: Vec<Track>,
    pub total: usize,
}

/// The contents of a [`TrackPage`].
#[verifier::ext_equal]
pub struct TrackPageView {
    pub items: Seq<TrackView>,
    pub total: usize,
}

impl DeepView for TrackPage {
    type V = TrackPageView;

    open spec fn deep_view(&self) -> TrackPageView {
        TrackPageView {
            items: self.items.deep_view(),
            total: self.total.deep_view(),
        }
    }
}

impl Value for TrackPage {
    fn copy(&self) -> (result: TrackPage) {
        TrackPage {
            items: self.items.copy(),
            total: self.total.copy(),
        }
    }

    fn same(&self, other: &TrackPage) -> (result: bool) {
        self.items.same(&other.items)
            && self.total.same(&other.total)
    }
}

/// A page of artists, with the number of artists in all.
#[derive(Clone, Debug, PartialEq, Eq)]
pub struct ArtistPage {
    pub items: Vec<Artist>,
    pub total: usize,
}

/// The contents of an [`ArtistPage`].
#[verifier::ext_equal]
pub struct ArtistPageView {
    pub items: Seq<ArtistView>,
    pub total: usize,
}

impl DeepView for ArtistPage {
    type V = ArtistPageView;

    open spec fn deep_view(&self) -> ArtistPageView {
        ArtistPageView {
            items: self.items.deep_view(),
            total: self.total.deep_view(),
        }
    }
}

impl Value for ArtistPage {
    fn copy(&self) -> (result: ArtistPage) {
        ArtistPage {
            items: self.items.copy(),
            total: self.total.copy(),
        }
    }

    fn same(&self, other: &ArtistPage) -> (result: bool) {
        self.items.same(&other.items)
            && self.total.same(&other.total)
    }
}

/// A page of genres, with the number of genres in all.
#[derive(Clone, Debug, PartialEq, Eq)]
pub struct GenrePage {
    pub items: Vec<Genre>,
    pub total: usize,
}

/// The contents of a [`GenrePage`].
#[verifier::ext_equal]
pub struct GenrePageView {
    pub items: Seq<GenreView>,
    pub total: usize,
}

impl DeepView for GenrePage {
    type V = GenrePageView;

    open spec fn deep_view(&self) -> GenrePageView {
        GenrePageView {
            items: self.items.deep_view(),
            total: self.total.deep_view(),
        }
    }
}

impl Value for GenrePage {
    fn copy(&self) -> (result: GenrePage) {
        GenrePage {
            items: self.items.copy(),
            total: self.total.copy(),
        }
    }

    fn same(&self, other: &GenrePage) -> (result: bool) {
        self.items.same(&other.items)
            && self.total.same(&other.total)
    }
}

/// A page of playlists, with the number of playlists in all.
#[derive(Clone, Debug, PartialEq, Eq)]
pub struct PlaylistPage {
    pub items: Vec<Playlist>,
    pub total: usize,
}

/// The contents of a [`PlaylistPage`].
#[verifier::ext_equal]
pub struct PlaylistPageView {
    pub items: Seq<PlaylistView>,
    pub total: usize,
}

impl DeepView for PlaylistPage {
    type V = PlaylistPageView;

    open spec fn deep_view(&self) -> PlaylistPageView {
        PlaylistPageView {
            items: self.items.deep_view(),
            total: self.total.deep_view(),
        }
    }
}

impl Value for PlaylistPage {
    fn copy(&self) -> (result: PlaylistPage) {
        PlaylistPage {
            items: self.items.copy(),
            total: self.total.copy(),
        }
    }

    fn same(&self, other: &PlaylistPage) -> (result: bool) {
        self.items.same(&other.items)
            && self.total.same(&other.total)
    }
}

/// A page of smart playlists, with the number of them in all.
#[derive(Clone, Debug, PartialEq, Eq)]
pub struct SmartPlaylistPage {
    pub items: Vec<SmartPlaylist>,
    pub total: usize,
}

/// The contents of a [`SmartPlaylistPage`].
#[verifier::ext_equal]
pub struct SmartPlaylistPageView {
    pub items: Seq<SmartPlaylistView>,
    pub total: usize,
}

impl DeepView for SmartPlaylistPage {
    type V = SmartPlaylistPageView;

    open spec fn deep_view(&self) -> SmartPlaylistPageView {
        SmartPlaylistPageView {
            items: self.items.deep_view(),
            total: self.total.deep_view(),
        }
    }
}

impl Value for SmartPlaylistPage {
    fn copy(&self) -> (result: SmartPlaylistPage) {
        SmartPlaylistPage {
            items: self.items.copy(),
            total: self.total.copy(),
        }
    }

    fn same(&self, other: &SmartPlaylistPage) -> (result: bool) {
        self.items.same(&other.items)
            && self.total.same(&other.total)
    }
}

} // verus!
