//! Which artwork an item is shown with, where it comes from and how it may be fetched.
use crate::external_metadata::{
    album_ref, enabled, external_album_identity_image_ref, external_album_image_ref,
    identity_ref, is_external, lookups_enabled, normalize_artist,
    normalize_queue_entry_with_album_ref, normalize_track_with_album_ref, normalized_artist,
    normalized_entry_beside, normalized_track_beside,
};
use crate::model::library::{
    Album, AlbumView, Artist, ArtistView, HomeSection, HomeSectionView, ImageRef, ImageRefView,
    Playlist, PlaylistDetail, PlaylistDetailView, PlaylistView, SearchResults, SearchResultsView,
    Track, TrackView,
};
use crate::model::queue::{QueueEntry, QueueEntryView, QueueSnapshot, QueueSnapshotView};
use crate::model::settings::{AppSettings, AppSettingsView};
use crate::text;
use crate::value::Value;
use vstd::prelude::*;

verus! {

/// Where a chosen image comes from.
#[derive(Clone, Copy, Debug, PartialEq, Eq, Structural)]
pub enum ArtworkProvenance {
    Source,
    ExternalMbid,
    ExternalTextFallback,
    RepresentativeFallback,
    Missing,
}

/// How a chosen image may be fetched.
#[derive(Clone, Copy, Debug, PartialEq, Eq, Structural)]
pub enum ArtworkFetchPolicy {
    LocalSource,
    ProviderSource,
    CachedExternal,
    OptionalExternalNetwork,
    FinalMissing,
}

/// The image chosen for an item.
#[derive(Clone, Debug, PartialEq, Eq)]
pub struct SelectedArtwork {
    pub image_ref: Option<ImageRef>,
    pub provenance: ArtworkProvenance,
    pub fetch_policy: ArtworkFetchPolicy,
}

/// The contents of a [`SelectedArtwork`].
pub struct SelectedArtworkView {
    pub image_ref: Option<ImageRefView>,
    pub provenance: ArtworkProvenance,
    pub fetch_policy: ArtworkFetchPolicy,
}

impl DeepView for SelectedArtwork {
    type V = SelectedArtworkView;

    open spec fn deep_view(&self) -> SelectedArtworkView {
        SelectedArtworkView {
            image_ref: self.image_ref.deep_view(),
            provenance: self.provenance,
            fetch_policy: self.fetch_policy,
        }
    }
}

/// No image at all.
pub open spec fn no_artwork() -> SelectedArtworkView {
    SelectedArtworkView {
        image_ref: None,
        provenance: ArtworkProvenance::Missing,
        fetch_policy: ArtworkFetchPolicy::FinalMissing,
    }
}

fn missing_artwork() -> (result: SelectedArtwork)
    ensures
        result.deep_view() == no_artwork(),
{
    SelectedArtwork {
        image_ref: None,
        provenance: ArtworkProvenance::Missing,
        fetch_policy: ArtworkFetchPolicy::FinalMissing,
    }
}

fn selected(
    image_ref: ImageRef,
    provenance: ArtworkProvenance,
    fetch_policy: ArtworkFetchPolicy,
) -> (result: SelectedArtwork)
    ensures
        result.deep_view() == (SelectedArtworkView {
            image_ref: Some(image_ref.deep_view()),
            provenance,
            fetch_policy,
        }),
{
    SelectedArtwork { image_ref: Some(image_ref), provenance, fetch_policy }
}

/// How an image of the library's own sources may be fetched.
pub open spec fn source_policy(image_ref: ImageRefView) -> ArtworkFetchPolicy {
    if "local:cover:"@.is_prefix_of(image_ref.item_id) {
        ArtworkFetchPolicy::LocalSource
    } else {
        ArtworkFetchPolicy::ProviderSource
    }
}

fn source_fetch_policy(image_ref: &ImageRef) -> (result: ArtworkFetchPolicy)
    ensures
        result == source_policy(image_ref.deep_view()),
{
    if text::starts_with(image_ref.item_id.as_str(), "local:cover:") {
        ArtworkFetchPolicy::LocalSource
    } else {
        ArtworkFetchPolicy::ProviderSource
    }
}

/// Whether an external image is known by an identifier or only by names.
pub open spec fn external_provenance(image_ref: ImageRefView) -> ArtworkProvenance {
    if "external:mb-release"@.is_prefix_of(image_ref.item_id) {
        ArtworkProvenance::ExternalMbid
    } else {
        ArtworkProvenance::ExternalTextFallback
    }
}

fn external_ref_provenance(image_ref: &ImageRef) -> (result: ArtworkProvenance)
    ensures
        result == external_provenance(image_ref.deep_view()),
{
    if text::starts_with(image_ref.item_id.as_str(), "external:mb-release") {
        ArtworkProvenance::ExternalMbid
    } else {
        ArtworkProvenance::ExternalTextFallback
    }
}

/// Whether a reference names artwork outside the library's sources.
pub fn is_external_image_ref(image_ref: &ImageRef) -> (result: bool)
    ensures
        result == is_external(image_ref.deep_view()),
{
    crate::external_metadata::is_external_image_ref(image_ref)
}

/// The choice of an image that an item already has, where it may be shown.
pub open spec fn existing_choice(
    image_ref: Option<ImageRefView>,
    settings: AppSettingsView,
) -> Option<SelectedArtworkView> {
    match image_ref {
        None => None,
        Some(image_ref) => if !is_external(image_ref) {
            Some(
                SelectedArtworkView {
                    image_ref: Some(image_ref),
                    provenance: ArtworkProvenance::Source,
                    fetch_policy: source_policy(image_ref),
                },
            )
        } else if lookups_enabled(settings) {
            Some(
                SelectedArtworkView {
                    image_ref: Some(image_ref),
                    provenance: external_provenance(image_ref),
                    fetch_policy: ArtworkFetchPolicy::OptionalExternalNetwork,
                },
            )
        } else {
            None
        },
    }
}

fn selected_existing_ref(image_ref: &Option<ImageRef>, settings: &AppSettings) -> (result: Option<
    SelectedArtwork,
>)
    ensures
        result.deep_view() == existing_choice(image_ref.deep_view(), settings.deep_view()),
{
    let image_ref: &ImageRef = match image_ref {
        Some(image_ref) => image_ref,
        None => return None,
    };
    if is_external_image_ref(image_ref) {
        if !enabled(settings) {
            return None;
        }
        return Some(
            selected(
                image_ref.copy(),
                external_ref_provenance(image_ref),
                ArtworkFetchPolicy::OptionalExternalNetwork,
            ),
        );
    }
    Some(selected(image_ref.copy(), ArtworkProvenance::Source, source_fetch_policy(image_ref)))
}

/// The image of an album: its own, else one known by identifier, else one known by name.
pub open spec fn album_choice(album: AlbumView, settings: AppSettingsView) -> SelectedArtworkView {
    if let Some(choice) = existing_choice(album.image_ref, settings) {
        choice
    } else if lookups_enabled(settings) && identity_ref(album) is Some {
        SelectedArtworkView {
            image_ref: identity_ref(album),
            provenance: ArtworkProvenance::ExternalMbid,
            fetch_policy: ArtworkFetchPolicy::OptionalExternalNetwork,
        }
    } else if lookups_enabled(settings) && album_ref(album.artist, album.title) is Some {
        SelectedArtworkView {
            image_ref: album_ref(album.artist, album.title),
            provenance: ArtworkProvenance::ExternalTextFallback,
            fetch_policy: ArtworkFetchPolicy::OptionalExternalNetwork,
        }
    } else {
        no_artwork()
    }
}

pub fn selected_album_artwork(album: &Album, settings: &AppSettings) -> (result: SelectedArtwork)
    ensures
        result.deep_view() == album_choice(album.deep_view(), settings.deep_view()),
{
    if let Some(choice) = selected_existing_ref(&album.image_ref, settings) {
        return choice;
    }
    if enabled(settings) {
        if let Some(image_ref) = external_album_identity_image_ref(album) {
            return selected(
                image_ref,
                ArtworkProvenance::ExternalMbid,
                ArtworkFetchPolicy::OptionalExternalNetwork,
            );
        }
        if let Some(image_ref) = external_album_image_ref(
            album.artist.as_str(),
            album.title.as_str(),
        ) {
            return selected(
                image_ref,
                ArtworkProvenance::ExternalTextFallback,
                ArtworkFetchPolicy::OptionalExternalNetwork,
            );
        }
    }
    missing_artwork()
}

/// The choice of the image that a track is shown with: whether it is the track's own, that
/// of its album, or another.
pub open spec fn shown_choice(
    shown: Option<ImageRefView>,
    original: Option<ImageRefView>,
    album_image_ref: Option<ImageRefView>,
) -> SelectedArtworkView {
    match shown {
        None => no_artwork(),
        Some(image_ref) => SelectedArtworkView {
            image_ref: Some(image_ref),
            provenance: if original == Some(image_ref) {
                if is_external(image_ref) {
                    external_provenance(image_ref)
                } else {
                    ArtworkProvenance::Source
                }
            } else if album_image_ref == Some(image_ref) {
                ArtworkProvenance::RepresentativeFallback
            } else {
                external_provenance(image_ref)
            },
            fetch_policy: if is_external(image_ref) {
                ArtworkFetchPolicy::OptionalExternalNetwork
            } else {
                source_policy(image_ref)
            },
        },
    }
}

fn selected_track_ref(
    image_ref: Option<ImageRef>,
    original_ref: &Option<ImageRef>,
    album_image_ref: Option<&ImageRef>,
) -> (result: SelectedArtwork)
    ensures
        result.deep_view() == shown_choice(
            image_ref.deep_view(),
            original_ref.deep_view(),
            album_image_ref.deep_view(),
        ),
{
    let image_ref: ImageRef = match image_ref {
        Some(image_ref) => image_ref,
        None => return missing_artwork(),
    };
    let is_own: bool = match original_ref {
        Some(original) => original.same(&image_ref),
        None => false,
    };
    let is_album: bool = match album_image_ref {
        Some(album_ref) => album_ref.same(&image_ref),
        None => false,
    };
    let external: bool = is_external_image_ref(&image_ref);
    let provenance: ArtworkProvenance = if is_own {
        if external {
            external_ref_provenance(&image_ref)
        } else {
            ArtworkProvenance::Source
        }
    } else if is_album {
        ArtworkProvenance::RepresentativeFallback
    } else {
        external_ref_provenance(&image_ref)
    };
    let fetch_policy: ArtworkFetchPolicy = if external {
        ArtworkFetchPolicy::OptionalExternalNetwork
    } else {
        source_fetch_policy(&image_ref)
    };
    selected(image_ref, provenance, fetch_policy)
}

/// The image of a track next to an album with the given image.
pub open spec fn track_choice(
    track: TrackView,
    album_image_ref: Option<ImageRefView>,
    settings: AppSettingsView,
) -> SelectedArtworkView {
    shown_choice(
        normalized_track_beside(track, album_image_ref, settings).image_ref,
        track.image_ref,
        album_image_ref,
    )
}

pub fn selected_track_artwork(
    track: &Track,
    album_image_ref: Option<&ImageRef>,
    settings: &AppSettings,
) -> (result: SelectedArtwork)
    ensures
        result.deep_view() == track_choice(
            track.deep_view(),
            album_image_ref.deep_view(),
            settings.deep_view(),
        ),
{
    let mut shown: Track = track.copy();
    normalize_track_with_album_ref(&mut shown, album_image_ref, settings);
    selected_track_ref(shown.image_ref, &track.image_ref, album_image_ref)
}

/// The image of a queue entry next to an album with the given image.
pub open spec fn entry_choice(
    entry: QueueEntryView,
    album_image_ref: Option<ImageRefView>,
    settings: AppSettingsView,
) -> SelectedArtworkView {
    shown_choice(
        normalized_entry_beside(entry, album_image_ref, settings).image_ref,
        entry.image_ref,
        album_image_ref,
    )
}

pub fn selected_queue_artwork(
    entry: &QueueEntry,
    album_image_ref: Option<&ImageRef>,
    settings: &AppSettings,
) -> (result: SelectedArtwork)
    ensures
        result.deep_view() == entry_choice(
            entry.deep_view(),
            album_image_ref.deep_view(),
            settings.deep_view(),
        ),
{
    let mut shown: QueueEntry = entry.copy();
    normalize_queue_entry_with_album_ref(&mut shown, album_image_ref, settings);
    selected_track_ref(shown.image_ref, &entry.image_ref, album_image_ref)
}

/// The image of an artist.
pub open spec fn artist_choice(
    artist: ArtistView,
    settings: AppSettingsView,
) -> SelectedArtworkView {
    match existing_choice(normalized_artist(artist, settings).image_ref, settings) {
        Some(choice) => choice,
        None => no_artwork(),
    }
}

pub fn selected_artist_artwork(artist: &Artist, settings: &AppSettings) -> (result: SelectedArtwork)
    ensures
        result.deep_view() == artist_choice(artist.deep_view(), settings.deep_view()),
{
    let mut shown: Artist = artist.copy();
    normalize_artist(&mut shown, settings);
    match selected_existing_ref(&shown.image_ref, settings) {
        Some(choice) => choice,
        None => missing_artwork(),
    }
}

/// An album with its chosen image.
pub open spec fn bound_album(album: AlbumView, settings: AppSettingsView) -> AlbumView {
    AlbumView { image_ref: album_choice(album, settings).image_ref, ..album }
}

pub fn bind_album(album: &mut Album, settings: &AppSettings) -> (result: SelectedArtwork)
    ensures
        final(album).deep_view() == bound_album(old(album).deep_view(), settings.deep_view()),
        result.deep_view() == album_choice(old(album).deep_view(), settings.deep_view()),
{
    let artwork: SelectedArtwork = selected_album_artwork(album, settings);
    album.image_ref = artwork.image_ref.copy();
    artwork
}

/// A track with its chosen image, next to an album with the given one.
pub open spec fn bound_track_beside(
    track: TrackView,
    album_image_ref: Option<ImageRefView>,
    settings: AppSettingsView,
) -> TrackView {
    TrackView { image_ref: track_choice(track, album_image_ref, settings).image_ref, ..track }
}

/// A track with its chosen image.
pub open spec fn bound_track(track: TrackView, settings: AppSettingsView) -> TrackView {
    bound_track_beside(track, None, settings)
}

pub fn bind_track_with_album_ref(
    track: &mut Track,
    album_image_ref: Option<&ImageRef>,
    settings: &AppSettings,
) -> (result: SelectedArtwork)
    ensures
        final(track).deep_view() == bound_track_beside(
            old(track).deep_view(),
            album_image_ref.deep_view(),
            settings.deep_view(),
        ),
        result.deep_view() == track_choice(
            old(track).deep_view(),
            album_image_ref.deep_view(),
            settings.deep_view(),
        ),
{
    let artwork: SelectedArtwork = selected_track_artwork(track, album_image_ref, settings);
    track.image_ref = artwork.image_ref.copy();
    artwork
}

pub fn bind_track(track: &mut Track, settings: &AppSettings) -> (result: SelectedArtwork)
    ensures
        final(track).deep_view() == bound_track(old(track).deep_view(), settings.deep_view()),
        result.deep_view() == track_choice(old(track).deep_view(), None, settings.deep_view()),
{
    bind_track_with_album_ref(track, None, settings)
}

/// An artist with their chosen image.
pub open spec fn bound_artist(artist: ArtistView, settings: AppSettingsView) -> ArtistView {
    ArtistView { image_ref: artist_choice(artist, settings).image_ref, ..artist }
}

pub fn bind_artist(artist: &mut Artist, settings: &AppSettings) -> (result: SelectedArtwork)
    ensures
        final(artist).deep_view() == bound_artist(old(artist).deep_view(), settings.deep_view()),
        result.deep_view() == artist_choice(old(artist).deep_view(), settings.deep_view()),
{
    let artwork: SelectedArtwork = selected_artist_artwork(artist, settings);
    artist.image_ref = artwork.image_ref.copy();
    artwork
}

/// A playlist with its chosen images: the server's own where that is preferred, or where
/// its tracks gave none.
pub open spec fn bound_playlist(playlist: PlaylistView, settings: AppSettingsView) -> PlaylistView {
    PlaylistView {
        image_refs: match playlist.image_ref {
            Some(image_ref) if settings.prefer_server_playlist_covers
                || playlist.image_refs.len() == 0 => seq![image_ref],
            _ => playlist.image_refs,
        },
        ..playlist
    }
}

pub fn bind_playlist(playlist: &mut Playlist, settings: &AppSettings)
    ensures
        final(playlist).deep_view() == bound_playlist(
            old(playlist).deep_view(),
            settings.deep_view(),
        ),
{
    if settings.prefer_server_playlist_covers || playlist.image_refs.len() == 0 {
        if let Some(image_ref) = playlist.image_ref.copy() {
            let mut image_refs: Vec<ImageRef> = Vec::new();
            image_refs.push(image_ref);
            assert(image_refs.deep_view() =~= seq![image_ref.deep_view()]);
            playlist.image_refs = image_refs;
        }
    }
}

/// A queue entry with its chosen image, next to an album with the given one.
pub open spec fn bound_entry_beside(
    entry: QueueEntryView,
    album_image_ref: Option<ImageRefView>,
    settings: AppSettingsView,
) -> QueueEntryView {
    QueueEntryView { image_ref: entry_choice(entry, album_image_ref, settings).image_ref, ..entry }
}

/// A queue entry with its chosen image.
pub open spec fn bound_entry(entry: QueueEntryView, settings: AppSettingsView) -> QueueEntryView {
    bound_entry_beside(entry, None, settings)
}

pub fn bind_queue_entry_with_album_ref(
    entry: &mut QueueEntry,
    album_image_ref: Option<&ImageRef>,
    settings: &AppSettings,
) -> (result: SelectedArtwork)
    ensures
        final(entry).deep_view() == bound_entry_beside(
            old(entry).deep_view(),
            album_image_ref.deep_view(),
            settings.deep_view(),
        ),
        result.deep_view() == entry_choice(
            old(entry).deep_view(),
            album_image_ref.deep_view(),
            settings.deep_view(),
        ),
{
    let artwork: SelectedArtwork = selected_queue_artwork(entry, album_image_ref, settings);
    entry.image_ref = artwork.image_ref.copy();
    artwork
}

pub fn bind_queue_entry(entry: &mut QueueEntry, settings: &AppSettings) -> (result: SelectedArtwork)
    ensures
        final(entry).deep_view() == bound_entry(old(entry).deep_view(), settings.deep_view()),
        result.deep_view() == entry_choice(old(entry).deep_view(), None, settings.deep_view()),
{
    bind_queue_entry_with_album_ref(entry, None, settings)
}

/// Albums with their chosen images.
pub open spec fn bound_albums(albums: Seq<AlbumView>, settings: AppSettingsView) -> Seq<AlbumView> {
    albums.map_values(|album: AlbumView| bound_album(album, settings))
}

pub fn bind_albums(albums: &mut Vec<Album>, settings: &AppSettings)
    ensures
        final(albums).deep_view() == bound_albums(
            old(albums).deep_view(),
            settings.deep_view(),
        ),
{
    let ghost before = albums.deep_view();
    let mut i: usize = 0;
    while i < albums.len()
        invariant
            i <= albums@.len(),
            albums@.len() == before.len(),
            forall|j: int|
                0 <= j < i ==> (#[trigger] albums@[j]).deep_view() == bound_album(
                    before[j],
                    settings.deep_view(),
                ),
            forall|j: int|
                i <= j < before.len() ==> (#[trigger] albums@[j]).deep_view() == before[j],
        decreases albums.len() - i,
    {
        bind_album(&mut albums[i], settings);
        i += 1;
    }
    assert(albums.deep_view() =~= bound_albums(before, settings.deep_view()));
}

/// Tracks with their chosen images.
pub open spec fn bound_tracks(tracks: Seq<TrackView>, settings: AppSettingsView) -> Seq<TrackView> {
    tracks.map_values(|track: TrackView| bound_track(track, settings))
}

pub fn bind_tracks(tracks: &mut Vec<Track>, settings: &AppSettings)
    ensures
        final(tracks).deep_view() == bound_tracks(
            old(tracks).deep_view(),
            settings.deep_view(),
        ),
{
    let ghost before = tracks.deep_view();
    let mut i: usize = 0;
    while i < tracks.len()
        invariant
            i <= tracks@.len(),
            tracks@.len() == before.len(),
            forall|j: int|
                0 <= j < i ==> (#[trigger] tracks@[j]).deep_view() == bound_track(
                    before[j],
                    settings.deep_view(),
                ),
            forall|j: int|
                i <= j < before.len() ==> (#[trigger] tracks@[j]).deep_view() == before[j],
        decreases tracks.len() - i,
    {
        bind_track(&mut tracks[i], settings);
        i += 1;
    }
    assert(tracks.deep_view() =~= bound_tracks(before, settings.deep_view()));
}

/// Artists with their chosen images.
pub open spec fn bound_artists(
    artists: Seq<ArtistView>,
    settings: AppSettingsView,
) -> Seq<ArtistView> {
    artists.map_values(|artist: ArtistView| bound_artist(artist, settings))
}

pub fn bind_artists(artists: &mut Vec<Artist>, settings: &AppSettings)
    ensures
        final(artists).deep_view() == bound_artists(
            old(artists).deep_view(),
            settings.deep_view(),
        ),
{
    let ghost before = artists.deep_view();
    let mut i: usize = 0;
    while i < artists.len()
        invariant
            i <= artists@.len(),
            artists@.len() == before.len(),
            forall|j: int|
                0 <= j < i ==> (#[trigger] artists@[j]).deep_view() == bound_artist(
                    before[j],
                    settings.deep_view(),
                ),
            forall|j: int|
                i <= j < before.len() ==> (#[trigger] artists@[j]).deep_view() == before[j],
        decreases artists.len() - i,
    {
        bind_artist(&mut artists[i], settings);
        i += 1;
    }
    assert(artists.deep_view() =~= bound_artists(before, settings.deep_view()));
}

/// Playlists with their chosen images.
pub open spec fn bound_playlists(
    playlists: Seq<PlaylistView>,
    settings: AppSettingsView,
) -> Seq<PlaylistView> {
    playlists.map_values(|playlist: PlaylistView| bound_playlist(playlist, settings))
}

pub fn bind_playlists(playlists: &mut Vec<Playlist>, settings: &AppSettings)
    ensures
        final(playlists).deep_view() == bound_playlists(
            old(playlists).deep_view(),
            settings.deep_view(),
        ),
{
    let ghost before = playlists.deep_view();
    let mut i: usize = 0;
    while i < playlists.len()
        invariant
            i <= playlists@.len(),
            playlists@.len() == before.len(),
            forall|j: int|
                0 <= j < i ==> (#[trigger] playlists@[j]).deep_view() == bound_playlist(
                    before[j],
                    settings.deep_view(),
                ),
            forall|j: int|
                i <= j < before.len() ==> (#[trigger] playlists@[j]).deep_view() == before[j],
        decreases playlists.len() - i,
    {
        bind_playlist(&mut playlists[i], settings);
        i += 1;
    }
    assert(playlists.deep_view() =~= bound_playlists(before, settings.deep_view()));
}

/// Queue entries with their chosen images.
pub open spec fn bound_entries(
    entries: Seq<QueueEntryView>,
    settings: AppSettingsView,
) -> Seq<QueueEntryView> {
    entries.map_values(|entry: QueueEntryView| bound_entry(entry, settings))
}

fn bind_queue_entries(entries: &mut Vec<QueueEntry>, settings: &AppSettings)
    ensures
        final(entries).deep_view() == bound_entries(
            old(entries).deep_view(),
            settings.deep_view(),
        ),
{
    let ghost before = entries.deep_view();
    let mut i: usize = 0;
    while i < entries.len()
        invariant
            i <= entries@.len(),
            entries@.len() == before.len(),
            forall|j: int|
                0 <= j < i ==> (#[trigger] entries@[j]).deep_view() == bound_entry(
                    before[j],
                    settings.deep_view(),
                ),
            forall|j: int|
                i <= j < before.len() ==> (#[trigger] entries@[j]).deep_view() == before[j],
        decreases entries.len() - i,
    {
        bind_queue_entry(&mut entries[i], settings);
        i += 1;
    }
    assert(entries.deep_view() =~= bound_entries(before, settings.deep_view()));
}

/// A home section with its chosen images.
pub open spec fn bound_home_section(
    section: HomeSectionView,
    settings: AppSettingsView,
) -> HomeSectionView {
    HomeSectionView {
        kind: section.kind,
        albums: bound_albums(section.albums, settings),
        tracks: bound_tracks(section.tracks, settings),
    }
}

pub fn bind_home_section(section: &mut HomeSection, settings: &AppSettings)
    ensures
        final(section).deep_view() == bound_home_section(
            old(section).deep_view(),
            settings.deep_view(),
        ),
{
    bind_albums(&mut section.albums, settings);
    bind_tracks(&mut section.tracks, settings);
}

/// Home sections with their chosen images.
pub open spec fn bound_home_sections(
    sections: Seq<HomeSectionView>,
    settings: AppSettingsView,
) -> Seq<HomeSectionView> {
    sections.map_values(|section: HomeSectionView| bound_home_section(section, settings))
}

pub fn bind_home_sections(sections: &mut Vec<HomeSection>, settings: &AppSettings)
    ensures
        final(sections).deep_view() == bound_home_sections(
            old(sections).deep_view(),
            settings.deep_view(),
        ),
{
    let ghost before = sections.deep_view();
    let mut i: usize = 0;
    while i < sections.len()
        invariant
            i <= sections@.len(),
            sections@.len() == before.len(),
            forall|j: int|
                0 <= j < i ==> (#[trigger] sections@[j]).deep_view() == bound_home_section(
                    before[j],
                    settings.deep_view(),
                ),
            forall|j: int|
                i <= j < before.len() ==> (#[trigger] sections@[j]).deep_view() == before[j],
        decreases sections.len() - i,
    {
        bind_home_section(&mut sections[i], settings);
        i += 1;
    }
    assert(sections.deep_view() =~= bound_home_sections(before, settings.deep_view()));
}

/// Search results with their chosen images.
pub open spec fn bound_search_results(
    results: SearchResultsView,
    settings: AppSettingsView,
) -> SearchResultsView {
    SearchResultsView {
        albums: bound_albums(results.albums, settings),
        tracks: bound_tracks(results.tracks, settings),
        artists: bound_artists(results.artists, settings),
        playlists: bound_playlists(results.playlists, settings),
    }
}

pub fn bind_search_results(results: &mut SearchResults, settings: &AppSettings)
    ensures
        final(results).deep_view() == bound_search_results(
            old(results).deep_view(),
            settings.deep_view(),
        ),
{
    bind_albums(&mut results.albums, settings);
    bind_tracks(&mut results.tracks, settings);
    bind_artists(&mut results.artists, settings);
    bind_playlists(&mut results.playlists, settings);
}

pub fn bind_queue_snapshot(snapshot: &mut QueueSnapshot, settings: &AppSettings)
    ensures
        final(snapshot).deep_view() == (QueueSnapshotView {
            entries: bound_entries(old(snapshot).deep_view().entries, settings.deep_view()),
            ..old(snapshot).deep_view()
        }),
{
    bind_queue_entries(&mut snapshot.entries, settings);
}

/// The tracks of an album, each shown next to the image that the album is shown with.
pub open spec fn bound_album_tracks(
    album: AlbumView,
    tracks: Seq<TrackView>,
    settings: AppSettingsView,
) -> Seq<TrackView> {
    tracks.map_values(
        |track: TrackView|
            bound_track_beside(track, bound_album(album, settings).image_ref, settings),
    )
}

pub fn bind_album_detail(album: &mut Album, tracks: &mut Vec<Track>, settings: &AppSettings)
    ensures
        final(album).deep_view() == bound_album(old(album).deep_view(), settings.deep_view()),
        final(tracks).deep_view() == bound_album_tracks(
            old(album).deep_view(),
            old(tracks).deep_view(),
            settings.deep_view(),
        ),
{
    let ghost album_before = album.deep_view();
    let ghost before = tracks.deep_view();
    let _artwork: SelectedArtwork = bind_album(album, settings);
    let mut i: usize = 0;
    while i < tracks.len()
        invariant
            i <= tracks@.len(),
            tracks@.len() == before.len(),
            album.deep_view() == bound_album(album_before, settings.deep_view()),
            forall|j: int|
                0 <= j < i ==> (#[trigger] tracks@[j]).deep_view() == bound_track_beside(
                    before[j],
                    album.deep_view().image_ref,
                    settings.deep_view(),
                ),
            forall|j: int|
                i <= j < before.len() ==> (#[trigger] tracks@[j]).deep_view() == before[j],
        decreases tracks.len() - i,
    {
        let _artwork: SelectedArtwork = bind_track_with_album_ref(
            &mut tracks[i],
            album.image_ref.as_ref(),
            settings,
        );
        i += 1;
    }
    assert(tracks.deep_view() =~= bound_album_tracks(album_before, before, settings.deep_view()));
}

pub fn bind_playlist_detail(detail: &mut PlaylistDetail, settings: &AppSettings)
    ensures
        final(detail).deep_view() == (PlaylistDetailView {
            playlist: bound_playlist(old(detail).deep_view().playlist, settings.deep_view()),
            ..old(detail).deep_view()
        }),
{
    bind_playlist(&mut detail.playlist, settings);
}

/// Artwork of the library's own sources always wins: an album that has some keeps it,
/// whatever the settings.
pub proof fn source_artwork_wins(album: AlbumView, settings: AppSettingsView)
    requires
        album.image_ref matches Some(image_ref) && !is_external(image_ref),
    ensures
        bound_album(album, settings) == album,
        album_choice(album, settings).provenance == ArtworkProvenance::Source,
{
}

/// In private mode, or with lookups switched off, nothing is ever fetched from outside.
pub proof fn nothing_is_fetched_outside_when_disabled(
    album: AlbumView,
    track: TrackView,
    album_image_ref: Option<ImageRefView>,
    settings: AppSettingsView,
)
    requires
        !lookups_enabled(settings),
    ensures
        album_choice(album, settings).fetch_policy != ArtworkFetchPolicy::OptionalExternalNetwork,
        track_choice(track, album_image_ref, settings).fetch_policy
            != ArtworkFetchPolicy::OptionalExternalNetwork,
{
}

/// An item is without an image exactly where the choice says that it is missing for good.
pub proof fn missing_exactly_without_image(
    album: AlbumView,
    track: TrackView,
    artist: ArtistView,
    album_image_ref: Option<ImageRefView>,
    settings: AppSettingsView,
)
    ensures
        album_choice(album, settings).image_ref is None <==> album_choice(
            album,
            settings,
        ).fetch_policy == ArtworkFetchPolicy::FinalMissing,
        track_choice(track, album_image_ref, settings).image_ref is None <==> track_choice(
            track,
            album_image_ref,
            settings,
        ).fetch_policy == ArtworkFetchPolicy::FinalMissing,
        artist_choice(artist, settings).image_ref is None <==> artist_choice(
            artist,
            settings,
        ).fetch_policy == ArtworkFetchPolicy::FinalMissing,
{
}

/// An album without an image of its own is looked for by its release where that is known, and
/// by artist and title otherwise, but only where looking outside is on.
pub proof fn releases_come_before_names(album: AlbumView, settings: AppSettingsView)
    requires
        album.image_ref is None,
    ensures
        settings.external_metadata_enabled && !settings.private_mode && identity_ref(album) is Some
            ==> album_choice(album, settings).image_ref == identity_ref(album) && album_choice(
            album,
            settings,
        ).provenance == ArtworkProvenance::ExternalMbid,
        settings.external_metadata_enabled && !settings.private_mode && identity_ref(album) is None
            ==> album_choice(album, settings).image_ref == album_ref(album.artist, album.title),
        !settings.external_metadata_enabled || settings.private_mode ==> album_choice(
            album,
            settings,
        ).image_ref is None,
{
}

/// A playlist is shown by the image that its server has for it where that is preferred or where
/// it has no others, and by those of its tracks otherwise.
pub proof fn playlists_are_shown_by_preferred_images(
    playlist: PlaylistView,
    settings: AppSettingsView,
)
    ensures
        ({
            let bound = bound_playlist(playlist, settings);
            &&& playlist.image_ref is None ==> bound.image_refs == playlist.image_refs
            &&& playlist.image_ref is Some && settings.prefer_server_playlist_covers
                ==> bound.image_refs == seq![playlist.image_ref->0]
            &&& !settings.prefer_server_playlist_covers && playlist.image_refs.len() > 0
                ==> bound.image_refs == playlist.image_refs
            &&& bound.image_ref == playlist.image_ref
            &&& bound.id == playlist.id
            &&& bound.name == playlist.name
        }),
{
}

/// A track with an image from its source is shown by that, and one without by the image of its
/// album, where that is from the source too.
pub proof fn tracks_are_shown_by_their_own_image_first(
    track: TrackView,
    own: ImageRefView,
    album_image: ImageRefView,
    settings: AppSettingsView,
)
    requires
        !is_external(own),
        !is_external(album_image),
        own.item_id != track.album_id,
    ensures
        track_choice(
            (TrackView { image_ref: Some(own), ..track }),
            Some(album_image),
            settings,
        ).image_ref == Some(own),
        track_choice(
            (TrackView { image_ref: None, ..track }),
            Some(album_image),
            settings,
        ).image_ref == Some(album_image),
        bound_track_beside(track, Some(album_image), settings) == (TrackView {
            image_ref: bound_track_beside(track, Some(album_image), settings).image_ref,
            ..track
        }),
{
}

} // verus!
