//! Artwork: references to it outside the library, and which of it is shown.

use rufin::cover_art_policy::{
    bind_playlist, selected_album_artwork, selected_track_artwork, ArtworkFetchPolicy,
    ArtworkProvenance,
};
use rufin::external_metadata::{
    album_art_from_image_ref, cover_art_size_path, enabled, is_expected_lookup_miss,
    is_external_image_ref, normalize_album, normalize_artist, normalize_queue_entry,
    normalize_track, percent_decode_component, percent_encode_component, ExternalAlbumArt,
};
use rufin::model::ids::{AlbumId, ArtistId, PlaylistId, QueueEntryId, TrackId};
use rufin::model::library::{Album, Artist, ImageRef, Playlist, Track};
use rufin::model::queue::QueueEntry;
use rufin::model::settings::AppSettings;

#[allow(dead_code)]
fn text(value: &str) -> String {
    value.to_string()
}

#[allow(dead_code)]
fn track_id(value: &str) -> TrackId {
    TrackId { value: text(value) }
}

#[allow(dead_code)]
fn album_id(value: &str) -> AlbumId {
    AlbumId { value: text(value) }
}

#[allow(dead_code)]
fn artist_id(value: &str) -> ArtistId {
    ArtistId { value: text(value) }
}

#[allow(dead_code)]
fn fake_track_id(number: u32) -> TrackId {
    TrackId { value: format!("fake:track:{number}") }
}

#[allow(dead_code)]
fn fake_album_id(number: u32) -> AlbumId {
    AlbumId { value: format!("fake:album:{number}") }
}

#[allow(dead_code)]
fn fake_artist_id(number: u32) -> ArtistId {
    ArtistId { value: format!("fake:artist:{number}") }
}

#[allow(dead_code)]
fn image(item_id: &str, tag: Option<&str>) -> ImageRef {
    ImageRef { item_id: text(item_id), tag: tag.map(text) }
}

#[allow(dead_code)]
fn external_settings() -> AppSettings {
    AppSettings { external_metadata_enabled: true, ..AppSettings::default() }
}

#[allow(dead_code)]
fn blank_track() -> Track {
    Track {
        id: track_id("track-one"),
        album_id: album_id("album-one"),
        title: text("Track"),
        artist: text("Artist"),
        artist_id: None,
        artist_credits: Vec::new(),
        album_artist_credits: Vec::new(),
        album: text("Album"),
        year: 2011,
        release_date: None,
        date_added: None,
        last_played: None,
        play_count: None,
        user_rating: None,
        duration_seconds: 60,
        favorite: false,
        disc_number: 1,
        track_number: 1,
        image_ref: None,
        genres: Vec::new(),
        musicbrainz_recording_id: None,
        musicbrainz_release_track_id: None,
        local_path: None,
        source_format: None,
        comment: None,
        skip_count: None,
        from_cue: false,
    }
}

#[allow(dead_code)]
fn blank_album() -> Album {
    Album {
        id: album_id("album-one"),
        title: text("Album"),
        artist: text("Artist"),
        artist_id: None,
        album_artist_credits: Vec::new(),
        artist_credits: Vec::new(),
        year: 2011,
        release_date: None,
        date_added: None,
        last_played: None,
        play_count: None,
        user_rating: None,
        track_count: 1,
        duration_seconds: 60,
        favorite: false,
        color_seed: 1,
        image_ref: None,
        genres: Vec::new(),
        release_types: Vec::new(),
        is_compilation: None,
        musicbrainz_album_id: None,
        musicbrainz_release_group_id: None,
    }
}

#[allow(dead_code)]
fn blank_artist(id: &str, name: &str) -> Artist {
    Artist {
        id: artist_id(id),
        name: text(name),
        album_count: 1,
        track_count: 1,
        favorite: false,
        last_played: None,
        play_count: None,
        user_rating: None,
        image_ref: None,
    }
}

#[allow(dead_code)]
fn blank_entry() -> QueueEntry {
    QueueEntry {
        id: QueueEntryId { value: text("entry-one") },
        track_id: track_id("track-one"),
        album_id: Some(album_id("album-one")),
        title: text("Track"),
        artist: text("Artist"),
        artist_id: None,
        album: text("Album"),
        year: 2011,
        duration_seconds: 60,
        favorite: false,
        image_ref: None,
        local_path: None,
        source_format: None,
        origin: None,
    }
}

fn album_without_cover(title: &str, artist: &str) -> Album {
    Album { title: text(title), artist: text(artist), ..blank_album() }
}

fn track_without_cover(title: &str, artist: &str, album: &str) -> Track {
    Track { title: text(title), artist: text(artist), album: text(album), ..blank_track() }
}

fn queue_entry_without_cover(title: &str, artist: &str, album: &str) -> QueueEntry {
    QueueEntry { title: text(title), artist: text(artist), album: text(album), ..blank_entry() }
}

fn example_album() -> Album {
    Album {
        id: fake_album_id(1),
        artist_id: Some(fake_artist_id(1)),
        year: 1991,
        ..album_without_cover("Example Album", "Example Artist")
    }
}

fn playlist_with_refs(image_ref: Option<ImageRef>, image_refs: Vec<ImageRef>) -> Playlist {
    Playlist {
        id: PlaylistId { value: text("fake:playlist:1") },
        name: text("Example Playlist"),
        track_count: 2,
        duration_seconds: 120,
        image_refs,
        image_ref,
    }
}

fn tagged(item_id: &str) -> ImageRef {
    ImageRef { item_id: text(item_id), tag: Some(format!("{item_id}-tag")) }
}

#[test]
fn external_metadata_requires_setting_and_non_private_mode() {
    let mut settings = external_settings();

    assert!(enabled(&settings));

    settings.private_mode = true;
    assert!(!enabled(&settings));
}

#[test]
fn album_external_cover_refs_round_trip_lookup_values() {
    let mut album = album_without_cover("Hurry Up, We're Dreaming", "M83");
    normalize_album(&mut album, &external_settings());

    let image_ref = album.image_ref.expect("external image ref");
    assert!(is_external_image_ref(&image_ref));
    assert_eq!(
        album_art_from_image_ref(&image_ref),
        Some(ExternalAlbumArt { artist: text("M83"), album: text("Hurry Up, We're Dreaming") })
    );
}

#[test]
fn disabled_external_metadata_strips_synthetic_refs() {
    let mut track = track_without_cover("Midnight City", "M83", "Hurry Up, We're Dreaming");
    normalize_track(&mut track, &external_settings());
    assert!(track.image_ref.is_some());

    normalize_track(
        &mut track,
        &AppSettings { external_metadata_enabled: false, ..AppSettings::default() },
    );

    assert_eq!(track.image_ref, None);
}

#[test]
fn tracks_with_untagged_jellyfin_album_refs_use_external_album_fallback() {
    let mut track = track_without_cover("Example Track", "Example Artist", "Example Album");
    track.album_id = album_id("jellyfin:album:one");
    track.image_ref = Some(image("jellyfin:album:one", None));

    normalize_track(&mut track, &external_settings());

    let image_ref = track.image_ref.expect("external album image ref");
    assert!(is_external_image_ref(&image_ref));
    assert_eq!(
        album_art_from_image_ref(&image_ref),
        Some(ExternalAlbumArt { artist: text("Example Artist"), album: text("Example Album") })
    );
}

#[test]
fn tagged_or_non_jellyfin_track_refs_are_kept() {
    let settings = external_settings();
    let tagged_ref = image("jellyfin:album:one", Some("tag-one"));
    let local_ref = image("local:cover:one", None);
    let mut tagged_track = track_without_cover("Midnight City", "M83", "Hurry Up, We're Dreaming");
    tagged_track.album_id = album_id("jellyfin:album:one");
    tagged_track.image_ref = Some(tagged_ref.clone());
    let mut local_track = track_without_cover("Midnight City", "M83", "Hurry Up, We're Dreaming");
    local_track.album_id = album_id("jellyfin:album:one");
    local_track.image_ref = Some(local_ref.clone());

    normalize_track(&mut tagged_track, &settings);
    normalize_track(&mut local_track, &settings);

    assert_eq!(tagged_track.image_ref, Some(tagged_ref));
    assert_eq!(local_track.image_ref, Some(local_ref));
}

#[test]
fn queue_entries_with_untagged_jellyfin_album_refs_use_external_album_fallback() {
    let mut entry = queue_entry_without_cover("Example Track", "Example Artist", "Example Album");
    entry.album_id = Some(album_id("jellyfin:album:one"));
    entry.image_ref = Some(image("jellyfin:album:one", None));

    normalize_queue_entry(&mut entry, &external_settings());

    let image_ref = entry.image_ref.expect("external album image ref");
    assert!(is_external_image_ref(&image_ref));
    assert_eq!(
        album_art_from_image_ref(&image_ref),
        Some(ExternalAlbumArt { artist: text("Example Artist"), album: text("Example Album") })
    );
}

#[test]
fn artists_do_not_create_external_image_refs() {
    let mut artist = blank_artist("artist-Slowdive", "Slowdive");
    normalize_artist(&mut artist, &external_settings());
    assert_eq!(artist.image_ref, None);

    normalize_artist(
        &mut artist,
        &AppSettings { lastfm_api_key: text("key"), ..external_settings() },
    );

    assert_eq!(artist.image_ref, None);
}

#[test]
fn stale_artist_external_image_refs_are_removed() {
    let mut artist = blank_artist("artist-Slowdive", "Slowdive");
    artist.image_ref = Some(image("external:artist:Slowdive", Some("external-artist-v1-old")));

    normalize_artist(&mut artist, &external_settings());

    assert_eq!(artist.image_ref, None);
}

#[test]
fn unknown_album_metadata_does_not_create_external_cover_ref() {
    let mut album = album_without_cover("Unknown Album", "Unknown Artist");
    normalize_album(&mut album, &external_settings());

    assert_eq!(album.image_ref, None);
}

#[test]
fn cover_art_archive_thumbnail_size_uses_supported_steps() {
    assert_eq!(cover_art_size_path(96), "front-250");
    assert_eq!(cover_art_size_path(250), "front-250");
    assert_eq!(cover_art_size_path(256), "front-500");
}

#[test]
fn expected_lookup_misses_exclude_network_and_service_errors() {
    assert!(is_expected_lookup_miss("external cover image failed with status 404 Not Found"));
    assert!(is_expected_lookup_miss("MusicBrainz did not return matching release groups"));
    assert!(!is_expected_lookup_miss(
        "error sending request for url (https://coverartarchive.org/release/id/front-500)"
    ));
    assert!(!is_expected_lookup_miss(
        "MusicBrainz release lookup failed with status 503 Service Unavailable"
    ));
}

#[test]
fn components_are_percent_encoded_and_decoded() {
    let encoded = percent_encode_component("Sigur Rós: ()");
    assert_eq!(encoded, "Sigur%20R%C3%B3s%3A%20%28%29");
    assert_eq!(percent_decode_component(&encoded), Some(text("Sigur Rós: ()")));
    assert_eq!(percent_decode_component("%C3%B3"), Some(text("ó")));
    assert_eq!(percent_decode_component("%C3"), None);
    assert_eq!(percent_decode_component("100%"), None);
    assert_eq!(percent_decode_component("%zz"), None);
}

#[test]
fn normalizing_twice_changes_nothing_more() {
    let mut album = album_without_cover("Example Album", "Example Artist");
    normalize_album(&mut album, &external_settings());
    let once = album.clone();
    normalize_album(&mut album, &external_settings());
    assert_eq!(album, once);
}

#[test]
fn policy_source_art_wins() {
    let album = Album {
        image_ref: Some(image("local:cover:file%3A%2F%2Fcover.jpg", Some("tag-one"))),
        musicbrainz_release_group_id: Some(text("group-one")),
        ..example_album()
    };

    let artwork = selected_album_artwork(&album, &external_settings());

    assert_eq!(
        artwork.image_ref.as_ref().map(|image_ref| image_ref.item_id.as_str()),
        Some("local:cover:file%3A%2F%2Fcover.jpg")
    );
    assert_eq!(artwork.provenance, ArtworkProvenance::Source);
    assert_eq!(artwork.fetch_policy, ArtworkFetchPolicy::LocalSource);
}

#[test]
fn policy_mbid_before_text() {
    let album = Album {
        musicbrainz_release_group_id: Some(text("441f9fa7-4c22-4b0f-a363-ba6fa6b04ded")),
        musicbrainz_album_id: Some(text("3d92a863-0a57-4b49-b2a9-87c1446b53e0")),
        ..example_album()
    };

    let artwork = selected_album_artwork(&album, &external_settings());

    assert_eq!(artwork.provenance, ArtworkProvenance::ExternalMbid);
    assert!(artwork
        .image_ref
        .as_ref()
        .is_some_and(|image_ref| image_ref.item_id.starts_with("external:mb-release-group:")));
}

#[test]
fn policy_private_mode_is_final_missing() {
    let artwork = selected_album_artwork(
        &example_album(),
        &AppSettings { private_mode: true, ..external_settings() },
    );

    assert_eq!(artwork.provenance, ArtworkProvenance::Missing);
    assert_eq!(artwork.fetch_policy, ArtworkFetchPolicy::FinalMissing);
    assert!(artwork.image_ref.is_none());
}

#[test]
fn policy_missing_mbid_keeps_text_fallback() {
    let album = Album {
        musicbrainz_release_group_id: Some(text("")),
        musicbrainz_album_id: Some(text("not a mbid")),
        ..example_album()
    };

    let artwork = selected_album_artwork(&album, &external_settings());

    assert_eq!(artwork.provenance, ArtworkProvenance::ExternalTextFallback);
    assert!(artwork
        .image_ref
        .as_ref()
        .is_some_and(|image_ref| image_ref.item_id.starts_with("external:album:")));
}

#[test]
fn policy_track_uses_selected_album_ref() {
    let album_ref = image("external:mb-release-group:group-one", Some("tag-one"));
    let track = Track {
        id: fake_track_id(1),
        album_id: fake_album_id(1),
        year: 1991,
        ..track_without_cover("Example Track", "Example Artist", "Example Album")
    };

    let artwork = selected_track_artwork(&track, Some(&album_ref), &external_settings());

    assert_eq!(artwork.image_ref, Some(album_ref));
    assert_eq!(artwork.provenance, ArtworkProvenance::RepresentativeFallback);
}

#[test]
fn playlist_policy_keeps_group_art() {
    let group_ref = tagged("group-cover");
    let mut playlist = playlist_with_refs(Some(tagged("server-cover")), vec![group_ref.clone()]);

    bind_playlist(&mut playlist, &AppSettings::default());

    assert_eq!(playlist.image_refs, vec![group_ref]);
}

#[test]
fn playlist_policy_prefers_server_art() {
    let server_ref = tagged("server-cover");
    let mut playlist = playlist_with_refs(Some(server_ref.clone()), vec![tagged("group-cover")]);

    bind_playlist(
        &mut playlist,
        &AppSettings { prefer_server_playlist_covers: true, ..AppSettings::default() },
    );

    assert_eq!(playlist.image_refs, vec![server_ref]);
}

#[test]
fn playlist_policy_uses_server_art_when_group_empty() {
    let server_ref = tagged("server-cover");
    let mut playlist = playlist_with_refs(Some(server_ref.clone()), Vec::new());

    bind_playlist(&mut playlist, &AppSettings::default());

    assert_eq!(playlist.image_refs, vec![server_ref]);
}

#[test]
fn playlist_policy_keeps_group_art_without_server_art() {
    let group_ref = tagged("group-cover");
    let mut playlist = playlist_with_refs(None, vec![group_ref.clone()]);

    bind_playlist(
        &mut playlist,
        &AppSettings { prefer_server_playlist_covers: true, ..AppSettings::default() },
    );

    assert_eq!(playlist.image_refs, vec![group_ref]);
}
