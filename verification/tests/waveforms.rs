//! The waveforms of tracks: what they are kept under and which are made.

use rufin::model::ids::{AlbumId, ArtistId, QueueEntryId, ServerId, TrackId};
use rufin::model::library::{Album, Artist, ImageRef, Track};
use rufin::model::queue::{QueueEntry, QueueSnapshot, RepeatMode, ShuffleState};
use rufin::model::settings::{AppSettings, PlaybackSettings};
use rufin::model::waveform::WaveformGenerationKind;
use rufin::waveforms::{
    cached_waveform_is_current, waveform_cache_key, waveform_generation_format_is_supported,
    waveform_generation_source_is_local, waveform_generation_source_is_remote,
    waveform_generation_source_is_supported, waveform_warm_requests, WaveformPermits,
    WAVEFORM_CACHE_VERSION,
};

#[allow(dead_code)]
fn text(value: &str) -> String {
    value.to_string()
}

#[allow(dead_code)]
fn track_id(value: &str) -> TrackId {
    TrackId { value: text(value) }
}

#[allow(dead_code)]
fn album_id(value: &str) -> AlbumId {
    AlbumId { value: text(value) }
}

#[allow(dead_code)]
fn artist_id(value: &str) -> ArtistId {
    ArtistId { value: text(value) }
}

#[allow(dead_code)]
fn fake_track_id(number: u32) -> TrackId {
    TrackId { value: format!("fake:track:{number}") }
}

#[allow(dead_code)]
fn fake_album_id(number: u32) -> AlbumId {
    AlbumId { value: format!("fake:album:{number}") }
}

#[allow(dead_code)]
fn fake_artist_id(number: u32) -> ArtistId {
    ArtistId { value: format!("fake:artist:{number}") }
}

#[allow(dead_code)]
fn image(item_id: &str, tag: Option<&str>) -> ImageRef {
    ImageRef { item_id: text(item_id), tag: tag.map(text) }
}

#[allow(dead_code)]
fn external_settings() -> AppSettings {
    AppSettings { external_metadata_enabled: true, ..AppSettings::default() }
}

#[allow(dead_code)]
fn blank_track() -> Track {
    Track {
        id: track_id("track-one"),
        album_id: album_id("album-one"),
        title: text("Track"),
        artist: text("Artist"),
        artist_id: None,
        artist_credits: Vec::new(),
        album_artist_credits: Vec::new(),
        album: text("Album"),
        year: 2011,
        release_date: None,
        date_added: None,
        last_played: None,
        play_count: None,
        user_rating: None,
        duration_seconds: 60,
        favorite: false,
        disc_number: 1,
        track_number: 1,
        image_ref: None,
        genres: Vec::new(),
        musicbrainz_recording_id: None,
        musicbrainz_release_track_id: None,
        local_path: None,
        source_format: None,
        comment: None,
        skip_count: None,
        from_cue: false,
    }
}

#[allow(dead_code)]
fn blank_album() -> Album {
    Album {
        id: album_id("album-one"),
        title: text("Album"),
        artist: text("Artist"),
        artist_id: None,
        album_artist_credits: Vec::new(),
        artist_credits: Vec::new(),
        year: 2011,
        release_date: None,
        date_added: None,
        last_played: None,
        play_count: None,
        user_rating: None,
        track_count: 1,
        duration_seconds: 60,
        favorite: false,
        color_seed: 1,
        image_ref: None,
        genres: Vec::new(),
        release_types: Vec::new(),
        is_compilation: None,
        musicbrainz_album_id: None,
        musicbrainz_release_group_id: None,
    }
}

#[allow(dead_code)]
fn blank_artist(id: &str, name: &str) -> Artist {
    Artist {
        id: artist_id(id),
        name: text(name),
        album_count: 1,
        track_count: 1,
        favorite: false,
        last_played: None,
        play_count: None,
        user_rating: None,
        image_ref: None,
    }
}

#[allow(dead_code)]
fn blank_entry() -> QueueEntry {
    QueueEntry {
        id: QueueEntryId { value: text("entry-one") },
        track_id: track_id("track-one"),
        album_id: Some(album_id("album-one")),
        title: text("Track"),
        artist: text("Artist"),
        artist_id: None,
        album: text("Album"),
        year: 2011,
        duration_seconds: 60,
        favorite: false,
        image_ref: None,
        local_path: None,
        source_format: None,
        origin: None,
    }
}

#[test]
fn playback_waveform_scoped() {
    let server_id = ServerId { value: text("server/one") };

    let key = waveform_cache_key(&server_id, &track_id("album/track:one"), 123);

    assert!(key.starts_with("server_one/"));
    assert!(key.ends_with("-123.json"));
    assert!(!key.contains("track:one"));
}

#[test]
fn waveform_keys_hold_the_digest_of_the_track() {
    let server_id = ServerId { value: text("server-one") };
    let first = waveform_cache_key(&server_id, &track_id("one"), 42);
    let second = waveform_cache_key(&server_id, &track_id("two"), 42);
    assert_ne!(first, second);
    let digest = &first["server-one/".len()..first.len() - "-42.json".len()];
    assert_eq!(digest.len(), 32);
    assert!(digest.chars().all(|character| "0123456789abcdef".contains(character)));
}

#[test]
fn playback_waveform_sources() {
    assert!(waveform_generation_source_is_local("file:///music/track.flac"));
    assert!(waveform_generation_source_is_supported("file:///music/track.flac"));
    assert!(!waveform_generation_source_is_remote("file:///music/track.flac"));
    assert!(!waveform_generation_source_is_local("https://music.example/stream"));
    assert!(waveform_generation_source_is_supported("https://music.example/stream"));
    assert!(waveform_generation_source_is_remote("https://music.example/stream"));
    assert!(waveform_generation_source_is_remote("http://music.example/stream"));
    assert!(!waveform_generation_source_is_remote("fake://music.example/stream"));
    assert!(!waveform_generation_source_is_supported("fake://music.example/stream"));
}

#[test]
fn playback_waveform_key() {
    let cache_key = "test-server/test-track-42.json";
    let mut permits = WaveformPermits::new();

    let permit = permits
        .acquire_waveform_generation_permit(cache_key, WaveformGenerationKind::Warm)
        .expect("first warm permit");
    assert!(permits
        .acquire_waveform_generation_permit(cache_key, WaveformGenerationKind::Warm)
        .is_none());
    let foreground = permits
        .acquire_waveform_generation_permit(cache_key, WaveformGenerationKind::Foreground)
        .expect("foreground permit");
    assert!(permits
        .acquire_waveform_generation_permit(cache_key, WaveformGenerationKind::Foreground)
        .is_none());

    permits.release(permit);
    assert!(permits
        .acquire_waveform_generation_permit(cache_key, WaveformGenerationKind::Warm)
        .is_some());
    permits.release(foreground);
}

#[test]
fn playback_cap_current() {
    let server_id = ServerId { value: text("server-one") };
    let snapshot = QueueSnapshot {
        server_id: server_id.clone(),
        entries: (1..=5)
            .map(|number: u32| QueueEntry {
                id: QueueEntryId { value: format!("queue-{number}") },
                track_id: TrackId { value: format!("track-{number}") },
                album_id: None,
                title: format!("Track {number}"),
                artist: text("Example Artist"),
                album: text("Example Album"),
                year: 2024,
                duration_seconds: 180 + number,
                source_format: if number == 4 { Some(text("flac")) } else { None },
                ..blank_entry()
            })
            .collect(),
        current_index: Some(2),
        repeat_mode: RepeatMode::All,
        shuffle: ShuffleState { enabled: false, seed: 0 },
        shuffle_order: Vec::new(),
        progress_seconds: 0,
    };

    let requests = waveform_warm_requests(&snapshot, &PlaybackSettings::default(), 2);

    assert_eq!(requests.len(), 2);
    assert_eq!(requests[0].server_id, server_id);
    assert_eq!(requests[0].track_id, track_id("track-4"));
    assert_eq!(requests[0].source_format.as_deref(), Some("flac"));
    assert_eq!(requests[1].track_id, track_id("track-5"));
    assert_eq!(requests[1].source_format, None);
}

#[test]
fn playback_waveform_rejects_dsd_formats() {
    assert!(!waveform_generation_format_is_supported(Some("dsf")));
    assert!(!waveform_generation_format_is_supported(Some("audio/x-dsf")));
    assert!(!waveform_generation_format_is_supported(Some("DSD64")));
    assert!(!waveform_generation_format_is_supported(Some(".dff")));
    assert!(waveform_generation_format_is_supported(Some("flac")));
    assert!(waveform_generation_format_is_supported(Some("audio/flac")));
    assert!(waveform_generation_format_is_supported(None));
}

#[test]
fn kept_waveforms_of_another_length_or_version_are_not_used() {
    assert!(cached_waveform_is_current(WAVEFORM_CACHE_VERSION, 42, 42));
    assert!(!cached_waveform_is_current(WAVEFORM_CACHE_VERSION, 41, 42));
    assert!(!cached_waveform_is_current(WAVEFORM_CACHE_VERSION + 1, 42, 42));
}
