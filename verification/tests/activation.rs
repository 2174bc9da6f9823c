//! What is played of a source that was chosen.

use rufin::model::activation::{
    LoadedCompleteness, NormalizedPlayTarget, PlayAction, PlayActivation, PlayAnchor,
    PlaySourceItem, PlayTarget,
};
use rufin::model::ids::{AlbumId, ArtistId, PlaylistId, QueueEntryId, TrackId};
use rufin::model::library::{Album, Artist, ImageRef, Track};
use rufin::model::queue::{
    PlaySourceDescriptor, PlaySourceKey, QueueAnchor, QueueEntry, SourceOrder,
};
use rufin::model::settings::AppSettings;
use rufin::play_activation::{
    materialized_range, normalize_loaded_source_activation, MATERIALIZED_WINDOW_LIMIT,
};

#[allow(dead_code)]
fn text(value: &str) -> String {
    value.to_string()
}

#[allow(dead_code)]
fn track_id(value: &str) -> TrackId {
    TrackId { value: text(value) }
}

#[allow(dead_code)]
fn album_id(value: &str) -> AlbumId {
    AlbumId { value: text(value) }
}

#[allow(dead_code)]
fn artist_id(value: &str) -> ArtistId {
    ArtistId { value: text(value) }
}

#[allow(dead_code)]
fn fake_track_id(number: u32) -> TrackId {
    TrackId { value: format!("fake:track:{number}") }
}

#[allow(dead_code)]
fn fake_album_id(number: u32) -> AlbumId {
    AlbumId { value: format!("fake:album:{number}") }
}

#[allow(dead_code)]
fn fake_artist_id(number: u32) -> ArtistId {
    ArtistId { value: format!("fake:artist:{number}") }
}

#[allow(dead_code)]
fn image(item_id: &str, tag: Option<&str>) -> ImageRef {
    ImageRef { item_id: text(item_id), tag: tag.map(text) }
}

#[allow(dead_code)]
fn external_settings() -> AppSettings {
    AppSettings { external_metadata_enabled: true, ..AppSettings::default() }
}

#[allow(dead_code)]
fn blank_track() -> Track {
    Track {
        id: track_id("track-one"),
        album_id: album_id("album-one"),
        title: text("Track"),
        artist: text("Artist"),
        artist_id: None,
        artist_credits: Vec::new(),
        album_artist_credits: Vec::new(),
        album: text("Album"),
        year: 2011,
        release_date: None,
        date_added: None,
        last_played: None,
        play_count: None,
        user_rating: None,
        duration_seconds: 60,
        favorite: false,
        disc_number: 1,
        track_number: 1,
        image_ref: None,
        genres: Vec::new(),
        musicbrainz_recording_id: None,
        musicbrainz_release_track_id: None,
        local_path: None,
        source_format: None,
        comment: None,
        skip_count: None,
        from_cue: false,
    }
}

#[allow(dead_code)]
fn blank_album() -> Album {
    Album {
        id: album_id("album-one"),
        title: text("Album"),
        artist: text("Artist"),
        artist_id: None,
        album_artist_credits: Vec::new(),
        artist_credits: Vec::new(),
        year: 2011,
        release_date: None,
        date_added: None,
        last_played: None,
        play_count: None,
        user_rating: None,
        track_count: 1,
        duration_seconds: 60,
        favorite: false,
        color_seed: 1,
        image_ref: None,
        genres: Vec::new(),
        release_types: Vec::new(),
        is_compilation: None,
        musicbrainz_album_id: None,
        musicbrainz_release_group_id: None,
    }
}

#[allow(dead_code)]
fn blank_artist(id: &str, name: &str) -> Artist {
    Artist {
        id: artist_id(id),
        name: text(name),
        album_count: 1,
        track_count: 1,
        favorite: false,
        last_played: None,
        play_count: None,
        user_rating: None,
        image_ref: None,
    }
}

#[allow(dead_code)]
fn blank_entry() -> QueueEntry {
    QueueEntry {
        id: QueueEntryId { value: text("entry-one") },
        track_id: track_id("track-one"),
        album_id: Some(album_id("album-one")),
        title: text("Track"),
        artist: text("Artist"),
        artist_id: None,
        album: text("Album"),
        year: 2011,
        duration_seconds: 60,
        favorite: false,
        image_ref: None,
        local_path: None,
        source_format: None,
        origin: None,
    }
}

fn track(number: u32) -> Track {
    Track { id: fake_track_id(number), ..blank_track() }
}

fn source_item(number: u32, source_index: usize) -> PlaySourceItem {
    PlaySourceItem {
        track: track(number),
        source_index,
        source_item_id: Some(format!("item-{source_index}")),
    }
}

fn activation(
    completeness: LoadedCompleteness,
    items: Vec<PlaySourceItem>,
    anchor: PlayAnchor,
) -> PlayActivation {
    PlayActivation {
        action: PlayAction::ReplaceNow,
        target: PlayTarget::LoadedSource {
            source_key: PlaySourceKey {
                descriptor: PlaySourceDescriptor::Playlist {
                    playlist_id: PlaylistId { value: text("fake:playlist:1") },
                },
                order: SourceOrder::Canonical,
            },
            completeness,
            items,
            anchor,
        },
    }
}

fn anchor(number: u32, source_index: usize, item: Option<&str>) -> PlayAnchor {
    PlayAnchor { track_id: fake_track_id(number), source_index, source_item_id: item.map(text) }
}

#[test]
fn complete_loaded_source_over_limit_uses_anchor_biased_window() {
    let items = (0..1_200)
        .map(|index| source_item(index as u32, index))
        .collect::<Vec<_>>();
    let normalized = normalize_loaded_source_activation(activation(
        LoadedCompleteness::Complete,
        items,
        anchor(650, 650, Some("item-650")),
    ))
    .expect("complete activation should normalize");

    let NormalizedPlayTarget::Replacement(replacement) = normalized.target else {
        panic!("expected queue replacement");
    };
    assert_eq!(replacement.items.len(), MATERIALIZED_WINDOW_LIMIT);
    let source = replacement.source;
    assert_eq!(source.materialized_start, 630);
    assert_eq!(source.materialized_len, MATERIALIZED_WINDOW_LIMIT);
    assert_eq!(source.total_source_items, Some(1_200));
    assert!(source.capped);
    assert_eq!(
        replacement.anchor,
        QueueAnchor {
            track_id: fake_track_id(650),
            source_index: 650,
            source_item_id: Some(text("item-650")),
        }
    );
}

#[test]
fn five_hundred_item_source_is_windowed_for_play_start() {
    let items = (0..500)
        .map(|index| source_item(index as u32, index))
        .collect::<Vec<_>>();
    let normalized = normalize_loaded_source_activation(activation(
        LoadedCompleteness::Complete,
        items,
        anchor(250, 250, Some("item-250")),
    ))
    .expect("complete activation should normalize");

    let NormalizedPlayTarget::Replacement(replacement) = normalized.target else {
        panic!("expected queue replacement");
    };
    assert_eq!(replacement.items.len(), MATERIALIZED_WINDOW_LIMIT);
    let source = replacement.source;
    assert_eq!(source.materialized_start, 230);
    assert_eq!(source.total_source_items, Some(500));
    assert!(source.capped);
}

#[test]
fn snippet_replace_degrades_to_track_only() {
    let normalized = normalize_loaded_source_activation(activation(
        LoadedCompleteness::Snippet,
        vec![PlaySourceItem { track: track(9), source_index: 99, source_item_id: None }],
        anchor(9, 99, None),
    ))
    .expect("snippet activation should normalize");

    let NormalizedPlayTarget::TrackOnly(track) = normalized.target else {
        panic!("expected track-only fallback");
    };
    assert_eq!(track.id, fake_track_id(9));
}

#[test]
fn window_rejects_items_when_first_source_index_does_not_match_start() {
    let error = normalize_loaded_source_activation(activation(
        LoadedCompleteness::Window { start: 25, total: Some(100) },
        vec![source_item(1, 0), source_item(2, 1)],
        anchor(1, 0, Some("item-0")),
    ))
    .expect_err("invalid window activation should fail");

    assert_eq!(error, "The selected track is no longer available.");
}

#[test]
fn complete_rejects_items_when_first_source_index_is_not_zero() {
    let error = normalize_loaded_source_activation(activation(
        LoadedCompleteness::Complete,
        vec![source_item(1, 10), source_item(2, 11)],
        anchor(1, 10, Some("item-10")),
    ))
    .expect_err("invalid complete activation should fail");

    assert_eq!(error, "The selected track is no longer available.");
}

#[test]
fn window_rejects_items_that_do_not_fit_inside_total() {
    let error = normalize_loaded_source_activation(activation(
        LoadedCompleteness::Window { start: 50, total: Some(3) },
        vec![source_item(1, 50)],
        anchor(1, 50, Some("item-50")),
    ))
    .expect_err("invalid window activation should fail");

    assert_eq!(error, "The selected track is no longer available.");
}

#[test]
fn window_rejects_items_when_last_source_index_is_outside_total() {
    let error = normalize_loaded_source_activation(activation(
        LoadedCompleteness::Window { start: 1, total: Some(2) },
        vec![source_item(1, 1), source_item(2, 2)],
        anchor(1, 1, Some("item-1")),
    ))
    .expect_err("invalid window activation should fail");

    assert_eq!(error, "The selected track is no longer available.");
}

#[test]
fn duplicate_track_ids_with_different_source_item_id_selects_matching_anchor_occurrence() {
    let first = PlaySourceItem {
        track: Track { id: fake_track_id(42), ..track(1) },
        source_index: 0,
        source_item_id: Some(text("first")),
    };
    let second = PlaySourceItem {
        track: Track { id: fake_track_id(42), ..track(2) },
        source_index: 1,
        source_item_id: Some(text("second")),
    };
    let normalized = normalize_loaded_source_activation(activation(
        LoadedCompleteness::Complete,
        vec![first, second],
        anchor(42, 1, Some("second")),
    ))
    .expect("duplicate source item activation should normalize");

    let NormalizedPlayTarget::Replacement(replacement) = normalized.target else {
        panic!("expected queue replacement");
    };
    assert_eq!(
        replacement.anchor,
        QueueAnchor {
            track_id: fake_track_id(42),
            source_index: 1,
            source_item_id: Some(text("second")),
        }
    );
}

#[test]
fn windows_hold_the_chosen_item() {
    assert_eq!(materialized_range(100, 99), (0, 100));
    assert_eq!(materialized_range(101, 0), (0, 100));
    assert_eq!(materialized_range(101, 100), (1, 101));
    assert_eq!(materialized_range(1_200, 1_199), (1_100, 1_200));
    assert_eq!(materialized_range(1_200, 5), (0, 100));
}
