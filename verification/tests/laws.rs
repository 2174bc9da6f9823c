//! What holds of several calls together.

use rufin::controller::AppController;
use rufin::model::events::{ControllerEvent, Effect, FavoriteItemId};
use rufin::model::ids::{AlbumId, ArtistId, PlaylistId, QueueEntryId, ServerId, TrackId};
use rufin::model::library::{Album, Artist, ImageRef, Track};
use rufin::model::lyrics::Lyrics;
use rufin::model::playback::{
    PlaybackCommand, PlaybackEvent, PlaybackSnapshot, PlaybackState, StreamDescriptor,
};
use rufin::model::queue::{QueueEntry, QueueSnapshot};
use rufin::model::settings::AppSettings;
use rufin::model::snapshot::LibrarySnapshot;
use rufin::model::source::{SavedServer, ServerIdentity};
use rufin::model::store::Store;
use rufin::store::{no_tokens, open_memory};
use rufin::auto_dj::auto_dj_candidates;
use rufin::key_set::KeySet;
use rufin::lyrics_search::{lrclib_search_urls, merge_search_batches, order_lrclib_results};
use rufin::model::events::ServerSettingsInput;
use rufin::model::library::PlaylistEntry;
use rufin::model::lyrics::LyricsSearchResult;
use rufin::model::queue::RepeatMode;
use rufin::model::source::StreamingProvider;
use rufin::model::waveform::WaveformGenerationKind;
use rufin::playlists::{
    find_entry, move_entry, playlist_entries_for_tracks, playlist_mutation, remove_entry,
};
use rufin::providers::{provider_display_name, streaming_provider};
use rufin::queue::QueueEngine;
use rufin::server_settings::{
    authenticated_identity_changed, next_saved_server, prepare_server_settings_update,
};
use rufin::shuffle::shuffle_items;
use rufin::waveforms::{waveform_cache_key, WaveformPermits};

#[allow(dead_code)]
fn text(value: &str) -> String {
    value.to_string()
}

#[allow(dead_code)]
fn track_id(value: &str) -> TrackId {
    TrackId { value: text(value) }
}

#[allow(dead_code)]
fn album_id(value: &str) -> AlbumId {
    AlbumId { value: text(value) }
}

#[allow(dead_code)]
fn artist_id(value: &str) -> ArtistId {
    ArtistId { value: text(value) }
}

#[allow(dead_code)]
fn fake_track_id(number: u32) -> TrackId {
    TrackId { value: format!("fake:track:{number}") }
}

#[allow(dead_code)]
fn fake_album_id(number: u32) -> AlbumId {
    AlbumId { value: format!("fake:album:{number}") }
}

#[allow(dead_code)]
fn fake_artist_id(number: u32) -> ArtistId {
    ArtistId { value: format!("fake:artist:{number}") }
}

#[allow(dead_code)]
fn image(item_id: &str, tag: Option<&str>) -> ImageRef {
    ImageRef { item_id: text(item_id), tag: tag.map(text) }
}

#[allow(dead_code)]
fn external_settings() -> AppSettings {
    AppSettings { external_metadata_enabled: true, ..AppSettings::default() }
}

#[allow(dead_code)]
fn blank_track() -> Track {
    Track {
        id: track_id("track-one"),
        album_id: album_id("album-one"),
        title: text("Track"),
        artist: text("Artist"),
        artist_id: None,
        artist_credits: Vec::new(),
        album_artist_credits: Vec::new(),
        album: text("Album"),
        year: 2011,
        release_date: None,
        date_added: None,
        last_played: None,
        play_count: None,
        user_rating: None,
        duration_seconds: 60,
        favorite: false,
        disc_number: 1,
        track_number: 1,
        image_ref: None,
        genres: Vec::new(),
        musicbrainz_recording_id: None,
        musicbrainz_release_track_id: None,
        local_path: None,
        source_format: None,
        comment: None,
        skip_count: None,
        from_cue: false,
    }
}

#[allow(dead_code)]
fn blank_album() -> Album {
    Album {
        id: album_id("album-one"),
        title: text("Album"),
        artist: text("Artist"),
        artist_id: None,
        album_artist_credits: Vec::new(),
        artist_credits: Vec::new(),
        year: 2011,
        release_date: None,
        date_added: None,
        last_played: None,
        play_count: None,
        user_rating: None,
        track_count: 1,
        duration_seconds: 60,
        favorite: false,
        color_seed: 1,
        image_ref: None,
        genres: Vec::new(),
        release_types: Vec::new(),
        is_compilation: None,
        musicbrainz_album_id: None,
        musicbrainz_release_group_id: None,
    }
}

#[allow(dead_code)]
fn blank_artist(id: &str, name: &str) -> Artist {
    Artist {
        id: artist_id(id),
        name: text(name),
        album_count: 1,
        track_count: 1,
        favorite: false,
        last_played: None,
        play_count: None,
        user_rating: None,
        image_ref: None,
    }
}

#[allow(dead_code)]
fn blank_entry() -> QueueEntry {
    QueueEntry {
        id: QueueEntryId { value: text("entry-one") },
        track_id: track_id("track-one"),
        album_id: Some(album_id("album-one")),
        title: text("Track"),
        artist: text("Artist"),
        artist_id: None,
        album: text("Album"),
        year: 2011,
        duration_seconds: 60,
        favorite: false,
        image_ref: None,
        local_path: None,
        source_format: None,
        origin: None,
    }
}
/// Where the random sequence of a [`World`] begins.
#[allow(dead_code)]
const RANDOM_SEED: u64 = 7;


/// A controller with a player and servers that answer at once.
#[allow(dead_code)]
struct World {
    controller: AppController,
    events: Vec<ControllerEvent>,
    commands: Vec<PlaybackCommand>,
    effects: Vec<Effect>,
    pending: Vec<PlaybackEvent>,
    /// What the player refuses everything with, where it does.
    refusal: Option<String>,
}

#[allow(dead_code)]
impl World {
    fn over(store: Store) -> World {
        let begun = AppController::bootstrap(store, no_tokens(), RANDOM_SEED, false, None);
        World {
            controller: begun.controller,
            events: Vec::new(),
            commands: Vec::new(),
            effects: Vec::new(),
            pending: Vec::new(),
            refusal: None,
        }
    }

    fn fake() -> World {
        World::over(fake_store())
    }

    /// Answers what is asked for, until nothing more is.
    fn settle(&mut self) {
        loop {
            self.events.extend(self.controller.drain_events());
            let effects = self.controller.drain_effects();
            if effects.is_empty() {
                return;
            }
            for effect in effects {
                self.answer(effect);
            }
        }
    }

    fn answer(&mut self, effect: Effect) {
        self.effects.push(effect.clone());
        let controller = &mut self.controller;
        match effect {
            Effect::Playback(command) => {
                self.commands.push(command.clone());
                match self.refusal.clone() {
                    Some(error) => controller.command_rejected(command, error),
                    None => controller.command_accepted(command),
                }
            }
            Effect::PlayStream { request, stream, command } => {
                self.commands.push(command.clone());
                match self.refusal.clone() {
                    Some(error) => controller.command_rejected(command, error),
                    None => {
                        self.pending.push(PlaybackEvent::StateChanged(PlaybackState::Playing));
                        controller.current_stream_accepted(&request, stream);
                    }
                }
            }
            Effect::StopPlayer => self.commands.push(PlaybackCommand::Stop),
            Effect::ResolveCurrent(request) => {
                let stream = fake_stream(&request.entry.track_id);
                controller.current_stream_resolved(request, stream);
            }
            Effect::ResolveNext(request) => {
                let stream = fake_stream(&request.next_entry.track_id);
                let _sent = controller.next_stream_resolved(&request, stream);
            }
            Effect::TopUpQueue => controller.top_up_queue(),
            Effect::PersistQueue { generation, snapshot } => {
                controller.persist_queue_now(generation, &snapshot)
            }
            Effect::ReadSidecarLyrics { server_id, entry, use_cache, search, providers, .. } => {
                controller.sidecar_lyrics_read(
                    &server_id,
                    &entry,
                    use_cache,
                    search,
                    &providers,
                    &None,
                )
            }
            Effect::FetchServerLyrics { saved, entry, search, providers } => {
                controller.server_lyrics_missing(
                    &saved.server.id,
                    &entry,
                    search,
                    &providers,
                    None,
                )
            }
            Effect::FetchExternalLyrics { server_id, server_error, .. } => {
                controller.external_lyrics_fetched(&server_id, None, server_error)
            }
            Effect::MatchLocalTracks { server_id, .. } => {
                controller.local_tracks_read(&server_id, &None)
            }
            Effect::ClearDiskCovers { server_id, next } => {
                controller.disk_covers_cleared(&server_id, next)
            }
            _ => {}
        }
    }

    /// Lets the player tell what it has to.
    fn poll(&mut self) {
        self.settle();
        let events = std::mem::take(&mut self.pending);
        self.controller.poll_playback_events(events);
        self.settle();
    }

    fn poll_with(&mut self, events: Vec<PlaybackEvent>) {
        self.controller.poll_playback_events(events);
        self.settle();
    }

    /// The first of the events not looked at yet that is wanted; those before it are dropped.
    fn wait<T>(&mut self, mut wanted: impl FnMut(&ControllerEvent) -> Option<T>) -> T {
        self.settle();
        while !self.events.is_empty() {
            let event = self.events.remove(0);
            if let Some(found) = wanted(&event) {
                return found;
            }
        }
        panic!("no such event");
    }

    fn wait_for_queue(&mut self) -> QueueSnapshot {
        self.wait(|event| match event {
            ControllerEvent::Queue(Some(queue)) => Some(queue.clone()),
            _ => None,
        })
    }

    fn wait_for_snapshot(&mut self) -> LibrarySnapshot {
        self.wait(|event| match event {
            ControllerEvent::Snapshot(snapshot) => Some(snapshot.clone()),
            _ => None,
        })
    }

    fn wait_for_status(&mut self) -> String {
        self.wait(|event| match event {
            ControllerEvent::LoginStatus(status) => Some(status.clone()),
            _ => None,
        })
    }

    fn wait_for_error(&mut self) -> String {
        self.wait(|event| match event {
            ControllerEvent::Error(error) => Some(error.clone()),
            _ => None,
        })
    }

    fn wait_for_lyrics(&mut self) -> Option<Lyrics> {
        self.wait(|event| match event {
            ControllerEvent::Lyrics(lyrics) => Some(lyrics.clone()),
            _ => None,
        })
    }

    fn wait_for_player(&mut self, wanted: impl Fn(&PlaybackSnapshot) -> bool) -> PlaybackSnapshot {
        self.wait(|event| match event {
            ControllerEvent::Playback(player) if wanted(player) => Some(player.clone()),
            _ => None,
        })
    }

    fn wait_for_state(&mut self, state: PlaybackState) -> PlaybackSnapshot {
        self.poll();
        self.wait_for_player(|player| player.state == state)
    }

    fn wait_for_position(&mut self, millis: u64) -> PlaybackSnapshot {
        self.wait_for_player(|player| player.position_millis == millis)
    }

    fn wait_for_favorite(&mut self) -> (FavoriteItemId, bool, LibrarySnapshot) {
        self.wait(|event| match event {
            ControllerEvent::FavoriteChanged { item_id, favorite, snapshot } => {
                Some((item_id.clone(), *favorite, snapshot.clone()))
            }
            _ => None,
        })
    }

    fn wait_for_playlist(&mut self) -> (PlaylistId, LibrarySnapshot) {
        self.wait(|event| match event {
            ControllerEvent::PlaylistChanged { playlist_id, snapshot } => {
                Some((playlist_id.clone(), snapshot.clone()))
            }
            _ => None,
        })
    }

    fn server_id(&self) -> ServerId {
        self.controller.store().shown().expect("a source is shown").server.id
    }

    fn tracks(&self) -> Vec<Track> {
        self.controller.store().library(&self.server_id()).tracks
    }

    fn queue(&self) -> QueueSnapshot {
        self.controller.queue_snapshot().expect("queue")
    }
}

#[allow(dead_code)]
fn fake_stream(track_id: &TrackId) -> StreamDescriptor {
    let uri = format!("fake://local/stream/{}", track_id.value);
    StreamDescriptor { redacted_uri: uri.clone(), uri }
}

#[allow(dead_code)]
fn saved(id: &str, provider: &str) -> SavedServer {
    SavedServer {
        server: ServerIdentity {
            id: ServerId { value: text(id) },
            provider: text(provider),
            name: text("Test Server"),
            base_url: text("https://music.example"),
        },
        user_id: text("user"),
        username: text("demo"),
        trust_invalid_cert: false,
    }
}

/// A store with one source of many albums and tracks, whose library was read.
#[allow(dead_code)]
fn fake_store() -> Store {
    let mut store = open_memory();
    let server = saved("fake:server:1", "fake");
    let id = server.server.id.clone();
    let albums = (1..=8)
        .map(|number: u32| Album {
            id: fake_album_id(number),
            title: format!("Album {number}"),
            artist: format!("Artist {}", number % 4),
            artist_id: Some(fake_artist_id(number % 4)),
            ..blank_album()
        })
        .collect::<Vec<_>>();
    let tracks = (1..=40)
        .map(|number: u32| Track {
            id: fake_track_id(number),
            album_id: fake_album_id(1 + number % 8),
            title: format!("Track {number}"),
            artist: format!("Artist {}", number % 4),
            artist_id: Some(fake_artist_id(number % 4)),
            album: format!("Album {}", 1 + number % 8),
            duration_seconds: 180 + number,
            favorite: number % 5 == 1,
            genres: vec![text(if number % 2 == 0 { "Rock" } else { "Jazz" })],
            ..blank_track()
        })
        .collect::<Vec<_>>();
    store.save_server(&server).expect("save server");
    store.set_active_server(&id).expect("set active");
    let generation = store.begin_sync(&id).expect("begin sync");
    store.upsert_albums(&id, &albums).expect("albums");
    store.upsert_tracks(&id, &tracks).expect("tracks");
    store.complete_sync(&id, generation).expect("complete sync");
    store
}

#[allow(dead_code)]
fn restored_track() -> Track {
    Track {
        id: track_id("jellyfin:track:lyrics"),
        album_id: fake_album_id(1),
        title: text("Restored Track"),
        artist: text("Artist"),
        artist_id: Some(fake_artist_id(1)),
        album: text("Album"),
        year: 2026,
        duration_seconds: 180,
        ..blank_track()
    }
}

#[allow(dead_code)]
fn entry_track_ids(queue: &QueueSnapshot) -> Vec<TrackId> {
    queue.entries.iter().map(|entry| entry.track_id.clone()).collect()
}

#[allow(dead_code)]
fn current_track_id(queue: &QueueSnapshot) -> TrackId {
    queue.entries[queue.current_index.expect("current")].track_id.clone()
}

fn track(number: u32) -> Track {
    Track { id: fake_track_id(number), ..blank_track() }
}

fn tracks(count: u32) -> Vec<Track> {
    (1..=count).map(track).collect()
}

fn queue_of(count: u32) -> QueueEngine {
    let mut queue = QueueEngine::new(ServerId { value: text("server") });
    let _first = queue.play_now(&track(1));
    for number in 2..=count {
        let _added = queue.append(&track(number));
    }
    queue
}

fn playing(queue: &QueueEngine) -> TrackId {
    queue.current().expect("current").track_id
}

fn hit(id: u64, track_name: &str) -> LyricsSearchResult {
    LyricsSearchResult {
        id,
        track_name: text(track_name),
        artist_name: text("Artist"),
        album_name: String::new(),
        duration_seconds: 60,
        synced_lyrics: None,
        plain_lyrics: Some(text("line")),
    }
}

#[test]
fn kinds_of_server_are_found_by_their_ids() {
    for provider in [StreamingProvider::Jellyfin, StreamingProvider::Subsonic] {
        let id = provider.provider_id().to_string();
        assert_eq!(streaming_provider(&id), Some(provider));
        assert_eq!(provider_display_name(&id), provider.title());
    }
    assert_eq!(streaming_provider(&text("local")), None);
}

#[test]
fn shuffled_lists_hold_the_same_items() {
    let items = (0..50).map(|number| format!("{number}")).collect::<Vec<_>>();
    let shuffled = shuffle_items(&items, 11);
    assert_ne!(shuffled, items);
    assert_eq!(shuffle_items(&items, 11), shuffled);
    let mut sorted = shuffled.clone();
    sorted.sort();
    let mut expected = items.clone();
    expected.sort();
    assert_eq!(sorted, expected);
}

#[test]
fn tracks_that_are_added_by_themselves_are_new() {
    let mut current = blank_entry();
    current.track_id = fake_track_id(1);
    let queued = vec![fake_track_id(1).value, fake_track_id(2).value];
    let chosen = auto_dj_candidates(&tracks(10), &current, &queued, 3);
    assert!(!chosen.is_empty());
    assert!(chosen.iter().all(|track| !queued.contains(&track.id.value)));
}

#[test]
fn going_forth_and_back_leads_to_the_same_track() {
    let mut queue = queue_of(3);
    assert!(queue.next_track());
    assert_eq!(playing(&queue), fake_track_id(2));
    assert!(queue.previous_track());
    assert_eq!(playing(&queue), fake_track_id(1));
}

#[test]
fn the_last_track_is_followed_by_the_first() {
    let mut queue = queue_of(2);
    queue.set_repeat_mode(RepeatMode::All);
    assert!(queue.next_track());
    assert!(queue.next_track());
    assert_eq!(playing(&queue), fake_track_id(1));
}

#[test]
fn an_entry_that_was_added_can_be_removed() {
    let mut queue = queue_of(3);
    let before = queue.entries().clone();
    let added = queue.append(&track(9));
    assert_eq!(queue.entries().len(), 4);
    assert!(queue.remove(&added));
    assert_eq!(queue.entries(), &before);
    assert!(!queue.remove(&added));
}

#[test]
fn a_saved_queue_comes_back_as_it_was() {
    let mut queue = queue_of(5);
    queue.set_shuffle(true, 5);
    queue.set_progress_seconds(12);
    let snapshot = queue.snapshot();
    assert_eq!(QueueEngine::from_snapshot(snapshot.clone()).snapshot(), snapshot);
}

#[test]
fn moving_and_removing_keep_the_other_entries() {
    let id = PlaylistId { value: text("list") };
    let entries = playlist_entries_for_tracks(&id, 7, &tracks(4));
    let moved_id = entries[3].entry_id.clone();
    let mut moved = entries.clone();
    move_entry(&mut moved, &moved_id, 1);
    assert_eq!(find_entry(&moved, &moved_id), 1);
    let others = |list: &Vec<PlaylistEntry>| {
        list.iter().filter(|entry| entry.entry_id != moved_id).cloned().collect::<Vec<_>>()
    };
    assert_eq!(others(&moved), others(&entries));
    let removed = remove_entry(&entries, &moved_id);
    assert_eq!(removed, others(&entries));
}

#[test]
fn only_what_changed_is_asked_of_a_server() {
    let id = PlaylistId { value: text("list") };
    let entries = playlist_entries_for_tracks(&id, 7, &tracks(3));
    let nothing = playlist_mutation(&id, &entries, &entries);
    assert!(nothing.removed.is_empty() && nothing.added.is_empty() && nothing.moved.is_empty());
    let mut after = entries.clone();
    after.swap(0, 2);
    let mutation = playlist_mutation(&id, &entries, &after);
    assert!(mutation.removed.is_empty() && mutation.added.is_empty());
    assert_eq!(mutation.moved.len(), 2);
    assert_eq!(mutation.moved[0].new_index, 0);
}

#[test]
fn no_lyrics_are_asked_for_twice() {
    let urls = lrclib_search_urls("Name", "Name").expect("urls");
    for (place, url) in urls.iter().enumerate() {
        assert!(!urls[..place].contains(url));
    }
    let merged = merge_search_batches(
        &vec![Ok(vec![hit(1, "A"), hit(2, "B")]), Err(text("offline")), Ok(vec![hit(1, "A")])],
        "Artist",
        "B",
    )
    .expect("hits");
    assert_eq!(merged.iter().map(|hit| hit.id).collect::<Vec<_>>(), vec![2, 1]);
    assert_eq!(
        merge_search_batches(&vec![Err(text("one")), Err(text("two"))], "Artist", "B"),
        Err(text("one; two"))
    );
}

#[test]
fn ordered_lyrics_hold_the_same_hits() {
    let mut results = vec![hit(1, "Other"), hit(2, "Wanted"), hit(3, "Wanted Too")];
    order_lrclib_results(&mut results, "Artist", "Wanted");
    let mut ids = results.iter().map(|hit| hit.id).collect::<Vec<_>>();
    assert_eq!(ids[0], 2);
    ids.sort();
    assert_eq!(ids, vec![1, 2, 3]);
}

#[test]
fn waveforms_are_drawn_once_at_a_time() {
    let mut permits = WaveformPermits::new();
    let permit = permits
        .acquire_waveform_generation_permit("key", WaveformGenerationKind::Foreground)
        .expect("permit");
    assert!(permits
        .acquire_waveform_generation_permit("key", WaveformGenerationKind::Foreground)
        .is_none());
    assert!(permits
        .acquire_waveform_generation_permit("key", WaveformGenerationKind::Warm)
        .is_some());
    permits.release(permit);
    assert!(permits
        .acquire_waveform_generation_permit("key", WaveformGenerationKind::Foreground)
        .is_some());
}

#[test]
fn waveforms_of_different_tracks_have_different_keys() {
    let server_id = ServerId { value: text("server") };
    let first = waveform_cache_key(&server_id, &track_id("one"), 60);
    assert_ne!(first, waveform_cache_key(&server_id, &track_id("two"), 60));
    assert_ne!(first, waveform_cache_key(&server_id, &track_id("one"), 61));
}

#[test]
fn sets_of_keys_hold_each_once() {
    let mut keys = KeySet::new();
    assert!(keys.insert("one"));
    assert!(!keys.insert("one"));
    assert!(keys.contains("one"));
    assert!(keys.remove("one"));
    assert!(!keys.contains("one"));
    assert!(!keys.remove("one"));
}

#[test]
fn edits_of_a_server_stay_with_it() {
    let server = saved("jellyfin:server:one", "jellyfin");
    let update = prepare_server_settings_update(
        server.clone(),
        ServerSettingsInput {
            server_id: server.server.id.clone(),
            name: text("Renamed"),
            base_url: server.server.base_url.clone(),
            username: server.username.clone(),
            password: String::new(),
            trust_invalid_cert: true,
        },
    )
    .expect("update")
    .expect("update");
    assert!(update.reauth.is_none());
    let next = next_saved_server(&update, &None);
    assert_eq!(next.server.id, server.server.id);
    assert_eq!(next.server.provider, server.server.provider);
    assert_eq!(next.user_id, server.user_id);
    assert_eq!(next.server.name, "Renamed");
    let session = rufin::model::source::ProviderSession {
        server: server.server.clone(),
        user_id: server.user_id.clone(),
        username: server.username.clone(),
        access_token: text("token"),
        device_id: None,
    };
    assert!(!authenticated_identity_changed(&server, &session));
}

#[test]
fn tokens_and_libraries_are_read_back() {
    let mut tokens = no_tokens();
    let one = ServerId { value: text("one") };
    let two = ServerId { value: text("two") };
    tokens.save_token(&one, "first").expect("save token");
    tokens.save_token(&two, "second").expect("save token");
    tokens.save_token(&one, "third").expect("save token");
    assert_eq!(tokens.load_token(&one), Ok(Some(text("third"))));
    assert_eq!(tokens.load_token(&two), Ok(Some(text("second"))));
    tokens.delete_token(&one).expect("delete token");
    assert_eq!(tokens.load_token(&one), Ok(None));
    assert_eq!(tokens.load_token(&two), Ok(Some(text("second"))));

    let mut store = open_memory();
    store.upsert_tracks(&one, &tracks(2)).expect("tracks");
    store.upsert_tracks(&two, &tracks(3)).expect("tracks");
    assert_eq!(store.library(&one).tracks, tracks(2));
    assert_eq!(store.library(&two).tracks, tracks(3));
}

#[test]
fn rows_are_told_apart_by_their_keys() {
    let mut store = open_memory();
    let one = ServerId { value: text("one") };
    let two = ServerId { value: text("two") };
    assert!(store.is_consistent());
    store.save_server(&saved("one", "jellyfin")).expect("save server");
    store.save_server(&saved("one", "navidrome")).expect("save server");
    store.save_server(&saved("two", "jellyfin")).expect("save server");
    store.upsert_tracks(&one, &tracks(2)).expect("tracks");
    store.upsert_tracks(&one, &tracks(3)).expect("tracks");
    store.upsert_tracks(&two, &tracks(2)).expect("tracks");
    assert!(store.is_consistent());
    assert_eq!(store.list_servers().expect("servers").len(), 2);
    store.forget_server(&one).expect("forget");
    assert_eq!(store.saved_server(&one), Ok(None));
    assert!(store.library(&one).tracks.is_empty());
    assert_eq!(store.library(&two).tracks, tracks(2));
    assert!(store.is_consistent());
    let again = store.servers[0].clone();
    store.servers.push(again);
    assert!(!store.is_consistent());
    let _twice = store.servers.pop();
    store.libraries[0].tracks.push(tracks(1)[0].clone());
    assert!(!store.is_consistent());

    let mut tokens = no_tokens();
    tokens.save_token(&one, "first").expect("save token");
    tokens.save_token(&one, "second").expect("save token");
    assert!(tokens.is_consistent());
    tokens.load_fault = Some(text("keyring is locked"));
    assert_eq!(tokens.load_token(&one), Err(text("keyring is locked")));
}

#[test]
fn white_space_is_cut_off_at_both_ends() {
    for space in ['\t', '\r', ' ', '\u{85}', '\u{a0}', '\u{1680}', '\u{200a}', '\u{2028}',
        '\u{202f}', '\u{205f}', '\u{3000}'] {
        assert_eq!(rufin::text::trim(&format!("{space}a{space}b{space}")), format!("a{space}b"));
    }
    for other in ['\u{8}', '\u{e}', '\u{200b}', '\u{180e}', '\u{feff}', '_'] {
        let kept = format!("{other}a{other}");
        assert_eq!(rufin::text::trim(&kept), kept);
    }
}
