//! Playing: the queue, the player and what they tell.

use rufin::controller::AppController;
use rufin::model::events::{ControllerEvent, Effect, FavoriteItemId};
use rufin::model::ids::{AlbumId, ArtistId, PlaylistId, QueueEntryId, ServerId, TrackId};
use rufin::model::library::{Album, Artist, ImageRef, Track};
use rufin::model::lyrics::Lyrics;
use rufin::model::playback::{
    PlaybackCommand, PlaybackEvent, PlaybackSnapshot, PlaybackState, StreamDescriptor,
};
use rufin::model::queue::{QueueEntry, QueueSnapshot};
use rufin::model::settings::AppSettings;
use rufin::model::snapshot::LibrarySnapshot;
use rufin::model::source::{SavedServer, ServerIdentity};
use rufin::model::store::Store;
use rufin::store::{no_tokens, open_memory};
use rufin::auto_dj::{auto_dj_candidates, AUTO_DJ_ITEM_COUNT};
use rufin::model::events::{RandomPlayAction, RandomPlayRequest};
use rufin::model::playback::PlaybackTrack;
use rufin::model::queue::{RepeatMode, ShuffleState};
use rufin::model::settings::{PlaybackSettings, Volume};
use rufin::queue::QueueEngine;
use rufin::shuffle::{advance_seed, shuffle_items};
use std::collections::HashSet;

#[allow(dead_code)]
fn text(value: &str) -> String {
    value.to_string()
}

#[allow(dead_code)]
fn track_id(value: &str) -> TrackId {
    TrackId { value: text(value) }
}

#[allow(dead_code)]
fn album_id(value: &str) -> AlbumId {
    AlbumId { value: text(value) }
}

#[allow(dead_code)]
fn artist_id(value: &str) -> ArtistId {
    ArtistId { value: text(value) }
}

#[allow(dead_code)]
fn fake_track_id(number: u32) -> TrackId {
    TrackId { value: format!("fake:track:{number}") }
}

#[allow(dead_code)]
fn fake_album_id(number: u32) -> AlbumId {
    AlbumId { value: format!("fake:album:{number}") }
}

#[allow(dead_code)]
fn fake_artist_id(number: u32) -> ArtistId {
    ArtistId { value: format!("fake:artist:{number}") }
}

#[allow(dead_code)]
fn image(item_id: &str, tag: Option<&str>) -> ImageRef {
    ImageRef { item_id: text(item_id), tag: tag.map(text) }
}

#[allow(dead_code)]
fn external_settings() -> AppSettings {
    AppSettings { external_metadata_enabled: true, ..AppSettings::default() }
}

#[allow(dead_code)]
fn blank_track() -> Track {
    Track {
        id: track_id("track-one"),
        album_id: album_id("album-one"),
        title: text("Track"),
        artist: text("Artist"),
        artist_id: None,
        artist_credits: Vec::new(),
        album_artist_credits: Vec::new(),
        album: text("Album"),
        year: 2011,
        release_date: None,
        date_added: None,
        last_played: None,
        play_count: None,
        user_rating: None,
        duration_seconds: 60,
        favorite: false,
        disc_number: 1,
        track_number: 1,
        image_ref: None,
        genres: Vec::new(),
        musicbrainz_recording_id: None,
        musicbrainz_release_track_id: None,
        local_path: None,
        source_format: None,
        comment: None,
        skip_count: None,
        from_cue: false,
    }
}

#[allow(dead_code)]
fn blank_album() -> Album {
    Album {
        id: album_id("album-one"),
        title: text("Album"),
        artist: text("Artist"),
        artist_id: None,
        album_artist_credits: Vec::new(),
        artist_credits: Vec::new(),
        year: 2011,
        release_date: None,
        date_added: None,
        last_played: None,
        play_count: None,
        user_rating: None,
        track_count: 1,
        duration_seconds: 60,
        favorite: false,
        color_seed: 1,
        image_ref: None,
        genres: Vec::new(),
        release_types: Vec::new(),
        is_compilation: None,
        musicbrainz_album_id: None,
        musicbrainz_release_group_id: None,
    }
}

#[allow(dead_code)]
fn blank_artist(id: &str, name: &str) -> Artist {
    Artist {
        id: artist_id(id),
        name: text(name),
        album_count: 1,
        track_count: 1,
        favorite: false,
        last_played: None,
        play_count: None,
        user_rating: None,
        image_ref: None,
    }
}

#[allow(dead_code)]
fn blank_entry() -> QueueEntry {
    QueueEntry {
        id: QueueEntryId { value: text("entry-one") },
        track_id: track_id("track-one"),
        album_id: Some(album_id("album-one")),
        title: text("Track"),
        artist: text("Artist"),
        artist_id: None,
        album: text("Album"),
        year: 2011,
        duration_seconds: 60,
        favorite: false,
        image_ref: None,
        local_path: None,
        source_format: None,
        origin: None,
    }
}
/// Where the random sequence of a [`World`] begins.
#[allow(dead_code)]
const RANDOM_SEED: u64 = 7;


/// A controller with a player and servers that answer at once.
#[allow(dead_code)]
struct World {
    controller: AppController,
    events: Vec<ControllerEvent>,
    commands: Vec<PlaybackCommand>,
    effects: Vec<Effect>,
    pending: Vec<PlaybackEvent>,
    /// What the player refuses everything with, where it does.
    refusal: Option<String>,
}

#[allow(dead_code)]
impl World {
    fn over(store: Store) -> World {
        let begun = AppController::bootstrap(store, no_tokens(), RANDOM_SEED, false, None);
        World {
            controller: begun.controller,
            events: Vec::new(),
            commands: Vec::new(),
            effects: Vec::new(),
            pending: Vec::new(),
            refusal: None,
        }
    }

    fn fake() -> World {
        World::over(fake_store())
    }

    /// Answers what is asked for, until nothing more is.
    fn settle(&mut self) {
        loop {
            self.events.extend(self.controller.drain_events());
            let effects = self.controller.drain_effects();
            if effects.is_empty() {
                return;
            }
            for effect in effects {
                self.answer(effect);
            }
        }
    }

    fn answer(&mut self, effect: Effect) {
        self.effects.push(effect.clone());
        let controller = &mut self.controller;
        match effect {
            Effect::Playback(command) => {
                self.commands.push(command.clone());
                match self.refusal.clone() {
                    Some(error) => controller.command_rejected(command, error),
                    None => controller.command_accepted(command),
                }
            }
            Effect::PlayStream { request, stream, command } => {
                self.commands.push(command.clone());
                match self.refusal.clone() {
                    Some(error) => controller.command_rejected(command, error),
                    None => {
                        self.pending.push(PlaybackEvent::StateChanged(PlaybackState::Playing));
                        controller.current_stream_accepted(&request, stream);
                    }
                }
            }
            Effect::StopPlayer => self.commands.push(PlaybackCommand::Stop),
            Effect::ResolveCurrent(request) => {
                let stream = fake_stream(&request.entry.track_id);
                controller.current_stream_resolved(request, stream);
            }
            Effect::ResolveNext(request) => {
                let stream = fake_stream(&request.next_entry.track_id);
                let _sent = controller.next_stream_resolved(&request, stream);
            }
            Effect::TopUpQueue => controller.top_up_queue(),
            Effect::PersistQueue { generation, snapshot } => {
                controller.persist_queue_now(generation, &snapshot)
            }
            Effect::ReadSidecarLyrics { server_id, entry, use_cache, search, providers, .. } => {
                controller.sidecar_lyrics_read(
                    &server_id,
                    &entry,
                    use_cache,
                    search,
                    &providers,
                    &None,
                )
            }
            Effect::FetchServerLyrics { saved, entry, search, providers } => {
                controller.server_lyrics_missing(
                    &saved.server.id,
                    &entry,
                    search,
                    &providers,
                    None,
                )
            }
            Effect::FetchExternalLyrics { server_id, server_error, .. } => {
                controller.external_lyrics_fetched(&server_id, None, server_error)
            }
            Effect::MatchLocalTracks { server_id, .. } => {
                controller.local_tracks_read(&server_id, &None)
            }
            Effect::ClearDiskCovers { server_id, next } => {
                controller.disk_covers_cleared(&server_id, next)
            }
            _ => {}
        }
    }

    /// Lets the player tell what it has to.
    fn poll(&mut self) {
        self.settle();
        let events = std::mem::take(&mut self.pending);
        self.controller.poll_playback_events(events);
        self.settle();
    }

    fn poll_with(&mut self, events: Vec<PlaybackEvent>) {
        self.controller.poll_playback_events(events);
        self.settle();
    }

    /// The first of the events not looked at yet that is wanted; those before it are dropped.
    fn wait<T>(&mut self, mut wanted: impl FnMut(&ControllerEvent) -> Option<T>) -> T {
        self.settle();
        while !self.events.is_empty() {
            let event = self.events.remove(0);
            if let Some(found) = wanted(&event) {
                return found;
            }
        }
        panic!("no such event");
    }

    fn wait_for_queue(&mut self) -> QueueSnapshot {
        self.wait(|event| match event {
            ControllerEvent::Queue(Some(queue)) => Some(queue.clone()),
            _ => None,
        })
    }

    fn wait_for_snapshot(&mut self) -> LibrarySnapshot {
        self.wait(|event| match event {
            ControllerEvent::Snapshot(snapshot) => Some(snapshot.clone()),
            _ => None,
        })
    }

    fn wait_for_status(&mut self) -> String {
        self.wait(|event| match event {
            ControllerEvent::LoginStatus(status) => Some(status.clone()),
            _ => None,
        })
    }

    fn wait_for_error(&mut self) -> String {
        self.wait(|event| match event {
            ControllerEvent::Error(error) => Some(error.clone()),
            _ => None,
        })
    }

    fn wait_for_lyrics(&mut self) -> Option<Lyrics> {
        self.wait(|event| match event {
            ControllerEvent::Lyrics(lyrics) => Some(lyrics.clone()),
            _ => None,
        })
    }

    fn wait_for_player(&mut self, wanted: impl Fn(&PlaybackSnapshot) -> bool) -> PlaybackSnapshot {
        self.wait(|event| match event {
            ControllerEvent::Playback(player) if wanted(player) => Some(player.clone()),
            _ => None,
        })
    }

    fn wait_for_state(&mut self, state: PlaybackState) -> PlaybackSnapshot {
        self.poll();
        self.wait_for_player(|player| player.state == state)
    }

    fn wait_for_position(&mut self, millis: u64) -> PlaybackSnapshot {
        self.wait_for_player(|player| player.position_millis == millis)
    }

    fn wait_for_favorite(&mut self) -> (FavoriteItemId, bool, LibrarySnapshot) {
        self.wait(|event| match event {
            ControllerEvent::FavoriteChanged { item_id, favorite, snapshot } => {
                Some((item_id.clone(), *favorite, snapshot.clone()))
            }
            _ => None,
        })
    }

    fn wait_for_playlist(&mut self) -> (PlaylistId, LibrarySnapshot) {
        self.wait(|event| match event {
            ControllerEvent::PlaylistChanged { playlist_id, snapshot } => {
                Some((playlist_id.clone(), snapshot.clone()))
            }
            _ => None,
        })
    }

    fn server_id(&self) -> ServerId {
        self.controller.store().shown().expect("a source is shown").server.id
    }

    fn tracks(&self) -> Vec<Track> {
        self.controller.store().library(&self.server_id()).tracks
    }

    fn queue(&self) -> QueueSnapshot {
        self.controller.queue_snapshot().expect("queue")
    }
}

#[allow(dead_code)]
fn fake_stream(track_id: &TrackId) -> StreamDescriptor {
    let uri = format!("fake://local/stream/{}", track_id.value);
    StreamDescriptor { redacted_uri: uri.clone(), uri }
}

#[allow(dead_code)]
fn saved(id: &str, provider: &str) -> SavedServer {
    SavedServer {
        server: ServerIdentity {
            id: ServerId { value: text(id) },
            provider: text(provider),
            name: text("Test Server"),
            base_url: text("https://music.example"),
        },
        user_id: text("user"),
        username: text("demo"),
        trust_invalid_cert: false,
    }
}

/// A store with one source of many albums and tracks, whose library was read.
#[allow(dead_code)]
fn fake_store() -> Store {
    let mut store = open_memory();
    let server = saved("fake:server:1", "fake");
    let id = server.server.id.clone();
    let albums = (1..=8)
        .map(|number: u32| Album {
            id: fake_album_id(number),
            title: format!("Album {number}"),
            artist: format!("Artist {}", number % 4),
            artist_id: Some(fake_artist_id(number % 4)),
            ..blank_album()
        })
        .collect::<Vec<_>>();
    let tracks = (1..=40)
        .map(|number: u32| Track {
            id: fake_track_id(number),
            album_id: fake_album_id(1 + number % 8),
            title: format!("Track {number}"),
            artist: format!("Artist {}", number % 4),
            artist_id: Some(fake_artist_id(number % 4)),
            album: format!("Album {}", 1 + number % 8),
            duration_seconds: 180 + number,
            favorite: number % 5 == 1,
            genres: vec![text(if number % 2 == 0 { "Rock" } else { "Jazz" })],
            ..blank_track()
        })
        .collect::<Vec<_>>();
    store.save_server(&server).expect("save server");
    store.set_active_server(&id).expect("set active");
    let generation = store.begin_sync(&id).expect("begin sync");
    store.upsert_albums(&id, &albums).expect("albums");
    store.upsert_tracks(&id, &tracks).expect("tracks");
    store.complete_sync(&id, generation).expect("complete sync");
    store
}

#[allow(dead_code)]
fn restored_track() -> Track {
    Track {
        id: track_id("jellyfin:track:lyrics"),
        album_id: fake_album_id(1),
        title: text("Restored Track"),
        artist: text("Artist"),
        artist_id: Some(fake_artist_id(1)),
        album: text("Album"),
        year: 2026,
        duration_seconds: 180,
        ..blank_track()
    }
}

#[allow(dead_code)]
fn entry_track_ids(queue: &QueueSnapshot) -> Vec<TrackId> {
    queue.entries.iter().map(|entry| entry.track_id.clone()).collect()
}

#[allow(dead_code)]
fn current_track_id(queue: &QueueSnapshot) -> TrackId {
    queue.entries[queue.current_index.expect("current")].track_id.clone()
}

/// The tracks that a random play draws next.
fn random_track_ids(world: &World, count: usize) -> Vec<TrackId> {
    let seed = advance_seed(RANDOM_SEED);
    shuffle_items(&world.tracks(), seed)
        .into_iter()
        .take(count)
        .map(|track| track.id)
        .collect()
}

fn random_request(action: RandomPlayAction, count: usize) -> RandomPlayRequest {
    RandomPlayRequest { action, count }
}

fn is_play(command: &PlaybackCommand) -> bool {
    matches!(command, PlaybackCommand::PlayPrepared { .. })
}

fn prepared_next(commands: &[PlaybackCommand]) -> Option<TrackId> {
    commands.iter().rev().find_map(|command| match command {
        PlaybackCommand::PrepareNext(Some(item)) => Some(item.track.id.clone()),
        _ => None,
    })
}

#[test]
fn play_now_starts_fake_playback_and_persists_queue() {
    let mut world = World::fake();
    let track = world.tracks()[0].clone();
    world.controller.play_now(track.clone());
    let queue = world.wait_for_queue();
    assert_eq!(queue.entries.len(), 1 + AUTO_DJ_ITEM_COUNT);
    assert_eq!(queue.entries[0].track_id, track.id);
    let player = world.wait_for_state(PlaybackState::Playing);
    assert_eq!(player.current.expect("current").track_id, queue.entries[0].track_id);
    let kept = world
        .controller
        .store()
        .load_queue_snapshot(&queue.server_id)
        .expect("store")
        .expect("snapshot");
    assert_eq!(kept.entries.len(), 1 + AUTO_DJ_ITEM_COUNT);
}

#[test]
fn play_tracks_starts_current_before_preparing_next_stream() {
    let mut world = World::fake();
    let tracks = world.tracks();
    let (first, second) = (tracks[0].clone(), tracks[1].clone());
    world.controller.play_tracks_now(vec![first.clone(), second.clone()]);
    world.settle();
    let play = world.commands.iter().position(is_play).expect("play command");
    match &world.commands[play] {
        PlaybackCommand::PlayPrepared { item, next, .. } => {
            assert_eq!(item.track.id, first.id);
            assert!(next.is_none());
        }
        _ => panic!("expected prepared play command"),
    }
    assert_eq!(prepared_next(&world.commands[play..]), Some(second.id));
}

#[test]
fn local_access_changes_reprepare_next_stream_for_backend() {
    let mut world = World::fake();
    let server_id = world.server_id();
    let tracks = world.tracks();
    let second = tracks[1].clone();
    world.controller.play_tracks_now(vec![tracks[0].clone(), second.clone()]);
    world.settle();
    assert!(world.commands.iter().any(is_play));
    assert!(prepared_next(&world.commands).is_some());
    world.commands.clear();
    world.controller.save_server_local_access(
        &server_id,
        &text("/home/me/Music"),
        &Some(text("/server/music")),
        &Some(text("/home/me/Music")),
    );
    world.settle();
    assert_eq!(prepared_next(&world.commands), Some(second.id.clone()));
    world.commands.clear();
    world.controller.clear_server_local_access(&server_id);
    world.settle();
    assert_eq!(prepared_next(&world.commands), Some(second.id));
}

#[test]
fn prepared_next_send_rejects_stale_duplicate_track_entry() {
    let mut store = fake_store();
    let server_id = store.shown().expect("source").server.id;
    let tracks = store.library(&server_id).tracks;
    let mut engine = QueueEngine::new(server_id);
    engine.play_now(&tracks[0]);
    let initial_next_entry_id = engine.append(&tracks[1]);
    let replacement_next_entry_id = engine.append(&tracks[1]);
    store.save_queue_snapshot(&engine.snapshot()).expect("save queue");
    let mut world = World::over(store);
    world.controller.prepare_next_stream();
    let request = world
        .controller
        .drain_effects()
        .into_iter()
        .find_map(|effect| match effect {
            Effect::ResolveNext(request) => Some(request),
            _ => None,
        })
        .expect("request");
    assert_eq!(request.next_entry.id, initial_next_entry_id);
    world.controller.move_queue_entry_after_current(&replacement_next_entry_id);
    let _effects = world.controller.drain_effects();
    let queue = world.queue();
    let current = queue.current_index.expect("current");
    assert_eq!(queue.entries[current].id, request.current_entry_id);
    let next = &queue.entries[current + 1];
    assert_eq!(next.track_id, request.next_entry.track_id);
    assert_ne!(next.id, request.next_entry.id);
    let stream = fake_stream(&request.next_entry.track_id);
    assert!(!world.controller.next_stream_resolved(&request, stream));
    assert!(world.controller.drain_effects().is_empty());
}

/// A world in which the first track is being started, by the first request for a stream.
fn starting_world() -> (World, ServerId, QueueEntry) {
    let mut store = fake_store();
    let server_id = store.shown().expect("source").server.id;
    let mut engine = QueueEngine::new(server_id.clone());
    engine.play_now(&store.library(&server_id).tracks[0]);
    let entry = engine.current().expect("current");
    store.save_queue_snapshot(&engine.snapshot()).expect("save queue");
    let mut world = World::over(store);
    world.controller.play_pause();
    (world, server_id, entry)
}

#[test]
fn current_playback_request_rejects_stale_source_switch() {
    let (mut world, server_id, entry) = starting_world();

    assert!(world.controller.current_playback_request_matches_generation(1, &server_id, &entry));

    world.controller.reset_queue(&ServerId { value: text("server:other") });
    assert!(!world.controller.current_playback_request_matches_generation(1, &server_id, &entry));
}

#[test]
fn current_playback_request_rejects_replaced_duplicate_track_entry() {
    let (mut world, server_id, stale_entry) = starting_world();
    let track = world.tracks()[0].clone();
    assert_eq!(track.id, stale_entry.track_id);
    assert!(world
        .controller
        .current_playback_request_matches_generation(1, &server_id, &stale_entry));
    world.controller.play_now(track);

    assert!(!world
        .controller
        .current_playback_request_matches_generation(1, &server_id, &stale_entry));
}

#[test]
fn activate_queue_entry_starts_selected_track() {
    let mut world = World::fake();
    let tracks = world.tracks();
    let second = tracks[1].clone();
    world.controller.play_tracks_now(vec![tracks[0].clone(), second.clone()]);
    let queue = world.wait_for_queue();
    let second_entry = queue
        .entries
        .iter()
        .find(|entry| entry.track_id == second.id)
        .expect("second entry")
        .id
        .clone();
    let _player = world.wait_for_state(PlaybackState::Playing);
    world.controller.activate_queue_entry(&second_entry);
    let queue = world.wait_for_queue();
    assert_eq!(queue.current_index, Some(1));
    let player = world.wait_for_state(PlaybackState::Playing);
    assert_eq!(player.current.expect("current").track_id, second.id);
}

#[test]
fn seek_millis_emits_exact_playback_position() {
    let mut world = World::fake();
    let track = world.tracks()[0].clone();
    world.controller.play_now(track);
    let _player = world.wait_for_state(PlaybackState::Playing);
    world.controller.seek_millis(12_345);
    let player = world.wait_for_position(12_345);
    assert_eq!(player.position_seconds, 12);
}

#[test]
fn playback_error_ignores_later_stale_positions() {
    let mut world = World::fake();
    let track = world.tracks()[0].clone();
    world.controller.play_now(track);
    let initial_position = world.wait_for_state(PlaybackState::Playing).position_millis;

    world.poll_with(vec![
        PlaybackEvent::Error(text("stream failed")),
        PlaybackEvent::PositionChanged { track_id: None, seconds: 42, millis: 42_000 },
    ]);

    let player = world.controller.playback_snapshot();
    assert_eq!(player.state, PlaybackState::Stopped);
    assert_eq!(player.last_error.as_deref(), Some("stream failed"));
    assert_eq!(player.position_millis, initial_position);
    assert_ne!(world.queue().progress_seconds, 42);
}

#[test]
fn next_previous_and_clear_keep_queue_and_player_synchronized() {
    let mut world = World::fake();
    let tracks = world.tracks();
    let (first, second) = (tracks[0].clone(), tracks[1].clone());
    world.controller.play_tracks_now(vec![first.clone(), second.clone()]);
    let _queue = world.wait_for_queue();
    world.controller.next_track();
    let queue = world.wait_for_queue();
    assert_eq!(current_track_id(&queue), second.id);
    world.controller.previous_track();
    let queue = world.wait_for_queue();
    assert_eq!(current_track_id(&queue), first.id);
    world.controller.clear_queue();
    let queue = world.wait_for_queue();
    assert!(queue.entries.is_empty());
}

#[test]
fn manual_next_at_queue_end_wraps_to_first_track() {
    let mut world = World::fake();
    let tracks = world.tracks();
    let (first, second) = (tracks[0].clone(), tracks[1].clone());
    world.controller.toggle_auto_dj();
    let _player = world.wait_for_player(|player| !player.auto_dj_enabled);
    world.controller.play_tracks_now(vec![first.clone(), second]);
    let _queue = world.wait_for_queue();
    world.controller.next_track();
    let _queue = world.wait_for_queue();
    world.controller.seek_millis(12_000);
    let _player = world.wait_for_position(12_000);
    world.controller.next_track();
    let player = world.wait_for_position(0);
    assert_eq!(player.current.expect("current").track_id, first.id);
    assert_ne!(player.state, PlaybackState::Stopped);
}

#[test]
fn manual_previous_after_ten_seconds_restarts_current_track() {
    let mut world = World::fake();
    let tracks = world.tracks();
    let second = tracks[1].clone();
    world.controller.play_tracks_now(vec![tracks[0].clone(), second.clone()]);
    let _queue = world.wait_for_queue();
    world.controller.next_track();
    let _queue = world.wait_for_queue();
    world.controller.seek_millis(11_000);
    let _player = world.wait_for_position(11_000);
    world.controller.previous_track();
    let player = world.wait_for_position(0);
    assert_eq!(player.current.expect("current").track_id, second.id);
}

#[test]
fn cycle_repeat_uses_all_one_off_order() {
    let mut world = World::fake();
    let track = world.tracks()[0].clone();
    world.controller.play_now(track);
    let _queue = world.wait_for_queue();
    world.controller.cycle_repeat();
    assert_eq!(world.wait_for_queue().repeat_mode, RepeatMode::One);
    world.controller.cycle_repeat();
    assert_eq!(world.wait_for_queue().repeat_mode, RepeatMode::Off);
    world.controller.cycle_repeat();
    assert_eq!(world.wait_for_queue().repeat_mode, RepeatMode::All);
}

#[test]
fn toggle_auto_dj_persists_and_emits_playback_state() {
    let mut world = World::fake();
    assert!(world.controller.playback_snapshot().auto_dj_enabled);
    world.controller.toggle_auto_dj();
    let player = world.wait_for_player(|player| !player.auto_dj_enabled);
    assert!(!player.auto_dj_enabled);
    assert!(!world.controller.load_settings().auto_dj_enabled);
}

#[test]
fn random_play_now_replaces_queue_and_starts_first_random_track() {
    let mut world = World::fake();
    let expected = random_track_ids(&world, 3);
    world.controller.play_random_tracks(random_request(RandomPlayAction::PlayNow, 3));
    let queue = world.wait_for_queue();
    assert_eq!(queue.current_index, Some(0));
    assert_eq!(entry_track_ids(&queue), expected);
}

#[test]
fn random_play_next_inserts_tracks_after_current() {
    let mut world = World::fake();
    let tracks = world.tracks();
    let (first, second) = (tracks[0].clone(), tracks[1].clone());
    world.controller.play_tracks_now(vec![first.clone(), second.clone()]);
    let _queue = world.wait_for_queue();
    let expected_random = random_track_ids(&world, 2);
    world.controller.play_random_tracks(random_request(RandomPlayAction::PlayNext, 2));
    let queue = world.wait_for_queue();
    let ids = entry_track_ids(&queue);
    assert_eq!(queue.current_index, Some(0));
    assert_eq!(ids[0], first.id);
    assert_eq!(&ids[1..3], expected_random.as_slice());
    assert_eq!(ids[3], second.id);
}

#[test]
fn random_add_last_appends_tracks_without_replacing_current() {
    let mut world = World::fake();
    let tracks = world.tracks();
    let (first, second) = (tracks[0].clone(), tracks[1].clone());
    world.controller.play_tracks_now(vec![first.clone(), second.clone()]);
    let _queue = world.wait_for_queue();
    let expected_random = random_track_ids(&world, 2);
    world.controller.play_random_tracks(random_request(RandomPlayAction::AddLast, 2));
    let queue = world.wait_for_queue();
    let ids = entry_track_ids(&queue);
    assert_eq!(queue.current_index, Some(0));
    assert_eq!(ids[0], first.id);
    assert_eq!(ids[1], second.id);
    assert_eq!(&ids[2..4], expected_random.as_slice());
}

#[test]
fn play_last_appends_tracks_without_replacing_current() {
    let mut world = World::fake();
    let tracks = world.tracks();
    world.controller.play_tracks_now(vec![tracks[0].clone(), tracks[1].clone()]);
    let _queue = world.wait_for_queue();
    world.controller.play_last(vec![tracks[2].clone(), tracks[3].clone()]);
    let queue = world.wait_for_queue();
    assert_eq!(queue.current_index, Some(0));
    let expected = tracks[..4].iter().map(|track| track.id.clone()).collect::<Vec<_>>();
    assert_eq!(entry_track_ids(&queue), expected);
}

#[test]
fn auto_dj_tops_up_low_queue_from_cached_library() {
    let mut world = World::fake();
    let first = world.tracks()[0].clone();
    world.controller.play_now(first.clone());
    let queue = world.wait_for_queue();
    assert_eq!(queue.entries.len(), 1 + AUTO_DJ_ITEM_COUNT);
    assert_eq!(queue.entries[0].track_id, first.id);
    let distinct = queue
        .entries
        .iter()
        .map(|entry| entry.track_id.value.clone())
        .collect::<HashSet<_>>();
    assert_eq!(distinct.len(), queue.entries.len());
}

#[test]
fn auto_dj_extends_queue_before_manual_next_at_end() {
    let mut world = World::fake();
    let tracks = world.tracks();
    let second = tracks[1].clone();
    world.controller.play_tracks_now(vec![tracks[0].clone(), second.clone()]);
    let _queue = world.wait_for_queue();
    world.controller.next_track();
    let queue = world.wait_for_queue();
    assert_eq!(current_track_id(&queue), second.id);
    world.controller.next_track();
    let queue = world.wait_for_queue();
    assert_eq!(queue.entries.len(), 2 + AUTO_DJ_ITEM_COUNT);
    assert_ne!(current_track_id(&queue), second.id);
}

fn library_track(number: u32, artist: u32, album: u32, name: &str, genre: &str) -> Track {
    Track {
        id: fake_track_id(number),
        album_id: fake_album_id(album),
        artist: text(name),
        artist_id: Some(fake_artist_id(artist)),
        genres: vec![text(genre)],
        ..blank_track()
    }
}

#[test]
fn auto_dj_candidates_prefer_related_tracks() {
    let current = library_track(1, 1, 1, "Artist", "Rock");
    let related = library_track(2, 1, 1, "Artist", "Rock");
    let genre_only = library_track(3, 2, 2, "Other", "Rock");
    let unrelated = library_track(4, 3, 3, "Other", "Jazz");
    let mut queue = QueueEngine::new(ServerId { value: text("fake:server:1") });
    queue.play_now(&current);
    let current_entry = queue.current().expect("current");
    let candidates = auto_dj_candidates(
        &vec![unrelated, current.clone(), genre_only, related.clone()],
        &current_entry,
        &vec![current.id.value.clone()],
        7,
    );
    assert_eq!(candidates[0].id, related.id);
    assert!(candidates.iter().all(|track| track.id != current.id));
}

#[test]
fn end_of_stream_repeat_one_restarts_current_track() {
    let mut world = World::fake();
    let tracks = world.tracks();
    let first = tracks[0].clone();
    world.controller.play_tracks_now(vec![first.clone(), tracks[1].clone()]);
    let _queue = world.wait_for_queue();
    world.controller.cycle_repeat();
    let _queue = world.wait_for_queue();
    world.controller.advance_after_end_of_stream();
    let queue = world.wait_for_queue();
    assert_eq!(current_track_id(&queue), first.id);
}

#[test]
fn end_of_stream_advances_queue() {
    let mut world = World::fake();
    let tracks = world.tracks();
    let second = tracks[1].clone();
    world.controller.play_tracks_now(vec![tracks[0].clone(), second.clone()]);
    let _queue = world.wait_for_queue();
    world.controller.advance_after_end_of_stream();
    let queue = world.wait_for_queue();
    assert_eq!(current_track_id(&queue), second.id);
}

fn late_timing(track: &Track) -> Vec<PlaybackEvent> {
    vec![
        PlaybackEvent::PositionChanged {
            track_id: Some(track.id.clone()),
            seconds: track.duration_seconds,
            millis: u64::from(track.duration_seconds) * 1_000,
        },
        PlaybackEvent::DurationChanged {
            track_id: Some(track.id.clone()),
            seconds: track.duration_seconds,
        },
    ]
}

#[test]
fn end_of_stream_ignores_late_old_track_timing_events() {
    let mut world = World::fake();
    let tracks = world.tracks();
    let (first, second) = (tracks[0].clone(), tracks[1].clone());
    world.controller.play_tracks_now(vec![first.clone(), second.clone()]);
    let _queue = world.wait_for_queue();
    let _player = world.wait_for_state(PlaybackState::Playing);
    let mut events = vec![
        PlaybackEvent::EndOfStream,
        PlaybackEvent::StateChanged(PlaybackState::Stopped),
    ];
    events.extend(late_timing(&first));

    world.controller.poll_playback_events(events);

    let player = world.controller.playback_snapshot().clone();
    assert_eq!(player.current.expect("current").track_id, second.id);
    assert_eq!(player.state, PlaybackState::Buffering);
    assert_eq!(player.position_seconds, 0);
    assert_eq!(player.position_millis, 0);
    assert_eq!(player.duration_seconds, second.duration_seconds);
    assert_eq!(world.queue().progress_seconds, 0);
}

#[test]
fn later_old_track_timing_does_not_overwrite_advanced_queue() {
    let mut world = World::fake();
    let tracks = world.tracks();
    let (first, second) = (tracks[0].clone(), tracks[1].clone());
    world.controller.play_tracks_now(vec![first.clone(), second.clone()]);
    let _queue = world.wait_for_queue();
    let _player = world.wait_for_state(PlaybackState::Playing);
    world.controller.advance_after_end_of_stream();
    let _queue = world.wait_for_queue();

    world.poll_with(late_timing(&first));

    let player = world.controller.playback_snapshot().clone();
    assert_eq!(player.current.expect("current").track_id, second.id);
    assert_eq!(player.position_seconds, 0);
    assert_eq!(player.position_millis, 0);
    assert_eq!(player.duration_seconds, second.duration_seconds);
}

#[test]
fn next_track_duration_before_prepared_boundary_is_ignored() {
    let mut world = World::fake();
    let tracks = world.tracks();
    let (first, second) = (tracks[0].clone(), tracks[1].clone());
    world.controller.play_tracks_now(vec![first.clone(), second.clone()]);
    let _queue = world.wait_for_queue();
    let _player = world.wait_for_state(PlaybackState::Playing);

    world.poll_with(vec![PlaybackEvent::DurationChanged {
        track_id: Some(second.id.clone()),
        seconds: second.duration_seconds,
    }]);

    let player = world.controller.playback_snapshot().clone();
    assert_eq!(player.current.expect("current").track_id, first.id);
    assert_eq!(player.duration_seconds, first.duration_seconds);
}

#[test]
fn prepared_track_started_advances_queue_without_restarting_playback() {
    let mut world = World::fake();
    let tracks = world.tracks();
    let (second, third) = (tracks[1].clone(), tracks[2].clone());
    world
        .controller
        .play_tracks_now(vec![tracks[0].clone(), second.clone(), third.clone()]);
    let _queue = world.wait_for_queue();
    assert!(world.commands.iter().any(is_play));
    assert_eq!(prepared_next(&world.commands), Some(second.id.clone()));
    world.commands.clear();
    world.controller.advance_after_prepared_track_started(&PlaybackTrack {
        id: second.id.clone(),
        title: second.title.clone(),
        artist: second.artist.clone(),
        album: second.album.clone(),
        duration_seconds: second.duration_seconds,
    });
    let queue = world.wait_for_queue();
    assert_eq!(current_track_id(&queue), second.id);
    let player = world.controller.playback_snapshot().clone();
    assert_eq!(player.state, PlaybackState::Playing);
    assert_eq!(player.current.expect("current").track_id, second.id);
    assert_eq!(player.position_seconds, 0);
    assert_eq!(player.position_millis, 0);
    assert_eq!(player.duration_seconds, second.duration_seconds);
    assert_eq!(prepared_next(&world.commands), Some(third.id));
    assert!(!world.commands.iter().any(is_play));
}

#[test]
fn late_streams_are_not_played() {
    let mut world = World::fake();
    let tracks = world.tracks();
    world.controller.play_now(tracks[0].clone());
    let request = world
        .controller
        .drain_effects()
        .into_iter()
        .find_map(|effect| match effect {
            Effect::ResolveCurrent(request) => Some(request),
            _ => None,
        })
        .expect("request");
    world.controller.play_now(tracks[1].clone());
    let _effects = world.controller.drain_effects();
    let _events = world.controller.drain_events();
    let stream = fake_stream(&request.entry.track_id);
    world.controller.current_stream_failed(&request, text("gone"));
    world.controller.current_stream_resolved(request, stream);
    assert!(world.controller.drain_effects().is_empty());
    assert!(world.controller.drain_events().is_empty());
}

#[test]
fn failed_streams_stop_the_player_with_the_error() {
    let mut world = World::fake();
    let track = world.tracks()[0].clone();
    world.controller.play_now(track);
    let request = world
        .controller
        .drain_effects()
        .into_iter()
        .find_map(|effect| match effect {
            Effect::ResolveCurrent(request) => Some(request),
            _ => None,
        })
        .expect("request");
    world.controller.current_stream_failed(&request, text("no stream"));
    assert_eq!(world.wait_for_error(), "no stream");
    let player = world.controller.playback_snapshot();
    assert_eq!(player.state, PlaybackState::Stopped);
    assert_eq!(player.last_error.as_deref(), Some("no stream"));
}

#[test]
fn nothing_is_reported_in_private_mode() {
    let mut store = fake_store();
    let mut settings = store.known_settings();
    settings.private_mode = true;
    store.save_settings(&settings).expect("save settings");
    let mut world = World::over(store);
    let track = world.tracks()[0].clone();
    world.controller.play_now(track);
    world.poll();
    world.controller.stop();
    world.settle();
    assert!(!world
        .effects
        .iter()
        .any(|effect| matches!(effect, Effect::Report { .. } | Effect::Scrobble { .. })));
}

#[test]
fn playing_is_reported_otherwise() {
    let mut world = World::fake();
    let track = world.tracks()[0].clone();
    world.controller.play_now(track);
    world.settle();
    assert!(world
        .effects
        .iter()
        .any(|effect| matches!(effect, Effect::Scrobble { .. })));
}

#[test]
fn deferred_queue_writes_save_only_the_last_queue() {
    let mut world = World::fake();
    world.controller =
        AppController::bootstrap(fake_store(), no_tokens(), RANDOM_SEED, true, None).controller;
    let tracks = world.tracks();
    world.controller.play_tracks_now(tracks[..3].to_vec());
    world.controller.cycle_repeat();
    let writes = world
        .controller
        .drain_effects()
        .into_iter()
        .filter_map(|effect| match effect {
            Effect::PersistQueue { generation, snapshot } => Some((generation, snapshot)),
            _ => None,
        })
        .collect::<Vec<_>>();
    assert!(writes.len() >= 2);
    let server_id = world.server_id();
    let (first_generation, first) = writes[0].clone();
    world.controller.persist_queue_now(first_generation, &first);
    assert_eq!(world.controller.store().load_queue_snapshot(&server_id), Ok(None));
    let (last_generation, last) = writes[writes.len() - 1].clone();
    world.controller.persist_queue_now(last_generation, &last);
    assert_eq!(world.controller.store().load_queue_snapshot(&server_id), Ok(Some(last)));
}

#[test]
fn saved_queues_come_back() {
    let tracks = World::fake().tracks();
    let mut queue = QueueEngine::new(ServerId { value: text("server") });
    queue.play_now(&tracks[0]);
    queue.append_all(&tracks[1..6].to_vec());
    queue.set_shuffle(true, 99);
    assert!(queue.next_track());
    queue.set_progress_seconds(31);
    let snapshot = queue.snapshot();
    let restored = QueueEngine::from_snapshot(snapshot.clone());
    let again = restored.snapshot();
    assert_eq!(again.current_index, snapshot.current_index);
    assert_eq!(again.shuffle_order, snapshot.shuffle_order);
    assert_eq!(again.shuffle, ShuffleState { enabled: true, seed: 99 });
    assert_eq!(again.progress_seconds, 31);
    assert_eq!(entry_track_ids(&again), entry_track_ids(&snapshot));
}

#[test]
fn shuffling_twice_restores_the_order() {
    let mut world = World::fake();
    let tracks = world.tracks();
    world.controller.play_tracks_now(tracks[..6].to_vec());
    let before = world.queue();
    world.controller.toggle_shuffle();
    let shuffled = world.queue();
    assert!(shuffled.shuffle.enabled);
    assert_eq!(entry_track_ids(&shuffled), entry_track_ids(&before));
    world.controller.toggle_shuffle();
    let after = world.queue();
    assert!(!after.shuffle.enabled);
    world.controller.next_track();
    assert_eq!(current_track_id(&world.queue()), tracks[1].id);
    assert_eq!(entry_track_ids(&after), entry_track_ids(&before));
}

#[test]
fn previous_leads_back_after_next() {
    let mut queue = QueueEngine::new(ServerId { value: text("server") });
    let tracks = World::fake().tracks();
    queue.play_now(&tracks[0]);
    queue.append_all(&tracks[1..4].to_vec());
    let before = queue.current().expect("current").id;
    assert!(queue.next_track());
    assert_ne!(queue.current().expect("current").id, before);
    assert!(queue.previous_track());
    assert_eq!(queue.current().expect("current").id, before);
}

#[test]
fn removing_and_moving_queue_entries() {
    let mut world = World::fake();
    let tracks = world.tracks();
    world.controller.play_tracks_now(tracks[..4].to_vec());
    let queue = world.wait_for_queue();
    let last = queue.entries[3].id.clone();
    world.controller.move_queue_entry_after_current(&last);
    assert_eq!(world.queue().entries[1].track_id, tracks[3].id);
    world.controller.remove_from_queue(&last);
    assert_eq!(world.queue().entries[1].track_id, tracks[1].id);
    world.controller.activate_queue_entry(&last);
    assert_eq!(world.wait_for_error(), "The selected queue entry was not found.");
    world.controller.play_last(Vec::new());
    assert_eq!(world.wait_for_error(), "No tracks are available to add to the queue.");
    world.controller.play_tracks_now(Vec::new());
    assert_eq!(world.wait_for_error(), "No tracks are available to play.");
}

#[test]
fn without_a_queue_nothing_is_played() {
    let mut world = World::over(open_memory());
    world.controller.next_track();
    assert_eq!(world.wait_for_error(), "No active queue is available.");
    world.controller.play_now(blank_track());
    assert_eq!(world.wait_for_error(), "No active queue is available.");
    world.controller.play_pause();
    assert_eq!(world.wait_for_error(), "Queue is empty.");
}

#[test]
fn albums_are_played_from_their_first_track() {
    let mut world = World::fake();
    world.controller.play_album_now(&fake_album_id(2));
    let queue = world.wait_for_queue();
    let expected = world
        .tracks()
        .into_iter()
        .filter(|track| track.album_id == fake_album_id(2))
        .map(|track| track.id)
        .collect::<Vec<_>>();
    assert_eq!(queue.current_index, Some(0));
    assert_eq!(entry_track_ids(&queue)[..expected.len()], expected[..]);
    world.controller.play_album_now(&fake_album_id(99));
    assert_eq!(world.wait_for_error(), "The selected cached album was not found.");
}

#[test]
fn pausing_and_volume_are_told_to_the_player() {
    let mut world = World::fake();
    let track = world.tracks()[0].clone();
    world.controller.play_now(track);
    world.poll();
    world.commands.clear();
    world.controller.play_pause();
    world.settle();
    assert_eq!(world.commands, vec![PlaybackCommand::Pause]);
    assert_eq!(world.controller.playback_snapshot().state, PlaybackState::Paused);
    world.controller.play_pause();
    world.settle();
    assert_eq!(world.controller.playback_snapshot().state, PlaybackState::Playing);
    world.commands.clear();
    let half = Volume { bits: 0.5f64.to_bits() };
    world.controller.set_volume(half.clone());
    world.controller.toggle_mute();
    world.settle();
    assert_eq!(
        world.commands,
        vec![PlaybackCommand::SetVolume(half.clone()), PlaybackCommand::SetMuted(true)]
    );
    let settings = world.controller.load_settings().playback;
    assert_eq!(settings.volume, half);
    assert!(settings.muted);
    let changed = PlaybackSettings { stream_quality: 2, ..PlaybackSettings::default() };
    world.controller.update_playback_settings(changed.clone());
    world.settle();
    assert_eq!(world.controller.load_settings().playback, changed);
    assert!(!world.controller.playback_snapshot().muted);
}

#[test]
fn the_player_that_is_missing_is_told_of() {
    let mut world = World::fake();
    world.refusal = Some(text("playback lock was poisoned"));
    world.controller.warm_playback_backend();
    assert_eq!(world.wait_for_error(), "playback lock was poisoned");
    world.refusal = None;
    world.commands.clear();
    world.controller.warm_playback_backend();
    world.settle();
    assert_eq!(
        world.commands,
        vec![PlaybackCommand::WarmUp(PlaybackSettings::default())]
    );
}

#[test]
fn what_the_player_refuses_changes_nothing() {
    let mut world = World::fake();
    let tracks = world.tracks();
    world.controller.play_tracks_now(vec![tracks[0].clone(), tracks[1].clone()]);
    world.poll();
    world.events.clear();
    let player = world.controller.playback_snapshot().clone();
    let settings = world.controller.load_settings();
    world.refusal = Some(text("no device"));
    world.controller.play_pause();
    world.settle();
    assert_eq!(world.events, vec![ControllerEvent::Error(text("no device"))]);
    assert_eq!(world.controller.playback_snapshot(), &player);
    world.events.clear();
    world.controller.set_volume(Volume { bits: 0.25f64.to_bits() });
    world.controller.toggle_mute();
    world.controller.seek_millis(12_345);
    world.controller.stop();
    world.settle();
    assert_eq!(world.events, vec![ControllerEvent::Error(text("no device")); 4]);
    assert_eq!(world.controller.playback_snapshot(), &player);
    assert_eq!(world.controller.load_settings(), settings);
}

#[test]
fn entries_that_the_player_refuses_leave_it_stopped() {
    let mut world = World::fake();
    let track = world.tracks()[0].clone();
    world.refusal = Some(text("no decoder"));
    world.controller.play_now(track);
    world.settle();
    assert_eq!(world.commands.iter().filter(|command| is_play(command)).count(), 1);
    assert!(world.pending.is_empty());
    assert_eq!(world.controller.playback_snapshot().state, PlaybackState::Stopped);
    assert_eq!(world.controller.playback_snapshot().last_error.as_deref(), Some("no decoder"));
    assert!(world.events.contains(&ControllerEvent::Error(text("no decoder"))));
}

#[test]
fn refused_settings_are_told_and_used_all_the_same() {
    let mut world = World::fake();
    world.refusal = Some(text("no device"));
    let changed = PlaybackSettings {
        volume: Volume { bits: 0.5f64.to_bits() },
        muted: true,
        ..PlaybackSettings::default()
    };
    world.controller.update_playback_settings(changed.clone());
    assert_eq!(world.wait_for_error(), "no device");
    let player = world.wait_for_player(|player| player.muted);
    assert_eq!(player.volume, changed.volume);
    assert_eq!(world.controller.load_settings().playback, changed);
}

#[test]
fn the_state_of_the_player_waits_for_its_answer() {
    let mut world = World::fake();
    let track = world.tracks()[0].clone();
    world.controller.play_now(track);
    world.poll();
    world.controller.play_pause();
    assert_eq!(world.controller.playback_snapshot().state, PlaybackState::Playing);
    world.settle();
    assert_eq!(world.controller.playback_snapshot().state, PlaybackState::Paused);
    world.controller.seek_millis(20_500);
    assert_eq!(world.controller.playback_snapshot().position_millis, 0);
    world.settle();
    assert_eq!(world.controller.playback_snapshot().position_millis, 20_500);
    assert_eq!(world.controller.playback_snapshot().position_seconds, 20);
    world.controller.stop();
    world.settle();
    assert_eq!(world.controller.playback_snapshot().state, PlaybackState::Stopped);
    assert_eq!(world.controller.playback_snapshot().position_millis, 0);
}

#[test]
fn favorite_toggles_update_fake_cache_and_current_player_snapshot() {
    let mut world = World::fake();
    let track = world
        .tracks()
        .into_iter()
        .find(|track| !track.favorite)
        .expect("non-favorite track");
    world.controller.play_now(track.clone());
    let _player = world.wait_for_state(PlaybackState::Playing);
    world.controller.toggle_current_favorite();
    let player = world.wait_for_player(|player| {
        player.current.as_ref().is_some_and(|current| current.favorite)
    });
    assert_eq!(player.current.expect("current").track_id, track.id);
    let (item_id, favorite, snapshot) = world.wait_for_favorite();
    assert_eq!(item_id, FavoriteItemId::Track(track.id.clone()));
    assert!(favorite);
    assert!(snapshot
        .tracks
        .iter()
        .find(|candidate| candidate.id == track.id)
        .expect("cached track")
        .favorite);
    assert!(snapshot.favorites.iter().any(|candidate| candidate.id == track.id));
}

#[test]
fn explicit_favorite_updates_can_unfavorite_persistent_controls() {
    let mut world = World::fake();
    let album = world
        .controller
        .store()
        .library(&world.server_id())
        .albums
        .into_iter()
        .find(|album| !album.favorite)
        .expect("non-favorite album");
    let shown = |snapshot: &LibrarySnapshot| {
        snapshot
            .albums
            .iter()
            .find(|candidate| candidate.id == album.id)
            .expect("cached album")
            .favorite
    };
    world.controller.set_album_favorite(album.id.clone(), true);
    let (item_id, favorite, snapshot) = world.wait_for_favorite();
    assert_eq!(item_id, FavoriteItemId::Album(album.id.clone()));
    assert!(favorite);
    assert!(shown(&snapshot));
    world.controller.set_album_favorite(album.id.clone(), false);
    let (item_id, favorite, snapshot) = world.wait_for_favorite();
    assert_eq!(item_id, FavoriteItemId::Album(album.id.clone()));
    assert!(!favorite);
    assert!(!shown(&snapshot));
}

#[test]
fn without_a_track_nothing_is_marked() {
    let mut world = World::fake();
    world.controller.toggle_current_favorite();
    assert_eq!(world.wait_for_error(), "No track is playing.");
    let mut world = World::over(open_memory());
    world.controller.set_artist_favorite(fake_artist_id(1), true);
    assert_eq!(world.wait_for_error(), "No active music server is saved.");
}
