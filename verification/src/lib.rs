//! The verified core of a music player's controller.

pub mod app_paths;
pub mod auto_dj;
pub mod bounded_read;
pub mod cached_reads;
pub mod controller;
pub mod cover_art_policy;
pub mod covers;
pub mod external_metadata;
pub mod home_sections;
pub mod key_set;
pub mod library_details;
pub mod library_sync;
pub mod local_access;
pub mod lyrics;
pub mod lyrics_search;
pub mod model;
pub mod play_activation;
pub mod playlists;
pub mod providers;
pub mod queue;
pub mod readiness;
pub mod search;
pub mod select;
pub mod server_settings;
pub mod shuffle;
pub mod store;
pub mod store_keys;
pub mod streams;
pub mod sync_progress;
pub mod table;
pub mod text;
pub mod value;
pub mod waveforms;
