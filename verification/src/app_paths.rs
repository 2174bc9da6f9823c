//! Where the application keeps its files.

use crate::local_access::{join_path, joined_path};
use crate::text;
use vstd::prelude::*;

verus! {

/// The directory of the database, below that of the cache.
pub const STORE_DIR_NAME: &'static str = "store";

/// The file of the database.
pub const CACHE_DATABASE_FILE_NAME: &'static str = "library-cache.sqlite3";

/// The file of the settings.
pub const SETTINGS_FILE_NAME: &'static str = "settings.json";

/// The directory of the images, below that of the cache.
pub const COVER_CACHE_DIR_NAME: &'static str = "covers";

/// The directory of the lyrics, below that of the cache.
pub const LYRICS_CACHE_DIR_NAME: &'static str = "lyrics";

/// The directory of what is kept for playing, below that of the cache.
pub const PLAYBACK_CACHE_DIR_NAME: &'static str = "playback";

/// The directory of what is written for a moment, below that of the cache.
pub const TMP_CACHE_DIR_NAME: &'static str = "tmp";

/// The database, below the directory of the cache.
pub fn app_cache_database_path_for_cache_dir(cache_dir: &str) -> (result: String)
    ensures
        result@ == joined_path(
            joined_path(cache_dir@, STORE_DIR_NAME@),
            CACHE_DATABASE_FILE_NAME@,
        ),
{
    join_path(join_path(cache_dir, STORE_DIR_NAME).as_str(), CACHE_DATABASE_FILE_NAME)
}

/// The database, or its file alone where there is no directory for a cache.
pub fn app_cache_database_path(cache_dir: &Option<String>) -> (result: String)
    ensures
        result@ == (match cache_dir.deep_view() {
            Some(dir) => joined_path(joined_path(dir, STORE_DIR_NAME@), CACHE_DATABASE_FILE_NAME@),
            None => CACHE_DATABASE_FILE_NAME@,
        }),
{
    match cache_dir {
        Some(dir) => app_cache_database_path_for_cache_dir(dir.as_str()),
        None => text::owned(CACHE_DATABASE_FILE_NAME),
    }
}

/// The settings, below the directory for configuration.
pub fn app_settings_path_for_config_dir(config_dir: &str) -> (result: String)
    ensures
        result@ == joined_path(config_dir@, SETTINGS_FILE_NAME@),
{
    join_path(config_dir, SETTINGS_FILE_NAME)
}

/// The settings, or their file alone where there is no directory for configuration.
pub fn app_settings_path(config_dir: &Option<String>) -> (result: String)
    ensures
        result@ == (match config_dir.deep_view() {
            Some(dir) => joined_path(dir, SETTINGS_FILE_NAME@),
            None => SETTINGS_FILE_NAME@,
        }),
{
    match config_dir {
        Some(dir) => app_settings_path_for_config_dir(dir.as_str()),
        None => text::owned(SETTINGS_FILE_NAME),
    }
}

/// The images, below the directory of the cache.
pub fn cover_cache_dir_for_cache_dir(cache_dir: &str) -> (result: String)
    ensures
        result@ == joined_path(cache_dir@, COVER_CACHE_DIR_NAME@),
{
    join_path(cache_dir, COVER_CACHE_DIR_NAME)
}

/// The lyrics, below the directory of the cache.
pub fn lyrics_cache_dir_for_cache_dir(cache_dir: &str) -> (result: String)
    ensures
        result@ == joined_path(cache_dir@, LYRICS_CACHE_DIR_NAME@),
{
    join_path(cache_dir, LYRICS_CACHE_DIR_NAME)
}

/// What is kept for playing, below the directory of the cache.
pub fn playback_cache_dir_for_cache_dir(cache_dir: &str) -> (result: String)
    ensures
        result@ == joined_path(cache_dir@, PLAYBACK_CACHE_DIR_NAME@),
{
    join_path(cache_dir, PLAYBACK_CACHE_DIR_NAME)
}

/// What is written for a moment, below the directory of the cache.
pub fn tmp_cache_dir_for_cache_dir(cache_dir: &str) -> (result: String)
    ensures
        result@ == joined_path(cache_dir@, TMP_CACHE_DIR_NAME@),
{
    join_path(cache_dir, TMP_CACHE_DIR_NAME)
}

/// The directories that are there before anything is kept.
pub open spec fn cache_dirs(cache_dir: Seq<char>) -> Seq<Seq<char>> {
    seq![
        joined_path(cache_dir, STORE_DIR_NAME@),
        joined_path(cache_dir, COVER_CACHE_DIR_NAME@),
        joined_path(cache_dir, LYRICS_CACHE_DIR_NAME@),
        joined_path(cache_dir, PLAYBACK_CACHE_DIR_NAME@),
        joined_path(cache_dir, TMP_CACHE_DIR_NAME@),
    ]
}

/// The directories that are there before anything is kept.
pub fn app_cache_dirs(cache_dir: &str) -> (result: Vec<String>)
    ensures
        result.deep_view() == cache_dirs(cache_dir@),
{
    let mut result: Vec<String> = Vec::new();
    result.push(join_path(cache_dir, STORE_DIR_NAME));
    result.push(cover_cache_dir_for_cache_dir(cache_dir));
    result.push(lyrics_cache_dir_for_cache_dir(cache_dir));
    result.push(playback_cache_dir_for_cache_dir(cache_dir));
    result.push(tmp_cache_dir_for_cache_dir(cache_dir));
    assert(result.deep_view() =~= cache_dirs(cache_dir@));
    result
}

} // verus!
