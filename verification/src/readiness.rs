//! Whether the library of a source is to be read again, and how soon.

use crate::local_access::LOCAL_PROVIDER_ID;
use crate::model::readiness::{
    SourceSyncReadiness, SourceSyncReadinessInput, SourceSyncReadinessInputView,
    SourceSyncReadinessView, SyncRequiredReason,
};
use crate::text;
use crate::value::Value;
use vstd::prelude::*;

verus! {

/// From which age on the library of a server is read again at the start.
pub const STARTUP_CACHE_STALE_SECONDS: u64 = 21600;

/// How long reading a library waits at the start where nothing is shown yet.
pub const EMPTY_CACHE_SYNC_DELAY_MS: u64 = 500;

/// How long reading a library waits at the start where something is shown.
pub const CACHED_SYNC_DELAY_MS: u64 = 8000;

/// Why the library of a source is to be read again. That of local folders, once read, is kept
/// until it is asked for.
pub open spec fn sync_reason(input: SourceSyncReadinessInputView) -> Option<SyncRequiredReason> {
    let local = input.provider == LOCAL_PROVIDER_ID@;
    if input.sync_status == Some("error"@) && input.cached_item_count > 0 {
        Some(SyncRequiredReason::LastSyncFailed)
    } else if local && input.sync_completed_age_seconds is Some && input.sync_status
        != Some("error"@) {
        None
    } else if input.cached_item_count == 0 {
        Some(SyncRequiredReason::CacheEmpty)
    } else if local {
        None
    } else if input.sync_completed_age_seconds matches Some(age) && age
        < STARTUP_CACHE_STALE_SECONDS {
        None
    } else {
        Some(SyncRequiredReason::RemoteCacheStale)
    }
}

/// Whether the library and the artwork of a source are to be read again.
pub open spec fn readiness_of(input: SourceSyncReadinessInputView) -> SourceSyncReadinessView {
    let reason = sync_reason(input);
    let artwork_missing = input.provider == LOCAL_PROVIDER_ID@ && input.local_artwork_missing;
    SourceSyncReadinessView {
        metadata_fresh: reason is None,
        artwork_fresh: !artwork_missing,
        sync_required_reason: reason,
        prefetch_required_reason: if artwork_missing {
            Some(SyncRequiredReason::LocalArtworkMissing)
        } else {
            None
        },
        startup_delay_ms: match reason {
            None => None,
            Some(SyncRequiredReason::CacheEmpty) => Some(EMPTY_CACHE_SYNC_DELAY_MS),
            Some(_) => Some(CACHED_SYNC_DELAY_MS),
        },
    }
}

fn why_sync(input: &SourceSyncReadinessInput) -> (result: Option<SyncRequiredReason>)
    ensures
        result == sync_reason(input.deep_view()),
{
    let local: bool = input.provider.same(&text::owned(LOCAL_PROVIDER_ID));
    let failed: bool = match &input.sync_status {
        Some(status) => status.same(&text::owned("error")),
        None => false,
    };
    if failed && input.cached_item_count > 0 {
        return Some(SyncRequiredReason::LastSyncFailed);
    }
    if local && input.sync_completed_age_seconds.is_some() && !failed {
        return None;
    }
    if input.cached_item_count == 0 {
        return Some(SyncRequiredReason::CacheEmpty);
    }
    if local {
        return None;
    }
    let fresh: bool = match input.sync_completed_age_seconds {
        Some(age) => age < STARTUP_CACHE_STALE_SECONDS,
        None => false,
    };
    if fresh {
        None
    } else {
        Some(SyncRequiredReason::RemoteCacheStale)
    }
}

/// Whether the library and the artwork of a source are to be read again.
pub fn source_sync_readiness(input: &SourceSyncReadinessInput) -> (result: SourceSyncReadiness)
    ensures
        result.deep_view() == readiness_of(input.deep_view()),
{
    let reason: Option<SyncRequiredReason> = why_sync(input);
    let artwork_missing: bool = input.provider.same(&text::owned(LOCAL_PROVIDER_ID))
        && input.local_artwork_missing;
    let startup_delay_ms: Option<u64> = match reason {
        None => None,
        Some(SyncRequiredReason::CacheEmpty) => Some(EMPTY_CACHE_SYNC_DELAY_MS),
        Some(_) => Some(CACHED_SYNC_DELAY_MS),
    };
    SourceSyncReadiness {
        metadata_fresh: reason.is_none(),
        artwork_fresh: !artwork_missing,
        sync_required_reason: reason,
        prefetch_required_reason: if artwork_missing {
            Some(SyncRequiredReason::LocalArtworkMissing)
        } else {
            None
        },
        startup_delay_ms,
    }
}

/// Something is read at the start exactly where the library is not fresh; missing artwork
/// alone is no reason for it.
pub proof fn delayed_exactly_where_stale(input: SourceSyncReadinessInputView, artwork: bool)
    ensures
        readiness_of(input).startup_delay_ms is Some <==> !readiness_of(input).metadata_fresh,
        readiness_of(input).sync_required_reason == readiness_of(
            SourceSyncReadinessInputView { local_artwork_missing: artwork, ..input },
        ).sync_required_reason,
{
}

/// The library of local folders that was read and has something in it does not grow stale.
pub proof fn local_library_does_not_grow_stale(input: SourceSyncReadinessInputView, age: u64)
    requires
        input.provider == LOCAL_PROVIDER_ID@,
        input.sync_status != Some("error"@),
    ensures
        readiness_of(
            SourceSyncReadinessInputView { sync_completed_age_seconds: Some(age), ..input },
        ).metadata_fresh,
{
}

/// The library of a server with something in it is read again where the last read failed, or
/// where none ended within the last six hours; an empty one always is, and sooner.
pub proof fn server_libraries_are_read_again_after_six_hours(input: SourceSyncReadinessInputView)
    requires
        input.provider != "local"@,
    ensures
        ({
            let readiness = readiness_of(input);
            let recent = input.sync_completed_age_seconds matches Some(age) && age < 6 * 60 * 60;
            &&& input.cached_item_count > 0 && input.sync_status == Some("error"@)
                ==> readiness.sync_required_reason == Some(SyncRequiredReason::LastSyncFailed)
            &&& input.cached_item_count > 0 && input.sync_status != Some("error"@) ==> (
            readiness.metadata_fresh == recent)
            &&& input.cached_item_count > 0 && input.sync_status != Some("error"@) && !recent
                ==> readiness.sync_required_reason == Some(SyncRequiredReason::RemoteCacheStale)
            &&& input.cached_item_count == 0 ==> readiness.sync_required_reason == Some(
                SyncRequiredReason::CacheEmpty,
            ) && readiness.startup_delay_ms == Some(500u64)
            &&& input.cached_item_count > 0 && !readiness.metadata_fresh
                ==> readiness.startup_delay_ms == Some(8000u64)
            &&& readiness.artwork_fresh
        }),
{
}

/// Images that are missing are asked for in local folders alone.
pub proof fn local_images_are_asked_for_where_missing(input: SourceSyncReadinessInputView)
    ensures
        readiness_of(input).artwork_fresh == !(input.provider == "local"@
            && input.local_artwork_missing),
        readiness_of(input).prefetch_required_reason is Some <==> input.provider == "local"@
            && input.local_artwork_missing,
{
}

} // verus!
