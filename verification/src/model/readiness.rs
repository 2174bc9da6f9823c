//! Whether the library of a source is to be read again.
use crate::value::Value;
use vstd::prelude::*;

verus! {

/// Why the library or the artwork of a source is to be read.
#[derive(Clone, Copy, Debug, PartialEq, Eq, Structural)]
pub enum SyncRequiredReason {
    CacheEmpty,
    LastSyncFailed,
    RemoteCacheStale,
    LocalArtworkMissing,
}

impl DeepView for SyncRequiredReason {
    type V = SyncRequiredReason;

    open spec fn deep_view(&self) -> SyncRequiredReason {
        *self
    }
}

impl Value for SyncRequiredReason {
    fn copy(&self) -> (result: SyncRequiredReason) {
        *self
    }

    fn same(&self, other: &SyncRequiredReason) -> (result: bool) {
        *self == *other
    }
}

/// What is known of the library of a source.
#[derive(Clone, Debug, PartialEq, Eq)]
pub struct SourceSyncReadinessInput {
    pub provider: String,
    pub cached_item_count: usize,
    pub sync_status: Option<String>,
    pub sync_completed_age_seconds: Option<u64>,
    pub local_artwork_missing: bool,
}

/// The contents of a [`SourceSyncReadinessInput`].
#[verifier::ext_equal]
pub struct SourceSyncReadinessInputView {
    pub provider: Seq<char>,
    pub cached_item_count: usize,
    pub sync_status: Option<Seq<char>>,
    pub sync_completed_age_seconds: Option<u64>,
    pub local_artwork_missing: bool,
}

impl DeepView for SourceSyncReadinessInput {
    type V = SourceSyncReadinessInputView;

    open spec fn deep_view(&self) -> SourceSyncReadinessInputView {
        SourceSyncReadinessInputView {
            provider: self.provider.deep_view(),
            cached_item_count: self.cached_item_count.deep_view(),
            sync_status: self.sync_status.deep_view(),
            sync_completed_age_seconds: self.sync_completed_age_seconds.deep_view(),
            local_artwork_missing: self.local_artwork_missing.deep_view(),
        }
    }
}

impl Value for SourceSyncReadinessInput {
    fn copy(&self) -> (result: SourceSyncReadinessInput) {
        SourceSyncReadinessInput {
            provider: self.provider.copy(),
            cached_item_count: self.cached_item_count.copy(),
            sync_status: self.sync_status.copy(),
            sync_completed_age_seconds: self.sync_completed_age_seconds.copy(),
            local_artwork_missing: self.local_artwork_missing.copy(),
        }
    }

    fn same(&self, other: &SourceSyncReadinessInput) -> (result: bool) {
        self.provider.same(&other.provider)
            && self.cached_item_count.same(&other.cached_item_count)
            && self.sync_status.same(&other.sync_status)
            && self.sync_completed_age_seconds.same(&other.sync_completed_age_seconds)
            && self.local_artwork_missing.same(&other.local_artwork_missing)
    }
}

/// Whether the library of a source is to be read again.
#[derive(Clone, Debug, PartialEq, Eq)]
pub struct SourceSyncReadiness {
    pub metadata_fresh: bool,
    pub artwork_fresh: bool,
    pub sync_required_reason: Option<SyncRequiredReason>,
    pub prefetch_required_reason: Option<SyncRequiredReason>,
    pub startup_delay_ms: Option<u64>,
}

/// The contents of a [`SourceSyncReadiness`].
#[verifier::ext_equal]
pub struct SourceSyncReadinessView {
    pub metadata_fresh: bool,
    pub artwork_fresh: bool,
    pub sync_required_reason: Option<SyncRequiredReason>,
    pub prefetch_required_reason: Option<SyncRequiredReason>,
    pub startup_delay_ms: Option<u64>,
}

impl DeepView for SourceSyncReadiness {
    type V = SourceSyncReadinessView;

    open spec fn deep_view(&self) -> SourceSyncReadinessView {
        SourceSyncReadinessView {
            metadata_fresh: self.metadata_fresh.deep_view(),
            artwork_fresh: self.artwork_fresh.deep_view(),
            sync_required_reason: self.sync_required_reason.deep_view(),
            prefetch_required_reason: self.prefetch_required_reason.deep_view(),
            startup_delay_ms: self.startup_delay_ms.deep_view(),
        }
    }
}

impl Value for SourceSyncReadiness {
    fn copy(&self) -> (result: SourceSyncReadiness) {
        SourceSyncReadiness {
            metadata_fresh: self.metadata_fresh.copy(),
            artwork_fresh: self.artwork_fresh.copy(),
            sync_required_reason: self.sync_required_reason.copy(),
            prefetch_required_reason: self.prefetch_required_reason.copy(),
            startup_delay_ms: self.startup_delay_ms.copy(),
        }
    }

    fn same(&self, other: &SourceSyncReadiness) -> (result: bool) {
        self.metadata_fresh.same(&other.metadata_fresh)
            && self.artwork_fresh.same(&other.artwork_fresh)
            && self.sync_required_reason.same(&other.sync_required_reason)
            && self.prefetch_required_reason.same(&other.prefetch_required_reason)
            && self.startup_delay_ms.same(&other.startup_delay_ms)
    }
}

} // verus!
