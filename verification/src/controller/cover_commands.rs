//! Finding and fetching the images of the library.

use crate::cached_reads::LOCAL_SOURCE_SERVER_ID;
use crate::controller::{AppController, ControllerView};
use crate::covers::{
    cache_key, cover_cache_path_for_key, cover_cache_size_candidates,
    external_lookup_miss_size_candidates, image_cache_key, image_tag, kept_tag, key_path,
    miss_sizes, sizes_for, slot_freed, slot_taken, COVER_SLOT_LIMIT, GRID_COVER_SIZE,
};
use crate::external_metadata::{
    album_art_from_image_ref, enabled, is_expected_lookup_miss, is_external, is_external_image_ref,
    lookups_enabled, named_album, tells_a_miss, ExternalAlbumArt,
};
use crate::local_access::LOCAL_PROVIDER_ID;
use crate::model::events::{ControllerEvent, ControllerEventView, Effect, EffectView};
use crate::model::ids::ServerId;
use crate::model::library::{AlbumView, ImageRef, ImageRefView};
use crate::model::settings::AppSettings;
use crate::model::source::{SavedServer, SavedServerView};
use crate::model::store::{
    CoverCacheEntry, CoverCacheEntryView, LookupMiss, LookupMissView, ServerLibrary,
    ServerLibraryView, Store, StoreView,
};
use crate::select::chosen;
use crate::store::{any_cover, any_missed, done, is_other_cover};
use crate::text;
use crate::value::{holds, Value};
use vstd::prelude::*;

verus! {

/// A sequence with what there is, where there is something.
pub open spec fn with_path(paths: Seq<Seq<char>>, path: Option<Seq<char>>) -> Seq<Seq<char>> {
    match path {
        Some(path) => paths.push(path),
        None => paths,
    }
}

/// The first path that is among others.
pub open spec fn first_existing(paths: Seq<Seq<char>>, existing: Seq<Seq<char>>) -> Option<
    Seq<char>,
>
    decreases paths.len(),
{
    if paths.len() == 0 {
        None
    } else if existing.contains(paths[0]) {
        Some(paths[0])
    } else {
        first_existing(paths.drop_first(), existing)
    }
}

fn find_existing(paths: &Vec<String>, existing: &Vec<String>) -> (result: Option<String>)
    ensures
        result.deep_view() == first_existing(paths.deep_view(), existing.deep_view()),
{
    let ghost all = paths.deep_view();
    let mut i: usize = 0;
    assert(all.skip(0) =~= all);
    while i < paths.len()
        invariant
            i <= paths@.len(),
            all == paths.deep_view(),
            first_existing(all, existing.deep_view()) == first_existing(
                all.skip(i as int),
                existing.deep_view(),
            ),
        decreases paths.len() - i,
    {
        assert(all.skip(i as int)[0] == paths@[i as int].deep_view());
        assert(all.skip(i as int).drop_first() =~= all.skip(i + 1));
        if holds(existing, &paths[i]) {
            return Some(paths[i].copy());
        }
        i += 1;
    }
    assert(all.skip(i as int).len() == 0);
    None
}

/// The path of an image that is kept.
pub open spec fn path_of(entry: Option<CoverCacheEntryView>) -> Option<Seq<char>> {
    match entry {
        Some(entry) => Some(entry.path),
        None => None,
    }
}

impl StoreView {
    /// The files in which an image of a source may lie in one size: one from elsewhere wherever
    /// any source keeps it, else where this one keeps it, else where it is kept by its key.
    pub open spec fn cover_paths(
        self,
        cover_dir: Option<Seq<char>>,
        server_id: Seq<char>,
        image_ref: ImageRefView,
        size: u32,
    ) -> Seq<Seq<char>> {
        let tag = kept_tag(image_ref);
        let elsewhere = if is_external(image_ref) {
            path_of(any_cover(self.libraries, image_ref.item_id, tag, size))
        } else {
            None
        };
        let own = path_of(self.library(server_id).cover(image_ref.item_id, tag, size));
        with_path(
            with_path(with_path(Seq::empty(), elsewhere), own),
            key_path(cover_dir, cache_key(server_id, image_ref.item_id, tag, size)),
        )
    }

    /// The files in which an image of a source may lie in some sizes.
    pub open spec fn cover_paths_among(
        self,
        cover_dir: Option<Seq<char>>,
        server_id: Seq<char>,
        image_ref: ImageRefView,
        sizes: Seq<u32>,
    ) -> Seq<Seq<char>>
        decreases sizes.len(),
    {
        if sizes.len() == 0 {
            Seq::empty()
        } else {
            self.cover_paths_among(cover_dir, server_id, image_ref, sizes.drop_last())
                + self.cover_paths(cover_dir, server_id, image_ref, sizes.last())
        }
    }

    /// The store without what it kept of an image.
    pub open spec fn without_cover(
        self,
        server_id: Seq<char>,
        item_id: Seq<char>,
        tag: Seq<char>,
        size: u32,
    ) -> StoreView {
        let library = self.library(server_id);
        self.with_library(
            server_id,
            ServerLibraryView {
                covers: chosen(library.covers, is_other_cover(item_id, tag, size)),
                ..library
            },
        )
    }

    /// The store with an image kept.
    pub open spec fn with_cover(self, entry: CoverCacheEntryView) -> StoreView {
        let library = self.library(entry.server_id);
        self.with_library(
            entry.server_id,
            ServerLibraryView {
                covers: chosen(
                    library.covers,
                    is_other_cover(entry.item_id, entry.image_tag, entry.size),
                ).push(entry),
                ..library
            },
        )
    }

    /// The store with a lookup kept that found nothing.
    pub open spec fn with_miss(self, server_id: Seq<char>, miss: LookupMissView) -> StoreView {
        let library = self.library(server_id);
        self.with_library(
            server_id,
            ServerLibraryView { misses: library.misses.push(miss), ..library },
        )
    }

    /// The store with no lookup of a source kept that found nothing.
    pub open spec fn without_misses(self, server_id: Seq<char>) -> StoreView {
        let library = self.library(server_id);
        self.with_library(server_id, ServerLibraryView { misses: Seq::empty(), ..library })
    }

    /// The file of an image of a source in one size, where it exists.
    pub open spec fn cover_at(
        self,
        cover_dir: Option<Seq<char>>,
        server_id: Seq<char>,
        image_ref: ImageRefView,
        size: u32,
        existing: Seq<Seq<char>>,
    ) -> Option<Seq<char>> {
        first_existing(self.cover_paths(cover_dir, server_id, image_ref, size), existing)
    }

    /// The file of an image of a source in the first of some sizes in which it exists.
    pub open spec fn cover_among(
        self,
        cover_dir: Option<Seq<char>>,
        server_id: Seq<char>,
        image_ref: ImageRefView,
        sizes: Seq<u32>,
        existing: Seq<Seq<char>>,
    ) -> Option<Seq<char>>
        decreases sizes.len(),
    {
        if sizes.len() == 0 {
            None
        } else if let Some(path) = self.cover_at(
            cover_dir,
            server_id,
            image_ref,
            sizes[0],
            existing,
        ) {
            Some(path)
        } else {
            self.after_cover_at(cover_dir, server_id, image_ref, sizes[0], existing).cover_among(
                cover_dir,
                server_id,
                image_ref,
                sizes.drop_first(),
                existing,
            )
        }
    }

    /// The store without what it kept of an image in one size, where no file of it exists.
    pub open spec fn after_cover_at(
        self,
        cover_dir: Option<Seq<char>>,
        server_id: Seq<char>,
        image_ref: ImageRefView,
        size: u32,
        existing: Seq<Seq<char>>,
    ) -> StoreView {
        let tag = kept_tag(image_ref);
        if self.cover_at(cover_dir, server_id, image_ref, size, existing) is None && self.library(
            server_id,
        ).cover(image_ref.item_id, tag, size) is Some {
            self.without_cover(server_id, image_ref.item_id, tag, size)
        } else {
            self
        }
    }

    /// The store after an image was looked for in some sizes: what it kept of files that do not
    /// exist is forgotten, up to the size that was found.
    pub open spec fn after_cover_among(
        self,
        cover_dir: Option<Seq<char>>,
        server_id: Seq<char>,
        image_ref: ImageRefView,
        sizes: Seq<u32>,
        existing: Seq<Seq<char>>,
    ) -> StoreView
        decreases sizes.len(),
    {
        if sizes.len() == 0 || self.cover_at(
            cover_dir,
            server_id,
            image_ref,
            sizes[0],
            existing,
        ) is Some {
            self
        } else {
            self.after_cover_at(
                cover_dir,
                server_id,
                image_ref,
                sizes[0],
                existing,
            ).after_cover_among(
                cover_dir,
                server_id,
                image_ref,
                sizes.drop_first(),
                existing,
            )
        }
    }
}

proof fn lemma_first_existing(paths: Seq<Seq<char>>, existing: Seq<Seq<char>>)
    ensures
        first_existing(paths, existing) matches Some(path) ==> paths.contains(path)
            && existing.contains(path),
        first_existing(paths, existing) is None ==> forall|i: int|
            0 <= i < paths.len() ==> !existing.contains(#[trigger] paths[i]),
    decreases paths.len(),
{
    if paths.len() > 0 && !existing.contains(paths[0]) {
        let rest = paths.drop_first();
        lemma_first_existing(rest, existing);
        if let Some(path) = first_existing(rest, existing) {
            let at = choose|at: int| 0 <= at < rest.len() && rest[at] == path;
            assert(paths[at + 1] == path);
        }
        assert forall|i: int| 0 <= i < paths.len() && first_existing(
            paths,
            existing,
        ) is None implies !existing.contains(#[trigger] paths[i]) by {
            if i > 0 {
                assert(rest[i - 1] == paths[i]);
            }
        }
    } else if paths.len() > 0 {
        assert(paths.contains(paths[0]));
    }
}

/// An image that is found lies in a file that exists, and one that is kept in the wanted size in
/// a file that exists is found.
pub proof fn found_images_exist(
    store: StoreView,
    cover_dir: Option<Seq<char>>,
    server_id: Seq<char>,
    image_ref: ImageRefView,
    size: u32,
    existing: Seq<Seq<char>>,
)
    ensures
        store.cover_at(cover_dir, server_id, image_ref, size, existing) matches Some(path)
            ==> existing.contains(path),
        store.library(server_id).cover(image_ref.item_id, kept_tag(image_ref), size) matches Some(
            entry,
        ) && existing.contains(entry.path) ==> store.cover_at(
            cover_dir,
            server_id,
            image_ref,
            size,
            existing,
        ) is Some,
{
    let paths = store.cover_paths(cover_dir, server_id, image_ref, size);
    lemma_first_existing(paths, existing);
    if let Some(entry) = store.library(server_id).cover(
        image_ref.item_id,
        kept_tag(image_ref),
        size,
    ) {
        assert(paths.contains(entry.path)) by {
            let elsewhere = if is_external(image_ref) {
                path_of(any_cover(store.libraries, image_ref.item_id, kept_tag(image_ref), size))
            } else {
                None
            };
            let at = with_path(Seq::empty(), elsewhere).len() as int;
            assert(paths[at] == entry.path);
        }
    }
}

/// The sizes that are looked through for an image: the wanted one, and those that may stand
/// for it.
pub open spec fn looked_sizes(size: u32) -> Seq<u32> {
    seq![size] + sizes_for(size)
}

/// The sizes that an image is looked for in: the wanted one and those that may stand for it.
pub fn sizes_to_look_through(size: u32) -> (result: Vec<u32>)
    ensures
        result@ == looked_sizes(size),
{
    let mut result: Vec<u32> = Vec::new();
    result.push(size);
    let mut others: Vec<u32> = cover_cache_size_candidates(size);
    result.append(&mut others);
    assert(result@ =~= looked_sizes(size));
    result
}

fn push_path(paths: &mut Vec<String>, path: Option<String>)
    ensures
        final(paths).deep_view() == with_path(old(paths).deep_view(), path.deep_view()),
{
    if let Some(path) = path {
        let ghost before = paths.deep_view();
        let ghost added = path@;
        paths.push(path);
        assert(paths.deep_view() =~= before.push(added));
    }
}

fn entry_path(entry: Option<CoverCacheEntry>) -> (result: Option<String>)
    ensures
        result.deep_view() == path_of(entry.deep_view()),
{
    match entry {
        Some(entry) => Some(entry.path),
        None => None,
    }
}

/// The files in which an image of a source may lie in one size, the best first.
pub fn list_cover_paths(
    store: &Store,
    cover_dir: &Option<String>,
    server_id: &ServerId,
    image_ref: &ImageRef,
    size: u32,
) -> (result: Vec<String>)
    requires
        store.deep_view().fault is None,
    ensures
        result.deep_view() == store.deep_view().cover_paths(
            cover_dir.deep_view(),
            server_id.deep_view(),
            image_ref.deep_view(),
            size,
        ),
{
    let tag: String = image_tag(image_ref);
    let item_id: &str = image_ref.item_id.as_str();
    let mut result: Vec<String> = Vec::new();
    assert(result.deep_view() =~= Seq::<Seq<char>>::empty());
    if is_external_image_ref(image_ref) {
        push_path(
            &mut result,
            entry_path(store.load_cover_by_content(item_id, tag.as_str(), size)),
        );
    }
    if let Ok(entry) = store.load_cover_cache_entry(server_id, item_id, tag.as_str(), size) {
        push_path(&mut result, entry_path(entry));
    }
    let key: String = image_cache_key(server_id, item_id, tag.as_str(), size);
    push_path(&mut result, cover_cache_path_for_key(cover_dir, key.as_str()));
    result
}

/// The file of an image of a source in one size, where it exists; what is kept of it is
/// forgotten where none does.
pub fn saved_cover_path(
    store: &mut Store,
    cover_dir: &Option<String>,
    server_id: &ServerId,
    image_ref: &ImageRef,
    size: u32,
    existing: &Vec<String>,
) -> (result: Option<String>)
    requires
        old(store).deep_view().fault is None,
    ensures
        result.deep_view() == old(store).deep_view().cover_at(
            cover_dir.deep_view(),
            server_id.deep_view(),
            image_ref.deep_view(),
            size,
            existing.deep_view(),
        ),
        final(store).deep_view() == old(store).deep_view().after_cover_at(
            cover_dir.deep_view(),
            server_id.deep_view(),
            image_ref.deep_view(),
            size,
            existing.deep_view(),
        ),
        final(store).deep_view().fault is None,
        old(store).deep_view().wf() ==> final(store).deep_view().wf(),
{
    let paths: Vec<String> = list_cover_paths(store, cover_dir, server_id, image_ref, size);
    if let Some(path) = find_existing(&paths, existing) {
        return Some(path);
    }
    let tag: String = image_tag(image_ref);
    let item_id: &str = image_ref.item_id.as_str();
    if let Ok(Some(_entry)) = store.load_cover_cache_entry(server_id, item_id, tag.as_str(), size) {
        let _gone: Result<(), String> = store.delete_cover_cache_entry(
            server_id,
            item_id,
            tag.as_str(),
            size,
        );
    }
    None
}

fn cached_cover_among(
    store: &mut Store,
    cover_dir: &Option<String>,
    server_id: &ServerId,
    image_ref: &ImageRef,
    sizes: &Vec<u32>,
    existing: &Vec<String>,
) -> (result: Option<String>)
    requires
        old(store).deep_view().fault is None,
    ensures
        result.deep_view() == old(store).deep_view().cover_among(
            cover_dir.deep_view(),
            server_id.deep_view(),
            image_ref.deep_view(),
            sizes@,
            existing.deep_view(),
        ),
        final(store).deep_view() == old(store).deep_view().after_cover_among(
            cover_dir.deep_view(),
            server_id.deep_view(),
            image_ref.deep_view(),
            sizes@,
            existing.deep_view(),
        ),
        final(store).deep_view().fault is None,
        old(store).deep_view().wf() ==> final(store).deep_view().wf(),
{
    let ghost dir = cover_dir.deep_view();
    let ghost server = server_id.deep_view();
    let ghost image = image_ref.deep_view();
    let ghost there = existing.deep_view();
    let ghost found = store.deep_view().cover_among(dir, server, image, sizes@, there);
    let ghost left = store.deep_view().after_cover_among(dir, server, image, sizes@, there);
    let mut i: usize = 0;
    assert(sizes@.skip(0) =~= sizes@);
    while i < sizes.len()
        invariant
            i <= sizes@.len(),
            dir == cover_dir.deep_view(),
            server == server_id.deep_view(),
            image == image_ref.deep_view(),
            there == existing.deep_view(),
            store.deep_view().fault is None,
            old(store).deep_view().wf() ==> store.deep_view().wf(),
            found == old(store).deep_view().cover_among(dir, server, image, sizes@, there),
            left == old(store).deep_view().after_cover_among(dir, server, image, sizes@, there),
            found == store.deep_view().cover_among(
                dir,
                server,
                image,
                sizes@.skip(i as int),
                there,
            ),
            left == store.deep_view().after_cover_among(
                dir,
                server,
                image,
                sizes@.skip(i as int),
                there,
            ),
        decreases sizes.len() - i,
    {
        assert(sizes@.skip(i as int)[0] == sizes@[i as int]);
        assert(sizes@.skip(i as int).drop_first() =~= sizes@.skip(i + 1));
        if let Some(path) = saved_cover_path(
            store,
            cover_dir,
            server_id,
            image_ref,
            sizes[i],
            existing,
        ) {
            return Some(path);
        }
        i += 1;
    }
    assert(sizes@.skip(i as int).len() == 0);
    None
}

/// Where an image is fetched from.
pub enum CoverSource {
    /// From elsewhere, with the key for a service that needs one.
    Elsewhere { art: ExternalAlbumArt, api_key: String },
    /// From the files of the local folders.
    Files,
    /// From the server.
    Server,
}

/// Where an image of a source is fetched from, or why it is not.
pub fn cover_source(saved: &SavedServer, image_ref: &ImageRef, settings: &AppSettings) -> (result:
    Result<CoverSource, String>)
    ensures
        match named_album(image_ref.deep_view().item_id) {
            Some(art) => if lookups_enabled(settings.deep_view()) {
                result matches Ok(CoverSource::Elsewhere { art: given, api_key })
                    && given.deep_view() == art && api_key@ == text::trimmed(
                    settings.lastfm_api_key@,
                )
            } else {
                result matches Err(error) && error@ == "external metadata lookup is disabled"@
            },
            None => if saved.deep_view().server.provider == LOCAL_PROVIDER_ID@
                && "local:cover:"@.is_prefix_of(image_ref.deep_view().item_id) {
                result matches Ok(CoverSource::Files)
            } else {
                result matches Ok(CoverSource::Server)
            },
        },
{
    if let Some(art) = album_art_from_image_ref(image_ref) {
        if !enabled(settings) {
            return Err(text::owned("external metadata lookup is disabled"));
        }
        let api_key: String = text::trim(settings.lastfm_api_key.as_str());
        return Ok(CoverSource::Elsewhere { art, api_key });
    }
    let local: bool = saved.server.provider.same(&text::owned(LOCAL_PROVIDER_ID));
    if local && text::starts_with(image_ref.item_id.as_str(), "local:cover:") {
        return Ok(CoverSource::Files);
    }
    Ok(CoverSource::Server)
}

/// Checks that an image that a source gave holds something.
pub fn check_cover_bytes(bytes: &Vec<u8>) -> (result: Result<(), String>)
    ensures
        match result {
            Ok(_) => bytes@.len() > 0,
            Err(error) => bytes@.len() == 0 && error@ == "cover response was empty"@,
        },
{
    if bytes.len() == 0 {
        Err(text::owned("cover response was empty"))
    } else {
        Ok(())
    }
}

impl ControllerView {
    /// What an image of the source that is shown is kept under.
    pub open spec fn cover_key(self, image_ref: ImageRefView, size: u32) -> Option<Seq<char>> {
        match self.store.shown() {
            Some(saved) => Some(
                cache_key(saved.server.id, image_ref.item_id, kept_tag(image_ref), size),
            ),
            None => None,
        }
    }

    /// The file of an image of a source, where it exists in a size that may be shown.
    #[verifier::opaque]
    pub open spec fn cached_cover(
        self,
        saved: SavedServerView,
        image_ref: ImageRefView,
        size: u32,
        existing: Seq<Seq<char>>,
    ) -> Option<Seq<char>> {
        self.store.cover_among(
            self.cover_dir,
            saved.server.id,
            image_ref,
            looked_sizes(size),
            existing,
        )
    }

    /// With an image of a source looked for: what is kept of files that do not exist is
    /// forgotten.
    #[verifier::opaque]
    pub open spec fn looked_for_cover(
        self,
        saved: SavedServerView,
        image_ref: ImageRefView,
        size: u32,
        existing: Seq<Seq<char>>,
    ) -> ControllerView {
        self.with_store(
            self.store.after_cover_among(
                self.cover_dir,
                saved.server.id,
                image_ref,
                looked_sizes(size),
                existing,
            ),
        )
    }

    /// Whether an image from elsewhere was looked for and not found in one of some sizes.
    pub open spec fn missed_in(self, image_ref: ImageRefView, sizes: Seq<u32>) -> bool
        decreases sizes.len(),
    {
        sizes.len() > 0 && (any_missed(
            self.store.libraries,
            image_ref.item_id,
            kept_tag(image_ref),
            sizes[0],
        ) || self.missed_in(image_ref, sizes.drop_first()))
    }

    /// With an image being fetched.
    pub open spec fn fetch_cover(
        self,
        key: Seq<char>,
        saved: SavedServerView,
        image_ref: ImageRefView,
        size: u32,
    ) -> ControllerView {
        (ControllerView { cover_in_flight: self.cover_in_flight.insert(key), ..self }).ask(
            EffectView::FetchCover { key, saved, image_ref, size },
        )
    }

    /// With an image of the source that is shown told where it exists, and else being fetched
    /// where it is not already.
    #[verifier::opaque]
    pub open spec fn request_cover(
        self,
        image_ref: ImageRefView,
        size: u32,
        existing: Seq<Seq<char>>,
    ) -> ControllerView {
        match self.store.shown() {
            None => self,
            Some(saved) => {
                let key = cache_key(saved.server.id, image_ref.item_id, kept_tag(image_ref), size);
                let looked = self.looked_for_cover(saved, image_ref, size, existing);
                if saved.server.provider == "fake"@ {
                    self
                } else if let Some(path) = self.cached_cover(saved, image_ref, size, existing) {
                    looked.emit(ControllerEventView::CoverReady { key, path })
                } else if self.cover_in_flight.contains(key) {
                    looked
                } else {
                    looked.fetch_cover(key, saved, image_ref, size)
                }
            },
        }
    }

    /// With an image told that was asked for by its key where it exists, and else being fetched,
    /// where the key is that of the source that is shown, it is not being fetched already, and
    /// it may be looked up and was not looked up in vain.
    #[verifier::opaque]
    pub open spec fn request_cover_for_key(
        self,
        key: Seq<char>,
        image_ref: ImageRefView,
        size: u32,
        existing: Seq<Seq<char>>,
    ) -> ControllerView {
        let external = is_external(image_ref);
        let by_key = first_existing(
            with_path(Seq::empty(), key_path(self.cover_dir, key)),
            existing,
        );
        if self.cover_in_flight.contains(key) || (external && !lookups_enabled(self.settings())) {
            self
        } else if let Some(path) = by_key {
            self.emit(ControllerEventView::CoverReady { key, path })
        } else if let Some(saved) = self.store.shown() {
            let looked = self.looked_for_cover(saved, image_ref, size, existing);
            if saved.server.provider == "fake"@ || self.cover_key(image_ref, size) != Some(key) {
                self
            } else if let Some(path) = self.cached_cover(saved, image_ref, size, existing) {
                looked.emit(ControllerEventView::CoverReady { key, path })
            } else if external && self.missed_in(image_ref, seq![size]) {
                looked
            } else {
                looked.fetch_cover(key, saved, image_ref, size)
            }
        } else {
            self
        }
    }

    /// With an image fetched.
    #[verifier::opaque]
    pub open spec fn cover_fetched(
        self,
        key: Seq<char>,
        saved: SavedServerView,
        image_ref: ImageRefView,
        size: u32,
        path: Seq<char>,
    ) -> ControllerView {
        let ended = ControllerView { cover_in_flight: self.cover_in_flight.remove(key), ..self };
        if self.store.fault is Some {
            ended
        } else {
            ended.with_store(
                self.store.with_cover(
                    CoverCacheEntryView {
                        server_id: saved.server.id,
                        item_id: image_ref.item_id,
                        image_tag: kept_tag(image_ref),
                        size,
                        path,
                    },
                ),
            ).emit(ControllerEventView::CoverReady { key, path })
        }
    }

    /// With an image that could not be fetched. That nothing was found elsewhere is kept, so
    /// that it is not looked for again.
    #[verifier::opaque]
    pub open spec fn cover_fetch_failed(
        self,
        key: Seq<char>,
        image_ref: ImageRefView,
        size: u32,
        error: Seq<char>,
    ) -> ControllerView {
        let ended = ControllerView { cover_in_flight: self.cover_in_flight.remove(key), ..self };
        if let Some(saved) = self.store.shown() {
            if is_external(image_ref) && tells_a_miss(error) {
                ended.with_store(
                    self.store.with_miss(
                        saved.server.id,
                        LookupMissView {
                            item_id: image_ref.item_id,
                            image_tag: kept_tag(image_ref),
                            size,
                            reason: error,
                        },
                    ),
                )
            } else {
                ended
            }
        } else {
            ended
        }
    }

    /// Whether an image of an album that is kept of the local folders does not exist in a size
    /// for a grid.
    pub open spec fn lacks_cover(self, albums: Seq<AlbumView>, existing: Seq<Seq<char>>) -> bool
        decreases albums.len(),
    {
        albums.len() > 0 && ((albums[0].image_ref matches Some(image_ref)
            && self.store.cover_among(
            self.cover_dir,
            LOCAL_SOURCE_SERVER_ID@,
            image_ref,
            looked_sizes(GRID_COVER_SIZE),
            existing,
        ) is None) || self.lacks_cover(albums.drop_first(), existing))
    }
}

impl AppController {
    /// What an image of the source that is shown is kept under.
    pub fn cover_key(&self, image_ref: &ImageRef, size: u32) -> (result: Option<String>)
        ensures
            result.deep_view() == self.deep_view().cover_key(image_ref.deep_view(), size),
    {
        match self.store.shown() {
            Some(saved) => Some(
                image_cache_key(
                    &saved.server.id,
                    image_ref.item_id.as_str(),
                    image_tag(image_ref).as_str(),
                    size,
                ),
            ),
            None => None,
        }
    }

    fn look_for_cover(
        &mut self,
        saved: &SavedServer,
        image_ref: &ImageRef,
        size: u32,
        existing: &Vec<String>,
    ) -> (result: Option<String>)
        requires
            old(self).deep_view().wf(),
            old(self).deep_view().store.fault is None,
        ensures
            result.deep_view() == old(self).deep_view().cached_cover(
                saved.deep_view(),
                image_ref.deep_view(),
                size,
                existing.deep_view(),
            ),
            final(self).deep_view() == old(self).deep_view().looked_for_cover(
                saved.deep_view(),
                image_ref.deep_view(),
                size,
                existing.deep_view(),
            ),
            final(self).deep_view().wf(),
            final(self).deep_view().cover_in_flight == old(self).deep_view().cover_in_flight,
    {
        reveal(ControllerView::cached_cover);
        reveal(ControllerView::looked_for_cover);
        let sizes: Vec<u32> = sizes_to_look_through(size);
        cached_cover_among(
            &mut self.store,
            &self.cover_dir,
            &saved.server.id,
            image_ref,
            &sizes,
            existing,
        )
    }

    /// The files in which an image of the source that is shown may lie, in the wanted size and
    /// in those that may stand for it.
    pub fn cover_path_candidates(&self, image_ref: &ImageRef, size: u32) -> (result: Vec<String>)
        ensures
            result.deep_view() == (match self.deep_view().store.shown() {
                None => Seq::empty(),
                Some(saved) => self.deep_view().store.cover_paths_among(
                    self.deep_view().cover_dir,
                    saved.server.id,
                    image_ref.deep_view(),
                    looked_sizes(size),
                ),
            }),
    {
        let mut result: Vec<String> = Vec::new();
        assert(result.deep_view() =~= Seq::<Seq<char>>::empty());
        let saved: SavedServer = match self.store.shown() {
            Some(saved) => saved,
            None => return result,
        };
        let sizes: Vec<u32> = sizes_to_look_through(size);
        let ghost view = self.deep_view();
        let ghost server = saved.deep_view().server.id;
        let ghost image = image_ref.deep_view();
        let mut i: usize = 0;
        assert(sizes@.take(0) =~= Seq::empty());
        while i < sizes.len()
            invariant
                i <= sizes@.len(),
                view == self.deep_view(),
                view.store.fault is None,
                server == saved.deep_view().server.id,
                image == image_ref.deep_view(),
                result.deep_view() == view.store.cover_paths_among(
                    view.cover_dir,
                    server,
                    image,
                    sizes@.take(i as int),
                ),
            decreases sizes.len() - i,
        {
            let ghost before = result.deep_view();
            let mut paths: Vec<String> = list_cover_paths(
                &self.store,
                &self.cover_dir,
                &saved.server.id,
                image_ref,
                sizes[i],
            );
            let ghost more = paths.deep_view();
            result.append(&mut paths);
            assert(result.deep_view() =~= before + more);
            assert(sizes@.take(i + 1).drop_last() =~= sizes@.take(i as int));
            i += 1;
        }
        assert(sizes@.take(i as int) =~= sizes@);
        result
    }

    /// The file of an image of the source that is shown, where it exists in a size that may be
    /// shown; what is kept of files that do not exist is forgotten.
    pub fn cached_cover_path(&mut self, image_ref: &ImageRef, size: u32, existing: &Vec<String>)
        -> (result: Option<String>)
        requires
            old(self).deep_view().wf(),
        ensures
            match old(self).deep_view().store.shown() {
                Some(saved) => {
                    &&& result.deep_view() == old(self).deep_view().cached_cover(
                        saved,
                        image_ref.deep_view(),
                        size,
                        existing.deep_view(),
                    )
                    &&& final(self).deep_view() == old(self).deep_view().looked_for_cover(
                        saved,
                        image_ref.deep_view(),
                        size,
                        existing.deep_view(),
                    )
                },
                None => result is None && final(self).deep_view() == old(self).deep_view(),
            },
            final(self).deep_view().wf(),
    {
        match self.store.shown() {
            Some(saved) => self.look_for_cover(&saved, image_ref, size, existing),
            None => None,
        }
    }

    /// The file that is kept under a key, where it exists.
    pub fn cached_cover_path_for_key(&self, key: &str, existing: &Vec<String>) -> (result: Option<
        String,
    >)
        ensures
            result.deep_view() == first_existing(
                with_path(Seq::empty(), key_path(self.deep_view().cover_dir, key@)),
                existing.deep_view(),
            ),
    {
        let mut paths: Vec<String> = Vec::new();
        assert(paths.deep_view() =~= Seq::<Seq<char>>::empty());
        push_path(&mut paths, cover_cache_path_for_key(&self.cover_dir, key));
        find_existing(&paths, existing)
    }

    fn missed_in(&self, image_ref: &ImageRef, sizes: &Vec<u32>) -> (result: bool)
        ensures
            result == self.deep_view().missed_in(image_ref.deep_view(), sizes@),
    {
        let ghost view = self.deep_view();
        let ghost image = image_ref.deep_view();
        let tag: String = image_tag(image_ref);
        let mut i: usize = 0;
        assert(sizes@.skip(0) =~= sizes@);
        while i < sizes.len()
            invariant
                i <= sizes@.len(),
                view == self.deep_view(),
                image == image_ref.deep_view(),
                tag@ == kept_tag(image),
                view.missed_in(image, sizes@) == view.missed_in(image, sizes@.skip(i as int)),
            decreases sizes.len() - i,
        {
            assert(sizes@.skip(i as int)[0] == sizes@[i as int]);
            assert(sizes@.skip(i as int).drop_first() =~= sizes@.skip(i + 1));
            if self.store.load_miss_by_content(
                image_ref.item_id.as_str(),
                tag.as_str(),
                sizes[i],
            ) {
                return true;
            }
            i += 1;
        }
        assert(sizes@.skip(i as int).len() == 0);
        false
    }

    /// Whether an image from elsewhere was looked for and not found, in this or another size.
    pub fn external_cover_lookup_known_missing(&self, image_ref: &ImageRef, size: u32) -> (result:
        bool)
        ensures
            result == (is_external(image_ref.deep_view()) && self.deep_view().store.shown() is Some
                && self.deep_view().missed_in(image_ref.deep_view(), miss_sizes(size))),
    {
        if !is_external_image_ref(image_ref) {
            return false;
        }
        if self.store.shown().is_none() {
            return false;
        }
        self.missed_in(image_ref, &external_lookup_miss_size_candidates(size))
    }

    /// Looks again for the images that were not found elsewhere.
    pub fn retry_external_cover_lookups(&mut self) -> (result: Result<(), String>)
        requires
            old(self).deep_view().wf(),
        ensures
            done(result, old(self).deep_view().store.fault),
            final(self).deep_view() == (match old(self).deep_view().store.shown() {
                Some(saved) => old(self).deep_view().with_store(
                    old(self).deep_view().store.without_misses(saved.server.id),
                ).ask(
                    EffectView::PrefetchExternalCovers {
                        saved,
                        retry_generation: old(self).deep_view().external_cover_retry_generation,
                    },
                ),
                None => old(self).deep_view(),
            }),
            final(self).deep_view().wf(),
    {
        let saved: SavedServer = match self.store.active_server() {
            Err(error) => return Err(error),
            Ok(None) => return Ok(()),
            Ok(Some(saved)) => saved,
        };
        if let Err(error) = self.store.clear_external_image_lookup_misses(&saved.server.id) {
            return Err(error);
        }
        let retry_generation: u64 = self.external_cover_retry_generation;
        self.ask(Effect::PrefetchExternalCovers { saved, retry_generation });
        Ok(())
    }

    /// Whether images are still to be looked for elsewhere as they were when that was asked for.
    pub fn cover_prefetch_is_current(&self, retry_generation: u64) -> (result: bool)
        ensures
            result == (self.deep_view().external_cover_retry_generation == retry_generation),
    {
        self.external_cover_retry_generation == retry_generation
    }

    fn fetch_cover(&mut self, key: String, saved: SavedServer, image_ref: ImageRef, size: u32)
        requires
            old(self).deep_view().wf(),
        ensures
            final(self).deep_view() == old(self).deep_view().fetch_cover(
                key@,
                saved.deep_view(),
                image_ref.deep_view(),
                size,
            ),
            final(self).deep_view().wf(),
    {
        let _new: bool = self.cover_in_flight.insert(key.as_str());
        self.ask(Effect::FetchCover { key, saved, image_ref, size });
    }

    /// Tells or fetches an image of the source that is shown.
    pub fn request_cover(&mut self, image_ref: ImageRef, size: u32, existing: &Vec<String>)
        requires
            old(self).deep_view().wf(),
        ensures
            final(self).deep_view() == old(self).deep_view().request_cover(
                image_ref.deep_view(),
                size,
                existing.deep_view(),
            ),
            final(self).deep_view().wf(),
    {
        reveal(ControllerView::request_cover);
        let saved: SavedServer = match self.store.shown() {
            Some(saved) => saved,
            None => return,
        };
        if saved.server.provider.same(&text::owned("fake")) {
            return;
        }
        let key: String = image_cache_key(
            &saved.server.id,
            image_ref.item_id.as_str(),
            image_tag(&image_ref).as_str(),
            size,
        );
        if let Some(path) = self.look_for_cover(&saved, &image_ref, size, existing) {
            self.emit(ControllerEvent::CoverReady { key, path });
            return;
        }
        if !self.cover_in_flight.contains(key.as_str()) {
            self.fetch_cover(key, saved, image_ref, size);
        }
    }

    /// Tells or fetches an image by its key.
    pub fn request_cover_for_key(
        &mut self,
        key: String,
        image_ref: ImageRef,
        size: u32,
        existing: &Vec<String>,
    )
        requires
            old(self).deep_view().wf(),
        ensures
            final(self).deep_view() == old(self).deep_view().request_cover_for_key(
                key@,
                image_ref.deep_view(),
                size,
                existing.deep_view(),
            ),
            final(self).deep_view().wf(),
    {
        reveal(ControllerView::request_cover_for_key);
        let external: bool = is_external_image_ref(&image_ref);
        if self.cover_in_flight.contains(key.as_str()) {
            return;
        }
        if external && !enabled(&self.load_settings()) {
            return;
        }
        if let Some(path) = self.cached_cover_path_for_key(key.as_str(), existing) {
            self.emit(ControllerEvent::CoverReady { key, path });
            return;
        }
        let saved: SavedServer = match self.store.shown() {
            Some(saved) => saved,
            None => return,
        };
        if saved.server.provider.same(&text::owned("fake")) {
            return;
        }
        let expected: Option<String> = self.cover_key(&image_ref, size);
        if !expected.same(&Some(key.copy())) {
            return;
        }
        let mut sizes: Vec<u32> = Vec::new();
        sizes.push(size);
        assert(sizes@ =~= seq![size]);
        let missed: bool = external && self.missed_in(&image_ref, &sizes);
        if let Some(path) = self.look_for_cover(&saved, &image_ref, size, existing) {
            self.emit(ControllerEvent::CoverReady { key, path });
            return;
        }
        if !missed {
            self.fetch_cover(key, saved, image_ref, size);
        }
    }

    /// Takes it that an image was fetched and lies in a file.
    pub fn cover_fetched(
        &mut self,
        key: String,
        saved: &SavedServer,
        image_ref: &ImageRef,
        size: u32,
        path: String,
    )
        requires
            old(self).deep_view().wf(),
        ensures
            final(self).deep_view() == old(self).deep_view().cover_fetched(
                key@,
                saved.deep_view(),
                image_ref.deep_view(),
                size,
                path@,
            ),
            final(self).deep_view().wf(),
    {
        reveal(ControllerView::cover_fetched);
        let _was_fetched: bool = self.cover_in_flight.remove(key.as_str());
        let entry: CoverCacheEntry = CoverCacheEntry {
            server_id: saved.server.id.copy(),
            item_id: image_ref.item_id.copy(),
            image_tag: image_tag(image_ref),
            size,
            path: path.copy(),
        };
        if let Ok(()) = self.store.save_cover_cache_entry(entry) {
            self.emit(ControllerEvent::CoverReady { key, path });
        }
    }

    /// Takes it that an image could not be fetched.
    pub fn cover_fetch_failed(&mut self, key: &str, image_ref: &ImageRef, size: u32, error: String)
        requires
            old(self).deep_view().wf(),
        ensures
            final(self).deep_view() == old(self).deep_view().cover_fetch_failed(
                key@,
                image_ref.deep_view(),
                size,
                error@,
            ),
            final(self).deep_view().wf(),
    {
        reveal(ControllerView::cover_fetch_failed);
        let _was_fetched: bool = self.cover_in_flight.remove(key);
        if is_external_image_ref(image_ref) && is_expected_lookup_miss(error.as_str()) {
            if let Some(saved) = self.store.shown() {
                let miss: LookupMiss = LookupMiss {
                    item_id: image_ref.item_id.copy(),
                    image_tag: image_tag(image_ref),
                    size,
                    reason: error,
                };
                let _kept: Result<(), String> = self.store.save_external_image_lookup_miss(
                    &saved.server.id,
                    miss,
                );
            }
        }
    }

    /// Takes one of the few places for fetching an image, where one is free.
    pub fn acquire_cover_slot(&mut self) -> (result: bool)
        requires
            old(self).deep_view().wf(),
        ensures
            result == (old(self).deep_view().cover_slots < COVER_SLOT_LIMIT),
            final(self).deep_view() == (ControllerView {
                cover_slots: slot_taken(old(self).deep_view().cover_slots),
                ..old(self).deep_view()
            }),
            final(self).deep_view().wf(),
    {
        if self.cover_slots >= COVER_SLOT_LIMIT {
            return false;
        }
        self.cover_slots += 1;
        true
    }

    /// Gives a place for fetching an image back.
    pub fn release_cover_slot(&mut self)
        requires
            old(self).deep_view().wf(),
        ensures
            final(self).deep_view() == (ControllerView {
                cover_slots: slot_freed(old(self).deep_view().cover_slots),
                ..old(self).deep_view()
            }),
            final(self).deep_view().wf(),
    {
        self.cover_slots = self.cover_slots.saturating_sub(1);
    }

    /// Checks whether the images of the albums of the local folders are kept in a size for a
    /// grid.
    pub fn check_local_artwork(&mut self, existing: &Vec<String>)
        requires
            old(self).deep_view().wf(),
        ensures
            final(self).deep_view() == (ControllerView {
                local_artwork_missing: old(self).deep_view().store.fault is Some
                    || old(self).deep_view().lacks_cover(
                    old(self).deep_view().store.library(LOCAL_SOURCE_SERVER_ID@).albums,
                    existing.deep_view(),
                ),
                ..old(self).deep_view()
            }),
            final(self).deep_view().wf(),
    {
        self.local_artwork_missing = self.lacks_local_cover(existing);
    }

    fn lacks_local_cover(&self, existing: &Vec<String>) -> (result: bool)
        ensures
            result == (self.deep_view().store.fault is Some || self.deep_view().lacks_cover(
                self.deep_view().store.library(LOCAL_SOURCE_SERVER_ID@).albums,
                existing.deep_view(),
            )),
    {
        if self.store.fault.is_some() {
            return true;
        }
        let server_id: ServerId = ServerId { value: text::owned(LOCAL_SOURCE_SERVER_ID) };
        let library: ServerLibrary = self.store.library(&server_id);
        let sizes: Vec<u32> = sizes_to_look_through(GRID_COVER_SIZE);
        let ghost view = self.deep_view();
        let ghost all = library.albums.deep_view();
        let ghost there = existing.deep_view();
        let mut i: usize = 0;
        assert(all.skip(0) =~= all);
        while i < library.albums.len()
            invariant
                i <= library.albums@.len(),
                view == self.deep_view(),
                view.store.fault is None,
                all == library.albums.deep_view(),
                all == view.store.library(LOCAL_SOURCE_SERVER_ID@).albums,
                there == existing.deep_view(),
                server_id.deep_view() == LOCAL_SOURCE_SERVER_ID@,
                sizes@ == looked_sizes(GRID_COVER_SIZE),
                view.lacks_cover(all, there) == view.lacks_cover(all.skip(i as int), there),
            decreases library.albums.len() - i,
        {
            assert(all.skip(i as int)[0] == library.albums@[i as int].deep_view());
            assert(all.skip(i as int).drop_first() =~= all.skip(i + 1));
            if let Some(image_ref) = &library.albums[i].image_ref {
                let mut store: Store = self.store.copy();
                if cached_cover_among(
                    &mut store,
                    &self.cover_dir,
                    &server_id,
                    image_ref,
                    &sizes,
                    existing,
                ).is_none() {
                    return true;
                }
            }
            i += 1;
        }
        assert(all.skip(i as int).len() == 0);
        false
    }
}

} // verus!
