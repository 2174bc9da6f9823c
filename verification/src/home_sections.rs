//! Sections of the home page as they are kept.

use crate::model::events::{HomeRefreshTarget, HomeRefreshTargetView};
use crate::model::library::{
    Album, AlbumView, HomeSection, HomeSectionKind, HomeSectionView, Track, TrackView,
};
use crate::select::{choose_items, chosen, Choice};
use crate::text;
use vstd::prelude::*;

verus! {

/// The sections that are read anew for a part of the home page: one, or every one but those to
/// explore.
pub open spec fn refreshed_kinds(target: HomeRefreshTargetView) -> Seq<HomeSectionKind> {
    match target {
        HomeRefreshTargetView::Section(kind) => seq![kind],
        HomeRefreshTargetView::WithoutExplore => seq![HomeSectionKind::MostPlayed],
    }
}

/// The sections that are read anew for a part of the home page.
pub fn home_refresh_section_kinds(target: &HomeRefreshTarget) -> (result: Vec<HomeSectionKind>)
    ensures
        result@ == refreshed_kinds(target.deep_view()),
{
    let mut result: Vec<HomeSectionKind> = Vec::new();
    match target {
        HomeRefreshTarget::Section(kind) => result.push(*kind),
        HomeRefreshTarget::WithoutExplore => result.push(HomeSectionKind::MostPlayed),
    }
    assert(result@ =~= refreshed_kinds(target.deep_view()));
    result
}

/// Without those to explore, every kind of section is read anew, and none twice.
pub proof fn every_other_section_is_refreshed(kind: HomeSectionKind)
    ensures
        refreshed_kinds(HomeRefreshTargetView::WithoutExplore).contains(kind) <==> kind
            != HomeSectionKind::Explore,
        refreshed_kinds(HomeRefreshTargetView::WithoutExplore).no_duplicates(),
{
    assert(refreshed_kinds(HomeRefreshTargetView::WithoutExplore)[0]
        == HomeSectionKind::MostPlayed);
}

/// Whether an album is one of the local folders.
pub open spec fn album_is_local() -> spec_fn(AlbumView) -> bool {
    |album: AlbumView| "local:"@.is_prefix_of(album.id)
}

/// Whether a track is one of the local folders.
pub open spec fn track_is_local() -> spec_fn(TrackView) -> bool {
    |track: TrackView| "local:"@.is_prefix_of(track.id)
}

struct OfLocalFolders {}

impl Choice<Album> for OfLocalFolders {
    closed spec fn test(&self) -> spec_fn(AlbumView) -> bool {
        album_is_local()
    }

    fn takes(&self, item: &Album) -> (result: bool) {
        text::starts_with(item.id.as_str(), "local:")
    }
}

impl Choice<Track> for OfLocalFolders {
    closed spec fn test(&self) -> spec_fn(TrackView) -> bool {
        track_is_local()
    }

    fn takes(&self, item: &Track) -> (result: bool) {
        text::starts_with(item.id.as_str(), "local:")
    }
}

/// A section as it is kept for a source: for local folders nothing of another source stays.
pub open spec fn kept_section(section: HomeSectionView, local: bool) -> HomeSectionView {
    if local {
        HomeSectionView {
            albums: chosen(section.albums, album_is_local()),
            tracks: chosen(section.tracks, track_is_local()),
            ..section
        }
    } else {
        section
    }
}

/// A section as it is kept for a source.
pub fn keep_section(section: HomeSection, local: bool) -> (result: HomeSection)
    ensures
        result.deep_view() == kept_section(section.deep_view(), local),
{
    if !local {
        return section;
    }
    HomeSection {
        kind: section.kind,
        albums: choose_items(&section.albums, &OfLocalFolders {}),
        tracks: choose_items(&section.tracks, &OfLocalFolders {}),
    }
}

/// In what is kept for local folders all albums and tracks are theirs, and what is theirs is
/// kept.
pub proof fn local_sections_hold_local_items(section: HomeSectionView, album: AlbumView)
    ensures
        kept_section(section, true).albums.contains(album) <==> section.albums.contains(album)
            && "local:"@.is_prefix_of(album.id),
{
    crate::select::chosen_are_those_that_pass(section.albums, album_is_local(), album);
}

/// A section of local folders holds exactly its local albums and tracks, in their order; one of
/// a server stays as it is.
pub proof fn sections_keep_what_fits_their_source(section: HomeSectionView)
    ensures
        kept_section(section, false) == section,
        kept_section(section, true).kind == section.kind,
        kept_section(section, true).albums == section.albums.filter(
            |album: AlbumView| "local:"@.is_prefix_of(album.id),
        ),
        kept_section(section, true).tracks == section.tracks.filter(
            |track: TrackView| "local:"@.is_prefix_of(track.id),
        ),
        forall|kind: HomeSectionKind|
            #![trigger refreshed_kinds(HomeRefreshTargetView::Section(kind))]
            refreshed_kinds(HomeRefreshTargetView::Section(kind)) == seq![kind],
{
    crate::select::chosen_keeps_the_order(section.albums, album_is_local());
    crate::select::chosen_keeps_the_order(section.tracks, track_is_local());
}

} // verus!
