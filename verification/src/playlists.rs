//! Playlists: their entries, what changing them tells a server, and their images.

use crate::model::events::{
    PlaylistMove, PlaylistMoveView, PlaylistMutation, PlaylistMutationView,
};
use crate::model::ids::{PlaylistId, TrackId};
use crate::model::library::{
    Album, AlbumView, ImageRef, ImageRefView, Playlist, PlaylistEntry, PlaylistEntryView,
    PlaylistView, Track, TrackView,
};
use crate::select::{
    choose_items, chosen, chosen_are_those_that_pass, chosen_keeps_the_order, Choice,
};
use crate::text::{
    self, decimal, digits_value, is_digit, lemma_decimal_value, lemma_first_index,
};
use crate::value::Value;
use vstd::prelude::*;

verus! {

/// How many images a group of items is shown by at most.
pub const COVER_GROUP_LIMIT: usize = 4;

/// The entry of a playlist that a track becomes.
pub open spec fn new_entry(
    playlist_id: Seq<char>,
    prefix: u64,
    index: int,
    track: TrackView,
) -> PlaylistEntryView {
    PlaylistEntryView {
        entry_id: playlist_id + ":"@ + decimal(prefix as nat) + ":"@ + decimal(index as nat),
        track,
    }
}

/// The entries of a playlist that tracks become.
pub open spec fn new_entries(
    playlist_id: Seq<char>,
    prefix: u64,
    tracks: Seq<TrackView>,
) -> Seq<PlaylistEntryView> {
    Seq::new(tracks.len(), |i: int| new_entry(playlist_id, prefix, i, tracks[i]))
}

/// The entries of a playlist that tracks become; the prefix tells them from those added at
/// another time.
pub fn playlist_entries_for_tracks(playlist_id: &PlaylistId, prefix: u64, tracks: &Vec<Track>) -> (
result: Vec<PlaylistEntry>)
    ensures
        result.deep_view() == new_entries(
            playlist_id.deep_view(),
            prefix,
            tracks.deep_view(),
        ),
{
    let ghost expected = new_entries(playlist_id.deep_view(), prefix, tracks.deep_view());
    let length: usize = tracks.len();
    let mut start: String = text::concat(playlist_id.as_str(), ":");
    start.push_str(text::decimal_text(prefix).as_str());
    start.push_str(":");
    let mut result: Vec<PlaylistEntry> = Vec::new();
    let mut i: usize = 0;
    assert(result.deep_view() =~= expected.take(0));
    while i < length
        invariant
            i <= length,
            length == tracks@.len(),
            expected == new_entries(playlist_id.deep_view(), prefix, tracks.deep_view()),
            start@ == playlist_id.deep_view() + ":"@ + decimal(prefix as nat) + ":"@,
            result.deep_view() == expected.take(i as int),
        decreases length - i,
    {
        let ghost before = result.deep_view();
        let mut entry_id: String = start.copy();
        entry_id.push_str(text::decimal_text(i as u64).as_str());
        let entry: PlaylistEntry = PlaylistEntry { entry_id, track: tracks[i].copy() };
        assert(entry.deep_view() == expected[i as int]);
        result.push(entry);
        assert(result.deep_view() =~= before.push(expected[i as int]));
        assert(expected.take(i + 1) =~= before.push(expected[i as int]));
        i += 1;
    }
    assert(expected.take(i as int) =~= expected);
    result
}

/// Whether an entry is another than one with an identifier.
pub open spec fn is_other(entry_id: Seq<char>) -> spec_fn(PlaylistEntryView) -> bool {
    |entry: PlaylistEntryView| entry.entry_id != entry_id
}

struct Other<'a> {
    entry_id: &'a String,
}

impl<'a> Choice<PlaylistEntry> for Other<'a> {
    closed spec fn test(&self) -> spec_fn(PlaylistEntryView) -> bool {
        is_other(self.entry_id@)
    }

    fn takes(&self, item: &PlaylistEntry) -> (result: bool) {
        !item.entry_id.same(self.entry_id)
    }
}

/// The entries without one.
pub open spec fn without_entry(entries: Seq<PlaylistEntryView>, entry_id: Seq<char>) -> Seq<
    PlaylistEntryView,
> {
    chosen(entries, is_other(entry_id))
}

/// The entries without one.
pub fn remove_entry(entries: &Vec<PlaylistEntry>, entry_id: &String) -> (result: Vec<
    PlaylistEntry,
>)
    ensures
        result.deep_view() == without_entry(entries.deep_view(), entry_id@),
{
    choose_items(entries, &Other { entry_id })
}

/// Where an entry stands, or the length where it does not.
pub open spec fn entry_place(entries: Seq<PlaylistEntryView>, entry_id: Seq<char>) -> int
    decreases entries.len(),
{
    if entries.len() == 0 || entries[0].entry_id == entry_id {
        0
    } else {
        1 + entry_place(entries.drop_first(), entry_id)
    }
}

proof fn lemma_entry_place(entries: Seq<PlaylistEntryView>, entry_id: Seq<char>)
    ensures
        0 <= entry_place(entries, entry_id) <= entries.len(),
        entry_place(entries, entry_id) < entries.len() ==> entries[entry_place(
            entries,
            entry_id,
        )].entry_id == entry_id,
        forall|i: int|
            0 <= i < entry_place(entries, entry_id) ==> (#[trigger] entries[i]).entry_id
                != entry_id,
    decreases entries.len(),
{
    if entries.len() > 0 && entries[0].entry_id != entry_id {
        let rest = entries.drop_first();
        lemma_entry_place(rest, entry_id);
        assert forall|i: int| 0 <= i < entry_place(entries, entry_id) implies (
        #[trigger] entries[i]).entry_id != entry_id by {
            if i > 0 {
                assert(rest[i - 1] == entries[i]);
            }
        }
    }
}

/// Where an entry stands, or the length where it does not.
pub fn find_entry(entries: &Vec<PlaylistEntry>, entry_id: &String) -> (result: usize)
    ensures
        result == entry_place(entries.deep_view(), entry_id@),
        result <= entries@.len(),
{
    let ghost all = entries.deep_view();
    let mut i: usize = 0;
    assert(all.skip(0) =~= all);
    while i < entries.len()
        invariant
            i <= entries@.len(),
            all == entries.deep_view(),
            entry_place(all, entry_id@) == i + entry_place(all.skip(i as int), entry_id@),
        decreases entries.len() - i,
    {
        assert(all.skip(i as int)[0] == entries@[i as int].deep_view());
        if entries[i].entry_id.same(entry_id) {
            return i;
        }
        assert(all.skip(i as int).drop_first() =~= all.skip(i + 1));
        i += 1;
    }
    assert(all.skip(i as int).len() == 0);
    i
}

/// The entries with one of them moved to a place, or to the end where that is beyond it.
pub open spec fn with_entry_at(
    entries: Seq<PlaylistEntryView>,
    entry_id: Seq<char>,
    new_index: usize,
) -> Seq<PlaylistEntryView> {
    let at = entry_place(entries, entry_id);
    if at >= entries.len() {
        entries
    } else {
        let rest = entries.remove(at);
        rest.insert(
            if new_index < rest.len() {
                new_index as int
            } else {
                rest.len() as int
            },
            entries[at],
        )
    }
}

/// Moves an entry to a place, or to the end where that is beyond it.
pub fn move_entry(entries: &mut Vec<PlaylistEntry>, entry_id: &String, new_index: usize)
    ensures
        final(entries).deep_view() == with_entry_at(
            old(entries).deep_view(),
            entry_id@,
            new_index,
        ),
{
    let ghost before = entries.deep_view();
    let at: usize = find_entry(entries, entry_id);
    if at < entries.len() {
        let entry: PlaylistEntry = entries.remove(at);
        let ghost moved = entry.deep_view();
        assert(moved == before[at as int]);
        assert(entries.deep_view() =~= before.remove(at as int));
        let ghost rest = entries.deep_view();
        let to: usize = if new_index < entries.len() {
            new_index
        } else {
            entries.len()
        };
        assert(rest.len() == entries@.len());
        entries.insert(to, entry);
        assert(entries.deep_view() =~= rest.insert(to as int, moved));
    }
}

/// A moved entry stands at its place; the others keep their order.
pub proof fn moving_keeps_the_others(
    entries: Seq<PlaylistEntryView>,
    entry_id: Seq<char>,
    new_index: usize,
)
    requires
        entry_place(entries, entry_id) < entries.len(),
        new_index < entries.len(),
    ensures
        ({
            let at = entry_place(entries, entry_id);
            let moved = with_entry_at(entries, entry_id, new_index);
            &&& moved.len() == entries.len()
            &&& moved[new_index as int] == entries[at]
            &&& moved.remove(new_index as int) == entries.remove(at)
        }),
{
    lemma_entry_place(entries, entry_id);
    let at = entry_place(entries, entry_id);
    let rest = entries.remove(at);
    let moved = with_entry_at(entries, entry_id, new_index);
    assert(moved.remove(new_index as int) =~= rest);
}

/// A removed entry is gone, and nothing else is.
pub proof fn removing_takes_one_entry(
    entries: Seq<PlaylistEntryView>,
    entry_id: Seq<char>,
    entry: PlaylistEntryView,
)
    ensures
        without_entry(entries, entry_id).contains(entry) <==> entries.contains(entry)
            && entry.entry_id != entry_id,
{
    chosen_are_those_that_pass(entries, is_other(entry_id), entry);
}

/// The length of entries in seconds, as the sum wraps around at the largest number.
pub open spec fn total_seconds(entries: Seq<PlaylistEntryView>) -> u32
    decreases entries.len(),
{
    if entries.len() == 0 {
        0
    } else {
        total_seconds(entries.drop_last()).wrapping_add(entries.last().track.duration_seconds)
    }
}

/// The first image among entries.
pub open spec fn first_image(entries: Seq<PlaylistEntryView>) -> Option<ImageRefView>
    decreases entries.len(),
{
    if entries.len() == 0 {
        None
    } else if entries[0].track.image_ref is Some {
        entries[0].track.image_ref
    } else {
        first_image(entries.drop_first())
    }
}

/// A playlist with what its entries make of it: their number, length and first image.
pub open spec fn summarized(playlist: PlaylistView, entries: Seq<PlaylistEntryView>)
    -> PlaylistView {
    PlaylistView {
        track_count: entries.len() as u32,
        duration_seconds: total_seconds(entries),
        image_ref: match first_image(entries) {
            Some(image_ref) => Some(image_ref),
            None => playlist.image_ref,
        },
        ..playlist
    }
}

fn seconds_of(entries: &Vec<PlaylistEntry>) -> (result: u32)
    ensures
        result == total_seconds(entries.deep_view()),
{
    let ghost all = entries.deep_view();
    let mut total: u32 = 0;
    let mut i: usize = 0;
    assert(all.take(0) =~= Seq::empty());
    while i < entries.len()
        invariant
            i <= entries@.len(),
            all == entries.deep_view(),
            total == total_seconds(all.take(i as int)),
        decreases entries.len() - i,
    {
        assert(all.take(i + 1).drop_last() =~= all.take(i as int));
        assert(all.take(i + 1).last() == entries@[i as int].deep_view());
        total = total.wrapping_add(entries[i].track.duration_seconds);
        i += 1;
    }
    assert(all.take(i as int) =~= all);
    total
}

fn image_of(entries: &Vec<PlaylistEntry>) -> (result: Option<ImageRef>)
    ensures
        result.deep_view() == first_image(entries.deep_view()),
{
    let ghost all = entries.deep_view();
    let mut i: usize = 0;
    assert(all.skip(0) =~= all);
    while i < entries.len()
        invariant
            i <= entries@.len(),
            all == entries.deep_view(),
            first_image(all) == first_image(all.skip(i as int)),
        decreases entries.len() - i,
    {
        assert(all.skip(i as int)[0] == entries@[i as int].deep_view());
        if entries[i].track.image_ref.is_some() {
            return entries[i].track.image_ref.copy();
        }
        assert(all.skip(i as int).drop_first() =~= all.skip(i + 1));
        i += 1;
    }
    assert(all.skip(i as int).len() == 0);
    None
}

/// A playlist with what its entries make of it.
pub fn summarize(playlist: &Playlist, entries: &Vec<PlaylistEntry>) -> (result: Playlist)
    ensures
        result.deep_view() == summarized(playlist.deep_view(), entries.deep_view()),
{
    let mut result: Playlist = playlist.copy();
    let length: usize = entries.len();
    assert(entries.deep_view().len() == length);
    result.track_count = length as u32;
    result.duration_seconds = seconds_of(entries);
    if let Some(image_ref) = image_of(entries) {
        result.image_ref = Some(image_ref);
    }
    result
}

/// The identifiers of the entries that are not among others.
pub open spec fn ids_missing(
    entries: Seq<PlaylistEntryView>,
    others: Seq<PlaylistEntryView>,
) -> Seq<Seq<char>>
    decreases entries.len(),
{
    if entries.len() == 0 {
        Seq::empty()
    } else {
        let front = ids_missing(entries.drop_last(), others);
        if entry_place(others, entries.last().entry_id) < others.len() {
            front
        } else {
            front.push(entries.last().entry_id)
        }
    }
}

/// The tracks of the entries that are not among others.
pub open spec fn tracks_missing(
    entries: Seq<PlaylistEntryView>,
    others: Seq<PlaylistEntryView>,
) -> Seq<Seq<char>>
    decreases entries.len(),
{
    if entries.len() == 0 {
        Seq::empty()
    } else {
        let front = tracks_missing(entries.drop_last(), others);
        if entry_place(others, entries.last().entry_id) < others.len() {
            front
        } else {
            front.push(entries.last().track.id)
        }
    }
}

/// The entries that stand at another place than among others, with their places.
pub open spec fn moves(entries: Seq<PlaylistEntryView>, others: Seq<PlaylistEntryView>) -> Seq<
    PlaylistMoveView,
>
    decreases entries.len(),
{
    if entries.len() == 0 {
        Seq::empty()
    } else {
        let front = moves(entries.drop_last(), others);
        let index = entries.len() - 1;
        let old_index = entry_place(others, entries.last().entry_id);
        if old_index < others.len() && old_index != index {
            front.push(
                PlaylistMoveView { entry_id: entries.last().entry_id, new_index: index as usize },
            )
        } else {
            front
        }
    }
}

/// What a server is asked to do so that a playlist becomes as it is wanted: entries are
/// removed, added and moved, in this order.
pub open spec fn mutation_of(
    playlist_id: Seq<char>,
    before: Seq<PlaylistEntryView>,
    after: Seq<PlaylistEntryView>,
) -> PlaylistMutationView {
    PlaylistMutationView {
        playlist_id,
        removed: ids_missing(before, after),
        added: tracks_missing(after, before),
        moved: moves(after, before),
    }
}

fn list_missing_ids(entries: &Vec<PlaylistEntry>, others: &Vec<PlaylistEntry>) -> (result: Vec<
    String,
>)
    ensures
        result.deep_view() == ids_missing(entries.deep_view(), others.deep_view()),
{
    let ghost all = entries.deep_view();
    let ghost kept = others.deep_view();
    let mut result: Vec<String> = Vec::new();
    let mut i: usize = 0;
    assert(all.take(0) =~= Seq::empty());
    assert(result.deep_view() =~= Seq::empty());
    while i < entries.len()
        invariant
            i <= entries@.len(),
            all == entries.deep_view(),
            kept == others.deep_view(),
            kept.len() == others@.len(),
            result.deep_view() == ids_missing(all.take(i as int), kept),
        decreases entries.len() - i,
    {
        assert(all.take(i + 1).drop_last() =~= all.take(i as int));
        assert(all.take(i + 1).last() == entries@[i as int].deep_view());
        let ghost before = result.deep_view();
        if find_entry(others, &entries[i].entry_id) >= others.len() {
            result.push(entries[i].entry_id.copy());
            assert(result.deep_view() =~= before.push(all[i as int].entry_id));
        }
        i += 1;
    }
    assert(all.take(i as int) =~= all);
    result
}

fn list_missing_tracks(entries: &Vec<PlaylistEntry>, others: &Vec<PlaylistEntry>) -> (result: Vec<
    TrackId,
>)
    ensures
        result.deep_view() == tracks_missing(entries.deep_view(), others.deep_view()),
{
    let ghost all = entries.deep_view();
    let ghost kept = others.deep_view();
    let mut result: Vec<TrackId> = Vec::new();
    let mut i: usize = 0;
    assert(all.take(0) =~= Seq::empty());
    assert(result.deep_view() =~= Seq::empty());
    while i < entries.len()
        invariant
            i <= entries@.len(),
            all == entries.deep_view(),
            kept == others.deep_view(),
            kept.len() == others@.len(),
            result.deep_view() == tracks_missing(all.take(i as int), kept),
        decreases entries.len() - i,
    {
        assert(all.take(i + 1).drop_last() =~= all.take(i as int));
        assert(all.take(i + 1).last() == entries@[i as int].deep_view());
        let ghost before = result.deep_view();
        if find_entry(others, &entries[i].entry_id) >= others.len() {
            result.push(entries[i].track.id.copy());
            assert(result.deep_view() =~= before.push(all[i as int].track.id));
        }
        i += 1;
    }
    assert(all.take(i as int) =~= all);
    result
}

fn list_moves(entries: &Vec<PlaylistEntry>, others: &Vec<PlaylistEntry>) -> (result: Vec<
    PlaylistMove,
>)
    ensures
        result.deep_view() == moves(entries.deep_view(), others.deep_view()),
{
    let ghost all = entries.deep_view();
    let ghost kept = others.deep_view();
    let mut result: Vec<PlaylistMove> = Vec::new();
    let mut i: usize = 0;
    assert(all.take(0) =~= Seq::empty());
    assert(result.deep_view() =~= Seq::empty());
    while i < entries.len()
        invariant
            i <= entries@.len(),
            all == entries.deep_view(),
            kept == others.deep_view(),
            kept.len() == others@.len(),
            result.deep_view() == moves(all.take(i as int), kept),
        decreases entries.len() - i,
    {
        assert(all.take(i + 1).drop_last() =~= all.take(i as int));
        assert(all.take(i + 1).last() == entries@[i as int].deep_view());
        let ghost before = result.deep_view();
        let old_index: usize = find_entry(others, &entries[i].entry_id);
        if old_index < others.len() && old_index != i {
            let step: PlaylistMove = PlaylistMove {
                entry_id: entries[i].entry_id.copy(),
                new_index: i,
            };
            let ghost added = step.deep_view();
            result.push(step);
            assert(result.deep_view() =~= before.push(added));
        }
        i += 1;
    }
    assert(all.take(i as int) =~= all);
    result
}

/// What a server is asked to do so that a playlist becomes as it is wanted.
pub fn playlist_mutation(
    playlist_id: &PlaylistId,
    before: &Vec<PlaylistEntry>,
    after: &Vec<PlaylistEntry>,
) -> (result: PlaylistMutation)
    ensures
        result.deep_view() == mutation_of(
            playlist_id.deep_view(),
            before.deep_view(),
            after.deep_view(),
        ),
{
    PlaylistMutation {
        playlist_id: playlist_id.copy(),
        removed: list_missing_ids(before, after),
        added: list_missing_tracks(after, before),
        moved: list_moves(after, before),
    }
}

proof fn lemma_nothing_missing(entries: Seq<PlaylistEntryView>, others: Seq<PlaylistEntryView>)
    requires
        forall|i: int|
            0 <= i < entries.len() ==> entry_place(others, (#[trigger] entries[i]).entry_id) == i,
        entries.len() <= others.len(),
    ensures
        ids_missing(entries, others) == Seq::<Seq<char>>::empty(),
        tracks_missing(entries, others) == Seq::<Seq<char>>::empty(),
        moves(entries, others) == Seq::<PlaylistMoveView>::empty(),
    decreases entries.len(),
{
    if entries.len() > 0 {
        let front = entries.drop_last();
        assert forall|i: int| 0 <= i < front.len() implies entry_place(
            others,
            (#[trigger] front[i]).entry_id,
        ) == i by {
            assert(front[i] == entries[i]);
        }
        lemma_nothing_missing(front, others);
        assert(entries.last() == entries[entries.len() - 1]);
    }
}

/// A server is asked for nothing where a playlist stays as it is.
pub proof fn unchanged_playlists_ask_for_nothing(
    playlist_id: Seq<char>,
    entries: Seq<PlaylistEntryView>,
)
    requires
        forall|i: int, j: int|
            0 <= i < j < entries.len() ==> (#[trigger] entries[i]).entry_id != (
            #[trigger] entries[j]).entry_id,
    ensures
        mutation_of(playlist_id, entries, entries) == (PlaylistMutationView {
            playlist_id,
            removed: Seq::empty(),
            added: Seq::empty(),
            moved: Seq::empty(),
        }),
{
    assert forall|i: int| 0 <= i < entries.len() implies entry_place(
        entries,
        (#[trigger] entries[i]).entry_id,
    ) == i by {
        lemma_entry_place(entries, entries[i].entry_id);
    }
    lemma_nothing_missing(entries, entries);
}

/// Images with one more, unless it is among them or there are enough.
pub open spec fn with_cover(refs: Seq<ImageRefView>, image_ref: Option<ImageRefView>) -> Seq<
    ImageRefView,
> {
    match image_ref {
        Some(image_ref) if refs.len() < COVER_GROUP_LIMIT && !refs.contains(image_ref) =>
        refs.push(image_ref),
        _ => refs,
    }
}

/// Images with those of albums.
pub open spec fn with_album_covers(refs: Seq<ImageRefView>, albums: Seq<AlbumView>) -> Seq<
    ImageRefView,
>
    decreases albums.len(),
{
    if albums.len() == 0 {
        refs
    } else {
        with_cover(with_album_covers(refs, albums.drop_last()), albums.last().image_ref)
    }
}

/// Images with those of tracks.
pub open spec fn with_track_covers(refs: Seq<ImageRefView>, tracks: Seq<TrackView>) -> Seq<
    ImageRefView,
>
    decreases tracks.len(),
{
    if tracks.len() == 0 {
        refs
    } else {
        with_cover(with_track_covers(refs, tracks.drop_last()), tracks.last().image_ref)
    }
}

/// The images that a group of items is shown by: the first ones of the albums and of the
/// tracks, each once.
pub open spec fn grouped_covers(albums: Seq<AlbumView>, tracks: Seq<TrackView>) -> Seq<
    ImageRefView,
> {
    with_track_covers(with_album_covers(Seq::empty(), albums), tracks)
}

fn add_cover(refs: &mut Vec<ImageRef>, image_ref: &Option<ImageRef>)
    ensures
        final(refs).deep_view() == with_cover(old(refs).deep_view(), image_ref.deep_view()),
{
    let ghost before = refs.deep_view();
    assert(before.len() == refs@.len());
    if let Some(image_ref) = image_ref {
        if refs.len() < COVER_GROUP_LIMIT && !crate::value::holds(refs, image_ref) {
            refs.push(image_ref.copy());
            assert(refs.deep_view() =~= before.push(image_ref.deep_view()));
        }
    }
}

/// The images that a group of items is shown by.
pub fn grouped_cover_refs_for_items(albums: &Vec<Album>, tracks: &Vec<Track>) -> (result: Vec<
    ImageRef,
>)
    ensures
        result.deep_view() == grouped_covers(albums.deep_view(), tracks.deep_view()),
{
    let ghost all_albums = albums.deep_view();
    let ghost all_tracks = tracks.deep_view();
    let mut refs: Vec<ImageRef> = Vec::new();
    let ghost none = refs.deep_view();
    assert(none =~= Seq::empty());
    let mut i: usize = 0;
    assert(all_albums.take(0) =~= Seq::empty());
    while i < albums.len()
        invariant
            i <= albums@.len(),
            all_albums == albums.deep_view(),
            refs.deep_view() == with_album_covers(none, all_albums.take(i as int)),
        decreases albums.len() - i,
    {
        assert(all_albums.take(i + 1).drop_last() =~= all_albums.take(i as int));
        assert(all_albums.take(i + 1).last() == albums@[i as int].deep_view());
        add_cover(&mut refs, &albums[i].image_ref);
        i += 1;
    }
    assert(all_albums.take(i as int) =~= all_albums);
    let ghost of_albums = refs.deep_view();
    let mut j: usize = 0;
    assert(all_tracks.take(0) =~= Seq::empty());
    while j < tracks.len()
        invariant
            j <= tracks@.len(),
            all_tracks == tracks.deep_view(),
            refs.deep_view() == with_track_covers(of_albums, all_tracks.take(j as int)),
        decreases tracks.len() - j,
    {
        assert(all_tracks.take(j + 1).drop_last() =~= all_tracks.take(j as int));
        assert(all_tracks.take(j + 1).last() == tracks@[j as int].deep_view());
        add_cover(&mut refs, &tracks[j].image_ref);
        j += 1;
    }
    assert(all_tracks.take(j as int) =~= all_tracks);
    refs
}

proof fn lemma_album_covers(refs: Seq<ImageRefView>, albums: Seq<AlbumView>)
    requires
        refs.no_duplicates(),
        refs.len() <= COVER_GROUP_LIMIT,
    ensures
        with_album_covers(refs, albums).no_duplicates(),
        with_album_covers(refs, albums).len() <= COVER_GROUP_LIMIT,
    decreases albums.len(),
{
    if albums.len() > 0 {
        lemma_album_covers(refs, albums.drop_last());
    }
}

proof fn lemma_track_covers(refs: Seq<ImageRefView>, tracks: Seq<TrackView>)
    requires
        refs.no_duplicates(),
        refs.len() <= COVER_GROUP_LIMIT,
    ensures
        with_track_covers(refs, tracks).no_duplicates(),
        with_track_covers(refs, tracks).len() <= COVER_GROUP_LIMIT,
    decreases tracks.len(),
{
    if tracks.len() > 0 {
        lemma_track_covers(refs, tracks.drop_last());
    }
}

/// A group of items is shown by a few images at most, none of them twice.
pub proof fn grouped_covers_are_few_and_distinct(albums: Seq<AlbumView>, tracks: Seq<TrackView>)
    ensures
        grouped_covers(albums, tracks).len() <= COVER_GROUP_LIMIT,
        grouped_covers(albums, tracks).no_duplicates(),
{
    lemma_album_covers(Seq::empty(), albums);
    lemma_track_covers(with_album_covers(Seq::empty(), albums), tracks);
}

/// Whether an entry with an identifier stands in a playlist.
pub open spec fn has_entry(entries: Seq<PlaylistEntryView>, entry_id: Seq<char>) -> bool {
    exists|i: int| 0 <= i < entries.len() && (#[trigger] entries[i]).entry_id == entry_id
}

/// Whether no two entries of a playlist have the same identifier.
pub open spec fn distinct_entries(entries: Seq<PlaylistEntryView>) -> bool {
    forall|i: int, j: int|
        0 <= i < j < entries.len() ==> (#[trigger] entries[i]).entry_id != (
        #[trigger] entries[j]).entry_id
}

/// The tracks of a playlist, in its order.
pub open spec fn track_ids(entries: Seq<PlaylistEntryView>) -> Seq<Seq<char>> {
    entries.map_values(|entry: PlaylistEntryView| entry.track.id)
}

/// The entries after some moves were carried out, one after the other.
pub open spec fn moved_by(entries: Seq<PlaylistEntryView>, moved: Seq<PlaylistMoveView>) -> Seq<
    PlaylistEntryView,
>
    decreases moved.len(),
{
    if moved.len() == 0 {
        entries
    } else {
        with_entry_at(
            moved_by(entries, moved.drop_last()),
            moved.last().entry_id,
            moved.last().new_index,
        )
    }
}

/// The tracks of a playlist on a server that carried out what it was asked to.
pub open spec fn carried_out(
    entries: Seq<PlaylistEntryView>,
    asked: PlaylistMutationView,
) -> Seq<Seq<char>> {
    let left = entries.filter(
        |entry: PlaylistEntryView| !asked.removed.contains(entry.entry_id),
    );
    track_ids(moved_by(left, asked.moved)) + asked.added
}

proof fn lemma_place_in(entries: Seq<PlaylistEntryView>, at: int)
    requires
        distinct_entries(entries),
        0 <= at < entries.len(),
    ensures
        entry_place(entries, entries[at].entry_id) == at,
{
    lemma_entry_place(entries, entries[at].entry_id);
}

proof fn lemma_place_and_presence(entries: Seq<PlaylistEntryView>, entry_id: Seq<char>)
    ensures
        entry_place(entries, entry_id) < entries.len() <==> has_entry(entries, entry_id),
{
    lemma_entry_place(entries, entry_id);
    if entry_place(entries, entry_id) < entries.len() {
        assert(entries[entry_place(entries, entry_id)].entry_id == entry_id);
    }
}

/// A server is asked to remove exactly the entries that are gone and to add exactly the tracks
/// of those that are new, in their order; and it is told the place of exactly those that stand
/// elsewhere than before.
pub proof fn changes_ask_for_what_differs(
    playlist_id: Seq<char>,
    before: Seq<PlaylistEntryView>,
    after: Seq<PlaylistEntryView>,
)
    requires
        after.len() <= usize::MAX,
    ensures
        ({
            let asked = mutation_of(playlist_id, before, after);
            &&& asked.playlist_id == playlist_id
            &&& asked.removed == before.filter(
                |entry: PlaylistEntryView| !has_entry(after, entry.entry_id),
            ).map_values(|entry: PlaylistEntryView| entry.entry_id)
            &&& asked.added == track_ids(
                after.filter(|entry: PlaylistEntryView| !has_entry(before, entry.entry_id)),
            )
            &&& forall|i: int|
                0 <= i < asked.moved.len() ==> {
                    let moved = #[trigger] asked.moved[i];
                    &&& moved.new_index < after.len()
                    &&& after[moved.new_index as int].entry_id == moved.entry_id
                    &&& has_entry(before, moved.entry_id)
                }
            &&& forall|i: int|
                0 <= i < after.len() && has_entry(before, (#[trigger] after[i]).entry_id) && !(i
                    < before.len() && before[i].entry_id == after[i].entry_id)
                    ==> asked.moved.contains(
                    (PlaylistMoveView { entry_id: after[i].entry_id, new_index: i as usize }),
                )
        }),
{
    lemma_missing(before, after);
    lemma_missing(after, before);
    lemma_moves(after, before);
}

proof fn lemma_missing(entries: Seq<PlaylistEntryView>, others: Seq<PlaylistEntryView>)
    ensures
        ids_missing(entries, others) == entries.filter(
            |entry: PlaylistEntryView| !has_entry(others, entry.entry_id),
        ).map_values(|entry: PlaylistEntryView| entry.entry_id),
        tracks_missing(entries, others) == track_ids(
            entries.filter(|entry: PlaylistEntryView| !has_entry(others, entry.entry_id)),
        ),
    decreases entries.len(),
{
    let absent = |entry: PlaylistEntryView| !has_entry(others, entry.entry_id);
    let found = entries.filter(absent);
    reveal(Seq::filter);
    if entries.len() > 0 {
        lemma_missing(entries.drop_last(), others);
        lemma_place_and_presence(others, entries.last().entry_id);
        let front = entries.drop_last().filter(absent);
        if absent(entries.last()) {
            assert(found == front.push(entries.last()));
            assert(track_ids(found) =~= track_ids(front).push(entries.last().track.id));
            assert(found.map_values(|entry: PlaylistEntryView| entry.entry_id)
                =~= front.map_values(|entry: PlaylistEntryView| entry.entry_id).push(
                entries.last().entry_id,
            ));
        }
    } else {
        assert(track_ids(found) =~= Seq::empty());
        assert(found.map_values(|entry: PlaylistEntryView| entry.entry_id) =~= Seq::empty());
    }
}

proof fn lemma_moves(entries: Seq<PlaylistEntryView>, others: Seq<PlaylistEntryView>)
    requires
        entries.len() <= usize::MAX,
    ensures
        forall|i: int|
            0 <= i < moves(entries, others).len() ==> {
                let moved = #[trigger] moves(entries, others)[i];
                &&& moved.new_index < entries.len()
                &&& entries[moved.new_index as int].entry_id == moved.entry_id
                &&& has_entry(others, moved.entry_id)
            },
        forall|i: int|
            0 <= i < entries.len() && has_entry(others, (#[trigger] entries[i]).entry_id) && !(i
                < others.len() && others[i].entry_id == entries[i].entry_id) ==> moves(
                entries,
                others,
            ).contains(
                (PlaylistMoveView { entry_id: entries[i].entry_id, new_index: i as usize }),
            ),
    decreases entries.len(),
{
    if entries.len() > 0 {
        let front = entries.drop_last();
        lemma_moves(front, others);
        let index = entries.len() - 1;
        let before = moves(front, others);
        let after = moves(entries, others);
        lemma_entry_place(others, entries.last().entry_id);
        lemma_place_and_presence(others, entries.last().entry_id);
        assert forall|i: int| 0 <= i < after.len() implies ({
            let moved = #[trigger] after[i];
            &&& moved.new_index < entries.len()
            &&& entries[moved.new_index as int].entry_id == moved.entry_id
            &&& has_entry(others, moved.entry_id)
        }) by {
            if i < before.len() {
                assert(after[i] == before[i]);
                assert(front[before[i].new_index as int] == entries[before[i].new_index as int]);
            }
        }
        assert forall|i: int|
            0 <= i < entries.len() && has_entry(others, (#[trigger] entries[i]).entry_id) && !(i
                < others.len() && others[i].entry_id == entries[i].entry_id) implies after.contains(
            (PlaylistMoveView { entry_id: entries[i].entry_id, new_index: i as usize }),
        ) by {
            let wanted = PlaylistMoveView { entry_id: entries[i].entry_id, new_index: i as usize };
            if i < index {
                assert(front[i] == entries[i]);
                assert(before.contains(wanted));
                let at = choose|at: int| 0 <= at < before.len() && before[at] == wanted;
                assert(after[at] == wanted);
            } else {
                assert(after[before.len() as int] == wanted);
            }
        }
    }
}

/// Where entries are added at the end of a playlist, a server is asked to add exactly their
/// tracks, in their order, and nothing else.
pub proof fn additions_ask_for_the_new_tracks(
    playlist_id: Seq<char>,
    before: Seq<PlaylistEntryView>,
    added: Seq<PlaylistEntryView>,
)
    requires
        distinct_entries(before + added),
        before.len() + added.len() <= usize::MAX,
    ensures
        ({
            let asked = mutation_of(playlist_id, before, before + added);
            &&& asked.removed == Seq::<Seq<char>>::empty()
            &&& asked.added == Seq::new(added.len(), |i: int| added[i].track.id)
            &&& asked.moved == Seq::<PlaylistMoveView>::empty()
            &&& carried_out(before, asked) == track_ids(before + added)
        }),
{
    let after = before + added;
    let asked = mutation_of(playlist_id, before, after);
    assert forall|i: int| 0 <= i < before.len() implies entry_place(
        after,
        (#[trigger] before[i]).entry_id,
    ) == i by {
        assert(after[i] == before[i]);
        lemma_place_in(after, i);
    }
    lemma_nothing_missing(before, after);
    assert(distinct_entries(before)) by {
        assert forall|i: int, j: int| 0 <= i < j < before.len() implies (
        #[trigger] before[i]).entry_id != (#[trigger] before[j]).entry_id by {
            assert(after[i] == before[i] && after[j] == before[j]);
        }
    }
    lemma_added(before, added);
    lemma_all_kept(before, asked.removed);
    assert(track_ids(before) + asked.added =~= track_ids(after));
}

proof fn lemma_added(before: Seq<PlaylistEntryView>, added: Seq<PlaylistEntryView>)
    requires
        distinct_entries(before + added),
        distinct_entries(before),
    ensures
        tracks_missing(before + added, before) == Seq::new(
            added.len(),
            |i: int| added[i].track.id,
        ),
        moves(before + added, before) == Seq::<PlaylistMoveView>::empty(),
    decreases added.len(),
{
    if added.len() == 0 {
        assert(before + added =~= before);
        assert forall|i: int| 0 <= i < before.len() implies entry_place(
            before,
            (#[trigger] before[i]).entry_id,
        ) == i by {
            lemma_place_in(before, i);
        }
        lemma_nothing_missing(before, before);
    } else {
        let after = before + added;
        let front = before + added.drop_last();
        assert(after.drop_last() =~= front);
        assert(distinct_entries(front)) by {
            assert forall|i: int, j: int| 0 <= i < j < front.len() implies (
            #[trigger] front[i]).entry_id != (#[trigger] front[j]).entry_id by {
                assert(after[i] == front[i] && after[j] == front[j]);
            }
        }
        lemma_added(before, added.drop_last());
        let entry_id = after.last().entry_id;
        lemma_entry_place(before, entry_id);
        assert(entry_place(before, entry_id) == before.len()) by {
            if entry_place(before, entry_id) < before.len() {
                let at = entry_place(before, entry_id);
                assert(after[at] == before[at]);
                assert(after[after.len() - 1].entry_id == entry_id);
            }
        }
        assert(tracks_missing(after, before) =~= Seq::new(
            added.len(),
            |i: int| added[i].track.id,
        ));
    }
}

proof fn lemma_all_kept(entries: Seq<PlaylistEntryView>, removed: Seq<Seq<char>>)
    requires
        forall|i: int|
            0 <= i < entries.len() ==> !removed.contains((#[trigger] entries[i]).entry_id),
    ensures
        entries.filter(|entry: PlaylistEntryView| !removed.contains(entry.entry_id)) == entries,
    decreases entries.len(),
{
    reveal(Seq::filter);
    if entries.len() > 0 {
        let front = entries.drop_last();
        assert forall|i: int| 0 <= i < front.len() implies !removed.contains(
            (#[trigger] front[i]).entry_id,
        ) by {
            assert(front[i] == entries[i]);
        }
        lemma_all_kept(front, removed);
        assert(entries[entries.len() - 1] == entries.last());
        assert(front.push(entries.last()) =~= entries);
    }
}

proof fn lemma_step(entries: Seq<PlaylistEntryView>, at: int, to: int)
    requires
        distinct_entries(entries),
        entries.len() <= usize::MAX,
        0 <= at < entries.len(),
        0 <= to < entries.len(),
    ensures
        with_entry_at(entries, entries[at].entry_id, to as usize) == entries.remove(at).insert(
            to,
            entries[at],
        ),
        at == to ==> with_entry_at(entries, entries[at].entry_id, to as usize) == entries,
{
    lemma_place_in(entries, at);
    if at == to {
        assert(entries.remove(at).insert(to, entries[at]) =~= entries);
    }
}

/// The entries of a playlist after those before a place were moved, where one of them moves
/// from one place to another.
spec fn partly_moved(entries: Seq<PlaylistEntryView>, at: int, to: int, done: int) -> Seq<
    PlaylistEntryView,
> {
    if done <= at && done <= to {
        entries
    } else if at < to && done < to {
        entries.remove(at).insert(done, entries[at])
    } else {
        entries.remove(at).insert(to, entries[at])
    }
}

proof fn lemma_partial_step(entries: Seq<PlaylistEntryView>, at: int, to: int, i: int)
    requires
        distinct_entries(entries),
        entries.len() <= usize::MAX,
        0 <= at < entries.len(),
        0 <= to < entries.len(),
        at <= i <= to || to <= i <= at,
        at != to,
    ensures
        ({
            let from = if i == to {
                at
            } else if at < to {
                i + 1
            } else {
                i - 1
            };
            with_entry_at(
                partly_moved(entries, at, to, i),
                entries[from].entry_id,
                i as usize,
            ) == partly_moved(entries, at, to, i + 1)
        }),
{
    let rest = entries.remove(at);
    let moving = entries[at];
    let current = partly_moved(entries, at, to, i);
    let next = partly_moved(entries, at, to, i + 1);
    if at < to && i < to {
        assert(current =~= rest.insert(i, moving));
        assert(next =~= rest.insert(i + 1, moving));
        lemma_moved_distinct(entries, at, i);
        assert(current[i + 1] == entries[i + 1]);
        lemma_step(current, i + 1, i);
        assert(current.remove(i + 1).insert(i, current[i + 1]) =~= next);
    } else if i == to && at < to {
        assert(current =~= rest.insert(to, moving));
        assert(next =~= current);
        lemma_moved_distinct(entries, at, to);
        assert(current[to] == moving);
        lemma_step(current, to, to);
    } else if i == to {
        assert(current == entries);
        lemma_step(entries, at, to);
    } else {
        assert(current == rest.insert(to, moving));
        assert(next == current);
        lemma_moved_distinct(entries, at, to);
        assert(current[i] == entries[i - 1]);
        lemma_step(current, i, i);
    }
}

proof fn lemma_partly_moved(entries: Seq<PlaylistEntryView>, at: int, to: int, done: int)
    requires
        distinct_entries(entries),
        entries.len() <= usize::MAX,
        0 <= at < entries.len(),
        0 <= to < entries.len(),
        0 <= done <= entries.len(),
    ensures
        moved_by(
            entries,
            moves(entries.remove(at).insert(to, entries[at]).take(done), entries),
        ) == partly_moved(entries, at, to, done),
    decreases done,
{
    let after = entries.remove(at).insert(to, entries[at]);
    if done == 0 {
        assert(after.take(0) =~= Seq::empty());
    } else {
        let i = done - 1;
        lemma_partly_moved(entries, at, to, i);
        let head = after.take(done);
        assert(head.drop_last() =~= after.take(i));
        assert(head.last() == after[i]);
        let front = moves(after.take(i), entries);
        let listed = moves(head, entries);
        let current = partly_moved(entries, at, to, i);
        let next = partly_moved(entries, at, to, done);
        let from = if i == to {
            at
        } else if at < to && at <= i < to {
            i + 1
        } else if to < at && to < i <= at {
            i - 1
        } else {
            i
        };
        assert(after[i] == entries[from]);
        lemma_place_in(entries, from);
        if from == i {
            assert(listed == front);
            assert(current =~= next);
        } else {
            assert(listed.drop_last() =~= front);
            assert(listed.last() == (PlaylistMoveView {
                entry_id: entries[from].entry_id,
                new_index: i as usize,
            }));
            lemma_partial_step(entries, at, to, i);
        }
    }
}

proof fn lemma_moved_distinct(entries: Seq<PlaylistEntryView>, at: int, to: int)
    requires
        distinct_entries(entries),
        0 <= at < entries.len(),
        0 <= to < entries.len(),
    ensures
        distinct_entries(entries.remove(at).insert(to, entries[at])),
{
    let after = entries.remove(at).insert(to, entries[at]);
    let source = |i: int|
        if i == to {
            at
        } else {
            let j = if i < to {
                i
            } else {
                i - 1
            };
            if j < at {
                j
            } else {
                j + 1
            }
        };
    assert forall|i: int, j: int| 0 <= i < j < after.len() implies (#[trigger] after[i]).entry_id
        != (#[trigger] after[j]).entry_id by {
        assert(after[i] == entries[source(i)]);
        assert(after[j] == entries[source(j)]);
        assert(source(i) != source(j));
        if source(i) < source(j) {
            assert(entries[source(i)].entry_id != entries[source(j)].entry_id);
        } else {
            assert(entries[source(j)].entry_id != entries[source(i)].entry_id);
        }
    }
}

/// Where an entry is moved, a server is asked for nothing but moves, and carrying them out in
/// turn gives the wanted order.
pub proof fn moves_lead_to_the_wanted_order(
    playlist_id: Seq<char>,
    before: Seq<PlaylistEntryView>,
    entry_id: Seq<char>,
    new_index: usize,
)
    requires
        distinct_entries(before),
        before.len() <= usize::MAX,
    ensures
        ({
            let after = with_entry_at(before, entry_id, new_index);
            let asked = mutation_of(playlist_id, before, after);
            &&& asked.removed == Seq::<Seq<char>>::empty()
            &&& asked.added == Seq::<Seq<char>>::empty()
            &&& moved_by(before, asked.moved) == after
            &&& carried_out(before, asked) == track_ids(after)
        }),
{
    let after = with_entry_at(before, entry_id, new_index);
    let asked = mutation_of(playlist_id, before, after);
    lemma_entry_place(before, entry_id);
    let at = entry_place(before, entry_id);
    if at < before.len() {
        let to = if new_index < before.len() - 1 {
            new_index as int
        } else {
            before.len() - 1
        };
        assert(after == before.remove(at).insert(to, before[at]));
        lemma_partly_moved(before, at, to, before.len() as int);
        assert(after.take(before.len() as int) =~= after);
        assert(partly_moved(before, at, to, before.len() as int) == after);
        lemma_moved_distinct(before, at, to);
        lemma_same_entries(before, after, at, to);
        lemma_missing_none(before, after);
        lemma_missing_none(after, before);
    } else {
        unchanged_playlists_ask_for_nothing(playlist_id, before);
    }
    lemma_all_kept(before, asked.removed);
    assert(track_ids(after) + asked.added =~= track_ids(after));
}

proof fn lemma_same_entries(
    before: Seq<PlaylistEntryView>,
    after: Seq<PlaylistEntryView>,
    at: int,
    to: int,
)
    requires
        0 <= at < before.len(),
        0 <= to < before.len(),
        after == before.remove(at).insert(to, before[at]),
    ensures
        forall|i: int| 0 <= i < before.len() ==> has_entry(after, (#[trigger] before[i]).entry_id),
        forall|i: int| 0 <= i < after.len() ==> has_entry(before, (#[trigger] after[i]).entry_id),
{
    assert forall|i: int| 0 <= i < before.len() implies has_entry(
        after,
        (#[trigger] before[i]).entry_id,
    ) by {
        let j = if i < at {
            i
        } else {
            i - 1
        };
        let place = if i == at {
            to
        } else if j < to {
            j
        } else {
            j + 1
        };
        assert(after[place] == before[i]);
    }
    assert forall|i: int| 0 <= i < after.len() implies has_entry(
        before,
        (#[trigger] after[i]).entry_id,
    ) by {
        let j = if i < to {
            i
        } else {
            i - 1
        };
        let place = if i == to {
            at
        } else if j < at {
            j
        } else {
            j + 1
        };
        assert(before[place] == after[i]);
    }
}

proof fn lemma_missing_none(entries: Seq<PlaylistEntryView>, others: Seq<PlaylistEntryView>)
    requires
        forall|i: int|
            0 <= i < entries.len() ==> has_entry(others, (#[trigger] entries[i]).entry_id),
    ensures
        ids_missing(entries, others) == Seq::<Seq<char>>::empty(),
        tracks_missing(entries, others) == Seq::<Seq<char>>::empty(),
    decreases entries.len(),
{
    if entries.len() > 0 {
        let front = entries.drop_last();
        assert forall|i: int| 0 <= i < front.len() implies has_entry(
            others,
            (#[trigger] front[i]).entry_id,
        ) by {
            assert(front[i] == entries[i]);
        }
        lemma_missing_none(front, others);
        assert(entries[entries.len() - 1] == entries.last());
        lemma_place_and_presence(others, entries.last().entry_id);
    }
}

/// Where an entry is removed, a server is asked to remove exactly that one and to add nothing,
/// and carrying it out gives the other tracks in their order.
pub proof fn removals_ask_for_one_entry(
    playlist_id: Seq<char>,
    before: Seq<PlaylistEntryView>,
    at: int,
)
    requires
        distinct_entries(before),
        before.len() <= usize::MAX,
        0 <= at < before.len(),
    ensures
        ({
            let after = without_entry(before, before[at].entry_id);
            let asked = mutation_of(playlist_id, before, after);
            &&& after == before.remove(at)
            &&& asked.removed == seq![before[at].entry_id]
            &&& asked.added == Seq::<Seq<char>>::empty()
            &&& carried_out(before, asked) == track_ids(before.remove(at))
        }),
{
    let entry_id = before[at].entry_id;
    let after = before.remove(at);
    let asked = mutation_of(playlist_id, before, after);
    lemma_chosen_without(before, at);
    assert forall|i: int| 0 <= i < after.len() implies has_entry(
        before,
        (#[trigger] after[i]).entry_id,
    ) by {
        assert(before[if i < at {
            i
        } else {
            i + 1
        }] == after[i]);
    }
    lemma_missing_none(after, before);
    assert(distinct_entries(after)) by {
        assert forall|i: int, j: int| 0 <= i < j < after.len() implies (
        #[trigger] after[i]).entry_id != (#[trigger] after[j]).entry_id by {
            assert(after[i] == before[if i < at {
                i
            } else {
                i + 1
            }]);
            assert(after[j] == before[if j < at {
                j
            } else {
                j + 1
            }]);
        }
    }
    lemma_one_missing(before, at, before.len() as int);
    assert(before.take(before.len() as int) =~= before);
    chosen_keeps_the_order(before, is_other(entry_id));
    let kept = |entry: PlaylistEntryView| !asked.removed.contains(entry.entry_id);
    assert(asked.removed.contains(asked.removed[0]));
    assert(forall|id: Seq<char>| #[trigger] asked.removed.contains(id) ==> id == entry_id);
    assert(kept =~= is_other(entry_id));
    lemma_moves_in_place(after, before, after.len() as int);
    assert(after.take(after.len() as int) =~= after);
    assert(track_ids(after) + asked.added =~= track_ids(after));
}

proof fn lemma_chosen_without(entries: Seq<PlaylistEntryView>, at: int)
    requires
        distinct_entries(entries),
        0 <= at < entries.len(),
    ensures
        without_entry(entries, entries[at].entry_id) == entries.remove(at),
    decreases entries.len(),
{
    let test = is_other(entries[at].entry_id);
    let front = entries.drop_last();
    let last = entries.len() - 1;
    assert(distinct_entries(front)) by {
        assert forall|i: int, j: int| 0 <= i < j < front.len() implies (
        #[trigger] front[i]).entry_id != (#[trigger] front[j]).entry_id by {
            assert(front[i] == entries[i] && front[j] == entries[j]);
        }
    }
    assert(entries[last] == entries.last());
    if at == last {
        lemma_chosen_all(front, entries[at].entry_id);
        assert(entries.remove(at) =~= front);
    } else {
        assert(front[at] == entries[at]);
        lemma_chosen_without(front, at);
        assert(entries[at].entry_id != entries[last].entry_id);
        assert(entries.remove(at) =~= front.remove(at).push(entries.last()));
    }
}

proof fn lemma_chosen_all(entries: Seq<PlaylistEntryView>, entry_id: Seq<char>)
    requires
        forall|i: int| 0 <= i < entries.len() ==> (#[trigger] entries[i]).entry_id != entry_id,
    ensures
        without_entry(entries, entry_id) == entries,
    decreases entries.len(),
{
    if entries.len() > 0 {
        let front = entries.drop_last();
        assert forall|i: int| 0 <= i < front.len() implies (#[trigger] front[i]).entry_id
            != entry_id by {
            assert(front[i] == entries[i]);
        }
        lemma_chosen_all(front, entry_id);
        assert(entries[entries.len() - 1] == entries.last());
        assert(front.push(entries.last()) =~= entries);
    } else {
        assert(entries =~= Seq::empty());
    }
}

proof fn lemma_one_missing(before: Seq<PlaylistEntryView>, at: int, done: int)
    requires
        distinct_entries(before),
        0 <= at < before.len(),
        0 <= done <= before.len(),
    ensures
        ids_missing(before.take(done), before.remove(at)) == (if done <= at {
            Seq::<Seq<char>>::empty()
        } else {
            seq![before[at].entry_id]
        }),
    decreases done,
{
    let after = before.remove(at);
    if done > 0 {
        let i = done - 1;
        lemma_one_missing(before, at, i);
        assert(before.take(done).drop_last() =~= before.take(i));
        assert(before.take(done).last() == before[i]);
        lemma_place_and_presence(after, before[i].entry_id);
        if i == at {
            if has_entry(after, before[i].entry_id) {
                let k = choose|k: int|
                    0 <= k < after.len() && (#[trigger] after[k]).entry_id == before[i].entry_id;
                let source = if k < at {
                    k
                } else {
                    k + 1
                };
                assert(after[k] == before[source]);
                if source < i {
                    assert(before[source].entry_id != before[i].entry_id);
                } else {
                    assert(before[i].entry_id != before[source].entry_id);
                }
            }
            assert(Seq::<Seq<char>>::empty().push(before[at].entry_id) =~= seq![
                before[at].entry_id,
            ]);
        } else {
            assert(after[if i < at {
                i
            } else {
                i - 1
            }] == before[i]);
        }
    } else {
        assert(before.take(0) =~= Seq::empty());
    }
}

proof fn lemma_moves_in_place(
    after: Seq<PlaylistEntryView>,
    before: Seq<PlaylistEntryView>,
    done: int,
)
    requires
        distinct_entries(after),
        after.len() <= usize::MAX,
        0 <= done <= after.len(),
    ensures
        moved_by(after, moves(after.take(done), before)) == after,
    decreases done,
{
    if done > 0 {
        let i = done - 1;
        lemma_moves_in_place(after, before, i);
        let head = after.take(done);
        assert(head.drop_last() =~= after.take(i));
        assert(head.last() == after[i]);
        let front = moves(after.take(i), before);
        let listed = moves(head, before);
        if listed != front {
            assert(listed.drop_last() =~= front);
            lemma_step(after, i, i);
        }
    } else {
        assert(after.take(0) =~= Seq::empty());
    }
}

/// New entries hold the given tracks in their order, and no two of them have the same
/// identifier, nor one with those that were added with another prefix.
pub proof fn new_entries_hold_the_tracks(
    playlist_id: Seq<char>,
    prefix: u64,
    tracks: Seq<TrackView>,
    other_prefix: u64,
    others: Seq<TrackView>,
)
    ensures
        new_entries(playlist_id, prefix, tracks).len() == tracks.len(),
        forall|i: int|
            0 <= i < tracks.len() ==> (#[trigger] new_entries(
                playlist_id,
                prefix,
                tracks,
            )[i]).track == tracks[i],
        forall|i: int, j: int|
            0 <= i < tracks.len() && 0 <= j < others.len() && (prefix != other_prefix || i != j)
                ==> (#[trigger] new_entries(playlist_id, prefix, tracks)[i]).entry_id != (
            #[trigger] new_entries(playlist_id, other_prefix, others)[j]).entry_id,
{
    assert forall|i: int, j: int|
        0 <= i < tracks.len() && 0 <= j < others.len() && (prefix != other_prefix || i
            != j) implies (#[trigger] new_entries(playlist_id, prefix, tracks)[i]).entry_id != (
    #[trigger] new_entries(playlist_id, other_prefix, others)[j]).entry_id by {
        lemma_new_ids_differ(
            playlist_id,
            prefix as nat,
            i as nat,
            other_prefix as nat,
            j as nat,
        );
    }
}

proof fn lemma_new_ids_differ(
    playlist_id: Seq<char>,
    prefix: nat,
    index: nat,
    other_prefix: nat,
    other_index: nat,
)
    ensures
        playlist_id + ":"@ + decimal(prefix) + ":"@ + decimal(index) == playlist_id + ":"@
            + decimal(other_prefix) + ":"@ + decimal(other_index) ==> prefix == other_prefix
            && index == other_index,
{
    reveal_strlit(":");
    let left = playlist_id + ":"@ + decimal(prefix) + ":"@ + decimal(index);
    let right = playlist_id + ":"@ + decimal(other_prefix) + ":"@ + decimal(other_index);
    if left == right {
        let start = playlist_id.len() + 1;
        let rest = decimal(prefix) + ":"@ + decimal(index);
        let other_rest = decimal(other_prefix) + ":"@ + decimal(other_index);
        assert(left.skip(start as int) =~= rest);
        assert(right.skip(start as int) =~= other_rest);
        lemma_decimal_digits(prefix);
        lemma_decimal_digits(other_prefix);
        lemma_decimal_digits(index);
        lemma_decimal_digits(other_index);
        lemma_first_index(rest, ':', decimal(prefix).len() as int);
        lemma_first_index(other_rest, ':', decimal(other_prefix).len() as int);
        let count = decimal(prefix).len() as int;
        assert(rest.take(count) =~= decimal(prefix));
        assert(other_rest.take(count) =~= decimal(other_prefix));
        assert(rest.skip(count + 1) =~= decimal(index));
        assert(other_rest.skip(count + 1) =~= decimal(other_index));
    }
}

proof fn lemma_decimal_digits(number: nat)
    ensures
        digits_value(decimal(number)) == number,
        forall|i: int| 0 <= i < decimal(number).len() ==> decimal(number)[i] != ':',
{
    lemma_decimal_value(number, Seq::empty());
    assert(Seq::<char>::empty() + decimal(number) =~= decimal(number));
    assert forall|i: int| 0 <= i < decimal(number).len() implies decimal(number)[i] != ':' by {
        assert(is_digit(decimal(number)[i]));
    }
}

/// A playlist is summed up by how many entries it has, how long they are together, and the
/// first image among them; it keeps its own where they have none.
pub proof fn summaries_count_the_entries(
    playlist: PlaylistView,
    entries: Seq<PlaylistEntryView>,
    added: PlaylistEntryView,
)
    requires
        entries.len() < u32::MAX,
    ensures
        ({
            let before = summarized(playlist, entries);
            let after = summarized(playlist, entries.push(added));
            let none = summarized(playlist, Seq::empty());
            &&& none.track_count == 0
            &&& none.duration_seconds == 0
            &&& none.image_ref == playlist.image_ref
            &&& before.track_count == entries.len()
            &&& after.track_count == before.track_count + 1
            &&& before.duration_seconds + added.track.duration_seconds <= u32::MAX
                ==> after.duration_seconds == before.duration_seconds
                + added.track.duration_seconds
            &&& after.id == playlist.id
            &&& after.name == playlist.name
            &&& (forall|i: int|
                0 <= i < entries.len() ==> (#[trigger] entries[i]).track.image_ref is None) ==> {
                &&& before.image_ref == playlist.image_ref
                &&& added.track.image_ref is Some ==> after.image_ref == added.track.image_ref
            }
            &&& (exists|i: int|
                0 <= i < entries.len() && (#[trigger] entries[i]).track.image_ref is Some)
                ==> after.image_ref == before.image_ref
        }),
{
    let longer = entries.push(added);
    assert(longer.drop_last() =~= entries);
    lemma_first_image(entries);
    lemma_first_image(longer);
    if exists|i: int| 0 <= i < entries.len() && (#[trigger] entries[i]).track.image_ref is Some {
        lemma_first_image_stays(entries, added);
    } else {
        assert(longer[entries.len() as int] == added);
        assert forall|i: int| 0 <= i < entries.len() implies (
        #[trigger] longer[i]).track.image_ref is None by {
            assert(entries[i].track.image_ref is None);
        }
        lemma_last_image(entries, added);
    }
}

proof fn lemma_first_image(entries: Seq<PlaylistEntryView>)
    ensures
        first_image(entries) is Some <==> exists|i: int|
            0 <= i < entries.len() && (#[trigger] entries[i]).track.image_ref is Some,
    decreases entries.len(),
{
    if entries.len() > 0 && entries[0].track.image_ref is None {
        let rest = entries.drop_first();
        lemma_first_image(rest);
        assert(forall|i: int| 0 <= i < rest.len() ==> rest[i] == #[trigger] entries[i + 1]);
        if exists|i: int|
            0 <= i < entries.len() && (#[trigger] entries[i]).track.image_ref is Some {
            let i = choose|i: int|
                0 <= i < entries.len() && (#[trigger] entries[i]).track.image_ref is Some;
            assert(rest[i - 1] == entries[i]);
        }
        if first_image(rest) is Some {
            let i = choose|i: int|
                0 <= i < rest.len() && (#[trigger] rest[i]).track.image_ref is Some;
            assert(entries[i + 1] == rest[i]);
        }
    }
}

proof fn lemma_first_image_stays(entries: Seq<PlaylistEntryView>, added: PlaylistEntryView)
    requires
        first_image(entries) is Some,
    ensures
        first_image(entries.push(added)) == first_image(entries),
    decreases entries.len(),
{
    let longer = entries.push(added);
    assert(longer[0] == entries[0]);
    if entries[0].track.image_ref is None {
        assert(longer.drop_first() =~= entries.drop_first().push(added));
        lemma_first_image_stays(entries.drop_first(), added);
    }
}

proof fn lemma_last_image(entries: Seq<PlaylistEntryView>, added: PlaylistEntryView)
    requires
        forall|i: int|
            0 <= i < entries.len() ==> (#[trigger] entries[i]).track.image_ref is None,
    ensures
        first_image(entries.push(added)) == added.track.image_ref,
    decreases entries.len(),
{
    let longer = entries.push(added);
    if entries.len() > 0 {
        assert(longer[0] == entries[0]);
        assert(longer.drop_first() =~= entries.drop_first().push(added));
        assert forall|i: int| 0 <= i < entries.drop_first().len() implies (
        #[trigger] entries.drop_first()[i]).track.image_ref is None by {
            assert(entries.drop_first()[i] == entries[i + 1]);
        }
        lemma_last_image(entries.drop_first(), added);
    } else {
        assert(longer[0] == added);
        assert(longer.drop_first().len() == 0);
        assert(first_image(longer.drop_first()) is None);
    }
}

/// An entry that is moved stands at its new place, and the others keep their order.
pub proof fn moving_puts_the_entry_at_its_place(
    entries: Seq<PlaylistEntryView>,
    at: int,
    new_index: usize,
)
    requires
        distinct_entries(entries),
        0 <= at < entries.len(),
        new_index < entries.len(),
    ensures
        with_entry_at(entries, entries[at].entry_id, new_index) == entries.remove(at).insert(
            new_index as int,
            entries[at],
        ),
{
    lemma_place_in(entries, at);
}

} // verus!
