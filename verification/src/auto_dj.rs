//! What is added to a queue that runs out.
use crate::model::library::{Track, TrackView};
use crate::model::queue::{QueueEntry, QueueEntryView};
use crate::select::{choose_items, chosen, chosen_are_those_that_pass, Choice};
use crate::shuffle::{shuffle_items, shuffled, shuffling_keeps_all};
use crate::table::{get_row, page_of, row, take_page};
use crate::value::{holds, Value};
use vstd::prelude::*;

verus! {

/// How many tracks are added at once.
pub const AUTO_DJ_ITEM_COUNT: usize = 10;

/// How many tracks of the library are considered.
pub const AUTO_DJ_LIBRARY_LIMIT: usize = 5000;

/// Whether two lists have an item in common.
pub open spec fn have_common(left: Seq<Seq<char>>, right: Seq<Seq<char>>) -> bool {
    exists|i: int| 0 <= i < left.len() && right.contains(#[trigger] left[i])
}

fn share_item(left: &Vec<String>, right: &Vec<String>) -> (result: bool)
    ensures
        result == have_common(left.deep_view(), right.deep_view()),
{
    let ghost all = left.deep_view();
    let mut i: usize = 0;
    while i < left.len()
        invariant
            i <= left@.len(),
            all == left.deep_view(),
            forall|j: int| 0 <= j < i ==> !right.deep_view().contains(#[trigger] all[j]),
        decreases left.len() - i,
    {
        assert(all[i as int] == left@[i as int]@);
        if holds(right, &left[i]) {
            return true;
        }
        i += 1;
    }
    false
}

/// How close a track is to the current one: the artist counts most, the album more than a
/// genre.
pub open spec fn relation(
    track: TrackView,
    current: QueueEntryView,
    genres: Seq<Seq<char>>,
) -> int {
    (if track.artist_id is Some && track.artist_id == current.artist_id {
        4int
    } else {
        0
    }) + (if current.album_id == Some(track.album_id) {
        2int
    } else {
        0
    }) + (if have_common(track.genres, genres) {
        1int
    } else {
        0
    })
}

/// How close a track is to the current one.
pub fn relation_to(track: &Track, current: &QueueEntry, genres: &Vec<String>) -> (result: u8)
    ensures
        result == relation(track.deep_view(), current.deep_view(), genres.deep_view()),
        result <= 7,
{
    let artist: u8 = if track.artist_id.is_some() && track.artist_id.same(&current.artist_id) {
        4
    } else {
        0
    };
    let on_album: bool = match &current.album_id {
        Some(album_id) => album_id.same(&track.album_id),
        None => false,
    };
    let album: u8 = if on_album {
        2
    } else {
        0
    };
    let genre: u8 = if share_item(&track.genres, genres) {
        1
    } else {
        0
    };
    artist + album + genre
}

/// Whether a track is as close to the current one as wanted.
pub open spec fn has_relation(
    current: QueueEntryView,
    genres: Seq<Seq<char>>,
    wanted: int,
) -> spec_fn(TrackView) -> bool {
    |track: TrackView| relation(track, current, genres) == wanted
}

struct HasRelation<'a> {
    current: &'a QueueEntry,
    genres: &'a Vec<String>,
    wanted: u8,
}

impl<'a> Choice<Track> for HasRelation<'a> {
    closed spec fn test(&self) -> spec_fn(TrackView) -> bool {
        has_relation(self.current.deep_view(), self.genres.deep_view(), self.wanted as int)
    }

    fn takes(&self, item: &Track) -> (result: bool) {
        relation_to(item, self.current, self.genres) == self.wanted
    }
}

/// Whether a track is not among those of a queue.
pub open spec fn is_new(queued: Seq<Seq<char>>) -> spec_fn(TrackView) -> bool {
    |track: TrackView| !queued.contains(track.id)
}

/// Picks the tracks that are not among those of a queue.
pub struct NotQueued<'a> {
    pub queued: &'a Vec<String>,
}

impl<'a> Choice<Track> for NotQueued<'a> {
    open spec fn test(&self) -> spec_fn(TrackView) -> bool {
        is_new(self.queued.deep_view())
    }

    fn takes(&self, item: &Track) -> (result: bool) {
        !holds(self.queued, &item.id.value)
    }
}

/// Tracks with the closest first; those that are equally close keep their order.
pub open spec fn closest_first(
    tracks: Seq<TrackView>,
    current: QueueEntryView,
    genres: Seq<Seq<char>>,
    most: int,
) -> Seq<TrackView>
    decreases most + 1,
{
    if most < 0 {
        Seq::empty()
    } else {
        chosen(tracks, has_relation(current, genres, most)) + closest_first(
            tracks,
            current,
            genres,
            most - 1,
        )
    }
}

/// The genres of the current track, where the library knows it.
pub open spec fn genres_of(tracks: Seq<TrackView>, track_id: Seq<char>) -> Seq<Seq<char>> {
    match row::<Track>(tracks, track_id) {
        Some(track) => track.genres,
        None => Seq::empty(),
    }
}

/// The tracks to add: of those that are not queued, in random order but the closest first.
pub open spec fn candidates(
    tracks: Seq<TrackView>,
    current: QueueEntryView,
    queued: Seq<Seq<char>>,
    seed: u64,
) -> Seq<TrackView> {
    page_of(
        closest_first(
            shuffled(chosen(tracks, is_new(queued)), seed),
            current,
            genres_of(tracks, current.track_id),
            7,
        ),
        0,
        AUTO_DJ_ITEM_COUNT as nat,
    )
}

/// The tracks to add to a queue.
pub fn auto_dj_candidates(
    tracks: &Vec<Track>,
    current: &QueueEntry,
    queued: &Vec<String>,
    seed: u64,
) -> (result: Vec<Track>)
    ensures
        result.deep_view() == candidates(
            tracks.deep_view(),
            current.deep_view(),
            queued.deep_view(),
            seed,
        ),
{
    let genres: Vec<String> = match get_row(tracks, current.track_id.as_str()) {
        Some(track) => track.genres,
        None => Vec::new(),
    };
    assert(genres.deep_view() =~= genres_of(tracks.deep_view(), current.deep_view().track_id));
    let new: Vec<Track> = choose_items(tracks, &NotQueued { queued });
    let drawn: Vec<Track> = shuffle_items(&new, seed);
    let ghost all = drawn.deep_view();
    let ghost now = current.deep_view();
    let ghost kinds = genres.deep_view();
    let ghost expected = closest_first(all, now, kinds, 7);
    let mut ranked: Vec<Track> = Vec::new();
    let mut left: u8 = 8;
    assert(ranked.deep_view() + expected =~= expected);
    while left > 0
        invariant
            left <= 8,
            all == drawn.deep_view(),
            now == current.deep_view(),
            kinds == genres.deep_view(),
            ranked.deep_view() + closest_first(all, now, kinds, left - 1) == expected,
        decreases left,
    {
        left -= 1;
        let mut close: Vec<Track> = choose_items(
            &drawn,
            &HasRelation { current, genres: &genres, wanted: left },
        );
        let ghost before = ranked.deep_view();
        let ghost added = close.deep_view();
        let ghost rest = closest_first(all, now, kinds, left - 1);
        ranked.append(&mut close);
        assert(ranked.deep_view() =~= before + added);
        assert(before + (added + rest) =~= (before + added) + rest);
    }
    assert(ranked.deep_view() + Seq::<TrackView>::empty() =~= ranked.deep_view());
    take_page(&ranked, 0, AUTO_DJ_ITEM_COUNT)
}

proof fn lemma_closest_first_members(
    tracks: Seq<TrackView>,
    current: QueueEntryView,
    genres: Seq<Seq<char>>,
    most: int,
    at: int,
)
    requires
        0 <= at < closest_first(tracks, current, genres, most).len(),
    ensures
        tracks.contains(closest_first(tracks, current, genres, most)[at]),
    decreases most + 1,
{
    let test = has_relation(current, genres, most);
    let head = chosen(tracks, test);
    let track = closest_first(tracks, current, genres, most)[at];
    if at < head.len() {
        assert(head.contains(head[at]));
        chosen_are_those_that_pass(tracks, test, track);
    } else {
        lemma_closest_first_members(tracks, current, genres, most - 1, at - head.len());
    }
}

/// What is added is new to the queue, stands in the library, and is never more than the most
/// that is added at once.
pub proof fn added_tracks_are_new(
    tracks: Seq<TrackView>,
    current: QueueEntryView,
    queued: Seq<Seq<char>>,
    seed: u64,
    at: int,
)
    requires
        0 <= at < candidates(tracks, current, queued, seed).len(),
    ensures
        !queued.contains(candidates(tracks, current, queued, seed)[at].id),
        tracks.contains(candidates(tracks, current, queued, seed)[at]),
        candidates(tracks, current, queued, seed).len() <= AUTO_DJ_ITEM_COUNT,
{
    let new = chosen(tracks, is_new(queued));
    let drawn = shuffled(new, seed);
    let genres = genres_of(tracks, current.track_id);
    let ranked = closest_first(drawn, current, genres, 7);
    let track = candidates(tracks, current, queued, seed)[at];
    assert(track == ranked[at]);
    lemma_closest_first_members(drawn, current, genres, 7, at);
    shuffling_keeps_all(new, seed);
    broadcast use vstd::seq_lib::group_to_multiset_ensures;

    assert(drawn.to_multiset().count(track) > 0);
    assert(new.to_multiset().count(track) > 0);
    assert(new.contains(track));
    chosen_are_those_that_pass(tracks, is_new(queued), track);
}

/// Tracks by the artist of the current entry come first, among these and among the others
/// those of its album, and after that those that share a genre with it.
pub proof fn related_tracks_come_first(
    tracks: Seq<TrackView>,
    current: QueueEntryView,
    queued: Seq<Seq<char>>,
    seed: u64,
    first: int,
    second: int,
)
    requires
        0 <= first < second < candidates(tracks, current, queued, seed).len(),
    ensures
        ({
            let left = candidates(tracks, current, queued, seed)[first];
            let right = candidates(tracks, current, queued, seed)[second];
            let genres = genres_of(tracks, current.track_id);
            let left_artist = left.artist_id is Some && left.artist_id == current.artist_id;
            let right_artist = right.artist_id is Some && right.artist_id == current.artist_id;
            let left_album = current.album_id == Some(left.album_id);
            let right_album = current.album_id == Some(right.album_id);
            let left_genre = exists|i: int|
                0 <= i < left.genres.len() && genres.contains(#[trigger] left.genres[i]);
            let right_genre = exists|i: int|
                0 <= i < right.genres.len() && genres.contains(#[trigger] right.genres[i]);
            &&& right_artist ==> left_artist
            &&& right_artist == left_artist && right_album ==> left_album
            &&& right_artist == left_artist && right_album == left_album && right_genre
                ==> left_genre
        }),
{
    let drawn = shuffled(chosen(tracks, is_new(queued)), seed);
    let genres = genres_of(tracks, current.track_id);
    let ranked = closest_first(drawn, current, genres, 7);
    let left = candidates(tracks, current, queued, seed)[first];
    let right = candidates(tracks, current, queued, seed)[second];
    assert(left == ranked[first]);
    assert(right == ranked[second]);
    lemma_closest_first_sorted(drawn, current, genres, 7);
    assert(relation(ranked[first], current, genres) >= relation(ranked[second], current, genres));
    assert(have_common(left.genres, genres) == (exists|i: int|
        0 <= i < left.genres.len() && genres.contains(#[trigger] left.genres[i])));
    assert(have_common(right.genres, genres) == (exists|i: int|
        0 <= i < right.genres.len() && genres.contains(#[trigger] right.genres[i])));
}

proof fn lemma_closest_first_sorted(
    tracks: Seq<TrackView>,
    current: QueueEntryView,
    genres: Seq<Seq<char>>,
    most: int,
)
    ensures
        ({
            let ranked = closest_first(tracks, current, genres, most);
            &&& forall|i: int|
                0 <= i < ranked.len() ==> relation(#[trigger] ranked[i], current, genres) <= most
            &&& forall|i: int, j: int|
                0 <= i < j < ranked.len() ==> relation(#[trigger] ranked[i], current, genres)
                    >= relation(#[trigger] ranked[j], current, genres)
        }),
    decreases most + 1,
{
    if most >= 0 {
        lemma_closest_first_sorted(tracks, current, genres, most - 1);
        let test = has_relation(current, genres, most);
        let head = chosen(tracks, test);
        let rest = closest_first(tracks, current, genres, most - 1);
        let ranked = closest_first(tracks, current, genres, most);
        assert forall|i: int| 0 <= i < head.len() implies relation(
            #[trigger] head[i],
            current,
            genres,
        ) == most by {
            assert(head.contains(head[i]));
            chosen_are_those_that_pass(tracks, test, head[i]);
        }
        assert forall|i: int| 0 <= i < ranked.len() implies relation(
            #[trigger] ranked[i],
            current,
            genres,
        ) <= most by {
            if i < head.len() {
                assert(ranked[i] == head[i]);
            } else {
                assert(ranked[i] == rest[i - head.len()]);
            }
        }
        assert forall|i: int, j: int| 0 <= i < j < ranked.len() implies relation(
            #[trigger] ranked[i],
            current,
            genres,
        ) >= relation(#[trigger] ranked[j], current, genres) by {
            if i < head.len() {
                assert(ranked[i] == head[i]);
            } else {
                assert(ranked[i] == rest[i - head.len()]);
                assert(ranked[j] == rest[j - head.len()]);
            }
        }
    }
}

/// As many tracks are added as there are new ones, up to ten.
pub proof fn ten_tracks_are_added_where_there_are(
    tracks: Seq<TrackView>,
    current: QueueEntryView,
    queued: Seq<Seq<char>>,
    seed: u64,
)
    ensures
        ({
            let new = tracks.filter(|track: TrackView| !queued.contains(track.id)).len();
            candidates(tracks, current, queued, seed).len() == (if new < 10 {
                new
            } else {
                10
            })
        }),
{
    let new = chosen(tracks, is_new(queued));
    crate::select::chosen_keeps_the_order(tracks, is_new(queued));
    shuffling_keeps_all(new, seed);
    let drawn = shuffled(new, seed);
    let genres = genres_of(tracks, current.track_id);
    lemma_closest_first_count(drawn, current, genres, 7);
    lemma_all_related(drawn, current, genres);
}

/// How many tracks are related to the current one by a number at most.
spec fn related_count(
    tracks: Seq<TrackView>,
    current: QueueEntryView,
    genres: Seq<Seq<char>>,
    most: int,
) -> nat
    decreases tracks.len(),
{
    if tracks.len() == 0 {
        0
    } else {
        related_count(tracks.drop_last(), current, genres, most) + if relation(
            tracks.last(),
            current,
            genres,
        ) <= most {
            1nat
        } else {
            0nat
        }
    }
}

proof fn lemma_closest_first_count(
    tracks: Seq<TrackView>,
    current: QueueEntryView,
    genres: Seq<Seq<char>>,
    most: int,
)
    requires
        most >= -1,
    ensures
        closest_first(tracks, current, genres, most).len() == related_count(
            tracks,
            current,
            genres,
            most,
        ),
    decreases most + 1,
{
    if most < 0 {
        lemma_none_related(tracks, current, genres);
    } else {
        lemma_closest_first_count(tracks, current, genres, most - 1);
        lemma_related_step(tracks, current, genres, most);
    }
}

proof fn lemma_none_related(
    tracks: Seq<TrackView>,
    current: QueueEntryView,
    genres: Seq<Seq<char>>,
)
    ensures
        related_count(tracks, current, genres, -1) == 0,
    decreases tracks.len(),
{
    if tracks.len() > 0 {
        lemma_none_related(tracks.drop_last(), current, genres);
    }
}

proof fn lemma_related_step(
    tracks: Seq<TrackView>,
    current: QueueEntryView,
    genres: Seq<Seq<char>>,
    most: int,
)
    ensures
        chosen(tracks, has_relation(current, genres, most)).len() + related_count(
            tracks,
            current,
            genres,
            most - 1,
        ) == related_count(tracks, current, genres, most),
    decreases tracks.len(),
{
    if tracks.len() > 0 {
        lemma_related_step(tracks.drop_last(), current, genres, most);
    }
}

proof fn lemma_all_related(
    tracks: Seq<TrackView>,
    current: QueueEntryView,
    genres: Seq<Seq<char>>,
)
    ensures
        related_count(tracks, current, genres, 7) == tracks.len(),
    decreases tracks.len(),
{
    if tracks.len() > 0 {
        lemma_all_related(tracks.drop_last(), current, genres);
    }
}

} // verus!
