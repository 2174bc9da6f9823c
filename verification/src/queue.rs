//! The play queue.
use crate::model::ids::{QueueEntryId, ServerId, TrackId};
use crate::model::library::{Track, TrackView};
use crate::model::queue::{
    QueueAnchor, QueueAnchorView, QueueEntry, QueueEntryOrigin, QueueEntryOriginView,
    QueueEntryView, QueueItemInput, QueueItemInputView, QueueReplacement, QueueReplacementView,
    QueueSnapshot, QueueSnapshotView, RepeatMode, ShuffleState, ShuffleStateView,
};
use crate::shuffle::{next_seed, shuffle_items, shuffled};
use crate::text::{self, decimal};
use crate::value::{first_where, lemma_first_where, Value};
use vstd::prelude::*;

verus! {

/// The first place of a text in a list, or the length where it is not there.
pub open spec fn place(list: Seq<Seq<char>>, wanted: Seq<char>) -> int
    decreases list.len(),
{
    if list.len() == 0 || list[0] == wanted {
        0
    } else {
        1 + place(list.drop_first(), wanted)
    }
}

pub proof fn lemma_place(list: Seq<Seq<char>>, wanted: Seq<char>)
    ensures
        0 <= place(list, wanted) <= list.len(),
        list.contains(wanted) <==> place(list, wanted) < list.len(),
        place(list, wanted) < list.len() ==> list[place(list, wanted)] == wanted,
        forall|j: int| 0 <= j < place(list, wanted) ==> #[trigger] list[j] != wanted,
    decreases list.len(),
{
    if list.len() > 0 && list[0] != wanted {
        let rest = list.drop_first();
        lemma_place(rest, wanted);
        assert forall|j: int| 0 <= j < place(list, wanted) implies #[trigger] list[j]
            != wanted by {
            if j > 0 {
                assert(rest[j - 1] == list[j]);
            }
        }
        if list.contains(wanted) {
            let i = choose|i: int| 0 <= i < list.len() && list[i] == wanted;
            assert(rest[i - 1] == wanted);
        }
        if rest.contains(wanted) {
            let i = choose|i: int| 0 <= i < rest.len() && rest[i] == wanted;
            assert(list[i + 1] == wanted);
        }
    } else if list.len() > 0 {
        assert(list.contains(wanted));
    }
}

/// In a list without repetitions an item's place is where it stands.
pub proof fn lemma_place_of(list: Seq<Seq<char>>, at: int)
    requires
        list.no_duplicates(),
        0 <= at < list.len(),
    ensures
        place(list, list[at]) == at,
{
    lemma_place(list, list[at]);
    assert(list.contains(list[at]));
}

pub proof fn lemma_inserted(list: Seq<Seq<char>>, at: int, added: Seq<char>)
    requires
        0 <= at <= list.len(),
    ensures
        forall|other: Seq<char>| #[trigger]
            list.insert(at, added).contains(other) <==> list.contains(other) || other == added,
        list.no_duplicates() && !list.contains(added) ==> list.insert(at, added).no_duplicates(),
{
    let longer = list.insert(at, added);
    assert forall|other: Seq<char>| #[trigger] longer.contains(other) <==> list.contains(other)
        || other == added by {
        if longer.contains(other) {
            let i = choose|i: int| 0 <= i < longer.len() && longer[i] == other;
            if i < at {
                assert(list[i] == other);
            } else if i > at {
                assert(list[i - 1] == other);
            }
        }
        if list.contains(other) {
            let i = choose|i: int| 0 <= i < list.len() && list[i] == other;
            if i < at {
                assert(longer[i] == other);
            } else {
                assert(longer[i + 1] == other);
            }
        }
        if other == added {
            assert(longer[at] == other);
        }
    }
    if list.no_duplicates() && !list.contains(added) {
        assert forall|a: int, b: int|
            0 <= a < longer.len() && 0 <= b < longer.len() && a != b implies longer[a]
            != longer[b] by {
            let source_a = if a < at { a } else { a - 1 };
            let source_b = if b < at { b } else { b - 1 };
            if a == at {
                assert(longer[b] == list[source_b]);
                assert(list.contains(list[source_b]));
            } else if b == at {
                assert(longer[a] == list[source_a]);
                assert(list.contains(list[source_a]));
            } else {
                assert(longer[a] == list[source_a]);
                assert(longer[b] == list[source_b]);
            }
        }
    }
}

pub proof fn lemma_removed(list: Seq<Seq<char>>, at: int)
    requires
        0 <= at < list.len(),
        list.no_duplicates(),
    ensures
        forall|other: Seq<char>| #[trigger]
            list.remove(at).contains(other) <==> list.contains(other) && other != list[at],
        list.remove(at).no_duplicates(),
{
    let shorter = list.remove(at);
    assert forall|other: Seq<char>| #[trigger] shorter.contains(other) <==> list.contains(other)
        && other != list[at] by {
        if shorter.contains(other) {
            let i = choose|i: int| 0 <= i < shorter.len() && shorter[i] == other;
            if i < at {
                assert(list[i] == other);
            } else {
                assert(list[i + 1] == other);
            }
        }
        if list.contains(other) && other != list[at] {
            let i = choose|i: int| 0 <= i < list.len() && list[i] == other;
            if i < at {
                assert(shorter[i] == other);
            } else {
                assert(shorter[i - 1] == other);
            }
        }
    }
    assert forall|a: int, b: int|
        0 <= a < shorter.len() && 0 <= b < shorter.len() && a != b implies shorter[a]
        != shorter[b] by {
        let source_a = if a < at { a } else { a + 1 };
        let source_b = if b < at { b } else { b + 1 };
        assert(shorter[a] == list[source_a]);
        assert(shorter[b] == list[source_b]);
    }
}

/// The identifier of the entry with a number.
pub open spec fn entry_id(number: nat) -> Seq<char> {
    "queue:"@ + decimal(number)
}

proof fn lemma_decimal_tells_apart(left: nat, right: nat)
    requires
        left != right,
    ensures
        decimal(left) != decimal(right),
    decreases left + right,
{
    let a = decimal(left);
    let b = decimal(right);
    lemma_decimal_shape(left);
    lemma_decimal_shape(right);
    if left >= 10 && right >= 10 {
        if left % 10 == right % 10 {
            lemma_decimal_tells_apart(left / 10, right / 10);
            if a == b {
                assert(a.drop_last() =~= decimal(left / 10));
                assert(b.drop_last() =~= decimal(right / 10));
            }
        } else {
            assert(a.last() != b.last());
        }
    } else if left < 10 && right < 10 {
        assert(a[0] != b[0]);
    }
}

proof fn lemma_decimal_shape(number: nat)
    ensures
        number < 10 <==> decimal(number).len() == 1,
        decimal(number).len() >= 1,
    decreases number,
{
    if number >= 10 {
        lemma_decimal_shape(number / 10);
    }
}

proof fn lemma_entry_ids_differ(left: nat, right: nat)
    requires
        left != right,
    ensures
        entry_id(left) != entry_id(right),
{
    lemma_decimal_tells_apart(left, right);
    let prefix = "queue:"@;
    if entry_id(left) == entry_id(right) {
        assert(entry_id(left).skip(prefix.len() as int) =~= decimal(left));
        assert(entry_id(right).skip(prefix.len() as int) =~= decimal(right));
    }
}

/// The identifier of the entry with a number.
pub fn queue_entry_id(number: u64) -> (result: QueueEntryId)
    ensures
        result.deep_view() == entry_id(number as nat),
{
    QueueEntryId { value: text::concat("queue:", text::decimal_text(number).as_str()) }
}

/// The entry for a track.
pub open spec fn entry_of(
    track: TrackView,
    id: Seq<char>,
    origin: Option<QueueEntryOriginView>,
) -> QueueEntryView {
    QueueEntryView {
        id,
        track_id: track.id,
        album_id: Some(track.album_id),
        title: track.title,
        artist: track.artist,
        artist_id: track.artist_id,
        album: track.album,
        year: track.year,
        duration_seconds: track.duration_seconds,
        favorite: track.favorite,
        image_ref: track.image_ref,
        local_path: track.local_path,
        source_format: track.source_format,
        origin,
    }
}

fn entry_for(track: &Track, id: QueueEntryId, origin: Option<QueueEntryOrigin>) -> (result:
    QueueEntry)
    ensures
        result.deep_view() == entry_of(track.deep_view(), id.deep_view(), origin.deep_view()),
{
    QueueEntry {
        id,
        track_id: track.id.copy(),
        album_id: Some(track.album_id.copy()),
        title: track.title.copy(),
        artist: track.artist.copy(),
        artist_id: track.artist_id.copy(),
        album: track.album.copy(),
        year: track.year,
        duration_seconds: track.duration_seconds,
        favorite: track.favorite,
        image_ref: track.image_ref.copy(),
        local_path: track.local_path.copy(),
        source_format: track.source_format.copy(),
        origin,
    }
}

/// The identifiers of entries.
pub open spec fn ids(entries: Seq<QueueEntryView>) -> Seq<Seq<char>> {
    entries.map_values(|entry: QueueEntryView| entry.id)
}

proof fn lemma_shuffled(list: Seq<Seq<char>>, seed: u64)
    requires
        list.no_duplicates(),
    ensures
        shuffled(list, seed).len() == list.len(),
        shuffled(list, seed).no_duplicates(),
        forall|other: Seq<char>| #[trigger]
            shuffled(list, seed).contains(other) <==> list.contains(other),
    decreases list.len(),
{
    let result = shuffled(list, seed);
    if list.len() > 0 {
        let next = next_seed(seed);
        let at = (next as int / 65536) % (list.len() as int);
        let rest = shuffled(list.remove(at), next);
        lemma_removed(list, at);
        lemma_shuffled(list.remove(at), next);
        lemma_inserted(rest, 0, list[at]);
        assert(result =~= rest.insert(0, list[at]));
    }
}

/// The order in which a queue is played: shuffled but for the current entry, which comes
/// first, or as the queue stands.
pub open spec fn play_order(
    list: Seq<Seq<char>>,
    current: Option<Seq<char>>,
    shuffle: ShuffleStateView,
) -> Seq<Seq<char>> {
    if !shuffle.enabled {
        list
    } else {
        match current {
            Some(id) => seq![id] + shuffled(list.remove(place(list, id)), shuffle.seed),
            None => shuffled(list, shuffle.seed),
        }
    }
}

proof fn lemma_play_order(
    list: Seq<Seq<char>>,
    current: Option<Seq<char>>,
    shuffle: ShuffleStateView,
)
    requires
        list.no_duplicates(),
        current matches Some(id) ==> list.contains(id),
    ensures
        play_order(list, current, shuffle).len() == list.len(),
        play_order(list, current, shuffle).no_duplicates(),
        forall|other: Seq<char>| #[trigger]
            play_order(list, current, shuffle).contains(other) <==> list.contains(other),
{
    let order = play_order(list, current, shuffle);
    if shuffle.enabled {
        match current {
            Some(id) => {
                lemma_place(list, id);
                let rest = list.remove(place(list, id));
                lemma_removed(list, place(list, id));
                lemma_shuffled(rest, shuffle.seed);
                lemma_inserted(shuffled(rest, shuffle.seed), 0, id);
                assert(order =~= shuffled(rest, shuffle.seed).insert(0, id));
            },
            None => {
                lemma_shuffled(list, shuffle.seed);
            },
        }
    }
}

/// The contents of a [`QueueEngine`].
#[verifier::ext_equal]
pub struct QueueView {
    pub server_id: Seq<char>,
    pub entries: Seq<QueueEntryView>,
    /// The identifiers of the entries in the order in which they are played.
    pub order: Seq<Seq<char>>,
    /// The identifier of the current entry.
    pub current: Option<Seq<char>>,
    pub repeat_mode: RepeatMode,
    pub shuffle: ShuffleStateView,
    pub progress_seconds: u32,
    pub next_number: u64,
}

impl QueueView {
    /// Every entry has an identifier of its own, which no later entry will get; the play
    /// order holds each entry once, and is that of the queue unless it is shuffled; there is
    /// a current entry exactly where there is any.
    pub closed spec fn wf(self) -> bool {
        &&& ids(self.entries).no_duplicates()
        &&& self.order.no_duplicates()
        &&& self.order.len() == self.entries.len()
        &&& forall|id: Seq<char>| #[trigger]
            self.order.contains(id) <==> ids(self.entries).contains(id)
        &&& !self.shuffle.enabled ==> self.order == ids(self.entries)
        &&& self.current is Some <==> self.entries.len() > 0
        &&& self.current matches Some(id) ==> ids(self.entries).contains(id)
        &&& forall|number: nat|
            number >= self.next_number ==> !ids(self.entries).contains(#[trigger] entry_id(number))
    }

    /// An empty queue.
    pub open spec fn empty(server_id: Seq<char>) -> QueueView {
        QueueView {
            server_id,
            entries: Seq::empty(),
            order: Seq::empty(),
            current: None,
            repeat_mode: RepeatMode::All,
            shuffle: ShuffleStateView { enabled: false, seed: 0 },
            progress_seconds: 0,
            next_number: 0,
        }
    }

    /// Where the current entry stands, or the length where there is none.
    pub open spec fn current_index(self) -> int {
        match self.current {
            Some(id) => place(ids(self.entries), id),
            None => self.entries.len() as int,
        }
    }

    /// Where the current entry stands in the play order, or its length where there is none.
    pub open spec fn current_turn(self) -> int {
        match self.current {
            Some(id) => place(self.order, id),
            None => self.order.len() as int,
        }
    }

    pub open spec fn current_entry(self) -> Option<QueueEntryView> {
        if self.current is Some && self.current_index() < self.entries.len() {
            Some(self.entries[self.current_index()])
        } else {
            None
        }
    }

    /// The entry with an identifier.
    pub open spec fn entry(self, id: Seq<char>) -> QueueEntryView {
        self.entries[place(ids(self.entries), id)]
    }

    /// Whether another entry can be numbered.
    pub open spec fn has_numbers(self) -> bool {
        self.next_number < u64::MAX
    }

    /// The queue with a track at a place of the queue and at a turn. It is the current one
    /// where there was none. Once the numbers are used up nothing is added.
    pub open spec fn with_track(
        self,
        track: TrackView,
        origin: Option<QueueEntryOriginView>,
        at: int,
        turn: int,
    ) -> QueueView {
        let id = entry_id(self.next_number as nat);
        if !self.has_numbers() {
            self
        } else {
            QueueView {
                entries: self.entries.insert(at, entry_of(track, id, origin)),
                order: self.order.insert(turn, id),
                current: if self.current is Some {
                    self.current
                } else {
                    Some(id)
                },
                next_number: (self.next_number + 1) as u64,
                ..self
            }
        }
    }

    /// The queue with a track at its end.
    pub open spec fn appended(self, track: TrackView) -> QueueView {
        self.with_track(track, None, self.entries.len() as int, self.order.len() as int)
    }

    /// The queue with tracks at its end.
    pub open spec fn appended_all(self, tracks: Seq<TrackView>) -> QueueView
        decreases tracks.len(),
    {
        if tracks.len() == 0 {
            self
        } else {
            self.appended_all(tracks.drop_last()).appended(tracks.last())
        }
    }

    /// The queue with a track next after the current one.
    pub open spec fn with_next(self, track: TrackView) -> QueueView {
        let at = if self.current is Some {
            self.current_index() + 1
        } else {
            0
        };
        let turn = if self.current is Some {
            self.current_turn() + 1
        } else {
            0
        };
        self.with_track(track, None, at, turn)
    }

    /// The queue with a track next after the current one, which is then the current one.
    pub open spec fn playing_now(self, track: TrackView) -> QueueView {
        if self.has_numbers() {
            QueueView {
                current: Some(entry_id(self.next_number as nat)),
                progress_seconds: 0,
                ..self.with_next(track)
            }
        } else {
            self
        }
    }

    /// The queue at another of its entries, from its beginning.
    pub open spec fn at(self, id: Seq<char>) -> QueueView {
        QueueView { current: Some(id), progress_seconds: 0, ..self }
    }

    /// The identifier of what follows the current entry; after the last comes the first
    /// where all is repeated.
    pub open spec fn following(self) -> Option<Seq<char>> {
        let turn = self.current_turn();
        if self.current is None {
            None
        } else if turn + 1 < self.order.len() {
            Some(self.order[turn + 1])
        } else if self.repeat_mode == RepeatMode::All {
            Some(self.order[0])
        } else {
            None
        }
    }

    /// The identifier of what comes before the current entry.
    pub open spec fn preceding(self) -> Option<Seq<char>> {
        let turn = self.current_turn();
        if self.current is Some && turn > 0 {
            Some(self.order[turn - 1])
        } else {
            None
        }
    }

    /// The identifier of what is played once the current entry has ended.
    pub open spec fn after_end(self) -> Option<Seq<char>> {
        if self.repeat_mode == RepeatMode::One {
            self.current
        } else {
            self.following()
        }
    }

    /// The queue at an entry, or as it is where there is none.
    pub open spec fn moved(self, id: Option<Seq<char>>) -> QueueView {
        match id {
            Some(id) => self.at(id),
            None => self,
        }
    }

    /// The queue without its entries.
    pub open spec fn cleared(self) -> QueueView {
        QueueView {
            entries: Seq::empty(),
            order: Seq::empty(),
            current: None,
            progress_seconds: 0,
            ..self
        }
    }

    /// The queue without an entry. Where it was the current one, what comes next in the play
    /// order is, or else the last.
    pub open spec fn without(self, id: Seq<char>) -> QueueView {
        let turn = place(self.order, id);
        let rest = self.order.remove(turn);
        if !ids(self.entries).contains(id) {
            self
        } else {
            QueueView {
                entries: self.entries.remove(place(ids(self.entries), id)),
                order: rest,
                current: if self.current != Some(id) {
                    self.current
                } else if rest.len() == 0 {
                    None
                } else if turn < rest.len() {
                    Some(rest[turn])
                } else {
                    Some(rest.last())
                },
                progress_seconds: if self.current == Some(id) {
                    0
                } else {
                    self.progress_seconds
                },
                ..self
            }
        }
    }

    /// The queue with an entry moved next after the current one.
    pub open spec fn with_moved(self, id: Seq<char>) -> QueueView {
        let moving = self.entry(id);
        let rest = self.without(id);
        if !ids(self.entries).contains(id) || self.current == Some(id) {
            self
        } else {
            QueueView {
                entries: rest.entries.insert(rest.current_index() + 1, moving),
                order: rest.order.insert(rest.current_turn() + 1, id),
                ..self
            }
        }
    }

    /// The queue with its shuffling set.
    pub open spec fn with_shuffle(self, shuffle: ShuffleStateView) -> QueueView {
        QueueView { order: play_order(ids(self.entries), self.current, shuffle), shuffle, ..self }
    }

    /// The queue with a track marked, or not, as a favorite.
    pub open spec fn with_favorite(self, track_id: Seq<char>, favorite: bool) -> QueueView {
        QueueView {
            entries: self.entries.map_values(
                |entry: QueueEntryView|
                    if entry.track_id == track_id {
                        QueueEntryView { favorite, ..entry }
                    } else {
                        entry
                    },
            ),
            ..self
        }
    }

    /// How many entries are still to be played after the current one.
    pub open spec fn remaining(self) -> int {
        if self.current is Some {
            self.order.len() - 1 - self.current_turn()
        } else {
            0
        }
    }
}

/// Whether an item is the occurrence that a queue starts with.
pub open spec fn is_anchor(item: QueueItemInputView, anchor: QueueAnchorView) -> bool {
    &&& item.track.id == anchor.track_id
    &&& item.source_index == anchor.source_index
    &&& item.source_item_id == anchor.source_item_id
}

/// The first item that is the occurrence that a queue starts with.
pub open spec fn anchor_place(items: Seq<QueueItemInputView>, anchor: QueueAnchorView) -> int {
    first_where(items, |item: QueueItemInputView| is_anchor(item, anchor))
}

/// The entries for the items that a queue is filled with, numbered from a number on.
pub open spec fn filled_entries(
    replacement: QueueReplacementView,
    first_number: nat,
) -> Seq<QueueEntryView> {
    Seq::new(
        replacement.items.len(),
        |i: int|
            entry_of(
                replacement.items[i].track,
                entry_id((first_number + i) as nat),
                Some(
                    QueueEntryOriginView {
                        source_key: replacement.source.source_key,
                        source_index: replacement.items[i].source_index,
                        source_item_id: replacement.items[i].source_item_id,
                    },
                ),
            ),
    )
}

/// The entries with the identifiers of their places, counted from a number on.
pub open spec fn renumbered(entries: Seq<QueueEntryView>) -> Seq<QueueEntryView> {
    Seq::new(
        entries.len(),
        |i: int| QueueEntryView { id: entry_id(i as nat), ..entries[i] },
    )
}

/// Whether a list holds each number below its length once.
pub open spec fn is_permutation(list: Seq<usize>) -> bool {
    &&& list.no_duplicates()
    &&& forall|i: int| 0 <= i < list.len() ==> (#[trigger] list[i]) < list.len()
}

/// The identifiers of the entries at some places.
pub open spec fn ids_at(places: Seq<usize>) -> Seq<Seq<char>> {
    places.map_values(|at: usize| entry_id(at as nat))
}

/// The current entry of a restored queue: the saved one, or the first where that is not
/// there.
pub open spec fn restored_current(snapshot: QueueSnapshotView) -> Option<Seq<char>> {
    match snapshot.current_index {
        Some(at) if at < snapshot.entries.len() => Some(entry_id(at as nat)),
        _ => if snapshot.entries.len() > 0 {
            Some(entry_id(0))
        } else {
            None
        },
    }
}

/// The queue that a saved one becomes: its entries are numbered anew, and a saved play order
/// is kept where it holds every entry once.
pub open spec fn restored(snapshot: QueueSnapshotView) -> QueueView {
    let entries = renumbered(snapshot.entries);
    let current = restored_current(snapshot);
    QueueView {
        server_id: snapshot.server_id,
        entries,
        order: if snapshot.shuffle.enabled && is_permutation(snapshot.shuffle_order)
            && snapshot.shuffle_order.len() == entries.len() {
            ids_at(snapshot.shuffle_order)
        } else {
            play_order(ids(entries), current, snapshot.shuffle)
        },
        current,
        repeat_mode: snapshot.repeat_mode,
        shuffle: snapshot.shuffle,
        progress_seconds: snapshot.progress_seconds,
        next_number: entries.len() as u64,
    }
}

impl QueueView {
    /// The queue filled anew; nothing where the occurrence to start with is not among the
    /// items, or where the numbers are used up.
    pub open spec fn filled(self, replacement: QueueReplacementView) -> Option<QueueView> {
        let entries = filled_entries(replacement, self.next_number as nat);
        let at = anchor_place(replacement.items, replacement.anchor);
        if at >= replacement.items.len() || self.next_number + replacement.items.len()
            > u64::MAX {
            None
        } else {
            let current = Some(entries[at].id);
            Some(
                QueueView {
                    entries,
                    order: play_order(ids(entries), current, self.shuffle),
                    current,
                    progress_seconds: 0,
                    next_number: (self.next_number + replacement.items.len()) as u64,
                    ..self
                },
            )
        }
    }

    /// The queue as it is saved and shown.
    pub open spec fn snapshot(self) -> QueueSnapshotView {
        QueueSnapshotView {
            server_id: self.server_id,
            entries: self.entries,
            current_index: if self.current is Some {
                Some(self.current_index() as usize)
            } else {
                None
            },
            repeat_mode: self.repeat_mode,
            shuffle: self.shuffle,
            shuffle_order: if self.shuffle.enabled {
                self.order.map_values(
                    |id: Seq<char>| place(ids(self.entries), id) as usize,
                )
            } else {
                Seq::empty()
            },
            progress_seconds: self.progress_seconds,
        }
    }
}

proof fn lemma_numbered_ids(entries: Seq<QueueEntryView>, first_number: nat)
    requires
        forall|i: int|
            0 <= i < entries.len() ==> (#[trigger] entries[i]).id == entry_id(
                (first_number + i) as nat,
            ),
    ensures
        ids(entries).no_duplicates(),
        forall|i: int|
            0 <= i < entries.len() ==> #[trigger] ids(entries)[i] == entry_id(
                (first_number + i) as nat,
            ),
        forall|number: nat|
            number >= first_number + entries.len() ==> !ids(entries).contains(
                #[trigger] entry_id(number),
            ),
{
    let list = ids(entries);
    assert forall|i: int| 0 <= i < entries.len() implies #[trigger] list[i] == entry_id(
        (first_number + i) as nat,
    ) by {
        assert(entries[i].id == entry_id((first_number + i) as nat));
    }
    assert forall|a: int, b: int|
        0 <= a < list.len() && 0 <= b < list.len() && a != b implies list[a] != list[b] by {
        lemma_entry_ids_differ((first_number + a) as nat, (first_number + b) as nat);
    }
    assert forall|number: nat| number >= first_number + entries.len() implies !list.contains(
        #[trigger] entry_id(number),
    ) by {
        if list.contains(entry_id(number)) {
            let i = choose|i: int| 0 <= i < list.len() && list[i] == entry_id(number);
            lemma_entry_ids_differ((first_number + i) as nat, number);
        }
    }
}

/// The play queue.
#[derive(Debug)]
pub struct QueueEngine {
    server_id: ServerId,
    entries: Vec<QueueEntry>,
    order: Vec<String>,
    current: Option<String>,
    repeat_mode: RepeatMode,
    shuffle: ShuffleState,
    progress_seconds: u32,
    next_number: u64,
}

impl DeepView for QueueEngine {
    type V = QueueView;

    closed spec fn deep_view(&self) -> QueueView {
        QueueView {
            server_id: self.server_id.deep_view(),
            entries: self.entries.deep_view(),
            order: self.order.deep_view(),
            current: self.current.deep_view(),
            repeat_mode: self.repeat_mode,
            shuffle: self.shuffle.deep_view(),
            progress_seconds: self.progress_seconds,
            next_number: self.next_number,
        }
    }
}

fn place_of_id(entries: &Vec<QueueEntry>, id: &str) -> (result: usize)
    ensures
        result == place(ids(entries.deep_view()), id@),
        result <= entries@.len(),
{
    let wanted: String = text::owned(id);
    let ghost list = ids(entries.deep_view());
    let mut i: usize = 0;
    assert(list.skip(0) =~= list);
    while i < entries.len()
        invariant
            i <= entries@.len(),
            list == ids(entries.deep_view()),
            wanted@ == id@,
            place(list, id@) == i + place(list.skip(i as int), id@),
        decreases entries.len() - i,
    {
        assert(list.skip(i as int)[0] == entries@[i as int].deep_view().id);
        assert(list.skip(i as int).drop_first() =~= list.skip(i + 1));
        if entries[i].id.value.same(&wanted) {
            return i;
        }
        i += 1;
    }
    i
}

fn place_in(list: &Vec<String>, id: &str) -> (result: usize)
    ensures
        result == place(list.deep_view(), id@),
        result <= list@.len(),
{
    let wanted: String = text::owned(id);
    let ghost all = list.deep_view();
    let mut i: usize = 0;
    assert(all.skip(0) =~= all);
    while i < list.len()
        invariant
            i <= list@.len(),
            all == list.deep_view(),
            wanted@ == id@,
            place(all, id@) == i + place(all.skip(i as int), id@),
        decreases list.len() - i,
    {
        assert(all.skip(i as int)[0] == list@[i as int]@);
        assert(all.skip(i as int).drop_first() =~= all.skip(i + 1));
        if list[i].same(&wanted) {
            return i;
        }
        i += 1;
    }
    i
}

fn ids_of(entries: &Vec<QueueEntry>) -> (result: Vec<String>)
    ensures
        result.deep_view() == ids(entries.deep_view()),
{
    let mut result: Vec<String> = Vec::new();
    let ghost list = ids(entries.deep_view());
    let mut i: usize = 0;
    assert(result.deep_view() =~= list.take(0));
    while i < entries.len()
        invariant
            i <= entries@.len(),
            list == ids(entries.deep_view()),
            result.deep_view() == list.take(i as int),
        decreases entries.len() - i,
    {
        let ghost before = result.deep_view();
        result.push(entries[i].id.value.copy());
        assert(result.deep_view() =~= before.push(entries@[i as int].deep_view().id));
        assert(list.take(i + 1) =~= before.push(list[i as int]));
        i += 1;
    }
    assert(list.take(i as int) =~= list);
    result
}

fn order_for(list: &Vec<String>, current: &Option<String>, shuffle: &ShuffleState) -> (result: Vec<
    String,
>)
    requires
        current.deep_view() matches Some(id) ==> list.deep_view().contains(id),
    ensures
        result.deep_view() == play_order(
            list.deep_view(),
            current.deep_view(),
            shuffle.deep_view(),
        ),
{
    if !shuffle.enabled {
        return list.copy();
    }
    match current {
        None => shuffle_items(list, shuffle.seed),
        Some(id) => {
            let ghost all = list.deep_view();
            proof {
                lemma_place(all, id@);
            }
            let at: usize = place_in(list, id.as_str());
            let mut rest: Vec<String> = list.copy();
            assert(rest.deep_view().len() == rest@.len());
            assert(all.len() == list@.len());
            let _current: String = rest.remove(at);
            assert(rest.deep_view() =~= all.remove(at as int));
            let drawn: Vec<String> = shuffle_items(&rest, shuffle.seed);
            let mut result: Vec<String> = drawn;
            let ghost before = result.deep_view();
            result.insert(0, id.copy());
            assert(result.deep_view() =~= before.insert(0, id@));
            assert(result.deep_view() =~= seq![id@] + before);
            result
        },
    }
}

impl QueueEngine {
    /// An empty queue.
    pub fn new(server_id: ServerId) -> (result: QueueEngine)
        ensures
            result.deep_view() == QueueView::empty(server_id.deep_view()),
            result.deep_view().wf(),
    {
        let result: QueueEngine = QueueEngine {
            server_id,
            entries: Vec::new(),
            order: Vec::new(),
            current: None,
            repeat_mode: RepeatMode::All,
            shuffle: ShuffleState { enabled: false, seed: 0 },
            progress_seconds: 0,
            next_number: 0,
        };
        proof {
            assert(result.entries.deep_view() =~= Seq::empty());
            assert(result.order.deep_view() =~= Seq::empty());
            assert(ids(result.deep_view().entries) =~= Seq::empty());
            assert(result.deep_view() =~= QueueView::empty(server_id.deep_view()));
        }
        result
    }

    pub fn server_id(&self) -> (result: &ServerId)
        ensures
            result.deep_view() == self.deep_view().server_id,
    {
        &self.server_id
    }

    pub fn entries(&self) -> (result: &Vec<QueueEntry>)
        ensures
            result.deep_view() == self.deep_view().entries,
    {
        &self.entries
    }

    pub fn repeat_mode(&self) -> (result: RepeatMode)
        ensures
            result == self.deep_view().repeat_mode,
    {
        self.repeat_mode
    }

    pub fn shuffle(&self) -> (result: &ShuffleState)
        ensures
            result.deep_view() == self.deep_view().shuffle,
    {
        &self.shuffle
    }

    pub fn progress_seconds(&self) -> (result: u32)
        ensures
            result == self.deep_view().progress_seconds,
    {
        self.progress_seconds
    }

    /// The current entry.
    pub fn current(&self) -> (result: Option<QueueEntry>)
        requires
            self.deep_view().wf(),
        ensures
            result.deep_view() == self.deep_view().current_entry(),
            result is Some <==> self.deep_view().current is Some,
            result.deep_view() matches Some(entry) ==> self.deep_view().current == Some(entry.id),
    {
        match &self.current {
            None => None,
            Some(id) => {
                proof {
                    lemma_place(ids(self.deep_view().entries), id@);
                }
                let at: usize = place_of_id(&self.entries, id.as_str());
                Some(self.entries[at].copy())
            },
        }
    }

    fn turn(&self) -> (result: usize)
        requires
            self.deep_view().wf(),
        ensures
            result == self.deep_view().current_turn(),
            self.deep_view().current is Some ==> result < self.order@.len(),
            self.deep_view().current is Some ==> result < usize::MAX,
            self.order@.len() == self.deep_view().order.len(),
    {
        let length: usize = self.order.len();
        assert(length == self.deep_view().order.len());
        match &self.current {
            None => self.order.len(),
            Some(id) => {
                proof {
                    lemma_place(self.deep_view().order, id@);
                    assert(self.deep_view().order.contains(id@));
                }
                place_in(&self.order, id.as_str())
            },
        }
    }

    fn index(&self) -> (result: usize)
        requires
            self.deep_view().wf(),
        ensures
            result == self.deep_view().current_index(),
            self.deep_view().current is Some ==> result < self.entries@.len(),
            self.deep_view().current is Some ==> result < usize::MAX,
            self.entries@.len() == self.deep_view().entries.len(),
    {
        let length: usize = self.entries.len();
        assert(length == self.deep_view().entries.len());
        match &self.current {
            None => self.entries.len(),
            Some(id) => {
                proof {
                    lemma_place(ids(self.deep_view().entries), id@);
                }
                place_of_id(&self.entries, id.as_str())
            },
        }
    }

    fn add_track(&mut self, track: &Track, at: usize, turn: usize) -> (result: QueueEntryId)
        requires
            old(self).deep_view().wf(),
            at <= old(self).deep_view().entries.len(),
            turn <= old(self).deep_view().order.len(),
            !old(self).deep_view().shuffle.enabled ==> at == turn,
        ensures
            final(self).deep_view() == old(self).deep_view().with_track(
                track.deep_view(),
                None,
                at as int,
                turn as int,
            ),
            final(self).deep_view().wf(),
            result.deep_view() == entry_id(old(self).deep_view().next_number as nat),
    {
        let id: QueueEntryId = queue_entry_id(self.next_number);
        if self.next_number == u64::MAX {
            return id;
        }
        let ghost before = self.deep_view();
        let ghost text = id.deep_view();
        let entry: QueueEntry = entry_for(track, id.copy(), None);
        proof {
            assert(!ids(before.entries).contains(text));
            assert(!before.order.contains(text));
            lemma_inserted(ids(before.entries), at as int, text);
            lemma_inserted(before.order, turn as int, text);
        }
        assert(self.entries@.len() == before.entries.len());
        assert(self.order@.len() == before.order.len());
        let ghost added = entry.deep_view();
        self.entries.insert(at, entry);
        self.order.insert(turn, id.value.copy());
        if self.current.is_none() {
            self.current = Some(id.value.copy());
        }
        self.next_number = self.next_number + 1;
        proof {
            let after = self.deep_view();
            assert(after.entries =~= before.entries.insert(at as int, added));
            assert(after.order =~= before.order.insert(turn as int, text));
            assert(ids(after.entries) =~= ids(before.entries).insert(at as int, text));
            assert forall|number: nat|
                number >= after.next_number implies !ids(after.entries).contains(
                #[trigger] entry_id(number),
            ) by {
                lemma_entry_ids_differ(number, before.next_number as nat);
            }
        }
        id
    }

    /// Adds a track at the end of the queue.
    pub fn append(&mut self, track: &Track) -> (result: QueueEntryId)
        requires
            old(self).deep_view().wf(),
        ensures
            final(self).deep_view() == old(self).deep_view().appended(track.deep_view()),
            final(self).deep_view().wf(),
            result.deep_view() == entry_id(old(self).deep_view().next_number as nat),
    {
        let at: usize = self.entries.len();
        let turn: usize = self.order.len();
        assert(self.deep_view().entries.len() == at);
        assert(self.deep_view().order.len() == turn);
        self.add_track(track, at, turn)
    }

    /// Adds tracks at the end of the queue.
    pub fn append_all(&mut self, tracks: &Vec<Track>)
        requires
            old(self).deep_view().wf(),
        ensures
            final(self).deep_view() == old(self).deep_view().appended_all(tracks.deep_view()),
            final(self).deep_view().wf(),
    {
        let ghost before = self.deep_view();
        let ghost all = tracks.deep_view();
        let mut i: usize = 0;
        assert(all.take(0) =~= Seq::empty());
        while i < tracks.len()
            invariant
                i <= tracks@.len(),
                all == tracks.deep_view(),
                self.deep_view() == before.appended_all(all.take(i as int)),
                self.deep_view().wf(),
            decreases tracks.len() - i,
        {
            assert(all.take(i + 1).drop_last() =~= all.take(i as int));
            assert(all.take(i + 1).last() == tracks@[i as int].deep_view());
            let _id: QueueEntryId = self.append(&tracks[i]);
            i += 1;
        }
        assert(all.take(i as int) =~= all);
    }

    /// Adds a track next after the current one.
    pub fn play_next(&mut self, track: &Track) -> (result: QueueEntryId)
        requires
            old(self).deep_view().wf(),
        ensures
            final(self).deep_view() == old(self).deep_view().with_next(track.deep_view()),
            final(self).deep_view().wf(),
            result.deep_view() == entry_id(old(self).deep_view().next_number as nat),
    {
        if self.current.is_none() {
            return self.add_track(track, 0, 0);
        }
        let at: usize = self.index() + 1;
        let turn: usize = self.turn() + 1;
        self.add_track(track, at, turn)
    }

    /// Adds a track next after the current one and makes it the current one.
    pub fn play_now(&mut self, track: &Track) -> (result: QueueEntryId)
        requires
            old(self).deep_view().wf(),
        ensures
            final(self).deep_view() == old(self).deep_view().playing_now(track.deep_view()),
            final(self).deep_view().wf(),
            result.deep_view() == entry_id(old(self).deep_view().next_number as nat),
    {
        let ghost before = self.deep_view();
        let can: bool = self.next_number < u64::MAX;
        let id: QueueEntryId = self.play_next(track);
        if can {
            let ghost middle = self.deep_view();
            proof {
                let at = if before.current is Some {
                    before.current_index() + 1
                } else {
                    0
                };
                lemma_place(ids(before.entries), before.current->0);
                assert(middle.entries[at].id == id.deep_view());
                assert(ids(middle.entries)[at] == id.deep_view());
            }
            self.current = Some(id.value.copy());
            self.progress_seconds = 0;
        }
        id
    }

    fn go_to(&mut self, id: String)
        requires
            old(self).deep_view().wf(),
            ids(old(self).deep_view().entries).contains(id@),
        ensures
            final(self).deep_view() == old(self).deep_view().at(id@),
            final(self).deep_view().wf(),
    {
        self.current = Some(id);
        self.progress_seconds = 0;
    }

    /// The identifier of what follows the current entry.
    pub fn following_id(&self) -> (result: Option<QueueEntryId>)
        requires
            self.deep_view().wf(),
        ensures
            result.deep_view() == self.deep_view().following(),
            result.deep_view() matches Some(id) ==> ids(self.deep_view().entries).contains(id),
    {
        if self.current.is_none() {
            return None;
        }
        let turn: usize = self.turn();
        let next: usize = if turn + 1 < self.order.len() {
            turn + 1
        } else if self.repeat_mode == RepeatMode::All {
            0
        } else {
            return None;
        };
        proof {
            assert(self.deep_view().order[next as int] == self.order@[next as int]@);
            assert(self.deep_view().order.contains(self.deep_view().order[next as int]));
        }
        Some(QueueEntryId { value: self.order[next].copy() })
    }

    /// The entry that follows the current one.
    pub fn following_entry(&self) -> (result: Option<QueueEntry>)
        requires
            self.deep_view().wf(),
        ensures
            result.deep_view() == (match self.deep_view().following() {
                Some(id) => Some(self.deep_view().entry(id)),
                None => None,
            }),
    {
        match self.following_id() {
            None => None,
            Some(id) => {
                proof {
                    lemma_place(ids(self.deep_view().entries), id.deep_view());
                }
                let at: usize = place_of_id(&self.entries, id.as_str());
                Some(self.entries[at].copy())
            },
        }
    }

    /// Goes on to what follows; tells whether there is any.
    pub fn next_track(&mut self) -> (result: bool)
        requires
            old(self).deep_view().wf(),
        ensures
            final(self).deep_view() == old(self).deep_view().moved(
                old(self).deep_view().following(),
            ),
            final(self).deep_view().wf(),
            result == old(self).deep_view().following() is Some,
    {
        match self.following_id() {
            Some(id) => {
                self.go_to(id.value);
                true
            },
            None => false,
        }
    }

    /// Goes back to what came before; tells whether there is any.
    pub fn previous_track(&mut self) -> (result: bool)
        requires
            old(self).deep_view().wf(),
        ensures
            final(self).deep_view() == old(self).deep_view().moved(
                old(self).deep_view().preceding(),
            ),
            final(self).deep_view().wf(),
            result == old(self).deep_view().preceding() is Some,
    {
        if self.current.is_none() {
            return false;
        }
        let turn: usize = self.turn();
        if turn == 0 {
            return false;
        }
        let id: String = self.order[turn - 1].copy();
        proof {
            assert(self.deep_view().order[turn - 1] == id@);
            assert(self.deep_view().order.contains(id@));
        }
        self.go_to(id);
        true
    }

    /// Goes on once the current entry has ended; tells whether anything is left to play.
    pub fn advance_after_end_of_stream(&mut self) -> (result: bool)
        requires
            old(self).deep_view().wf(),
        ensures
            final(self).deep_view() == old(self).deep_view().moved(
                old(self).deep_view().after_end(),
            ),
            final(self).deep_view().wf(),
            result == old(self).deep_view().after_end() is Some,
    {
        if self.repeat_mode == RepeatMode::One {
            match self.current.copy() {
                Some(id) => {
                    self.go_to(id);
                    true
                },
                None => false,
            }
        } else {
            self.next_track()
        }
    }

    /// Goes to an entry; tells whether it is there.
    pub fn activate(&mut self, id: &QueueEntryId) -> (result: bool)
        requires
            old(self).deep_view().wf(),
        ensures
            result == ids(old(self).deep_view().entries).contains(id.deep_view()),
            final(self).deep_view() == (if result {
                old(self).deep_view().at(id.deep_view())
            } else {
                old(self).deep_view()
            }),
            final(self).deep_view().wf(),
    {
        proof {
            lemma_place(ids(self.deep_view().entries), id.deep_view());
        }
        if place_of_id(&self.entries, id.as_str()) < self.entries.len() {
            self.go_to(id.value.copy());
            true
        } else {
            false
        }
    }

    /// Takes all entries out.
    pub fn clear(&mut self)
        requires
            old(self).deep_view().wf(),
        ensures
            final(self).deep_view() == old(self).deep_view().cleared(),
            final(self).deep_view().wf(),
    {
        self.entries = Vec::new();
        self.order = Vec::new();
        self.current = None;
        self.progress_seconds = 0;
        proof {
            assert(self.entries.deep_view() =~= Seq::empty());
            assert(self.order.deep_view() =~= Seq::empty());
            assert(ids(self.deep_view().entries) =~= Seq::empty());
        }
    }

    /// Takes an entry out; tells whether it was there.
    pub fn remove(&mut self, id: &QueueEntryId) -> (result: bool)
        requires
            old(self).deep_view().wf(),
        ensures
            result == ids(old(self).deep_view().entries).contains(id.deep_view()),
            final(self).deep_view() == old(self).deep_view().without(id.deep_view()),
            final(self).deep_view().wf(),
    {
        let ghost before = self.deep_view();
        let ghost gone = id.deep_view();
        proof {
            lemma_place(ids(before.entries), gone);
            lemma_place(before.order, gone);
            assert(before.order.contains(gone) <==> ids(before.entries).contains(gone));
        }
        let at: usize = place_of_id(&self.entries, id.as_str());
        if at == self.entries.len() {
            return false;
        }
        let turn: usize = place_in(&self.order, id.as_str());
        let was_current: bool = match &self.current {
            Some(current) => current.same(&id.value),
            None => false,
        };
        proof {
            lemma_removed(ids(before.entries), at as int);
            lemma_removed(before.order, turn as int);
        }
        let _entry: QueueEntry = self.entries.remove(at);
        let _id: String = self.order.remove(turn);
        proof {
            assert(self.entries.deep_view() =~= before.entries.remove(at as int));
            assert(self.order.deep_view() =~= before.order.remove(turn as int));
            assert(ids(self.entries.deep_view()) =~= ids(before.entries).remove(at as int));
        }
        let ghost rest = before.order.remove(turn as int);
        if was_current {
            self.progress_seconds = 0;
            self.current = if self.order.len() == 0 {
                None
            } else if turn < self.order.len() {
                Some(self.order[turn].copy())
            } else {
                Some(self.order[self.order.len() - 1].copy())
            };
            proof {
                assert(self.order@.len() == rest.len());
                if rest.len() > 0 {
                    if turn < rest.len() {
                        assert(rest.contains(rest[turn as int]));
                    } else {
                        assert(rest.contains(rest.last()));
                    }
                }
            }
        } else {
            assert(rest.len() > 0) by {
                assert(before.order.contains(before.current->0));
            }
        }
        assert(self.deep_view() =~= before.without(gone));
        true
    }

    /// Moves an entry next after the current one; tells whether it is there.
    pub fn move_after_current(&mut self, id: &QueueEntryId) -> (result: bool)
        requires
            old(self).deep_view().wf(),
        ensures
            result == ids(old(self).deep_view().entries).contains(id.deep_view()),
            final(self).deep_view() == old(self).deep_view().with_moved(id.deep_view()),
            final(self).deep_view().wf(),
    {
        let ghost before = self.deep_view();
        let ghost moving = id.deep_view();
        proof {
            lemma_place(ids(before.entries), moving);
        }
        let at: usize = place_of_id(&self.entries, id.as_str());
        if at == self.entries.len() {
            return false;
        }
        let is_current: bool = match &self.current {
            Some(current) => current.same(&id.value),
            None => false,
        };
        if is_current {
            return true;
        }
        let entry: QueueEntry = self.entries[at].copy();
        let _removed: bool = self.remove(id);
        let ghost rest = self.deep_view();
        proof {
            lemma_place(before.order, moving);
            assert(before.order.contains(moving));
            lemma_removed(ids(before.entries), at as int);
            lemma_removed(before.order, place(before.order, moving));
            assert(ids(rest.entries) =~= ids(before.entries).remove(at as int));
        }
        let index: usize = self.index() + 1;
        let turn: usize = self.turn() + 1;
        proof {
            lemma_inserted(ids(rest.entries), index as int, moving);
            lemma_inserted(rest.order, turn as int, moving);
        }
        self.entries.insert(index, entry);
        self.order.insert(turn, id.value.copy());
        proof {
            let after = self.deep_view();
            assert(after.entries =~= rest.entries.insert(index as int, entry.deep_view()));
            assert(after.order =~= rest.order.insert(turn as int, moving));
            assert(ids(after.entries) =~= ids(rest.entries).insert(index as int, moving));
            assert(after =~= before.with_moved(moving));
            assert forall|id: Seq<char>| #[trigger] after.order.contains(id) <==> ids(
                after.entries,
            ).contains(id) by {
                assert(rest.order.contains(id) <==> ids(rest.entries).contains(id));
            }
            assert forall|number: nat|
                number >= after.next_number implies !ids(after.entries).contains(
                #[trigger] entry_id(number),
            ) by {
                assert(!ids(before.entries).contains(entry_id(number)));
            }
        }
        true
    }

    pub fn set_progress_seconds(&mut self, seconds: u32)
        requires
            old(self).deep_view().wf(),
        ensures
            final(self).deep_view() == (QueueView {
                progress_seconds: seconds,
                ..old(self).deep_view()
            }),
            final(self).deep_view().wf(),
    {
        self.progress_seconds = seconds;
    }

    pub fn set_repeat_mode(&mut self, repeat_mode: RepeatMode)
        requires
            old(self).deep_view().wf(),
        ensures
            final(self).deep_view() == (QueueView { repeat_mode, ..old(self).deep_view() }),
            final(self).deep_view().wf(),
    {
        self.repeat_mode = repeat_mode;
    }

    /// Sets whether, and from which seed, the queue is played in shuffled order.
    pub fn set_shuffle(&mut self, enabled: bool, seed: u64)
        requires
            old(self).deep_view().wf(),
        ensures
            final(self).deep_view() == old(self).deep_view().with_shuffle(
                ShuffleStateView { enabled, seed },
            ),
            final(self).deep_view().wf(),
    {
        let shuffle: ShuffleState = ShuffleState { enabled, seed };
        let list: Vec<String> = ids_of(&self.entries);
        proof {
            lemma_play_order(
                ids(self.deep_view().entries),
                self.deep_view().current,
                shuffle.deep_view(),
            );
        }
        self.order = order_for(&list, &self.current, &shuffle);
        self.shuffle = shuffle;
    }

    /// How many entries are still to be played after the current one.
    pub fn remaining_after_current(&self) -> (result: usize)
        requires
            self.deep_view().wf(),
        ensures
            result == self.deep_view().remaining(),
    {
        if self.current.is_none() {
            return 0;
        }
        self.order.len() - 1 - self.turn()
    }

    /// Marks a track, or not, as a favorite.
    pub fn set_track_favorite(&mut self, track_id: &TrackId, favorite: bool)
        requires
            old(self).deep_view().wf(),
        ensures
            final(self).deep_view() == old(self).deep_view().with_favorite(
                track_id.deep_view(),
                favorite,
            ),
            final(self).deep_view().wf(),
    {
        let ghost before = self.deep_view();
        let ghost expected = before.with_favorite(track_id.deep_view(), favorite).entries;
        let mut entries: Vec<QueueEntry> = Vec::new();
        let mut i: usize = 0;
        assert(entries.deep_view() =~= expected.take(0));
        while i < self.entries.len()
            invariant
                i <= self.entries@.len(),
                before == self.deep_view(),
                before.entries == self.entries.deep_view(),
                expected == before.with_favorite(track_id.deep_view(), favorite).entries,
                entries.deep_view() == expected.take(i as int),
            decreases self.entries.len() - i,
        {
            let ghost done = entries.deep_view();
            let mut entry: QueueEntry = self.entries[i].copy();
            assert(before.entries[i as int] == entry.deep_view());
            if entry.track_id.same(track_id) {
                entry.favorite = favorite;
            }
            assert(expected[i as int] == entry.deep_view());
            let ghost added = entry.deep_view();
            entries.push(entry);
            assert(entries.deep_view() =~= done.push(added));
            assert(expected.take(i + 1) =~= done.push(expected[i as int]));
            i += 1;
        }
        assert(expected.take(i as int) =~= expected);
        self.entries = entries;
        assert(ids(self.deep_view().entries) =~= ids(before.entries));
    }

    /// Fills the queue anew; tells whether it could be.
    pub fn replace_all(&mut self, replacement: QueueReplacement) -> (result: bool)
        requires
            old(self).deep_view().wf(),
        ensures
            result == old(self).deep_view().filled(replacement.deep_view()) is Some,
            final(self).deep_view() == (match old(self).deep_view().filled(
                replacement.deep_view(),
            ) {
                Some(filled) => filled,
                None => old(self).deep_view(),
            }),
            final(self).deep_view().wf(),
    {
        let ghost before = self.deep_view();
        let ghost asked = replacement.deep_view();
        let items: &Vec<QueueItemInput> = &replacement.items;
        assert(asked.items.len() == items@.len());
        let at: usize = anchor_position(items, &replacement.anchor);
        if at == items.len() || items.len() as u64 > u64::MAX - self.next_number {
            return false;
        }
        let first: u64 = self.next_number;
        let ghost expected = filled_entries(asked, first as nat);
        let mut entries: Vec<QueueEntry> = Vec::new();
        let mut i: usize = 0;
        assert(entries.deep_view() =~= expected.take(0));
        while i < items.len()
            invariant
                i <= items@.len(),
                *items == replacement.items,
                asked == replacement.deep_view(),
                asked.items.len() == items@.len(),
                items@.len() <= u64::MAX - first,
                expected == filled_entries(asked, first as nat),
                entries.deep_view() == expected.take(i as int),
            decreases items.len() - i,
        {
            let ghost done = entries.deep_view();
            let origin: QueueEntryOrigin = QueueEntryOrigin {
                source_key: replacement.source.source_key.copy(),
                source_index: items[i].source_index,
                source_item_id: items[i].source_item_id.copy(),
            };
            assert(asked.items[i as int] == items@[i as int].deep_view());
            let entry: QueueEntry = entry_for(
                &items[i].track,
                queue_entry_id(first + i as u64),
                Some(origin),
            );
            let ghost added = entry.deep_view();
            assert(expected[i as int] == added);
            entries.push(entry);
            assert(entries.deep_view() =~= done.push(added));
            assert(expected.take(i + 1) =~= done.push(expected[i as int]));
            i += 1;
        }
        assert(expected.take(i as int) =~= expected);
        assert(entries.deep_view()[at as int] == entries@[at as int].deep_view());
        let current: Option<String> = Some(entries[at].id.value.copy());
        let list: Vec<String> = ids_of(&entries);
        proof {
            lemma_numbered_ids(expected, first as nat);
            assert(ids(expected)[at as int] == expected[at as int].id);
            assert(ids(expected).contains(expected[at as int].id));
            lemma_play_order(ids(expected), Some(expected[at as int].id), before.shuffle);
        }
        self.order = order_for(&list, &current, &self.shuffle);
        self.entries = entries;
        self.current = current;
        self.progress_seconds = 0;
        self.next_number = first + items.len() as u64;
        assert(self.deep_view() =~= before.filled(asked)->0);
        true
    }

    /// The queue as it is saved and shown.
    pub fn snapshot(&self) -> (result: QueueSnapshot)
        requires
            self.deep_view().wf(),
        ensures
            result.deep_view() == self.deep_view().snapshot(),
    {
        let ghost view = self.deep_view();
        let mut shuffle_order: Vec<usize> = Vec::new();
        if self.shuffle.enabled {
            let ghost expected = view.snapshot().shuffle_order;
            let mut i: usize = 0;
            assert(shuffle_order@ =~= expected.take(0));
            while i < self.order.len()
                invariant
                    i <= self.order@.len(),
                    view == self.deep_view(),
                    view.shuffle.enabled,
                    expected == view.snapshot().shuffle_order,
                    expected.len() == self.order@.len(),
                    shuffle_order@ == expected.take(i as int),
                decreases self.order.len() - i,
            {
                let ghost done = shuffle_order@;
                let at: usize = place_of_id(&self.entries, self.order[i].as_str());
                assert(view.order[i as int] == self.order@[i as int]@);
                assert(expected[i as int] == at);
                shuffle_order.push(at);
                assert(expected.take(i + 1) =~= done.push(expected[i as int]));
                i += 1;
            }
            assert(expected.take(i as int) =~= expected);
        } else {
            assert(shuffle_order@ =~= view.snapshot().shuffle_order);
        }
        let current_index: Option<usize> = if self.current.is_some() {
            Some(self.index())
        } else {
            None
        };
        assert(shuffle_order.deep_view() =~= shuffle_order@);
        QueueSnapshot {
            server_id: self.server_id.copy(),
            entries: self.entries.copy(),
            current_index,
            repeat_mode: self.repeat_mode,
            shuffle: self.shuffle.copy(),
            shuffle_order,
            progress_seconds: self.progress_seconds,
        }
    }

    /// The queue that a saved one becomes.
    pub fn from_snapshot(snapshot: QueueSnapshot) -> (result: QueueEngine)
        ensures
            result.deep_view() == restored(snapshot.deep_view()),
            result.deep_view().wf(),
    {
        let ghost saved = snapshot.deep_view();
        let ghost expected = renumbered(saved.entries);
        let length: usize = snapshot.entries.len();
        assert(saved.entries.len() == length);
        let mut entries: Vec<QueueEntry> = Vec::new();
        let mut i: usize = 0;
        assert(entries.deep_view() =~= expected.take(0));
        while i < length
            invariant
                i <= length,
                length == snapshot.entries@.len(),
                saved == snapshot.deep_view(),
                saved.entries.len() == length,
                expected == renumbered(saved.entries),
                entries.deep_view() == expected.take(i as int),
            decreases length - i,
        {
            let ghost done = entries.deep_view();
            let mut entry: QueueEntry = snapshot.entries[i].copy();
            assert(saved.entries[i as int] == entry.deep_view());
            entry.id = queue_entry_id(i as u64);
            let ghost added = entry.deep_view();
            assert(expected[i as int] == added);
            entries.push(entry);
            assert(entries.deep_view() =~= done.push(added));
            assert(expected.take(i + 1) =~= done.push(expected[i as int]));
            i += 1;
        }
        assert(expected.take(i as int) =~= expected);
        let current: Option<String> = match snapshot.current_index {
            Some(at) => if at < length {
                Some(queue_entry_id(at as u64).value)
            } else if length > 0 {
                Some(queue_entry_id(0).value)
            } else {
                None
            },
            None => if length > 0 {
                Some(queue_entry_id(0).value)
            } else {
                None
            },
        };
        let ghost current_id = restored_current(saved);
        proof {
            assert(current.deep_view() == current_id);
            lemma_numbered_ids(expected, 0);
            if length > 0 {
                let at = match saved.current_index {
                    Some(at) if at < length => at as int,
                    _ => 0,
                };
                assert(ids(expected)[at] == entry_id((0 + at) as nat));
                assert(ids(expected).contains(entry_id(at as nat)));
            }
            lemma_play_order(ids(expected), current_id, saved.shuffle);
        }
        let order: Vec<String> = if snapshot.shuffle.enabled && snapshot.shuffle_order.len()
            == length && holds_each_once(&snapshot.shuffle_order) {
            assert(snapshot.shuffle_order.deep_view() =~= snapshot.shuffle_order@);
            proof {
                lemma_ids_at(expected, saved.shuffle_order);
            }
            let ghost wanted = ids_at(saved.shuffle_order);
            let mut order: Vec<String> = Vec::new();
            let mut i: usize = 0;
            assert(order.deep_view() =~= wanted.take(0));
            while i < length
                invariant
                    i <= length,
                    length == snapshot.shuffle_order@.len(),
                    snapshot.shuffle_order@ == saved.shuffle_order,
                    wanted == ids_at(saved.shuffle_order),
                    order.deep_view() == wanted.take(i as int),
                decreases length - i,
            {
                let ghost done = order.deep_view();
                let id: String = queue_entry_id(snapshot.shuffle_order[i] as u64).value;
                assert(wanted[i as int] == id@);
                let ghost added = id@;
                order.push(id);
                assert(order.deep_view() =~= done.push(added));
                assert(wanted.take(i + 1) =~= done.push(wanted[i as int]));
                i += 1;
            }
            assert(wanted.take(i as int) =~= wanted);
            order
        } else {
            assert(snapshot.shuffle_order.deep_view() =~= snapshot.shuffle_order@);
            let list: Vec<String> = ids_of(&entries);
            order_for(&list, &current, &snapshot.shuffle)
        };
        let result: QueueEngine = QueueEngine {
            server_id: snapshot.server_id,
            entries,
            order,
            current,
            repeat_mode: snapshot.repeat_mode,
            shuffle: snapshot.shuffle,
            progress_seconds: snapshot.progress_seconds,
            next_number: length as u64,
        };
        assert(result.deep_view() =~= restored(saved));
        result
    }
}

fn anchor_position(items: &Vec<QueueItemInput>, anchor: &QueueAnchor) -> (result: usize)
    ensures
        result == anchor_place(items.deep_view(), anchor.deep_view()),
        result <= items@.len(),
{
    let ghost all = items.deep_view();
    let ghost start = anchor.deep_view();
    let ghost test = |item: QueueItemInputView| is_anchor(item, start);
    let mut i: usize = 0;
    while i < items.len()
        invariant
            i <= items@.len(),
            all == items.deep_view(),
            start == anchor.deep_view(),
            test == (|item: QueueItemInputView| is_anchor(item, start)),
            forall|j: int| 0 <= j < i ==> !test(all[j]),
        decreases items.len() - i,
    {
        assert(all[i as int] == items@[i as int].deep_view());
        if items[i].track.id.same(&anchor.track_id) && items[i].source_index == anchor.source_index
            && items[i].source_item_id.same(&anchor.source_item_id) {
            proof {
                lemma_first_where(all, test, i as int);
            }
            return i;
        }
        i += 1;
    }
    proof {
        lemma_first_where(all, test, i as int);
    }
    i
}

fn holds_each_once(list: &Vec<usize>) -> (result: bool)
    ensures
        result == is_permutation(list@),
{
    let mut i: usize = 0;
    while i < list.len()
        invariant
            i <= list@.len(),
            forall|j: int| 0 <= j < i ==> (#[trigger] list@[j]) < list@.len(),
            forall|a: int, b: int| 0 <= a < i && 0 <= b < i && a != b ==> list@[a] != list@[b],
        decreases list.len() - i,
    {
        if list[i] >= list.len() {
            return false;
        }
        let mut j: usize = 0;
        while j < i
            invariant
                j <= i < list@.len(),
                forall|k: int| 0 <= k < j ==> list@[k] != list@[i as int],
            decreases i - j,
        {
            if list[j] == list[i] {
                assert(list@[j as int] == list@[i as int]);
                return false;
            }
            j += 1;
        }
        i += 1;
    }
    true
}

proof fn lemma_ids_at(entries: Seq<QueueEntryView>, places: Seq<usize>)
    requires
        is_permutation(places),
        places.len() == entries.len(),
        ids(entries).no_duplicates(),
        forall|i: int| 0 <= i < entries.len() ==> #[trigger] ids(entries)[i] == entry_id(i as nat),
    ensures
        ids_at(places).no_duplicates(),
        ids_at(places).len() == entries.len(),
        forall|id: Seq<char>| #[trigger] ids_at(places).contains(id) <==> ids(entries).contains(id),
{
    let order = ids_at(places);
    let list = ids(entries);
    assert forall|a: int, b: int|
        0 <= a < order.len() && 0 <= b < order.len() && a != b implies order[a] != order[b] by {
        lemma_entry_ids_differ(places[a] as nat, places[b] as nat);
    }
    assert forall|id: Seq<char>| #[trigger] order.contains(id) implies list.contains(id) by {
        let i = choose|i: int| 0 <= i < order.len() && order[i] == id;
        assert(list[places[i] as int] == id);
    }
    order.unique_seq_to_set();
    list.unique_seq_to_set();
    assert(order.to_set().subset_of(list.to_set()));
    vstd::set_lib::lemma_subset_equality(order.to_set(), list.to_set());
    assert forall|id: Seq<char>| list.contains(id) implies #[trigger] order.contains(id) by {
        assert(list.to_set().contains(id));
        assert(order.to_set().contains(id));
    }
}

/// A saved queue comes back as it was, but for the identifiers of its entries: the same
/// entries in the same order, the same current one, and the same turns.
pub proof fn saved_queue_comes_back(queue: QueueView)
    requires
        queue.wf(),
        queue.entries.len() <= usize::MAX,
    ensures
        ({
            let back = restored(queue.snapshot());
            &&& back.server_id == queue.server_id
            &&& back.entries.len() == queue.entries.len()
            &&& forall|i: int|
                0 <= i < queue.entries.len() ==> (#[trigger] back.entries[i]) == (QueueEntryView {
                    id: entry_id(i as nat),
                    ..queue.entries[i]
                })
            &&& back.current_index() == queue.current_index()
            &&& back.current_turn() == queue.current_turn()
            &&& forall|i: int|
                0 <= i < queue.order.len() ==> place(
                    ids(back.entries),
                    #[trigger] back.order[i],
                ) == place(ids(queue.entries), queue.order[i])
            &&& back.repeat_mode == queue.repeat_mode
            &&& back.shuffle == queue.shuffle
            &&& back.progress_seconds == queue.progress_seconds
        }),
{
    let saved = queue.snapshot();
    let back = restored(saved);
    let list = ids(queue.entries);
    let new_list = ids(back.entries);
    lemma_numbered_ids(back.entries, 0);
    assert forall|i: int| 0 <= i < queue.order.len() implies 0 <= #[trigger] place(
        list,
        queue.order[i],
    ) < list.len() by {
        assert(queue.order.contains(queue.order[i]));
        lemma_place(list, queue.order[i]);
    }
    if queue.shuffle.enabled {
        assert forall|a: int, b: int|
            0 <= a < saved.shuffle_order.len() && 0 <= b < saved.shuffle_order.len() && a
                != b implies saved.shuffle_order[a] != saved.shuffle_order[b] by {
            lemma_place(list, queue.order[a]);
            lemma_place(list, queue.order[b]);
            assert(0 <= place(list, queue.order[a]) < list.len());
            assert(0 <= place(list, queue.order[b]) < list.len());
        }
        assert forall|i: int| 0 <= i < saved.shuffle_order.len() implies (
        #[trigger] saved.shuffle_order[i]) < saved.shuffle_order.len() by {
            assert(0 <= place(list, queue.order[i]) < list.len());
        }
    }
    assert forall|i: int| 0 <= i < queue.order.len() implies place(
        new_list,
        #[trigger] back.order[i],
    ) == place(list, queue.order[i]) by {
        let at = place(list, queue.order[i]);
        assert(0 <= at < list.len());
        assert(new_list[at] == entry_id(at as nat));
        if !queue.shuffle.enabled {
            lemma_place_of(list, i);
        }
        assert(back.order[i] == entry_id(at as nat));
        lemma_place_of(new_list, at);
    }
    if queue.current is Some {
        let id = queue.current->0;
        let at = place(list, id);
        lemma_place(list, id);
        assert(new_list[at] == entry_id(at as nat));
        lemma_place_of(new_list, at);
        assert(queue.order.contains(id));
        lemma_place(queue.order, id);
        let turn = place(queue.order, id);
        assert(place(new_list, back.order[turn]) == at);
        assert(back.order[turn] == entry_id(at as nat)) by {
            if !queue.shuffle.enabled {
                lemma_place_of(list, turn);
            }
        }
        lemma_ids_turn(queue, back, turn);
    }
}

proof fn lemma_ids_turn(queue: QueueView, back: QueueView, turn: int)
    requires
        queue.wf(),
        queue.entries.len() <= usize::MAX,
        back == restored(queue.snapshot()),
        0 <= turn < queue.order.len(),
        ids(back.entries).no_duplicates(),
        forall|i: int|
            0 <= i < queue.order.len() ==> place(ids(back.entries), #[trigger] back.order[i])
                == place(ids(queue.entries), queue.order[i]),
        back.order.len() == queue.order.len(),
    ensures
        place(back.order, back.order[turn]) == turn,
{
    let order = back.order;
    let list = ids(queue.entries);
    assert forall|a: int, b: int|
        0 <= a < order.len() && 0 <= b < order.len() && a != b implies order[a] != order[b] by {
        assert(place(ids(back.entries), order[a]) == place(list, queue.order[a]));
        assert(place(ids(back.entries), order[b]) == place(list, queue.order[b]));
        assert(queue.order.contains(queue.order[a]));
        assert(queue.order.contains(queue.order[b]));
        lemma_place(list, queue.order[a]);
        lemma_place(list, queue.order[b]);
    }
    lemma_place_of(order, turn);
}

/// A queue that is not shuffled is played in its own order.
pub proof fn unshuffled_order(queue: QueueView)
    requires
        queue.wf(),
        !queue.shuffle.enabled,
    ensures
        queue.order == ids(queue.entries),
{
}

/// Going on and back leads to the same entry, unless the end of the queue was passed.
pub proof fn previous_undoes_next(queue: QueueView)
    requires
        queue.wf(),
        queue.current is Some,
        queue.current_turn() + 1 < queue.order.len(),
    ensures
        queue.moved(queue.following()).preceding() == queue.current,
{
    let id = queue.current->0;
    assert(queue.order.contains(id));
    lemma_place(queue.order, id);
    lemma_place_of(queue.order, queue.current_turn() + 1);
}

/// Going on through the whole play order leads back to where it began where all is repeated.
pub proof fn next_wraps_to_the_first(queue: QueueView)
    requires
        queue.wf(),
        queue.repeat_mode == RepeatMode::All,
        queue.entries.len() > 0,
        queue.current_turn() + 1 == queue.order.len(),
    ensures
        queue.following() == Some(queue.order[0]),
        queue.moved(queue.following()).current_turn() == 0,
{
    lemma_place_of(queue.order, 0);
}

/// An added entry can be taken out again, which leaves the queue as it was.
pub proof fn removing_undoes_appending(queue: QueueView, track: TrackView)
    requires
        queue.wf(),
        queue.has_numbers(),
        queue.entries.len() > 0,
    ensures
        ({
            let id = entry_id(queue.next_number as nat);
            let back = queue.appended(track).without(id);
            &&& back.entries == queue.entries
            &&& back.order == queue.order
            &&& back.current == queue.current
            &&& back.progress_seconds == queue.progress_seconds
        }),
{
    let id = entry_id(queue.next_number as nat);
    let longer = queue.appended(track);
    let list = ids(queue.entries);
    assert(ids(longer.entries) =~= list.push(id));
    assert(!list.contains(id));
    assert(!queue.order.contains(id));
    lemma_place_at_end(list, id);
    lemma_place_at_end(queue.order, id);
    assert(longer.order =~= queue.order.push(id));
    assert(longer.entries.remove(list.len() as int) =~= queue.entries);
    assert(longer.order.remove(queue.order.len() as int) =~= queue.order);
    assert(ids(longer.entries)[list.len() as int] == id);
}

proof fn lemma_place_at_end(list: Seq<Seq<char>>, added: Seq<char>)
    requires
        !list.contains(added),
    ensures
        place(list.push(added), added) == list.len(),
{
    let longer = list.push(added);
    lemma_place(longer, added);
    assert(longer[list.len() as int] == added);
    let at = place(longer, added);
    if at < list.len() {
        assert(list[at] == added);
    }
}

/// A track that is added next is a new entry that follows the current one in the play order
/// and in the queue; the current entry stays, and so do all the others, in their order.
pub proof fn what_is_added_next_is_played_next(queue: QueueView, track: TrackView)
    requires
        queue.wf(),
        queue.has_numbers(),
        queue.current is Some,
    ensures
        ({
            let after = queue.with_next(track);
            let turn = queue.current_turn();
            let at = queue.current_index();
            let id = after.order[turn + 1];
            &&& 0 <= turn < queue.order.len()
            &&& 0 <= at < queue.entries.len()
            &&& queue.order[turn] == queue.current->0
            &&& queue.entries[at].id == queue.current->0
            &&& after.current == queue.current
            &&& after.order.len() == queue.order.len() + 1
            &&& after.order[turn] == queue.current->0
            &&& after.order.remove(turn + 1) == queue.order
            &&& !queue.order.contains(id)
            &&& after.following() == Some(id)
            &&& after.entries.len() == queue.entries.len() + 1
            &&& after.entries[at + 1].id == id
            &&& after.entries[at + 1].track_id == track.id
            &&& after.entries.remove(at + 1) == queue.entries
            &&& after.progress_seconds == queue.progress_seconds
            &&& after.repeat_mode == queue.repeat_mode
            &&& after.shuffle == queue.shuffle
            &&& after.server_id == queue.server_id
        }),
{
    let after = queue.with_next(track);
    let turn = queue.current_turn();
    let at = queue.current_index();
    let current = queue.current->0;
    let new_id = entry_id(queue.next_number as nat);
    lemma_place(ids(queue.entries), current);
    assert(queue.order.contains(current));
    lemma_place(queue.order, current);
    assert(ids(queue.entries)[at] == queue.entries[at].id);
    assert(!ids(queue.entries).contains(new_id));
    assert(!queue.order.contains(new_id));
    lemma_inserted(queue.order, turn + 1, new_id);
    lemma_place_of(after.order, turn);
    assert(after.order.remove(turn + 1) =~= queue.order);
    assert(after.entries.remove(at + 1) =~= queue.entries);
}

/// A track that is added last is a new entry at the end of the queue and of the play order;
/// what is current and all that there was stays, in its order. In an empty queue it is the
/// current one.
pub proof fn what_is_added_last_is_played_last(queue: QueueView, track: TrackView)
    requires
        queue.wf(),
        queue.has_numbers(),
    ensures
        ({
            let after = queue.appended(track);
            let id = after.order.last();
            &&& after.order.drop_last() == queue.order
            &&& after.entries.drop_last() == queue.entries
            &&& after.order.len() == queue.order.len() + 1
            &&& after.entries.len() == queue.entries.len() + 1
            &&& !queue.order.contains(id)
            &&& after.entries.last().id == id
            &&& after.entries.last().track_id == track.id
            &&& after.current == (if queue.current is Some {
                queue.current
            } else {
                Some(id)
            })
            &&& after.progress_seconds == queue.progress_seconds
            &&& after.repeat_mode == queue.repeat_mode
            &&& after.shuffle == queue.shuffle
            &&& after.server_id == queue.server_id
        }),
{
    let after = queue.appended(track);
    let new_id = entry_id(queue.next_number as nat);
    assert(!ids(queue.entries).contains(new_id));
    assert(!queue.order.contains(new_id));
    assert(after.order =~= queue.order.push(new_id));
    assert(after.entries =~= queue.entries.push(after.entries.last()));
    assert(after.order.drop_last() =~= queue.order);
    assert(after.entries.drop_last() =~= queue.entries);
}

/// Tracks that are added last stand at the end of the queue and of the play order, in their
/// own order; what there was before stays.
pub proof fn tracks_are_added_in_their_order(queue: QueueView, tracks: Seq<TrackView>)
    requires
        queue.wf(),
        queue.next_number + tracks.len() <= u64::MAX,
    ensures
        ({
            let after = queue.appended_all(tracks);
            let count = queue.entries.len() as int;
            &&& after.wf()
            &&& after.next_number == queue.next_number + tracks.len()
            &&& after.entries.len() == count + tracks.len()
            &&& after.order.len() == count + tracks.len()
            &&& after.entries.take(count) == queue.entries
            &&& after.order.take(count) == queue.order
            &&& forall|i: int|
                0 <= i < tracks.len() ==> (#[trigger] after.entries[count + i]).track_id
                    == tracks[i].id && after.order[count + i] == after.entries[count + i].id
            &&& queue.current is Some ==> after.current == queue.current
            &&& queue.current is None && tracks.len() > 0 ==> after.current == Some(
                after.entries[0].id,
            )
            &&& after.progress_seconds == queue.progress_seconds
            &&& after.repeat_mode == queue.repeat_mode
            &&& after.shuffle == queue.shuffle
            &&& after.server_id == queue.server_id
        }),
    decreases tracks.len(),
{
    let after = queue.appended_all(tracks);
    let count = queue.entries.len() as int;
    if tracks.len() == 0 {
        assert(after.entries.take(count) =~= queue.entries);
        assert(after.order.take(count) =~= queue.order);
    } else {
        let front = tracks.drop_last();
        let before = queue.appended_all(front);
        tracks_are_added_in_their_order(queue, front);
        what_is_added_last_is_played_last(before, tracks.last());
        lemma_appended_wf(before, tracks.last());
        assert(after.entries.take(count) =~= before.entries.take(count));
        assert(after.order.take(count) =~= before.order.take(count));
        assert forall|i: int| 0 <= i < tracks.len() implies (
        #[trigger] after.entries[count + i]).track_id == tracks[i].id && after.order[count + i]
            == after.entries[count + i].id by {
            if i < front.len() {
                assert(before.entries[count + i].track_id == front[i].id);
                assert(after.entries.drop_last()[count + i] == before.entries[count + i]);
                assert(after.order.drop_last()[count + i] == before.order[count + i]);
            }
        }
        if queue.current is None {
            if front.len() > 0 {
                assert(after.entries.drop_last()[0] == before.entries[0]);
            }
        }
    }
}

proof fn lemma_appended_wf(queue: QueueView, track: TrackView)
    requires
        queue.wf(),
        queue.has_numbers(),
    ensures
        queue.appended(track).wf(),
{
    let after = queue.appended(track);
    let number = queue.next_number as nat;
    let new_id = entry_id(number);
    let list = ids(queue.entries);
    let at = queue.entries.len() as int;
    assert(!list.contains(new_id));
    assert(ids(after.entries) =~= list.insert(at, new_id));
    lemma_inserted(list, at, new_id);
    lemma_inserted(queue.order, at, new_id);
    assert(!queue.order.contains(new_id));
    assert forall|later: nat| later >= after.next_number implies !ids(after.entries).contains(
        #[trigger] entry_id(later),
    ) by {
        lemma_entry_ids_differ(later, number);
    }
    assert(ids(after.entries).contains(new_id));
    if queue.entries.len() == 0 {
        assert(after.current == Some(new_id));
    }
}

/// A track that is played now is the new current entry, from its beginning; it stands next
/// after the one that was current.
pub proof fn what_is_played_now_is_current(queue: QueueView, track: TrackView)
    requires
        queue.wf(),
        queue.has_numbers(),
    ensures
        ({
            let after = queue.playing_now(track);
            &&& after.current_entry() matches Some(entry) && entry.track_id == track.id
                && after.current == Some(entry.id) && !ids(queue.entries).contains(entry.id)
            &&& after.progress_seconds == 0
            &&& after.entries == queue.with_next(track).entries
            &&& after.order == queue.with_next(track).order
            &&& queue.current is Some ==> after.preceding() == queue.current
        }),
{
    let after = queue.playing_now(track);
    let new_id = entry_id(queue.next_number as nat);
    let list = ids(queue.entries);
    assert(!list.contains(new_id));
    assert(!queue.order.contains(new_id));
    if queue.current is Some {
        what_is_added_next_is_played_next(queue, track);
        let at = queue.current_index() + 1;
        let turn = queue.current_turn() + 1;
        assert(ids(after.entries) =~= list.insert(at, new_id));
        lemma_inserted(list, at, new_id);
        lemma_inserted(queue.order, turn, new_id);
        lemma_place_of(ids(after.entries), at);
        lemma_place_of(after.order, turn);
    } else {
        assert(queue.entries.len() == 0);
        assert(ids(after.entries) =~= seq![new_id]);
        lemma_place_of(ids(after.entries), 0);
    }
}

/// An entry that is removed is gone from the queue and from the play order, and nothing else
/// is. Where it was current, what followed it in the play order is, from its beginning, or
/// what is last where nothing did; else what is current stays.
pub proof fn removed_entries_are_gone(queue: QueueView, at: int)
    requires
        queue.wf(),
        0 <= at < queue.entries.len(),
    ensures
        ({
            let id = queue.entries[at].id;
            let after = queue.without(id);
            let turn = place(queue.order, id);
            &&& 0 <= turn < queue.order.len() && queue.order[turn] == id
            &&& after.entries == queue.entries.remove(at)
            &&& after.order == queue.order.remove(turn)
            &&& !after.order.contains(id)
            &&& queue.current != Some(id) ==> after.current == queue.current
                && after.progress_seconds == queue.progress_seconds
            &&& queue.current == Some(id) ==> after.progress_seconds == 0
            &&& queue.current == Some(id) && turn + 1 < queue.order.len() ==> after.current
                == Some(queue.order[turn + 1])
            &&& queue.current == Some(id) && turn + 1 == queue.order.len() && turn > 0
                ==> after.current == Some(queue.order[turn - 1])
            &&& queue.entries.len() == 1 ==> after.current is None
        }),
{
    let id = queue.entries[at].id;
    let list = ids(queue.entries);
    assert(list[at] == id);
    assert(list.contains(id));
    lemma_place_of(list, at);
    assert(queue.order.contains(id));
    lemma_place(queue.order, id);
    lemma_removed(queue.order, place(queue.order, id));
    if queue.entries.len() == 1 && queue.current is Some {
        let current = queue.current->0;
        lemma_place(list, current);
        assert(place(list, current) == 0);
        assert(current == list[0]);
    }
}

/// To remove what is not there changes nothing.
pub proof fn unknown_entries_are_not_removed(queue: QueueView, id: Seq<char>)
    requires
        forall|i: int| 0 <= i < queue.entries.len() ==> (#[trigger] queue.entries[i]).id != id,
    ensures
        queue.without(id) == queue,
        queue.with_moved(id) == queue,
{
    assert(!ids(queue.entries).contains(id));
}

/// An entry that is moved follows the current one in the play order and in the queue; what is
/// current stays, and the other entries keep their order.
pub proof fn moved_entries_are_played_next(queue: QueueView, at: int)
    requires
        queue.wf(),
        0 <= at < queue.entries.len(),
        queue.current != Some(queue.entries[at].id),
    ensures
        ({
            let entry = queue.entries[at];
            let after = queue.with_moved(entry.id);
            let turn = after.current_turn();
            let place_now = after.current_index();
            &&& after.current == queue.current
            &&& after.progress_seconds == queue.progress_seconds
            &&& after.following() == Some(entry.id)
            &&& after.order.len() == queue.order.len()
            &&& after.entries.len() == queue.entries.len()
            &&& 0 <= turn && turn + 1 < after.order.len()
            &&& after.order[turn] == queue.current->0
            &&& after.order[turn + 1] == entry.id
            &&& after.order.remove(turn + 1) == queue.order.remove(place(queue.order, entry.id))
            &&& 0 <= place_now && place_now + 1 < after.entries.len()
            &&& after.entries[place_now].id == queue.current->0
            &&& after.entries[place_now + 1] == entry
            &&& after.entries.remove(place_now + 1) == queue.entries.remove(at)
        }),
{
    let entry = queue.entries[at];
    let id = entry.id;
    let current = queue.current->0;
    let after = queue.with_moved(id);
    let rest = queue.without(id);
    let list = ids(queue.entries);
    removed_entries_are_gone(queue, at);
    assert(list[at] == id);
    assert(list.contains(id));
    lemma_place_of(list, at);
    lemma_removed(list, at);
    assert(ids(rest.entries) =~= list.remove(at));
    lemma_place(ids(rest.entries), current);
    let home = place(ids(rest.entries), current);
    lemma_removed(queue.order, place(queue.order, id));
    assert(queue.order.contains(current));
    lemma_place(rest.order, current);
    let turn = place(rest.order, current);
    lemma_inserted(rest.order, turn + 1, id);
    assert(after.order == rest.order.insert(turn + 1, id));
    assert(after.order[turn] == current);
    lemma_place_of(after.order, turn);
    assert(ids(after.entries) =~= ids(rest.entries).insert(home + 1, id));
    lemma_inserted(ids(rest.entries), home + 1, id);
    assert(ids(after.entries)[home] == current);
    lemma_place_of(ids(after.entries), home);
    assert(after.entries[home].id == ids(after.entries)[home]);
    assert(after.order.remove(turn + 1) =~= rest.order);
    assert(after.entries.remove(home + 1) =~= rest.entries);
}

/// Shuffling changes the play order alone: every entry keeps its turn once, the current one
/// comes first, and what is not shuffled is played as the queue stands.
pub proof fn shuffling_changes_the_order_alone(queue: QueueView, shuffle: ShuffleStateView)
    requires
        queue.wf(),
    ensures
        ({
            let after = queue.with_shuffle(shuffle);
            &&& after.entries == queue.entries
            &&& after.current == queue.current
            &&& after.progress_seconds == queue.progress_seconds
            &&& after.repeat_mode == queue.repeat_mode
            &&& after.shuffle == shuffle
            &&& after.order.len() == queue.order.len()
            &&& after.order.no_duplicates()
            &&& forall|i: int|
                0 <= i < queue.entries.len() ==> after.order.contains(
                    (#[trigger] queue.entries[i]).id,
                )
            &&& shuffle.enabled && queue.current is Some ==> after.order[0] == queue.current->0
            &&& !shuffle.enabled ==> forall|i: int|
                0 <= i < queue.entries.len() ==> after.order[i] == (#[trigger] queue.entries[i]).id
        }),
{
    lemma_play_order(ids(queue.entries), queue.current, shuffle);
    assert forall|i: int| 0 <= i < queue.entries.len() implies queue.with_shuffle(
        shuffle,
    ).order.contains((#[trigger] queue.entries[i]).id) by {
        assert(ids(queue.entries)[i] == queue.entries[i].id);
        assert(ids(queue.entries).contains(queue.entries[i].id));
    }
}

/// Going on leads to the entry of the next turn and going back to that of the turn before; at
/// the end of the play order going on leads to the first entry where all is repeated, and
/// nowhere where it is not. An entry that ended is played again where one is repeated, else it
/// is gone on from.
pub proof fn steps_follow_the_play_order(queue: QueueView, turn: int)
    requires
        queue.wf(),
        0 <= turn < queue.order.len(),
        queue.current == Some(queue.order[turn]),
    ensures
        turn + 1 < queue.order.len() ==> queue.following() == Some(queue.order[turn + 1]),
        turn + 1 == queue.order.len() && queue.repeat_mode == RepeatMode::All
            ==> queue.following() == Some(queue.order[0]),
        turn + 1 == queue.order.len() && queue.repeat_mode != RepeatMode::All
            ==> queue.following() is None,
        turn > 0 ==> queue.preceding() == Some(queue.order[turn - 1]),
        turn == 0 ==> queue.preceding() is None,
        queue.repeat_mode == RepeatMode::One ==> queue.after_end() == queue.current,
        queue.repeat_mode != RepeatMode::One ==> queue.after_end() == queue.following(),
        queue.remaining() == queue.order.len() - 1 - turn,
        queue.current_entry() matches Some(entry) && entry.id == queue.order[turn]
            && queue.entries.contains(entry),
        queue.at(queue.order[turn]).current == Some(queue.order[turn]),
        queue.at(queue.order[turn]).progress_seconds == 0,
{
    lemma_place_of(queue.order, turn);
    let id = queue.order[turn];
    let list = ids(queue.entries);
    assert(queue.order.contains(id));
    lemma_place(list, id);
    let at = place(list, id);
    assert(list[at] == queue.entries[at].id);
}

/// A queue that is filled anew holds the given tracks in their order, and its current entry is
/// that of the occurrence to start with, from its beginning.
pub proof fn filled_queues_hold_the_items(queue: QueueView, replacement: QueueReplacementView)
    requires
        queue.next_number + replacement.items.len() <= u64::MAX,
    ensures
        queue.filled(replacement) is Some <==> exists|i: int|
            0 <= i < replacement.items.len() && (#[trigger] replacement.items[i]).track.id
                == replacement.anchor.track_id && replacement.items[i].source_index
                == replacement.anchor.source_index && replacement.items[i].source_item_id
                == replacement.anchor.source_item_id,
        queue.filled(replacement) matches Some(after) ==> {
            &&& after.entries.len() == replacement.items.len()
            &&& forall|i: int|
                0 <= i < replacement.items.len() ==> (#[trigger] after.entries[i]).track_id
                    == replacement.items[i].track.id && (after.entries[i].origin matches Some(
                    origin,
                ) && origin.source_index == replacement.items[i].source_index
                    && origin.source_item_id == replacement.items[i].source_item_id
                    && origin.source_key == replacement.source.source_key)
            &&& after.current_entry() matches Some(entry) && entry.track_id
                == replacement.anchor.track_id && (entry.origin matches Some(origin)
                && origin.source_index == replacement.anchor.source_index
                && origin.source_item_id == replacement.anchor.source_item_id)
            &&& after.progress_seconds == 0
            &&& after.repeat_mode == queue.repeat_mode
            &&& after.shuffle == queue.shuffle
            &&& after.server_id == queue.server_id
            &&& !after.shuffle.enabled ==> after.order == ids(after.entries)
            &&& after.shuffle.enabled ==> after.order[0] == after.current->0
            &&& after.order.len() == after.entries.len()
        },
{
    let items = replacement.items;
    let anchor = replacement.anchor;
    let test = |item: QueueItemInputView| is_anchor(item, anchor);
    let at = anchor_place(items, anchor);
    crate::value::lemma_first_where_bounds(items, test);
    assert(at < items.len() ==> is_anchor(items[at], anchor));
    if exists|i: int|
        0 <= i < items.len() && (#[trigger] items[i]).track.id == anchor.track_id
            && items[i].source_index == anchor.source_index && items[i].source_item_id
            == anchor.source_item_id {
        let i = choose|i: int|
            0 <= i < items.len() && (#[trigger] items[i]).track.id == anchor.track_id
                && items[i].source_index == anchor.source_index && items[i].source_item_id
                == anchor.source_item_id;
        assert(test(items[i]));
        assert(at <= i);
    }
    if let Some(after) = queue.filled(replacement) {
        lemma_numbered_ids(after.entries, queue.next_number as nat);
        assert(after.entries[at].id == ids(after.entries)[at]);
        lemma_place_of(ids(after.entries), at);
        assert(ids(after.entries).contains(ids(after.entries)[at]));
        lemma_play_order(ids(after.entries), after.current, after.shuffle);
    }
}

/// Marking a track as a favorite marks every entry of it in the queue and changes nothing
/// else.
pub proof fn favorites_are_marked_in_the_queue(
    queue: QueueView,
    track_id: Seq<char>,
    favorite: bool,
)
    ensures
        ({
            let after = queue.with_favorite(track_id, favorite);
            &&& after.entries.len() == queue.entries.len()
            &&& forall|i: int|
                0 <= i < queue.entries.len() ==> (#[trigger] after.entries[i]) == (QueueEntryView {
                    favorite: if queue.entries[i].track_id == track_id {
                        favorite
                    } else {
                        queue.entries[i].favorite
                    },
                    ..queue.entries[i]
                })
            &&& after.order == queue.order
            &&& after.current == queue.current
            &&& after.progress_seconds == queue.progress_seconds
        }),
{
}

/// An entry says of its track what the track says of itself.
pub proof fn entries_describe_their_track(
    track: TrackView,
    id: Seq<char>,
    origin: Option<QueueEntryOriginView>,
)
    ensures
        ({
            let entry = entry_of(track, id, origin);
            &&& entry.id == id
            &&& entry.track_id == track.id
            &&& entry.album_id == Some(track.album_id)
            &&& entry.title == track.title
            &&& entry.artist == track.artist
            &&& entry.artist_id == track.artist_id
            &&& entry.album == track.album
            &&& entry.year == track.year
            &&& entry.duration_seconds == track.duration_seconds
            &&& entry.favorite == track.favorite
            &&& entry.image_ref == track.image_ref
            &&& entry.local_path == track.local_path
            &&& entry.source_format == track.source_format
            &&& entry.origin == origin
        }),
{
}

/// Adding tracks at the end keeps everything that is there, in its place and in its turn, and
/// what is current, however many can be added.
pub proof fn adding_last_keeps_what_is_there(queue: QueueView, tracks: Seq<TrackView>)
    requires
        queue.wf(),
    ensures
        ({
            let after = queue.appended_all(tracks);
            &&& after.entries.len() >= queue.entries.len()
            &&& after.order.len() >= queue.order.len()
            &&& after.entries.take(queue.entries.len() as int) == queue.entries
            &&& after.order.take(queue.order.len() as int) == queue.order
            &&& queue.current is Some ==> after.current == queue.current && after.current_entry()
                == queue.current_entry() && after.current_turn() == queue.current_turn()
            &&& after.progress_seconds == queue.progress_seconds
            &&& after.repeat_mode == queue.repeat_mode
            &&& after.shuffle == queue.shuffle
            &&& after.server_id == queue.server_id
        }),
    decreases tracks.len(),
{
    let after = queue.appended_all(tracks);
    let count = queue.entries.len() as int;
    let turns = queue.order.len() as int;
    if tracks.len() > 0 {
        adding_last_keeps_what_is_there(queue, tracks.drop_last());
        let before = queue.appended_all(tracks.drop_last());
        assert(after.entries.take(count) =~= before.entries.take(count));
        assert(after.order.take(turns) =~= before.order.take(turns));
        if queue.current is Some {
            let id = queue.current->0;
            lemma_place(ids(queue.entries), id);
            let at = place(ids(queue.entries), id);
            assert forall|i: int| 0 <= i < count implies #[trigger] ids(after.entries)[i] == ids(
                queue.entries,
            )[i] by {
                assert(after.entries.take(count)[i] == after.entries[i]);
            }
            assert(ids(after.entries).take(count) =~= ids(queue.entries));
            lemma_place_in_longer(ids(after.entries), count, id);
            assert(after.entries[at] == after.entries.take(count)[at]);
            assert(queue.order.contains(id));
            lemma_place_in_longer(after.order, turns, id);
        }
    } else {
        assert(after.entries.take(count) =~= queue.entries);
        assert(after.order.take(turns) =~= queue.order);
    }
}

proof fn lemma_place_in_longer(list: Seq<Seq<char>>, count: int, id: Seq<char>)
    requires
        0 <= count <= list.len(),
        list.take(count).contains(id),
    ensures
        place(list, id) == place(list.take(count), id),
{
    let front = list.take(count);
    lemma_place(front, id);
    lemma_place(list, id);
    let at = place(front, id);
    assert(front[at] == list[at]);
    if place(list, id) < at {
        assert(front[place(list, id)] == list[place(list, id)]);
    } else if place(list, id) > at {
        assert(list[at] != id);
    }
}

proof fn lemma_next_wf(queue: QueueView, track: TrackView)
    requires
        queue.wf(),
        queue.has_numbers(),
        queue.current is Some,
    ensures
        queue.with_next(track).wf(),
{
    what_is_added_next_is_played_next(queue, track);
    let after = queue.with_next(track);
    let number = queue.next_number as nat;
    let new_id = entry_id(number);
    let list = ids(queue.entries);
    let at = queue.current_index() + 1;
    let turn = queue.current_turn() + 1;
    assert(!list.contains(new_id));
    assert(ids(after.entries) =~= list.insert(at, new_id));
    lemma_inserted(list, at, new_id);
    lemma_inserted(queue.order, turn, new_id);
    assert forall|later: nat| later >= after.next_number implies !ids(after.entries).contains(
        #[trigger] entry_id(later),
    ) by {
        lemma_entry_ids_differ(later, number);
    }
}

/// Tracks that are added next follow the current entry, in their own order; what is current
/// stays, and what followed it comes after them.
pub proof fn tracks_are_added_next_in_their_order(queue: QueueView, tracks: Seq<TrackView>)
    requires
        queue.wf(),
        queue.current is Some,
        queue.next_number + tracks.len() <= u64::MAX,
    ensures
        ({
            let after = queue.with_next_all(tracks);
            let count = tracks.len() as int;
            let at = queue.current_index();
            let turn = queue.current_turn();
            &&& after.wf()
            &&& after.current == queue.current
            &&& 0 <= at < queue.entries.len()
            &&& 0 <= turn < queue.order.len()
            &&& after.entries.len() == queue.entries.len() + count
            &&& after.order.len() == queue.order.len() + count
            &&& after.entries.take(at + 1) == queue.entries.take(at + 1)
            &&& after.order.take(turn + 1) == queue.order.take(turn + 1)
            &&& forall|i: int|
                0 <= i < count ==> (#[trigger] after.entries[at + 1 + i]).track_id == tracks[i].id
                    && after.order[turn + 1 + i] == after.entries[at + 1 + i].id
            &&& after.entries.skip(at + 1 + count) == queue.entries.skip(at + 1)
            &&& after.order.skip(turn + 1 + count) == queue.order.skip(turn + 1)
            &&& after.progress_seconds == queue.progress_seconds
        }),
    decreases tracks.len(),
{
    let after = queue.with_next_all(tracks);
    let count = tracks.len() as int;
    let at = queue.current_index();
    let turn = queue.current_turn();
    let id = queue.current->0;
    lemma_place(ids(queue.entries), id);
    assert(queue.order.contains(id));
    lemma_place(queue.order, id);
    if tracks.len() > 0 {
        let middle = queue.with_next(tracks.last());
        what_is_added_next_is_played_next(queue, tracks.last());
        lemma_next_wf(queue, tracks.last());
        let new_id = entry_id(queue.next_number as nat);
        assert(!ids(queue.entries).contains(new_id));
        assert(ids(middle.entries) =~= ids(queue.entries).insert(at + 1, new_id));
        lemma_inserted(ids(queue.entries), at + 1, new_id);
        assert(ids(middle.entries)[at] == id);
        lemma_place_of(ids(middle.entries), at);
        lemma_place_of(middle.order, turn);
        tracks_are_added_next_in_their_order(middle, tracks.drop_last());
        assert(middle.entries.take(at + 1) =~= queue.entries.take(at + 1));
        assert(middle.order.take(turn + 1) =~= queue.order.take(turn + 1));
        let rest = after.entries.skip(at + count);
        let turns = after.order.skip(turn + count);
        assert(rest == middle.entries.skip(at + 1));
        assert(turns == middle.order.skip(turn + 1));
        assert forall|i: int| 0 <= i < count implies (
        #[trigger] after.entries[at + 1 + i]).track_id == tracks[i].id && after.order[turn + 1 + i]
            == after.entries[at + 1 + i].id by {
            if i == count - 1 {
                assert(rest[0] == after.entries[at + count]);
                assert(turns[0] == after.order[turn + count]);
                assert(middle.entries.skip(at + 1)[0] == middle.entries[at + 1]);
                assert(middle.order.skip(turn + 1)[0] == middle.order[turn + 1]);
            } else {
                assert(after.entries[at + 1 + i].track_id == tracks.drop_last()[i].id);
            }
        }
        let kept = queue.entries.skip(at + 1);
        let kept_turns = queue.order.skip(turn + 1);
        let end = after.entries.skip(at + 1 + count);
        let end_turns = after.order.skip(turn + 1 + count);
        assert forall|i: int| 0 <= i < kept.len() implies #[trigger] end[i] == kept[i] by {
            assert(rest[i + 1] == middle.entries.skip(at + 1)[i + 1]);
        }
        assert(end =~= kept);
        assert forall|i: int| 0 <= i < kept_turns.len() implies #[trigger] end_turns[i]
            == kept_turns[i] by {
            assert(turns[i + 1] == middle.order.skip(turn + 1)[i + 1]);
        }
        assert(end_turns =~= kept_turns);
    }
}

/// A queue that is replaced by tracks holds exactly these, in their order, and is at the first
/// of them, from its beginning.
pub proof fn replaced_queues_hold_the_tracks(queue: QueueView, tracks: Seq<TrackView>)
    requires
        queue.wf(),
        tracks.len() > 0,
        queue.next_number + tracks.len() <= u64::MAX,
    ensures
        ({
            let after = queue.with_only(tracks);
            &&& after.wf()
            &&& after.entries.len() == tracks.len()
            &&& after.order.len() == tracks.len()
            &&& forall|i: int|
                0 <= i < tracks.len() ==> (#[trigger] after.entries[i]).track_id == tracks[i].id
                    && after.order[i] == after.entries[i].id
            &&& after.current == Some(after.entries[0].id)
            &&& after.current_entry() == Some(after.entries[0])
            &&& after.progress_seconds == 0
            &&& after.repeat_mode == queue.repeat_mode
            &&& after.shuffle == queue.shuffle
            &&& after.server_id == queue.server_id
        }),
{
    let cleared = queue.cleared();
    let first = cleared.playing_now(tracks[0]);
    let rest = tracks.drop_first();
    let new_id = entry_id(queue.next_number as nat);
    assert(ids(cleared.entries) =~= Seq::<Seq<char>>::empty());
    assert(ids(first.entries) =~= seq![new_id]);
    assert(first.order =~= seq![new_id]);
    assert(first.wf()) by {
        assert(ids(first.entries)[0] == new_id);
        assert(ids(first.entries).contains(new_id));
        assert forall|later: nat| later >= first.next_number implies !ids(first.entries).contains(
            #[trigger] entry_id(later),
        ) by {
            lemma_entry_ids_differ(later, queue.next_number as nat);
        }
    }
    tracks_are_added_in_their_order(first, rest);
    let after = queue.with_only(tracks);
    assert(after.entries.take(1)[0] == after.entries[0]);
    assert(after.order.take(1)[0] == after.order[0]);
    assert forall|i: int| 0 <= i < tracks.len() implies (#[trigger] after.entries[i]).track_id
        == tracks[i].id && after.order[i] == after.entries[i].id by {
        if i > 0 {
            assert(after.entries[1 + (i - 1)].track_id == rest[i - 1].id);
        }
    }
    assert(ids(after.entries)[0] == after.entries[0].id);
    lemma_place_of(ids(after.entries), 0);
}

/// What a queue in order is known by: identifiers and turns that occur once, for the same
/// entries, with a current one among them exactly where there is any.
pub proof fn queues_in_order(queue: QueueView)
    requires
        queue.wf(),
    ensures
        ids(queue.entries).no_duplicates(),
        queue.order.no_duplicates(),
        queue.order.len() == queue.entries.len(),
        queue.current is Some <==> queue.entries.len() > 0,
        queue.current matches Some(id) ==> ids(queue.entries).contains(id) && queue.order.contains(
            id,
        ),
        forall|id: Seq<char>| #[trigger]
            queue.order.contains(id) <==> ids(queue.entries).contains(id),
        queue.current is Some <==> queue.current_entry() is Some,
        queue.current_entry() matches Some(entry) ==> queue.current == Some(entry.id),
        queue.current matches Some(id) ==> 0 <= queue.current_turn() < queue.order.len()
            && queue.order[queue.current_turn()] == id,
{
    if queue.current is Some {
        let id = queue.current->0;
        lemma_place(ids(queue.entries), id);
        lemma_place(queue.order, id);
        assert(ids(queue.entries)[place(ids(queue.entries), id)] == queue.entries[place(
            ids(queue.entries),
            id,
        )].id);
    }
}

/// A queue without one of its entries is in order.
pub proof fn removing_keeps_order(queue: QueueView, at: int)
    requires
        queue.wf(),
        0 <= at < queue.entries.len(),
    ensures
        queue.without(queue.entries[at].id).wf(),
{
    let id = queue.entries[at].id;
    let after = queue.without(id);
    let list = ids(queue.entries);
    removed_entries_are_gone(queue, at);
    assert(list[at] == id);
    lemma_removed(list, at);
    lemma_place(queue.order, id);
    lemma_removed(queue.order, place(queue.order, id));
    assert(ids(after.entries) =~= list.remove(at));
    if after.entries.len() > 0 {
        assert(after.order.len() > 0);
        if queue.current == Some(id) {
            let turn = place(queue.order, id);
            if turn < after.order.len() {
                assert(after.order.contains(after.order[turn]));
            } else {
                assert(after.order.contains(after.order.last()));
            }
        }
    } else {
        assert(list.len() == 1);
        let current = queue.current->0;
        lemma_place(list, current);
        assert(list[0] == current);
    }
    if !queue.shuffle.enabled {
        lemma_place_of(list, at);
        assert(after.order =~= ids(after.entries));
    }
}

/// A queue at another of its entries is in order.
pub proof fn choosing_keeps_order(queue: QueueView, at: int)
    requires
        queue.wf(),
        0 <= at < queue.entries.len(),
    ensures
        queue.at(queue.entries[at].id).wf(),
        queue.at(queue.entries[at].id).current_entry() == Some(queue.entries[at]),
{
    let list = ids(queue.entries);
    assert(list[at] == queue.entries[at].id);
    assert(list.contains(list[at]));
    lemma_place_of(list, at);
}

/// A queue at another of its turns is in order.
pub proof fn turning_keeps_order(queue: QueueView, turn: int)
    requires
        queue.wf(),
        0 <= turn < queue.order.len(),
    ensures
        queue.at(queue.order[turn]).wf(),
{
    assert(queue.order.contains(queue.order[turn]));
}

/// A queue that is filled anew is in order.
pub proof fn filled_queues_are_in_order(queue: QueueView, replacement: QueueReplacementView)
    requires
        queue.filled(replacement) is Some,
    ensures
        queue.filled(replacement)->0.wf(),
{
    let after = queue.filled(replacement)->0;
    let at = anchor_place(replacement.items, replacement.anchor);
    let test = |item: QueueItemInputView| is_anchor(item, replacement.anchor);
    crate::value::lemma_first_where_bounds(replacement.items, test);
    lemma_numbered_ids(after.entries, queue.next_number as nat);
    assert(ids(after.entries)[at] == after.entries[at].id);
    assert(ids(after.entries).contains(after.entries[at].id));
    lemma_play_order(ids(after.entries), after.current, after.shuffle);
    assert forall|number: nat| number >= after.next_number implies !ids(after.entries).contains(
        #[trigger] entry_id(number),
    ) by {
        assert(number >= queue.next_number + after.entries.len());
    }
}

/// A saved queue without a known place begins at its first entry, and one without entries is
/// empty; its entries are numbered anew, in their order.
pub proof fn queues_without_a_place_begin_at_the_first_entry(snapshot: QueueSnapshotView)
    requires
        snapshot.entries.len() <= usize::MAX,
        snapshot.current_index is None || snapshot.current_index->0 >= snapshot.entries.len(),
    ensures
        ({
            let back = restored(snapshot);
            &&& back.entries.len() == snapshot.entries.len()
            &&& forall|i: int|
                0 <= i < snapshot.entries.len() ==> (#[trigger] back.entries[i]).track_id
                    == snapshot.entries[i].track_id
            &&& snapshot.entries.len() > 0 ==> back.current == Some(back.entries[0].id)
            &&& snapshot.entries.len() == 0 ==> back.current is None
            &&& back.server_id == snapshot.server_id
            &&& back.repeat_mode == snapshot.repeat_mode
            &&& back.progress_seconds == snapshot.progress_seconds
        }),
{
}

} // verus!
