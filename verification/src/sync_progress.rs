//! Reading a library page by page, and what is told about it meanwhile.
use crate::text::{self, blank, decimal};
use crate::value::Value;
use vstd::prelude::*;

verus! {

/// How many items are asked for at a time.
pub const PAGE_SIZE: usize = 500;

/// How many milliseconds lie at least between two progress messages that nothing forces.
pub const SYNC_PROGRESS_MIN_INTERVAL: u64 = 2000;

/// The collections of a library that are read.
#[derive(Clone, Copy, Debug, PartialEq, Eq, Structural)]
pub enum SyncCollection {
    Albums,
    Tracks,
    MusicFolders,
    Artists,
    AlbumArtists,
    Genres,
    Playlists,
    HomeSections,
}

/// What a collection is called in messages.
pub open spec fn collection_label(collection: SyncCollection) -> Seq<char> {
    match collection {
        SyncCollection::Albums => "albums"@,
        SyncCollection::Tracks => "tracks"@,
        SyncCollection::MusicFolders => "music folders"@,
        SyncCollection::Artists => "artists"@,
        SyncCollection::AlbumArtists => "album artists"@,
        SyncCollection::Genres => "genres"@,
        SyncCollection::Playlists => "playlists"@,
        SyncCollection::HomeSections => "home sections"@,
    }
}

impl SyncCollection {
    pub fn label(self) -> (result: &'static str)
        ensures
            result@ == collection_label(self),
    {
        match self {
            SyncCollection::Albums => "albums",
            SyncCollection::Tracks => "tracks",
            SyncCollection::MusicFolders => "music folders",
            SyncCollection::Artists => "artists",
            SyncCollection::AlbumArtists => "album artists",
            SyncCollection::Genres => "genres",
            SyncCollection::Playlists => "playlists",
            SyncCollection::HomeSections => "home sections",
        }
    }
}

/// Whether a page was the last: the known total is reached or, where no total is known, the
/// page was not full. A page without items is always the last.
pub open spec fn is_last_page(item_count: usize, total: usize, offset: usize) -> bool {
    if total > 0 {
        item_count == 0 || offset >= total
    } else {
        item_count < PAGE_SIZE
    }
}

/// Whether a page was the last; `offset` counts the items up to the end of the page.
pub fn sync_page_finished(item_count: usize, total: usize, offset: usize) -> (result: bool)
    ensures
        result == is_last_page(item_count, total, offset),
{
    if total > 0 {
        item_count == 0 || offset >= total
    } else {
        item_count < PAGE_SIZE
    }
}

/// After a page that was not the last, more has been read than before: reading page by page
/// comes to an end.
pub proof fn paging_makes_progress(item_count: usize, total: usize, offset: usize)
    requires
        !is_last_page(item_count, total, offset),
    ensures
        item_count > 0,
{
}

/// The total of a collection, where the server told one.
pub fn known_sync_total(total: usize) -> (result: Option<usize>)
    ensures
        result == (if total > 0 {
            Some(total)
        } else {
            None
        }),
{
    if total > 0 {
        Some(total)
    } else {
        None
    }
}

/// Where the reading of a collection stands.
#[derive(Clone, Copy, Debug, PartialEq, Eq, Structural)]
pub struct SyncPages {
    pub offset: usize,
    pub page_number: usize,
    pub finished: bool,
}

impl SyncPages {
    /// Nothing has been read; the first page is to be asked for.
    pub fn begin() -> (result: SyncPages)
        ensures
            result == (SyncPages { offset: 0, page_number: 1, finished: false }),
    {
        SyncPages { offset: 0, page_number: 1, finished: false }
    }

    /// The position and the length of the page to ask for.
    pub fn request(&self) -> (result: (usize, usize))
        ensures
            result == (self.offset, PAGE_SIZE),
    {
        (self.offset, PAGE_SIZE)
    }

    /// Notes a page that came: how many items it had, and the total that was told.
    pub fn page_received(&mut self, item_count: usize, total: usize)
        requires
            old(self).offset + item_count <= usize::MAX,
            old(self).page_number < usize::MAX,
        ensures
            final(self).offset == old(self).offset + item_count,
            final(self).finished == is_last_page(item_count, total, final(self).offset),
            final(self).page_number == (if final(self).finished {
                old(self).page_number as int
            } else {
                old(self).page_number + 1
            }),
    {
        self.offset = self.offset + item_count;
        self.finished = sync_page_finished(item_count, total, self.offset);
        if !self.finished {
            self.page_number = self.page_number + 1;
        }
    }
}

/// A number with three digits.
pub open spec fn three_digits(number: nat) -> Seq<char> {
    seq![
        text::digit_char(number / 100 % 10),
        text::digit_char(number / 10 % 10),
        text::digit_char(number % 10),
    ]
}

/// A number in decimal notation, with a comma before each group of three digits.
pub open spec fn grouped(number: nat) -> Seq<char>
    decreases number,
{
    if number < 1000 {
        decimal(number)
    } else {
        grouped(number / 1000) + seq![','] + three_digits(number % 1000)
    }
}

fn push_digit(label: &mut String, digit: u64)
    requires
        digit < 10,
    ensures
        final(label)@ == old(label)@.push(text::digit_char(digit as nat)),
{
    label.push((48u8 + digit as u8) as char);
}

fn grouped_text(number: u64) -> (result: String)
    ensures
        result@ == grouped(number as nat),
    decreases number,
{
    if number < 1000 {
        return text::decimal_text(number);
    }
    let rest: u64 = number % 1000;
    let mut label: String = grouped_text(number / 1000);
    let ghost front = label@;
    label.push(',');
    push_digit(&mut label, rest / 100 % 10);
    push_digit(&mut label, rest / 10 % 10);
    push_digit(&mut label, rest % 10);
    assert(label@ =~= front + seq![','] + three_digits(rest as nat));
    label
}

/// A count with a comma before each group of three digits.
pub fn formatted_count(count: usize) -> (result: String)
    ensures
        result@ == grouped(count as nat),
{
    grouped_text(count as u64)
}

/// A text without its commas.
pub open spec fn without_commas(value: Seq<char>) -> Seq<char>
    decreases value.len(),
{
    if value.len() == 0 {
        Seq::empty()
    } else if value.last() == ',' {
        without_commas(value.drop_last())
    } else {
        without_commas(value.drop_last()).push(value.last())
    }
}

proof fn lemma_decimal_has_no_comma(number: nat)
    ensures
        without_commas(decimal(number)) == decimal(number),
    decreases number,
{
    if number < 10 {
        assert(decimal(number).drop_last() =~= Seq::<char>::empty());
        assert(without_commas(Seq::<char>::empty()) =~= Seq::<char>::empty());
        assert(decimal(number) =~= Seq::<char>::empty().push(text::digit_char(number)));
        assert(text::digit_char(number) != ',');
    } else {
        lemma_decimal_has_no_comma(number / 10);
        assert(decimal(number).drop_last() =~= decimal(number / 10));
        assert(text::digit_char(number % 10) != ',');
    }
}

/// The commas are all that a formatted count adds to the number.
pub proof fn formatted_count_keeps_the_digits(number: nat)
    ensures
        without_commas(grouped(number)) == decimal(number),
    decreases number,
{
    if number < 1000 {
        lemma_decimal_has_no_comma(number);
    } else {
        let front = grouped(number / 1000);
        let rest = (number % 1000) as nat;
        let d2 = text::digit_char(rest / 100 % 10);
        let d1 = text::digit_char(rest / 10 % 10);
        let d0 = text::digit_char(rest % 10);
        formatted_count_keeps_the_digits(number / 1000);
        let s1 = front.push(',');
        let s2 = s1.push(d2);
        let s3 = s2.push(d1);
        let s4 = s3.push(d0);
        assert(grouped(number) =~= s4);
        assert(s4.drop_last() =~= s3);
        assert(s3.drop_last() =~= s2);
        assert(s2.drop_last() =~= s1);
        assert(s1.drop_last() =~= front);
        assert(d0 != ',' && d1 != ',' && d2 != ',');
        assert(without_commas(s1) == decimal(number / 1000));
        assert(without_commas(s2) == decimal(number / 1000).push(d2));
        assert(without_commas(s3) == decimal(number / 1000).push(d2).push(d1));
        assert(without_commas(s4) == decimal(number / 1000).push(d2).push(d1).push(d0));
        assert(number / 10 / 10 == number / 100);
        assert(number / 100 / 10 == number / 1000);
        assert(number % 10 == rest % 10);
        assert(number / 10 % 10 == rest / 10 % 10);
        assert(number / 100 % 10 == rest / 100 % 10);
        assert(decimal(number) == decimal(number / 10).push(d0));
        assert(decimal(number / 10) == decimal(number / 100).push(d1));
        assert(decimal(number / 100) == decimal(number / 1000).push(d2));
    }
}

/// A count, with the total where it is known.
pub open spec fn count_label(count: usize, total: Option<usize>) -> Seq<char> {
    match total {
        Some(total) => grouped(count as nat) + seq!['/'] + grouped(total as nat),
        None => grouped(count as nat),
    }
}

pub fn progress_count_label(count: usize, total: Option<usize>) -> (result: String)
    ensures
        result@ == count_label(count, total),
{
    let mut label: String = formatted_count(count);
    if let Some(total) = total {
        let ghost front = label@;
        label.push('/');
        label.push_str(formatted_count(total).as_str());
        assert(label@ =~= front + seq!['/'] + grouped(total as nat));
    }
    label
}

/// The number of pages of a collection, at least one.
pub open spec fn page_count(total: usize) -> nat {
    if total == 0 {
        1
    } else {
        ((total + PAGE_SIZE - 1) / PAGE_SIZE as int) as nat
    }
}

/// A page, with the number of pages where the total is known.
pub open spec fn page_text(page_number: usize, total: Option<usize>) -> Seq<char> {
    match total {
        Some(total) => "page "@ + decimal(page_number as nat) + seq!['/'] + decimal(
            page_count(total),
        ),
        None => "page "@ + decimal(page_number as nat),
    }
}

pub fn page_label(page_number: usize, total: Option<usize>) -> (result: String)
    ensures
        result@ == page_text(page_number, total),
{
    let mut label: String = text::concat(
        "page ",
        text::decimal_text(page_number as u64).as_str(),
    );
    if let Some(total) = total {
        let ghost front = label@;
        let pages: usize = if total == 0 {
            1
        } else {
            (total - 1) / PAGE_SIZE + 1
        };
        label.push('/');
        label.push_str(text::decimal_text(pages as u64).as_str());
        assert(pages == page_count(total));
        assert(label@ =~= front + seq!['/'] + decimal(page_count(total)));
    }
    label
}

/// A number of seconds as it is shown.
pub open spec fn elapsed_text(seconds: u64) -> Seq<char> {
    if seconds < 60 {
        decimal(seconds as nat) + "s elapsed"@
    } else {
        decimal((seconds / 60) as nat) + "m "@ + seq![
            text::digit_char((seconds % 60 / 10) as nat),
            text::digit_char((seconds % 60 % 10) as nat),
        ] + "s elapsed"@
    }
}

pub fn elapsed_label(seconds: u64) -> (result: String)
    ensures
        result@ == elapsed_text(seconds),
{
    if seconds < 60 {
        return text::concat(text::decimal_text(seconds).as_str(), "s elapsed");
    }
    let mut label: String = text::decimal_text(seconds / 60);
    label.push_str("m ");
    push_digit(&mut label, seconds % 60 / 10);
    push_digit(&mut label, seconds % 60 % 10);
    label.push_str("s elapsed");
    assert(label@ =~= elapsed_text(seconds));
    label
}

/// A page that was read and stored.
#[derive(Clone, Copy, Debug, PartialEq, Eq, Structural)]
pub struct SyncPageProgress {
    pub collection: SyncCollection,
    pub page_number: usize,
    pub fetched: usize,
    pub written: usize,
    pub total: Option<usize>,
    pub finished: bool,
}

/// Says how far the reading of a library has come, but not too often. Times are in
/// milliseconds since some fixed moment.
#[derive(Clone, Debug, PartialEq, Eq)]
pub struct SyncProgressReporter {
    pub source_name: String,
    pub provider_kind: String,
    pub started_at: u64,
    pub last_status_at: Option<u64>,
    pub silent: bool,
}

/// The contents of a [`SyncProgressReporter`].
#[verifier::ext_equal]
pub struct SyncProgressReporterView {
    pub source_name: Seq<char>,
    pub provider_kind: Seq<char>,
    pub started_at: u64,
    pub last_status_at: Option<u64>,
    pub silent: bool,
}

impl DeepView for SyncProgressReporter {
    type V = SyncProgressReporterView;

    open spec fn deep_view(&self) -> SyncProgressReporterView {
        SyncProgressReporterView {
            source_name: self.source_name@,
            provider_kind: self.provider_kind@,
            started_at: self.started_at,
            last_status_at: self.last_status_at,
            silent: self.silent,
        }
    }
}

/// The time between two moments, none where the second is earlier.
pub open spec fn time_since(earlier: u64, now: u64) -> u64 {
    if now < earlier {
        0
    } else {
        (now - earlier) as u64
    }
}

impl SyncProgressReporterView {
    /// What the source is called: its name and its kind, or the kind alone.
    pub open spec fn source_text(self) -> Seq<char> {
        if blank(self.source_name) || self.source_name == self.provider_kind {
            self.provider_kind
        } else {
            self.source_name + " ("@ + self.provider_kind + ")"@
        }
    }

    /// How long the reading has taken.
    pub open spec fn elapsed(self, now: u64) -> Seq<char> {
        elapsed_text(time_since(self.started_at, now) / 1000)
    }

    /// Whether a message may be shown: it is forced, or the last was long enough ago.
    pub open spec fn may_tell(self, force: bool, now: u64) -> bool {
        force || match self.last_status_at {
            Some(last) => time_since(last, now) >= SYNC_PROGRESS_MIN_INTERVAL,
            None => true,
        }
    }

    /// The reporter after a message was offered.
    pub open spec fn after(self, force: bool, now: u64) -> SyncProgressReporterView {
        if self.may_tell(force, now) {
            SyncProgressReporterView { last_status_at: Some(now), ..self }
        } else {
            self
        }
    }

    /// The message that is shown of one that is offered.
    pub open spec fn told(self, force: bool, now: u64, status: Seq<char>) -> Option<Seq<char>> {
        if self.may_tell(force, now) && !self.silent {
            Some(status)
        } else {
            None
        }
    }

    /// The message that a collection is begun.
    pub open spec fn started_text(self, collection: SyncCollection, now: u64) -> Seq<char> {
        "Caching library... This may take some time. Fetching "@ + collection_label(collection)
            + " for "@ + self.source_text() + " ("@ + self.elapsed(now) + ")"@
    }

    /// The message that a page is asked for.
    pub open spec fn fetching_text(
        self,
        collection: SyncCollection,
        page_number: usize,
        fetched: usize,
        total: Option<usize>,
        now: u64,
    ) -> Seq<char> {
        "Caching library... This may take some time. Fetching "@ + collection_label(collection)
            + " page "@ + decimal(page_number as nat) + " for "@ + self.source_text() + ", "@
            + count_label(fetched, total) + " fetched ("@ + self.elapsed(now) + ")"@
    }

    /// The message that a page was stored.
    pub open spec fn written_text(self, progress: SyncPageProgress, now: u64) -> Seq<char> {
        "Caching library... This may take some time. Cached "@ + collection_label(
            progress.collection,
        ) + " "@ + page_text(progress.page_number, progress.total) + " for "@ + self.source_text()
            + ", "@ + count_label(progress.fetched, progress.total) + " fetched, "@ + grouped(
            progress.written as nat,
        ) + " cached ("@ + self.elapsed(now) + ")"@
    }

    /// The message that the library is being completed.
    pub open spec fn finalizing_text(self, now: u64) -> Seq<char> {
        "Caching library... This may take some time. Finalizing cache for "@ + self.source_text()
            + " ("@ + self.elapsed(now) + ")"@
    }

    /// The message that the library is ready.
    pub open spec fn finished_text(self, now: u64) -> Seq<char> {
        "Library cache ready for "@ + self.source_text() + " in "@ + self.elapsed(now)
    }
}

impl SyncProgressReporter {
    pub fn new(source_name: String, provider_kind: String, silent: bool, now: u64) -> (result:
        SyncProgressReporter)
        ensures
            result.deep_view() == (SyncProgressReporterView {
                source_name: source_name@,
                provider_kind: provider_kind@,
                started_at: now,
                last_status_at: None,
                silent,
            }),
    {
        SyncProgressReporter {
            source_name,
            provider_kind,
            started_at: now,
            last_status_at: None,
            silent,
        }
    }

    fn source_label(&self) -> (result: String)
        ensures
            result@ == self.deep_view().source_text(),
    {
        if text::is_blank(self.source_name.as_str()) || self.source_name.same(&self.provider_kind) {
            return self.provider_kind.copy();
        }
        let mut label: String = self.source_name.copy();
        label.push_str(" (");
        label.push_str(self.provider_kind.as_str());
        label.push_str(")");
        label
    }

    fn elapsed(&self, now: u64) -> (result: String)
        ensures
            result@ == self.deep_view().elapsed(now),
    {
        let elapsed: u64 = if now < self.started_at {
            0
        } else {
            now - self.started_at
        };
        elapsed_label(elapsed / 1000)
    }

    fn emit_status(&mut self, force: bool, now: u64, status: String) -> (result: Option<String>)
        ensures
            final(self).deep_view() == old(self).deep_view().after(force, now),
            result.deep_view() == old(self).deep_view().told(force, now, status@),
    {
        let due: bool = match self.last_status_at {
            Some(last) => now >= last && now - last >= SYNC_PROGRESS_MIN_INTERVAL,
            None => true,
        };
        if !force && !due {
            return None;
        }
        self.last_status_at = Some(now);
        if self.silent {
            None
        } else {
            Some(status)
        }
    }

    /// A collection is begun.
    pub fn collection_started(&mut self, collection: SyncCollection, now: u64) -> (result: Option<
        String,
    >)
        ensures
            final(self).deep_view() == old(self).deep_view().after(true, now),
            result.deep_view() == old(self).deep_view().told(
                true,
                now,
                old(self).deep_view().started_text(collection, now),
            ),
    {
        let mut status: String = text::concat(
            "Caching library... This may take some time. Fetching ",
            collection.label(),
        );
        status.push_str(" for ");
        status.push_str(self.source_label().as_str());
        status.push_str(" (");
        status.push_str(self.elapsed(now).as_str());
        status.push_str(")");
        self.emit_status(true, now, status)
    }

    /// A page is asked for, or still being waited for.
    pub fn page_fetching(
        &mut self,
        collection: SyncCollection,
        page_number: usize,
        fetched: usize,
        total: Option<usize>,
        now: u64,
    ) -> (result: Option<String>)
        ensures
            final(self).deep_view() == old(self).deep_view().after(false, now),
            result.deep_view() == old(self).deep_view().told(
                false,
                now,
                old(self).deep_view().fetching_text(collection, page_number, fetched, total, now),
            ),
    {
        let mut status: String = text::concat(
            "Caching library... This may take some time. Fetching ",
            collection.label(),
        );
        status.push_str(" page ");
        status.push_str(text::decimal_text(page_number as u64).as_str());
        status.push_str(" for ");
        status.push_str(self.source_label().as_str());
        status.push_str(", ");
        status.push_str(progress_count_label(fetched, total).as_str());
        status.push_str(" fetched (");
        status.push_str(self.elapsed(now).as_str());
        status.push_str(")");
        self.emit_status(false, now, status)
    }

    /// A page was stored.
    pub fn page_written(&mut self, progress: SyncPageProgress, now: u64) -> (result: Option<String>)
        ensures
            final(self).deep_view() == old(self).deep_view().after(progress.finished, now),
            result.deep_view() == old(self).deep_view().told(
                progress.finished,
                now,
                old(self).deep_view().written_text(progress, now),
            ),
    {
        let mut status: String = text::concat(
            "Caching library... This may take some time. Cached ",
            progress.collection.label(),
        );
        status.push_str(" ");
        status.push_str(page_label(progress.page_number, progress.total).as_str());
        status.push_str(" for ");
        status.push_str(self.source_label().as_str());
        status.push_str(", ");
        status.push_str(progress_count_label(progress.fetched, progress.total).as_str());
        status.push_str(" fetched, ");
        status.push_str(formatted_count(progress.written).as_str());
        status.push_str(" cached (");
        status.push_str(self.elapsed(now).as_str());
        status.push_str(")");
        self.emit_status(progress.finished, now, status)
    }

    /// The library is being completed.
    pub fn finalizing(&mut self, now: u64) -> (result: Option<String>)
        ensures
            final(self).deep_view() == old(self).deep_view().after(true, now),
            result.deep_view() == old(self).deep_view().told(
                true,
                now,
                old(self).deep_view().finalizing_text(now),
            ),
    {
        let mut status: String = text::concat(
            "Caching library... This may take some time. Finalizing cache for ",
            self.source_label().as_str(),
        );
        status.push_str(" (");
        status.push_str(self.elapsed(now).as_str());
        status.push_str(")");
        self.emit_status(true, now, status)
    }

    /// The library is ready.
    pub fn finished(&mut self, now: u64) -> (result: Option<String>)
        ensures
            final(self).deep_view() == old(self).deep_view().after(true, now),
            result.deep_view() == old(self).deep_view().told(
                true,
                now,
                old(self).deep_view().finished_text(now),
            ),
    {
        let mut status: String = text::concat(
            "Library cache ready for ",
            self.source_label().as_str(),
        );
        status.push_str(" in ");
        status.push_str(self.elapsed(now).as_str());
        self.emit_status(true, now, status)
    }
}

/// Two messages that nothing forces lie at least the minimal interval apart.
pub proof fn unforced_messages_are_spaced(
    reporter: SyncProgressReporterView,
    first: u64,
    second: u64,
    status: Seq<char>,
)
    requires
        reporter.may_tell(false, first),
        first <= second,
        reporter.after(false, first).told(false, second, status) is Some,
    ensures
        second - first >= SYNC_PROGRESS_MIN_INTERVAL,
{
}

/// A collection whose total is known is read until that many items came, or until a page came
/// empty; one whose total is not known until a page came with fewer than five hundred.
pub proof fn collections_are_read_to_their_end(item_count: usize, total: usize, offset: usize)
    ensures
        total > 0 && item_count > 0 ==> is_last_page(item_count, total, offset) == (offset
            >= total),
        total == 0 ==> is_last_page(item_count, total, offset) == (item_count < 500),
        item_count == 0 ==> is_last_page(item_count, total, offset),
{
}

/// The number of pages is the smallest that holds the total, five hundred items on each.
pub proof fn pages_hold_five_hundred(total: usize)
    requires
        total > 0,
    ensures
        (page_count(total) - 1) * 500 < total <= page_count(total) * 500,
        page_count(0) == 1,
{
}

/// Times are told in seconds, and from a minute on in minutes of sixty seconds and the seconds
/// left, in two digits.
pub proof fn elapsed_times_are_told_in_minutes(minutes: nat, seconds: nat)
    requires
        seconds < 60,
        minutes * 60 + seconds <= u64::MAX,
    ensures
        minutes == 0 ==> elapsed_text(seconds as u64) == decimal(seconds) + "s elapsed"@,
        minutes > 0 ==> elapsed_text((minutes * 60 + seconds) as u64) == decimal(minutes) + "m "@
            + (if seconds < 10 {
            decimal(0) + decimal(seconds)
        } else {
            decimal(seconds)
        }) + "s elapsed"@,
{
    if minutes > 0 {
        let time = (minutes * 60 + seconds) as u64;
        assert(time / 60 == minutes);
        assert(time % 60 == seconds);
        let digits = seq![
            text::digit_char((time % 60 / 10) as nat),
            text::digit_char((time % 60 % 10) as nat),
        ];
        if seconds < 10 {
            assert(digits =~= decimal(0) + decimal(seconds));
        } else {
            assert(decimal(seconds / 10) =~= seq![text::digit_char(seconds / 10)]);
            assert(digits =~= decimal(seconds));
        }
    }
}

/// Unforced messages come at least two seconds apart, and a silent reading tells none.
pub proof fn messages_come_two_seconds_apart(
    reporter: SyncProgressReporterView,
    last: u64,
    now: u64,
    status: Seq<char>,
)
    requires
        last <= now,
        reporter.last_status_at == Some(last),
    ensures
        reporter.told(false, now, status) is Some <==> now - last >= 2000 && !reporter.silent,
        reporter.told(true, now, status) is Some <==> !reporter.silent,
        reporter.told(false, now, status) is Some ==> reporter.told(false, now, status) == Some(
            status,
        ),
{
}

} // verus!
