//! Searching for lyrics: the requests to make, and how their hits are ranked and merged.
use crate::lyrics::{
    first_usable_lyrics, lyrics_from_lrclib_results, lyrics_from_lrclib_search_result,
    names_something, usable_lyrics,
};
use crate::model::lyrics::{Lyrics, LyricsSearchResult, LyricsSearchResultView, LyricsView};
use crate::model::queue::QueueEntry;
use crate::select::{choose_items, chosen, Choice};
use crate::text::{self, blank, decimal, occurs, search_text, text_outcome, trimmed, words};
use crate::value::{holds, Value};
use vstd::prelude::*;

verus! {

pub const LRCLIB_SEARCH_URL: &'static str = "https://lrclib.net/api/search";

pub const LRCLIB_GET_URL: &'static str = "https://lrclib.net/api/get";

/// The text of the URL that `reqwest::Url::parse_with_params` makes from a base and query
/// parameters, or that of its error.
pub uninterp spec fn url_text(
    base: Seq<char>,
    params: Seq<(Seq<char>, Seq<char>)>,
) -> Result<Seq<char>, Seq<char>>;

/// Calls `reqwest::Url::parse_with_params`, which parses the base and appends the
/// parameters to its query in order; the URL depends on these alone. A base with a fragment
/// is left out, and so is a long one: the call panics where the query begins beyond 32 bits.
#[verifier::external_body]
fn url_with_params(base: &str, params: &Vec<(String, String)>) -> (result: Result<String, String>)
    requires
        !base@.contains('#'),
        base@.len() <= 1000,
    ensures
        text_outcome(result) == url_text(base@, params.deep_view()),
{
    match reqwest::Url::parse_with_params(base, params) {
        Ok(url) => Ok(url.to_string()),
        Err(error) => Err(error.to_string()),
    }
}

/// A query of the lyrics service: free text, a track and an artist, or a track.
pub enum LrclibQuery {
    Text(String),
    Fields { track: String, artist: String },
    Track(String),
}

/// The contents of a [`LrclibQuery`].
pub enum LrclibQueryView {
    Text(Seq<char>),
    Fields { track: Seq<char>, artist: Seq<char> },
    Track(Seq<char>),
}

impl DeepView for LrclibQuery {
    type V = LrclibQueryView;

    open spec fn deep_view(&self) -> LrclibQueryView {
        match self {
            LrclibQuery::Text(query) => LrclibQueryView::Text(query@),
            LrclibQuery::Fields { track, artist } => LrclibQueryView::Fields {
                track: track@,
                artist: artist@,
            },
            LrclibQuery::Track(track) => LrclibQueryView::Track(track@),
        }
    }
}

/// The query parameters of a query.
pub open spec fn query_params(query: LrclibQueryView) -> Seq<(Seq<char>, Seq<char>)> {
    match query {
        LrclibQueryView::Text(query) => seq![("q"@, query)],
        LrclibQueryView::Fields { track, artist } => seq![
            ("track_name"@, track),
            ("artist_name"@, artist),
        ],
        LrclibQueryView::Track(track) => seq![("track_name"@, track)],
    }
}

/// The URL of a query.
pub fn lrclib_query_url(query: &LrclibQuery) -> (result: Result<String, String>)
    ensures
        text_outcome(result) == url_text(LRCLIB_SEARCH_URL@, query_params(query.deep_view())),
{
    let mut params: Vec<(String, String)> = Vec::new();
    match query {
        LrclibQuery::Text(query) => {
            params.push((text::owned("q"), query.copy()));
        },
        LrclibQuery::Fields { track, artist } => {
            params.push((text::owned("track_name"), track.copy()));
            params.push((text::owned("artist_name"), artist.copy()));
        },
        LrclibQuery::Track(track) => {
            params.push((text::owned("track_name"), track.copy()));
        },
    }
    assert(params.deep_view() =~= query_params(query.deep_view()));
    proof {
        reveal_strlit("https://lrclib.net/api/search");
    }
    url_with_params(LRCLIB_SEARCH_URL, &params)
}

/// Appends a URL unless it is there already.
pub fn push_unique_lrclib_search_url(urls: &mut Vec<String>, url: String)
    ensures
        final(urls).deep_view() == with_url(old(urls).deep_view(), url@),
{
    let ghost before = urls.deep_view();
    if !holds(urls, &url) {
        urls.push(url);
        assert(urls.deep_view() =~= before.push(url@));
    }
}

/// The URLs with one more, unless it is among them already.
pub open spec fn with_url(urls: Seq<Seq<char>>, url: Seq<char>) -> Seq<Seq<char>> {
    if urls.contains(url) {
        urls
    } else {
        urls.push(url)
    }
}

/// The different URLs of some queries, in the order of the queries.
pub open spec fn query_urls(queries: Seq<LrclibQueryView>) -> Result<Seq<Seq<char>>, Seq<char>>
    decreases queries.len(),
{
    if queries.len() == 0 {
        Ok(Seq::empty())
    } else {
        match query_urls(queries.drop_last()) {
            Err(error) => Err(error),
            Ok(urls) => match url_text(LRCLIB_SEARCH_URL@, query_params(queries.last())) {
                Err(error) => Err(error),
                Ok(url) => Ok(with_url(urls, url)),
            },
        }
    }
}

/// A result taken by the contents of its texts.
pub open spec fn urls_outcome(result: Result<Vec<String>, String>) -> Result<
    Seq<Seq<char>>,
    Seq<char>,
> {
    match result {
        Ok(urls) => Ok(urls.deep_view()),
        Err(error) => Err(error@),
    }
}

proof fn lemma_query_error_stays(queries: Seq<LrclibQueryView>, count: int)
    requires
        0 <= count <= queries.len(),
        query_urls(queries.take(count)) is Err,
    ensures
        query_urls(queries) == query_urls(queries.take(count)),
    decreases queries.len() - count,
{
    if count == queries.len() {
        assert(queries.take(count) =~= queries);
    } else {
        assert(queries.take(count + 1).drop_last() =~= queries.take(count));
        lemma_query_error_stays(queries, count + 1);
    }
}

/// The different URLs of some queries, in the order of the queries.
pub fn lrclib_query_urls(queries: &Vec<LrclibQuery>) -> (result: Result<Vec<String>, String>)
    ensures
        urls_outcome(result) == query_urls(queries.deep_view()),
{
    let ghost all = queries.deep_view();
    let mut urls: Vec<String> = Vec::new();
    let mut i: usize = 0;
    assert(all.take(0) =~= Seq::empty());
    assert(urls.deep_view() =~= Seq::empty());
    while i < queries.len()
        invariant
            i <= queries@.len(),
            all == queries.deep_view(),
            query_urls(all.take(i as int)) == Ok::<Seq<Seq<char>>, Seq<char>>(urls.deep_view()),
        decreases queries.len() - i,
    {
        assert(all.take(i + 1).drop_last() =~= all.take(i as int));
        assert(all.take(i + 1).last() == queries@[i as int].deep_view());
        match lrclib_query_url(&queries[i]) {
            Ok(url) => push_unique_lrclib_search_url(&mut urls, url),
            Err(error) => {
                proof {
                    lemma_query_error_stays(all, i + 1);
                }
                return Err(error);
            },
        }
        i += 1;
    }
    assert(all.take(i as int) =~= all);
    Ok(urls)
}

/// No two requests of a search are the same.
pub proof fn search_requests_are_distinct(queries: Seq<LrclibQueryView>)
    ensures
        query_urls(queries) matches Ok(urls) ==> urls.no_duplicates(),
    decreases queries.len(),
{
    if queries.len() > 0 {
        search_requests_are_distinct(queries.drop_last());
    }
}

/// The free text of a search: the track and the artist, as far as they are given.
pub open spec fn combined_query(artist: Seq<char>, track: Seq<char>) -> Seq<char> {
    if track.len() == 0 {
        artist
    } else if artist.len() == 0 {
        track
    } else {
        track + seq![' '] + artist
    }
}

/// The queries of a search by hand, the most telling first.
pub open spec fn manual_queries(artist: Seq<char>, track: Seq<char>) -> Seq<LrclibQueryView> {
    let all = if artist.len() > 0 || track.len() > 0 {
        seq![LrclibQueryView::Text(combined_query(artist, track))]
    } else {
        Seq::empty()
    };
    let all = if artist.len() > 0 && track.len() > 0 {
        all.push(LrclibQueryView::Fields { track, artist })
    } else {
        all
    };
    let all = if track.len() > 0 {
        all.push(LrclibQueryView::Text(track)).push(LrclibQueryView::Track(track))
    } else {
        all
    };
    if artist.len() > 0 {
        all.push(LrclibQueryView::Text(artist))
    } else {
        all
    }
}

fn combined_text(artist: &str, track: &str) -> (result: String)
    ensures
        result@ == combined_query(artist@, track@),
{
    if track.is_empty() {
        return text::owned(artist);
    }
    let mut combined: String = text::owned(track);
    if !artist.is_empty() {
        combined.push(' ');
        combined.push_str(artist);
        assert(combined@ =~= track@ + seq![' '] + artist@);
    }
    combined
}

/// The requests of a search by hand, the most telling first.
pub fn lrclib_search_urls(artist_name: &str, track_name: &str) -> (result: Result<
    Vec<String>,
    String,
>)
    ensures
        urls_outcome(result) == query_urls(
            manual_queries(trimmed(artist_name@), trimmed(track_name@)),
        ),
{
    let artist: String = text::trim(artist_name);
    let track: String = text::trim(track_name);
    let has_artist: bool = !artist.as_str().is_empty();
    let has_track: bool = !track.as_str().is_empty();
    let mut queries: Vec<LrclibQuery> = Vec::new();
    if has_artist || has_track {
        queries.push(LrclibQuery::Text(combined_text(artist.as_str(), track.as_str())));
    }
    if has_artist && has_track {
        queries.push(LrclibQuery::Fields { track: track.copy(), artist: artist.copy() });
    }
    if has_track {
        queries.push(LrclibQuery::Text(track.copy()));
        queries.push(LrclibQuery::Track(track.copy()));
    }
    if has_artist {
        queries.push(LrclibQuery::Text(artist.copy()));
    }
    assert(queries.deep_view() =~= manual_queries(artist@, track@));
    lrclib_query_urls(&queries)
}

/// The queries of a search that nobody asked for: only where both names are known.
pub open spec fn automatic_queries(artist: Seq<char>, track: Seq<char>) -> Seq<LrclibQueryView> {
    if artist.len() > 0 && track.len() > 0 {
        seq![
            LrclibQueryView::Text(combined_query(artist, track)),
            LrclibQueryView::Fields { track, artist },
        ]
    } else {
        Seq::empty()
    }
}

/// The requests of a search that nobody asked for: only where both names are known.
pub fn lrclib_automatic_search_urls(artist_name: &str, track_name: &str) -> (result: Result<
    Vec<String>,
    String,
>)
    ensures
        urls_outcome(result) == query_urls(
            automatic_queries(trimmed(artist_name@), trimmed(track_name@)),
        ),
{
    let artist: String = text::trim(artist_name);
    let track: String = text::trim(track_name);
    let mut queries: Vec<LrclibQuery> = Vec::new();
    if !artist.as_str().is_empty() && !track.as_str().is_empty() {
        queries.push(LrclibQuery::Text(combined_text(artist.as_str(), track.as_str())));
        queries.push(LrclibQuery::Fields { track: track.copy(), artist: artist.copy() });
    }
    assert(queries.deep_view() =~= automatic_queries(artist@, track@));
    lrclib_query_urls(&queries)
}

/// The parameters of an exact lookup.
pub open spec fn lookup_params(
    artist: Seq<char>,
    track: Seq<char>,
    duration_seconds: u32,
) -> Seq<(Seq<char>, Seq<char>)> {
    let names = seq![("track_name"@, track), ("artist_name"@, artist)];
    if duration_seconds > 0 {
        names.push(("duration"@, decimal(duration_seconds as nat)))
    } else {
        names
    }
}

/// The request of an exact lookup: none where a name is not known.
pub fn lrclib_get_url(artist_name: &str, track_name: &str, duration_seconds: u32) -> (result:
    Result<Option<String>, String>)
    ensures
        if blank(artist_name@) || blank(track_name@) {
            result matches Ok(None)
        } else {
            match url_text(
                LRCLIB_GET_URL@,
                lookup_params(trimmed(artist_name@), trimmed(track_name@), duration_seconds),
            ) {
                Ok(url) => result matches Ok(Some(found)) && found@ == url,
                Err(message) => result matches Err(error) && error@ == message,
            }
        },
{
    let artist: String = text::trim(artist_name);
    let track: String = text::trim(track_name);
    if artist.as_str().is_empty() || track.as_str().is_empty() {
        return Ok(None);
    }
    let ghost expected = lookup_params(artist@, track@, duration_seconds);
    let mut params: Vec<(String, String)> = Vec::new();
    params.push((text::owned("track_name"), track));
    params.push((text::owned("artist_name"), artist));
    if duration_seconds > 0 {
        params.push((text::owned("duration"), text::decimal_text(duration_seconds as u64)));
    }
    assert(params.deep_view() =~= expected);
    proof {
        reveal_strlit("https://lrclib.net/api/get");
    }
    match url_with_params(LRCLIB_GET_URL, &params) {
        Ok(url) => Ok(Some(url)),
        Err(error) => Err(error),
    }
}

/// Adds two scores; beyond 16 bits they wrap around.
pub open spec fn score_sum(left: u16, right: u16) -> u16 {
    left.wrapping_add(right)
}

/// A count times a weight; beyond 16 bits it wraps around.
pub open spec fn weighted(count: nat, weight: u16) -> u16 {
    ((count as usize) as u16).wrapping_mul(weight)
}

/// The different words of a text.
pub open spec fn word_set(value: Seq<char>) -> Set<Seq<char>> {
    words(value).to_set()
}

/// How far a candidate is from a query: nothing where the query is empty or they agree; a
/// penalty for each word that is missing or extra; more where no word agrees.
pub open spec fn match_score(query: Seq<char>, candidate: Seq<char>) -> u16 {
    let query = search_text(query);
    let candidate = search_text(candidate);
    let wanted = word_set(query);
    let present = word_set(candidate);
    let matched = wanted.intersect(present).len();
    let extra = (present.len() - matched) as nat;
    if query.len() == 0 || candidate == query || wanted.len() == 0 {
        0
    } else if matched > 0 {
        score_sum(
            weighted((wanted.len() - matched) as nat, 30),
            weighted(
                if extra < 6 {
                    extra
                } else {
                    6
                },
                4,
            ),
        )
    } else if occurs(candidate, query) || occurs(query, candidate) {
        10
    } else {
        score_sum(100, weighted(wanted.len(), 10))
    }
}

/// The different words among the given, in the order of their first occurrence.
fn distinct(tokens: Vec<String>) -> (result: Vec<String>)
    ensures
        result.deep_view().no_duplicates(),
        result.deep_view().to_set() == tokens.deep_view().to_set(),
        result@.len() == tokens.deep_view().to_set().len(),
{
    let ghost all = tokens.deep_view();
    let mut result: Vec<String> = Vec::new();
    let mut i: usize = 0;
    while i < tokens.len()
        invariant
            i <= tokens@.len(),
            all == tokens.deep_view(),
            result.deep_view().no_duplicates(),
            forall|word: Seq<char>|
                #[trigger] result.deep_view().contains(word) <==> all.take(i as int).contains(word),
        decreases tokens.len() - i,
    {
        let ghost before = result.deep_view();
        let ghost word = tokens@[i as int]@;
        assert(all[i as int] == word);
        assert(all.take(i + 1) =~= all.take(i as int).push(word));
        if !holds(&result, &tokens[i]) {
            result.push(tokens[i].copy());
            assert(result.deep_view() =~= before.push(word));
        }
        assert forall|other: Seq<char>|
            #[trigger] result.deep_view().contains(other) <==> all.take(i + 1).contains(other) by {
            lemma_push_contains(before, word, other);
            lemma_push_contains(all.take(i as int), word, other);
        }
        i += 1;
    }
    assert(all.take(i as int) =~= all);
    proof {
        assert(result.deep_view().to_set() =~= all.to_set());
        result.deep_view().unique_seq_to_set();
    }
    result
}

proof fn lemma_push_contains(values: Seq<Seq<char>>, added: Seq<char>, wanted: Seq<char>)
    ensures
        values.push(added).contains(wanted) <==> values.contains(wanted) || wanted == added,
{
    let longer = values.push(added);
    if values.contains(wanted) {
        let i = choose|i: int| 0 <= i < values.len() && values[i] == wanted;
        assert(longer[i] == wanted);
    }
    if wanted == added {
        assert(longer[values.len() as int] == wanted);
    }
}

/// How many of the different words of one list are in the other.
fn common_count(left: &Vec<String>, right: &Vec<String>) -> (result: usize)
    requires
        left.deep_view().no_duplicates(),
    ensures
        result == left.deep_view().to_set().intersect(right.deep_view().to_set()).len(),
        result <= left@.len(),
{
    let ghost all = left.deep_view();
    let ghost other = right.deep_view();
    let ghost mut common: Seq<Seq<char>> = Seq::empty();
    let mut count: usize = 0;
    let mut i: usize = 0;
    while i < left.len()
        invariant
            i <= left@.len(),
            count <= i,
            count == common.len(),
            all == left.deep_view(),
            all.no_duplicates(),
            other == right.deep_view(),
            common.no_duplicates(),
            forall|word: Seq<char>|
                #[trigger] common.contains(word) <==> all.take(i as int).contains(word)
                    && other.contains(word),
        decreases left.len() - i,
    {
        let ghost word = left@[i as int]@;
        let ghost before = common;
        assert(all[i as int] == word);
        assert(all.take(i + 1) =~= all.take(i as int).push(word));
        assert(!all.take(i as int).contains(word));
        if holds(right, &left[i]) {
            count += 1;
            proof {
                assert(!before.contains(word));
                common = common.push(word);
                assert forall|a: int, b: int|
                    0 <= a < common.len() && 0 <= b < common.len() && a != b implies common[a]
                    != common[b] by {
                    assert(a < before.len() ==> before.contains(before[a]));
                    assert(b < before.len() ==> before.contains(before[b]));
                }
            }
        }
        assert forall|wanted: Seq<char>|
            #[trigger] common.contains(wanted) <==> all.take(i + 1).contains(wanted)
                && other.contains(wanted) by {
            lemma_push_contains(before, word, wanted);
            lemma_push_contains(all.take(i as int), word, wanted);
        }
        i += 1;
    }
    assert(all.take(i as int) =~= all);
    proof {
        common.unique_seq_to_set();
        assert(common.to_set() =~= all.to_set().intersect(other.to_set()));
    }
    count
}

fn weigh(count: usize, weight: u16) -> (result: u16)
    ensures
        result == weighted(count as nat, weight),
{
    (count as u16).wrapping_mul(weight)
}

/// How far a candidate is from a query.
pub fn text_match_score(query: &str, candidate: &str) -> (result: u16)
    ensures
        result == match_score(query@, candidate@),
{
    let query: String = text::normalize_search_text(query);
    if query.as_str().is_empty() {
        return 0;
    }
    let candidate: String = text::normalize_search_text(candidate);
    if candidate.same(&query) {
        return 0;
    }
    let query_chars: Vec<char> = text::chars(query.as_str());
    let candidate_chars: Vec<char> = text::chars(candidate.as_str());
    let wanted: Vec<String> = distinct(text::split_words(query_chars.as_slice()));
    let present: Vec<String> = distinct(text::split_words(candidate_chars.as_slice()));
    if wanted.len() == 0 {
        return 0;
    }
    let matched: usize = common_count(&wanted, &present);
    proof {
        let overlap = word_set(query@).intersect(word_set(candidate@));
        vstd::set_lib::lemma_len_subset(overlap, word_set(candidate@));
    }
    if matched == 0 {
        if text::contains(candidate.as_str(), query.as_str()) || text::contains(
            query.as_str(),
            candidate.as_str(),
        ) {
            return 10;
        }
        return 100u16.wrapping_add(weigh(wanted.len(), 10));
    }
    let extra: usize = present.len() - matched;
    let counted: usize = if extra < 6 {
        extra
    } else {
        6
    };
    weigh(wanted.len() - matched, 30).wrapping_add(weigh(counted, 4))
}

/// Twice a score, at most the largest.
pub open spec fn doubled(score: u16) -> u16 {
    if score > 32767 {
        65535
    } else {
        (score * 2) as u16
    }
}

/// How far a hit is from what was searched for; the track counts twice.
pub open spec fn hit_score(
    hit: LyricsSearchResultView,
    artist: Seq<char>,
    track: Seq<char>,
) -> u16 {
    score_sum(doubled(match_score(track, hit.track_name)), match_score(artist, hit.artist_name))
}

pub fn lrclib_match_score(hit: &LyricsSearchResult, artist_name: &str, track_name: &str) -> (result:
    u16)
    ensures
        result == hit_score(hit.deep_view(), artist_name@, track_name@),
{
    let track_score: u16 = text_match_score(track_name, hit.track_name.as_str());
    let twice: u16 = if track_score > 32767 {
        65535
    } else {
        track_score * 2
    };
    twice.wrapping_add(text_match_score(artist_name, hit.artist_name.as_str()))
}

/// Whether a hit has timed lyrics.
pub open spec fn has_synced(hit: LyricsSearchResultView) -> bool {
    hit.synced_lyrics matches Some(lyrics) && !blank(lyrics)
}

pub fn lrclib_has_synced_lyrics(hit: &LyricsSearchResult) -> (result: bool)
    ensures
        result == has_synced(hit.deep_view()),
{
    match &hit.synced_lyrics {
        Some(lyrics) => !text::is_blank(lyrics.as_str()),
        None => false,
    }
}

/// Whether a hit has plain lyrics.
pub open spec fn has_plain(hit: LyricsSearchResultView) -> bool {
    hit.plain_lyrics matches Some(lyrics) && !blank(lyrics)
}

pub fn lrclib_has_plain_lyrics(hit: &LyricsSearchResult) -> (result: bool)
    ensures
        result == has_plain(hit.deep_view()),
{
    match &hit.plain_lyrics {
        Some(lyrics) => !text::is_blank(lyrics.as_str()),
        None => false,
    }
}

/// Whether one text comes before another, or is the same, by the order of code points.
pub open spec fn text_le(left: Seq<char>, right: Seq<char>) -> bool
    decreases left.len(),
{
    if left.len() == 0 {
        true
    } else if right.len() == 0 {
        false
    } else if left[0] != right[0] {
        left[0] < right[0]
    } else {
        text_le(left.drop_first(), right.drop_first())
    }
}

proof fn lemma_text_order(left: Seq<char>, right: Seq<char>, third: Seq<char>)
    ensures
        text_le(left, right) || text_le(right, left),
        text_le(left, right) && text_le(right, left) ==> left == right,
        text_le(left, right) && text_le(right, third) ==> text_le(left, third),
    decreases left.len(),
{
    if left.len() > 0 && right.len() > 0 {
        let rest = if third.len() > 0 {
            third.drop_first()
        } else {
            third
        };
        lemma_text_order(left.drop_first(), right.drop_first(), rest);
        if left[0] == right[0] && left.drop_first() == right.drop_first() {
            assert(left =~= seq![left[0]] + left.drop_first());
            assert(right =~= seq![right[0]] + right.drop_first());
        }
    } else if left.len() == 0 && right.len() == 0 {
        assert(left =~= right);
    }
}

fn text_before(left: &[char], right: &[char]) -> (result: bool)
    ensures
        result == text_le(left@, right@),
{
    let mut i: usize = 0;
    assert(left@.skip(0) =~= left@);
    assert(right@.skip(0) =~= right@);
    while i < left.len() && i < right.len()
        invariant
            i <= left@.len(),
            i <= right@.len(),
            text_le(left@, right@) == text_le(left@.skip(i as int), right@.skip(i as int)),
        decreases left.len() - i,
    {
        assert(left@.skip(i as int).drop_first() =~= left@.skip(i + 1));
        assert(right@.skip(i as int).drop_first() =~= right@.skip(i + 1));
        if left[i] != right[i] {
            return left[i] < right[i];
        }
        i += 1;
    }
    i == left.len()
}

/// Whether a hit may stand before another in the list of hits: the nearer one first, then
/// the one with timed lyrics, then the one with plain lyrics, then by the names.
pub open spec fn hit_le(
    left: LyricsSearchResultView,
    right: LyricsSearchResultView,
    artist: Seq<char>,
    track: Seq<char>,
) -> bool {
    let left_score = hit_score(left, artist, track);
    let right_score = hit_score(right, artist, track);
    if left_score != right_score {
        left_score < right_score
    } else if has_synced(left) != has_synced(right) {
        has_synced(left)
    } else if has_plain(left) != has_plain(right) {
        has_plain(left)
    } else if left.track_name != right.track_name {
        text_le(left.track_name, right.track_name)
    } else {
        text_le(left.artist_name, right.artist_name)
    }
}

proof fn lemma_hit_order(
    left: LyricsSearchResultView,
    right: LyricsSearchResultView,
    third: LyricsSearchResultView,
    artist: Seq<char>,
    track: Seq<char>,
)
    ensures
        hit_le(left, right, artist, track) || hit_le(right, left, artist, track),
        hit_le(left, right, artist, track) && hit_le(right, third, artist, track) ==> hit_le(
            left,
            third,
            artist,
            track,
        ),
{
    lemma_text_order(left.track_name, right.track_name, third.track_name);
    lemma_text_order(right.track_name, third.track_name, left.track_name);
    lemma_text_order(left.track_name, third.track_name, right.track_name);
    lemma_text_order(left.artist_name, right.artist_name, third.artist_name);
}

fn hit_before(
    left: &LyricsSearchResult,
    right: &LyricsSearchResult,
    artist: &str,
    track: &str,
) -> (result: bool)
    ensures
        result == hit_le(left.deep_view(), right.deep_view(), artist@, track@),
{
    let left_score: u16 = lrclib_match_score(left, artist, track);
    let right_score: u16 = lrclib_match_score(right, artist, track);
    if left_score != right_score {
        return left_score < right_score;
    }
    let left_synced: bool = lrclib_has_synced_lyrics(left);
    if left_synced != lrclib_has_synced_lyrics(right) {
        return left_synced;
    }
    let left_plain: bool = lrclib_has_plain_lyrics(left);
    if left_plain != lrclib_has_plain_lyrics(right) {
        return left_plain;
    }
    if !left.track_name.same(&right.track_name) {
        let left_name: Vec<char> = text::chars(left.track_name.as_str());
        let right_name: Vec<char> = text::chars(right.track_name.as_str());
        return text_before(left_name.as_slice(), right_name.as_slice());
    }
    let left_name: Vec<char> = text::chars(left.artist_name.as_str());
    let right_name: Vec<char> = text::chars(right.artist_name.as_str());
    text_before(left_name.as_slice(), right_name.as_slice())
}

/// A hit put into its place among ordered hits, behind those that are its equal.
pub open spec fn with_hit(
    ordered: Seq<LyricsSearchResultView>,
    hit: LyricsSearchResultView,
    artist: Seq<char>,
    track: Seq<char>,
) -> Seq<LyricsSearchResultView>
    decreases ordered.len(),
{
    if ordered.len() == 0 || hit_le(ordered.last(), hit, artist, track) {
        ordered.push(hit)
    } else {
        with_hit(ordered.drop_last(), hit, artist, track).push(ordered.last())
    }
}

/// The hits in order; equal ones stay as they stood.
pub open spec fn ordered_hits(
    hits: Seq<LyricsSearchResultView>,
    artist: Seq<char>,
    track: Seq<char>,
) -> Seq<LyricsSearchResultView>
    decreases hits.len(),
{
    if hits.len() == 0 {
        Seq::empty()
    } else {
        with_hit(ordered_hits(hits.drop_last(), artist, track), hits.last(), artist, track)
    }
}

proof fn lemma_with_hit_at(
    ordered: Seq<LyricsSearchResultView>,
    hit: LyricsSearchResultView,
    artist: Seq<char>,
    track: Seq<char>,
    at: int,
)
    requires
        0 <= at <= ordered.len(),
        at > 0 ==> hit_le(ordered[at - 1], hit, artist, track),
        forall|j: int| at <= j < ordered.len() ==> !hit_le(
            #[trigger] ordered[j],
            hit,
            artist,
            track,
        ),
    ensures
        with_hit(ordered, hit, artist, track) == ordered.insert(at, hit),
    decreases ordered.len(),
{
    if at == ordered.len() {
        assert(ordered.insert(at, hit) =~= ordered.push(hit));
    } else {
        lemma_with_hit_at(ordered.drop_last(), hit, artist, track, at);
        assert(
            ordered.insert(at, hit) =~= ordered.drop_last().insert(at, hit).push(ordered.last())
        );
    }
}

/// Puts the hits in order, the best first; equal ones stay as they stood.
pub fn order_lrclib_results(
    results: &mut Vec<LyricsSearchResult>,
    artist_name: &str,
    track_name: &str,
)
    ensures
        final(results).deep_view() == ordered_hits(
            old(results).deep_view(),
            artist_name@,
            track_name@,
        ),
{
    let ghost all = results.deep_view();
    let mut ordered: Vec<LyricsSearchResult> = Vec::new();
    let mut i: usize = 0;
    assert(all.take(0) =~= Seq::empty());
    assert(ordered.deep_view() =~= Seq::empty());
    while i < results.len()
        invariant
            i <= results@.len(),
            all == results.deep_view(),
            ordered@.len() == i,
            ordered.deep_view() == ordered_hits(all.take(i as int), artist_name@, track_name@),
        decreases results.len() - i,
    {
        let hit: LyricsSearchResult = results[i].copy();
        let ghost before = ordered.deep_view();
        assert(all.take(i + 1).drop_last() =~= all.take(i as int));
        assert(all.take(i + 1).last() == hit.deep_view());
        let mut at: usize = ordered.len();
        while at > 0 && !hit_before(&ordered[at - 1], &hit, artist_name, track_name)
            invariant
                at <= ordered@.len(),
                before == ordered.deep_view(),
                forall|j: int|
                    at <= j < before.len() ==> !hit_le(
                        #[trigger] before[j],
                        hit.deep_view(),
                        artist_name@,
                        track_name@,
                    ),
            decreases at,
        {
            assert(before[at - 1] == ordered@[at - 1].deep_view());
            at -= 1;
        }
        proof {
            if at > 0 {
                assert(before[at - 1] == ordered@[at - 1].deep_view());
            }
            lemma_with_hit_at(before, hit.deep_view(), artist_name@, track_name@, at as int);
        }
        ordered.insert(at, hit);
        assert(ordered.deep_view() =~= before.insert(at as int, hit.deep_view()));
        i += 1;
    }
    assert(all.take(i as int) =~= all);
    *results = ordered;
}

/// Whether the hits stand in order.
pub open spec fn in_order(
    hits: Seq<LyricsSearchResultView>,
    artist: Seq<char>,
    track: Seq<char>,
) -> bool {
    forall|i: int, j: int|
        0 <= i < j < hits.len() ==> hit_le(#[trigger] hits[i], #[trigger] hits[j], artist, track)
}

proof fn lemma_with_hit_ordered(
    ordered: Seq<LyricsSearchResultView>,
    hit: LyricsSearchResultView,
    artist: Seq<char>,
    track: Seq<char>,
)
    requires
        in_order(ordered, artist, track),
    ensures
        in_order(with_hit(ordered, hit, artist, track), artist, track),
        with_hit(ordered, hit, artist, track).to_multiset() == ordered.to_multiset().insert(hit),
        with_hit(ordered, hit, artist, track).len() == ordered.len() + 1,
        forall|i: int|
            0 <= i < with_hit(ordered, hit, artist, track).len() ==> #[trigger] with_hit(
                ordered,
                hit,
                artist,
                track,
            )[i] == hit || ordered.contains(with_hit(ordered, hit, artist, track)[i]),
    decreases ordered.len(),
{
    broadcast use vstd::seq_lib::group_to_multiset_ensures;

    let result = with_hit(ordered, hit, artist, track);
    if ordered.len() == 0 || hit_le(ordered.last(), hit, artist, track) {
        assert forall|i: int, j: int| 0 <= i < j < result.len() implies hit_le(
            #[trigger] result[i],
            #[trigger] result[j],
            artist,
            track,
        ) by {
            if j == ordered.len() {
                lemma_hit_order(ordered[i], ordered.last(), hit, artist, track);
            }
        }
        assert forall|i: int| 0 <= i < result.len() implies #[trigger] result[i] == hit
            || ordered.contains(result[i]) by {
            if i < ordered.len() {
                assert(ordered[i] == result[i]);
            }
        }
    } else {
        let front = ordered.drop_last();
        let last = ordered.last();
        let placed = with_hit(front, hit, artist, track);
        lemma_with_hit_ordered(front, hit, artist, track);
        lemma_hit_order(last, hit, last, artist, track);
        assert forall|i: int| 0 <= i < result.len() implies #[trigger] result[i] == hit
            || ordered.contains(result[i]) by {
            if i < placed.len() {
                assert(result[i] == placed[i]);
                if placed[i] != hit {
                    let k = choose|k: int| 0 <= k < front.len() && front[k] == placed[i];
                    assert(ordered[k] == result[i]);
                }
            } else {
                assert(ordered[ordered.len() - 1] == last);
            }
        }
        assert forall|i: int, j: int| 0 <= i < j < result.len() implies hit_le(
            #[trigger] result[i],
            #[trigger] result[j],
            artist,
            track,
        ) by {
            if j == placed.len() {
                assert(result[i] == placed[i]);
                if placed[i] != hit {
                    let k = choose|k: int| 0 <= k < front.len() && front[k] == placed[i];
                    assert(ordered[k] == placed[i]);
                }
            }
        }
        assert(ordered =~= front.push(last));
        assert(result.to_multiset() =~= ordered.to_multiset().insert(hit));
    }
}

/// Ordering the hits loses none and adds none, and leaves them in order.
pub proof fn ordering_sorts_and_keeps_all(
    hits: Seq<LyricsSearchResultView>,
    artist: Seq<char>,
    track: Seq<char>,
)
    ensures
        in_order(ordered_hits(hits, artist, track), artist, track),
        ordered_hits(hits, artist, track).to_multiset() == hits.to_multiset(),
        ordered_hits(hits, artist, track).len() == hits.len(),
    decreases hits.len(),
{
    broadcast use vstd::seq_lib::group_to_multiset_ensures;

    if hits.len() > 0 {
        let front = hits.drop_last();
        ordering_sorts_and_keeps_all(front, artist, track);
        lemma_with_hit_ordered(ordered_hits(front, artist, track), hits.last(), artist, track);
        assert(hits =~= front.push(hits.last()));
    }
}

/// What one request of a search gave.
pub type SearchBatch = Result<Vec<LyricsSearchResult>, String>;

/// The contents of what one request gave.
pub type SearchBatchView = Result<Seq<LyricsSearchResultView>, Seq<char>>;

/// The contents of what one request gave.
pub open spec fn batch_outcome(batch: SearchBatch) -> SearchBatchView {
    match batch {
        Ok(hits) => Ok(hits.deep_view()),
        Err(error) => Err(error@),
    }
}

/// The contents of what some requests gave.
pub open spec fn batch_outcomes(batches: Seq<SearchBatch>) -> Seq<SearchBatchView> {
    Seq::new(batches.len(), |i: int| batch_outcome(batches[i]))
}

/// The name of the lyrics service among those that may be asked.
pub const LRCLIB_PROVIDER: &'static str = "lrclib";

/// Whether the lyrics service is among those that are asked.
pub fn asks_lrclib(providers: &Vec<String>) -> (result: bool)
    ensures
        result == providers.deep_view().contains(LRCLIB_PROVIDER@),
{
    holds(providers, &text::owned(LRCLIB_PROVIDER))
}

/// Whether an answer has any hit, so that no other is waited for.
pub fn ends_search(batch: &SearchBatch) -> (result: bool)
    ensures
        result == (batch matches Ok(results) && results@.len() > 0),
{
    match batch {
        Ok(results) => results.len() > 0,
        Err(_) => false,
    }
}

/// Whether a hit names a track or an artist, and so is worth keeping.
pub open spec fn is_named() -> spec_fn(LyricsSearchResultView) -> bool {
    |hit: LyricsSearchResultView| !blank(hit.track_name) || !blank(hit.artist_name)
}

struct Named {}

impl Choice<LyricsSearchResult> for Named {
    closed spec fn test(&self) -> spec_fn(LyricsSearchResultView) -> bool {
        is_named()
    }

    fn takes(&self, item: &LyricsSearchResult) -> (result: bool) {
        names_something(item)
    }
}

/// The hits that name a track or an artist, in their order.
pub fn named_hits(hits: &Vec<LyricsSearchResult>) -> (result: Vec<LyricsSearchResult>)
    ensures
        result.deep_view() == chosen(hits.deep_view(), is_named()),
{
    choose_items(hits, &Named {  })
}

/// Whether a hit has the number of one that is known.
pub open spec fn is_known(known: Seq<LyricsSearchResultView>, id: u64) -> bool {
    exists|i: int| 0 <= i < known.len() && (#[trigger] known[i]).id == id
}

/// The known hits followed by those whose number is new.
pub open spec fn with_new_hits(
    known: Seq<LyricsSearchResultView>,
    hits: Seq<LyricsSearchResultView>,
) -> Seq<LyricsSearchResultView>
    decreases hits.len(),
{
    if hits.len() == 0 {
        known
    } else {
        let before = with_new_hits(known, hits.drop_last());
        if is_known(before, hits.last().id) {
            before
        } else {
            before.push(hits.last())
        }
    }
}

/// The hits of all requests, each number once.
pub open spec fn merged_hits(batches: Seq<SearchBatchView>) -> Seq<LyricsSearchResultView>
    decreases batches.len(),
{
    if batches.len() == 0 {
        Seq::empty()
    } else {
        match batches.last() {
            Ok(hits) => with_new_hits(merged_hits(batches.drop_last()), hits),
            Err(_) => merged_hits(batches.drop_last()),
        }
    }
}

/// The errors of the requests that failed.
pub open spec fn batch_errors(batches: Seq<SearchBatchView>) -> Seq<Seq<char>>
    decreases batches.len(),
{
    if batches.len() == 0 {
        Seq::empty()
    } else {
        match batches.last() {
            Ok(_) => batch_errors(batches.drop_last()),
            Err(error) => batch_errors(batches.drop_last()).push(error),
        }
    }
}

/// Whether any request was answered.
pub open spec fn any_answered(batches: Seq<SearchBatchView>) -> bool {
    exists|i: int| 0 <= i < batches.len() && #[trigger] batches[i] is Ok
}

/// What a search gives that waits for all its requests: the merged hits in order, or all
/// the errors where no request was answered.
pub open spec fn merged_search(
    batches: Seq<SearchBatchView>,
    artist: Seq<char>,
    track: Seq<char>,
) -> SearchBatchView {
    if !any_answered(batches) && batch_errors(batches).len() > 0 {
        Err(text::joined(batch_errors(batches), "; "@))
    } else {
        Ok(ordered_hits(merged_hits(batches), artist, track))
    }
}

fn knows(known: &Vec<LyricsSearchResult>, id: u64) -> (result: bool)
    ensures
        result == is_known(known.deep_view(), id),
{
    let mut i: usize = 0;
    while i < known.len()
        invariant
            i <= known@.len(),
            forall|j: int| 0 <= j < i ==> known@[j].id != id,
        decreases known.len() - i,
    {
        if known[i].id == id {
            assert(known.deep_view()[i as int].id == id);
            return true;
        }
        i += 1;
    }
    assert(forall|j: int|
        0 <= j < known.deep_view().len() ==> (#[trigger] known.deep_view()[j]).id
            == known@[j].id);
    false
}

fn add_new_hits(known: &mut Vec<LyricsSearchResult>, hits: &Vec<LyricsSearchResult>)
    ensures
        final(known).deep_view() == with_new_hits(old(known).deep_view(), hits.deep_view()),
{
    let ghost first = known.deep_view();
    let ghost all = hits.deep_view();
    let mut i: usize = 0;
    assert(all.take(0) =~= Seq::empty());
    while i < hits.len()
        invariant
            i <= hits@.len(),
            all == hits.deep_view(),
            known.deep_view() == with_new_hits(first, all.take(i as int)),
        decreases hits.len() - i,
    {
        let ghost before = known.deep_view();
        assert(all.take(i + 1).drop_last() =~= all.take(i as int));
        assert(all.take(i + 1).last() == hits@[i as int].deep_view());
        if !knows(known, hits[i].id) {
            let hit: LyricsSearchResult = hits[i].copy();
            known.push(hit);
            assert(known.deep_view() =~= before.push(hit.deep_view()));
        }
        i += 1;
    }
    assert(all.take(i as int) =~= all);
}

/// The hits and the errors of all requests, and whether any was answered.
fn collect_batches(batches: &Vec<SearchBatch>) -> (result: (
    Vec<LyricsSearchResult>,
    Vec<String>,
    bool,
))
    ensures
        result.0.deep_view() == merged_hits(batch_outcomes(batches@)),
        result.1.deep_view() == batch_errors(batch_outcomes(batches@)),
        result.2 == any_answered(batch_outcomes(batches@)),
{
    let ghost all = batch_outcomes(batches@);
    let mut hits: Vec<LyricsSearchResult> = Vec::new();
    let mut errors: Vec<String> = Vec::new();
    let mut answered: bool = false;
    let mut i: usize = 0;
    assert(all.take(0) =~= Seq::empty());
    assert(hits.deep_view() =~= Seq::empty());
    assert(errors.deep_view() =~= Seq::empty());
    while i < batches.len()
        invariant
            i <= batches@.len(),
            all == batch_outcomes(batches@),
            hits.deep_view() == merged_hits(all.take(i as int)),
            errors.deep_view() == batch_errors(all.take(i as int)),
            answered == (exists|j: int| 0 <= j < i && #[trigger] all[j] is Ok),
        decreases batches.len() - i,
    {
        assert(all.take(i + 1).drop_last() =~= all.take(i as int));
        assert(all.take(i + 1).last() == batch_outcome(batches@[i as int]));
        assert(all[i as int] == batch_outcome(batches@[i as int]));
        let ghost before = errors.deep_view();
        match &batches[i] {
            Ok(batch) => {
                answered = true;
                add_new_hits(&mut hits, batch);
            },
            Err(error) => {
                errors.push(error.copy());
                assert(errors.deep_view() =~= before.push(error@));
            },
        }
        i += 1;
    }
    assert(all.take(i as int) =~= all);
    (hits, errors, answered)
}

/// What a search gives that waits for all its requests.
pub fn merge_search_batches(batches: &Vec<SearchBatch>, artist_name: &str, track_name: &str) -> (
result: SearchBatch)
    ensures
        batch_outcome(result) == merged_search(
            batch_outcomes(batches@),
            artist_name@,
            track_name@,
        ),
{
    let (hits, errors, answered): (Vec<LyricsSearchResult>, Vec<String>, bool) = collect_batches(
        batches,
    );
    assert(errors.deep_view().len() == errors@.len());
    if !answered && errors.len() > 0 {
        return Err(text::join(&errors, "; "));
    }
    let mut ordered: Vec<LyricsSearchResult> = hits;
    order_lrclib_results(&mut ordered, artist_name, track_name);
    Ok(ordered)
}

/// The first answer, in the order in which they came, that has any hit.
pub open spec fn first_hits(batches: Seq<SearchBatchView>) -> Option<Seq<LyricsSearchResultView>>
    decreases batches.len(),
{
    if batches.len() == 0 {
        None
    } else {
        match batches[0] {
            Ok(hits) if hits.len() > 0 => Some(hits),
            _ => first_hits(batches.drop_first()),
        }
    }
}

/// What a search gives that takes the first answer with a hit.
pub open spec fn priority_search(
    batches: Seq<SearchBatchView>,
    artist: Seq<char>,
    track: Seq<char>,
) -> SearchBatchView {
    match first_hits(batches) {
        Some(hits) => Ok(ordered_hits(hits, artist, track)),
        None => if batches.len() == 0 || any_answered(batches) {
            Ok(Seq::empty())
        } else {
            Err(text::joined(batch_errors(batches), "; "@))
        },
    }
}

/// What a search gives that takes the first answer with a hit. The answers stand in the
/// order in which they came.
pub fn first_search_batch(batches: &Vec<SearchBatch>, artist_name: &str, track_name: &str) -> (
result: SearchBatch)
    ensures
        batch_outcome(result) == priority_search(
            batch_outcomes(batches@),
            artist_name@,
            track_name@,
        ),
{
    let ghost all = batch_outcomes(batches@);
    let mut i: usize = 0;
    assert(all.skip(0) =~= all);
    while i < batches.len()
        invariant
            i <= batches@.len(),
            all == batch_outcomes(batches@),
            first_hits(all) == first_hits(all.skip(i as int)),
        decreases batches.len() - i,
    {
        assert(all.skip(i as int).drop_first() =~= all.skip(i + 1));
        assert(all.skip(i as int)[0] == batch_outcome(batches@[i as int]));
        if let Ok(hits) = &batches[i] {
            assert(hits.deep_view().len() == hits@.len());
            if hits.len() > 0 {
                let mut ordered: Vec<LyricsSearchResult> = hits.copy();
                order_lrclib_results(&mut ordered, artist_name, track_name);
                return Ok(ordered);
            }
        }
        i += 1;
    }
    assert(all.skip(i as int).len() == 0);
    let (_hits, errors, answered): (Vec<LyricsSearchResult>, Vec<String>, bool) = collect_batches(
        batches,
    );
    if batches.len() == 0 || answered {
        let none: Vec<LyricsSearchResult> = Vec::new();
        assert(none.deep_view() =~= Seq::empty());
        return Ok(none);
    }
    Err(text::join(&errors, "; "))
}

/// The lyrics of an exact lookup, where it was answered with usable ones.
pub fn exact_lookup_lyrics(entry: &QueueEntry, answer: Option<&LyricsSearchResult>) -> (result:
    Option<Lyrics>)
    ensures
        result.deep_view() == (match answer.deep_view() {
            Some(hit) => usable_lyrics(entry.deep_view().track_id, hit),
            None => None,
        }),
{
    match answer {
        Some(hit) => lyrics_from_lrclib_search_result(entry.track_id.copy(), hit),
        None => None,
    }
}

/// The lyrics that a search finds after an exact lookup found none: those of the first
/// usable hit; where the search failed, its error after that of the lookup.
pub open spec fn fallback_outcome(
    track_id: Seq<char>,
    lookup_error: Option<Seq<char>>,
    search: SearchBatchView,
) -> Result<Option<LyricsView>, Seq<char>> {
    match (search, lookup_error) {
        (Ok(hits), _) => Ok(first_usable_lyrics(track_id, hits)),
        (Err(error), None) => Err(error),
        (Err(error), Some(lookup_error)) => Err(
            text::joined(seq![lookup_error, error], "; "@),
        ),
    }
}

/// The lyrics that a search finds after an exact lookup found none.
pub fn fallback_lyrics(entry: &QueueEntry, lookup_error: Option<String>, search: SearchBatch) -> (
result: Result<Option<Lyrics>, String>)
    ensures
        match fallback_outcome(
            entry.deep_view().track_id,
            lookup_error.deep_view(),
            batch_outcome(search),
        ) {
            Ok(lyrics) => result matches Ok(found) && found.deep_view() == lyrics,
            Err(message) => result matches Err(error) && error@ == message,
        },
{
    match search {
        Ok(hits) => Ok(lyrics_from_lrclib_results(entry, hits)),
        Err(error) => match lookup_error {
            None => Err(error),
            Some(lookup_error) => {
                let ghost expected = seq![lookup_error@, error@];
                let mut errors: Vec<String> = Vec::new();
                errors.push(lookup_error);
                errors.push(error);
                assert(errors.deep_view() =~= expected);
                Err(text::join(&errors, "; "))
            },
        },
    }
}

/// In the merged hits of a search every number occurs once.
pub proof fn merged_hits_are_distinct(batches: Seq<SearchBatchView>)
    ensures
        forall|i: int, j: int|
            0 <= i < j < merged_hits(batches).len() ==> (#[trigger] merged_hits(batches)[i]).id != (
            #[trigger] merged_hits(batches)[j]).id,
    decreases batches.len(),
{
    if batches.len() > 0 {
        merged_hits_are_distinct(batches.drop_last());
        if let Ok(hits) = batches.last() {
            lemma_new_hits_distinct(merged_hits(batches.drop_last()), hits);
        }
    }
}

proof fn lemma_new_hits_distinct(
    known: Seq<LyricsSearchResultView>,
    hits: Seq<LyricsSearchResultView>,
)
    requires
        forall|i: int, j: int|
            0 <= i < j < known.len() ==> (#[trigger] known[i]).id != (#[trigger] known[j]).id,
    ensures
        forall|i: int, j: int|
            0 <= i < j < with_new_hits(known, hits).len() ==> (#[trigger] with_new_hits(
                known,
                hits,
            )[i]).id != (#[trigger] with_new_hits(known, hits)[j]).id,
    decreases hits.len(),
{
    if hits.len() > 0 {
        lemma_new_hits_distinct(known, hits.drop_last());
    }
}

/// The different words that two texts share once they are normalized for search.
pub open spec fn shared_words(left: Seq<char>, right: Seq<char>) -> Set<Seq<char>> {
    words(search_text(left)).to_set().intersect(words(search_text(right)).to_set())
}

/// Whether a text is short enough for its score to be counted without wrapping around.
pub open spec fn short_text(text: Seq<char>) -> bool {
    words(search_text(text)).len() <= 500
}

proof fn lemma_score_bounds(query: Seq<char>, candidate: Seq<char>)
    requires
        short_text(query),
    ensures
        match_score(query, candidate) <= 15024,
        search_text(candidate) == search_text(query) ==> match_score(query, candidate) == 0,
        words(search_text(query)).len() > 0 && shared_words(query, candidate).len() == 0
            ==> match_score(query, candidate) >= 10,
        ({
            let wanted = words(search_text(query)).to_set();
            let present = words(search_text(candidate)).to_set();
            let matched = shared_words(query, candidate).len();
            let extra = present.len() - matched;
            &&& matched <= wanted.len() <= 500
            &&& matched <= present.len()
            &&& matched > 0 && search_text(candidate) != search_text(query) ==> match_score(
                query,
                candidate,
            ) == 30 * (wanted.len() - matched) + 4 * (if extra < 6 {
                extra
            } else {
                6
            })
            &&& matched == 0 && wanted.len() > 0 && !occurs(
                search_text(candidate),
                search_text(query),
            ) && !occurs(search_text(query), search_text(candidate)) ==> match_score(
                query,
                candidate,
            ) == 100 + 10 * wanted.len()
        }),
{
    let all = words(search_text(query));
    let found = words(search_text(candidate));
    let wanted = all.to_set();
    let present = found.to_set();
    all.lemma_cardinality_of_set();
    let shared = shared_words(query, candidate);
    assert(shared =~= word_set(search_text(query)).intersect(word_set(search_text(candidate))));
    vstd::set_lib::lemma_len_intersect(wanted, present);
    assert(shared =~= present.intersect(wanted));
    vstd::set_lib::lemma_len_intersect(present, wanted);
    if all.len() > 0 {
        assert(all.contains(all[0]));
        assert(wanted.contains(all[0]));
        if shared.len() == 0 && search_text(candidate) == search_text(query) {
            assert(shared =~= wanted);
            assert(wanted.len() > 0);
        }
        if wanted.len() == 0 {
            assert(wanted =~= Set::empty());
        }
        if search_text(query).len() == 0 {
            assert(all =~= Seq::empty());
        }
    }
    if search_text(query).len() == 0 {
        assert(all =~= Seq::<Seq<char>>::empty());
    }
    if wanted.len() == 0 && shared.len() > 0 {
        assert(false);
    }
    assert(occurs(search_text(candidate), search_text(query)) || search_text(query)
        != search_text(candidate)) by {
        if search_text(candidate) == search_text(query) {
            let text = search_text(query);
            assert(text.subrange(0, text.len() as int) =~= text);
            assert(text::stands_at(text, text, 0));
        }
    }
}

/// A text that is the same once normalized scores nothing; of texts that share a word with
/// the query the one that shares more scores less, and of those that share as many the one
/// with fewer words of its own scores no more.
pub proof fn nearer_texts_score_less(query: Seq<char>, nearer: Seq<char>, farther: Seq<char>)
    requires
        short_text(query),
    ensures
        search_text(nearer) == search_text(query) ==> match_score(query, nearer) == 0,
        words(search_text(query)).len() > 0 && shared_words(query, farther).len() == 0
            ==> match_score(query, farther) > 0,
        0 < shared_words(query, farther).len() < shared_words(query, nearer).len() ==> match_score(
            query,
            nearer,
        ) < match_score(query, farther),
        0 < shared_words(query, farther).len() == shared_words(query, nearer).len() && words(
            search_text(nearer),
        ).to_set().len() <= words(search_text(farther)).to_set().len() && search_text(farther)
            != search_text(query) ==> match_score(query, nearer) <= match_score(query, farther),
{
    lemma_score_bounds(query, nearer);
    lemma_score_bounds(query, farther);
    if search_text(farther) == search_text(query) {
        let wanted = words(search_text(query)).to_set();
        assert(shared_words(query, farther) =~= wanted);
    }
}

/// Of two hits with the same title, one whose artist is the one asked for is ranked before
/// one whose artist shares no word with it, whatever lyrics they hold.
pub proof fn the_asked_artist_comes_first(
    hits: Seq<LyricsSearchResultView>,
    artist: Seq<char>,
    track: Seq<char>,
    asked: int,
    other: int,
)
    requires
        short_text(artist),
        short_text(track),
        words(search_text(artist)).len() > 0,
        0 <= asked < hits.len(),
        0 <= other < hits.len(),
        ({
            let ranked = ordered_hits(hits, artist, track);
            &&& search_text(ranked[asked].track_name) == search_text(ranked[other].track_name)
            &&& search_text(ranked[asked].artist_name) == search_text(artist)
            &&& shared_words(artist, ranked[other].artist_name).len() == 0
        }),
    ensures
        asked < other,
{
    let ranked = ordered_hits(hits, artist, track);
    ordering_sorts_and_keeps_all(hits, artist, track);
    lemma_score_bounds(artist, ranked[asked].artist_name);
    lemma_score_bounds(artist, ranked[other].artist_name);
    lemma_score_bounds(track, ranked[asked].track_name);
    assert(match_score(track, ranked[asked].track_name) == match_score(
        track,
        ranked[other].track_name,
    ));
    if other < asked {
        assert(hit_le(ranked[other], ranked[asked], artist, track));
    }
}

/// Of two hits by the same artist, one whose title is the one asked for is ranked before one
/// whose title shares no word with it, whatever lyrics they hold.
pub proof fn the_asked_title_comes_first(
    hits: Seq<LyricsSearchResultView>,
    artist: Seq<char>,
    track: Seq<char>,
    asked: int,
    other: int,
)
    requires
        short_text(artist),
        short_text(track),
        words(search_text(track)).len() > 0,
        0 <= asked < hits.len(),
        0 <= other < hits.len(),
        ({
            let ranked = ordered_hits(hits, artist, track);
            &&& search_text(ranked[asked].artist_name) == search_text(ranked[other].artist_name)
            &&& search_text(ranked[asked].track_name) == search_text(track)
            &&& shared_words(track, ranked[other].track_name).len() == 0
        }),
    ensures
        asked < other,
{
    let ranked = ordered_hits(hits, artist, track);
    ordering_sorts_and_keeps_all(hits, artist, track);
    lemma_score_bounds(track, ranked[asked].track_name);
    lemma_score_bounds(track, ranked[other].track_name);
    lemma_score_bounds(artist, ranked[asked].artist_name);
    assert(match_score(artist, ranked[asked].artist_name) == match_score(
        artist,
        ranked[other].artist_name,
    ));
    if other < asked {
        assert(hit_le(ranked[other], ranked[asked], artist, track));
    }
}

/// The title counts twice: a hit with the title asked for is ranked before one with the artist
/// asked for and another title altogether, unless the artist has far more words.
pub proof fn titles_count_more_than_artists(
    hits: Seq<LyricsSearchResultView>,
    artist: Seq<char>,
    track: Seq<char>,
    titled: int,
    other: int,
)
    requires
        short_text(artist),
        short_text(track),
        words(search_text(track)).len() > 0,
        words(search_text(artist)).to_set().len() <= 2 * words(search_text(track)).to_set().len(),
        0 <= titled < hits.len(),
        0 <= other < hits.len(),
        ({
            let ranked = ordered_hits(hits, artist, track);
            let title = search_text(ranked[other].track_name);
            &&& search_text(ranked[titled].track_name) == search_text(track)
            &&& shared_words(artist, ranked[titled].artist_name).len() == 0
            &&& shared_words(track, ranked[other].track_name).len() == 0
            &&& !occurs(title, search_text(track)) && !occurs(search_text(track), title)
        }),
    ensures
        titled < other,
{
    let ranked = ordered_hits(hits, artist, track);
    ordering_sorts_and_keeps_all(hits, artist, track);
    lemma_score_bounds(track, ranked[titled].track_name);
    lemma_score_bounds(track, ranked[other].track_name);
    lemma_score_bounds(artist, ranked[titled].artist_name);
    lemma_score_bounds(artist, ranked[other].artist_name);
    let wanted = words(search_text(track)).to_set();
    assert(words(search_text(track)).contains(words(search_text(track))[0]));
    assert(wanted.contains(words(search_text(track))[0]));
    assert(wanted.len() > 0);
    assert(match_score(artist, ranked[titled].artist_name) <= 100 + 10 * words(
        search_text(artist),
    ).to_set().len());
    if other < titled {
        assert(hit_le(ranked[other], ranked[titled], artist, track));
    }
}

/// Of two hits with the same names, one with timed lyrics is ranked before one without, and
/// where neither has timed ones, one with plain lyrics before one without.
pub proof fn hits_with_better_lyrics_come_first(
    hits: Seq<LyricsSearchResultView>,
    artist: Seq<char>,
    track: Seq<char>,
    better: int,
    other: int,
)
    requires
        0 <= better < hits.len(),
        0 <= other < hits.len(),
        ({
            let ranked = ordered_hits(hits, artist, track);
            let left = ranked[better];
            let right = ranked[other];
            let left_timed = left.synced_lyrics matches Some(lyrics) && !blank(lyrics);
            let right_timed = right.synced_lyrics matches Some(lyrics) && !blank(lyrics);
            let left_plain = left.plain_lyrics matches Some(lyrics) && !blank(lyrics);
            let right_plain = right.plain_lyrics matches Some(lyrics) && !blank(lyrics);
            &&& left.track_name == right.track_name
            &&& left.artist_name == right.artist_name
            &&& (left_timed && !right_timed) || (left_timed == right_timed && left_plain
                && !right_plain)
        }),
    ensures
        better < other,
{
    let ranked = ordered_hits(hits, artist, track);
    ordering_sorts_and_keeps_all(hits, artist, track);
    if other < better {
        assert(hit_le(ranked[other], ranked[better], artist, track));
    }
}

/// Whether a hit is one of an answer.
pub open spec fn in_an_answer(batches: Seq<SearchBatchView>, hit: LyricsSearchResultView) -> bool {
    exists|i: int, j: int|
        0 <= i < batches.len() && batches[i] is Ok && 0 <= j < batches[i]->Ok_0.len() && hit
            == #[trigger] batches[i]->Ok_0[j]
}

/// A search that waits for all its requests loses no hit and makes none up: every number in an
/// answer is among the hits it gives, and each of these is one of an answer. It fails exactly
/// where requests failed and none was answered.
pub proof fn searches_keep_every_hit(
    batches: Seq<SearchBatchView>,
    artist: Seq<char>,
    track: Seq<char>,
)
    ensures
        merged_search(batches, artist, track) is Err <==> batches.len() > 0 && (forall|i: int|
            0 <= i < batches.len() ==> #[trigger] batches[i] is Err),
        merged_search(batches, artist, track) matches Ok(found) ==> {
            &&& forall|i: int, j: int|
                0 <= i < batches.len() && batches[i] is Ok && 0 <= j < batches[i]->Ok_0.len()
                    ==> is_known(found, (#[trigger] batches[i]->Ok_0[j]).id)
            &&& forall|k: int| 0 <= k < found.len() ==> in_an_answer(batches, #[trigger] found[k])
        },
{
    lemma_errors_of_batches(batches);
    if batches.len() > 0 {
        assert(batches[0] is Ok || batches[0] is Err);
    }
    let merged = merged_hits(batches);
    let found = ordered_hits(merged, artist, track);
    ordering_sorts_and_keeps_all(merged, artist, track);
    lemma_merged_hits_are_those(batches);
    assert forall|i: int, j: int|
        0 <= i < batches.len() && batches[i] is Ok && 0 <= j < batches[i]->Ok_0.len() implies
        is_known(found, (#[trigger] batches[i]->Ok_0[j]).id) by {
        assert(is_known(merged, batches[i]->Ok_0[j].id));
        let at = choose|at: int|
            0 <= at < merged.len() && (#[trigger] merged[at]).id == batches[i]->Ok_0[j].id;
        lemma_same_items(merged, found, merged[at]);
        assert(merged.contains(merged[at]));
        let k = choose|k: int| 0 <= k < found.len() && found[k] == merged[at];
        assert(found[k].id == batches[i]->Ok_0[j].id);
    }
    assert forall|k: int| 0 <= k < found.len() implies in_an_answer(
        batches,
        #[trigger] found[k],
    ) by {
        lemma_same_items(merged, found, found[k]);
        assert(found.contains(found[k]));
        let at = choose|at: int| 0 <= at < merged.len() && merged[at] == found[k];
        assert(merged[at] == found[k]);
    }
}

proof fn lemma_same_items(
    left: Seq<LyricsSearchResultView>,
    right: Seq<LyricsSearchResultView>,
    item: LyricsSearchResultView,
)
    requires
        left.to_multiset() == right.to_multiset(),
    ensures
        left.contains(item) <==> right.contains(item),
{
    left.to_multiset_ensures();
    right.to_multiset_ensures();
    assert(left.contains(item) <==> left.to_multiset().count(item) > 0);
    assert(right.contains(item) <==> right.to_multiset().count(item) > 0);
}

proof fn lemma_errors_of_batches(batches: Seq<SearchBatchView>)
    ensures
        batch_errors(batches).len() > 0 <==> exists|i: int|
            0 <= i < batches.len() && #[trigger] batches[i] is Err,
    decreases batches.len(),
{
    if batches.len() > 0 {
        let front = batches.drop_last();
        lemma_errors_of_batches(front);
        assert(batches[batches.len() - 1] == batches.last());
        assert(forall|i: int| 0 <= i < front.len() ==> front[i] == #[trigger] batches[i]);
        if exists|i: int| 0 <= i < front.len() && #[trigger] front[i] is Err {
            let i = choose|i: int| 0 <= i < front.len() && #[trigger] front[i] is Err;
            assert(batches[i] is Err);
        }
    }
}

proof fn lemma_new_hits_are_those(
    known: Seq<LyricsSearchResultView>,
    hits: Seq<LyricsSearchResultView>,
)
    ensures
        forall|j: int|
            0 <= j < hits.len() ==> is_known(with_new_hits(known, hits), (#[trigger] hits[j]).id),
        forall|id: u64| is_known(known, id) ==> #[trigger] is_known(with_new_hits(known, hits), id),
        forall|k: int|
            0 <= k < with_new_hits(known, hits).len() ==> known.contains(
                #[trigger] with_new_hits(known, hits)[k],
            ) || hits.contains(with_new_hits(known, hits)[k]),
    decreases hits.len(),
{
    if hits.len() > 0 {
        let front = hits.drop_last();
        lemma_new_hits_are_those(known, front);
        let before = with_new_hits(known, front);
        let after = with_new_hits(known, hits);
        assert forall|id: u64| is_known(before, id) implies #[trigger] is_known(after, id) by {
            let at = choose|at: int| 0 <= at < before.len() && (#[trigger] before[at]).id == id;
            assert(after[at] == before[at]);
        }
        if !is_known(before, hits.last().id) {
            assert(after[before.len() as int] == hits.last());
        }
        assert forall|j: int| 0 <= j < hits.len() implies is_known(
            after,
            (#[trigger] hits[j]).id,
        ) by {
            if j < front.len() {
                assert(front[j] == hits[j]);
                assert(is_known(before, front[j].id));
            }
        }
        assert forall|k: int| 0 <= k < after.len() implies known.contains(#[trigger] after[k])
            || hits.contains(after[k]) by {
            if k < before.len() {
                assert(after[k] == before[k]);
                if front.contains(before[k]) {
                    let at = choose|at: int| 0 <= at < front.len() && front[at] == before[k];
                    assert(hits[at] == before[k]);
                }
            } else {
                assert(hits[hits.len() - 1] == after[k]);
            }
        }
    } else {
        assert forall|k: int| 0 <= k < with_new_hits(known, hits).len() implies known.contains(
            #[trigger] with_new_hits(known, hits)[k],
        ) by {
            assert(known[k] == with_new_hits(known, hits)[k]);
        }
    }
}

proof fn lemma_merged_hits_are_those(batches: Seq<SearchBatchView>)
    ensures
        forall|i: int, j: int|
            0 <= i < batches.len() && batches[i] is Ok && 0 <= j < batches[i]->Ok_0.len()
                ==> is_known(merged_hits(batches), (#[trigger] batches[i]->Ok_0[j]).id),
        forall|k: int|
            0 <= k < merged_hits(batches).len() ==> in_an_answer(
                batches,
                #[trigger] merged_hits(batches)[k],
            ),
    decreases batches.len(),
{
    if batches.len() > 0 {
        let front = batches.drop_last();
        lemma_merged_hits_are_those(front);
        let before = merged_hits(front);
        let after = merged_hits(batches);
        if let Ok(hits) = batches.last() {
            lemma_new_hits_are_those(before, hits);
        }
        assert forall|i: int, j: int|
            0 <= i < batches.len() && batches[i] is Ok && 0 <= j
                < batches[i]->Ok_0.len() implies is_known(
            after,
            (#[trigger] batches[i]->Ok_0[j]).id,
        ) by {
            if i < front.len() {
                assert(front[i] == batches[i]);
                assert(is_known(before, front[i]->Ok_0[j].id));
            } else {
                assert(batches[i] == batches.last());
            }
        }
        assert forall|k: int| 0 <= k < after.len() implies in_an_answer(
            batches,
            #[trigger] after[k],
        ) by {
            if before.contains(after[k]) {
                let at = choose|at: int| 0 <= at < before.len() && before[at] == after[k];
                assert(in_an_answer(front, before[at]));
                let (i, j) = choose|i: int, j: int|
                    0 <= i < front.len() && front[i] is Ok && 0 <= j < front[i]->Ok_0.len()
                        && before[at] == #[trigger] front[i]->Ok_0[j];
                assert(front[i] == batches[i]);
                assert(after[k] == batches[i]->Ok_0[j]);
            } else {
                let last = batches.len() - 1;
                assert(batches[last] == batches.last());
                if batches.last() is Err {
                    assert(before[k] == after[k]);
                }
                let hits = batches.last()->Ok_0;
                let j = choose|j: int| 0 <= j < hits.len() && hits[j] == after[k];
                assert(after[k] == batches[last]->Ok_0[j]);
            }
        }
    }
}

/// A search that takes the first answer gives the hits of the first answer that has any, all of
/// them and no others.
pub proof fn the_first_answer_with_hits_is_taken(
    batches: Seq<SearchBatchView>,
    artist: Seq<char>,
    track: Seq<char>,
    first: int,
)
    requires
        0 <= first < batches.len(),
        batches[first] matches Ok(hits) && hits.len() > 0,
        forall|i: int|
            0 <= i < first ==> (#[trigger] batches[i] matches Ok(hits) ==> hits.len() == 0),
    ensures
        priority_search(batches, artist, track) matches Ok(found) && found.to_multiset() == (
        batches[first]->Ok_0).to_multiset() && in_order(found, artist, track),
    decreases first,
{
    ordering_sorts_and_keeps_all(batches[first]->Ok_0, artist, track);
    lemma_first_hits(batches, first);
}

proof fn lemma_first_hits(batches: Seq<SearchBatchView>, first: int)
    requires
        0 <= first < batches.len(),
        batches[first] matches Ok(hits) && hits.len() > 0,
        forall|i: int|
            0 <= i < first ==> (#[trigger] batches[i] matches Ok(hits) ==> hits.len() == 0),
    ensures
        first_hits(batches) == Some(batches[first]->Ok_0),
    decreases first,
{
    if first > 0 {
        let rest = batches.drop_first();
        assert(rest[first - 1] == batches[first]);
        assert forall|i: int| 0 <= i < first - 1 implies (#[trigger] rest[i] matches Ok(hits)
            ==> hits.len() == 0) by {
            assert(rest[i] == batches[i + 1]);
        }
        assert(batches[0] matches Ok(hits) ==> hits.len() == 0);
        lemma_first_hits(rest, first - 1);
    }
}

/// A search by hand asks for the track and the artist together first, and also by their
/// names, by the track alone and by the artist alone; one that nobody asked for asks only for
/// both together.
pub proof fn searches_ask_for_the_names_given(artist: Seq<char>, track: Seq<char>)
    requires
        artist.len() > 0,
        track.len() > 0,
    ensures
        ({
            let base = "https://lrclib.net/api/search"@;
            let together = url_text(base, seq![("q"@, track + seq![' '] + artist)]);
            let by_name = url_text(base, seq![("track_name"@, track), ("artist_name"@, artist)]);
            &&& query_urls(manual_queries(artist, track)) matches Ok(urls) ==> {
                &&& together == Ok::<Seq<char>, Seq<char>>(urls[0])
                &&& by_name matches Ok(url) && urls.contains(url)
                &&& url_text(base, seq![("q"@, track)]) matches Ok(url) && urls.contains(url)
                &&& url_text(base, seq![("track_name"@, track)]) matches Ok(url) && urls.contains(
                    url,
                )
                &&& url_text(base, seq![("q"@, artist)]) matches Ok(url) && urls.contains(url)
                &&& urls.len() <= 5
            }
            &&& query_urls(automatic_queries(artist, track)) matches Ok(urls) ==> {
                &&& together == Ok::<Seq<char>, Seq<char>>(urls[0])
                &&& by_name matches Ok(url) && urls.contains(url)
                &&& urls.len() <= 2
            }
            &&& automatic_queries(artist, Seq::empty()) == Seq::<LrclibQueryView>::empty()
            &&& automatic_queries(Seq::empty(), track) == Seq::<LrclibQueryView>::empty()
        }),
{
    let manual = manual_queries(artist, track);
    let automatic = automatic_queries(artist, track);
    if query_urls(manual) is Ok {
        lemma_urls_hold_each_query(manual);
        assert(manual[0] == LrclibQueryView::Text(track + seq![' '] + artist));
        assert(manual[1] == LrclibQueryView::Fields { track, artist });
        assert(manual[2] == LrclibQueryView::Text(track));
        assert(manual[3] == LrclibQueryView::Track(track));
        assert(manual[4] == LrclibQueryView::Text(artist));
    }
    if query_urls(automatic) is Ok {
        lemma_urls_hold_each_query(automatic);
        assert(automatic[0] == LrclibQueryView::Text(track + seq![' '] + artist));
        assert(automatic[1] == LrclibQueryView::Fields { track, artist });
    }
}

proof fn lemma_urls_hold_each_query(queries: Seq<LrclibQueryView>)
    requires
        query_urls(queries) is Ok,
    ensures
        ({
            let urls = query_urls(queries)->Ok_0;
            &&& urls.len() <= queries.len()
            &&& queries.len() > 0 ==> urls.len() > 0 && url_text(
                LRCLIB_SEARCH_URL@,
                query_params(queries[0]),
            ) == Ok::<Seq<char>, Seq<char>>(urls[0])
            &&& forall|i: int|
                0 <= i < queries.len() ==> (url_text(
                    LRCLIB_SEARCH_URL@,
                    query_params(#[trigger] queries[i]),
                ) matches Ok(url) && urls.contains(url))
        }),
    decreases queries.len(),
{
    if queries.len() > 0 {
        let front = queries.drop_last();
        lemma_urls_hold_each_query(front);
        let before = query_urls(front)->Ok_0;
        let urls = query_urls(queries)->Ok_0;
        let url = url_text(LRCLIB_SEARCH_URL@, query_params(queries.last()))->Ok_0;
        assert(urls == with_url(before, url));
        assert(forall|at: int| 0 <= at < before.len() ==> urls[at] == #[trigger] before[at]);
        assert forall|i: int| 0 <= i < queries.len() implies (url_text(
            LRCLIB_SEARCH_URL@,
            query_params(#[trigger] queries[i]),
        ) matches Ok(url) && urls.contains(url)) by {
            if i < front.len() {
                assert(front[i] == queries[i]);
                let old_url = url_text(LRCLIB_SEARCH_URL@, query_params(front[i]))->Ok_0;
                let at = choose|at: int| 0 <= at < before.len() && before[at] == old_url;
                assert(urls[at] == old_url);
            } else if !before.contains(url) {
                assert(urls[before.len() as int] == url);
            }
        }
        if front.len() > 0 {
            assert(front[0] == queries[0]);
        }
    }
}

/// An exact lookup names the track, the artist and, where it is known, the duration in
/// seconds.
pub proof fn lookups_name_track_artist_and_duration(
    artist: Seq<char>,
    track: Seq<char>,
    duration_seconds: u32,
)
    ensures
        lookup_params(artist, track, duration_seconds).contains(("track_name"@, track)),
        lookup_params(artist, track, duration_seconds).contains(("artist_name"@, artist)),
        duration_seconds > 0 ==> lookup_params(artist, track, duration_seconds).contains(
            ("duration"@, decimal(duration_seconds as nat)),
        ),
        lookup_params(artist, track, 0).len() == 2,
{
    let params = lookup_params(artist, track, duration_seconds);
    assert(params[0] == ("track_name"@, track));
    assert(params[1] == ("artist_name"@, artist));
    if duration_seconds > 0 {
        assert(params[2] == ("duration"@, decimal(duration_seconds as nat)));
    }
}

/// The order of texts is that of their first different characters, where one text is not the
/// beginning of the other.
pub proof fn texts_are_ordered_by_their_first_difference(
    common: Seq<char>,
    left: Seq<char>,
    right: Seq<char>,
)
    requires
        left.len() > 0,
        right.len() > 0,
        left[0] < right[0],
    ensures
        text_le(common + left, common + right),
        !text_le(common + right, common + left),
        text_le(common, common + left),
        !text_le(common + left, common),
    decreases common.len(),
{
    let first = common + left;
    let second = common + right;
    if common.len() > 0 {
        let rest = common.drop_first();
        assert(first.drop_first() =~= rest + left);
        assert(second.drop_first() =~= rest + right);
        texts_are_ordered_by_their_first_difference(rest, left, right);
    } else {
        assert(first =~= left);
        assert(second =~= right);
    }
}

/// Of hits that are equally near and hold alike lyrics, the titles stand in their order, and
/// the artists where the titles are the same.
pub proof fn equal_hits_stand_by_their_names(
    hits: Seq<LyricsSearchResultView>,
    artist: Seq<char>,
    track: Seq<char>,
    first: int,
    second: int,
)
    requires
        0 <= first < second < hits.len(),
        ({
            let ranked = ordered_hits(hits, artist, track);
            &&& match_score(track, ranked[first].track_name) == match_score(
                track,
                ranked[second].track_name,
            )
            &&& match_score(artist, ranked[first].artist_name) == match_score(
                artist,
                ranked[second].artist_name,
            )
            &&& ranked[first].synced_lyrics == ranked[second].synced_lyrics
            &&& ranked[first].plain_lyrics == ranked[second].plain_lyrics
        }),
    ensures
        ({
            let ranked = ordered_hits(hits, artist, track);
            &&& text_le(ranked[first].track_name, ranked[second].track_name)
            &&& ranked[first].track_name == ranked[second].track_name ==> text_le(
                ranked[first].artist_name,
                ranked[second].artist_name,
            )
        }),
{
    let ranked = ordered_hits(hits, artist, track);
    ordering_sorts_and_keeps_all(hits, artist, track);
    assert(hit_le(ranked[first], ranked[second], artist, track));
    lemma_text_order(
        ranked[first].track_name,
        ranked[first].track_name,
        ranked[first].track_name,
    );
}

/// Where a search fails after a lookup did, both errors are told, the one of the lookup first;
/// where it succeeds the first usable hit is taken, whatever the lookup said.
pub proof fn errors_of_lookup_and_search_are_told_together(
    track_id: Seq<char>,
    lookup: Seq<char>,
    error: Seq<char>,
    hits: Seq<LyricsSearchResultView>,
)
    ensures
        fallback_outcome(track_id, Some(lookup), Err(error)) == Err::<
            Option<LyricsView>,
            Seq<char>,
        >(lookup + "; "@ + error),
        fallback_outcome(track_id, None, Err(error)) == Err::<Option<LyricsView>, Seq<char>>(
            error,
        ),
        fallback_outcome(track_id, Some(lookup), Ok(hits)) == Ok::<
            Option<LyricsView>,
            Seq<char>,
        >(first_usable_lyrics(track_id, hits)),
{
    let errors = seq![lookup, error];
    assert(errors.drop_last() =~= seq![lookup]);
    assert(text::joined(seq![lookup], "; "@) == lookup);
}

} // verus!
