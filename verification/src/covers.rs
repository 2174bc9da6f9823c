//! Images: how they are named, where they are kept and in which sizes.

use crate::local_access::{join_path, joined_path};
use crate::model::ids::ServerId;
use crate::model::library::{ImageRef, ImageRefView};
use crate::text;
use crate::value::Value;
use crate::waveforms::{encode_key_part, key_part};
use vstd::prelude::*;

verus! {

/// The size of the smallest images that are shown.
pub const THUMB_COVER_SIZE: u32 = 96;

/// The size of the images of a grid.
pub const GRID_COVER_SIZE: u32 = 256;

/// The size of the largest images that are shown.
pub const DETAIL_COVER_SIZE: u32 = 512;

/// How many images are fetched at once.
pub const COVER_SLOT_LIMIT: u64 = 2;

/// What stands for the tag of an image that has none.
pub const IMAGE_TAG_UNTAGGED: &'static str = "untagged";

/// What a server tells of an item that it does not have.
pub const PROVIDER_NOT_FOUND: &'static str = "provider item was not found";

/// The tag that an image is kept under.
pub open spec fn kept_tag(image_ref: ImageRefView) -> Seq<char> {
    match image_ref.tag {
        Some(tag) => tag,
        None => IMAGE_TAG_UNTAGGED@,
    }
}

/// The tag that an image is kept under.
pub fn image_tag(image_ref: &ImageRef) -> (result: String)
    ensures
        result@ == kept_tag(image_ref.deep_view()),
{
    match &image_ref.tag {
        Some(tag) => tag.copy(),
        None => text::owned(IMAGE_TAG_UNTAGGED),
    }
}

/// What an image of a source is kept under: first the source, so that the images of a source
/// lie in one directory.
pub open spec fn cache_key(
    server_id: Seq<char>,
    item_id: Seq<char>,
    tag: Seq<char>,
    size: u32,
) -> Seq<char> {
    key_part(server_id) + "/"@ + key_part(item_id) + "-"@ + key_part(tag) + "-"@ + text::decimal(
        size as nat,
    )
}

/// What an image of a source is kept under.
pub fn image_cache_key(
    server_id: &ServerId,
    item_id: &str,
    tag: &str,
    size: u32,
) -> (result: String)
    ensures
        result@ == cache_key(server_id.deep_view(), item_id@, tag@, size),
{
    let mut result: String = encode_key_part(server_id.as_str());
    result.push_str("/");
    result.push_str(encode_key_part(item_id).as_str());
    result.push_str("-");
    result.push_str(encode_key_part(tag).as_str());
    result.push_str("-");
    result.push_str(text::decimal_text(size as u64).as_str());
    result
}

/// The file that an image is kept in, where images are kept.
pub open spec fn key_path(cover_dir: Option<Seq<char>>, key: Seq<char>) -> Option<Seq<char>> {
    match cover_dir {
        Some(dir) => Some(joined_path(dir, key)),
        None => None,
    }
}

/// The file that an image is kept in, where images are kept.
pub fn cover_cache_path_for_key(cover_dir: &Option<String>, key: &str) -> (result: Option<String>)
    ensures
        result.deep_view() == key_path(cover_dir.deep_view(), key@),
{
    match cover_dir {
        Some(dir) => Some(join_path(dir.as_str(), key)),
        None => None,
    }
}

/// The directory that holds the images of a source, where images are kept.
pub fn disk_cover_dir(cover_dir: &Option<String>, server_id: &ServerId) -> (result: Option<String>)
    ensures
        result.deep_view() == key_path(cover_dir.deep_view(), key_part(server_id.deep_view())),
{
    cover_cache_path_for_key(cover_dir, encode_key_part(server_id.as_str()).as_str())
}

/// Every image of a source lies in the directory of the source, so that all of them are
/// deleted with it.
pub proof fn images_lie_in_the_directory_of_their_source(
    cover_dir: Seq<char>,
    server_id: Seq<char>,
    item_id: Seq<char>,
    tag: Seq<char>,
    size: u32,
)
    requires
        server_id.len() > 0,
    ensures
        (joined_path(cover_dir, key_part(server_id)) + "/"@).is_prefix_of(
            joined_path(cover_dir, cache_key(server_id, item_id, tag, size)),
        ),
{
    reveal_strlit("/");
    let part = key_part(server_id);
    let key = cache_key(server_id, item_id, tag, size);
    assert(part.len() == server_id.len());
    assert(key[0] == part[0]);
    assert(part[0] != '/');
    let dir = joined_path(cover_dir, part) + "/"@;
    let path = joined_path(cover_dir, key);
    assert(path.take(dir.len() as int) =~= dir);
    assert(dir =~= path.subrange(0, dir.len() as int));
}

/// The sizes in which an image may stand for one of the wanted size, the best first: never one
/// of a smaller kind for one of a grid, but one of a grid for the largest.
pub open spec fn sizes_for(size: u32) -> Seq<u32> {
    if size <= THUMB_COVER_SIZE {
        seq![THUMB_COVER_SIZE, GRID_COVER_SIZE, DETAIL_COVER_SIZE]
    } else if size <= GRID_COVER_SIZE {
        seq![GRID_COVER_SIZE, DETAIL_COVER_SIZE]
    } else {
        seq![DETAIL_COVER_SIZE, GRID_COVER_SIZE]
    }
}

/// The sizes in which an image may stand for one of the wanted size, the best first.
pub fn cover_cache_size_candidates(size: u32) -> (result: Vec<u32>)
    ensures
        result@ == sizes_for(size),
{
    let mut result: Vec<u32> = Vec::new();
    if size <= THUMB_COVER_SIZE {
        result.push(THUMB_COVER_SIZE);
        result.push(GRID_COVER_SIZE);
        result.push(DETAIL_COVER_SIZE);
    } else if size <= GRID_COVER_SIZE {
        result.push(GRID_COVER_SIZE);
        result.push(DETAIL_COVER_SIZE);
    } else {
        result.push(DETAIL_COVER_SIZE);
        result.push(GRID_COVER_SIZE);
    }
    assert(result@ =~= sizes_for(size));
    result
}

/// An image of a smaller kind than a grid does not stand for one of a grid or larger.
pub proof fn thumbnails_do_not_stand_for_grid_images(size: u32)
    requires
        size > THUMB_COVER_SIZE,
    ensures
        !sizes_for(size).contains(THUMB_COVER_SIZE),
{
}

/// A sequence of sizes with one more, where it is not there yet.
pub open spec fn with_size(sizes: Seq<u32>, size: u32) -> Seq<u32> {
    if sizes.contains(size) {
        sizes
    } else {
        sizes.push(size)
    }
}

/// The sizes whose failed lookups hold for the wanted size too.
pub open spec fn miss_sizes(size: u32) -> Seq<u32> {
    with_size(
        with_size(with_size(seq![size], THUMB_COVER_SIZE), GRID_COVER_SIZE),
        DETAIL_COVER_SIZE,
    )
}

fn push_size(sizes: &mut Vec<u32>, size: u32)
    ensures
        final(sizes)@ == with_size(old(sizes)@, size),
{
    let mut i: usize = 0;
    while i < sizes.len()
        invariant
            i <= sizes@.len(),
            sizes@ == old(sizes)@,
            forall|j: int| 0 <= j < i ==> sizes@[j] != size,
        decreases sizes.len() - i,
    {
        if sizes[i] == size {
            return;
        }
        i += 1;
    }
    sizes.push(size);
}

/// The sizes whose failed lookups hold for the wanted size too.
pub fn external_lookup_miss_size_candidates(size: u32) -> (result: Vec<u32>)
    ensures
        result@ == miss_sizes(size),
{
    let mut result: Vec<u32> = Vec::new();
    result.push(size);
    assert(result@ =~= seq![size]);
    push_size(&mut result, THUMB_COVER_SIZE);
    push_size(&mut result, GRID_COVER_SIZE);
    push_size(&mut result, DETAIL_COVER_SIZE);
    result
}

/// A failed lookup holds for the size it was for, and for every size that is shown.
pub proof fn misses_hold_for_every_shown_size(size: u32)
    ensures
        miss_sizes(size).contains(size),
        miss_sizes(size).contains(THUMB_COVER_SIZE),
        miss_sizes(size).contains(GRID_COVER_SIZE),
        miss_sizes(size).contains(DETAIL_COVER_SIZE),
        miss_sizes(size).no_duplicates(),
{
    let first = seq![size];
    let second = with_size(first, THUMB_COVER_SIZE);
    let third = with_size(second, GRID_COVER_SIZE);
    assert(first[0] == size);
    assert(first.contains(size));
    lemma_with_size(first, THUMB_COVER_SIZE);
    lemma_with_size(second, GRID_COVER_SIZE);
    lemma_with_size(third, DETAIL_COVER_SIZE);
}

proof fn lemma_with_size(sizes: Seq<u32>, size: u32)
    requires
        sizes.no_duplicates(),
    ensures
        with_size(sizes, size).no_duplicates(),
        with_size(sizes, size).contains(size),
        forall|other: u32| sizes.contains(other) ==> with_size(sizes, size).contains(other),
{
    let all = with_size(sizes, size);
    if !sizes.contains(size) {
        assert(all[sizes.len() as int] == size);
        assert forall|other: u32| sizes.contains(other) implies all.contains(other) by {
            let at = choose|i: int| 0 <= i < sizes.len() && sizes[i] == other;
            assert(all[at] == other);
        }
    }
}

/// A side of an image once its longer side has a given length.
pub open spec fn scaled_side(side: int, longest: int, limit: int) -> int {
    if side * limit / longest < 1 {
        1
    } else {
        side * limit / longest
    }
}

/// The width and height that an image is scaled down to so that it is no larger than a size,
/// where it is to be: one that is small enough stays as it is.
pub open spec fn scaled(width: i32, height: i32, size: u32) -> Option<(int, int)> {
    let limit: int = if size > i32::MAX {
        i32::MAX as int
    } else {
        size as int
    };
    let width: int = if width < 1 {
        1
    } else {
        width as int
    };
    let height: int = if height < 1 {
        1
    } else {
        height as int
    };
    let longest: int = if width < height {
        height
    } else {
        width
    };
    if limit == 0 || longest <= limit {
        None
    } else {
        Some((scaled_side(width, longest, limit), scaled_side(height, longest, limit)))
    }
}

proof fn lemma_scaled_side(side: int, longest: int, limit: int)
    requires
        1 <= side <= longest,
        1 <= limit < longest,
    ensures
        1 <= scaled_side(side, longest, limit) <= limit,
        side == longest ==> scaled_side(side, longest, limit) == limit,
{
    assert(side * limit / longest <= limit) by (nonlinear_arith)
        requires
            1 <= side <= longest,
            1 <= limit,
    ;
    assert(longest * limit / longest == limit) by (nonlinear_arith)
        requires
            1 <= longest,
    ;
}

fn scale_side(side: i32, longest: i32, limit: i32) -> (result: i32)
    requires
        1 <= side <= longest,
        1 <= limit < longest,
    ensures
        result == scaled_side(side as int, longest as int, limit as int),
{
    proof {
        lemma_scaled_side(side as int, longest as int, limit as int);
        assert(0 <= side * limit <= 0x7fff_ffff * 0x7fff_ffff) by (nonlinear_arith)
            requires
                1 <= side <= 0x7fff_ffff,
                1 <= limit <= 0x7fff_ffff,
        ;
        assert(0 <= (side * limit) / (longest as int)) by (nonlinear_arith)
            requires
                0 <= side * limit,
                1 <= longest,
        ;
    }
    let scaled: i64 = (side as i64 * limit as i64) / longest as i64;
    if scaled < 1 {
        1
    } else {
        scaled as i32
    }
}

/// The width and height that an image is scaled down to, where it is to be.
pub fn scaled_cover_size(width: i32, height: i32, size: u32) -> (result: Option<(i32, i32)>)
    ensures
        match (result, scaled(width, height, size)) {
            (Some((width, height)), Some((wide, high))) => width == wide && height == high,
            (None, None) => true,
            _ => false,
        },
{
    let limit: i32 = if size > 2147483647 {
        2147483647
    } else {
        size as i32
    };
    let width: i32 = if width < 1 {
        1
    } else {
        width
    };
    let height: i32 = if height < 1 {
        1
    } else {
        height
    };
    let longest: i32 = if width < height {
        height
    } else {
        width
    };
    if limit == 0 || longest <= limit {
        return None;
    }
    Some((scale_side(width, longest, limit), scale_side(height, longest, limit)))
}

/// A scaled image is as large as the size allows, and no side of it vanishes.
pub proof fn scaled_images_fill_their_size(width: i32, height: i32, size: u32)
    requires
        scaled(width, height, size) is Some,
        size <= i32::MAX,
    ensures
        ({
            let (wide, high) = scaled(width, height, size)->0;
            &&& 1 <= wide <= size
            &&& 1 <= high <= size
            &&& wide == size || high == size
        }),
{
    let wide: int = if width < 1 {
        1
    } else {
        width as int
    };
    let high: int = if height < 1 {
        1
    } else {
        height as int
    };
    let longest: int = if wide < high {
        high
    } else {
        wide
    };
    lemma_scaled_side(wide, longest, size as int);
    lemma_scaled_side(high, longest, size as int);
}

/// How many images are being fetched once one more is to be.
pub open spec fn slot_taken(slots: u64) -> u64 {
    if slots < COVER_SLOT_LIMIT {
        (slots + 1) as u64
    } else {
        slots
    }
}

/// How many images are being fetched once one was.
pub open spec fn slot_freed(slots: u64) -> u64 {
    if slots > 0 {
        (slots - 1) as u64
    } else {
        0
    }
}

/// No more than a few images are fetched at once, and one that was fetched makes room for
/// another.
pub proof fn few_images_are_fetched_at_once(slots: u64)
    requires
        slots <= COVER_SLOT_LIMIT,
    ensures
        slot_taken(slots) <= COVER_SLOT_LIMIT,
        slot_freed(slots) <= COVER_SLOT_LIMIT,
        slots < COVER_SLOT_LIMIT ==> slot_freed(slot_taken(slots)) == slots,
        slots > 0 ==> slot_taken(slot_freed(slots)) == slots,
{
}

/// Whether a server told that it does not have an item.
pub fn is_provider_not_found_error(error: &str) -> (result: bool)
    ensures
        result == (error@ == PROVIDER_NOT_FOUND@),
{
    text::owned(error).same(&text::owned(PROVIDER_NOT_FOUND))
}

/// Images are kept in three sizes. One of the wanted size or larger is looked for first, the
/// smallest of these before the others; only for the largest does a smaller one stand in.
pub proof fn images_of_the_next_size_are_looked_for_first(size: u32)
    ensures
        size <= 96 ==> sizes_for(size) == seq![96u32, 256u32, 512u32],
        96 < size <= 256 ==> sizes_for(size) == seq![256u32, 512u32],
        size > 256 ==> sizes_for(size) == seq![512u32, 256u32],
{
}

/// An image without a tag of its own is kept under one that stands for that, another under its
/// own.
pub proof fn images_are_kept_under_their_tag(image_ref: ImageRefView, tag: Seq<char>)
    ensures
        kept_tag((ImageRefView { tag: Some(tag), ..image_ref })) == tag,
        kept_tag((ImageRefView { tag: None, ..image_ref })) == IMAGE_TAG_UNTAGGED@,
{
}

/// Images of one item in different sizes are kept apart.
pub proof fn sizes_are_kept_apart(
    server_id: Seq<char>,
    item_id: Seq<char>,
    tag: Seq<char>,
    size: u32,
    other: u32,
)
    requires
        size != other,
    ensures
        cache_key(server_id, item_id, tag, size) != cache_key(server_id, item_id, tag, other),
{
    let front = key_part(server_id) + "/"@ + key_part(item_id) + "-"@ + key_part(tag) + "-"@;
    let left = cache_key(server_id, item_id, tag, size);
    let right = cache_key(server_id, item_id, tag, other);
    let none = Seq::<char>::empty();
    text::lemma_decimal_value(size as nat, none);
    text::lemma_decimal_value(other as nat, none);
    assert(none + text::decimal(size as nat) =~= text::decimal(size as nat));
    assert(none + text::decimal(other as nat) =~= text::decimal(other as nat));
    assert(left.skip(front.len() as int) =~= text::decimal(size as nat));
    assert(right.skip(front.len() as int) =~= text::decimal(other as nat));
}

} // verus!
