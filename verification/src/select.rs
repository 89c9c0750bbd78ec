//! The draw of an index and its place in the paged listing.

use rand::Rng;
use vstd::prelude::*;

verus! {

/// How many wallpapers one page of a listing holds.
pub const IMAGES_PER_PAGE: u32 = 30;

/// The page on which the wallpaper at `index` is looked for: the quotient of
/// `index` by the page size, rounded up. Index 0 gives page 0, the indices
/// from 1 to the page size give page 1, and so on.
pub open spec fn page_of_index(index: nat) -> nat {
    if index % (IMAGES_PER_PAGE as nat) == 0 {
        index / (IMAGES_PER_PAGE as nat)
    } else {
        index / (IMAGES_PER_PAGE as nat) + 1
    }
}

/// The position within its page of the wallpaper at `index`.
pub open spec fn offset_of_index(index: nat) -> nat {
    index % (IMAGES_PER_PAGE as nat)
}

/// The page of an index is the least number of pages that hold `index`
/// wallpapers: that many pages hold at least `index`, and one page fewer
/// holds fewer than `index`.
pub proof fn lemma_page_is_ceiling(index: nat)
    ensures
        page_of_index(index) * IMAGES_PER_PAGE >= index,
        page_of_index(index) > 0 ==> (page_of_index(index) - 1) * IMAGES_PER_PAGE < index,
        index == 0 <==> page_of_index(index) == 0,
{
}

/// Every index above `(page - 1)` full pages and up to `page` full pages is
/// looked for on `page`, and no other index is.
pub proof fn lemma_page_bounds(index: nat, page: nat)
    requires
        page > 0,
    ensures
        page_of_index(index) == page <==> (page - 1) * IMAGES_PER_PAGE < index <= page
            * IMAGES_PER_PAGE,
{
}

/// An index is found again from its page and its offset: on page 0 and where
/// the offset is not 0 the page counts the full pages before the index and
/// one more, at offset 0 of a later page it counts exactly the full pages.
pub proof fn lemma_index_of_page_and_offset(index: nat)
    ensures
        offset_of_index(index) < IMAGES_PER_PAGE,
        offset_of_index(index) == 0 ==> index == page_of_index(index) * IMAGES_PER_PAGE,
        offset_of_index(index) != 0 ==> index == (page_of_index(index) - 1) * IMAGES_PER_PAGE
            + offset_of_index(index),
{
}

/// An index below the page size is its own offset.
pub proof fn lemma_offset_on_first_page(index: nat)
    requires
        index < IMAGES_PER_PAGE,
    ensures
        offset_of_index(index) == index,
{
}

/// The page on which the wallpaper at `index` is looked for.
pub fn page_of(index: u32) -> (page: u32)
    ensures
        page == page_of_index(index as nat),
{
    let full: u32 = index / IMAGES_PER_PAGE;
    if index % IMAGES_PER_PAGE == 0 {
        full
    } else {
        full + 1
    }
}

/// The position within its page of the wallpaper at `index`.
pub fn offset_of(index: u32) -> (offset: usize)
    ensures
        offset == offset_of_index(index as nat),
{
    (index % IMAGES_PER_PAGE) as usize
}

/// Draws an integer with `Rng::gen_range` of the crate `rand`, on the
/// generator that `rand::thread_rng` keeps for the calling thread.
///
/// Trusted: for bounds with `low < high` the call returns, and what it
/// returns is at least `low` and below `high`. Which of these values comes
/// is left open; nothing is claimed of how they are distributed.
#[verifier::external_body]
fn random_in_range(low: u64, high: u64) -> (drawn: u64)
    requires
        low < high,
    ensures
        low <= drawn < high,
{
    rand::thread_rng().gen_range(low, high)
}

/// Draws the index of a wallpaper for a catalog that reports `count`
/// wallpapers. Every integer from 0 up to `count` itself can come out, so
/// for a count of 0 the index is 0.
pub fn draw_index(count: u32) -> (index: u32)
    ensures
        index <= count,
{
    let high: u64 = count as u64 + 1;
    let drawn: u64 = random_in_range(0, high);
    drawn as u32
}

} // verus!
