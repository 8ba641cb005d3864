//! Offset-based pagination over a filtered collection.
//!
//! Both the post listing and the user listing paths share these rules: a
//! page size between 10 and 100, pages starting at 1, and a page count that
//! is the ceiling of the item count over the page size.

use vstd::prelude::*;

use crate::errors::AppError;

verus! {

/// Page sizes must lie in `[10, 100]` and pages start at 1.
pub open spec fn valid_page_params(page: u32, page_size: u32) -> bool {
    &&& page >= 1
    &&& 10 <= page_size <= 100
}

/// Number of pages needed for `total_count` items: 0 for an empty
/// collection, the ceiling of `total_count / page_size` otherwise.
pub open spec fn spec_total_pages(total_count: nat, page_size: nat) -> nat
    recommends
        page_size > 0,
{
    if total_count == 0 {
        0
    } else {
        ((total_count + page_size - 1) / page_size as int) as nat
    }
}

/// Index of the first item of a page.
pub open spec fn spec_offset(page: nat, page_size: nat) -> nat
    recommends
        page >= 1,
{
    ((page - 1) * page_size) as nat
}

/// Rejects out-of-range paging parameters before anything is fetched.
pub fn validate_page_params(page: u32, page_size: u32) -> (r: Result<(), AppError>)
    ensures
        r is Ok <==> valid_page_params(page, page_size),
        r matches Err(e) ==> e is InvalidArgument,
{
    if page == 0 || page_size < 10 || page_size > 100 {
        Err(AppError::InvalidArgument)
    } else {
        Ok(())
    }
}

/// Computes the page count for a listing.
pub fn total_pages(total_count: u32, page_size: u32) -> (r: u32)
    requires
        page_size >= 1,
    ensures
        r == spec_total_pages(total_count as nat, page_size as nat),
{
    if total_count == 0 {
        0
    } else {
        let wide: u64 = (total_count as u64 + page_size as u64 - 1) / page_size as u64;
        proof {
            assert(wide == spec_total_pages(total_count as nat, page_size as nat));
            assert(wide <= total_count) by (nonlinear_arith)
                requires
                    page_size >= 1,
                    total_count >= 1,
                    wide == ((total_count + page_size - 1) as int) / (page_size as int),
            ;
        }
        wide as u32
    }
}

/// Whether a further page follows the current one.
pub fn has_next(total_pages: u32, page: u32) -> (r: bool)
    ensures
        r == (total_pages > page),
{
    total_pages > page
}

/// The items of one page: the slice of the collection starting at
/// `(page - 1) * page_size`, at most `page_size` long.
pub open spec fn spec_page_items<T>(items: Seq<T>, page: nat, page_size: nat) -> Seq<T>
    recommends
        page >= 1,
        page_size > 0,
{
    let off = spec_offset(page, page_size);
    if off >= items.len() {
        Seq::empty()
    } else if off + page_size >= items.len() {
        items.subrange(off as int, items.len() as int)
    } else {
        items.subrange(off as int, (off + page_size) as int)
    }
}

/// The ceiling property of the page count, and the page where the listing
/// runs out: every page before `total_pages` is full or partial, and a
/// further page exists exactly while `total_pages > page`.
pub proof fn lemma_total_pages_ceil(total_count: nat, page_size: nat)
    requires
        page_size > 0,
    ensures
        total_count > 0 ==> spec_total_pages(total_count, page_size) * page_size
            >= total_count,
        total_count > 0 ==> (spec_total_pages(total_count, page_size) - 1) * page_size
            < total_count,
        total_count == 0 ==> spec_total_pages(total_count, page_size) == 0,
{
    if total_count > 0 {
        let tp = spec_total_pages(total_count, page_size);
        assert(tp == ((total_count + page_size - 1) / page_size as int));
        assert(tp * page_size >= total_count && (tp - 1) * page_size < total_count)
            by (nonlinear_arith)
            requires
                page_size > 0,
                total_count > 0,
                tp == ((total_count + page_size - 1) as int) / (page_size as int),
        ;
    }
}

/// Pages 1 through `upto`, one after the other.
pub open spec fn pages_concat<T>(items: Seq<T>, upto: nat, page_size: nat) -> Seq<T>
    decreases upto,
{
    if upto == 0 {
        Seq::empty()
    } else {
        pages_concat(items, (upto - 1) as nat, page_size) + spec_page_items(
            items,
            upto,
            page_size,
        )
    }
}

/// The first `k` pages are the first `k * page_size` items.
proof fn lemma_pages_prefix<T>(items: Seq<T>, k: nat, page_size: nat)
    requires
        page_size > 0,
    ensures
        pages_concat(items, k, page_size) == if k * page_size >= items.len() {
            items
        } else {
            items.subrange(0, (k * page_size) as int)
        },
    decreases k,
{
    if k == 0 {
        if items.len() > 0 {
            assert(items.subrange(0, 0) =~= Seq::<T>::empty());
        } else {
            assert(items =~= Seq::<T>::empty());
        }
    } else {
        lemma_pages_prefix(items, (k - 1) as nat, page_size);
        let off = spec_offset(k, page_size);
        assert(off == (k - 1) * page_size);
        assert(k * page_size == (k - 1) * page_size + page_size) by (nonlinear_arith);
        let prev = pages_concat(items, (k - 1) as nat, page_size);
        let page = spec_page_items(items, k, page_size);
        if off >= items.len() {
            assert(prev == items);
            assert(prev + page =~= items);
        } else if off + page_size >= items.len() {
            assert(prev == items.subrange(0, off as int));
            assert(prev + page =~= items);
        } else {
            assert(prev == items.subrange(0, off as int));
            assert(prev + page =~= items.subrange(0, (k * page_size) as int));
        }
    }
}

/// Walking pages 1, 2, ... while `totalPages > page` visits every item
/// once: the pages of a listing, taken in order up to the page count,
/// are the listing itself.
pub proof fn lemma_pages_cover<T>(items: Seq<T>, page_size: nat)
    requires
        page_size > 0,
    ensures
        pages_concat(items, spec_total_pages(items.len(), page_size), page_size) == items,
{
    lemma_total_pages_ceil(items.len(), page_size);
    let tp = spec_total_pages(items.len(), page_size);
    lemma_pages_prefix(items, tp, page_size);
    if items.len() == 0 {
        assert(pages_concat(items, tp, page_size) =~= items);
    }
}

/// A page holds items exactly while pages remain: page `p` of a listing is
/// non-empty if and only if `p <= total_pages`, so a reader advancing while
/// `total_pages > page` sees every item.
pub proof fn lemma_page_exhaustion<T>(items: Seq<T>, page: nat, page_size: nat)
    requires
        page >= 1,
        page_size > 0,
    ensures
        spec_page_items(items, page, page_size).len() > 0 <==> page <= spec_total_pages(
            items.len(),
            page_size,
        ),
{
    lemma_total_pages_ceil(items.len(), page_size);
    let tp = spec_total_pages(items.len(), page_size);
    let off = spec_offset(page, page_size);
    if items.len() == 0 {
    } else {
        assert(off < items.len() <==> page <= tp) by (nonlinear_arith)
            requires
                page >= 1,
                page_size > 0,
                items.len() > 0,
                off == (page - 1) * page_size,
                tp * page_size >= items.len(),
                (tp - 1) * page_size < items.len(),
                tp == ((items.len() + page_size - 1) as int) / (page_size as int),
        ;
    }
}

} // verus!
