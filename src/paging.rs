//! How the eligible suppliers are cut into pages.
use vstd::prelude::*;

verus! {

/// The number of pages of `page_size` items that hold `count` items: the
/// least `p` with `p * page_size >= count`.
pub open spec fn page_count_spec(count: nat, page_size: nat) -> nat
    recommends
        page_size > 0,
{
    if count % page_size == 0 { count / page_size } else { count / page_size + 1 }
}

/// Number of pages needed for `count` items, `page_size` to a page.
pub fn page_count(count: u64, page_size: u64) -> (r: u64)
    requires
        page_size > 0,
    ensures
        r == page_count_spec(count as nat, page_size as nat),
{
    let pages = count / page_size;
    if count % page_size > 0 {
        assert(pages * page_size <= count) by (nonlinear_arith)
            requires page_size > 0, pages == count / page_size;
        assert(pages < u64::MAX) by (nonlinear_arith)
            requires page_size >= 2, pages * page_size <= count, count <= u64::MAX;
        pages + 1
    } else {
        pages
    }
}

/// The page count covers every item and leaves no page empty, and there are
/// no pages exactly when there are no items.
pub proof fn page_count_is_ceiling(count: nat, page_size: nat)
    requires
        page_size > 0,
    ensures
        page_count_spec(count, page_size) * page_size >= count,
        page_count_spec(count, page_size) > 0 ==> (page_count_spec(count, page_size) - 1) * page_size < count,
        page_count_spec(count, page_size) == 0 <==> count == 0,
{
    let q = count / page_size;
    let m = count % page_size;
    assert(count == q * page_size + m && m < page_size) by (nonlinear_arith)
        requires page_size > 0, q == count / page_size, m == count % page_size;
    if m == 0 {
        assert(q * page_size == count);
        if q == 0 {
            assert(q * page_size == 0) by (nonlinear_arith) requires q == 0;
        }
        if q > 0 {
            assert((q - 1) * page_size == q * page_size - page_size) by (nonlinear_arith);
        }
    } else {
        assert((q + 1) * page_size == q * page_size + page_size) by (nonlinear_arith);
        assert(q * page_size <= count);
    }
}

/// Pages do not overlap: every item of an earlier page comes before the
/// first item of a later one, so workers on distinct pages never share a
/// supplier.
pub proof fn pages_are_disjoint(page_size: nat, earlier: nat, later: nat)
    requires
        earlier < later,
    ensures
        earlier * page_size + page_size <= later * page_size,
{
    assert(earlier * page_size + page_size <= later * page_size) by (nonlinear_arith)
        requires earlier < later;
}

/// The offset of the first item of page `page_index`, or `None` where it does
/// not fit in 64 bits.
pub fn page_offset(page_size: u64, page_index: u64) -> (r: Option<u64>)
    ensures
        r matches Some(o) ==> o == page_size * page_index,
        r is None <==> page_size * page_index > u64::MAX,
{
    page_size.checked_mul(page_index)
}

} // verus!
