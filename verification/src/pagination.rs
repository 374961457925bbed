//! Paging of the lists the pages show, and the row of page buttons.
use vstd::prelude::*;
use vstd::arithmetic::div_mod::{lemma_fundamental_div_mod, lemma_mod_bound};
use vstd::arithmetic::mul::{lemma_mul_inequality, lemma_mul_is_distributive_add_other_way};

verus! {

/// How many pages a list of `total` items takes with `per_page` items a
/// page: at least one, even for an empty list.
pub open spec fn page_count(total: nat, per_page: nat) -> nat
    recommends
        per_page > 0,
{
    if total == 0 {
        1
    } else if total % per_page == 0 {
        total / per_page
    } else {
        total / per_page + 1
    }
}

/// The items shown on page `page` (counted from 1): the list with the
/// first `(page - 1) * per_page` items skipped, and at most `per_page` taken.
pub open spec fn page_slice<T>(s: Seq<T>, page: nat, per_page: nat) -> Seq<T>
    recommends
        page >= 1,
{
    let start = (page - 1) * per_page;
    if start >= s.len() {
        Seq::empty()
    } else if start + per_page >= s.len() {
        s.subrange(start, s.len() as int)
    } else {
        s.subrange(start, start + per_page)
    }
}

/// The number of pages (`div_ceil`, and 1 for an empty list).
pub fn total_pages(total: usize, per_page: usize) -> (r: usize)
    requires
        per_page > 0,
    ensures
        r == page_count(total as nat, per_page as nat),
        r >= 1,
{
    if total == 0 {
        1
    } else {
        let q = total / per_page;
        if total % per_page == 0 {
            proof {
                lemma_fundamental_div_mod(total as int, per_page as int);
                if q == 0 {
                    assert(per_page * q == 0) by (nonlinear_arith)
                        requires q == 0;
                }
            }
            q
        } else {
            proof {
                lemma_fundamental_div_mod(total as int, per_page as int);
                if per_page == 1 {
                    assert(total % 1 == 0);
                }
                assert(q < total) by (nonlinear_arith)
                    requires total == per_page * q + total % per_page, per_page >= 2, total > 0, q >= 0;
            }
            q + 1
        }
    }
}

/// The items of page `page` (from 1) of `items`, `per_page` a page
/// (`skip((page - 1) * per_page).take(per_page)`).
pub fn page_items<T>(items: Vec<T>, page: usize, per_page: usize) -> (r: Vec<T>)
    requires
        page >= 1,
        (page - 1) * per_page <= usize::MAX,
    ensures
        r@ == page_slice(items@, page as nat, per_page as nat),
{
    let start = (page - 1) * per_page;
    let mut items = items;
    if start >= items.len() {
        return Vec::new();
    }
    let mut rest = items.split_off(start);
    rest.truncate(per_page);
    rest
}

/// Pages `1..=k` of a list, one after the other.
pub open spec fn pages_joined<T>(s: Seq<T>, per_page: nat, k: nat) -> Seq<T>
    decreases k,
{
    if k == 0 {
        Seq::empty()
    } else {
        pages_joined(s, per_page, (k - 1) as nat) + page_slice(s, k, per_page)
    }
}

proof fn lemma_pages_joined_prefix<T>(s: Seq<T>, per_page: nat, k: nat)
    requires
        per_page > 0,
    ensures
        pages_joined(s, per_page, k) == s.take(if k * per_page <= s.len() {
            (k * per_page) as int
        } else {
            s.len() as int
        }),
    decreases k,
{
    if k == 0 {
        assert(s.take(0) =~= Seq::<T>::empty());
    } else {
        let k1 = (k - 1) as nat;
        lemma_pages_joined_prefix(s, per_page, k1);
        let a = k1 * per_page;
        let b = k * per_page;
        assert(b == a + per_page) by (nonlinear_arith)
            requires
                k1 == k - 1,
                k >= 1,
                a == k1 * per_page,
                b == k * per_page,
        ;
        assert((k - 1) * per_page == a);
        let n = s.len();
        if a >= n {
            assert(pages_joined(s, per_page, k) =~= s.take(n as int));
        } else if a + per_page >= n {
            assert(pages_joined(s, per_page, k) =~= s.take(n as int));
        } else {
            assert(pages_joined(s, per_page, k) =~= s.take(b as int));
        }
    }
}

/// Putting the pages of a list one after the other gives back the list:
/// every item stands on exactly one page, in order, and no page holds
/// anything else.
pub proof fn lemma_pages_rebuild_list<T>(s: Seq<T>, per_page: nat)
    requires
        per_page > 0,
    ensures
        pages_joined(s, per_page, page_count(s.len(), per_page)) == s,
{
    let n = s.len();
    let pc = page_count(n, per_page);
    lemma_pages_joined_prefix(s, per_page, pc);
    lemma_fundamental_div_mod(n as int, per_page as int);
    lemma_mod_bound(n as int, per_page as int);
    let q = n / per_page;
    if n == 0 {
        assert(pc * per_page >= n);
    } else if n % per_page == 0 {
        assert(pc * per_page == n) by (nonlinear_arith)
            requires
                pc == q,
                n == per_page * q + n % per_page,
                n % per_page == 0,
        ;
    } else {
        let r = (n % per_page) as int;
        let qi = q as int;
        let p = per_page as int;
        assert(n == p * qi + r);
        assert(r < p);
        assert((qi + 1) * p >= n) by (nonlinear_arith)
            requires
                n == p * qi + r,
                r < p,
        ;
        assert(pc == qi + 1);
    }
    assert(s.take(n as int) =~= s);
}

/// The pages a list is split into hold every item once, in order: item `i`
/// stands on page `i / per_page + 1` at position `i % per_page`, and there
/// are just enough pages for all items.
pub proof fn lemma_pages_cover_list<T>(s: Seq<T>, per_page: nat, i: int)
    requires
        per_page > 0,
        0 <= i < s.len(),
    ensures
        i / (per_page as int) + 1 <= page_count(s.len(), per_page),
        i % (per_page as int) < page_slice(s, (i / (per_page as int) + 1) as nat, per_page).len(),
        page_slice(s, (i / (per_page as int) + 1) as nat, per_page)[i % (per_page as int)] == s[i],
{
    let p = per_page as int;
    let q = i / p;
    let r = i % p;
    lemma_fundamental_div_mod(i, p);
    lemma_mod_bound(i, p);
    assert(q >= 0) by (nonlinear_arith)
        requires q == i / p, i >= 0, p > 0;
    let page = (q + 1) as nat;
    assert((page - 1) * per_page == p * q) by (nonlinear_arith)
        requires page == q + 1, p == per_page;
    let start = p * q;
    assert(start + r == i);
    let n = s.len() as int;
    lemma_fundamental_div_mod(n, p);
    lemma_mod_bound(n, p);
    let nq = n / p;
    assert(q <= nq) by {
        if q > nq {
            lemma_mul_inequality(nq + 1, q, p);
            lemma_mul_is_distributive_add_other_way(p, nq, 1);
            assert(p * (nq + 1) == (nq + 1) * p) by (nonlinear_arith);
            assert(p * q == q * p) by (nonlinear_arith);
        }
    }
    if n % p == 0 {
        assert(q < nq) by {
            if q == nq {
                assert(p * q == n);
            }
        }
    }
}

/// A page that shows some item is one of the list's pages, and a list has
/// at most one page more than whole pages of items.
pub proof fn lemma_nonempty_page_is_a_page(n: nat, per_page: nat, page: nat)
    requires
        per_page > 0,
        page >= 1,
        (page - 1) * per_page < n,
    ensures
        page <= page_count(n, per_page),
        page_count(n, per_page) <= n / per_page + 1,
{
    let p = per_page as int;
    let q = (page - 1) as int;
    lemma_fundamental_div_mod(n as int, p);
    lemma_mod_bound(n as int, p);
    let nq = (n as int) / p;
    assert(nq >= 0) by (nonlinear_arith)
        requires nq == (n as int) / p, n >= 0, p > 0;
    assert(q <= nq) by {
        if q > nq {
            lemma_mul_inequality(nq + 1, q, p);
            assert(p * (nq + 1) == (nq + 1) * p) by (nonlinear_arith);
            assert(p * q == q * p) by (nonlinear_arith);
            assert(p * (nq + 1) == p * nq + p) by (nonlinear_arith);
        }
    }
    if n % per_page == 0 {
        assert(q < nq) by {
            if q == nq {
                assert(q * p == p * q) by (nonlinear_arith);
            }
        }
    }
}

/// The page buttons a list shows: pages `first..=last`, the current page,
/// and whether the previous and next buttons can be used.
#[derive(Debug, Clone)]
pub struct Pager {
    pub pages: Vec<usize>,
    pub current: usize,
    pub prev_enabled: bool,
    pub next_enabled: bool,
}

/// The first page before the window is moved back to hold five pages.
pub open spec fn window_base(current: int) -> int {
    if current <= 3 {
        1
    } else {
        current - 2
    }
}

/// The last page button shown.
pub open spec fn window_last(current: int, total: int) -> int {
    if window_base(current) + 4 <= total {
        window_base(current) + 4
    } else {
        total
    }
}

/// The first page button shown: near the end the window starts earlier, so
/// that five buttons show when there are five pages or more.
pub open spec fn window_first(current: int, total: int) -> int {
    let base = window_base(current);
    let last = window_last(current, total);
    if last - base < 4 && last >= 5 {
        if last - 4 >= 1 {
            last - 4
        } else {
            1
        }
    } else {
        base
    }
}

/// `p` is the row of page buttons for page `current` of `total` pages: the
/// consecutive pages `window_first..=window_last`, and the previous and next
/// buttons usable when there is a page before or after the current one.
pub open spec fn is_pager_for(p: Pager, current: int, total: int) -> bool {
    &&& p.current == current
    &&& p.prev_enabled == (current > 1)
    &&& p.next_enabled == (current < total)
    &&& p.pages@.len() == window_last(current, total) - window_first(current, total) + 1
    &&& forall|k: int| 0 <= k < p.pages@.len() ==> #[trigger] p.pages@[k] == window_first(current, total) + k
}

/// The page buttons are pages of the list, at most five of them, and they
/// hold the current page when it is one of the list's pages.
pub proof fn lemma_window_bounds(current: int, total: int)
    requires
        total >= 1,
        0 <= current <= total + 2,
    ensures
        1 <= window_first(current, total) <= window_last(current, total) <= total,
        window_last(current, total) - window_first(current, total) + 1 <= 5,
        1 <= current <= total ==> window_first(current, total) <= current <= window_last(current, total),
{
}

/// The row of page buttons for page `current` of `total` pages.
pub fn pager(current: usize, total: usize) -> (r: Pager)
    requires
        total >= 1,
        current <= total + 2,
    ensures
        is_pager_for(r, current as int, total as int),
{
    let start_page: usize = if current <= 3 { 1 } else { current - 2 };
    let end_page: usize = if total >= 4 && start_page <= total - 4 { start_page + 4 } else { total };
    let actual_start: usize = if end_page - start_page < 4 && end_page >= 5 {
        if end_page - 4 >= 1 { end_page - 4 } else { 1 }
    } else {
        start_page
    };
    let mut pages: Vec<usize> = Vec::new();
    let mut p = actual_start;
    loop
        invariant_except_break
            actual_start <= p <= end_page,
            pages@.len() == p - actual_start,
            forall|k: int| 0 <= k < pages@.len() ==> pages@[k] == actual_start + k,
        ensures
            pages@.len() == end_page - actual_start + 1,
            forall|k: int| 0 <= k < pages@.len() ==> pages@[k] == actual_start + k,
        decreases end_page - p,
    {
        pages.push(p);
        if p == end_page {
            break;
        }
        p = p + 1;
    }
    Pager { pages, current, prev_enabled: current > 1, next_enabled: current < total }
}

/// Page `current_page` of a list, `per_page` items a page, with its page
/// buttons when the page shows any item.
pub fn paged<T>(items: Vec<T>, current_page: usize, per_page: usize) -> (r: (Vec<T>, Option<Pager>))
    requires
        per_page > 0,
        current_page >= 1,
        (current_page - 1) * per_page <= usize::MAX,
    ensures
        r.0@ == page_slice(items@, current_page as nat, per_page as nat),
        r.0@.len() > 0 ==> (r.1 matches Some(p) && is_pager_for(
            p,
            current_page as int,
            page_count(items@.len(), per_page as nat) as int,
        )),
        r.0@.len() == 0 ==> r.1 is None,
{
    let total = items.len();
    let ghost all = items@;
    let pages = total_pages(total, per_page);
    let shown = page_items(items, current_page, per_page);
    if shown.len() > 0 {
        proof {
            lemma_nonempty_page_is_a_page(all.len(), per_page as nat, current_page as nat);
        }
        let p = pager(current_page, pages);
        (shown, Some(p))
    } else {
        (shown, None)
    }
}

/// The page the previous button leads to.
pub fn prev_page(current: usize) -> (r: usize)
    ensures
        r == (if current > 1 { current - 1 } else { current as int }),
{
    if current > 1 { current - 1 } else { current }
}

/// The page the next button leads to.
pub fn next_page(current: usize, total: usize) -> (r: usize)
    ensures
        r == (if current < total { current + 1 } else { current as int }),
{
    if current < total { current + 1 } else { current }
}

} // verus!
