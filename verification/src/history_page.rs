//! Paging of the Show History timeline: which history rows a page shows, newest first, and
//! the paging metadata returned with it.
use vstd::prelude::*;

verus! {

/// At most this many history rows are considered, newest first.
pub const MAX_HISTORY_SCAN: u32 = 10000;

/// What paging reads of a history row: when it changed (an order-preserving integer) and its
/// history-table kind (`None` when the row has no id).
pub struct HistoryRowMeta {
    pub changed_at: i64,
    pub kind: Option<String>,
}

/// What a page of history is made of.
pub struct HistoryPagePlan {
    /// Indices into the rows, newest first, of the rows to map into views (up to one more
    /// than the limit, to learn whether more follow).
    pub rows: Vec<usize>,
    /// How many of the mapped views the page returns.
    pub keep: usize,
    /// Whether rows remain after the returned ones.
    pub has_more: bool,
    /// Number of rows considered (after the kind filter and the scan cap).
    pub total_count: u64,
    /// Offset of the next page: `offset` plus the rows returned, saturating.
    pub next_request_offset: u32,
}

/// The kind filter as sequences of characters.
pub open spec fn kinds_view(kinds: Option<Vec<String>>) -> Option<Seq<Seq<char>>> {
    match kinds {
        Some(ks) => Some(ks@.map_values(|k: String| k@)),
        None => None,
    }
}

/// Whether row `i` passes the kind filter: every row passes when there is no filter, else
/// rows with an id whose kind is one of the filter's kinds.
pub open spec fn row_selected(rows: Seq<HistoryRowMeta>, kinds: Option<Seq<Seq<char>>>, i: int) -> bool {
    match kinds {
        None => true,
        Some(ks) => rows[i].kind matches Some(k) && ks.contains(k@),
    }
}

/// Row `a` comes before row `b`: it changed later, or at the same time and comes first in
/// the input (the newest-first sort is stable).
pub open spec fn comes_before(rows: Seq<HistoryRowMeta>, a: int, b: int) -> bool {
    rows[a].changed_at > rows[b].changed_at || (rows[a].changed_at == rows[b].changed_at && a < b)
}

/// `o` lists exactly the selected rows, newest first.
pub open spec fn is_history_order(rows: Seq<HistoryRowMeta>, kinds: Option<Seq<Seq<char>>>, o: Seq<usize>) -> bool {
    &&& forall|x: usize| #[trigger] o.contains(x) <==> (x < rows.len() && row_selected(rows, kinds, x as int))
    &&& forall|i: int, j: int| 0 <= i < j < o.len() ==> comes_before(rows, #[trigger] o[i] as int, #[trigger] o[j] as int)
}

/// The selected rows, newest first (the one sequence satisfying [`is_history_order`]).
pub open spec fn history_order(rows: Seq<HistoryRowMeta>, kinds: Option<Seq<Seq<char>>>) -> Seq<usize> {
    choose|o: Seq<usize>| is_history_order(rows, kinds, o)
}

/// The shape of one page over `n` ordered rows.
pub ghost struct PageShape {
    /// Rows considered: the first `min(n, MAX_HISTORY_SCAN)`.
    pub total: int,
    /// First row fetched.
    pub start: int,
    /// One past the last row fetched: the page fetches `limit + 1` rows at most.
    pub end: int,
    /// Rows returned: those fetched, but at most `limit`.
    pub keep: int,
    /// Whether more rows follow the page.
    pub has_more: bool,
    /// `offset + keep`, saturating at `u32::MAX`: the next page starts right after the
    /// rows returned.
    pub next: int,
}

/// `a + b` saturating at `u32::MAX`.
pub open spec fn sat_add_u32(a: int, b: int) -> int {
    if a + b > u32::MAX { u32::MAX as int } else { a + b }
}

/// The smaller of two integers.
pub open spec fn min_int(a: int, b: int) -> int {
    if a < b { a } else { b }
}

/// The page at `offset` with `limit` rows over `n` ordered rows.
pub open spec fn page_shape(n: int, offset: u32, limit: u32) -> PageShape {
    let total = min_int(n, MAX_HISTORY_SCAN as int);
    let start = min_int(offset as int, total);
    let end = min_int(offset + limit + 1, total);
    let fetched = end - start;
    let keep = min_int(fetched, limit as int);
    PageShape {
        total,
        start,
        end,
        keep,
        has_more: fetched > limit || sat_add_u32(offset as int, keep) < total,
        next: sat_add_u32(offset as int, keep),
    }
}

/// Two orders of the same rows are the same sequence.
pub proof fn lemma_history_order_unique(
    rows: Seq<HistoryRowMeta>,
    kinds: Option<Seq<Seq<char>>>,
    o1: Seq<usize>,
    o2: Seq<usize>,
)
    requires
        is_history_order(rows, kinds, o1),
        is_history_order(rows, kinds, o2),
    ensures
        o1 == o2,
{
    lemma_sorted_same_elements(rows, o1, o2);
}

proof fn lemma_sorted_same_elements(rows: Seq<HistoryRowMeta>, o1: Seq<usize>, o2: Seq<usize>)
    requires
        forall|x: usize| #[trigger] o1.contains(x) <==> o2.contains(x),
        forall|i: int, j: int| 0 <= i < j < o1.len() ==> comes_before(rows, #[trigger] o1[i] as int, #[trigger] o1[j] as int),
        forall|i: int, j: int| 0 <= i < j < o2.len() ==> comes_before(rows, #[trigger] o2[i] as int, #[trigger] o2[j] as int),
    ensures
        o1 == o2,
    decreases o1.len(),
{
    if o1.len() == 0 {
        assert(o2.len() == 0) by {
            if o2.len() > 0 {
                assert(o2.contains(o2[0]));
                assert(o1.contains(o2[0]));
            }
        }
        assert(o1 =~= o2);
    } else {
        assert(o1.contains(o1[0]));
        assert(o2.len() > 0);
        assert(o2.contains(o2[0]));
        let a = o1[0];
        let b = o2[0];
        assert(o1.contains(b));
        assert(o2.contains(a));
        if a != b {
            let k1 = choose|k: int| 0 <= k < o1.len() && o1[k] == b;
            let k2 = choose|k: int| 0 <= k < o2.len() && o2[k] == a;
            assert(k1 > 0);
            assert(k2 > 0);
            assert(comes_before(rows, o1[0] as int, o1[k1] as int));
            assert(comes_before(rows, o2[0] as int, o2[k2] as int));
        }
        let t1 = o1.drop_first();
        let t2 = o2.drop_first();
        assert forall|x: usize| #[trigger] t1.contains(x) <==> t2.contains(x) by {
            if t1.contains(x) {
                let k = choose|k: int| 0 <= k < t1.len() && t1[k] == x;
                assert(o1[k + 1] == x);
                assert(comes_before(rows, o1[0] as int, o1[k + 1] as int));
                assert(x != a);
                assert(o1.contains(x));
                let m = choose|m: int| 0 <= m < o2.len() && o2[m] == x;
                assert(m != 0);
                assert(t2[m - 1] == x);
            }
            if t2.contains(x) {
                let k = choose|k: int| 0 <= k < t2.len() && t2[k] == x;
                assert(o2[k + 1] == x);
                assert(comes_before(rows, o2[0] as int, o2[k + 1] as int));
                assert(x != b);
                assert(o2.contains(x));
                assert(o1.contains(x));
                let m = choose|m: int| 0 <= m < o1.len() && o1[m] == x;
                assert(m != 0);
                assert(t1[m - 1] == x);
            }
        }
        assert forall|i: int, j: int| 0 <= i < j < t1.len() implies comes_before(rows, #[trigger] t1[i] as int, #[trigger] t1[j] as int) by {
            assert(t1[i] == o1[i + 1] && t1[j] == o1[j + 1]);
        }
        assert forall|i: int, j: int| 0 <= i < j < t2.len() implies comes_before(rows, #[trigger] t2[i] as int, #[trigger] t2[j] as int) by {
            assert(t2[i] == o2[i + 1] && t2[j] == o2[j + 1]);
        }
        lemma_sorted_same_elements(rows, t1, t2);
        assert(o1 =~= seq![a] + t1);
        assert(o2 =~= seq![b] + t2);
    }
}

/// What a page is, over `n` selected rows in order: every page considers the same rows, the
/// first `min(n, MAX_HISTORY_SCAN)` whatever its offset and limit; it starts at `offset` (or at
/// the end, when `offset` is past it); it returns up to `limit` of the rows that follow and
/// fetches at most one more; and the next page starts after the rows it returned.
pub proof fn lemma_page_shape_law(n: nat, offset: u32, limit: u32, other_offset: u32, other_limit: u32)
    ensures
        ({
            let s = page_shape(n as int, offset, limit);
            let cap = MAX_HISTORY_SCAN as int;
            &&& s.total == (if n < cap { n as int } else { cap })
            &&& s.total == page_shape(n as int, other_offset, other_limit).total
            &&& s.start == (if offset <= s.total { offset as int } else { s.total })
            &&& s.keep == (if limit <= s.total - s.start { limit as int } else { s.total - s.start })
            &&& s.end == (if s.start + limit + 1 <= s.total { s.start + limit + 1 } else { s.total })
            &&& (s.has_more <==> s.start + s.keep < s.total)
            &&& s.next == (if offset + s.keep <= u32::MAX { offset + s.keep } else { u32::MAX as int })
        }),
{
}

/// The order lists each row at most once, exactly the rows whose kind the filter names (all
/// rows without a filter; never a row without an id under a filter), newer rows first and
/// rows changed at the same time in input order.
pub proof fn lemma_history_order_law(rows: Seq<HistoryRowMeta>, kinds: Option<Seq<Seq<char>>>, x: usize, i: int, j: int)
    requires
        is_history_order(rows, kinds, history_order(rows, kinds)),
    ensures
        ({
            let o = history_order(rows, kinds);
            &&& o.contains(x) <==> (x < rows.len() && match kinds {
                None => true,
                Some(ks) => rows[x as int].kind is Some && ks.contains(rows[x as int].kind->0@),
            })
            &&& (0 <= i < j < o.len() ==> o[i] != o[j]
                && rows[o[i] as int].changed_at >= rows[o[j] as int].changed_at
                && (rows[o[i] as int].changed_at == rows[o[j] as int].changed_at ==> o[i] < o[j]))
        }),
{
    let o = history_order(rows, kinds);
    if 0 <= i < j < o.len() {
        assert(comes_before(rows, o[i] as int, o[j] as int));
    }
    if o.contains(x) {
        assert(row_selected(rows, kinds, x as int));
    }
}

/// A page reports more rows exactly when rows remain after the ones it returns.
pub proof fn lemma_has_more_iff_rows_remain(n: nat, offset: u32, limit: u32)
    ensures
        page_shape(n as int, offset, limit).has_more <==> ({
            let s = page_shape(n as int, offset, limit);
            s.start + s.keep < s.total
        }),
{
}

/// The page requested at a page's `next_request_offset` starts right after the rows that
/// page returned, so paging by it neither skips nor repeats rows.
pub proof fn lemma_consecutive_pages_adjacent(n: nat, offset: u32, limit: u32, next_limit: u32)
    ensures
        ({
            let s1 = page_shape(n as int, offset, limit);
            let s2 = page_shape(n as int, s1.next as u32, next_limit);
            s2.start == s1.start + s1.keep
        }),
{
}

/// Paging from offset 0 by `next_request_offset` until `has_more` is false returns every
/// considered row once: the pages' returned rows are consecutive windows of the order, and
/// the last page ends at `total`.
pub proof fn lemma_last_page_reaches_end(n: nat, offset: u32, limit: u32)
    ensures
        ({
            let s = page_shape(n as int, offset, limit);
            !s.has_more ==> s.start + s.keep == s.total
        }),
        ({
            let s = page_shape(n as int, offset, limit);
            offset <= s.total ==> s.next == s.start + s.keep
        }),
{
}

/// A page returns at most `limit` rows, all fetched, and never reaches past the scan cap.
pub proof fn lemma_page_bounds(n: nat, offset: u32, limit: u32)
    ensures
        ({
            let s = page_shape(n as int, offset, limit);
            &&& 0 <= s.keep <= limit
            &&& s.start + s.keep <= s.end <= s.total <= MAX_HISTORY_SCAN
            &&& s.end - s.start <= limit + 1
        }),
{
}

/// Within a page, rows come newest first.
pub proof fn lemma_page_newest_first(rows: Seq<HistoryRowMeta>, kinds: Option<Seq<Seq<char>>>, offset: u32, limit: u32, i: int, j: int)
    requires
        is_history_order(rows, kinds, history_order(rows, kinds)),
        ({
            let s = page_shape(history_order(rows, kinds).len() as int, offset, limit);
            0 <= i < j < s.end - s.start
        }),
    ensures
        ({
            let o = history_order(rows, kinds);
            let s = page_shape(o.len() as int, offset, limit);
            let page = o.subrange(s.start, s.end);
            rows[page[i] as int].changed_at >= rows[page[j] as int].changed_at
        }),
{
    let o = history_order(rows, kinds);
    let s = page_shape(o.len() as int, offset, limit);
    assert(comes_before(rows, o[s.start + i] as int, o[s.start + j] as int));
}

/// Whether row `i` passes the kind filter.
fn row_passes(rows: &Vec<HistoryRowMeta>, kinds: &Option<Vec<String>>, i: usize) -> (r: bool)
    requires
        i < rows.len(),
    ensures
        r == row_selected(rows@, kinds_view(*kinds), i as int),
{
    match kinds {
        None => true,
        Some(ks) => match &rows[i].kind {
            None => false,
            Some(k) => {
                let ghost kv = match kinds_view(*kinds) {
                    Some(v) => v,
                    None => Seq::empty(),
                };
                let mut j: usize = 0;
                while j < ks.len()
                    invariant
                        j <= ks.len(),
                        kinds_view(*kinds) == Some(kv),
                        i < rows.len(),
                        rows@[i as int].kind == Some(*k),
                        kv.len() == ks@.len(),
                        forall|m: int| 0 <= m < kv.len() ==> #[trigger] kv[m] == ks@[m]@,
                        forall|m: int| 0 <= m < j ==> kv[m] != k@,
                    decreases ks.len() - j,
                {
                    if ks[j] == *k {
                        assert(kv[j as int] == k@);
                        assert(kv.contains(k@));
                        return true;
                    }
                    j = j + 1;
                }
                assert(!kv.contains(k@));
                false
            },
        },
    }
}

/// The selected rows, newest first.
fn order_rows(rows: &Vec<HistoryRowMeta>, kinds: &Option<Vec<String>>) -> (o: Vec<usize>)
    ensures
        is_history_order(rows@, kinds_view(*kinds), o@),
{
    let ghost kv = kinds_view(*kinds);
    let n = rows.len();
    let mut sorted: Vec<usize> = Vec::new();
    let mut i: usize = 0;
    while i < n
        invariant
            n == rows.len(),
            kv == kinds_view(*kinds),
            i <= n,
            forall|x: usize| #[trigger] sorted@.contains(x) <==> (x < i && row_selected(rows@, kv, x as int)),
            forall|a: int, b: int| 0 <= a < b < sorted@.len() ==> comes_before(rows@, #[trigger] sorted@[a] as int, #[trigger] sorted@[b] as int),
        decreases n - i,
    {
        if row_passes(rows, kinds, i) {
            let key = rows[i].changed_at;
            let mut p: usize = 0;
            assert forall|a: int| 0 <= a < sorted@.len() implies (#[trigger] sorted@[a]) < i by {
                assert(sorted@.contains(sorted@[a]));
            }
            while p < sorted.len() && rows[sorted[p]].changed_at >= key
                invariant
                    n == rows.len(),
                    i < n,
                    key == rows@[i as int].changed_at,
                    p <= sorted.len(),
                    forall|x: usize| #[trigger] sorted@.contains(x) ==> x < i,
                    forall|a: int| 0 <= a < sorted@.len() ==> (#[trigger] sorted@[a]) < i,
                    forall|a: int| 0 <= a < p ==> rows@[#[trigger] sorted@[a] as int].changed_at >= key,
                decreases sorted.len() - p,
            {
                assert(sorted@.contains(sorted@[p as int]));
                p = p + 1;
            }
            let ghost old_sorted = sorted@;
            sorted.insert(p, i);
            proof {
                assert forall|x: usize| #[trigger] sorted@.contains(x) <==> (x < i + 1 && row_selected(rows@, kv, x as int)) by {
                    if sorted@.contains(x) {
                        let k = choose|k: int| 0 <= k < sorted@.len() && sorted@[k] == x;
                        if k < p {
                            assert(old_sorted[k] == x);
                            assert(old_sorted.contains(x));
                        } else if k > p {
                            assert(old_sorted[k - 1] == x);
                            assert(old_sorted.contains(x));
                        }
                    }
                    if x < i + 1 && row_selected(rows@, kv, x as int) {
                        if x == i {
                            assert(sorted@[p as int] == x);
                        } else {
                            assert(old_sorted.contains(x));
                            let k = choose|k: int| 0 <= k < old_sorted.len() && old_sorted[k] == x;
                            if k < p {
                                assert(sorted@[k] == x);
                            } else {
                                assert(sorted@[k + 1] == x);
                            }
                        }
                    }
                }
                assert forall|a: int, b: int| 0 <= a < b < sorted@.len() implies comes_before(rows@, #[trigger] sorted@[a] as int, #[trigger] sorted@[b] as int) by {
                    if a < p && b < p {
                        assert(comes_before(rows@, old_sorted[a] as int, old_sorted[b] as int));
                    } else if a < p && b == p {
                        assert(old_sorted.contains(old_sorted[a]));
                        assert(old_sorted[a] < i);
                    } else if a < p {
                        assert(comes_before(rows@, old_sorted[a] as int, old_sorted[b - 1] as int));
                    } else if a == p {
                        if p < old_sorted.len() {
                            assert(rows@[old_sorted[p as int] as int].changed_at < key);
                            if b - 1 > p {
                                assert(comes_before(rows@, old_sorted[p as int] as int, old_sorted[b - 1] as int));
                            }
                        }
                    } else {
                        assert(comes_before(rows@, old_sorted[a - 1] as int, old_sorted[b - 1] as int));
                    }
                }
            }
        } else {
            proof {
                assert forall|x: usize| #[trigger] sorted@.contains(x) <==> (x < i + 1 && row_selected(rows@, kv, x as int)) by {
                    if x == i {
                        assert(!row_selected(rows@, kv, x as int));
                    }
                }
            }
        }
        i = i + 1;
    }
    sorted
}

/// The page at `offset` of at most `limit` rows, over the history rows that pass the kind
/// filter, newest first, capped at [`MAX_HISTORY_SCAN`] rows. `offset` and `limit` are the
/// already clamped paging request.
pub fn plan_history_page(rows: &Vec<HistoryRowMeta>, offset: u32, limit: u32, kinds: &Option<Vec<String>>) -> (r: HistoryPagePlan)
    ensures
        ({
            let o = history_order(rows@, kinds_view(*kinds));
            let s = page_shape(o.len() as int, offset, limit);
            &&& r.rows@ == o.subrange(s.start, s.end)
            &&& r.keep == s.keep
            &&& r.has_more == s.has_more
            &&& r.total_count == s.total
            &&& r.next_request_offset == s.next
        }),
        is_history_order(rows@, kinds_view(*kinds), history_order(rows@, kinds_view(*kinds))),
{
    let sorted = order_rows(rows, kinds);
    proof {
        lemma_history_order_unique(rows@, kinds_view(*kinds), sorted@, history_order(rows@, kinds_view(*kinds)));
    }
    let total: usize = if sorted.len() < 10000 { sorted.len() } else { 10000 };
    let start: usize = if (offset as usize) < total { offset as usize } else { total };
    let want: u64 = offset as u64 + limit as u64 + 1;
    let end: usize = if want < total as u64 { want as usize } else { total };
    let mut page: Vec<usize> = Vec::new();
    let mut k = start;
    while k < end
        invariant
            start <= k <= end <= total <= sorted.len(),
            page@ == sorted@.subrange(start as int, k as int),
        decreases end - k,
    {
        page.push(sorted[k]);
        assert(sorted@.subrange(start as int, k + 1) == sorted@.subrange(start as int, k as int).push(sorted@[k as int]));
        k = k + 1;
    }
    let fetched: usize = end - start;
    let keep: usize = if fetched < limit as usize { fetched } else { limit as usize };
    let seen: u64 = offset as u64 + keep as u64;
    let seen32: u32 = if seen > u32::MAX as u64 { u32::MAX } else { seen as u32 };
    let has_more = fetched > limit as usize || seen32 < total as u32;
    let next: u64 = offset as u64 + keep as u64;
    let next32: u32 = if next > u32::MAX as u64 { u32::MAX } else { next as u32 };
    HistoryPagePlan {
        rows: page,
        keep,
        has_more,
        total_count: total as u64,
        next_request_offset: next32,
    }
}

} // verus!
