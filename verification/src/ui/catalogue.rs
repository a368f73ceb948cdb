//! Filtering, ordering and paging over a catalogue held in memory.
//!
//! Every function here answers the same question as a query of the
//! database layer (`WHERE` on name, unit and low stock; `ORDER BY name`;
//! `LIMIT`/`OFFSET` with the page clamped to the last one), so the two ways
//! of feeding a screen show the shopkeeper the same rows.
//!
//! Listings are returned as positions into the slice they were given: the
//! caller keeps the full records and picks them out by position.
use vstd::prelude::*;
use crate::models::Unit;
use crate::text::{
    contains_text, lex_less, lemma_lex_total, lemma_lex_transitive, lemma_lex_asymmetric,
    lowercase, same_text, spec_contains, spec_lowercase, spec_trim, text_less, trim,
};

verus! {

/// What the catalogue screens read of one stocked item.
///
/// `low_stock` says the stock is strictly below the item's threshold;
/// `urgency` orders low items by how far below it they are (smaller is
/// more urgent, equal values are equally urgent).
pub struct CatalogueEntry {
    pub name: String,
    pub unit: String,
    pub low_stock: bool,
    pub urgency: u64,
}

/// The Inventory screen's filters: a case-insensitive substring of the
/// name (a blank query matches every name), the unit, and "low stock only".
pub open spec fn spec_matches(
    e: CatalogueEntry,
    query: Seq<char>,
    unit: Option<Unit>,
    low_stock_only: bool,
) -> bool {
    let q = spec_trim(query);
    &&& (q.len() == 0 || spec_contains(spec_lowercase(e.name@), spec_lowercase(q)))
    &&& (unit matches Some(u) ==> e.unit@ == u.spec_name())
    &&& (low_stock_only ==> e.low_stock)
}

/// Does `entry` pass the Inventory screen's filters?
pub fn matches(entry: &CatalogueEntry, query: &str, unit: Option<Unit>, low_stock_only: bool) -> (r: bool)
    ensures
        r == spec_matches(*entry, query@, unit, low_stock_only),
{
    let q = trim(query);
    if q.unicode_len() > 0 {
        let name = lowercase(entry.name.as_str());
        let folded = lowercase(q);
        if !contains_text(name.as_str(), folded.as_str()) {
            return false;
        }
    }
    match unit {
        Some(u) => {
            if !same_text(entry.unit.as_str(), u.as_str()) {
                return false;
            }
        },
        None => {},
    }
    if low_stock_only && !entry.low_stock {
        return false;
    }
    true
}

/// The two orders a listing is shown in.
#[derive(Clone, Copy, PartialEq, Eq, Debug)]
pub enum ListOrder {
    /// In the order the entries were given.
    AsGiven,
    /// By name, character by character.
    ByName,
    /// Most urgent restock first, then by name.
    ByUrgency,
}

/// Entries with equal names keep the order they were given in.
pub open spec fn name_precedes(entries: Seq<CatalogueEntry>, i: int, j: int) -> bool {
    ||| lex_less(entries[i].name@, entries[j].name@)
    ||| (entries[i].name@ == entries[j].name@ && i < j)
}

/// Position `i` is listed before position `j` under `order`.
pub open spec fn precedes(entries: Seq<CatalogueEntry>, order: ListOrder, i: int, j: int) -> bool {
    match order {
        ListOrder::AsGiven => i < j,
        ListOrder::ByName => name_precedes(entries, i, j),
        ListOrder::ByUrgency => {
            ||| entries[i].urgency < entries[j].urgency
            ||| (entries[i].urgency == entries[j].urgency && name_precedes(entries, i, j))
        },
    }
}

/// Any two different positions are ordered one way or the other.
pub proof fn lemma_precedes_total(entries: Seq<CatalogueEntry>, order: ListOrder, i: int, j: int)
    requires
        i != j,
    ensures
        precedes(entries, order, i, j) || precedes(entries, order, j, i),
{
    lemma_lex_total(entries[i].name@, entries[j].name@);
}

/// No position is listed both before and after another.
pub proof fn lemma_precedes_asymmetric(entries: Seq<CatalogueEntry>, order: ListOrder, i: int, j: int)
    ensures
        !(precedes(entries, order, i, j) && precedes(entries, order, j, i)),
{
    lemma_lex_asymmetric(entries[i].name@, entries[j].name@);
    crate::text::lemma_lex_irreflexive(entries[i].name@);
}

/// The order is transitive.
pub proof fn lemma_precedes_transitive(
    entries: Seq<CatalogueEntry>,
    order: ListOrder,
    i: int,
    j: int,
    k: int,
)
    requires
        precedes(entries, order, i, j),
        precedes(entries, order, j, k),
    ensures
        precedes(entries, order, i, k),
{
    let (a, b, c) = (entries[i].name@, entries[j].name@, entries[k].name@);
    if lex_less(a, b) && lex_less(b, c) {
        lemma_lex_transitive(a, b, c);
    }
}

/// Whether position `i` comes before position `j` under `order`.
fn precedes_at(entries: &[CatalogueEntry], order: ListOrder, i: usize, j: usize) -> (r: bool)
    requires
        i < entries@.len(),
        j < entries@.len(),
    ensures
        r == precedes(entries@, order, i as int, j as int),
{
    let a = &entries[i];
    let b = &entries[j];
    let by_name = text_less(a.name.as_str(), b.name.as_str())
        || (same_text(a.name.as_str(), b.name.as_str()) && i < j);
    match order {
        ListOrder::AsGiven => i < j,
        ListOrder::ByName => by_name,
        ListOrder::ByUrgency => a.urgency < b.urgency || (a.urgency == b.urgency && by_name),
    }
}

/// Positions in strictly increasing order.
pub open spec fn increasing(s: Seq<usize>) -> bool {
    forall|a: int, b: int| 0 <= a < b < s.len() ==> s[a] < s[b]
}

/// Each position of `out` is listed before every later one.
pub open spec fn sorted_by(entries: Seq<CatalogueEntry>, order: ListOrder, out: Seq<usize>) -> bool {
    forall|a: int, b: int|
        0 <= a < b < out.len() ==> #[trigger] precedes(entries, order, out[a] as int, out[b] as int)
}

/// `out` lists, in `order`, every position of `entries` that `chosen`
/// picks and nothing else.
pub open spec fn is_listing(
    entries: Seq<CatalogueEntry>,
    order: ListOrder,
    chosen: spec_fn(int) -> bool,
    out: Seq<usize>,
) -> bool {
    &&& forall|k: int| 0 <= k < out.len() ==> out[k] < entries.len() && chosen(out[k] as int)
    &&& forall|i: int| 0 <= i < entries.len() && #[trigger] chosen(i) ==> out.contains(i as usize)
    &&& sorted_by(entries, order, out)
}

/// The positions of `entries` picked by `chosen`, in order of position.
fn sort_positions(entries: &[CatalogueEntry], order: ListOrder, picked: &Vec<usize>) -> (out: Vec<usize>)
    requires
        forall|k: int| 0 <= k < picked@.len() ==> picked@[k] < entries@.len(),
        increasing(picked@),
    ensures
        out@.len() == picked@.len(),
        forall|k: int| 0 <= k < out@.len() ==> out@[k] < entries@.len(),
        forall|x: usize| out@.contains(x) <==> picked@.contains(x),
        sorted_by(entries@, order, out@),
{
    let mut out: Vec<usize> = Vec::new();
    let mut t: usize = 0;
    while t < picked.len()
        invariant
            t <= picked@.len(),
            out@.len() == t,
            forall|k: int| 0 <= k < picked@.len() ==> picked@[k] < entries@.len(),
            increasing(picked@),
            forall|k: int| 0 <= k < out@.len() ==> out@[k] < entries@.len(),
            forall|k: int, j: int| 0 <= k < out@.len() && t <= j < picked@.len() ==> out@[k] < picked@[j],
            forall|x: usize| out@.contains(x) <==> picked@.subrange(0, t as int).contains(x),
            sorted_by(entries@, order, out@),
        decreases picked@.len() - t,
    {
        let k = picked[t];
        let mut p: usize = 0;
        while p < out.len() && !precedes_at(entries, order, k, out[p])
            invariant
                p <= out@.len(),
                k < entries@.len(),
                forall|q: int| 0 <= q < out@.len() ==> out@[q] < entries@.len() && out@[q] < k,
                forall|q: int| 0 <= q < p ==> precedes(entries@, order, out@[q] as int, k as int),
            decreases out@.len() - p,
        {
            proof {
                lemma_precedes_total(entries@, order, k as int, out@[p as int] as int);
            }
            p = p + 1;
        }
        let ghost old_out = out@;
        proof {
            assert forall|q: int| p <= q < old_out.len() implies precedes(entries@, order, k as int, old_out[q] as int) by {
                if q > p {
                    assert(precedes(entries@, order, old_out[p as int] as int, old_out[q] as int));
                    lemma_precedes_transitive(entries@, order, k as int, old_out[p as int] as int, old_out[q] as int);
                }
            }
        }
        out.insert(p, k);
        proof {
            let new_out = out@;
            assert(new_out == old_out.insert(p as int, k));
            assert forall|a: int, b: int| 0 <= a < b < new_out.len() implies #[trigger] precedes(entries@, order, new_out[a] as int, new_out[b] as int) by {
                if b < p {
                    assert(precedes(entries@, order, old_out[a] as int, old_out[b] as int));
                } else if b == p {
                } else if a < p {
                    assert(precedes(entries@, order, old_out[a] as int, old_out[b - 1] as int));
                } else if a == p {
                } else {
                    assert(precedes(entries@, order, old_out[a - 1] as int, old_out[b - 1] as int));
                }
            }
            let pre = picked@.subrange(0, t as int);
            let post = picked@.subrange(0, t + 1);
            assert(post =~= pre.push(k));
            assert forall|x: usize| new_out.contains(x) <==> post.contains(x) by {
                if new_out.contains(x) {
                    let j = choose|j: int| 0 <= j < new_out.len() && new_out[j] == x;
                    if j < p {
                        assert(old_out.contains(x));
                    } else if j == p {
                        assert(post[t as int] == x);
                    } else {
                        assert(old_out[j - 1] == x);
                        assert(old_out.contains(x));
                    }
                    assert(pre.contains(x) || x == k);
                }
                if post.contains(x) {
                    if x == k {
                        assert(new_out[p as int] == x);
                    } else {
                        assert(pre.contains(x));
                        assert(old_out.contains(x));
                        let j = choose|j: int| 0 <= j < old_out.len() && old_out[j] == x;
                        if j < p {
                            assert(new_out[j] == x);
                        } else {
                            assert(new_out[j + 1] == x);
                        }
                    }
                }
            }
        }
        t = t + 1;
    }
    assert(picked@.subrange(0, t as int) =~= picked@);
    out
}

/// Positions of the entries that pass the Inventory filters, in order of
/// position.
fn select_matching(entries: &[CatalogueEntry], query: &str, unit: Option<Unit>, low_stock_only: bool) -> (picked: Vec<usize>)
    ensures
        increasing(picked@),
        forall|k: int| 0 <= k < picked@.len() ==> picked@[k] < entries@.len()
            && spec_matches(entries@[picked@[k] as int], query@, unit, low_stock_only),
        forall|i: int| 0 <= i < entries@.len() && spec_matches(entries@[i], query@, unit, low_stock_only)
            ==> picked@.contains(i as usize),
{
    let mut picked: Vec<usize> = Vec::new();
    let mut i: usize = 0;
    while i < entries.len()
        invariant
            i <= entries@.len(),
            increasing(picked@),
            forall|k: int| 0 <= k < picked@.len() ==> picked@[k] < i
                && spec_matches(entries@[picked@[k] as int], query@, unit, low_stock_only),
            forall|j: int| 0 <= j < i && spec_matches(entries@[j], query@, unit, low_stock_only)
                ==> picked@.contains(j as usize),
        decreases entries@.len() - i,
    {
        let ghost before = picked@;
        if matches(&entries[i], query, unit, low_stock_only) {
            picked.push(i);
            assert(picked@[picked@.len() - 1] == i);
        }
        assert forall|j: int| 0 <= j <= i && spec_matches(entries@[j], query@, unit, low_stock_only)
            implies picked@.contains(j as usize) by {
            if j < i {
                let k = choose|k: int| 0 <= k < before.len() && before[k] == j as usize;
                assert(picked@[k] == j as usize);
            } else {
                assert(picked@[picked@.len() - 1] == j as usize);
            }
        }
        i = i + 1;
    }
    picked
}

/// Positions of the entries below their low-stock threshold, in order of
/// position.
fn select_low_stock(entries: &[CatalogueEntry]) -> (picked: Vec<usize>)
    ensures
        increasing(picked@),
        forall|k: int| 0 <= k < picked@.len() ==> picked@[k] < entries@.len()
            && entries@[picked@[k] as int].low_stock,
        forall|i: int| 0 <= i < entries@.len() && entries@[i].low_stock ==> picked@.contains(i as usize),
{
    let mut picked: Vec<usize> = Vec::new();
    let mut i: usize = 0;
    while i < entries.len()
        invariant
            i <= entries@.len(),
            increasing(picked@),
            forall|k: int| 0 <= k < picked@.len() ==> picked@[k] < i && entries@[picked@[k] as int].low_stock,
            forall|j: int| 0 <= j < i && entries@[j].low_stock ==> picked@.contains(j as usize),
        decreases entries@.len() - i,
    {
        let ghost before = picked@;
        if entries[i].low_stock {
            picked.push(i);
            assert(picked@[picked@.len() - 1] == i);
        }
        assert forall|j: int| 0 <= j <= i && entries@[j].low_stock implies picked@.contains(j as usize) by {
            if j < i {
                let k = choose|k: int| 0 <= k < before.len() && before[k] == j as usize;
                assert(picked@[k] == j as usize);
            } else {
                assert(picked@[picked@.len() - 1] == j as usize);
            }
        }
        i = i + 1;
    }
    picked
}

/// How many pages `total` rows fill at `page_size` a page; an empty
/// listing still has one (empty) page.
pub open spec fn spec_page_count(total: int, page_size: int) -> int {
    if total == 0 {
        1
    } else {
        (total - 1) / page_size + 1
    }
}

/// The page actually shown when `page` is asked for: past the end, the last.
pub open spec fn clamped_page(total: int, page_size: int, page: int) -> int {
    if page < spec_page_count(total, page_size) {
        page
    } else {
        spec_page_count(total, page_size) - 1
    }
}

/// The rows of `all` on page `page` (which must exist).
pub open spec fn page_rows(all: Seq<usize>, page_size: int, page: int) -> Seq<usize> {
    let start = page * page_size;
    let end = if start + page_size < all.len() {
        start + page_size
    } else {
        all.len() as int
    };
    all.subrange(start, end)
}

/// How many pages `total` rows fill at `page_size` rows a page (at least one).
pub fn page_count(total: usize, page_size: usize) -> (r: usize)
    requires
        page_size > 0,
    ensures
        r == spec_page_count(total as int, page_size as int),
        1 <= r,
{
    if total == 0 {
        1
    } else {
        (total - 1) / page_size + 1
    }
}

/// The page of `all` that is shown when `page` is asked for, and that
/// page's number.
pub(crate) fn take_page(all: &Vec<usize>, page_size: usize, page: usize) -> (r: (Vec<usize>, usize))
    requires
        page_size > 0,
    ensures
        r.1 == clamped_page(all@.len() as int, page_size as int, page as int),
        r.0@ == page_rows(all@, page_size as int, r.1 as int),
        r.0@.len() <= page_size,
        all@.len() > 0 ==> r.0@.len() > 0,
{
    let total = all.len();
    let count = page_count(total, page_size);
    let shown = if page < count { page } else { count - 1 };
    let start: usize = if total == 0 {
        assert(shown == 0);
        assert(0 * page_size == 0);
        0
    } else {
        proof {
            let t = total as int;
            let s = page_size as int;
            let p = shown as int;
            assert(p * s <= t - 1) by (nonlinear_arith)
                requires
                    t >= 1,
                    s >= 1,
                    0 <= p <= (t - 1) / s,
            {
                vstd::arithmetic::div_mod::lemma_fundamental_div_mod(t - 1, s);
                vstd::arithmetic::mul::lemma_mul_inequality(p, (t - 1) / s, s);
            }
        }
        shown * page_size
    };
    let end: usize = if total - start > page_size { start + page_size } else { total };
    let mut rows: Vec<usize> = Vec::new();
    let mut i: usize = start;
    while i < end
        invariant
            start <= i <= end <= all@.len(),
            rows@ == all@.subrange(start as int, i as int),
        decreases end - i,
    {
        rows.push(all[i]);
        i = i + 1;
        assert(rows@ =~= all@.subrange(start as int, i as int));
    }
    proof {
        assert(start as int == shown * page_size);
    }
    (rows, shown)
}

/// The positions the Inventory filters keep.
pub open spec fn inventory_choice(
    entries: Seq<CatalogueEntry>,
    query: Seq<char>,
    unit: Option<Unit>,
    low_stock_only: bool,
) -> spec_fn(int) -> bool {
    |i: int| spec_matches(entries[i], query, unit, low_stock_only)
}

/// The positions below their low-stock threshold.
pub open spec fn low_stock_choice(entries: Seq<CatalogueEntry>) -> spec_fn(int) -> bool {
    |i: int| entries[i].low_stock
}

/// A strictly increasing run of positions below `n` is no longer than `n`.
proof fn lemma_increasing_len(s: Seq<usize>, n: int)
    requires
        0 <= n,
        increasing(s),
        forall|k: int| 0 <= k < s.len() ==> s[k] < n,
    ensures
        s.len() <= n,
    decreases s.len(),
{
    if s.len() > 0 {
        let t = s.drop_last();
        assert forall|k: int| 0 <= k < t.len() implies t[k] < s[s.len() - 1] by {
            assert(s[k] < s[s.len() - 1]);
        }
        lemma_increasing_len(t, s[s.len() - 1] as int);
        assert(s[s.len() - 1] < n);
    }
}

/// Sorts `picked` and cuts out the page asked for.
fn list_page(
    entries: &[CatalogueEntry],
    order: ListOrder,
    picked: Vec<usize>,
    page_size: usize,
    page_index: usize,
    Ghost(chosen): Ghost<spec_fn(int) -> bool>,
) -> (r: (Vec<usize>, i64, usize))
    requires
        page_size > 0,
        entries@.len() <= i64::MAX,
        increasing(picked@),
        forall|k: int| 0 <= k < picked@.len() ==> picked@[k] < entries@.len() && chosen(picked@[k] as int),
        forall|i: int| 0 <= i < entries@.len() && #[trigger] chosen(i) ==> picked@.contains(i as usize),
    ensures
        exists|all: Seq<usize>|
            is_listing(entries@, order, chosen, all) && r.1 == all.len() && r.2 == clamped_page(
                all.len() as int,
                page_size as int,
                page_index as int,
            ) && r.0@ == page_rows(all, page_size as int, r.2 as int),
        r.0@.len() <= page_size,
{
    proof {
        lemma_increasing_len(picked@, entries@.len() as int);
    }
    let all = sort_positions(entries, order, &picked);
    assert forall|i: int| 0 <= i < entries@.len() && #[trigger] chosen(i) implies all@.contains(i as usize) by {
        assert(picked@.contains(i as usize));
    }
    assert forall|k: int| 0 <= k < all@.len() implies all@[k] < entries@.len() && chosen(all@[k] as int) by {
        assert(all@.contains(all@[k]));
        assert(picked@.contains(all@[k]));
    }
    let total = all.len();
    let (rows, shown) = take_page(&all, page_size, page_index);
    assert(is_listing(entries@, order, chosen, all@));
    (rows, total as i64, shown)
}

/// One page of the catalogue under the Inventory filters, ordered by name,
/// with how many entries matched and which page was actually used: a page
/// past the end gives the last one, and an empty catalogue has page 0.
pub fn page(
    entries: &[CatalogueEntry],
    query: &str,
    unit: Option<Unit>,
    low_stock_only: bool,
    page_size: usize,
    page_index: usize,
) -> (r: (Vec<usize>, i64, usize))
    requires
        page_size > 0,
        entries@.len() <= i64::MAX,
    ensures
        exists|all: Seq<usize>|
            is_listing(
                entries@,
                ListOrder::ByName,
                inventory_choice(entries@, query@, unit, low_stock_only),
                all,
            ) && r.1 == all.len() && r.2 == clamped_page(all.len() as int, page_size as int, page_index as int)
                && r.0@ == page_rows(all, page_size as int, r.2 as int),
        r.0@.len() <= page_size,
{
    let picked = select_matching(entries, query, unit, low_stock_only);
    let ghost chosen = inventory_choice(entries@, query@, unit, low_stock_only);
    list_page(entries, ListOrder::ByName, picked, page_size, page_index, Ghost(chosen))
}

/// Candidates for an item picker: the first `limit` entries, by name,
/// whose name holds `query`.
pub fn search(entries: &[CatalogueEntry], query: &str, limit: usize) -> (r: Vec<usize>)
    requires
        limit > 0,
        entries@.len() <= i64::MAX,
    ensures
        exists|all: Seq<usize>|
            is_listing(entries@, ListOrder::ByName, inventory_choice(entries@, query@, None, false), all)
                && r@ == page_rows(all, limit as int, 0),
        r@.len() <= limit,
{
    let (rows, _, _) = page(entries, query, None, false, limit, 0);
    rows
}

/// One page of the entries below their threshold, most urgent first (ties
/// by name), with how many there are and which page was actually used.
pub fn low_stock_page(entries: &[CatalogueEntry], page_size: usize, page_index: usize) -> (r: (Vec<usize>, i64, usize))
    requires
        page_size > 0,
        entries@.len() <= i64::MAX,
    ensures
        exists|all: Seq<usize>|
            is_listing(entries@, ListOrder::ByUrgency, low_stock_choice(entries@), all) && r.1 == all.len()
                && r.2 == clamped_page(all.len() as int, page_size as int, page_index as int)
                && r.0@ == page_rows(all, page_size as int, r.2 as int),
        r.0@.len() <= page_size,
{
    let picked = select_low_stock(entries);
    let ghost chosen = low_stock_choice(entries@);
    list_page(entries, ListOrder::ByUrgency, picked, page_size, page_index, Ghost(chosen))
}

/// Number of entries among the first `n` that are below their threshold.
pub open spec fn low_count(entries: Seq<CatalogueEntry>, n: int) -> nat
    decreases n,
{
    if n <= 0 {
        0
    } else if entries[n - 1].low_stock {
        low_count(entries, n - 1) + 1
    } else {
        low_count(entries, n - 1)
    }
}

/// How many entries are below their threshold.
pub fn low_stock_count(entries: &[CatalogueEntry]) -> (r: i64)
    requires
        entries@.len() <= i64::MAX,
    ensures
        r == low_count(entries@, entries@.len() as int),
{
    let mut count: i64 = 0;
    let mut i: usize = 0;
    while i < entries.len()
        invariant
            i <= entries@.len() <= i64::MAX,
            count == low_count(entries@, i as int),
            count <= i,
        decreases entries@.len() - i,
    {
        if entries[i].low_stock {
            count = count + 1;
        }
        i = i + 1;
    }
    count
}

/// A listing is determined by what it picks and the order it is in: two
/// listings of the same choice in the same order are the same sequence,
/// so a page of one is the page of any other.
pub proof fn lemma_listing_unique(
    entries: Seq<CatalogueEntry>,
    order: ListOrder,
    chosen: spec_fn(int) -> bool,
    a: Seq<usize>,
    b: Seq<usize>,
)
    requires
        entries.len() <= usize::MAX,
        is_listing(entries, order, chosen, a),
        is_listing(entries, order, chosen, b),
    ensures
        a == b,
    decreases a.len(),
{
    if a.len() == 0 {
        if b.len() > 0 {
            assert(chosen(b[0] as int));
            assert(a.contains(b[0]));
        }
        assert(a =~= b);
    } else if b.len() == 0 {
        assert(chosen(a[0] as int));
        assert(b.contains(a[0]));
    } else {
        let x = a[0];
        let y = b[0];
        if x != y {
            assert(chosen(x as int));
            assert(b.contains(x));
            let j = choose|j: int| 0 <= j < b.len() && b[j] == x;
            assert(precedes(entries, order, y as int, b[j] as int));
            assert(chosen(y as int));
            assert(a.contains(y));
            let m = choose|m: int| 0 <= m < a.len() && a[m] == y;
            assert(precedes(entries, order, x as int, a[m] as int));
            lemma_precedes_asymmetric(entries, order, x as int, y as int);
        }
        let rest: spec_fn(int) -> bool = |i: int| chosen(i) && i != x as int;
        let (a2, b2) = (a.drop_first(), b.drop_first());
        assert forall|k: int| 0 <= k < a2.len() implies a2[k] < entries.len() && rest(a2[k] as int) by {
            assert(precedes(entries, order, a[0] as int, a[k + 1] as int));
            lemma_precedes_asymmetric(entries, order, x as int, x as int);
        }
        assert forall|k: int| 0 <= k < b2.len() implies b2[k] < entries.len() && rest(b2[k] as int) by {
            assert(precedes(entries, order, b[0] as int, b[k + 1] as int));
            lemma_precedes_asymmetric(entries, order, x as int, x as int);
        }
        assert forall|i: int| 0 <= i < entries.len() && #[trigger] rest(i) implies a2.contains(i as usize) by {
            assert(a.contains(i as usize));
            let m = choose|m: int| 0 <= m < a.len() && a[m] == i as usize;
            assert(a2[m - 1] == i as usize);
        }
        assert forall|i: int| 0 <= i < entries.len() && #[trigger] rest(i) implies b2.contains(i as usize) by {
            assert(b.contains(i as usize));
            let m = choose|m: int| 0 <= m < b.len() && b[m] == i as usize;
            assert(b2[m - 1] == i as usize);
        }
        assert forall|p: int, q: int| 0 <= p < q < a2.len() implies #[trigger] precedes(entries, order, a2[p] as int, a2[q] as int) by {
            assert(precedes(entries, order, a[p + 1] as int, a[q + 1] as int));
        }
        assert forall|p: int, q: int| 0 <= p < q < b2.len() implies #[trigger] precedes(entries, order, b2[p] as int, b2[q] as int) by {
            assert(precedes(entries, order, b[p + 1] as int, b[q + 1] as int));
        }
        lemma_listing_unique(entries, order, rest, a2, b2);
        assert(x == y);
        assert(a2 == b2);
        assert(a2.len() + 1 == a.len() && b2.len() + 1 == b.len());
        assert forall|k: int| 0 <= k < a.len() implies a[k] == b[k] by {
            if k > 0 {
                assert(a[k] == a2[k - 1]);
                assert(b[k] == b2[k - 1]);
            }
        }
        assert(a =~= b);
    }
}

/// The low-stock positions among the first `n`, in order of position.
pub open spec fn low_positions(entries: Seq<CatalogueEntry>, n: int) -> Seq<usize>
    decreases n,
{
    if n <= 0 {
        Seq::empty()
    } else if entries[n - 1].low_stock {
        low_positions(entries, n - 1).push((n - 1) as usize)
    } else {
        low_positions(entries, n - 1)
    }
}

proof fn lemma_low_positions(entries: Seq<CatalogueEntry>, n: int)
    requires
        0 <= n <= entries.len() <= usize::MAX,
    ensures
        low_positions(entries, n).len() == low_count(entries, n),
        increasing(low_positions(entries, n)),
        forall|k: int| 0 <= k < low_positions(entries, n).len() ==> low_positions(entries, n)[k] < n
            && entries[low_positions(entries, n)[k] as int].low_stock,
        forall|i: int| 0 <= i < n && entries[i].low_stock ==> low_positions(entries, n).contains(i as usize),
    decreases n,
{
    if n > 0 {
        lemma_low_positions(entries, n - 1);
        let prev = low_positions(entries, n - 1);
        let cur = low_positions(entries, n);
        if entries[n - 1].low_stock {
            assert(cur[cur.len() - 1] == (n - 1) as usize);
            assert forall|i: int| 0 <= i < n && entries[i].low_stock implies cur.contains(i as usize) by {
                if i < n - 1 {
                    let k = choose|k: int| 0 <= k < prev.len() && prev[k] == i as usize;
                    assert(cur[k] == i as usize);
                }
            }
        }
    }
}

/// The count of low-stock entries is the total that the low-stock listing
/// reports, whatever order the listing is in.
pub proof fn lemma_low_stock_total(entries: Seq<CatalogueEntry>, order: ListOrder, all: Seq<usize>)
    requires
        entries.len() <= usize::MAX,
        is_listing(entries, order, low_stock_choice(entries), all),
    ensures
        all.len() == low_count(entries, entries.len() as int),
{
    let n = entries.len() as int;
    lemma_low_positions(entries, n);
    let canon = low_positions(entries, n);
    assert(canon.no_duplicates());
    assert forall|i: int, j: int| 0 <= i < all.len() && 0 <= j < all.len() && i != j implies all[i] != all[j] by {
        lemma_precedes_asymmetric(entries, order, all[i] as int, all[i] as int);
        if i < j {
            assert(precedes(entries, order, all[i] as int, all[j] as int));
        } else {
            assert(precedes(entries, order, all[j] as int, all[i] as int));
        }
    }
    assert(all.no_duplicates());
    assert forall|x: usize| all.to_set().contains(x) <==> canon.to_set().contains(x) by {
        if all.contains(x) {
            let k = choose|k: int| 0 <= k < all.len() && all[k] == x;
            assert(low_stock_choice(entries)(x as int));
            assert(canon.contains(x));
        }
        if canon.contains(x) {
            let k = choose|k: int| 0 <= k < canon.len() && canon[k] == x;
            assert(entries[x as int].low_stock);
            assert(low_stock_choice(entries)(x as int));
            assert(all.contains(x));
        }
    }
    assert(all.to_set() =~= canon.to_set());
    all.unique_seq_to_set();
    canon.unique_seq_to_set();
}

} // verus!
