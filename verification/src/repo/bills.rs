//! Pricing a bill: the flat discount is split across the lines in
//! proportion to each line's share of the subtotal, then CGST and SGST
//! are computed per line on what is left, each half of the line's rate.
use vstd::prelude::*;

verus! {

/// One line of a bill as the calculator sees it: its total before tax
/// (`price × qty`, already rounded to whole paise) and its GST rate in
/// basis points (1800 = 18.00%).
#[derive(Clone, Copy, Debug, PartialEq, Eq)]
pub struct PricedLine {
    pub line_total_paise: i64,
    pub gst_rate_bp: i64,
}

/// A priced and taxed line, ready to store.
#[derive(Clone, Copy, Debug, PartialEq, Eq)]
pub struct TaxedLine {
    pub line_total_paise: i64,
    pub cgst_paise: i64,
    pub sgst_paise: i64,
}

/// The figures stored on a bill.
#[derive(Clone, Copy, Debug, PartialEq, Eq)]
pub struct BillFigures {
    pub subtotal_paise: i64,
    pub discount_paise: i64,
    pub cgst_paise: i64,
    pub sgst_paise: i64,
    pub total_paise: i64,
}

pub open spec fn in_i64(x: int) -> bool {
    i64::MIN <= x <= i64::MAX
}

/// Rust's `/` on signed integers: the quotient rounded toward zero.
pub open spec fn quot(a: int, b: int) -> int {
    let q = (if a < 0 { -a } else { a }) / (if b < 0 { -b } else { b });
    if (a < 0) == (b < 0) { q } else { -q }
}

/// Sum of the first `k` line totals.
pub open spec fn sum_totals(ls: Seq<PricedLine>, k: int) -> int
    decreases k,
{
    if k <= 0 {
        0
    } else {
        sum_totals(ls, k - 1) + ls[k - 1].line_total_paise
    }
}

pub open spec fn subtotal(ls: Seq<PricedLine>) -> int {
    sum_totals(ls, ls.len() as int)
}

/// Line `j`'s proportional share of the discount, rounded toward zero.
pub open spec fn prorated(ls: Seq<PricedLine>, d: int, j: int) -> int {
    (quot(d * ls[j].line_total_paise, subtotal(ls)) as i64) as int
}

/// Discount handed out to the first `k` lines.
pub open spec fn allocated(ls: Seq<PricedLine>, d: int, k: int) -> int
    decreases k,
{
    if k <= 0 {
        0
    } else {
        allocated(ls, d, k - 1) + prorated(ls, d, k - 1)
    }
}

/// Line `i`'s share of the discount: its proportion, except that the last
/// line takes whatever is left, so the shares add up to the discount.
pub open spec fn share(ls: Seq<PricedLine>, d: int, i: int) -> int {
    if subtotal(ls) == 0 {
        0
    } else if i == ls.len() - 1 {
        d - allocated(ls, d, ls.len() - 1)
    } else {
        prorated(ls, d, i)
    }
}

/// What line `i` is taxed on: its total less its discount share, never
/// below zero.
pub open spec fn taxable(ls: Seq<PricedLine>, d: int, i: int) -> int {
    let t = ls[i].line_total_paise - share(ls, d, i);
    if t > 0 {
        t
    } else {
        0
    }
}

/// Line `i`'s combined GST, rounded half up to whole paise.
pub open spec fn line_tax(ls: Seq<PricedLine>, d: int, i: int) -> int {
    (quot(taxable(ls, d, i) * ls[i].gst_rate_bp + 5_000, 10_000) as i64) as int
}

/// CGST is half the combined tax, rounded toward zero; SGST the rest.
pub open spec fn line_cgst(ls: Seq<PricedLine>, d: int, i: int) -> int {
    quot(line_tax(ls, d, i), 2)
}

pub open spec fn line_sgst(ls: Seq<PricedLine>, d: int, i: int) -> int {
    line_tax(ls, d, i) - line_cgst(ls, d, i)
}

pub open spec fn taxed_line(ls: Seq<PricedLine>, d: int, i: int) -> TaxedLine {
    TaxedLine {
        line_total_paise: ls[i].line_total_paise,
        cgst_paise: line_cgst(ls, d, i) as i64,
        sgst_paise: line_sgst(ls, d, i) as i64,
    }
}

pub open spec fn cgst_sum(ls: Seq<PricedLine>, d: int, k: int) -> int
    decreases k,
{
    if k <= 0 {
        0
    } else {
        cgst_sum(ls, d, k - 1) + line_cgst(ls, d, k - 1)
    }
}

pub open spec fn sgst_sum(ls: Seq<PricedLine>, d: int, k: int) -> int
    decreases k,
{
    if k <= 0 {
        0
    } else {
        sgst_sum(ls, d, k - 1) + line_sgst(ls, d, k - 1)
    }
}

/// The bill's total: subtotal less discount (never below zero) plus both
/// taxes.
pub open spec fn bill_total(ls: Seq<PricedLine>, d: int) -> int {
    let net = subtotal(ls) - d;
    (if net > 0 { net } else { 0 }) + cgst_sum(ls, d, ls.len() as int) + sgst_sum(ls, d, ls.len() as int)
}

pub open spec fn bill_figures_of(ls: Seq<PricedLine>, d: int) -> BillFigures {
    BillFigures {
        subtotal_paise: subtotal(ls) as i64,
        discount_paise: d as i64,
        cgst_paise: cgst_sum(ls, d, ls.len() as int) as i64,
        sgst_paise: sgst_sum(ls, d, ls.len() as int) as i64,
        total_paise: bill_total(ls, d) as i64,
    }
}

/// Every step of the per-line calculation stays within `i64`: the running
/// subtotal, the running discount handed out, the last line's remainder
/// and each line's total less its share.
pub open spec fn tax_fits(ls: Seq<PricedLine>, d: int) -> bool {
    &&& forall|k: int| 0 <= k <= ls.len() ==> in_i64(#[trigger] sum_totals(ls, k))
    &&& subtotal(ls) != 0 ==> forall|k: int| 0 <= k < ls.len() ==> in_i64(#[trigger] allocated(ls, d, k))
    &&& (subtotal(ls) != 0 && ls.len() > 0) ==> in_i64(d - allocated(ls, d, ls.len() - 1))
    &&& forall|i: int| 0 <= i < ls.len() ==> in_i64(ls[i].line_total_paise - #[trigger] share(ls, d, i))
}

/// As `tax_fits`, and the bill's own sums stay within `i64` too.
pub open spec fn bill_fits(ls: Seq<PricedLine>, d: int) -> bool {
    let net = subtotal(ls) - d;
    &&& tax_fits(ls, d)
    &&& forall|k: int| 0 <= k <= ls.len() ==> in_i64(#[trigger] cgst_sum(ls, d, k))
    &&& forall|k: int| 0 <= k <= ls.len() ==> in_i64(#[trigger] sgst_sum(ls, d, k))
    &&& in_i64(net)
    &&& in_i64((if net > 0 { net } else { 0 }) + cgst_sum(ls, d, ls.len() as int))
    &&& in_i64(bill_total(ls, d))
}

proof fn lemma_mul_bound(a: int, b: int)
    by (nonlinear_arith)
    requires
        in_i64(a),
        in_i64(b),
    ensures
        -0x4000_0000_0000_0000_0000_0000_0000_0000 <= a * b <= 0x4000_0000_0000_0000_0000_0000_0000_0000,
{
}

proof fn lemma_tax_bounds(ls: Seq<PricedLine>, d: int, i: int)
    requires
        0 <= i < ls.len(),
    ensures
        in_i64(line_tax(ls, d, i)),
        in_i64(line_cgst(ls, d, i)),
        in_i64(line_sgst(ls, d, i)),
{
}

/// `a / b` as Rust computes it on signed integers (rounding toward zero).
fn div_toward_zero(a: i128, b: i128) -> (r: i128)
    requires
        b != 0,
        a > i128::MIN,
        b > i128::MIN,
    ensures
        r == quot(a as int, b as int),
{
    let ua: i128 = if a < 0 { -a } else { a };
    let ub: i128 = if b < 0 { -b } else { b };
    let q = ua / ub;
    if (a < 0) == (b < 0) {
        q
    } else {
        -q
    }
}

/// The subtotal the lines add up to, in the order `Iterator::sum` adds.
fn sum_line_totals(lines: &[PricedLine]) -> (r: i64)
    requires
        forall|k: int| 0 <= k <= lines@.len() ==> in_i64(#[trigger] sum_totals(lines@, k)),
    ensures
        r == subtotal(lines@),
{
    let n = lines.len();
    let mut s: i64 = 0;
    let mut k: usize = 0;
    while k < n
        invariant
            n == lines@.len(),
            k <= n,
            s == sum_totals(lines@, k as int),
            forall|j: int| 0 <= j <= lines@.len() ==> in_i64(#[trigger] sum_totals(lines@, j)),
        decreases n - k,
    {
        assert(in_i64(sum_totals(lines@, k + 1)));
        s = s + lines[k].line_total_paise;
        k = k + 1;
    }
    s
}

/// Splits the bill's flat discount across the lines and computes each
/// line's CGST and SGST on what is left of it.
pub fn tax_lines(lines: &[PricedLine], discount_paise: i64) -> (r: Vec<TaxedLine>)
    requires
        tax_fits(lines@, discount_paise as int),
    ensures
        r@.len() == lines@.len(),
        forall|i: int| 0 <= i < lines@.len() ==> r@[i] == taxed_line(lines@, discount_paise as int, i),
{
    let ghost ls = lines@;
    let ghost d = discount_paise as int;
    let n = lines.len();
    let subtotal_paise = sum_line_totals(lines);
    let mut allocated_discount: i64 = 0;
    let mut taxed: Vec<TaxedLine> = Vec::new();
    let mut i: usize = 0;
    while i < n
        invariant
            ls == lines@,
            d == discount_paise as int,
            n == ls.len(),
            i <= n,
            subtotal_paise == subtotal(ls),
            tax_fits(ls, d),
            subtotal_paise != 0 && i < n ==> allocated_discount == allocated(ls, d, i as int),
            taxed@.len() == i,
            forall|j: int| 0 <= j < i ==> taxed@[j] == taxed_line(ls, d, j),
        decreases n - i,
    {
        let total = lines[i].line_total_paise;
        let discount_share: i64 = if subtotal_paise == 0 {
            0
        } else if i == n - 1 {
            assert(in_i64(d - allocated(ls, d, n - 1)));
            discount_paise - allocated_discount
        } else {
            proof {
                lemma_mul_bound(discount_paise as int, total as int);
            }
            let s = div_toward_zero(discount_paise as i128 * total as i128, subtotal_paise as i128) as i64;
            assert(s == prorated(ls, d, i as int));
            assert(in_i64(allocated(ls, d, i + 1)));
            allocated_discount = allocated_discount + s;
            s
        };
        assert(discount_share == share(ls, d, i as int));
        assert(in_i64(total - share(ls, d, i as int)));
        let left = total - discount_share;
        let taxable: i64 = if left > 0 { left } else { 0 };
        proof {
            lemma_mul_bound(taxable as int, lines[i as int].gst_rate_bp as int);
        }
        let total_tax = div_toward_zero(taxable as i128 * lines[i].gst_rate_bp as i128 + 5_000, 10_000) as i64;
        let cgst_paise = total_tax / 2;
        let sgst_paise = total_tax - cgst_paise;
        proof {
            lemma_tax_bounds(ls, d, i as int);
        }
        taxed.push(TaxedLine { line_total_paise: total, cgst_paise, sgst_paise });
        i = i + 1;
    }
    taxed
}

/// The figures stored on a bill: subtotal, discount, the two taxes summed
/// over the lines, and the total.
pub fn bill_figures(lines: &[PricedLine], discount_paise: i64) -> (r: BillFigures)
    requires
        bill_fits(lines@, discount_paise as int),
    ensures
        r == bill_figures_of(lines@, discount_paise as int),
        r.subtotal_paise == subtotal(lines@),
        r.cgst_paise == cgst_sum(lines@, discount_paise as int, lines@.len() as int),
        r.sgst_paise == sgst_sum(lines@, discount_paise as int, lines@.len() as int),
        r.total_paise == bill_total(lines@, discount_paise as int),
{
    let ghost ls = lines@;
    let ghost d = discount_paise as int;
    let taxed = tax_lines(lines, discount_paise);
    let subtotal_paise = sum_line_totals(lines);
    let n = taxed.len();
    let mut cgst_paise: i64 = 0;
    let mut sgst_paise: i64 = 0;
    let mut k: usize = 0;
    while k < n
        invariant
            ls == lines@,
            d == discount_paise as int,
            n == ls.len() == taxed@.len(),
            k <= n,
            bill_fits(ls, d),
            forall|j: int| 0 <= j < n ==> taxed@[j] == taxed_line(ls, d, j),
            cgst_paise == cgst_sum(ls, d, k as int),
            sgst_paise == sgst_sum(ls, d, k as int),
        decreases n - k,
    {
        proof {
            lemma_tax_bounds(ls, d, k as int);
        }
        assert(in_i64(cgst_sum(ls, d, k + 1)));
        assert(in_i64(sgst_sum(ls, d, k + 1)));
        cgst_paise = cgst_paise + taxed[k].cgst_paise;
        sgst_paise = sgst_paise + taxed[k].sgst_paise;
        k = k + 1;
    }
    let net = subtotal_paise - discount_paise;
    let kept: i64 = if net > 0 { net } else { 0 };
    let total_paise = kept + cgst_paise + sgst_paise;
    BillFigures { subtotal_paise, discount_paise, cgst_paise, sgst_paise, total_paise }
}


/// Whether every running subtotal stays within `i64`.
fn subtotals_fit(lines: &[PricedLine]) -> (r: bool)
    ensures
        r == (forall|k: int| 0 <= k <= lines@.len() ==> in_i64(#[trigger] sum_totals(lines@, k))),
{
    let n = lines.len();
    let mut sum: i128 = 0;
    let mut i: usize = 0;
    while i < n
        invariant
            n == lines@.len(),
            i <= n,
            sum == sum_totals(lines@, i as int),
            forall|k: int| 0 <= k <= i ==> in_i64(#[trigger] sum_totals(lines@, k)),
        decreases n - i,
    {
        sum = sum + lines[i].line_total_paise as i128;
        if sum < i64::MIN as i128 || sum > i64::MAX as i128 {
            assert(!in_i64(sum_totals(lines@, i + 1)));
            return false;
        }
        i = i + 1;
    }
    true
}

/// Whether the discount's shares and each line's total less its share stay
/// within `i64` (given the subtotals do).
fn shares_fit(lines: &[PricedLine], discount_paise: i64, subtotal_paise: i64) -> (r: bool)
    requires
        subtotal_paise == subtotal(lines@),
    ensures
        r == ({
            let ls = lines@;
            let d = discount_paise as int;
            &&& subtotal(ls) != 0 ==> forall|k: int| 0 <= k < ls.len() ==> in_i64(#[trigger] allocated(ls, d, k))
            &&& (subtotal(ls) != 0 && ls.len() > 0) ==> in_i64(d - allocated(ls, d, ls.len() - 1))
            &&& forall|i: int| 0 <= i < ls.len() ==> in_i64(ls[i].line_total_paise - #[trigger] share(ls, d, i))
        }),
{
    let ghost ls = lines@;
    let ghost d = discount_paise as int;
    let n = lines.len();
    let mut alloc: i128 = 0;
    let mut i: usize = 0;
    while i < n
        invariant
            ls == lines@,
            d == discount_paise as int,
            n == ls.len(),
            i <= n,
            subtotal_paise == subtotal(ls),
            subtotal(ls) != 0 && i < n ==> alloc == allocated(ls, d, i as int),
            subtotal(ls) != 0 && i < n ==> in_i64(alloc as int),
            subtotal(ls) != 0 ==> forall|k: int| 0 <= k <= i && k < n ==> in_i64(#[trigger] allocated(ls, d, k)),
            forall|j: int| 0 <= j < i ==> in_i64(ls[j].line_total_paise - #[trigger] share(ls, d, j)),
            subtotal(ls) != 0 && i == n && n > 0 ==> in_i64(d - allocated(ls, d, n - 1)),
        decreases n - i,
    {
        let total = lines[i].line_total_paise;
        let share_i: i128 = if subtotal_paise == 0 {
            0
        } else if i == n - 1 {
            let rest = discount_paise as i128 - alloc;
            if rest < i64::MIN as i128 || rest > i64::MAX as i128 {
                assert(!in_i64(d - allocated(ls, d, n - 1)));
                return false;
            }
            rest
        } else {
            proof {
                lemma_mul_bound(discount_paise as int, total as int);
            }
            let p = div_toward_zero(discount_paise as i128 * total as i128, subtotal_paise as i128) as i64;
            assert(p == prorated(ls, d, i as int));
            let next = alloc + p as i128;
            assert(next == allocated(ls, d, i + 1));
            if next < i64::MIN as i128 || next > i64::MAX as i128 {
                assert(!in_i64(allocated(ls, d, i + 1)));
                return false;
            }
            alloc = next;
            p as i128
        };
        assert(share_i == share(ls, d, i as int));
        let left = total as i128 - share_i;
        if left < i64::MIN as i128 || left > i64::MAX as i128 {
            assert(!in_i64(ls[i as int].line_total_paise - share(ls, d, i as int)));
            return false;
        }
        i = i + 1;
    }
    true
}

/// Whether a bill's figures can be computed within `i64` (`bill_fits`):
/// the test to make before `tax_lines`, `bill_figures` or
/// `compute_totals`.
pub fn figures_fit(lines: &[PricedLine], discount_paise: i64) -> (r: bool)
    ensures
        r == bill_fits(lines@, discount_paise as int),
{
    let ghost ls = lines@;
    let ghost d = discount_paise as int;
    if !subtotals_fit(lines) {
        return false;
    }
    let subtotal_paise = sum_line_totals(lines);
    if !shares_fit(lines, discount_paise, subtotal_paise) {
        return false;
    }
    assert(tax_fits(ls, d));
    let taxed = tax_lines(lines, discount_paise);
    let n = taxed.len();
    let mut cg: i128 = 0;
    let mut sg: i128 = 0;
    let mut k: usize = 0;
    while k < n
        invariant
            ls == lines@,
            d == discount_paise as int,
            n == ls.len() == taxed@.len(),
            k <= n,
            forall|j: int| 0 <= j < n ==> taxed@[j] == taxed_line(ls, d, j),
            cg == cgst_sum(ls, d, k as int),
            sg == sgst_sum(ls, d, k as int),
            forall|j: int| 0 <= j <= k ==> in_i64(#[trigger] cgst_sum(ls, d, j)),
            forall|j: int| 0 <= j <= k ==> in_i64(#[trigger] sgst_sum(ls, d, j)),
        decreases n - k,
    {
        proof {
            lemma_tax_bounds(ls, d, k as int);
        }
        cg = cg + taxed[k].cgst_paise as i128;
        sg = sg + taxed[k].sgst_paise as i128;
        if cg < i64::MIN as i128 || cg > i64::MAX as i128 {
            assert(!in_i64(cgst_sum(ls, d, k + 1)));
            return false;
        }
        if sg < i64::MIN as i128 || sg > i64::MAX as i128 {
            assert(!in_i64(sgst_sum(ls, d, k + 1)));
            return false;
        }
        k = k + 1;
    }
    let net = subtotal_paise as i128 - discount_paise as i128;
    if net < i64::MIN as i128 || net > i64::MAX as i128 {
        return false;
    }
    let kept: i128 = if net > 0 { net } else { 0 };
    let with_cgst = kept + cg;
    if with_cgst < i64::MIN as i128 || with_cgst > i64::MAX as i128 {
        return false;
    }
    let total = with_cgst + sg;
    if total < i64::MIN as i128 || total > i64::MAX as i128 {
        assert(!in_i64(bill_total(ls, d)));
        return false;
    }
    true
}

/// Sum of the discount shares of the first `k` lines.
pub open spec fn shares_sum(ls: Seq<PricedLine>, d: int, k: int) -> int
    decreases k,
{
    if k <= 0 {
        0
    } else {
        shares_sum(ls, d, k - 1) + share(ls, d, k - 1)
    }
}

proof fn lemma_shares_before_last(ls: Seq<PricedLine>, d: int, k: int)
    requires
        0 <= k < ls.len(),
        subtotal(ls) != 0,
    ensures
        shares_sum(ls, d, k) == allocated(ls, d, k),
    decreases k,
{
    if k > 0 {
        lemma_shares_before_last(ls, d, k - 1);
    }
}

/// The bill's flat discount is handed out in full: whenever the bill has
/// lines and a non-zero subtotal, the lines' shares add up to exactly the
/// discount (the last line absorbs the rounding).
pub proof fn lemma_discount_fully_allocated(ls: Seq<PricedLine>, d: int)
    requires
        ls.len() > 0,
        subtotal(ls) != 0,
    ensures
        shares_sum(ls, d, ls.len() as int) == d,
{
    lemma_shares_before_last(ls, d, ls.len() - 1);
}

/// CGST and SGST together are the line's whole tax, and never differ by
/// more than a paisa (the odd paisa going to SGST when the tax is
/// positive).
pub proof fn lemma_gst_split_evenly(ls: Seq<PricedLine>, d: int, i: int)
    requires
        0 <= i < ls.len(),
    ensures
        line_cgst(ls, d, i) + line_sgst(ls, d, i) == line_tax(ls, d, i),
        line_tax(ls, d, i) >= 0 ==> 0 <= line_sgst(ls, d, i) - line_cgst(ls, d, i) <= 1,
        line_tax(ls, d, i) < 0 ==> -1 <= line_sgst(ls, d, i) - line_cgst(ls, d, i) <= 0,
{
}

/// A line is never taxed on less than nothing, nor on more than its total
/// once its discount share is non-negative; a zero-rated line carries no
/// tax at all.
pub proof fn lemma_taxable_bounds(ls: Seq<PricedLine>, d: int, i: int)
    requires
        0 <= i < ls.len(),
    ensures
        taxable(ls, d, i) >= 0,
        share(ls, d, i) >= 0 && ls[i].line_total_paise >= 0 ==> taxable(ls, d, i) <= ls[i].line_total_paise,
        ls[i].gst_rate_bp == 0 ==> line_tax(ls, d, i) == 0 && line_cgst(ls, d, i) == 0 && line_sgst(ls, d, i) == 0,
{
}

/// With non-negative line totals and a discount no larger than the
/// subtotal, every line but the last gets a share between nothing and
/// its own total.
pub proof fn lemma_shares_proportionate(ls: Seq<PricedLine>, d: int, i: int)
    requires
        0 <= i < ls.len() - 1,
        forall|j: int| 0 <= j < ls.len() ==> #[trigger] ls[j].line_total_paise >= 0,
        0 <= d <= subtotal(ls),
        subtotal(ls) <= i64::MAX,
        d <= i64::MAX,
    ensures
        0 <= share(ls, d, i) <= ls[i].line_total_paise,
{
    if subtotal(ls) != 0 {
        let t = ls[i].line_total_paise as int;
        let s = subtotal(ls);
        assert(0 <= d * t <= s * t) by (nonlinear_arith)
            requires
                0 <= d <= s,
                0 <= t,
        ;
        assert((d * t) / s <= t) by (nonlinear_arith)
            requires
                0 <= d * t <= s * t,
                0 < s,
                0 <= t,
        ;
        assert(0 <= (d * t) / s) by (nonlinear_arith)
            requires
                0 <= d * t,
                0 < s,
        ;
    }
}

proof fn lemma_push_contains(s: Seq<i64>, v: i64)
    ensures
        forall|x: i64| #[trigger] s.push(v).contains(x) <==> (s.contains(x) || x == v),
{
    assert forall|x: i64| #[trigger] s.push(v).contains(x) <==> (s.contains(x) || x == v) by {
        if s.push(v).contains(x) && x != v {
            let k = choose|k: int| 0 <= k < s.push(v).len() && s.push(v)[k] == x;
            assert(s[k] == x);
        }
        if s.contains(x) {
            let k = choose|k: int| 0 <= k < s.len() && s[k] == x;
            assert(s.push(v)[k] == x);
        }
        if x == v {
            assert(s.push(v)[s.len() as int] == v);
        }
    }
}

/// Adds `id` to `out` unless it is there already.
fn add_once(out: &mut Vec<i64>, id: i64)
    requires
        old(out)@.no_duplicates(),
    ensures
        final(out)@.no_duplicates(),
        forall|x: i64| final(out)@.contains(x) <==> (old(out)@.contains(x) || x == id),
{
    if !contains_id(out, id) {
        proof {
            lemma_push_contains(out@, id);
        }
        out.push(id);
    }
}

/// The items whose stock an edited bill touches: every item on the bill
/// before or after the edit, each once, in the order first met (the old
/// lines, then the new).
pub fn touched_items(old_items: &[i64], new_items: &[i64]) -> (r: Vec<i64>)
    ensures
        r@.no_duplicates(),
        forall|id: i64| r@.contains(id) <==> (old_items@.contains(id) || new_items@.contains(id)),
{
    let mut out: Vec<i64> = Vec::new();
    let mut i: usize = 0;
    while i < old_items.len()
        invariant
            i <= old_items@.len(),
            out@.no_duplicates(),
            forall|id: i64| out@.contains(id) <==> old_items@.subrange(0, i as int).contains(id),
        decreases old_items@.len() - i,
    {
        let id = old_items[i];
        add_once(&mut out, id);
        proof {
            let pre = old_items@.subrange(0, i as int);
            assert(old_items@.subrange(0, i + 1) =~= pre.push(id));
            lemma_push_contains(pre, id);
        }
        i = i + 1;
    }
    assert(old_items@.subrange(0, i as int) =~= old_items@);
    let mut j: usize = 0;
    while j < new_items.len()
        invariant
            j <= new_items@.len(),
            out@.no_duplicates(),
            forall|id: i64| out@.contains(id) <==> (old_items@.contains(id) || new_items@.subrange(0, j as int).contains(id)),
        decreases new_items@.len() - j,
    {
        let id = new_items[j];
        add_once(&mut out, id);
        proof {
            let pre = new_items@.subrange(0, j as int);
            assert(new_items@.subrange(0, j + 1) =~= pre.push(id));
            lemma_push_contains(pre, id);
        }
        j = j + 1;
    }
    assert(new_items@.subrange(0, j as int) =~= new_items@);
    out
}

/// Whether `id` is among `ids`.
fn contains_id(ids: &Vec<i64>, id: i64) -> (r: bool)
    ensures
        r == ids@.contains(id),
{
    let mut k: usize = 0;
    while k < ids.len()
        invariant
            k <= ids@.len(),
            forall|m: int| 0 <= m < k ==> ids@[m] != id,
        decreases ids@.len() - k,
    {
        if ids[k] == id {
            assert(ids@[k as int] == id);
            return true;
        }
        k = k + 1;
    }
    false
}

} // verus!
