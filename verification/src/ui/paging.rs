//! Paging as the list screens count it when the database does the
//! filtering: how many pages a total fills, which page is shown, and the
//! lines under a list that say where the shopkeeper is.
use vstd::prelude::*;
use crate::text::{push_signed, spec_int_string};

verus! {

/// Pages `total` rows fill at `page_size` a page; never fewer than one.
pub open spec fn pages_for(total: int, page_size: int) -> int {
    if total <= 0 {
        1
    } else {
        (total - 1) / page_size + 1
    }
}

/// The pages `total` rows fill at `page_size` rows a page.
pub fn page_total(total: i64, page_size: i64) -> (r: i64)
    requires
        page_size > 0,
    ensures
        r == pages_for(total as int, page_size as int),
        r >= 1,
{
    if total <= 0 {
        1
    } else {
        (total - 1) / page_size + 1
    }
}

/// The page shown when `page` is asked for: never before the first nor
/// past the last, so a list that shrank under the shopkeeper (the last
/// item on the last page deleted) lands on a page that exists.
pub fn shown_page(total: i64, page_size: i64, page: i64) -> (r: i64)
    requires
        page_size > 0,
    ensures
        0 <= r < pages_for(total as int, page_size as int),
        r == (if page < 0 {
            0
        } else if page < pages_for(total as int, page_size as int) {
            page as int
        } else {
            pages_for(total as int, page_size as int) - 1
        }),
{
    let count = page_total(total, page_size);
    if page < 0 {
        0
    } else if page < count {
        page
    } else {
        count - 1
    }
}

fn push_int(out: &mut String, n: i64)
    ensures
        final(out)@ == old(out)@ + spec_int_string(n as int),
{
    let magnitude: u64 = if n < 0 { (-(n as i128)) as u64 } else { n as u64 };
    push_signed(out, n < 0, magnitude);
}

/// "Page 2 of 5": which page is shown, counted from one.
pub open spec fn spec_page_label(page: int, page_count: int) -> Seq<char> {
    "Page "@ + spec_int_string(page + 1) + " of "@ + spec_int_string(page_count)
}

/// The line naming the page shown among `page_count`.
pub fn page_label(page: i64, page_count: i64) -> (r: String)
    requires
        page < i64::MAX,
    ensures
        r@ == spec_page_label(page as int, page_count as int),
{
    let mut out = String::from_str("Page ");
    push_int(&mut out, page + 1);
    out.append(" of ");
    push_int(&mut out, page_count);
    out
}

/// "11-20 of 25": the rows on page `page` of `total`, counted from one;
/// "0 of 0" for an empty list.
pub open spec fn spec_range_label(total: int, page: int, page_size: int) -> Seq<char> {
    if total == 0 {
        "0 of 0"@
    } else {
        let start = page * page_size;
        let end = if start + page_size < total {
            start + page_size
        } else {
            total
        };
        spec_int_string(start + 1) + "-"@ + spec_int_string(end) + " of "@ + spec_int_string(total)
    }
}

/// The line naming the rows on the page shown.
pub fn range_label(total: i64, page: i64, page_size: i64) -> (r: String)
    requires
        0 <= page,
        0 < page_size,
        page * page_size + page_size < i64::MAX,
    ensures
        r@ == spec_range_label(total as int, page as int, page_size as int),
{
    if total == 0 {
        return String::from_str("0 of 0");
    }
    let start = page * page_size;
    let end = if start + page_size < total { start + page_size } else { total };
    let mut out = String::new();
    push_int(&mut out, start + 1);
    out.append("-");
    push_int(&mut out, end);
    out.append(" of ");
    push_int(&mut out, total);
    out
}

} // verus!
