//! The Billings screen: the cart being built, its running totals, and the
//! checks made before a bill is saved.
use vstd::prelude::*;
use crate::money::{amount_fits, rupees_to_paise, spec_rupees_to_paise};
use crate::repo::bills::{bill_figures, bill_figures_of, bill_fits, subtotal, PricedLine};
use crate::text::{spec_trim, trim};
use crate::ui::common::ItemOption;

verus! {

/// One line of the bill being built or edited.
#[derive(Debug, Clone)]
pub struct CartLine {
    pub item_id: i64,
    pub item_name: String,
    /// The quantity, as the decimal text it was typed (or stored) as; the
    /// caller reads it as a number where it prices the line.
    pub qty: String,
    pub price_paise: i64,
    /// The line's GST rate in basis points, fixed when the line was added.
    pub gst_rate_bp: i64,
}

/// Bills per page of the history list.
pub const PAGE_SIZE: i64 = 10;

/// What the cart adds up to, tax included: exactly the figures the bill
/// will be stored with.
#[derive(Debug, Clone, Copy, PartialEq, Eq)]
pub struct CartTotals {
    pub subtotal_paise: i64,
    pub cgst_paise: i64,
    pub sgst_paise: i64,
    pub total_paise: i64,
}

/// The cart's totals, by the same discount proration and tax split that
/// saving the bill uses.
pub fn compute_totals(cart: &[PricedLine], discount_paise: i64) -> (r: CartTotals)
    requires
        bill_fits(cart@, discount_paise as int),
    ensures
        r.subtotal_paise == bill_figures_of(cart@, discount_paise as int).subtotal_paise,
        r.cgst_paise == bill_figures_of(cart@, discount_paise as int).cgst_paise,
        r.sgst_paise == bill_figures_of(cart@, discount_paise as int).sgst_paise,
        r.total_paise == bill_figures_of(cart@, discount_paise as int).total_paise,
{
    let f = bill_figures(cart, discount_paise);
    CartTotals {
        subtotal_paise: f.subtotal_paise,
        cgst_paise: f.cgst_paise,
        sgst_paise: f.sgst_paise,
        total_paise: f.total_paise,
    }
}

/// Removes the cart line at `index`, if there is one.
pub fn remove_line<T>(cart: &mut Vec<T>, index: usize)
    ensures
        index < old(cart)@.len() ==> final(cart)@ == old(cart)@.remove(index as int),
        index >= old(cart)@.len() ==> final(cart)@ == old(cart)@,
{
    if index < cart.len() {
        cart.remove(index);
    }
}

/// `s` cut to at most `max_chars` characters, ending in '…' when cut.
pub open spec fn spec_truncate(s: Seq<char>, max_chars: int) -> Seq<char> {
    if s.len() <= max_chars {
        s
    } else {
        s.take(if max_chars > 0 { max_chars - 1 } else { 0 }) + seq!['\u{2026}']
    }
}

/// Shortens a name for a fixed-width column.
pub fn truncate(s: &str, max_chars: usize) -> (r: String)
    ensures
        r@ == spec_truncate(s@, max_chars as int),
{
    proof {
        reveal_strlit("\u{2026}");
    }
    let n = s.unicode_len();
    if n <= max_chars {
        return String::from_str(s);
    }
    let keep = if max_chars > 0 { max_chars - 1 } else { 0 };
    let mut out = String::from_str(s.substring_char(0, keep));
    out.append("\u{2026}");
    assert(out@ =~= spec_truncate(s@, max_chars as int));
    out
}

/// What saving the cart decides before anything is stored: the cart must
/// not be empty, the discount (blank meaning none) must be an amount, and
/// it cannot exceed the subtotal.
pub open spec fn spec_check_submission(cart_len: int, discount_input: Seq<char>, subtotal_paise: int) -> Result<int, Seq<char>> {
    if cart_len == 0 {
        Err("add at least one item to the bill"@)
    } else {
        let parsed = if spec_trim(discount_input).len() == 0 { Some(0int) } else { spec_rupees_to_paise(discount_input) };
        match parsed {
            None => Err("discount must be a valid amount, e.g. 20.00"@),
            Some(d) => if d > subtotal_paise {
                Err("discount can't be more than the subtotal"@)
            } else {
                Ok(d)
            },
        }
    }
}

/// Checks a cart about to be saved; on success, the discount to save it
/// with.
pub fn check_submission(cart_len: usize, discount_input: &str, subtotal_paise: i64) -> (r: Result<i64, String>)
    requires
        amount_fits(discount_input@),
    ensures
        match (r, spec_check_submission(cart_len as int, discount_input@, subtotal_paise as int)) {
            (Ok(d), Ok(e)) => d == e,
            (Err(m), Err(n)) => m@ == n,
            _ => false,
        },
{
    if cart_len == 0 {
        return Err(String::from_str("add at least one item to the bill"));
    }
    let discount_paise = if trim(discount_input).unicode_len() == 0 {
        0
    } else {
        match rupees_to_paise(discount_input) {
            Some(v) => v,
            None => return Err(String::from_str("discount must be a valid amount, e.g. 20.00")),
        }
    };
    if discount_paise > subtotal_paise {
        return Err(String::from_str("discount can't be more than the subtotal"));
    }
    Ok(discount_paise)
}

/// The GST rate a new cart line takes: the item's own rate, else the
/// shop's default, else none.
pub open spec fn line_rate(item_gst_rate_bp: Option<i64>, shop_gst_rate_bp: Option<i64>) -> i64 {
    match item_gst_rate_bp {
        Some(r) => r,
        None => match shop_gst_rate_bp {
            Some(r) => r,
            None => 0,
        },
    }
}

/// Checks a line about to be added to the cart: an item must be chosen,
/// the quantity (as the caller read it) must be positive, and the price an
/// amount. On success: the item's id, the price in paise, and the GST
/// rate the line takes.
pub fn check_line(
    selected: &Option<ItemOption>,
    qty_positive: bool,
    price_input: &str,
    item_gst_rate_bp: Option<i64>,
    shop_gst_rate_bp: Option<i64>,
) -> (r: Result<(i64, i64, i64), String>)
    requires
        selected is Some && qty_positive ==> amount_fits(price_input@),
    ensures
        match *selected {
            None => r matches Err(e) && e@ == "choose an item first"@,
            Some(item) => if !qty_positive {
                r matches Err(e) && e@ == "quantity must be a positive number"@
            } else {
                match spec_rupees_to_paise(price_input@) {
                    None => r matches Err(e) && e@ == "price must be a valid amount, e.g. 120.00"@,
                    Some(p) => r matches Ok((id, price, rate)) && id == item.id && price == p && rate
                        == line_rate(item_gst_rate_bp, shop_gst_rate_bp),
                }
            },
        },
{
    let id = match selected {
        None => return Err(String::from_str("choose an item first")),
        Some(item) => item.id,
    };
    if !qty_positive {
        return Err(String::from_str("quantity must be a positive number"));
    }
    let price = match rupees_to_paise(price_input) {
        None => return Err(String::from_str("price must be a valid amount, e.g. 120.00")),
        Some(p) => p,
    };
    let rate = match item_gst_rate_bp {
        Some(r) => r,
        None => match shop_gst_rate_bp {
            Some(r) => r,
            None => 0,
        },
    };
    Ok((id, price, rate))
}

} // verus!
