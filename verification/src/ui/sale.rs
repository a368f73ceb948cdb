//! The Shop → Details screen's sale form.
use vstd::prelude::*;
use crate::money::{amount_fits, paise_to_input, rupees_to_paise, spec_paise_to_input, spec_rupees_to_paise};
use crate::text::{spec_trim, trim};
use crate::ui::common::ItemOption;

verus! {

#[derive(Debug, Clone, Copy, PartialEq, Eq, Structural)]
pub enum Field {
    Qty,
    Price,
}

#[derive(Debug)]
pub struct SaleForm {
    pub item: Option<ItemOption>,
    pub qty: String,
    pub price: String,
}

impl Default for SaleForm {
    fn default() -> (r: SaleForm)
        ensures
            r.item is None && r.qty@.len() == 0 && r.price@.len() == 0,
    {
        SaleForm { item: None, qty: String::new(), price: String::new() }
    }
}

impl SaleForm {
    pub open spec fn value(&self, field: Field) -> Seq<char> {
        match field {
            Field::Qty => self.qty@,
            Field::Price => self.price@,
        }
    }

    pub fn set_field(&mut self, field: Field, value: String)
        ensures
            final(self).value(field) == value@,
            forall|g: Field| g != field ==> final(self).value(g) == old(self).value(g),
            final(self).item == old(self).item,
    {
        match field {
            Field::Qty => self.qty = value,
            Field::Price => self.price = value,
        }
    }

    pub fn get_field(&self, field: Field) -> (r: String)
        ensures
            r@ == self.value(field),
    {
        match field {
            Field::Qty => self.qty.clone(),
            Field::Price => self.price.clone(),
        }
    }
}

/// Puts the item's sell price into a price field the shopkeeper has left
/// blank; a price already typed is kept.
pub fn prefill_price(price: &mut String, sell_price_paise: i64)
    ensures
        spec_trim(old(price)@).len() == 0 ==> final(price)@ == spec_paise_to_input(sell_price_paise as int),
        spec_trim(old(price)@).len() > 0 ==> *final(price) == *old(price),
{
    if trim(price.as_str()).unicode_len() == 0 {
        *price = paise_to_input(sell_price_paise);
    }
}

impl SaleForm {
    /// Picking an item for the sale: the price is cleared, to be filled
    /// from the item once it loads.
    pub fn select_item(&mut self, option: ItemOption)
        ensures
            final(self).item == Some(option),
            final(self).price@.len() == 0,
            final(self).qty == old(self).qty,
    {
        self.item = Some(option);
        self.price = String::new();
    }
}

/// The price the validation reaches fits in paise.
pub open spec fn sale_price_fits(form: SaleForm, qty_positive: bool) -> bool {
    form.item is Some && qty_positive ==> amount_fits(form.price@)
}

/// Checks the sale form: an item must be chosen, the quantity (as the
/// caller read it) must be positive, and the price must be an amount. On
/// success, the item's id and the price in paise.
pub fn check_sale(form: &SaleForm, qty_positive: bool) -> (r: Result<(i64, i64), String>)
    requires
        sale_price_fits(*form, qty_positive),
    ensures
        match form.item {
            None => r matches Err(e) && e@ == "choose an item first"@,
            Some(item) => if !qty_positive {
                r matches Err(e) && e@ == "quantity must be a positive number"@
            } else {
                match spec_rupees_to_paise(form.price@) {
                    None => r matches Err(e) && e@ == "sell price must be a valid amount, e.g. 120.00"@,
                    Some(p) => r matches Ok((id, price)) && id == item.id && price == p,
                }
            },
        },
{
    let id = match &form.item {
        None => return Err(String::from_str("choose an item first")),
        Some(item) => item.id,
    };
    if !qty_positive {
        return Err(String::from_str("quantity must be a positive number"));
    }
    match rupees_to_paise(form.price.as_str()) {
        None => Err(String::from_str("sell price must be a valid amount, e.g. 120.00")),
        Some(price) => Ok((id, price)),
    }
}

} // verus!
