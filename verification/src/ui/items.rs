//! The Inventory screen's forms: adding/editing an item and restocking one.
use vstd::prelude::*;
use crate::models::Unit;
use crate::money::{amount_fits, paise_to_input, rupees_to_paise, spec_paise_to_input, spec_rupees_to_paise};
use crate::text::{contains_text, lowercase, spec_contains, spec_lowercase, spec_trim, trim};
use crate::ui::common::{bytes_view, copy_bytes};
use crate::ui::catalogue::{
    CatalogueEntry, ListOrder, clamped_page, increasing, is_listing, page_count,
    page_rows, spec_page_count, take_page,
};

verus! {

#[derive(Debug, Clone, Copy, PartialEq, Eq, Structural)]
pub enum PurchaseField {
    Qty,
    Price,
}

/// Restocking an existing item, opened from that item's detail screen.
#[derive(Debug)]
pub struct PurchaseForm {
    pub item_id: i64,
    pub item_name: String,
    pub qty: String,
    pub price: String,
}

impl PurchaseForm {
    pub open spec fn value(&self, field: PurchaseField) -> Seq<char> {
        match field {
            PurchaseField::Qty => self.qty@,
            PurchaseField::Price => self.price@,
        }
    }

    pub fn set_field(&mut self, field: PurchaseField, value: String)
        ensures
            final(self).value(field) == value@,
            forall|g: PurchaseField| g != field ==> final(self).value(g) == old(self).value(g),
            final(self).item_id == old(self).item_id,
            final(self).item_name == old(self).item_name,
    {
        match field {
            PurchaseField::Qty => self.qty = value,
            PurchaseField::Price => self.price = value,
        }
    }

    pub fn get_field(&self, field: PurchaseField) -> (r: String)
        ensures
            r@ == self.value(field),
    {
        match field {
            PurchaseField::Qty => self.qty.clone(),
            PurchaseField::Price => self.price.clone(),
        }
    }
}

#[derive(Debug, Clone, Copy, PartialEq, Eq, Structural)]
pub enum FormField {
    Name,
    BuyPrice,
    SellPrice,
    StockQty,
    LowStockThreshold,
    Description,
    GstRate,
}

/// The inventory list's unit filter: every unit, or just one.
#[derive(Debug, Clone, Copy, PartialEq, Eq, Structural)]
pub enum UnitFilter {
    All,
    Only(Unit),
}

impl Default for UnitFilter {
    fn default() -> (r: UnitFilter)
        ensures
            r == UnitFilter::All,
    {
        UnitFilter::All
    }
}

impl UnitFilter {
    /// The filter's choices, in the order the picker lists them.
    pub fn all() -> (r: [UnitFilter; 4])
        ensures
            r@ == seq![
                UnitFilter::All,
                UnitFilter::Only(Unit::Piece),
                UnitFilter::Only(Unit::Kg),
                UnitFilter::Only(Unit::Metre),
            ],
    {
        [UnitFilter::All, UnitFilter::Only(Unit::Piece), UnitFilter::Only(Unit::Kg), UnitFilter::Only(Unit::Metre)]
    }

    /// Whether an item stocked in `unit` (its stored name) passes the filter.
    pub open spec fn passes(self, unit: Seq<char>) -> bool {
        match self {
            UnitFilter::All => true,
            UnitFilter::Only(u) => unit == u.spec_name(),
        }
    }

    /// Whether an item stocked in `unit` passes the filter.
    pub fn matches(self, unit: &str) -> (r: bool)
        ensures
            r == self.passes(unit@),
    {
        match self {
            UnitFilter::All => true,
            UnitFilter::Only(u) => crate::text::same_text(unit, u.as_str()),
        }
    }

    /// The label the picker shows.
    pub fn label(self) -> (r: &'static str)
        ensures
            r@ == match self {
                UnitFilter::All => "All units"@,
                UnitFilter::Only(u) => u.spec_name(),
            },
    {
        match self {
            UnitFilter::All => "All units",
            UnitFilter::Only(u) => u.as_str(),
        }
    }
}

/// A stored item as the edit form reads it; the low-stock threshold is
/// the text it is shown as.
#[derive(Debug)]
pub struct ItemDetails {
    pub id: i64,
    pub name: String,
    pub buy_price_paise: i64,
    pub sell_price_paise: i64,
    /// The unit's stored name.
    pub unit: String,
    pub low_stock_threshold: String,
    pub description: String,
    pub gst_rate_bp: Option<i64>,
}

/// `form` is the edit form for `item`: its prices as typed amounts, its
/// unit (a stored name that is no unit reads as pieces), its GST override
/// if any, opening stock blank and no photo yet.
pub open spec fn edit_form_of(form: ItemForm, item: ItemDetails) -> bool {
    &&& form.editing_id == Some(item.id)
    &&& form.name@ == item.name@
    &&& form.buy_price@ == spec_paise_to_input(item.buy_price_paise as int)
    &&& form.sell_price@ == spec_paise_to_input(item.sell_price_paise as int)
    &&& form.stock_qty@.len() == 0
    &&& form.unit == (if item.unit@ == "kg"@ {
        Unit::Kg
    } else if item.unit@ == "metre"@ {
        Unit::Metre
    } else {
        Unit::Piece
    })
    &&& form.low_stock_threshold@ == item.low_stock_threshold@
    &&& form.description@ == item.description@
    &&& form.image is None
    &&& form.gst_rate@ == match item.gst_rate_bp {
        Some(bp) => spec_paise_to_input(bp as int),
        None => Seq::<char>::empty(),
    }
}

/// The add/edit item form.
pub struct ItemForm {
    pub editing_id: Option<i64>,
    pub name: String,
    pub buy_price: String,
    pub sell_price: String,
    /// Opening stock: only used when adding a new item; existing stock
    /// changes only through purchases and sales.
    pub stock_qty: String,
    pub unit: Unit,
    pub low_stock_threshold: String,
    pub description: String,
    /// The photo to store; `None` means no photo (or not loaded yet).
    pub image: Option<Vec<u8>>,
    /// GST rate override as a percentage string; blank means the shop's
    /// default rate.
    pub gst_rate: String,
}

impl ItemForm {
    pub open spec fn value(&self, field: FormField) -> Seq<char> {
        match field {
            FormField::Name => self.name@,
            FormField::BuyPrice => self.buy_price@,
            FormField::SellPrice => self.sell_price@,
            FormField::StockQty => self.stock_qty@,
            FormField::LowStockThreshold => self.low_stock_threshold@,
            FormField::Description => self.description@,
            FormField::GstRate => self.gst_rate@,
        }
    }

    /// A blank form for a new item, in pieces.
    pub fn empty() -> (r: ItemForm)
        ensures
            r.editing_id is None,
            forall|f: FormField| r.value(f).len() == 0,
            r.unit == Unit::Piece,
            r.image is None,
    {
        ItemForm {
            editing_id: None,
            name: String::new(),
            buy_price: String::new(),
            sell_price: String::new(),
            stock_qty: String::new(),
            unit: Unit::Piece,
            low_stock_threshold: String::new(),
            description: String::new(),
            image: None,
            gst_rate: String::new(),
        }
    }

    /// The form for editing a stored item: its prices as typed amounts,
    /// its unit (a stored name that is no unit reads as pieces), and its
    /// GST override, if any; opening stock is left blank, since an edit
    /// never changes stock.
    pub fn from_item(item: &ItemDetails) -> (r: ItemForm)
        ensures
            edit_form_of(r, *item),
    {
        let unit = match Unit::parse(item.unit.as_str()) {
            Some(u) => u,
            None => Unit::Piece,
        };
        proof {
            reveal_strlit("kg");
            reveal_strlit("metre");
            reveal_strlit("piece");
            assert("kg"@.len() != "piece"@.len() && "kg"@.len() != "metre"@.len());
            assert("metre"@[0] != "piece"@[0]);
        }
        ItemForm {
            editing_id: Some(item.id),
            name: item.name.clone(),
            buy_price: paise_to_input(item.buy_price_paise),
            sell_price: paise_to_input(item.sell_price_paise),
            stock_qty: String::new(),
            unit,
            low_stock_threshold: item.low_stock_threshold.clone(),
            description: item.description.clone(),
            image: None,
            gst_rate: match item.gst_rate_bp {
                Some(bp) => paise_to_input(bp),
                None => String::new(),
            },
        }
    }

    pub fn set_field(&mut self, field: FormField, value: String)
        ensures
            final(self).value(field) == value@,
            forall|g: FormField| g != field ==> final(self).value(g) == old(self).value(g),
            final(self).editing_id == old(self).editing_id,
            final(self).unit == old(self).unit,
            final(self).image == old(self).image,
    {
        match field {
            FormField::Name => self.name = value,
            FormField::BuyPrice => self.buy_price = value,
            FormField::SellPrice => self.sell_price = value,
            FormField::StockQty => self.stock_qty = value,
            FormField::LowStockThreshold => self.low_stock_threshold = value,
            FormField::Description => self.description = value,
            FormField::GstRate => self.gst_rate = value,
        }
    }

    /// The current value of `field`, read before overwriting it so an
    /// undo can hand it back.
    pub fn get_field(&self, field: FormField) -> (r: String)
        ensures
            r@ == self.value(field),
    {
        match field {
            FormField::Name => self.name.clone(),
            FormField::BuyPrice => self.buy_price.clone(),
            FormField::SellPrice => self.sell_price.clone(),
            FormField::StockQty => self.stock_qty.clone(),
            FormField::LowStockThreshold => self.low_stock_threshold.clone(),
            FormField::Description => self.description.clone(),
            FormField::GstRate => self.gst_rate.clone(),
        }
    }
}

/// Rows per page of the Inventory list.
pub const PAGE_SIZE: usize = 10;

/// The Inventory list's filters: blank search text matches every name,
/// other text, trimmed and lowercased, is a substring of the lowercased
/// name; the unit passes the unit filter; and the item is low when only
/// low items are asked for.
pub open spec fn list_matches(
    e: CatalogueEntry,
    search_query: Seq<char>,
    unit_filter: UnitFilter,
    low_stock_only: bool,
) -> bool {
    let t = spec_trim(search_query);
    &&& (t.len() == 0 || spec_contains(spec_lowercase(e.name@), spec_lowercase(t)))
    &&& unit_filter.passes(e.unit@)
    &&& (low_stock_only ==> e.low_stock)
}

/// The positions the Inventory list's filters keep.
pub open spec fn list_choice(
    entries: Seq<CatalogueEntry>,
    search_query: Seq<char>,
    unit_filter: UnitFilter,
    low_stock_only: bool,
) -> spec_fn(int) -> bool {
    |i: int| list_matches(entries[i], search_query, unit_filter, low_stock_only)
}

/// The Inventory list as shown: the page of filtered items (in the order
/// the items were given), how many items passed the filters, and how many
/// pages they fill. A page number left over from a longer list is clamped
/// to the last page.
pub fn current_page(
    entries: &[CatalogueEntry],
    search_query: &str,
    unit_filter: UnitFilter,
    low_stock_only: bool,
    items_page: usize,
) -> (r: (Vec<usize>, usize, usize))
    ensures
        exists|all: Seq<usize>|
            is_listing(
                entries@,
                ListOrder::AsGiven,
                list_choice(entries@, search_query@, unit_filter, low_stock_only),
                all,
            ) && r.1 == all.len() && r.2 == spec_page_count(all.len() as int, PAGE_SIZE as int)
                && r.0@ == page_rows(
                all,
                PAGE_SIZE as int,
                clamped_page(all.len() as int, PAGE_SIZE as int, items_page as int),
            ),
        r.0@.len() <= PAGE_SIZE,
{
    let typed = trim(search_query);
    let blank = typed.unicode_len() == 0;
    let query = lowercase(typed);
    let ghost chosen = list_choice(entries@, search_query@, unit_filter, low_stock_only);
    let mut picked: Vec<usize> = Vec::new();
    let mut i: usize = 0;
    while i < entries.len()
        invariant
            i <= entries@.len(),
            query@ == spec_lowercase(spec_trim(search_query@)),
            blank == (spec_trim(search_query@).len() == 0),
            chosen == list_choice(entries@, search_query@, unit_filter, low_stock_only),
            increasing(picked@),
            forall|k: int| 0 <= k < picked@.len() ==> picked@[k] < i && chosen(picked@[k] as int),
            forall|j: int| 0 <= j < i && #[trigger] chosen(j) ==> picked@.contains(j as usize),
        decreases entries@.len() - i,
    {
        let e = &entries[i];
        let mut keep = true;
        if !blank {
            let name = lowercase(e.name.as_str());
            keep = contains_text(name.as_str(), query.as_str());
        }
        keep = keep && unit_filter.matches(e.unit.as_str()) && (!low_stock_only || e.low_stock);
        assert(keep == chosen(i as int));
        let ghost before = picked@;
        if keep {
            picked.push(i);
            assert(picked@[picked@.len() - 1] == i);
        }
        assert forall|j: int| 0 <= j <= i && #[trigger] chosen(j) implies picked@.contains(j as usize) by {
            if j < i {
                let k = choose|k: int| 0 <= k < before.len() && before[k] == j as usize;
                assert(picked@[k] == j as usize);
            } else {
                assert(picked@[picked@.len() - 1] == j as usize);
            }
        }
        i = i + 1;
    }
    let total = picked.len();
    let count = page_count(total, PAGE_SIZE);
    let (rows, _) = take_page(&picked, PAGE_SIZE, items_page);
    assert(is_listing(entries@, ListOrder::AsGiven, chosen, picked@));
    (rows, total, count)
}

/// How a typed quantity reads as a number, as the caller's decimal
/// parser found it.
#[derive(Debug, Clone, Copy, PartialEq, Eq, Structural)]
pub enum QuantityReading {
    NotANumber,
    Negative,
    /// A number that is not below zero.
    Number,
}

/// The add/edit form, checked and ready to store; the two quantities are
/// the caller's, read as `QuantityReading::Number`.
#[derive(Debug)]
pub struct ParsedForm {
    pub editing_id: Option<i64>,
    pub name: String,
    pub buy_price_paise: i64,
    pub sell_price_paise: i64,
    pub unit: Unit,
    pub description: String,
    pub image: Option<Vec<u8>>,
    pub gst_rate_bp: Option<i64>,
}

/// What is wrong with the opening stock, if anything: it is only asked
/// for when adding an item.
pub open spec fn stock_error(form: ItemForm, stock: QuantityReading) -> Option<Seq<char>> {
    if form.editing_id is Some {
        None
    } else if spec_trim(form.stock_qty@).len() == 0 {
        Some("opening stock is required"@)
    } else if stock == QuantityReading::NotANumber {
        Some("opening stock must be a number"@)
    } else if stock == QuantityReading::Negative {
        Some("opening stock cannot be negative"@)
    } else {
        None
    }
}

/// What is wrong with the low-stock threshold, if anything.
pub open spec fn threshold_error(form: ItemForm, threshold: QuantityReading) -> Option<Seq<char>> {
    if spec_trim(form.low_stock_threshold@).len() == 0 {
        Some("low-stock alert threshold is required"@)
    } else if threshold == QuantityReading::NotANumber {
        Some("low-stock alert threshold must be a number"@)
    } else if threshold == QuantityReading::Negative {
        Some("low-stock alert threshold cannot be negative"@)
    } else {
        None
    }
}

/// The first problem with the form, checked in the order the fields are
/// laid out: name, buy price, sell price, opening stock, threshold, GST.
pub open spec fn form_error(form: ItemForm, stock: QuantityReading, threshold: QuantityReading) -> Option<Seq<char>> {
    if spec_trim(form.name@).len() == 0 {
        Some("item name is required"@)
    } else if spec_rupees_to_paise(form.buy_price@) is None {
        Some("buy price must be a valid amount, e.g. 80.50"@)
    } else if spec_rupees_to_paise(form.sell_price@) is None {
        Some("sell price must be a valid amount, e.g. 120.00"@)
    } else if stock_error(form, stock) is Some {
        stock_error(form, stock)
    } else if threshold_error(form, threshold) is Some {
        threshold_error(form, threshold)
    } else if spec_trim(form.gst_rate@).len() > 0 && spec_rupees_to_paise(form.gst_rate@) is None {
        Some("GST rate must be a valid percentage, e.g. 18 or 18.00"@)
    } else {
        None
    }
}

/// Every amount the validation reaches fits in paise.
pub open spec fn form_amounts_fit(form: ItemForm, stock: QuantityReading, threshold: QuantityReading) -> bool {
    spec_trim(form.name@).len() > 0 ==> {
        &&& amount_fits(form.buy_price@)
        &&& (spec_rupees_to_paise(form.buy_price@) is Some ==> {
            &&& amount_fits(form.sell_price@)
            &&& (spec_rupees_to_paise(form.sell_price@) is Some && stock_error(form, stock) is None
                && threshold_error(form, threshold) is None ==> amount_fits(form.gst_rate@))
        })
    }
}

/// Checks the add/edit item form. `stock` and `threshold` say how the
/// trimmed opening stock and threshold read as numbers.
pub fn parse_form(form: &ItemForm, stock: QuantityReading, threshold: QuantityReading) -> (r: Result<ParsedForm, String>)
    requires
        form_amounts_fit(*form, stock, threshold),
    ensures
        match form_error(*form, stock, threshold) {
            Some(m) => r matches Err(e) && e@ == m,
            None => r matches Ok(p) && {
                &&& p.editing_id == form.editing_id
                &&& p.name@ == spec_trim(form.name@)
                &&& spec_rupees_to_paise(form.buy_price@) == Some(p.buy_price_paise as int)
                &&& spec_rupees_to_paise(form.sell_price@) == Some(p.sell_price_paise as int)
                &&& p.unit == form.unit
                &&& p.description@ == spec_trim(form.description@)
                &&& bytes_view(p.image) == bytes_view(form.image)
                &&& match p.gst_rate_bp {
                    None => spec_trim(form.gst_rate@).len() == 0,
                    Some(g) => spec_trim(form.gst_rate@).len() > 0 && spec_rupees_to_paise(form.gst_rate@)
                        == Some(g as int),
                }
            },
        },
{
    let name = trim(form.name.as_str());
    if name.unicode_len() == 0 {
        return Err(String::from_str("item name is required"));
    }
    let buy_price_paise = match rupees_to_paise(form.buy_price.as_str()) {
        Some(v) => v,
        None => return Err(String::from_str("buy price must be a valid amount, e.g. 80.50")),
    };
    let sell_price_paise = match rupees_to_paise(form.sell_price.as_str()) {
        Some(v) => v,
        None => return Err(String::from_str("sell price must be a valid amount, e.g. 120.00")),
    };
    if form.editing_id.is_none() {
        if trim(form.stock_qty.as_str()).unicode_len() == 0 {
            return Err(String::from_str("opening stock is required"));
        }
        match stock {
            QuantityReading::NotANumber => return Err(String::from_str("opening stock must be a number")),
            QuantityReading::Negative => return Err(String::from_str("opening stock cannot be negative")),
            QuantityReading::Number => {},
        }
    }
    if trim(form.low_stock_threshold.as_str()).unicode_len() == 0 {
        return Err(String::from_str("low-stock alert threshold is required"));
    }
    match threshold {
        QuantityReading::NotANumber => return Err(String::from_str("low-stock alert threshold must be a number")),
        QuantityReading::Negative => return Err(String::from_str("low-stock alert threshold cannot be negative")),
        QuantityReading::Number => {},
    }
    let gst_rate_bp = if trim(form.gst_rate.as_str()).unicode_len() == 0 {
        None
    } else {
        match rupees_to_paise(form.gst_rate.as_str()) {
            Some(v) => Some(v),
            None => return Err(String::from_str("GST rate must be a valid percentage, e.g. 18 or 18.00")),
        }
    };
    Ok(ParsedForm {
        editing_id: form.editing_id,
        name: String::from_str(name),
        buy_price_paise,
        sell_price_paise,
        unit: form.unit,
        description: String::from_str(trim(form.description.as_str())),
        image: copy_bytes(&form.image),
        gst_rate_bp,
    })
}

/// Checks the restock form: the quantity (as the caller read it) must be
/// positive and the buy price an amount. On success, the price in paise.
pub fn check_purchase(form: &PurchaseForm, qty_positive: bool) -> (r: Result<i64, String>)
    requires
        qty_positive ==> amount_fits(form.price@),
    ensures
        if !qty_positive {
            r matches Err(e) && e@ == "quantity must be a positive number"@
        } else {
            match spec_rupees_to_paise(form.price@) {
                None => r matches Err(e) && e@ == "buy price must be a valid amount, e.g. 80.00"@,
                Some(p) => r == Ok::<i64, String>(p as i64),
            }
        },
{
    if !qty_positive {
        return Err(String::from_str("quantity must be a positive number"));
    }
    match rupees_to_paise(form.price.as_str()) {
        None => Err(String::from_str("buy price must be a valid amount, e.g. 80.00")),
        Some(price) => Ok(price),
    }
}

} // verus!
