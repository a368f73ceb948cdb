//! The decisions the screens make in answer to the shopkeeper: which
//! screen shows, which page of a list, when a delete really happens, and
//! what locking the counter wipes.
//!
//! `step` takes the session and one event and returns what must be
//! fetched or done next; performing that work (database, files, windows)
//! and feeding its result back is the caller's loop.
use vstd::prelude::*;
use crate::ui::history::{
    EditableField, EditableState, InventoryTab, Notice, NoticeKind, ShopTab, Stage, lemma_redo_reapplies,
    lemma_undo_restores, page_after, page_after_replay, push_edit, push_model, redo, redo_model, same_fixed_parts, undo,
    undo_model,
};
use crate::ui::common::{ItemOption, PickerState};
use crate::ui::items::{edit_form_of, ItemDetails, ItemForm, UnitFilter};
use crate::ui::reports::{field_text, shifted, show_day, Calendar, Field, Preset, ReportsState};
use crate::settings::spec_parse_day;
use crate::ui::sale::SaleForm;
use crate::ui::sale::prefill_price;
use crate::money::spec_paise_to_input;
use crate::text::spec_trim;
use crate::ui::login::LoginState;
use crate::ui::settings::{profile_form_of, ProfileForm, SecurityField, SecurityForm, SettingsTab};
use crate::ui::common::{bytes_view, copy_bytes, image_size_ok, MAX_IMAGE_BYTES};
use crate::ui::bills::{check_line, line_rate, remove_line, CartLine};
use crate::ui::items::PurchaseForm;
use crate::models::{ShopProfile, Unit};
use crate::money::{amount_fits, paise_to_input, spec_rupees_to_paise};
use crate::settings::Settings;

verus! {

/// What the screens hold between events, apart from loaded rows.
pub struct Session {
    pub stage: Stage,
    pub shop_tab: ShopTab,
    pub inventory_tab: InventoryTab,
    pub settings_tab: SettingsTab,
    /// Every typed field, the inventory list's page, and the undo history.
    pub fields: EditableState,
    pub login: LoginState,
    pub notice: Option<Notice>,
    pub unit_filter: UnitFilter,
    pub low_stock_only: bool,
    pub low_stock_page: usize,
    pub bills_page: i64,
    /// The item whose delete button was pressed once and awaits a second press.
    pub confirming_delete_item: Option<i64>,
    /// The bill whose delete button was pressed once and awaits a second press.
    pub confirming_delete_bill: Option<i64>,
    pub viewing_item_id: Option<i64>,
    /// The item pickers' shared text and candidates.
    pub picker: PickerState,
    /// The registered shop, once loaded.
    pub shop: Option<ShopProfile>,
    /// The shop's logo, once loaded.
    pub shop_logo: Option<Vec<u8>>,
    /// The PIN change form (kept out of the undo history).
    pub security_form: SecurityForm,
    /// This machine's settings.
    pub settings: Settings,
    /// The bill being built or edited.
    pub bill_cart: Vec<CartLine>,
    /// The bill being edited, if the cart holds a saved bill.
    pub bill_editing_id: Option<i64>,
    /// The item picked for the next cart line.
    pub bill_item: Option<ItemOption>,
    /// That item's own GST rate, once it has loaded.
    pub bill_item_gst_rate_bp: Option<i64>,
}

impl Default for Session {
    /// The session at start-up: loading, nothing typed, first pages,
    /// every filter off.
    fn default() -> (r: Session)
        ensures
            r.stage == Stage::Loading,
            r.shop_tab == ShopTab::Details,
            r.inventory_tab == InventoryTab::Items,
            r.settings_tab == SettingsTab::Profile,
            r.fields.undo_stack@.len() == 0 && r.fields.redo_stack@.len() == 0,
            r.fields.items_page == 0 && r.fields.search_query@.len() == 0,
            r.fields.item_form is None && r.fields.purchase_form is None,
            r.login.is_blank(),
            r.notice is None,
            r.unit_filter == UnitFilter::All,
            !r.low_stock_only,
            r.low_stock_page == 0 && r.bills_page == 0,
            r.confirming_delete_item is None && r.confirming_delete_bill is None,
            r.viewing_item_id is None,
            r.picker.target is None && r.picker.query@.len() == 0,
            r.shop is None && r.shop_logo is None,
            r.bill_cart@.len() == 0 && r.bill_editing_id is None && r.bill_item is None,
    {
        Session {
            stage: Stage::Loading,
            shop_tab: ShopTab::Details,
            inventory_tab: InventoryTab::Items,
            settings_tab: SettingsTab::Profile,
            fields: EditableState::default(),
            login: LoginState::default(),
            notice: None,
            unit_filter: UnitFilter::All,
            low_stock_only: false,
            low_stock_page: 0,
            bills_page: 0,
            confirming_delete_item: None,
            confirming_delete_bill: None,
            viewing_item_id: None,
            picker: PickerState::default(),
            shop: None,
            shop_logo: None,
            security_form: SecurityForm::default(),
            settings: Settings::default(),
            bill_cart: Vec::new(),
            bill_editing_id: None,
            bill_item: None,
            bill_item_gst_rate_bp: None,
        }
    }
}

/// Something the shopkeeper did, or a load that finished, as plain values.
#[derive(Debug)]
pub enum Event {
    Undo,
    Redo,
    Lock,
    GoHome,
    GoToShop,
    GoToInventory,
    ShopTabSelected(ShopTab),
    InventoryTabSelected(InventoryTab),
    /// Text typed into a field that keeps undo history.
    FieldEdited(EditableField, String),
    UnitFilterSelected(UnitFilter),
    LowStockOnlyToggled(bool),
    ItemsPageNext,
    ItemsPagePrev,
    LowStockPageNext,
    LowStockPagePrev,
    BillsPageNext,
    BillsPagePrev,
    ReportsPageNext,
    ReportsPagePrev,
    DeleteItemPressed(i64),
    DeleteBillPressed(i64),
    /// The shop profile finished loading (`None`: no shop is registered).
    ProfileLoaded(Option<ShopProfile>),
    /// The shop was registered, as stored.
    ShopRegistered(ShopProfile),
    /// The shop's logo finished loading.
    ShopLogoLoaded(Option<Vec<u8>>),
    ActivationNeeded,
    OpenAddItemForm,
    CancelItemForm,
    CancelPurchaseForm,
    ForgotPinPressed,
    CancelPinReset,
    OpenSettings,
    SettingsTabSelected(SettingsTab),
    CloseView,
    /// The item picked for a sale finished loading: its sell price, if found.
    SaleItemLoaded(Option<i64>),
    /// The item picked for a bill finished loading: its sell price and its
    /// own GST rate, if found.
    BillItemLoaded(Option<(i64, Option<i64>)>),
    /// The report's item filter was picked (`None`: all items).
    ReportsItemFilterSelected(Option<ItemOption>),
    ReportsFiltersCleared,
    /// A preset range was picked; `today` is the day it counts from.
    ReportsPresetSelected(Preset, (i32, u32, u32)),
    /// The calendar was opened for a field; `today` is where it opens when
    /// the field names no date.
    ReportsCalendarOpened(Field, (i32, u32, u32)),
    ReportsCalendarClosed,
    ReportsCalendarShifted(i32),
    /// A day was picked on the open calendar.
    ReportsDatePicked((i32, u32, u32)),
    ReportsDateCleared,
    /// The item asked to be edited, as it is on screen (`None`: it is not).
    OpenEditItemForm(Option<ItemDetails>),
    /// Saving the item form finished: the item's id, or why it failed.
    ItemSaved(Result<i64, String>),
    /// Deleting an item finished.
    ItemDeleted(Result<i64, String>),
    /// Recording a purchase finished.
    PurchaseRecorded(Result<(), String>),
    /// Recording a sale finished.
    SaleRecorded(Result<(), String>),
    /// Saving the bill finished: its id, or why it failed.
    BillSaved(Result<i64, String>),
    /// Deleting a bill finished.
    BillDeleted(Result<(), String>),
    /// Saving the shop profile finished.
    ProfileSaved(Result<ShopProfile, String>),
    /// Changing the PIN finished: the new stored hash (`None`: no PIN).
    PinChanged(Result<Option<String>, String>),
    /// Text typed into the PIN change form.
    SecurityFieldChanged(SecurityField, String),
    /// A backup finished: where it was written, or why it failed; `today`
    /// is the day it was taken.
    BackupCompleted(Result<String, String>, (i32, u32, u32)),
    /// Restocking was asked for an item, as it is on screen (`None`: it is not).
    OpenPurchaseForm(Option<ItemDetails>),
    /// An item's photo loaded for the edit form of that item's id.
    ItemImageLoadedForEdit(i64, Option<Vec<u8>>),
    /// A photo file was read for the item form: its bytes, and whether
    /// they decode as an image.
    ItemImagePicked(Vec<u8>, bool),
    RemoveItemImage,
    FormUnitSelected(Unit),
    /// A logo file was read for the profile form: its bytes, and whether
    /// they decode as an image.
    ProfileLogoPicked(Vec<u8>, bool),
    RemoveProfileLogo,
    /// An item was picked for the next cart line.
    BillItemSelected(ItemOption),
    /// Add a line from the picked item and the typed quantity and price;
    /// whether the typed quantity reads as a number above zero.
    AddBillLine(bool),
    RemoveBillLine(usize),
    /// A saved bill loaded for editing: its id, discount and lines.
    BillEditLoaded(i64, i64, Vec<CartLine>),
    CancelBillEdit,
}

/// The work an event leaves for the caller.
#[derive(Debug, Clone, Copy, PartialEq, Eq, Structural)]
pub enum Action {
    Nothing,
    /// Fetch the inventory list's current page.
    LoadItems,
    /// Fetch the low-stock panel's current page.
    LoadLowStock,
    /// Fetch this page of the bill history.
    LoadBills(i64),
    /// Rerun the report at its current page.
    RunReport,
    /// Load what a shop tab shows.
    EnterShopTab(ShopTab),
    /// Delete this item (its second press).
    DeleteItem(i64),
    /// Delete this bill (its second press).
    DeleteBill(i64),
    /// Fetch the shop's logo.
    LoadShopLogo,
    /// Take the day's automatic backup if it is due.
    AutoBackup,
    /// Fetch every list that shows items again.
    ReloadItems,
    /// Fetch the items again, and this page of the bill history.
    ReloadAfterBill(i64),
    /// Fetch this item's photo into the edit form.
    LoadItemImage(i64),
    /// Write the settings file.
    SaveSettings,
    /// Fetch the item picked for the cart (its price and GST rate).
    LoadBillItem(i64),
}

/// A press of a delete button: the first press on an item asks for
/// confirmation, a second press on the same item deletes it, and a press
/// on another item moves the question there. Returns the pending
/// confirmation afterwards and whether to delete.
pub open spec fn delete_press(confirming: Option<i64>, id: i64) -> (Option<i64>, bool) {
    if confirming == Some(id) {
        (None, true)
    } else {
        (Some(id), false)
    }
}

/// A delete happens on exactly the press that follows a press on the same
/// item; from nothing pending, it takes two presses.
pub proof fn lemma_delete_needs_two_presses(confirming: Option<i64>, id: i64)
    ensures
        delete_press(confirming, id).1 <==> confirming == Some(id),
        !delete_press(None, id).1,
        delete_press(delete_press(None, id).0, id) == (None::<i64>, true),
{
}

fn press_delete(confirming: &mut Option<i64>, id: i64) -> (go: bool)
    ensures
        (*final(confirming), go) == delete_press(*old(confirming), id),
{
    if *confirming == Some(id) {
        *confirming = None;
        true
    } else {
        *confirming = Some(id);
        false
    }
}

/// The page before `page`, never below zero.
pub open spec fn page_before(page: usize) -> usize {
    if page == 0 {
        0
    } else {
        (page - 1) as usize
    }
}

/// What locking the counter leaves behind: the login screen, an empty
/// login form, and no undo or redo history for the next person to walk
/// back through.
pub open spec fn locked(s: Session) -> bool {
    &&& s.stage == Stage::Login
    &&& s.login.is_blank()
    &&& s.fields.undo_stack@.len() == 0
    &&& s.fields.redo_stack@.len() == 0
}

/// Once the counter is locked, undo and redo change nothing: the next
/// person cannot walk back through the last one's typing.
pub proof fn lemma_locked_history_is_inert(s: Session)
    requires
        locked(s),
    ensures
        undo_model(s.fields.model()) == s.fields.model(),
        redo_model(s.fields.model()) == s.fields.model(),
{
}

/// The parts of the session an event leaves alone: everything but what
/// the event is about.
pub open spec fn keeps_rest(a: Session, b: Session, event: Event) -> bool {
    match event {
        Event::GoHome | Event::GoToShop | Event::GoToInventory | Event::ActivationNeeded => b == (Session {
            stage: b.stage,
            ..a
        }),
        Event::ProfileLoaded(_) => b == (Session { stage: b.stage, shop: b.shop, ..a }),
        Event::ShopLogoLoaded(_) => b == (Session { shop_logo: b.shop_logo, ..a }),
        Event::ShopTabSelected(_) => b == (Session { shop_tab: b.shop_tab, ..a }),
        Event::InventoryTabSelected(_) => b == (Session { inventory_tab: b.inventory_tab, ..a }),
        Event::UnitFilterSelected(_) => b == (Session {
            unit_filter: b.unit_filter,
            fields: EditableState { items_page: b.fields.items_page, ..a.fields },
            ..a
        }),
        Event::LowStockOnlyToggled(_) => b == (Session {
            low_stock_only: b.low_stock_only,
            fields: EditableState { items_page: b.fields.items_page, ..a.fields },
            ..a
        }),
        Event::ItemsPageNext | Event::ItemsPagePrev => b == (Session {
            fields: EditableState { items_page: b.fields.items_page, ..a.fields },
            ..a
        }),
        Event::LowStockPageNext | Event::LowStockPagePrev => b == (Session { low_stock_page: b.low_stock_page, ..a }),
        Event::BillsPageNext | Event::BillsPagePrev => b == (Session { bills_page: b.bills_page, ..a }),
        Event::DeleteItemPressed(_) => b == (Session { confirming_delete_item: b.confirming_delete_item, ..a }),
        Event::DeleteBillPressed(_) => b == (Session { confirming_delete_bill: b.confirming_delete_bill, ..a }),
        Event::ShopRegistered(_) => b == (Session { stage: b.stage, notice: b.notice, shop: b.shop, ..a }),
        Event::OpenSettings => b == (Session {
            stage: b.stage,
            settings_tab: b.settings_tab,
            notice: b.notice,
            security_form: b.security_form,
            fields: EditableState { profile_form: b.fields.profile_form, ..a.fields },
            ..a
        }),
        Event::SettingsTabSelected(_) => b == (Session { settings_tab: b.settings_tab, ..a }),
        Event::CloseView => b == (Session { viewing_item_id: b.viewing_item_id, ..a }),
        Event::CancelItemForm => b == (Session {
            fields: EditableState { item_form: b.fields.item_form, ..a.fields },
            ..a
        }),
        Event::ForgotPinPressed | Event::CancelPinReset => b == (Session { login: b.login, ..a }),
        Event::Lock => b == (Session {
            stage: b.stage,
            login: b.login,
            fields: EditableState { undo_stack: b.fields.undo_stack, redo_stack: b.fields.redo_stack, ..a.fields },
            ..a
        }),
        Event::Undo | Event::Redo | Event::FieldEdited(_, _) => b == (Session { fields: b.fields, ..a }),
        Event::OpenAddItemForm => b == (Session {
            fields: EditableState { item_form: b.fields.item_form, ..a.fields },
            viewing_item_id: b.viewing_item_id,
            ..a
        }),
        Event::CancelPurchaseForm => b == (Session {
            fields: EditableState { purchase_form: b.fields.purchase_form, ..a.fields },
            notice: b.notice,
            ..a
        }),
        Event::SaleItemLoaded(_) => b == (Session {
            fields: EditableState {
                sale_form: SaleForm { price: b.fields.sale_form.price, ..a.fields.sale_form },
                ..a.fields
            },
            ..a
        }),
        Event::BillItemLoaded(_) => b == (Session {
            fields: EditableState { bill_price: b.fields.bill_price, ..a.fields },
            bill_item_gst_rate_bp: b.bill_item_gst_rate_bp,
            ..a
        }),
        Event::ReportsPageNext | Event::ReportsPagePrev => b == (Session {
            fields: EditableState {
                reports: ReportsState { page: b.fields.reports.page, ..a.fields.reports },
                ..a.fields
            },
            ..a
        }),
        Event::ReportsCalendarOpened(_, _) | Event::ReportsCalendarClosed | Event::ReportsCalendarShifted(_) => b == (
        Session {
            fields: EditableState {
                reports: ReportsState { calendar: b.fields.reports.calendar, ..a.fields.reports },
                ..a.fields
            },
            ..a
        }),
        Event::ReportsPresetSelected(_, _) | Event::ReportsDatePicked(_) | Event::ReportsDateCleared => b == (Session {
            fields: EditableState {
                reports: ReportsState {
                    from: b.fields.reports.from,
                    to: b.fields.reports.to,
                    calendar: b.fields.reports.calendar,
                    page: b.fields.reports.page,
                    ..a.fields.reports
                },
                ..a.fields
            },
            ..a
        }),
        Event::OpenEditItemForm(found) => match found {
            Some(_) => b == (Session {
                fields: EditableState { item_form: b.fields.item_form, ..a.fields },
                viewing_item_id: b.viewing_item_id,
                ..a
            }),
            None => b == a,
        },
        Event::ItemSaved(Ok(_)) => b == (Session {
            fields: EditableState { item_form: b.fields.item_form, ..a.fields },
            notice: b.notice,
            ..a
        }),
        Event::PurchaseRecorded(Ok(_)) => b == (Session {
            fields: EditableState { purchase_form: b.fields.purchase_form, ..a.fields },
            notice: b.notice,
            ..a
        }),
        Event::SaleRecorded(Ok(_)) => b == (Session {
            fields: EditableState { sale_form: b.fields.sale_form, ..a.fields },
            notice: b.notice,
            ..a
        }),
        Event::BillSaved(Ok(_)) | Event::CancelBillEdit => b == (Session {
            fields: EditableState {
                bill_qty: b.fields.bill_qty,
                bill_price: b.fields.bill_price,
                bill_discount: b.fields.bill_discount,
                ..a.fields
            },
            notice: b.notice,
            bill_cart: b.bill_cart,
            bill_editing_id: b.bill_editing_id,
            bill_item: b.bill_item,
            ..a
        }),
        Event::ProfileSaved(Ok(_)) => b == (Session { notice: b.notice, shop: b.shop, shop_logo: b.shop_logo, ..a }),
        Event::PinChanged(Ok(_)) => b == (Session {
            notice: b.notice,
            shop: b.shop,
            security_form: b.security_form,
            ..a
        }),
        Event::SecurityFieldChanged(_, _) => b == (Session { security_form: b.security_form, ..a }),
        Event::BackupCompleted(_, _) => b == (Session { notice: b.notice, settings: b.settings, ..a }),
        Event::OpenPurchaseForm(found) => match found {
            Some(_) => b == (Session {
                fields: EditableState { purchase_form: b.fields.purchase_form, ..a.fields },
                notice: b.notice,
                ..a
            }),
            None => b == a,
        },
        Event::ItemImageLoadedForEdit(_, _) | Event::RemoveItemImage | Event::FormUnitSelected(_) => b == (Session {
            fields: EditableState { item_form: b.fields.item_form, ..a.fields },
            ..a
        }),
        Event::ItemImagePicked(_, _) => b == (Session {
            fields: EditableState { item_form: b.fields.item_form, ..a.fields },
            notice: b.notice,
            ..a
        }),
        Event::ProfileLogoPicked(_, _) => b == (Session {
            fields: EditableState { profile_form: b.fields.profile_form, ..a.fields },
            notice: b.notice,
            ..a
        }),
        Event::RemoveProfileLogo => b == (Session {
            fields: EditableState { profile_form: b.fields.profile_form, ..a.fields },
            ..a
        }),
        Event::BillItemSelected(_) => b == (Session {
            fields: EditableState { bill_price: b.fields.bill_price, ..a.fields },
            picker: b.picker,
            bill_item: b.bill_item,
            ..a
        }),
        Event::AddBillLine(_) => b == (Session {
            fields: EditableState { bill_qty: b.fields.bill_qty, bill_price: b.fields.bill_price, ..a.fields },
            notice: b.notice,
            bill_cart: b.bill_cart,
            bill_item: b.bill_item,
            ..a
        }),
        Event::RemoveBillLine(_) => b == (Session { bill_cart: b.bill_cart, ..a }),
        Event::BillEditLoaded(_, _, _) => b == (Session {
            fields: EditableState { bill_discount: b.fields.bill_discount, ..a.fields },
            bill_cart: b.bill_cart,
            bill_editing_id: b.bill_editing_id,
            viewing_item_id: b.viewing_item_id,
            ..a
        }),
        Event::ItemSaved(Err(_)) | Event::ItemDeleted(_) | Event::PurchaseRecorded(Err(_)) | Event::SaleRecorded(
            Err(_),
        ) | Event::BillSaved(Err(_)) | Event::BillDeleted(_) | Event::ProfileSaved(Err(_)) | Event::PinChanged(Err(_)) => b == (
        Session { notice: b.notice, ..a }),
        Event::ReportsItemFilterSelected(_) | Event::ReportsFiltersCleared => b == (Session {
            fields: EditableState {
                reports: ReportsState {
                    item_filter: b.fields.reports.item_filter,
                    from: b.fields.reports.from,
                    to: b.fields.reports.to,
                    calendar: b.fields.reports.calendar,
                    page: b.fields.reports.page,
                    ..a.fields.reports
                },
                ..a.fields
            },
            picker: b.picker,
            ..a
        }),
    }
}

/// The events whose handling would overflow a page counter.
pub open spec fn step_allowed(s: Session, event: Event) -> bool {
    match event {
        Event::ItemsPageNext => s.fields.items_page < usize::MAX,
        Event::LowStockPageNext => s.low_stock_page < usize::MAX,
        Event::BillsPageNext => s.bills_page < i64::MAX,
        Event::BillsPagePrev => s.bills_page > i64::MIN,
        Event::ReportsPageNext => s.fields.reports.page < i64::MAX,
        Event::AddBillLine(qty_positive) => s.bill_item is Some && qty_positive ==> amount_fits(s.fields.bill_price@),
        Event::ReportsCalendarShifted(months) => s.fields.reports.calendar matches Some(c) ==> c.month + months
            <= i32::MAX,
        _ => true,
    }
}

/// The shop's default GST rate, once the shop is loaded.
pub open spec fn shop_rate(shop: Option<ShopProfile>) -> Option<i64> {
    match shop {
        Some(p) => Some(p.gst_rate_bp),
        None => None,
    }
}

/// A fresh cart: no lines, no bill being edited, no item picked.
pub open spec fn cart_cleared(b: Session) -> bool {
    b.bill_cart@.len() == 0 && b.bill_editing_id is None && b.bill_item is None
}

/// A cart line refused with `message`: the message is shown and the cart,
/// the picked item and the typed quantity and price stay as they were.
pub open spec fn line_refused(a: Session, b: Session, message: Seq<char>) -> bool {
    &&& b.notice matches Some(n) && n.kind == NoticeKind::Error && n.text@ == message
    &&& b.bill_cart == a.bill_cart
    &&& b.bill_item == a.bill_item
    &&& b.fields.bill_qty == a.fields.bill_qty
    &&& b.fields.bill_price == a.fields.bill_price
}

/// `b` shows `message` as an error.
pub open spec fn shows_error(b: Session, message: Seq<char>) -> bool {
    b.notice matches Some(n) && n.kind == NoticeKind::Error && n.text@ == message
}

/// A failed save or delete: its error is shown, and nothing is left to do.
pub open spec fn refused(b: Session, e: String, action: Action) -> bool {
    &&& b.notice == Some(Notice { text: e, kind: NoticeKind::Error })
    &&& action == Action::Nothing
}

/// What handling `event` does, from session `a` to session `b`, and the
/// work it leaves.
pub open spec fn step_post(a: Session, b: Session, event: Event, action: Action) -> bool {
    &&& keeps_rest(a, b, event)
    &&& match event {
        Event::Undo => {
            &&& b.fields.model() == undo_model(a.fields.model())
            &&& b.fields.items_page == page_after_replay(a.fields.items_page, a.fields.undo_stack@)
            &&& same_fixed_parts(a.fields, b.fields)
            &&& action == Action::Nothing
        },
        Event::Redo => {
            &&& b.fields.model() == redo_model(a.fields.model())
            &&& b.fields.items_page == page_after_replay(a.fields.items_page, a.fields.redo_stack@)
            &&& same_fixed_parts(a.fields, b.fields)
            &&& action == Action::Nothing
        },
        Event::Lock => locked(b) && b.fields.values() == a.fields.values()
            && action == Action::Nothing,
        Event::GoHome => b.stage == Stage::Home && action == Action::Nothing,
        Event::GoToShop => b.stage == Stage::Shop && action == Action::EnterShopTab(
            a.shop_tab,
        ),
        Event::GoToInventory => b.stage == Stage::Inventory && action == Action::LoadItems,
        Event::ShopTabSelected(tab) => b.shop_tab == tab && action == Action::EnterShopTab(
            tab,
        ),
        Event::InventoryTabSelected(tab) => b.inventory_tab == tab && action == (match tab {
            InventoryTab::Items => Action::LoadItems,
            InventoryTab::Backup => Action::Nothing,
        }),
        Event::FieldEdited(field, value) => b.fields.model() == push_model(
            a.fields.model(),
            field,
            value@,
        ) && b.fields.items_page == page_after(a.fields.items_page, field) && same_fixed_parts(a.fields, b.fields)
            && action == (if field == EditableField::Search {
            Action::LoadItems
        } else {
            Action::Nothing
        }),
        Event::UnitFilterSelected(f) => b.unit_filter == f && b.fields.items_page == 0
            && action == Action::LoadItems,
        Event::LowStockOnlyToggled(on) => b.low_stock_only == on && b.fields.items_page
            == 0 && action == Action::LoadItems,
        Event::ItemsPageNext => b.fields.items_page == a.fields.items_page + 1 && action
            == Action::LoadItems,
        Event::ItemsPagePrev => b.fields.items_page == page_before(a.fields.items_page)
            && action == Action::LoadItems,
        Event::LowStockPageNext => b.low_stock_page == a.low_stock_page + 1 && action
            == Action::LoadLowStock,
        Event::LowStockPagePrev => b.low_stock_page == page_before(a.low_stock_page)
            && action == Action::LoadLowStock,
        Event::BillsPageNext => b.bills_page == a.bills_page + 1 && action
            == Action::LoadBills(b.bills_page),
        Event::BillsPagePrev => b.bills_page == (if a.bills_page - 1 > 0 {
            a.bills_page - 1
        } else {
            0
        }) && action == Action::LoadBills(b.bills_page),
        Event::ReportsPageNext => b.fields.reports.page == a.fields.reports.page + 1
            && action == Action::RunReport,
        Event::ReportsPagePrev => b.fields.reports.page == (if a.fields.reports.page
            == i64::MIN {
            i64::MIN as int
        } else {
            a.fields.reports.page - 1
        }) && action == Action::RunReport,
        Event::DeleteItemPressed(id) => {
            let (pending, go) = delete_press(a.confirming_delete_item, id);
            &&& b.confirming_delete_item == pending
            &&& action == (if go {
                Action::DeleteItem(id)
            } else {
                Action::Nothing
            })
        },
        Event::DeleteBillPressed(id) => {
            let (pending, go) = delete_press(a.confirming_delete_bill, id);
            &&& b.confirming_delete_bill == pending
            &&& action == (if go {
                Action::DeleteBill(id)
            } else {
                Action::Nothing
            })
        },
        Event::ProfileLoaded(found) => match found {
            Some(profile) => b.shop == Some(profile) && b.stage == Stage::Login && action == Action::LoadShopLogo,
            None => b.shop == a.shop && b.stage == Stage::Register && action == Action::Nothing,
        },
        Event::ShopRegistered(profile) => b.shop == Some(profile) && b.stage == Stage::Home && b.notice is None
            && action == Action::AutoBackup,
        Event::ShopLogoLoaded(logo) => b.shop_logo == logo && action == Action::Nothing,
        Event::ActivationNeeded => b.stage == Stage::Activation && action == Action::Nothing,
        Event::OpenAddItemForm => b.fields.item_form matches Some(form) && form.editing_id is None
            && b.viewing_item_id is None && action == Action::Nothing,
        Event::CancelItemForm => b.fields.item_form is None && action == Action::Nothing,
        Event::CancelPurchaseForm => b.fields.purchase_form is None && b.notice is None
            && action == Action::Nothing,
        Event::ForgotPinPressed => b.login.reset_open && b.login.reset_error is None
            && b.login.error is None && action == Action::Nothing,
        Event::CancelPinReset => !b.login.reset_open && b.login.reset_key@.len() == 0
            && b.login.reset_pin@.len() == 0 && b.login.reset_confirm@.len() == 0
            && b.login.reset_error is None && action == Action::Nothing,
        Event::OpenSettings => {
            &&& b.stage == Stage::Settings
            &&& b.settings_tab == SettingsTab::Profile
            &&& b.notice is None
            &&& b.security_form.current_pin@.len() == 0 && b.security_form.new_pin@.len() == 0
                && b.security_form.confirm_pin@.len() == 0
            &&& match a.shop {
                Some(shop) => profile_form_of(b.fields.profile_form, shop),
                None => b.fields.profile_form == a.fields.profile_form,
            }
            &&& action == Action::Nothing
        },
        Event::SettingsTabSelected(tab) => b.settings_tab == tab && action == Action::Nothing,
        Event::CloseView => b.viewing_item_id is None && action == Action::Nothing,
        Event::SaleItemLoaded(price) => action == Action::Nothing && match price {
            None => b.fields.sale_form.price == a.fields.sale_form.price,
            Some(p) => if spec_trim(a.fields.sale_form.price@).len() == 0 {
                b.fields.sale_form.price@ == spec_paise_to_input(p as int)
            } else {
                b.fields.sale_form.price == a.fields.sale_form.price
            },
        },
        Event::BillItemLoaded(found) => action == Action::Nothing && match found {
            None => b.fields.bill_price == a.fields.bill_price && b.bill_item_gst_rate_bp == a.bill_item_gst_rate_bp,
            Some((p, rate)) => b.bill_item_gst_rate_bp == rate && if spec_trim(a.fields.bill_price@).len() == 0 {
                b.fields.bill_price@ == spec_paise_to_input(p as int)
            } else {
                b.fields.bill_price == a.fields.bill_price
            },
        },
        Event::ReportsItemFilterSelected(option) => {
            &&& b.fields.reports.item_filter == option
            &&& match option {
                Some(o) => b.picker.query == o.name && b.picker.target is None,
                None => b.picker.query@.len() == 0 && b.picker.target is None,
            }
            &&& b.fields.reports.page == 0
            &&& action == Action::RunReport
        },
        Event::ReportsFiltersCleared => {
            &&& b.picker.query@.len() == 0 && b.picker.target is None
            &&& b.fields.reports.item_filter is None
            &&& b.fields.reports.from@.len() == 0 && b.fields.reports.to@.len() == 0
            &&& b.fields.reports.calendar is None
            &&& b.fields.reports.page == 0
            &&& action == Action::RunReport
        },
        Event::ReportsPresetSelected(preset, today) => {
            &&& b.fields.reports.from@ == field_text(preset.spec_range(today).0)
            &&& b.fields.reports.to@ == field_text(preset.spec_range(today).1)
            &&& b.fields.reports.calendar is None
            &&& b.fields.reports.page == 0
            &&& action == Action::RunReport
        },
        Event::ReportsCalendarOpened(field, today) => {
            &&& b.fields.reports.calendar == Some(
                match spec_parse_day(spec_trim(a.fields.reports.value(field))) {
                    Some(d) => Calendar { field, year: d.0, month: d.1 },
                    None => Calendar { field, year: today.0, month: today.1 },
                },
            )
            &&& action == Action::Nothing
        },
        Event::ReportsCalendarClosed => b.fields.reports.calendar is None && action == Action::Nothing,
        Event::ReportsCalendarShifted(months) => action == Action::Nothing && match a.fields.reports.calendar {
            None => b.fields.reports.calendar is None,
            Some(c) => b.fields.reports.calendar == Some(shifted(c, months as int)),
        },
        Event::ReportsDatePicked(day) => match a.fields.reports.calendar {
            None => action == Action::Nothing && b.fields.reports.from == a.fields.reports.from
                && b.fields.reports.to == a.fields.reports.to,
            Some(c) => {
                &&& b.fields.reports.value(c.field) == field_text(Some(day))
                &&& b.fields.reports.calendar is None
                &&& b.fields.reports.page == 0
                &&& action == Action::RunReport
            },
        },
        Event::ReportsDateCleared => match a.fields.reports.calendar {
            None => action == Action::Nothing && b.fields.reports.from == a.fields.reports.from
                && b.fields.reports.to == a.fields.reports.to,
            Some(c) => {
                &&& b.fields.reports.value(c.field).len() == 0
                &&& b.fields.reports.calendar is None
                &&& b.fields.reports.page == 0
                &&& action == Action::RunReport
            },
        },
        Event::OpenEditItemForm(found) => match found {
            Some(item) => {
                &&& b.fields.item_form matches Some(form) && edit_form_of(form, item)
                &&& b.viewing_item_id is None
                &&& action == Action::LoadItemImage(item.id)
            },
            None => action == Action::Nothing,
        },
        Event::ItemSaved(r) => match r {
            Ok(_) => b.fields.item_form is None && b.notice is None && action == Action::ReloadItems,
            Err(e) => refused(b, e, action),
        },
        Event::ItemDeleted(r) => match r {
            Ok(_) => b.notice is None && action == Action::ReloadItems,
            Err(e) => refused(b, e, action),
        },
        Event::PurchaseRecorded(r) => match r {
            Ok(_) => b.fields.purchase_form is None && b.notice is None && action == Action::ReloadItems,
            Err(e) => refused(b, e, action),
        },
        Event::SaleRecorded(r) => match r {
            Ok(_) => {
                &&& b.notice matches Some(n) && n.kind == NoticeKind::Success && n.text@ == "Sale recorded."@
                &&& b.fields.sale_form.item is None
                &&& b.fields.sale_form.qty@.len() == 0
                &&& b.fields.sale_form.price@.len() == 0
                &&& action == Action::ReloadItems
            },
            Err(e) => refused(b, e, action),
        },
        Event::BillSaved(r) => match r {
            Ok(_) => {
                &&& cart_cleared(b)
                &&& b.fields.bill_qty@.len() == 0
                &&& b.fields.bill_price@.len() == 0
                &&& b.fields.bill_discount@.len() == 0
                &&& b.notice is None
                &&& action == Action::ReloadAfterBill(a.bills_page)
            },
            Err(e) => refused(b, e, action),
        },
        Event::BillDeleted(r) => match r {
            Ok(_) => b.notice is None && action == Action::LoadBills(a.bills_page),
            Err(e) => refused(b, e, action),
        },
        Event::ProfileSaved(r) => match r {
            Ok(profile) => {
                &&& b.shop == Some(profile)
                &&& b.notice matches Some(n) && n.kind == NoticeKind::Success && n.text@ == "Shop profile saved."@
                &&& if a.fields.profile_form.logo is Some || a.fields.profile_form.logo_removed {
                    bytes_view(b.shop_logo) == bytes_view(a.fields.profile_form.logo)
                } else {
                    b.shop_logo == a.shop_logo
                }
                &&& action == Action::Nothing
            },
            Err(e) => refused(b, e, action),
        },
        Event::PinChanged(r) => match r {
            Ok(hash) => {
                &&& b.shop == match a.shop {
                    Some(sh) => Some(ShopProfile { pin_hash: hash, pin_failed_attempts: 0, pin_locked_until: None, ..sh }),
                    None => None,
                }
                &&& b.security_form.current_pin@.len() == 0 && b.security_form.new_pin@.len() == 0
                    && b.security_form.confirm_pin@.len() == 0
                &&& b.notice matches Some(n) && n.kind == NoticeKind::Success && n.text@ == "Security settings saved."@
                &&& action == Action::Nothing
            },
            Err(e) => refused(b, e, action),
        },
        Event::SecurityFieldChanged(field, value) => {
            &&& b.security_form.value(field) == value@
            &&& forall|g: SecurityField| g != field ==> b.security_form.value(g) == a.security_form.value(g)
            &&& action == Action::Nothing
        },
        Event::BackupCompleted(r, today) => match r {
            Ok(path) => {
                &&& b.settings == Settings { last_backup_date: Some(today), ..a.settings }
                &&& b.notice matches Some(n) && n.kind == NoticeKind::Success && n.text@ == "Backup saved: "@ + path@
                &&& action == Action::SaveSettings
            },
            Err(e) => {
                &&& b.settings == a.settings
                &&& b.notice matches Some(n) && n.kind == NoticeKind::Error && n.text@ == "backup failed: "@ + e@
                &&& action == Action::Nothing
            },
        },
        Event::OpenPurchaseForm(found) => action == Action::Nothing && match found {
            Some(item) => {
                &&& b.fields.purchase_form matches Some(f) && f.item_id == item.id && f.item_name@ == item.name@
                    && f.qty@.len() == 0 && f.price@ == spec_paise_to_input(item.buy_price_paise as int)
                &&& b.notice is None
            },
            None => true,
        },
        Event::ItemImageLoadedForEdit(id, image) => action == Action::Nothing && match a.fields.item_form {
            Some(f) => if f.editing_id == Some(id) {
                b.fields.item_form == Some(ItemForm { image, ..f })
            } else {
                b.fields.item_form == a.fields.item_form
            },
            None => b.fields.item_form is None,
        },
        Event::ItemImagePicked(bytes, decodes) => action == Action::Nothing && if bytes@.len() > MAX_IMAGE_BYTES {
            b.fields.item_form == a.fields.item_form && shows_error(b, "image is too large (max 5 MB)"@)
        } else if !decodes {
            b.fields.item_form == a.fields.item_form && shows_error(b, "that file doesn't look like a valid image"@)
        } else {
            match a.fields.item_form {
                Some(f) => b.fields.item_form == Some(ItemForm { image: Some(bytes), ..f }) && b.notice is None,
                None => b.fields.item_form is None && b.notice == a.notice,
            }
        },
        Event::RemoveItemImage => action == Action::Nothing && match a.fields.item_form {
            Some(f) => b.fields.item_form == Some(ItemForm { image: None, ..f }),
            None => b.fields.item_form is None,
        },
        Event::FormUnitSelected(unit) => action == Action::Nothing && match a.fields.item_form {
            Some(f) => b.fields.item_form == Some(ItemForm { unit, ..f }),
            None => b.fields.item_form is None,
        },
        Event::ProfileLogoPicked(bytes, decodes) => action == Action::Nothing && if bytes@.len() > MAX_IMAGE_BYTES {
            b.fields.profile_form == a.fields.profile_form && shows_error(b, "image is too large (max 5 MB)"@)
        } else if !decodes {
            b.fields.profile_form == a.fields.profile_form && shows_error(b, "that file doesn't look like a valid image"@)
        } else {
            b.fields.profile_form == (ProfileForm { logo: Some(bytes), logo_removed: false, ..a.fields.profile_form })
                && b.notice is None
        },
        Event::RemoveProfileLogo => action == Action::Nothing && b.fields.profile_form == (ProfileForm {
            logo: None,
            logo_removed: true,
            ..a.fields.profile_form
        }),
        Event::BillItemSelected(option) => {
            &&& b.picker.query == option.name && b.picker.target is None && b.picker.options == a.picker.options
            &&& b.bill_item == Some(option)
            &&& b.fields.bill_price@.len() == 0
            &&& action == Action::LoadBillItem(option.id)
        },
        Event::AddBillLine(qty_positive) => action == Action::Nothing && match a.bill_item {
            None => line_refused(a, b, "choose an item first"@),
            Some(item) => if !qty_positive {
                line_refused(a, b, "quantity must be a positive number"@)
            } else {
                match spec_rupees_to_paise(a.fields.bill_price@) {
                    None => line_refused(a, b, "price must be a valid amount, e.g. 120.00"@),
                    Some(p) => {
                        &&& b.bill_cart@.len() == a.bill_cart@.len() + 1
                        &&& b.bill_cart@.take(a.bill_cart@.len() as int) == a.bill_cart@
                        &&& b.bill_cart@.last().item_id == item.id
                        &&& b.bill_cart@.last().item_name@ == item.name@
                        &&& b.bill_cart@.last().qty@ == a.fields.bill_qty@
                        &&& b.bill_cart@.last().price_paise == p
                        &&& b.bill_cart@.last().gst_rate_bp == line_rate(a.bill_item_gst_rate_bp, shop_rate(a.shop))
                        &&& b.bill_item is None
                        &&& b.fields.bill_qty@.len() == 0 && b.fields.bill_price@.len() == 0
                        &&& b.notice is None
                    },
                }
            }
        },
        Event::RemoveBillLine(index) => action == Action::Nothing && if index < a.bill_cart@.len() {
            b.bill_cart@ == a.bill_cart@.remove(index as int)
        } else {
            b.bill_cart@ == a.bill_cart@
        },
        Event::BillEditLoaded(id, discount, lines) => {
            &&& b.bill_editing_id == Some(id)
            &&& b.fields.bill_discount@ == spec_paise_to_input(discount as int)
            &&& b.bill_cart@ == lines@
            &&& b.viewing_item_id is None
            &&& action == Action::Nothing
        },
        Event::CancelBillEdit => {
            &&& cart_cleared(b)
            &&& b.fields.bill_qty@.len() == 0 && b.fields.bill_price@.len() == 0 && b.fields.bill_discount@.len() == 0
            &&& b.notice is None
            &&& action == Action::Nothing
        },
    }
}

/// Undo takes back an edit and redo puts it back: after typing `v` into
/// `f`, an Undo leaves every field as it was before the typing, and a Redo
/// then leaves every field as the typing left it.
pub proof fn lemma_undo_then_redo(
    a: Session,
    b: Session,
    c: Session,
    d: Session,
    f: EditableField,
    v: String,
    x1: Action,
    x2: Action,
    x3: Action,
)
    requires
        step_post(a, b, Event::FieldEdited(f, v), x1),
        step_post(b, c, Event::Undo, x2),
        step_post(c, d, Event::Redo, x3),
    ensures
        c.fields.values() == a.fields.values(),
        d.fields.values() == b.fields.values(),
        x2 == Action::Nothing && x3 == Action::Nothing,
{
    a.fields.lemma_values_total(f);
    lemma_undo_restores(a.fields.model(), f, v@);
    lemma_redo_reapplies(a.fields.model(), f, v@);
}

/// Undo, redo, typing, and locking the counter.
fn step_history(s: &mut Session, event: Event) -> (action: Action)
    requires
        step_allowed(*old(s), event),
        event is Undo || event is Redo || event is Lock || event is FieldEdited,
    ensures
        step_post(*old(s), *final(s), event, action),
{
    match event {
        Event::Undo => {
            undo(&mut s.fields);
            Action::Nothing
        },
        Event::Redo => {
            redo(&mut s.fields);
            Action::Nothing
        },
        Event::Lock => {
            let ghost before = s.fields.values();
            s.stage = Stage::Login;
            s.login.clear();
            s.fields.undo_stack.clear();
            s.fields.redo_stack.clear();
            assert(s.fields.values() =~= before);
            Action::Nothing
        },
        Event::FieldEdited(field, value) => {
            let search = field == EditableField::Search;
            push_edit(&mut s.fields, field, value);
            if search {
                Action::LoadItems
            } else {
                Action::Nothing
            }
        },
        _ => Action::Nothing,
    }
}

/// Moving between screens and tabs.
fn step_navigation(s: &mut Session, event: Event) -> (action: Action)
    requires
        step_allowed(*old(s), event),
        event is GoHome || event is GoToShop || event is GoToInventory || event is ShopTabSelected || event is InventoryTabSelected || event is ProfileLoaded || event is ShopRegistered || event is ShopLogoLoaded || event is ActivationNeeded || event is OpenSettings || event is SettingsTabSelected || event is CloseView,
    ensures
        step_post(*old(s), *final(s), event, action),
{
    match event {
        Event::GoHome => {
            s.stage = Stage::Home;
            Action::Nothing
        },
        Event::GoToShop => {
            s.stage = Stage::Shop;
            Action::EnterShopTab(s.shop_tab)
        },
        Event::GoToInventory => {
            s.stage = Stage::Inventory;
            Action::LoadItems
        },
        Event::ShopTabSelected(tab) => {
            s.shop_tab = tab;
            Action::EnterShopTab(tab)
        },
        Event::InventoryTabSelected(tab) => {
            s.inventory_tab = tab;
            match tab {
                InventoryTab::Items => Action::LoadItems,
                InventoryTab::Backup => Action::Nothing,
            }
        },
        Event::ProfileLoaded(found) => match found {
            Some(profile) => {
                s.shop = Some(profile);
                s.stage = Stage::Login;
                Action::LoadShopLogo
            },
            None => {
                s.stage = Stage::Register;
                Action::Nothing
            },
        },
        Event::ShopRegistered(profile) => {
            s.shop = Some(profile);
            s.notice = None;
            s.stage = Stage::Home;
            Action::AutoBackup
        },
        Event::ShopLogoLoaded(logo) => {
            s.shop_logo = logo;
            Action::Nothing
        },
        Event::ActivationNeeded => {
            s.stage = Stage::Activation;
            Action::Nothing
        },
        Event::OpenSettings => {
            match &s.shop {
                Some(shop) => s.fields.profile_form = ProfileForm::from_shop(shop),
                None => {},
            }
            s.security_form = SecurityForm::default();
            s.settings_tab = SettingsTab::Profile;
            s.stage = Stage::Settings;
            s.notice = None;
            Action::Nothing
        },
        Event::SettingsTabSelected(tab) => {
            s.settings_tab = tab;
            Action::Nothing
        },
        Event::CloseView => {
            s.viewing_item_id = None;
            Action::Nothing
        },
        _ => Action::Nothing,
    }
}

/// The lists' filters, pages and delete buttons.
fn step_lists(s: &mut Session, event: Event) -> (action: Action)
    requires
        step_allowed(*old(s), event),
        event is UnitFilterSelected || event is LowStockOnlyToggled || event is ItemsPageNext || event is ItemsPagePrev || event is LowStockPageNext || event is LowStockPagePrev || event is BillsPageNext || event is BillsPagePrev || event is ReportsPageNext || event is ReportsPagePrev || event is DeleteItemPressed || event is DeleteBillPressed,
    ensures
        step_post(*old(s), *final(s), event, action),
{
    match event {
        Event::UnitFilterSelected(f) => {
            s.unit_filter = f;
            s.fields.items_page = 0;
            Action::LoadItems
        },
        Event::LowStockOnlyToggled(on) => {
            s.low_stock_only = on;
            s.fields.items_page = 0;
            Action::LoadItems
        },
        Event::ItemsPageNext => {
            s.fields.items_page = s.fields.items_page + 1;
            Action::LoadItems
        },
        Event::ItemsPagePrev => {
            s.fields.items_page = s.fields.items_page.saturating_sub(1);
            Action::LoadItems
        },
        Event::LowStockPageNext => {
            s.low_stock_page = s.low_stock_page + 1;
            Action::LoadLowStock
        },
        Event::LowStockPagePrev => {
            s.low_stock_page = s.low_stock_page.saturating_sub(1);
            Action::LoadLowStock
        },
        Event::BillsPageNext => {
            s.bills_page = s.bills_page + 1;
            Action::LoadBills(s.bills_page)
        },
        Event::BillsPagePrev => {
            let before = s.bills_page - 1;
            s.bills_page = if before > 0 { before } else { 0 };
            Action::LoadBills(s.bills_page)
        },
        Event::ReportsPageNext => {
            s.fields.reports.page = s.fields.reports.page + 1;
            Action::RunReport
        },
        Event::ReportsPagePrev => {
            if s.fields.reports.page > i64::MIN {
                s.fields.reports.page = s.fields.reports.page - 1;
            }
            Action::RunReport
        },
        Event::DeleteItemPressed(id) => {
            if press_delete(&mut s.confirming_delete_item, id) {
                Action::DeleteItem(id)
            } else {
                Action::Nothing
            }
        },
        Event::DeleteBillPressed(id) => {
            if press_delete(&mut s.confirming_delete_bill, id) {
                Action::DeleteBill(id)
            } else {
                Action::Nothing
            }
        },
        _ => Action::Nothing,
    }
}

/// Opening and closing forms, and prices filled from a loaded item.
fn step_forms(s: &mut Session, event: Event) -> (action: Action)
    requires
        step_allowed(*old(s), event),
        event is OpenAddItemForm || event is CancelItemForm || event is CancelPurchaseForm || event is ForgotPinPressed || event is CancelPinReset || event is SaleItemLoaded || event is BillItemLoaded,
    ensures
        step_post(*old(s), *final(s), event, action),
{
    match event {
        Event::OpenAddItemForm => {
            s.fields.item_form = Some(ItemForm::empty());
            s.viewing_item_id = None;
            Action::Nothing
        },
        Event::CancelItemForm => {
            s.fields.item_form = None;
            Action::Nothing
        },
        Event::CancelPurchaseForm => {
            s.fields.purchase_form = None;
            s.notice = None;
            Action::Nothing
        },
        Event::ForgotPinPressed => {
            s.login.reset_open = true;
            s.login.reset_error = None;
            s.login.error = None;
            Action::Nothing
        },
        Event::CancelPinReset => {
            s.login.reset_open = false;
            s.login.reset_key = String::new();
            s.login.reset_pin = String::new();
            s.login.reset_confirm = String::new();
            s.login.reset_error = None;
            Action::Nothing
        },
        Event::SaleItemLoaded(price) => {
            match price {
                Some(p) => prefill_price(&mut s.fields.sale_form.price, p),
                None => {},
            }
            Action::Nothing
        },
        Event::BillItemLoaded(found) => {
            match found {
                Some((p, rate)) => {
                    prefill_price(&mut s.fields.bill_price, p);
                    s.bill_item_gst_rate_bp = rate;
                },
                None => {},
            }
            Action::Nothing
        },
        _ => Action::Nothing,
    }
}

/// The report's filters and its calendar.
fn step_reports(s: &mut Session, event: Event) -> (action: Action)
    requires
        step_allowed(*old(s), event),
        event is ReportsItemFilterSelected || event is ReportsFiltersCleared || event is ReportsPresetSelected || event is ReportsCalendarOpened || event is ReportsCalendarClosed || event is ReportsCalendarShifted || event is ReportsDatePicked || event is ReportsDateCleared,
    ensures
        step_post(*old(s), *final(s), event, action),
{
    match event {
        Event::ReportsItemFilterSelected(option) => {
            match &option {
                Some(o) => s.picker.chose(o.name.clone()),
                None => s.picker.clear(),
            }
            s.fields.reports.item_filter = option;
            s.fields.reports.page = 0;
            Action::RunReport
        },
        Event::ReportsFiltersCleared => {
            s.picker.clear();
            s.fields.reports.item_filter = None;
            s.fields.reports.from = String::new();
            s.fields.reports.to = String::new();
            s.fields.reports.calendar = None;
            s.fields.reports.page = 0;
            Action::RunReport
        },
        Event::ReportsPresetSelected(preset, today) => {
            s.fields.reports.apply_preset(preset, today);
            s.fields.reports.page = 0;
            Action::RunReport
        },
        Event::ReportsCalendarOpened(field, today) => {
            s.fields.reports.open_calendar(field, today);
            Action::Nothing
        },
        Event::ReportsCalendarClosed => {
            s.fields.reports.calendar = None;
            Action::Nothing
        },
        Event::ReportsCalendarShifted(months) => {
            s.fields.reports.shift_month(months);
            Action::Nothing
        },
        Event::ReportsDatePicked(day) => {
            match s.fields.reports.calendar {
                None => Action::Nothing,
                Some(c) => {
                    s.fields.reports.set_field(c.field, show_day(Some(day)));
                    s.fields.reports.calendar = None;
                    s.fields.reports.page = 0;
                    Action::RunReport
                },
            }
        },
        Event::ReportsDateCleared => {
            match s.fields.reports.calendar {
                None => Action::Nothing,
                Some(c) => {
                    s.fields.reports.set_field(c.field, String::new());
                    s.fields.reports.calendar = None;
                    s.fields.reports.page = 0;
                    Action::RunReport
                },
            }
        },
        _ => Action::Nothing,
    }
}

/// The answers to saves and deletes, and opening an item for editing.
fn step_results(s: &mut Session, event: Event) -> (action: Action)
    requires
        step_allowed(*old(s), event),
        event is OpenEditItemForm || event is ItemSaved || event is ItemDeleted || event is PurchaseRecorded || event is SaleRecorded || event is BillSaved || event is BillDeleted || event is ProfileSaved || event is PinChanged,
    ensures
        step_post(*old(s), *final(s), event, action),
{
    match event {
        Event::OpenEditItemForm(found) => match found {
            Some(item) => {
                s.fields.item_form = Some(ItemForm::from_item(&item));
                s.viewing_item_id = None;
                Action::LoadItemImage(item.id)
            },
            None => Action::Nothing,
        },
        Event::ItemSaved(r) => match r {
            Ok(_) => {
                s.fields.item_form = None;
                s.notice = None;
                Action::ReloadItems
            },
            Err(e) => {
                s.notice = Some(Notice::error(e));
                Action::Nothing
            },
        },
        Event::ItemDeleted(r) => match r {
            Ok(_) => {
                s.notice = None;
                Action::ReloadItems
            },
            Err(e) => {
                s.notice = Some(Notice::error(e));
                Action::Nothing
            },
        },
        Event::PurchaseRecorded(r) => match r {
            Ok(_) => {
                s.fields.purchase_form = None;
                s.notice = None;
                Action::ReloadItems
            },
            Err(e) => {
                s.notice = Some(Notice::error(e));
                Action::Nothing
            },
        },
        Event::SaleRecorded(r) => match r {
            Ok(_) => {
                s.notice = Some(Notice::success(String::from_str("Sale recorded.")));
                s.fields.sale_form = SaleForm::default();
                Action::ReloadItems
            },
            Err(e) => {
                s.notice = Some(Notice::error(e));
                Action::Nothing
            },
        },
        Event::BillSaved(r) => match r {
            Ok(_) => {
                start_new_bill(s);
                s.notice = None;
                s.fields.bill_qty = String::new();
                s.fields.bill_price = String::new();
                s.fields.bill_discount = String::new();
                Action::ReloadAfterBill(s.bills_page)
            },
            Err(e) => {
                s.notice = Some(Notice::error(e));
                Action::Nothing
            },
        },
        Event::BillDeleted(r) => match r {
            Ok(_) => {
                s.notice = None;
                Action::LoadBills(s.bills_page)
            },
            Err(e) => {
                s.notice = Some(Notice::error(e));
                Action::Nothing
            },
        },
        Event::ProfileSaved(r) => match r {
            Ok(profile) => {
                s.shop = Some(profile);
                s.notice = Some(Notice::success(String::from_str("Shop profile saved.")));
                if s.fields.profile_form.logo.is_some() || s.fields.profile_form.logo_removed {
                    s.shop_logo = copy_bytes(&s.fields.profile_form.logo);
                }
                Action::Nothing
            },
            Err(e) => {
                s.notice = Some(Notice::error(e));
                Action::Nothing
            },
        },
        Event::PinChanged(r) => match r {
            Ok(hash) => {
                match s.shop.take() {
                    Some(sh) => {
                        s.shop = Some(ShopProfile { pin_hash: hash, pin_failed_attempts: 0, pin_locked_until: None, ..sh });
                    },
                    None => {},
                }
                s.security_form = SecurityForm::default();
                s.notice = Some(Notice::success(String::from_str("Security settings saved.")));
                Action::Nothing
            },
            Err(e) => {
                s.notice = Some(Notice::error(e));
                Action::Nothing
            },
        },
        _ => Action::Nothing,
    }
}

/// Clears the cart for a new bill: no lines, no bill being edited, no
/// item picked, and the quantity, price and discount fields blank.
fn start_new_bill(s: &mut Session)
    ensures
        cart_cleared(*final(s)),
        final(s).fields.bill_qty@.len() == 0,
        final(s).fields.bill_price@.len() == 0,
        final(s).fields.bill_discount@.len() == 0,
        *final(s) == (Session {
            fields: EditableState {
                bill_qty: final(s).fields.bill_qty,
                bill_price: final(s).fields.bill_price,
                bill_discount: final(s).fields.bill_discount,
                ..old(s).fields
            },
            bill_cart: final(s).bill_cart,
            bill_editing_id: None,
            bill_item: None,
            ..*old(s)
        }),
{
    s.bill_cart = Vec::new();
    s.bill_editing_id = None;
    s.bill_item = None;
    s.fields.bill_qty = String::new();
    s.fields.bill_price = String::new();
    s.fields.bill_discount = String::new();
}

/// The settings, PIN and backup screens, and the item and logo images.
fn step_shop(s: &mut Session, event: Event) -> (action: Action)
    requires
        step_allowed(*old(s), event),
        event is SecurityFieldChanged || event is BackupCompleted || event is OpenPurchaseForm || event is ItemImageLoadedForEdit || event is ItemImagePicked || event is RemoveItemImage || event is FormUnitSelected || event is ProfileLogoPicked || event is RemoveProfileLogo,
    ensures
        step_post(*old(s), *final(s), event, action),
{
    match event {
        Event::SecurityFieldChanged(field, value) => {
            s.security_form.set_field(field, value);
            Action::Nothing
        },
        Event::BackupCompleted(r, today) => match r {
            Ok(path) => {
                s.settings.last_backup_date = Some(today);
                let mut text = String::from_str("Backup saved: ");
                text.append(path.as_str());
                s.notice = Some(Notice::success(text));
                Action::SaveSettings
            },
            Err(e) => {
                let mut text = String::from_str("backup failed: ");
                text.append(e.as_str());
                s.notice = Some(Notice::error(text));
                Action::Nothing
            },
        },
        Event::OpenPurchaseForm(found) => {
            match found {
                Some(item) => {
                    s.fields.purchase_form = Some(
                        PurchaseForm {
                            item_id: item.id,
                            item_name: item.name,
                            qty: String::new(),
                            price: paise_to_input(item.buy_price_paise),
                        },
                    );
                    s.notice = None;
                },
                None => {},
            }
            Action::Nothing
        },
        Event::ItemImageLoadedForEdit(id, image) => {
            match s.fields.item_form.take() {
                Some(f) => {
                    if f.editing_id == Some(id) {
                        s.fields.item_form = Some(ItemForm { image, ..f });
                    } else {
                        s.fields.item_form = Some(f);
                    }
                },
                None => {},
            }
            Action::Nothing
        },
        Event::ItemImagePicked(bytes, decodes) => {
            if !image_size_ok(bytes.len()) {
                s.notice = Some(Notice::error(String::from_str("image is too large (max 5 MB)")));
            } else if !decodes {
                s.notice = Some(Notice::error(String::from_str("that file doesn't look like a valid image")));
            } else {
                match s.fields.item_form.take() {
                    Some(f) => {
                        s.fields.item_form = Some(ItemForm { image: Some(bytes), ..f });
                        s.notice = None;
                    },
                    None => {},
                }
            }
            Action::Nothing
        },
        Event::RemoveItemImage => {
            match s.fields.item_form.take() {
                Some(f) => s.fields.item_form = Some(ItemForm { image: None, ..f }),
                None => {},
            }
            Action::Nothing
        },
        Event::FormUnitSelected(unit) => {
            match s.fields.item_form.take() {
                Some(f) => s.fields.item_form = Some(ItemForm { unit, ..f }),
                None => {},
            }
            Action::Nothing
        },
        Event::ProfileLogoPicked(bytes, decodes) => {
            if !image_size_ok(bytes.len()) {
                s.notice = Some(Notice::error(String::from_str("image is too large (max 5 MB)")));
            } else if !decodes {
                s.notice = Some(Notice::error(String::from_str("that file doesn't look like a valid image")));
            } else {
                s.fields.profile_form.logo = Some(bytes);
                s.fields.profile_form.logo_removed = false;
                s.notice = None;
            }
            Action::Nothing
        },
        Event::RemoveProfileLogo => {
            s.fields.profile_form.logo = None;
            s.fields.profile_form.logo_removed = true;
            Action::Nothing
        },
        _ => Action::Nothing,
    }
}

/// The cart of the bill being built or edited.
fn step_bills(s: &mut Session, event: Event) -> (action: Action)
    requires
        step_allowed(*old(s), event),
        event is BillItemSelected || event is AddBillLine || event is RemoveBillLine || event is BillEditLoaded || event is CancelBillEdit,
    ensures
        step_post(*old(s), *final(s), event, action),
{
    match event {
        Event::BillItemSelected(option) => {
            let id = option.id;
            s.picker.chose(option.name.clone());
            s.bill_item = Some(option);
            s.fields.bill_price = String::new();
            Action::LoadBillItem(id)
        },
        Event::AddBillLine(qty_positive) => {
            let shop_gst: Option<i64> = match &s.shop {
                Some(p) => Some(p.gst_rate_bp),
                None => None,
            };
            match check_line(&s.bill_item, qty_positive, s.fields.bill_price.as_str(), s.bill_item_gst_rate_bp, shop_gst) {
                Err(m) => {
                    s.notice = Some(Notice::error(m));
                },
                Ok((id, price, rate)) => {
                    let name = match &s.bill_item {
                        Some(o) => o.name.clone(),
                        None => String::new(),
                    };
                    let qty = s.fields.bill_qty.clone();
                    let ghost before = s.bill_cart@;
                    s.bill_cart.push(CartLine { item_id: id, item_name: name, qty, price_paise: price, gst_rate_bp: rate });
                    assert(s.bill_cart@.take(before.len() as int) =~= before);
                    s.bill_item = None;
                    s.fields.bill_qty = String::new();
                    s.fields.bill_price = String::new();
                    s.notice = None;
                },
            }
            Action::Nothing
        },
        Event::RemoveBillLine(index) => {
            remove_line(&mut s.bill_cart, index);
            Action::Nothing
        },
        Event::BillEditLoaded(id, discount, lines) => {
            s.bill_editing_id = Some(id);
            s.fields.bill_discount = paise_to_input(discount);
            s.bill_cart = lines;
            s.viewing_item_id = None;
            Action::Nothing
        },
        Event::CancelBillEdit => {
            start_new_bill(s);
            s.notice = None;
            Action::Nothing
        },
        _ => Action::Nothing,
    }
}

/// Applies one event to the session and says what work it leaves.
pub fn step(s: &mut Session, event: Event) -> (action: Action)
    requires
        step_allowed(*old(s), event),
    ensures
        step_post(*old(s), *final(s), event, action),
{
    match event {
        Event::Undo
        | Event::Redo
        | Event::Lock
        | Event::FieldEdited(..) => step_history(s, event),
        Event::GoHome
        | Event::GoToShop
        | Event::GoToInventory
        | Event::ShopTabSelected(..)
        | Event::InventoryTabSelected(..)
        | Event::ProfileLoaded(..)
        | Event::ShopRegistered(..)
        | Event::ShopLogoLoaded(..)
        | Event::ActivationNeeded
        | Event::OpenSettings
        | Event::SettingsTabSelected(..)
        | Event::CloseView => step_navigation(s, event),
        Event::UnitFilterSelected(..)
        | Event::LowStockOnlyToggled(..)
        | Event::ItemsPageNext
        | Event::ItemsPagePrev
        | Event::LowStockPageNext
        | Event::LowStockPagePrev
        | Event::BillsPageNext
        | Event::BillsPagePrev
        | Event::ReportsPageNext
        | Event::ReportsPagePrev
        | Event::DeleteItemPressed(..)
        | Event::DeleteBillPressed(..) => step_lists(s, event),
        Event::OpenAddItemForm
        | Event::CancelItemForm
        | Event::CancelPurchaseForm
        | Event::ForgotPinPressed
        | Event::CancelPinReset
        | Event::SaleItemLoaded(..)
        | Event::BillItemLoaded(..) => step_forms(s, event),
        Event::ReportsItemFilterSelected(..)
        | Event::ReportsFiltersCleared
        | Event::ReportsPresetSelected(..)
        | Event::ReportsCalendarOpened(..)
        | Event::ReportsCalendarClosed
        | Event::ReportsCalendarShifted(..)
        | Event::ReportsDatePicked(..)
        | Event::ReportsDateCleared => step_reports(s, event),
        Event::OpenEditItemForm(..)
        | Event::ItemSaved(..)
        | Event::ItemDeleted(..)
        | Event::PurchaseRecorded(..)
        | Event::SaleRecorded(..)
        | Event::BillSaved(..)
        | Event::BillDeleted(..)
        | Event::ProfileSaved(..)
        | Event::PinChanged(..) => step_results(s, event),
        Event::SecurityFieldChanged(..)
        | Event::BackupCompleted(..)
        | Event::OpenPurchaseForm(..)
        | Event::ItemImageLoadedForEdit(..)
        | Event::ItemImagePicked(..)
        | Event::RemoveItemImage
        | Event::FormUnitSelected(..)
        | Event::ProfileLogoPicked(..)
        | Event::RemoveProfileLogo => step_shop(s, event),
        Event::BillItemSelected(..)
        | Event::AddBillLine(..)
        | Event::RemoveBillLine(..)
        | Event::BillEditLoaded(..)
        | Event::CancelBillEdit => step_bills(s, event),
    }
}

} // verus!
