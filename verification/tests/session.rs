use srotas_desk::models::{ShopProfile, Unit};
use srotas_desk::ui::bills::CartLine;
use srotas_desk::ui::settings::SecurityField;
use srotas_desk::ui::history::{EditableField, InventoryTab, NoticeKind, ShopTab, Stage};
use srotas_desk::ui::items::{ItemDetails, UnitFilter};
use srotas_desk::ui::session::{step, Action, Event, Session};
use srotas_desk::ui::common::ItemOption;
use srotas_desk::ui::reports::{Calendar, Field, Preset};
use srotas_desk::ui::settings::SettingsTab;

#[test]
fn locking_returns_to_login_and_forgets_the_history() {
    let mut s = Session::default();
    s.stage = Stage::Shop;
    step(&mut s, Event::FieldEdited(EditableField::BillCustomer, "Asha".into()));
    step(&mut s, Event::FieldEdited(EditableField::BillQty, "3".into()));
    step(&mut s, Event::Undo);
    s.login.pin_input = "1234".into();

    assert_eq!(step(&mut s, Event::Lock), Action::Nothing);
    assert_eq!(s.stage, Stage::Login);
    assert!(s.login.pin_input.is_empty());
    assert!(s.fields.undo_stack.is_empty());
    assert!(s.fields.redo_stack.is_empty());
    // The typed text itself stays; only the way back through it is gone.
    assert_eq!(s.fields.bill_customer, "Asha");

    step(&mut s, Event::Undo);
    assert_eq!(s.fields.bill_customer, "Asha");
}

#[test]
fn a_delete_needs_a_second_press_on_the_same_item() {
    let mut s = Session::default();
    assert_eq!(step(&mut s, Event::DeleteItemPressed(7)), Action::Nothing);
    assert_eq!(s.confirming_delete_item, Some(7));
    assert_eq!(step(&mut s, Event::DeleteItemPressed(8)), Action::Nothing);
    assert_eq!(s.confirming_delete_item, Some(8));
    assert_eq!(step(&mut s, Event::DeleteItemPressed(8)), Action::DeleteItem(8));
    assert_eq!(s.confirming_delete_item, None);

    assert_eq!(step(&mut s, Event::DeleteBillPressed(3)), Action::Nothing);
    assert_eq!(step(&mut s, Event::DeleteBillPressed(3)), Action::DeleteBill(3));
}

#[test]
fn pages_never_go_below_the_first() {
    let mut s = Session::default();
    assert_eq!(step(&mut s, Event::ItemsPagePrev), Action::LoadItems);
    assert_eq!(s.fields.items_page, 0);
    step(&mut s, Event::ItemsPageNext);
    step(&mut s, Event::ItemsPageNext);
    step(&mut s, Event::ItemsPagePrev);
    assert_eq!(s.fields.items_page, 1);

    assert_eq!(step(&mut s, Event::LowStockPagePrev), Action::LoadLowStock);
    assert_eq!(s.low_stock_page, 0);

    assert_eq!(step(&mut s, Event::BillsPagePrev), Action::LoadBills(0));
    assert_eq!(step(&mut s, Event::BillsPageNext), Action::LoadBills(1));
    assert_eq!(step(&mut s, Event::BillsPageNext), Action::LoadBills(2));
    assert_eq!(step(&mut s, Event::BillsPagePrev), Action::LoadBills(1));

    assert_eq!(step(&mut s, Event::ReportsPageNext), Action::RunReport);
    assert_eq!(s.fields.reports.page, 1);
}

#[test]
fn changing_a_filter_or_the_search_starts_again_at_page_one() {
    let mut s = Session::default();
    step(&mut s, Event::ItemsPageNext);
    step(&mut s, Event::ItemsPageNext);
    assert_eq!(step(&mut s, Event::UnitFilterSelected(UnitFilter::Only(Unit::Kg))), Action::LoadItems);
    assert_eq!(s.fields.items_page, 0);
    assert_eq!(s.unit_filter, UnitFilter::Only(Unit::Kg));

    step(&mut s, Event::ItemsPageNext);
    assert_eq!(step(&mut s, Event::LowStockOnlyToggled(true)), Action::LoadItems);
    assert_eq!(s.fields.items_page, 0);
    assert!(s.low_stock_only);

    step(&mut s, Event::ItemsPageNext);
    assert_eq!(step(&mut s, Event::FieldEdited(EditableField::Search, "pipe".into())), Action::LoadItems);
    assert_eq!(s.fields.items_page, 0);
    assert_eq!(s.fields.search_query, "pipe");
    assert_eq!(step(&mut s, Event::FieldEdited(EditableField::BillPrice, "10".into())), Action::Nothing);
}

#[test]
fn the_screens_follow_the_shop_profile_and_the_tabs() {
    let mut s = Session::default();
    assert_eq!(step(&mut s, Event::ProfileLoaded(None)), Action::Nothing);
    assert_eq!(s.stage, Stage::Register);
    assert_eq!(step(&mut s, Event::ShopRegistered(shop())), Action::AutoBackup);
    assert_eq!(s.stage, Stage::Home);
    assert_eq!(step(&mut s, Event::ProfileLoaded(Some(shop()))), Action::LoadShopLogo);
    assert_eq!(s.stage, Stage::Login);
    assert_eq!(s.shop.as_ref().map(|p| p.shop_name.as_str()), Some("Sharma Hardware"));

    assert_eq!(step(&mut s, Event::ShopTabSelected(ShopTab::Reports)), Action::EnterShopTab(ShopTab::Reports));
    assert_eq!(step(&mut s, Event::GoToShop), Action::EnterShopTab(ShopTab::Reports));
    assert_eq!(s.stage, Stage::Shop);
    assert_eq!(step(&mut s, Event::GoToInventory), Action::LoadItems);
    assert_eq!(step(&mut s, Event::InventoryTabSelected(InventoryTab::Backup)), Action::Nothing);
    assert_eq!(step(&mut s, Event::InventoryTabSelected(InventoryTab::Items)), Action::LoadItems);
    step(&mut s, Event::OpenSettings);
    assert_eq!((s.stage, s.settings_tab), (Stage::Settings, SettingsTab::Profile));
    step(&mut s, Event::GoHome);
    assert_eq!(s.stage, Stage::Home);
    step(&mut s, Event::ActivationNeeded);
    assert_eq!(s.stage, Stage::Activation);
}

#[test]
fn the_pin_reset_panel_opens_and_cancels_clean() {
    let mut s = Session::default();
    s.login.error = Some("Wrong PIN".into());
    step(&mut s, Event::ForgotPinPressed);
    assert!(s.login.reset_open);
    assert_eq!(s.login.error, None);
    s.login.reset_key = "KEY".into();
    s.login.reset_pin = "1234".into();
    step(&mut s, Event::CancelPinReset);
    assert!(!s.login.reset_open);
    assert!(s.login.reset_key.is_empty() && s.login.reset_pin.is_empty());
}

#[test]
fn the_item_form_opens_blank_and_closes() {
    let mut s = Session::default();
    s.viewing_item_id = Some(4);
    step(&mut s, Event::OpenAddItemForm);
    assert!(s.fields.item_form.as_ref().is_some_and(|f| f.editing_id.is_none() && f.name.is_empty()));
    assert_eq!(s.viewing_item_id, None);
    step(&mut s, Event::CancelItemForm);
    assert!(s.fields.item_form.is_none());
}

#[test]
fn picking_a_report_date_fills_the_field_closes_the_calendar_and_reruns() {
    let mut s = Session::default();
    s.fields.reports.page = 3;
    assert_eq!(step(&mut s, Event::ReportsDatePicked((2026, 1, 2))), Action::Nothing);
    assert!(s.fields.reports.from.is_empty());

    step(&mut s, Event::ReportsCalendarOpened(Field::To, (2026, 3, 15)));
    assert_eq!(s.fields.reports.calendar, Some(Calendar { field: Field::To, year: 2026, month: 3 }));
    step(&mut s, Event::ReportsCalendarShifted(-3));
    assert_eq!(s.fields.reports.calendar, Some(Calendar { field: Field::To, year: 2025, month: 12 }));
    assert_eq!(step(&mut s, Event::ReportsDatePicked((2025, 12, 24))), Action::RunReport);
    assert_eq!(s.fields.reports.to, "2025-12-24");
    assert_eq!((s.fields.reports.calendar, s.fields.reports.page), (None, 0));

    step(&mut s, Event::ReportsCalendarOpened(Field::To, (2026, 3, 15)));
    assert_eq!(s.fields.reports.calendar, Some(Calendar { field: Field::To, year: 2025, month: 12 }));
    assert_eq!(step(&mut s, Event::ReportsDateCleared), Action::RunReport);
    assert!(s.fields.reports.to.is_empty());
}

#[test]
fn clearing_the_report_filters_resets_everything_and_reruns() {
    let mut s = Session::default();
    let tap = ItemOption { id: 5, name: "Tap".into() };
    assert_eq!(step(&mut s, Event::ReportsItemFilterSelected(Some(tap.clone()))), Action::RunReport);
    assert_eq!(s.picker.query, "Tap");
    assert_eq!(s.fields.reports.item_filter, Some(tap));
    step(&mut s, Event::ReportsPresetSelected(Preset::ThisYear, (2026, 3, 15)));
    assert_eq!((s.fields.reports.from.as_str(), s.fields.reports.to.as_str()), ("2026-01-01", "2026-03-15"));
    s.fields.reports.page = 2;
    assert_eq!(step(&mut s, Event::ReportsFiltersCleared), Action::RunReport);
    assert!(s.fields.reports.from.is_empty() && s.fields.reports.to.is_empty());
    assert_eq!((s.fields.reports.item_filter.clone(), s.fields.reports.page), (None, 0));
    assert!(s.picker.query.is_empty());
}

#[test]
fn a_loaded_item_fills_a_blank_price_only() {
    let mut s = Session::default();
    step(&mut s, Event::SaleItemLoaded(Some(12050)));
    assert_eq!(s.fields.sale_form.price, "120.50");
    step(&mut s, Event::SaleItemLoaded(Some(999)));
    assert_eq!(s.fields.sale_form.price, "120.50");
    step(&mut s, Event::BillItemLoaded(Some((5, Some(500)))));
    assert_eq!(s.fields.bill_price, "0.05");
    assert_eq!(s.bill_item_gst_rate_bp, Some(500));
    step(&mut s, Event::BillItemLoaded(None));
    assert_eq!(s.fields.bill_price, "0.05");
}

#[test]
fn answers_to_saves_close_their_forms_or_show_the_error() {
    let mut s = Session::default();
    assert_eq!(step(&mut s, Event::OpenAddItemForm), Action::Nothing);
    assert_eq!(step(&mut s, Event::ItemSaved(Err("an item named \"Tap\" already exists".into()))), Action::Nothing);
    assert!(s.fields.item_form.is_some());
    assert_eq!(s.notice.as_ref().map(|n| (n.text.as_str(), n.kind)), Some(("an item named \"Tap\" already exists", NoticeKind::Error)));
    assert_eq!(step(&mut s, Event::ItemSaved(Ok(4))), Action::ReloadItems);
    assert!(s.fields.item_form.is_none());
    assert!(s.notice.is_none());

    s.fields.sale_form.qty = "2".into();
    assert_eq!(step(&mut s, Event::SaleRecorded(Ok(()))), Action::ReloadItems);
    assert!(s.fields.sale_form.qty.is_empty());
    assert_eq!(s.notice.as_ref().map(|n| (n.text.as_str(), n.kind)), Some(("Sale recorded.", NoticeKind::Success)));

    s.fields.bill_qty = "3".into();
    s.fields.bill_discount = "10".into();
    s.bills_page = 2;
    assert_eq!(step(&mut s, Event::BillSaved(Ok(9))), Action::ReloadAfterBill(2));
    assert!(s.fields.bill_qty.is_empty() && s.fields.bill_discount.is_empty());
    assert_eq!(step(&mut s, Event::BillDeleted(Ok(()))), Action::LoadBills(2));

    assert_eq!(step(&mut s, Event::PinChanged(Ok(None))), Action::Nothing);
    assert_eq!(s.notice.as_ref().map(|n| n.text.as_str()), Some("Security settings saved."));
    assert_eq!(step(&mut s, Event::ProfileSaved(Err("disk full".into()))), Action::Nothing);
    assert_eq!(s.notice.as_ref().map(|n| (n.text.as_str(), n.kind)), Some(("disk full", NoticeKind::Error)));
}

#[test]
fn editing_an_item_fills_the_form_and_asks_for_its_photo() {
    let mut s = Session::default();
    s.viewing_item_id = Some(5);
    let item = ItemDetails {
        id: 5,
        name: "Brass Tap".into(),
        buy_price_paise: 12000,
        sell_price_paise: 15050,
        unit: "piece".into(),
        low_stock_threshold: "3".into(),
        description: String::new(),
        gst_rate_bp: None,
    };
    assert_eq!(step(&mut s, Event::OpenEditItemForm(Some(item))), Action::LoadItemImage(5));
    let form = s.fields.item_form.as_ref().unwrap();
    assert_eq!((form.editing_id, form.sell_price.as_str()), (Some(5), "150.50"));
    assert_eq!(s.viewing_item_id, None);
    assert_eq!(step(&mut s, Event::OpenEditItemForm(None)), Action::Nothing);
}

fn shop() -> ShopProfile {
    ShopProfile {
        shop_name: "Sharma Hardware".into(),
        owner_name: "R. Sharma".into(),
        phone: "98765".into(),
        address: "12 MG Road".into(),
        pin_hash: Some("$argon2id$old".into()),
        has_logo: false,
        gst_rate_bp: 1800,
        gstin: None,
        pin_failed_attempts: 3,
        pin_locked_until: None,
    }
}

#[test]
fn opening_settings_refills_the_profile_and_clears_the_pin_form() {
    let mut s = Session::default();
    step(&mut s, Event::ProfileLoaded(Some(shop())));
    s.fields.profile_form.shop_name = "half typed".into();
    step(&mut s, Event::SecurityFieldChanged(SecurityField::NewPin, "4321".into()));
    assert_eq!(s.security_form.new_pin, "4321");
    step(&mut s, Event::OpenSettings);
    assert_eq!(s.fields.profile_form.shop_name, "Sharma Hardware");
    assert_eq!(s.fields.profile_form.default_gst_rate, "18.00");
    assert!(s.security_form.new_pin.is_empty());

    assert_eq!(step(&mut s, Event::PinChanged(Ok(Some("$argon2id$new".into())))), Action::Nothing);
    let p = s.shop.as_ref().unwrap();
    assert_eq!((p.pin_hash.as_deref(), p.pin_failed_attempts), (Some("$argon2id$new"), 0));

    s.fields.profile_form.logo_removed = true;
    s.shop_logo = Some(vec![1, 2]);
    let mut renamed = shop();
    renamed.shop_name = "Sharma & Sons".into();
    step(&mut s, Event::ProfileSaved(Ok(renamed)));
    assert_eq!(s.shop.as_ref().unwrap().shop_name, "Sharma & Sons");
    assert!(s.shop_logo.is_none());
}

#[test]
fn images_over_five_megabytes_or_undecodable_are_refused() {
    let mut s = Session::default();
    step(&mut s, Event::OpenAddItemForm);
    step(&mut s, Event::ItemImagePicked(vec![0; 5_000_001], true));
    assert_eq!(s.notice.as_ref().unwrap().text, "image is too large (max 5 MB)");
    step(&mut s, Event::ItemImagePicked(vec![0; 10], false));
    assert_eq!(s.notice.as_ref().unwrap().text, "that file doesn't look like a valid image");
    step(&mut s, Event::ItemImagePicked(vec![7; 5_000_000], true));
    assert!(s.notice.is_none());
    assert_eq!(s.fields.item_form.as_ref().unwrap().image.as_ref().map(|b| b.len()), Some(5_000_000));
    step(&mut s, Event::RemoveItemImage);
    assert!(s.fields.item_form.as_ref().unwrap().image.is_none());
    step(&mut s, Event::FormUnitSelected(Unit::Kg));
    assert_eq!(s.fields.item_form.as_ref().unwrap().unit, Unit::Kg);
    // A photo arriving for some other item's form is dropped.
    step(&mut s, Event::ItemImageLoadedForEdit(3, Some(vec![1])));
    assert!(s.fields.item_form.as_ref().unwrap().image.is_none());

    step(&mut s, Event::ProfileLogoPicked(vec![1, 2, 3], true));
    assert_eq!(s.fields.profile_form.logo, Some(vec![1, 2, 3]));
    step(&mut s, Event::RemoveProfileLogo);
    assert!(s.fields.profile_form.logo.is_none() && s.fields.profile_form.logo_removed);
}

#[test]
fn a_backup_records_its_day_and_the_purchase_form_opens_priced() {
    let mut s = Session::default();
    assert_eq!(step(&mut s, Event::BackupCompleted(Ok("/mnt/usb/shop.db".into()), (2026, 3, 15))), Action::SaveSettings);
    assert_eq!(s.settings.last_backup_date, Some((2026, 3, 15)));
    assert_eq!(s.notice.as_ref().unwrap().text, "Backup saved: /mnt/usb/shop.db");
    assert_eq!(step(&mut s, Event::BackupCompleted(Err("disk full".into()), (2026, 3, 16))), Action::Nothing);
    assert_eq!(s.notice.as_ref().unwrap().text, "backup failed: disk full");
    assert_eq!(s.settings.last_backup_date, Some((2026, 3, 15)));

    let item = ItemDetails {
        id: 8,
        name: "Wall Putty".into(),
        buy_price_paise: 45000,
        sell_price_paise: 52000,
        unit: "kg".into(),
        low_stock_threshold: "5".into(),
        description: String::new(),
        gst_rate_bp: Some(1200),
    };
    step(&mut s, Event::OpenPurchaseForm(Some(item)));
    let f = s.fields.purchase_form.as_ref().unwrap();
    assert_eq!((f.item_id, f.item_name.as_str(), f.qty.as_str(), f.price.as_str()), (8, "Wall Putty", "", "450.00"));
    assert!(s.notice.is_none());
}

#[test]
fn the_cart_takes_lines_and_resets_for_a_new_bill() {
    let mut s = Session::default();
    step(&mut s, Event::ProfileLoaded(Some(shop())));
    assert_eq!(step(&mut s, Event::AddBillLine(true)), Action::Nothing);
    assert_eq!(s.notice.as_ref().unwrap().text, "choose an item first");

    let tap = ItemOption { id: 4, name: "Brass Tap".into() };
    assert_eq!(step(&mut s, Event::BillItemSelected(tap)), Action::LoadBillItem(4));
    step(&mut s, Event::BillItemLoaded(Some((15050, None))));
    assert_eq!(s.fields.bill_price, "150.50");
    s.fields.bill_qty = "2.5".into();
    step(&mut s, Event::AddBillLine(false));
    assert_eq!(s.notice.as_ref().unwrap().text, "quantity must be a positive number");
    step(&mut s, Event::AddBillLine(true));
    assert!(s.notice.is_none());
    assert_eq!(s.bill_cart.len(), 1);
    let line = &s.bill_cart[0];
    assert_eq!((line.item_id, line.qty.as_str(), line.price_paise, line.gst_rate_bp), (4, "2.5", 15050, 1800));
    assert!(s.bill_item.is_none() && s.fields.bill_qty.is_empty() && s.fields.bill_price.is_empty());
    step(&mut s, Event::RemoveBillLine(3));
    assert_eq!(s.bill_cart.len(), 1);
    step(&mut s, Event::RemoveBillLine(0));
    assert!(s.bill_cart.is_empty());

    let lines = vec![CartLine { item_id: 9, item_name: "Nails".into(), qty: "1".into(), price_paise: 500, gst_rate_bp: 0 }];
    step(&mut s, Event::BillEditLoaded(12, 2000, lines));
    assert_eq!((s.bill_editing_id, s.fields.bill_discount.as_str(), s.bill_cart.len()), (Some(12), "20.00", 1));
    step(&mut s, Event::CancelBillEdit);
    assert!(s.bill_cart.is_empty() && s.bill_editing_id.is_none() && s.fields.bill_discount.is_empty());
}
