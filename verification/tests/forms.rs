use srotas_desk::license::{LicenseError, LicensePayload};
use srotas_desk::models::Unit;
use srotas_desk::pin::hash;
use srotas_desk::time::UtcTime;
use srotas_desk::ui::activation::{outcome_of_check, submit, ActivationState, Outcome};
use srotas_desk::ui::bills::check_line;
use srotas_desk::ui::common::ItemOption;
use srotas_desk::ui::sale::{check_sale, prefill_price, SaleForm};
use srotas_desk::ui::items::{check_purchase, parse_form, ItemDetails, ItemForm, PurchaseForm, QuantityReading};
use srotas_desk::ui::settings::{
    check_pin_change, check_profile, current_pin_accepted, LogoChange, ProfileForm, SecurityForm,
};

const UNIVERSAL_KEY: &str = "AR9XD6WnnkgUjtaPDg2Xy3QAAAtTcm90YXMgRGVzawAAAABqj8WdAAAAAAAAAABlosBH6RDtxjB1orI7noaUIoU2i3bnJFSvVdp7Bu7PglyFkOZXzbtpVNFhSSKlVTTfUgDqCmvwab/5FQ07dA4L";

fn now() -> UtcTime {
    let t = chrono::Utc::now();
    UtcTime { secs: t.timestamp(), nanos: t.timestamp_subsec_nanos() }
}

fn filled_item_form() -> ItemForm {
    let mut form = ItemForm::empty();
    form.name = "  Brass Tap ".into();
    form.buy_price = "80.50".into();
    form.sell_price = "120".into();
    form.stock_qty = "10".into();
    form.low_stock_threshold = "2".into();
    form.description = " chrome finish ".into();
    form
}

#[test]
fn a_complete_item_form_parses() {
    let parsed = parse_form(&filled_item_form(), QuantityReading::Number, QuantityReading::Number).unwrap();
    assert_eq!(parsed.name, "Brass Tap");
    assert_eq!((parsed.buy_price_paise, parsed.sell_price_paise), (8050, 12000));
    assert_eq!(parsed.description, "chrome finish");
    assert_eq!(parsed.unit, Unit::Piece);
    assert_eq!(parsed.gst_rate_bp, None);
    assert_eq!(parsed.editing_id, None);
}

#[test]
fn each_item_form_problem_is_named_in_field_order() {
    let ok = QuantityReading::Number;
    let mut form = filled_item_form();
    form.name = " ".into();
    form.buy_price = "abc".into();
    assert_eq!(parse_form(&form, ok, ok).unwrap_err(), "item name is required");

    let mut form = filled_item_form();
    form.buy_price = "abc".into();
    assert_eq!(parse_form(&form, ok, ok).unwrap_err(), "buy price must be a valid amount, e.g. 80.50");

    let mut form = filled_item_form();
    form.sell_price = "1.234".into();
    assert_eq!(parse_form(&form, ok, ok).unwrap_err(), "sell price must be a valid amount, e.g. 120.00");

    let mut form = filled_item_form();
    form.stock_qty = "".into();
    assert_eq!(parse_form(&form, ok, ok).unwrap_err(), "opening stock is required");
    let form = filled_item_form();
    assert_eq!(parse_form(&form, QuantityReading::NotANumber, ok).unwrap_err(), "opening stock must be a number");
    assert_eq!(parse_form(&form, QuantityReading::Negative, ok).unwrap_err(), "opening stock cannot be negative");

    let mut form = filled_item_form();
    form.low_stock_threshold = "  ".into();
    assert_eq!(parse_form(&form, ok, ok).unwrap_err(), "low-stock alert threshold is required");
    let form = filled_item_form();
    assert_eq!(
        parse_form(&form, ok, QuantityReading::NotANumber).unwrap_err(),
        "low-stock alert threshold must be a number"
    );
    assert_eq!(
        parse_form(&form, ok, QuantityReading::Negative).unwrap_err(),
        "low-stock alert threshold cannot be negative"
    );

    let mut form = filled_item_form();
    form.gst_rate = "eighteen".into();
    assert_eq!(parse_form(&form, ok, ok).unwrap_err(), "GST rate must be a valid percentage, e.g. 18 or 18.00");
    form.gst_rate = "18".into();
    assert_eq!(parse_form(&form, ok, ok).unwrap().gst_rate_bp, Some(1800));
}

#[test]
fn editing_an_item_does_not_ask_for_opening_stock() {
    let mut form = filled_item_form();
    form.editing_id = Some(9);
    form.stock_qty = String::new();
    let parsed = parse_form(&form, QuantityReading::NotANumber, QuantityReading::Number).unwrap();
    assert_eq!(parsed.editing_id, Some(9));
}

#[test]
fn the_profile_needs_a_name_and_a_readable_rate() {
    let mut form = ProfileForm::default();
    assert_eq!(check_profile(&form).unwrap_err(), "shop name cannot be empty");

    form.shop_name = " Asha Hardware ".into();
    form.default_gst_rate = "18.5.0".into();
    assert_eq!(check_profile(&form).unwrap_err(), "default GST rate must be a valid percentage, e.g. 18 or 18.00");

    form.default_gst_rate = " ".into();
    form.gstin = "  ".into();
    let update = check_profile(&form).unwrap();
    assert_eq!((update.shop_name.as_str(), update.gst_rate_bp, update.gstin), ("Asha Hardware", 0, None));
    assert!(matches!(update.logo, LogoChange::Keep));

    form.default_gst_rate = "12".into();
    form.gstin = " 27AAAAA0000A1Z5 ".into();
    form.logo = Some(vec![1, 2, 3]);
    let update = check_profile(&form).unwrap();
    assert_eq!(update.gst_rate_bp, 1200);
    assert_eq!(update.gstin.as_deref(), Some("27AAAAA0000A1Z5"));
    assert!(matches!(update.logo, LogoChange::Replace(ref b) if b == &vec![1, 2, 3]));

    form.logo_removed = true;
    assert!(matches!(check_profile(&form).unwrap().logo, LogoChange::Remove));
}

#[test]
fn changing_a_pin_asks_for_the_current_one() {
    let mut form = SecurityForm::default();
    form.new_pin = "12345".into();
    form.confirm_pin = "12345".into();
    assert_eq!(check_pin_change(&form, true).unwrap_err(), "enter your current PIN to change it");

    form.current_pin = " 1111 ".into();
    let change = check_pin_change(&form, true).unwrap();
    assert_eq!((change.current_pin.as_deref(), change.new_pin.as_deref()), (Some("1111"), Some("12345")));

    let change = check_pin_change(&form, false).unwrap();
    assert_eq!(change.current_pin, None);

    form.confirm_pin = "54321".into();
    assert_eq!(check_pin_change(&form, false).unwrap_err(), "PIN and confirmation don't match");
}

#[test]
fn the_current_pin_must_match_the_stored_hash() {
    let stored = hash("1111").unwrap();
    assert!(current_pin_accepted("1111", Some(stored.clone())));
    assert!(!current_pin_accepted("2222", Some(stored)));
    assert!(current_pin_accepted("2222", None));
}

#[test]
fn activation_needs_a_key_that_verifies() {
    let mut state = ActivationState::default();
    state.device_id = "device-a".into();
    assert_eq!(submit(&mut state, now()), None);
    assert_eq!(state.error.as_deref(), Some("enter your license key"));

    state.key_input = "garbage".into();
    assert_eq!(submit(&mut state, now()), None);
    assert_eq!(state.error.as_deref(), Some("that doesn't look like a valid license key"));

    state.key_input = format!("  {UNIVERSAL_KEY}\n");
    assert_eq!(submit(&mut state, now()).as_deref(), Some(UNIVERSAL_KEY));
}

#[test]
fn a_checked_key_decides_the_launch() {
    let payload = LicensePayload { shop_name: "Shop".into(), issued_at: 0, expires_at: None };
    match outcome_of_check("dev".into(), Ok(payload), now()) {
        Outcome::Valid { device_id, expiry_warning } => {
            assert_eq!(device_id, "dev");
            assert_eq!(expiry_warning, None);
        }
        other => panic!("unexpected {other:?}"),
    }
    match outcome_of_check("dev".into(), Err(LicenseError::BadSignature), now()) {
        Outcome::NeedsActivation { device_id, message } => {
            assert_eq!(device_id, "dev");
            assert_eq!(message.as_deref(), Some("this license key's signature is invalid"));
        }
        other => panic!("unexpected {other:?}"),
    }
}

#[test]
fn a_sale_needs_an_item_a_positive_quantity_and_a_price() {

    let mut form = SaleForm::default();
    assert_eq!(check_sale(&form, true).unwrap_err(), "choose an item first");
    form.select_item(ItemOption { id: 4, name: "Tap".into() });
    assert!(form.price.is_empty());
    assert_eq!(check_sale(&form, false).unwrap_err(), "quantity must be a positive number");
    form.price = "x".into();
    assert_eq!(check_sale(&form, true).unwrap_err(), "sell price must be a valid amount, e.g. 120.00");
    form.price = "99.5".into();
    assert_eq!(check_sale(&form, true).unwrap(), (4, 9950));
}

#[test]
fn a_blank_price_is_filled_from_the_item_and_a_typed_one_kept() {

    let mut price = "  ".to_string();
    prefill_price(&mut price, 12050);
    assert_eq!(price, "120.50");
    let mut price = "99".to_string();
    prefill_price(&mut price, 12050);
    assert_eq!(price, "99");
}

#[test]
fn a_restock_needs_a_positive_quantity_and_a_price() {

    let mut form = PurchaseForm { item_id: 1, item_name: "Tap".into(), qty: "3".into(), price: "80".into() };
    assert_eq!(check_purchase(&form, false).unwrap_err(), "quantity must be a positive number");
    assert_eq!(check_purchase(&form, true).unwrap(), 8000);
    form.price = "".into();
    assert_eq!(check_purchase(&form, true).unwrap_err(), "buy price must be a valid amount, e.g. 80.00");
}

#[test]
fn a_cart_line_takes_the_items_rate_else_the_shops() {

    let tap = Some(ItemOption { id: 2, name: "Tap".into() });
    assert_eq!(check_line(&None, true, "10", None, None).unwrap_err(), "choose an item first");
    assert_eq!(check_line(&tap, false, "10", None, None).unwrap_err(), "quantity must be a positive number");
    assert_eq!(check_line(&tap, true, "ten", None, None).unwrap_err(), "price must be a valid amount, e.g. 120.00");
    assert_eq!(check_line(&tap, true, "10", Some(500), Some(1800)).unwrap(), (2, 1000, 500));
    assert_eq!(check_line(&tap, true, "10", None, Some(1800)).unwrap(), (2, 1000, 1800));
    assert_eq!(check_line(&tap, true, "10", None, None).unwrap(), (2, 1000, 0));
}

#[test]
fn editing_a_stored_item_fills_the_form_from_it() {
    let details = ItemDetails {
        id: 12,
        name: "Copper Wire".into(),
        buy_price_paise: 8050,
        sell_price_paise: 12000,
        unit: "metre".into(),
        low_stock_threshold: "2.5".into(),
        description: "1.5 mm".into(),
        gst_rate_bp: Some(1800),
    };
    let form = ItemForm::from_item(&details);
    assert_eq!(form.editing_id, Some(12));
    assert_eq!((form.buy_price.as_str(), form.sell_price.as_str()), ("80.50", "120.00"));
    assert_eq!(form.unit, Unit::Metre);
    assert_eq!(form.low_stock_threshold, "2.5");
    assert_eq!(form.gst_rate, "18.00");
    assert!(form.stock_qty.is_empty());

    let odd = ItemDetails { unit: "litre".into(), gst_rate_bp: None, ..details };
    let form = ItemForm::from_item(&odd);
    assert_eq!(form.unit, Unit::Piece);
    assert!(form.gst_rate.is_empty());
}
