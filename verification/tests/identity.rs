use srotas_desk::models::ShopProfile;
use srotas_desk::ui::common::ShopIdentity;
use srotas_desk::ui::settings::ProfileForm;

fn profile(address: &str, phone: &str, gstin: Option<&str>) -> ShopProfile {
    ShopProfile {
        shop_name: "Sharma Hardware".to_string(),
        owner_name: "R. Sharma".to_string(),
        phone: phone.to_string(),
        address: address.to_string(),
        pin_hash: None,
        has_logo: false,
        gst_rate_bp: 1800,
        gstin: gstin.map(|g| g.to_string()),
        pin_failed_attempts: 0,
        pin_locked_until: None,
    }
}

#[test]
fn an_unregistered_shop_prints_under_the_app_name() {
    let id = ShopIdentity::from_state(&None, &Some(vec![1, 2, 3]));
    assert_eq!(id.name, "Srotas Desk");
    assert!(id.lines.is_empty());
    assert!(id.logo.is_none());
}

#[test]
fn the_masthead_lines_skip_what_the_shop_left_blank() {
    let shop = profile("  12 MG Road ", "   ", Some(" 27ABCDE1234F1Z5 "));
    let id = ShopIdentity::from_state(&Some(shop), &Some(vec![9]));
    assert_eq!(id.name, "Sharma Hardware");
    assert_eq!(id.lines, vec!["12 MG Road".to_string(), "GSTIN: 27ABCDE1234F1Z5".to_string()]);
    assert_eq!(id.logo, Some(vec![9]));

    let bare = ShopIdentity::from_state(&Some(profile("", "98765", Some("  "))), &None);
    assert_eq!(bare.lines, vec!["98765".to_string()]);
    assert!(bare.logo.is_none());
}

#[test]
fn the_profile_form_starts_from_the_stored_profile() {
    let form = ProfileForm::from_shop(&profile("12 MG Road", "98765", None));
    assert_eq!(form.shop_name, "Sharma Hardware");
    assert_eq!(form.owner_name, "R. Sharma");
    assert_eq!(form.address, "12 MG Road");
    assert_eq!(form.phone, "98765");
    assert_eq!(form.gstin, "");
    assert_eq!(form.default_gst_rate, "18.00");
    assert!(form.logo.is_none());
    assert!(!form.logo_removed);
}
