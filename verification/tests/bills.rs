use srotas_desk::repo::bills::{bill_figures, figures_fit, tax_lines, touched_items, PricedLine, TaxedLine};
use srotas_desk::ui::bills::{check_submission, compute_totals, remove_line, truncate};

fn line(total: i64, rate: i64) -> PricedLine {
    PricedLine { line_total_paise: total, gst_rate_bp: rate }
}

#[test]
fn a_bill_without_tax_totals_subtotal_less_discount() {
    // 2 x 100.00 and 3 x 50.00, 10.00 off
    let lines = [line(20000, 0), line(15000, 0)];
    let f = bill_figures(&lines, 1000);
    assert_eq!(f.subtotal_paise, 35000);
    assert_eq!(f.discount_paise, 1000);
    assert_eq!(f.total_paise, 34000);
    assert_eq!((f.cgst_paise, f.sgst_paise), (0, 0));
}

#[test]
fn cgst_and_sgst_are_split_per_line_after_the_discount() {
    // 18% and 12% lines; 10% discount prorated 2000/1500
    let lines = [line(20000, 1800), line(15000, 1200)];
    let taxed = tax_lines(&lines, 3500);
    assert_eq!(taxed[0], TaxedLine { line_total_paise: 20000, cgst_paise: 1620, sgst_paise: 1620 });
    assert_eq!(taxed[1], TaxedLine { line_total_paise: 15000, cgst_paise: 810, sgst_paise: 810 });

    let f = bill_figures(&lines, 3500);
    assert_eq!(f.subtotal_paise, 35000);
    assert_eq!(f.cgst_paise, 1620 + 810);
    assert_eq!(f.sgst_paise, 1620 + 810);
    assert_eq!(f.total_paise, 36360);
}

#[test]
fn an_odd_paisa_of_tax_goes_to_sgst() {
    // 18% of 10.05 is 1.809, rounded half up to 1.81: 0.90 + 0.91
    let taxed = tax_lines(&[line(1005, 1800)], 0);
    assert_eq!((taxed[0].cgst_paise, taxed[0].sgst_paise), (90, 91));
}

#[test]
fn the_last_line_absorbs_the_rounding_of_the_discount() {
    // 100 paise off three equal lines: 33 + 33 + 34
    let lines = [line(1000, 10000), line(1000, 10000), line(1000, 10000)];
    let taxed = tax_lines(&lines, 100);
    assert_eq!(taxed[0].cgst_paise + taxed[0].sgst_paise, 967);
    assert_eq!(taxed[1].cgst_paise + taxed[1].sgst_paise, 967);
    assert_eq!(taxed[2].cgst_paise + taxed[2].sgst_paise, 966);
}

#[test]
fn a_discount_larger_than_the_bill_never_makes_it_negative() {
    let f = bill_figures(&[line(500, 1800)], 900);
    assert_eq!(f.total_paise, 0);
    assert_eq!(f.cgst_paise + f.sgst_paise, 0);
}

#[test]
fn a_zero_subtotal_takes_no_discount_share() {
    let f = bill_figures(&[line(0, 1800), line(0, 1200)], 500);
    assert_eq!((f.subtotal_paise, f.cgst_paise, f.sgst_paise, f.total_paise), (0, 0, 0, 0));
}

#[test]
fn the_cart_shows_what_the_bill_will_store() {
    let lines = [line(20000, 1800), line(15000, 1200)];
    let cart = compute_totals(&lines, 3500);
    let f = bill_figures(&lines, 3500);
    assert_eq!((cart.subtotal_paise, cart.cgst_paise, cart.sgst_paise, cart.total_paise), (f.subtotal_paise, f.cgst_paise, f.sgst_paise, f.total_paise));
}

#[test]
fn submission_checks_the_cart_and_discount() {
    assert_eq!(check_submission(0, "", 100).unwrap_err(), "add at least one item to the bill");
    assert_eq!(check_submission(1, "  ", 100).unwrap(), 0);
    assert_eq!(check_submission(1, "1.00", 100).unwrap(), 100);
    assert_eq!(check_submission(1, "1.01", 100).unwrap_err(), "discount can't be more than the subtotal");
    assert_eq!(check_submission(1, "ten", 100).unwrap_err(), "discount must be a valid amount, e.g. 20.00");
}

#[test]
fn removing_a_line_out_of_range_changes_nothing() {
    let mut cart = vec![1, 2, 3];
    remove_line(&mut cart, 5);
    assert_eq!(cart, [1, 2, 3]);
    remove_line(&mut cart, 1);
    assert_eq!(cart, [1, 3]);
}

#[test]
fn long_names_are_cut_with_an_ellipsis() {
    assert_eq!(truncate("Bolt", 32), "Bolt");
    assert_eq!(truncate("Galvanised Iron Pipe", 10), "Galvanise\u{2026}");
    assert_eq!(truncate("abc", 0), "\u{2026}");
    assert_eq!(truncate("रुपये", 3), "रु\u{2026}");
}

#[test]
fn an_edit_touches_every_item_on_either_version_once() {
    assert_eq!(touched_items(&[3, 1, 3], &[1, 7, 7, 2]), vec![3, 1, 7, 2]);
    assert_eq!(touched_items(&[], &[5]), vec![5]);
    assert_eq!(touched_items(&[4], &[]), vec![4]);
}

#[test]
fn ordinary_bills_fit_and_overflowing_ones_do_not() {
    assert!(figures_fit(&[line(10_000, 1800), line(5_000, 500)], 1_500));
    assert!(figures_fit(&[], 0));
    assert!(!figures_fit(&[line(i64::MAX, 0), line(1, 0)], 0));
    assert!(!figures_fit(&[line(10, 0)], i64::MIN));
    assert!(!figures_fit(&[line(i64::MAX, 10_000)], 0));
}
