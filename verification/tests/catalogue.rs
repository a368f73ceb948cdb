use srotas_desk::models::Unit;
use srotas_desk::ui::catalogue;
use srotas_desk::ui::catalogue::{low_stock_count, low_stock_page, page, search, CatalogueEntry};

/// The entry the screens hold for an item with this stock and threshold:
/// low when strictly below the threshold, ordered by how far below.
fn item(name: &str, unit: &str, stock: f64, threshold: f64) -> CatalogueEntry {
    let low_stock = stock < threshold;
    let urgency = if low_stock { (stock / threshold).to_bits() } else { u64::MAX };
    CatalogueEntry { name: name.to_string(), unit: unit.to_string(), low_stock, urgency }
}

fn catalogue() -> Vec<CatalogueEntry> {
    vec![
        item("Brass Tap", "piece", 3.0, 8.0),    // low, ratio 0.375
        item("Cement Bag", "kg", 1.0, 4.0),      // low, ratio 0.25
        item("Anchor Bolt", "piece", 50.0, 5.0), // healthy
        item("Wall Putty", "kg", 0.0, 5.0),      // low, ratio 0.0
        item("Copper Wire", "metre", 90.0, 25.0), // healthy
    ]
}

fn names<'a>(all: &'a [CatalogueEntry], rows: &[usize]) -> Vec<&'a str> {
    rows.iter().map(|&i| all[i].name.as_str()).collect()
}

#[test]
fn an_empty_query_matches_everything() {
    for i in catalogue() {
        assert!(catalogue::matches(&i, "", None, false));
        assert!(catalogue::matches(&i, "   ", None, false));
    }
}

#[test]
fn the_name_filter_is_a_case_insensitive_substring() {
    let i = item("Brass Tap", "piece", 1.0, 1.0);
    assert!(catalogue::matches(&i, "brass", None, false));
    assert!(catalogue::matches(&i, "BRASS", None, false));
    assert!(catalogue::matches(&i, "ss ta", None, false));
    assert!(!catalogue::matches(&i, "copper", None, false));
}

#[test]
fn the_unit_and_low_stock_filters_compose() {
    let all = catalogue();
    let (rows, total, _) = page(&all, "", Some(Unit::Kg), false, 10, 0);
    assert_eq!(total, 2);
    assert!(rows.iter().all(|&i| all[i].unit == "kg"));

    let (rows, total, _) = page(&all, "", Some(Unit::Kg), true, 10, 0);
    assert_eq!(total, 2, "both kg items happen to be low");
    assert!(rows.iter().all(|&i| all[i].low_stock));

    let (_, total, _) = page(&all, "", Some(Unit::Piece), true, 10, 0);
    assert_eq!(total, 1, "only Brass Tap is a low piece");
}

#[test]
fn pages_are_ordered_by_name_and_split_by_size() {
    let all = catalogue();
    let (first, total, page_idx) = page(&all, "", None, false, 2, 0);
    assert_eq!(total, 5);
    assert_eq!(page_idx, 0);
    assert_eq!(names(&all, &first), ["Anchor Bolt", "Brass Tap"]);

    let (second, _, _) = page(&all, "", None, false, 2, 1);
    assert_eq!(names(&all, &second), ["Cement Bag", "Copper Wire"]);

    let (last, _, _) = page(&all, "", None, false, 2, 2);
    assert_eq!(names(&all, &last), ["Wall Putty"]);
}

#[test]
fn a_page_past_the_end_is_clamped_to_the_last_one() {
    let all = catalogue();
    let (rows, _, page_idx) = page(&all, "", None, false, 2, 99);
    assert_eq!(page_idx, 2);
    assert_eq!(rows.len(), 1);
}

#[test]
fn an_empty_catalogue_still_reports_one_page() {
    let none: Vec<CatalogueEntry> = Vec::new();
    let (rows, total, page_idx) = page(&none, "", None, false, 10, 3);
    assert!(rows.is_empty());
    assert_eq!((total, page_idx), (0, 0));
}

#[test]
fn low_stock_is_ordered_by_how_far_below_threshold() {
    let all = catalogue();
    let (rows, total, _) = low_stock_page(&all, 10, 0);
    assert_eq!(total, 3);
    assert_eq!(
        names(&all, &rows),
        ["Wall Putty", "Cement Bag", "Brass Tap"],
        "most urgent first: ratios 0.0, 0.25, 0.375"
    );
    assert_eq!(low_stock_count(&all), 3);
}

#[test]
fn low_stock_paginates_and_clamps() {
    let all = catalogue();
    let (rows, total, page_idx) = low_stock_page(&all, 2, 0);
    assert_eq!((rows.len(), total, page_idx), (2, 3, 0));

    let (rows, _, page_idx) = low_stock_page(&all, 2, 9);
    assert_eq!((rows.len(), page_idx), (1, 1));
}

#[test]
fn search_returns_at_most_the_limit() {
    let all = catalogue();
    assert_eq!(search(&all, "", 2).len(), 2);
    assert_eq!(search(&all, "", 99).len(), 5);

    let hits = search(&all, "a", 10);
    assert!(hits.iter().all(|&i| all[i].name.to_lowercase().contains('a')));
}

#[test]
fn the_low_stock_boundary_is_strictly_below() {
    let at = item("At", "piece", 5.0, 5.0);
    let below = item("Below", "piece", 4.9, 5.0);
    assert!(!at.low_stock);
    assert!(below.low_stock);
    assert_eq!(low_stock_count(&[at, below]), 1);
}

#[test]
fn names_sort_bytewise_so_capitals_come_first() {
    let all = vec![
        item("anchor bolt", "piece", 50.0, 5.0),
        item("Zinc Washer", "piece", 1.0, 20.0),
        item("Brass Tap", "piece", 3.0, 8.0),
    ];
    let (rows, _, _) = page(&all, "", None, false, 10, 0);
    assert_eq!(names(&all, &rows), ["Brass Tap", "Zinc Washer", "anchor bolt"]);
}

#[test]
fn equal_names_keep_the_order_they_were_given_in() {
    let all = vec![item("Tap", "piece", 1.0, 1.0), item("Bolt", "kg", 1.0, 1.0), item("Tap", "kg", 1.0, 1.0)];
    let (rows, _, _) = page(&all, "", None, false, 10, 0);
    assert_eq!(rows, vec![1, 0, 2]);
}

#[test]
fn equally_urgent_items_are_ordered_by_name() {
    let all = vec![item("Washer", "piece", 1.0, 2.0), item("Bolt", "piece", 2.0, 4.0), item("Hinge", "piece", 0.0, 3.0)];
    let (rows, _, _) = low_stock_page(&all, 10, 0);
    assert_eq!(names(&all, &rows), ["Hinge", "Bolt", "Washer"]);
}

#[test]
fn the_low_stock_count_is_the_low_stock_total() {
    let all = catalogue();
    for size in 1..6 {
        let (_, total, _) = low_stock_page(&all, size, 0);
        assert_eq!(total, low_stock_count(&all));
    }
}

#[test]
fn a_query_is_trimmed_before_it_is_matched() {
    let i = item("Copper Wire", "metre", 1.0, 1.0);
    assert!(catalogue::matches(&i, "  WIRE  ", None, false));
    assert!(!catalogue::matches(&i, "wire", Some(Unit::Kg), false));
    assert!(!catalogue::matches(&i, "wire", None, true));
}

#[test]
fn an_unmatched_search_is_empty() {
    let all = catalogue();
    assert!(search(&all, "nothing-matches-this", 20).is_empty());
}
