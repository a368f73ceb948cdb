use srotas_desk::models::Unit;
use srotas_desk::ui::catalogue::CatalogueEntry;
use srotas_desk::ui::items::{current_page, UnitFilter, PAGE_SIZE};

fn item(name: &str) -> CatalogueEntry {
    // Ten in stock against a threshold of five: never low.
    CatalogueEntry { name: name.to_string(), unit: "piece".to_string(), low_stock: false, urgency: u64::MAX }
}

#[test]
fn current_page_paginates_and_reports_the_right_totals() {
    let items: Vec<CatalogueEntry> = (1..=25).map(|id| item(&format!("Item {id}"))).collect();

    let (page_items, total, page_count) = current_page(&items, "", UnitFilter::All, false, 0);
    assert_eq!(total, 25);
    assert_eq!(page_count, 3);
    assert_eq!(page_items.len(), PAGE_SIZE);
    assert_eq!(items[page_items[0]].name, "Item 1");

    let (last_page, _, _) = current_page(&items, "", UnitFilter::All, false, 2);
    assert_eq!(last_page.len(), 5); // 25 items, 10 per page -> 5 on the last page
    assert_eq!(items[last_page[0]].name, "Item 21");
}

#[test]
fn current_page_applies_search_and_low_stock_filters_before_paginating() {
    let items = vec![item("PVC Pipe"), item("Copper Wire"), item("PVC Elbow")];

    let (page_items, total, _) = current_page(&items, "pvc", UnitFilter::All, false, 0);
    assert_eq!(total, 2);
    assert!(page_items.iter().all(|&i| items[i].name.to_lowercase().contains("pvc")));
}

#[test]
fn current_page_clamps_a_stale_page_number_after_the_result_set_shrinks() {
    let items = vec![item("A"), item("B")];

    let (page_items, _, page_count) = current_page(&items, "", UnitFilter::All, false, 5);
    assert_eq!(page_count, 1);
    assert_eq!(page_items.len(), 2);
}

#[test]
fn the_list_keeps_the_order_the_items_came_in() {
    let items = vec![item("Zinc"), item("Anchor"), item("Mesh")];
    let (page_items, _, _) = current_page(&items, "", UnitFilter::All, false, 0);
    assert_eq!(page_items, vec![0, 1, 2]);
}

#[test]
fn the_unit_filter_and_low_stock_only_narrow_the_list() {
    let mut low_kg = item("Cement");
    low_kg.unit = "kg".to_string();
    low_kg.low_stock = true;
    let items = vec![item("Tap"), low_kg, item("Bolt")];

    let (rows, total, _) = current_page(&items, "", UnitFilter::Only(Unit::Kg), false, 0);
    assert_eq!((rows, total), (vec![1], 1));

    let (rows, total, _) = current_page(&items, "", UnitFilter::All, true, 0);
    assert_eq!((rows, total), (vec![1], 1));

    let (rows, total, page_count) = current_page(&items, "", UnitFilter::Only(Unit::Metre), false, 0);
    assert_eq!((rows.len(), total, page_count), (0, 0, 1));
}
