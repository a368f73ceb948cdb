use srotas_desk::ui::paging::{page_label, page_total, range_label, shown_page};

#[test]
fn totals_fill_whole_pages_and_an_empty_list_has_one() {
    assert_eq!(page_total(0, 10), 1);
    assert_eq!(page_total(10, 10), 1);
    assert_eq!(page_total(11, 10), 2);
    assert_eq!(page_total(25, 25), 1);
    assert_eq!(page_total(26, 25), 2);
}

#[test]
fn a_page_past_the_end_shows_the_last_and_none_comes_before_the_first() {
    assert_eq!(shown_page(25, 10, 7), 2);
    assert_eq!(shown_page(25, 10, 1), 1);
    assert_eq!(shown_page(0, 10, 3), 0);
    assert_eq!(shown_page(25, 10, -1), 0);
}

#[test]
fn the_lines_under_a_list_say_where_you_are() {
    assert_eq!(page_label(0, 3), "Page 1 of 3");
    assert_eq!(range_label(25, 1, 10), "11-20 of 25");
    assert_eq!(range_label(25, 2, 10), "21-25 of 25");
    assert_eq!(range_label(0, 0, 10), "0 of 0");
}
