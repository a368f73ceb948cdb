use srotas_desk::time::UtcTime;
use srotas_desk::ui::common::ItemOption;
use srotas_desk::ui::reports::{Calendar, Field, Preset, ReportsState};

#[test]
fn presets_pick_the_ranges_their_names_say() {
    let today = (2026, 3, 15);
    assert_eq!(Preset::Today.range(today), (Some(today), Some(today)));
    assert_eq!(Preset::Last7.range(today), (Some((2026, 3, 9)), Some(today)));
    assert_eq!(Preset::ThisMonth.range(today), (Some((2026, 3, 1)), Some(today)));
    assert_eq!(Preset::LastMonth.range(today), (Some((2026, 2, 1)), Some((2026, 2, 28))));
    assert_eq!(Preset::ThisYear.range(today), (Some((2026, 1, 1)), Some(today)));
    assert_eq!(Preset::AllTime.range(today), (None, None));
}

#[test]
fn last_month_and_last_seven_days_cross_year_and_leap_boundaries() {
    assert_eq!(Preset::LastMonth.range((2026, 1, 10)), (Some((2025, 12, 1)), Some((2025, 12, 31))));
    assert_eq!(Preset::LastMonth.range((2024, 3, 31)), (Some((2024, 2, 1)), Some((2024, 2, 29))));
    assert_eq!(Preset::Last7.range((2026, 1, 3)), (Some((2025, 12, 28)), Some((2026, 1, 3))));
}

#[test]
fn a_preset_fills_both_fields_and_closes_the_calendar() {
    let mut r = ReportsState::default();
    r.calendar = Some(Calendar { field: Field::From, year: 2026, month: 3 });
    r.apply_preset(Preset::ThisMonth, (2026, 3, 15));
    assert_eq!((r.from.as_str(), r.to.as_str()), ("2026-03-01", "2026-03-15"));
    assert!(r.calendar.is_none());
    r.apply_preset(Preset::AllTime, (2026, 3, 15));
    assert_eq!((r.from.as_str(), r.to.as_str()), ("", ""));
}

#[test]
fn the_calendar_opens_on_the_month_the_field_names() {
    let mut r = ReportsState::default();
    r.from = " 2025-11-20 ".into();
    r.open_calendar(Field::From, (2026, 3, 15));
    assert_eq!(r.calendar, Some(Calendar { field: Field::From, year: 2025, month: 11 }));
    r.open_calendar(Field::To, (2026, 3, 15));
    assert_eq!(r.calendar, Some(Calendar { field: Field::To, year: 2026, month: 3 }));
}

#[test]
fn the_query_runs_from_the_start_of_from_to_the_end_of_to() {
    let mut r = ReportsState::default();
    r.from = "2026-01-01".into();
    r.to = "2026-01-01".into();
    r.page = 2;
    r.item_filter = Some(ItemOption { id: 7, name: "Tap".into() });
    let q = r.query().unwrap();
    assert_eq!(q.from, Some(UtcTime { secs: 1_767_225_600, nanos: 0 }));
    assert_eq!(q.to, Some(UtcTime { secs: 1_767_225_600 + 86_399, nanos: 0 }));
    assert_eq!((q.item_id, q.page, q.offset), (Some(7), 2, 50));
}

#[test]
fn blank_dates_leave_the_range_open_and_bad_ones_are_refused() {
    let mut r = ReportsState::default();
    let q = r.query().unwrap();
    assert_eq!((q.from, q.to, q.item_id, q.offset), (None, None, None, 0));
    r.to = "01/02/2026".into();
    assert_eq!(r.query().unwrap_err(), "dates must be YYYY-MM-DD");
}

#[test]
fn the_calendar_steps_by_whole_months_and_stays_inside_chronos_range() {
    let mut r = ReportsState::default();
    r.calendar = Some(Calendar { field: Field::From, year: 2026, month: 3 });
    r.shift_month(-3);
    assert_eq!(r.calendar, Some(Calendar { field: Field::From, year: 2025, month: 12 }));
    r.shift_month(13);
    assert_eq!(r.calendar, Some(Calendar { field: Field::From, year: 2027, month: 1 }));
    r.shift_month(-24);
    assert_eq!(r.calendar, Some(Calendar { field: Field::From, year: 2025, month: 1 }));
    // Far past the dates chrono holds: the calendar stays where it was.
    r.shift_month(i32::MAX - 12);
    assert_eq!(r.calendar, Some(Calendar { field: Field::From, year: 2025, month: 1 }));
    r.shift_month(i32::MIN);
    assert_eq!(r.calendar, Some(Calendar { field: Field::From, year: 2025, month: 1 }));
    let mut closed = ReportsState::default();
    closed.shift_month(5);
    assert!(closed.calendar.is_none());
}
