//! The Reports screen's filters: the date range, its presets and the
//! calendar popup.
use vstd::prelude::*;
use chrono::Datelike;
use crate::settings::{day_text, parse_day, spec_day_text, spec_parse_day};
use crate::text::{spec_trim, trim};
use crate::time::UtcTime;
use crate::ui::common::ItemOption;

verus! {

#[derive(Debug, Clone, Copy, PartialEq, Eq, Structural)]
pub enum Field {
    From,
    To,
}

impl Field {
    pub fn label(self) -> (r: &'static str)
        ensures
            r@ == match self {
                Field::From => "From"@,
                Field::To => "To"@,
            },
    {
        match self {
            Field::From => "From",
            Field::To => "To",
        }
    }
}

/// How many transaction rows one page of the report shows.
pub const PAGE_SIZE: i64 = 25;

/// A ready-made date range.
#[derive(Debug, Clone, Copy, PartialEq, Eq, Structural)]
pub enum Preset {
    Today,
    Last7,
    ThisMonth,
    LastMonth,
    ThisYear,
    AllTime,
}

impl Preset {
    pub const ALL: [Preset; 6] = [
        Preset::Today,
        Preset::Last7,
        Preset::ThisMonth,
        Preset::LastMonth,
        Preset::ThisYear,
        Preset::AllTime,
    ];

    pub fn label(self) -> (r: &'static str)
        ensures
            r@ == match self {
                Preset::Today => "Today"@,
                Preset::Last7 => "Last 7 days"@,
                Preset::ThisMonth => "This month"@,
                Preset::LastMonth => "Last month"@,
                Preset::ThisYear => "This year"@,
                Preset::AllTime => "All time"@,
            },
    {
        match self {
            Preset::Today => "Today",
            Preset::Last7 => "Last 7 days",
            Preset::ThisMonth => "This month",
            Preset::LastMonth => "Last month",
            Preset::ThisYear => "This year",
            Preset::AllTime => "All time",
        }
    }
}

/// Whether chrono has a date for the first of `month` in `year`: a month
/// 1 to 12 of a year from -262143 to 262142 (chrono's `MIN_YEAR` and
/// `MAX_YEAR`).
pub open spec fn chrono_has_month(year: int, month: int) -> bool {
    1 <= month <= 12 && -262143 <= year <= 262142
}

/// `chrono::NaiveDate::from_ymd_opt(year, month, 1).is_some()`: the first
/// of that month is a date chrono can represent, which is so exactly for
/// months 1 to 12 of the years chrono holds.
#[verifier::external_body]
fn month_start_exists(year: i32, month: u32) -> (r: bool)
    ensures
        r == chrono_has_month(year as int, month as int),
{
    chrono::NaiveDate::from_ymd_opt(year, month, 1).is_some()
}

/// The calendar popup: which field it picks for, and the month it shows
/// (always held as the first of that month).
#[derive(Debug, Clone, Copy, PartialEq, Eq, Structural)]
pub struct Calendar {
    pub field: Field,
    pub year: i32,
    pub month: u32,
}

/// The Reports screen's state, apart from the loaded rows.
#[derive(Debug)]
pub struct ReportsState {
    pub item_filter: Option<ItemOption>,
    pub from: String,
    pub to: String,
    pub stock_value_paise: i64,
    pub total_profit_paise: i64,
    /// Total matching transactions, for the pagination line.
    pub total: i64,
    pub page: i64,
    pub calendar: Option<Calendar>,
}

impl Default for ReportsState {
    fn default() -> (r: ReportsState)
        ensures
            r.item_filter is None && r.from@.len() == 0 && r.to@.len() == 0,
            r.stock_value_paise == 0 && r.total_profit_paise == 0 && r.total == 0 && r.page == 0,
            r.calendar is None,
    {
        ReportsState {
            item_filter: None,
            from: String::new(),
            to: String::new(),
            stock_value_paise: 0,
            total_profit_paise: 0,
            total: 0,
            page: 0,
            calendar: None,
        }
    }
}

/// Months since year 0 of `month` (1-12) in `year`, shifted by `months`.
pub open spec fn month_index(year: int, month: int, months: int) -> int {
    year * 12 + (month - 1) + months
}

impl ReportsState {
    pub open spec fn value(&self, field: Field) -> Seq<char> {
        match field {
            Field::From => self.from@,
            Field::To => self.to@,
        }
    }

    pub fn set_field(&mut self, field: Field, value: String)
        ensures
            final(self).value(field) == value@,
            forall|g: Field| g != field ==> final(self).value(g) == old(self).value(g),
            *final(self) == (ReportsState { from: final(self).from, to: final(self).to, ..*old(self) }),
    {
        match field {
            Field::From => self.from = value,
            Field::To => self.to = value,
        }
    }

    pub fn get_field(&self, field: Field) -> (r: String)
        ensures
            r@ == self.value(field),
    {
        match field {
            Field::From => self.from.clone(),
            Field::To => self.to.clone(),
        }
    }

    /// Steps the open calendar by whole months, landing on the first of
    /// the month; a step to a month chrono cannot hold leaves it where it
    /// was.
    pub fn shift_month(&mut self, months: i32)
        requires
            old(self).calendar matches Some(c) ==> c.month + months <= i32::MAX,
        ensures
            match old(self).calendar {
                None => final(self).calendar is None,
                Some(c) => final(self).calendar == Some(shifted(c, months as int)),
            },
            *final(self) == (ReportsState { calendar: final(self).calendar, ..*old(self) }),
    {
        let cal = match self.calendar {
            Some(c) => c,
            None => return,
        };
        let ghost idx = month_index(cal.year as int, cal.month as int, months as int);
        let mut y: i64 = cal.year as i64;
        let mut m: i64 = cal.month as i64 + months as i64;
        assert(-0x8_0000_0000 <= idx <= 0x8_0000_0000);
        while m < 1
            invariant
                y * 12 + (m - 1) == idx,
                -0x8_0000_0000 <= idx <= 0x8_0000_0000,
                i32::MIN <= m <= i32::MAX,
            decreases 12 - m,
        {
            m = m + 12;
            y = y - 1;
        }
        while m > 12
            invariant
                y * 12 + (m - 1) == idx,
                -0x8_0000_0000 <= idx <= 0x8_0000_0000,
                1 <= m <= i32::MAX,
            decreases m,
        {
            m = m - 12;
            y = y + 1;
        }
        assert(idx / 12 == y && idx % 12 + 1 == m) by {
            assert(idx == y * 12 + (m - 1));
            assert(0 <= m - 1 < 12);
        }
        if i32::MIN as i64 <= y && y <= i32::MAX as i64 {
            if month_start_exists(y as i32, m as u32) {
                self.calendar = Some(Calendar { field: cal.field, year: y as i32, month: m as u32 });
            }
        }
    }
}

/// Where the calendar `c` lands after stepping `months` whole months: the
/// first of the month that many months on, or `c` unchanged when chrono
/// has no such month.
pub open spec fn shifted(c: Calendar, months: int) -> Calendar {
    let idx = month_index(c.year as int, c.month as int, months);
    let y = idx / 12;
    let m = idx % 12 + 1;
    if chrono_has_month(y, m) {
        Calendar { field: c.field, year: y as i32, month: m as u32 }
    } else {
        c
    }
}

/// The day `n` days before `day` (year, month, day), as chrono's
/// `checked_sub_days` gives it, or `None` when there is no such day.
pub uninterp spec fn spec_days_before(day: (i32, u32, u32), n: u64) -> Option<(i32, u32, u32)>;

/// The day before `day`, as chrono's `pred_opt` gives it.
pub uninterp spec fn spec_day_before(day: (i32, u32, u32)) -> Option<(i32, u32, u32)>;

/// The Unix timestamp chrono gives `day` at `hour:minute:second` UTC, or
/// `None` when that is no moment.
pub uninterp spec fn spec_utc_timestamp(day: (i32, u32, u32), hour: u32, minute: u32, second: u32) -> Option<i64>;

/// `NaiveDate::checked_sub_days(Days::new(n))` on the date `day` names.
/// Its result is named, not described.
#[verifier::external_body]
fn days_before(day: (i32, u32, u32), n: u64) -> (r: Option<(i32, u32, u32)>)
    ensures
        r == spec_days_before(day, n),
{
    match chrono::NaiveDate::from_ymd_opt(day.0, day.1, day.2) {
        Some(d) => match d.checked_sub_days(chrono::Days::new(n)) {
            Some(e) => Some((e.year(), e.month(), e.day())),
            None => None,
        },
        None => None,
    }
}

/// `NaiveDate::pred_opt` on the date `day` names. Its result is named, not
/// described.
#[verifier::external_body]
fn day_before(day: (i32, u32, u32)) -> (r: Option<(i32, u32, u32)>)
    ensures
        r == spec_day_before(day),
{
    match chrono::NaiveDate::from_ymd_opt(day.0, day.1, day.2) {
        Some(d) => match d.pred_opt() {
            Some(e) => Some((e.year(), e.month(), e.day())),
            None => None,
        },
        None => None,
    }
}

/// `NaiveDate::and_hms_opt(hour, minute, second)` on the date `day` names,
/// read as UTC with `and_utc().timestamp()`. Its result is named, not
/// described.
#[verifier::external_body]
fn utc_timestamp(day: (i32, u32, u32), hour: u32, minute: u32, second: u32) -> (r: Option<i64>)
    ensures
        r == spec_utc_timestamp(day, hour, minute, second),
{
    match chrono::NaiveDate::from_ymd_opt(day.0, day.1, day.2) {
        Some(d) => match d.and_hms_opt(hour, minute, second) {
            Some(t) => Some(t.and_utc().timestamp()),
            None => None,
        },
        None => None,
    }
}

/// The first of the month `day` falls in.
pub open spec fn month_start(day: (i32, u32, u32)) -> (i32, u32, u32) {
    (day.0, day.1, 1)
}

impl Preset {
    /// The range a preset picks, as (from, to) with `today` a real date;
    /// `None` leaves that end open, which is how All time clears both.
    pub open spec fn spec_range(self, today: (i32, u32, u32)) -> (Option<(i32, u32, u32)>, Option<(i32, u32, u32)>) {
        match self {
            Preset::Today => (Some(today), Some(today)),
            Preset::Last7 => (spec_days_before(today, 6), Some(today)),
            Preset::ThisMonth => (Some(month_start(today)), Some(today)),
            Preset::LastMonth => {
                let last_prev = match spec_day_before(month_start(today)) {
                    Some(d) => d,
                    None => today,
                };
                (Some(month_start(last_prev)), Some(last_prev))
            },
            Preset::ThisYear => (Some((today.0, 1, 1)), Some(today)),
            Preset::AllTime => (None, None),
        }
    }

    /// The range the preset picks when today is `today` (a real date).
    pub fn range(self, today: (i32, u32, u32)) -> (r: (Option<(i32, u32, u32)>, Option<(i32, u32, u32)>))
        ensures
            r == self.spec_range(today),
    {
        match self {
            Preset::Today => (Some(today), Some(today)),
            Preset::Last7 => (days_before(today, 6), Some(today)),
            Preset::ThisMonth => (Some((today.0, today.1, 1)), Some(today)),
            Preset::LastMonth => {
                let last_prev = match day_before((today.0, today.1, 1)) {
                    Some(d) => d,
                    None => today,
                };
                (Some((last_prev.0, last_prev.1, 1)), Some(last_prev))
            },
            Preset::ThisYear => (Some((today.0, 1, 1)), Some(today)),
            Preset::AllTime => (None, None),
        }
    }
}

/// How a date field shows a date: `%Y-%m-%d`, or nothing.
pub open spec fn field_text(day: Option<(i32, u32, u32)>) -> Seq<char> {
    match day {
        Some((y, m, d)) => match spec_day_text(y, m, d) {
            Some(t) => t,
            None => Seq::empty(),
        },
        None => Seq::empty(),
    }
}

/// The text for a date field.
pub(crate) fn show_day(day: Option<(i32, u32, u32)>) -> (r: String)
    ensures
        r@ == field_text(day),
{
    match day {
        Some((y, m, d)) => match day_text(y, m, d) {
            Some(t) => t,
            None => String::new(),
        },
        None => String::new(),
    }
}

/// Where the report's rows come from: the item filter, the time bounds
/// (seconds since the epoch; `None` is open), and the page.
#[derive(Debug)]
pub struct ReportQuery {
    pub item_id: Option<i64>,
    pub from: Option<UtcTime>,
    pub to: Option<UtcTime>,
    pub page: i64,
    /// Rows to skip: `page * PAGE_SIZE`.
    pub offset: i64,
}

/// What a date field bounds the report by: nothing when blank; otherwise
/// it must read as `YYYY-MM-DD`, and the bound is that day at
/// `hour:minute:second` UTC.
pub open spec fn spec_day_bound(text: Seq<char>, hour: u32, minute: u32, second: u32) -> Result<Option<i64>, Seq<char>> {
    let t = spec_trim(text);
    if t.len() == 0 {
        Ok(None)
    } else {
        match spec_parse_day(t) {
            None => Err("dates must be YYYY-MM-DD"@),
            Some(d) => match spec_utc_timestamp(d, hour, minute, second) {
                Some(s) => Ok(Some(s)),
                None => Err("dates must be YYYY-MM-DD"@),
            },
        }
    }
}

fn day_bound(text: &str, hour: u32, minute: u32, second: u32) -> (r: Result<Option<UtcTime>, String>)
    ensures
        match (r, spec_day_bound(text@, hour, minute, second)) {
            (Ok(None), Ok(None)) => true,
            (Ok(Some(t)), Ok(Some(s))) => t == UtcTime { secs: s, nanos: 0 },
            (Err(e), Err(m)) => e@ == m,
            _ => false,
        },
{
    let t = trim(text);
    if t.unicode_len() == 0 {
        return Ok(None);
    }
    match parse_day(t) {
        None => Err(String::from_str("dates must be YYYY-MM-DD")),
        Some(d) => match utc_timestamp(d, hour, minute, second) {
            Some(s) => Ok(Some(UtcTime::from_secs(s))),
            None => Err(String::from_str("dates must be YYYY-MM-DD")),
        },
    }
}

impl ReportsState {
    /// Opens the calendar on the month the field already names, or on
    /// `today`'s month when it names none.
    pub fn open_calendar(&mut self, field: Field, today: (i32, u32, u32))
        ensures
            final(self).calendar == Some(
                match spec_parse_day(spec_trim(old(self).value(field))) {
                    Some(d) => Calendar { field, year: d.0, month: d.1 },
                    None => Calendar { field, year: today.0, month: today.1 },
                },
            ),
            *final(self) == (ReportsState { calendar: final(self).calendar, ..*old(self) }),
    {
        let text = self.get_field(field);
        let anchor = match parse_day(trim(text.as_str())) {
            Some(d) => d,
            None => today,
        };
        self.calendar = Some(Calendar { field, year: anchor.0, month: anchor.1 });
    }

    /// Fills both date fields from a preset (a blank field is an open
    /// end) and closes the calendar.
    pub fn apply_preset(&mut self, preset: Preset, today: (i32, u32, u32))
        ensures
            final(self).from@ == field_text(preset.spec_range(today).0),
            final(self).to@ == field_text(preset.spec_range(today).1),
            final(self).calendar is None,
            *final(self) == (ReportsState { from: final(self).from, to: final(self).to, calendar: None, ..*old(self) }),
    {
        let (from, to) = preset.range(today);
        self.from = show_day(from);
        self.to = show_day(to);
        self.calendar = None;
    }

    /// What to fetch for the report: the item filter, the From day from
    /// its start (00:00:00 UTC) and the To day to its end (23:59:59 UTC),
    /// and this page. A date that does not read as `YYYY-MM-DD` is refused.
    pub fn query(&self) -> (r: Result<ReportQuery, String>)
        requires
            -368_934_881_474_191_032 <= self.page <= 368_934_881_474_191_032,
        ensures
            match (spec_day_bound(self.from@, 0, 0, 0), spec_day_bound(self.to@, 23, 59, 59)) {
                (Err(m), _) => r matches Err(e) && e@ == m,
                (Ok(_), Err(m)) => r matches Err(e) && e@ == m,
                (Ok(from), Ok(to)) => r matches Ok(q) && {
                    &&& q.item_id == match self.item_filter {
                        Some(o) => Some(o.id),
                        None => None,
                    }
                    &&& q.from == match from {
                        Some(s) => Some(UtcTime { secs: s, nanos: 0 }),
                        None => None,
                    }
                    &&& q.to == match to {
                        Some(s) => Some(UtcTime { secs: s, nanos: 0 }),
                        None => None,
                    }
                    &&& q.page == self.page
                    &&& q.offset == self.page * PAGE_SIZE
                },
            },
    {
        let from = day_bound(self.from.as_str(), 0, 0, 0)?;
        let to = day_bound(self.to.as_str(), 23, 59, 59)?;
        let item_id = match &self.item_filter {
            Some(o) => Some(o.id),
            None => None,
        };
        Ok(ReportQuery { item_id, from, to, page: self.page, offset: self.page * PAGE_SIZE })
    }
}

} // verus!
