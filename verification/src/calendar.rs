use vstd::prelude::*;
use chrono::Datelike;
use crate::meta::{MyColor, Duration, Frequency, duration_days, rgb_hex, color_rgb, hex_color_of, parse_hex_color};
use crate::fields::{
    now_micros, new_uuid, opt_view, copy_opt_string, text_after, opt_text_after, hex_after, all_hex,
    edit_text, edit_opt_text, edit_hex, is_press, lemma_hex_is_ascii, lemma_ascii_boundary,
};
use crate::keys::{KeyCode, KeyEvent, KeyModifiers};
use crate::todo::{due_text, due_parse, format_due_text};
use crate::text::{hex_byte, hex_digit_char, is_hex_digit};

verus! {

// ------------------------------------------------------------------------
// Days, counted as chrono counts them from January 1 of year 1
// ------------------------------------------------------------------------

/// The first day chrono represents, -262143-01-01, as a day number.
pub open spec fn day_min() -> int {
    -95746129
}

/// The last day chrono represents, 262142-12-31, as a day number.
pub open spec fn day_max() -> int {
    95745399
}

pub open spec fn day_ok(d: int) -> bool {
    day_min() <= d <= day_max()
}

/// The day number of 1970-01-01.
pub open spec fn epoch_day() -> int {
    719163
}

/// Leap years of the proleptic Gregorian calendar.
pub open spec fn is_leap(y: int) -> bool {
    y % 4 == 0 && (y % 100 != 0 || y % 400 == 0)
}

/// The number of days in a month.
pub open spec fn month_length(y: int, m: int) -> int {
    if m == 2 {
        if is_leap(y) { 29 } else { 28 }
    } else if m == 4 || m == 6 || m == 9 || m == 11 {
        30
    } else {
        31
    }
}

/// The day number of a date, counted from the year's March in 400-year eras (floor
/// division throughout); 0001-01-01 is day 1.
pub open spec fn ce_day(y: int, m: int, d: int) -> int {
    let yp = if m <= 2 { y - 1 } else { y };
    let era = yp / 400;
    let yoe = yp - era * 400;
    let mp = (m + 9) % 12;
    let doy = (153 * mp + 2) / 5 + d - 1;
    let doe = yoe * 365 + yoe / 4 - yoe / 100 + doy;
    era * 146097 + doe - 305
}

/// The date of a day number, the inverse of `ce_day`.
#[verifier::opaque]
pub open spec fn civil_of(d: i32) -> (i32, u32, u32) {
    let z = d + 305;
    let era = z / 146097;
    let doe = z - era * 146097;
    let yoe = (doe - doe / 1460 + doe / 36524 - doe / 146096) / 365;
    let y = yoe + era * 400;
    let doy = doe - (365 * yoe + yoe / 4 - yoe / 100);
    let mp = (5 * doy + 2) / 153;
    let day = doy - (153 * mp + 2) / 5 + 1;
    let m = if mp < 10 { mp + 3 } else { mp - 9 };
    ((if m <= 2 { y + 1 } else { y }) as i32, m as u32, day as u32)
}

/// The day number of a date, where the date exists and its year lies in the range
/// chrono represents, -262143 to 262142.
#[verifier::opaque]
pub open spec fn day_number(y: i32, m: u32, d: u32) -> Option<i32> {
    if -262143 <= y <= 262142 && 1 <= m <= 12 && 1 <= d <= month_length(y as int, m as int) {
        Some(ce_day(y as int, m as int, d as int) as i32)
    } else {
        None
    }
}

/// The weekday of a day counted from Sunday: day 1, 0001-01-01, is a Monday.
pub open spec fn sunday_offset(d: i32) -> u32 {
    ((d as int) % 7) as u32
}

/// `NaiveDate::from_num_days_from_ce_opt(d)`, taken apart into year, month and day. The
/// month is in `1..=12` and the day in `1..=31`.
#[verifier::external_body]
pub(crate) fn ymd_of_day(d: i32) -> (r: (i32, u32, u32))
    requires
        day_ok(d as int),
    ensures
        r == civil_of(d),
        1 <= r.1 <= 12,
        1 <= r.2 <= 31,
{
    let x = chrono::NaiveDate::from_num_days_from_ce_opt(d).unwrap();
    (x.year(), x.month(), x.day())
}

/// `NaiveDate::from_ymd_opt(y, m, d)` as a day number; `None` where there is no such day.
/// A day it gives is one chrono represents.
#[verifier::external_body]
fn day_of_ymd(y: i32, m: u32, d: u32) -> (r: Option<i32>)
    ensures
        r == day_number(y, m, d),
        r matches Some(n) ==> day_ok(n as int),
{
    match chrono::NaiveDate::from_ymd_opt(y, m, d) {
        Some(x) => Some(x.num_days_from_ce()),
        None => None,
    }
}

/// The day's weekday counted from Sunday (`Weekday::num_days_from_sunday`), below 7.
#[verifier::external_body]
fn weekday_from_sunday(d: i32) -> (r: u32)
    requires
        day_ok(d as int),
    ensures
        r == sunday_offset(d),
{
    chrono::NaiveDate::from_num_days_from_ce_opt(d).unwrap().weekday().num_days_from_sunday()
}

/// The day a UTC time falls on: Unix time counts 86400 seconds a day from 1970-01-01.
pub open spec fn day_of_time(t: i64) -> int {
    t / 86_400_000_000 + epoch_day()
}

/// 09:00 UTC on a day, in microseconds since the Unix epoch.
pub open spec fn morning_of(d: int) -> int {
    (d - epoch_day()) * 86_400_000_000 + 9 * 3_600_000_000
}

fn day_of_time_exec(t: i64) -> (r: i64)
    ensures
        r == day_of_time(t),
{
    let q = match t.checked_div_euclid(86_400_000_000) {
        Some(q) => q,
        None => 0,
    };
    proof {
        assert(-200_000_000 <= t / 86_400_000_000 <= 200_000_000) by (nonlinear_arith)
            requires i64::MIN <= t <= i64::MAX;
    }
    q + 719163
}

fn morning_of_exec(d: i32) -> (r: i64)
    requires
        day_ok(d as int),
    ensures
        r == morning_of(d as int),
{
    ((d as i64) - 719163) * 86_400_000_000 + 9 * 3_600_000_000
}

// ------------------------------------------------------------------------
// Months
// ------------------------------------------------------------------------

/// The months counted from year 0, January, for a year and month.
pub open spec fn month_count(year: int, month: int) -> int {
    year * 12 + (month - 1)
}

/// Shifting a month by `delta` stays within `i32` at each step.
pub open spec fn shift_fits(year: i32, month: u32, delta: i32) -> bool {
    &&& i32::MIN <= year * 12 <= i32::MAX
    &&& month <= i32::MAX
    &&& i32::MIN <= month_count(year as int, month as int) <= i32::MAX
    &&& i32::MIN <= month_count(year as int, month as int) + delta <= i32::MAX
}

/// The year and month `delta` months after the given one.
pub open spec fn shifted(year: int, month: int, delta: int) -> (int, int) {
    let total = month_count(year, month) + delta;
    (total / 12, total % 12 + 1)
}

/// The year and month `delta` months from `month` of `year`.
pub fn shift_month(year: i32, month: u32, delta: i32) -> (r: (i32, u32))
    requires
        shift_fits(year, month, delta),
    ensures
        (r.0 as int, r.1 as int) == shifted(year as int, month as int, delta as int),
        1 <= r.1 <= 12,
{
    let total: i32 = year * 12 + (month as i32 - 1) + delta;
    let y = match total.checked_div_euclid(12) {
        Some(y) => y,
        None => 0,
    };
    let m = match total.checked_rem_euclid(12) {
        Some(m) => m,
        None => 0,
    };
    (y, (m + 1) as u32)
}

/// Shifting by `a` months and then by `b` is shifting by `a + b`, and shifting by none
/// leaves a month of `1..=12` as it is.
pub proof fn lemma_shift_compose(year: int, month: int, a: int, b: int)
    requires
        1 <= month <= 12,
    ensures
        shifted(shifted(year, month, a).0, shifted(year, month, a).1, b) == shifted(year, month, a + b),
        shifted(year, month, 0) == (year, month),
        1 <= shifted(year, month, a).1 <= 12,
{
    let t = month_count(year, month) + a;
    let (y1, m1) = shifted(year, month, a);
    assert(t == y1 * 12 + (m1 - 1)) by (nonlinear_arith)
        requires y1 == t / 12, m1 == t % 12 + 1;
    assert(month_count(y1, m1) == t);
    vstd::arithmetic::div_mod::lemma_fundamental_div_mod_converse(month_count(year, month), 12, year, month - 1);
}

// ------------------------------------------------------------------------
// Events
// ------------------------------------------------------------------------

/// An event on the calendar. The date is in microseconds since the Unix epoch.
pub struct Calendar_task {
    pub id: u128,
    pub event: String,
    pub desc: Option<String>,
    pub duration: Duration,
    pub frequency: Frequency,
    pub date: i64,
    pub color: MyColor,
}

pub struct CalendarView {
    pub id: u128,
    pub event: Seq<char>,
    pub desc: Option<Seq<char>>,
    pub duration: Duration,
    pub frequency: Frequency,
    pub date: i64,
    pub color: MyColor,
}

impl View for Calendar_task {
    type V = CalendarView;

    open spec fn view(&self) -> CalendarView {
        CalendarView {
            id: self.id,
            event: self.event@,
            desc: opt_view(self.desc),
            duration: self.duration,
            frequency: self.frequency,
            date: self.date,
            color: self.color,
        }
    }
}

impl Calendar_task {
    /// An event identified by `id`: a day long unless a duration is given, once unless a
    /// frequency is given, bright blue unless a color is given.
    pub fn new_with(
        id: u128,
        event: String,
        duration: Option<Duration>,
        desc: Option<String>,
        frequency: Option<Frequency>,
        date: i64,
        color: Option<MyColor>,
    ) -> (t: Calendar_task)
        ensures
            t@ == (CalendarView {
                id,
                event: event@,
                desc: opt_view(desc),
                duration: match duration {
                    Some(x) => x,
                    None => Duration::DAY(1),
                },
                frequency: match frequency {
                    Some(y) => y,
                    None => Frequency::Once,
                },
                date,
                color: match color {
                    Some(c) => c,
                    None => MyColor::BrightBlue,
                },
            }),
    {
        Calendar_task {
            id,
            event,
            duration: if let Some(x) = duration {
                x
            } else {
                Duration::DAY(1)
            },
            desc,
            frequency: if let Some(y) = frequency {
                y
            } else {
                Frequency::Once
            },
            color: match color {
                Some(c) => c,
                None => MyColor::BrightBlue,
            },
            date,
        }
    }

    /// An event with a fresh random identifier.
    pub fn new(
        event: String,
        duration: Option<Duration>,
        desc: Option<String>,
        frequency: Option<Frequency>,
        date: i64,
        color: Option<MyColor>,
    ) -> (t: Calendar_task)
        ensures
            t@ == (CalendarView {
                id: t.id,
                event: event@,
                desc: opt_view(desc),
                duration: match duration {
                    Some(x) => x,
                    None => Duration::DAY(1),
                },
                frequency: match frequency {
                    Some(y) => y,
                    None => Frequency::Once,
                },
                date,
                color: match color {
                    Some(c) => c,
                    None => MyColor::BrightBlue,
                },
            }),
    {
        let id = new_uuid();
        Calendar_task::new_with(id, event, duration, desc, frequency, date, color)
    }

    /// Takes each field that is given.
    pub fn update(
        &mut self,
        event: Option<String>,
        duration: Option<Duration>,
        desc: Option<String>,
        frequency: Option<Frequency>,
        date: Option<i64>,
        color: Option<MyColor>,
    )
        ensures
            final(self)@ == (CalendarView {
                id: old(self)@.id,
                event: match event {
                    Some(x) => x@,
                    None => old(self)@.event,
                },
                duration: match duration {
                    Some(x) => x,
                    None => old(self)@.duration,
                },
                desc: match desc {
                    Some(x) => Some(x@),
                    None => old(self)@.desc,
                },
                date: match date {
                    Some(x) => x,
                    None => old(self)@.date,
                },
                frequency: match frequency {
                    Some(x) => x,
                    None => old(self)@.frequency,
                },
                color: match color {
                    Some(x) => x,
                    None => old(self)@.color,
                },
            }),
    {
        if let Some(x) = event {
            self.event = x;
        }
        if let Some(x) = duration {
            self.duration = x;
        }
        if let Some(x) = desc {
            self.desc = Some(x);
        }
        if let Some(x) = date {
            self.date = x;
        }
        if let Some(x) = frequency {
            self.frequency = x;
        }
        if let Some(x) = color {
            self.color = x;
        }
    }

    /// A copy of the event.
    pub fn duplicate(&self) -> (r: Calendar_task)
        ensures
            r@ == self@,
    {
        Calendar_task {
            id: self.id,
            event: self.event.clone(),
            desc: copy_opt_string(&self.desc),
            duration: self.duration,
            frequency: self.frequency,
            date: self.date,
            color: self.color,
        }
    }
}

/// Whether an event covers a day: from the day it starts on, for as many days as its
/// duration covers, and at least one.
pub open spec fn covers(e: CalendarView, day: int) -> bool {
    let start = day_of_time(e.date);
    let span = if duration_days(e.duration) > 1 { duration_days(e.duration) } else { 1 };
    start <= day < start + span
}

/// The events covering a day, in order.
pub open spec fn events_covering(s: Seq<CalendarView>, day: int) -> Seq<CalendarView>
    decreases s.len(),
{
    if s.len() == 0 {
        s
    } else {
        let rest = events_covering(s.drop_last(), day);
        if covers(s.last(), day) {
            rest.push(s.last())
        } else {
            rest
        }
    }
}

/// The events whose span includes `day`, in order.
pub fn events_on_day<'a>(events: &'a [Calendar_task], day: i32) -> (r: Vec<&'a Calendar_task>)
    ensures
        r@.map_values(|e: &Calendar_task| e@) == events_covering(events@.map_values(|e: Calendar_task| e@), day as int),
{
    let ghost views = events@.map_values(|e: Calendar_task| e@);
    let mut r: Vec<&Calendar_task> = Vec::new();
    let mut i: usize = 0;
    while i < events.len()
        invariant
            i <= events@.len(),
            views == events@.map_values(|e: Calendar_task| e@),
            r@.map_values(|e: &Calendar_task| e@) == events_covering(views.take(i as int), day as int),
        decreases events.len() - i,
    {
        assert(views.take(i + 1).drop_last() =~= views.take(i as int));
        let e = &events[i];
        let start = day_of_time_exec(e.date);
        let days = e.duration.approx_days();
        let span = if days > 1 { days } else { 1 };
        let ghost before = r@;
        if start <= day as i64 && (day as i64) < start + span {
            r.push(e);
            proof {
                assert(r@.map_values(|e: &Calendar_task| e@) =~= before.map_values(|e: &Calendar_task| e@).push(e@));
            }
        }
        i = i + 1;
    }
    assert(views.take(i as int) =~= views);
    r
}

/// The 42 days of a six-week grid that starts on the Sunday on or before the first of
/// the month.
pub open spec fn grid_days(first: int, offset: int) -> Seq<int> {
    Seq::new(42, |i: int| first - offset + i)
}

/// The grid of a month fits in the days chrono represents.
pub open spec fn grid_fits(year: i32, month: u32) -> bool {
    match day_number(year, month, 1) {
        Some(first) => day_ok(first - sunday_offset(first)) && day_ok(first - sunday_offset(first) + 41),
        None => false,
    }
}

/// The six-week grid of a month, as day numbers.
pub fn month_grid(year: i32, month: u32) -> (r: Vec<i32>)
    requires
        grid_fits(year, month),
    ensures
        r@.map_values(|d: i32| d as int) == grid_days(
            day_number(year, month, 1).unwrap() as int,
            sunday_offset(day_number(year, month, 1).unwrap()) as int,
        ),
        r@.len() == 42,
        r@[0] <= day_number(year, month, 1).unwrap() < r@[0] + 7,
        sunday_offset(r@[0]) == 0,
{
    let first = match day_of_ymd(year, month, 1) {
        Some(f) => f,
        None => 0,
    };
    let offset = weekday_from_sunday(first);
    let start: i32 = first - offset as i32;
    let mut r: Vec<i32> = Vec::new();
    let mut i: i32 = 0;
    while i < 42
        invariant
            0 <= i <= 42,
            r@.len() == i,
            day_ok(start as int) && day_ok(start + 41),
            forall|k: int| 0 <= k < i ==> #[trigger] r@[k] == start + k,
        decreases 42 - i,
    {
        r.push(start + i);
        i = i + 1;
    }
    proof {
        assert(r@.map_values(|d: i32| d as int) =~= grid_days(first as int, offset as int));
    }
    r
}

/// The six-week grid of a month, or `None` where the month has no first day or the grid
/// runs past the days chrono represents.
pub fn month_grid_checked(year: i32, month: u32) -> (r: Option<Vec<i32>>)
    ensures
        r is Some <==> grid_fits(year, month),
        r matches Some(v) ==> v@.map_values(|d: i32| d as int) == grid_days(
            day_number(year, month, 1).unwrap() as int,
            sunday_offset(day_number(year, month, 1).unwrap()) as int,
        ),
{
    match day_of_ymd(year, month, 1) {
        Some(first) => {
            let offset = weekday_from_sunday(first);
            if first as i64 - (offset as i64) < -95746129 || first as i64 - (offset as i64) + 41 > 95745399 {
                return None;
            }
            Some(month_grid(year, month))
        },
        None => None,
    }
}

// ------------------------------------------------------------------------
// The calendar page
// ------------------------------------------------------------------------

#[derive(Debug, Clone, Copy, PartialEq, Eq, Structural)]
pub enum CalendarMode {
    Load,
    Edit,
}

/// The field of the event form that has the focus, in screen order.
#[derive(Debug, Clone, Copy, PartialEq, Eq, Structural)]
pub enum CalendarFocus {
    Event,
    Description,
    Duration,
    Frequency,
    Date,
    ColorHex,
    Save,
    New,
    Load,
}

pub open spec fn calendar_focus_next(f: CalendarFocus) -> CalendarFocus {
    match f {
        CalendarFocus::Event => CalendarFocus::Description,
        CalendarFocus::Description => CalendarFocus::Duration,
        CalendarFocus::Duration => CalendarFocus::Frequency,
        CalendarFocus::Frequency => CalendarFocus::Date,
        CalendarFocus::Date => CalendarFocus::ColorHex,
        CalendarFocus::ColorHex => CalendarFocus::Save,
        CalendarFocus::Save => CalendarFocus::New,
        CalendarFocus::New => CalendarFocus::Load,
        CalendarFocus::Load => CalendarFocus::Event,
    }
}

pub open spec fn calendar_focus_prev(f: CalendarFocus) -> CalendarFocus {
    match f {
        CalendarFocus::Event => CalendarFocus::Load,
        CalendarFocus::Description => CalendarFocus::Event,
        CalendarFocus::Duration => CalendarFocus::Description,
        CalendarFocus::Frequency => CalendarFocus::Duration,
        CalendarFocus::Date => CalendarFocus::Frequency,
        CalendarFocus::ColorHex => CalendarFocus::Date,
        CalendarFocus::Save => CalendarFocus::ColorHex,
        CalendarFocus::New => CalendarFocus::Save,
        CalendarFocus::Load => CalendarFocus::New,
    }
}

impl CalendarFocus {
    pub fn next(self) -> (r: CalendarFocus)
        ensures
            r == calendar_focus_next(self),
    {
        match self {
            CalendarFocus::Event => CalendarFocus::Description,
            CalendarFocus::Description => CalendarFocus::Duration,
            CalendarFocus::Duration => CalendarFocus::Frequency,
            CalendarFocus::Frequency => CalendarFocus::Date,
            CalendarFocus::Date => CalendarFocus::ColorHex,
            CalendarFocus::ColorHex => CalendarFocus::Save,
            CalendarFocus::Save => CalendarFocus::New,
            CalendarFocus::New => CalendarFocus::Load,
            CalendarFocus::Load => CalendarFocus::Event,
        }
    }

    pub fn prev(self) -> (r: CalendarFocus)
        ensures
            r == calendar_focus_prev(self),
    {
        match self {
            CalendarFocus::Event => CalendarFocus::Load,
            CalendarFocus::Description => CalendarFocus::Event,
            CalendarFocus::Duration => CalendarFocus::Description,
            CalendarFocus::Frequency => CalendarFocus::Duration,
            CalendarFocus::Date => CalendarFocus::Frequency,
            CalendarFocus::ColorHex => CalendarFocus::Date,
            CalendarFocus::Save => CalendarFocus::ColorHex,
            CalendarFocus::New => CalendarFocus::Save,
            CalendarFocus::Load => CalendarFocus::New,
        }
    }
}

/// Moving the focus forward and back, or back and forward, returns to the same field.
pub proof fn lemma_calendar_focus_cycle(f: CalendarFocus)
    ensures
        calendar_focus_prev(calendar_focus_next(f)) == f,
        calendar_focus_next(calendar_focus_prev(f)) == f,
{
}

/// The state of the calendar page: the events, the day under the cursor, the month on
/// view, and the event form.
pub struct CalendarUiState {
    pub mode: CalendarMode,
    pub focus: CalendarFocus,
    pub events: Vec<Calendar_task>,
    pub cursor_date: i32,
    pub view_year: i32,
    pub view_month: u32,
    pub editing: Calendar_task,
    pub date_input: String,
    pub date_valid: bool,
    pub color_hex_input: String,
}

pub struct CalendarUiView {
    pub mode: CalendarMode,
    pub focus: CalendarFocus,
    pub events: Seq<CalendarView>,
    pub cursor_date: i32,
    pub view_year: i32,
    pub view_month: u32,
    pub editing: CalendarView,
    pub date_input: Seq<char>,
    pub date_valid: bool,
    pub color_hex_input: Seq<char>,
}

impl View for CalendarUiState {
    type V = CalendarUiView;

    open spec fn view(&self) -> CalendarUiView {
        CalendarUiView {
            mode: self.mode,
            focus: self.focus,
            events: self.events@.map_values(|e: Calendar_task| e@),
            cursor_date: self.cursor_date,
            view_year: self.view_year,
            view_month: self.view_month,
            editing: self.editing@,
            date_input: self.date_input@,
            date_valid: self.date_valid,
            color_hex_input: self.color_hex_input@,
        }
    }
}

/// The month on view follows the day under the cursor.
pub open spec fn synced(ui: CalendarUiView) -> CalendarUiView {
    CalendarUiView { view_year: civil_of(ui.cursor_date).0, view_month: civil_of(ui.cursor_date).1, ..ui }
}

/// Puts the month on view on the day under the cursor.
pub fn sync_view_to_cursor(ui: &mut CalendarUiState)
    requires
        day_ok(old(ui).cursor_date as int),
    ensures
        final(ui)@ == synced(old(ui)@),
{
    let (y, m, _d) = ymd_of_day(ui.cursor_date);
    ui.view_year = y;
    ui.view_month = m;
}

/// What the caller of a calendar key handler has to do afterwards.
#[derive(Debug, Clone, Copy, PartialEq, Eq, Structural)]
pub enum CalendarEffect {
    Nothing,
    /// Save everything and leave the program.
    QuitAndSave,
    /// Store the event being edited, replacing the stored one with its identifier when
    /// the flag is set and adding it otherwise, then reload the events.
    SaveEvent(bool),
    /// Reload the events from the store.
    Reload,
}

/// The form on a new event at 09:00 on a day.
pub open spec fn calendar_open_new(ui: CalendarUiView, day: int, id: u128) -> CalendarUiView {
    let dt = morning_of(day) as i64;
    CalendarUiView {
        editing: CalendarView {
            id,
            event: Seq::empty(),
            desc: None,
            duration: Duration::DAY(1),
            frequency: Frequency::Once,
            date: dt,
            color: MyColor::BrightBlue,
        },
        date_input: due_text(dt),
        date_valid: true,
        color_hex_input: Seq::empty(),
        mode: CalendarMode::Edit,
        focus: CalendarFocus::Event,
        ..ui
    }
}

/// The form on an existing event.
pub open spec fn calendar_open_edit(ui: CalendarUiView, e: CalendarView) -> CalendarUiView {
    CalendarUiView {
        date_input: due_text(e.date),
        date_valid: true,
        color_hex_input: rgb_hex(color_rgb(e.color)),
        editing: e,
        mode: CalendarMode::Edit,
        focus: CalendarFocus::Event,
        ..ui
    }
}

/// The day moved by a grid key, if the key moves it.
pub open spec fn cursor_move(code: KeyCode) -> int {
    match code {
        KeyCode::Left => -1,
        KeyCode::Right => 1,
        KeyCode::Up => -7,
        KeyCode::Down => 7,
        _ => 0,
    }
}

/// The month grid after a key: `q` quits, the arrows move the cursor by a day or a week
/// and bring its month on view, `[`/PageUp and `]`/PageDown page the month, `n` opens a
/// new event on the cursor's day, and Enter opens the first event on that day, or a new
/// one.
pub open spec fn calendar_grid_step(ui: CalendarUiView, code: KeyCode, id: u128) -> (CalendarUiView, CalendarEffect) {
    if code == KeyCode::Char('q') {
        (ui, CalendarEffect::QuitAndSave)
    } else if cursor_move(code) != 0 {
        (synced(CalendarUiView { cursor_date: (ui.cursor_date + cursor_move(code)) as i32, ..ui }), CalendarEffect::Nothing)
    } else if code == KeyCode::Char('[') || code == KeyCode::PageUp {
        let (y, m) = shifted(ui.view_year as int, ui.view_month as int, -1);
        (CalendarUiView { view_year: y as i32, view_month: m as u32, ..ui }, CalendarEffect::Nothing)
    } else if code == KeyCode::Char(']') || code == KeyCode::PageDown {
        let (y, m) = shifted(ui.view_year as int, ui.view_month as int, 1);
        (CalendarUiView { view_year: y as i32, view_month: m as u32, ..ui }, CalendarEffect::Nothing)
    } else if code == KeyCode::Char('n') {
        (calendar_open_new(ui, ui.cursor_date as int, id), CalendarEffect::Nothing)
    } else if code == KeyCode::Enter {
        let hits = events_covering(ui.events, ui.cursor_date as int);
        if hits.len() > 0 {
            (calendar_open_edit(ui, hits[0]), CalendarEffect::Nothing)
        } else {
            (calendar_open_new(ui, ui.cursor_date as int, id), CalendarEffect::Nothing)
        }
    } else {
        (ui, CalendarEffect::Nothing)
    }
}

pub open spec fn calendar_text_field(f: CalendarFocus) -> bool {
    f == CalendarFocus::Event || f == CalendarFocus::Description || f == CalendarFocus::Date || f
        == CalendarFocus::ColorHex
}

/// The event color after the hex field changed: the color it reads as, if any.
pub open spec fn color_after(c: MyColor, hex: Seq<char>) -> MyColor {
    if crate::text::str_len(hex) == 6 {
        match hex_color_of(hex) {
            Some(x) => x,
            None => c,
        }
    } else {
        c
    }
}

/// Whether some event has this identifier.
pub open spec fn has_event(s: Seq<CalendarView>, id: u128) -> bool {
    exists|i: int| 0 <= i < s.len() && #[trigger] s[i].id == id
}

/// The event form after a key press on the focused field. The duration and frequency
/// fields take no keys.
pub open spec fn calendar_field_step(ui: CalendarUiView, code: KeyCode, id: u128) -> (CalendarUiView, CalendarEffect) {
    let ed = ui.editing;
    match ui.focus {
        CalendarFocus::Event => (
            CalendarUiView { editing: CalendarView { event: text_after(ed.event, code), ..ed }, ..ui },
            CalendarEffect::Nothing,
        ),
        CalendarFocus::Description => (
            CalendarUiView { editing: CalendarView { desc: opt_text_after(ed.desc, code, false), ..ed }, ..ui },
            CalendarEffect::Nothing,
        ),
        CalendarFocus::Duration | CalendarFocus::Frequency => (ui, CalendarEffect::Nothing),
        CalendarFocus::Date => {
            let input = text_after(ui.date_input, code);
            match due_parse(input) {
                Some(t) => (
                    CalendarUiView { date_input: input, date_valid: true, editing: CalendarView { date: t, ..ed }, ..ui },
                    CalendarEffect::Nothing,
                ),
                None => (CalendarUiView { date_input: input, date_valid: false, ..ui }, CalendarEffect::Nothing),
            }
        },
        CalendarFocus::ColorHex => {
            let changes = match code {
                KeyCode::Char(c) => is_hex_digit(c),
                KeyCode::Backspace => true,
                _ => false,
            };
            if changes {
                let input = hex_after(ui.color_hex_input, code);
                (
                    CalendarUiView {
                        color_hex_input: input,
                        editing: CalendarView { color: color_after(ed.color, input), ..ed },
                        ..ui
                    },
                    CalendarEffect::Nothing,
                )
            } else {
                (ui, CalendarEffect::Nothing)
            }
        },
        CalendarFocus::Save => if is_press(code) {
            (CalendarUiView { mode: CalendarMode::Load, ..ui }, CalendarEffect::SaveEvent(has_event(ui.events, ed.id)))
        } else {
            (ui, CalendarEffect::Nothing)
        },
        CalendarFocus::New => if is_press(code) {
            (calendar_open_new(ui, ui.cursor_date as int, id), CalendarEffect::Nothing)
        } else {
            (ui, CalendarEffect::Nothing)
        },
        CalendarFocus::Load => if is_press(code) {
            (CalendarUiView { mode: CalendarMode::Load, ..ui }, CalendarEffect::Reload)
        } else {
            (ui, CalendarEffect::Nothing)
        },
    }
}

/// The event form after a key: Alt with n/Down or p/Up moves the focus from any field,
/// plain Up and Down do so outside the duration and frequency, Esc goes back to the
/// grid, `q` quits outside the text fields, and any other key goes to the focused field.
pub open spec fn calendar_edit_step(ui: CalendarUiView, key: KeyEvent, id: u128) -> (CalendarUiView, CalendarEffect) {
    let code = key.code;
    let wheel = ui.focus == CalendarFocus::Duration || ui.focus == CalendarFocus::Frequency;
    if key.modifiers.alt && (code == KeyCode::Char('n') || code == KeyCode::Down) {
        (CalendarUiView { focus: calendar_focus_next(ui.focus), ..ui }, CalendarEffect::Nothing)
    } else if key.modifiers.alt && (code == KeyCode::Char('p') || code == KeyCode::Up) {
        (CalendarUiView { focus: calendar_focus_prev(ui.focus), ..ui }, CalendarEffect::Nothing)
    } else if !wheel && code == KeyCode::Up {
        (CalendarUiView { focus: calendar_focus_prev(ui.focus), ..ui }, CalendarEffect::Nothing)
    } else if !wheel && code == KeyCode::Down {
        (CalendarUiView { focus: calendar_focus_next(ui.focus), ..ui }, CalendarEffect::Nothing)
    } else if code == KeyCode::Esc {
        (CalendarUiView { mode: CalendarMode::Load, ..ui }, CalendarEffect::Nothing)
    } else if code == KeyCode::Char('q') && !calendar_text_field(ui.focus) {
        (ui, CalendarEffect::QuitAndSave)
    } else {
        calendar_field_step(ui, code, id)
    }
}

/// The calendar page after a key.
pub open spec fn calendar_key_step(ui: CalendarUiView, key: KeyEvent, id: u128) -> (CalendarUiView, CalendarEffect) {
    match ui.mode {
        CalendarMode::Load => calendar_grid_step(ui, key.code, id),
        CalendarMode::Edit => calendar_edit_step(ui, key, id),
    }
}

/// The requirements of the calendar key handler: the hex input holds hex digits, the
/// cursor's day is one chrono represents and stays one when the cursor moves, and paging
/// the month stays within `i32`.
pub open spec fn calendar_key_ok(ui: CalendarUiView, key: KeyEvent) -> bool {
    &&& all_hex(ui.color_hex_input)
    &&& day_ok(ui.cursor_date as int)
    &&& ui.mode == CalendarMode::Load ==> {
        &&& day_ok(ui.cursor_date + cursor_move(key.code))
        &&& (key.code == KeyCode::Char('[') || key.code == KeyCode::PageUp) ==> shift_fits(ui.view_year, ui.view_month, -1i32)
        &&& (key.code == KeyCode::Char(']') || key.code == KeyCode::PageDown) ==> shift_fits(ui.view_year, ui.view_month, 1i32)
    }
}

proof fn lemma_rgb_hex_all_hex(rgb: (u8, u8, u8))
    ensures
        all_hex(rgb_hex(rgb)),
{
    assert forall|d: nat| d < 16 implies is_hex_digit(#[trigger] hex_digit_char(d)) by {}
    assert(rgb_hex(rgb).len() == 6);
    assert forall|i: int| 0 <= i < 6 implies #[trigger] is_hex_digit(rgb_hex(rgb)[i]) by {
        assert(rgb.0 / 16 < 16 && rgb.0 % 16 < 16 && rgb.1 / 16 < 16 && rgb.1 % 16 < 16 && rgb.2 / 16 < 16 && rgb.2 % 16 < 16);
    }
}

fn open_calendar_new(ui: &mut CalendarUiState, day: i32, id: u128)
    requires
        day_ok(day as int),
    ensures
        final(ui)@ == calendar_open_new(old(ui)@, day as int, id),
{
    let dt = morning_of_exec(day);
    ui.editing = Calendar_task::new_with(id, String::new(), None, None, None, dt, None);
    ui.date_input = format_due_text(dt);
    ui.date_valid = true;
    ui.color_hex_input = String::new();
    ui.mode = CalendarMode::Edit;
    ui.focus = CalendarFocus::Event;
}

fn open_calendar_edit(ui: &mut CalendarUiState, task: Calendar_task)
    ensures
        final(ui)@ == calendar_open_edit(old(ui)@, task@),
        all_hex(final(ui)@.color_hex_input),
{
    ui.date_input = format_due_text(task.date);
    ui.date_valid = true;
    ui.color_hex_input = task.color.rgb_str();
    proof {
        lemma_rgb_hex_all_hex(color_rgb(task.color));
    }
    ui.editing = task;
    ui.mode = CalendarMode::Edit;
    ui.focus = CalendarFocus::Event;
}

fn handle_calendar_grid_key(ui: &mut CalendarUiState, key: KeyEvent, id: u128) -> (e: CalendarEffect)
    requires
        old(ui).mode == CalendarMode::Load,
        calendar_key_ok(old(ui)@, key),
    ensures
        (final(ui)@, e) == calendar_grid_step(old(ui)@, key.code, id),
        all_hex(final(ui)@.color_hex_input),
{
    if key.code == KeyCode::Char('q') {
        return CalendarEffect::QuitAndSave;
    }
    match key.code {
        KeyCode::Left => {
            ui.cursor_date = ui.cursor_date - 1;
            sync_view_to_cursor(ui);
        },
        KeyCode::Right => {
            ui.cursor_date = ui.cursor_date + 1;
            sync_view_to_cursor(ui);
        },
        KeyCode::Up => {
            ui.cursor_date = ui.cursor_date - 7;
            sync_view_to_cursor(ui);
        },
        KeyCode::Down => {
            ui.cursor_date = ui.cursor_date + 7;
            sync_view_to_cursor(ui);
        },
        KeyCode::Char('[') | KeyCode::PageUp => {
            let (y, m) = shift_month(ui.view_year, ui.view_month, -1);
            ui.view_year = y;
            ui.view_month = m;
        },
        KeyCode::Char(']') | KeyCode::PageDown => {
            let (y, m) = shift_month(ui.view_year, ui.view_month, 1);
            ui.view_year = y;
            ui.view_month = m;
        },
        KeyCode::Char('n') => {
            let cursor = ui.cursor_date;
            open_calendar_new(ui, cursor, id);
        },
        KeyCode::Enter => {
            let cursor = ui.cursor_date;
            let hits = events_on_day(ui.events.as_slice(), cursor);
            if hits.len() > 0 {
                let task = hits[0].duplicate();
                proof {
                    assert(hits@.map_values(|e: &Calendar_task| e@)[0] == hits@[0]@);
                }
                open_calendar_edit(ui, task);
            } else {
                open_calendar_new(ui, cursor, id);
            }
        },
        _ => {},
    }
    CalendarEffect::Nothing
}

fn any_event_with_id(events: &Vec<Calendar_task>, id: u128) -> (r: bool)
    ensures
        r == has_event(events@.map_values(|e: Calendar_task| e@), id),
{
    let ghost views = events@.map_values(|e: Calendar_task| e@);
    let mut i: usize = 0;
    while i < events.len()
        invariant
            i <= events@.len(),
            views == events@.map_values(|e: Calendar_task| e@),
            forall|k: int| 0 <= k < i ==> #[trigger] views[k].id != id,
        decreases events.len() - i,
    {
        if events[i].id == id {
            assert(views[i as int].id == id);
            return true;
        }
        i = i + 1;
    }
    false
}

fn handle_calendar_edit_key(ui: &mut CalendarUiState, key: KeyEvent, id: u128) -> (e: CalendarEffect)
    requires
        old(ui).mode == CalendarMode::Edit,
        calendar_key_ok(old(ui)@, key),
    ensures
        (final(ui)@, e) == calendar_edit_step(old(ui)@, key, id),
        all_hex(final(ui)@.color_hex_input),
{
    let code = key.code;
    if key.modifiers.alt && (code == KeyCode::Char('n') || code == KeyCode::Down) {
        ui.focus = ui.focus.next();
        return CalendarEffect::Nothing;
    }
    if key.modifiers.alt && (code == KeyCode::Char('p') || code == KeyCode::Up) {
        ui.focus = ui.focus.prev();
        return CalendarEffect::Nothing;
    }
    let wheel = ui.focus == CalendarFocus::Duration || ui.focus == CalendarFocus::Frequency;
    if !wheel {
        match code {
            KeyCode::Up => {
                ui.focus = ui.focus.prev();
                return CalendarEffect::Nothing;
            },
            KeyCode::Down => {
                ui.focus = ui.focus.next();
                return CalendarEffect::Nothing;
            },
            _ => {},
        }
    }
    if code == KeyCode::Esc {
        ui.mode = CalendarMode::Load;
        return CalendarEffect::Nothing;
    }
    let text_field = match ui.focus {
        CalendarFocus::Event | CalendarFocus::Description | CalendarFocus::Date | CalendarFocus::ColorHex => true,
        _ => false,
    };
    if code == KeyCode::Char('q') && !text_field {
        return CalendarEffect::QuitAndSave;
    }
    let pressed = code == KeyCode::Enter || code == KeyCode::Char(' ');
    match ui.focus {
        CalendarFocus::Event => {
            edit_text(&mut ui.editing.event, code);
        },
        CalendarFocus::Description => {
            edit_opt_text(&mut ui.editing.desc, code, false);
        },
        CalendarFocus::Duration | CalendarFocus::Frequency => {},
        CalendarFocus::Date => {
            edit_text(&mut ui.date_input, code);
            match crate::todo::parse_due_date_text(ui.date_input.as_str()) {
                Some(t) => {
                    ui.date_valid = true;
                    ui.editing.date = t;
                },
                None => {
                    ui.date_valid = false;
                },
            }
        },
        CalendarFocus::ColorHex => {
            let changes = match code {
                KeyCode::Char(c) => crate::fields::is_ascii_hexdigit(c),
                KeyCode::Backspace => true,
                _ => false,
            };
            if changes {
                edit_hex(&mut ui.color_hex_input, code);
                proof {
                    let s0 = old(ui).color_hex_input@;
                    let t = ui.color_hex_input@;
                    assert(all_hex(t)) by {
                        if t.len() < s0.len() {
                            assert(t =~= s0.drop_last());
                        }
                    }
                    lemma_hex_is_ascii(t);
                    lemma_ascii_boundary(t, 0);
                    if t.len() >= 4 {
                        lemma_ascii_boundary(t, 2);
                        lemma_ascii_boundary(t, 4);
                    }
                }
                let hs = ui.color_hex_input.as_str();
                proof {
                    assert(vstd::string::is_ascii(hs));
                }
                match parse_hex_color(hs) {
                    Some(col) => {
                        ui.editing.color = col;
                    },
                    None => {},
                }
            }
        },
        CalendarFocus::Save => {
            if pressed {
                let existing = any_event_with_id(&ui.events, ui.editing.id);
                ui.mode = CalendarMode::Load;
                return CalendarEffect::SaveEvent(existing);
            }
        },
        CalendarFocus::New => {
            if pressed {
                let cursor = ui.cursor_date;
                open_calendar_new(ui, cursor, id);
            }
        },
        CalendarFocus::Load => {
            if pressed {
                ui.mode = CalendarMode::Load;
                return CalendarEffect::Reload;
            }
        },
    }
    CalendarEffect::Nothing
}

/// Handles a key on the calendar page; a new event gets the identifier `id`. The caller
/// fills an empty event list from the store first.
pub fn handle_calendar_at(ui: &mut CalendarUiState, key: KeyEvent, id: u128) -> (e: CalendarEffect)
    requires
        calendar_key_ok(old(ui)@, key),
    ensures
        (final(ui)@, e) == calendar_key_step(old(ui)@, key, id),
        all_hex(final(ui)@.color_hex_input),
{
    match ui.mode {
        CalendarMode::Load => handle_calendar_grid_key(ui, key, id),
        CalendarMode::Edit => handle_calendar_edit_key(ui, key, id),
    }
}

/// Handles a key on the calendar page, drawing a fresh identifier for a new event.
pub fn handle_calendar(ui: &mut CalendarUiState, key: KeyEvent) -> (e: CalendarEffect)
    requires
        calendar_key_ok(old(ui)@, key),
    ensures
        exists|id: u128| (final(ui)@, e) == #[trigger] calendar_key_step(old(ui)@, key, id),
{
    let id = new_uuid();
    handle_calendar_at(ui, key, id)
}


/// In the month grid the arrows move the cursor: Left a day back, Right a day on, Up a
/// week back, Down a week on; the month on view becomes the cursor's month, and the
/// events, mode and form stay as they were.
pub proof fn lemma_grid_cursor_moves(ui: CalendarUiView, code: KeyCode, id: u128)
    requires
        ui.mode == CalendarMode::Load,
        code == KeyCode::Left || code == KeyCode::Right || code == KeyCode::Up || code == KeyCode::Down,
        day_ok(ui.cursor_date as int - 7),
        day_ok(ui.cursor_date as int + 7),
    ensures
        ({
            let (r, e) = calendar_key_step(ui, KeyEvent { code, modifiers: KeyModifiers { shift: false, control: false, alt: false } }, id);
            &&& code == KeyCode::Left ==> r.cursor_date == ui.cursor_date - 1
            &&& code == KeyCode::Right ==> r.cursor_date == ui.cursor_date + 1
            &&& code == KeyCode::Up ==> r.cursor_date == ui.cursor_date - 7
            &&& code == KeyCode::Down ==> r.cursor_date == ui.cursor_date + 7
            &&& r.view_year == civil_of(r.cursor_date).0 && r.view_month == civil_of(r.cursor_date).1
            &&& r.events == ui.events && r.mode == ui.mode && r.editing == ui.editing && r.focus == ui.focus
            &&& e == CalendarEffect::Nothing
        }),
{
}

/// Paging the month grid moves the month on view by one, wrapping the year, and leaves
/// the cursor.
pub proof fn lemma_grid_paging(ui: CalendarUiView, id: u128)
    requires
        ui.mode == CalendarMode::Load,
        1 <= ui.view_month <= 12,
        i32::MIN < ui.view_year < i32::MAX,
    ensures
        ({
            let (r, _) = calendar_grid_step(ui, KeyCode::PageDown, id);
            &&& r.cursor_date == ui.cursor_date
            &&& ui.view_month < 12 ==> r.view_month == ui.view_month + 1 && r.view_year == ui.view_year
            &&& ui.view_month == 12 ==> r.view_month == 1 && r.view_year == ui.view_year + 1
        }),
        ({
            let (r, _) = calendar_grid_step(ui, KeyCode::PageUp, id);
            &&& r.cursor_date == ui.cursor_date
            &&& ui.view_month > 1 ==> r.view_month == ui.view_month - 1 && r.view_year == ui.view_year
            &&& ui.view_month == 1 ==> r.view_month == 12 && r.view_year == ui.view_year - 1
        }),
{
}

} // verus!
