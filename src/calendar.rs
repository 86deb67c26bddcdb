use chrono::Datelike;
use vstd::prelude::*;

use crate::error::{InquireError, InquireResult};
use crate::renderer::{colored, line_break, plain, styled, Renderer, Token};
use crate::terminal::{Color, Effect};
use crate::text::{lower_of, string_from_chars};
use vstd::string::StringExecFns;

verus! {

/// A calendar day, as the number of days since the start of the common
/// era (1 for the first of January of year 1).
#[derive(Clone, Copy, Debug, PartialEq, Eq, Structural)]
pub struct Date {
    pub days_from_ce: i32,
}

impl Date {
    /// The date `year`-`month`-`day`, if there is one.
    pub fn from_ymd(year: i32, month: u32, day: u32) -> (r: Option<Date>)
        ensures
            match day_number_of(year as int, month as int, day as int) {
                Some(n) => r == Some(Date { days_from_ce: n }),
                None => r is None,
            },
    {
        match day_number(year, month, day) {
            Some(n) => Some(Date { days_from_ce: n }),
            None => None,
        }
    }
}

/// What chrono gives as the day number of a calendar date, if it is one.
pub uninterp spec fn day_number_of(year: int, month: int, day: int) -> Option<i32>;

/// What chrono gives for a day number: the day of the month, the month,
/// and the weekday counted from Monday.
pub uninterp spec fn date_fields_of(days: int) -> Option<(u32, u32, u32)>;

/// Relies on `chrono::NaiveDate::from_ymd_opt` and `Datelike::num_days_from_ce`:
/// the day number of a date, `None` for no such date.
#[verifier::external_body]
pub fn day_number(year: i32, month: u32, day: u32) -> (r: Option<i32>)
    ensures
        r == day_number_of(year as int, month as int, day as int),
{
    chrono::NaiveDate::from_ymd_opt(year, month, day).map(|d| d.num_days_from_ce())
}

/// Relies on `chrono::NaiveDate::from_num_days_from_ce_opt` with
/// `Datelike::day`, `Datelike::month` and `Weekday::num_days_from_monday`:
/// days count from 1, months from 1, weekdays from 0 for Monday.
#[verifier::external_body]
pub fn date_fields(days: i64) -> (r: Option<(u32, u32, u32)>)
    ensures
        r == date_fields_of(days as int),
        match r {
            Some((day, month, weekday)) => 1 <= day <= 31 && 1 <= month <= 12 && weekday < 7,
            None => true,
        },
{
    i32::try_from(days).ok().and_then(chrono::NaiveDate::from_num_days_from_ce_opt).map(
        |d| (d.day(), d.month(), d.weekday().num_days_from_monday()),
    )
}

pub open spec fn month_name_of(m: u8) -> Seq<char> {
    if m == 1 {
        "January"@
    } else if m == 2 {
        "February"@
    } else if m == 3 {
        "March"@
    } else if m == 4 {
        "April"@
    } else if m == 5 {
        "May"@
    } else if m == 6 {
        "June"@
    } else if m == 7 {
        "July"@
    } else if m == 8 {
        "August"@
    } else if m == 9 {
        "September"@
    } else if m == 10 {
        "October"@
    } else if m == 11 {
        "November"@
    } else {
        "December"@
    }
}

/// Relies on `chrono::Month::try_from(u8)` and `Month::name`: months 1 to 12
/// by their English names.
#[verifier::external_body]
fn month_name(m: u8) -> (r: Option<&'static str>)
    ensures
        1 <= m <= 12 ==> r is Some && r->0@ == month_name_of(m),
        !(1 <= m <= 12) ==> r is None,
{
    chrono::Month::try_from(m).ok().map(|x| x.name())
}

pub open spec fn weekday_name_of(w: u8) -> Seq<char> {
    if w == 0 {
        "Mon"@
    } else if w == 1 {
        "Tue"@
    } else if w == 2 {
        "Wed"@
    } else if w == 3 {
        "Thu"@
    } else if w == 4 {
        "Fri"@
    } else if w == 5 {
        "Sat"@
    } else {
        "Sun"@
    }
}

/// Relies on `chrono::Weekday::try_from(u8)` and its `Display`: weekdays 0
/// (Monday) to 6 by their three-letter English names.
#[verifier::external_body]
fn weekday_name(w: u8) -> (r: Option<String>)
    ensures
        w < 7 ==> r is Some && r->0@ == weekday_name_of(w),
        w >= 7 ==> r is None,
{
    chrono::Weekday::try_from(w).ok().map(|d| d.to_string())
}

pub open spec fn digit(k: int) -> char {
    if k == 0 {
        '0'
    } else if k == 1 {
        '1'
    } else if k == 2 {
        '2'
    } else if k == 3 {
        '3'
    } else if k == 4 {
        '4'
    } else if k == 5 {
        '5'
    } else if k == 6 {
        '6'
    } else if k == 7 {
        '7'
    } else if k == 8 {
        '8'
    } else {
        '9'
    }
}

/// Decimal digits of a natural number.
pub open spec fn digits_of(n: nat) -> Seq<char>
    decreases n,
{
    if n < 10 {
        seq![digit(n as int)]
    } else {
        digits_of(n / 10).push(digit((n % 10) as int))
    }
}

/// An integer in decimal, with a minus sign when negative.
pub open spec fn decimal_of(n: int) -> Seq<char> {
    if n < 0 {
        seq!['-'] + digits_of((-n) as nat)
    } else {
        digits_of(n as nat)
    }
}

/// Relies on `i32`'s `Display`: the number in decimal.
#[verifier::external_body]
fn decimal(n: i32) -> (r: String)
    ensures
        r@ == decimal_of(n as int),
{
    n.to_string()
}

fn digit_char(k: u32) -> (r: char)
    requires
        k < 10,
    ensures
        r == digit(k as int),
{
    if k == 0 {
        '0'
    } else if k == 1 {
        '1'
    } else if k == 2 {
        '2'
    } else if k == 3 {
        '3'
    } else if k == 4 {
        '4'
    } else if k == 5 {
        '5'
    } else if k == 6 {
        '6'
    } else if k == 7 {
        '7'
    } else if k == 8 {
        '8'
    } else {
        '9'
    }
}

/// A number below 100 right-aligned in two columns.
pub open spec fn two_columns(n: int) -> Seq<char> {
    if n < 10 {
        seq![' ', digit(n)]
    } else {
        seq![digit(n / 10), digit(n % 10)]
    }
}

pub open spec fn ascii_lower(c: char) -> char {
    if 'A' <= c <= 'Z' {
        ((c as u32) + 32) as char
    } else {
        c
    }
}

/// Two-letter lowercase label of a weekday.
pub open spec fn short_weekday(w: u8) -> Seq<char> {
    weekday_name_of(w).map_values(|c: char| ascii_lower(c)).drop_last()
}

/// Labels of the seven weekdays from `start` on, joined by spaces; the
/// first `k` of them.
pub open spec fn week_labels(start: int, k: nat) -> Seq<char>
    decreases k,
{
    if k == 0 {
        Seq::empty()
    } else if k == 1 {
        short_weekday((start % 7) as u8)
    } else {
        week_labels(start, (k - 1) as nat) + " "@ + short_weekday(((start + k - 1) % 7) as u8)
    }
}

pub open spec fn spaces(n: nat) -> Seq<char> {
    Seq::new(n, |i: int| ' ')
}

/// `s` centred in 20 columns, the odd space going right.
pub open spec fn centered(s: Seq<char>) -> Seq<char> {
    if s.len() >= 20 {
        s
    } else {
        let pad = (20 - s.len()) as nat;
        spaces(pad / 2) + s + spaces((pad - pad / 2) as nat)
    }
}

/// First day shown for a month: the last `week_start` strictly before the
/// first of the month.
pub open spec fn calendar_start(year: i32, month: u8, week_start: u8) -> Option<int> {
    match day_number_of(year as int, month as int, 1) {
        None => None,
        Some(first) => match date_fields_of(first as int) {
            None => None,
            Some((_, _, weekday)) => {
                let back = (weekday + 7 - week_start) % 7;
                Some(first - if back == 0 { 7 } else { back as int })
            },
        },
    }
}

/// The days a calendar highlights.
pub struct Highlights {
    pub month: u8,
    pub today: int,
    pub selected: int,
    pub min: Option<int>,
    pub max: Option<int>,
}

/// Foreground and background of day `d`: the selected day inverted, today
/// in green, days of other months in grey, and days out of bounds in grey.
pub open spec fn day_colors(d: int, h: Highlights) -> (Option<Color>, Option<Color>) {
    let in_month = match date_fields_of(d) {
        Some((_, month, _)) => month == h.month as u32,
        None => false,
    };
    let (fg, bg) = if d == h.selected {
        (Some(Color::Black), Some(Color::Grey))
    } else if d == h.today {
        (Some(Color::Green), None)
    } else if !in_month {
        (Some(Color::DarkGrey), None)
    } else {
        (None, None)
    };
    let below = match h.min {
        Some(m) => d < m,
        None => false,
    };
    let above = match h.max {
        Some(m) => d > m,
        None => false,
    };
    (if below || above { Some(Color::DarkGrey) } else { fg }, bg)
}

/// The text of day `d` in the grid.
pub open spec fn day_text(d: int) -> Seq<char> {
    match date_fields_of(d) {
        Some((day, _, _)) => two_columns(day as int),
        None => "  "@,
    }
}

/// The effects of printing day `d`.
pub open spec fn cell_effects(d: int, h: Highlights) -> Seq<Effect> {
    let (fg, bg) = day_colors(d, h);
    styled(day_text(d), fg, bg, None)
}

pub open spec fn day_of(d: Option<Date>) -> Option<int> {
    match d {
        Some(x) => Some(x.days_from_ce as int),
        None => None,
    }
}

/// The days highlighted for `month` with these dates.
pub open spec fn highlights_of(
    month: u8,
    today: Date,
    selected: Date,
    min: Option<Date>,
    max: Option<Date>,
) -> Highlights {
    Highlights {
        month,
        today: today.days_from_ce as int,
        selected: selected.days_from_ce as int,
        min: day_of(min),
        max: day_of(max),
    }
}

/// The first `k` cells of the week starting on day `start`.
pub open spec fn week_cells(start: int, k: nat, h: Highlights) -> Seq<Effect>
    decreases k,
{
    if k == 0 {
        Seq::empty()
    } else {
        week_cells(start, (k - 1) as nat, h) + (if k > 1 {
            seq![Effect::Write(" "@)]
        } else {
            Seq::empty()
        }) + cell_effects(start + k - 1, h)
    }
}

/// The first `k` week lines of the grid starting on day `start`.
pub open spec fn week_lines(start: int, k: nat, h: Highlights) -> Seq<Effect>
    decreases k,
{
    if k == 0 {
        Seq::empty()
    } else {
        week_lines(start, (k - 1) as nat, h) + colored("> "@, Color::Green) + week_cells(
            start + 7 * (k - 1),
            7,
            h,
        ) + line_break()
    }
}

/// A number below 100 right-aligned in two columns.
pub fn two_column_number(n: u32) -> (r: String)
    requires
        n < 100,
    ensures
        r@ == two_columns(n as int),
{
    let mut v: Vec<char> = Vec::new();
    if n < 10 {
        v.push(' ');
        v.push(digit_char(n));
    } else {
        v.push(digit_char(n / 10));
        v.push(digit_char(n % 10));
    }
    assert(v@ =~= two_columns(n as int));
    string_from_chars(v.as_slice())
}

fn lower_ascii_char(c: char) -> (r: char)
    ensures
        r == ascii_lower(c),
{
    if 'A' <= c && c <= 'Z' {
        let u: u32 = c as u32;
        assert(u + 32 <= 0x7f);
        ((u + 32) as u8) as char
    } else {
        c
    }
}

/// Two-letter lowercase label of weekday `w` (0 for Monday).
pub fn weekday_label(w: u8) -> (r: String)
    requires
        w < 7,
    ensures
        r@ == short_weekday(w),
{
    let name = match weekday_name(w) {
        Some(n) => n,
        None => String::new(),
    };
    let chars = crate::text::chars_of(name.as_str());
    let mut out: Vec<char> = Vec::new();
    let mut i: usize = 0;
    proof {
        reveal_strlit("Mon");
        reveal_strlit("Tue");
        reveal_strlit("Wed");
        reveal_strlit("Thu");
        reveal_strlit("Fri");
        reveal_strlit("Sat");
        reveal_strlit("Sun");
    }
    assert(chars@.len() == 3);
    while i + 1 < chars.len()
        invariant
            chars@ == weekday_name_of(w),
            chars@.len() == 3,
            i <= 2,
            out@ == chars@.map_values(|c: char| ascii_lower(c)).subrange(0, i as int),
        decreases 3 - i,
    {
        out.push(lower_ascii_char(chars[i]));
        i = i + 1;
        assert(out@ =~= chars@.map_values(|c: char| ascii_lower(c)).subrange(0, i as int));
    }
    assert(out@ =~= short_weekday(w));
    string_from_chars(out.as_slice())
}

/// The labels of the seven weekdays from `week_start` on, joined by spaces.
pub fn week_header(week_start: u8) -> (r: String)
    requires
        week_start < 7,
    ensures
        r@ == week_labels(week_start as int, 7),
{
    let mut out: Vec<char> = Vec::new();
    let mut k: u8 = 0;
    while k < 7
        invariant
            k <= 7,
            week_start < 7,
            out@ == week_labels(week_start as int, k as nat),
        decreases 7 - k,
    {
        let w = (week_start + k) % 7;
        let label = weekday_label(w);
        let lc = crate::text::chars_of(label.as_str());
        if k > 0 {
            out.push(' ');
        }
        let mut j: usize = 0;
        let ghost before = out@;
        while j < lc.len()
            invariant
                j <= lc@.len(),
                out@ == before + lc@.subrange(0, j as int),
            decreases lc@.len() - j,
        {
            out.push(lc[j]);
            j = j + 1;
            assert(out@ =~= before + lc@.subrange(0, j as int));
        }
        proof {
            reveal_strlit(" ");
            assert(lc@.subrange(0, j as int) =~= lc@);
            if k == 0 {
                assert(out@ =~= week_labels(week_start as int, 1));
            } else {
                assert(out@ =~= week_labels(week_start as int, (k + 1) as nat));
            }
        }
        k = k + 1;
    }
    string_from_chars(out.as_slice())
}

/// `s` centred in 20 columns.
pub fn center_20(s: &str) -> (r: String)
    ensures
        r@ == centered(s@),
{
    let chars = crate::text::chars_of(s);
    let n = chars.len();
    if n >= 20 {
        return s.to_owned();
    }
    let pad = 20 - n;
    let mut out: Vec<char> = Vec::new();
    let mut i: usize = 0;
    while i < pad / 2
        invariant
            i <= pad / 2,
            out@ == spaces(i as nat),
        decreases pad / 2 - i,
    {
        out.push(' ');
        i = i + 1;
        assert(out@ =~= spaces(i as nat));
    }
    let mut j: usize = 0;
    while j < n
        invariant
            n == chars@.len(),
            j <= n,
            out@ == spaces((pad / 2) as nat) + chars@.subrange(0, j as int),
        decreases n - j,
    {
        out.push(chars[j]);
        j = j + 1;
        assert(out@ =~= spaces((pad / 2) as nat) + chars@.subrange(0, j as int));
    }
    let mut k: usize = 0;
    let ghost mid = out@;
    while k < pad - pad / 2
        invariant
            k <= pad - pad / 2,
            out@ == mid + spaces(k as nat),
        decreases pad - pad / 2 - k,
    {
        out.push(' ');
        k = k + 1;
        assert(out@ =~= mid + spaces(k as nat));
    }
    assert(chars@.subrange(0, n as int) =~= s@);
    assert(out@ =~= centered(s@));
    string_from_chars(out.as_slice())
}

/// The heading of a month: its lowercase name and the year, centred.
pub fn month_heading(month: u8, year: i32) -> (r: String)
    requires
        1 <= month <= 12,
    ensures
        r@ == centered(lower_of(month_name_of(month)) + " "@ + decimal_of(year as int)),
{
    let name = match month_name(month) {
        Some(n) => n,
        None => "",
    };
    let lower = crate::text::lowercase(name);
    let mut text = lower.clone();
    text.append(" ");
    let y = decimal(year);
    text.append(y.as_str());
    center_20(text.as_str())
}

impl Renderer {
    /// Prints a month as a grid: the heading, the weekday labels from
    /// `week_start` (0 for Monday) on, and six weeks of days starting with
    /// the last `week_start` before the first of the month. The selected
    /// day is inverted, today is green, and days of other months or out of
    /// the bounds are grey. Fails, printing nothing, where chrono knows no
    /// first day for that month.
    pub fn print_calendar_month(
        &mut self,
        month: u8,
        year: i32,
        week_start: u8,
        today: Date,
        selected_date: Date,
        min_date: Option<Date>,
        max_date: Option<Date>,
    ) -> (r: InquireResult<()>)
        requires
            1 <= month <= 12,
            week_start < 7,
            old(self)@.cur_line + 8 <= usize::MAX,
        ensures
            r is Err <==> calendar_start(year, month, week_start) is None,
            r is Err ==> final(self)@ == old(self)@ && r->Err_0 is InvalidConfiguration,
            r is Ok ==> final(self)@.cur_line == old(self)@.cur_line + 8,
            r is Ok ==> final(self)@.effects == old(self)@.effects + colored("> "@, Color::Green) + plain(
                centered(lower_of(month_name_of(month)) + " "@ + decimal_of(year as int)),
            ) + line_break() + colored("> "@, Color::Green) + seq![
                Effect::Write(week_labels(week_start as int, 7)),
            ] + line_break() + week_lines(
                calendar_start(year, month, week_start)->0,
                6,
                highlights_of(month, today, selected_date, min_date, max_date),
            ),
    {
        let first = match day_number(year, month as u32, 1) {
            Some(f) => f,
            None => {
                return Err(InquireError::InvalidConfiguration("Month out of range".to_owned()));
            },
        };
        let weekday = match date_fields(first as i64) {
            Some((_, _, w)) => w,
            None => {
                return Err(InquireError::InvalidConfiguration("Month out of range".to_owned()));
            },
        };
        let back = (weekday + 7 - week_start as u32) % 7;
        let start: i64 = first as i64 - if back == 0 {
            7
        } else {
            back as i64
        };
        let ghost h = highlights_of(month, today, selected_date, min_date, max_date);
        let heading = month_heading(month, year);
        self.print_token(&Token::new("> ").with_fg(Color::Green));
        self.print_token(&Token::new(heading.as_str()));
        self.new_line();
        self.print_token(&Token::new("> ").with_fg(Color::Green));
        let days = week_header(week_start);
        self.write_text(days.as_str());
        self.new_line();
        let ghost base = self@.effects;
        let mut row: i64 = 0;
        assert(self@.effects =~= base + week_lines(start as int, 0, h));
        while row < 6
            invariant
                0 <= row <= 6,
                self@.effects == base + week_lines(start as int, row as nat, h),
                self@.cur_line == old(self)@.cur_line + 2 + row,
                old(self)@.cur_line + 8 <= usize::MAX,
                h == highlights_of(month, today, selected_date, min_date, max_date),
                first - 7 <= start < first,
            decreases 6 - row,
        {
            let ghost row_base = self@.effects;
            self.print_token(&Token::new("> ").with_fg(Color::Green));
            let ghost cells_base = self@.effects;
            let mut i: i64 = 0;
            assert(self@.effects =~= cells_base + week_cells(start + 7 * row, 0, h));
            while i < 7
                invariant
                    0 <= i <= 7,
                    0 <= row < 6,
                    first - 7 <= start < first,
                    self@.effects == cells_base + week_cells(start + 7 * row, i as nat, h),
                    self@.cur_line == old(self)@.cur_line + 2 + row,
                    h == highlights_of(month, today, selected_date, min_date, max_date),
                decreases 7 - i,
            {
                let ghost before = self@.effects;
                if i > 0 {
                    self.write_text(" ");
                }
                let ghost mid = self@.effects;
                let d = start + 7 * row + i;
                self.print_day(d, month, today, selected_date, min_date, max_date);
                proof {
                    assert(mid =~= before + (if i + 1 > 1 {
                        seq![Effect::Write(" "@)]
                    } else {
                        Seq::<Effect>::empty()
                    }));
                }
                i = i + 1;
                assert(self@.effects =~= cells_base + week_cells(start + 7 * row, i as nat, h));
            }
            self.new_line();
            row = row + 1;
            assert(self@.effects =~= base + week_lines(start as int, row as nat, h));
        }
        assert(base =~= old(self)@.effects + colored("> "@, Color::Green) + plain(
            centered(lower_of(month_name_of(month)) + " "@ + decimal_of(year as int)),
        ) + line_break() + colored("> "@, Color::Green) + seq![
            Effect::Write(week_labels(week_start as int, 7)),
        ] + line_break());
        Ok(())
    }

    /// Prints day `d` of a calendar grid.
    fn print_day(
        &mut self,
        d: i64,
        month: u8,
        today: Date,
        selected_date: Date,
        min_date: Option<Date>,
        max_date: Option<Date>,
    )
        ensures
            final(self)@.cur_line == old(self)@.cur_line,
            final(self)@.effects == old(self)@.effects + cell_effects(
                d as int,
                highlights_of(month, today, selected_date, min_date, max_date),
            ),
    {
        let fields = date_fields(d);
        let (text, in_month) = match fields {
            Some((day, m, _)) => (two_column_number(day), m == month as u32),
            None => ("  ".to_owned(), false),
        };
        let (fg, bg) = if d == selected_date.days_from_ce as i64 {
            (Some(Color::Black), Some(Color::Grey))
        } else if d == today.days_from_ce as i64 {
            (Some(Color::Green), None)
        } else if !in_month {
            (Some(Color::DarkGrey), None)
        } else {
            (None, None)
        };
        let below = match min_date {
            Some(m) => d < m.days_from_ce as i64,
            None => false,
        };
        let above = match max_date {
            Some(m) => d > m.days_from_ce as i64,
            None => false,
        };
        let fg = if below || above {
            Some(Color::DarkGrey)
        } else {
            fg
        };
        let token = Token { content: text, fg, bg, style: None };
        self.print_token(&token);
    }

}

} // verus!
