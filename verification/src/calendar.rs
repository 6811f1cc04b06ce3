//! The proleptic Gregorian calendar, counted in days from 1970-01-01.
//!
//! Years use astronomical numbering: the year before year 1 is year 0, and
//! the leap-year rule applies to every year alike.

use vstd::prelude::*;

verus! {

/// A calendar date.
#[derive(Clone, Copy, Debug, PartialEq, Eq, Structural)]
pub struct CivilDate {
    pub year: i64,
    /// 1 for January to 12 for December.
    pub month: u8,
    /// Day of the month, from 1.
    pub day: u8,
}

/// Every fourth year is a leap year, except centuries not divisible by 400.
pub open spec fn is_leap_year(year: int) -> bool {
    year % 4 == 0 && (year % 100 != 0 || year % 400 == 0)
}

/// The number of days of a year.
pub open spec fn year_length(year: int) -> int {
    if is_leap_year(year) {
        366
    } else {
        365
    }
}

/// The number of days of a month, in a leap year or in another.
pub open spec fn month_days(month: int, leap: bool) -> int {
    if month == 2 {
        if leap {
            29
        } else {
            28
        }
    } else if month == 4 || month == 6 || month == 9 || month == 11 {
        30
    } else {
        31
    }
}

/// The number of days of a month of a year.
pub open spec fn days_in_month(year: int, month: int) -> int {
    month_days(month, is_leap_year(year))
}

/// The days of `year` that lie before the first day of `month`.
pub open spec fn days_before_month(year: int, month: int) -> int
    decreases month,
{
    if month <= 1 {
        0
    } else {
        days_before_month(year, month - 1) + days_in_month(year, month - 1)
    }
}

/// The days from 1970-01-01 to the first of January of `year`; negative before 1970.
pub open spec fn days_before_year(year: int) -> int
    decreases
            if year >= 1970 {
                year - 1970
            } else {
                1970 - year
            },
{
    if year == 1970 {
        0
    } else if year > 1970 {
        days_before_year(year - 1) + year_length(year - 1)
    } else {
        days_before_year(year + 1) - year_length(year)
    }
}

/// The day number of a date given by its parts: 0 for 1970-01-01.
pub open spec fn day_number_of(year: int, month: int, day: int) -> int {
    days_before_year(year) + days_before_month(year, month) + day - 1
}

impl CivilDate {
    /// The month and the day exist in the calendar.
    pub open spec fn valid(self) -> bool {
        &&& 1 <= self.month <= 12
        &&& 1 <= self.day <= days_in_month(self.year as int, self.month as int)
    }

    /// Days from 1970-01-01 to this date.
    pub open spec fn day_number(self) -> int {
        day_number_of(self.year as int, self.month as int, self.day as int)
    }

    /// `self` comes earlier in the calendar than `other`.
    pub open spec fn precedes(self, other: CivilDate) -> bool {
        ||| self.year < other.year
        ||| self.year == other.year && self.month < other.month
        ||| self.year == other.year && self.month == other.month && self.day < other.day
    }
}

/// The date that lies `days` days from 1970-01-01.
pub open spec fn date_of_day_number(days: int) -> CivilDate {
    choose|date: CivilDate| date.valid() && date.day_number() == days
}

/// The character of a decimal digit.
pub open spec fn digit_char(digit: int) -> char {
    if digit == 0 {
        '0'
    } else if digit == 1 {
        '1'
    } else if digit == 2 {
        '2'
    } else if digit == 3 {
        '3'
    } else if digit == 4 {
        '4'
    } else if digit == 5 {
        '5'
    } else if digit == 6 {
        '6'
    } else if digit == 7 {
        '7'
    } else if digit == 8 {
        '8'
    } else {
        '9'
    }
}

/// A number below 100 in two digits, with a leading zero where needed.
pub open spec fn two_digits(n: int) -> Seq<char> {
    seq![digit_char(n / 10), digit_char(n % 10)]
}

/// A number below 10000 in four digits, with leading zeros where needed.
pub open spec fn four_digits(n: int) -> Seq<char> {
    two_digits(n / 100) + two_digits(n % 100)
}

/// The text `YYYY-MM-DD` of a date.
pub open spec fn date_text(date: CivilDate) -> Seq<char>
    recommends
        date.valid(),
        0 <= date.year <= 9999,
{
    four_digits(date.year as int) + seq!['-'] + two_digits(date.month as int) + seq!['-']
        + two_digits(date.day as int)
}

/// The leap years among the years 1 to `year`; for `year <= 0`, minus those
/// among `year + 1` to 0.
pub open spec fn leap_years_through(year: int) -> int {
    year / 4 - year / 100 + year / 400
}

/// One more year adds one leap year exactly when it is one.
pub proof fn lemma_leap_years_step(year: int)
    ensures
        leap_years_through(year) - leap_years_through(year - 1) == if is_leap_year(year) {
            1int
        } else {
            0int
        },
{
}

/// The closed form of [`days_before_year`].
pub proof fn lemma_days_before_year_closed(year: int)
    ensures
        days_before_year(year) == 365 * (year - 1970) + leap_years_through(year - 1) - 477,
    decreases
            if year >= 1970 {
                year - 1970
            } else {
                1970 - year
            },
{
    if year == 1970 {
    } else if year > 1970 {
        lemma_days_before_year_closed(year - 1);
        lemma_leap_years_step(year - 1);
    } else {
        lemma_days_before_year_closed(year + 1);
        lemma_leap_years_step(year);
    }
}

/// The first of January of the next year comes one year's length later.
pub proof fn lemma_days_before_year_step(year: int)
    ensures
        days_before_year(year + 1) == days_before_year(year) + year_length(year),
{
    lemma_days_before_year_closed(year);
    lemma_days_before_year_closed(year + 1);
    lemma_leap_years_step(year);
}

/// A later year starts at least 365 days later for each year between.
pub proof fn lemma_days_before_year_grows(earlier: int, later: int)
    requires
        earlier <= later,
    ensures
        days_before_year(later) - days_before_year(earlier) >= 365 * (later - earlier),
    decreases later - earlier,
{
    if earlier < later {
        lemma_days_before_year_grows(earlier, later - 1);
        lemma_days_before_year_step(later - 1);
    }
}

/// The days before each month, month by month.
pub proof fn lemma_days_before_month_values(year: int)
    ensures
        days_before_month(year, 1) == 0,
        days_before_month(year, 2) == 31,
        days_before_month(year, 3) == year_length(year) - 306,
        days_before_month(year, 4) == year_length(year) - 275,
        days_before_month(year, 5) == year_length(year) - 245,
        days_before_month(year, 6) == year_length(year) - 214,
        days_before_month(year, 7) == year_length(year) - 184,
        days_before_month(year, 8) == year_length(year) - 153,
        days_before_month(year, 9) == year_length(year) - 122,
        days_before_month(year, 10) == year_length(year) - 92,
        days_before_month(year, 11) == year_length(year) - 61,
        days_before_month(year, 12) == year_length(year) - 31,
        days_before_month(year, 13) == year_length(year),
{
    reveal_with_fuel(days_before_month, 14);
}

/// A valid date lies within its year.
pub proof fn lemma_day_within_year(date: CivilDate)
    requires
        date.valid(),
    ensures
        days_before_year(date.year as int) <= date.day_number() < days_before_year(
            date.year as int + 1,
        ),
{
    lemma_days_before_month_values(date.year as int);
    lemma_days_before_year_step(date.year as int);
}

/// Earlier dates have smaller day numbers.
pub proof fn lemma_day_number_increases(a: CivilDate, b: CivilDate)
    requires
        a.valid(),
        b.valid(),
        a.precedes(b),
    ensures
        a.day_number() < b.day_number(),
{
    if a.year < b.year {
        lemma_day_within_year(a);
        lemma_day_within_year(b);
        lemma_days_before_year_grows(a.year as int + 1, b.year as int);
    } else {
        lemma_days_before_month_values(a.year as int);
    }
}

/// No two dates share a day number.
pub proof fn lemma_day_number_injective(a: CivilDate, b: CivilDate)
    requires
        a.valid(),
        b.valid(),
        a.day_number() == b.day_number(),
    ensures
        a == b,
{
    if a.precedes(b) {
        lemma_day_number_increases(a, b);
    } else if b.precedes(a) {
        lemma_day_number_increases(b, a);
    }
}

/// A valid date is the date of its day number.
pub proof fn lemma_date_of_day_number(date: CivilDate)
    requires
        date.valid(),
    ensures
        date_of_day_number(date.day_number()) == date,
{
    let found = date_of_day_number(date.day_number());
    lemma_day_number_injective(found, date);
}

/// Where a year starts, for a year given by its place in the 400-year cycle:
/// `century` of the cycle, `group` of four years of the century, year of the group.
proof fn lemma_year_in_cycle(cycle: int, century: int, group: int, year_of_group: int)
    requires
        0 <= century <= 3,
        0 <= group <= 24,
        0 <= year_of_group <= 3,
    ensures
        ({
            let year = cycle * 400 + century * 100 + group * 4 + year_of_group + 1;
            &&& days_before_year(year) == cycle * 146_097 + century * 36_524 + group * 1_461
                + year_of_group * 365 - 719_162
            &&& is_leap_year(year) == (year_of_group == 3 && (group != 24 || century == 3))
        }),
{
    let year = cycle * 400 + century * 100 + group * 4 + year_of_group + 1;
    let before = year - 1;
    lemma_days_before_year_closed(year);
    assert(before / 400 == cycle);
    assert(before / 100 == cycle * 4 + century);
    assert(before / 4 == cycle * 100 + century * 25 + group);
    assert(year % 4 == 0 <==> year_of_group == 3);
    assert(year % 100 == 0 <==> (year_of_group == 3 && group == 24));
    assert(year % 400 == 0 <==> (year_of_group == 3 && group == 24 && century == 3));
}

/// The number of days of a month, for a year that is or is not a leap year.
fn month_length(month: u8, leap: bool) -> (length: u8)
    requires
        1 <= month <= 12,
    ensures
        length == month_days(month as int, leap),
{
    if month == 2 {
        if leap {
            29
        } else {
            28
        }
    } else if month == 4 || month == 6 || month == 9 || month == 11 {
        30
    } else {
        31
    }
}

/// The text of one decimal digit.
fn digit_text(digit: u8) -> (text: &'static str)
    requires
        digit <= 9,
    ensures
        text@ == seq![digit_char(digit as int)],
{
    proof {
        reveal_strlit("0");
        reveal_strlit("1");
        reveal_strlit("2");
        reveal_strlit("3");
        reveal_strlit("4");
        reveal_strlit("5");
        reveal_strlit("6");
        reveal_strlit("7");
        reveal_strlit("8");
        reveal_strlit("9");
    }
    let text = if digit == 0 {
        "0"
    } else if digit == 1 {
        "1"
    } else if digit == 2 {
        "2"
    } else if digit == 3 {
        "3"
    } else if digit == 4 {
        "4"
    } else if digit == 5 {
        "5"
    } else if digit == 6 {
        "6"
    } else if digit == 7 {
        "7"
    } else if digit == 8 {
        "8"
    } else {
        "9"
    };
    assert(text@ =~= seq![digit_char(digit as int)]);
    text
}

/// Appends a number below 100 as two digits.
fn push_two_digits(text: &mut String, n: u8)
    requires
        n < 100,
    ensures
        final(text)@ == old(text)@ + two_digits(n as int),
{
    text.append(digit_text(n / 10));
    text.append(digit_text(n % 10));
    assert(text@ =~= old(text)@ + two_digits(n as int));
}

impl CivilDate {
    /// The date that lies `days` days from 1970-01-01.
    pub fn from_day_number(days: i64) -> (date: CivilDate)
        ensures
            date.valid(),
            date.day_number() == days,
            date == date_of_day_number(days as int),
    {
        // Days since 0001-01-01, split into cycles of 400 years, then centuries,
        // then groups of four years, then years. Only the last century of a
        // cycle and the last year of a group have the leap day at their end.
        let since_year_one: i128 = days as i128 + 719_162;
        let cycle: i128 = since_year_one.checked_div_euclid(146_097).unwrap();
        let day_of_cycle: i128 = since_year_one - cycle * 146_097;
        let century: i128 = if day_of_cycle / 36_524 > 3 {
            3
        } else {
            day_of_cycle / 36_524
        };
        let day_of_century: i128 = day_of_cycle - century * 36_524;
        let group: i128 = day_of_century / 1_461;
        let day_of_group: i128 = day_of_century - group * 1_461;
        let year_of_group: i128 = if day_of_group / 365 > 3 {
            3
        } else {
            day_of_group / 365
        };
        let day_of_year: i128 = day_of_group - year_of_group * 365;
        let leap = year_of_group == 3 && (group != 24 || century == 3);
        let year: i64 = (cycle * 400 + century * 100 + group * 4 + year_of_group + 1) as i64;
        proof {
            lemma_year_in_cycle(cycle as int, century as int, group as int, year_of_group as int);
            lemma_days_before_month_values(year as int);
        }
        let mut month: u8 = 1;
        let mut rest: i128 = day_of_year;
        loop
            invariant
                1 <= month <= 12,
                0 <= rest,
                is_leap_year(year as int) == leap,
                days_before_month(year as int, month as int) + rest == day_of_year,
                day_of_year < year_length(year as int),
            ensures
                rest < days_in_month(year as int, month as int),
            decreases 12 - month,
        {
            let length: i128 = month_length(month, leap) as i128;
            proof {
                lemma_days_before_month_values(year as int);
            }
            if rest < length {
                break ;
            }
            rest = rest - length;
            month = month + 1;
        }
        let date = CivilDate { year, month, day: (rest + 1) as u8 };
        proof {
            lemma_date_of_day_number(date);
        }
        date
    }

    /// The text `YYYY-MM-DD` of a valid date whose year has at most four
    /// digits; `None` for any other value.
    pub fn iso_text(&self) -> (text: Option<String>)
        ensures
            self.valid() && 0 <= self.year <= 9999 ==> (text matches Some(t) && t@ == date_text(
                *self,
            )),
            !(self.valid() && 0 <= self.year <= 9999) ==> text is None,
    {
        if self.year < 0 || self.year > 9999 || self.month < 1 || self.month > 12 || self.day < 1 {
            return None;
        }
        let year: u16 = self.year as u16;
        let leap = year % 4 == 0 && (year % 100 != 0 || year % 400 == 0);
        if self.day > month_length(self.month, leap) {
            return None;
        }
        let mut text = String::new();
        push_two_digits(&mut text, (year / 100) as u8);
        push_two_digits(&mut text, (year % 100) as u8);
        text.append("-");
        push_two_digits(&mut text, self.month);
        text.append("-");
        push_two_digits(&mut text, self.day);
        proof {
            reveal_strlit("-");
            assert("-"@ =~= seq!['-']);
            assert(text@ =~= date_text(*self));
        }
        Some(text)
    }
}

} // verus!
