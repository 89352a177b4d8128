//! A calendar date in the proleptic Gregorian calendar, held as plain
//! year / month / day values, together with the calendar arithmetic the
//! date-selection prompt needs: day steps, month steps with
//! normalization across year boundaries, ordering, clamping into a
//! bound range, and a `YYYY-MM-DD` display form.
//!
//! Supported years run from [`MIN_YEAR`] to [`MAX_YEAR`]; arithmetic
//! that would leave this range reports failure (`None`) instead of
//! wrapping or panicking.

use vstd::prelude::*;

verus! {

/// Smallest year a [`Date`] may hold.
pub const MIN_YEAR: i32 = 1;

/// Largest year a [`Date`] may hold.
pub const MAX_YEAR: i32 = 9999;

/// A calendar date: year, month (1 to 12) and day of month (1-based).
#[derive(Clone, Copy, Debug, PartialEq, Eq, Structural, Hash)]
pub struct Date {
    pub year: i32,
    pub month: u8,
    pub day: u8,
}

/// Whether `y` is a leap year in the Gregorian calendar.
pub open spec fn spec_is_leap_year(y: int) -> bool {
    y % 4 == 0 && (y % 100 != 0 || y % 400 == 0)
}

/// Number of days in month `m` of year `y` (1 <= m <= 12).
pub open spec fn spec_days_in_month(y: int, m: int) -> int {
    if m == 2 {
        if spec_is_leap_year(y) {
            29
        } else {
            28
        }
    } else if m == 4 || m == 6 || m == 9 || m == 11 {
        30
    } else {
        31
    }
}

impl Date {
    /// A well-formed date: the year lies in the supported range and the
    /// day exists in the month.
    pub open spec fn wf(self) -> bool {
        &&& MIN_YEAR <= self.year <= MAX_YEAR
        &&& 1 <= self.month <= 12
        &&& 1 <= self.day <= spec_days_in_month(self.year as int, self.month as int)
    }

    /// Lexicographic order on (year, month, day): `self` on or before `other`.
    pub open spec fn spec_le(self, other: Date) -> bool {
        if self.year != other.year {
            self.year < other.year
        } else if self.month != other.month {
            self.month < other.month
        } else {
            self.day <= other.day
        }
    }

    /// Builds the date `year-month-day` when it is well formed.
    pub fn try_new(year: i32, month: u8, day: u8) -> (r: Option<Date>)
        ensures
            r matches Some(d) ==> d == (Date { year, month, day }) && d.wf(),
            r is None ==> !(Date { year, month, day }).wf(),
    {
        let d = Date { year, month, day };
        if MIN_YEAR <= year && year <= MAX_YEAR && 1 <= month && month <= 12 && 1 <= day
            && day <= days_in_month(year, month) {
            Some(d)
        } else {
            None
        }
    }

    /// Whether `self` is on or before `other`.
    pub fn le(&self, other: &Date) -> (r: bool)
        ensures
            r == self.spec_le(*other),
    {
        if self.year != other.year {
            self.year < other.year
        } else if self.month != other.month {
            self.month < other.month
        } else {
            self.day <= other.day
        }
    }
}

/// Whether `y` is a leap year.
pub fn is_leap_year(y: i32) -> (r: bool)
    ensures
        r == spec_is_leap_year(y as int),
{
    y % 4 == 0 && (y % 100 != 0 || y % 400 == 0)
}

/// Number of days in month `m` of year `y`.
pub fn days_in_month(y: i32, m: u8) -> (r: u8)
    requires
        1 <= m <= 12,
    ensures
        r == spec_days_in_month(y as int, m as int),
{
    if m == 2 {
        if is_leap_year(y) {
            29
        } else {
            28
        }
    } else if m == 4 || m == 6 || m == 9 || m == 11 {
        30
    } else {
        31
    }
}

/// The day after `d`, ignoring the supported year range (the successor
/// of December 31st of [`MAX_YEAR`] is not well formed).
pub open spec fn spec_next_date(d: Date) -> Date {
    if d.day < spec_days_in_month(d.year as int, d.month as int) {
        Date { year: d.year, month: d.month, day: (d.day + 1) as u8 }
    } else if d.month < 12 {
        Date { year: d.year, month: (d.month + 1) as u8, day: 1 }
    } else {
        Date { year: (d.year + 1) as i32, month: 1, day: 1 }
    }
}

/// The day before `d`, ignoring the supported year range.
pub open spec fn spec_prev_date(d: Date) -> Date {
    if d.day > 1 {
        Date { year: d.year, month: d.month, day: (d.day - 1) as u8 }
    } else if d.month > 1 {
        Date {
            year: d.year,
            month: (d.month - 1) as u8,
            day: spec_days_in_month(d.year as int, d.month as int - 1) as u8,
        }
    } else {
        Date { year: (d.year - 1) as i32, month: 12, day: 31 }
    }
}

/// The date `n` days away from `d`, or `None` when the walk leaves the
/// supported year range.
pub open spec fn spec_add_days(d: Date, n: int) -> Option<Date>
    decreases
            if n >= 0 {
                n
            } else {
                -n
            },
{
    if n == 0 {
        Some(d)
    } else if n > 0 {
        if d.year == MAX_YEAR && d.month == 12 && d.day == 31 {
            None
        } else {
            spec_add_days(spec_next_date(d), n - 1)
        }
    } else {
        if d.year == MIN_YEAR && d.month == 1 && d.day == 1 {
            None
        } else {
            spec_add_days(spec_prev_date(d), n + 1)
        }
    }
}

impl Date {
    /// The day after `self`, or `None` past the end of the supported range.
    pub fn next_day(&self) -> (r: Option<Date>)
        requires
            self.wf(),
        ensures
            r matches Some(d) ==> d == spec_next_date(*self) && d.wf(),
            r is None <==> *self == (Date { year: MAX_YEAR, month: 12, day: 31 }),
    {
        if self.year == MAX_YEAR && self.month == 12 && self.day == 31 {
            return None;
        }
        if self.day < days_in_month(self.year, self.month) {
            Some(Date { year: self.year, month: self.month, day: self.day + 1 })
        } else if self.month < 12 {
            Some(Date { year: self.year, month: self.month + 1, day: 1 })
        } else {
            Some(Date { year: self.year + 1, month: 1, day: 1 })
        }
    }

    /// The day before `self`, or `None` before the start of the supported range.
    pub fn prev_day(&self) -> (r: Option<Date>)
        requires
            self.wf(),
        ensures
            r matches Some(d) ==> d == spec_prev_date(*self) && d.wf(),
            r is None <==> *self == (Date { year: MIN_YEAR, month: 1, day: 1 }),
    {
        if self.year == MIN_YEAR && self.month == 1 && self.day == 1 {
            return None;
        }
        if self.day > 1 {
            Some(Date { year: self.year, month: self.month, day: self.day - 1 })
        } else if self.month > 1 {
            Some(
                Date {
                    year: self.year,
                    month: self.month - 1,
                    day: days_in_month(self.year, self.month - 1),
                },
            )
        } else {
            Some(Date { year: self.year - 1, month: 12, day: 31 })
        }
    }

    /// `self`'s position in a single count of months: 12 per year, the
    /// months of year `y` at positions `12 * y` to `12 * y + 11`.
    pub open spec fn spec_month_index(self) -> int {
        self.year * 12 + self.month - 1
    }

    /// The date `n` days away from `self`, or `None` when the walk would
    /// leave the supported year range.
    pub fn add_days(&self, n: i32) -> (r: Option<Date>)
        requires
            self.wf(),
        ensures
            r == spec_add_days(*self, n as int),
            r matches Some(d) ==> d.wf(),
    {
        let mut cur: Date = *self;
        let mut left: i32 = n;
        loop
            invariant
                cur.wf(),
                -2147483648 <= left <= 2147483647,
                spec_add_days(*self, n as int) == spec_add_days(cur, left as int),
            decreases
                    if left >= 0 {
                        left as int
                    } else {
                        -(left as int)
                    },
        {
            if left == 0 {
                return Some(cur);
            } else if left > 0 {
                match cur.next_day() {
                    Some(d) => {
                        cur = d;
                        left = left - 1;
                    },
                    None => {
                        return None;
                    },
                }
            } else {
                match cur.prev_day() {
                    Some(d) => {
                        cur = d;
                        left = left + 1;
                    },
                    None => {
                        return None;
                    },
                }
            }
        }
    }
}

/// The date `qty` months away from `d`, keeping the day of month:
/// month overflow and underflow are normalized across year boundaries.
/// `None` when the target year leaves the supported range or the day
/// does not exist in the target month (for example day 31 in a 30-day
/// month).
pub open spec fn spec_shift_months(d: Date, qty: int) -> Option<Date> {
    let idx = d.spec_month_index() + qty;
    let ny = idx / 12;
    let nm = idx % 12 + 1;
    if MIN_YEAR <= ny <= MAX_YEAR && d.day <= spec_days_in_month(ny, nm) {
        Some(Date { year: ny as i32, month: nm as u8, day: d.day })
    } else {
        None
    }
}

impl Date {
    /// The date `qty` months away from `self`, as [`spec_shift_months`]
    /// describes it.
    pub fn shift_months(&self, qty: i32) -> (r: Option<Date>)
        requires
            self.wf(),
        ensures
            r == spec_shift_months(*self, qty as int),
            r matches Some(d) ==> d.wf(),
    {
        let idx: i64 = (self.year as i64) * 12 + (self.month as i64 - 1) + (qty as i64);
        if idx < (MIN_YEAR as i64) * 12 || idx > (MAX_YEAR as i64) * 12 + 11 {
            return None;
        }
        let ny: i32 = (idx / 12) as i32;
        let nm: u8 = (idx % 12) as u8 + 1;
        assert(ny == (self.spec_month_index() + qty) / 12 && nm
            == (self.spec_month_index() + qty) % 12 + 1) by {
            vstd::arithmetic::div_mod::lemma_div_is_ordered(
                (MIN_YEAR as int) * 12,
                idx as int,
                12,
            );
            vstd::arithmetic::div_mod::lemma_div_is_ordered(
                idx as int,
                (MAX_YEAR as int) * 12 + 11,
                12,
            );
        }
        if self.day <= days_in_month(ny, nm) {
            Some(Date { year: ny, month: nm, day: self.day })
        } else {
            None
        }
    }
}

/// The decimal digit character for `d` (0 to 9).
pub open spec fn spec_digit(d: int) -> char {
    if d == 0 {
        '0'
    } else if d == 1 {
        '1'
    } else if d == 2 {
        '2'
    } else if d == 3 {
        '3'
    } else if d == 4 {
        '4'
    } else if d == 5 {
        '5'
    } else if d == 6 {
        '6'
    } else if d == 7 {
        '7'
    } else if d == 8 {
        '8'
    } else {
        '9'
    }
}

/// `n` as two decimal digits, zero padded (0 <= n <= 99).
pub open spec fn spec_two_digits(n: int) -> Seq<char> {
    seq![spec_digit(n / 10), spec_digit(n % 10)]
}

/// `y` as four decimal digits, zero padded (0 <= y <= 9999).
pub open spec fn spec_four_digits(y: int) -> Seq<char> {
    seq![
        spec_digit(y / 1000),
        spec_digit(y / 100 % 10),
        spec_digit(y / 10 % 10),
        spec_digit(y % 10),
    ]
}

/// `d` in `YYYY-MM-DD` form.
pub open spec fn spec_display(d: Date) -> Seq<char> {
    spec_four_digits(d.year as int) + seq!['-'] + spec_two_digits(d.month as int) + seq!['-']
        + spec_two_digits(d.day as int)
}

/// The one-character string holding the decimal digit `d`.
fn digit_str(d: u32) -> (r: &'static str)
    requires
        d <= 9,
    ensures
        r@ == seq![spec_digit(d as int)],
{
    proof {
        reveal_strlit("0");
        reveal_strlit("1");
        reveal_strlit("2");
        reveal_strlit("3");
        reveal_strlit("4");
        reveal_strlit("5");
        reveal_strlit("6");
        reveal_strlit("7");
        reveal_strlit("8");
        reveal_strlit("9");
    }
    if d == 0 {
        "0"
    } else if d == 1 {
        "1"
    } else if d == 2 {
        "2"
    } else if d == 3 {
        "3"
    } else if d == 4 {
        "4"
    } else if d == 5 {
        "5"
    } else if d == 6 {
        "6"
    } else if d == 7 {
        "7"
    } else if d == 8 {
        "8"
    } else {
        "9"
    }
}

impl Date {
    /// `self` in `YYYY-MM-DD` form, the year zero padded to four
    /// digits, month and day to two.
    pub fn display(&self) -> (r: String)
        requires
            self.wf(),
        ensures
            r@ == spec_display(*self),
    {
        proof {
            reveal_strlit("-");
        }
        let y: u32 = self.year as u32;
        let mut s = String::new();
        s.append(digit_str(y / 1000));
        s.append(digit_str(y / 100 % 10));
        s.append(digit_str(y / 10 % 10));
        s.append(digit_str(y % 10));
        s.append("-");
        s.append(digit_str(self.month as u32 / 10));
        s.append(digit_str(self.month as u32 % 10));
        s.append("-");
        s.append(digit_str(self.day as u32 / 10));
        s.append(digit_str(self.day as u32 % 10));
        proof {
            assert(s@ =~= spec_display(*self));
        }
        s
    }
}

/// Stepping forward 12 months reaches the same month and day one year
/// later, whenever that is a valid date.
pub proof fn lemma_next_year_same_month(d: Date)
    requires
        d.wf(),
        spec_shift_months(d, 12) is Some,
    ensures
        spec_shift_months(d, 12).unwrap() == (Date {
            year: (d.year + 1) as i32,
            month: d.month,
            day: d.day,
        }),
{
    vstd::arithmetic::div_mod::lemma_fundamental_div_mod_converse(
        d.spec_month_index() + 12,
        12,
        d.year + 1,
        d.month - 1,
    );
}

/// Stepping `qty` months forward and then `qty` months back returns to
/// the starting date whenever the forward step lands on a valid date
/// (in particular, stepping forward 12 months reaches the same month
/// one year later, and stepping back 12 months from there returns to
/// the same date).
pub proof fn lemma_shift_months_round_trip(d: Date, qty: int)
    requires
        d.wf(),
        spec_shift_months(d, qty) is Some,
    ensures
        spec_shift_months(spec_shift_months(d, qty).unwrap(), -qty) == Some(d),
{
    let idx = d.spec_month_index() + qty;
    let e = spec_shift_months(d, qty).unwrap();
    assert(e.spec_month_index() == idx) by {
        vstd::arithmetic::div_mod::lemma_fundamental_div_mod(idx, 12);
    }
    assert(e.spec_month_index() - qty == d.spec_month_index());
    assert(d.spec_month_index() / 12 == d.year && d.spec_month_index() % 12 == d.month - 1) by {
        vstd::arithmetic::div_mod::lemma_fundamental_div_mod_converse(
            d.spec_month_index(),
            12,
            d.year as int,
            d.month - 1,
        );
    }
}

} // verus!
