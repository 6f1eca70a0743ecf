//! Calendar date and time of day as plain numbers, and the two textual
//! forms the API uses: `YYYY-MM-DD HH:MM` and `YYYY-MM-DD HH:MM:SS`.

use vstd::prelude::*;

use crate::text::{decimal, push_char, push_decimal};

verus! {

pub open spec fn is_leap_year(y: int) -> bool {
    (y % 4 == 0 && y % 100 != 0) || y % 400 == 0
}

pub open spec fn days_in_month(y: int, m: int) -> int {
    if m == 2 {
        if is_leap_year(y) {
            29
        } else {
            28
        }
    } else if m == 4 || m == 6 || m == 9 || m == 11 {
        30
    } else {
        31
    }
}

/// A date of the proleptic Gregorian calendar with a year within ±9999.
pub open spec fn valid_date(y: int, m: int, d: int) -> bool {
    -9999 <= y <= 9999 && 1 <= m <= 12 && 1 <= d <= days_in_month(y, m)
}

/// Relies on `time::Date::from_calendar_date` (after `Month::try_from`):
/// it accepts a year within ±9999, a month within 1..=12 and a day within
/// the month, February having 29 days in leap years.
#[verifier::external_body]
fn calendar_date_exists(year: i32, month: u8, day: u8) -> (r: bool)
    ensures
        r == valid_date(year as int, month as int, day as int),
{
    match time::Month::try_from(month) {
        Ok(m) => time::Date::from_calendar_date(year, m, day).is_ok(),
        Err(_) => false,
    }
}

/// A date and time of day, without a time zone.
#[derive(Debug, Clone, Copy, PartialEq, Eq, Structural)]
pub struct DateTime {
    pub year: u16,
    pub month: u8,
    pub day: u8,
    pub hour: u8,
    pub minute: u8,
    pub second: u8,
}

/// `n` with zeros in front up to `width` digits.
pub open spec fn padded(n: nat, width: nat) -> Seq<char>
    decreases width,
{
    if width <= decimal(n).len() || width == 0 {
        decimal(n)
    } else {
        seq!['0'] + padded(n, (width - 1) as nat)
    }
}

impl DateTime {
    /// A real date in years 0 to 9999 and a real time of day.
    pub open spec fn is_valid(&self) -> bool {
        &&& self.year <= 9999
        &&& valid_date(self.year as int, self.month as int, self.day as int)
        &&& self.hour < 24 && self.minute < 60 && self.second < 60
    }

    /// `YYYY-MM-DD HH:MM`
    pub open spec fn minutes_text(&self) -> Seq<char> {
        padded(self.year as nat, 4) + seq!['-'] + padded(self.month as nat, 2) + seq!['-'] + padded(
            self.day as nat,
            2,
        ) + seq![' '] + padded(self.hour as nat, 2) + seq![':'] + padded(self.minute as nat, 2)
    }

    /// `YYYY-MM-DD HH:MM:SS`
    pub open spec fn seconds_text(&self) -> Seq<char> {
        self.minutes_text() + seq![':'] + padded(self.second as nat, 2)
    }

    /// The date and time, when they exist.
    pub fn new(year: u16, month: u8, day: u8, hour: u8, minute: u8, second: u8) -> (r: Option<
        DateTime,
    >)
        ensures
            r matches Some(d) ==> d == (DateTime { year, month, day, hour, minute, second }),
            r is Some <==> (DateTime { year, month, day, hour, minute, second }).is_valid(),
    {
        if year <= 9999 && hour < 24 && minute < 60 && second < 60 && calendar_date_exists(
            year as i32,
            month,
            day,
        ) {
            Some(DateTime { year, month, day, hour, minute, second })
        } else {
            None
        }
    }

    /// `YYYY-MM-DD HH:MM`, as timeline searches take it.
    pub fn format_minutes(&self) -> (r: String)
        ensures
            r@ == self.minutes_text(),
    {
        let mut s = String::new();
        push_padded(&mut s, self.year as u64, 4);
        push_char(&mut s, '-');
        push_padded(&mut s, self.month as u64, 2);
        push_char(&mut s, '-');
        push_padded(&mut s, self.day as u64, 2);
        push_char(&mut s, ' ');
        push_padded(&mut s, self.hour as u64, 2);
        push_char(&mut s, ':');
        push_padded(&mut s, self.minute as u64, 2);
        assert(s@ =~= self.minutes_text());
        s
    }

    /// `YYYY-MM-DD HH:MM:SS`, as auction dates are written.
    pub fn format_seconds(&self) -> (r: String)
        ensures
            r@ == self.seconds_text(),
    {
        let mut s = self.format_minutes();
        push_char(&mut s, ':');
        push_padded(&mut s, self.second as u64, 2);
        assert(s@ =~= self.seconds_text());
        s
    }
}

proof fn lemma_decimal_len(n: nat)
    ensures
        decimal(n).len() >= 1,
        n < 10 ==> decimal(n).len() == 1,
        10 <= n < 100 ==> decimal(n).len() == 2,
        100 <= n < 1000 ==> decimal(n).len() == 3,
        1000 <= n < 10000 ==> decimal(n).len() == 4,
        10000 <= n ==> decimal(n).len() >= 5,
    decreases n,
{
    if n >= 10 {
        lemma_decimal_len(n / 10);
    }
}

/// Appends `n` padded with zeros to `width` digits.
fn push_padded(s: &mut String, n: u64, width: u64)
    requires
        width <= 4,
    ensures
        final(s)@ == old(s)@ + padded(n as nat, width as nat),
    decreases width,
{
    proof {
        lemma_decimal_len(n as nat);
    }
    let len: u64 = if n < 10 {
        1
    } else if n < 100 {
        2
    } else if n < 1000 {
        3
    } else if n < 10000 {
        4
    } else {
        5
    };
    if width <= len || width == 0 {
        push_decimal(s, n);
    } else {
        push_char(s, '0');
        push_padded(s, n, width - 1);
        assert(final(s)@ =~= old(s)@ + padded(n as nat, width as nat));
    }
}

} // verus!

verus! {

/// The digit that a character writes, if it is one.
fn digit_value(c: char) -> (r: Option<u8>)
    ensures
        r matches Some(v) ==> v < 10 && crate::text::digit_char(v as nat) == c,
        r is None ==> forall|v: nat| v < 10 ==> crate::text::digit_char(v) != c,
{
    match c {
        '0' => Some(0),
        '1' => Some(1),
        '2' => Some(2),
        '3' => Some(3),
        '4' => Some(4),
        '5' => Some(5),
        '6' => Some(6),
        '7' => Some(7),
        '8' => Some(8),
        '9' => Some(9),
        _ => None,
    }
}

proof fn lemma_digit_char_injective(a: nat, b: nat)
    requires
        a < 10,
        b < 10,
        crate::text::digit_char(a) == crate::text::digit_char(b),
    ensures
        a == b,
{
}

/// Two digits, zero first.
proof fn lemma_padded2(n: nat)
    requires
        n < 100,
    ensures
        padded(n, 2) == seq![crate::text::digit_char(n / 10), crate::text::digit_char(n % 10)],
{
    lemma_decimal_len(n);
    if n < 10 {
        assert(padded(n, 1) == decimal(n));
        assert(padded(n, 2) =~= seq!['0'] + decimal(n));
    } else {
        assert(decimal(n / 10) == seq![crate::text::digit_char(n / 10)]);
        assert(padded(n, 2) =~= seq![crate::text::digit_char(n / 10), crate::text::digit_char(n % 10)]);
    }
}

/// Four digits, zeros first.
proof fn lemma_padded4(n: nat)
    requires
        n < 10000,
    ensures
        padded(n, 4) == seq![
            crate::text::digit_char(n / 1000),
            crate::text::digit_char((n / 100) % 10),
            crate::text::digit_char((n / 10) % 10),
            crate::text::digit_char(n % 10),
        ],
{
    lemma_decimal_len(n);
    lemma_decimal_len(n / 10);
    lemma_decimal_len(n / 100);
    let d = crate::text::digit_char(n % 10);
    let c = crate::text::digit_char((n / 10) % 10);
    let b = crate::text::digit_char((n / 100) % 10);
    let a = crate::text::digit_char(n / 1000);
    if n < 10 {
        assert(padded(n, 1) == decimal(n));
        assert(padded(n, 2) =~= seq!['0'] + decimal(n));
        assert(padded(n, 3) =~= seq!['0'] + padded(n, 2));
        assert(padded(n, 4) =~= seq![a, b, c, d]);
    } else if n < 100 {
        assert(decimal(n) =~= seq![c, d]);
        assert(padded(n, 2) == decimal(n));
        assert(padded(n, 3) =~= seq!['0'] + padded(n, 2));
        assert(padded(n, 4) =~= seq![a, b, c, d]);
    } else if n < 1000 {
        assert((n / 10) / 10 == n / 100);
        assert(decimal(n / 10) =~= seq![b, c]);
        assert(decimal(n) =~= seq![b, c, d]);
        assert(padded(n, 3) == decimal(n));
        assert(padded(n, 4) =~= seq![a, b, c, d]);
    } else {
        assert((n / 100) / 10 == n / 1000);
        assert((n / 10) / 10 == n / 100);
        assert(n / 100 >= 10 && n / 1000 < 10);
        assert(decimal(n / 1000) == seq![a]);
        assert(decimal(n / 100) =~= seq![a, b]);
        assert(decimal(n / 10) =~= seq![a, b, c]);
        assert(decimal(n) =~= seq![a, b, c, d]);
        assert(padded(n, 4) =~= seq![a, b, c, d]);
    }
}

/// The two-digit number written at `p`, if any.
fn two_digits(s: &str, p: usize) -> (r: Option<u8>)
    requires
        p + 2 <= s@.len(),
        p <= 100,
    ensures
        r matches Some(v) ==> v < 100 && s@.subrange(p as int, p + 2) == padded(v as nat, 2),
        (exists|v: nat| v < 100 && s@.subrange(p as int, p + 2) == padded(v, 2)) ==> r is Some,
{
    proof {
        assert forall|v: nat| v < 100 implies #[trigger] padded(v, 2) == seq![
            crate::text::digit_char(v / 10),
            crate::text::digit_char(v % 10),
        ] by {
            lemma_padded2(v);
        }
    }
    let a = digit_value(s.get_char(p));
    let b = digit_value(s.get_char(p + 1));
    match (a, b) {
        (Some(a), Some(b)) => {
            let v: u8 = a * 10 + b;
            assert(v / 10 == a && v % 10 == b);
            assert(s@.subrange(p as int, p + 2) =~= padded(v as nat, 2));
            Some(v)
        },
        _ => {
            proof {
                if exists|v: nat| v < 100 && s@.subrange(p as int, p + 2) == padded(v, 2) {
                    let v = choose|v: nat| v < 100 && s@.subrange(p as int, p + 2) == padded(v, 2);
                    assert(s@[p as int] == s@.subrange(p as int, p + 2)[0]);
                    assert(s@[p + 1] == s@.subrange(p as int, p + 2)[1]);
                }
            }
            None
        },
    }
}

proof fn lemma_four_digit_value(a: u8, b: u8, c: u8, d: u8)
    requires
        a < 10 && b < 10 && c < 10 && d < 10,
    ensures
        ({
            let v = a as nat * 1000 + b as nat * 100 + c as nat * 10 + d as nat;
            v < 10000 && v / 1000 == a && (v / 100) % 10 == b && (v / 10) % 10 == c && v % 10 == d
        }),
{
    let v = a as nat * 1000 + b as nat * 100 + c as nat * 10 + d as nat;
    assert(v / 10 == a as nat * 100 + b as nat * 10 + c as nat);
    assert(v / 100 == a as nat * 10 + b as nat);
}

/// The four-digit number written at `p`, if any.
fn four_digits(s: &str, p: usize) -> (r: Option<u16>)
    requires
        p + 4 <= s@.len(),
        p <= 100,
    ensures
        r matches Some(v) ==> v < 10000 && s@.subrange(p as int, p + 4) == padded(v as nat, 4),
        (exists|v: nat| v < 10000 && s@.subrange(p as int, p + 4) == padded(v, 4)) ==> r is Some,
{
    let a = digit_value(s.get_char(p));
    let b = digit_value(s.get_char(p + 1));
    let c = digit_value(s.get_char(p + 2));
    let d = digit_value(s.get_char(p + 3));
    match (a, b, c, d) {
        (Some(a), Some(b), Some(c), Some(d)) => {
            proof {
                lemma_four_digit_value(a, b, c, d);
            }
            let v: u16 = a as u16 * 1000 + b as u16 * 100 + c as u16 * 10 + d as u16;
            proof {
                lemma_padded4(v as nat);
            }
            assert(s@.subrange(p as int, p + 4) =~= padded(v as nat, 4));
            Some(v)
        },
        _ => {
            proof {
                if exists|v: nat| v < 10000 && s@.subrange(p as int, p + 4) == padded(v, 4) {
                    let v = choose|v: nat| v < 10000 && s@.subrange(p as int, p + 4) == padded(v, 4);
                    lemma_padded4(v);
                    assert(s@[p as int] == s@.subrange(p as int, p + 4)[0]);
                    assert(s@[p + 1] == s@.subrange(p as int, p + 4)[1]);
                    assert(s@[p + 2] == s@.subrange(p as int, p + 4)[2]);
                    assert(s@[p + 3] == s@.subrange(p as int, p + 4)[3]);
                }
            }
            None
        },
    }
}

proof fn lemma_padded2_injective(a: nat, b: nat)
    requires
        a < 100,
        b < 100,
        padded(a, 2) == padded(b, 2),
    ensures
        a == b,
{
    lemma_padded2(a);
    lemma_padded2(b);
    assert(padded(a, 2)[0] == padded(b, 2)[0]);
    assert(padded(a, 2)[1] == padded(b, 2)[1]);
    lemma_digit_char_injective(a / 10, b / 10);
    lemma_digit_char_injective(a % 10, b % 10);
}

proof fn lemma_padded4_injective(a: nat, b: nat)
    requires
        a < 10000,
        b < 10000,
        padded(a, 4) == padded(b, 4),
    ensures
        a == b,
{
    lemma_padded4(a);
    lemma_padded4(b);
    assert(padded(a, 4)[0] == padded(b, 4)[0]);
    assert(padded(a, 4)[1] == padded(b, 4)[1]);
    assert(padded(a, 4)[2] == padded(b, 4)[2]);
    assert(padded(a, 4)[3] == padded(b, 4)[3]);
    lemma_digit_char_injective(a / 1000, b / 1000);
    lemma_digit_char_injective((a / 100) % 10, (b / 100) % 10);
    lemma_digit_char_injective((a / 10) % 10, (b / 10) % 10);
    lemma_digit_char_injective(a % 10, b % 10);
}

/// Where each part of the two textual forms stands.
proof fn lemma_text_layout(d: DateTime)
    requires
        d.year < 10000 && d.month < 100 && d.day < 100,
        d.hour < 100 && d.minute < 100 && d.second < 100,
    ensures
        d.minutes_text().len() == 16,
        d.seconds_text().len() == 19,
        d.minutes_text().subrange(0, 4) == padded(d.year as nat, 4),
        d.minutes_text().subrange(5, 7) == padded(d.month as nat, 2),
        d.minutes_text().subrange(8, 10) == padded(d.day as nat, 2),
        d.minutes_text().subrange(11, 13) == padded(d.hour as nat, 2),
        d.minutes_text().subrange(14, 16) == padded(d.minute as nat, 2),
        d.minutes_text()[4] == '-' && d.minutes_text()[7] == '-' && d.minutes_text()[10] == ' '
            && d.minutes_text()[13] == ':',
        d.seconds_text().subrange(0, 16) == d.minutes_text(),
        d.seconds_text()[16] == ':',
        d.seconds_text().subrange(17, 19) == padded(d.second as nat, 2),
{
    lemma_padded4(d.year as nat);
    lemma_padded2(d.month as nat);
    lemma_padded2(d.day as nat);
    lemma_padded2(d.hour as nat);
    lemma_padded2(d.minute as nat);
    lemma_padded2(d.second as nat);
    let t = d.minutes_text();
    assert(t.subrange(0, 4) =~= padded(d.year as nat, 4));
    assert(t.subrange(5, 7) =~= padded(d.month as nat, 2));
    assert(t.subrange(8, 10) =~= padded(d.day as nat, 2));
    assert(t.subrange(11, 13) =~= padded(d.hour as nat, 2));
    assert(t.subrange(14, 16) =~= padded(d.minute as nat, 2));
    assert(d.seconds_text().subrange(0, 16) =~= t);
    assert(d.seconds_text().subrange(17, 19) =~= padded(d.second as nat, 2));
}

/// A text with the parts of `d` in their places is its textual form.
proof fn lemma_text_from_parts(s: Seq<char>, d: DateTime, seconds: bool)
    requires
        d.year < 10000 && d.month < 100 && d.day < 100,
        d.hour < 100 && d.minute < 100 && d.second < 100,
        s.len() == if seconds {
            19int
        } else {
            16int
        },
        s.subrange(0, 4) == padded(d.year as nat, 4),
        s.subrange(5, 7) == padded(d.month as nat, 2),
        s.subrange(8, 10) == padded(d.day as nat, 2),
        s.subrange(11, 13) == padded(d.hour as nat, 2),
        s.subrange(14, 16) == padded(d.minute as nat, 2),
        s[4] == '-' && s[7] == '-' && s[10] == ' ' && s[13] == ':',
        seconds ==> s[16] == ':' && s.subrange(17, 19) == padded(d.second as nat, 2),
    ensures
        s == if seconds {
            d.seconds_text()
        } else {
            d.minutes_text()
        },
{
    lemma_text_layout(d);
    let t = if seconds {
        d.seconds_text()
    } else {
        d.minutes_text()
    };
    let m = d.minutes_text();
    assert forall|i: int| 0 <= i < s.len() implies s[i] == t[i] by {
        if i < 16 {
            if seconds {
                assert(t[i] == t.subrange(0, 16)[i]);
            }
            if i < 4 {
                assert(s[i] == s.subrange(0, 4)[i] && m[i] == m.subrange(0, 4)[i]);
            } else if 5 <= i < 7 {
                assert(s[i] == s.subrange(5, 7)[i - 5] && m[i] == m.subrange(5, 7)[i - 5]);
            } else if 8 <= i < 10 {
                assert(s[i] == s.subrange(8, 10)[i - 8] && m[i] == m.subrange(8, 10)[i - 8]);
            } else if 11 <= i < 13 {
                assert(s[i] == s.subrange(11, 13)[i - 11] && m[i] == m.subrange(11, 13)[i - 11]);
            } else if 14 <= i < 16 {
                assert(s[i] == s.subrange(14, 16)[i - 14] && m[i] == m.subrange(14, 16)[i - 14]);
            }
        } else if 17 <= i {
            assert(s[i] == s.subrange(17, 19)[i - 17] && t[i] == t.subrange(17, 19)[i - 17]);
        }
    }
    assert(s =~= t);
}

/// `d` is a valid date and time written `s` in the chosen form.
pub open spec fn written_as(d: DateTime, s: Seq<char>, seconds: bool) -> bool {
    d.is_valid() && if seconds {
        d.seconds_text() == s
    } else {
        d.minutes_text() == s && d.second == 0
    }
}

impl DateTime {
    /// Reads `YYYY-MM-DD HH:MM:SS` (with `seconds`) or `YYYY-MM-DD HH:MM`
    /// (without; the seconds are then zero). Anything else, or a date or
    /// time that does not exist, is refused.
    pub fn parse(s: &str, seconds: bool) -> (r: Option<DateTime>)
        ensures
            r matches Some(d) ==> written_as(d, s@, seconds),
            (exists|d: DateTime| written_as(d, s@, seconds)) ==> r is Some,
    {
        let n = s.unicode_len();
        let want: usize = if seconds {
            19
        } else {
            16
        };
        proof {
            if exists|d: DateTime| written_as(d, s@, seconds) {
                let d = choose|d: DateTime| written_as(d, s@, seconds);
                lemma_text_layout(d);
            }
        }
        if n != want {
            return None;
        }
        let year = four_digits(s, 0);
        let month = two_digits(s, 5);
        let day = two_digits(s, 8);
        let hour = two_digits(s, 11);
        let minute = two_digits(s, 14);
        let second = if seconds {
            two_digits(s, 17)
        } else {
            Some(0u8)
        };
        let seps = s.get_char(4) == '-' && s.get_char(7) == '-' && s.get_char(10) == ' '
            && s.get_char(13) == ':' && (!seconds || s.get_char(16) == ':');
        proof {
            if exists|d: DateTime| written_as(d, s@, seconds) {
                let d = choose|d: DateTime| written_as(d, s@, seconds);
                lemma_text_layout(d);
                let t = d.minutes_text();
                if seconds {
                    assert(s@.subrange(0, 16) == t);
                    assert(s@.subrange(0, 4) =~= t.subrange(0, 4));
                    assert(s@.subrange(5, 7) =~= t.subrange(5, 7));
                    assert(s@.subrange(8, 10) =~= t.subrange(8, 10));
                    assert(s@.subrange(11, 13) =~= t.subrange(11, 13));
                    assert(s@.subrange(14, 16) =~= t.subrange(14, 16));
                    assert(s@[4] == t[4] && s@[7] == t[7] && s@[10] == t[10] && s@[13] == t[13]);
                }
            }
        }
        match (year, month, day, hour, minute, second) {
            (Some(y), Some(mo), Some(da), Some(h), Some(mi), Some(se)) => {
                if !seps {
                    return None;
                }
                let ghost c = DateTime { year: y, month: mo, day: da, hour: h, minute: mi, second: se };
                proof {
                    lemma_text_from_parts(s@, c, seconds);
                    if exists|d: DateTime| written_as(d, s@, seconds) {
                        let d = choose|d: DateTime| written_as(d, s@, seconds);
                        lemma_text_layout(d);
                        let t = d.minutes_text();
                        if seconds {
                            assert(s@.subrange(0, 16) == t);
                            assert(s@.subrange(0, 4) =~= t.subrange(0, 4));
                            assert(s@.subrange(5, 7) =~= t.subrange(5, 7));
                            assert(s@.subrange(8, 10) =~= t.subrange(8, 10));
                            assert(s@.subrange(11, 13) =~= t.subrange(11, 13));
                            assert(s@.subrange(14, 16) =~= t.subrange(14, 16));
                            lemma_padded2_injective(se as nat, d.second as nat);
                        }
                        lemma_padded4_injective(y as nat, d.year as nat);
                        lemma_padded2_injective(mo as nat, d.month as nat);
                        lemma_padded2_injective(da as nat, d.day as nat);
                        lemma_padded2_injective(h as nat, d.hour as nat);
                        lemma_padded2_injective(mi as nat, d.minute as nat);
                        assert(c == d);
                    }
                }
                DateTime::new(y, mo, da, h, mi, se)
            },
            _ => None,
        }
    }
}

} // verus!
