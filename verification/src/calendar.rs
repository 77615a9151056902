//! Proleptic Gregorian calendar dates counted from the Unix epoch, and the
//! ISO 8601 timestamps that the gateway reports.
use vstd::prelude::*;
use vstd::string::*;

use crate::text::{
    decimal, first_diff_less, lemma_diff_after, lemma_diff_extends, lemma_digits_less,
    lemma_padded_digits, pow10, u64_to_padded_decimal, zero_pad,
};

verus! {

/// Leap years: divisible by 4, except centuries not divisible by 400.
pub open spec fn is_leap_year(y: int) -> bool {
    y % 4 == 0 && (y % 100 != 0 || y % 400 == 0)
}

pub open spec fn days_in_year(y: int) -> nat {
    if is_leap_year(y) {
        366
    } else {
        365
    }
}

/// The length of month `m` (1 to 12) of year `y`.
pub open spec fn days_in_month(y: int, m: int) -> nat {
    if m == 2 {
        if is_leap_year(y) {
            29
        } else {
            28
        }
    } else if m == 4 || m == 6 || m == 9 || m == 11 {
        30
    } else {
        31
    }
}

/// The number of days from 1970-01-01 to the first day of year `y`.
pub open spec fn days_before_year(y: nat) -> nat
    decreases y,
{
    if y <= 1970 {
        0
    } else {
        days_before_year((y - 1) as nat) + days_in_year(y - 1)
    }
}

/// The number of days from the first day of year `y` to the first day of month `m`.
pub open spec fn days_before_month(y: nat, m: nat) -> nat
    decreases m,
{
    if m <= 1 {
        0
    } else {
        days_before_month(y, (m - 1) as nat) + days_in_month(y as int, m - 1)
    }
}

/// Day `d` of month `m` of year `y` is the day `days` days after 1970-01-01.
pub open spec fn is_date_at(days: nat, y: nat, m: nat, d: nat) -> bool {
    &&& y >= 1970
    &&& 1 <= m <= 12
    &&& 1 <= d <= days_in_month(y as int, m as int)
    &&& days == days_before_year(y) + days_before_month(y, m) + (d - 1)
}

/// The calendar date (year, month, day) that lies `days` days after 1970-01-01.
pub open spec fn civil_date(days: nat) -> (nat, nat, nat) {
    choose|y: nat, m: nat, d: nat| is_date_at(days, y, m, d)
}

/// `YYYY-MM-DDTHH:MM:SSZ`, each field zero-padded (the year to at least four digits).
pub open spec fn iso_timestamp_view(y: nat, mo: nat, d: nat, h: nat, mi: nat, s: nat) -> Seq<char> {
    zero_pad(decimal(y), 4) + "-"@ + zero_pad(decimal(mo), 2) + "-"@ + zero_pad(decimal(d), 2)
        + "T"@ + zero_pad(decimal(h), 2) + ":"@ + zero_pad(decimal(mi), 2) + ":"@ + zero_pad(
        decimal(s),
        2,
    ) + "Z"@
}

/// The UTC time `secs` seconds after the Unix epoch, as an ISO 8601 timestamp.
pub open spec fn utc_timestamp_view(secs: nat) -> Seq<char> {
    let date = civil_date(secs / 86400);
    iso_timestamp_view(date.0, date.1, date.2, (secs / 3600) % 24, (secs / 60) % 60, secs % 60)
}

proof fn lemma_days_before_year_step(y: nat)
    requires
        y >= 1970,
    ensures
        days_before_year(y + 1) == days_before_year(y) + days_in_year(y as int),
{
    assert(((y + 1) - 1) as nat == y);
}

proof fn lemma_days_before_year_grows(y1: nat, y2: nat)
    requires
        1970 <= y1 < y2,
    ensures
        days_before_year(y1) + days_in_year(y1 as int) <= days_before_year(y2),
    decreases y2 - y1,
{
    if y2 == y1 + 1 {
        lemma_days_before_year_step(y1);
    } else {
        lemma_days_before_year_grows(y1, (y2 - 1) as nat);
        lemma_days_before_year_step((y2 - 1) as nat);
    }
}

proof fn lemma_days_before_year_at_least(y: nat)
    requires
        y >= 1970,
    ensures
        days_before_year(y) >= y - 1970,
    decreases y,
{
    if y > 1970 {
        lemma_days_before_year_at_least((y - 1) as nat);
    }
}

proof fn lemma_months_fill_year(y: nat)
    ensures
        days_before_month(y, 13) == days_in_year(y as int),
{
    reveal_with_fuel(days_before_month, 13);
}

proof fn lemma_days_before_month_grows(y: nat, m1: nat, m2: nat)
    requires
        1 <= m1 < m2,
    ensures
        days_before_month(y, m1) + days_in_month(y as int, m1 as int) <= days_before_month(y, m2),
    decreases m2 - m1,
{
    if m2 > m1 + 1 {
        lemma_days_before_month_grows(y, m1, (m2 - 1) as nat);
    }
}

/// A day of a month of a year lies within that year.
proof fn lemma_date_within_year(days: nat, y: nat, m: nat, d: nat)
    requires
        is_date_at(days, y, m, d),
    ensures
        days_before_year(y) <= days < days_before_year(y) + days_in_year(y as int),
{
    lemma_days_before_month_grows(y, m, 13);
    lemma_months_fill_year(y);
}

/// Law: a day count has at most one calendar date.
pub proof fn lemma_date_unique(days: nat, y1: nat, m1: nat, d1: nat, y2: nat, m2: nat, d2: nat)
    requires
        is_date_at(days, y1, m1, d1),
        is_date_at(days, y2, m2, d2),
    ensures
        y1 == y2 && m1 == m2 && d1 == d2,
{
    lemma_date_within_year(days, y1, m1, d1);
    lemma_date_within_year(days, y2, m2, d2);
    if y1 < y2 {
        lemma_days_before_year_grows(y1, y2);
    } else if y2 < y1 {
        lemma_days_before_year_grows(y2, y1);
    }
    assert(y1 == y2);
    if m1 < m2 {
        lemma_days_before_month_grows(y1, m1, m2);
    } else if m2 < m1 {
        lemma_days_before_month_grows(y1, m2, m1);
    }
}

proof fn lemma_month_exists(y: nat, rem: nat, m: nat) -> (r: (nat, nat))
    requires
        1 <= m <= 12,
        days_before_month(y, m) <= rem < days_in_year(y as int),
    ensures
        1 <= r.0 <= 12,
        1 <= r.1 <= days_in_month(y as int, r.0 as int),
        rem == days_before_month(y, r.0) + (r.1 - 1),
    decreases 12 - m,
{
    if rem < days_before_month(y, m) + days_in_month(y as int, m as int) {
        (m, (rem - days_before_month(y, m) + 1) as nat)
    } else {
        if m == 12 {
            lemma_months_fill_year(y);
            assert(days_before_month(y, 13) == days_before_month(y, 12) + days_in_month(
                y as int,
                12,
            ));
            assert(false);
        }
        assert(days_before_month(y, m + 1) == days_before_month(y, m) + days_in_month(
            y as int,
            m as int,
        ));
        lemma_month_exists(y, rem, m + 1)
    }
}

proof fn lemma_year_exists(days: nat, y: nat) -> (r: nat)
    requires
        y >= 1970,
        days_before_year(y) <= days,
    ensures
        r >= 1970,
        days_before_year(r) <= days < days_before_year(r) + days_in_year(r as int),
    decreases days - days_before_year(y),
{
    lemma_days_before_year_step(y);
    if days < days_before_year(y) + days_in_year(y as int) {
        y
    } else {
        lemma_year_exists(days, y + 1)
    }
}

/// Law: every day count from the epoch on has exactly one calendar date, the
/// one that `civil_date` names.
pub proof fn lemma_civil_date(days: nat)
    ensures
        is_date_at(days, civil_date(days).0, civil_date(days).1, civil_date(days).2),
        forall|y: nat, m: nat, d: nat|
            #![trigger is_date_at(days, y, m, d)]
            is_date_at(days, y, m, d) ==> (y, m, d) == civil_date(days),
{
    let y = lemma_year_exists(days, 1970);
    let (m, d) = lemma_month_exists(y, (days - days_before_year(y)) as nat, 1);
    assert(is_date_at(days, y, m, d));
    let c = civil_date(days);
    assert(is_date_at(days, c.0, c.1, c.2));
    assert forall|y2: nat, m2: nat, d2: nat| #[trigger]
        is_date_at(days, y2, m2, d2) implies (y2, m2, d2) == civil_date(days) by {
        lemma_date_unique(days, y2, m2, d2, c.0, c.1, c.2);
    }
}

// ---------------------------------------------------------------------------
// Timestamps sort in time order
// ---------------------------------------------------------------------------
/// The leap years from year 1 up to year `x`.
pub open spec fn leap_years_upto(x: int) -> int {
    x / 4 - x / 100 + x / 400
}

proof fn lemma_leap_count_step(x: int)
    requires
        x >= 1,
    ensures
        leap_years_upto(x) - leap_years_upto(x - 1) == if is_leap_year(x) {
            1int
        } else {
            0int
        },
{
}

/// The days before a year, counted by the leap years that precede it.
proof fn lemma_days_before_year_closed(y: nat)
    requires
        y >= 1970,
    ensures
        days_before_year(y) == 365 * (y - 1970) + leap_years_upto(y - 1) - leap_years_upto(1969),
    decreases y,
{
    if y > 1970 {
        lemma_days_before_year_closed((y - 1) as nat);
        lemma_days_before_year_step((y - 1) as nat);
        lemma_leap_count_step(y - 1);
    }
}

/// The first second of the year 10000.
pub open spec fn year_10000_secs() -> nat {
    253402300800
}

/// Before the year 10000, the year has at most four digits.
proof fn lemma_year_below_10000(days: nat)
    requires
        days < year_10000_secs() / 86400,
    ensures
        civil_date(days).0 < 10000,
{
    lemma_civil_date(days);
    lemma_days_before_year_closed(10000);
    let y = civil_date(days).0;
    if y >= 10000 {
        if y > 10000 {
            lemma_days_before_year_grows(10000, y);
        }
    }
}

/// A later day has a later date, in the order of year, month, day.
proof fn lemma_date_order(d1: nat, d2: nat)
    requires
        d1 < d2,
    ensures
        ({
            let a = civil_date(d1);
            let b = civil_date(d2);
            ||| a.0 < b.0
            ||| a.0 == b.0 && a.1 < b.1
            ||| a.0 == b.0 && a.1 == b.1 && a.2 < b.2
        }),
{
    lemma_civil_date(d1);
    lemma_civil_date(d2);
    let a = civil_date(d1);
    let b = civil_date(d2);
    lemma_date_within_year(d1, a.0, a.1, a.2);
    lemma_date_within_year(d2, b.0, b.1, b.2);
    if b.0 < a.0 {
        lemma_days_before_year_grows(b.0, a.0);
    } else if a.0 == b.0 {
        if b.1 < a.1 {
            lemma_days_before_month_grows(a.0, b.1, a.1);
        }
    }
}

/// A time splits into its day, hour, minute and second.
proof fn lemma_time_split(secs: nat)
    ensures
        secs == 86400 * (secs / 86400) + 3600 * ((secs / 3600) % 24) + 60 * ((secs / 60) % 60)
            + secs % 60,
        (secs / 3600) % 24 < 24,
        (secs / 60) % 60 < 60,
        secs % 60 < 60,
{
    let x = secs as int;
    vstd::arithmetic::div_mod::lemma_div_denominator(x, 60, 60);
    vstd::arithmetic::div_mod::lemma_div_denominator(x, 3600, 24);
    assert(x == 60 * (x / 60) + x % 60);
    assert(x / 60 == 60 * ((x / 60) / 60) + (x / 60) % 60);
    assert(x / 3600 == 24 * ((x / 3600) / 24) + (x / 3600) % 24);
}

/// The fields of a timestamp: year, month, day, hour, minute, second.
pub open spec fn time_fields(secs: nat) -> (nat, nat, nat, nat, nat, nat) {
    let date = civil_date(secs / 86400);
    (date.0, date.1, date.2, (secs / 3600) % 24, (secs / 60) % 60, secs % 60)
}

/// Law: before the year 10000, timestamps sort as the times they show: the
/// timestamp of an earlier second comes first in character order (the order
/// in which `str` compares), at the first place where the two differ.
pub proof fn law_timestamp_order(a: nat, b: nat)
    requires
        a < b < year_10000_secs(),
    ensures
        exists|k: int| first_diff_less(utc_timestamp_view(a), utc_timestamp_view(b), k),
{
    let (ta, tb) = (utc_timestamp_view(a), utc_timestamp_view(b));
    let fa = time_fields(a);
    let fb = time_fields(b);
    lemma_time_split(a);
    lemma_time_split(b);
    lemma_year_below_10000(a / 86400);
    lemma_year_below_10000(b / 86400);
    lemma_civil_date(a / 86400);
    lemma_civil_date(b / 86400);
    reveal_with_fuel(pow10, 5);
    lemma_padded_digits(fa.0, 4);
    lemma_padded_digits(fb.0, 4);
    lemma_padded_digits(fa.1, 2);
    lemma_padded_digits(fb.1, 2);
    lemma_padded_digits(fa.2, 2);
    lemma_padded_digits(fb.2, 2);
    lemma_padded_digits(fa.3, 2);
    lemma_padded_digits(fb.3, 2);
    lemma_padded_digits(fa.4, 2);
    lemma_padded_digits(fb.4, 2);
    lemma_padded_digits(fa.5, 2);
    lemma_padded_digits(fb.5, 2);
    reveal_strlit("-");
    reveal_strlit("T");
    reveal_strlit(":");
    reveal_strlit("Z");
    let pya = zero_pad(decimal(fa.0), 4);
    let pyb = zero_pad(decimal(fb.0), 4);
    let pmoa = zero_pad(decimal(fa.1), 2);
    let pmob = zero_pad(decimal(fb.1), 2);
    let pda = zero_pad(decimal(fa.2), 2);
    let pdb = zero_pad(decimal(fb.2), 2);
    let pha = zero_pad(decimal(fa.3), 2);
    let phb = zero_pad(decimal(fb.3), 2);
    let pmia = zero_pad(decimal(fa.4), 2);
    let pmib = zero_pad(decimal(fb.4), 2);
    let psa = zero_pad(decimal(fa.5), 2);
    let psb = zero_pad(decimal(fb.5), 2);
    assert(ta.len() == 20 && tb.len() == 20);
    let days_a = a / 86400;
    let days_b = b / 86400;
    if days_a < days_b {
        lemma_date_order(days_a, days_b);
    }
    if fa.0 < fb.0 {
        let k = lemma_digits_less(pya, pyb);
        assert(ta.take(4) =~= pya);
        assert(tb.take(4) =~= pyb);
        lemma_diff_extends(pya, pyb, k, ta, tb);
    } else if fa.0 == fb.0 && fa.1 < fb.1 {
        let x = pya + "-"@;
        let k = lemma_digits_less(pmoa, pmob);
        lemma_diff_after(x, pmoa, pmob, k);
        assert(ta.take(7) =~= x + pmoa);
        assert(tb.take(7) =~= x + pmob);
        lemma_diff_extends(x + pmoa, x + pmob, 5 + k, ta, tb);
    } else if fa.0 == fb.0 && fa.1 == fb.1 && fa.2 < fb.2 {
        let x = pya + "-"@ + pmoa + "-"@;
        let k = lemma_digits_less(pda, pdb);
        lemma_diff_after(x, pda, pdb, k);
        assert(ta.take(10) =~= x + pda);
        assert(tb.take(10) =~= x + pdb);
        lemma_diff_extends(x + pda, x + pdb, 8 + k, ta, tb);
    } else {
        assert(days_a == days_b);
        let x = pya + "-"@ + pmoa + "-"@ + pda + "T"@;
        if fa.3 < fb.3 {
            let k = lemma_digits_less(pha, phb);
            lemma_diff_after(x, pha, phb, k);
            assert(ta.take(13) =~= x + pha);
            assert(tb.take(13) =~= x + phb);
            lemma_diff_extends(x + pha, x + phb, 11 + k, ta, tb);
        } else if fa.3 == fb.3 && fa.4 < fb.4 {
            let x2 = x + pha + ":"@;
            let k = lemma_digits_less(pmia, pmib);
            lemma_diff_after(x2, pmia, pmib, k);
            assert(ta.take(16) =~= x2 + pmia);
            assert(tb.take(16) =~= x2 + pmib);
            lemma_diff_extends(x2 + pmia, x2 + pmib, 14 + k, ta, tb);
        } else {
            assert(fa.3 == fb.3 && fa.4 == fb.4 && fa.5 < fb.5);
            let x3 = x + pha + ":"@ + pmia + ":"@;
            let k = lemma_digits_less(psa, psb);
            lemma_diff_after(x3, psa, psb, k);
            assert(ta.take(19) =~= x3 + psa);
            assert(tb.take(19) =~= x3 + psb);
            lemma_diff_extends(x3 + psa, x3 + psb, 17 + k, ta, tb);
        }
    }
}

fn is_leap(year: u64) -> (b: bool)
    ensures
        b == is_leap_year(year as int),
{
    year % 4 == 0 && (year % 100 != 0 || year % 400 == 0)
}

fn month_length(year: u64, month: u64) -> (n: u64)
    ensures
        n == days_in_month(year as int, month as int),
{
    if month == 2 {
        if is_leap(year) {
            29
        } else {
            28
        }
    } else if month == 4 || month == 6 || month == 9 || month == 11 {
        30
    } else {
        31
    }
}

/// The UTC time `secs` seconds after the Unix epoch, as `YYYY-MM-DDTHH:MM:SSZ`.
pub fn rvs_format_utc_timestamp(secs: u64) -> (r: String)
    ensures
        r@ == utc_timestamp_view(secs as nat),
{
    let s = secs % 60;
    let m = (secs / 60) % 60;
    let h = (secs / 3600) % 24;
    let days = secs / 86400;
    let mut year: u64 = 1970;
    let mut remaining_days = days;
    loop
        invariant
            year >= 1970,
            days == days_before_year(year as nat) + remaining_days,
            days <= u64::MAX / 86400,
        ensures
            year >= 1970,
            days == days_before_year(year as nat) + remaining_days,
            remaining_days < days_in_year(year as int),
        decreases remaining_days,
    {
        let days_in_year: u64 = if is_leap(year) {
            366
        } else {
            365
        };
        if remaining_days < days_in_year {
            break ;
        }
        proof {
            lemma_days_before_year_step(year as nat);
            lemma_days_before_year_at_least(year as nat);
        }
        remaining_days -= days_in_year;
        year += 1;
    }
    let ghost year_rem = remaining_days;
    proof {
        lemma_months_fill_year(year as nat);
    }
    let mut month: u64 = 1;
    while month <= 12
        invariant
            1 <= month <= 13,
            year_rem < days_in_year(year as int),
            year_rem == days_before_month(year as nat, month as nat) + remaining_days,
            days_before_month(year as nat, 13) == days_in_year(year as int),
        ensures
            1 <= month <= 12,
            year_rem == days_before_month(year as nat, month as nat) + remaining_days,
            remaining_days < days_in_month(year as int, month as int),
        decreases 13 - month,
    {
        let md = month_length(year, month);
        if remaining_days < md {
            break ;
        }
        proof {
            if month == 12 {
                assert(days_before_month(year as nat, 13) == days_before_month(year as nat, 12)
                    + days_in_month(year as int, 12));
            }
        }
        remaining_days -= md;
        month += 1;
    }
    let day = remaining_days + 1;
    proof {
        assert(is_date_at(days as nat, year as nat, month as nat, day as nat));
        lemma_civil_date(days as nat);
    }
    let mut out = u64_to_padded_decimal(year, 4);
    out.append("-");
    out.append(u64_to_padded_decimal(month, 2).as_str());
    out.append("-");
    out.append(u64_to_padded_decimal(day, 2).as_str());
    out.append("T");
    out.append(u64_to_padded_decimal(h, 2).as_str());
    out.append(":");
    out.append(u64_to_padded_decimal(m, 2).as_str());
    out.append(":");
    out.append(u64_to_padded_decimal(s, 2).as_str());
    out.append("Z");
    out
}

} // verus!
