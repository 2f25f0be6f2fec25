//! Rendering plain values as strings.
//!
//! State payloads are bare decimal strings, and period expiries are
//! ISO-8601 date-times with a numeric UTC offset. Everything here is
//! defined over sequences of characters and proved against those
//! definitions.

use vstd::prelude::*;
use crate::date::Date;

verus! {

/// Relies on `String::push` of std: appends the given char to the end of
/// the string.
pub assume_specification[ String::push ](s: &mut String, c: char)
    ensures
        final(s)@ == old(s)@.push(c),
;

/// The digit character for a value in 0..=9.
pub open spec fn spec_digit_char(d: int) -> char {
    if d == 0 {
        '0'
    } else if d == 1 {
        '1'
    } else if d == 2 {
        '2'
    } else if d == 3 {
        '3'
    } else if d == 4 {
        '4'
    } else if d == 5 {
        '5'
    } else if d == 6 {
        '6'
    } else if d == 7 {
        '7'
    } else if d == 8 {
        '8'
    } else {
        '9'
    }
}

/// The usual decimal rendering of a nonnegative integer, without leading
/// zeros (a lone zero for 0).
pub open spec fn spec_decimal(n: nat) -> Seq<char>
    decreases n,
{
    if n < 10 {
        seq![spec_digit_char(n as int)]
    } else {
        spec_decimal(n / 10) + seq![spec_digit_char((n % 10) as int)]
    }
}

/// The decimal rendering of a signed integer: a leading minus sign for
/// negative values.
pub open spec fn spec_decimal_signed(n: int) -> Seq<char> {
    if n >= 0 {
        spec_decimal(n as nat)
    } else {
        seq!['-'] + spec_decimal((-n) as nat)
    }
}

/// Zero-padding to two digits, for values in 0..=99.
pub open spec fn spec_pad2(n: nat) -> Seq<char> {
    if n < 10 {
        seq!['0'] + spec_decimal(n)
    } else {
        spec_decimal(n)
    }
}

/// Zero-padding to four digits, for values in 0..=9999.
pub open spec fn spec_pad4(n: nat) -> Seq<char> {
    if n < 10 {
        seq!['0', '0', '0'] + spec_decimal(n)
    } else if n < 100 {
        seq!['0', '0'] + spec_decimal(n)
    } else if n < 1000 {
        seq!['0'] + spec_decimal(n)
    } else {
        spec_decimal(n)
    }
}

fn digit_str(d: u64) -> (r: String)
    requires
        d < 10,
    ensures
        r@ == seq![spec_digit_char(d as int)],
{
    let r = match d {
        0 => String::from_str("0"),
        1 => String::from_str("1"),
        2 => String::from_str("2"),
        3 => String::from_str("3"),
        4 => String::from_str("4"),
        5 => String::from_str("5"),
        6 => String::from_str("6"),
        7 => String::from_str("7"),
        8 => String::from_str("8"),
        _ => String::from_str("9"),
    };
    proof {
        reveal_strlit("0");
        reveal_strlit("1");
        reveal_strlit("2");
        reveal_strlit("3");
        reveal_strlit("4");
        reveal_strlit("5");
        reveal_strlit("6");
        reveal_strlit("7");
        reveal_strlit("8");
        reveal_strlit("9");
        assert(r@ =~= seq![spec_digit_char(d as int)]);
    }
    r
}

/// Renders an unsigned value in decimal.
pub fn decimal_u64(n: u64) -> (r: String)
    ensures
        r@ == spec_decimal(n as nat),
    decreases n,
{
    if n < 10 {
        digit_str(n)
    } else {
        let mut s = decimal_u64(n / 10);
        let last = digit_str(n % 10);
        s.append(last.as_str());
        s
    }
}

/// Renders a signed value in decimal.
pub fn decimal_i64(n: i64) -> (r: String)
    ensures
        r@ == spec_decimal_signed(n as int),
{
    if n >= 0 {
        decimal_u64(n as u64)
    } else {
        let wide: i128 = n as i128;
        let magnitude: u64 = (-wide) as u64;
        let mut s = String::from_str("-");
        proof {
            reveal_strlit("-");
            assert(s@ =~= seq!['-']);
        }
        let digits = decimal_u64(magnitude);
        s.append(digits.as_str());
        s
    }
}

/// Renders a value in 0..=99 as exactly two digits.
pub fn pad2(n: u64) -> (r: String)
    requires
        n < 100,
    ensures
        r@ == spec_pad2(n as nat),
{
    if n < 10 {
        let mut s = String::from_str("0");
        proof {
            reveal_strlit("0");
            assert(s@ =~= seq!['0']);
        }
        let digits = decimal_u64(n);
        s.append(digits.as_str());
        s
    } else {
        decimal_u64(n)
    }
}

/// Renders a value in 0..=9999 as exactly four digits.
pub fn pad4(n: u64) -> (r: String)
    requires
        n < 10000,
    ensures
        r@ == spec_pad4(n as nat),
{
    if n < 1000 {
        let mut s = String::from_str("0");
        proof {
            reveal_strlit("0");
            assert(s@ =~= seq!['0']);
        }
        let rest = pad4_tail(n);
        s.append(rest.as_str());
        proof {
            assert(s@ =~= spec_pad4(n as nat));
        }
        s
    } else {
        decimal_u64(n)
    }
}

fn pad4_tail(n: u64) -> (r: String)
    requires
        n < 1000,
    ensures
        r@ == if n < 10 {
            seq!['0', '0'] + spec_decimal(n as nat)
        } else if n < 100 {
            seq!['0'] + spec_decimal(n as nat)
        } else {
            spec_decimal(n as nat)
        },
{
    if n < 100 {
        let mut s = String::from_str("0");
        proof {
            reveal_strlit("0");
            assert(s@ =~= seq!['0']);
        }
        let rest = pad2(n);
        s.append(rest.as_str());
        proof {
            assert(s@ =~= if n < 10 {
                seq!['0', '0'] + spec_decimal(n as nat)
            } else {
                seq!['0'] + spec_decimal(n as nat)
            });
        }
        s
    } else {
        decimal_u64(n)
    }
}

/// The date part of the ISO-8601 rendering: `YYYY-MM-DD`.
pub open spec fn spec_date_string(d: Date) -> Seq<char> {
    spec_pad4(d.year as nat) + seq!['-'] + spec_pad2(d.month as nat) + seq!['-'] + spec_pad2(
        d.day as nat,
    )
}

/// The `+HH:MM` / `-HH:MM` rendering of a UTC offset given in seconds.
/// Seconds below a whole minute are dropped.
pub open spec fn spec_offset_string(offset_seconds: int) -> Seq<char>
    recommends
        -86400 < offset_seconds < 86400,
{
    let sign = if offset_seconds < 0 {
        seq!['-']
    } else {
        seq!['+']
    };
    let magnitude = if offset_seconds < 0 {
        -offset_seconds
    } else {
        offset_seconds
    };
    sign + spec_pad2((magnitude / 3600) as nat) + seq![':'] + spec_pad2(
        ((magnitude % 3600) / 60) as nat,
    )
}

/// The full ISO-8601 rendering of local midnight on a date, in a time zone
/// with the given UTC offset: `YYYY-MM-DDT00:00:00+HH:MM`.
pub open spec fn spec_iso_midnight(d: Date, offset_seconds: int) -> Seq<char> {
    spec_date_string(d) + "T00:00:00"@ + spec_offset_string(offset_seconds)
}

pub proof fn lemma_decimal_len(n: nat)
    ensures
        n < 10 ==> spec_decimal(n).len() == 1,
        10 <= n < 100 ==> spec_decimal(n).len() == 2,
        100 <= n < 1000 ==> spec_decimal(n).len() == 3,
        1000 <= n < 10000 ==> spec_decimal(n).len() == 4,
    decreases n,
{
    if n >= 10 {
        lemma_decimal_len(n / 10);
    }
}

pub proof fn lemma_pad2_len(n: nat)
    requires
        n < 100,
    ensures
        spec_pad2(n).len() == 2,
{
    lemma_decimal_len(n);
}

pub proof fn lemma_pad4_len(n: nat)
    requires
        n < 10000,
    ensures
        spec_pad4(n).len() == 4,
{
    lemma_decimal_len(n);
}

/// For every valid date and offset, the rendered expiry is twenty-five
/// characters, its date component is the date itself, and local midnight
/// stands between date and offset.
pub proof fn lemma_iso_midnight_components(d: Date, o: int)
    requires
        d.valid(),
        -86400 < o < 86400,
    ensures
        spec_iso_midnight(d, o).len() == 25,
        spec_iso_midnight(d, o).take(10) == spec_date_string(d),
        spec_iso_midnight(d, o).skip(10).take(9) == "T00:00:00"@,
{
    lemma_pad4_len(d.year as nat);
    lemma_pad2_len(d.month as nat);
    lemma_pad2_len(d.day as nat);
    let magnitude = if o < 0 {
        -o
    } else {
        o
    };
    lemma_pad2_len((magnitude / 3600) as nat);
    lemma_pad2_len(((magnitude % 3600) / 60) as nat);
    reveal_strlit("T00:00:00");
    assert(spec_date_string(d).len() == 10);
    assert(spec_offset_string(o).len() == 6);
    assert(spec_iso_midnight(d, o).take(10) =~= spec_date_string(d));
    assert(spec_iso_midnight(d, o).skip(10).take(9) =~= "T00:00:00"@);
}

/// Renders the date part `YYYY-MM-DD`.
pub fn date_string(d: &Date) -> (r: String)
    requires
        d.valid(),
    ensures
        r@ == spec_date_string(*d),
{
    let mut s = pad4(d.year as u64);
    let dash = String::from_str("-");
    proof {
        reveal_strlit("-");
        assert(dash@ =~= seq!['-']);
    }
    s.append(dash.as_str());
    let month = pad2(d.month as u64);
    s.append(month.as_str());
    s.append(dash.as_str());
    let day = pad2(d.day as u64);
    s.append(day.as_str());
    proof {
        assert(s@ =~= spec_date_string(*d));
    }
    s
}

/// Renders a UTC offset in seconds as `+HH:MM` / `-HH:MM`.
pub fn offset_string(offset_seconds: i32) -> (r: String)
    requires
        -86400 < offset_seconds < 86400,
    ensures
        r@ == spec_offset_string(offset_seconds as int),
{
    let mut s = if offset_seconds < 0 {
        String::from_str("-")
    } else {
        String::from_str("+")
    };
    proof {
        reveal_strlit("-");
        reveal_strlit("+");
        assert(s@ =~= if offset_seconds < 0 { seq!['-'] } else { seq!['+'] });
    }
    let magnitude: u64 = if offset_seconds < 0 {
        (-(offset_seconds as i64)) as u64
    } else {
        offset_seconds as u64
    };
    let hours = pad2(magnitude / 3600);
    s.append(hours.as_str());
    let colon = String::from_str(":");
    proof {
        reveal_strlit(":");
        assert(colon@ =~= seq![':']);
    }
    s.append(colon.as_str());
    let minutes = pad2((magnitude % 3600) / 60);
    s.append(minutes.as_str());
    proof {
        assert(s@ =~= spec_offset_string(offset_seconds as int));
    }
    s
}

/// Renders local midnight on a date at the given UTC offset, ISO-8601.
pub fn iso_midnight(d: &Date, offset_seconds: i32) -> (r: String)
    requires
        d.valid(),
        -86400 < offset_seconds < 86400,
    ensures
        r@ == spec_iso_midnight(*d, offset_seconds as int),
{
    let mut s = date_string(d);
    s.append("T00:00:00");
    let off = offset_string(offset_seconds);
    s.append(off.as_str());
    s
}

} // verus!
