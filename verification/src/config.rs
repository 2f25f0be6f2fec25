//! Parsing the process configuration's port value.
//!
//! Configuration is read from the environment outside the library; the
//! port string's interpretation is the part with meaning, so it is defined
//! and proved here.

use vstd::prelude::*;

verus! {

/// The digit value of a character: 0..=9 for the ten digits, -1 for
/// anything else.
pub open spec fn spec_digit_val(c: char) -> int {
    if c == '0' {
        0
    } else if c == '1' {
        1
    } else if c == '2' {
        2
    } else if c == '3' {
        3
    } else if c == '4' {
        4
    } else if c == '5' {
        5
    } else if c == '6' {
        6
    } else if c == '7' {
        7
    } else if c == '8' {
        8
    } else if c == '9' {
        9
    } else {
        -1
    }
}

pub open spec fn spec_all_digits(s: Seq<char>) -> bool {
    forall|i: int| 0 <= i < s.len() ==> spec_digit_val(s[i]) >= 0
}

/// The value of a digit string read in base ten.
pub open spec fn spec_decimal_value(s: Seq<char>) -> int
    decreases s.len(),
{
    if s.len() == 0 {
        0
    } else {
        spec_decimal_value(s.drop_last()) * 10 + spec_digit_val(s.last())
    }
}

proof fn lemma_decimal_value_nonneg(s: Seq<char>)
    requires
        spec_all_digits(s),
    ensures
        spec_decimal_value(s) >= 0,
    decreases s.len(),
{
    if s.len() > 0 {
        assert(spec_all_digits(s.drop_last()));
        lemma_decimal_value_nonneg(s.drop_last());
    }
}

proof fn lemma_decimal_value_prefix_le(s: Seq<char>, j: int)
    requires
        spec_all_digits(s),
        0 <= j <= s.len(),
    ensures
        spec_decimal_value(s.take(j)) <= spec_decimal_value(s),
    decreases s.len() - j,
{
    if j == s.len() {
        assert(s.take(j) =~= s);
    } else {
        assert(s.take(j + 1).drop_last() =~= s.take(j));
        assert(s.take(j + 1).last() == s[j]);
        assert(spec_all_digits(s.take(j)));
        lemma_decimal_value_nonneg(s.take(j));
        lemma_decimal_value_prefix_le(s, j + 1);
    }
}

fn digit_value(c: char) -> (r: Option<u32>)
    ensures
        r is Some <==> spec_digit_val(c) >= 0,
        r is Some ==> r.unwrap() == spec_digit_val(c),
{
    match c {
        '0' => Some(0),
        '1' => Some(1),
        '2' => Some(2),
        '3' => Some(3),
        '4' => Some(4),
        '5' => Some(5),
        '6' => Some(6),
        '7' => Some(7),
        '8' => Some(8),
        '9' => Some(9),
        _ => None,
    }
}

/// Reads a TCP port from a decimal string: defined exactly for the
/// nonempty all-digit strings whose value fits a port number, and yields
/// that value.
pub fn parse_port(s: &str) -> (r: Option<u16>)
    ensures
        r is Some <==> (s@.len() > 0 && spec_all_digits(s@) && spec_decimal_value(s@) <= 65535),
        r is Some ==> r.unwrap() as int == spec_decimal_value(s@),
{
    let n = s.unicode_len();
    if n == 0 {
        return None;
    }
    let mut acc: u32 = 0;
    let mut i: usize = 0;
    while i < n
        invariant
            n == s@.len(),
            0 < n,
            i <= n,
            spec_all_digits(s@.take(i as int)),
            acc as int == spec_decimal_value(s@.take(i as int)),
            acc <= 65535,
        decreases n - i,
    {
        let c = s.get_char(i);
        proof {
            assert(s@.take(i + 1).drop_last() =~= s@.take(i as int));
            assert(s@.take(i + 1).last() == s@[i as int]);
        }
        match digit_value(c) {
            Some(dv) => {
                let next = acc * 10 + dv;
                proof {
                    assert(spec_all_digits(s@.take(i + 1)));
                    assert(next as int == spec_decimal_value(s@.take(i + 1)));
                }
                if next > 65535 {
                    proof {
                        if spec_all_digits(s@) {
                            lemma_decimal_value_prefix_le(s@, i + 1);
                        }
                    }
                    return None;
                }
                acc = next;
            },
            None => {
                assert(spec_digit_val(s@[i as int]) < 0);
                return None;
            },
        }
        i = i + 1;
    }
    proof {
        assert(s@.take(n as int) =~= s@);
    }
    Some(acc as u16)
}

} // verus!
