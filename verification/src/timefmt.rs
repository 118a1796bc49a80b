//! Rendering instants as the time labels the upstream services expect:
//! second precision (`YYYY-MM-DDTHH:MM:SSZ`) for the consumption queries,
//! and minute precision with the seconds truncated (`YYYY-MM-DDTHH:MMZ`)
//! for the intensity queries, which reject anything finer.

use vstd::prelude::*;
use vstd::string::{StrSliceExecFns, StringExecFns};
use vstd::arithmetic::div_mod::{
    lemma_div_denominator, lemma_div_is_ordered, lemma_div_pos_is_pos, lemma_fundamental_div_mod,
    lemma_fundamental_div_mod_converse, lemma_mod_bound,
};
use crate::calendar::{days_in_month, days_in_month_of, valid_instant, Instant};
use crate::cli::{digit_value, is_digit};

verus! {

/// The decimal digit character for `d`.
pub open spec fn digit_char(d: int) -> char {
    if d == 0 {
        '0'
    } else if d == 1 {
        '1'
    } else if d == 2 {
        '2'
    } else if d == 3 {
        '3'
    } else if d == 4 {
        '4'
    } else if d == 5 {
        '5'
    } else if d == 6 {
        '6'
    } else if d == 7 {
        '7'
    } else if d == 8 {
        '8'
    } else {
        '9'
    }
}

/// `n` as two zero-padded decimal digits.
pub open spec fn two_digits(n: int) -> Seq<char> {
    seq![digit_char(n / 10), digit_char(n % 10)]
}

/// `n` as four zero-padded decimal digits.
pub open spec fn four_digits(n: int) -> Seq<char> {
    seq![
        digit_char(n / 1000),
        digit_char(n / 100 % 10),
        digit_char(n / 10 % 10),
        digit_char(n % 10),
    ]
}

/// The second-precision label of `t`.
pub open spec fn second_precision_label(t: Instant) -> Seq<char> {
    four_digits(t.year as int) + seq!['-'] + two_digits(t.month as int) + seq!['-'] + two_digits(
        t.day as int,
    ) + seq!['T'] + two_digits(t.hour as int) + seq![':'] + two_digits(t.minute as int) + seq![':']
        + two_digits(t.second as int) + seq!['Z']
}

/// The minute-precision label of `t`: the seconds are truncated, not
/// rounded.
pub open spec fn minute_precision_label(t: Instant) -> Seq<char> {
    four_digits(t.year as int) + seq!['-'] + two_digits(t.month as int) + seq!['-'] + two_digits(
        t.day as int,
    ) + seq!['T'] + two_digits(t.hour as int) + seq![':'] + two_digits(t.minute as int)
        + seq!['Z']
}

fn digit_str(d: u8) -> (r: &'static str)
    requires
        d < 10,
    ensures
        r@ == seq![digit_char(d as int)],
{
    proof {
        reveal_strlit("0");
        reveal_strlit("1");
        reveal_strlit("2");
        reveal_strlit("3");
        reveal_strlit("4");
        reveal_strlit("5");
        reveal_strlit("6");
        reveal_strlit("7");
        reveal_strlit("8");
        reveal_strlit("9");
        assert("0"@ =~= seq!['0']);
        assert("1"@ =~= seq!['1']);
        assert("2"@ =~= seq!['2']);
        assert("3"@ =~= seq!['3']);
        assert("4"@ =~= seq!['4']);
        assert("5"@ =~= seq!['5']);
        assert("6"@ =~= seq!['6']);
        assert("7"@ =~= seq!['7']);
        assert("8"@ =~= seq!['8']);
        assert("9"@ =~= seq!['9']);
    }
    match d {
        0 => "0",
        1 => "1",
        2 => "2",
        3 => "3",
        4 => "4",
        5 => "5",
        6 => "6",
        7 => "7",
        8 => "8",
        _ => "9",
    }
}

fn push_two_digits(s: &mut String, n: u8)
    requires
        n < 100,
    ensures
        final(s)@ == old(s)@ + two_digits(n as int),
{
    s.append(digit_str(n / 10));
    s.append(digit_str(n % 10));
    proof {
        assert(s@ =~= old(s)@ + two_digits(n as int));
    }
}

fn push_four_digits(s: &mut String, n: i32)
    requires
        0 <= n <= 9999,
    ensures
        final(s)@ == old(s)@ + four_digits(n as int),
{
    s.append(digit_str((n / 1000) as u8));
    s.append(digit_str((n / 100 % 10) as u8));
    s.append(digit_str((n / 10 % 10) as u8));
    s.append(digit_str((n % 10) as u8));
    proof {
        assert(s@ =~= old(s)@ + four_digits(n as int));
    }
}

/// Renders `t` at second precision, `YYYY-MM-DDTHH:MM:SSZ`.
pub fn format_second_precision(t: &Instant) -> (r: String)
    requires
        valid_instant(*t),
    ensures
        r@ == second_precision_label(*t),
{
    proof {
        reveal_strlit("-");
        reveal_strlit("T");
        reveal_strlit(":");
        reveal_strlit("Z");
        assert("-"@ =~= seq!['-']);
        assert("T"@ =~= seq!['T']);
        assert(":"@ =~= seq![':']);
        assert("Z"@ =~= seq!['Z']);
    }
    let mut s = String::new();
    push_four_digits(&mut s, t.year);
    s.append("-");
    push_two_digits(&mut s, t.month);
    s.append("-");
    push_two_digits(&mut s, t.day);
    s.append("T");
    push_two_digits(&mut s, t.hour);
    s.append(":");
    push_two_digits(&mut s, t.minute);
    s.append(":");
    push_two_digits(&mut s, t.second);
    s.append("Z");
    proof {
        assert(s@ =~= second_precision_label(*t));
    }
    s
}

/// Renders `t` at minute precision, `YYYY-MM-DDTHH:MMZ`, truncating the
/// seconds exactly as the intensity service demands.
pub fn format_minute_precision(t: &Instant) -> (r: String)
    requires
        valid_instant(*t),
    ensures
        r@ == minute_precision_label(*t),
{
    proof {
        reveal_strlit("-");
        reveal_strlit("T");
        reveal_strlit(":");
        reveal_strlit("Z");
        assert("-"@ =~= seq!['-']);
        assert("T"@ =~= seq!['T']);
        assert(":"@ =~= seq![':']);
        assert("Z"@ =~= seq!['Z']);
    }
    let mut s = String::new();
    push_four_digits(&mut s, t.year);
    s.append("-");
    push_two_digits(&mut s, t.month);
    s.append("-");
    push_two_digits(&mut s, t.day);
    s.append("T");
    push_two_digits(&mut s, t.hour);
    s.append(":");
    push_two_digits(&mut s, t.minute);
    s.append("Z");
    proof {
        assert(s@ =~= minute_precision_label(*t));
    }
    s
}

/// The separator characters stand at their fixed label positions.
pub open spec fn label_separators_ok(s: Seq<char>) -> bool {
    &&& s[4] == '-'
    &&& s[7] == '-'
    &&& s[10] == 'T'
    &&& s[13] == ':'
    &&& s[16] == ':'
    &&& s[19] == 'Z'
}

/// Every field position of the label holds a decimal digit.
pub open spec fn label_digits_ok(s: Seq<char>) -> bool {
    &&& is_digit(s[0])
    &&& is_digit(s[1])
    &&& is_digit(s[2])
    &&& is_digit(s[3])
    &&& is_digit(s[5])
    &&& is_digit(s[6])
    &&& is_digit(s[8])
    &&& is_digit(s[9])
    &&& is_digit(s[11])
    &&& is_digit(s[12])
    &&& is_digit(s[14])
    &&& is_digit(s[15])
    &&& is_digit(s[17])
    &&& is_digit(s[18])
}

/// The four-digit year a label starts with.
pub open spec fn label_year(s: Seq<char>) -> int {
    1000 * digit_value(s[0]) + 100 * digit_value(s[1]) + 10 * digit_value(s[2]) + digit_value(s[3])
}

/// The two-digit field at positions `i`, `i + 1`.
pub open spec fn label_pair(s: Seq<char>, i: int) -> int {
    10 * digit_value(s[i]) + digit_value(s[i + 1])
}

/// The instant a second-precision label denotes: twenty characters, the
/// separators in place, decimal digits in every field, and field values
/// that name a real time of a real calendar day.
pub open spec fn parsed_second_precision(s: Seq<char>) -> Option<Instant> {
    if s.len() == 20 && label_separators_ok(s) && label_digits_ok(s) {
        let year = label_year(s);
        let month = label_pair(s, 5);
        let day = label_pair(s, 8);
        let hour = label_pair(s, 11);
        let minute = label_pair(s, 14);
        let second = label_pair(s, 17);
        if 1 <= month <= 12 && 1 <= day <= days_in_month(year, month) && hour <= 23 && minute
            <= 59 && second <= 59 {
            Some(
                Instant {
                    year: year as i32,
                    month: month as u8,
                    day: day as u8,
                    hour: hour as u8,
                    minute: minute as u8,
                    second: second as u8,
                    nanosecond: 0,
                },
            )
        } else {
            None
        }
    } else {
        None
    }
}

fn digit_at(s: &str, i: usize) -> (r: Option<u8>)
    requires
        i < s@.len(),
    ensures
        r is Some <==> is_digit(s@[i as int]),
        r is Some ==> r->Some_0 < 10 && r->Some_0 as int == digit_value(s@[i as int]),
{
    let c = s.get_char(i);
    if c >= '0' && c <= '9' {
        Some(((c as u32) - 48) as u8)
    } else {
        None
    }
}

/// Parses a second-precision label, `YYYY-MM-DDTHH:MM:SSZ`, back into the
/// instant it denotes; `None` for anything else.
pub fn parse_second_precision(s: &str) -> (r: Option<Instant>)
    ensures
        r == parsed_second_precision(s@),
{
    if s.unicode_len() != 20 {
        return None;
    }
    if !(s.get_char(4) == '-' && s.get_char(7) == '-' && s.get_char(10) == 'T' && s.get_char(13)
        == ':' && s.get_char(16) == ':' && s.get_char(19) == 'Z') {
        return None;
    }
    let d0 = match digit_at(s, 0) {
        Some(v) => v,
        None => {
            return None;
        },
    };
    let d1 = match digit_at(s, 1) {
        Some(v) => v,
        None => {
            return None;
        },
    };
    let d2 = match digit_at(s, 2) {
        Some(v) => v,
        None => {
            return None;
        },
    };
    let d3 = match digit_at(s, 3) {
        Some(v) => v,
        None => {
            return None;
        },
    };
    let d5 = match digit_at(s, 5) {
        Some(v) => v,
        None => {
            return None;
        },
    };
    let d6 = match digit_at(s, 6) {
        Some(v) => v,
        None => {
            return None;
        },
    };
    let d8 = match digit_at(s, 8) {
        Some(v) => v,
        None => {
            return None;
        },
    };
    let d9 = match digit_at(s, 9) {
        Some(v) => v,
        None => {
            return None;
        },
    };
    let d11 = match digit_at(s, 11) {
        Some(v) => v,
        None => {
            return None;
        },
    };
    let d12 = match digit_at(s, 12) {
        Some(v) => v,
        None => {
            return None;
        },
    };
    let d14 = match digit_at(s, 14) {
        Some(v) => v,
        None => {
            return None;
        },
    };
    let d15 = match digit_at(s, 15) {
        Some(v) => v,
        None => {
            return None;
        },
    };
    let d17 = match digit_at(s, 17) {
        Some(v) => v,
        None => {
            return None;
        },
    };
    let d18 = match digit_at(s, 18) {
        Some(v) => v,
        None => {
            return None;
        },
    };
    let year: u32 = 1000 * d0 as u32 + 100 * d1 as u32 + 10 * d2 as u32 + d3 as u32;
    let month: u8 = 10 * d5 + d6;
    let day: u8 = 10 * d8 + d9;
    let hour: u8 = 10 * d11 + d12;
    let minute: u8 = 10 * d14 + d15;
    let second: u8 = 10 * d17 + d18;
    if !(1 <= month && month <= 12) {
        return None;
    }
    if !(1 <= day && day <= days_in_month_of(year as i32, month)) {
        return None;
    }
    if !(hour <= 23 && minute <= 59 && second <= 59) {
        return None;
    }
    Some(
        Instant {
            year: year as i32,
            month,
            day,
            hour,
            minute,
            second,
            nanosecond: 0,
        },
    )
}

proof fn lemma_digit_char_value(d: int)
    requires
        0 <= d <= 9,
    ensures
        is_digit(digit_char(d)),
        digit_value(digit_char(d)) == d,
{
}

proof fn lemma_digit_char_inverse(c: char)
    requires
        is_digit(c),
    ensures
        0 <= digit_value(c) <= 9,
        digit_char(digit_value(c)) == c,
{
}

proof fn lemma_two_digit_split(n: int)
    requires
        0 <= n <= 99,
    ensures
        0 <= n / 10 <= 9,
        0 <= n % 10 <= 9,
        10 * (n / 10) + n % 10 == n,
{
    lemma_fundamental_div_mod(n, 10);
    lemma_mod_bound(n, 10);
    lemma_div_is_ordered(n, 99, 10);
    lemma_div_pos_is_pos(n, 10);
}

proof fn lemma_four_digit_split(n: int)
    requires
        0 <= n <= 9999,
    ensures
        0 <= n / 1000 <= 9,
        0 <= n / 100 % 10 <= 9,
        0 <= n / 10 % 10 <= 9,
        0 <= n % 10 <= 9,
        1000 * (n / 1000) + 100 * (n / 100 % 10) + 10 * (n / 10 % 10) + n % 10 == n,
{
    let a = n / 10;
    lemma_fundamental_div_mod(n, 10);
    lemma_mod_bound(n, 10);
    lemma_div_pos_is_pos(n, 10);
    lemma_fundamental_div_mod(a, 10);
    lemma_mod_bound(a, 10);
    lemma_div_pos_is_pos(a, 10);
    lemma_div_denominator(n, 10, 10);
    let b = a / 10;
    lemma_fundamental_div_mod(b, 10);
    lemma_mod_bound(b, 10);
    lemma_div_pos_is_pos(b, 10);
    lemma_div_denominator(n, 100, 10);
    lemma_div_is_ordered(n, 9999, 1000);
    lemma_div_pos_is_pos(n, 1000);
}

/// Parsing the rendered second-precision label of an instant gives that
/// instant back: rendering loses nothing but the sub-second part.
pub proof fn lemma_second_precision_round_trip(t: Instant)
    requires
        valid_instant(t),
        t.nanosecond == 0,
    ensures
        parsed_second_precision(second_precision_label(t)) == Some(t),
{
    let s = second_precision_label(t);
    lemma_four_digit_split(t.year as int);
    lemma_two_digit_split(t.month as int);
    lemma_two_digit_split(t.day as int);
    lemma_two_digit_split(t.hour as int);
    lemma_two_digit_split(t.minute as int);
    lemma_two_digit_split(t.second as int);
    lemma_digit_char_value(t.year as int / 1000);
    lemma_digit_char_value(t.year as int / 100 % 10);
    lemma_digit_char_value(t.year as int / 10 % 10);
    lemma_digit_char_value(t.year as int % 10);
    lemma_digit_char_value(t.month as int / 10);
    lemma_digit_char_value(t.month as int % 10);
    lemma_digit_char_value(t.day as int / 10);
    lemma_digit_char_value(t.day as int % 10);
    lemma_digit_char_value(t.hour as int / 10);
    lemma_digit_char_value(t.hour as int % 10);
    lemma_digit_char_value(t.minute as int / 10);
    lemma_digit_char_value(t.minute as int % 10);
    lemma_digit_char_value(t.second as int / 10);
    lemma_digit_char_value(t.second as int % 10);
    assert(s.len() == 20);
    assert(s[0] == digit_char(t.year as int / 1000));
    assert(s[1] == digit_char(t.year as int / 100 % 10));
    assert(s[2] == digit_char(t.year as int / 10 % 10));
    assert(s[3] == digit_char(t.year as int % 10));
    assert(s[4] == '-');
    assert(s[5] == digit_char(t.month as int / 10));
    assert(s[6] == digit_char(t.month as int % 10));
    assert(s[7] == '-');
    assert(s[8] == digit_char(t.day as int / 10));
    assert(s[9] == digit_char(t.day as int % 10));
    assert(s[10] == 'T');
    assert(s[11] == digit_char(t.hour as int / 10));
    assert(s[12] == digit_char(t.hour as int % 10));
    assert(s[13] == ':');
    assert(s[14] == digit_char(t.minute as int / 10));
    assert(s[15] == digit_char(t.minute as int % 10));
    assert(s[16] == ':');
    assert(s[17] == digit_char(t.second as int / 10));
    assert(s[18] == digit_char(t.second as int % 10));
    assert(s[19] == 'Z');
    assert(label_year(s) == t.year as int);
    assert(label_pair(s, 5) == t.month as int);
    assert(label_pair(s, 8) == t.day as int);
    assert(label_pair(s, 11) == t.hour as int);
    assert(label_pair(s, 14) == t.minute as int);
    assert(label_pair(s, 17) == t.second as int);
}

/// A string that parses as a second-precision label denotes a valid
/// instant and renders back to exactly that string: the label grammar has
/// one reading.
pub proof fn lemma_parse_second_precision_sound(s: Seq<char>)
    requires
        parsed_second_precision(s) is Some,
    ensures
        valid_instant(parsed_second_precision(s)->Some_0),
        second_precision_label(parsed_second_precision(s)->Some_0) == s,
{
    let t = parsed_second_precision(s)->Some_0;
    let year = label_year(s);
    let month = label_pair(s, 5);
    let day = label_pair(s, 8);
    let hour = label_pair(s, 11);
    let minute = label_pair(s, 14);
    let second = label_pair(s, 17);
    lemma_digit_char_inverse(s[0]);
    lemma_digit_char_inverse(s[1]);
    lemma_digit_char_inverse(s[2]);
    lemma_digit_char_inverse(s[3]);
    lemma_digit_char_inverse(s[5]);
    lemma_digit_char_inverse(s[6]);
    lemma_digit_char_inverse(s[8]);
    lemma_digit_char_inverse(s[9]);
    lemma_digit_char_inverse(s[11]);
    lemma_digit_char_inverse(s[12]);
    lemma_digit_char_inverse(s[14]);
    lemma_digit_char_inverse(s[15]);
    lemma_digit_char_inverse(s[17]);
    lemma_digit_char_inverse(s[18]);
    lemma_fundamental_div_mod_converse(
        year,
        1000,
        digit_value(s[0]),
        100 * digit_value(s[1]) + 10 * digit_value(s[2]) + digit_value(s[3]),
    );
    lemma_fundamental_div_mod_converse(
        year,
        100,
        10 * digit_value(s[0]) + digit_value(s[1]),
        10 * digit_value(s[2]) + digit_value(s[3]),
    );
    lemma_fundamental_div_mod_converse(
        year / 100,
        10,
        digit_value(s[0]),
        digit_value(s[1]),
    );
    lemma_fundamental_div_mod_converse(
        year,
        10,
        100 * digit_value(s[0]) + 10 * digit_value(s[1]) + digit_value(s[2]),
        digit_value(s[3]),
    );
    lemma_fundamental_div_mod_converse(
        year / 10,
        10,
        10 * digit_value(s[0]) + digit_value(s[1]),
        digit_value(s[2]),
    );
    lemma_fundamental_div_mod_converse(month, 10, digit_value(s[5]), digit_value(s[6]));
    lemma_fundamental_div_mod_converse(day, 10, digit_value(s[8]), digit_value(s[9]));
    lemma_fundamental_div_mod_converse(hour, 10, digit_value(s[11]), digit_value(s[12]));
    lemma_fundamental_div_mod_converse(minute, 10, digit_value(s[14]), digit_value(s[15]));
    lemma_fundamental_div_mod_converse(second, 10, digit_value(s[17]), digit_value(s[18]));
    assert(second_precision_label(t) =~= s);
}

} // verus!
