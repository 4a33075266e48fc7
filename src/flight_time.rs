//! Flight durations as entered and shown on the form: "HH:mm", held as whole seconds.

use vstd::prelude::*;

verus! {

/// Why a duration text was refused.
#[derive(Clone, Copy, Debug, PartialEq, Eq, Structural)]
pub enum TimeParseError {
    /// The text does not hold exactly one ':'.
    WrongFormat,
    /// The hours or the minutes are not an unsigned 64-bit number.
    InvalidNumber,
    /// The duration in seconds does not fit in 64 bits.
    Overflow,
}

pub open spec fn is_digit(c: char) -> bool {
    '0' <= c <= '9'
}

pub open spec fn digit_value(c: char) -> int {
    c as int - '0' as int
}

pub open spec fn digit_char(d: int) -> char {
    if d == 0 {
        '0'
    } else if d == 1 {
        '1'
    } else if d == 2 {
        '2'
    } else if d == 3 {
        '3'
    } else if d == 4 {
        '4'
    } else if d == 5 {
        '5'
    } else if d == 6 {
        '6'
    } else if d == 7 {
        '7'
    } else if d == 8 {
        '8'
    } else {
        '9'
    }
}

/// The number that a run of decimal digits spells.
pub open spec fn decimal_value(s: Seq<char>) -> int
    decreases s.len(),
{
    if s.len() == 0 {
        0
    } else {
        decimal_value(s.drop_last()) * 10 + digit_value(s.last())
    }
}

pub open spec fn all_digits(s: Seq<char>) -> bool {
    forall|i: int| 0 <= i < s.len() ==> is_digit(#[trigger] s[i])
}

/// The digits of an unsigned number's text: without its one optional leading '+'.
pub open spec fn unsigned_digits(s: Seq<char>) -> Seq<char> {
    if s.len() > 0 && s[0] == '+' {
        s.drop_first()
    } else {
        s
    }
}

/// The unsigned 64-bit number that a text spells: an optional '+' and then one
/// decimal digit or more, of a value that fits.
pub open spec fn parse_unsigned(s: Seq<char>) -> Option<u64> {
    let d = unsigned_digits(s);
    if d.len() > 0 && all_digits(d) && decimal_value(d) <= u64::MAX {
        Some(decimal_value(d) as u64)
    } else {
        None
    }
}

/// Number of ':' in `s` from index `i` on.
pub open spec fn colons_from(s: Seq<char>, i: int) -> int
    decreases s.len() - i,
{
    if i < 0 || i >= s.len() {
        0
    } else {
        (if s[i] == ':' {
            1int
        } else {
            0int
        }) + colons_from(s, i + 1)
    }
}

/// Index of the first ':' in `s` from index `i` on, or the length where there is none.
pub open spec fn colon_from(s: Seq<char>, i: int) -> int
    decreases s.len() - i,
{
    if i < 0 || i >= s.len() {
        s.len() as int
    } else if s[i] == ':' {
        i
    } else {
        colon_from(s, i + 1)
    }
}

/// The duration in seconds that an "HH:mm" text gives.
pub open spec fn duration_of_text(s: Seq<char>) -> Result<u64, TimeParseError> {
    if colons_from(s, 0) != 1 {
        Err(TimeParseError::WrongFormat)
    } else {
        let c = colon_from(s, 0);
        match (parse_unsigned(s.subrange(0, c)), parse_unsigned(s.subrange(c + 1, s.len() as int))) {
            (Some(h), Some(m)) => if h * 3600 + m * 60 <= u64::MAX {
                Ok((h * 3600 + m * 60) as u64)
            } else {
                Err(TimeParseError::Overflow)
            },
            _ => Err(TimeParseError::InvalidNumber),
        }
    }
}

proof fn lemma_decimal_value_grows(s: Seq<char>, i: int, j: int)
    requires
        0 <= i <= j <= s.len(),
        all_digits(s),
    ensures
        decimal_value(s.subrange(0, i)) <= decimal_value(s.subrange(0, j)),
        0 <= decimal_value(s.subrange(0, i)),
    decreases j - i,
{
    if i < j {
        lemma_decimal_value_grows(s, i, j - 1);
        assert(s.subrange(0, j).drop_last() =~= s.subrange(0, j - 1));
        assert(is_digit(s[j - 1]));
    }
    else {
        lemma_decimal_value_nonnegative(s.subrange(0, i));
    }
}

proof fn lemma_decimal_value_nonnegative(s: Seq<char>)
    requires
        all_digits(s),
    ensures
        0 <= decimal_value(s),
    decreases s.len(),
{
    if s.len() > 0 {
        assert(all_digits(s.drop_last()));
        assert(is_digit(s[s.len() - 1]));
        lemma_decimal_value_nonnegative(s.drop_last());
    }
}

proof fn lemma_digit_step(digits: Seq<char>, k: int)
    requires
        0 <= k < digits.len(),
        all_digits(digits.subrange(0, k)),
        is_digit(digits[k]),
    ensures
        all_digits(digits.subrange(0, k + 1)),
        decimal_value(digits.subrange(0, k + 1)) == decimal_value(digits.subrange(0, k)) * 10
            + digit_value(digits[k]),
        0 <= decimal_value(digits.subrange(0, k)),
{
    let next = digits.subrange(0, k + 1);
    assert(next.drop_last() =~= digits.subrange(0, k));
    assert forall|j: int| 0 <= j < k + 1 implies is_digit(#[trigger] next[j]) by {
        if j < k {
            assert(next[j] == digits.subrange(0, k)[j]);
        }
    }
    lemma_decimal_value_nonnegative(digits.subrange(0, k));
}

/// Reads the unsigned number spelled by the characters `from .. to` of `text`.
fn parse_unsigned_in(text: &str, from: usize, to: usize) -> (r: Option<u64>)
    requires
        from <= to <= text@.len(),
    ensures
        r == parse_unsigned(text@.subrange(from as int, to as int)),
{
    let ghost whole = text@.subrange(from as int, to as int);
    let mut start = from;
    if from < to && text.get_char(from) == '+' {
        start = from + 1;
    }
    let ghost digits = text@.subrange(start as int, to as int);
    assert(digits =~= unsigned_digits(whole));
    if start == to {
        return None;
    }
    let mut value: u64 = 0;
    let mut fits = true;
    let mut i = start;
    assert(digits.subrange(0, 0) =~= Seq::<char>::empty());
    while i < to
        invariant
            from <= start <= i <= to <= text@.len(),
            digits == text@.subrange(start as int, to as int),
            digits == unsigned_digits(whole),
            whole == text@.subrange(from as int, to as int),
            all_digits(digits.subrange(0, i - start)),
            fits ==> value == decimal_value(digits.subrange(0, i - start)),
            !fits ==> decimal_value(digits.subrange(0, i - start)) > u64::MAX,
        decreases to - i,
    {
        let c = text.get_char(i);
        if !('0' <= c && c <= '9') {
            assert(digits[i - start] == c);
            assert(!all_digits(digits));
            return None;
        }
        proof {
            lemma_digit_step(digits, i - start);
        }
        if fits {
            let d = (c as u32 - '0' as u32) as u64;
            if value <= (u64::MAX - d) / 10 {
                value = value * 10 + d;
            } else {
                fits = false;
            }
        }
        i = i + 1;
    }
    assert(digits.subrange(0, (to - start) as int) =~= digits);
    assert(all_digits(digits));
    if fits {
        Some(value)
    } else {
        None
    }
}

/// Reads an "HH:mm" duration as whole seconds: hours and minutes are unsigned
/// numbers of any size on either side of the one ':'.
pub fn parse_time_to_duration(time_str: &str) -> (r: Result<u64, TimeParseError>)
    ensures
        r == duration_of_text(time_str@),
{
    let n = time_str.unicode_len();
    let mut colons: usize = 0;
    let mut first: usize = n;
    let mut i: usize = 0;
    while i < n
        invariant
            n == time_str@.len(),
            0 <= i <= n,
            colons <= i,
            colons as int + colons_from(time_str@, i as int) == colons_from(time_str@, 0),
            colons == 0 ==> colon_from(time_str@, i as int) == colon_from(time_str@, 0),
            colons > 0 ==> first == colon_from(time_str@, 0) && first < n,
        decreases n - i,
    {
        if time_str.get_char(i) == ':' {
            if colons == 0 {
                first = i;
            }
            colons = colons + 1;
        }
        i = i + 1;
    }
    if colons != 1 {
        return Err(TimeParseError::WrongFormat);
    }
    let hours = parse_unsigned_in(time_str, 0, first);
    let minutes = parse_unsigned_in(time_str, first + 1, n);
    match (hours, minutes) {
        (Some(h), Some(m)) => {
            match h.checked_mul(3600) {
                Some(hs) => match m.checked_mul(60) {
                    Some(ms) => match hs.checked_add(ms) {
                        Some(total) => Ok(total),
                        None => Err(TimeParseError::Overflow),
                    },
                    None => Err(TimeParseError::Overflow),
                },
                None => Err(TimeParseError::Overflow),
            }
        },
        _ => Err(TimeParseError::InvalidNumber),
    }
}

/// The decimal digits of `n`, without leading zeros.
pub open spec fn decimal_text(n: nat) -> Seq<char>
    decreases n,
{
    if n < 10 {
        seq![digit_char(n as int)]
    } else {
        decimal_text(n / 10) + seq![digit_char((n % 10) as int)]
    }
}

/// `n` in decimal, padded with a leading zero to two digits at least.
pub open spec fn two_digit_text(n: nat) -> Seq<char> {
    if n < 10 {
        seq!['0'] + decimal_text(n)
    } else {
        decimal_text(n)
    }
}

/// A duration shown as "HH:mm": whole hours, then the whole minutes left over.
pub open spec fn hh_mm_text(seconds: nat) -> Seq<char> {
    two_digit_text(seconds / 3600) + seq![':'] + two_digit_text((seconds % 3600) / 60)
}

fn digit_text(d: u64) -> (r: &'static str)
    requires
        d < 10,
    ensures
        r@ == seq![digit_char(d as int)],
{
    proof {
        reveal_strlit("0");
        reveal_strlit("1");
        reveal_strlit("2");
        reveal_strlit("3");
        reveal_strlit("4");
        reveal_strlit("5");
        reveal_strlit("6");
        reveal_strlit("7");
        reveal_strlit("8");
        reveal_strlit("9");
    }
    if d == 0 {
        "0"
    } else if d == 1 {
        "1"
    } else if d == 2 {
        "2"
    } else if d == 3 {
        "3"
    } else if d == 4 {
        "4"
    } else if d == 5 {
        "5"
    } else if d == 6 {
        "6"
    } else if d == 7 {
        "7"
    } else if d == 8 {
        "8"
    } else {
        "9"
    }
}

fn push_decimal(out: &mut String, n: u64)
    ensures
        final(out)@ == old(out)@ + decimal_text(n as nat),
    decreases n,
{
    if n >= 10 {
        push_decimal(out, n / 10);
    }
    out.append(digit_text(n % 10));
    assert(final(out)@ =~= old(out)@ + decimal_text(n as nat));
}

fn push_two_digits(out: &mut String, n: u64)
    ensures
        final(out)@ == old(out)@ + two_digit_text(n as nat),
{
    if n < 10 {
        out.append(digit_text(0));
    }
    push_decimal(out, n);
    assert(final(out)@ =~= old(out)@ + two_digit_text(n as nat));
}

/// Shows a duration of whole seconds as "HH:mm", each part two digits at least.
pub fn duration_to_hh_mm(duration_secs: u64) -> (r: String)
    ensures
        r@ == hh_mm_text(duration_secs as nat),
{
    let hours = duration_secs / 3600;
    let minutes = (duration_secs % 3600) / 60;
    let mut out = String::new();
    push_two_digits(&mut out, hours);
    proof {
        reveal_strlit(":");
    }
    out.append(":");
    push_two_digits(&mut out, minutes);
    assert(out@ =~= hh_mm_text(duration_secs as nat));
    out
}


} // verus!
