//! Timer periods as text: `HH:MM:SS`, written and read.
//!
//! A period is written with two digits at least for each of hours, minutes
//! and seconds. Reading is more lenient: it takes any three whole numbers
//! with colons between them, each as `i32` reads them (an optional sign,
//! then decimal digits), and adds them up to seconds.

use crate::naming::{
    all_digits, append_zero_padded, digits_value, is_digit, lemma_zero_padded_reads_back,
    zero_padded,
};
use vstd::prelude::*;
use vstd::string::*;

verus! {

/// `seconds` as hours, minutes and seconds, each with two digits at least.
pub open spec fn hms_chars(seconds: nat) -> Seq<char> {
    zero_padded(seconds / 3600, 2) + seq![':'] + zero_padded((seconds / 60) % 60, 2) + seq![':']
        + zero_padded(seconds % 60, 2)
}

/// The part of `field` behind its sign, if it has one.
pub open spec fn unsigned_part(field: Seq<char>) -> Seq<char> {
    if field.len() > 0 && (field[0] == '-' || field[0] == '+') {
        field.drop_first()
    } else {
        field
    }
}

/// The number that `field` writes: an optional `+` or `-`, then one decimal
/// digit at least and nothing else, with a value that an `i32` holds.
pub open spec fn field_value(field: Seq<char>) -> Option<int> {
    let digits = unsigned_part(field);
    let magnitude: int = digits_value(digits);
    let value: int = if field.len() > 0 && field[0] == '-' {
        -magnitude
    } else {
        magnitude
    };
    if digits.len() > 0 && all_digits(digits) && i32::MIN <= value <= i32::MAX {
        Some(value)
    } else {
        None
    }
}

/// The places of the colons in `text`, in ascending order.
pub open spec fn colon_positions(text: Seq<char>) -> Seq<int>
    decreases text.len(),
{
    if text.len() == 0 {
        Seq::empty()
    } else if text.last() == ':' {
        colon_positions(text.drop_last()).push(text.len() - 1)
    } else {
        colon_positions(text.drop_last())
    }
}

/// The seconds that `text` stands for: hours, minutes and seconds with
/// exactly two colons between them, each a number as [`field_value`] reads
/// it. Anything else stands for nothing.
pub open spec fn hms_value(text: Seq<char>) -> Option<int> {
    let colons = colon_positions(text);
    if colons.len() != 2 {
        None
    } else {
        match (
            field_value(text.subrange(0, colons[0])),
            field_value(text.subrange(colons[0] + 1, colons[1])),
            field_value(text.subrange(colons[1] + 1, text.len() as int)),
        ) {
            (Some(hours), Some(minutes), Some(seconds)) => Some(
                hours * 3600 + minutes * 60 + seconds,
            ),
            _ => None,
        }
    }
}

/// Writes a period of `seconds` as `HH:MM:SS`.
pub fn format_hms(seconds: usize) -> (text: String)
    ensures
        text@ == hms_chars(seconds as nat),
{
    proof {
        reveal_strlit(":");
    }
    let total: u64 = seconds as u64;
    let mut text = String::new();
    append_zero_padded(&mut text, total / 3600, 2);
    text.append(":");
    append_zero_padded(&mut text, (total / 60) % 60, 2);
    text.append(":");
    append_zero_padded(&mut text, total % 60, 2);
    text
}

/// The characters of `text`, one by one.
fn chars_of(text: &str) -> (chars: Vec<char>)
    ensures
        chars@ == text@,
{
    let mut chars: Vec<char> = Vec::new();
    for c in it: text.chars()
        invariant
            it.seq() == text@,
            chars@ == it.seq().take(it.index() as int),
    {
        chars.push(c);
    }
    chars
}

/// Every colon position is a place in the text, and they ascend.
proof fn lemma_colon_positions(text: Seq<char>)
    ensures
        forall|k: int|
            0 <= k < colon_positions(text).len() ==> 0 <= #[trigger] colon_positions(text)[k]
                < text.len(),
        forall|k: int, l: int|
            0 <= k < l < colon_positions(text).len() ==> colon_positions(text)[k]
                < colon_positions(text)[l],
    decreases text.len(),
{
    if text.len() > 0 {
        let shorter = colon_positions(text.drop_last());
        lemma_colon_positions(text.drop_last());
        assert forall|k: int| 0 <= k < colon_positions(text).len() implies 0
            <= #[trigger] colon_positions(text)[k] < text.len() by {
            if k < shorter.len() {
                assert(colon_positions(text)[k] == shorter[k]);
            }
        }
        assert forall|k: int, l: int| 0 <= k < l < colon_positions(text).len() implies colon_positions(
            text,
        )[k] < colon_positions(text)[l] by {
            assert(colon_positions(text)[k] == shorter[k]);
            if l < shorter.len() {
                assert(colon_positions(text)[l] == shorter[l]);
            }
        }
    }
}

/// The places of the colons among `chars`.
fn find_colons(chars: &Vec<char>) -> (colons: Vec<usize>)
    ensures
        colons@.len() == colon_positions(chars@).len(),
        forall|k: int| 0 <= k < colons@.len() ==> colons@[k] == colon_positions(chars@)[k],
{
    let mut colons: Vec<usize> = Vec::new();
    let mut i: usize = 0;
    while i < chars.len()
        invariant
            i <= chars.len(),
            colons@.len() == colon_positions(chars@.take(i as int)).len(),
            forall|k: int|
                0 <= k < colons@.len() ==> colons@[k] == colon_positions(chars@.take(i as int))[k],
        decreases chars.len() - i,
    {
        proof {
            assert(chars@.take(i + 1).drop_last() =~= chars@.take(i as int));
        }
        if chars[i] == ':' {
            colons.push(i);
        }
        i = i + 1;
    }
    proof {
        assert(chars@.take(i as int) =~= chars@);
    }
    colons
}

/// Digits written behind a number make it no smaller.
proof fn lemma_digits_value_grows(digits: Seq<char>, k: int)
    requires
        all_digits(digits),
        0 <= k <= digits.len(),
    ensures
        0 <= digits_value(digits.take(k)) <= digits_value(digits),
    decreases digits.len() - k,
{
    if k == digits.len() {
        assert(digits.take(k) =~= digits);
        lemma_digits_value_nonnegative(digits);
    } else {
        lemma_digits_value_grows(digits, k + 1);
        assert(digits.take(k + 1).drop_last() =~= digits.take(k));
        assert(is_digit(digits[k]));
        assert(digits.take(k + 1).last() == digits[k]);
    }
}

/// Digits write no negative number.
proof fn lemma_digits_value_nonnegative(digits: Seq<char>)
    requires
        all_digits(digits),
    ensures
        0 <= digits_value(digits),
    decreases digits.len(),
{
    if digits.len() > 0 {
        assert(is_digit(digits.last()));
        assert(all_digits(digits.drop_last())) by {
            assert forall|i: int| 0 <= i < digits.drop_last().len() implies is_digit(
                #[trigger] digits.drop_last()[i],
            ) by {
                assert(digits.drop_last()[i] == digits[i]);
            }
        }
        lemma_digits_value_nonnegative(digits.drop_last());
    }
}

/// Reads the number that `chars` holds from `from` up to `to`.
fn read_field(chars: &Vec<char>, from: usize, to: usize) -> (value: Option<i32>)
    requires
        from <= to <= chars.len(),
    ensures
        value is Some <==> field_value(chars@.subrange(from as int, to as int)) is Some,
        value matches Some(v) ==> field_value(chars@.subrange(from as int, to as int)) == Some(
            v as int,
        ),
{
    let ghost field = chars@.subrange(from as int, to as int);
    let mut start: usize = from;
    let mut negative = false;
    if from < to && (chars[from] == '-' || chars[from] == '+') {
        negative = chars[from] == '-';
        start = from + 1;
    }
    let ghost digits = unsigned_part(field);
    proof {
        assert(from < to ==> field[0] == chars@[from as int]);
        assert(digits =~= chars@.subrange(start as int, to as int));
    }
    if start == to {
        return None;
    }
    let mut magnitude: i64 = 0;
    let mut i: usize = start;
    while i < to
        invariant
            start <= i <= to <= chars.len(),
            start < to,
            field == chars@.subrange(from as int, to as int),
            digits == unsigned_part(field),
            digits == chars@.subrange(start as int, to as int),
            all_digits(digits.take(i - start)),
            magnitude == digits_value(digits.take(i - start)),
            0 <= magnitude <= 2147483648,
        decreases to - i,
    {
        let c = chars[i];
        proof {
            assert(digits[i - start] == c);
            assert(digits.take(i - start + 1).drop_last() =~= digits.take(i - start));
            assert(digits.take(i - start + 1).last() == c);
        }
        if !(c >= '0' && c <= '9') {
            proof {
                assert(!is_digit(digits[i - start]));
            }
            return None;
        }
        let digit: i64 = (c as u32 - '0' as u32) as i64;
        // At most 2^31 before this step, so the sum fits with room to spare.
        magnitude = magnitude * 10 + digit;
        proof {
            assert forall|j: int| 0 <= j < i - start + 1 implies is_digit(
                #[trigger] digits.take(i - start + 1)[j],
            ) by {
                if j < i - start {
                    assert(digits.take(i - start)[j] == digits[j]);
                }
            }
        }
        if magnitude > 2147483648 {
            // More digits can only make it larger: too large for either sign.
            proof {
                if all_digits(digits) {
                    lemma_digits_value_grows(digits, i - start + 1);
                }
            }
            return None;
        }
        i = i + 1;
    }
    proof {
        assert(digits.take(to - start) =~= digits);
    }
    if negative {
        Some((-magnitude) as i32)
    } else if magnitude <= 2147483647 {
        Some(magnitude as i32)
    } else {
        None
    }
}

/// Reads a period written as hours, minutes and seconds with colons between
/// them, and gives it in seconds; `None` where `text` is no such period.
pub fn parse_hms(text: &str) -> (seconds: Option<i64>)
    ensures
        seconds is Some <==> hms_value(text@) is Some,
        seconds matches Some(s) ==> hms_value(text@) == Some(s as int),
{
    let chars = chars_of(text);
    let colons = find_colons(&chars);
    if colons.len() != 2 {
        return None;
    }
    proof {
        lemma_colon_positions(chars@);
    }
    let first: usize = colons[0];
    let second: usize = colons[1];
    let hours = read_field(&chars, 0, first);
    let minutes = read_field(&chars, first + 1, second);
    let seconds = read_field(&chars, second + 1, chars.len());
    match (hours, minutes, seconds) {
        (Some(h), Some(m), Some(s)) => Some((h as i64) * 3600 + (m as i64) * 60 + (s as i64)),
        _ => None,
    }
}

/// Digits behind a text add no colon to it.
proof fn lemma_digits_hold_no_colon(text: Seq<char>, digits: Seq<char>)
    requires
        all_digits(digits),
    ensures
        colon_positions(text + digits) == colon_positions(text),
    decreases digits.len(),
{
    if digits.len() == 0 {
        assert(text + digits =~= text);
    } else {
        assert(is_digit(digits.last()));
        assert((text + digits).drop_last() =~= text + digits.drop_last());
        assert forall|i: int| 0 <= i < digits.drop_last().len() implies is_digit(
            #[trigger] digits.drop_last()[i],
        ) by {
            assert(digits.drop_last()[i] == digits[i]);
        }
        lemma_digits_hold_no_colon(text, digits.drop_last());
    }
}

/// A number as [`zero_padded`] writes it is read as that number.
proof fn lemma_padded_field_value(n: nat, width: nat)
    requires
        n <= i32::MAX,
    ensures
        field_value(zero_padded(n, width)) == Some(n as int),
{
    lemma_zero_padded_reads_back(n, width);
    let field = zero_padded(n, width);
    assert(is_digit(field[0]));
}

/// What [`format_hms`] writes, [`parse_hms`] reads as the same number of
/// seconds, as long as the hours are a number that an `i32` holds.
pub proof fn lemma_hms_reads_back(seconds: nat)
    requires
        seconds / 3600 <= i32::MAX,
    ensures
        hms_value(hms_chars(seconds)) == Some(seconds as int),
{
    let hours = zero_padded(seconds / 3600, 2);
    let minutes = zero_padded((seconds / 60) % 60, 2);
    let secs = zero_padded(seconds % 60, 2);
    let text = hms_chars(seconds);
    lemma_zero_padded_reads_back(seconds / 3600, 2);
    lemma_zero_padded_reads_back((seconds / 60) % 60, 2);
    lemma_zero_padded_reads_back(seconds % 60, 2);
    lemma_padded_field_value(seconds / 3600, 2);
    lemma_padded_field_value((seconds / 60) % 60, 2);
    lemma_padded_field_value(seconds % 60, 2);

    let upto_hours = Seq::<char>::empty() + hours;
    let upto_first = upto_hours.push(':');
    let upto_minutes = upto_first + minutes;
    let upto_second = upto_minutes.push(':');
    lemma_digits_hold_no_colon(Seq::<char>::empty(), hours);
    assert(upto_first.drop_last() =~= upto_hours);
    lemma_digits_hold_no_colon(upto_first, minutes);
    assert(upto_second.drop_last() =~= upto_minutes);
    lemma_digits_hold_no_colon(upto_second, secs);
    assert(text =~= upto_second + secs);
    let first: int = hours.len() as int;
    let second: int = first + 1 + minutes.len();
    assert(colon_positions(text) =~= seq![first, second]);

    assert(text.subrange(0, first) =~= hours);
    assert(text.subrange(first + 1, second) =~= minutes);
    assert(text.subrange(second + 1, text.len() as int) =~= secs);
}

} // verus!
