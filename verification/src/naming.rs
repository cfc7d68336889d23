//! Decimal text, and the names of the image files.
//!
//! Saved images are called `img_NNNN.png`, where `NNNN` is the sequence
//! number in decimal, padded with zeros to four digits and never cut short.

use vstd::prelude::*;
use vstd::string::*;

verus! {

/// The character of the decimal digit `d`.
pub open spec fn digit_char(d: nat) -> char
    recommends
        d < 10,
{
    seq!['0', '1', '2', '3', '4', '5', '6', '7', '8', '9'][d as int]
}

/// `n` in decimal, without leading zeros (`0` is "0").
pub open spec fn decimal(n: nat) -> Seq<char>
    decreases n,
{
    if n < 10 {
        seq![digit_char(n)]
    } else {
        decimal(n / 10).push(digit_char(n % 10))
    }
}

/// `n` in decimal, with zeros in front until it has at least `width` digits.
pub open spec fn zero_padded(n: nat, width: nat) -> Seq<char> {
    let digits = decimal(n);
    if digits.len() >= width {
        digits
    } else {
        Seq::new((width - digits.len()) as nat, |i: int| '0') + digits
    }
}

/// Whether `c` is one of the ten decimal digits.
pub open spec fn is_digit(c: char) -> bool {
    '0' <= c && c <= '9'
}

/// The number that the decimal digits `digits` write, most significant first.
pub open spec fn digits_value(digits: Seq<char>) -> int
    decreases digits.len(),
{
    if digits.len() == 0 {
        0
    } else {
        digits_value(digits.drop_last()) * 10 + (digits.last() as int - '0' as int)
    }
}

/// Whether `digits` holds decimal digits only.
pub open spec fn all_digits(digits: Seq<char>) -> bool {
    forall|i: int| 0 <= i < digits.len() ==> is_digit(#[trigger] digits[i])
}

/// The name of the image file with sequence number `n`.
pub open spec fn file_name_chars(n: nat) -> Seq<char> {
    seq!['i', 'm', 'g', '_'] + zero_padded(n, 4) + seq!['.', 'p', 'n', 'g']
}

/// The one-character text of a decimal digit.
fn digit_str(d: u64) -> (text: &'static str)
    requires
        d < 10,
    ensures
        text@ == seq![digit_char(d as nat)],
{
    proof {
        reveal_strlit("0");
        reveal_strlit("1");
        reveal_strlit("2");
        reveal_strlit("3");
        reveal_strlit("4");
        reveal_strlit("5");
        reveal_strlit("6");
        reveal_strlit("7");
        reveal_strlit("8");
        reveal_strlit("9");
    }
    if d == 0 {
        "0"
    } else if d == 1 {
        "1"
    } else if d == 2 {
        "2"
    } else if d == 3 {
        "3"
    } else if d == 4 {
        "4"
    } else if d == 5 {
        "5"
    } else if d == 6 {
        "6"
    } else if d == 7 {
        "7"
    } else if d == 8 {
        "8"
    } else {
        "9"
    }
}

/// Appends `value` in decimal to `out`.
fn append_decimal(out: &mut String, value: u64)
    ensures
        final(out)@ == old(out)@ + decimal(value as nat),
    decreases value,
{
    if value >= 10 {
        append_decimal(out, value / 10);
    }
    out.append(digit_str(value % 10));
}

/// The number of decimal digits of `value`.
fn decimal_len(value: u64) -> (len: usize)
    ensures
        len == decimal(value as nat).len(),
        1 <= len <= 20,
{
    let mut len: usize = 1;
    let mut rest: u64 = value;
    proof {
        lemma_decimal_len_bound(value as nat);
    }
    while rest >= 10
        invariant
            1 <= len,
            len + decimal(rest as nat).len() == decimal(value as nat).len() + 1,
            decimal(value as nat).len() <= 20,
        decreases rest,
    {
        rest = rest / 10;
        len = len + 1;
    }
    len
}

/// A number below `10^k` has at most `k` digits; every `u64` is below `10^20`.
proof fn lemma_decimal_len_bound(n: nat)
    requires
        n <= u64::MAX,
    ensures
        decimal(n).len() <= 20,
{
    reveal_with_fuel(decimal, 21);
}

/// Appends `value` in decimal to `out`, with zeros in front until it has at
/// least `width` digits.
pub fn append_zero_padded(out: &mut String, value: u64, width: usize)
    ensures
        final(out)@ == old(out)@ + zero_padded(value as nat, width as nat),
{
    let digits: usize = decimal_len(value);
    let ghost before = out@;
    let mut written: usize = digits;
    while written < width
        invariant
            digits <= written,
            written <= width || written == digits,
            out@ == before + Seq::new((written - digits) as nat, |i: int| '0'),
        decreases width - written,
    {
        proof {
            reveal_strlit("0");
        }
        out.append("0");
        written = written + 1;
    }
    append_decimal(out, value);
}

/// The file name under which the image with this sequence number is saved.
pub fn image_file_name(sequence: usize) -> (name: String)
    ensures
        name@ == file_name_chars(sequence as nat),
{
    proof {
        reveal_strlit("img_");
        reveal_strlit(".png");
    }
    let mut name = String::from_str("img_");
    append_zero_padded(&mut name, sequence as u64, 4);
    name.append(".png");
    name
}

/// The character of a digit is that many places behind `'0'`.
proof fn lemma_digit_char(d: nat)
    requires
        d < 10,
    ensures
        is_digit(digit_char(d)),
        digit_char(d) as int - '0' as int == d,
{
}

/// Zeros alone write the number zero.
proof fn lemma_zeros_value(count: nat)
    ensures
        digits_value(Seq::new(count, |i: int| '0')) == 0,
    decreases count,
{
    if count > 0 {
        let zeros = Seq::new(count, |i: int| '0');
        assert(zeros.drop_last() =~= Seq::new((count - 1) as nat, |i: int| '0'));
        lemma_zeros_value((count - 1) as nat);
    }
}

/// Zeros in front of digits do not change the number that they write.
proof fn lemma_leading_zeros(count: nat, digits: Seq<char>)
    ensures
        digits_value(Seq::new(count, |i: int| '0') + digits) == digits_value(digits),
    decreases digits.len(),
{
    let zeros = Seq::new(count, |i: int| '0');
    if digits.len() == 0 {
        assert(zeros + digits =~= zeros);
        lemma_zeros_value(count);
    } else {
        assert((zeros + digits).drop_last() =~= zeros + digits.drop_last());
        lemma_leading_zeros(count, digits.drop_last());
    }
}

/// What [`decimal`] writes is one digit at least, digits only, and read back
/// it is the number that was written.
pub proof fn lemma_decimal_reads_back(n: nat)
    ensures
        decimal(n).len() >= 1,
        all_digits(decimal(n)),
        digits_value(decimal(n)) == n,
    decreases n,
{
    if n < 10 {
        lemma_digit_char(n);
        assert(decimal(n).drop_last() =~= Seq::<char>::empty());
        assert(digits_value(Seq::<char>::empty()) == 0);
        assert(decimal(n).last() == digit_char(n));
    } else {
        lemma_decimal_reads_back(n / 10);
        lemma_digit_char(n % 10);
        assert(decimal(n).drop_last() =~= decimal(n / 10));
        assert(decimal(n).last() == digit_char(n % 10));
    }
}

/// What [`zero_padded`] writes has `width` digits at least, digits only, and
/// read back it is the number that was written.
pub proof fn lemma_zero_padded_reads_back(n: nat, width: nat)
    ensures
        zero_padded(n, width).len() >= 1,
        zero_padded(n, width).len() >= width,
        all_digits(zero_padded(n, width)),
        digits_value(zero_padded(n, width)) == n,
{
    lemma_decimal_reads_back(n);
    if decimal(n).len() < width {
        lemma_leading_zeros((width - decimal(n).len()) as nat, decimal(n));
    }
}

/// Different sequence numbers have different file names.
pub proof fn lemma_file_names_differ(a: nat, b: nat)
    requires
        a != b,
    ensures
        file_name_chars(a) != file_name_chars(b),
{
    lemma_zero_padded_reads_back(a, 4);
    lemma_zero_padded_reads_back(b, 4);
    let name_a = file_name_chars(a);
    let name_b = file_name_chars(b);
    assert(name_a.subrange(4, name_a.len() - 4) =~= zero_padded(a, 4));
    assert(name_b.subrange(4, name_b.len() - 4) =~= zero_padded(b, 4));
}

} // verus!
