//! Decimal numerals: specifications for decimal digit strings and verified
//! routines that format and parse them.

use vstd::prelude::*;

verus! {

/// The character for a single decimal digit value.
pub open spec fn digit_char(d: int) -> char
    recommends
        0 <= d < 10,
{
    ((d + 48) as u8) as char
}

/// Whether a character is an ASCII decimal digit.
pub open spec fn is_digit_char(c: char) -> bool {
    48 <= c as int <= 57
}

/// The numeric value of an ASCII decimal digit character.
pub open spec fn digit_of(c: char) -> int
    recommends
        is_digit_char(c),
{
    c as int - 48
}

/// Whether every character of the sequence is an ASCII decimal digit.
pub open spec fn seq_all_digits(s: Seq<char>) -> bool {
    forall|i: int| 0 <= i < s.len() ==> is_digit_char(#[trigger] s[i])
}

/// The numeric value of a sequence of decimal digit characters, most
/// significant digit first.  The empty sequence has value zero.
pub open spec fn digits_value(s: Seq<char>) -> int
    decreases s.len(),
{
    if s.len() == 0 {
        0
    } else {
        digits_value(s.drop_last()) * 10 + digit_of(s.last())
    }
}

/// Ten to the given power (one for exponents at or below zero).
pub open spec fn pow10(e: int) -> int
    decreases e,
{
    if e <= 0 {
        1
    } else {
        10 * pow10(e - 1)
    }
}

/// The shortest decimal numeral for a nonnegative number ("0" for zero).
pub open spec fn dec_str(n: int) -> Seq<char>
    recommends
        n >= 0,
    decreases n,
{
    if n < 10 {
        seq![digit_char(n)]
    } else {
        dec_str(n / 10).push(digit_char(n % 10))
    }
}

/// The decimal numeral of a nonnegative number padded with leading zeros to
/// exactly `width` digits; digits beyond `width` are cut off.
pub open spec fn dec_str_pad(n: int, width: int) -> Seq<char>
    recommends
        n >= 0,
    decreases width,
{
    if width <= 0 {
        Seq::empty()
    } else {
        dec_str_pad(n / 10, width - 1).push(digit_char(n % 10))
    }
}

/// The sequence with every trailing `'0'` character removed.
pub open spec fn trim_trailing_zeros(s: Seq<char>) -> Seq<char>
    decreases s.len(),
{
    if s.len() > 0 && s.last() == '0' {
        trim_trailing_zeros(s.drop_last())
    } else {
        s
    }
}

/// A digit string made of digits only has a nonnegative value.
pub proof fn lemma_digits_value_nonneg(s: Seq<char>)
    requires
        seq_all_digits(s),
    ensures
        digits_value(s) >= 0,
    decreases s.len(),
{
    if s.len() > 0 {
        assert(seq_all_digits(s.drop_last()));
        lemma_digits_value_nonneg(s.drop_last());
    }
}

/// Extending a digit string by one digit multiplies its value by ten and adds
/// the new digit.
pub proof fn lemma_digits_value_extend(s: Seq<char>, from: int, i: int)
    requires
        0 <= from <= i < s.len(),
    ensures
        digits_value(s.subrange(from, i + 1)) == digits_value(s.subrange(from, i)) * 10 + digit_of(
            s[i],
        ),
{
    let t = s.subrange(from, i + 1);
    assert(t.drop_last() =~= s.subrange(from, i));
    assert(t.last() == s[i]);
}

/// Every prefix of a digit string has a value no greater than the whole.
pub proof fn lemma_digits_prefix_le(s: Seq<char>, i: int)
    requires
        seq_all_digits(s),
        0 <= i <= s.len(),
    ensures
        digits_value(s.subrange(0, i)) <= digits_value(s),
    decreases s.len() - i,
{
    if i == s.len() {
        assert(s.subrange(0, i) =~= s);
    } else {
        lemma_digits_value_extend(s, 0, i);
        assert(seq_all_digits(s.subrange(0, i)));
        lemma_digits_value_nonneg(s.subrange(0, i));
        lemma_digits_prefix_le(s, i + 1);
    }
}

/// The single-character string for one decimal digit.
pub fn digit_string(d: u64) -> (r: String)
    requires
        d < 10,
    ensures
        r@ =~= seq![digit_char(d as int)],
{
    proof {
        reveal_strlit("0");
        reveal_strlit("1");
        reveal_strlit("2");
        reveal_strlit("3");
        reveal_strlit("4");
        reveal_strlit("5");
        reveal_strlit("6");
        reveal_strlit("7");
        reveal_strlit("8");
        reveal_strlit("9");
    }
    let s: &str = if d == 0 {
        "0"
    } else if d == 1 {
        "1"
    } else if d == 2 {
        "2"
    } else if d == 3 {
        "3"
    } else if d == 4 {
        "4"
    } else if d == 5 {
        "5"
    } else if d == 6 {
        "6"
    } else if d == 7 {
        "7"
    } else if d == 8 {
        "8"
    } else {
        "9"
    };
    s.to_owned()
}

/// The shortest decimal numeral of `n`.
pub fn dec_string(n: u64) -> (r: String)
    ensures
        r@ == dec_str(n as int),
    decreases n,
{
    if n < 10 {
        let r = digit_string(n);
        assert(r@ =~= dec_str(n as int));
        r
    } else {
        let mut r = dec_string(n / 10);
        let last = digit_string(n % 10);
        r.append(last.as_str());
        assert(r@ =~= dec_str(n as int));
        r
    }
}

/// The decimal numeral of `n` padded with leading zeros to `width` digits.
pub fn dec_string_pad(n: u64, width: u64) -> (r: String)
    ensures
        r@ == dec_str_pad(n as int, width as int),
    decreases width,
{
    if width == 0 {
        let r = String::new();
        assert(r@ =~= dec_str_pad(n as int, 0));
        r
    } else {
        let mut r = dec_string_pad(n / 10, width - 1);
        let last = digit_string(n % 10);
        r.append(last.as_str());
        assert(r@ =~= dec_str_pad(n as int, width as int));
        r
    }
}

} // verus!
