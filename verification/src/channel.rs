//! Color channels as fixed-point values.
//!
//! A channel holds millionths of a unit: the value 1.0 is `CHANNEL_SCALE`
//! micro-units.  Channels come from textual input values, are inverted by the
//! one's-complement rule `1.0 - c`, and are written back into shader source
//! text as decimal literals.  Out-of-range values are carried through without
//! clamping.

use crate::numerals::{
    dec_str, dec_str_pad, digit_char, digits_value, lemma_digits_value_extend, pow10,
    seq_all_digits, trim_trailing_zeros,
};
use crate::numerals::{dec_string, dec_string_pad};
use vstd::prelude::*;

verus! {

/// Number of micro-units in one unit: a channel value of 1.0.
pub const CHANNEL_SCALE: i64 = 1_000_000;

/// Largest magnitude a channel parsed from text can have: seven integer
/// digits and six fractional digits stay below this bound.
pub const CHANNEL_LIMIT: i64 = 10_000_000_000_000;

/// A channel value as textual input can produce it.
pub open spec fn channel_valid(c: int) -> bool {
    -CHANNEL_LIMIT <= c <= CHANNEL_LIMIT
}

/// A channel value the pipeline can hold: a parsed channel or its inversion.
pub open spec fn channel_in_range(c: int) -> bool {
    -(CHANNEL_LIMIT + CHANNEL_SCALE) <= c <= CHANNEL_LIMIT + CHANNEL_SCALE
}

/// The one's-complement inversion `1.0 - c` in micro-units.
pub open spec fn channel_inverted(c: int) -> int {
    CHANNEL_SCALE - c
}

/// Inverting a channel twice restores the original value exactly.
pub proof fn lemma_channel_inversion_involutive(c: int)
    ensures
        channel_inverted(channel_inverted(c)) == c,
{
}

/// Inverts a channel value: `1.0 - c` in micro-units.
pub fn invert_channel(c: i64) -> (r: i64)
    requires
        channel_in_range(c as int),
    ensures
        r as int == channel_inverted(c as int),
        channel_valid(c as int) ==> channel_in_range(r as int),
{
    CHANNEL_SCALE - c
}

/// The decimal text of a nonnegative channel magnitude: the integer part in
/// shortest form, then, if the fractional part is not zero, a point and the
/// fractional digits with trailing zeros removed.
pub open spec fn channel_magnitude_text(m: int) -> Seq<char>
    recommends
        m >= 0,
{
    dec_str(m / (CHANNEL_SCALE as int)) + channel_fraction_text(m % (CHANNEL_SCALE as int))
}

/// The fractional suffix of a channel's decimal text.
pub open spec fn channel_fraction_text(f: int) -> Seq<char>
    recommends
        0 <= f < CHANNEL_SCALE,
{
    if f == 0 {
        Seq::empty()
    } else {
        seq!['.'] + trim_trailing_zeros(dec_str_pad(f, 6))
    }
}

/// The decimal text of a channel value, with a leading minus sign when the
/// value is negative.
pub open spec fn channel_text(c: int) -> Seq<char> {
    if c < 0 {
        seq!['-'] + channel_magnitude_text(-c)
    } else {
        channel_magnitude_text(c)
    }
}

/// Appending a zero digit to a padded numeral does not change it after
/// trailing zeros are trimmed.
proof fn lemma_trim_pad_step(n: int, width: int)
    requires
        width >= 1,
        n >= 0,
        n % 10 == 0,
    ensures
        trim_trailing_zeros(dec_str_pad(n, width)) == trim_trailing_zeros(
            dec_str_pad(n / 10, width - 1),
        ),
{
    let s = dec_str_pad(n / 10, width - 1);
    assert(dec_str_pad(n, width) == s.push(digit_char(0)));
    assert(digit_char(0) == '0');
    assert(s.push('0').last() == '0');
    assert(s.push('0').drop_last() =~= s);
}

/// A padded numeral whose last digit is not zero is unchanged by trimming.
proof fn lemma_trim_pad_stable(n: int, width: int)
    requires
        width >= 1,
        n >= 0,
        n % 10 != 0,
    ensures
        trim_trailing_zeros(dec_str_pad(n, width)) == dec_str_pad(n, width),
{
    let s = dec_str_pad(n, width);
    assert(s.last() == digit_char(n % 10));
    assert(digit_char(n % 10) as int == n % 10 + 48);
    assert(s.last() != '0');
}

/// Formats a channel value as decimal text for shader source.
pub fn format_channel(c: i64) -> (r: String)
    requires
        channel_in_range(c as int),
    ensures
        r@ == channel_text(c as int),
{
    proof {
        reveal_strlit("-");
        reveal_strlit(".");
        reveal_with_fuel(pow10, 8);
    }
    let neg = c < 0;
    let m: u64 = if neg {
        (-c) as u64
    } else {
        c as u64
    };
    let ip: u64 = m / 1_000_000;
    let f: u64 = m % 1_000_000;
    let mut r: String = if neg {
        "-".to_owned()
    } else {
        String::new()
    };
    let ghost prefix = r@;
    let ip_str = dec_string(ip);
    r.append(ip_str.as_str());
    if f != 0 {
        r.append(".");
        let mut g: u64 = f;
        let mut w: u64 = 6;
        while g % 10 == 0
            invariant
                1 <= w <= 6,
                1 <= g < pow10(w as int),
                trim_trailing_zeros(dec_str_pad(g as int, w as int)) == trim_trailing_zeros(
                    dec_str_pad(f as int, 6),
                ),
            decreases w,
        {
            proof {
                reveal_with_fuel(pow10, 8);
                lemma_trim_pad_step(g as int, w as int);
                assert(g >= 10);
            }
            g = g / 10;
            w = w - 1;
        }
        proof {
            lemma_trim_pad_stable(g as int, w as int);
        }
        let frac = dec_string_pad(g, w);
        r.append(frac.as_str());
        proof {
            assert(r@ =~= prefix + dec_str(ip as int) + seq!['.'] + trim_trailing_zeros(
                dec_str_pad(f as int, 6),
            ));
            assert(r@ =~= channel_text(c as int));
        }
    } else {
        proof {
            assert(r@ =~= channel_text(c as int));
        }
    }
    r
}

/// Sign and remainder of a channel numeral: a leading minus sign gives sign
/// `-1`, anything else sign `1`.
pub open spec fn sign_split(s: Seq<char>) -> (int, Seq<char>) {
    if s.len() > 0 && s[0] == '-' {
        (-1, s.drop_first())
    } else {
        (1, s)
    }
}

/// Index of the first `'.'` in the sequence, or `-1` when there is none.
pub open spec fn first_dot(s: Seq<char>) -> int
    decreases s.len(),
{
    if s.len() == 0 {
        -1
    } else if s[0] == '.' {
        0
    } else if first_dot(s.drop_first()) < 0 {
        -1
    } else {
        1 + first_dot(s.drop_first())
    }
}

proof fn lemma_first_dot_none(s: Seq<char>)
    requires
        forall|k: int| 0 <= k < s.len() ==> s[k] != '.',
    ensures
        first_dot(s) == -1,
    decreases s.len(),
{
    if s.len() > 0 {
        lemma_first_dot_none(s.drop_first());
    }
}

proof fn lemma_first_dot_at(s: Seq<char>, i: int)
    requires
        0 <= i < s.len(),
        s[i] == '.',
        forall|k: int| 0 <= k < i ==> s[k] != '.',
    ensures
        first_dot(s) == i,
    decreases s.len(),
{
    if i > 0 {
        lemma_first_dot_at(s.drop_first(), i - 1);
    }
}

/// Whether a signless channel numeral is well formed: digits with at most one
/// decimal point, at most seven integer digits, at most six fractional
/// digits, and at least one digit in all.
pub open spec fn channel_body_wf(b: Seq<char>) -> bool {
    let d = first_dot(b);
    if d < 0 {
        1 <= b.len() <= 7 && seq_all_digits(b)
    } else {
        let ip = b.subrange(0, d);
        let fp = b.subrange(d + 1, b.len() as int);
        ip.len() <= 7 && fp.len() <= 6 && ip.len() + fp.len() >= 1 && seq_all_digits(ip)
            && seq_all_digits(fp)
    }
}

/// Micro-unit value of a well-formed signless channel numeral.
pub open spec fn channel_body_value(b: Seq<char>) -> int
    recommends
        channel_body_wf(b),
{
    let d = first_dot(b);
    if d < 0 {
        digits_value(b) * (CHANNEL_SCALE as int)
    } else {
        let ip = b.subrange(0, d);
        let fp = b.subrange(d + 1, b.len() as int);
        digits_value(ip) * (CHANNEL_SCALE as int) + digits_value(fp) * pow10(6 - fp.len() as int)
    }
}

/// Whether a channel numeral, with its optional leading minus sign, is well
/// formed.
pub open spec fn channel_text_wf(s: Seq<char>) -> bool {
    channel_body_wf(sign_split(s).1)
}

/// Micro-unit value of a well-formed channel numeral.
pub open spec fn channel_value_spec(s: Seq<char>) -> int
    recommends
        channel_text_wf(s),
{
    sign_split(s).0 * channel_body_value(sign_split(s).1)
}

/// Ten to a small power, as a machine integer.
fn pow10_u64(e: u64) -> (r: u64)
    requires
        e <= 6,
    ensures
        r as int == pow10(e as int),
{
    proof {
        reveal_with_fuel(pow10, 8);
    }
    if e == 0 {
        1
    } else if e == 1 {
        10
    } else if e == 2 {
        100
    } else if e == 3 {
        1_000
    } else if e == 4 {
        10_000
    } else if e == 5 {
        100_000
    } else {
        1_000_000
    }
}

proof fn lemma_pow10_pos(e: int)
    ensures
        pow10(e) >= 1,
    decreases e,
{
    if e > 0 {
        lemma_pow10_pos(e - 1);
    }
}

proof fn lemma_pow10_add(a: int, b: int)
    requires
        a >= 0,
        b >= 0,
    ensures
        pow10(a + b) == pow10(a) * pow10(b),
    decreases a,
{
    if a == 0 {
    } else {
        lemma_pow10_add(a - 1, b);
        assert(pow10(a + b) == 10 * pow10(a - 1 + b));
        assert(pow10(a) == 10 * pow10(a - 1));
        assert(pow10(a) * pow10(b) == 10 * (pow10(a - 1) * pow10(b))) by (nonlinear_arith)
            requires
                pow10(a) == 10 * pow10(a - 1),
        ;
    }
}

/// Parses the digits of `s` between `from` and `to` as a decimal number.
/// Returns the value exactly when every character in the range is a digit.
pub fn parse_digits_range(s: &str, from: usize, to: usize) -> (r: Option<u64>)
    requires
        from <= to && to <= s@.len(),
        to - from <= 7,
    ensures
        r is Some <==> seq_all_digits(s@.subrange(from as int, to as int)),
        r matches Some(v) ==> v as int == digits_value(s@.subrange(from as int, to as int)) && v
            < pow10((to - from) as int),
{
    let ghost sub = s@.subrange(from as int, to as int);
    let mut acc: u64 = 0;
    let mut i: usize = from;
    proof {
        reveal_with_fuel(pow10, 8);
        assert(s@.subrange(from as int, from as int) =~= Seq::<char>::empty());
    }
    while i < to
        invariant
            from <= i <= to,
            to <= s@.len(),
            to - from <= 7,
            seq_all_digits(s@.subrange(from as int, i as int)),
            acc as int == digits_value(s@.subrange(from as int, i as int)),
            acc < pow10((i - from) as int),
        decreases to - i,
    {
        let ch = s.get_char(i);
        let code = ch as u32;
        if code < 48 || code > 57 {
            proof {
                assert(s@.subrange(from as int, to as int)[i - from] == s@[i as int]);
                assert(!seq_all_digits(s@.subrange(from as int, to as int)));
            }
            return None;
        }
        let d = (code - 48) as u64;
        proof {
            reveal_with_fuel(pow10, 8);
            assert(pow10((i + 1 - from) as int) == 10 * pow10((i - from) as int));
            lemma_pow10_pos((i - from) as int);
            assert(pow10((i - from) as int) <= pow10(7)) by {
                lemma_pow10_add((i - from) as int, 7 - (i - from) as int);
                lemma_pow10_pos(7 - (i - from) as int);
                assert(pow10((i - from) as int) * 1 <= pow10((i - from) as int) * pow10(
                    7 - (i - from) as int,
                )) by (nonlinear_arith)
                    requires
                        pow10((i - from) as int) >= 1 && pow10(7 - (i - from) as int) >= 1,
                ;
            }
            lemma_digits_value_extend(s@, from as int, i as int);
        }
        acc = acc * 10 + d;
        proof {
            assert(s@.subrange(from as int, i + 1 as int).drop_last() =~= s@.subrange(
                from as int,
                i as int,
            ));
            assert(seq_all_digits(s@.subrange(from as int, i + 1)));
        }
        i = i + 1;
    }
    proof {
        assert(s@.subrange(from as int, i as int) =~= sub);
    }
    Some(acc)
}

/// Parses a channel numeral into a micro-unit value.
///
/// The grammar is an optional minus sign, then decimal digits with at most
/// one decimal point: at most seven integer digits, at most six fractional
/// digits, and at least one digit in all.  Returns the exact fixed-point
/// value when the text matches and nothing otherwise.
#[verifier::rlimit(100)]
pub fn parse_channel_value(s: &str) -> (r: Option<i64>)
    ensures
        r is Some <==> channel_text_wf(s@),
        r matches Some(v) ==> v as int == channel_value_spec(s@) && channel_valid(v as int),
{
    let len = s.unicode_len();
    let neg = len > 0 && s.get_char(0) == '-';
    let start: usize = if neg {
        1
    } else {
        0
    };
    let ghost body = sign_split(s@).1;
    proof {
        assert(body =~= s@.subrange(start as int, len as int));
    }
    // Find the first decimal point at or after `start`.
    let mut dot: usize = len;
    let mut j: usize = start;
    while j < len
        invariant
            start <= j <= len,
            len == s@.len(),
            dot == len || (start <= dot && dot < j && s@[dot as int] == '.'),
            dot == len ==> forall|k: int| start <= k < j ==> s@[k] != '.',
            dot < len ==> forall|k: int| start <= k < dot ==> s@[k] != '.',
        decreases len - j,
    {
        if dot == len {
            let ch = s.get_char(j);
            if ch == '.' {
                dot = j;
            }
        }
        j = j + 1;
    }
    proof {
        if dot == len {
            assert(forall|k: int| 0 <= k < body.len() ==> body[k] == s@[start + k]);
            lemma_first_dot_none(body);
        } else {
            assert(forall|k: int| 0 <= k < body.len() ==> body[k] == s@[start + k]);
            lemma_first_dot_at(body, dot - start);
        }
    }
    if dot == len {
        // No fractional part: one to seven digits.
        if len - start < 1 || len - start > 7 {
            return None;
        }
        let parsed = parse_digits_range(s, start, len);
        match parsed {
            None => {
                proof {
                    assert(body =~= s@.subrange(start as int, len as int));
                }
                None
            },
            Some(v) => {
                proof {
                    reveal_with_fuel(pow10, 8);
                    assert(first_dot(body) == -1);
                    assert(v as int == digits_value(body));
                }
                let value: i64 = (v as i64) * CHANNEL_SCALE;
                proof {
                    assert(value as int == channel_body_value(body));
                    assert(channel_valid(value as int));
                    assert(channel_text_wf(s@));
                }
                if neg {
                    proof {
                        assert(sign_split(s@).0 == -1);
                    }
                    Some(-value)
                } else {
                    proof {
                        assert(sign_split(s@).0 == 1);
                    }
                    Some(value)
                }
            },
        }
    } else {
        let ilen = dot - start;
        let flen = len - dot - 1;
        if ilen > 7 || flen > 6 || ilen + flen < 1 {
            return None;
        }
        let ghost ip = body.subrange(0, first_dot(body));
        let ghost fp = body.subrange(first_dot(body) + 1, body.len() as int);
        proof {
            assert(ip =~= s@.subrange(start as int, dot as int));
            assert(fp =~= s@.subrange(dot + 1 as int, len as int));
        }
        let parsed_ip = parse_digits_range(s, start, dot);
        let parsed_fp = parse_digits_range(s, dot + 1, len);
        match (parsed_ip, parsed_fp) {
            (Some(iv), Some(fv)) => {
                proof {
                    reveal_with_fuel(pow10, 8);
                }
                let mult = pow10_u64((6 - flen) as u64);
                proof {
                    lemma_pow10_add(flen as int, 6 - flen as int);
                    lemma_pow10_pos(flen as int);
                    lemma_pow10_pos(6 - flen as int);
                    assert(fv * mult < pow10(6)) by (nonlinear_arith)
                        requires
                            fv < pow10(flen as int),
                            mult == pow10(6 - flen as int),
                            pow10(6) == pow10(flen as int) * pow10(6 - flen as int),
                            pow10(flen as int) >= 1,
                            pow10(6 - flen as int) >= 1,
                            fv >= 0,
                    ;
                    assert(fv * mult >= 0) by (nonlinear_arith)
                        requires
                            fv >= 0 && mult >= 1,
                    ;
                }
                proof {
                    assert(first_dot(body) == dot - start);
                    assert(iv as int == digits_value(ip));
                    assert(fv as int == digits_value(fp));
                    assert(fp.len() == flen);
                    assert(mult as int == pow10(6 - flen as int));
                    assert(iv < pow10(7));
                }
                let value: i64 = (iv as i64) * CHANNEL_SCALE + (fv as i64) * (mult as i64);
                proof {
                    assert(value as int == channel_body_value(body));
                    assert(channel_valid(value as int));
                    assert(channel_body_wf(body));
                    assert(channel_text_wf(s@));
                }
                if neg {
                    proof {
                        assert(sign_split(s@).0 == -1);
                    }
                    Some(-value)
                } else {
                    proof {
                        assert(sign_split(s@).0 == 1);
                    }
                    Some(value)
                }
            },
            _ => None,
        }
    }
}

} // verus!
