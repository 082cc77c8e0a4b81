//! Verified parsing of integer and decimal text.
//!
//! Integer parsing mirrors the standard library: an optional sign (only
//! `+` for unsigned values), then one or more ASCII digits, with failure
//! on anything else or on overflow. Decimal text keeps the digits exact:
//! a parsed value is a sign, an integer mantissa and a decimal scale, so
//! `"1.24"` becomes mantissa 124 at scale 2.

use vstd::prelude::*;

use crate::text::{first_index_of, lemma_first_index_of, trimmed, str_chars, trim_chars};

verus! {

/// An ASCII decimal digit.
pub open spec fn is_digit(c: char) -> bool {
    '0' <= c && c <= '9'
}

pub open spec fn digit_val(c: char) -> int {
    c as int - '0' as int
}

/// Every character is an ASCII digit.
pub open spec fn all_digits(s: Seq<char>) -> bool {
    forall|i: int| 0 <= i < s.len() ==> is_digit(s[i])
}

/// The numeric value of a digit string, most significant digit first.
pub open spec fn digits_value(s: Seq<char>) -> int
    decreases s.len(),
{
    if s.len() == 0 {
        0
    } else {
        digits_value(s.drop_last()) * 10 + digit_val(s.last())
    }
}

/// The digits of an unsigned integer text: everything after an optional
/// leading `+`.
pub open spec fn unsigned_digits(s: Seq<char>) -> Seq<char> {
    if s.len() > 0 && s[0] == '+' {
        s.drop_first()
    } else {
        s
    }
}

/// Whether the text is an unsigned integer as the standard library
/// accepts it: an optional `+`, then one or more digits.
pub open spec fn is_unsigned_text(s: Seq<char>) -> bool {
    unsigned_digits(s).len() > 0 && all_digits(unsigned_digits(s))
}

pub open spec fn unsigned_value(s: Seq<char>) -> int {
    digits_value(unsigned_digits(s))
}

/// The digits of a signed integer text: everything after an optional
/// leading `+` or `-`.
pub open spec fn signed_digits(s: Seq<char>) -> Seq<char> {
    if s.len() > 0 && (s[0] == '+' || s[0] == '-') {
        s.drop_first()
    } else {
        s
    }
}

pub open spec fn is_signed_text(s: Seq<char>) -> bool {
    signed_digits(s).len() > 0 && all_digits(signed_digits(s))
}

pub open spec fn signed_value(s: Seq<char>) -> int {
    if s.len() > 0 && s[0] == '-' {
        -digits_value(signed_digits(s))
    } else {
        digits_value(signed_digits(s))
    }
}

pub proof fn lemma_digits_value_nonneg(s: Seq<char>)
    requires
        all_digits(s),
    ensures
        digits_value(s) >= 0,
    decreases s.len(),
{
    if s.len() > 0 {
        assert(all_digits(s.drop_last()));
        lemma_digits_value_nonneg(s.drop_last());
    }
}

/// A digit string is worth at least any of its prefixes.
pub proof fn lemma_digits_prefix_le(s: Seq<char>, i: int)
    requires
        all_digits(s),
        0 <= i <= s.len(),
    ensures
        digits_value(s.subrange(0, i)) <= digits_value(s),
    decreases s.len(),
{
    if i == s.len() {
        assert(s.subrange(0, i) =~= s);
    } else {
        let d = s.drop_last();
        assert(all_digits(d));
        assert(s.subrange(0, i) =~= d.subrange(0, i));
        lemma_digits_prefix_le(d, i);
        lemma_digits_value_nonneg(d);
        assert(digits_value(d) * 10 >= digits_value(d)) by (nonlinear_arith)
            requires
                digits_value(d) >= 0,
        ;
        assert(digits_value(s) >= digits_value(d));
    }
}

/// Parse a run of digits into a 64-bit value, exactly as far as it fits.
fn parse_digits_u64(v: &Vec<char>, start: usize) -> (r: Option<u64>)
    requires
        start <= v@.len(),
    ensures
        ({
            let d = v@.subrange(start as int, v@.len() as int);
            match r {
                Some(x) => d.len() > 0 && all_digits(d) && x == digits_value(d),
                None => !(d.len() > 0 && all_digits(d) && digits_value(d) <= u64::MAX),
            }
        }),
{
    let ghost n = v@.len() as int;
    let ghost d = v@.subrange(start as int, n);
    if start == v.len() {
        return None;
    }
    let mut acc: u64 = 0;
    let mut i: usize = start;
    while i < v.len()
        invariant
            start <= i <= v@.len(),
            n == v@.len(),
            d == v@.subrange(start as int, n),
            all_digits(v@.subrange(start as int, i as int)),
            acc == digits_value(v@.subrange(start as int, i as int)),
            forall|j: int| start <= j < i ==> d[j - start] == v@[j],
        decreases v@.len() - i,
    {
        let c = v[i];
        proof {
            assert(d[i - start as int] == v@[i as int]);
        }
        if !('0' <= c && c <= '9') {
            proof {
                assert(!is_digit(d[i - start as int]));
            }
            return None;
        }
        let dv: u64 = (c as u32 as u64) - 48;
        proof {
            let p = v@.subrange(start as int, i as int + 1);
            assert(p.drop_last() =~= v@.subrange(start as int, i as int));
            assert(p.last() == v@[i as int]);
            assert(digit_val(v@[i as int]) == dv as int);
        }
        if acc > (u64::MAX - dv) / 10 {
            proof {
                let p = v@.subrange(start as int, i as int + 1);
                assert(acc * 10 + dv > u64::MAX) by (nonlinear_arith)
                    requires
                        acc > (u64::MAX - dv) / 10,
                        dv <= u64::MAX,
                ;
                assert(digits_value(p) > u64::MAX);
                if all_digits(d) {
                    assert(p =~= d.subrange(0, i - start as int + 1));
                    lemma_digits_prefix_le(d, i - start as int + 1);
                    assert(digits_value(d) > u64::MAX);
                }
            }
            return None;
        }
        proof {
            assert(acc * 10 + dv <= u64::MAX) by (nonlinear_arith)
                requires
                    acc <= (u64::MAX - dv) / 10,
                    dv <= u64::MAX,
            ;
        }
        acc = acc * 10 + dv;
        i = i + 1;
    }
    proof {
        assert(v@.subrange(start as int, i as int) =~= d);
    }
    Some(acc)
}

/// Parse unsigned integer text (optional `+`, digits) if its value is at
/// most `max`; mirrors the standard library's unsigned parse, bounded.
pub fn parse_unsigned_max(v: &Vec<char>, max: u64) -> (r: Option<u64>)
    ensures
        match r {
            Some(x) => is_unsigned_text(v@) && x == unsigned_value(v@) && x <= max,
            None => !(is_unsigned_text(v@) && 0 <= unsigned_value(v@) <= max),
        },
{
    let ghost n = v@.len() as int;
    let start: usize = if v.len() > 0 && v[0] == '+' {
        1
    } else {
        0
    };
    proof {
        if v@.len() > 0 && v@[0] == '+' {
            assert(unsigned_digits(v@) =~= v@.subrange(1, n));
        } else {
            assert(unsigned_digits(v@) =~= v@.subrange(0, n));
        }
    }
    match parse_digits_u64(v, start) {
        Some(x) => {
            if x <= max {
                Some(x)
            } else {
                None
            }
        },
        None => None,
    }
}

/// Parse signed integer text (optional sign, digits) within the given
/// bounds; mirrors the standard library's signed parse, bounded.
pub fn parse_signed_range(v: &Vec<char>, min: i64, max: i64) -> (r: Option<i64>)
    requires
        min <= 0 <= max,
    ensures
        match r {
            Some(x) => is_signed_text(v@) && x == signed_value(v@) && min <= x <= max,
            None => !(is_signed_text(v@) && min <= signed_value(v@) <= max),
        },
{
    let ghost n = v@.len() as int;
    let negative = v.len() > 0 && v[0] == '-';
    let start: usize = if v.len() > 0 && (v[0] == '+' || v[0] == '-') {
        1
    } else {
        0
    };
    proof {
        if v@.len() > 0 && (v@[0] == '+' || v@[0] == '-') {
            assert(signed_digits(v@) =~= v@.subrange(1, n));
        } else {
            assert(signed_digits(v@) =~= v@.subrange(0, n));
        }
    }
    match parse_digits_u64(v, start) {
        Some(x) => {
            if negative {
                if min == i64::MIN {
                    if x <= 9223372036854775808u64 {
                        if x == 9223372036854775808u64 {
                            Some(i64::MIN)
                        } else {
                            Some(-(x as i64))
                        }
                    } else {
                        None
                    }
                } else {
                    if x <= (-min) as u64 {
                        Some(-(x as i64))
                    } else {
                        None
                    }
                }
            } else {
                if x <= max as u64 {
                    Some(x as i64)
                } else {
                    None
                }
            }
        },
        None => {
            proof {
                if is_signed_text(v@) {
                    lemma_digits_value_nonneg(signed_digits(v@));
                    if min <= signed_value(v@) <= max {
                        assert(digits_value(signed_digits(v@)) <= u64::MAX);
                    }
                }
            }
            None
        },
    }
}

/// An exact decimal value: sign, integer mantissa and decimal scale.
/// `"1.24"` parses to mantissa 124 at scale 2; the represented value is
/// `mantissa / 10^scale`, negated when `negative` holds.
#[derive(Debug, Clone, Copy, PartialEq, Eq, Structural)]
pub struct Decimal {
    pub negative: bool,
    pub mantissa: u64,
    pub scale: u32,
}

impl Decimal {
    /// The zero value every lenient numeric parse falls back to.
    pub fn zero() -> (r: Decimal)
        ensures
            r == (Decimal { negative: false, mantissa: 0u64, scale: 0u32 }),
    {
        Decimal { negative: false, mantissa: 0, scale: 0 }
    }
}

/// The digits before the decimal point, after an optional sign.
pub open spec fn decimal_int_digits(s: Seq<char>) -> Seq<char> {
    let b = signed_digits(s);
    b.subrange(0, first_index_of(b, '.'))
}

/// The digits after the decimal point; empty when there is no point.
pub open spec fn decimal_frac_digits(s: Seq<char>) -> Seq<char> {
    let b = signed_digits(s);
    let k = first_index_of(b, '.');
    if k < b.len() {
        b.subrange(k + 1, b.len() as int)
    } else {
        Seq::empty()
    }
}

/// All mantissa digits: integer part then fractional part.
pub open spec fn decimal_digits(s: Seq<char>) -> Seq<char> {
    decimal_int_digits(s) + decimal_frac_digits(s)
}

/// Whether the text is a plain decimal number: an optional sign, digits
/// with at most one point among them, at least one digit in all, a
/// mantissa that fits 64 bits and at most 65535 fractional digits.
pub open spec fn is_decimal_text(s: Seq<char>) -> bool {
    &&& decimal_digits(s).len() > 0
    &&& all_digits(decimal_int_digits(s))
    &&& all_digits(decimal_frac_digits(s))
    &&& digits_value(decimal_digits(s)) <= u64::MAX
    &&& decimal_frac_digits(s).len() <= 0xFFFF
}

pub open spec fn decimal_negative(s: Seq<char>) -> bool {
    s.len() > 0 && s[0] == '-'
}

pub open spec fn decimal_mantissa(s: Seq<char>) -> int {
    digits_value(decimal_digits(s))
}

pub open spec fn decimal_scale(s: Seq<char>) -> int {
    decimal_frac_digits(s).len() as int
}

/// Parse decimal text exactly: `Some` precisely on decimal text as
/// defined above, with the digits preserved in mantissa and scale.
pub fn parse_decimal(v: &Vec<char>) -> (r: Option<Decimal>)
    ensures
        match r {
            Some(d) => is_decimal_text(v@) && d.negative == decimal_negative(v@) && d.mantissa
                == decimal_mantissa(v@) && d.scale == decimal_scale(v@),
            None => !is_decimal_text(v@),
        },
{
    let ghost n = v@.len() as int;
    let negative = v.len() > 0 && v[0] == '-';
    let start: usize = if v.len() > 0 && (v[0] == '+' || v[0] == '-') {
        1
    } else {
        0
    };
    proof {
        if v@.len() > 0 && (v@[0] == '+' || v@[0] == '-') {
            assert(signed_digits(v@) =~= v@.subrange(1, n));
        } else {
            assert(signed_digits(v@) =~= v@.subrange(0, n));
        }
    }
    let body = crate::text::chars_slice(v, start, v.len());
    let ghost b = signed_digits(v@);
    proof {
        lemma_first_index_of(b, '.');
    }
    let (ip, rest) = crate::text::chars_split_first(&body, '.');
    let fp: Vec<char> = match rest {
        Some(f) => f,
        None => Vec::new(),
    };
    proof {
        let k = first_index_of(b, '.');
        if k < b.len() {
            assert(ip@ == b.subrange(0, k));
            assert(fp@ == b.subrange(k + 1, b.len() as int));
        } else {
            assert(ip@ == b);
            assert(b.subrange(0, k) =~= b);
            assert(fp@ =~= Seq::<char>::empty());
        }
        assert(ip@ == decimal_int_digits(v@));
        assert(fp@ == decimal_frac_digits(v@));
    }
    let mut digits = ip;
    let ghost ipv = digits@;
    let mut i: usize = 0;
    while i < fp.len()
        invariant
            i <= fp@.len(),
            digits@ == ipv + fp@.subrange(0, i as int),
        decreases fp@.len() - i,
    {
        digits.push(fp[i]);
        i = i + 1;
        proof {
            assert(digits@ =~= ipv + fp@.subrange(0, i as int));
        }
    }
    proof {
        assert(fp@.subrange(0, fp@.len() as int) =~= fp@);
        assert(digits@ == decimal_digits(v@));
    }
    if fp.len() > 0xFFFF {
        return None;
    }
    match crate::numbers::parse_digits_u64(&digits, 0) {
        Some(x) => {
            proof {
                let d = digits@;
                assert(d.subrange(0, d.len() as int) =~= d);
                assert forall|j: int| 0 <= j < ipv.len() implies is_digit(ipv[j]) by {
                    assert(d[j] == ipv[j]);
                }
                assert forall|j: int| 0 <= j < fp@.len() implies is_digit(fp@[j]) by {
                    assert(d[ipv.len() + j] == fp@[j]);
                }
            }
            Some(Decimal { negative, mantissa: x, scale: fp.len() as u32 })
        },
        None => {
            proof {
                let d = digits@;
                assert(d.subrange(0, d.len() as int) =~= d);
                if is_decimal_text(v@) {
                    assert forall|j: int| 0 <= j < d.len() implies is_digit(d[j]) by {
                        if j < ipv.len() {
                            assert(d[j] == ipv[j]);
                        } else {
                            assert(d[j] == fp@[j - ipv.len()]);
                        }
                    }
                }
            }
            None
        },
    }
}

/// What a lenient numeric cell is worth: the exact decimal of the
/// trimmed text, or the zero value when it is not decimal text.
pub open spec fn lenient_decimal_of(s: Seq<char>) -> Decimal {
    let t = trimmed(s);
    if is_decimal_text(t) {
        Decimal {
            negative: decimal_negative(t),
            mantissa: decimal_mantissa(t) as u64,
            scale: decimal_scale(t) as u32,
        }
    } else {
        Decimal { negative: false, mantissa: 0u64, scale: 0u32 }
    }
}

/// What a lenient count cell is worth: the trimmed text's value when it
/// is an unsigned number that fits 32 bits, else zero.
pub open spec fn lenient_u32_of(s: Seq<char>) -> int {
    u32_or_zero(trimmed(s))
}

/// Lenient decimal parse of trimmed text, zero on failure: the shape of
/// an auxiliary numeric statistics cell.
pub fn parse_lenient_decimal(text: &str) -> (r: Decimal)
    ensures
        r == lenient_decimal_of(text@),
{
    let v = str_chars(text);
    let t = trim_chars(&v);
    match parse_decimal(&t) {
        Some(d) => d,
        None => Decimal::zero(),
    }
}

/// Parse trimmed unsigned text leniently, as a numeric cell is read:
/// the value on success, zero on anything else.
pub fn parse_u32(text: &str) -> (r: u32)
    ensures
        r == lenient_u32_of(text@),
{
    let v = str_chars(text);
    let t = trim_chars(&v);
    match parse_unsigned_max(&t, 0xFFFF_FFFF) {
        Some(x) => {
            proof {
                assert(x as u32 as int == x as int) by (bit_vector)
                    requires
                        x <= 0xFFFF_FFFFu64,
                ;
            }
            x as u32
        },
        None => {
            proof {
                let t = trimmed(text@);
                if is_unsigned_text(t) {
                    lemma_digits_value_nonneg(unsigned_digits(t));
                }
            }
            0
        },
    }
}

/// Parse text as `u8`, exactly as the standard library would.
pub fn parse_u8_opt(v: &Vec<char>) -> (r: Option<u8>)
    ensures
        match r {
            Some(x) => is_unsigned_text(v@) && x == unsigned_value(v@),
            None => !(is_unsigned_text(v@) && unsigned_value(v@) <= u8::MAX),
        },
{
    match parse_unsigned_max(v, 255) {
        Some(x) => {
            proof {
                assert(x as u8 as int == x as int) by (bit_vector)
                    requires
                        x <= 255u64,
                ;
            }
            Some(x as u8)
        },
        None => {
            proof {
                if is_unsigned_text(v@) {
                    lemma_digits_value_nonneg(unsigned_digits(v@));
                }
            }
            None
        },
    }
}

/// Parse text as `u16`, exactly as the standard library would.
pub fn parse_u16_opt(v: &Vec<char>) -> (r: Option<u16>)
    ensures
        match r {
            Some(x) => is_unsigned_text(v@) && x == unsigned_value(v@),
            None => !(is_unsigned_text(v@) && unsigned_value(v@) <= u16::MAX),
        },
{
    match parse_unsigned_max(v, 65535) {
        Some(x) => {
            proof {
                assert(x as u16 as int == x as int) by (bit_vector)
                    requires
                        x <= 65535u64,
                ;
            }
            Some(x as u16)
        },
        None => {
            proof {
                if is_unsigned_text(v@) {
                    lemma_digits_value_nonneg(unsigned_digits(v@));
                }
            }
            None
        },
    }
}

/// Parse text as `u32`, exactly as the standard library would.
pub fn parse_u32_opt(v: &Vec<char>) -> (r: Option<u32>)
    ensures
        match r {
            Some(x) => is_unsigned_text(v@) && x == unsigned_value(v@),
            None => !(is_unsigned_text(v@) && unsigned_value(v@) <= u32::MAX),
        },
{
    match parse_unsigned_max(v, 0xFFFF_FFFF) {
        Some(x) => {
            proof {
                assert(x as u32 as int == x as int) by (bit_vector)
                    requires
                        x <= 0xFFFF_FFFFu64,
                ;
            }
            Some(x as u32)
        },
        None => {
            proof {
                if is_unsigned_text(v@) {
                    lemma_digits_value_nonneg(unsigned_digits(v@));
                }
            }
            None
        },
    }
}

/// Parse text as `i16`, exactly as the standard library would.
pub fn parse_i16_opt(v: &Vec<char>) -> (r: Option<i16>)
    ensures
        match r {
            Some(x) => is_signed_text(v@) && x == signed_value(v@),
            None => !(is_signed_text(v@) && i16::MIN <= signed_value(v@) <= i16::MAX),
        },
{
    match parse_signed_range(v, -32768, 32767) {
        Some(x) => {
            proof {
                assert(x as i16 as int == x as int) by (bit_vector)
                    requires
                        -32768i64 <= x <= 32767i64,
                ;
            }
            Some(x as i16)
        },
        None => None,
    }
}

/// The value of unsigned text when it fits 32 bits, else zero: the
/// lenient identity-field default.
pub open spec fn u32_or_zero(s: Seq<char>) -> int {
    if is_unsigned_text(s) && unsigned_value(s) <= u32::MAX {
        unsigned_value(s)
    } else {
        0
    }
}

/// The value of unsigned text when it fits 8 bits, else zero.
pub open spec fn u8_or_zero(s: Seq<char>) -> int {
    if is_unsigned_text(s) && unsigned_value(s) <= u8::MAX {
        unsigned_value(s)
    } else {
        0
    }
}

/// The value of unsigned text when it fits 16 bits, else zero.
pub open spec fn u16_or_zero(s: Seq<char>) -> int {
    if is_unsigned_text(s) && unsigned_value(s) <= u16::MAX {
        unsigned_value(s)
    } else {
        0
    }
}

/// Parse as `u16`, zero on anything unreadable.
pub fn parse_u16_default(v: &Vec<char>) -> (r: u16)
    ensures
        r == u16_or_zero(v@),
{
    match parse_u16_opt(v) {
        Some(x) => x,
        None => {
            proof {
                if is_unsigned_text(v@) {
                    lemma_digits_value_nonneg(unsigned_digits(v@));
                }
            }
            0
        },
    }
}

/// Parse as `u32`, zero on anything unreadable.
pub fn parse_u32_default(v: &Vec<char>) -> (r: u32)
    ensures
        r == u32_or_zero(v@),
{
    match parse_u32_opt(v) {
        Some(x) => x,
        None => {
            proof {
                if is_unsigned_text(v@) {
                    lemma_digits_value_nonneg(unsigned_digits(v@));
                }
            }
            0
        },
    }
}

/// Parse as `u8`, zero on anything unreadable.
pub fn parse_u8_default(v: &Vec<char>) -> (r: u8)
    ensures
        r == u8_or_zero(v@),
{
    match parse_u8_opt(v) {
        Some(x) => x,
        None => {
            proof {
                if is_unsigned_text(v@) {
                    lemma_digits_value_nonneg(unsigned_digits(v@));
                }
            }
            0
        },
    }
}

} // verus!
