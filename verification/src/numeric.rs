use vstd::prelude::*;
use rustc_apfloat::Float;

verus! {

// Numbers are IEEE-754 double-precision values carried as their 64-bit
// patterns. Sign tests, negation and the classification of NaN, infinities
// and zeros are plain bit arithmetic and are implemented and verified here.
// Rounding arithmetic, ordered comparison and decimal conversion are done by
// the rustc_apfloat crate, a software implementation of the same IEEE-754
// operations; each such call sits behind a trusted wrapper whose result is
// named by an uninterpreted spec function of the operand bits.

/// Sum of two doubles, rounded to nearest, ties to even.
pub uninterp spec fn add_bits(a: u64, b: u64) -> u64;

/// Difference of two doubles, rounded to nearest, ties to even.
pub uninterp spec fn sub_bits(a: u64, b: u64) -> u64;

/// Product of two doubles, rounded to nearest, ties to even.
pub uninterp spec fn mul_bits(a: u64, b: u64) -> u64;

/// Quotient of two doubles, rounded to nearest, ties to even.
pub uninterp spec fn div_bits(a: u64, b: u64) -> u64;

/// Remainder of two doubles with the sign of the dividend (C `fmod`).
pub uninterp spec fn rem_bits(a: u64, b: u64) -> u64;

/// IEEE equality of two doubles: false when either is NaN, and the two
/// zeros are equal whatever their signs.
pub uninterp spec fn eq_bits(a: u64, b: u64) -> bool;

/// IEEE ordered comparison `a < b`: false when either is NaN.
pub uninterp spec fn lt_bits(a: u64, b: u64) -> bool;

/// IEEE ordered comparison `a > b`: false when either is NaN.
pub uninterp spec fn gt_bits(a: u64, b: u64) -> bool;

/// IEEE ordered comparison `a <= b`: false when either is NaN.
pub uninterp spec fn le_bits(a: u64, b: u64) -> bool;

/// IEEE ordered comparison `a >= b`: false when either is NaN.
pub uninterp spec fn ge_bits(a: u64, b: u64) -> bool;

/// The decimal text of a finite double at the given number of significant
/// digits, as ASCII bytes: an optional minus sign, then the digits, either
/// positionally with a decimal point where one is needed, or as
/// `d.dddE+ee` when the positional form would show more places than the
/// digit count asked for.
pub uninterp spec fn num_text_digits(bits: u64, digits: int) -> Seq<u8>;

/// The double nearest to the decimal text (ties to even), or `None` when the
/// text is not a number.
pub uninterp spec fn parsed_bits(s: Seq<char>) -> Option<u64>;

/// The sign bit of a double.
pub open spec fn sign_of(bits: u64) -> bool {
    bits >> 63 == 1
}

/// True when the bits encode a NaN: exponent field all ones, mantissa not zero.
pub open spec fn is_nan_bits(bits: u64) -> bool {
    (bits >> 52) & 0x7ff == 0x7ff && bits & 0xf_ffff_ffff_ffff != 0
}

/// True when the bits encode an infinity: exponent field all ones, mantissa zero.
pub open spec fn is_inf_bits(bits: u64) -> bool {
    (bits >> 52) & 0x7ff == 0x7ff && bits & 0xf_ffff_ffff_ffff == 0
}

/// IEEE negation flips the sign bit and nothing else.
pub open spec fn neg_bits(bits: u64) -> u64 {
    bits ^ 0x8000_0000_0000_0000
}

/// ASCII bytes read as the characters they encode.
pub open spec fn ascii_chars(s: Seq<u8>) -> Seq<char> {
    s.map_values(|b: u8| b as char)
}

/// The first position at or after `i` holding the byte `b`, or the length.
pub open spec fn find_pos(s: Seq<u8>, b: u8, i: int) -> int
    decreases s.len() - i,
{
    if i < 0 || i >= s.len() {
        s.len() as int
    } else if s[i] == b {
        i
    } else {
        find_pos(s, b, i + 1)
    }
}

/// The value of the decimal digits from `i` to the end, on top of `acc`;
/// nothing when a non-digit stands there or the value grows past any
/// possible double exponent.
pub open spec fn exp_value(s: Seq<u8>, i: int, acc: int) -> Option<int>
    decreases s.len() - i,
{
    if acc > 10000 {
        None
    } else if i >= s.len() {
        Some(acc)
    } else if 48 <= s[i] <= 57 {
        exp_value(s, i + 1, acc * 10 + (s[i] - 48))
    } else {
        None
    }
}

/// The end of the fraction once trailing zero bytes are dropped.
pub open spec fn fraction_end(s: Seq<u8>, start: int, end: int) -> int
    decreases end - start,
{
    if end <= start {
        end
    } else if s[end - 1] == 48 {
        fraction_end(s, start, end - 1)
    } else {
        end
    }
}

/// A run of zero digits.
pub open spec fn zero_bytes(n: nat) -> Seq<u8> {
    Seq::new(n, |i: int| 48u8)
}

/// The positional reading of a `d.dddE+ee` text: the significant digits
/// followed by as many zeros as the exponent asks for beyond them. Texts of
/// any other shape, including every text without an exponent, read as
/// nothing.
pub open spec fn expand_opt(s: Seq<u8>) -> Option<Seq<u8>> {
    let epos = find_pos(s, 69, 0);  // 'E'
    if epos >= s.len() || epos + 1 >= s.len() || s[epos + 1] != 43 {  // '+'
        None
    } else {
        match exp_value(s, epos + 2, 0) {
            None => None,
            Some(e) => {
                let neg = s[0] == 45;  // '-'
                let p0: int = if neg {
                    1
                } else {
                    0
                };
                if p0 >= epos {
                    None
                } else {
                    let has_dot = p0 + 1 < epos && s[p0 + 1] == 46;  // '.'
                    if p0 + 1 != epos && !has_dot {
                        None
                    } else {
                        let frac = if has_dot {
                            s.subrange(p0 + 2, fraction_end(s, p0 + 2, epos))
                        } else {
                            Seq::<u8>::empty()
                        };
                        let digits = seq![s[p0]] + frac;
                        if e < digits.len() - 1 {
                            None
                        } else {
                            let sign = if neg {
                                seq![45u8]
                            } else {
                                Seq::<u8>::empty()
                            };
                            Some(sign + digits + zero_bytes((e - (digits.len() - 1)) as nat))
                        }
                    }
                }
            },
        }
    }
}

/// The text with any exponent form expanded into plain positional digits.
pub open spec fn flat_text(s: Seq<u8>) -> Seq<u8> {
    match expand_opt(s) {
        Some(t) => t,
        None => s,
    }
}

/// The shortest positional decimal text, from `k` significant digits up,
/// that reads back as exactly the given double; seventeen digits always do.
pub open spec fn shortest_text_from(bits: u64, k: int) -> Seq<u8>
    decreases 17 - k,
{
    if k >= 17 {
        flat_text(num_text_digits(bits, 17))
    } else if parsed_bits(ascii_chars(flat_text(num_text_digits(bits, k)))) == Some(bits) {
        flat_text(num_text_digits(bits, k))
    } else {
        shortest_text_from(bits, k + 1)
    }
}

/// The display text of a double: `NaN`, `inf` and `-inf` for the non-finite
/// values, else the shortest positional decimal text that reads back as the
/// same value.
pub open spec fn number_text(bits: u64) -> Seq<char> {
    if is_nan_bits(bits) {
        "NaN"@
    } else if is_inf_bits(bits) {
        if sign_of(bits) {
            "-inf"@
        } else {
            "inf"@
        }
    } else {
        ascii_chars(shortest_text_from(bits, 1))
    }
}

/// Relies on rustc_apfloat's `Double` addition, round to nearest, ties to
/// even; the result depends on the operand bits alone.
#[verifier::external_body]
pub(crate) fn num_add(a: u64, b: u64) -> (r: u64)
    ensures
        r == add_bits(a, b),
{
    let x = rustc_apfloat::ieee::Double::from_bits(a as u128);
    let y = rustc_apfloat::ieee::Double::from_bits(b as u128);
    (x + y).value.to_bits() as u64
}

/// Relies on rustc_apfloat's `Double` subtraction, round to nearest, ties to
/// even; the result depends on the operand bits alone.
#[verifier::external_body]
pub(crate) fn num_sub(a: u64, b: u64) -> (r: u64)
    ensures
        r == sub_bits(a, b),
{
    let x = rustc_apfloat::ieee::Double::from_bits(a as u128);
    let y = rustc_apfloat::ieee::Double::from_bits(b as u128);
    (x - y).value.to_bits() as u64
}

/// Relies on rustc_apfloat's `Double` multiplication, round to nearest, ties
/// to even; the result depends on the operand bits alone.
#[verifier::external_body]
pub(crate) fn num_mul(a: u64, b: u64) -> (r: u64)
    ensures
        r == mul_bits(a, b),
{
    let x = rustc_apfloat::ieee::Double::from_bits(a as u128);
    let y = rustc_apfloat::ieee::Double::from_bits(b as u128);
    (x * y).value.to_bits() as u64
}

/// Relies on rustc_apfloat's `Double` division, round to nearest, ties to
/// even; the result depends on the operand bits alone.
#[verifier::external_body]
pub(crate) fn num_div(a: u64, b: u64) -> (r: u64)
    ensures
        r == div_bits(a, b),
{
    let x = rustc_apfloat::ieee::Double::from_bits(a as u128);
    let y = rustc_apfloat::ieee::Double::from_bits(b as u128);
    (x / y).value.to_bits() as u64
}

/// Relies on rustc_apfloat's `Double` remainder (`c_fmod`), which keeps the
/// sign of the dividend; the result depends on the operand bits alone.
#[verifier::external_body]
pub(crate) fn num_rem(a: u64, b: u64) -> (r: u64)
    ensures
        r == rem_bits(a, b),
{
    let x = rustc_apfloat::ieee::Double::from_bits(a as u128);
    let y = rustc_apfloat::ieee::Double::from_bits(b as u128);
    (x % y).value.to_bits() as u64
}

/// Relies on rustc_apfloat's `Double` equality: `partial_cmp` is `Equal`,
/// so NaN equals nothing and the two zeros are equal.
#[verifier::external_body]
pub(crate) fn num_eq(a: u64, b: u64) -> (r: bool)
    ensures
        r == eq_bits(a, b),
{
    let x = rustc_apfloat::ieee::Double::from_bits(a as u128);
    let y = rustc_apfloat::ieee::Double::from_bits(b as u128);
    x == y
}

/// Relies on rustc_apfloat's `Double` ordered comparison; false on NaN.
#[verifier::external_body]
pub(crate) fn num_lt(a: u64, b: u64) -> (r: bool)
    ensures
        r == lt_bits(a, b),
{
    let x = rustc_apfloat::ieee::Double::from_bits(a as u128);
    let y = rustc_apfloat::ieee::Double::from_bits(b as u128);
    x < y
}

/// Relies on rustc_apfloat's `Double` ordered comparison; false on NaN.
#[verifier::external_body]
pub(crate) fn num_gt(a: u64, b: u64) -> (r: bool)
    ensures
        r == gt_bits(a, b),
{
    let x = rustc_apfloat::ieee::Double::from_bits(a as u128);
    let y = rustc_apfloat::ieee::Double::from_bits(b as u128);
    x > y
}

/// Relies on rustc_apfloat's `Double` ordered comparison; false on NaN.
#[verifier::external_body]
pub(crate) fn num_le(a: u64, b: u64) -> (r: bool)
    ensures
        r == le_bits(a, b),
{
    let x = rustc_apfloat::ieee::Double::from_bits(a as u128);
    let y = rustc_apfloat::ieee::Double::from_bits(b as u128);
    x <= y
}

/// Relies on rustc_apfloat's `Double` ordered comparison; false on NaN.
#[verifier::external_body]
pub(crate) fn num_ge(a: u64, b: u64) -> (r: bool)
    ensures
        r == ge_bits(a, b),
{
    let x = rustc_apfloat::ieee::Double::from_bits(a as u128);
    let y = rustc_apfloat::ieee::Double::from_bits(b as u128);
    x >= y
}

/// Relies on rustc_apfloat's decimal formatting of a `Double` at the given
/// number of significant digits; the text depends on the bits and the digit
/// count alone, and every byte of it is ASCII.
#[verifier::external_body]
pub(crate) fn fmt_digits(bits: u64, digits: usize) -> (r: Vec<u8>)
    ensures
        r@ == num_text_digits(bits, digits as int),
        forall|i: int| 0 <= i < r@.len() ==> r@[i] < 128,
{
    let value = rustc_apfloat::ieee::Double::from_bits(bits as u128);
    format!("{:1000.*}", digits, value).into_bytes()
}

/// Relies on `String::from_utf8`: ASCII bytes become the string of exactly
/// those characters.
#[verifier::external_body]
pub(crate) fn ascii_to_string(bytes: Vec<u8>) -> (r: String)
    requires
        forall|i: int| 0 <= i < bytes@.len() ==> bytes@[i] < 128,
    ensures
        r@ == ascii_chars(bytes@),
{
    String::from_utf8(bytes).unwrap()
}

/// Relies on rustc_apfloat's decimal parsing of a `Double`, round to
/// nearest, ties to even; the result depends on the text alone.
#[verifier::external_body]
pub(crate) fn parse_bits(s: &str) -> (r: Option<u64>)
    ensures
        r == parsed_bits(s@),
{
    match <rustc_apfloat::ieee::Double as core::str::FromStr>::from_str(s) {
        Ok(v) => Some(v.to_bits() as u64),
        Err(_) => None,
    }
}

/// Negation of a double: the sign bit flips, whatever the value.
pub fn num_neg(bits: u64) -> (r: u64)
    ensures
        r == neg_bits(bits),
{
    bits ^ 0x8000_0000_0000_0000
}

/// The first position at or after `i` holding the byte `b`, or the length.
fn find_byte(s: &Vec<u8>, b: u8, i: usize) -> (r: usize)
    requires
        i <= s@.len(),
    ensures
        r == find_pos(s@, b, i as int),
    decreases s@.len() - i,
{
    if i >= s.len() {
        s.len()
    } else if s[i] == b {
        i
    } else {
        find_byte(s, b, i + 1)
    }
}

/// The value of the decimal digits from `i` to the end, on top of `acc`.
fn exp_digits(s: &Vec<u8>, i: usize, acc: usize) -> (r: Option<usize>)
    requires
        i <= s@.len(),
    ensures
        (match r {
            Some(v) => exp_value(s@, i as int, acc as int) == Some(v as int),
            None => exp_value(s@, i as int, acc as int) is None,
        }),
    decreases s@.len() - i,
{
    if acc > 10000 {
        None
    } else if i >= s.len() {
        Some(acc)
    } else if 48 <= s[i] && s[i] <= 57 {
        exp_digits(s, i + 1, acc * 10 + (s[i] - 48) as usize)
    } else {
        None
    }
}

/// The end of the fraction once trailing zero bytes are dropped.
fn fraction_end_at(s: &Vec<u8>, start: usize, end: usize) -> (r: usize)
    requires
        end <= s@.len(),
    ensures
        r == fraction_end(s@, start as int, end as int),
        r <= end,
        start <= end ==> start <= r,
    decreases end,
{
    if end <= start {
        end
    } else if s[end - 1] == 48 {
        fraction_end_at(s, start, end - 1)
    } else {
        end
    }
}

/// The positional reading of a `d.dddE+ee` text, or nothing for a text of
/// any other shape.
fn expand_exp(s: &Vec<u8>) -> (r: Option<Vec<u8>>)
    ensures
        (match r {
            Some(v) => expand_opt(s@) == Some(v@),
            None => expand_opt(s@) is None,
        }),
        (match r {
            Some(v) => (forall|i: int| 0 <= i < s@.len() ==> s@[i] < 128) ==> (forall|i: int|
                0 <= i < v@.len() ==> v@[i] < 128),
            None => true,
        }),
{
    let n = s.len();
    let epos = find_byte(s, 69, 0);
    if epos >= n || epos + 1 >= n || s[epos + 1] != 43 {
        return None;
    }
    let e = match exp_digits(s, epos + 2, 0) {
        Some(e) => e,
        None => {
            return None;
        },
    };
    let neg = s[0] == 45;
    let p0: usize = if neg {
        1
    } else {
        0
    };
    if p0 >= epos {
        return None;
    }
    let has_dot = p0 + 1 < epos && s[p0 + 1] == 46;
    if p0 + 1 != epos && !has_dot {
        return None;
    }
    let fend = if has_dot {
        fraction_end_at(s, p0 + 2, epos)
    } else {
        p0 + 2
    };
    let frac_len: usize = if has_dot {
        fend - (p0 + 2)
    } else {
        0
    };
    if e < frac_len {
        return None;
    }
    let mut out: Vec<u8> = Vec::new();
    if neg {
        out.push(45);
    }
    out.push(s[p0]);
    let ghost sign_digit = (if neg {
        seq![45u8]
    } else {
        Seq::<u8>::empty()
    }) + seq![s@[p0 as int]];
    let mut i: usize = p0 + 2;
    while has_dot && i < fend
        invariant
            p0 + 2 <= i,
            has_dot ==> i <= fend,
            !has_dot ==> i == p0 + 2,
            fend <= s@.len(),
            out@ == sign_digit + s@.subrange(p0 + 2, i as int),
        decreases fend - i,
    {
        out.push(s[i]);
        proof {
            assert(out@ =~= sign_digit + s@.subrange(p0 + 2, i + 1));
        }
        i = i + 1;
    }
    let ghost frac = (if has_dot {
        s@.subrange(p0 + 2, fraction_end(s@, p0 + 2, epos as int))
    } else {
        Seq::<u8>::empty()
    });
    proof {
        assert(out@ =~= sign_digit + frac);
    }
    let zeros = e - frac_len;
    let mut z: usize = 0;
    while z < zeros
        invariant
            z <= zeros,
            out@ == sign_digit + frac + zero_bytes(z as nat),
        decreases zeros - z,
    {
        out.push(48);
        proof {
            assert(out@ =~= sign_digit + frac + zero_bytes((z + 1) as nat));
        }
        z = z + 1;
    }
    proof {
        let digits = seq![s@[p0 as int]] + frac;
        assert(e >= digits.len() - 1);
        assert(out@ =~= (if neg {
            seq![45u8]
        } else {
            Seq::<u8>::empty()
        }) + digits + zero_bytes((e - (digits.len() - 1)) as nat));
    }
    Some(out)
}

/// The text with any exponent form expanded into plain positional digits.
fn flatten_text(raw: Vec<u8>) -> (r: Vec<u8>)
    ensures
        r@ == flat_text(raw@),
        (forall|i: int| 0 <= i < raw@.len() ==> raw@[i] < 128) ==> (forall|i: int|
            0 <= i < r@.len() ==> r@[i] < 128),
{
    match expand_exp(&raw) {
        Some(v) => v,
        None => raw,
    }
}

/// The display text of a double as an owned string.
pub fn number_string(bits: u64) -> (r: String)
    ensures
        r@ == number_text(bits),
{
    let exp = (bits >> 52) & 0x7ff;
    let mantissa = bits & 0xf_ffff_ffff_ffff;
    if exp == 0x7ff {
        if mantissa != 0 {
            return "NaN".to_owned();
        }
        if bits >> 63 == 1 {
            return "-inf".to_owned();
        }
        return "inf".to_owned();
    }
    let mut k: usize = 1;
    while k < 17
        invariant
            1 <= k <= 17,
            !is_nan_bits(bits),
            !is_inf_bits(bits),
            shortest_text_from(bits, 1) == shortest_text_from(bits, k as int),
        decreases 17 - k,
    {
        let flat = flatten_text(fmt_digits(bits, k));
        let text = ascii_to_string(flat);
        match parse_bits(text.as_str()) {
            Some(back) => {
                if back == bits {
                    return text;
                }
            },
            None => {},
        }
        k = k + 1;
    }
    let flat = flatten_text(fmt_digits(bits, 17));
    ascii_to_string(flat)
}

} // verus!
