//! Notification wire-format decoder.
//!
//! One notification payload is UTF-8 text holding an object of the
//! form `{"x": <number>, "y": <number>, "z": <number>}`: the three
//! fields required exactly once each, in any order, with optional
//! blanks between tokens.  A number is an optional minus sign, one to
//! seven integer digits, and an optional fraction.  Values are decoded
//! to thousandths (further fraction digits are dropped), so a decoded
//! field is the reading in thousandths of 1 g.
//!
//! Payloads that are not UTF-8 fail with `InvalidEncoding`; payloads
//! that are text but not a complete object of this form fail with
//! `InvalidFormat`.  A sample is never partially populated.

use vstd::prelude::*;
use crate::digits::{pow10, lemma_pow10_pos, lemma_pow10_mono};
use vstd::arithmetic::mul::{lemma_mul_inequality, lemma_mul_is_associative};

verus! {

/// One decoded acceleration sample; fields in thousandths of 1 g.
#[derive(Clone, Copy, Debug, PartialEq, Eq, Structural)]
pub struct AccelSample {
    pub x: i64,
    pub y: i64,
    pub z: i64,
}

/// Why a payload was rejected.
#[derive(Clone, Copy, Debug, PartialEq, Eq, Structural)]
pub enum DecodeError {
    /// The payload is not valid UTF-8 text.
    InvalidEncoding,
    /// The text is not a complete `x`/`y`/`z` record.
    InvalidFormat,
}

/// Blank bytes allowed between tokens: space, tab, line feed,
/// carriage return.
pub open spec fn is_ws_byte(b: u8) -> bool {
    b == 32 || b == 9 || b == 10 || b == 13
}

pub open spec fn is_digit_byte(b: u8) -> bool {
    48 <= b <= 57
}

/// First index at or after `i` that does not hold a blank byte.
pub open spec fn spec_skip_ws(s: Seq<u8>, i: int) -> int
    decreases s.len() - i,
{
    if 0 <= i < s.len() && is_ws_byte(s[i]) {
        spec_skip_ws(s, i + 1)
    } else {
        i
    }
}

/// First index at or after `i` that does not hold a digit.
pub open spec fn spec_digits_end(s: Seq<u8>, i: int) -> int
    decreases s.len() - i,
{
    if 0 <= i < s.len() && is_digit_byte(s[i]) {
        spec_digits_end(s, i + 1)
    } else {
        i
    }
}

/// Value of the digit run `s[i..j]`, accumulated onto `acc`.
pub open spec fn spec_digits_val(s: Seq<u8>, i: int, j: int, acc: int) -> int
    decreases j - i,
{
    if i < j {
        spec_digits_val(s, i + 1, j, acc * 10 + (s[i] - 48))
    } else {
        acc
    }
}

/// Thousandths encoded by the fraction digits `s[i..j]`: the first
/// three digits weighted 100, 10 and 1; at most three are read.
pub open spec fn spec_frac_milli(s: Seq<u8>, i: int, j: int) -> int {
    let d1: int = if j - i >= 1 { s[i] - 48 } else { 0 };
    let d2: int = if j - i >= 2 { s[i + 1] - 48 } else { 0 };
    let d3: int = if j - i >= 3 { s[i + 2] - 48 } else { 0 };
    d1 * 100 + d2 * 10 + d3
}

pub open spec fn spec_apply_sign(neg: bool, v: int) -> int {
    if neg {
        -v
    } else {
        v
    }
}

/// Parses a number at `i`: optional minus sign, one to seven integer
/// digits, optional fraction of at least one digit.  Yields the value
/// in thousandths and the index after the number.
pub open spec fn spec_parse_number(s: Seq<u8>, i: int) -> Option<(int, int)> {
    let neg = 0 <= i < s.len() && s[i] == 45;
    let i1 = if neg {
        i + 1
    } else {
        i
    };
    let j = spec_digits_end(s, i1);
    if j == i1 || j - i1 > 7 {
        None
    } else if j < s.len() && s[j] == 46 {
        let fe = spec_digits_end(s, j + 1);
        if fe == j + 1 {
            None
        } else {
            let fu = if fe - (j + 1) <= 3 {
                fe
            } else {
                j + 4
            };
            Some(
                (
                    spec_apply_sign(
                        neg,
                        spec_digits_val(s, i1, j, 0) * 1000 + spec_frac_milli(s, j + 1, fu),
                    ),
                    fe,
                ),
            )
        }
    } else {
        Some((spec_apply_sign(neg, spec_digits_val(s, i1, j, 0) * 1000), j))
    }
}

/// Parses one `"name": number` member at `i`; the name must be `x`,
/// `y` or `z`.  Yields the name byte, the value in thousandths and the
/// index after the number.
pub open spec fn spec_parse_member(s: Seq<u8>, i: int) -> Option<(u8, int, int)> {
    if !(0 <= i < s.len() && s[i] == 34) {
        None
    } else {
        let n = i + 1;
        if !(n < s.len() && (s[n] == 120 || s[n] == 121 || s[n] == 122)) {
            None
        } else if !(n + 1 < s.len() && s[n + 1] == 34) {
            None
        } else {
            let c = spec_skip_ws(s, n + 2);
            if !(c < s.len() && s[c] == 58) {
                None
            } else {
                let v = spec_skip_ws(s, c + 1);
                match spec_parse_number(s, v) {
                    None => None,
                    Some((val, next)) => Some((s[n], val, next)),
                }
            }
        }
    }
}

/// Records a parsed member in the per-field slots; a duplicate field
/// is an error.
pub open spec fn spec_assign_field(
    f: u8,
    val: int,
    x: Option<int>,
    y: Option<int>,
    z: Option<int>,
) -> Option<(Option<int>, Option<int>, Option<int>)> {
    if f == 120 {
        if x is Some {
            None
        } else {
            Some((Some(val), y, z))
        }
    } else if f == 121 {
        if y is Some {
            None
        } else {
            Some((x, Some(val), z))
        }
    } else if f == 122 {
        if z is Some {
            None
        } else {
            Some((x, y, Some(val)))
        }
    } else {
        None
    }
}

/// Number of still-missing fields; the members parser recurses only
/// after filling one, so this bounds its depth.
pub open spec fn none_count<T>(x: Option<T>, y: Option<T>, z: Option<T>) -> nat {
    (if x is None {
        1nat
    } else {
        0nat
    }) + (if y is None {
        1nat
    } else {
        0nat
    }) + (if z is None {
        1nat
    } else {
        0nat
    })
}

/// Parses `member (, member)* }` from the first member on, filling the
/// per-field slots.  Yields the slots and the index after the closing
/// brace.
pub open spec fn spec_parse_members(
    s: Seq<u8>,
    i: int,
    x: Option<int>,
    y: Option<int>,
    z: Option<int>,
) -> Option<(Option<int>, Option<int>, Option<int>, int)>
    decreases none_count(x, y, z),
{
    match spec_parse_member(s, i) {
        None => None,
        Some((f, val, next)) => match spec_assign_field(f, val, x, y, z) {
            None => None,
            Some((x1, y1, z1)) => {
                let a = spec_skip_ws(s, next);
                if 0 <= a < s.len() && s[a] == 44 {
                    spec_parse_members(s, spec_skip_ws(s, a + 1), x1, y1, z1)
                } else if 0 <= a < s.len() && s[a] == 125 {
                    Some((x1, y1, z1, a + 1))
                } else {
                    None
                }
            },
        },
    }
}

/// Parses a whole payload: blanks, `{`, the three members in any
/// order, `}`, blanks, end of input.  Yields the x, y and z values in
/// thousandths.
pub open spec fn spec_parse_payload(s: Seq<u8>) -> Option<(int, int, int)> {
    let i = spec_skip_ws(s, 0);
    if !(i < s.len() && s[i] == 123) {
        None
    } else {
        let m = spec_skip_ws(s, i + 1);
        match spec_parse_members(s, m, None, None, None) {
            None => None,
            Some((ox, oy, oz, end)) => match (ox, oy, oz) {
                (Some(vx), Some(vy), Some(vz)) => {
                    if spec_skip_ws(s, end) == s.len() {
                        Some((vx, vy, vz))
                    } else {
                        None
                    }
                },
                _ => None,
            },
        }
    }
}

pub open spec fn is_cont_byte(b: u8) -> bool {
    128 <= b < 192
}

/// UTF-8 validity of `s` from `i` on, by the byte-range table of the
/// encoding: one-byte runs below 128, two- to four-byte runs led by
/// 194..=223, 224..=239 and 240..=244, with the over-long, surrogate
/// and out-of-range second bytes excluded.
pub open spec fn spec_utf8_ok(s: Seq<u8>, i: int) -> bool
    decreases s.len() - i,
{
    if i >= s.len() || i < 0 {
        true
    } else {
        let b = s[i];
        if b < 128 {
            spec_utf8_ok(s, i + 1)
        } else if 194 <= b <= 223 {
            i + 1 < s.len() && is_cont_byte(s[i + 1]) && spec_utf8_ok(s, i + 2)
        } else if b == 224 {
            i + 2 < s.len() && 160 <= s[i + 1] < 192 && is_cont_byte(s[i + 2]) && spec_utf8_ok(
                s,
                i + 3,
            )
        } else if 225 <= b <= 236 {
            i + 2 < s.len() && is_cont_byte(s[i + 1]) && is_cont_byte(s[i + 2]) && spec_utf8_ok(
                s,
                i + 3,
            )
        } else if b == 237 {
            i + 2 < s.len() && 128 <= s[i + 1] < 160 && is_cont_byte(s[i + 2]) && spec_utf8_ok(
                s,
                i + 3,
            )
        } else if 238 <= b <= 239 {
            i + 2 < s.len() && is_cont_byte(s[i + 1]) && is_cont_byte(s[i + 2]) && spec_utf8_ok(
                s,
                i + 3,
            )
        } else if b == 240 {
            i + 3 < s.len() && 144 <= s[i + 1] < 192 && is_cont_byte(s[i + 2]) && is_cont_byte(
                s[i + 3],
            ) && spec_utf8_ok(s, i + 4)
        } else if 241 <= b <= 243 {
            i + 3 < s.len() && is_cont_byte(s[i + 1]) && is_cont_byte(s[i + 2]) && is_cont_byte(
                s[i + 3],
            ) && spec_utf8_ok(s, i + 4)
        } else if b == 244 {
            i + 3 < s.len() && 128 <= s[i + 1] < 144 && is_cont_byte(s[i + 2]) && is_cont_byte(
                s[i + 3],
            ) && spec_utf8_ok(s, i + 4)
        } else {
            false
        }
    }
}

/// The decoder's full specification: UTF-8 is checked first, then the
/// record form; success carries the complete sample.
pub open spec fn spec_decode(s: Seq<u8>) -> Result<AccelSample, DecodeError> {
    if !spec_utf8_ok(s, 0) {
        Err(DecodeError::InvalidEncoding)
    } else {
        match spec_parse_payload(s) {
            None => Err(DecodeError::InvalidFormat),
            Some((vx, vy, vz)) => Ok(
                AccelSample { x: vx as i64, y: vy as i64, z: vz as i64 },
            ),
        }
    }
}

fn skip_ws(s: &[u8], i: usize) -> (r: usize)
    requires
        i <= s@.len(),
    ensures
        r == spec_skip_ws(s@, i as int),
        i <= r <= s@.len(),
    decreases s@.len() - i,
{
    if i < s.len() && (s[i] == 32 || s[i] == 9 || s[i] == 10 || s[i] == 13) {
        skip_ws(s, i + 1)
    } else {
        i
    }
}

fn digits_end(s: &[u8], i: usize) -> (r: usize)
    requires
        i <= s@.len(),
    ensures
        r == spec_digits_end(s@, i as int),
        i <= r <= s@.len(),
        forall|k: int| i <= k < r ==> is_digit_byte(s@[k]),
    decreases s@.len() - i,
{
    if i < s.len() && 48 <= s[i] && s[i] <= 57 {
        digits_end(s, i + 1)
    } else {
        i
    }
}

proof fn lemma_digits_val_bound(s: Seq<u8>, i: int, j: int, acc: int)
    requires
        0 <= i <= j <= s.len(),
        forall|k: int| i <= k < j ==> is_digit_byte(s[k]),
        0 <= acc,
    ensures
        acc * pow10((j - i) as nat) <= spec_digits_val(s, i, j, acc) < (acc + 1) * pow10(
            (j - i) as nat,
        ),
    decreases j - i,
{
    if i == j {
    } else {
        assert(is_digit_byte(s[i]));
        let d = s[i] - 48;
        let p = pow10((j - i - 1) as nat);
        lemma_pow10_pos((j - i - 1) as nat);
        lemma_digits_val_bound(s, i + 1, j, acc * 10 + d);
        assert(pow10((j - i) as nat) == 10 * p);
        lemma_mul_inequality(acc * 10, acc * 10 + d, p);
        lemma_mul_is_associative(acc, 10, p);
        lemma_mul_inequality(acc * 10 + d + 1, (acc + 1) * 10, p);
        lemma_mul_is_associative(acc + 1, 10, p);
    }
}

fn digits_val(s: &[u8], i: usize, j: usize, acc: i64) -> (r: i64)
    requires
        i <= j <= s@.len(),
        j - i <= 7,
        forall|k: int| i <= k < j ==> is_digit_byte(s@[k]),
        0 <= acc < pow10((7 - (j - i)) as nat),
    ensures
        r == spec_digits_val(s@, i as int, j as int, acc as int),
    decreases j - i,
{
    if i == j {
        acc
    } else {
        assert(is_digit_byte(s@[i as int]));
        let d = (s[i] - 48) as i64;
        proof {
            lemma_pow10_mono((7 - (j - i)) as nat, 7nat);
            reveal_with_fuel(pow10, 9);
            assert(pow10((7 - (j - i - 1)) as nat) == 10 * pow10((7 - (j - i)) as nat));
        }
        digits_val(s, i + 1, j, acc * 10 + d)
    }
}

fn parse_number(s: &[u8], i: usize) -> (r: Option<(i64, usize)>)
    requires
        i <= s@.len(),
    ensures
        match r {
            Some((v, next)) => spec_parse_number(s@, i as int) == Some((v as int, next as int))
                && i <= next <= s@.len(),
            None => spec_parse_number(s@, i as int) is None,
        },
{
    let neg = i < s.len() && s[i] == 45;
    let i1 = if neg {
        i + 1
    } else {
        i
    };
    let j = digits_end(s, i1);
    if j == i1 || j - i1 > 7 {
        return None;
    }
    proof {
        lemma_pow10_pos((7 - (j - i1)) as nat);
    }
    let int_part = digits_val(s, i1, j, 0);
    proof {
        lemma_digits_val_bound(s@, i1 as int, j as int, 0);
        lemma_pow10_mono((j - i1) as nat, 7nat);
        reveal_with_fuel(pow10, 9);
    }
    if j < s.len() && s[j] == 46 {
        let fs = j + 1;
        let fe = digits_end(s, fs);
        if fe == fs {
            return None;
        }
        let d1 = (s[fs] - 48) as i64;
        let d2 = if fe - fs >= 2 {
            (s[fs + 1] - 48) as i64
        } else {
            0
        };
        let d3 = if fe - fs >= 3 {
            (s[fs + 2] - 48) as i64
        } else {
            0
        };
        let frac = d1 * 100 + d2 * 10 + d3;
        let mag = int_part * 1000 + frac;
        let v = if neg {
            -mag
        } else {
            mag
        };
        Some((v, fe))
    } else {
        let mag = int_part * 1000;
        let v = if neg {
            -mag
        } else {
            mag
        };
        Some((v, j))
    }
}

fn parse_member(s: &[u8], i: usize) -> (r: Option<(u8, i64, usize)>)
    requires
        i <= s@.len(),
    ensures
        match r {
            Some((f, v, next)) => spec_parse_member(s@, i as int) == Some(
                (f, v as int, next as int),
            ) && i <= next <= s@.len() && (f == 120 || f == 121 || f == 122),
            None => spec_parse_member(s@, i as int) is None,
        },
{
    if !(i < s.len() && s[i] == 34) {
        return None;
    }
    let n = i + 1;
    if !(n < s.len() && (s[n] == 120 || s[n] == 121 || s[n] == 122)) {
        return None;
    }
    if !(s.len() - n > 1 && s[n + 1] == 34) {
        return None;
    }
    let c = skip_ws(s, n + 2);
    if !(c < s.len() && s[c] == 58) {
        return None;
    }
    let v0 = skip_ws(s, c + 1);
    match parse_number(s, v0) {
        None => None,
        Some((val, next)) => Some((s[n], val, next)),
    }
}

/// Spec view of an executable per-field slot.
pub open spec fn o2i(o: Option<i64>) -> Option<int> {
    match o {
        None => None,
        Some(v) => Some(v as int),
    }
}

fn parse_members(s: &[u8], i: usize, x: Option<i64>, y: Option<i64>, z: Option<i64>) -> (r: Option<
    (Option<i64>, Option<i64>, Option<i64>, usize),
>)
    requires
        i <= s@.len(),
    ensures
        (match r {
            Some((rx, ry, rz, rnext)) => spec_parse_members(s@, i as int, o2i(x), o2i(y), o2i(z))
                == Some((o2i(rx), o2i(ry), o2i(rz), rnext as int)) && rnext <= s@.len(),
            None => spec_parse_members(s@, i as int, o2i(x), o2i(y), o2i(z)) is None,
        }),
    decreases none_count(x, y, z),
{
    match parse_member(s, i) {
        None => None,
        Some((f, val, next)) => {
            let asg: Option<(Option<i64>, Option<i64>, Option<i64>)> = if f == 120 {
                if x.is_some() {
                    None
                } else {
                    Some((Some(val), y, z))
                }
            } else if f == 121 {
                if y.is_some() {
                    None
                } else {
                    Some((x, Some(val), z))
                }
            } else {
                if z.is_some() {
                    None
                } else {
                    Some((x, y, Some(val)))
                }
            };
            match asg {
                None => None,
                Some((x1, y1, z1)) => {
                    let a = skip_ws(s, next);
                    if a < s.len() && s[a] == 44 {
                        let m = skip_ws(s, a + 1);
                        parse_members(s, m, x1, y1, z1)
                    } else if a < s.len() && s[a] == 125 {
                        Some((x1, y1, z1, a + 1))
                    } else {
                        None
                    }
                },
            }
        },
    }
}

fn utf8_check(s: &[u8], i: usize) -> (r: bool)
    requires
        i <= s@.len(),
    ensures
        r == spec_utf8_ok(s@, i as int),
    decreases s@.len() - i,
{
    if i >= s.len() {
        true
    } else {
        let b = s[i];
        if b < 128 {
            utf8_check(s, i + 1)
        } else if 194 <= b && b <= 223 {
            s.len() - i > 1 && 128 <= s[i + 1] && s[i + 1] < 192 && utf8_check(s, i + 2)
        } else if b == 224 {
            s.len() - i > 2 && 160 <= s[i + 1] && s[i + 1] < 192 && 128 <= s[i + 2] && s[i + 2]
                < 192 && utf8_check(s, i + 3)
        } else if 225 <= b && b <= 236 {
            s.len() - i > 2 && 128 <= s[i + 1] && s[i + 1] < 192 && 128 <= s[i + 2] && s[i + 2]
                < 192 && utf8_check(s, i + 3)
        } else if b == 237 {
            s.len() - i > 2 && 128 <= s[i + 1] && s[i + 1] < 160 && 128 <= s[i + 2] && s[i + 2]
                < 192 && utf8_check(s, i + 3)
        } else if 238 <= b && b <= 239 {
            s.len() - i > 2 && 128 <= s[i + 1] && s[i + 1] < 192 && 128 <= s[i + 2] && s[i + 2]
                < 192 && utf8_check(s, i + 3)
        } else if b == 240 {
            s.len() - i > 3 && 144 <= s[i + 1] && s[i + 1] < 192 && 128 <= s[i + 2] && s[i + 2]
                < 192 && 128 <= s[i + 3] && s[i + 3] < 192 && utf8_check(s, i + 4)
        } else if 241 <= b && b <= 243 {
            s.len() - i > 3 && 128 <= s[i + 1] && s[i + 1] < 192 && 128 <= s[i + 2] && s[i + 2]
                < 192 && 128 <= s[i + 3] && s[i + 3] < 192 && utf8_check(s, i + 4)
        } else if b == 244 {
            s.len() - i > 3 && 128 <= s[i + 1] && s[i + 1] < 144 && 128 <= s[i + 2] && s[i + 2]
                < 192 && 128 <= s[i + 3] && s[i + 3] < 192 && utf8_check(s, i + 4)
        } else {
            false
        }
    }
}

/// Decodes one notification payload into a complete sample, or says
/// exactly why it was rejected.
pub fn decode(data: &[u8]) -> (r: Result<AccelSample, DecodeError>)
    ensures
        r == spec_decode(data@),
{
    if !utf8_check(data, 0) {
        return Err(DecodeError::InvalidEncoding);
    }
    let i = skip_ws(data, 0);
    if !(i < data.len() && data[i] == 123) {
        return Err(DecodeError::InvalidFormat);
    }
    let m = skip_ws(data, i + 1);
    match parse_members(data, m, None, None, None) {
        None => Err(DecodeError::InvalidFormat),
        Some((ox, oy, oz, end)) => match (ox, oy, oz) {
            (Some(x), Some(y), Some(z)) => {
                let t = skip_ws(data, end);
                if t == data.len() {
                    Ok(AccelSample { x, y, z })
                } else {
                    Err(DecodeError::InvalidFormat)
                }
            },
            _ => Err(DecodeError::InvalidFormat),
        },
    }
}

} // verus!
