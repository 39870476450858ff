//! Screen-rotation planning.
//!
//! `rotate` turns a platform, a display identifier and a target
//! orientation into a concrete rotation request: either the argument
//! string for the compositor control utility, or a display index plus
//! orientation for the raw display-mode API.  Executing the request is
//! I/O and is left to the caller.

use vstd::prelude::*;
use crate::digits::{pow10, lemma_pow10_mono};

verus! {

/// Host platform whose rotation mechanism is targeted.
#[derive(Clone, Copy, Debug, PartialEq, Eq, Structural)]
pub enum Platform {
    Windows,
    Kde,
}

/// One of the four screen orientations.
#[derive(Clone, Copy, Debug, PartialEq, Eq, Structural)]
pub enum Orientation {
    D0,
    D90,
    D180,
    D270,
}

/// Rotation planning error.
#[derive(Clone, Copy, Debug, PartialEq, Eq, Structural)]
pub enum RotateError {
    /// The display identifier is not a positive decimal index.
    InvalidDisplayNumber,
}

/// A fully planned rotation, ready to be executed by the I/O shell.
#[derive(Clone, Debug, PartialEq, Eq)]
pub enum RotationRequest {
    /// Invoke the compositor control utility with this argument.
    Compositor { argument: String },
    /// Change the mode of the display with this 1-based index.
    DisplayMode { display: usize, orientation: Orientation },
}

/// The rotation keyword the compositor utility expects for each
/// orientation.
pub open spec fn spec_orientation_name(orientation: Orientation) -> Seq<char> {
    match orientation {
        Orientation::D0 => "normal"@,
        Orientation::D90 => "left"@,
        Orientation::D180 => "inverted"@,
        Orientation::D270 => "right"@,
    }
}

/// Rotation keyword for the compositor control utility.
pub fn orientation_name(orientation: Orientation) -> (r: &'static str)
    ensures
        r@ == spec_orientation_name(orientation),
{
    match orientation {
        Orientation::D0 => "normal",
        Orientation::D90 => "left",
        Orientation::D180 => "inverted",
        Orientation::D270 => "right",
    }
}

/// The single argument handed to the compositor control utility.
pub open spec fn spec_compositor_argument(display: Seq<char>, orientation: Orientation) -> Seq<char> {
    "output."@ + display + ".rotation."@ + spec_orientation_name(orientation)
}

pub open spec fn is_digit_char(c: char) -> bool {
    48 <= c as int <= 57
}

/// Value of the decimal digits of `s` from `i` on, accumulated onto `acc`.
pub open spec fn spec_char_digits_val(s: Seq<char>, i: int, acc: int) -> int
    decreases s.len() - i,
{
    if 0 <= i < s.len() {
        spec_char_digits_val(s, i + 1, acc * 10 + (s[i] as int - 48))
    } else {
        acc
    }
}

/// A display identifier is a 1-based decimal index: one to nine digits,
/// value at least one.
pub open spec fn spec_parse_display_index(s: Seq<char>) -> Option<int> {
    if 1 <= s.len() <= 9 && (forall|i: int| 0 <= i < s.len() ==> is_digit_char(s[i]))
        && spec_char_digits_val(s, 0, 0) >= 1 {
        Some(spec_char_digits_val(s, 0, 0))
    } else {
        None
    }
}

/// Parses a 1-based display index from its decimal text form.
pub fn parse_display_index(display: &str) -> (r: Option<usize>)
    ensures
        match r {
            Some(n) => spec_parse_display_index(display@) == Some(n as int),
            None => spec_parse_display_index(display@) is None,
        },
{
    let len = display.unicode_len();
    if len < 1 || len > 9 {
        return None;
    }
    let mut acc: usize = 0;
    let mut i: usize = 0;
    while i < len
        invariant
            0 <= i <= len,
            len == display@.len(),
            1 <= len <= 9,
            acc < pow10(i as nat),
            spec_char_digits_val(display@, i as int, acc as int)
                == spec_char_digits_val(display@, 0, 0),
            forall|j: int| 0 <= j < i ==> is_digit_char(display@[j]),
        decreases len - i,
    {
        let c = display.get_char(i);
        let code = c as u32;
        if code < 48 || code > 57 {
            return None;
        }
        let d: usize = (code - 48) as usize;
        proof {
            lemma_pow10_mono(i as nat, 8);
            reveal_with_fuel(pow10, 10);
            assert(acc < pow10(8));
            assert(spec_char_digits_val(display@, i as int, acc as int)
                == spec_char_digits_val(display@, i + 1, acc as int * 10 + (display@[i as int] as int
                - 48)));
        }
        acc = acc * 10 + d;
        i = i + 1;
    }
    if acc == 0 {
        return None;
    }
    Some(acc)
}

/// What a correct rotation plan for the given inputs looks like.
pub open spec fn rotation_request_matches(
    req: RotationRequest,
    platform: Platform,
    display: Seq<char>,
    orientation: Orientation,
) -> bool {
    match platform {
        Platform::Kde => match req {
            RotationRequest::Compositor { argument } => argument@ == spec_compositor_argument(
                display,
                orientation,
            ),
            _ => false,
        },
        Platform::Windows => match req {
            RotationRequest::DisplayMode { display: d, orientation: o } => {
                &&& spec_parse_display_index(display) == Some(d as int)
                &&& o == orientation
            },
            _ => false,
        },
    }
}

/// Full contract of `rotate`: success carries a matching plan; the only
/// failure is an invalid display index on the raw display-mode platform.
pub open spec fn rotate_result_matches(
    r: Result<RotationRequest, RotateError>,
    platform: Platform,
    display: Seq<char>,
    orientation: Orientation,
) -> bool {
    match r {
        Ok(req) => rotation_request_matches(req, platform, display, orientation),
        Err(e) => {
            &&& platform == Platform::Windows
            &&& spec_parse_display_index(display) is None
            &&& e == RotateError::InvalidDisplayNumber
        },
    }
}

/// Plans the rotation of `display` to `orientation` on `platform`.
///
/// On the compositor platform this always succeeds and yields the
/// utility's argument string; on the raw display-mode platform the
/// display identifier must be a positive decimal index.
pub fn rotate(platform: Platform, display: &str, orientation: Orientation) -> (r: Result<
    RotationRequest,
    RotateError,
>)
    ensures
        rotate_result_matches(r, platform, display@, orientation),
{
    match platform {
        Platform::Windows => match parse_display_index(display) {
            Some(n) => Ok(RotationRequest::DisplayMode { display: n, orientation }),
            None => Err(RotateError::InvalidDisplayNumber),
        },
        Platform::Kde => {
            let mut argument = String::new();
            argument.append("output.");
            argument.append(display);
            argument.append(".rotation.");
            argument.append(orientation_name(orientation));
            proof {
                assert(argument@ =~= spec_compositor_argument(display@, orientation));
            }
            Ok(RotationRequest::Compositor { argument })
        },
    }
}

} // verus!
