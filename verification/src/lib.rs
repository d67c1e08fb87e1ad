//! Core library for a live document-presentation driver: an authoritative
//! session-state store, a per-connection command protocol, a bounded
//! multi-subscriber broadcast fabric, and a capture-to-output fan-out
//! pipeline.

use vstd::prelude::*;

pub mod annotations;
pub mod capture;
pub mod connection;
pub mod errors;
pub mod fabric;
pub mod messages;
pub mod pdf;
pub mod protocol;
pub mod security;
pub mod session;

verus! {

/// Lowest zoom factor a client may store, in hundredths (0.10).
pub const MIN_ZOOM_HUNDREDTHS: u32 = 10;

/// Highest zoom factor a client may store, in hundredths (5.00).
pub const MAX_ZOOM_HUNDREDTHS: u32 = 500;

/// What clamping a requested zoom factor (in hundredths) yields.
pub open spec fn spec_clamp_zoom(requested: i64) -> u32 {
    if requested < MIN_ZOOM_HUNDREDTHS as i64 {
        MIN_ZOOM_HUNDREDTHS
    } else if requested > MAX_ZOOM_HUNDREDTHS as i64 {
        MAX_ZOOM_HUNDREDTHS
    } else {
        requested as u32
    }
}

/// Clamp a requested zoom factor (in hundredths) into the stored domain.
pub fn clamp_zoom(requested: i64) -> (z: u32)
    ensures
        MIN_ZOOM_HUNDREDTHS <= z <= MAX_ZOOM_HUNDREDTHS,
        z == spec_clamp_zoom(requested),
{
    if requested < MIN_ZOOM_HUNDREDTHS as i64 {
        MIN_ZOOM_HUNDREDTHS
    } else if requested > MAX_ZOOM_HUNDREDTHS as i64 {
        MAX_ZOOM_HUNDREDTHS
    } else {
        requested as u32
    }
}

/// The character of one decimal digit.
pub open spec fn digit_char(d: nat) -> char {
    if d == 0 {
        '0'
    } else if d == 1 {
        '1'
    } else if d == 2 {
        '2'
    } else if d == 3 {
        '3'
    } else if d == 4 {
        '4'
    } else if d == 5 {
        '5'
    } else if d == 6 {
        '6'
    } else if d == 7 {
        '7'
    } else if d == 8 {
        '8'
    } else {
        '9'
    }
}

/// The decimal rendering of a number, most significant digit first.
pub open spec fn spec_decimal(n: nat) -> Seq<char>
    decreases n,
{
    if n < 10 {
        seq![digit_char(n)]
    } else {
        spec_decimal(n / 10).push(digit_char(n % 10))
    }
}

/// Render a number in decimal.
pub fn decimal_string(n: u32) -> (r: String)
    ensures
        r@ == spec_decimal(n as nat),
    decreases n,
{
    let mut s = if n >= 10 {
        decimal_string(n / 10)
    } else {
        String::new()
    };
    let ghost prefix = s@;
    let d = n % 10;
    match d {
        0 => s.append("0"),
        1 => s.append("1"),
        2 => s.append("2"),
        3 => s.append("3"),
        4 => s.append("4"),
        5 => s.append("5"),
        6 => s.append("6"),
        7 => s.append("7"),
        8 => s.append("8"),
        _ => s.append("9"),
    }
    proof {
        reveal_strlit("0");
        reveal_strlit("1");
        reveal_strlit("2");
        reveal_strlit("3");
        reveal_strlit("4");
        reveal_strlit("5");
        reveal_strlit("6");
        reveal_strlit("7");
        reveal_strlit("8");
        reveal_strlit("9");
        assert(s@ =~= prefix.push(digit_char((n % 10) as nat)));
        if n >= 10 {
            assert(s@ =~= spec_decimal((n / 10) as nat).push(digit_char((n % 10) as nat)));
        } else {
            assert(s@ =~= seq![digit_char(n as nat)]);
        }
    }
    s
}

} // verus!
