//! Rendering an outcome as the report line, optionally wrapped in ANSI
//! 256-color escape sequences, one distinct color per outcome category.

use vstd::prelude::*;

use crate::outcome::Outcome;

verus! {

/// The decimal digit character for `d`.
pub open spec fn spec_digit(d: nat) -> char
    recommends
        d < 10,
{
    if d == 0 {
        '0'
    } else if d == 1 {
        '1'
    } else if d == 2 {
        '2'
    } else if d == 3 {
        '3'
    } else if d == 4 {
        '4'
    } else if d == 5 {
        '5'
    } else if d == 6 {
        '6'
    } else if d == 7 {
        '7'
    } else if d == 8 {
        '8'
    } else {
        '9'
    }
}

/// The decimal digits of `n`, most significant first, with no leading zero
/// (a single `0` for zero itself).
pub open spec fn spec_decimal(n: nat) -> Seq<char>
    decreases n,
{
    if n < 10 {
        seq![spec_digit(n)]
    } else {
        spec_decimal(n / 10) + seq![spec_digit(n % 10)]
    }
}

/// The single-character string for a decimal digit.
fn digit_str(d: u8) -> (r: &'static str)
    requires
        d < 10,
    ensures
        r@ =~= seq![spec_digit(d as nat)],
{
    if d == 0 {
        proof {
            reveal_strlit("0");
        }
        "0"
    } else if d == 1 {
        proof {
            reveal_strlit("1");
        }
        "1"
    } else if d == 2 {
        proof {
            reveal_strlit("2");
        }
        "2"
    } else if d == 3 {
        proof {
            reveal_strlit("3");
        }
        "3"
    } else if d == 4 {
        proof {
            reveal_strlit("4");
        }
        "4"
    } else if d == 5 {
        proof {
            reveal_strlit("5");
        }
        "5"
    } else if d == 6 {
        proof {
            reveal_strlit("6");
        }
        "6"
    } else if d == 7 {
        proof {
            reveal_strlit("7");
        }
        "7"
    } else if d == 8 {
        proof {
            reveal_strlit("8");
        }
        "8"
    } else {
        proof {
            reveal_strlit("9");
        }
        "9"
    }
}

/// The decimal digits of `n`, as a string.
pub fn decimal_string(n: u8) -> (r: String)
    ensures
        r@ == spec_decimal(n as nat),
    decreases n,
{
    if n < 10 {
        String::from_str(digit_str(n))
    } else {
        let q = n / 10;
        let rem = n % 10;
        decimal_string(q).concat(digit_str(rem))
    }
}

/// The report line for an outcome, before any coloring.
pub open spec fn spec_render_line(o: Outcome) -> Seq<char> {
    match o {
        Outcome::Redirect(target) => "Redirect URI: "@ + target@,
        Outcome::NoRedirect => "No redirect occurred."@,
        Outcome::RequestFailed(message) => "Error: "@ + message@,
    }
}

/// Renders the report line for an outcome: the redirect target or the
/// failure message after its label, or the fixed no-redirect sentence.
pub fn render_line(o: &Outcome) -> (r: String)
    ensures
        r@ == spec_render_line(*o),
{
    match o {
        Outcome::Redirect(target) => String::from_str("Redirect URI: ").concat(target.as_str()),
        Outcome::NoRedirect => String::from_str("No redirect occurred."),
        Outcome::RequestFailed(message) => String::from_str("Error: ").concat(message.as_str()),
    }
}

/// The ANSI 256-color code for each outcome category: spring green for a
/// redirect, deep sky blue for no redirect, orange red for a failure.
pub open spec fn spec_color_code(o: Outcome) -> u8 {
    match o {
        Outcome::Redirect(_) => 41,
        Outcome::NoRedirect => 39,
        Outcome::RequestFailed(_) => 202,
    }
}

/// The ANSI 256-color code for an outcome's category.
pub fn color_code(o: &Outcome) -> (c: u8)
    ensures
        c == spec_color_code(*o),
{
    match o {
        Outcome::Redirect(_) => 41,
        Outcome::NoRedirect => 39,
        Outcome::RequestFailed(_) => 202,
    }
}

/// A message wrapped in an ANSI 256-color escape and a closing reset.
pub open spec fn spec_colored_line(message: Seq<char>, color: u8) -> Seq<char> {
    "\x1B[38;5;"@ + spec_decimal(color as nat) + "m"@ + message + "\x1B[0m"@
}

/// Wraps a message in the ANSI escape selecting the given 256-color code,
/// and a trailing reset sequence.
pub fn colored_line(message: &str, color: u8) -> (r: String)
    ensures
        r@ == spec_colored_line(message@, color),
{
    String::from_str("\x1B[38;5;").concat(decimal_string(color).as_str()).concat("m").concat(
        message,
    ).concat("\x1B[0m")
}

/// The report line for an outcome, colored by its category.
pub fn colored_report(o: &Outcome) -> (r: String)
    ensures
        r@ == spec_colored_line(spec_render_line(*o), spec_color_code(*o)),
{
    let line = render_line(o);
    let color = color_code(o);
    colored_line(line.as_str(), color)
}

} // verus!
