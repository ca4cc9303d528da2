//! Diagnostic rendering.
//!
//! Every token renders as a stable, human-readable string of the shape
//! `(<CategoryName>, <payload-or-symbol>)`, and as a display form behind the
//! fixed `Token: ` label. Rendering is total and deterministic: it depends
//! on the token's value alone.

use vstd::prelude::*;
use vstd::string::StringExecFns;
use crate::date::DateTime;
use crate::tokens::{push_char, Token, TokenView};

verus! {

/// The decimal digit character for a value below ten.
pub open spec fn digit_char(n: int) -> char {
    if n == 0 {
        '0'
    } else if n == 1 {
        '1'
    } else if n == 2 {
        '2'
    } else if n == 3 {
        '3'
    } else if n == 4 {
        '4'
    } else if n == 5 {
        '5'
    } else if n == 6 {
        '6'
    } else if n == 7 {
        '7'
    } else if n == 8 {
        '8'
    } else {
        '9'
    }
}

/// A field value as two zero-padded decimal digits.
pub open spec fn two_digit_text(n: int) -> Seq<char> {
    seq![digit_char(n / 10), digit_char(n % 10)]
}

/// A year value as four zero-padded decimal digits.
pub open spec fn four_digit_text(n: int) -> Seq<char> {
    seq![
        digit_char(n / 1000),
        digit_char((n / 100) % 10),
        digit_char((n / 10) % 10),
        digit_char(n % 10),
    ]
}

/// The UTC offset's magnitude, in seconds.
pub open spec fn offset_magnitude(d: DateTime) -> int {
    if d.offset_seconds >= 0 {
        d.offset_seconds as int
    } else {
        -(d.offset_seconds as int)
    }
}

/// The offset's trailing seconds field: empty when the offset is a whole
/// number of minutes.
pub open spec fn offset_seconds_text(mag: int) -> Seq<char> {
    if mag % 60 == 0 {
        Seq::<char>::empty()
    } else {
        ":"@ + two_digit_text(mag % 60)
    }
}

/// The date-time text before the offset's optional seconds field: the
/// calendar fields with a seconds field of zero, then the UTC offset as a
/// sign and zero-padded hours and minutes.
pub open spec fn spec_date_base(d: DateTime) -> Seq<char> {
    let mag = offset_magnitude(d);
    four_digit_text(d.parts.year as int) + "-"@ + two_digit_text(d.parts.month as int) + "-"@
        + two_digit_text(d.parts.day as int) + " "@ + two_digit_text(d.parts.hour as int) + ":"@
        + two_digit_text(d.parts.minute as int) + ":00 "@ + (if d.offset_seconds >= 0 {
        "+"@
    } else {
        "-"@
    }) + two_digit_text(mag / 3600) + ":"@ + two_digit_text((mag % 3600) / 60)
}

/// A date-time value as text, with the offset's seconds field appended when
/// the offset is not a whole number of minutes.
pub open spec fn spec_date_text(d: DateTime) -> Seq<char> {
    spec_date_base(d) + offset_seconds_text(offset_magnitude(d))
}

/// The diagnostic rendering of each token value.
pub open spec fn spec_render(v: TokenView) -> Seq<char> {
    match v {
        TokenView::GT => "(GT, >)"@,
        TokenView::LT => "(LT, <)"@,
        TokenView::GTE => "(GTE, >=)"@,
        TokenView::LTE => "(LTE, <=)"@,
        TokenView::EQ => "(EQ, =)"@,
        TokenView::NE => "(NE, !=)"@,
        TokenView::LIKE => "(LIKE, ~)"@,
        TokenView::NLIKE => "(NLIKE, !~)"@,
        TokenView::AND => "(AND, AND)"@,
        TokenView::OR => "(OR, OR)"@,
        TokenView::LP => "(LP, '(')"@,
        TokenView::RP => "(RP, ')')"@,
        TokenView::EOF => "(EOF, EOF)"@,
        TokenView::Str(s) => "(String, "@ + s + ")"@,
        TokenView::Float(s) => "(Float, "@ + s + ")"@,
        TokenView::Date(d) => "(Date, "@ + spec_date_text(d) + ")"@,
        TokenView::Unexpected(s) => "(Unexpected, "@ + s + ")"@,
    }
}

/// Rendering is deterministic: it depends on the token's value alone, so
/// rendering one token twice yields identical text.
pub proof fn lemma_render_deterministic(a: TokenView, b: TokenView, r1: Seq<char>, r2: Seq<char>)
    requires
        a == b,
        r1 == spec_render(a),
        r2 == spec_render(b),
    ensures
        r1 == r2,
{
}

fn digit_char_x(n: u32) -> (c: char)
    ensures
        c == digit_char(n as int),
{
    if n == 0 {
        '0'
    } else if n == 1 {
        '1'
    } else if n == 2 {
        '2'
    } else if n == 3 {
        '3'
    } else if n == 4 {
        '4'
    } else if n == 5 {
        '5'
    } else if n == 6 {
        '6'
    } else if n == 7 {
        '7'
    } else if n == 8 {
        '8'
    } else {
        '9'
    }
}

fn push_two(s: &mut String, n: u32)
    ensures
        final(s)@ == old(s)@ + two_digit_text(n as int),
{
    let hi = digit_char_x(n / 10);
    let lo = digit_char_x(n % 10);
    push_char(s, hi);
    push_char(s, lo);
    proof {
        assert(s@ =~= old(s)@ + two_digit_text(n as int));
    }
}

fn push_four(s: &mut String, n: u32)
    ensures
        final(s)@ == old(s)@ + four_digit_text(n as int),
{
    let d0 = digit_char_x(n / 1000);
    let d1 = digit_char_x((n / 100) % 10);
    let d2 = digit_char_x((n / 10) % 10);
    let d3 = digit_char_x(n % 10);
    push_char(s, d0);
    push_char(s, d1);
    push_char(s, d2);
    push_char(s, d3);
    proof {
        assert(s@ =~= old(s)@ + four_digit_text(n as int));
    }
}

fn push_date_text(s: &mut String, d: &DateTime)
    ensures
        final(s)@ == old(s)@ + spec_date_text(*d),
{
    let mag: i64 = if d.offset_seconds >= 0 {
        d.offset_seconds as i64
    } else {
        -(d.offset_seconds as i64)
    };
    let mag_h: i64 = mag / 3600;
    let mag_m: i64 = (mag % 3600) / 60;
    push_four(s, d.parts.year as u32);
    s.append("-");
    push_two(s, d.parts.month as u32);
    s.append("-");
    push_two(s, d.parts.day as u32);
    s.append(" ");
    push_two(s, d.parts.hour as u32);
    s.append(":");
    push_two(s, d.parts.minute as u32);
    s.append(":00 ");
    if d.offset_seconds >= 0 {
        s.append("+");
    } else {
        s.append("-");
    }
    push_two(s, mag_h as u32);
    s.append(":");
    push_two(s, mag_m as u32);
    proof {
        assert(mag as int == offset_magnitude(*d));
        assert(s@ =~= old(s)@ + spec_date_base(*d));
    }
    let ghost base_state = s@;
    let mag_s: i64 = mag % 60;
    if mag_s != 0 {
        s.append(":");
        push_two(s, mag_s as u32);
        proof {
            assert(s@ == base_state + ":"@ + two_digit_text(mag_s as int));
            assert(offset_seconds_text(offset_magnitude(*d)) == ":"@ + two_digit_text(
                mag_s as int,
            ));
            assert(s@ =~= old(s)@ + spec_date_text(*d));
        }
    } else {
        proof {
            assert(offset_seconds_text(offset_magnitude(*d)) == Seq::<char>::empty());
            assert(s@ =~= old(s)@ + spec_date_text(*d));
        }
    }
}

impl Token {
    /// The diagnostic rendering `(<CategoryName>, <payload-or-symbol>)`,
    /// per [`spec_render`]. Total over every variant.
    pub fn render(&self) -> (r: String)
        ensures
            r@ == spec_render(self@),
    {
        match self {
            Token::GT => "(GT, >)".to_owned(),
            Token::LT => "(LT, <)".to_owned(),
            Token::GTE => "(GTE, >=)".to_owned(),
            Token::LTE => "(LTE, <=)".to_owned(),
            Token::EQ => "(EQ, =)".to_owned(),
            Token::NE => "(NE, !=)".to_owned(),
            Token::LIKE => "(LIKE, ~)".to_owned(),
            Token::NLIKE => "(NLIKE, !~)".to_owned(),
            Token::AND => "(AND, AND)".to_owned(),
            Token::OR => "(OR, OR)".to_owned(),
            Token::LP => "(LP, '(')".to_owned(),
            Token::RP => "(RP, ')')".to_owned(),
            Token::EOF => "(EOF, EOF)".to_owned(),
            Token::Str(t) => {
                let mut r = "(String, ".to_owned();
                r.append(t.as_str());
                r.append(")");
                r
            },
            Token::Float(t) => {
                let mut r = "(Float, ".to_owned();
                r.append(t.as_str());
                r.append(")");
                r
            },
            Token::Date(d) => {
                let mut r = "(Date, ".to_owned();
                push_date_text(&mut r, d);
                r.append(")");
                r
            },
            Token::Unexpected(t) => {
                let mut r = "(Unexpected, ".to_owned();
                r.append(t.as_str());
                r.append(")");
                r
            },
        }
    }

    /// The display form: the diagnostic rendering behind the fixed
    /// `Token: ` label.
    pub fn display_string(&self) -> (r: String)
        ensures
            r@ == "Token: "@ + spec_render(self@),
    {
        let mut r = "Token: ".to_owned();
        let body = self.render();
        r.append(body.as_str());
        r
    }
}

} // verus!
