//! The token model and the two classifiers.
//!
//! A [`Token`] is one classified lexical unit of the query language.
//! Multi-character lexemes go through [`Token::from_lexeme`], which runs the
//! classification chain in strict order — numeric literal, date-time
//! literal, operator/keyword table, string-literal fallback — and single
//! structural characters go through [`Token::from_char`]. Both are total:
//! nothing is rejected, the catch-alls are the string literal and the
//! "unexpected" token.

use vstd::prelude::*;
use crate::date::{DateTime, local_offset_seconds, parse_date_parts, spec_date_parts};
use crate::numeric::{check_float_syntax, is_float_syntax, lemma_no_digit_not_float};

verus! {

/// One classified lexical unit.
///
/// The structural variants carry no payload. `Str` carries its lexeme
/// verbatim; `Float` carries the numeric literal's text, exactly as
/// written; `Date` carries the parsed calendar fields and the local zone's
/// UTC offset; `Unexpected` carries the unrecognized text for diagnostics.
#[derive(Clone, Debug, PartialEq, Eq)]
pub enum Token {
    GT,
    LT,
    GTE,
    LTE,
    EQ,
    NE,
    LIKE,
    NLIKE,
    AND,
    OR,
    LP,
    RP,
    EOF,
    Str(String),
    Float(String),
    Date(DateTime),
    Unexpected(String),
}

/// The mathematical value of a [`Token`]: text payloads as character
/// sequences, the date payload as its plain fields.
pub enum TokenView {
    GT,
    LT,
    GTE,
    LTE,
    EQ,
    NE,
    LIKE,
    NLIKE,
    AND,
    OR,
    LP,
    RP,
    EOF,
    Str(Seq<char>),
    Float(Seq<char>),
    Date(DateTime),
    Unexpected(Seq<char>),
}

impl View for Token {
    type V = TokenView;

    open spec fn view(&self) -> TokenView {
        match self {
            Token::GT => TokenView::GT,
            Token::LT => TokenView::LT,
            Token::GTE => TokenView::GTE,
            Token::LTE => TokenView::LTE,
            Token::EQ => TokenView::EQ,
            Token::NE => TokenView::NE,
            Token::LIKE => TokenView::LIKE,
            Token::NLIKE => TokenView::NLIKE,
            Token::AND => TokenView::AND,
            Token::OR => TokenView::OR,
            Token::LP => TokenView::LP,
            Token::RP => TokenView::RP,
            Token::EOF => TokenView::EOF,
            Token::Str(t) => TokenView::Str(t@),
            Token::Float(t) => TokenView::Float(t@),
            Token::Date(d) => TokenView::Date(*d),
            Token::Unexpected(t) => TokenView::Unexpected(t@),
        }
    }
}

pub open spec fn is_lit2(s: Seq<char>, a: char, b: char) -> bool {
    s.len() == 2 && s[0] == a && s[1] == b
}

pub open spec fn is_lit3(s: Seq<char>, a: char, b: char, c: char) -> bool {
    s.len() == 3 && s[0] == a && s[1] == b && s[2] == c
}

/// The exact operator/keyword table, with the string-literal fallback.
/// Case-sensitive: only the listed spellings match.
pub open spec fn spec_table_token(s: Seq<char>) -> TokenView {
    if is_lit2(s, '>', '=') {
        TokenView::GTE
    } else if is_lit2(s, '<', '=') {
        TokenView::LTE
    } else if is_lit2(s, '^', '=') || is_lit2(s, '!', '=') {
        TokenView::NE
    } else if is_lit2(s, '^', '^') || is_lit2(s, '!', '~') {
        TokenView::NLIKE
    } else if s.len() == 0 || is_lit3(s, 'E', 'O', 'F') {
        TokenView::EOF
    } else if is_lit3(s, 'A', 'N', 'D') || is_lit3(s, 'a', 'n', 'd') {
        TokenView::AND
    } else if is_lit2(s, 'O', 'R') || is_lit2(s, 'o', 'r') {
        TokenView::OR
    } else {
        TokenView::Str(s)
    }
}

/// The whole classification chain, given the outcome of the local-zone
/// offset lookup: numeric literal first, then date-time literal, then the
/// operator/keyword table, then the string-literal fallback. A date-shaped
/// lexeme whose moment the local zone cannot place (no offset) falls
/// through to the table and the fallback.
pub open spec fn spec_classify(s: Seq<char>, offset_seconds: Option<i32>) -> TokenView {
    if is_float_syntax(s) {
        TokenView::Float(s)
    } else {
        match spec_date_parts(s) {
            Some(p) => match offset_seconds {
                Some(o) => TokenView::Date(DateTime { parts: p, offset_seconds: o }),
                None => spec_table_token(s),
            },
            None => spec_table_token(s),
        }
    }
}

/// The single-character table: grouping and one-character operators, with
/// the "unexpected" fallback. `^` and `~` are both spellings of the
/// pattern-match operator.
pub open spec fn spec_from_char(c: char) -> TokenView {
    if c == '(' {
        TokenView::LP
    } else if c == ')' {
        TokenView::RP
    } else if c == '>' {
        TokenView::GT
    } else if c == '<' {
        TokenView::LT
    } else if c == '=' {
        TokenView::EQ
    } else if c == '^' || c == '~' {
        TokenView::LIKE
    } else {
        TokenView::Unexpected(seq![c])
    }
}

/// An offset the local-zone lookup can yield: strictly within one day of
/// UTC, when there is one.
pub open spec fn offset_in_range(o: Option<i32>) -> bool {
    o is Some ==> -86400 < o.unwrap() < 86400
}

/// Relies on `String::push`: appends exactly the one character.
#[verifier::external_body]
pub(crate) fn push_char(s: &mut String, c: char)
    ensures
        final(s)@ == old(s)@.push(c),
{
    s.push(c);
}

/// The operator/keyword table lookup, per [`spec_table_token`].
fn table_token(s: &str) -> (t: Token)
    ensures
        t@ == spec_table_token(s@),
{
    let n = s.unicode_len();
    if n == 0 {
        return Token::EOF;
    }
    if n == 2 {
        let c0 = s.get_char(0);
        let c1 = s.get_char(1);
        if c0 == '>' && c1 == '=' {
            return Token::GTE;
        }
        if c0 == '<' && c1 == '=' {
            return Token::LTE;
        }
        if (c0 == '^' || c0 == '!') && c1 == '=' {
            return Token::NE;
        }
        if c0 == '^' && c1 == '^' {
            return Token::NLIKE;
        }
        if c0 == '!' && c1 == '~' {
            return Token::NLIKE;
        }
        if (c0 == 'O' && c1 == 'R') || (c0 == 'o' && c1 == 'r') {
            return Token::OR;
        }
    }
    if n == 3 {
        let c0 = s.get_char(0);
        let c1 = s.get_char(1);
        let c2 = s.get_char(2);
        if c0 == 'E' && c1 == 'O' && c2 == 'F' {
            return Token::EOF;
        }
        if (c0 == 'A' && c1 == 'N' && c2 == 'D') || (c0 == 'a' && c1 == 'n' && c2 == 'd') {
            return Token::AND;
        }
    }
    Token::Str(s.to_owned())
}

impl Token {
    /// Classifies a single structural character, per [`spec_from_char`].
    /// Total: an unrecognized character becomes `Unexpected` carrying that
    /// character's string form.
    pub fn from_char(c: char) -> (t: Token)
        ensures
            t@ == spec_from_char(c),
    {
        if c == '(' {
            Token::LP
        } else if c == ')' {
            Token::RP
        } else if c == '>' {
            Token::GT
        } else if c == '<' {
            Token::LT
        } else if c == '=' {
            Token::EQ
        } else if c == '^' || c == '~' {
            Token::LIKE
        } else {
            let mut text = String::new();
            push_char(&mut text, c);
            proof {
                assert(text@ =~= seq![c]);
            }
            Token::Unexpected(text)
        }
    }

    /// Classifies a whole lexeme given the outcome of the local-zone offset
    /// lookup for its date fields, per [`spec_classify`]. Total, and
    /// deterministic in both arguments.
    pub fn classify(s: &str, offset_seconds: Option<i32>) -> (t: Token)
        ensures
            t@ == spec_classify(s@, offset_seconds),
    {
        if check_float_syntax(s) {
            return Token::Float(s.to_owned());
        }
        match parse_date_parts(s) {
            Some(p) => match offset_seconds {
                Some(o) => Token::Date(DateTime { parts: p, offset_seconds: o }),
                None => table_token(s),
            },
            None => table_token(s),
        }
    }

    /// Wraps an already-built date-time value as its token.
    pub fn from_date(d: DateTime) -> (t: Token)
        ensures
            t@ == TokenView::Date(d),
    {
        Token::Date(d)
    }

    /// Classifies a whole lexeme: the chain of [`spec_classify`], with the
    /// offset looked up in the machine's local time zone when the lexeme is
    /// date-shaped. Only that lookup is left open by the contract — on
    /// every lexeme that is not a date the result is pinned exactly.
    pub fn from_lexeme(s: &str) -> (t: Token)
        ensures
            exists|o: Option<i32>| offset_in_range(o) && t@ == spec_classify(s@, o),
            spec_date_parts(s@) is None ==> t@ == spec_classify(s@, None),
            is_float_syntax(s@) ==> t@ == TokenView::Float(s@),
    {
        let off = match parse_date_parts(s) {
            Some(p) => local_offset_seconds(p.year, p.month, p.day, p.hour, p.minute),
            None => None,
        };
        let t = Token::classify(s, off);
        proof {
            assert(offset_in_range(off) && t@ == spec_classify(s@, off));
        }
        t
    }
}

/// Numeric detection takes precedence over every later rule: a lexeme in
/// float syntax classifies as the numeric literal carrying that text,
/// whatever else it might match.
pub proof fn lemma_numeric_precedence(s: Seq<char>, o: Option<i32>)
    requires
        is_float_syntax(s),
    ensures
        spec_classify(s, o) == TokenView::Float(s),
{
}

/// A date-shaped lexeme that is not numeric, at a moment the local zone
/// places at exactly one offset, classifies as the date literal built from
/// the parsed calendar fields and that offset.
pub proof fn lemma_date_classification(s: Seq<char>, o: i32)
    requires
        !is_float_syntax(s),
        spec_date_parts(s) is Some,
    ensures
        spec_classify(s, Some(o)) == TokenView::Date(
            DateTime { parts: spec_date_parts(s).unwrap(), offset_seconds: o },
        ),
{
}

/// Any lexeme that is not numeric, not date-shaped, not empty and not in
/// the operator/keyword table classifies as the string literal carrying its
/// text unchanged.
pub proof fn lemma_string_fallback(s: Seq<char>, o: Option<i32>)
    requires
        !is_float_syntax(s),
        spec_date_parts(s) is None,
        s.len() > 0,
        !is_lit2(s, '>', '='),
        !is_lit2(s, '<', '='),
        !is_lit2(s, '^', '='),
        !is_lit2(s, '!', '='),
        !is_lit2(s, '^', '^'),
        !is_lit2(s, '!', '~'),
        !is_lit3(s, 'E', 'O', 'F'),
        !is_lit3(s, 'A', 'N', 'D'),
        !is_lit3(s, 'a', 'n', 'd'),
        !is_lit2(s, 'O', 'R'),
        !is_lit2(s, 'o', 'r'),
    ensures
        spec_classify(s, o) == TokenView::Str(s),
{
}

/// `^=` and `!=` are spellings of one token, as are `^^` and `!~`, and the
/// single characters `^` and `~`.
pub proof fn lemma_operator_aliases(o: Option<i32>)
    ensures
        spec_classify("^="@, o) == TokenView::NE,
        spec_classify("!="@, o) == TokenView::NE,
        spec_classify("^^"@, o) == TokenView::NLIKE,
        spec_classify("!~"@, o) == TokenView::NLIKE,
        spec_from_char('^') == spec_from_char('~'),
{
    reveal_strlit("^=");
    reveal_strlit("!=");
    reveal_strlit("^^");
    reveal_strlit("!~");
    lemma_no_digit_not_float("^="@);
    lemma_no_digit_not_float("!="@);
    lemma_no_digit_not_float("^^"@);
    lemma_no_digit_not_float("!~"@);
}

/// The empty lexeme and the literal text `EOF` both classify as the
/// end-of-input token.
pub proof fn lemma_eof(o: Option<i32>)
    ensures
        spec_classify(""@, o) == TokenView::EOF,
        spec_classify("EOF"@, o) == TokenView::EOF,
{
    reveal_strlit("");
    reveal_strlit("EOF");
    lemma_no_digit_not_float(""@);
    lemma_no_digit_not_float("EOF"@);
}

/// Keyword recognition is case-sensitive: exactly the two listed casings of
/// each keyword match, and any other casing falls through to the string
/// literal.
pub proof fn lemma_keyword_casings(o: Option<i32>)
    ensures
        spec_classify("AND"@, o) == TokenView::AND,
        spec_classify("and"@, o) == TokenView::AND,
        spec_classify("OR"@, o) == TokenView::OR,
        spec_classify("or"@, o) == TokenView::OR,
        spec_classify("And"@, o) == TokenView::Str("And"@),
        spec_classify("aND"@, o) == TokenView::Str("aND"@),
{
    reveal_strlit("AND");
    reveal_strlit("and");
    reveal_strlit("OR");
    reveal_strlit("or");
    reveal_strlit("And");
    reveal_strlit("aND");
    lemma_no_digit_not_float("AND"@);
    lemma_no_digit_not_float("and"@);
    lemma_no_digit_not_float("OR"@);
    lemma_no_digit_not_float("or"@);
    lemma_no_digit_not_float("And"@);
    lemma_no_digit_not_float("aND"@);
}

} // verus!
