use chrono::TimeZone;
use tsk_lib::date::{DateParts, DateTime};
use tsk_lib::tokens::Token;

/// The UTC offset the machine's local time zone gives the named moment, in
/// seconds — the same lookup the classifier performs.
fn local_offset(y: i32, mo: u32, d: u32, h: u32, mi: u32) -> i32 {
    let naive = chrono::NaiveDate::from_ymd_opt(y, mo, d)
        .unwrap()
        .and_hms_opt(h, mi, 0)
        .unwrap();
    chrono::Local
        .offset_from_local_datetime(&naive)
        .single()
        .unwrap()
        .local_minus_utc()
}

fn date_token(y: u16, mo: u8, d: u8, h: u8, mi: u8) -> Token {
    Token::Date(DateTime {
        parts: DateParts {
            year: y,
            month: mo,
            day: d,
            hour: h,
            minute: mi,
        },
        offset_seconds: local_offset(y as i32, mo as u32, d as u32, h as u32, mi as u32),
    })
}

#[test]
fn test_from_str() {
    assert_eq!(Token::from_lexeme(">="), Token::GTE);
    assert_eq!(Token::from_lexeme("<="), Token::LTE);
    assert_eq!(Token::from_lexeme(""), Token::EOF);
    assert_eq!(Token::from_lexeme("EOF"), Token::EOF);
    assert_eq!(Token::from_lexeme("AND"), Token::AND);
    assert_eq!(Token::from_lexeme("and"), Token::AND);
    assert_eq!(Token::from_lexeme("OR"), Token::OR);
    assert_eq!(Token::from_lexeme("or"), Token::OR);
    assert_eq!(Token::from_lexeme("1.0"), Token::Float("1.0".to_string()));
    assert_eq!(Token::from_lexeme("5"), Token::Float("5".to_string()));
    assert_eq!(Token::from_lexeme("^^"), Token::NLIKE);
    assert_eq!(Token::from_lexeme("!~"), Token::NLIKE);
    assert_eq!(
        Token::from_lexeme("2018-07-04 12:00 PM"),
        date_token(2018, 7, 4, 12, 0)
    );
    assert_eq!(
        Token::from_lexeme("2018-07-04 12:00"),
        date_token(2018, 7, 4, 12, 0)
    );
    assert_eq!(Token::from_lexeme("!~"), Token::NLIKE);
}

#[test]
fn test_from_char() {
    assert_eq!(Token::from_char('('), Token::LP);
    assert_eq!(Token::from_char(')'), Token::RP);
    assert_eq!(Token::from_char('>'), Token::GT);
    assert_eq!(Token::from_char('<'), Token::LT);
    assert_eq!(Token::from_char('='), Token::EQ);
    assert_eq!(Token::from_char('%'), Token::Unexpected("%".to_string()));
    assert_eq!(Token::from_char('~'), Token::LIKE);
    assert_eq!(Token::from_char('^'), Token::LIKE);
}

#[test]
fn numeric_forms() {
    assert_eq!(Token::from_lexeme("-3.25"), Token::Float("-3.25".to_string()));
    assert_eq!(Token::from_lexeme("+4."), Token::Float("+4.".to_string()));
    assert_eq!(Token::from_lexeme(".5"), Token::Float(".5".to_string()));
    assert_eq!(Token::from_lexeme("5e3"), Token::Float("5e3".to_string()));
    assert_eq!(Token::from_lexeme("2E-7"), Token::Float("2E-7".to_string()));
    // Not numeric: these fall through the rest of the chain.
    assert_eq!(Token::from_lexeme("1.2.3"), Token::Str("1.2.3".to_string()));
    assert_eq!(Token::from_lexeme("5px"), Token::Str("5px".to_string()));
    assert_eq!(Token::from_lexeme("."), Token::Str(".".to_string()));
    assert_eq!(Token::from_lexeme("e5"), Token::Str("e5".to_string()));
    assert_eq!(Token::from_lexeme("-"), Token::Str("-".to_string()));
}

#[test]
fn date_formats() {
    assert_eq!(
        Token::from_lexeme("2018-07-04 12:00 pm"),
        date_token(2018, 7, 4, 12, 0)
    );
    assert_eq!(
        Token::from_lexeme("2018-07-04 12:00 am"),
        date_token(2018, 7, 4, 0, 0)
    );
    assert_eq!(
        Token::from_lexeme("2018-07-04 01:30 PM"),
        date_token(2018, 7, 4, 13, 30)
    );
    assert_eq!(
        Token::from_lexeme("2018-07-04 23:59"),
        date_token(2018, 7, 4, 23, 59)
    );
    assert_eq!(
        Token::from_lexeme("2020-02-29 08:15"),
        date_token(2020, 2, 29, 8, 15)
    );
    // Not dates: a bad calendar day, a bad month, an out-of-range 12-hour
    // field, and a date without a time all fall through to string literals.
    assert_eq!(
        Token::from_lexeme("2019-02-29 08:15"),
        Token::Str("2019-02-29 08:15".to_string())
    );
    assert_eq!(
        Token::from_lexeme("2018-13-01 08:15"),
        Token::Str("2018-13-01 08:15".to_string())
    );
    assert_eq!(
        Token::from_lexeme("2018-07-04 13:00 pm"),
        Token::Str("2018-07-04 13:00 pm".to_string())
    );
    assert_eq!(
        Token::from_lexeme("2018-07-04"),
        Token::Str("2018-07-04".to_string())
    );
}

#[test]
fn keyword_casing_and_fallback() {
    assert_eq!(Token::from_lexeme("And"), Token::Str("And".to_string()));
    assert_eq!(Token::from_lexeme("aND"), Token::Str("aND".to_string()));
    assert_eq!(Token::from_lexeme("Or"), Token::Str("Or".to_string()));
    assert_eq!(Token::from_lexeme("eof"), Token::Str("eof".to_string()));
    assert_eq!(Token::from_lexeme("hello"), Token::Str("hello".to_string()));
    assert_eq!(
        Token::from_lexeme("priority"),
        Token::Str("priority".to_string())
    );
}

#[test]
fn rendering() {
    assert_eq!(Token::GT.render(), "(GT, >)");
    assert_eq!(Token::LP.render(), "(LP, '(')");
    assert_eq!(Token::NLIKE.render(), "(NLIKE, !~)");
    assert_eq!(
        Token::Str("hello".to_string()).render(),
        "(String, hello)"
    );
    assert_eq!(Token::Float("1.0".to_string()).render(), "(Float, 1.0)");
    assert_eq!(
        Token::Unexpected("%".to_string()).render(),
        "(Unexpected, %)"
    );
    let west = Token::Date(DateTime {
        parts: DateParts {
            year: 2018,
            month: 7,
            day: 4,
            hour: 12,
            minute: 0,
        },
        offset_seconds: -14400,
    });
    assert_eq!(west.render(), "(Date, 2018-07-04 12:00:00 -04:00)");
    let east = Token::Date(DateTime {
        parts: DateParts {
            year: 2018,
            month: 7,
            day: 4,
            hour: 12,
            minute: 0,
        },
        offset_seconds: 19800,
    });
    assert_eq!(east.render(), "(Date, 2018-07-04 12:00:00 +05:30)");
    // An offset that is not a whole number of minutes — as local-mean-time
    // zones yield for early timestamps — carries a seconds field.
    let lmt = Token::Date(DateTime {
        parts: DateParts {
            year: 1880,
            month: 1,
            day: 1,
            hour: 9,
            minute: 30,
        },
        offset_seconds: 21328,
    });
    assert_eq!(lmt.render(), "(Date, 1880-01-01 09:30:00 +05:55:28)");
    let lmt_west = Token::Date(DateTime {
        parts: DateParts {
            year: 1880,
            month: 1,
            day: 1,
            hour: 9,
            minute: 30,
        },
        offset_seconds: -4325,
    });
    assert_eq!(lmt_west.render(), "(Date, 1880-01-01 09:30:00 -01:12:05)");
    assert_eq!(Token::EOF.display_string(), "Token: (EOF, EOF)");
    // Rendering the same token twice yields identical text.
    let t = Token::from_lexeme("2018-07-04 12:00");
    assert_eq!(t.render(), t.render());
}

#[test]
fn query_scenario() {
    let got = vec![
        Token::from_lexeme("priority"),
        Token::from_char('='),
        Token::from_lexeme("high"),
        Token::from_lexeme("AND"),
        Token::from_char('('),
        Token::from_lexeme("due"),
        Token::from_char('<'),
        Token::from_lexeme("2018-07-04 12:00"),
        Token::from_char(')'),
    ];
    let expected = vec![
        Token::Str("priority".to_string()),
        Token::EQ,
        Token::Str("high".to_string()),
        Token::AND,
        Token::LP,
        Token::Str("due".to_string()),
        Token::LT,
        date_token(2018, 7, 4, 12, 0),
        Token::RP,
    ];
    assert_eq!(got, expected);
}

#[test]
fn from_date_wraps_value() {
    let d = DateTime {
        parts: DateParts {
            year: 2018,
            month: 7,
            day: 4,
            hour: 12,
            minute: 0,
        },
        offset_seconds: 0,
    };
    assert_eq!(Token::from_date(d), Token::Date(d));
}

#[test]
fn operator_aliases() {
    assert_eq!(Token::from_lexeme("^="), Token::from_lexeme("!="));
    assert_eq!(Token::from_lexeme("^="), Token::NE);
    assert_eq!(Token::from_lexeme("^^"), Token::from_lexeme("!~"));
    assert_eq!(Token::from_char('^'), Token::from_char('~'));
}
