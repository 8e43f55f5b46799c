use horoscope::{Month, MonthError};

#[test]
fn every_numeral_parses() {
    let expected = [
        ("1", Month::January),
        ("2", Month::February),
        ("3", Month::March),
        ("4", Month::April),
        ("5", Month::May),
        ("6", Month::June),
        ("7", Month::July),
        ("8", Month::August),
        ("9", Month::September),
        ("10", Month::October),
        ("11", Month::November),
        ("12", Month::December),
    ];
    for (text, m) in expected.iter() {
        assert_eq!(text.parse::<Month>(), Ok(*m));
        assert_eq!(Month::from_numeral(text), Ok(*m));
    }
}

#[test]
fn december_parses() {
    assert_eq!("12".parse::<Month>(), Ok(Month::December));
}

#[test]
fn thirteen_and_zero_are_errors() {
    assert_eq!("13".parse::<Month>(), Err(MonthError));
    assert_eq!("0".parse::<Month>(), Err(MonthError));
}

#[test]
fn trailing_white_space_is_cut() {
    assert_eq!(Month::from_numeral("7\n"), Ok(Month::July));
    assert_eq!(Month::from_numeral("11 \r\n"), Ok(Month::November));
    assert_eq!(Month::from_numeral("3\u{3000}"), Ok(Month::March));
}

#[test]
fn other_texts_are_errors() {
    assert_eq!(Month::from_numeral(""), Err(MonthError));
    assert_eq!(Month::from_numeral("01"), Err(MonthError));
    assert_eq!(Month::from_numeral(" 1"), Err(MonthError));
    assert_eq!(Month::from_numeral("1 2"), Err(MonthError));
    assert_eq!(Month::from_numeral("20"), Err(MonthError));
    assert_eq!(Month::from_numeral("100"), Err(MonthError));
    assert_eq!(Month::from_numeral("x"), Err(MonthError));
    assert_eq!(Month::from_numeral("\n"), Err(MonthError));
}

#[test]
fn parse_cuts_trailing_white_space_only() {
    assert_eq!("1\n".parse::<Month>(), Ok(Month::January));
    assert_eq!("12 \r\n".parse::<Month>(), Ok(Month::December));
    assert_eq!(" 1".parse::<Month>(), Err(MonthError));
    assert_eq!("+1".parse::<Month>(), Err(MonthError));
}

#[test]
fn parse_refuses_other_forms() {
    assert_eq!("01".parse::<Month>(), Err(MonthError));
    assert_eq!("".parse::<Month>(), Err(MonthError));
    assert_eq!("1.0".parse::<Month>(), Err(MonthError));
}
