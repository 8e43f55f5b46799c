use vstd::prelude::*;
use vstd::string::StrSliceExecFns;

verus! {

/// The twelve calendar months.
#[derive(Debug, Clone, Copy, PartialEq, Eq, Hash, Structural)]
pub enum Month {
    January,
    February,
    March,
    April,
    May,
    June,
    July,
    August,
    September,
    October,
    November,
    December,
}

/// Returned when a text is not the numeral of a month.
#[derive(Debug, Clone, Copy, PartialEq, Eq, Structural)]
pub struct MonthError;

impl Month {
    /// The month's 1-based number (January is 1, December is 12).
    pub open spec fn number(self) -> nat {
        match self {
            Month::January => 1,
            Month::February => 2,
            Month::March => 3,
            Month::April => 4,
            Month::May => 5,
            Month::June => 6,
            Month::July => 7,
            Month::August => 8,
            Month::September => 9,
            Month::October => 10,
            Month::November => 11,
            Month::December => 12,
        }
    }

    /// The decimal numeral that names the month, without leading zeros.
    pub open spec fn numeral(self) -> Seq<char> {
        match self {
            Month::January => seq!['1'],
            Month::February => seq!['2'],
            Month::March => seq!['3'],
            Month::April => seq!['4'],
            Month::May => seq!['5'],
            Month::June => seq!['6'],
            Month::July => seq!['7'],
            Month::August => seq!['8'],
            Month::September => seq!['9'],
            Month::October => seq!['1', '0'],
            Month::November => seq!['1', '1'],
            Month::December => seq!['1', '2'],
        }
    }

    /// The month whose number is `n`, if `n` lies in 1..=12.
    pub fn from_number(n: u8) -> (r: Option<Month>)
        ensures
            r == month_of_number(n as nat),
    {
        match n {
            1 => Some(Month::January),
            2 => Some(Month::February),
            3 => Some(Month::March),
            4 => Some(Month::April),
            5 => Some(Month::May),
            6 => Some(Month::June),
            7 => Some(Month::July),
            8 => Some(Month::August),
            9 => Some(Month::September),
            10 => Some(Month::October),
            11 => Some(Month::November),
            12 => Some(Month::December),
            _ => None,
        }
    }

    /// Reads a month from its numeral ("1" to "12"), after trailing white
    /// space is cut off. Anything else, "01" and "0" included, is an error.
    pub fn from_numeral(s: &str) -> (r: Result<Month, MonthError>)
        ensures
            match r {
                Ok(m) => trim_end_of(s@) == m.numeral(),
                Err(_) => forall|m: Month| trim_end_of(s@) != #[trigger] m.numeral(),
            },
    {
        let t = trim_trailing(s);
        let len = t.unicode_len();
        if len == 1 {
            let c = t.get_char(0);
            let r = match c {
                '1' => Ok(Month::January),
                '2' => Ok(Month::February),
                '3' => Ok(Month::March),
                '4' => Ok(Month::April),
                '5' => Ok(Month::May),
                '6' => Ok(Month::June),
                '7' => Ok(Month::July),
                '8' => Ok(Month::August),
                '9' => Ok(Month::September),
                _ => Err(MonthError),
            };
            proof {
                assert(t@ =~= seq![c]);
            }
            r
        } else if len == 2 && t.get_char(0) == '1' {
            let c = t.get_char(1);
            let r = match c {
                '0' => Ok(Month::October),
                '1' => Ok(Month::November),
                '2' => Ok(Month::December),
                _ => Err(MonthError),
            };
            proof {
                assert(t@ =~= seq!['1', c]);
            }
            r
        } else {
            proof {
                assert forall|m: Month| t@ != #[trigger] m.numeral() by {
                    if t@ == m.numeral() {
                        assert(t@[0] == m.numeral()[0]);
                    }
                }
            }
            Err(MonthError)
        }
    }
}

impl std::str::FromStr for Month {
    type Err = MonthError;

    fn from_str(s: &str) -> (r: Result<Month, MonthError>)
        ensures
            match r {
                Ok(m) => trim_end_of(s@) == m.numeral(),
                Err(_) => forall|m: Month| trim_end_of(s@) != #[trigger] m.numeral(),
            },
    {
        Month::from_numeral(s)
    }
}

/// A month's numeral is left whole by the trim and names no other month, so
/// parsing it gives back that month.
pub proof fn lemma_numeral_round_trip(m: Month, other: Month)
    ensures
        trim_end_of(m.numeral()) == m.numeral(),
        other.numeral() == m.numeral() ==> other == m,
{
    reveal_with_fuel(trim_end_of, 2);
    if other.numeral() == m.numeral() {
        assert(other.numeral().len() == m.numeral().len());
        assert(other.numeral()[0] == m.numeral()[0]);
        if m.numeral().len() == 2 {
            assert(other.numeral()[1] == m.numeral()[1]);
        }
    }
}

/// The month numbered `n`, or `None` where `n` is not in 1..=12.
pub open spec fn month_of_number(n: nat) -> Option<Month> {
    if n == 1 {
        Some(Month::January)
    } else if n == 2 {
        Some(Month::February)
    } else if n == 3 {
        Some(Month::March)
    } else if n == 4 {
        Some(Month::April)
    } else if n == 5 {
        Some(Month::May)
    } else if n == 6 {
        Some(Month::June)
    } else if n == 7 {
        Some(Month::July)
    } else if n == 8 {
        Some(Month::August)
    } else if n == 9 {
        Some(Month::September)
    } else if n == 10 {
        Some(Month::October)
    } else if n == 11 {
        Some(Month::November)
    } else if n == 12 {
        Some(Month::December)
    } else {
        None
    }
}

/// Whether `c` has the Unicode White_Space property.
pub open spec fn is_white_space(c: char) -> bool {
    let u = c as u32;
    (0x09 <= u <= 0x0d) || u == 0x20 || u == 0x85 || u == 0xa0 || u == 0x1680 || (0x2000 <= u
        <= 0x200a) || u == 0x2028 || u == 0x2029 || u == 0x202f || u == 0x205f || u == 0x3000
}

/// `s` with its trailing white space removed.
pub open spec fn trim_end_of(s: Seq<char>) -> Seq<char>
    decreases s.len(),
{
    if s.len() > 0 && is_white_space(s.last()) {
        trim_end_of(s.drop_last())
    } else {
        s
    }
}

/// Relies on `str::trim_end`, which removes the trailing characters that
/// have the Unicode White_Space property.
#[verifier::external_body]
fn trim_trailing(s: &str) -> (r: &str)
    ensures
        r@ == trim_end_of(s@),
{
    s.trim_end()
}

} // verus!
