use vstd::prelude::*;
use crate::month::{month_of_number, Month};

verus! {

/// The twelve zodiac signs.
#[derive(Debug, Clone, Copy, PartialEq, Eq, Hash, Structural)]
pub enum ZodiacSign {
    Aquarius,
    Pisces,
    Aries,
    Taurus,
    Gemini,
    Cancer,
    Leo,
    Virgo,
    Libra,
    Scorpio,
    Sagittarius,
    Capricorn,
}

/// One month's row of the table: from `cutoff_day` on the month belongs to
/// `sign_at_or_after`, before it to `sign_before`.
#[derive(Debug, Clone, Copy, PartialEq, Eq, Structural)]
pub struct BoundaryEntry {
    pub cutoff_day: u8,
    pub sign_at_or_after: ZodiacSign,
    pub sign_before: ZodiacSign,
}

/// The fixed row of each month.
pub open spec fn table_entry(m: Month) -> BoundaryEntry {
    match m {
        Month::January => BoundaryEntry {
            cutoff_day: 20,
            sign_at_or_after: ZodiacSign::Aquarius,
            sign_before: ZodiacSign::Capricorn,
        },
        Month::February => BoundaryEntry {
            cutoff_day: 19,
            sign_at_or_after: ZodiacSign::Pisces,
            sign_before: ZodiacSign::Aquarius,
        },
        Month::March => BoundaryEntry {
            cutoff_day: 21,
            sign_at_or_after: ZodiacSign::Aries,
            sign_before: ZodiacSign::Pisces,
        },
        Month::April => BoundaryEntry {
            cutoff_day: 20,
            sign_at_or_after: ZodiacSign::Taurus,
            sign_before: ZodiacSign::Aries,
        },
        Month::May => BoundaryEntry {
            cutoff_day: 21,
            sign_at_or_after: ZodiacSign::Gemini,
            sign_before: ZodiacSign::Taurus,
        },
        Month::June => BoundaryEntry {
            cutoff_day: 21,
            sign_at_or_after: ZodiacSign::Cancer,
            sign_before: ZodiacSign::Gemini,
        },
        Month::July => BoundaryEntry {
            cutoff_day: 23,
            sign_at_or_after: ZodiacSign::Leo,
            sign_before: ZodiacSign::Cancer,
        },
        Month::August => BoundaryEntry {
            cutoff_day: 23,
            sign_at_or_after: ZodiacSign::Virgo,
            sign_before: ZodiacSign::Leo,
        },
        Month::September => BoundaryEntry {
            cutoff_day: 23,
            sign_at_or_after: ZodiacSign::Libra,
            sign_before: ZodiacSign::Virgo,
        },
        Month::October => BoundaryEntry {
            cutoff_day: 23,
            sign_at_or_after: ZodiacSign::Scorpio,
            sign_before: ZodiacSign::Libra,
        },
        Month::November => BoundaryEntry {
            cutoff_day: 22,
            sign_at_or_after: ZodiacSign::Sagittarius,
            sign_before: ZodiacSign::Scorpio,
        },
        Month::December => BoundaryEntry {
            cutoff_day: 22,
            sign_at_or_after: ZodiacSign::Capricorn,
            sign_before: ZodiacSign::Sagittarius,
        },
    }
}

/// Whether `day` is a day of `m` here: 1 to 31, and at most 29 in February.
pub open spec fn day_in_range(m: Month, day: int) -> bool {
    1 <= day <= 31 && (m == Month::February ==> day <= 29)
}

/// The sign of day `day` of month `m`, or `None` where the day is out of range.
pub open spec fn zodiac_of(m: Month, day: int) -> Option<ZodiacSign> {
    if !day_in_range(m, day) {
        None
    } else if day >= table_entry(m).cutoff_day {
        Some(table_entry(m).sign_at_or_after)
    } else {
        Some(table_entry(m).sign_before)
    }
}

/// Every month's cutoff day lies in that month's range of days.
pub proof fn lemma_cutoff_in_range(m: Month)
    ensures
        day_in_range(m, table_entry(m).cutoff_day as int),
{
}

/// Every day in range of every month has a sign.
pub proof fn lemma_sign_in_range(m: Month, day: int)
    requires
        day_in_range(m, day),
    ensures
        zodiac_of(m, day) is Some,
{
}

/// The cutoff day and the day after it (where it is in range) have the later
/// sign; the day before the cutoff has the earlier one.
pub proof fn lemma_boundary(m: Month)
    ensures
        zodiac_of(m, table_entry(m).cutoff_day as int) == Some(table_entry(m).sign_at_or_after),
        day_in_range(m, table_entry(m).cutoff_day + 1) ==> zodiac_of(
            m,
            table_entry(m).cutoff_day + 1,
        ) == Some(table_entry(m).sign_at_or_after),
        zodiac_of(m, table_entry(m).cutoff_day - 1) == Some(table_entry(m).sign_before),
{
}

/// Day 0, day 32 and later, and February 30 and later have no sign.
pub proof fn lemma_out_of_range(m: Month, day: int)
    requires
        day <= 0 || day >= 32 || (m == Month::February && day >= 30),
    ensures
        zodiac_of(m, day) is None,
{
}

/// Position of a month's row in the table.
pub open spec fn row(m: Month) -> int {
    m.number() - 1
}

/// The table: one row per month, in calendar order.
pub struct Horoscope {
    months: Vec<BoundaryEntry>,
}

impl Horoscope {
    /// The rows held.
    pub closed spec fn rows(&self) -> Seq<BoundaryEntry> {
        self.months@
    }

    /// Whether the table holds exactly the fixed row of each month.
    pub open spec fn is_filled(&self) -> bool {
        &&& self.rows().len() == 12
        &&& forall|m: Month| #[trigger] self.rows()[row(m)] == table_entry(m)
    }

    /// Fills the table with the fixed row of each month.
    pub fn init(&mut self)
        ensures
            final(self).is_filled(),
    {
        let mut t: Vec<BoundaryEntry> = Vec::new();
        t.push(
            BoundaryEntry {
                cutoff_day: 20,
                sign_at_or_after: ZodiacSign::Aquarius,
                sign_before: ZodiacSign::Capricorn,
            },
        );
        t.push(
            BoundaryEntry {
                cutoff_day: 19,
                sign_at_or_after: ZodiacSign::Pisces,
                sign_before: ZodiacSign::Aquarius,
            },
        );
        t.push(
            BoundaryEntry {
                cutoff_day: 21,
                sign_at_or_after: ZodiacSign::Aries,
                sign_before: ZodiacSign::Pisces,
            },
        );
        t.push(
            BoundaryEntry {
                cutoff_day: 20,
                sign_at_or_after: ZodiacSign::Taurus,
                sign_before: ZodiacSign::Aries,
            },
        );
        t.push(
            BoundaryEntry {
                cutoff_day: 21,
                sign_at_or_after: ZodiacSign::Gemini,
                sign_before: ZodiacSign::Taurus,
            },
        );
        t.push(
            BoundaryEntry {
                cutoff_day: 21,
                sign_at_or_after: ZodiacSign::Cancer,
                sign_before: ZodiacSign::Gemini,
            },
        );
        t.push(
            BoundaryEntry {
                cutoff_day: 23,
                sign_at_or_after: ZodiacSign::Leo,
                sign_before: ZodiacSign::Cancer,
            },
        );
        t.push(
            BoundaryEntry {
                cutoff_day: 23,
                sign_at_or_after: ZodiacSign::Virgo,
                sign_before: ZodiacSign::Leo,
            },
        );
        t.push(
            BoundaryEntry {
                cutoff_day: 23,
                sign_at_or_after: ZodiacSign::Libra,
                sign_before: ZodiacSign::Virgo,
            },
        );
        t.push(
            BoundaryEntry {
                cutoff_day: 23,
                sign_at_or_after: ZodiacSign::Scorpio,
                sign_before: ZodiacSign::Libra,
            },
        );
        t.push(
            BoundaryEntry {
                cutoff_day: 22,
                sign_at_or_after: ZodiacSign::Sagittarius,
                sign_before: ZodiacSign::Scorpio,
            },
        );
        t.push(
            BoundaryEntry {
                cutoff_day: 22,
                sign_at_or_after: ZodiacSign::Capricorn,
                sign_before: ZodiacSign::Sagittarius,
            },
        );
        self.months = t;
    }

    /// The sign of day `day` of `month`, or `None` where the day is out of
    /// range for that month.
    pub fn get(&self, month: &Month, day: u8) -> (r: Option<ZodiacSign>)
        requires
            self.is_filled(),
        ensures
            r == zodiac_of(*month, day as int),
    {
        if day < 1 || day > 31 || (*month == Month::February && day > 29) {
            return None;
        }
        let e = self.months[month_row(month)];
        proof {
            assert(e == table_entry(*month));
        }
        if day >= e.cutoff_day {
            Some(e.sign_at_or_after)
        } else {
            Some(e.sign_before)
        }
    }
}

impl Default for Horoscope {
    /// An empty table; `init` fills it.
    fn default() -> (r: Horoscope)
        ensures
            r.rows().len() == 0,
    {
        Horoscope { months: Vec::new() }
    }
}

/// Index of the row of `m` in the table.
fn month_row(m: &Month) -> (r: usize)
    ensures
        r == row(*m),
{
    match m {
        Month::January => 0,
        Month::February => 1,
        Month::March => 2,
        Month::April => 3,
        Month::May => 4,
        Month::June => 5,
        Month::July => 6,
        Month::August => 7,
        Month::September => 8,
        Month::October => 9,
        Month::November => 10,
        Month::December => 11,
    }
}

/// The sign of day `day` of the month numbered `month` (1 to 12), or `None`
/// where the month number or the day is out of range.
pub fn get_horoscope(month: u8, day: u8) -> (r: Option<ZodiacSign>)
    ensures
        r == (match month_of_number(month as nat) {
            Some(m) => zodiac_of(m, day as int),
            None => None,
        }),
{
    match Month::from_number(month) {
        Some(m) => {
            let mut table = Horoscope::default();
            table.init();
            table.get(&m, day)
        },
        None => None,
    }
}

} // verus!
