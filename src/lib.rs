//! Maps a calendar month and a day of that month to a zodiac sign, through a
//! fixed table of boundary days.

pub mod month;
pub mod zodiac;

pub use month::{Month, MonthError};
pub use zodiac::{get_horoscope, BoundaryEntry, Horoscope, ZodiacSign};
