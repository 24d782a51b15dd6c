//! The time that files on the card are stamped with.

use crate::clock::Time;
use vstd::prelude::*;

verus! {

/// A date and time as the file system of the card holds it.
#[derive(Clone, Copy, Debug, PartialEq, Eq, Structural)]
pub struct FileTimestamp {
    pub year_since_1970: u8,
    pub zero_indexed_month: u8,
    pub zero_indexed_day: u8,
    pub hours: u8,
    pub minutes: u8,
    pub seconds: u8,
}

/// The stamp for the given day and time. The years count from 1970 and
/// the months and days from zero; nothing where the year is before 1970 or
/// more than 255 years after it, or where the month or the day is not one
/// of a calendar.
pub fn file_timestamp(year: i32, month: u8, day: u8, time: Time) -> (r: Option<FileTimestamp>)
    ensures
        r.is_some() <==> (1970 <= year <= 1970 + 255 && 1 <= month <= 12 && 1 <= day <= 31),
        r matches Some(stamp) ==> {
            &&& stamp.year_since_1970 == year - 1970
            &&& stamp.zero_indexed_month == month - 1
            &&& stamp.zero_indexed_day == day - 1
            &&& stamp.hours == time.spec_hour()
            &&& stamp.minutes == time.spec_minute()
            &&& stamp.seconds == time.spec_second()
        },
{
    if 1970 <= year && year <= 2225 && 1 <= month && month <= 12 && 1 <= day && day <= 31 {
        Some(
            FileTimestamp {
                year_since_1970: (year - 1970) as u8,
                zero_indexed_month: month - 1,
                zero_indexed_day: day - 1,
                hours: time.hour(),
                minutes: time.minute(),
                seconds: time.second(),
            },
        )
    } else {
        None
    }
}

} // verus!
