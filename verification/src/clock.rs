use vstd::prelude::*;

verus! {

/// The day of the week of a calendar date, as chrono counts it from Monday (Monday is 0,
/// Sunday is 6); none where chrono has no such date.
pub uninterp spec fn chrono_weekday(year: i32, month: u32, day: u32) -> Option<u32>;

/// Calls `chrono::NaiveDate::from_ymd_opt` and, for a date that exists, the date's
/// `weekday().num_days_from_monday()`. Trusted: the result is `chrono_weekday` of the same
/// arguments, and a weekday number is below 7 (chrono numbers Monday to Sunday from 0 to 6);
/// which dates exist and which weekday each has is left to chrono.
#[verifier::external_body]
fn weekday_from_monday(year: i32, month: u32, day: u32) -> (r: Option<u32>)
    ensures
        r == chrono_weekday(year, month, day),
        r matches Some(w) ==> w < 7,
{
    chrono::NaiveDate::from_ymd_opt(year, month, day).map(
        |date| chrono::Datelike::weekday(&date).num_days_from_monday(),
    )
}

/// A wall-clock time in the machine's time zone, with the day of the week of its date.
#[derive(Debug, Clone, Copy, PartialEq, Eq)]
pub struct LocalDateTime {
    year: i32,
    month: u32,
    day: u32,
    hour: u32,
    minute: u32,
    second: u32,
    weekday: u32,
}

impl LocalDateTime {
    #[verifier::type_invariant]
    spec fn well_formed(self) -> bool {
        &&& chrono_weekday(self.year, self.month, self.day) == Some(self.weekday)
        &&& self.weekday < 7
        &&& self.hour < 24
        &&& self.minute < 60
        &&& self.second < 60
    }

    pub closed spec fn spec_year(self) -> i32 {
        self.year
    }

    pub closed spec fn spec_month(self) -> u32 {
        self.month
    }

    pub closed spec fn spec_day(self) -> u32 {
        self.day
    }

    pub closed spec fn spec_hour(self) -> u32 {
        self.hour
    }

    pub closed spec fn spec_minute(self) -> u32 {
        self.minute
    }

    pub closed spec fn spec_second(self) -> u32 {
        self.second
    }

    /// The day of the week, counted from Monday (0) to Sunday (6).
    pub closed spec fn spec_weekday(self) -> u32 {
        self.weekday
    }

    /// The time on the given date at the given hour, minute and second; none where chrono
    /// has no such date or a field is out of range.
    pub fn from_ymd_hms(year: i32, month: u32, day: u32, hour: u32, minute: u32, second: u32) -> (r:
        Option<LocalDateTime>)
        ensures
            r is Some <==> (chrono_weekday(year, month, day) is Some && hour < 24 && minute < 60
                && second < 60),
            r matches Some(t) ==> {
                &&& t.spec_year() == year
                &&& t.spec_month() == month
                &&& t.spec_day() == day
                &&& t.spec_hour() == hour
                &&& t.spec_minute() == minute
                &&& t.spec_second() == second
                &&& Some(t.spec_weekday()) == chrono_weekday(year, month, day)
            },
    {
        if hour >= 24 || minute >= 60 || second >= 60 {
            return None;
        }
        match weekday_from_monday(year, month, day) {
            Some(weekday) => Some(LocalDateTime { year, month, day, hour, minute, second, weekday }),
            None => None,
        }
    }

    pub fn hour(&self) -> (h: u32)
        ensures
            h == self.spec_hour(),
            h < 24,
    {
        proof {
            use_type_invariant(self);
        }
        self.hour
    }

    /// The day of the week, counted from Monday (0) to Sunday (6).
    pub fn weekday_from_monday(&self) -> (w: u32)
        ensures
            w == self.spec_weekday(),
            w < 7,
    {
        proof {
            use_type_invariant(self);
        }
        self.weekday
    }
}

} // verus!
