//! The discrete parts of a feature snapshot: the time-of-day category derived
//! from the hour, and the day of the year that the seasonal signal is read at.

use vstd::prelude::*;

verus! {

/// Days in the seasonal period.
pub const DAYS_PER_YEAR: u32 = 365;

/// Shift applied to the day of the year outside the northern hemisphere.
pub const HEMISPHERE_SHIFT: u32 = 180;

/// Time-of-day category of a snapshot.
#[derive(Clone, Copy, Debug, PartialEq, Eq, Structural)]
pub enum TimeOfDay {
    Night,
    Morning,
    Day,
    Evening,
}

/// The category that an hour of the day falls in: hours 0-5 are night, 6-11
/// morning, 12-17 day and every later hour evening.
pub open spec fn time_of_day_of_hour(hour: u32) -> TimeOfDay {
    if hour <= 5 {
        TimeOfDay::Night
    } else if hour <= 11 {
        TimeOfDay::Morning
    } else if hour <= 17 {
        TimeOfDay::Day
    } else {
        TimeOfDay::Evening
    }
}

impl TimeOfDay {
    /// Numeric code of the category: 0 night, 1 morning, 2 day, 3 evening.
    pub open spec fn code(self) -> u32 {
        match self {
            TimeOfDay::Night => 0,
            TimeOfDay::Morning => 1,
            TimeOfDay::Day => 2,
            TimeOfDay::Evening => 3,
        }
    }

    /// The category that a numeric code stands for; a code outside 1-3 reads
    /// as night.
    pub open spec fn of_code(code: u32) -> TimeOfDay {
        if code == 1 {
            TimeOfDay::Morning
        } else if code == 2 {
            TimeOfDay::Day
        } else if code == 3 {
            TimeOfDay::Evening
        } else {
            TimeOfDay::Night
        }
    }

    pub fn from_hour(hour: u32) -> (r: TimeOfDay)
        ensures
            r == time_of_day_of_hour(hour),
    {
        if hour <= 5 {
            TimeOfDay::Night
        } else if hour <= 11 {
            TimeOfDay::Morning
        } else if hour <= 17 {
            TimeOfDay::Day
        } else {
            TimeOfDay::Evening
        }
    }

    pub fn from_category(code: u32) -> (r: TimeOfDay)
        ensures
            r == TimeOfDay::of_code(code),
    {
        match code {
            1 => TimeOfDay::Morning,
            2 => TimeOfDay::Day,
            3 => TimeOfDay::Evening,
            _ => TimeOfDay::Night,
        }
    }

    pub fn category(&self) -> (r: u32)
        ensures
            r == self.code(),
            r <= 3,
    {
        match self {
            TimeOfDay::Night => 0,
            TimeOfDay::Morning => 1,
            TimeOfDay::Day => 2,
            TimeOfDay::Evening => 3,
        }
    }
}

/// Time-of-day category code of an hour of the day.
pub fn time_category(hour: u32) -> (r: u32)
    ensures
        r == time_of_day_of_hour(hour).code(),
        hour <= 5 ==> r == 0,
        6 <= hour <= 11 ==> r == 1,
        12 <= hour <= 17 ==> r == 2,
        18 <= hour ==> r == 3,
{
    TimeOfDay::from_hour(hour).category()
}

/// The day of the year at which the seasonal curves are evaluated: the day
/// itself in the northern hemisphere, else the day moved by half a year,
/// taken modulo the seasonal period.
pub open spec fn seasonal_day(day_of_year: u32, northern: bool) -> int {
    if northern {
        day_of_year as int
    } else {
        (day_of_year + HEMISPHERE_SHIFT) % (DAYS_PER_YEAR as int)
    }
}

/// Day of the year at which the seasonal factor is read. `northern` is
/// whether the latitude is at or above the equator.
pub fn season_day(day_of_year: u32, northern: bool) -> (r: u32)
    ensures
        r as int == seasonal_day(day_of_year, northern),
        !northern ==> r < DAYS_PER_YEAR,
{
    if northern {
        day_of_year
    } else {
        let shifted: u64 = day_of_year as u64 + HEMISPHERE_SHIFT as u64;
        (shifted % (DAYS_PER_YEAR as u64)) as u32
    }
}

/// Hour and category agree: the category read back from the code of an hour
/// is the category of that hour.
pub proof fn lemma_category_round_trip(hour: u32)
    ensures
        TimeOfDay::of_code(time_of_day_of_hour(hour).code()) == time_of_day_of_hour(hour),
{
}

/// The seasonal curves are periodic with the length of the year: moving the
/// day of the year by a whole period leaves the phase at which they are read
/// unchanged, in either hemisphere.
pub proof fn lemma_season_day_periodic(day_of_year: u32, northern: bool)
    requires
        day_of_year + DAYS_PER_YEAR <= u32::MAX,
    ensures
        seasonal_day((day_of_year + DAYS_PER_YEAR) as u32, northern) % (DAYS_PER_YEAR as int)
            == seasonal_day(day_of_year, northern) % (DAYS_PER_YEAR as int),
{
    let p = DAYS_PER_YEAR as int;
    let d = day_of_year as int;
    let s = HEMISPHERE_SHIFT as int;
    assert((d + p) % p == d % p) by (nonlinear_arith)
        requires p == 365, d >= 0;
    assert((d + p + s) % p == (d + s) % p) by (nonlinear_arith)
        requires p == 365, d >= 0, s == 180;
    assert(((d + s) % p) % p == (d + s) % p) by (nonlinear_arith)
        requires p == 365, d >= 0, s == 180;
    assert(((d + p + s) % p) % p == (d + p + s) % p) by (nonlinear_arith)
        requires p == 365, d >= 0, s == 180;
}

/// The hemisphere rule: a day read in the southern hemisphere is read at the
/// same phase as the day half a year later in the northern hemisphere.
pub proof fn lemma_season_day_hemispheres(day_of_year: u32)
    requires
        day_of_year + HEMISPHERE_SHIFT <= u32::MAX,
    ensures
        seasonal_day(day_of_year, false) % (DAYS_PER_YEAR as int)
            == seasonal_day((day_of_year + HEMISPHERE_SHIFT) as u32, true) % (DAYS_PER_YEAR as int),
{
    let p = DAYS_PER_YEAR as int;
    let d = day_of_year as int + HEMISPHERE_SHIFT as int;
    assert((d % p) % p == d % p) by (nonlinear_arith)
        requires p == 365, d >= 0;
}

} // verus!
