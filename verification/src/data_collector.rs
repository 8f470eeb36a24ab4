//! Classification of raw time and weather readings into discrete buckets.
//!
//! The clock is read through trusted wrappers around the `chrono` crate; the
//! classification itself works on plain values: a time of day as minutes past
//! midnight, a month number, a weather description string and a temperature
//! in tenths of a degree Celsius.

use vstd::prelude::*;

verus! {

/// A time of day, as minutes past local midnight (0 to 1439 on a real clock).
pub type MinuteOfDay = u32;

/// A calendar month number, 1 to 12.
pub type Month = u8;

/// A temperature reading, in tenths of a degree Celsius.
pub type Temperature = i64;

/// The part of the day a clock reading falls in, carrying the minute of the
/// day that produced it.
#[derive(Debug, Clone, Copy, PartialEq, Eq, Structural)]
pub enum TimePeriod {
    Dawn(MinuteOfDay),
    Morning(MinuteOfDay),
    Noon(MinuteOfDay),
    Afternoon(MinuteOfDay),
    Dusk(MinuteOfDay),
    Evening(MinuteOfDay),
    Night(MinuteOfDay),
}

/// The season a calendar month falls in, carrying the month that produced it.
#[derive(Debug, Clone, Copy, PartialEq, Eq, Structural)]
pub enum Season {
    Spring(Month),
    Summer(Month),
    Autumn(Month),
    Winter(Month),
}

/// The weather bucket a provider description falls in, carrying the
/// temperature that came with the reading. Descriptions outside the fixed
/// lookup table land in `Unknown`.
#[derive(Debug, Clone, Copy, PartialEq, Eq, Structural)]
pub enum Weather {
    Sunny(Temperature),
    Rainy(Temperature),
    Windy(Temperature),
    Cloudy(Temperature),
    Stormy(Temperature),
    Hot(Temperature),
    Cold(Temperature),
    Unknown(Temperature),
}

/// The seven day-part ranges, in minutes past midnight, checked top to
/// bottom with the first match winning: dawn 05:00-07:00, morning
/// 07:00-11:00, noon 11:00-13:00, afternoon 13:00-17:00, dusk 17:00-19:00,
/// evening 19:00-22:00, anything else night. A reading on a shared endpoint
/// (07:00 is in both the dawn and the morning range) belongs to the earlier
/// range.
pub open spec fn spec_classify_time(m: MinuteOfDay) -> TimePeriod {
    if 300 <= m && m <= 420 {
        TimePeriod::Dawn(m)
    } else if 420 <= m && m <= 660 {
        TimePeriod::Morning(m)
    } else if 660 <= m && m <= 780 {
        TimePeriod::Noon(m)
    } else if 780 <= m && m <= 1020 {
        TimePeriod::Afternoon(m)
    } else if 1020 <= m && m <= 1140 {
        TimePeriod::Dusk(m)
    } else if 1140 <= m && m <= 1320 {
        TimePeriod::Evening(m)
    } else {
        TimePeriod::Night(m)
    }
}

/// Months 3-5 are spring, 6-8 summer, 9-11 autumn, everything else (12, 1, 2,
/// and any out-of-range number) winter.
pub open spec fn spec_classify_season(m: Month) -> Season {
    if 3 <= m && m <= 5 {
        Season::Spring(m)
    } else if 6 <= m && m <= 8 {
        Season::Summer(m)
    } else if 9 <= m && m <= 11 {
        Season::Autumn(m)
    } else {
        Season::Winter(m)
    }
}

#[verifier::external_type_specification]
#[verifier::external_body]
pub struct ExNaiveDateTime(chrono::NaiveDateTime);

/// Relies on `chrono::Local::now`, taken to wall-clock time with
/// `DateTime::naive_local`: reads the system clock. The value depends on the
/// moment of the call, so nothing is promised of it.
#[verifier::external_body]
fn local_now() -> chrono::NaiveDateTime {
    chrono::Local::now().naive_local()
}

/// Relies on `chrono::Timelike::hour`, documented to return the hour number
/// from 0 to 23.
#[verifier::external_body]
fn hour_of(t: &chrono::NaiveDateTime) -> (r: u32)
    ensures
        r < 24,
{
    chrono::Timelike::hour(t)
}

/// Relies on `chrono::Timelike::minute`, documented to return the minute
/// number from 0 to 59.
#[verifier::external_body]
fn minute_of(t: &chrono::NaiveDateTime) -> (r: u32)
    ensures
        r < 60,
{
    chrono::Timelike::minute(t)
}

/// Relies on `chrono::Datelike::month`, documented to return the month
/// number from 1 to 12.
#[verifier::external_body]
fn month_of(t: &chrono::NaiveDateTime) -> (r: u32)
    ensures
        1 <= r <= 12,
{
    chrono::Datelike::month(t)
}

/// Reads the local clock and classifies the time of day.
pub struct TimeData;

impl TimeData {
    /// Buckets a time of day. Total: every minute value falls in exactly one
    /// range of `spec_classify_time`.
    pub fn classify_time(minute: MinuteOfDay) -> (r: TimePeriod)
        ensures
            r == spec_classify_time(minute),
    {
        if 300 <= minute && minute <= 420 {
            TimePeriod::Dawn(minute)
        } else if 420 <= minute && minute <= 660 {
            TimePeriod::Morning(minute)
        } else if 660 <= minute && minute <= 780 {
            TimePeriod::Noon(minute)
        } else if 780 <= minute && minute <= 1020 {
            TimePeriod::Afternoon(minute)
        } else if 1020 <= minute && minute <= 1140 {
            TimePeriod::Dusk(minute)
        } else if 1140 <= minute && minute <= 1320 {
            TimePeriod::Evening(minute)
        } else {
            TimePeriod::Night(minute)
        }
    }

    /// Reads the local clock and buckets the current time of day.
    pub fn get_time() -> (r: TimePeriod)
        ensures
            exists|m: MinuteOfDay| m < 1440 && r == spec_classify_time(m),
    {
        let now = local_now();
        let minute = hour_of(&now) * 60 + minute_of(&now);
        let r = Self::classify_time(minute);
        proof {
            assert(minute < 1440 && r == spec_classify_time(minute));
        }
        r
    }

    /// Reads the local clock and buckets the current month into its season.
    pub fn get_season() -> (r: Season)
        ensures
            exists|m: Month| 1 <= m <= 12 && r == spec_classify_season(m),
    {
        let now = local_now();
        let month = month_of(&now) as u8;
        let r = Self::classify_season(month);
        proof {
            assert(1 <= month <= 12 && r == spec_classify_season(month));
        }
        r
    }

    /// Buckets a calendar month into its season. Total over all month values.
    pub fn classify_season(month: Month) -> (r: Season)
        ensures
            r == spec_classify_season(month),
    {
        if 3 <= month && month <= 5 {
            Season::Spring(month)
        } else if 6 <= month && month <= 8 {
            Season::Summer(month)
        } else if 9 <= month && month <= 11 {
            Season::Autumn(month)
        } else {
            Season::Winter(month)
        }
    }
}

/// The fixed lookup table from a weather provider's description phrase to a
/// bucket. The patterns are distinct whole phrases, so each description
/// matches at most one of them; anything unmatched lands in `Unknown`. The
/// temperature is carried through unchanged in every case.
pub open spec fn spec_classify_weather(d: Seq<char>, t: Temperature) -> Weather {
    if d == "Sunny"@ {
        Weather::Sunny(t)
    } else if d == "Partly cloudy"@ || d == "Cloudy"@ || d == "Overcast"@ || d == "Mist"@
        || d == "Fog"@ || d == "Freezing fog"@ {
        Weather::Cloudy(t)
    } else if d == "Thundery outbreaks possible"@ || d == "Blizzard"@
        || d == "Patchy light rain with thunder"@ || d == "Moderate or heavy rain with thunder"@
        || d == "Patchy light snow with thunder"@
        || d == "Moderate or heavy snow with thunder"@ {
        Weather::Stormy(t)
    } else if d == "Blowing snow"@ {
        Weather::Windy(t)
    } else if d == "Patchy rain possible"@ || d == "Patchy snow possible"@
        || d == "Patchy sleet possible"@ || d == "Patchy freezing drizzle possible"@
        || d == "Patchy light drizzle"@ || d == "Light drizzle"@ || d == "Freezing drizzle"@
        || d == "Heavy freezing drizzle"@ || d == "Patchy light rain"@ || d == "Light rain"@
        || d == "Moderate rain at times"@ || d == "Moderate rain"@ || d == "Heavy rain at times"@
        || d == "Heavy rain"@ || d == "Light freezing rain"@
        || d == "Moderate or heavy freezing rain"@ || d == "Light sleet"@
        || d == "Moderate or heavy sleet"@ || d == "Patchy light snow"@ || d == "Light snow"@
        || d == "Patchy moderate snow"@ || d == "Moderate snow"@ || d == "Patchy heavy snow"@
        || d == "Heavy snow"@ || d == "Ice pellets"@ || d == "Light rain shower"@
        || d == "Moderate or heavy rain shower"@ || d == "Torrential rain shower"@
        || d == "Light sleet showers"@ || d == "Moderate or heavy sleet showers"@
        || d == "Light snow showers"@ || d == "Moderate or heavy snow showers"@
        || d == "Light showers of ice pellets"@
        || d == "Moderate or heavy showers of ice pellets"@ || d == "Patchy rain nearby"@
        || d == "Light rain, thunderstorm in vicinity, rain with thunderstorm"@ {
        Weather::Rainy(t)
    } else {
        Weather::Unknown(t)
    }
}

/// Character-for-character comparison of two string slices, stated over
/// their views.
fn str_eq(a: &str, b: &str) -> (r: bool)
    ensures
        r == (a@ == b@),
{
    let sa: String = a.to_owned();
    let sb: String = b.to_owned();
    sa == sb
}

/// Classifies a weather provider's readings; the provider call itself lives
/// outside this crate, only its parsed result comes in.
pub struct WeatherData;

impl WeatherData {
    /// Buckets a provider description phrase, carrying the temperature
    /// through. Total: unrecognized phrases land in `Unknown`, never an
    /// error.
    pub fn classify_weather(description: &str, temperature: Temperature) -> (r: Weather)
        ensures
            r == spec_classify_weather(description@, temperature),
    {
        let d = description;
        let t = temperature;
        if str_eq(d, "Sunny") {
            Weather::Sunny(t)
        } else if str_eq(d, "Partly cloudy") || str_eq(d, "Cloudy") || str_eq(d, "Overcast")
            || str_eq(d, "Mist") || str_eq(d, "Fog") || str_eq(d, "Freezing fog") {
            Weather::Cloudy(t)
        } else if str_eq(d, "Thundery outbreaks possible") || str_eq(d, "Blizzard")
            || str_eq(d, "Patchy light rain with thunder")
            || str_eq(d, "Moderate or heavy rain with thunder")
            || str_eq(d, "Patchy light snow with thunder")
            || str_eq(d, "Moderate or heavy snow with thunder") {
            Weather::Stormy(t)
        } else if str_eq(d, "Blowing snow") {
            Weather::Windy(t)
        } else if str_eq(d, "Patchy rain possible") || str_eq(d, "Patchy snow possible")
            || str_eq(d, "Patchy sleet possible") || str_eq(d, "Patchy freezing drizzle possible")
            || str_eq(d, "Patchy light drizzle") || str_eq(d, "Light drizzle")
            || str_eq(d, "Freezing drizzle") || str_eq(d, "Heavy freezing drizzle")
            || str_eq(d, "Patchy light rain") || str_eq(d, "Light rain")
            || str_eq(d, "Moderate rain at times") || str_eq(d, "Moderate rain")
            || str_eq(d, "Heavy rain at times") || str_eq(d, "Heavy rain")
            || str_eq(d, "Light freezing rain") || str_eq(d, "Moderate or heavy freezing rain")
            || str_eq(d, "Light sleet") || str_eq(d, "Moderate or heavy sleet")
            || str_eq(d, "Patchy light snow") || str_eq(d, "Light snow")
            || str_eq(d, "Patchy moderate snow") || str_eq(d, "Moderate snow")
            || str_eq(d, "Patchy heavy snow") || str_eq(d, "Heavy snow")
            || str_eq(d, "Ice pellets") || str_eq(d, "Light rain shower")
            || str_eq(d, "Moderate or heavy rain shower") || str_eq(d, "Torrential rain shower")
            || str_eq(d, "Light sleet showers") || str_eq(d, "Moderate or heavy sleet showers")
            || str_eq(d, "Light snow showers") || str_eq(d, "Moderate or heavy snow showers")
            || str_eq(d, "Light showers of ice pellets")
            || str_eq(d, "Moderate or heavy showers of ice pellets")
            || str_eq(d, "Patchy rain nearby")
            || str_eq(d, "Light rain, thunderstorm in vicinity, rain with thunderstorm") {
            Weather::Rainy(t)
        } else {
            Weather::Unknown(t)
        }
    }

    /// Buckets the outcome of a weather lookup that may have failed: a
    /// successful reading goes through the table, a failed one degrades to
    /// `Unknown` with a zero temperature instead of aborting.
    pub fn classify_lookup(lookup: Option<(String, Temperature)>) -> (r: Weather)
        ensures
            lookup matches Some(reading) ==> r == spec_classify_weather(
                reading.0@,
                reading.1,
            ),
            lookup is None ==> r == Weather::Unknown(0),
    {
        match lookup {
            Some((description, temperature)) => Self::classify_weather(
                description.as_str(),
                temperature,
            ),
            None => Weather::Unknown(0),
        }
    }
}

/// The fixed tag name each day part queries for.
pub open spec fn spec_time_tag(t: TimePeriod) -> Seq<char> {
    match t {
        TimePeriod::Dawn(_) => "dawn"@,
        TimePeriod::Morning(_) => "morning"@,
        TimePeriod::Noon(_) => "noon"@,
        TimePeriod::Afternoon(_) => "afternoon"@,
        TimePeriod::Dusk(_) => "dusk"@,
        TimePeriod::Evening(_) => "evening"@,
        TimePeriod::Night(_) => "night"@,
    }
}

/// The fixed tag name each season queries for.
pub open spec fn spec_season_tag(s: Season) -> Seq<char> {
    match s {
        Season::Spring(_) => "spring"@,
        Season::Summer(_) => "summer"@,
        Season::Autumn(_) => "autumn"@,
        Season::Winter(_) => "winter"@,
    }
}

/// The fixed tag name each weather bucket queries for: the lowercase bucket
/// name, except `Unknown`, which queries for the literal tag "none".
pub open spec fn spec_weather_tag(w: Weather) -> Seq<char> {
    match w {
        Weather::Sunny(_) => "sunny"@,
        Weather::Rainy(_) => "rainy"@,
        Weather::Windy(_) => "windy"@,
        Weather::Cloudy(_) => "cloudy"@,
        Weather::Stormy(_) => "stormy"@,
        Weather::Hot(_) => "hot"@,
        Weather::Cold(_) => "cold"@,
        Weather::Unknown(_) => "none"@,
    }
}

/// Maps a day part to the tag its dimension queries for.
pub fn time_tag(t: &TimePeriod) -> (r: &'static str)
    ensures
        r@ == spec_time_tag(*t),
{
    match t {
        TimePeriod::Dawn(_) => "dawn",
        TimePeriod::Morning(_) => "morning",
        TimePeriod::Noon(_) => "noon",
        TimePeriod::Afternoon(_) => "afternoon",
        TimePeriod::Dusk(_) => "dusk",
        TimePeriod::Evening(_) => "evening",
        TimePeriod::Night(_) => "night",
    }
}

/// Maps a season to the tag its dimension queries for.
pub fn season_tag(s: &Season) -> (r: &'static str)
    ensures
        r@ == spec_season_tag(*s),
{
    match s {
        Season::Spring(_) => "spring",
        Season::Summer(_) => "summer",
        Season::Autumn(_) => "autumn",
        Season::Winter(_) => "winter",
    }
}

/// Maps a weather bucket to the tag its dimension queries for.
pub fn weather_tag(w: &Weather) -> (r: &'static str)
    ensures
        r@ == spec_weather_tag(*w),
{
    match w {
        Weather::Sunny(_) => "sunny",
        Weather::Rainy(_) => "rainy",
        Weather::Windy(_) => "windy",
        Weather::Cloudy(_) => "cloudy",
        Weather::Stormy(_) => "stormy",
        Weather::Hot(_) => "hot",
        Weather::Cold(_) => "cold",
        Weather::Unknown(_) => "none",
    }
}

/// Every reading from 05:00 to 07:00 inclusive is dawn; in particular the
/// shared endpoint 07:00 goes to dawn, not morning, because the dawn range is
/// checked first.
pub proof fn lemma_dawn_range(m: MinuteOfDay)
    requires
        300 <= m <= 420,
    ensures
        spec_classify_time(m) == TimePeriod::Dawn(m),
{
}

/// Season classification is total and canonical: every month lands in one of
/// the four buckets, and the bucket carries the month unchanged, so the
/// result is a function of the month alone.
pub proof fn lemma_season_total(m: Month)
    ensures
        spec_classify_season(m) == Season::Spring(m) || spec_classify_season(m)
            == Season::Summer(m) || spec_classify_season(m) == Season::Autumn(m)
            || spec_classify_season(m) == Season::Winter(m),
{
}

} // verus!
