//! The weather lookup: the request that is sent, what the answer amounts to,
//! the report that stands in for a failed lookup, and the conversion to
//! degrees Celsius.

use vstd::prelude::*;
use vstd::string::*;
use crate::models::provider::{FailureKind, Fetched};
use crate::models::weather::{
    forecast_info,
    AccuWeatherResponse,
    DailyForecast,
    WeatherInfo,
    WeatherInfoView,
};
use crate::services::provider_service::{fetch_outcome, outcome};

verus! {

/// The address of the one-day forecast for a location.
pub open spec fn weather_url(location_key: Seq<char>, api_key: Seq<char>) -> Seq<char> {
    "http://dataservice.accuweather.com/forecasts/v1/daily/1day/"@ + location_key + "?apikey="@
        + api_key + "&language=pt-br&details=true"@
}

/// Builds the address of the one-day forecast for a location.
pub fn weather_request_url(location_key: &str, api_key: &str) -> (url: String)
    ensures
        url@ == weather_url(location_key@, api_key@),
{
    let mut url = String::from_str("http://dataservice.accuweather.com/forecasts/v1/daily/1day/");
    url.append(location_key);
    url.append("?apikey=");
    url.append(api_key);
    url.append("&language=pt-br&details=true");
    url
}

/// The words that stand where a description is not known.
pub open spec fn unavailable_text() -> Seq<char> {
    "Informação indisponível"@
}

/// The report that stands in for a failed lookup: every number zero, both
/// descriptions "unavailable".
pub open spec fn default_weather() -> WeatherInfoView {
    WeatherInfoView {
        max_temperature: 0,
        min_temperature: 0,
        description_day: unavailable_text(),
        description_night: unavailable_text(),
        precipitation_probability_day: 0,
        precipitation_probability_night: 0,
    }
}

/// The report that stands in for a failed lookup.
pub fn default_weather_info() -> (info: WeatherInfo)
    ensures
        info@ == default_weather(),
{
    WeatherInfo {
        max_temperature: 0,
        min_temperature: 0,
        description_day: String::from_str("Informação indisponível"),
        description_night: String::from_str("Informação indisponível"),
        precipitation_probability_day: 0,
        precipitation_probability_night: 0,
    }
}

/// What a decoded answer holds: the first day's forecast, or nothing usable
/// where the list of days is empty.
pub open spec fn first_forecast(days: Seq<DailyForecast>) -> Result<WeatherInfoView, FailureKind> {
    if days.len() == 0 {
        Err(FailureKind::EmptyResult)
    } else {
        Ok(forecast_info(days[0]))
    }
}

/// What a weather lookup amounts to.
pub open spec fn weather_outcome(fetched: Fetched<AccuWeatherResponse>) -> Result<
    WeatherInfoView,
    FailureKind,
> {
    match fetch_outcome(fetched) {
        Ok(body) => first_forecast(body.daily_forecasts@),
        Err(kind) => Err(kind),
    }
}

/// Whether `result` is `expected`, a report being taken by what it stands for.
pub open spec fn weather_result_is(
    result: Result<WeatherInfo, FailureKind>,
    expected: Result<WeatherInfoView, FailureKind>,
) -> bool {
    match expected {
        Ok(view) => result is Ok && result->Ok_0@ == view,
        Err(kind) => result == Err::<WeatherInfo, FailureKind>(kind),
    }
}

/// Reads the first day's forecast out of a decoded answer.
pub fn forecast_of(body: &AccuWeatherResponse) -> (result: Result<WeatherInfo, FailureKind>)
    ensures
        weather_result_is(result, first_forecast(body.daily_forecasts@)),
{
    if body.daily_forecasts.len() == 0 {
        Err(FailureKind::EmptyResult)
    } else {
        let forecast = &body.daily_forecasts[0];
        Ok(
            WeatherInfo {
                max_temperature: forecast.temperature.maximum.value,
                min_temperature: forecast.temperature.minimum.value,
                description_day: forecast.day.icon_phrase.clone(),
                description_night: forecast.night.icon_phrase.clone(),
                precipitation_probability_day: forecast.day.precipitation_probability,
                precipitation_probability_night: forecast.night.precipitation_probability,
            },
        )
    }
}

/// Judges one attempt to fetch the forecast for Osasco. Every way in which
/// the attempt can fall short gives an error: a missing key, no answer, a
/// status outside 200 to 299, a body that could not be decoded, an empty list
/// of days.
pub fn get_weather_in_osasco(fetched: Fetched<AccuWeatherResponse>) -> (result: Result<
    WeatherInfo,
    FailureKind,
>)
    ensures
        weather_result_is(result, weather_outcome(fetched)),
{
    match outcome(fetched) {
        Ok(body) => forecast_of(&body),
        Err(kind) => Err(kind),
    }
}

/// The report that a reply is composed from: the lookup's, or the stand-in
/// where the lookup failed.
pub open spec fn weather_or_default(result: Result<WeatherInfo, FailureKind>) -> WeatherInfoView {
    match result {
        Ok(info) => info@,
        Err(_) => default_weather(),
    }
}

/// Replaces a failed lookup by the stand-in report.
pub fn usable_weather(result: Result<WeatherInfo, FailureKind>) -> (info: WeatherInfo)
    ensures
        info@ == weather_or_default(result),
{
    match result {
        Ok(info) => info,
        Err(_) => default_weather_info(),
    }
}

/// Whether `celsius` is the whole number of degrees Celsius nearest to a
/// temperature given in tenths of a degree Fahrenheit. The exact value is
/// `(tenths - 320) / 18`; where it lies halfway between two whole numbers,
/// the even one is the nearest.
pub open spec fn is_nearest_celsius(tenths: int, celsius: int) -> bool {
    let off = 18 * celsius - (tenths - 320);
    &&& -9 <= off <= 9
    &&& (off == 9 || off == -9) ==> celsius % 2 == 0
}

/// Degrees Celsius, rounded to a whole number, for a temperature in tenths of
/// a degree Fahrenheit: `(f - 32) * 5 / 9`.
pub open spec fn celsius_rounded(tenths: int) -> int {
    let below = (tenths - 320) / 18;
    let rest = (tenths - 320) % 18;
    if rest < 9 {
        below
    } else if rest > 9 {
        below + 1
    } else if below % 2 == 0 {
        below
    } else {
        below + 1
    }
}

/// `celsius_rounded` gives the nearest whole number, and nothing else is.
pub proof fn lemma_celsius_rounded_is_nearest(tenths: int)
    ensures
        is_nearest_celsius(tenths, celsius_rounded(tenths)),
        forall|c: int| is_nearest_celsius(tenths, c) ==> c == celsius_rounded(tenths),
{
    let d = tenths - 320;
    let q = d / 18;
    let r = d % 18;
    assert(d == 18 * q + r && 0 <= r < 18) by (nonlinear_arith)
        requires
            q == d / 18,
            r == d % 18,
    ;
    assert forall|c: int| is_nearest_celsius(tenths, c) implies c == celsius_rounded(tenths) by {
        let off = 18 * c - d;
        assert(18 * (c - q) == off + r);
        assert(c == q || c == q + 1);
    }
}

/// Converts a temperature in tenths of a degree Fahrenheit to whole degrees
/// Celsius.
pub fn to_celsius(tenths: i32) -> (celsius: i64)
    ensures
        celsius == celsius_rounded(tenths as int),
        is_nearest_celsius(tenths as int, celsius as int),
{
    // 18 * 200_000_000 lifts every input above zero without moving the rest.
    let lifted: i64 = (tenths as i64) - 320 + 3_600_000_000;
    let raised: u64 = lifted as u64;
    let below: u64 = raised / 18;
    let rest: u64 = raised % 18;
    proof {
        lemma_lifted_division(tenths as int - 320, below as int, rest as int);
    }
    let up: bool = rest > 9 || (rest == 9 && below % 2 == 1);
    let whole: u64 = if up {
        below + 1
    } else {
        below
    };
    let celsius: i64 = (whole as i64) - 200_000_000;
    proof {
        lemma_celsius_rounded_is_nearest(tenths as int);
    }
    celsius
}

/// Division by 18 after adding 18 * 200_000_000: the quotient moves by
/// 200_000_000 and the rest stays.
proof fn lemma_lifted_division(d: int, below: int, rest: int)
    requires
        d + 3_600_000_000 >= 0,
        below == (d + 3_600_000_000) / 18,
        rest == (d + 3_600_000_000) % 18,
    ensures
        below == d / 18 + 200_000_000,
        rest == d % 18,
        (below % 2 == 0) == ((d / 18) % 2 == 0),
{
}

/// A failed lookup, whatever its kind, counts as the stand-in report: both
/// descriptions are the words for "unavailable", and the highest and the
/// lowest temperature are the same, zero degrees Fahrenheit, which is 18
/// degrees below zero in whole degrees Celsius.
pub proof fn lemma_failed_lookup_report(kind: FailureKind)
    ensures
        weather_or_default(Err(kind)) == default_weather(),
        default_weather().description_day == unavailable_text(),
        default_weather().description_night == unavailable_text(),
        default_weather().max_temperature == 0,
        default_weather().min_temperature == 0,
        celsius_rounded(default_weather().max_temperature) == celsius_rounded(
            default_weather().min_temperature,
        ),
        celsius_rounded(0) == -18,
{
}

} // verus!
