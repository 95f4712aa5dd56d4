//! The forecast as the weather provider sends it, and the part of it that a
//! reply uses.
//!
//! Temperatures are held in tenths of a degree Fahrenheit, the precision in
//! which the provider reports them.

use vstd::prelude::*;

verus! {

/// The body of the weather provider's answer.
#[derive(Clone, Debug, PartialEq, Eq)]
pub struct AccuWeatherResponse {
    pub daily_forecasts: Vec<DailyForecast>,
}

/// The forecast for one day.
#[derive(Clone, Debug, PartialEq, Eq)]
pub struct DailyForecast {
    pub temperature: Temperature,
    pub day: WeatherDescription,
    pub night: WeatherDescription,
}

/// The day's lowest and highest temperature.
#[derive(Clone, Copy, Debug, PartialEq, Eq, Structural)]
pub struct Temperature {
    pub minimum: Value,
    pub maximum: Value,
}

/// A temperature, in tenths of a degree Fahrenheit.
#[derive(Clone, Copy, Debug, PartialEq, Eq, Structural)]
pub struct Value {
    pub value: i32,
}

/// How one half of the day is expected to be.
#[derive(Clone, Debug, PartialEq, Eq)]
pub struct WeatherDescription {
    pub icon_phrase: String,
    pub precipitation_probability: u8,
}

/// The part of a forecast that a reply uses. Temperatures are in tenths of a
/// degree Fahrenheit.
#[derive(Clone, Debug, PartialEq, Eq)]
pub struct WeatherInfo {
    pub max_temperature: i32,
    pub min_temperature: i32,
    pub description_day: String,
    pub description_night: String,
    pub precipitation_probability_day: u8,
    pub precipitation_probability_night: u8,
}

/// What a `WeatherInfo` stands for.
pub ghost struct WeatherInfoView {
    pub max_temperature: int,
    pub min_temperature: int,
    pub description_day: Seq<char>,
    pub description_night: Seq<char>,
    pub precipitation_probability_day: int,
    pub precipitation_probability_night: int,
}

impl View for WeatherInfo {
    type V = WeatherInfoView;

    open spec fn view(&self) -> WeatherInfoView {
        WeatherInfoView {
            max_temperature: self.max_temperature as int,
            min_temperature: self.min_temperature as int,
            description_day: self.description_day@,
            description_night: self.description_night@,
            precipitation_probability_day: self.precipitation_probability_day as int,
            precipitation_probability_night: self.precipitation_probability_night as int,
        }
    }
}

/// The `WeatherInfo` that a day's forecast gives.
pub open spec fn forecast_info(forecast: DailyForecast) -> WeatherInfoView {
    WeatherInfoView {
        max_temperature: forecast.temperature.maximum.value as int,
        min_temperature: forecast.temperature.minimum.value as int,
        description_day: forecast.day.icon_phrase@,
        description_night: forecast.night.icon_phrase@,
        precipitation_probability_day: forecast.day.precipitation_probability as int,
        precipitation_probability_night: forecast.night.precipitation_probability as int,
    }
}

} // verus!
