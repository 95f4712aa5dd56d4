use marcia_assistant::models::provider::{FailureKind, Fetched};
use marcia_assistant::models::weather::{
    AccuWeatherResponse, DailyForecast, Temperature, Value, WeatherDescription, WeatherInfo,
};
use marcia_assistant::services::weather_service::{
    default_weather_info, forecast_of, get_weather_in_osasco, to_celsius, usable_weather,
    weather_request_url,
};

fn sunny_day() -> DailyForecast {
    DailyForecast {
        temperature: Temperature { minimum: Value { value: 680 }, maximum: Value { value: 860 } },
        day: WeatherDescription {
            icon_phrase: "Ensolarado".to_string(),
            precipitation_probability: 10,
        },
        night: WeatherDescription { icon_phrase: "Limpo".to_string(), precipitation_probability: 5 },
    }
}

fn sunny_info() -> WeatherInfo {
    WeatherInfo {
        max_temperature: 860,
        min_temperature: 680,
        description_day: "Ensolarado".to_string(),
        description_night: "Limpo".to_string(),
        precipitation_probability_day: 10,
        precipitation_probability_night: 5,
    }
}

#[test]
fn celsius_of_freezing_boiling_and_the_crossing_point() {
    assert_eq!(to_celsius(320), 0);
    assert_eq!(to_celsius(2120), 100);
    assert_eq!(to_celsius(-400), -40);
}

#[test]
fn celsius_of_a_warm_day() {
    assert_eq!(to_celsius(860), 30);
    assert_eq!(to_celsius(680), 20);
}

#[test]
fn celsius_of_zero_fahrenheit() {
    assert_eq!(to_celsius(0), -18);
}

#[test]
fn celsius_rounds_to_the_nearest_whole_degree() {
    // 32.8 F is 0.44 C, 33.0 F is 0.56 C
    assert_eq!(to_celsius(328), 0);
    assert_eq!(to_celsius(330), 1);
    // 31.2 F is -0.44 C, 31.0 F is -0.56 C
    assert_eq!(to_celsius(312), 0);
    assert_eq!(to_celsius(310), -1);
    // 98.6 F is 37 C
    assert_eq!(to_celsius(986), 37);
}

#[test]
fn celsius_halfway_goes_to_the_even_degree() {
    // 32.9 F is 0.5 C, 34.7 F is 1.5 C, 36.5 F is 2.5 C
    assert_eq!(to_celsius(329), 0);
    assert_eq!(to_celsius(347), 2);
    assert_eq!(to_celsius(365), 2);
    // 31.1 F is -0.5 C, 29.3 F is -1.5 C
    assert_eq!(to_celsius(311), 0);
    assert_eq!(to_celsius(293), -2);
}

#[test]
fn celsius_at_the_ends_of_the_range() {
    assert_eq!(to_celsius(i32::MAX), 119304629);
    assert_eq!(to_celsius(i32::MIN), -119304665);
}

#[test]
fn celsius_is_nearest_over_a_range() {
    for tenths in -2000i32..3000 {
        let c = to_celsius(tenths);
        let off = 18 * c - (tenths as i64 - 320);
        assert!((-9..=9).contains(&off), "{} gives {}", tenths, c);
        if off == 9 || off == -9 {
            assert_eq!(c.rem_euclid(2), 0);
        }
    }
}

#[test]
fn the_stand_in_report() {
    assert_eq!(
        default_weather_info(),
        WeatherInfo {
            max_temperature: 0,
            min_temperature: 0,
            description_day: "Informação indisponível".to_string(),
            description_night: "Informação indisponível".to_string(),
            precipitation_probability_day: 0,
            precipitation_probability_night: 0,
        }
    );
}

#[test]
fn the_request_names_location_and_key() {
    assert_eq!(
        weather_request_url("12345", "abc"),
        "http://dataservice.accuweather.com/forecasts/v1/daily/1day/12345?apikey=abc&language=pt-br&details=true"
    );
}

#[test]
fn the_first_day_is_read() {
    let mut second = sunny_day();
    second.temperature.maximum.value = 999;
    let body = AccuWeatherResponse { daily_forecasts: vec![sunny_day(), second] };
    assert_eq!(forecast_of(&body), Ok(sunny_info()));
}

#[test]
fn no_day_is_an_empty_result() {
    let body = AccuWeatherResponse { daily_forecasts: vec![] };
    assert_eq!(forecast_of(&body), Err(FailureKind::EmptyResult));
}

#[test]
fn a_healthy_lookup_gives_the_report() {
    let body = AccuWeatherResponse { daily_forecasts: vec![sunny_day()] };
    let fetched = Fetched::Answered { status: 200, payload: Some(body) };
    assert_eq!(get_weather_in_osasco(fetched), Ok(sunny_info()));
}

#[test]
fn every_shortfall_of_the_weather_lookup_is_an_error() {
    assert_eq!(
        get_weather_in_osasco(Fetched::MissingCredential),
        Err(FailureKind::ConfigurationMissing)
    );
    assert_eq!(get_weather_in_osasco(Fetched::Unreachable), Err(FailureKind::TransportFailure));
    let body = AccuWeatherResponse { daily_forecasts: vec![sunny_day()] };
    assert_eq!(
        get_weather_in_osasco(Fetched::Answered { status: 503, payload: Some(body) }),
        Err(FailureKind::UpstreamFailure)
    );
    assert_eq!(
        get_weather_in_osasco(Fetched::Answered { status: 401, payload: None }),
        Err(FailureKind::UpstreamFailure)
    );
    assert_eq!(
        get_weather_in_osasco(Fetched::Answered { status: 200, payload: None }),
        Err(FailureKind::DecodeFailure)
    );
    let empty = AccuWeatherResponse { daily_forecasts: vec![] };
    assert_eq!(
        get_weather_in_osasco(Fetched::Answered { status: 200, payload: Some(empty) }),
        Err(FailureKind::EmptyResult)
    );
}

#[test]
fn a_failed_lookup_is_replaced_by_the_stand_in() {
    assert_eq!(usable_weather(Err(FailureKind::TransportFailure)), default_weather_info());
    assert_eq!(usable_weather(Err(FailureKind::EmptyResult)), default_weather_info());
    assert_eq!(usable_weather(Ok(sunny_info())), sunny_info());
}
