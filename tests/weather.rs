use weather_core::error::Error;
use weather_core::fetch::Fetched;
use weather_core::location::Location;
use weather_core::request::{current_weather_request, forecast_request, Config};
use weather_core::weather::{
    weather_from_fetch, Condition, ConditionResponse, CurrentResponse, Units, Weather,
};

fn config() -> Config {
    let server = "http://127.0.0.1:1234".to_string();
    Config::new(server.clone(), server.clone(), server, "test_key".to_string())
}

fn london(with_coordinates: bool) -> Location {
    Location {
        country: "United Kingdom".to_string(),
        region: Some("City of London, Greater London".to_string()),
        city: Some("London".to_string()),
        lat: if with_coordinates { Some("51.5171".to_string()) } else { None },
        lon: if with_coordinates { Some("-0.1062".to_string()) } else { None },
    }
}

fn sample(is_day: i32) -> CurrentResponse<f64> {
    CurrentResponse {
        temp_c: 5.1,
        temp_f: 41.2,
        is_day,
        condition: ConditionResponse {
            text: "Fog".to_string(),
            icon: "//cdn.weatherapi.com/weather/64x64/night/248.png".to_string(),
            code: 1135,
        },
        wind_mph: 2.2,
        wind_kph: 3.6,
        wind_degree: 206,
        wind_dir: "SSW".to_string(),
        pressure_mb: 1030.0,
        pressure_in: 30.42,
        precip_mm: 0.0,
        precip_in: 0.0,
        humidity: 100,
        cloud: 100,
        feelslike_c: 4.8,
        feelslike_f: 40.7,
        windchill_c: 5.1,
        windchill_f: 41.2,
        heatindex_c: 5.1,
        heatindex_f: 41.2,
        dewpoint_c: 4.4,
        dewpoint_f: 39.9,
        vis_km: 0.4,
        vis_miles: 0.0,
        uv: 0.0,
        gust_mph: 2.5,
        gust_kph: 4.1,
    }
}

#[test]
fn test_get_current_weather_metric() {
    let url = current_weather_request(&config(), &london(true)).unwrap();
    assert_eq!(url, "http://127.0.0.1:1234/current.json?key=test_key&q=51.5171,-0.1062");

    let result = weather_from_fetch(Fetched::Payload(sample(0)), Units::Metric);
    assert!(result.is_ok());

    let weather = result.unwrap();
    assert_eq!(weather.temperature, 5.1);
    assert_eq!(weather.feels_like, 4.8);
    assert_eq!(weather.condition.text, "Fog");
}

#[test]
fn test_get_current_weather_imperial() {
    let url = current_weather_request(&config(), &london(true)).unwrap();
    assert_eq!(url, "http://127.0.0.1:1234/current.json?key=test_key&q=51.5171,-0.1062");

    let result = weather_from_fetch(Fetched::Payload(sample(0)), Units::Imperial);
    assert!(result.is_ok());

    let weather = result.unwrap();
    assert_eq!(weather.temperature, 41.2);
    assert_eq!(weather.feels_like, 40.7);
    assert_eq!(weather.condition.text, "Fog");
}

#[test]
fn test_get_current_weather_no_location() {
    let result = current_weather_request(&config(), &london(false));
    assert!(result.is_err());
    assert_eq!(result.err().unwrap(), Error::NoLocation);
}

#[test]
fn metric_selects_every_metric_reading() {
    let w = Weather::new_from_response_with_options(sample(1), Units::Metric);
    assert!(w.is_day);
    assert_eq!(
        (w.temperature, w.feels_like, w.heat_index, w.wind_speed, w.wind_gust_speed),
        (5.1, 4.8, 5.1, 3.6, 4.1)
    );
    assert_eq!((w.wind_chill, w.pressure, w.precipitation, w.visibility, w.dew_point), (5.1, 1030.0, 0.0, 0.4, 4.4));
    assert_eq!((w.wind_degree, w.wind_dir.as_str(), w.humidity, w.cloud, w.uv), (206, "SSW", 100, 100, 0.0));
    assert_eq!(w.condition.code, 1135);
    assert_eq!(w.condition.icon, "//cdn.weatherapi.com/weather/64x64/night/248.png");
}

#[test]
fn imperial_selects_every_imperial_reading() {
    let w = Weather::new_from_response_with_options(sample(0), Units::Imperial);
    assert!(!w.is_day);
    assert_eq!(
        (w.temperature, w.feels_like, w.heat_index, w.wind_speed, w.wind_gust_speed),
        (41.2, 40.7, 41.2, 2.2, 2.5)
    );
    assert_eq!((w.wind_chill, w.pressure, w.precipitation, w.visibility, w.dew_point), (41.2, 30.42, 0.0, 0.0, 39.9));
    assert_eq!((w.wind_degree, w.humidity, w.cloud), (206, 100, 100));
}

#[test]
fn is_day_is_set_only_by_one() {
    for (flag, expected) in [(1, true), (0, false), (2, false), (-1, false), (i32::MAX, false)] {
        let w = Weather::new_from_response_with_options(sample(flag), Units::Metric);
        assert_eq!(w.is_day, expected, "flag {}", flag);
    }
}

#[test]
fn weather_fetch_failures_are_classified() {
    let r = weather_from_fetch::<f64>(Fetched::Unreachable("timed out".to_string()), Units::Metric);
    assert_eq!(r.err().unwrap(), Error::Fetch { message: "timed out".to_string() });
    let r = weather_from_fetch::<f64>(Fetched::Unreadable("missing field".to_string()), Units::Imperial);
    assert_eq!(r.err().unwrap(), Error::Response { message: "missing field".to_string() });
}

#[test]
fn forecast_request_carries_the_day_count() {
    let url = forecast_request(&config(), &london(true), 3).unwrap();
    assert_eq!(url, "http://127.0.0.1:1234/forecast.json?key=test_key&q=51.5171,-0.1062&days=3");
    assert_eq!(forecast_request(&config(), &london(false), 3), Err(Error::NoLocation));
}

#[test]
fn forecast_request_without_coordinates_is_no_location_for_any_day_count() {
    for days in [-1, 0, 1, 5, 6, 100] {
        assert_eq!(forecast_request(&config(), &london(false), days), Err(Error::NoLocation));
    }
}

#[test]
fn forecast_request_rejects_day_counts_outside_one_to_five() {
    match forecast_request(&config(), &london(true), 6) {
        Err(Error::InvalidArgument { arg, message }) => {
            assert_eq!(arg, "6");
            assert_eq!(message, "Days should be between 1 and 5.");
        }
        other => panic!("unexpected {:?}", other),
    }
}

#[test]
fn condition_maps_field_for_field() {
    let c = Condition::new_from_response(ConditionResponse {
        text: "Sunny".to_string(),
        icon: "113.png".to_string(),
        code: 1000,
    });
    assert_eq!((c.text.as_str(), c.icon.as_str(), c.code), ("Sunny", "113.png", 1000));
    let d = Condition::new("Mist".to_string(), "143.png".to_string(), 1030);
    assert_eq!((d.text.as_str(), d.icon.as_str(), d.code), ("Mist", "143.png", 1030));
}
