use smart_garden::ForecastEvent;
use smart_garden::Garden;
use smart_garden::StoreError;
use smart_garden::hello;
use smart_garden::http_bad_request;
use smart_garden::http_ok;
use smart_garden::i64_to_string;
use smart_garden::u64_to_string;

fn event(batch_time: i64, forecast_time: i64, weather: &str) -> ForecastEvent {
    ForecastEvent {
        batch_time,
        forecast_time,
        country: String::from("US"),
        city: String::from("Urbandale"),
        weather: String::from(weather),
        description: String::from(weather),
    }
}

#[test]
fn http_framing_is_exact() {
    assert_eq!(http_ok(&String::from("yes")), "HTTP/1.1 200 OK \r\n\r\nyes\r\n");
    assert_eq!(
        http_bad_request(&String::from("oops")),
        "HTTP/1.1 400 BAD REQUEST \r\n\r\noops\r\n"
    );
}

#[test]
fn hello_answers_the_welcome_text() {
    assert_eq!(hello(), "HTTP/1.1 200 OK \r\n\r\nWelcome to KloverTech SmartGarden\r\n");
}

#[test]
fn integers_render_in_decimal() {
    assert_eq!(u64_to_string(0), "0");
    assert_eq!(u64_to_string(7), "7");
    assert_eq!(u64_to_string(10), "10");
    assert_eq!(u64_to_string(90210), "90210");
    assert_eq!(i64_to_string(0), "0");
    assert_eq!(i64_to_string(42), "42");
    assert_eq!(i64_to_string(-5), "-5");
    assert_eq!(i64_to_string(i64::MAX), "9223372036854775807");
    assert_eq!(i64_to_string(i64::MIN), "-9223372036854775808");
}

#[test]
fn a_critical_log_then_the_endpoint_says_yes() {
    let mut garden = Garden::new();
    let answer = garden.log(1, 8);
    assert_eq!(answer, "HTTP/1.1 200 OK \r\n\r\nsensor #1 has moister content 8\r\n");
    assert_eq!(garden.can_i_water(1), "HTTP/1.1 200 OK \r\n\r\nyes\r\n");
}

#[test]
fn a_later_plenty_log_turns_the_answer_to_no() {
    let mut garden = Garden::new();
    garden.log(1, 8);
    garden.log(1, 40);
    assert_eq!(garden.can_i_water(1), "HTTP/1.1 200 OK \r\n\r\nno\r\n");
}

#[test]
fn an_out_of_range_log_is_rejected_and_stores_no_row() {
    let mut garden = Garden::new();
    let answer = garden.log(2, 150);
    assert_eq!(
        answer,
        "HTTP/1.1 400 BAD REQUEST \r\n\r\nmoisture_content must be an integer between 0 to 100\r\n"
    );
    assert_eq!(garden.latest(2), Err(StoreError::NotFound));
}

#[test]
fn the_endpoint_reports_an_unknown_sensor() {
    let garden = Garden::new();
    assert_eq!(
        garden.can_i_water(7),
        "HTTP/1.1 400 BAD REQUEST \r\n\r\nno records for sensor_id: 7\r\n"
    );
}

#[test]
fn the_endpoint_consults_the_rain_window_in_the_low_tier() {
    let mut garden = Garden::new();
    garden.log(1, 15);
    garden.record_batch(vec![event(50, 2000, "Rain")]).unwrap();
    assert_eq!(garden.can_i_water_at(1, 1000), "HTTP/1.1 200 OK \r\n\r\nno\r\n");
    garden.record_batch(vec![event(60, 50000, "Rain")]).unwrap();
    assert_eq!(garden.can_i_water_at(1, 1000), "HTTP/1.1 200 OK \r\n\r\nyes\r\n");
}

#[test]
fn garden_record_validates_and_persists() {
    let mut garden = Garden::new();
    assert_eq!(garden.record(4, 55), Ok(()));
    assert_eq!(garden.record(4, -3), Err(StoreError::ValidationError));
    let latest = garden.latest(4).unwrap();
    assert_eq!(latest.sensor_id, 4);
    assert_eq!(latest.moisture_content, 55);
}

#[test]
fn garden_rain_expected_reads_the_current_batch() {
    let mut garden = Garden::new();
    assert_eq!(garden.rain_expected(0, 1000), Ok(false));
    garden.record_batch(vec![event(50, 500, "light rain")]).unwrap();
    assert_eq!(garden.rain_expected(0, 1000), Ok(true));
    assert_eq!(garden.rain_expected(600, 1000), Ok(false));
}
