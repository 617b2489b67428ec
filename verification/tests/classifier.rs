use smart_garden::MoistureLevel;
use smart_garden::SensorReading;
use smart_garden::classify;
use smart_garden::describe_moisture;

#[test]
fn classify_boundaries_are_exact() {
    assert_eq!(classify(26), MoistureLevel::Plenty);
    assert_eq!(classify(25), MoistureLevel::Plenty);
    assert_eq!(classify(24), MoistureLevel::Low);
    assert_eq!(classify(11), MoistureLevel::Low);
    assert_eq!(classify(10), MoistureLevel::Critical);
    assert_eq!(classify(0), MoistureLevel::Critical);
}

#[test]
fn classify_extremes() {
    assert_eq!(classify(100), MoistureLevel::Plenty);
    assert_eq!(classify(50), MoistureLevel::Plenty);
    assert_eq!(classify(15), MoistureLevel::Low);
    assert_eq!(classify(1), MoistureLevel::Critical);
}

#[test]
fn describe_moisture_follows_the_reading() {
    let reading = SensorReading { sensor_id: 3, moisture_content: 15, recorded_at: 1000 };
    assert_eq!(describe_moisture(&reading), MoistureLevel::Low);
    let reading = SensorReading { sensor_id: 3, moisture_content: 80, recorded_at: 1000 };
    assert_eq!(describe_moisture(&reading), MoistureLevel::Plenty);
    let reading = SensorReading { sensor_id: 3, moisture_content: 4, recorded_at: 1000 };
    assert_eq!(describe_moisture(&reading), MoistureLevel::Critical);
}
