use awgateway::projection::Projection;
use awgateway::values::{Decimal, SensorBatteryState, SensorValue};

fn d(units: i64, places: u8) -> Decimal {
    Decimal { units, places }
}

#[test]
fn temperature_rounds_to_hundredths() {
    assert_eq!(SensorValue::to_json_val(&SensorValue::Temp(d(23456, 3))), Projection::Number(2346));
}

#[test]
fn co2_passes_through() {
    assert_eq!(SensorValue::to_json_val(&SensorValue::Co2(415)), Projection::Integer(415));
    assert_eq!(SensorValue::to_json_val(&SensorValue::Co2(-7)), Projection::Integer(-7));
}

#[test]
fn rounding_half_away_from_zero() {
    assert_eq!(SensorValue::round(&d(12345, 3)), 1235);
    assert_eq!(SensorValue::round(&d(-12345, 3)), -1235);
    assert_eq!(SensorValue::round(&d(12344, 3)), 1234);
    assert_eq!(SensorValue::round(&d(-12344, 3)), -1234);
    assert_eq!(SensorValue::round(&d(200, 1)), 2000);
    assert_eq!(SensorValue::round(&d(7, 0)), 700);
    assert_eq!(SensorValue::round(&d(5, 30)), 0);
    assert_eq!(SensorValue::round(&d(i64::MIN, 2)), i64::MIN as i128);
}

#[test]
fn decimal_kinds_project_as_numbers() {
    assert_eq!(SensorValue::to_json_val(&SensorValue::Humidity(d(55, 0))), Projection::Number(5500));
    assert_eq!(SensorValue::to_json_val(&SensorValue::Gain(d(123, 2))), Projection::Number(123));
    assert_eq!(SensorValue::to_json_val(&SensorValue::Leak(d(1, 0))), Projection::Number(100));
}

#[test]
fn integer_kinds_pass_through() {
    assert_eq!(SensorValue::to_json_val(&SensorValue::Distance(-3)), Projection::Integer(-3));
    assert_eq!(SensorValue::to_json_val(&SensorValue::Direction(359)), Projection::Integer(359));
    assert_eq!(SensorValue::to_json_val(&SensorValue::UtcTime(1700000000)), Projection::Integer(1700000000));
    assert_eq!(SensorValue::to_json_val(&SensorValue::Count(u32::MAX)), Projection::Integer(4294967295));
}

#[test]
fn datetime_projects_as_hex_text() {
    assert_eq!(
        SensorValue::to_json_val(&SensorValue::DateTime([0x17, 0x0A, 0x1F, 0x00, 0xFF, 0x3B])),
        Projection::Text("dt:17 0a 1f 00 ff 3b".to_string())
    );
}

#[test]
fn battery_and_empty_projection() {
    assert_eq!(
        SensorValue::to_json_val(&SensorValue::Battery(SensorBatteryState::Okay)),
        Projection::Text("ok".to_string())
    );
    assert_eq!(
        SensorValue::to_json_val(&SensorValue::Battery(SensorBatteryState::Connected)),
        Projection::Text("connected".to_string())
    );
    assert_eq!(SensorValue::to_json_val(&SensorValue::Empty), Projection::Null);
}
