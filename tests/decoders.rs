use awgateway::error::GatewayError;
use awgateway::values::{Decimal, DecoderKind, SensorValue};

fn d(units: i64, places: u8) -> Decimal {
    Decimal { units, places }
}

#[test]
fn temp_tenths() {
    assert_eq!(SensorValue::parse_temp(&[0x00, 0xC8]), Ok(vec![SensorValue::Temp(d(200, 1))]));
}

#[test]
fn sixteen_bit_signed_extremes() {
    assert_eq!(SensorValue::parse_temp(&[0x7F, 0xFF]), Ok(vec![SensorValue::Temp(d(32767, 1))]));
    assert_eq!(SensorValue::parse_temp(&[0x80, 0x00]), Ok(vec![SensorValue::Temp(d(-32768, 1))]));
    assert_eq!(SensorValue::parse_pressure(&[0xFF, 0xFF]), Ok(vec![SensorValue::Pressure(d(-1, 1))]));
    assert_eq!(SensorValue::parse_speed(&[0x00, 0x00]), Ok(vec![SensorValue::Speed(d(0, 1))]));
    assert_eq!(SensorValue::parse_rain(&[0x01, 0x00]), Ok(vec![SensorValue::Rain(d(256, 1))]));
    assert_eq!(SensorValue::parse_uv(&[0x00, 0x0F]), Ok(vec![SensorValue::Uv(d(15, 1))]));
    assert_eq!(SensorValue::parse_pm10(&[0x00, 0x7B]), Ok(vec![SensorValue::Pm10(d(123, 1))]));
    assert_eq!(SensorValue::parse_pm25(&[0x80, 0x00]), Ok(vec![SensorValue::Pm25(d(-32768, 1))]));
}

#[test]
fn byte_kinds_extremes() {
    assert_eq!(SensorValue::parse_humidity(&[0]), Ok(vec![SensorValue::Humidity(d(0, 0))]));
    assert_eq!(SensorValue::parse_humidity(&[255]), Ok(vec![SensorValue::Humidity(d(255, 0))]));
    assert_eq!(SensorValue::parse_moist(&[42]), Ok(vec![SensorValue::Moist(d(42, 0))]));
    assert_eq!(SensorValue::parse_uv_index(&[7]), Ok(vec![SensorValue::UvIndex(d(7, 0))]));
    assert_eq!(SensorValue::parse_leak(&[1]), Ok(vec![SensorValue::Leak(d(1, 0))]));
}

#[test]
fn thirty_two_bit_kinds() {
    assert_eq!(
        SensorValue::parse_rainlarge(&[0xFF, 0xFF, 0xFF, 0xFF]),
        Ok(vec![SensorValue::RainLarge(d(4294967295, 1))])
    );
    assert_eq!(SensorValue::parse_count(&[0, 0, 1, 0]), Ok(vec![SensorValue::Count(256)]));
    assert_eq!(SensorValue::parse_count(&[0xFF, 0xFF, 0xFF, 0xFF]), Ok(vec![SensorValue::Count(u32::MAX)]));
    assert_eq!(SensorValue::parse_gain(&[0, 0, 0, 100]), Ok(vec![SensorValue::Gain(d(100, 2))]));
    assert_eq!(SensorValue::parse_light(&[0, 1, 0, 0]), Ok(vec![SensorValue::Light(d(65536, 2))]));
}

#[test]
fn signed_integer_kinds() {
    assert_eq!(SensorValue::parse_distance(&[0xFF]), Ok(vec![SensorValue::Distance(-1)]));
    assert_eq!(SensorValue::parse_distance(&[0x7F]), Ok(vec![SensorValue::Distance(127)]));
    assert_eq!(SensorValue::parse_direction(&[0x01, 0x0E]), Ok(vec![SensorValue::Direction(270)]));
    assert_eq!(SensorValue::parse_co2(&[0x01, 0x9F]), Ok(vec![SensorValue::Co2(415)]));
    assert_eq!(SensorValue::parse_utc(&[0x80, 0, 0, 0]), Ok(vec![SensorValue::UtcTime(i32::MIN)]));
    assert_eq!(SensorValue::parse_utc(&[0x65, 0x00, 0x00, 0x01]), Ok(vec![SensorValue::UtcTime(0x65000001)]));
}

#[test]
fn datetime_passthrough() {
    assert_eq!(
        SensorValue::parse_datetime(&[1, 2, 3, 4, 5, 6]),
        Ok(vec![SensorValue::DateTime([1, 2, 3, 4, 5, 6])])
    );
}

#[test]
fn wrong_length_is_decode_length() {
    assert_eq!(
        SensorValue::parse_temp(&[1, 2, 3]),
        Err(GatewayError::DecodeLength { expected: 2, actual: 3 })
    );
    assert_eq!(
        SensorValue::parse_humidity(&[]),
        Err(GatewayError::DecodeLength { expected: 1, actual: 0 })
    );
    assert_eq!(
        SensorValue::parse_count(&[1, 2]),
        Err(GatewayError::DecodeLength { expected: 4, actual: 2 })
    );
    assert_eq!(
        SensorValue::parse_datetime(&[1]),
        Err(GatewayError::DecodeLength { expected: 6, actual: 1 })
    );
}

#[test]
fn composite_air_quality_block() {
    let block = [
        0x00, 0xFA, // temperature 25.0
        0x37, // humidity 55
        0x00, 0x64, // pm10 10.0
        0x00, 0x50, // pm10 24h 8.0
        0x00, 0x3C, // pm2.5 6.0
        0x00, 0x28, // pm2.5 24h 4.0
        0x01, 0x90, // co2 400
        0x01, 0xF4, // co2 24h 500
        0x06, // battery, not read
    ];
    assert_eq!(
        SensorValue::parse_wh45(&block),
        Ok(vec![
            SensorValue::Temp(d(250, 1)),
            SensorValue::Humidity(d(55, 0)),
            SensorValue::Pm10(d(100, 1)),
            SensorValue::Pm10(d(80, 1)),
            SensorValue::Pm25(d(60, 1)),
            SensorValue::Pm25(d(40, 1)),
            SensorValue::Co2(400),
            SensorValue::Co2(500),
        ])
    );
    assert_eq!(
        SensorValue::parse_wh45(&block[..15]),
        Err(GatewayError::DecodeLength { expected: 16, actual: 15 })
    );
}

#[test]
fn skip_yields_one_empty_value() {
    assert_eq!(SensorValue::skip_data(&[0; 16]), Ok(vec![SensorValue::Empty]));
    assert_eq!(SensorValue::skip_data(&[]), Ok(vec![SensorValue::Empty]));
}

#[test]
fn decode_dispatches_by_kind() {
    assert_eq!(DecoderKind::Temp.decode(&[0x00, 0xC8]), Ok(vec![SensorValue::Temp(d(200, 1))]));
    assert_eq!(DecoderKind::Count.expected_len(), 4);
    assert_eq!(DecoderKind::Wh45.expected_len(), 16);
    assert_eq!(DecoderKind::Skip.decode(&[9, 9]), Ok(vec![SensorValue::Empty]));
}
