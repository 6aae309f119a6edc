use awgateway::error::GatewayError;
use awgateway::registry::{descriptor, Sensors};
use awgateway::values::{Decimal, DecoderKind, SensorValue};

#[test]
fn outdoor_temperature_record() {
    let sensors = Sensors::new();
    let groups = sensors.parse_live_data(&[0x02, 0x00, 0xC8]).unwrap();
    assert_eq!(groups.len(), 1);
    assert_eq!(groups[0].len(), 1);
    assert_eq!(groups[0][0].name(), "outdoor_temp");
    assert_eq!(*groups[0][0].value(), SensorValue::Temp(Decimal { units: 200, places: 1 }));
}

#[test]
fn several_records_in_order() {
    let sensors = Sensors::new();
    let data = [0x01, 0x00, 0xD2, 0x06, 0x2D, 0x0A, 0x00, 0x5A, 0x62, 0, 0, 0, 3];
    let groups = sensors.parse_live_data(&data).unwrap();
    let names: Vec<&str> = groups.iter().map(|g| g[0].name()).collect();
    assert_eq!(names, vec!["indoor_temp", "in_humidity", "wind_dir", "lightning_count"]);
    assert_eq!(*groups[1][0].value(), SensorValue::Humidity(Decimal { units: 45, places: 0 }));
    assert_eq!(*groups[2][0].value(), SensorValue::Direction(90));
    assert_eq!(*groups[3][0].value(), SensorValue::Count(3));
}

#[test]
fn composite_record_is_one_group() {
    let sensors = Sensors::new();
    let mut data = vec![0x70];
    data.extend_from_slice(&[0x00, 0xFA, 0x37, 0, 100, 0, 80, 0, 60, 0, 40, 1, 0x90, 1, 0xF4, 6]);
    let groups = sensors.parse_live_data(&data).unwrap();
    assert_eq!(groups.len(), 1);
    let names: Vec<&str> = groups[0].iter().map(|r| r.name()).collect();
    assert_eq!(
        names,
        vec![
            "temp_wh45",
            "humid_wh45",
            "pm10_wh45",
            "pm10_avg_24h_wh45",
            "pm25_wh45",
            "pm25_avg_24h_wh45",
            "co2_wh45",
            "co2_avg_24h_wh45"
        ]
    );
    assert_eq!(*groups[0][6].value(), SensorValue::Co2(400));
}

#[test]
fn humidity_channel_decodes_as_humidity() {
    let sensors = Sensors::new();
    let groups = sensors.parse_live_data(&[0x22, 0x41]).unwrap();
    assert_eq!(groups[0][0].name(), "humidity_1");
    assert_eq!(*groups[0][0].value(), SensorValue::Humidity(Decimal { units: 65, places: 0 }));
}

#[test]
fn legacy_block_is_skipped_with_empty_value() {
    let sensors = Sensors::new();
    let mut data = vec![0x4C];
    data.extend_from_slice(&[0xAA; 16]);
    data.extend_from_slice(&[0x02, 0x00, 0x64]);
    let groups = sensors.parse_live_data(&data).unwrap();
    assert_eq!(groups.len(), 2);
    assert_eq!(*groups[0][0].value(), SensorValue::Empty);
    assert_eq!(groups[1][0].name(), "outdoor_temp");
}

#[test]
fn unknown_type_anywhere_fails_the_fetch() {
    let sensors = Sensors::new();
    assert_eq!(
        sensors.parse_live_data(&[0x03, 0x00, 0x01]),
        Err(GatewayError::UnknownSensorType { id: 0x03 })
    );
    assert_eq!(
        sensors.parse_live_data(&[0x02, 0x00, 0xC8, 0xEE, 0x01]),
        Err(GatewayError::UnknownSensorType { id: 0xEE })
    );
    assert_eq!(
        sensors.parse_live_data(&[0x02, 0x00, 0xC8, 0x07, 0x33, 0x00]),
        Err(GatewayError::UnknownSensorType { id: 0x00 })
    );
}

#[test]
fn truncated_last_record_is_left_out() {
    let sensors = Sensors::new();
    let groups = sensors.parse_live_data(&[0x02, 0x00, 0xC8, 0x01, 0x00]).unwrap();
    assert_eq!(groups.len(), 1);
}

#[test]
fn empty_buffer_gives_no_groups() {
    let sensors = Sensors::new();
    assert_eq!(sensors.parse_live_data(&[]).unwrap().len(), 0);
}

#[test]
fn registry_lookup() {
    let sensors = Sensors::new();
    let p = sensors.lookup(0x15).unwrap();
    assert_eq!(p.kind, DecoderKind::Light);
    assert_eq!(p.size, 4);
    assert_eq!(p.field_names, vec!["light"]);
    assert!(sensors.lookup(0x03).is_none());
    let rain_gain = descriptor(0x0F).unwrap();
    assert_eq!(rain_gain.kind, DecoderKind::Gain);
    assert_eq!(rain_gain.size, 4);
    assert_eq!(descriptor(0x4C).unwrap().size, 16);
}

#[test]
fn every_descriptor_decodes_its_size() {
    let mut count = 0;
    for id in 0..=255u8 {
        if let Some(p) = descriptor(id) {
            count += 1;
            for fill in [0x00u8, 0xFF] {
                let bytes = vec![fill; p.size];
                let values = p.kind.decode(&bytes).unwrap();
                assert_eq!(values.len(), p.field_names.len());
            }
        }
    }
    assert_eq!(count, 73);
}
