use awgateway::error::GatewayError;
use awgateway::metadata::SensorMetadata;
use awgateway::registry::Sensors;
use awgateway::values::{Decimal, SensorBatteryState};

fn response(records: &[[u8; 7]]) -> Vec<u8> {
    let size = records.len() * 7 + 4;
    let mut r = vec![0xFF, 0xFF, 0x3C, (size >> 8) as u8, size as u8];
    for rec in records {
        r.extend_from_slice(rec);
    }
    r.push(0);
    r
}

fn battery(units: i64, places: u8) -> Decimal {
    Decimal { units, places }
}

#[test]
fn records_keyed_by_address() {
    let resp = response(&[[0x00, 0, 0, 0x12, 0x34, 0, 200], [0x06, 0, 0, 0, 9, 1, 150]]);
    let map = Sensors::new().update_metadata(&resp).unwrap();
    assert_eq!(map.len(), 2);
    let outdoor = &map[&0x1234];
    assert_eq!(outdoor.type_id, 0);
    assert_eq!(outdoor.type_id_str, "wh65");
    assert_eq!(outdoor.type_desc, "WH-65");
    assert_eq!(outdoor.signal, 200);
    assert_eq!(outdoor.battery_level, Some(battery(0, 0)));
    assert!(matches!(outdoor.battery_state, Some(SensorBatteryState::Okay)));
    let ch1 = &map[&9];
    assert_eq!(ch1.type_id_str, "wh31_ch1");
    assert_eq!(ch1.type_desc, "WH-31 channel 1");
    assert!(matches!(ch1.battery_state, Some(SensorBatteryState::Low)));
}

#[test]
fn unpopulated_slots_never_appear() {
    let empty = [0x02, 0xFF, 0xFF, 0xFF, 0xFF, 0, 0];
    let real = [0x02, 0, 0, 0, 1, 5, 4];
    for resp in [
        response(&[empty, real]),
        response(&[real, empty]),
        response(&[empty, real, empty]),
        response(&[empty]),
    ] {
        let map = Sensors::new().update_metadata(&resp).unwrap();
        assert!(!map.contains_key(&0xFFFF_FFFF));
    }
    assert_eq!(Sensors::new().update_metadata(&response(&[empty, real])).unwrap().len(), 1);
}

#[test]
fn unknown_model_is_named_unknown() {
    let map = Sensors::new().update_metadata(&response(&[[0x60, 0, 0, 0, 7, 1, 1]])).unwrap();
    assert_eq!(map[&7].type_id_str, "unknown");
    assert_eq!(map[&7].type_desc, "unknown");
    assert!(matches!(map[&7].battery_state, Some(SensorBatteryState::Unknown)));
}

#[test]
fn later_record_replaces_same_address() {
    let map = Sensors::new()
        .update_metadata(&response(&[[0x01, 0, 0, 0, 5, 2, 1], [0x02, 0, 0, 0, 5, 2, 9]]))
        .unwrap();
    assert_eq!(map.len(), 1);
    assert_eq!(map[&5].type_id_str, "wh80");
    assert_eq!(map[&5].signal, 9);
}

#[test]
fn empty_inventory_response() {
    assert_eq!(Sensors::new().update_metadata(&[]).unwrap().len(), 0);
    assert_eq!(Sensors::new().update_metadata(&response(&[])).unwrap().len(), 0);
}

#[test]
fn short_inventory_responses() {
    let sensors = Sensors::new();
    assert_eq!(
        sensors.update_metadata(&[0xFF, 0xFF, 0x3C]).unwrap_err(),
        GatewayError::ShortResponse { needed: 5, actual: 3 }
    );
    assert_eq!(
        sensors.update_metadata(&[0xFF, 0xFF, 0x3C, 0x00, 0x02, 0]).unwrap_err(),
        GatewayError::ShortResponse { needed: 4, actual: 2 }
    );
    assert_eq!(
        sensors.update_metadata(&[0xFF, 0xFF, 0x3C, 0x00, 0x0B, 0, 0]).unwrap_err(),
        GatewayError::ShortResponse { needed: 12, actual: 7 }
    );
    let mut partial = response(&[[0x01, 0, 0, 0, 5, 2, 1]]);
    partial[4] += 2;
    partial.extend_from_slice(&[0, 0]);
    assert_eq!(
        sensors.update_metadata(&partial).unwrap_err(),
        GatewayError::ShortResponse { needed: 7, actual: 2 }
    );
}

#[test]
fn model_names_by_range() {
    assert_eq!(SensorMetadata::parse_type(0x0D).unwrap(), "wh31_ch8");
    assert_eq!(SensorMetadata::parse_type(0x0E).unwrap(), "wh51_ch1");
    assert_eq!(SensorMetadata::parse_type(0x19).unwrap(), "wh41_ch4");
    assert_eq!(SensorMetadata::parse_type(0x1A).unwrap(), "wh57");
    assert_eq!(SensorMetadata::parse_type(0x1E).unwrap(), "wh55_ch4");
    assert_eq!(SensorMetadata::parse_type(0x25).unwrap(), "wh34_ch7");
    assert_eq!(SensorMetadata::parse_type(0x27).unwrap(), "wh45");
    assert_eq!(SensorMetadata::parse_type(0x2F).unwrap(), "wh35_ch8");
    assert_eq!(SensorMetadata::parse_type(0x26), None);
    assert_eq!(SensorMetadata::parse_type(0x30), None);
    assert_eq!(SensorMetadata::parse_type_desc(0x28).unwrap(), "WH-35 channel 1");
    assert_eq!(SensorMetadata::parse_type_desc(0x05).unwrap(), "WH-26");
    assert_eq!(SensorMetadata::parse_type_desc(0xFF), None);
}

fn state(id: u8, units: i64, places: u8) -> SensorBatteryState {
    SensorMetadata::parse_battery_state(id, battery(units, places)).unwrap()
}

#[test]
fn battery_binary_bucket() {
    assert_eq!(state(0, 0, 1), SensorBatteryState::Okay);
    assert_eq!(state(0, 10, 1), SensorBatteryState::Low);
    assert_eq!(state(0, 20, 1), SensorBatteryState::Unknown);
    assert_eq!(state(0x0D, 1, 0), SensorBatteryState::Low);
}

#[test]
fn battery_integer_step_bucket() {
    assert_eq!(state(0x16, 10, 1), SensorBatteryState::Low);
    assert_eq!(state(0x16, 50, 1), SensorBatteryState::Okay);
    assert_eq!(state(0x16, 60, 1), SensorBatteryState::Connected);
    assert_eq!(state(0x16, 70, 1), SensorBatteryState::Unknown);
    assert_eq!(state(0x27, 0, 0), SensorBatteryState::Low);
}

#[test]
fn battery_voltage_bucket() {
    assert_eq!(state(0x01, 12, 1), SensorBatteryState::Low);
    assert_eq!(state(0x01, 13, 1), SensorBatteryState::Okay);
    assert_eq!(state(0x30, 121, 2), SensorBatteryState::Okay);
    assert_eq!(state(0x26, 120, 2), SensorBatteryState::Low);
}

#[test]
fn battery_other_ids_unknown() {
    assert_eq!(state(0x31, 0, 0), SensorBatteryState::Unknown);
    assert_eq!(state(0xFF, 12, 1), SensorBatteryState::Unknown);
}

#[test]
fn battery_reading_below_a_hundredth() {
    assert_eq!(state(0, 5, 30), SensorBatteryState::Unknown);
    assert_eq!(state(0, 0, 30), SensorBatteryState::Okay);
    assert_eq!(state(0x16, 5, 30), SensorBatteryState::Low);
    assert_eq!(state(0x01, -5, 25), SensorBatteryState::Low);
}
