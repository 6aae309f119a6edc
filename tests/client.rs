use awgateway::client::SensorGateway;
use awgateway::discovery::{
    discovery_topic, get_sensor_name, info_sensor_config, info_topic, sensor_topic,
    DiscoveryOrigin, DiscoverySensor, DiscoverySensorDevice, DiscoverySensorPayload, SensorConfig,
    BATTERY_TEMPLATE,
};
use awgateway::error::GatewayError;
use awgateway::frame::{build_request, GatewayCommands};
use awgateway::registry::SensorData;
use awgateway::values::{Decimal, SensorValue};

fn firmware_response(text: &[u8]) -> Vec<u8> {
    let mut payload = vec![text.len() as u8];
    payload.extend_from_slice(text);
    build_request(0x50, &payload)
}

fn identified_gateway() -> SensorGateway {
    let mut gw = SensorGateway::new([192, 168, 0, 5], 45000);
    gw.get_firmware_version(&firmware_response(b"GW1000:V1.6.8")).unwrap();
    let mac = build_request(0x26, &[0x00, 0x0E, 0xC6, 0xAB, 0xCD, 0xEF]);
    gw.get_station_mac(&mac).unwrap();
    gw
}

#[test]
fn firmware_version_is_read_and_kept() {
    let mut gw = SensorGateway::new([192, 168, 0, 5], 45000);
    assert!(!gw.has_identity());
    assert_eq!(gw.get_firmware_version(&firmware_response(b"GW1000_V1.6.8")).unwrap(), "GW1000_V1.6.8");
    assert_eq!(gw.firmware(), "GW1000_V1.6.8");
}

#[test]
fn firmware_must_be_utf8() {
    let mut gw = SensorGateway::new([192, 168, 0, 5], 45000);
    assert_eq!(
        gw.get_firmware_version(&firmware_response(&[0xC3, 0x28])),
        Err(GatewayError::InvalidEncoding)
    );
}

#[test]
fn firmware_length_is_checked() {
    let mut gw = SensorGateway::new([192, 168, 0, 5], 45000);
    assert_eq!(
        gw.get_firmware_version(&[0xFF, 0xFF, 0x50, 0x10, 0x09, b'a']),
        Err(GatewayError::ShortResponse { needed: 14, actual: 6 })
    );
}

#[test]
fn station_mac_and_name() {
    let mut gw = SensorGateway::new([192, 168, 0, 5], 45000);
    let resp = build_request(0x26, &[0x00, 0x0E, 0xC6, 0xAB, 0xCD, 0xEF]);
    assert_eq!(gw.get_station_mac(&resp).unwrap(), "09:00:0E:C6:AB:CD:EF");
    assert_eq!(gw.name(), "09000ec6abcdef");
    assert_eq!(
        gw.get_station_mac(&[0xFF, 0xFF, 0x26]),
        Err(GatewayError::ShortResponse { needed: 10, actual: 3 })
    );
}

#[test]
fn version_drops_colons() {
    let gw = identified_gateway();
    assert!(gw.has_identity());
    assert_eq!(gw.version(), "GW1000V1.6.8");
    assert_eq!(gw.firmware(), "GW1000V1.6.8");
}

#[test]
fn live_data_response() {
    let gw = SensorGateway::new([192, 168, 0, 5], 45000);
    let resp = [0xFF, 0xFF, 0x27, 0x00, 0x07, 0x02, 0x00, 0xC8, 0x00];
    let groups = gw.get_live_data(&resp).unwrap();
    assert_eq!(groups.len(), 1);
    assert_eq!(groups[0][0].name(), "outdoor_temp");
    assert_eq!(
        gw.get_live_data(&[0xFF, 0xFF, 0x27, 0x00, 0x20, 0x02]),
        Err(GatewayError::ShortResponse { needed: 33, actual: 6 })
    );
}

#[test]
fn command_packet_and_retry() {
    let gw = SensorGateway::new([192, 168, 0, 5], 45000);
    assert_eq!(
        gw.build_cmd_packet(&GatewayCommands::LiveData, &[]),
        vec![0xFF, 0xFF, 0x27, 0x03, 0x2A]
    );
    let retry = gw.send_cmd(&GatewayCommands::ReadSensorIdNew);
    assert_eq!(retry.command, 0x3C);
    assert_eq!(retry.max_tries, 3);
    assert_eq!(gw.endpoint().address, [192, 168, 0, 5]);
}

#[test]
fn discovery_sensor_fields() {
    let mut config = SensorConfig::new();
    config.class = Some("temperature".to_string());
    config.unit = Some("C".to_string());
    let s = DiscoverySensor::new(
        "09000ec6abcdef".to_string(),
        "outdoor_temp".to_string(),
        "awgateway/09000ec6abcdef/data".to_string(),
        &config,
    );
    assert_eq!(s.unique_id, "09000ec6abcdef_outdoor_temp");
    assert_eq!(s.device_class.as_deref(), Some("temperature"));
    assert_eq!(s.unit_of_measurement.as_deref(), Some("C"));
    assert_eq!(s.value_template, None);
}

#[test]
fn discovery_payload_for_gateway() {
    let gw = identified_gateway();
    let device = DiscoverySensorDevice::new(&gw);
    assert_eq!(device.name, "09000ec6abcdef");
    assert_eq!(device.identifiers, vec!["09000ec6abcdef".to_string()]);
    assert_eq!(device.model, "GW1000V1.6.8");
    let sensor = DiscoverySensor::new(gw.name(), "x".to_string(), "t".to_string(), &SensorConfig::new());
    let payload = DiscoverySensorPayload::new(sensor, device);
    assert_eq!(payload.origin.name, "awgateway");
    assert_eq!(payload.origin.sw, DiscoveryOrigin::new().sw);
    assert_eq!(payload.sensor.unique_id, "09000ec6abcdef_x");
}

#[test]
fn topics_and_names() {
    assert_eq!(sensor_topic("abc"), "awgateway/abc/data");
    assert_eq!(info_topic("abc", "wh65"), "awgateway/abc/wh65/info");
    assert_eq!(discovery_topic("abc_x"), "homeassistant/sensor/abc_x/config");
    let reading = SensorData::new("outdoor_temp", SensorValue::Temp(Decimal { units: 1, places: 1 }));
    let mut config = SensorConfig::new();
    assert_eq!(get_sensor_name(&reading, &config), "outdoor_temp");
    config.name = Some("Outside".to_string());
    assert_eq!(get_sensor_name(&reading, &config), "Outside");
    let info = info_sensor_config("wh65_info", "awgateway/abc/wh65/info");
    assert_eq!(info.name.as_deref(), Some("wh65_info"));
    assert_eq!(info.value_template.as_deref(), Some(BATTERY_TEMPLATE));
    assert_eq!(info.json_attributes_topic.as_deref(), Some("awgateway/abc/wh65/info"));
    assert_eq!(BATTERY_TEMPLATE, "{{ value_json.battery_status | default(\"\") }}");
}
