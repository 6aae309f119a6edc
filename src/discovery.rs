use vstd::prelude::*;

use crate::client::SensorGateway;
use crate::registry::SensorData;
use crate::text::{hex_joined, without_colons};

verus! {

/// The name this program announces itself under.
pub const PACKAGE_NAME: &'static str = "awgateway";

/// The version this program announces.
pub const PACKAGE_VERSION: &'static str = "0.1.0";

/// How one published value is to be presented: each field left out is left
/// to the home-automation system.
#[derive(Debug, Clone)]
pub struct SensorConfig {
    pub class: Option<String>,
    pub unit: Option<String>,
    pub value_template: Option<String>,
    pub name: Option<String>,
    pub json_attributes_topic: Option<String>,
    pub json_attributes_template: Option<String>,
}

pub open spec fn opt_view(o: Option<String>) -> Option<Seq<char>> {
    match o {
        Some(s) => Some(s@),
        None => None,
    }
}

fn clone_opt(o: &Option<String>) -> (r: Option<String>)
    ensures
        r == *o,
{
    match o {
        Some(s) => Some(s.clone()),
        None => None,
    }
}

fn concat3(a: &str, b: &str, c: &str) -> (r: String)
    ensures
        r@ == a@ + b@ + c@,
{
    let mut s = String::from_str(a);
    s.append(b);
    s.append(c);
    s
}

impl SensorConfig {
    /// A configuration that sets nothing.
    pub fn new() -> (r: SensorConfig)
        ensures
            r.class is None,
            r.unit is None,
            r.value_template is None,
            r.name is None,
            r.json_attributes_topic is None,
            r.json_attributes_template is None,
    {
        SensorConfig {
            class: None,
            unit: None,
            value_template: None,
            name: None,
            json_attributes_topic: None,
            json_attributes_template: None,
        }
    }
}

/// The announcement of one sensor to the home-automation system.
#[derive(Debug, Clone)]
pub struct DiscoverySensor {
    pub name: String,
    pub state_topic: String,
    pub json_attributes_topic: Option<String>,
    pub json_attributes_template: Option<String>,
    pub unique_id: String,
    pub device_class: Option<String>,
    pub unit_of_measurement: Option<String>,
    pub value_template: Option<String>,
}

impl DiscoverySensor {
    /// Announces sensor `name` of gateway `id`, published on `topic` and
    /// presented as `sensor_config` says; its unique id is `id_name`.
    pub fn new(id: String, name: String, topic: String, sensor_config: &SensorConfig) -> (r:
        DiscoverySensor)
        ensures
            r.name@ == name@,
            r.state_topic@ == topic@,
            r.unique_id@ == id@ + "_"@ + name@,
            r.device_class == sensor_config.class,
            r.unit_of_measurement == sensor_config.unit,
            r.value_template == sensor_config.value_template,
            r.json_attributes_template == sensor_config.json_attributes_template,
            r.json_attributes_topic == sensor_config.json_attributes_topic,
    {
        let unique_id = concat3(id.as_str(), "_", name.as_str());
        DiscoverySensor {
            name: name.clone(),
            state_topic: topic,
            unique_id,
            device_class: clone_opt(&sensor_config.class),
            unit_of_measurement: clone_opt(&sensor_config.unit),
            value_template: clone_opt(&sensor_config.value_template),
            json_attributes_template: clone_opt(&sensor_config.json_attributes_template),
            json_attributes_topic: clone_opt(&sensor_config.json_attributes_topic),
        }
    }
}

/// The program that made an announcement.
#[derive(Debug)]
pub struct DiscoveryOrigin {
    pub name: String,
    pub sw: String,
}

impl DiscoveryOrigin {
    /// This program's name and version.
    pub fn new() -> (r: DiscoveryOrigin)
        ensures
            r.name@ == PACKAGE_NAME@,
            r.sw@ == PACKAGE_VERSION@,
    {
        DiscoveryOrigin { name: String::from_str(PACKAGE_NAME), sw: String::from_str(PACKAGE_VERSION) }
    }
}

/// The gateway a sensor belongs to, as the home-automation system lists it.
#[derive(Debug)]
pub struct DiscoverySensorDevice {
    pub name: String,
    pub sw_version: String,
    pub identifiers: Vec<String>,
    pub model: String,
}

impl DiscoverySensorDevice {
    /// The device entry of a gateway whose identity is known: named and
    /// identified by its name, with its firmware as model and version.
    pub fn new(gw: &SensorGateway) -> (r: DiscoverySensorDevice)
        requires
            gw.firmware_spec() is Some,
            gw.mac_spec() is Some,
        ensures
            r.name@ == hex_joined(gw.mac_spec()->Some_0, seq![], false),
            r.identifiers@.len() == 1,
            r.identifiers@[0]@ == r.name@,
            r.model@ == without_colons(gw.firmware_spec()->Some_0),
            r.sw_version@ == r.model@,
    {
        let name = gw.name();
        let identifiers = vec![gw.name()];
        DiscoverySensorDevice { identifiers, model: gw.version(), name, sw_version: gw.firmware() }
    }
}

/// A complete announcement: the sensor, its device and the announcing program.
#[derive(Debug)]
pub struct DiscoverySensorPayload {
    pub sensor: DiscoverySensor,
    pub device: DiscoverySensorDevice,
    pub origin: DiscoveryOrigin,
}

impl DiscoverySensorPayload {
    /// The announcement of `sensor` on `device`, made by this program.
    pub fn new(sensor: DiscoverySensor, device: DiscoverySensorDevice) -> (r: DiscoverySensorPayload)
        ensures
            r.sensor == sensor,
            r.device == device,
            r.origin.name@ == PACKAGE_NAME@,
            r.origin.sw@ == PACKAGE_VERSION@,
    {
        DiscoverySensorPayload { sensor, device, origin: DiscoveryOrigin::new() }
    }
}

/// The name a reading is published under: the configured name if there is
/// one, else its field name.
pub fn get_sensor_name(sensor: &SensorData, config: &SensorConfig) -> (r: String)
    ensures
        r@ == match config.name {
            Some(n) => n@,
            None => sensor@.0,
        },
{
    match &config.name {
        Some(n) => n.clone(),
        None => String::from_str(sensor.name()),
    }
}

/// The topic a gateway's readings are published on.
pub fn sensor_topic(gateway_name: &str) -> (r: String)
    ensures
        r@ == "awgateway/"@ + gateway_name@ + "/data"@,
{
    concat3("awgateway/", gateway_name, "/data")
}

/// The topic a sensor's battery and signal are published on.
pub fn info_topic(gateway_name: &str, field: &str) -> (r: String)
    ensures
        r@ == "awgateway/"@ + gateway_name@ + "/"@ + field@ + "/info"@,
{
    let mut s = concat3("awgateway/", gateway_name, "/");
    s.append(field);
    s.append("/info");
    s
}

/// The topic a sensor's announcement is published on.
pub fn discovery_topic(unique_id: &str) -> (r: String)
    ensures
        r@ == "homeassistant/sensor/"@ + unique_id@ + "/config"@,
{
    concat3("homeassistant/sensor/", unique_id, "/config")
}

/// The template that reads the battery state out of an info message.
pub const BATTERY_TEMPLATE: &'static str = "{{ value_json.battery_status | default(\"\") }}";

/// The presentation of a sensor's battery and signal: named `name`, its
/// state read from the battery status, its attributes from `topic`.
pub fn info_sensor_config(name: &str, topic: &str) -> (r: SensorConfig)
    ensures
        opt_view(r.name) == Some(name@),
        opt_view(r.value_template) == Some(BATTERY_TEMPLATE@),
        opt_view(r.json_attributes_topic) == Some(topic@),
        r.class is None,
        r.unit is None,
        r.json_attributes_template is None,
{
    let mut config = SensorConfig::new();
    config.name = Some(String::from_str(name));
    config.value_template = Some(String::from_str(BATTERY_TEMPLATE));
    config.json_attributes_topic = Some(String::from_str(topic));
    config
}

/// The name a sensor's battery and signal are announced under.
pub fn info_name(field: &str) -> (r: String)
    ensures
        r@ == field@ + "_info"@,
{
    let mut s = String::from_str(field);
    s.append("_info");
    s
}

/// The announcement of one reading of an identified gateway: named as
/// `get_sensor_name` says and published on the gateway's data topic.
pub fn build_discovery_payload_from_sensor_data(
    gw: &SensorGateway,
    sensor: &SensorData,
    config: &SensorConfig,
) -> (r: DiscoverySensorPayload)
    requires
        gw.firmware_spec() is Some,
        gw.mac_spec() is Some,
    ensures
        r.sensor.name@ == (match config.name {
            Some(n) => n@,
            None => sensor@.0,
        }),
        r.sensor.state_topic@ == "awgateway/"@ + hex_joined(gw.mac_spec()->Some_0, seq![], false)
            + "/data"@,
        r.sensor.unique_id@ == hex_joined(gw.mac_spec()->Some_0, seq![], false) + "_"@
            + r.sensor.name@,
        r.device.name@ == hex_joined(gw.mac_spec()->Some_0, seq![], false),
{
    let gateway_name = gw.name();
    let topic = sensor_topic(gateway_name.as_str());
    let dsensor = DiscoverySensor::new(gateway_name, get_sensor_name(sensor, config), topic, config);
    DiscoverySensorPayload::new(dsensor, DiscoverySensorDevice::new(gw))
}

} // verus!
