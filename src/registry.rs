use vstd::prelude::*;

use std::collections::HashMap;

use vstd::slice::slice_subrange;

use crate::error::GatewayError;
use crate::values::{
    decode_spec, decoded_view, in_scale, kind_len, lemma_decode_in_scale, DecoderKind, SensorValue,
};

verus! {

broadcast use vstd::std_specs::hash::group_hash_axioms;

/// One decoded reading: a field name and its value.
#[derive(Debug, Clone, PartialEq, Eq)]
pub struct SensorData {
    field: String,
    value: SensorValue,
}

impl View for SensorData {
    type V = (Seq<char>, SensorValue);

    closed spec fn view(&self) -> (Seq<char>, SensorValue) {
        (self.field@, self.value)
    }
}

impl SensorData {
    /// A reading of `value` under the field name `field`.
    pub fn new(field: &str, value: SensorValue) -> (r: SensorData)
        ensures
            r@ == (field@, value),
    {
        SensorData { field: String::from_str(field), value }
    }

    /// The decoded value.
    pub fn value(&self) -> (r: &SensorValue)
        ensures
            *r == self@.1,
    {
        &self.value
    }

    /// The field name.
    pub fn name(&self) -> (r: &str)
        ensures
            r@ == self@.0,
    {
        self.field.as_str()
    }
}

/// How one live-data record is decoded: its decoder, the names of the values
/// that decoder yields, in order, and the number of payload bytes.
#[derive(Debug)]
pub struct ParseInfo {
    pub kind: DecoderKind,
    pub field_names: Vec<&'static str>,
    pub size: usize,
}

/// The registry: for each known type id, its decoder and field names.
pub open spec fn registry_entry(id: u8) -> Option<(DecoderKind, Seq<&'static str>)> {
    match id {
        0x01 => Some((DecoderKind::Temp, seq!["indoor_temp"])),
        0x02 => Some((DecoderKind::Temp, seq!["outdoor_temp"])),
        0x04 => Some((DecoderKind::Temp, seq!["windchill"])),
        0x05 => Some((DecoderKind::Temp, seq!["heat_index"])),
        0x06 => Some((DecoderKind::Humidity, seq!["in_humidity"])),
        0x07 => Some((DecoderKind::Humidity, seq!["out_humidity"])),
        0x08 => Some((DecoderKind::Pressure, seq!["abs_barometer"])),
        0x09 => Some((DecoderKind::Pressure, seq!["rel_barometer"])),
        0x0A => Some((DecoderKind::Direction, seq!["wind_dir"])),
        0x0B => Some((DecoderKind::Speed, seq!["wind_speed"])),
        0x0C => Some((DecoderKind::Speed, seq!["gust_speed"])),
        0x0D => Some((DecoderKind::Rain, seq!["rain_event"])),
        0x0E => Some((DecoderKind::Rain, seq!["rain_rate"])),
        0x0F => Some((DecoderKind::Gain, seq!["rain_gain"])),
        0x10 => Some((DecoderKind::Rain, seq!["rain_day"])),
        0x11 => Some((DecoderKind::Rain, seq!["rain_week"])),
        0x12 => Some((DecoderKind::RainLarge, seq!["rain_month"])),
        0x13 => Some((DecoderKind::RainLarge, seq!["rain_year"])),
        0x14 => Some((DecoderKind::RainLarge, seq!["rain_totals"])),
        0x15 => Some((DecoderKind::Light, seq!["light"])),
        0x16 => Some((DecoderKind::Uv, seq!["uv"])),
        0x17 => Some((DecoderKind::UvIndex, seq!["uv_index"])),
        0x18 => Some((DecoderKind::DateTime, seq!["datetime"])),
        0x19 => Some((DecoderKind::Speed, seq!["day_maxwind"])),
        0x1A => Some((DecoderKind::Temp, seq!["temp_1"])),
        0x1B => Some((DecoderKind::Temp, seq!["temp_2"])),
        0x1C => Some((DecoderKind::Temp, seq!["temp_3"])),
        0x1D => Some((DecoderKind::Temp, seq!["temp_4"])),
        0x1E => Some((DecoderKind::Temp, seq!["temp_5"])),
        0x1F => Some((DecoderKind::Temp, seq!["temp_6"])),
        0x20 => Some((DecoderKind::Temp, seq!["temp_7"])),
        0x21 => Some((DecoderKind::Temp, seq!["temp_8"])),
        0x22 => Some((DecoderKind::Humidity, seq!["humidity_1"])),
        0x23 => Some((DecoderKind::Humidity, seq!["humidity_2"])),
        0x24 => Some((DecoderKind::Humidity, seq!["humidity_3"])),
        0x25 => Some((DecoderKind::Humidity, seq!["humidity_4"])),
        0x26 => Some((DecoderKind::Humidity, seq!["humidity_5"])),
        0x27 => Some((DecoderKind::Humidity, seq!["humidity_6"])),
        0x28 => Some((DecoderKind::Humidity, seq!["humidity_7"])),
        0x29 => Some((DecoderKind::Humidity, seq!["humidity_8"])),
        0x2A => Some((DecoderKind::Pm25, seq!["pm25_1"])),
        0x2B => Some((DecoderKind::Temp, seq!["soil_temp_1"])),
        0x2C => Some((DecoderKind::Moist, seq!["soil_moist_1"])),
        0x2D => Some((DecoderKind::Temp, seq!["soil_temp_2"])),
        0x2E => Some((DecoderKind::Moist, seq!["soil_moist_2"])),
        0x2F => Some((DecoderKind::Temp, seq!["soil_temp_3"])),
        0x30 => Some((DecoderKind::Moist, seq!["soil_moist_3"])),
        0x31 => Some((DecoderKind::Temp, seq!["soil_temp_4"])),
        0x32 => Some((DecoderKind::Moist, seq!["soil_moist_4"])),
        0x33 => Some((DecoderKind::Temp, seq!["soil_temp_5"])),
        0x34 => Some((DecoderKind::Moist, seq!["soil_moist_5"])),
        0x35 => Some((DecoderKind::Temp, seq!["soil_temp_6"])),
        0x36 => Some((DecoderKind::Moist, seq!["soil_moist_6"])),
        0x37 => Some((DecoderKind::Temp, seq!["soil_temp_7"])),
        0x38 => Some((DecoderKind::Moist, seq!["soil_moist_7"])),
        0x39 => Some((DecoderKind::Temp, seq!["soil_temp_8"])),
        0x3A => Some((DecoderKind::Moist, seq!["soil_moist_8"])),
        0x4C => Some((DecoderKind::Skip, seq![""])),
        0x4D => Some((DecoderKind::Pm25, seq!["pm25_1_avg_24h"])),
        0x4E => Some((DecoderKind::Pm25, seq!["pm25_2_avg_24h"])),
        0x4F => Some((DecoderKind::Pm25, seq!["pm25_3_avg_24h"])),
        0x50 => Some((DecoderKind::Pm25, seq!["pm25_4_avg_24h"])),
        0x51 => Some((DecoderKind::Pm25, seq!["pm25_2"])),
        0x52 => Some((DecoderKind::Pm25, seq!["pm25_3"])),
        0x53 => Some((DecoderKind::Pm25, seq!["pm25_4"])),
        0x58 => Some((DecoderKind::Leak, seq!["leak1"])),
        0x59 => Some((DecoderKind::Leak, seq!["leak2"])),
        0x5A => Some((DecoderKind::Leak, seq!["leak3"])),
        0x5B => Some((DecoderKind::Leak, seq!["leak4"])),
        0x60 => Some((DecoderKind::Distance, seq!["lightning_distance"])),
        0x61 => Some((DecoderKind::Utc, seq!["lightning_datetime"])),
        0x62 => Some((DecoderKind::Count, seq!["lightning_count"])),
        0x70 => Some((DecoderKind::Wh45, seq!["temp_wh45", "humid_wh45", "pm10_wh45", "pm10_avg_24h_wh45", "pm25_wh45", "pm25_avg_24h_wh45", "co2_wh45", "co2_avg_24h_wh45"])),
        _ => None,
    }
}

/// The payload size of a record: the decoder's length, or sixteen bytes for
/// the skipped legacy block.
pub open spec fn descriptor_size(k: DecoderKind) -> nat {
    if k == DecoderKind::Skip {
        16
    } else {
        kind_len(k)
    }
}

/// `p` is the descriptor that the registry gives for `id`.
pub open spec fn describes(p: ParseInfo, id: u8) -> bool {
    &&& registry_entry(id) == Some((p.kind, p.field_names@))
    &&& p.size == descriptor_size(p.kind)
}

/// A live-data reading as a field name and a value.
pub type ReadingView = (Seq<char>, SensorValue);

/// Field names zipped with decoded values, by position.
pub open spec fn reading_group(names: Seq<&'static str>, values: Seq<SensorValue>) -> Seq<
    ReadingView,
> {
    Seq::new(values.len(), |j: int| (names[j]@, values[j]))
}

pub open spec fn prepend_group(
    g: Seq<ReadingView>,
    rest: Result<Seq<Seq<ReadingView>>, GatewayError>,
) -> Result<Seq<Seq<ReadingView>>, GatewayError> {
    match rest {
        Ok(gs) => Ok(seq![g] + gs),
        Err(e) => Err(e),
    }
}

pub open spec fn prepend_groups(
    g: Seq<Seq<ReadingView>>,
    rest: Result<Seq<Seq<ReadingView>>, GatewayError>,
) -> Result<Seq<Seq<ReadingView>>, GatewayError> {
    match rest {
        Ok(gs) => Ok(g + gs),
        Err(e) => Err(e),
    }
}

/// Dispatch of a live-data buffer from position `i` on: each record is a type
/// id and the payload its descriptor sizes. An unknown id fails the whole
/// buffer; a record that is cut short or fails to decode is left out.
pub open spec fn dispatch_from(data: Seq<u8>, i: int) -> Result<Seq<Seq<ReadingView>>, GatewayError>
    decreases data.len() - i,
{
    if i < 0 || i >= data.len() {
        Ok(seq![])
    } else {
        match registry_entry(data[i]) {
            None => Err(GatewayError::UnknownSensorType { id: data[i] }),
            Some((k, names)) => {
                let end = i + 1 + descriptor_size(k);
                let rest = if end < data.len() {
                    dispatch_from(data, end)
                } else {
                    Ok(seq![])
                };
                if end <= data.len() && decode_spec(k, data.subrange(i + 1, end)) is Ok {
                    prepend_group(
                        reading_group(names, decode_spec(k, data.subrange(i + 1, end))->Ok_0),
                        rest,
                    )
                } else {
                    rest
                }
            },
        }
    }
}

/// Dispatch of a whole live-data buffer.
pub open spec fn dispatch_spec(data: Seq<u8>) -> Result<Seq<Seq<ReadingView>>, GatewayError> {
    dispatch_from(data, 0)
}

pub open spec fn group_view(g: Vec<SensorData>) -> Seq<ReadingView> {
    g@.map_values(|d: SensorData| d@)
}

pub open spec fn groups_view(gs: Seq<Vec<SensorData>>) -> Seq<Seq<ReadingView>> {
    gs.map_values(|g: Vec<SensorData>| group_view(g))
}

pub open spec fn live_view(r: Result<Vec<Vec<SensorData>>, GatewayError>) -> Result<
    Seq<Seq<ReadingView>>,
    GatewayError,
> {
    match r {
        Ok(gs) => Ok(groups_view(gs@)),
        Err(e) => Err(e),
    }
}

fn one_name(name: &'static str) -> (r: Vec<&'static str>)
    ensures
        r@ == seq![name],
{
    let mut r: Vec<&'static str> = Vec::new();
    r.push(name);
    r
}

fn wh45_names() -> (r: Vec<&'static str>)
    ensures
        r@ == seq![
            "temp_wh45",
            "humid_wh45",
            "pm10_wh45",
            "pm10_avg_24h_wh45",
            "pm25_wh45",
            "pm25_avg_24h_wh45",
            "co2_wh45",
            "co2_avg_24h_wh45",
        ],
{
    let mut r: Vec<&'static str> = Vec::new();
    r.push("temp_wh45");
    r.push("humid_wh45");
    r.push("pm10_wh45");
    r.push("pm10_avg_24h_wh45");
    r.push("pm25_wh45");
    r.push("pm25_avg_24h_wh45");
    r.push("co2_wh45");
    r.push("co2_avg_24h_wh45");
    assert(r@ =~= seq![
        "temp_wh45",
        "humid_wh45",
        "pm10_wh45",
        "pm10_avg_24h_wh45",
        "pm25_wh45",
        "pm25_avg_24h_wh45",
        "co2_wh45",
        "co2_avg_24h_wh45",
    ]);
    r
}

fn info(kind: DecoderKind, field_names: Vec<&'static str>) -> (p: ParseInfo)
    ensures
        p.kind == kind,
        p.field_names == field_names,
        p.size == descriptor_size(kind),
{
    let size = if kind == DecoderKind::Skip {
        16
    } else {
        kind.expected_len()
    };
    ParseInfo { kind, field_names, size }
}

/// The descriptors of the ids below 0x2B.
fn descriptor_low(id: u8) -> (r: Option<ParseInfo>)
    requires
        id < 0x2B,
    ensures
        match r {
            Some(p) => describes(p, id),
            None => registry_entry(id) is None,
        },
{
    match id {
        0x01 => Some(info(DecoderKind::Temp, one_name("indoor_temp"))),
        0x02 => Some(info(DecoderKind::Temp, one_name("outdoor_temp"))),
        0x04 => Some(info(DecoderKind::Temp, one_name("windchill"))),
        0x05 => Some(info(DecoderKind::Temp, one_name("heat_index"))),
        0x06 => Some(info(DecoderKind::Humidity, one_name("in_humidity"))),
        0x07 => Some(info(DecoderKind::Humidity, one_name("out_humidity"))),
        0x08 => Some(info(DecoderKind::Pressure, one_name("abs_barometer"))),
        0x09 => Some(info(DecoderKind::Pressure, one_name("rel_barometer"))),
        0x0A => Some(info(DecoderKind::Direction, one_name("wind_dir"))),
        0x0B => Some(info(DecoderKind::Speed, one_name("wind_speed"))),
        0x0C => Some(info(DecoderKind::Speed, one_name("gust_speed"))),
        0x0D => Some(info(DecoderKind::Rain, one_name("rain_event"))),
        0x0E => Some(info(DecoderKind::Rain, one_name("rain_rate"))),
        0x0F => Some(info(DecoderKind::Gain, one_name("rain_gain"))),
        0x10 => Some(info(DecoderKind::Rain, one_name("rain_day"))),
        0x11 => Some(info(DecoderKind::Rain, one_name("rain_week"))),
        0x12 => Some(info(DecoderKind::RainLarge, one_name("rain_month"))),
        0x13 => Some(info(DecoderKind::RainLarge, one_name("rain_year"))),
        0x14 => Some(info(DecoderKind::RainLarge, one_name("rain_totals"))),
        0x15 => Some(info(DecoderKind::Light, one_name("light"))),
        0x16 => Some(info(DecoderKind::Uv, one_name("uv"))),
        0x17 => Some(info(DecoderKind::UvIndex, one_name("uv_index"))),
        0x18 => Some(info(DecoderKind::DateTime, one_name("datetime"))),
        0x19 => Some(info(DecoderKind::Speed, one_name("day_maxwind"))),
        0x1A => Some(info(DecoderKind::Temp, one_name("temp_1"))),
        0x1B => Some(info(DecoderKind::Temp, one_name("temp_2"))),
        0x1C => Some(info(DecoderKind::Temp, one_name("temp_3"))),
        0x1D => Some(info(DecoderKind::Temp, one_name("temp_4"))),
        0x1E => Some(info(DecoderKind::Temp, one_name("temp_5"))),
        0x1F => Some(info(DecoderKind::Temp, one_name("temp_6"))),
        0x20 => Some(info(DecoderKind::Temp, one_name("temp_7"))),
        0x21 => Some(info(DecoderKind::Temp, one_name("temp_8"))),
        0x22 => Some(info(DecoderKind::Humidity, one_name("humidity_1"))),
        0x23 => Some(info(DecoderKind::Humidity, one_name("humidity_2"))),
        0x24 => Some(info(DecoderKind::Humidity, one_name("humidity_3"))),
        0x25 => Some(info(DecoderKind::Humidity, one_name("humidity_4"))),
        0x26 => Some(info(DecoderKind::Humidity, one_name("humidity_5"))),
        0x27 => Some(info(DecoderKind::Humidity, one_name("humidity_6"))),
        0x28 => Some(info(DecoderKind::Humidity, one_name("humidity_7"))),
        0x29 => Some(info(DecoderKind::Humidity, one_name("humidity_8"))),
        0x2A => Some(info(DecoderKind::Pm25, one_name("pm25_1"))),
        _ => None,
    }
}

/// The descriptors of the ids from 0x2B on.
fn descriptor_high(id: u8) -> (r: Option<ParseInfo>)
    requires
        id >= 0x2B,
    ensures
        match r {
            Some(p) => describes(p, id),
            None => registry_entry(id) is None,
        },
{
    match id {
        0x2B => Some(info(DecoderKind::Temp, one_name("soil_temp_1"))),
        0x2C => Some(info(DecoderKind::Moist, one_name("soil_moist_1"))),
        0x2D => Some(info(DecoderKind::Temp, one_name("soil_temp_2"))),
        0x2E => Some(info(DecoderKind::Moist, one_name("soil_moist_2"))),
        0x2F => Some(info(DecoderKind::Temp, one_name("soil_temp_3"))),
        0x30 => Some(info(DecoderKind::Moist, one_name("soil_moist_3"))),
        0x31 => Some(info(DecoderKind::Temp, one_name("soil_temp_4"))),
        0x32 => Some(info(DecoderKind::Moist, one_name("soil_moist_4"))),
        0x33 => Some(info(DecoderKind::Temp, one_name("soil_temp_5"))),
        0x34 => Some(info(DecoderKind::Moist, one_name("soil_moist_5"))),
        0x35 => Some(info(DecoderKind::Temp, one_name("soil_temp_6"))),
        0x36 => Some(info(DecoderKind::Moist, one_name("soil_moist_6"))),
        0x37 => Some(info(DecoderKind::Temp, one_name("soil_temp_7"))),
        0x38 => Some(info(DecoderKind::Moist, one_name("soil_moist_7"))),
        0x39 => Some(info(DecoderKind::Temp, one_name("soil_temp_8"))),
        0x3A => Some(info(DecoderKind::Moist, one_name("soil_moist_8"))),
        0x4C => Some(info(DecoderKind::Skip, one_name(""))),
        0x4D => Some(info(DecoderKind::Pm25, one_name("pm25_1_avg_24h"))),
        0x4E => Some(info(DecoderKind::Pm25, one_name("pm25_2_avg_24h"))),
        0x4F => Some(info(DecoderKind::Pm25, one_name("pm25_3_avg_24h"))),
        0x50 => Some(info(DecoderKind::Pm25, one_name("pm25_4_avg_24h"))),
        0x51 => Some(info(DecoderKind::Pm25, one_name("pm25_2"))),
        0x52 => Some(info(DecoderKind::Pm25, one_name("pm25_3"))),
        0x53 => Some(info(DecoderKind::Pm25, one_name("pm25_4"))),
        0x58 => Some(info(DecoderKind::Leak, one_name("leak1"))),
        0x59 => Some(info(DecoderKind::Leak, one_name("leak2"))),
        0x5A => Some(info(DecoderKind::Leak, one_name("leak3"))),
        0x5B => Some(info(DecoderKind::Leak, one_name("leak4"))),
        0x60 => Some(info(DecoderKind::Distance, one_name("lightning_distance"))),
        0x61 => Some(info(DecoderKind::Utc, one_name("lightning_datetime"))),
        0x62 => Some(info(DecoderKind::Count, one_name("lightning_count"))),
        0x70 => Some(info(DecoderKind::Wh45, wh45_names())),
        _ => None,
    }
}

/// The descriptor that the registry gives for `id`, if any.
pub fn descriptor(id: u8) -> (r: Option<ParseInfo>)
    ensures
        match r {
            Some(p) => describes(p, id),
            None => registry_entry(id) is None,
        },
{
    if id < 0x2B {
        descriptor_low(id)
    } else {
        descriptor_high(id)
    }
}

/// For every registered descriptor, any payload of its size decodes, into
/// exactly as many values as the descriptor names fields, each within the
/// scale its encoding documents.
pub proof fn lemma_registry_shapes(id: u8, s: Seq<u8>)
    requires
        registry_entry(id) is Some,
        s.len() == descriptor_size(registry_entry(id)->Some_0.0),
    ensures
        decode_spec(registry_entry(id)->Some_0.0, s) is Ok,
        decode_spec(registry_entry(id)->Some_0.0, s)->Ok_0.len()
            == registry_entry(id)->Some_0.1.len(),
        forall|i: int|
            0 <= i < decode_spec(registry_entry(id)->Some_0.0, s)->Ok_0.len() ==> in_scale(
                #[trigger] decode_spec(registry_entry(id)->Some_0.0, s)->Ok_0[i],
            ),
{
    lemma_decode_in_scale(registry_entry(id)->Some_0.0, s);
}

/// Position `j` of `data` is where a record starts when the buffer is walked
/// from position `i`: every record between them has a registered type id.
pub open spec fn is_record_start(data: Seq<u8>, i: int, j: int) -> bool
    decreases j - i,
{
    if i == j {
        true
    } else if 0 <= i < j && i < data.len() && registry_entry(data[i]) is Some {
        let end = i + 1 + descriptor_size(registry_entry(data[i])->Some_0.0);
        end <= j && is_record_start(data, end, j)
    } else {
        false
    }
}

proof fn lemma_unknown_from(data: Seq<u8>, i: int, j: int)
    requires
        0 <= i,
        is_record_start(data, i, j),
        j < data.len(),
        registry_entry(data[j]) is None,
    ensures
        dispatch_from(data, i) == Err::<Seq<Seq<ReadingView>>, GatewayError>(
            GatewayError::UnknownSensorType { id: data[j] },
        ),
    decreases j - i,
{
    if i != j {
        let end = i + 1 + descriptor_size(registry_entry(data[i])->Some_0.0);
        lemma_unknown_from(data, end, j);
    }
}

/// A buffer in which the walk reaches a record with an unregistered type id
/// fails as a whole with that id, whatever comes before or after it.
pub proof fn lemma_unknown_type_fails(data: Seq<u8>, j: int)
    requires
        is_record_start(data, 0, j),
        j < data.len(),
        registry_entry(data[j]) is None,
    ensures
        dispatch_spec(data) == Err::<Seq<Seq<ReadingView>>, GatewayError>(
            GatewayError::UnknownSensorType { id: data[j] },
        ),
{
    lemma_unknown_from(data, 0, j);
}

/// The registry of live-data decoders, keyed by type id. Built once, then only
/// read.
#[derive(Debug)]
pub struct Sensors {
    parsers: HashMap<u8, ParseInfo>,
}

impl Sensors {
    /// Holds exactly the registry's descriptors.
    #[verifier::type_invariant]
    spec fn wf(&self) -> bool {
        forall|id: u8|
            #![trigger self.parsers@.contains_key(id)]
            (self.parsers@.contains_key(id) <==> registry_entry(id) is Some) && (
            self.parsers@.contains_key(id) ==> describes(self.parsers@[id], id))
    }

    /// The registry, ready for lookups.
    pub fn new() -> (r: Sensors) {
        Sensors { parsers: Self::init_parsers() }
    }

    fn init_parsers() -> (r: HashMap<u8, ParseInfo>)
        ensures
            forall|id: u8|
                #![trigger r@.contains_key(id)]
                (r@.contains_key(id) <==> registry_entry(id) is Some) && (r@.contains_key(id)
                    ==> describes(r@[id], id)),
    {
        let mut parsers: HashMap<u8, ParseInfo> = HashMap::new();
        let mut id: u16 = 0;
        while id < 256
            invariant
                id <= 256,
                forall|j: u8|
                    #![trigger parsers@.contains_key(j)]
                    (parsers@.contains_key(j) <==> (j < id && registry_entry(j) is Some)) && (
                    parsers@.contains_key(j) ==> describes(parsers@[j], j)),
            decreases 256 - id,
        {
            if let Some(p) = descriptor(id as u8) {
                parsers.insert(id as u8, p);
            }
            id += 1;
        }
        parsers
    }

    /// The descriptor registered for `id`, if any.
    pub fn lookup(&self, id: u8) -> (r: Option<&ParseInfo>)
        ensures
            match r {
                Some(p) => describes(*p, id),
                None => registry_entry(id) is None,
            },
    {
        proof {
            use_type_invariant(self);
        }
        let r = self.parsers.get(&id);
        assert(self.parsers@.contains_key(id) ==> describes(self.parsers@[id], id));
        r
    }

    /// Walks a live-data buffer of type-tagged records and decodes each one.
    /// An unregistered type id fails the whole buffer; a record that is cut
    /// short or does not decode is left out.
    pub fn parse_live_data(&self, data: &[u8]) -> (r: Result<Vec<Vec<SensorData>>, GatewayError>)
        ensures
            live_view(r) == dispatch_spec(data@),
    {
        let mut sensor_data: Vec<Vec<SensorData>> = Vec::new();
        let mut index: usize = 0;
        while index < data.len()
            invariant
                dispatch_spec(data@) == prepend_groups(
                    groups_view(sensor_data@),
                    dispatch_from(data@, index as int),
                ),
            decreases data@.len() - index,
        {
            let type_id = data[index];
            let parser = match self.lookup(type_id) {
                Some(p) => p,
                None => {
                    return Err(GatewayError::UnknownSensorType { id: type_id });
                },
            };
            let ghost names = parser.field_names@;
            let ghost old_groups = sensor_data@;
            if parser.size < data.len() - index {
                let end = index + 1 + parser.size;
                let field_data = slice_subrange(data, index + 1, end);
                let decoded = parser.kind.decode(field_data);
                if let Ok(parsed_data) = decoded {
                    proof {
                        lemma_registry_shapes(type_id, field_data@);
                    }
                    let mut values: Vec<SensorData> = Vec::new();
                    let mut i: usize = 0;
                    while i < parsed_data.len()
                        invariant
                            i <= parsed_data@.len(),
                            parsed_data@.len() == names.len(),
                            names == parser.field_names@,
                            group_view(values) == reading_group(names, parsed_data@).take(
                                i as int,
                            ),
                        decreases parsed_data@.len() - i,
                    {
                        let d = SensorData::new(parser.field_names[i], parsed_data[i]);
                        let ghost prev = values@;
                        let ghost prev_view = group_view(values);
                        assert(prev_view.len() == i);
                        values.push(d);
                        assert(values@ == prev.push(d));
                        assert(d@ == (names[i as int]@, parsed_data@[i as int]));
                        assert(group_view(values).len() == i + 1);
                        assert forall|j: int| 0 <= j <= i implies #[trigger] group_view(values)[j]
                            == reading_group(names, parsed_data@)[j] by {
                            assert(group_view(values)[j] == values@[j]@);
                            if j < i {
                                assert(values@[j] == prev[j]);
                                assert(prev_view[j] == prev[j]@);
                                assert(prev_view[j] == reading_group(names, parsed_data@).take(
                                    i as int,
                                )[j]);
                            }
                        }
                        i += 1;
                        assert(group_view(values) =~= reading_group(names, parsed_data@).take(
                            i as int,
                        ));
                    }
                    assert(group_view(values) =~= reading_group(names, parsed_data@));
                    sensor_data.push(values);
                    assert(groups_view(sensor_data@) =~= groups_view(old_groups) + seq![
                        group_view(values),
                    ]);
                    proof {
                        let rest = dispatch_from(data@, end as int);
                        assert(field_data@ == data@.subrange(index + 1, end as int));
                        assert(dispatch_from(data@, index as int) == prepend_group(
                            group_view(values),
                            rest,
                        ));
                        if rest is Ok {
                            assert(groups_view(old_groups) + (seq![group_view(values)]
                                + rest->Ok_0) =~= groups_view(sensor_data@) + rest->Ok_0);
                        }
                    }
                } else {
                    assert(field_data@ == data@.subrange(index + 1, end as int));
                    assert(dispatch_from(data@, index as int) == dispatch_from(data@, end as int));
                }
                index = end;
            } else {
                assert(dispatch_from(data@, index as int) == Ok::<
                    Seq<Seq<ReadingView>>,
                    GatewayError,
                >(seq![]));
                index = data.len();
            }
        }
        assert(groups_view(sensor_data@) + seq![] =~= groups_view(sensor_data@));
        Ok(sensor_data)
    }
}

} // verus!
