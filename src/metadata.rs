use vstd::prelude::*;

use std::collections::HashMap;

use crate::error::GatewayError;
use crate::registry::Sensors;
use crate::values::{
    be_u16_at, be_u32_at, compare_tenths, dec, read_u32_be, Decimal, SensorBatteryState,
};

verus! {

broadcast use vstd::std_specs::hash::group_hash_axioms;

/// The single character of a decimal digit.
pub open spec fn digit_chars(n: int) -> Seq<char> {
    seq![(48 + n) as char]
}

/// `n` as one decimal digit.
fn digit_str(n: u8) -> (r: &'static str)
    requires
        1 <= n <= 9,
    ensures
        r@ == digit_chars(n as int),
{
    proof {
        reveal_strlit("1");
        reveal_strlit("2");
        reveal_strlit("3");
        reveal_strlit("4");
        reveal_strlit("5");
        reveal_strlit("6");
        reveal_strlit("7");
        reveal_strlit("8");
        reveal_strlit("9");
    }
    match n {
        1 => "1",
        2 => "2",
        3 => "3",
        4 => "4",
        5 => "5",
        6 => "6",
        7 => "7",
        8 => "8",
        _ => "9",
    }
}

/// `prefix` followed by the channel digit `n`.
fn channel_text(prefix: &str, n: u8) -> (r: String)
    requires
        1 <= n <= 9,
    ensures
        r@ == prefix@ + digit_chars(n as int),
{
    let mut s = String::from_str(prefix);
    s.append(digit_str(n));
    s
}

/// The short name of a sensor model, by type id.
pub open spec fn type_name_spec(id: u8) -> Option<Seq<char>> {
    if id == 0x00 {
        Some("wh65"@)
    } else if id == 0x01 {
        Some("wh68"@)
    } else if id == 0x02 {
        Some("wh80"@)
    } else if id == 0x03 {
        Some("wh40"@)
    } else if id == 0x04 {
        Some("wh25"@)
    } else if id == 0x05 {
        Some("wh26"@)
    } else if 0x06 <= id <= 0x0D {
        Some("wh31_ch"@ + digit_chars(id - 0x05))
    } else if 0x0E <= id <= 0x15 {
        Some("wh51_ch"@ + digit_chars(id - 0x0D))
    } else if 0x16 <= id <= 0x19 {
        Some("wh41_ch"@ + digit_chars(id - 0x15))
    } else if id == 0x1A {
        Some("wh57"@)
    } else if 0x1B <= id <= 0x1E {
        Some("wh55_ch"@ + digit_chars(id - 0x1A))
    } else if 0x1F <= id <= 0x25 {
        Some("wh34_ch"@ + digit_chars(id - 0x1E))
    } else if id == 0x27 {
        Some("wh45"@)
    } else if 0x28 <= id <= 0x2F {
        Some("wh35_ch"@ + digit_chars(id - 0x27))
    } else {
        None
    }
}

/// The human-readable description of a sensor model, by type id.
pub open spec fn type_desc_spec(id: u8) -> Option<Seq<char>> {
    if id == 0x00 {
        Some("WH-65"@)
    } else if id == 0x01 {
        Some("WH-68"@)
    } else if id == 0x02 {
        Some("WH-80"@)
    } else if id == 0x03 {
        Some("WH-40"@)
    } else if id == 0x04 {
        Some("WH-25"@)
    } else if id == 0x05 {
        Some("WH-26"@)
    } else if 0x06 <= id <= 0x0D {
        Some("WH-31 channel "@ + digit_chars(id - 0x05))
    } else if 0x0E <= id <= 0x15 {
        Some("WH-51 channel "@ + digit_chars(id - 0x0D))
    } else if 0x16 <= id <= 0x19 {
        Some("WH-41 channel "@ + digit_chars(id - 0x15))
    } else if id == 0x1A {
        Some("WH-57"@)
    } else if 0x1B <= id <= 0x1E {
        Some("WH-55 channel "@ + digit_chars(id - 0x1A))
    } else if 0x1F <= id <= 0x25 {
        Some("WH-34 channel "@ + digit_chars(id - 0x1E))
    } else if id == 0x27 {
        Some("WH-45"@)
    } else if 0x28 <= id <= 0x2F {
        Some("WH-35 channel "@ + digit_chars(id - 0x27))
    } else {
        None
    }
}

/// Battery readings that are 0 (ok) or 1 (low).
pub open spec fn binary_bucket(id: u8) -> bool {
    id == 0 || id == 4 || (5 <= id <= 0x0D)
}

/// Battery readings in steps: up to 1 low, up to 5 ok, 6 on external power.
pub open spec fn step_bucket(id: u8) -> bool {
    (0x16 <= id <= 0x1E) || id == 0x27
}

/// Battery readings in volts: up to 1.2 low.
pub open spec fn voltage_bucket(id: u8) -> bool {
    (1 <= id <= 3) || (0x0E <= id <= 0x15) || (0x1F <= id <= 0x26) || (0x28 <= id <= 0x30)
}

/// The battery state a raw reading `b` stands for on a sensor of type `id`.
pub open spec fn battery_state_spec(id: u8, b: Decimal) -> SensorBatteryState {
    if binary_bucket(id) {
        if b.tenths_diff(10) == 0 {
            SensorBatteryState::Low
        } else if b.tenths_diff(0) == 0 {
            SensorBatteryState::Okay
        } else {
            SensorBatteryState::Unknown
        }
    } else if step_bucket(id) {
        if b.tenths_diff(10) <= 0 {
            SensorBatteryState::Low
        } else if b.tenths_diff(50) <= 0 {
            SensorBatteryState::Okay
        } else if b.tenths_diff(60) == 0 {
            SensorBatteryState::Connected
        } else {
            SensorBatteryState::Unknown
        }
    } else if voltage_bucket(id) {
        if b.tenths_diff(12) <= 0 {
            SensorBatteryState::Low
        } else {
            SensorBatteryState::Okay
        }
    } else {
        SensorBatteryState::Unknown
    }
}

/// The text "unknown", for a type id outside every known range.
pub open spec fn unknown_text() -> Seq<char> {
    "unknown"@
}

/// One paired sensor as the inventory reports it.
#[derive(Debug, Clone)]
pub struct SensorMetadata {
    pub type_id: u8,
    pub type_id_str: String,
    pub type_desc: String,
    pub address: u32,
    pub battery_level: Option<Decimal>,
    pub battery_state: Option<SensorBatteryState>,
    pub signal: u8,
}

/// A sensor record: type id, name, description, address, battery reading,
/// battery state and signal level.
pub type MetadataView = (
    u8,
    Seq<char>,
    Seq<char>,
    u32,
    Option<Decimal>,
    Option<SensorBatteryState>,
    u8,
);

impl View for SensorMetadata {
    type V = MetadataView;

    open spec fn view(&self) -> MetadataView {
        (
            self.type_id,
            self.type_id_str@,
            self.type_desc@,
            self.address,
            self.battery_level,
            self.battery_state,
            self.signal,
        )
    }
}

/// What the record of a sensor of type `id` holds.
pub open spec fn metadata_spec(id: u8, address: u32, battery: Option<Decimal>, signal: u8) -> MetadataView {
    (
        id,
        match type_name_spec(id) {
            Some(n) => n,
            None => unknown_text(),
        },
        match type_desc_spec(id) {
            Some(d) => d,
            None => unknown_text(),
        },
        address,
        battery,
        match battery {
            Some(b) => Some(battery_state_spec(id, b)),
            None => None,
        },
        signal,
    )
}

impl SensorMetadata {
    /// The record of a sensor, with its name, description and battery state
    /// resolved from its type id.
    pub fn new(type_id: u8, address: u32, battery: Option<Decimal>, signal: u8) -> (r: SensorMetadata)
        ensures
            r@ == metadata_spec(type_id, address, battery, signal),
    {
        let type_id_str = match Self::parse_type(type_id) {
            Some(s) => s,
            None => String::from_str("unknown"),
        };
        let type_desc = match Self::parse_type_desc(type_id) {
            Some(s) => s,
            None => String::from_str("unknown"),
        };
        let battery_state = match battery {
            Some(b) => Self::parse_battery_state(type_id, b),
            None => None,
        };
        SensorMetadata {
            type_id,
            type_desc,
            type_id_str,
            address,
            battery_level: battery,
            battery_state,
            signal,
        }
    }

    /// The short model name for a type id, if the id is known.
    pub fn parse_type(id: u8) -> (r: Option<String>)
        ensures
            match r {
                Some(s) => type_name_spec(id) == Some(s@),
                None => type_name_spec(id) is None,
            },
    {
        if id == 0x00 {
            Some(String::from_str("wh65"))
        } else if id == 0x01 {
            Some(String::from_str("wh68"))
        } else if id == 0x02 {
            Some(String::from_str("wh80"))
        } else if id == 0x03 {
            Some(String::from_str("wh40"))
        } else if id == 0x04 {
            Some(String::from_str("wh25"))
        } else if id == 0x05 {
            Some(String::from_str("wh26"))
        } else if 0x06 <= id && id <= 0x0D {
            Some(channel_text("wh31_ch", id - 0x05))
        } else if 0x0E <= id && id <= 0x15 {
            Some(channel_text("wh51_ch", id - 0x0D))
        } else if 0x16 <= id && id <= 0x19 {
            Some(channel_text("wh41_ch", id - 0x15))
        } else if id == 0x1A {
            Some(String::from_str("wh57"))
        } else if 0x1B <= id && id <= 0x1E {
            Some(channel_text("wh55_ch", id - 0x1A))
        } else if 0x1F <= id && id <= 0x25 {
            Some(channel_text("wh34_ch", id - 0x1E))
        } else if id == 0x27 {
            Some(String::from_str("wh45"))
        } else if 0x28 <= id && id <= 0x2F {
            Some(channel_text("wh35_ch", id - 0x27))
        } else {
            None
        }
    }

    /// The model description for a type id, if the id is known.
    pub fn parse_type_desc(id: u8) -> (r: Option<String>)
        ensures
            match r {
                Some(s) => type_desc_spec(id) == Some(s@),
                None => type_desc_spec(id) is None,
            },
    {
        if id == 0x00 {
            Some(String::from_str("WH-65"))
        } else if id == 0x01 {
            Some(String::from_str("WH-68"))
        } else if id == 0x02 {
            Some(String::from_str("WH-80"))
        } else if id == 0x03 {
            Some(String::from_str("WH-40"))
        } else if id == 0x04 {
            Some(String::from_str("WH-25"))
        } else if id == 0x05 {
            Some(String::from_str("WH-26"))
        } else if 0x06 <= id && id <= 0x0D {
            Some(channel_text("WH-31 channel ", id - 0x05))
        } else if 0x0E <= id && id <= 0x15 {
            Some(channel_text("WH-51 channel ", id - 0x0D))
        } else if 0x16 <= id && id <= 0x19 {
            Some(channel_text("WH-41 channel ", id - 0x15))
        } else if id == 0x1A {
            Some(String::from_str("WH-57"))
        } else if 0x1B <= id && id <= 0x1E {
            Some(channel_text("WH-55 channel ", id - 0x1A))
        } else if 0x1F <= id && id <= 0x25 {
            Some(channel_text("WH-34 channel ", id - 0x1E))
        } else if id == 0x27 {
            Some(String::from_str("WH-45"))
        } else if 0x28 <= id && id <= 0x2F {
            Some(channel_text("WH-35 channel ", id - 0x27))
        } else {
            None
        }
    }

    /// Classifies a raw battery reading by the encoding its sensor type uses.
    pub fn parse_battery_state(id: u8, battery: Decimal) -> (r: Option<SensorBatteryState>)
        ensures
            r == Some(battery_state_spec(id, battery)),
    {
        if id == 0 || id == 4 || (5 <= id && id <= 0x0D) {
            if compare_tenths(battery, 10) == 0 {
                Some(SensorBatteryState::Low)
            } else if compare_tenths(battery, 0) == 0 {
                Some(SensorBatteryState::Okay)
            } else {
                Some(SensorBatteryState::Unknown)
            }
        } else if (0x16 <= id && id <= 0x1E) || id == 0x27 {
            if compare_tenths(battery, 10) <= 0 {
                Some(SensorBatteryState::Low)
            } else if compare_tenths(battery, 50) <= 0 {
                Some(SensorBatteryState::Okay)
            } else if compare_tenths(battery, 60) == 0 {
                Some(SensorBatteryState::Connected)
            } else {
                Some(SensorBatteryState::Unknown)
            }
        } else if (1 <= id && id <= 3) || (0x0E <= id && id <= 0x15) || (0x1F <= id && id <= 0x26)
            || (0x28 <= id && id <= 0x30) {
            if compare_tenths(battery, 12) <= 0 {
                Some(SensorBatteryState::Low)
            } else {
                Some(SensorBatteryState::Okay)
            }
        } else {
            Some(SensorBatteryState::Unknown)
        }
    }
}

/// The address that marks an unpopulated inventory slot.
pub const EMPTY_SLOT: u32 = 0xFFFF_FFFF;

/// The bytes of one inventory record: type id, address, battery, signal.
pub const RECORD_LEN: usize = 7;

/// The records of an inventory region, the first `n` of them, keyed by
/// address: unpopulated slots left out, a later record replacing an earlier
/// one with the same address.
pub open spec fn inventory_map(region: Seq<u8>, n: nat) -> Map<u32, MetadataView>
    decreases n,
{
    if n == 0 {
        Map::empty()
    } else {
        let m = inventory_map(region, (n - 1) as nat);
        let at = 7 * (n - 1);
        let address = be_u32_at(region, at + 1) as u32;
        if address == EMPTY_SLOT {
            m
        } else {
            m.insert(
                address,
                metadata_spec(region[at], address, Some(dec(region[at + 5] as int, 0)), region[at + 6]),
            )
        }
    }
}

/// What an inventory response yields. The declared length is a big-endian
/// 16-bit value at offset 3; the records follow at offset 5 and fill
/// `declared - 4` bytes.
pub open spec fn inventory_spec(resp: Seq<u8>) -> Result<Map<u32, MetadataView>, GatewayError> {
    if resp.len() == 0 {
        Ok(Map::empty())
    } else if resp.len() < 5 {
        Err(GatewayError::ShortResponse { needed: 5, actual: resp.len() as usize })
    } else if be_u16_at(resp, 3) < 4 {
        Err(GatewayError::ShortResponse { needed: 4, actual: be_u16_at(resp, 3) as usize })
    } else if be_u16_at(resp, 3) + 1 > resp.len() {
        Err(
            GatewayError::ShortResponse {
                needed: (be_u16_at(resp, 3) + 1) as usize,
                actual: resp.len() as usize,
            },
        )
    } else if (be_u16_at(resp, 3) - 4) % 7 != 0 {
        Err(
            GatewayError::ShortResponse {
                needed: RECORD_LEN,
                actual: ((be_u16_at(resp, 3) - 4) % 7) as usize,
            },
        )
    } else {
        Ok(
            inventory_map(
                resp.subrange(5, be_u16_at(resp, 3) + 1),
                ((be_u16_at(resp, 3) - 4) / 7) as nat,
            ),
        )
    }
}

pub open spec fn metadata_map_view(m: Map<u32, SensorMetadata>) -> Map<u32, MetadataView> {
    m.map_values(|x: SensorMetadata| x@)
}

pub open spec fn inventory_view(r: Result<HashMap<u32, SensorMetadata>, GatewayError>) -> Result<
    Map<u32, MetadataView>,
    GatewayError,
> {
    match r {
        Ok(m) => Ok(metadata_map_view(m@)),
        Err(e) => Err(e),
    }
}

proof fn lemma_no_empty_slot(region: Seq<u8>, n: nat)
    ensures
        !inventory_map(region, n).contains_key(EMPTY_SLOT),
    decreases n,
{
    if n > 0 {
        lemma_no_empty_slot(region, (n - 1) as nat);
    }
}

/// An unpopulated slot never appears in the inventory, wherever it stands.
pub proof fn lemma_inventory_skips_empty_slots(resp: Seq<u8>)
    ensures
        inventory_spec(resp) is Ok ==> !inventory_spec(resp)->Ok_0.contains_key(EMPTY_SLOT),
{
    if resp.len() >= 5 && be_u16_at(resp, 3) >= 4 && be_u16_at(resp, 3) + 1 <= resp.len() {
        lemma_no_empty_slot(
            resp.subrange(5, be_u16_at(resp, 3) + 1),
            ((be_u16_at(resp, 3) - 4) / 7) as nat,
        );
    }
}

impl Sensors {
    /// Reads the sensor inventory response into records keyed by address.
    /// Unpopulated slots are left out; an empty response yields no records.
    pub fn update_metadata(&self, id_data: &[u8]) -> (r: Result<HashMap<u32, SensorMetadata>, GatewayError>)
        ensures
            inventory_view(r) == inventory_spec(id_data@),
    {
        let mut metadata: HashMap<u32, SensorMetadata> = HashMap::new();
        if id_data.len() == 0 {
            assert(metadata_map_view(metadata@) =~= Map::empty());
            return Ok(metadata);
        }
        if id_data.len() < 5 {
            return Err(GatewayError::ShortResponse { needed: 5, actual: id_data.len() });
        }
        let data_size: usize = (id_data[3] as usize) * 256 + (id_data[4] as usize);
        if data_size < 4 {
            return Err(GatewayError::ShortResponse { needed: 4, actual: data_size });
        }
        if data_size + 1 > id_data.len() {
            return Err(GatewayError::ShortResponse { needed: data_size + 1, actual: id_data.len() });
        }
        let region_len = data_size - 4;
        if region_len % RECORD_LEN != 0 {
            return Err(GatewayError::ShortResponse { needed: RECORD_LEN, actual: region_len % RECORD_LEN });
        }
        let ghost region = id_data@.subrange(5, data_size as int + 1);
        let count = region_len / RECORD_LEN;
        let mut k: usize = 0;
        while k < count
            invariant
                k <= count,
                count * 7 == region_len,
                region_len + 5 <= id_data@.len(),
                region == id_data@.subrange(5, 5 + region_len as int),
                metadata_map_view(metadata@) == inventory_map(region, k as nat),
            decreases count - k,
        {
            let at = 5 + k * RECORD_LEN;
            let type_id = id_data[at];
            let address = read_u32_be(id_data, at + 1);
            let batt = id_data[at + 5];
            let signal = id_data[at + 6];
            proof {
                assert(region[7 * k] == type_id);
                assert(be_u32_at(region, 7 * k + 1) == be_u32_at(id_data@, at + 1));
                assert(region[7 * k + 5] == batt);
                assert(region[7 * k + 6] == signal);
            }
            if address != EMPTY_SLOT {
                let meta = SensorMetadata::new(
                    type_id,
                    address,
                    Some(Decimal { units: batt as i64, places: 0 }),
                    signal,
                );
                let ghost before = metadata@;
                metadata.insert(address, meta);
                assert(metadata_map_view(metadata@) =~= metadata_map_view(before).insert(
                    address,
                    meta@,
                ));
            }
            k += 1;
        }
        Ok(metadata)
    }
}

} // verus!
