use vstd::prelude::*;

use std::collections::HashMap;

use vstd::slice::{slice_subrange, slice_to_vec};
use vstd::utf8::{decode_utf8, valid_utf8};

use crate::error::GatewayError;
use crate::frame::{build_request, command_code, frame_spec, GatewayCommands, MAX_PAYLOAD};
use crate::metadata::{inventory_spec, inventory_view, SensorMetadata};
use crate::registry::{dispatch_spec, live_view, SensorData, Sensors};
use crate::text::{bytes_to_hex, hex_join, hex_joined, remove_colons, without_colons};
use crate::transport::{CommandRetry, GatewayEndpoint, RetryPhase};
use crate::values::be_u16_at;

verus! {

/// Relies on std's `String::from_utf8`: it succeeds exactly on valid UTF-8,
/// and the string then holds the characters the bytes encode.
#[verifier::external_body]
fn string_from_utf8(bytes: Vec<u8>) -> (r: Option<String>)
    ensures
        r is Some <==> valid_utf8(bytes@),
        r matches Some(s) ==> s@ == decode_utf8(bytes@),
{
    String::from_utf8(bytes).ok()
}

/// The bytes from offset 3 to 9 of a station-identifier response.
pub const STATION_ID_END: usize = 10;

/// What a live-data response yields: the records follow the declared length
/// (a big-endian 16-bit value at offset 3) and fill `declared - 4` bytes.
pub open spec fn live_response_spec(resp: Seq<u8>) -> Result<
    Seq<Seq<(Seq<char>, crate::values::SensorValue)>>,
    GatewayError,
> {
    if resp.len() < 5 {
        Err(GatewayError::ShortResponse { needed: 5, actual: resp.len() as usize })
    } else if be_u16_at(resp, 3) < 4 {
        Err(GatewayError::ShortResponse { needed: 4, actual: be_u16_at(resp, 3) as usize })
    } else if be_u16_at(resp, 3) + 1 > resp.len() {
        Err(
            GatewayError::ShortResponse {
                needed: (be_u16_at(resp, 3) + 1) as usize,
                actual: resp.len() as usize,
            },
        )
    } else {
        dispatch_spec(resp.subrange(5, be_u16_at(resp, 3) + 1))
    }
}

/// What a firmware response yields: a length byte at offset 4, then that many
/// bytes of UTF-8 text.
pub open spec fn firmware_response_spec(resp: Seq<u8>) -> Result<Seq<char>, GatewayError> {
    if resp.len() < 5 {
        Err(GatewayError::ShortResponse { needed: 5, actual: resp.len() as usize })
    } else if 5 + resp[4] > resp.len() {
        Err(GatewayError::ShortResponse { needed: (5 + resp[4]) as usize, actual: resp.len() as usize })
    } else if !valid_utf8(resp.subrange(5, 5 + resp[4])) {
        Err(GatewayError::InvalidEncoding)
    } else {
        Ok(decode_utf8(resp.subrange(5, 5 + resp[4])))
    }
}

/// The identifier bytes of a station-identifier response.
pub open spec fn station_id_bytes(resp: Seq<u8>) -> Seq<u8> {
    resp.subrange(3, STATION_ID_END as int)
}

/// What a station-identifier response yields: its identifier bytes as
/// upper-case hexadecimal pairs joined by colons.
pub open spec fn station_mac_spec(resp: Seq<u8>) -> Result<Seq<char>, GatewayError> {
    if resp.len() < STATION_ID_END {
        Err(GatewayError::ShortResponse { needed: STATION_ID_END, actual: resp.len() as usize })
    } else {
        Ok(hex_joined(station_id_bytes(resp), ":"@, true))
    }
}

/// A client of one gateway: where it listens, the decoder registry, and the
/// identity strings fetched from it.
#[derive(Debug)]
pub struct SensorGateway {
    endpoint: GatewayEndpoint,
    firmware: Option<String>,
    mac_address: Option<Vec<u8>>,
    sensors: Sensors,
}

impl SensorGateway {
    pub closed spec fn endpoint_spec(&self) -> GatewayEndpoint {
        self.endpoint
    }

    /// The firmware version, once fetched.
    pub closed spec fn firmware_spec(&self) -> Option<Seq<char>> {
        match self.firmware {
            Some(s) => Some(s@),
            None => None,
        }
    }

    /// The station identifier bytes, once fetched.
    pub closed spec fn mac_spec(&self) -> Option<Seq<u8>> {
        match self.mac_address {
            Some(v) => Some(v@),
            None => None,
        }
    }

    /// A client of the gateway at `address:port`, with the default timeouts
    /// and retry policy and no identity fetched yet.
    pub fn new(address: [u8; 4], port: u16) -> (r: SensorGateway)
        ensures
            r.endpoint_spec() == GatewayEndpoint::new_spec(address, port),
            r.firmware_spec() is None,
            r.mac_spec() is None,
    {
        SensorGateway {
            endpoint: GatewayEndpoint::new(address, port),
            firmware: None,
            mac_address: None,
            sensors: Sensors::new(),
        }
    }

    /// Where the gateway listens, and the retry policy.
    pub fn endpoint(&self) -> (r: &GatewayEndpoint)
        ensures
            *r == self.endpoint_spec(),
    {
        &self.endpoint
    }

    /// Whether the firmware version and the station identifier are known.
    pub fn has_identity(&self) -> (r: bool)
        ensures
            r == (self.firmware_spec() is Some && self.mac_spec() is Some),
    {
        self.firmware.is_some() && self.mac_address.is_some()
    }

    /// The gateway's name: its station identifier as lower-case hexadecimal
    /// without separators.
    pub fn name(&self) -> (r: String)
        requires
            self.mac_spec() is Some,
        ensures
            r@ == hex_joined(self.mac_spec()->Some_0, seq![], false),
    {
        match &self.mac_address {
            Some(mac) => {
                proof {
                    reveal_strlit("");
                    assert(""@ =~= Seq::<char>::empty());
                }
                hex_join(mac.as_slice(), "", false)
            },
            None => String::new(),
        }
    }

    /// The model version, taken from the firmware string without colons.
    pub fn version(&self) -> (r: String)
        requires
            self.firmware_spec() is Some,
        ensures
            r@ == without_colons(self.firmware_spec()->Some_0),
    {
        self.firmware()
    }

    /// The firmware string without colons.
    pub fn firmware(&self) -> (r: String)
        requires
            self.firmware_spec() is Some,
        ensures
            r@ == without_colons(self.firmware_spec()->Some_0),
    {
        match &self.firmware {
            Some(f) => remove_colons(f.as_str()),
            None => String::new(),
        }
    }

    /// The request frame for a command.
    pub fn build_cmd_packet(&self, cmd: &GatewayCommands, payload: &[u8]) -> (r: Vec<u8>)
        requires
            payload@.len() <= MAX_PAYLOAD,
        ensures
            r@ == frame_spec(command_code(*cmd), payload@),
    {
        build_request(cmd.code(), payload)
    }

    /// The retry policy for one exchange of `cmd`, not yet started.
    pub fn send_cmd(&self, cmd: &GatewayCommands) -> (r: CommandRetry)
        ensures
            r.wf(),
            r == (CommandRetry {
                command: command_code(*cmd),
                max_tries: self.endpoint_spec().max_tries,
                retry_wait_ms: self.endpoint_spec().retry_wait_ms,
                attempts: 0,
                phase: RetryPhase::Idle,
            }),
    {
        CommandRetry::new(cmd.code(), &self.endpoint)
    }

    /// Reads a sensor-inventory response into records keyed by address.
    pub fn update_sensor_metadata(&self, response: &[u8]) -> (r: Result<
        HashMap<u32, SensorMetadata>,
        GatewayError,
    >)
        ensures
            inventory_view(r) == inventory_spec(response@),
    {
        self.sensors.update_metadata(response)
    }

    /// Reads a live-data response into groups of readings.
    pub fn get_live_data(&self, response: &[u8]) -> (r: Result<Vec<Vec<SensorData>>, GatewayError>)
        ensures
            live_view(r) == live_response_spec(response@),
    {
        self.parse_live_data(response)
    }

    fn parse_live_data(&self, response: &[u8]) -> (r: Result<Vec<Vec<SensorData>>, GatewayError>)
        ensures
            live_view(r) == live_response_spec(response@),
    {
        if response.len() < 5 {
            return Err(GatewayError::ShortResponse { needed: 5, actual: response.len() });
        }
        let payload_size: usize = (response[3] as usize) * 256 + (response[4] as usize);
        if payload_size < 4 {
            return Err(GatewayError::ShortResponse { needed: 4, actual: payload_size });
        }
        if payload_size + 1 > response.len() {
            return Err(
                GatewayError::ShortResponse { needed: payload_size + 1, actual: response.len() },
            );
        }
        self.sensors.parse_live_data(slice_subrange(response, 5, payload_size + 1))
    }

    /// Reads a firmware-version response and keeps the version it holds.
    pub fn get_firmware_version(&mut self, response: &[u8]) -> (r: Result<String, GatewayError>)
        ensures
            match r {
                Ok(s) => firmware_response_spec(response@) == Ok::<Seq<char>, GatewayError>(s@),
                Err(e) => firmware_response_spec(response@) == Err::<Seq<char>, GatewayError>(e),
            },
            final(self).firmware_spec() == match r {
                Ok(s) => Some(s@),
                Err(_) => old(self).firmware_spec(),
            },
            final(self).mac_spec() == old(self).mac_spec(),
            final(self).endpoint_spec() == old(self).endpoint_spec(),
    {
        if response.len() < 5 {
            return Err(GatewayError::ShortResponse { needed: 5, actual: response.len() });
        }
        let fw_size = response[4] as usize;
        if 5 + fw_size > response.len() {
            return Err(GatewayError::ShortResponse { needed: 5 + fw_size, actual: response.len() });
        }
        let fw_bytes = slice_to_vec(slice_subrange(response, 5, 5 + fw_size));
        match string_from_utf8(fw_bytes) {
            Some(s) => {
                self.firmware = Some(s.clone());
                Ok(s)
            },
            None => Err(GatewayError::InvalidEncoding),
        }
    }

    /// Reads a station-identifier response and keeps the identifier it holds;
    /// returns it as upper-case hexadecimal pairs joined by colons.
    pub fn get_station_mac(&mut self, response: &[u8]) -> (r: Result<String, GatewayError>)
        ensures
            match r {
                Ok(s) => station_mac_spec(response@) == Ok::<Seq<char>, GatewayError>(s@),
                Err(e) => station_mac_spec(response@) == Err::<Seq<char>, GatewayError>(e),
            },
            final(self).mac_spec() == match r {
                Ok(_) => Some(station_id_bytes(response@)),
                Err(_) => old(self).mac_spec(),
            },
            final(self).firmware_spec() == old(self).firmware_spec(),
            final(self).endpoint_spec() == old(self).endpoint_spec(),
    {
        if response.len() < STATION_ID_END {
            return Err(
                GatewayError::ShortResponse { needed: STATION_ID_END, actual: response.len() },
            );
        }
        let id = slice_subrange(response, 3, STATION_ID_END);
        proof {
            reveal_strlit(":");
        }
        let mac = bytes_to_hex(id, ":");
        self.mac_address = Some(slice_to_vec(id));
        Ok(mac)
    }
}

} // verus!
