use vstd::prelude::*;

use vstd::slice::slice_subrange;

use crate::error::GatewayError;

verus! {

/// The two bytes that open every frame.
pub const HEADER_BYTE: u8 = 0xFF;

/// The largest payload a frame can carry: the size byte counts three more.
pub const MAX_PAYLOAD: usize = 252;

/// The commands this client sends.
#[derive(Debug, Clone, Copy, PartialEq, Eq, Structural)]
pub enum GatewayCommands {
    ReadStationMac,
    LiveData,
    ReadSensorIdNew,
    ReadFirmwareVersion,
}

pub open spec fn command_code(c: GatewayCommands) -> u8 {
    match c {
        GatewayCommands::ReadStationMac => 0x26,
        GatewayCommands::LiveData => 0x27,
        GatewayCommands::ReadSensorIdNew => 0x3C,
        GatewayCommands::ReadFirmwareVersion => 0x50,
    }
}

impl GatewayCommands {
    /// The command byte sent on the wire.
    pub fn code(&self) -> (r: u8)
        ensures
            r == command_code(*self),
    {
        match self {
            GatewayCommands::ReadStationMac => 0x26,
            GatewayCommands::LiveData => 0x27,
            GatewayCommands::ReadSensorIdNew => 0x3C,
            GatewayCommands::ReadFirmwareVersion => 0x50,
        }
    }
}

/// Plain sum of a byte sequence.
pub open spec fn sum_bytes(s: Seq<u8>) -> int
    decreases s.len(),
{
    if s.len() == 0 {
        0
    } else {
        sum_bytes(s.drop_last()) + s.last() as int
    }
}

/// Wrapping (mod 256) sum of a byte sequence.
pub open spec fn checksum_of(s: Seq<u8>) -> u8 {
    (sum_bytes(s) % 256) as u8
}

/// Command byte, size byte and payload: the bytes the checksum covers.
pub open spec fn frame_body(cmd: u8, payload: Seq<u8>) -> Seq<u8> {
    seq![cmd, (payload.len() + 3) as u8] + payload
}

/// A complete request frame.
pub open spec fn frame_spec(cmd: u8, payload: Seq<u8>) -> Seq<u8> {
    seq![HEADER_BYTE, HEADER_BYTE] + frame_body(cmd, payload) + seq![
        checksum_of(frame_body(cmd, payload)),
    ]
}

/// What validating a response against a command yields.
pub open spec fn validate_spec(r: Seq<u8>, cmd: u8) -> Result<(), GatewayError> {
    if r.len() < 3 {
        Err(GatewayError::ShortResponse { needed: 3, actual: r.len() as usize })
    } else if r[2] != cmd {
        Err(GatewayError::ProtocolMismatch { expected: cmd, actual: r[2] })
    } else if checksum_of(r.subrange(2, r.len() - 1)) != r.last() {
        Err(
            GatewayError::ChecksumMismatch {
                expected: checksum_of(r.subrange(2, r.len() - 1)),
                actual: r.last(),
            },
        )
    } else {
        Ok(())
    }
}

/// Checksum of a frame body: the wrapping sum of its bytes.
pub fn generate_checksum(data: &[u8]) -> (r: u8)
    ensures
        r == checksum_of(data@),
{
    let mut checksum: u8 = 0;
    let mut i: usize = 0;
    while i < data.len()
        invariant
            i <= data@.len(),
            checksum == checksum_of(data@.take(i as int)),
        decreases data@.len() - i,
    {
        assert(data@.take(i as int + 1).drop_last() == data@.take(i as int));
        checksum = checksum.wrapping_add(data[i]);
        i += 1;
    }
    assert(data@.take(data@.len() as int) == data@);
    checksum
}

/// Builds the request frame for a command code and its payload.
pub fn build_request(cmd: u8, payload: &[u8]) -> (r: Vec<u8>)
    requires
        payload@.len() <= MAX_PAYLOAD,
    ensures
        r@ == frame_spec(cmd, payload@),
{
    let size: u8 = payload.len() as u8 + 3;
    let mut body: Vec<u8> = Vec::new();
    body.push(cmd);
    body.push(size);
    let mut i: usize = 0;
    while i < payload.len()
        invariant
            i <= payload@.len(),
            body@ == seq![cmd, size] + payload@.take(i as int),
        decreases payload@.len() - i,
    {
        body.push(payload[i]);
        i += 1;
        assert(body@ == seq![cmd, size] + payload@.take(i as int));
    }
    assert(payload@.take(payload@.len() as int) == payload@);
    let checksum = generate_checksum(body.as_slice());
    let mut packet: Vec<u8> = Vec::new();
    packet.push(HEADER_BYTE);
    packet.push(HEADER_BYTE);
    packet.append(&mut body);
    packet.push(checksum);
    packet
}

/// Checks that a response echoes `command` and that its checksum is right.
pub fn validate_response(response: &[u8], command: u8) -> (r: Result<(), GatewayError>)
    ensures
        r == validate_spec(response@, command),
{
    if response.len() < 3 {
        return Err(GatewayError::ShortResponse { needed: 3, actual: response.len() });
    }
    if response[2] != command {
        return Err(GatewayError::ProtocolMismatch { expected: command, actual: response[2] });
    }
    let last = response.len() - 1;
    let body = slice_subrange(response, 2, last);
    let checksum = generate_checksum(body);
    let resp_checksum = response[last];
    if checksum != resp_checksum {
        Err(GatewayError::ChecksumMismatch { expected: checksum, actual: resp_checksum })
    } else {
        Ok(())
    }
}

proof fn lemma_sum_update(s: Seq<u8>, j: int, v: u8)
    requires
        0 <= j < s.len(),
    ensures
        sum_bytes(s.update(j, v)) == sum_bytes(s) - s[j] + v,
    decreases s.len(),
{
    let t = s.update(j, v);
    if j == s.len() - 1 {
        assert(t.drop_last() == s.drop_last());
    } else {
        lemma_sum_update(s.drop_last(), j, v);
        assert(t.drop_last() == s.drop_last().update(j, v));
    }
}

/// A frame built for any payload that fits validates against its own command.
pub proof fn lemma_build_then_validate(cmd: u8, payload: Seq<u8>)
    requires
        payload.len() <= MAX_PAYLOAD,
    ensures
        validate_spec(frame_spec(cmd, payload), cmd) == Ok::<(), GatewayError>(()),
{
    let f = frame_spec(cmd, payload);
    let body = frame_body(cmd, payload);
    assert(f.subrange(2, f.len() - 1) == body);
}

/// Changing any one payload or checksum byte of a built frame makes validation
/// fail on the checksum.
pub proof fn lemma_flipped_byte_fails(cmd: u8, payload: Seq<u8>, i: int, v: u8)
    requires
        payload.len() <= MAX_PAYLOAD,
        4 <= i < frame_spec(cmd, payload).len(),
        v != frame_spec(cmd, payload)[i],
    ensures
        validate_spec(frame_spec(cmd, payload).update(i, v), cmd) is Err,
        validate_spec(frame_spec(cmd, payload).update(i, v), cmd)->Err_0 is ChecksumMismatch,
{
    let f = frame_spec(cmd, payload);
    let body = frame_body(cmd, payload);
    let g = f.update(i, v);
    assert(f.subrange(2, f.len() - 1) == body);
    if i < f.len() - 1 {
        let nb = body.update(i - 2, v);
        assert(g.subrange(2, g.len() - 1) == nb);
        lemma_sum_update(body, i - 2, v);
        assert(g.last() == f.last());
        let a = body[i - 2] as int;
        let s = sum_bytes(body);
        assert(checksum_of(nb) != checksum_of(body)) by {
            assert(sum_bytes(nb) == s - a + v);
            assert((s - a + v) % 256 != s % 256) by (nonlinear_arith)
                requires
                    0 <= a < 256,
                    0 <= v < 256,
                    a != v,
            ;
        }
    } else {
        assert(g.subrange(2, g.len() - 1) == body);
    }
}

} // verus!
