use vstd::prelude::*;

verus! {

/// Every way a gateway operation can fail.
#[allow(inconsistent_fields)]
#[derive(Debug, Clone, Copy, PartialEq, Eq, Structural)]
pub enum GatewayError {
    /// The connection was refused, reset or could not be opened.
    ConnectionError,
    /// A connect, read or write did not finish in time.
    Timeout,
    /// The response echoes another command than the one sent.
    ProtocolMismatch { expected: u8, actual: u8 },
    /// The response checksum does not match its bytes.
    ChecksumMismatch { expected: u8, actual: u8 },
    /// The response holds fewer bytes than a declared field needs.
    ShortResponse { needed: usize, actual: usize },
    /// A live-data record carries a type id that the registry does not know.
    UnknownSensorType { id: u8 },
    /// A record's payload does not have the length its decoder takes.
    DecodeLength { expected: usize, actual: usize },
    /// The firmware string is not valid UTF-8.
    InvalidEncoding,
    /// Every attempt of a command failed.
    TransportExhausted { command: u8, attempts: u32 },
}

} // verus!
