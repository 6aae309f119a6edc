//! A client for the binary TCP protocol of weather-station gateways, and a
//! decoder of their sensor telemetry.
//!
//! The library frames requests and validates responses (`frame`), decides the
//! retry policy of each exchange (`transport`), decodes live-data records
//! through a registry of per-kind decoders (`values`, `registry`), reads the
//! sensor inventory and classifies battery states (`metadata`), projects
//! readings to publishable scalars (`projection`), and reads the identity and
//! telemetry responses of one gateway (`client`). The network, the clock and
//! the message bus are left to the caller.

pub mod client;
pub mod discovery;
pub mod error;
pub mod frame;
pub mod metadata;
pub mod projection;
pub mod registry;
pub mod text;
pub mod transport;
pub mod values;
