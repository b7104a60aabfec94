//! Charging-station side of an OCPP 2.0 client: the wire envelope, the
//! outbound message builders, the station's stores and the session state
//! machine that drives them.

pub mod wire;
pub mod clock;
pub mod ids;
pub mod requests;
pub mod components;
pub mod responses;
pub mod storage;
pub mod client;
pub mod messages;
