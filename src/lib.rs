//! A client-side Modbus protocol stack: a fixed-capacity PDU buffer, the typed
//! request/response model, RTU framing with CRC-16, the serial-line
//! receiver's inter-character timing state machine, and a client that
//! pairs requests with responses over a transport.

pub mod error;
pub mod frame;
pub mod code;
pub mod types;
pub mod model;
pub mod transport;
pub mod client;
