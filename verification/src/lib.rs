//! Framing, configuration and connection decisions of a small request/response
//! device protocol that runs over TCP or USB bulk endpoints.

pub mod decimal;
pub mod error;
pub mod frame;
pub mod timespan;
pub mod config;
pub mod tcp;
pub mod link;
pub mod usb;

pub use config::TransportConfig;
pub use error::ProtocolError;
pub use frame::{RequestFrame, ResponseFrame, MAX_PAYLOAD_SIZE};
pub use tcp::TcpConfig;
pub use usb::UsbConfig;
