use vstd::prelude::*;

verus! {

/// The I/O error that a transport's socket operations report. It is carried
/// unchanged inside [`ProtocolError::Io`]; nothing here looks inside it.
#[verifier::external_type_specification]
#[verifier::external_body]
pub struct ExIoError(std::io::Error);

/// Every failure that a frame operation or a transport can report.
///
/// Messages of the encode and decode variants are the human-readable text that
/// the library composes; `Transport` carries the text of a device-level error.
#[derive(Debug)]
pub enum ProtocolError {
    Io(std::io::Error),
    EncodeError(String),
    DecodeError(String),
    ConnectTimeout,
    Timeout,
    CloseTimeout,
    NotConnected,
    DeviceNotFound,
    EndpointNotFound,
    Transport(String),
}

} // verus!
