//! The library's error type.

use vstd::prelude::*;

use crate::text::concat2;

verus! {

/// Every failure the client-side logic reports. `Http` carries the text of a transport failure
/// reported by the network layer.
#[derive(Debug)]
pub enum CoreError {
    Hex(String),
    Key(String),
    CiphertextTooShort,
    Decrypt,
    Attestation(String),
    Relay(String),
    Provider(String),
    Http(String),
    Config(String),
}

/// The display text of an error.
pub open spec fn error_text(e: CoreError) -> Seq<char> {
    match e {
        CoreError::Hex(m) => "invalid hex: "@ + m@,
        CoreError::Key(m) => "invalid key: "@ + m@,
        CoreError::CiphertextTooShort => "ciphertext too short"@,
        CoreError::Decrypt => "decryption failed"@,
        CoreError::Attestation(m) => "attestation failed: "@ + m@,
        CoreError::Relay(m) => "relay error: "@ + m@,
        CoreError::Provider(m) => "provider error: "@ + m@,
        CoreError::Http(m) => "http error: "@ + m@,
        CoreError::Config(m) => "config error: "@ + m@,
    }
}

impl CoreError {
    /// The display text of this error.
    pub fn message(&self) -> (r: String)
        ensures
            r@ == error_text(*self),
    {
        match self {
            CoreError::Hex(m) => concat2("invalid hex: ", m.as_str()),
            CoreError::Key(m) => concat2("invalid key: ", m.as_str()),
            CoreError::CiphertextTooShort => String::from_str("ciphertext too short"),
            CoreError::Decrypt => String::from_str("decryption failed"),
            CoreError::Attestation(m) => concat2("attestation failed: ", m.as_str()),
            CoreError::Relay(m) => concat2("relay error: ", m.as_str()),
            CoreError::Provider(m) => concat2("provider error: ", m.as_str()),
            CoreError::Http(m) => concat2("http error: ", m.as_str()),
            CoreError::Config(m) => concat2("config error: ", m.as_str()),
        }
    }
}

} // verus!
