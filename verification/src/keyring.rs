//! What the API key store makes of the OS keyring's answers. The key is never written anywhere
//! else: a keyring that is unavailable is reported, not worked around.

use vstd::prelude::*;

use crate::text::concat2;

verus! {

pub const SERVICE: &'static str = "axiom-proxy";

pub const ACCOUNT: &'static str = "api-key";

/// A failed keyring operation, with the keyring's own description of it.
#[derive(Debug)]
pub enum KeyringFailure {
    /// The keyring entry could not be opened.
    Unavailable(String),
    /// There is no stored credential.
    NoEntry(String),
    /// Any other failure of the operation.
    Other(String),
}

pub open spec fn unavailable_text(e: Seq<char>) -> Seq<char> {
    "keyring unavailable: "@ + e
}

/// The stored key: present, absent, or the failure to read it.
pub fn load(reply: Result<String, KeyringFailure>) -> (r: Result<Option<String>, String>)
    ensures
        match reply {
            Ok(secret) => r matches Ok(Some(s)) && s@ == secret@,
            Err(KeyringFailure::NoEntry(_)) => r matches Ok(None),
            Err(KeyringFailure::Unavailable(e)) => r matches Err(m) && m@ == unavailable_text(e@),
            Err(KeyringFailure::Other(e)) => r matches Err(m) && m@ == "keyring read failed: "@
                + e@,
        },
{
    match reply {
        Ok(secret) => Ok(Some(secret)),
        Err(KeyringFailure::NoEntry(_)) => Ok(None),
        Err(KeyringFailure::Unavailable(e)) => Err(concat2("keyring unavailable: ", e.as_str())),
        Err(KeyringFailure::Other(e)) => Err(concat2("keyring read failed: ", e.as_str())),
    }
}

/// The outcome of storing the key: every failure to write is reported.
pub fn store(reply: Result<(), KeyringFailure>) -> (r: Result<(), String>)
    ensures
        match reply {
            Ok(()) => r is Ok,
            Err(KeyringFailure::Unavailable(e)) => r matches Err(m) && m@ == unavailable_text(e@),
            Err(KeyringFailure::NoEntry(e)) => r matches Err(m) && m@ == "keyring write failed: "@
                + e@,
            Err(KeyringFailure::Other(e)) => r matches Err(m) && m@ == "keyring write failed: "@
                + e@,
        },
{
    match reply {
        Ok(()) => Ok(()),
        Err(KeyringFailure::Unavailable(e)) => Err(concat2("keyring unavailable: ", e.as_str())),
        Err(KeyringFailure::NoEntry(e)) => Err(concat2("keyring write failed: ", e.as_str())),
        Err(KeyringFailure::Other(e)) => Err(concat2("keyring write failed: ", e.as_str())),
    }
}

/// The outcome of deleting the key: an absent key is already cleared.
pub fn clear(reply: Result<(), KeyringFailure>) -> (r: Result<(), String>)
    ensures
        match reply {
            Ok(()) => r is Ok,
            Err(KeyringFailure::NoEntry(_)) => r is Ok,
            Err(KeyringFailure::Unavailable(e)) => r matches Err(m) && m@ == unavailable_text(e@),
            Err(KeyringFailure::Other(e)) => r matches Err(m) && m@ == "keyring delete failed: "@
                + e@,
        },
{
    match reply {
        Ok(()) => Ok(()),
        Err(KeyringFailure::NoEntry(_)) => Ok(()),
        Err(KeyringFailure::Unavailable(e)) => Err(concat2("keyring unavailable: ", e.as_str())),
        Err(KeyringFailure::Other(e)) => Err(concat2("keyring delete failed: ", e.as_str())),
    }
}

} // verus!
