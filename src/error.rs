//! What can end a session early.
use vstd::prelude::*;

verus! {

/// Why a session ended without sending its command.
#[derive(Debug, Clone, Copy, PartialEq, Eq, Structural)]
pub enum SessionError {
    /// The host stack listed no adapter.
    AdapterUnavailable,
    /// The adapter refused to start scanning.
    ScanStartFailed,
    /// Service discovery finished without the TX characteristic.
    CharacteristicNotFound,
    /// Connect, discovery, write or disconnect failed on the link.
    TransportError,
}

/// The text that describes error `e`.
pub open spec fn message_of(e: SessionError) -> Seq<char> {
    match e {
        SessionError::AdapterUnavailable => "no BLE adapter available"@,
        SessionError::ScanStartFailed => "can't start scanning on the BLE adapter"@,
        SessionError::CharacteristicNotFound => "could not find TX characteristic"@,
        SessionError::TransportError => "BLE transport error"@,
    }
}

impl SessionError {
    /// A short description of the failed stage.
    pub fn message(&self) -> (r: String)
        ensures
            r@ == message_of(*self),
            r@.len() > 0,
    {
        let s = match self {
            SessionError::AdapterUnavailable => "no BLE adapter available",
            SessionError::ScanStartFailed => "can't start scanning on the BLE adapter",
            SessionError::CharacteristicNotFound => "could not find TX characteristic",
            SessionError::TransportError => "BLE transport error",
        };
        proof {
            reveal_strlit("no BLE adapter available");
            reveal_strlit("can't start scanning on the BLE adapter");
            reveal_strlit("could not find TX characteristic");
            reveal_strlit("BLE transport error");
        }
        String::from_str(s)
    }
}

} // verus!
