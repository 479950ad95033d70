//! Why a negotiation failed.

use vstd::prelude::*;

verus! {

/// The ways a negotiation can fail. Every failure reaches the caller as one
/// of these; none is swallowed.
#[derive(Debug, Clone, Copy, PartialEq, Eq, Structural)]
pub enum LoginError {
    /// Server and client share no login method.
    NoCompatibleMethod,
    /// The caller selected a choice that was not offered.
    InvalidSelection,
    /// The server declined the submitted credential.
    Rejected,
    /// The transport failed during the exchange.
    Network,
}

impl LoginError {
    /// A failure the caller can answer by negotiating again: with new
    /// credentials after a rejection, or once the transport is back.
    pub open spec fn recoverable(self) -> bool {
        self is Rejected || self is Network
    }

    /// A failure that shows a fault in the calling code rather than in the
    /// user's input or in the network.
    pub open spec fn integration_fault(self) -> bool {
        self is InvalidSelection
    }

    /// The text that describes this failure.
    pub open spec fn message_text(self) -> Seq<char> {
        match self {
            LoginError::NoCompatibleMethod => "Homeserver login types incompatible with this client"@,
            LoginError::InvalidSelection => "Selected login choice was not offered"@,
            LoginError::Rejected => "Homeserver rejected the credentials"@,
            LoginError::Network => "Network failure during login"@,
        }
    }

    /// Whether negotiating again can succeed.
    pub fn is_recoverable(&self) -> (yes: bool)
        ensures
            yes == self.recoverable(),
    {
        match self {
            LoginError::Rejected => true,
            LoginError::Network => true,
            LoginError::NoCompatibleMethod => false,
            LoginError::InvalidSelection => false,
        }
    }

    /// Whether the failure points at the calling code.
    pub fn is_integration_fault(&self) -> (yes: bool)
        ensures
            yes == self.integration_fault(),
    {
        match self {
            LoginError::InvalidSelection => true,
            LoginError::NoCompatibleMethod => false,
            LoginError::Rejected => false,
            LoginError::Network => false,
        }
    }

    /// A sentence for the user or the log.
    pub fn message(&self) -> (text: String)
        ensures
            text@ == self.message_text(),
    {
        match self {
            LoginError::NoCompatibleMethod => {
                "Homeserver login types incompatible with this client".to_owned()
            },
            LoginError::InvalidSelection => "Selected login choice was not offered".to_owned(),
            LoginError::Rejected => "Homeserver rejected the credentials".to_owned(),
            LoginError::Network => "Network failure during login".to_owned(),
        }
    }
}

} // verus!
