//! What can go wrong in a run, and in which phase.

use crate::address::AddressError;
use vstd::prelude::*;

verus! {

/// The part that a domain name plays in an update.
#[derive(Clone, Copy, Debug, PartialEq, Eq)]
pub enum NameRole {
    Zone,
    Host,
}

/// Why key material gave no signing identity.
#[derive(Clone, Copy, Debug, PartialEq, Eq)]
pub enum KeyError {
    /// The bytes hold no PEM section with a private key.
    PemParse,
    /// The private key is no RSA key that can sign with SHA-256.
    KeyConstruction,
    /// The public key could not be derived from the private key.
    PublicKeyDerivation,
}

/// The response code of an accepted request.
pub const NO_ERROR: u16 = 0;

/// The response code of a server that refuses the request for policy reasons.
pub const REFUSED: u16 = 5;

/// The response code for an RRset that exists when it should not.
pub const YXRRSET: u16 = 7;

/// The response code of a server that is not authoritative for the zone.
pub const NOT_AUTH: u16 = 9;

/// The numeric response code of a DNS answer.
#[derive(Clone, Copy, Debug, PartialEq, Eq)]
pub struct ResponseCode {
    pub value: u16,
}

impl ResponseCode {
    /// Whether the code reports that the request was accepted.
    pub open spec fn spec_is_no_error(self) -> bool {
        self.value == NO_ERROR
    }

    /// Whether the code reports that the request was accepted.
    #[verifier::when_used_as_spec(spec_is_no_error)]
    pub fn is_no_error(self) -> (accepted: bool)
        ensures
            accepted == self.spec_is_no_error(),
    {
        self.value == NO_ERROR
    }
}

/// Every failure of a run. Each one ends the run: nothing is retried.
#[derive(Debug, PartialEq, Eq)]
pub enum UpdateError {
    /// The zone or the host is no syntactically valid domain name.
    InvalidName(NameRole),
    /// No address set could be produced.
    AddressSelection(AddressError),
    /// The key material gave no signing identity.
    SigningIdentityInvalid(KeyError),
    /// The connection to the server was refused or timed out.
    ConnectionFailed(String),
    /// The transport failed while the answer was awaited.
    TransportFailure(String),
    /// The server answered with a code other than `NoError`.
    ServerRejected(ResponseCode),
    /// The answer was malformed or never came.
    ProtocolFailure(String),
}

} // verus!
