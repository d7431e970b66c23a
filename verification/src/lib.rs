//! Authenticated dynamic DNS updates: choosing the addresses to publish,
//! building the UPDATE message that replaces a host's address records,
//! preparing the SIG(0) signing identity and interpreting the server's answer.

pub mod address;
pub mod error;
pub mod identity;
pub mod key_validator;
pub mod message;
pub mod name;
pub mod record;
pub mod rrset;
pub mod transaction;
pub mod transport;
pub mod workflow;
