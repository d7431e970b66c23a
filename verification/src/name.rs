//! Domain names: the zone that is updated and the host whose records change.

use crate::error::{NameRole, UpdateError};
use hickory_proto::rr::Name;
use hickory_proto::ProtoError;
use std::str::FromStr;
use vstd::prelude::*;

verus! {

/// A domain name of the DNS library. Nothing of its inside is visible here.
#[verifier::external_type_specification]
#[verifier::external_body]
pub struct ExName(Name);

/// The error of the DNS library. Nothing of its inside is visible here.
#[verifier::external_type_specification]
#[verifier::external_body]
pub struct ExProtoError(ProtoError);

/// What a name holds: its labels in presentation form, joined by dots.
pub uninterp spec fn name_text(name: Name) -> Seq<char>;

/// The text of the name that `text` parses to, `None` where `text` is no domain name.
pub uninterp spec fn parsed_name(text: Seq<char>) -> Option<Seq<char>>;

/// Calls `Name::from_str`. The parser reads nothing but `text`, so its outcome
/// is a function of `text`: the contract gives that function a name and
/// claims nothing more of it.
#[verifier::external_body]
fn name_from_text(text: &str) -> (res: Result<Name, ProtoError>)
    ensures
        match res {
            Ok(name) => parsed_name(text@) == Some(name_text(name)),
            Err(_) => parsed_name(text@) is None,
        },
{
    Name::from_str(text)
}

/// Reads `text` as the domain name that plays `role` in the update.
pub fn parse_name(text: &str, role: NameRole) -> (res: Result<Name, UpdateError>)
    ensures
        match res {
            Ok(name) => parsed_name(text@) == Some(name_text(name)),
            Err(error) => parsed_name(text@) is None && error == UpdateError::InvalidName(role),
        },
{
    match name_from_text(text) {
        Ok(name) => Ok(name),
        Err(_) => Err(UpdateError::InvalidName(role)),
    }
}

} // verus!
