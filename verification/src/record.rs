//! The records that an update carries, as plain values.

use crate::address::{AddressFamily, IpAddress};
use vstd::prelude::*;

verus! {

/// The time to live, in seconds, of every record that an update adds.
pub const RECORD_TTL: u32 = 300;

/// The record types that an update speaks of.
#[derive(Clone, Copy, Debug, PartialEq, Eq)]
pub enum RecordType {
    /// An IPv4 address.
    A,
    /// An IPv6 address.
    AAAA,
    /// Start of authority: the type under which a zone is named.
    SOA,
}

/// The record classes that an update speaks of.
#[derive(Clone, Copy, Debug, PartialEq, Eq)]
pub enum DnsClass {
    /// The Internet class, under which records are added.
    IN,
    /// Any class: on a record without data, "delete the whole RRset".
    ANY,
}

/// The operation that a message asks for.
#[derive(Clone, Copy, Debug, PartialEq, Eq)]
pub enum OpCode {
    Query,
    Update,
}

/// What a record of the update section holds as data.
#[derive(Clone, Copy, Debug, PartialEq, Eq)]
pub enum RecordData {
    /// No data at all; the record only names a type.
    Empty(RecordType),
    /// An address, whose family gives the record's type.
    Address(IpAddress),
}

/// One step of an update.
#[derive(Clone, Copy, Debug, PartialEq, Eq)]
pub enum UpdateInstruction {
    /// Remove every record of this type from the host, whatever it holds.
    DeleteRrset { record_type: RecordType },
    /// Install this address for the host.
    AddRecord { address: IpAddress },
}

/// A record of the update section as it goes on the wire, field by field.
pub struct UpdateRecord {
    pub owner: Seq<char>,
    pub class: DnsClass,
    pub ttl: u32,
    pub data: RecordData,
}

/// The entry of the zone section, field by field.
pub struct ZoneEntry {
    pub zone: Seq<char>,
    pub record_type: RecordType,
    pub class: DnsClass,
}

/// The type of record that holds an address of `family`.
pub open spec fn spec_record_type_for(family: AddressFamily) -> RecordType {
    match family {
        AddressFamily::V4 => RecordType::A,
        AddressFamily::V6 => RecordType::AAAA,
    }
}

/// The type of record that holds an address of `family`.
#[verifier::when_used_as_spec(spec_record_type_for)]
pub fn record_type_for(family: AddressFamily) -> (record_type: RecordType)
    ensures
        record_type == spec_record_type_for(family),
{
    match family {
        AddressFamily::V4 => RecordType::A,
        AddressFamily::V6 => RecordType::AAAA,
    }
}

impl RecordData {
    /// The type of a record with this data.
    pub open spec fn spec_record_type(self) -> RecordType {
        match self {
            RecordData::Empty(record_type) => record_type,
            RecordData::Address(address) => spec_record_type_for(address.spec_family()),
        }
    }

    /// The type of a record with this data.
    #[verifier::when_used_as_spec(spec_record_type)]
    pub fn record_type(self) -> (record_type: RecordType)
        ensures
            record_type == self.spec_record_type(),
    {
        match self {
            RecordData::Empty(record_type) => record_type,
            RecordData::Address(address) => record_type_for(address.family()),
        }
    }
}

impl UpdateInstruction {
    /// The instruction that clears the way for `address`: it deletes the
    /// records of the type that holds the address.
    pub open spec fn deletion_for(address: IpAddress) -> UpdateInstruction {
        UpdateInstruction::DeleteRrset { record_type: spec_record_type_for(address.spec_family()) }
    }

    /// The instruction that installs `address`.
    pub open spec fn addition_of(address: IpAddress) -> UpdateInstruction {
        UpdateInstruction::AddRecord { address }
    }

    /// The class under which the instruction goes on the wire: `ANY` deletes, `IN` adds.
    pub open spec fn spec_class(self) -> DnsClass {
        match self {
            UpdateInstruction::DeleteRrset { .. } => DnsClass::ANY,
            UpdateInstruction::AddRecord { .. } => DnsClass::IN,
        }
    }

    /// The time to live of the instruction's record: zero for a deletion.
    pub open spec fn spec_ttl(self) -> u32 {
        match self {
            UpdateInstruction::DeleteRrset { .. } => 0,
            UpdateInstruction::AddRecord { .. } => RECORD_TTL,
        }
    }

    /// The data of the instruction's record: none for a deletion.
    pub open spec fn spec_data(self) -> RecordData {
        match self {
            UpdateInstruction::DeleteRrset { record_type } => RecordData::Empty(record_type),
            UpdateInstruction::AddRecord { address } => RecordData::Address(address),
        }
    }

    /// The type of record that the instruction deletes or adds.
    pub open spec fn spec_record_type(self) -> RecordType {
        self.spec_data().spec_record_type()
    }

    /// The record that carries the instruction for `owner`.
    pub open spec fn record(self, owner: Seq<char>) -> UpdateRecord {
        UpdateRecord { owner, class: self.spec_class(), ttl: self.spec_ttl(), data: self.spec_data() }
    }

    /// The class under which the instruction goes on the wire: `ANY` deletes, `IN` adds.
    #[verifier::when_used_as_spec(spec_class)]
    pub fn class(self) -> (class: DnsClass)
        ensures
            class == self.spec_class(),
    {
        match self {
            UpdateInstruction::DeleteRrset { .. } => DnsClass::ANY,
            UpdateInstruction::AddRecord { .. } => DnsClass::IN,
        }
    }

    /// The time to live of the instruction's record: zero for a deletion.
    #[verifier::when_used_as_spec(spec_ttl)]
    pub fn ttl(self) -> (ttl: u32)
        ensures
            ttl == self.spec_ttl(),
    {
        match self {
            UpdateInstruction::DeleteRrset { .. } => 0,
            UpdateInstruction::AddRecord { .. } => RECORD_TTL,
        }
    }

    /// The data of the instruction's record: none for a deletion.
    #[verifier::when_used_as_spec(spec_data)]
    pub fn data(self) -> (data: RecordData)
        ensures
            data == self.spec_data(),
    {
        match self {
            UpdateInstruction::DeleteRrset { record_type } => RecordData::Empty(record_type),
            UpdateInstruction::AddRecord { address } => RecordData::Address(address),
        }
    }

    /// The type of record that the instruction deletes or adds.
    #[verifier::when_used_as_spec(spec_record_type)]
    pub fn record_type(self) -> (record_type: RecordType)
        ensures
            record_type == self.spec_record_type(),
    {
        self.data().record_type()
    }
}

} // verus!
