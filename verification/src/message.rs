//! The update as a message of the DNS library, ready for the transport.

use crate::address::{AddressSet, IpAddress};
use crate::error::{NameRole, UpdateError};
use crate::name::{name_text, parse_name, parsed_name};
use crate::record::{DnsClass, OpCode, RecordData, RecordType, UpdateRecord, ZoneEntry};
use crate::transaction::{build_transaction, transaction_for, TransactionView, UpdateTransaction};
use hickory_proto::op::OpCode as WireOpCode;
use hickory_proto::op::{Message, Query, UpdateMessage};
use hickory_proto::rr::rdata::{A, AAAA};
use hickory_proto::rr::DNSClass as WireClass;
use hickory_proto::rr::RecordType as WireType;
use hickory_proto::rr::{Name, RData, Record};
use vstd::prelude::*;

verus! {

/// A message of the DNS library. Nothing of its inside is visible here; the
/// functions below name what the contracts say of it.
#[verifier::external_type_specification]
#[verifier::external_body]
pub struct ExMessage(Message);

/// The identifier in the header of a message.
pub uninterp spec fn message_id(message: Message) -> u16;

/// The operation in the header of a message.
pub uninterp spec fn message_op_code(message: Message) -> OpCode;

/// What the zone section of a message holds, in order.
pub uninterp spec fn message_zones(message: Message) -> Seq<ZoneEntry>;

/// What the update section of a message holds, in order.
pub uninterp spec fn message_updates(message: Message) -> Seq<UpdateRecord>;

/// What the prerequisite section of a message holds, in order.
pub uninterp spec fn message_prerequisites(message: Message) -> Seq<UpdateRecord>;

/// What the additional section of a message holds, in order.
pub uninterp spec fn message_additionals(message: Message) -> Seq<UpdateRecord>;

/// Whether two messages hold the same prerequisites and the same additional records.
pub open spec fn same_side_sections(before: Message, after: Message) -> bool {
    &&& message_prerequisites(after) == message_prerequisites(before)
    &&& message_additionals(after) == message_additionals(before)
}

/// `Name::clone` gives a name with the same labels.
pub assume_specification[ <Name as Clone>::clone ](name: &Name) -> (copy: Name)
    ensures
        name_text(copy) == name_text(*name),
;

/// Calls `Message::new`, which leaves every section empty.
#[verifier::external_body]
fn empty_message() -> (message: Message)
    ensures
        message_zones(message) == Seq::<ZoneEntry>::empty(),
        message_updates(message) == Seq::<UpdateRecord>::empty(),
        message_prerequisites(message) == Seq::<UpdateRecord>::empty(),
        message_additionals(message) == Seq::<UpdateRecord>::empty(),
{
    Message::new()
}

/// Calls `Message::set_op_code`, which writes the operation into the header
/// and touches nothing else.
#[verifier::external_body]
fn set_op_code(message: &mut Message, op_code: OpCode)
    ensures
        message_op_code(*final(message)) == op_code,
        message_id(*final(message)) == message_id(*old(message)),
        message_zones(*final(message)) == message_zones(*old(message)),
        message_updates(*final(message)) == message_updates(*old(message)),
        same_side_sections(*old(message), *final(message)),
{
    let wire_op_code = match op_code {
        OpCode::Query => WireOpCode::Query,
        OpCode::Update => WireOpCode::Update,
    };
    message.set_op_code(wire_op_code);
}

/// Calls `Message::set_id`, which writes the identifier into the header and
/// touches nothing else.
#[verifier::external_body]
fn set_id(message: &mut Message, id: u16)
    ensures
        message_id(*final(message)) == id,
        message_op_code(*final(message)) == message_op_code(*old(message)),
        message_zones(*final(message)) == message_zones(*old(message)),
        message_updates(*final(message)) == message_updates(*old(message)),
        same_side_sections(*old(message), *final(message)),
{
    message.set_id(id);
}

/// Calls `UpdateMessage::add_zone` with the query that `Query::query` makes
/// of the name and the type, under class IN. The entry goes to the end of the
/// zone section; nothing else changes.
#[verifier::external_body]
fn add_zone(message: &mut Message, zone: &Name, record_type: RecordType)
    ensures
        message_zones(*final(message)) == message_zones(*old(message)).push(
            (ZoneEntry { zone: name_text(*zone), record_type, class: DnsClass::IN }),
        ),
        message_id(*final(message)) == message_id(*old(message)),
        message_op_code(*final(message)) == message_op_code(*old(message)),
        message_updates(*final(message)) == message_updates(*old(message)),
        same_side_sections(*old(message), *final(message)),
{
    let query_type = match record_type {
        RecordType::A => WireType::A,
        RecordType::AAAA => WireType::AAAA,
        RecordType::SOA => WireType::SOA,
    };
    message.add_zone(Query::query(zone.clone(), query_type));
}

/// Calls `UpdateMessage::add_update` with a record of the given fields: one
/// without data from `Record::update0`, one with an address from
/// `Record::from_rdata`, its class set by `Record::set_dns_class`. The record
/// goes to the end of the update section; nothing else changes.
#[verifier::external_body]
fn add_update(message: &mut Message, owner: &Name, class: DnsClass, ttl: u32, data: RecordData)
    ensures
        message_updates(*final(message)) == message_updates(*old(message)).push(
            (UpdateRecord { owner: name_text(*owner), class, ttl, data }),
        ),
        message_id(*final(message)) == message_id(*old(message)),
        message_op_code(*final(message)) == message_op_code(*old(message)),
        message_zones(*final(message)) == message_zones(*old(message)),
        same_side_sections(*old(message), *final(message)),
{
    let name = owner.clone();
    let mut record = match data {
        RecordData::Empty(RecordType::A) => Record::update0(name, ttl, WireType::A),
        RecordData::Empty(RecordType::AAAA) => Record::update0(name, ttl, WireType::AAAA),
        RecordData::Empty(RecordType::SOA) => Record::update0(name, ttl, WireType::SOA),
        RecordData::Address(IpAddress::V4(octets)) => Record::from_rdata(name, ttl, RData::A(A(octets.into()))),
        RecordData::Address(IpAddress::V6(octets)) => Record::from_rdata(name, ttl, RData::AAAA(AAAA(octets.into()))),
    };
    let wire_class = match class {
        DnsClass::IN => WireClass::IN,
        DnsClass::ANY => WireClass::ANY,
    };
    record.set_dns_class(wire_class);
    message.add_update(record);
}

/// Calls `rand::random` for a 16-bit identifier. Nothing is known of the
/// value: every identifier may come.
#[verifier::external_body]
fn random_id() -> (id: u16) {
    rand::random()
}

/// Whether the sections and the operation of `message` are those of
/// `transaction`: it asks for nothing to hold beforehand and brings nothing in
/// addition.
pub open spec fn message_carries(message: Message, transaction: TransactionView) -> bool {
    &&& message_op_code(message) == transaction.op_code()
    &&& message_zones(message) == transaction.zone_section()
    &&& message_updates(message) == transaction.update_section()
    &&& message_prerequisites(message) == Seq::<UpdateRecord>::empty()
    &&& message_additionals(message) == Seq::<UpdateRecord>::empty()
}

/// Whether `message` is `transaction`, identifier included.
pub open spec fn message_encodes(message: Message, transaction: TransactionView) -> bool {
    &&& message_id(message) == transaction.id
    &&& message_carries(message, transaction)
}

/// Writes a transaction as a message: the header with the identifier and the
/// operation, the zone entry, and the record of each instruction in order.
pub fn to_message(transaction: &UpdateTransaction) -> (message: Message)
    ensures
        message_encodes(message, transaction@),
{
    let mut message = empty_message();
    set_op_code(&mut message, OpCode::Update);
    set_id(&mut message, transaction.id);
    add_zone(&mut message, &transaction.zone, RecordType::SOA);
    let mut index: usize = 0;
    while index < transaction.instructions.len()
        invariant
            index <= transaction.instructions@.len(),
            message_id(message) == transaction.id,
            message_op_code(message) == OpCode::Update,
            message_zones(message) == transaction@.zone_section(),
            message_updates(message) == transaction@.update_section().take(index as int),
            message_prerequisites(message) == Seq::<UpdateRecord>::empty(),
            message_additionals(message) == Seq::<UpdateRecord>::empty(),
        decreases transaction.instructions@.len() - index,
    {
        let instruction = transaction.instructions[index];
        add_update(
            &mut message,
            &transaction.host,
            instruction.class(),
            instruction.ttl(),
            instruction.data(),
        );
        index = index + 1;
    }
    assert(transaction@.update_section().take(index as int) == transaction@.update_section());
    message
}

/// Builds the message that replaces the address records of `host`, in `zone`,
/// by `ips`, under a fresh random identifier.
pub fn construct_packet(zone: &Name, host: &Name, ips: &AddressSet) -> (message: Message)
    ensures
        message_encodes(
            message,
            transaction_for(message_id(message), name_text(*zone), name_text(*host), ips@),
        ),
{
    let id = random_id();
    let transaction = build_transaction(id, zone.clone(), host.clone(), ips);
    to_message(&transaction)
}

/// An update that is ready to be signed and sent.
pub struct BuiltUpdate {
    /// The zone, which also names the owner of the signing key.
    pub zone: Name,
    /// The message that carries the update.
    pub message: Message,
}

/// Whether `built` is the update that sets the addresses of the host that
/// `hostname` names, in the zone that `zone` names, to `ips`.
pub open spec fn is_update_for(
    built: BuiltUpdate,
    zone: Seq<char>,
    hostname: Seq<char>,
    ips: Seq<IpAddress>,
) -> bool {
    &&& parsed_name(zone) == Some(name_text(built.zone))
    &&& parsed_name(hostname) matches Some(host) && message_encodes(
        built.message,
        transaction_for(message_id(built.message), name_text(built.zone), host, ips),
    )
}

/// Reads the zone and the host as domain names and builds the update message.
///
/// Fails with `InvalidName` exactly where one of the two is no domain name;
/// the zone is looked at first.
pub fn build_update(zone: &str, hostname: &str, ips: &AddressSet) -> (res: Result<
    BuiltUpdate,
    UpdateError,
>)
    ensures
        match res {
            Ok(built) => is_update_for(built, zone@, hostname@, ips@),
            Err(error) => if parsed_name(zone@) is None {
                error == UpdateError::InvalidName(NameRole::Zone)
            } else {
                parsed_name(hostname@) is None && error == UpdateError::InvalidName(NameRole::Host)
            },
        },
{
    let zone_name = match parse_name(zone, NameRole::Zone) {
        Ok(name) => name,
        Err(error) => {
            return Err(error);
        },
    };
    let host_name = match parse_name(hostname, NameRole::Host) {
        Ok(name) => name,
        Err(error) => {
            return Err(error);
        },
    };
    let message = construct_packet(&zone_name, &host_name, ips);
    Ok(BuiltUpdate { zone: zone_name, message })
}

} // verus!
