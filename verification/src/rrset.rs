//! What an update does to the records that a server holds: the model against
//! which the shape of a transaction is justified.
//!
//! A server that follows RFC 2136 takes the update section record by record.
//! A record of class ANY without data removes the whole RRset of its owner and
//! type; a record of class IN with data joins the RRset of its owner and type.

use crate::address::IpAddress;
use crate::record::{spec_record_type_for, DnsClass, RecordData, RecordType, UpdateRecord};
use crate::transaction::{instruction_at, transaction_for, update_instructions, TransactionView};
use vstd::prelude::*;

verus! {

/// A record as a server holds it.
pub struct ServerRecord {
    pub owner: Seq<char>,
    pub record_type: RecordType,
    pub data: Seq<u8>,
}

impl IpAddress {
    /// The octets of the address, as they stand in a record's data.
    pub open spec fn octets(self) -> Seq<u8> {
        match self {
            IpAddress::V4(octets) => octets@,
            IpAddress::V6(octets) => octets@,
        }
    }
}

/// The record that holds `address` for `owner`.
pub open spec fn address_record(owner: Seq<char>, address: IpAddress) -> ServerRecord {
    ServerRecord {
        owner,
        record_type: spec_record_type_for(address.spec_family()),
        data: address.octets(),
    }
}

/// The records of a server after it has taken one record of an update section.
pub open spec fn apply_record(state: Set<ServerRecord>, record: UpdateRecord) -> Set<ServerRecord> {
    match (record.class, record.data) {
        (DnsClass::ANY, RecordData::Empty(record_type)) => Set::new(
            |held: ServerRecord|
                state.contains(held) && !(held.owner == record.owner && held.record_type
                    == record_type),
        ),
        (DnsClass::IN, RecordData::Address(address)) => state.insert(
            address_record(record.owner, address),
        ),
        _ => state,
    }
}

/// The records of a server after it has taken `records` in order.
pub open spec fn apply_records(state: Set<ServerRecord>, records: Seq<UpdateRecord>) -> Set<
    ServerRecord,
>
    decreases records.len(),
{
    if records.len() == 0 {
        state
    } else {
        apply_record(apply_records(state, records.drop_last()), records.last())
    }
}

/// The records of a server after it has accepted `transaction`.
pub open spec fn apply_transaction(state: Set<ServerRecord>, transaction: TransactionView) -> Set<
    ServerRecord,
> {
    apply_records(state, transaction.update_section())
}

/// The last address of `addresses` that a record of type `record_type` holds.
pub open spec fn last_of_type(addresses: Seq<IpAddress>, record_type: RecordType) -> Option<
    IpAddress,
>
    decreases addresses.len(),
{
    if addresses.len() == 0 {
        None
    } else if spec_record_type_for(addresses.last().spec_family()) == record_type {
        Some(addresses.last())
    } else {
        last_of_type(addresses.drop_last(), record_type)
    }
}

/// Whether a server that held `state` holds `record` after the update that
/// sets the addresses of `host` to `addresses`: of a type that the update
/// speaks of, the host has the last address given and nothing else; every
/// other record is as it was.
pub open spec fn holds_after_update(
    state: Set<ServerRecord>,
    host: Seq<char>,
    addresses: Seq<IpAddress>,
    record: ServerRecord,
) -> bool {
    if record.owner == host {
        match last_of_type(addresses, record.record_type) {
            Some(address) => record == address_record(host, address),
            None => state.contains(record),
        }
    } else {
        state.contains(record)
    }
}

proof fn lemma_apply_one_more(
    state: Set<ServerRecord>,
    records: Seq<UpdateRecord>,
    record: UpdateRecord,
)
    ensures
        apply_records(state, records.push(record)) == apply_record(
            apply_records(state, records),
            record,
        ),
{
    assert(records.push(record).drop_last() == records);
}

proof fn lemma_update_section_grows(
    id: u16,
    zone: Seq<char>,
    host: Seq<char>,
    addresses: Seq<IpAddress>,
)
    requires
        addresses.len() > 0,
    ensures
        transaction_for(id, zone, host, addresses).update_section() == transaction_for(
            id,
            zone,
            host,
            addresses.drop_last(),
        ).update_section().push(
            instruction_at(addresses, 2 * addresses.len() - 2).record(host),
        ).push(instruction_at(addresses, 2 * addresses.len() - 1).record(host)),
{
    let whole = transaction_for(id, zone, host, addresses).update_section();
    let shorter = transaction_for(id, zone, host, addresses.drop_last()).update_section();
    let grown = shorter.push(
        instruction_at(addresses, 2 * addresses.len() - 2).record(host),
    ).push(instruction_at(addresses, 2 * addresses.len() - 1).record(host));
    assert(whole.len() == grown.len());
    assert forall|k: int| 0 <= k < whole.len() implies whole[k] == grown[k] by {
        assert(update_instructions(addresses)[k] == instruction_at(addresses, k));
        if k < shorter.len() {
            assert(update_instructions(addresses.drop_last())[k] == instruction_at(
                addresses.drop_last(),
                k,
            ));
            assert(addresses.drop_last()[k / 2] == addresses[k / 2]);
        }
    }
    assert(whole =~= grown);
}

/// The records that a server holds after an update are those that
/// [`holds_after_update`] describes.
pub proof fn lemma_state_after_update(
    state: Set<ServerRecord>,
    id: u16,
    zone: Seq<char>,
    host: Seq<char>,
    addresses: Seq<IpAddress>,
)
    ensures
        forall|record: ServerRecord|
            #[trigger] apply_transaction(
                state,
                transaction_for(id, zone, host, addresses),
            ).contains(record) == holds_after_update(state, host, addresses, record),
    decreases addresses.len(),
{
    let after = apply_transaction(state, transaction_for(id, zone, host, addresses));
    if addresses.len() == 0 {
        assert(transaction_for(id, zone, host, addresses).update_section().len() == 0);
    } else {
        let shorter = transaction_for(id, zone, host, addresses.drop_last());
        let before = apply_transaction(state, shorter);
        let deletion = instruction_at(addresses, 2 * addresses.len() - 2).record(host);
        let addition = instruction_at(addresses, 2 * addresses.len() - 1).record(host);
        lemma_update_section_grows(id, zone, host, addresses);
        lemma_state_after_update(state, id, zone, host, addresses.drop_last());
        lemma_apply_one_more(state, shorter.update_section(), deletion);
        lemma_apply_one_more(state, shorter.update_section().push(deletion), addition);
        assert(after == apply_record(apply_record(before, deletion), addition));
        assert forall|record: ServerRecord| #[trigger]
            after.contains(record) == holds_after_update(state, host, addresses, record) by {
            assert(before.contains(record) == holds_after_update(
                state,
                host,
                addresses.drop_last(),
                record,
            ));
        }
    }
}

/// Replaying a transaction changes nothing: a server that accepts the same
/// transaction twice holds the same records as one that accepted it once.
pub proof fn lemma_replay_is_idempotent(
    state: Set<ServerRecord>,
    id: u16,
    zone: Seq<char>,
    host: Seq<char>,
    addresses: Seq<IpAddress>,
)
    ensures
        apply_transaction(
            apply_transaction(state, transaction_for(id, zone, host, addresses)),
            transaction_for(id, zone, host, addresses),
        ) == apply_transaction(state, transaction_for(id, zone, host, addresses)),
{
    let transaction = transaction_for(id, zone, host, addresses);
    let once = apply_transaction(state, transaction);
    let twice = apply_transaction(once, transaction);
    lemma_state_after_update(state, id, zone, host, addresses);
    lemma_state_after_update(once, id, zone, host, addresses);
    assert forall|record: ServerRecord| twice.contains(record) == once.contains(record) by {
        assert(twice.contains(record) == holds_after_update(once, host, addresses, record));
        assert(once.contains(record) == holds_after_update(state, host, addresses, record));
    }
    assert(twice =~= once);
}

/// An update leaves alone what it does not speak of: the records of other
/// owners, and the host's records of a type for which it brings no address.
pub proof fn lemma_other_records_untouched(
    state: Set<ServerRecord>,
    id: u16,
    zone: Seq<char>,
    host: Seq<char>,
    addresses: Seq<IpAddress>,
    record: ServerRecord,
)
    requires
        record.owner != host || forall|i: int|
            0 <= i < addresses.len() ==> spec_record_type_for(
                (#[trigger] addresses[i]).spec_family(),
            ) != record.record_type,
    ensures
        apply_transaction(state, transaction_for(id, zone, host, addresses)).contains(record)
            == state.contains(record),
{
    lemma_state_after_update(state, id, zone, host, addresses);
    if record.owner == host {
        lemma_last_of_type_is_member(addresses, record.record_type);
    }
}

/// Where `last_of_type` finds an address, it is one of `addresses` and of the
/// type asked for; it finds one whenever there is one.
pub proof fn lemma_last_of_type_is_member(addresses: Seq<IpAddress>, record_type: RecordType)
    ensures
        match last_of_type(addresses, record_type) {
            Some(address) => addresses.contains(address) && spec_record_type_for(
                address.spec_family(),
            ) == record_type,
            None => forall|i: int|
                0 <= i < addresses.len() ==> spec_record_type_for(
                    (#[trigger] addresses[i]).spec_family(),
                ) != record_type,
        },
    decreases addresses.len(),
{
    if addresses.len() > 0 {
        lemma_last_of_type_is_member(addresses.drop_last(), record_type);
        if spec_record_type_for(addresses.last().spec_family()) == record_type {
            assert(addresses[addresses.len() - 1] == addresses.last());
        } else {
            match last_of_type(addresses.drop_last(), record_type) {
                Some(address) => {
                    let i = choose|i: int|
                        0 <= i < addresses.drop_last().len() && addresses.drop_last()[i]
                            == address;
                    assert(addresses[i] == address);
                },
                None => {
                    assert forall|i: int| 0 <= i < addresses.len() implies spec_record_type_for(
                        (#[trigger] addresses[i]).spec_family(),
                    ) != record_type by {
                        if i < addresses.len() - 1 {
                            assert(addresses.drop_last()[i] == addresses[i]);
                        }
                    }
                },
            }
        }
    }
}

/// A stale address is superseded, not kept beside the new one: after an
/// update that brings an address of some type, the host has exactly one
/// record of that type, and it holds the last such address given.
pub proof fn lemma_stale_addresses_are_superseded(
    state: Set<ServerRecord>,
    id: u16,
    zone: Seq<char>,
    host: Seq<char>,
    addresses: Seq<IpAddress>,
    record: ServerRecord,
)
    requires
        record.owner == host,
        last_of_type(addresses, record.record_type) is Some,
    ensures
        apply_transaction(state, transaction_for(id, zone, host, addresses)).contains(record)
            == (record == address_record(
            host,
            last_of_type(addresses, record.record_type).unwrap(),
        )),
{
    lemma_state_after_update(state, id, zone, host, addresses);
}

} // verus!
