//! The update transaction: one zone assertion and, for each address, the
//! deletion of the host's records of that address's type followed by the
//! record that installs the address.

use crate::address::{AddressFamily, AddressSet, IpAddress};
use crate::name::name_text;
use crate::record::{
    record_type_for, spec_record_type_for, DnsClass, OpCode, RecordType, UpdateInstruction,
    UpdateRecord, ZoneEntry,
};
use hickory_proto::rr::Name;
use vstd::prelude::*;

verus! {

/// One DNS UPDATE message before it is encoded.
#[derive(Debug, PartialEq, Eq)]
pub struct UpdateTransaction {
    /// The identifier by which the answer is matched to the request.
    pub id: u16,
    /// The zone whose authority is asked to make the change.
    pub zone: Name,
    /// The host whose address records are replaced.
    pub host: Name,
    /// The changes, in the order in which the server is to make them.
    pub instructions: Vec<UpdateInstruction>,
}

/// What a transaction is, with its names as text.
pub struct TransactionView {
    pub id: u16,
    pub zone: Seq<char>,
    pub host: Seq<char>,
    pub instructions: Seq<UpdateInstruction>,
}

impl View for UpdateTransaction {
    type V = TransactionView;

    open spec fn view(&self) -> TransactionView {
        TransactionView {
            id: self.id,
            zone: name_text(self.zone),
            host: name_text(self.host),
            instructions: self.instructions@,
        }
    }
}

impl TransactionView {
    /// The operation of every transaction.
    pub open spec fn op_code(self) -> OpCode {
        OpCode::Update
    }

    /// The zone section: the zone, named under type SOA and class IN.
    pub open spec fn zone_section(self) -> Seq<ZoneEntry> {
        seq![ZoneEntry { zone: self.zone, record_type: RecordType::SOA, class: DnsClass::IN }]
    }

    /// The update section: the record of each instruction, owned by the host.
    pub open spec fn update_section(self) -> Seq<UpdateRecord> {
        Seq::new(self.instructions.len(), |k: int| self.instructions[k].record(self.host))
    }

    /// The number of entries: those of the zone section and of the update section.
    pub open spec fn entry_count(self) -> nat {
        self.zone_section().len() + self.update_section().len()
    }
}

/// The instruction at position `k` of the update for `addresses`: at `2 * i`
/// the deletion for address `i`, at `2 * i + 1` its addition.
pub open spec fn instruction_at(addresses: Seq<IpAddress>, k: int) -> UpdateInstruction {
    if k % 2 == 0 {
        UpdateInstruction::deletion_for(addresses[k / 2])
    } else {
        UpdateInstruction::addition_of(addresses[k / 2])
    }
}

/// The instructions that replace a host's address records by `addresses`.
pub open spec fn update_instructions(addresses: Seq<IpAddress>) -> Seq<UpdateInstruction> {
    Seq::new(2 * addresses.len(), |k: int| instruction_at(addresses, k))
}

/// The transaction with identifier `id` that sets the addresses of `host`, in
/// `zone`, to `addresses`.
pub open spec fn transaction_for(
    id: u16,
    zone: Seq<char>,
    host: Seq<char>,
    addresses: Seq<IpAddress>,
) -> TransactionView {
    TransactionView { id, zone, host, instructions: update_instructions(addresses) }
}

/// Builds the transaction that replaces the address records of `host` by `addresses`.
pub fn build_transaction(id: u16, zone: Name, host: Name, addresses: &AddressSet) -> (transaction:
    UpdateTransaction)
    ensures
        transaction@ == transaction_for(id, name_text(zone), name_text(host), addresses@),
{
    let list = addresses.as_vec();
    let mut instructions: Vec<UpdateInstruction> = Vec::new();
    let mut index: usize = 0;
    while index < list.len()
        invariant
            index <= list@.len(),
            instructions@.len() == 2 * index,
            forall|k: int|
                0 <= k < instructions@.len() ==> instructions@[k] == instruction_at(list@, k),
        decreases list@.len() - index,
    {
        let address = list[index];
        instructions.push(
            UpdateInstruction::DeleteRrset { record_type: record_type_for(address.family()) },
        );
        instructions.push(UpdateInstruction::AddRecord { address });
        index = index + 1;
    }
    assert(instructions@ =~= update_instructions(addresses@));
    UpdateTransaction { id, zone, host, instructions }
}

impl UpdateTransaction {
    /// The number of entries of the transaction: the zone assertion and the instructions.
    pub fn entry_count(&self) -> (count: usize)
        requires
            self.instructions@.len() < usize::MAX,
        ensures
            count == self@.entry_count(),
    {
        1 + self.instructions.len()
    }
}

/// A transaction has one entry for the zone and two for each address: the
/// deletion for an address stands directly before the instruction that adds it.
pub proof fn lemma_entries_are_paired(
    id: u16,
    zone: Seq<char>,
    host: Seq<char>,
    addresses: Seq<IpAddress>,
)
    ensures
        transaction_for(id, zone, host, addresses).entry_count() == 1 + 2 * addresses.len(),
        update_instructions(addresses).len() == 2 * addresses.len(),
        forall|i: int|
            0 <= i < addresses.len() ==> update_instructions(addresses)[2 * i]
                == UpdateInstruction::deletion_for(#[trigger] addresses[i]),
        forall|i: int|
            0 <= i < addresses.len() ==> update_instructions(addresses)[2 * i + 1]
                == UpdateInstruction::addition_of(#[trigger] addresses[i]),
{
    assert forall|i: int| 0 <= i < addresses.len() implies update_instructions(addresses)[2 * i]
        == UpdateInstruction::deletion_for(#[trigger] addresses[i]) by {
        assert(update_instructions(addresses)[2 * i] == instruction_at(addresses, 2 * i));
    }
    assert forall|i: int| 0 <= i < addresses.len() implies update_instructions(addresses)[2 * i
        + 1] == UpdateInstruction::addition_of(#[trigger] addresses[i]) by {
        assert(update_instructions(addresses)[2 * i + 1] == instruction_at(addresses, 2 * i + 1));
    }
}

/// Every deletion of an update is for the type of an address of the set, and
/// that address is what the next instruction adds.
pub proof fn lemma_deletions_match_families(addresses: Seq<IpAddress>, k: int)
    requires
        0 <= k < update_instructions(addresses).len(),
        update_instructions(addresses)[k] is DeleteRrset,
    ensures
        k % 2 == 0,
        0 <= k / 2 < addresses.len(),
        update_instructions(addresses)[k] == UpdateInstruction::deletion_for(addresses[k / 2]),
        update_instructions(addresses)[k + 1] == UpdateInstruction::addition_of(addresses[k / 2]),
{
    assert(update_instructions(addresses)[k] == instruction_at(addresses, k));
    assert(update_instructions(addresses)[k + 1] == instruction_at(addresses, k + 1));
}

/// Families do not touch each other: an update for addresses of one family
/// deletes no records but those of that family's type.
pub proof fn lemma_family_isolation(addresses: Seq<IpAddress>, family: AddressFamily)
    requires
        forall|i: int|
            0 <= i < addresses.len() ==> (#[trigger] addresses[i]).spec_family() == family,
    ensures
        forall|k: int|
            0 <= k < update_instructions(addresses).len() && (#[trigger] update_instructions(
                addresses,
            )[k]) is DeleteRrset ==> update_instructions(addresses)[k].spec_record_type()
                == spec_record_type_for(family),
{
    assert forall|k: int|
        0 <= k < update_instructions(addresses).len() && (#[trigger] update_instructions(
            addresses,
        )[k]) is DeleteRrset implies update_instructions(addresses)[k].spec_record_type()
        == spec_record_type_for(family) by {
        lemma_deletions_match_families(addresses, k);
    }
}

} // verus!
