use hickory_proto::op::{Message, OpCode, UpdateMessage};
use hickory_proto::rr::rdata::{A, AAAA};
use hickory_proto::rr::{DNSClass, Name, RData, RecordType};
use std::str::FromStr;
use whodis::address::{AddressFamily, AddressSet, IpAddress};
use whodis::error::{NameRole, UpdateError};
use whodis::message::{build_update, construct_packet, to_message};
use whodis::name::parse_name;
use whodis::record::{record_type_for, DnsClass, RecordData, UpdateInstruction, RECORD_TTL};
use whodis::transaction::build_transaction;

fn name(text: &str) -> Name {
    Name::from_str(text).unwrap()
}

#[test]
fn packet_is_an_update_for_the_zone() {
    let ips = AddressSet::new(vec![IpAddress::V4([192, 168, 1, 7])]).unwrap();
    let message = construct_packet(&name("dyn.lan."), &name("laptop.dyn.lan."), &ips);
    assert_eq!(message.op_code(), OpCode::Update);
    assert_eq!(message.zones().len(), 1);
    assert_eq!(message.zones()[0].name(), &name("dyn.lan."));
    assert_eq!(message.zones()[0].query_type(), RecordType::SOA);
    assert_eq!(message.zones()[0].query_class(), DNSClass::IN);
    assert!(message.prerequisites().is_empty());
    assert!(message.additionals().is_empty());
}

#[test]
fn packet_deletes_then_adds_each_address() {
    let ips = AddressSet::new(vec![
        IpAddress::V4([192, 168, 1, 7]),
        IpAddress::V6([0x20, 0x01, 0x0d, 0xb8, 0, 0, 0, 0, 0, 0, 0, 0, 0, 0, 0, 1]),
    ])
    .unwrap();
    let host = name("laptop.dyn.lan.");
    let message = construct_packet(&name("dyn.lan."), &host, &ips);
    let updates = message.updates();
    assert_eq!(updates.len(), 4);

    assert_eq!(updates[0].name(), &host);
    assert_eq!(updates[0].dns_class(), DNSClass::ANY);
    assert_eq!(updates[0].ttl(), 0);
    assert_eq!(updates[0].record_type(), RecordType::A);
    assert_eq!(updates[0].data(), &RData::Update0(RecordType::A));

    assert_eq!(updates[1].name(), &host);
    assert_eq!(updates[1].dns_class(), DNSClass::IN);
    assert_eq!(updates[1].ttl(), 300);
    assert_eq!(updates[1].record_type(), RecordType::A);
    assert_eq!(updates[1].data(), &RData::A(A::new(192, 168, 1, 7)));

    assert_eq!(updates[2].name(), &host);
    assert_eq!(updates[2].dns_class(), DNSClass::ANY);
    assert_eq!(updates[2].ttl(), 0);
    assert_eq!(updates[2].data(), &RData::Update0(RecordType::AAAA));

    assert_eq!(updates[3].name(), &host);
    assert_eq!(updates[3].dns_class(), DNSClass::IN);
    assert_eq!(updates[3].ttl(), 300);
    assert_eq!(
        updates[3].data(),
        &RData::AAAA(AAAA::new(0x2001, 0x0db8, 0, 0, 0, 0, 0, 1))
    );
}

#[test]
fn message_keeps_the_identifier_of_the_transaction() {
    let ips = AddressSet::new(vec![IpAddress::V4([10, 0, 0, 1])]).unwrap();
    let transaction = build_transaction(0xBEEF, name("dyn.lan."), name("laptop.dyn.lan."), &ips);
    assert_eq!(transaction.entry_count(), 3);
    assert_eq!(
        transaction.instructions,
        vec![
            UpdateInstruction::DeleteRrset { record_type: whodis::record::RecordType::A },
            UpdateInstruction::AddRecord { address: IpAddress::V4([10, 0, 0, 1]) },
        ]
    );
    let message = to_message(&transaction);
    assert_eq!(message.id(), 0xBEEF);
    assert_eq!(message.op_code(), OpCode::Update);
    assert_eq!(message.updates().len(), 2);
}

#[test]
fn transaction_has_one_zone_entry_and_a_pair_for_each_address() {
    let addresses = vec![
        IpAddress::V4([192, 168, 1, 7]),
        IpAddress::V6([0xfd, 0, 0, 0, 0, 0, 0, 0, 0, 0, 0, 0, 0, 0, 0, 7]),
        IpAddress::V4([10, 0, 0, 1]),
    ];
    let ips = AddressSet::new(addresses.clone()).unwrap();
    let transaction = build_transaction(7, name("dyn.lan."), name("laptop.dyn.lan."), &ips);
    assert_eq!(transaction.entry_count(), 1 + 2 * 3);
    assert_eq!(transaction.id, 7);
    assert_eq!(transaction.zone, name("dyn.lan."));
    assert_eq!(transaction.host, name("laptop.dyn.lan."));
    for (i, address) in addresses.iter().enumerate() {
        assert_eq!(
            transaction.instructions[2 * i],
            UpdateInstruction::DeleteRrset { record_type: record_type_for(address.family()) }
        );
        assert_eq!(
            transaction.instructions[2 * i + 1],
            UpdateInstruction::AddRecord { address: *address }
        );
    }
    let message = to_message(&transaction);
    assert_eq!(message.zones().len() + message.updates().len(), 7);
}

#[test]
fn instructions_go_on_the_wire_by_their_kind() {
    let delete = UpdateInstruction::DeleteRrset { record_type: whodis::record::RecordType::AAAA };
    assert_eq!(delete.class(), DnsClass::ANY);
    assert_eq!(delete.ttl(), 0);
    assert_eq!(delete.data(), RecordData::Empty(whodis::record::RecordType::AAAA));
    assert_eq!(delete.record_type(), whodis::record::RecordType::AAAA);

    let add = UpdateInstruction::AddRecord { address: IpAddress::V4([10, 0, 0, 1]) };
    assert_eq!(add.class(), DnsClass::IN);
    assert_eq!(add.ttl(), 300);
    assert_eq!(RECORD_TTL, 300);
    assert_eq!(add.data(), RecordData::Address(IpAddress::V4([10, 0, 0, 1])));
    assert_eq!(add.record_type(), whodis::record::RecordType::A);
    assert_eq!(record_type_for(AddressFamily::V6), whodis::record::RecordType::AAAA);
}

#[test]
fn v4_update_never_deletes_aaaa_records() {
    let ips = AddressSet::new(vec![IpAddress::V4([192, 168, 1, 7]), IpAddress::V4([10, 0, 0, 1])])
        .unwrap();
    let message = construct_packet(&name("dyn.lan."), &name("laptop.dyn.lan."), &ips);
    for record in message.updates() {
        assert_eq!(record.record_type(), RecordType::A);
        assert_ne!(record.data(), &RData::Update0(RecordType::AAAA));
    }
}

#[test]
fn v6_update_never_deletes_a_records() {
    let ips =
        AddressSet::new(vec![IpAddress::V6([0xfd, 0, 0, 0, 0, 0, 0, 0, 0, 0, 0, 0, 0, 0, 0, 7])])
            .unwrap();
    let message = construct_packet(&name("dyn.lan."), &name("laptop.dyn.lan."), &ips);
    for record in message.updates() {
        assert_eq!(record.record_type(), RecordType::AAAA);
        assert_ne!(record.data(), &RData::Update0(RecordType::A));
    }
}

// A server that keeps records as RFC 2136 says and nothing else.
fn accept(held: &mut Vec<(Name, RData)>, message: &Message) {
    for record in message.updates() {
        match (record.dns_class(), record.data()) {
            (DNSClass::ANY, RData::Update0(record_type)) => {
                held.retain(|(owner, data)| {
                    !(owner == record.name() && data.record_type() == *record_type)
                });
            }
            (DNSClass::IN, data) => {
                let entry = (record.name().clone(), data.clone());
                if !held.contains(&entry) {
                    held.push(entry);
                }
            }
            _ => {}
        }
    }
}

#[test]
fn replaying_an_update_changes_nothing() {
    let host = name("laptop.dyn.lan.");
    let other = name("desktop.dyn.lan.");
    let stale_v4 = RData::A(A::new(192, 168, 1, 99));
    let old_v6 = RData::AAAA(AAAA::new(0xfd00, 0, 0, 0, 0, 0, 0, 9));
    let mut held = vec![
        (host.clone(), stale_v4.clone()),
        (host.clone(), old_v6.clone()),
        (other.clone(), stale_v4.clone()),
    ];
    let ips = AddressSet::new(vec![IpAddress::V4([192, 168, 1, 7]), IpAddress::V4([10, 0, 0, 1])])
        .unwrap();
    let message = construct_packet(&name("dyn.lan."), &host, &ips);

    accept(&mut held, &message);
    let once = held.clone();
    accept(&mut held, &message);
    assert_eq!(held, once);

    assert!(!held.contains(&(host.clone(), stale_v4.clone())));
    assert!(!held.contains(&(host.clone(), RData::A(A::new(192, 168, 1, 7)))));
    assert!(held.contains(&(host.clone(), RData::A(A::new(10, 0, 0, 1)))));
    assert!(held.contains(&(host.clone(), old_v6)));
    assert!(held.contains(&(other, stale_v4)));
    assert_eq!(held.len(), 3);
}

#[test]
fn update_is_built_from_valid_names() {
    let ips = AddressSet::new(vec![IpAddress::V4([192, 168, 1, 7])]).unwrap();
    let built = build_update("dyn.lan.", "laptop.dyn.lan.", &ips).ok().unwrap();
    assert_eq!(built.zone, name("dyn.lan."));
    assert_eq!(built.message.zones()[0].name(), &name("dyn.lan."));
    assert_eq!(built.message.updates().len(), 2);
    assert_eq!(built.message.updates()[0].name(), &name("laptop.dyn.lan."));
    assert_eq!(built.message.updates()[1].name(), &name("laptop.dyn.lan."));
}

#[test]
fn invalid_zone_is_reported_before_invalid_host() {
    let ips = AddressSet::new(vec![IpAddress::V4([192, 168, 1, 7])]).unwrap();
    assert_eq!(
        build_update("bad zone.lan.", "laptop.dyn.lan.", &ips).err(),
        Some(UpdateError::InvalidName(NameRole::Zone))
    );
    assert_eq!(
        build_update("bad zone.lan.", "bad host.lan.", &ips).err(),
        Some(UpdateError::InvalidName(NameRole::Zone))
    );
    assert_eq!(
        build_update("dyn.lan.", "bad host.lan.", &ips).err(),
        Some(UpdateError::InvalidName(NameRole::Host))
    );
}

#[test]
fn names_are_read_as_the_dns_library_reads_them() {
    assert_eq!(parse_name("Laptop.Dyn.Lan.", NameRole::Host), Ok(name("laptop.dyn.lan.")));
    assert_eq!(parse_name("dyn.lan", NameRole::Zone), Ok(name("dyn.lan")));
    assert_eq!(
        parse_name("not a name", NameRole::Zone),
        Err(UpdateError::InvalidName(NameRole::Zone))
    );
    let oversized = "a".repeat(64);
    assert_eq!(
        parse_name(&oversized, NameRole::Host),
        Err(UpdateError::InvalidName(NameRole::Host))
    );
}

#[test]
fn identifiers_vary_between_packets() {
    let ips = AddressSet::new(vec![IpAddress::V4([192, 168, 1, 7])]).unwrap();
    let mut seen = Vec::new();
    for _ in 0..64 {
        let id = construct_packet(&name("dyn.lan."), &name("laptop.dyn.lan."), &ips).id();
        if !seen.contains(&id) {
            seen.push(id);
        }
    }
    assert!(seen.len() > 1);
}
