use whodis::address::{
    detection_plan, determine_ips, filter_compatible, AddressError, AddressFamily, AddressSet,
    Detection, DetectionPlan, IpAddress, IpMode,
};

const V4_A: IpAddress = IpAddress::V4([192, 168, 1, 7]);
const V4_B: IpAddress = IpAddress::V4([10, 0, 0, 1]);
const V6_LOOPBACK: IpAddress = IpAddress::V6([0, 0, 0, 0, 0, 0, 0, 0, 0, 0, 0, 0, 0, 0, 0, 1]);
const V6_OCTETS: [u8; 16] = [0x20, 0x01, 0x0d, 0xb8, 0, 0, 0, 0, 0, 0, 0, 0, 0, 0, 0, 0x42];

fn addresses(res: Result<AddressSet, AddressError>) -> Vec<IpAddress> {
    res.unwrap().as_vec().clone()
}

fn found_v4() -> Detection<[u8; 4]> {
    Detection::Found([10, 0, 0, 1])
}

fn found_v6() -> Detection<[u8; 16]> {
    Detection::Found(V6_OCTETS)
}

fn failed<A>(cause: &str) -> Detection<A> {
    Detection::Failed(cause.to_string())
}

fn detection_failed(family: AddressFamily, cause: &str) -> AddressError {
    AddressError::AddressDetectionFailed { family, cause: cause.to_string() }
}

#[test]
fn family_of_an_address() {
    assert_eq!(V4_A.family(), AddressFamily::V4);
    assert_eq!(V6_LOOPBACK.family(), AddressFamily::V6);
}

#[test]
fn mode_admits_its_families() {
    assert!(IpMode::Both.admits(AddressFamily::V4));
    assert!(IpMode::Both.admits(AddressFamily::V6));
    assert!(IpMode::V4Only.admits(AddressFamily::V4));
    assert!(!IpMode::V4Only.admits(AddressFamily::V6));
    assert!(!IpMode::V6Only.admits(AddressFamily::V4));
    assert!(IpMode::V6Only.admits(AddressFamily::V6));
}

#[test]
fn address_set_is_never_empty() {
    assert_eq!(AddressSet::new(Vec::new()), None);
    let set = AddressSet::new(vec![V4_A, V6_LOOPBACK]).unwrap();
    assert_eq!(set.len(), 2);
    assert_eq!(set.get(0), Some(V4_A));
    assert_eq!(set.get(1), Some(V6_LOOPBACK));
    assert_eq!(set.get(2), None);
    assert_eq!(set.as_vec(), &vec![V4_A, V6_LOOPBACK]);
}

#[test]
fn both_mode_without_any_detection_has_no_addresses() {
    assert_eq!(
        determine_ips(IpMode::Both, Vec::new(), failed("no interface"), failed("no route")),
        Err(AddressError::NoAddressesAvailable)
    );
    assert_eq!(
        determine_ips(IpMode::Both, Vec::new(), Detection::Skipped, Detection::Skipped),
        Err(AddressError::NoAddressesAvailable)
    );
}

#[test]
fn v4_only_with_only_v6_given_has_no_compatible_address() {
    assert_eq!(
        determine_ips(IpMode::V4Only, vec![V6_LOOPBACK], Detection::Skipped, Detection::Skipped),
        Err(AddressError::NoCompatibleAddress)
    );
}

#[test]
fn v6_only_with_only_v4_given_has_no_compatible_address() {
    assert_eq!(
        determine_ips(IpMode::V6Only, vec![V4_A, V4_B], found_v4(), found_v6()),
        Err(AddressError::NoCompatibleAddress)
    );
}

#[test]
fn explicit_addresses_are_filtered_in_order() {
    let given = vec![V4_A, V6_LOOPBACK, V4_B];
    assert_eq!(filter_compatible(IpMode::V4Only, &given), vec![V4_A, V4_B]);
    assert_eq!(filter_compatible(IpMode::V6Only, &given), vec![V6_LOOPBACK]);
    assert_eq!(filter_compatible(IpMode::Both, &given), given);
    assert_eq!(
        addresses(determine_ips(
            IpMode::V4Only,
            given.clone(),
            Detection::Skipped,
            Detection::Skipped
        )),
        vec![V4_A, V4_B]
    );
    assert_eq!(
        addresses(determine_ips(
            IpMode::Both,
            given.clone(),
            Detection::Skipped,
            Detection::Skipped
        )),
        given
    );
}

#[test]
fn explicit_addresses_win_over_detection() {
    assert_eq!(
        addresses(determine_ips(IpMode::Both, vec![V4_A], found_v4(), found_v6())),
        vec![V4_A]
    );
    assert_eq!(
        addresses(determine_ips(IpMode::V4Only, vec![V4_A], failed("down"), failed("down"))),
        vec![V4_A]
    );
}

#[test]
fn explicit_duplicates_are_kept() {
    assert_eq!(
        addresses(determine_ips(
            IpMode::Both,
            vec![V4_A, V4_A],
            Detection::Skipped,
            Detection::Skipped
        )),
        vec![V4_A, V4_A]
    );
}

#[test]
fn both_mode_takes_what_was_detected() {
    assert_eq!(
        addresses(determine_ips(IpMode::Both, Vec::new(), found_v4(), found_v6())),
        vec![V4_B, IpAddress::V6(V6_OCTETS)]
    );
    assert_eq!(
        addresses(determine_ips(IpMode::Both, Vec::new(), found_v4(), failed("no route"))),
        vec![V4_B]
    );
    assert_eq!(
        addresses(determine_ips(IpMode::Both, Vec::new(), failed("no interface"), found_v6())),
        vec![IpAddress::V6(V6_OCTETS)]
    );
}

#[test]
fn single_family_mode_needs_its_detection() {
    assert_eq!(
        determine_ips(IpMode::V4Only, Vec::new(), failed("no interface"), found_v6()),
        Err(detection_failed(AddressFamily::V4, "no interface"))
    );
    assert_eq!(
        determine_ips(IpMode::V6Only, Vec::new(), found_v4(), failed("no route")),
        Err(detection_failed(AddressFamily::V6, "no route"))
    );
}

#[test]
fn failed_detection_keeps_its_cause() {
    let cause = "The Local IP Address wasn't available in the network interfaces list";
    match determine_ips(IpMode::V4Only, Vec::new(), failed(cause), Detection::Skipped) {
        Err(AddressError::AddressDetectionFailed { family, cause: kept }) => {
            assert_eq!(family, AddressFamily::V4);
            assert_eq!(kept, cause);
        }
        other => panic!("expected a failed detection, got {:?}", other),
    }
}

#[test]
fn skipped_detection_fails_without_a_cause() {
    assert_eq!(
        determine_ips(IpMode::V4Only, Vec::new(), Detection::Skipped, found_v6()),
        Err(detection_failed(AddressFamily::V4, ""))
    );
    assert_eq!(
        determine_ips(IpMode::V6Only, Vec::new(), found_v4(), Detection::Skipped),
        Err(detection_failed(AddressFamily::V6, ""))
    );
}

#[test]
fn single_family_mode_ignores_the_other_detection() {
    assert_eq!(
        addresses(determine_ips(IpMode::V4Only, Vec::new(), found_v4(), found_v6())),
        vec![V4_B]
    );
    assert_eq!(
        addresses(determine_ips(IpMode::V4Only, Vec::new(), found_v4(), failed("no route"))),
        vec![V4_B]
    );
    assert_eq!(
        addresses(determine_ips(IpMode::V6Only, Vec::new(), found_v4(), found_v6())),
        vec![IpAddress::V6(V6_OCTETS)]
    );
}

#[test]
fn detection_is_planned_by_mode() {
    let none: Vec<IpAddress> = Vec::new();
    assert_eq!(detection_plan(IpMode::Both, &none), DetectionPlan { v4: true, v6: true });
    assert_eq!(detection_plan(IpMode::V4Only, &none), DetectionPlan { v4: true, v6: false });
    assert_eq!(detection_plan(IpMode::V6Only, &none), DetectionPlan { v4: false, v6: true });
}

#[test]
fn nothing_is_detected_when_addresses_are_given() {
    let given = vec![V6_LOOPBACK];
    assert_eq!(detection_plan(IpMode::Both, &given), DetectionPlan { v4: false, v6: false });
    assert_eq!(detection_plan(IpMode::V4Only, &given), DetectionPlan { v4: false, v6: false });
}
