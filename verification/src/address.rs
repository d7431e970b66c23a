//! Choosing the addresses to publish for a host.

use vstd::prelude::*;

verus! {

/// The address families a run may publish.
#[derive(Clone, Copy, Debug, PartialEq, Eq)]
pub enum IpMode {
    Both,
    V4Only,
    V6Only,
}

/// The family of an address, which decides the type of its record.
#[derive(Clone, Copy, Debug, PartialEq, Eq)]
pub enum AddressFamily {
    V4,
    V6,
}

/// An IP address, held by its octets in network order.
#[derive(Clone, Copy, Debug, PartialEq, Eq)]
pub enum IpAddress {
    V4([u8; 4]),
    V6([u8; 16]),
}

/// Why no address set could be produced.
#[derive(Debug, PartialEq, Eq)]
pub enum AddressError {
    /// Addresses were given explicitly, and none of them is of a family that the mode admits.
    NoCompatibleAddress,
    /// A single family was asked for and its local address could not be
    /// detected, for the cause that the lookup gave.
    AddressDetectionFailed { family: AddressFamily, cause: String },
    /// Both families were asked for and neither local address could be detected.
    NoAddressesAvailable,
}

/// An [`AddressError`] with its cause as text.
pub enum AddressFault {
    NoCompatibleAddress,
    AddressDetectionFailed { family: AddressFamily, cause: Seq<char> },
    NoAddressesAvailable,
}

impl View for AddressError {
    type V = AddressFault;

    open spec fn view(&self) -> AddressFault {
        match *self {
            AddressError::NoCompatibleAddress => AddressFault::NoCompatibleAddress,
            AddressError::AddressDetectionFailed { family, cause } => {
                AddressFault::AddressDetectionFailed { family, cause: cause@ }
            },
            AddressError::NoAddressesAvailable => AddressFault::NoAddressesAvailable,
        }
    }
}

/// The outcome of looking up the local address of one family.
#[derive(Debug, PartialEq, Eq)]
pub enum Detection<A> {
    /// The lookup was not made.
    Skipped,
    /// The lookup gave this address.
    Found(A),
    /// The lookup failed, for this cause.
    Failed(String),
}

impl<A> Detection<A> {
    /// The cause for which the lookup gave no address: the one it reported,
    /// and none where it was not made.
    pub open spec fn cause(self) -> Seq<char> {
        match self {
            Detection::Failed(cause) => cause@,
            _ => Seq::<char>::empty(),
        }
    }
}

impl IpAddress {
    /// The family of this address.
    pub open spec fn spec_family(self) -> AddressFamily {
        match self {
            IpAddress::V4(_) => AddressFamily::V4,
            IpAddress::V6(_) => AddressFamily::V6,
        }
    }

    /// The family of this address.
    #[verifier::when_used_as_spec(spec_family)]
    pub fn family(self) -> (family: AddressFamily)
        ensures
            family == self.spec_family(),
    {
        match self {
            IpAddress::V4(_) => AddressFamily::V4,
            IpAddress::V6(_) => AddressFamily::V6,
        }
    }
}

impl IpMode {
    /// Whether the mode lets addresses of `family` be published.
    pub open spec fn spec_admits(self, family: AddressFamily) -> bool {
        match self {
            IpMode::Both => true,
            IpMode::V4Only => family == AddressFamily::V4,
            IpMode::V6Only => family == AddressFamily::V6,
        }
    }

    /// Whether the mode lets addresses of `family` be published.
    #[verifier::when_used_as_spec(spec_admits)]
    pub fn admits(self, family: AddressFamily) -> (admitted: bool)
        ensures
            admitted == self.spec_admits(family),
    {
        match self {
            IpMode::Both => true,
            IpMode::V4Only => match family {
                AddressFamily::V4 => true,
                AddressFamily::V6 => false,
            },
            IpMode::V6Only => match family {
                AddressFamily::V4 => false,
                AddressFamily::V6 => true,
            },
        }
    }
}

/// A non-empty list of addresses to publish, in the order in which they were given
/// or detected.
#[derive(Debug, PartialEq, Eq)]
pub struct AddressSet {
    addresses: Vec<IpAddress>,
}

impl View for AddressSet {
    type V = Seq<IpAddress>;

    closed spec fn view(&self) -> Seq<IpAddress> {
        self.addresses@
    }
}

impl AddressSet {
    #[verifier::type_invariant]
    spec fn holds_an_address(self) -> bool {
        self.addresses@.len() > 0
    }

    /// The set that holds `addresses` in their order, unless there are none.
    pub fn new(addresses: Vec<IpAddress>) -> (set: Option<AddressSet>)
        ensures
            set is Some <==> addresses@.len() > 0,
            set matches Some(s) ==> s@ == addresses@,
    {
        if addresses.len() == 0 {
            None
        } else {
            Some(AddressSet { addresses })
        }
    }

    /// How many addresses the set holds: at least one.
    pub fn len(&self) -> (len: usize)
        ensures
            len == self@.len(),
            len > 0,
    {
        proof {
            use_type_invariant(self);
        }
        self.addresses.len()
    }

    /// The address at position `index`.
    pub fn get(&self, index: usize) -> (address: Option<IpAddress>)
        ensures
            address == (if index < self@.len() {
                Some(self@[index as int])
            } else {
                None
            }),
    {
        if index < self.addresses.len() {
            Some(self.addresses[index])
        } else {
            None
        }
    }

    /// The addresses in order.
    pub fn as_vec(&self) -> (addresses: &Vec<IpAddress>)
        ensures
            addresses@ == self@,
            addresses@.len() > 0,
    {
        proof {
            use_type_invariant(self);
        }
        &self.addresses
    }
}

/// Which local addresses have to be looked up before addresses can be chosen.
#[derive(Clone, Copy, Debug, PartialEq, Eq)]
pub struct DetectionPlan {
    pub v4: bool,
    pub v6: bool,
}

/// The predicate that keeps the addresses whose family `mode` admits.
pub open spec fn admitted_by(mode: IpMode) -> spec_fn(IpAddress) -> bool {
    |address: IpAddress| mode.spec_admits(address.spec_family())
}

/// The lookups that a run needs: none when addresses were given explicitly,
/// otherwise one for each family that `mode` admits.
pub open spec fn spec_detection_plan(mode: IpMode, explicit: Seq<IpAddress>) -> DetectionPlan {
    DetectionPlan {
        v4: explicit.len() == 0 && mode.spec_admits(AddressFamily::V4),
        v6: explicit.len() == 0 && mode.spec_admits(AddressFamily::V6),
    }
}

/// The address that a lookup for IPv4 contributes, if any.
pub open spec fn found_v4(detected: Detection<[u8; 4]>) -> Seq<IpAddress> {
    match detected {
        Detection::Found(octets) => seq![IpAddress::V4(octets)],
        _ => Seq::<IpAddress>::empty(),
    }
}

/// The address that a lookup for IPv6 contributes, if any.
pub open spec fn found_v6(detected: Detection<[u8; 16]>) -> Seq<IpAddress> {
    match detected {
        Detection::Found(octets) => seq![IpAddress::V6(octets)],
        _ => Seq::<IpAddress>::empty(),
    }
}

/// What the lookup of a single family yields: its address, or the failure
/// with the family and the cause of the lookup.
pub open spec fn single_family(
    family: AddressFamily,
    found: Seq<IpAddress>,
    cause: Seq<char>,
) -> Result<Seq<IpAddress>, AddressFault> {
    if found.len() > 0 {
        Ok(found)
    } else {
        Err(AddressFault::AddressDetectionFailed { family, cause })
    }
}

/// What address selection yields.
///
/// Explicit addresses win over detection and are filtered by family. Without
/// them, a single-family mode looks at the lookup of its own family alone and
/// fails with that lookup's cause, and `Both` takes whatever was detected,
/// the IPv4 address first, as long as it is something.
pub open spec fn select_addresses(
    mode: IpMode,
    explicit: Seq<IpAddress>,
    detected_v4: Detection<[u8; 4]>,
    detected_v6: Detection<[u8; 16]>,
) -> Result<Seq<IpAddress>, AddressFault> {
    if explicit.len() > 0 {
        let kept = explicit.filter(admitted_by(mode));
        if kept.len() > 0 {
            Ok(kept)
        } else {
            Err(AddressFault::NoCompatibleAddress)
        }
    } else {
        match mode {
            IpMode::V4Only => single_family(
                AddressFamily::V4,
                found_v4(detected_v4),
                detected_v4.cause(),
            ),
            IpMode::V6Only => single_family(
                AddressFamily::V6,
                found_v6(detected_v6),
                detected_v6.cause(),
            ),
            IpMode::Both => {
                let detected = found_v4(detected_v4) + found_v6(detected_v6);
                if detected.len() > 0 {
                    Ok(detected)
                } else {
                    Err(AddressFault::NoAddressesAvailable)
                }
            },
        }
    }
}

/// Says which local addresses to look up before calling [`determine_ips`].
pub fn detection_plan(mode: IpMode, explicit: &Vec<IpAddress>) -> (plan: DetectionPlan)
    ensures
        plan == spec_detection_plan(mode, explicit@),
{
    let detect = explicit.len() == 0;
    DetectionPlan {
        v4: detect && mode.admits(AddressFamily::V4),
        v6: detect && mode.admits(AddressFamily::V6),
    }
}

/// Keeps the addresses of `explicit` whose family `mode` admits, in their order.
pub fn filter_compatible(mode: IpMode, explicit: &Vec<IpAddress>) -> (kept: Vec<IpAddress>)
    ensures
        kept@ == explicit@.filter(admitted_by(mode)),
{
    let mut kept: Vec<IpAddress> = Vec::new();
    let mut index: usize = 0;
    proof {
        reveal(Seq::filter);
    }
    while index < explicit.len()
        invariant
            index <= explicit@.len(),
            kept@ == explicit@.take(index as int).filter(admitted_by(mode)),
        decreases explicit@.len() - index,
    {
        let address = explicit[index];
        proof {
            reveal(Seq::filter);
            let next = explicit@.take(index + 1);
            assert(next.drop_last() == explicit@.take(index as int));
            assert(next.last() == address);
        }
        if mode.admits(address.family()) {
            kept.push(address);
        }
        index = index + 1;
    }
    proof {
        assert(explicit@.take(index as int) == explicit@);
    }
    kept
}

/// Gives the cause of a lookup that found nothing as the failure of `family`.
fn detection_failed<A>(family: AddressFamily, detected: Detection<A>) -> (error: AddressError)
    requires
        !(detected is Found),
    ensures
        error@ == (AddressFault::AddressDetectionFailed { family, cause: detected.cause() }),
{
    match detected {
        Detection::Failed(cause) => AddressError::AddressDetectionFailed { family, cause },
        _ => AddressError::AddressDetectionFailed { family, cause: String::new() },
    }
}

/// Chooses the addresses to publish.
///
/// `detected_v4` and `detected_v6` are the outcomes of the lookups that
/// [`detection_plan`] asked for, and `Skipped` for the others.
pub fn determine_ips(
    mode: IpMode,
    explicit: Vec<IpAddress>,
    detected_v4: Detection<[u8; 4]>,
    detected_v6: Detection<[u8; 16]>,
) -> (res: Result<AddressSet, AddressError>)
    ensures
        match res {
            Ok(set) => select_addresses(mode, explicit@, detected_v4, detected_v6) == Ok::<
                Seq<IpAddress>,
                AddressFault,
            >(set@),
            Err(error) => select_addresses(mode, explicit@, detected_v4, detected_v6) == Err::<
                Seq<IpAddress>,
                AddressFault,
            >(error@),
        },
{
    if explicit.len() > 0 {
        let kept = filter_compatible(mode, &explicit);
        return match AddressSet::new(kept) {
            Some(set) => Ok(set),
            None => Err(AddressError::NoCompatibleAddress),
        };
    }
    let mut detected: Vec<IpAddress> = Vec::new();
    if mode.admits(AddressFamily::V4) {
        match detected_v4 {
            Detection::Found(octets) => {
                detected.push(IpAddress::V4(octets));
            },
            missing => {
                if let IpMode::V4Only = mode {
                    return Err(detection_failed(AddressFamily::V4, missing));
                }
            },
        }
    }
    if mode.admits(AddressFamily::V6) {
        match detected_v6 {
            Detection::Found(octets) => {
                detected.push(IpAddress::V6(octets));
            },
            missing => {
                if let IpMode::V6Only = mode {
                    return Err(detection_failed(AddressFamily::V6, missing));
                }
            },
        }
    }
    proof {
        match mode {
            IpMode::V4Only => {
                assert(detected@ =~= found_v4(detected_v4));
            },
            IpMode::V6Only => {
                assert(detected@ =~= found_v6(detected_v6));
            },
            IpMode::Both => {
                assert(detected@ =~= found_v4(detected_v4) + found_v6(detected_v6));
            },
        }
    }
    match AddressSet::new(detected) {
        Some(set) => Ok(set),
        None => Err(AddressError::NoAddressesAvailable),
    }
}

/// Whatever is selected is something, and of a family that the mode admits.
pub proof fn lemma_selected_addresses_are_admitted(
    mode: IpMode,
    explicit: Seq<IpAddress>,
    detected_v4: Detection<[u8; 4]>,
    detected_v6: Detection<[u8; 16]>,
    selected: Seq<IpAddress>,
)
    requires
        select_addresses(mode, explicit, detected_v4, detected_v6) == Ok::<
            Seq<IpAddress>,
            AddressFault,
        >(selected),
    ensures
        selected.len() > 0,
        forall|i: int|
            0 <= i < selected.len() ==> mode.spec_admits((#[trigger] selected[i]).spec_family()),
{
    if explicit.len() > 0 {
        assert forall|i: int| 0 <= i < selected.len() implies mode.spec_admits(
            (#[trigger] selected[i]).spec_family(),
        ) by {
            explicit.lemma_filter_pred(admitted_by(mode), i);
        }
    }
}

/// A lookup that the plan does not ask for has no say: it may be skipped
/// without changing what is selected.
pub proof fn lemma_unplanned_detection_is_ignored(
    mode: IpMode,
    explicit: Seq<IpAddress>,
    detected_v4: Detection<[u8; 4]>,
    detected_v6: Detection<[u8; 16]>,
)
    ensures
        !spec_detection_plan(mode, explicit).v4 ==> select_addresses(
            mode,
            explicit,
            detected_v4,
            detected_v6,
        ) == select_addresses(mode, explicit, Detection::Skipped, detected_v6),
        !spec_detection_plan(mode, explicit).v6 ==> select_addresses(
            mode,
            explicit,
            detected_v4,
            detected_v6,
        ) == select_addresses(mode, explicit, detected_v4, Detection::Skipped),
{
}

/// In a single-family mode the lookup of that family decides alone: where it
/// found nothing, selection fails with the family and the lookup's cause,
/// whatever the lookup of the other family gave.
pub proof fn lemma_single_family_is_not_rescued(
    detected_v4: Detection<[u8; 4]>,
    detected_v6: Detection<[u8; 16]>,
)
    ensures
        !(detected_v4 is Found) ==> select_addresses(
            IpMode::V4Only,
            Seq::empty(),
            detected_v4,
            detected_v6,
        ) == Err::<Seq<IpAddress>, AddressFault>(
            AddressFault::AddressDetectionFailed {
                family: AddressFamily::V4,
                cause: detected_v4.cause(),
            },
        ),
        !(detected_v6 is Found) ==> select_addresses(
            IpMode::V6Only,
            Seq::empty(),
            detected_v4,
            detected_v6,
        ) == Err::<Seq<IpAddress>, AddressFault>(
            AddressFault::AddressDetectionFailed {
                family: AddressFamily::V6,
                cause: detected_v6.cause(),
            },
        ),
{
}

} // verus!
