//! The network-facing types of the Linux runtime and the address and
//! clock-identity selection rules, separated from the socket I/O that
//! acts on them.

use vstd::prelude::*;

verus! {

/// The port of the time-critical (event) socket.
pub const TIME_CRITICAL_PORT: u16 = 319;

/// The port of the non-time-critical (general) socket.
pub const NON_TIME_CRITICAL_PORT: u16 = 320;

/// A handle on the OS clock that the runtime disciplines, named by its
/// clock id.
#[derive(Debug, Clone, Copy, PartialEq, Eq, Structural)]
pub struct LinuxClock {
    pub clock_id: i32,
}

/// The Linux network runtime: whether hardware timestamping is in use,
/// and which clock timestamps fall back to.
#[derive(Debug, Clone, Copy, PartialEq, Eq, Structural)]
pub struct LinuxRuntime {
    pub hardware_timestamping: bool,
    pub clock: LinuxClock,
}

impl LinuxRuntime {
    /// Builds a runtime for the given timestamping mode and clock.
    pub fn new(hardware_timestamping: bool, clock: &LinuxClock) -> (r: LinuxRuntime)
        ensures
            r.hardware_timestamping == hardware_timestamping,
            r.clock == *clock,
    {
        LinuxRuntime { hardware_timestamping, clock: *clock }
    }

    /// The primary IPv4 multicast group, 224.0.1.129.
    pub fn ipv4_primary_multicast() -> (r: [u8; 4])
        ensures
            r@ =~= seq![224u8, 0u8, 1u8, 129u8],
    {
        [224, 0, 1, 129]
    }

    /// The peer-delay IPv4 multicast group, 224.0.0.107.
    pub fn ipv4_pdelay_multicast() -> (r: [u8; 4])
        ensures
            r@ =~= seq![224u8, 0u8, 0u8, 107u8],
    {
        [224, 0, 0, 107]
    }

    /// The primary IPv6 multicast group, FF0E::181.
    pub fn ipv6_primary_multicast() -> (r: [u8; 16])
        ensures
            r@ =~= seq![
                0xFFu8, 0x0Eu8, 0u8, 0u8, 0u8, 0u8, 0u8, 0u8, 0u8, 0u8, 0u8, 0u8, 0u8, 0u8, 0x01u8,
                0x81u8,
            ],
    {
        [0xFF, 0x0E, 0, 0, 0, 0, 0, 0, 0, 0, 0, 0, 0, 0, 0x01, 0x81]
    }

    /// The peer-delay IPv6 multicast group, FF02::6B.
    pub fn ipv6_pdelay_multicast() -> (r: [u8; 16])
        ensures
            r@ =~= seq![
                0xFFu8, 0x02u8, 0u8, 0u8, 0u8, 0u8, 0u8, 0u8, 0u8, 0u8, 0u8, 0u8, 0u8, 0u8, 0u8,
                0x6Bu8,
            ],
    {
        [0xFF, 0x02, 0, 0, 0, 0, 0, 0, 0, 0, 0, 0, 0, 0, 0, 0x6B]
    }
}

/// Whether a port runs over IPv4 or IPv6.
#[derive(Debug, Clone, Copy, PartialEq, Eq, Structural)]
pub enum LinuxNetworkMode {
    Ipv4,
    Ipv6,
}

/// An IP address as its raw octets.
#[derive(Debug, Clone, Copy, PartialEq, Eq)]
pub enum IpAddress {
    V4([u8; 4]),
    V6([u8; 16]),
}

impl IpAddress {
    /// The all-zero, unspecified address of either family.
    pub open spec fn spec_unspecified(self) -> bool {
        match self {
            IpAddress::V4(o) => forall|i: int| 0 <= i < 4 ==> #[trigger] o@[i] == 0,
            IpAddress::V6(o) => forall|i: int| 0 <= i < 16 ==> #[trigger] o@[i] == 0,
        }
    }

    /// Whether this is the unspecified (all-zero) address.
    pub fn is_unspecified(&self) -> (r: bool)
        ensures
            r == self.spec_unspecified(),
    {
        match *self {
            IpAddress::V4(o) => {
                let mut i: usize = 0;
                while i < 4
                    invariant
                        0 <= i <= 4,
                        *self == IpAddress::V4(o),
                        forall|j: int| 0 <= j < i ==> o@[j] == 0,
                    decreases 4 - i,
                {
                    if o[i] != 0 {
                        proof {
                            assert(self->V4_0@[i as int] != 0);
                            assert(!self.spec_unspecified());
                        }
                        return false;
                    }
                    i = i + 1;
                }
                true
            },
            IpAddress::V6(o) => {
                let mut i: usize = 0;
                while i < 16
                    invariant
                        0 <= i <= 16,
                        *self == IpAddress::V6(o),
                        forall|j: int| 0 <= j < i ==> o@[j] == 0,
                    decreases 16 - i,
                {
                    if o[i] != 0 {
                        proof {
                            assert(self->V6_0@[i as int] != 0);
                            assert(!self.spec_unspecified());
                        }
                        return false;
                    }
                    i = i + 1;
                }
                true
            },
        }
    }

    /// Whether this is an IPv4 address.
    pub fn is_ipv4(&self) -> (r: bool)
        ensures
            r == (self is V4),
    {
        match *self {
            IpAddress::V4(_) => true,
            IpAddress::V6(_) => false,
        }
    }
}

/// The address to bind the sockets to: the unspecified address of the
/// configured family.
pub fn bind_address(mode: &LinuxNetworkMode) -> (r: IpAddress)
    ensures
        r.spec_unspecified(),
        r is V6 <==> mode is Ipv6,
{
    let r = match mode {
        LinuxNetworkMode::Ipv6 => IpAddress::V6([0; 16]),
        LinuxNetworkMode::Ipv4 => IpAddress::V4([0; 4]),
    };
    r
}

/// One entry of the OS interface listing: the interface name and
/// whichever addresses the entry carries.
#[derive(Debug, Clone)]
pub struct InterfaceAddressEntry {
    pub interface_name: String,
    pub ipv4: Option<[u8; 4]>,
    pub ipv6: Option<[u8; 16]>,
    pub mac: Option<[u8; 6]>,
}

/// A named network interface, or the unspecified interface of a family.
#[derive(Debug, Clone)]
pub struct LinuxInterfaceDescriptor {
    pub interface_name: Option<String>,
    pub mode: LinuxNetworkMode,
}

/// Failure of the network runtime.
#[derive(Debug)]
pub enum NetworkError {
    UnknownError,
    NoBindPermission(u16),
    AddressInUse(u16),
    BindToDeviceFailed,
    CannotIterateInterfaces,
    InterfaceDoesNotExist,
    NoMorePackets,
    IoError(std::io::Error),
}

#[verifier::external_type_specification]
#[verifier::external_body]
pub struct ExIoError(std::io::Error);

/// Two byte strings are equal.
pub fn bytes_eq(a: &[u8], b: &[u8]) -> (r: bool)
    ensures
        r == (a@ =~= b@),
{
    if a.len() != b.len() {
        return false;
    }
    let mut i: usize = 0;
    while i < a.len()
        invariant
            0 <= i <= a@.len(),
            a@.len() == b@.len(),
            forall|j: int| 0 <= j < i ==> a@[j] == b@[j],
        decreases a@.len() - i,
    {
        if a[i] != b[i] {
            return false;
        }
        i = i + 1;
    }
    true
}

/// The entry offers `address`: it carries an address of the same family
/// with the same octets.
pub open spec fn spec_if_has_address(entry: InterfaceAddressEntry, address: IpAddress) -> bool {
    match address {
        IpAddress::V4(a) => match entry.ipv4 {
            Some(b) => a@ == b@,
            None => false,
        },
        IpAddress::V6(a) => match entry.ipv6 {
            Some(b) => a@ == b@,
            None => false,
        },
    }
}

/// Whether the interface entry carries exactly the given address.
pub fn if_has_address(entry: &InterfaceAddressEntry, address: &IpAddress) -> (r: bool)
    ensures
        r == spec_if_has_address(*entry, *address),
{
    match address {
        IpAddress::V4(a) => match &entry.ipv4 {
            Some(b) => bytes_eq(a.as_slice(), b.as_slice()),
            None => false,
        },
        IpAddress::V6(a) => match &entry.ipv6 {
            Some(b) => bytes_eq(a.as_slice(), b.as_slice()),
            None => false,
        },
    }
}

/// Whether an interface of the given name appears in the listing.
pub fn if_name_exists(interfaces: &Vec<InterfaceAddressEntry>, name: &String) -> (r: bool)
    ensures
        r == exists|i: int|
            0 <= i < interfaces@.len() && interfaces@[i].interface_name@ == name@,
{
    let mut i: usize = 0;
    while i < interfaces.len()
        invariant
            0 <= i <= interfaces@.len(),
            forall|j: int| 0 <= j < i ==> interfaces@[j].interface_name@ != name@,
        decreases interfaces@.len() - i,
    {
        if interfaces[i].interface_name.eq(name) {
            proof {
                assert(interfaces@[i as int].interface_name@ == name@);
            }
            return true;
        }
        i = i + 1;
    }
    false
}

/// A MAC address may seed the clock identity: it is neither a group nor
/// a locally administered address, and is not all zero.
pub open spec fn spec_mac_eligible(mac: Seq<u8>) -> bool {
    &&& mac.len() > 0
    &&& mac[0] & 0x3 == 0
    &&& exists|i: int| 0 <= i < mac.len() && mac[i] != 0
}

/// The clock identity that a MAC address seeds: its bytes, zero-padded
/// to eight octets.
pub open spec fn spec_mac_clock_id(mac: Seq<u8>) -> Seq<u8> {
    mac + Seq::new((8 - mac.len()) as nat, |i: int| 0u8)
}

/// The clock identity chosen from an interface listing: the one seeded
/// by the first eligible MAC address, if any entry has one.
pub open spec fn spec_clock_id_choice(macs: Seq<Vec<u8>>) -> Option<Seq<u8>>
    decreases macs.len(),
{
    if macs.len() == 0 {
        None
    } else if spec_mac_eligible(macs[0]@) {
        Some(spec_mac_clock_id(macs[0]@))
    } else {
        spec_clock_id_choice(macs.drop_first())
    }
}

/// Picks the clock identity out of the MAC addresses of the machine's
/// interfaces: the first that is neither a group address, nor locally
/// administered, nor all zero, zero-padded to eight octets.
pub fn clock_id_from_macs(macs: &Vec<Vec<u8>>) -> (r: Option<[u8; 8]>)
    requires
        forall|i: int| 0 <= i < macs@.len() ==> macs@[i]@.len() == 6,
    ensures
        match r {
            Some(id) => spec_clock_id_choice(macs@) == Some(id@),
            None => spec_clock_id_choice(macs@) is None,
        },
{
    let mut i: usize = 0;
    proof {
        assert(macs@.skip(0) =~= macs@);
    }
    while i < macs.len()
        invariant
            0 <= i <= macs@.len(),
            forall|j: int| 0 <= j < macs@.len() ==> macs@[j]@.len() == 6,
            spec_clock_id_choice(macs@) == spec_clock_id_choice(macs@.skip(i as int)),
        decreases macs@.len() - i,
    {
        let mac = &macs[i];
        let eligible: bool = mac[0] & 0x3 == 0;
        let mut any_nonzero: bool = false;
        let mut k: usize = 0;
        while k < mac.len()
            invariant
                0 <= k <= mac@.len(),
                any_nonzero == exists|j: int| 0 <= j < k && mac@[j] != 0,
            decreases mac@.len() - k,
        {
            if mac[k] != 0 {
                any_nonzero = true;
            }
            k = k + 1;
        }
        if eligible && any_nonzero {
            let mut result: [u8; 8] = [0; 8];
            let mut m: usize = 0;
            while m < 6
                invariant
                    0 <= m <= 6,
                    mac@ == macs@[i as int]@,
                    mac@.len() == 6,
                    i < macs@.len(),
                    result@.len() == 8,
                    forall|j: int| 0 <= j < m ==> result@[j] == macs@[i as int]@[j],
                    forall|j: int| m <= j < 8 ==> result@[j] == 0,
                decreases 6 - m,
            {
                result[m] = mac[m];
                m = m + 1;
            }
            proof {
                assert(spec_mac_eligible(macs@[i as int]@));
                assert(result@ =~= spec_mac_clock_id(macs@[i as int]@));
                assert(macs@.skip(i as int)[0] == macs@[i as int]);
            }
            return Some(result);
        }
        proof {
            assert(macs@.skip(i as int)[0] == macs@[i as int]);
            assert(!spec_mac_eligible(macs@[i as int]@));
            assert(macs@.skip(i as int).drop_first() =~= macs@.skip(i + 1));
        }
        i = i + 1;
    }
    proof {
        assert(macs@.skip(macs@.len() as int).len() == 0);
    }
    None
}

/// The interface descriptor chosen for a textual port configuration,
/// once the OS has supplied the interface listing and the text has been
/// tried as an IP address:
///
/// * an unspecified address names no interface, in its family;
/// * any other address names the first interface carrying it;
/// * text that is no address names the interface of that name;
/// * otherwise the interface does not exist.
pub fn descriptor_for_input(
    interfaces: &Vec<InterfaceAddressEntry>,
    input: &String,
    parsed: Option<IpAddress>,
) -> (r: Result<LinuxInterfaceDescriptor, NetworkError>)
    ensures
        r is Err ==> r->Err_0 is InterfaceDoesNotExist,
        match parsed {
            Some(address) => {
                &&& address.spec_unspecified() ==> r is Ok && r->Ok_0.interface_name is None && (
                r->Ok_0.mode is Ipv4 <==> address is V4)
                &&& !address.spec_unspecified() ==> {
                    if exists|i: int|
                        0 <= i < interfaces@.len() && spec_if_has_address(
                            interfaces@[i],
                            address,
                        ) {
                        r is Ok && r->Ok_0.mode is Ipv4 && match r->Ok_0.interface_name {
                            Some(name) => exists|i: int|
                                0 <= i < interfaces@.len() && interfaces@[i].interface_name@
                                    == name@ && spec_if_has_address(interfaces@[i], address),
                            None => false,
                        }
                    } else {
                        r is Err
                    }
                }
            },
            None => {
                if exists|i: int|
                    0 <= i < interfaces@.len() && interfaces@[i].interface_name@ == input@ {
                    r is Ok && r->Ok_0.mode is Ipv4 && match r->Ok_0.interface_name {
                        Some(name) => name@ == input@,
                        None => false,
                    }
                } else {
                    r is Err
                }
            },
        },
{
    match parsed {
        Some(address) => {
            if address.is_unspecified() {
                return Ok(
                    LinuxInterfaceDescriptor {
                        interface_name: None,
                        mode: if address.is_ipv4() {
                            LinuxNetworkMode::Ipv4
                        } else {
                            LinuxNetworkMode::Ipv6
                        },
                    },
                );
            }
            let mut i: usize = 0;
            while i < interfaces.len()
                invariant
                    0 <= i <= interfaces@.len(),
                    parsed == Some(address),
                    !address.spec_unspecified(),
                    forall|j: int| 0 <= j < i ==> !spec_if_has_address(interfaces@[j], address),
                decreases interfaces@.len() - i,
            {
                if if_has_address(&interfaces[i], &address) {
                    let name = interfaces[i].interface_name.clone();
                    proof {
                        assert(spec_if_has_address(interfaces@[i as int], address));
                        assert(interfaces@[i as int].interface_name@ == name@);
                        assert(exists|k: int|
                            0 <= k < interfaces@.len() && spec_if_has_address(
                                interfaces@[k],
                                address,
                            ));
                        assert(exists|k: int|
                            0 <= k < interfaces@.len() && interfaces@[k].interface_name@ == name@
                                && spec_if_has_address(interfaces@[k], address));
                    }
                    return Ok(
                        LinuxInterfaceDescriptor {
                            interface_name: Some(name),
                            mode: LinuxNetworkMode::Ipv4,
                        },
                    );
                }
                i = i + 1;
            }
            Err(NetworkError::InterfaceDoesNotExist)
        },
        None => {
            if if_name_exists(interfaces, input) {
                Ok(
                    LinuxInterfaceDescriptor {
                        interface_name: Some(input.clone()),
                        mode: LinuxNetworkMode::Ipv4,
                    },
                )
            } else {
                Err(NetworkError::InterfaceDoesNotExist)
            }
        },
    }
}

/// The address of the configured family that one listing entry carries,
/// if it carries one.
pub open spec fn spec_family_address(entry: InterfaceAddressEntry, mode: LinuxNetworkMode)
    -> Option<IpAddress> {
    match mode {
        LinuxNetworkMode::Ipv6 => match entry.ipv6 {
            Some(octets) => Some(IpAddress::V6(octets)),
            None => None,
        },
        LinuxNetworkMode::Ipv4 => match entry.ipv4 {
            Some(octets) => Some(IpAddress::V4(octets)),
            None => None,
        },
    }
}

/// The address a named interface offers: that of the first listing
/// entry of the name that carries an address of the configured family.
pub open spec fn spec_address_for_name(
    entries: Seq<InterfaceAddressEntry>,
    name: Seq<char>,
    mode: LinuxNetworkMode,
) -> Option<IpAddress>
    decreases entries.len(),
{
    if entries.len() == 0 {
        None
    } else if entries[0].interface_name@ == name && spec_family_address(entries[0], mode)
        is Some {
        spec_family_address(entries[0], mode)
    } else {
        spec_address_for_name(entries.drop_first(), name, mode)
    }
}

/// The address that a descriptor binds multicast traffic on, given the
/// interface listing:
///
/// * a named interface yields the address of the first listing entry of
///   that name carrying an address of the configured family, and
///   `InterfaceDoesNotExist` when no entry does;
/// * an unnamed descriptor yields the unspecified address of the family.
pub fn address_for_interface(
    descriptor: &LinuxInterfaceDescriptor,
    interfaces: &Vec<InterfaceAddressEntry>,
) -> (r: Result<IpAddress, NetworkError>)
    ensures
        match descriptor.interface_name {
            Some(name) => {
                match spec_address_for_name(interfaces@, name@, descriptor.mode) {
                    Some(address) => r == Ok::<IpAddress, NetworkError>(address),
                    None => r is Err && r->Err_0 is InterfaceDoesNotExist,
                }
            },
            None => r is Ok && r->Ok_0.spec_unspecified() && (r->Ok_0 is V6 <==> descriptor.mode
                is Ipv6),
        },
{
    match &descriptor.interface_name {
        Some(name) => {
            let mut i: usize = 0;
            proof {
                assert(interfaces@.skip(0) =~= interfaces@);
            }
            while i < interfaces.len()
                invariant
                    0 <= i <= interfaces@.len(),
                    descriptor.interface_name == Some(*name),
                    spec_address_for_name(interfaces@, name@, descriptor.mode)
                        == spec_address_for_name(
                        interfaces@.skip(i as int),
                        name@,
                        descriptor.mode,
                    ),
                decreases interfaces@.len() - i,
            {
                proof {
                    assert(interfaces@.skip(i as int)[0] == interfaces@[i as int]);
                    assert(interfaces@.skip(i as int).drop_first() =~= interfaces@.skip(i + 1));
                }
                if interfaces[i].interface_name.eq(name) {
                    proof {
                        assert(interfaces@[i as int].interface_name@ == name@);
                    }
                    match descriptor.mode {
                        LinuxNetworkMode::Ipv6 => {
                            if let Some(ip) = interfaces[i].ipv6 {
                                return Ok(IpAddress::V6(ip));
                            }
                        },
                        LinuxNetworkMode::Ipv4 => {
                            if let Some(ip) = interfaces[i].ipv4 {
                                return Ok(IpAddress::V4(ip));
                            }
                        },
                    }
                }
                i = i + 1;
            }
            proof {
                assert(interfaces@.skip(interfaces@.len() as int).len() == 0);
            }
            Err(NetworkError::InterfaceDoesNotExist)
        },
        None => {
            if let LinuxNetworkMode::Ipv6 = descriptor.mode {
                Ok(IpAddress::V6([0; 16]))
            } else {
                Ok(IpAddress::V4([0; 4]))
            }
        },
    }
}

} // verus!
