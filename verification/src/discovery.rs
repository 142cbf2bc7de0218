//! The discovery of the Pod IP: the local address that the route to the control plane starts from.
//!
//! The state says what is to be done next; what came of it is handed back as an event.
use crate::config::usable_url;
use crate::error::{Step, WorkerError};
use crate::net::{dotted, dotted_text, IpAddress, SocketAddress};
use crate::url::{parse_url, parse_view, parsed_url, ParsedUrl};
use vstd::prelude::*;

verus! {

/// What is to be done next, or what the discovery came to.
#[derive(Debug, PartialEq, Eq)]
pub enum Discovery {
    /// Look up the addresses of a host.
    Resolve { host: String, port: u16 },
    /// Open a UDP socket at `bind`.
    OpenSocket { bind: SocketAddress, target: SocketAddress },
    /// Connect the socket to `target`.
    Connect { target: SocketAddress },
    /// Read the local address of the socket.
    Inspect,
    /// Nothing.
    Done(Result<IpAddress, WorkerError>),
}

/// What came of what was to be done.
#[derive(Debug, PartialEq, Eq)]
pub enum DiscoveryEvent {
    /// The addresses that the host has, in the order in which they were found.
    Resolved(Result<Vec<SocketAddress>, String>),
    SocketOpened(Result<(), String>),
    Connected(Result<(), String>),
    /// The local address of the socket.
    Inspected(Result<IpAddress, String>),
}

/// Whether the discovery failed in `step` for `cause`.
pub open spec fn failed_in(state: Discovery, step: Step, cause: Seq<char>) -> bool {
    state matches Discovery::Done(Err(WorkerError::Failed { step: failed, cause: told })) && failed
        == step && told@ == cause
}

/// How the discovery starts, given what parsing the control-plane URL returned.
pub open spec fn discovery_starts(
    parsed: Result<(Seq<char>, Option<Seq<char>>, Option<u16>), Seq<char>>,
    r: Discovery,
) -> bool {
    match parsed {
        Err(reason) => failed_in(r, Step::ParseUrl, reason),
        Ok((_, None, _)) => r == Discovery::Done(Err(WorkerError::NoHost)),
        Ok((_, Some(_), None)) => r == Discovery::Done(Err(WorkerError::NoPort)),
        Ok((_, Some(host), Some(port))) => r matches Discovery::Resolve { host: asked, port: at }
            && asked@ == host && at == port,
    }
}

/// Whether `bind` is any address, at any port, of the family of `target`.
pub open spec fn any_address_for(target: SocketAddress, bind: SocketAddress) -> bool {
    match target {
        SocketAddress::V4 { .. } => bind matches SocketAddress::V4 { octets, port } && octets@
            == seq![0u8, 0u8, 0u8, 0u8] && port == 0,
        SocketAddress::V6 { .. } => bind matches SocketAddress::V6 {
            segments,
            port,
            flowinfo,
            scope_id,
        } && segments@ == crate::net::last_segment(0) && port == 0 && flowinfo == 0 && scope_id
            == 0,
    }
}

/// Whether the control plane can reach a worker at `ip`.
pub open spec fn routable(ip: IpAddress) -> bool {
    !ip.loopback() && !ip.unspecified()
}

/// How an address that is not routable is written.
pub open spec fn unroutable_text(ip: IpAddress) -> Seq<char> {
    match ip {
        IpAddress::V4(octets) => dotted(octets@),
        IpAddress::V6(_) => if ip.loopback() {
            "::1"@
        } else {
            "::"@
        },
    }
}

/// What an event does. An event that the discovery does not wait for does nothing.
pub open spec fn discovery_goes_on(s: Discovery, event: DiscoveryEvent, r: Discovery) -> bool {
    match (s, event) {
        (Discovery::Resolve { .. }, DiscoveryEvent::Resolved(Err(cause))) => failed_in(
            r,
            Step::Resolve,
            cause@,
        ),
        (Discovery::Resolve { .. }, DiscoveryEvent::Resolved(Ok(addresses))) => if addresses@.len()
            == 0 {
            r == Discovery::Done(Err(WorkerError::NoAddresses))
        } else {
            r matches Discovery::OpenSocket { bind, target } && target == addresses@[0]
                && any_address_for(target, bind)
        },
        (Discovery::OpenSocket { .. }, DiscoveryEvent::SocketOpened(Err(cause))) => failed_in(
            r,
            Step::OpenSocket,
            cause@,
        ),
        (Discovery::OpenSocket { target, .. }, DiscoveryEvent::SocketOpened(Ok(_))) => r
            == (Discovery::Connect { target }),
        (Discovery::Connect { .. }, DiscoveryEvent::Connected(Err(cause))) => failed_in(
            r,
            Step::SelectRoute,
            cause@,
        ),
        (Discovery::Connect { .. }, DiscoveryEvent::Connected(Ok(_))) => r == Discovery::Inspect,
        (Discovery::Inspect, DiscoveryEvent::Inspected(Err(cause))) => failed_in(
            r,
            Step::InspectSocket,
            cause@,
        ),
        (Discovery::Inspect, DiscoveryEvent::Inspected(Ok(ip))) => if routable(ip) {
            r == Discovery::Done(Ok(ip))
        } else {
            r matches Discovery::Done(Err(WorkerError::NotRoutable { ip: told })) && told@
                == unroutable_text(ip)
        },
        _ => r == s,
    }
}

/// Starts the discovery, given what parsing the control-plane URL returned.
pub fn start_discovery(parsed: Result<ParsedUrl, String>) -> (r: Discovery)
    ensures
        discovery_starts(parse_view(parsed), r),
{
    match parsed {
        Err(cause) => Discovery::Done(Err(WorkerError::Failed { step: Step::ParseUrl, cause })),
        Ok(url) => match url.host {
            None => Discovery::Done(Err(WorkerError::NoHost)),
            Some(host) => match url.port {
                None => Discovery::Done(Err(WorkerError::NoPort)),
                Some(port) => Discovery::Resolve { host, port },
            },
        },
    }
}

/// Starts the discovery of the Pod IP. With a URL that the configuration accepts it always gets as
/// far as asking for the addresses of the host.
pub fn discover_instance_ip(control_plane_url: &str) -> (r: Discovery)
    ensures
        discovery_starts(parsed_url(control_plane_url@), r),
        parsed_url(control_plane_url@) matches Ok(url) && usable_url(url) ==> r is Resolve,
{
    start_discovery(parse_url(control_plane_url))
}

fn any_address(target: &SocketAddress) -> (r: SocketAddress)
    ensures
        any_address_for(*target, r),
{
    match target {
        SocketAddress::V4 { .. } => {
            let octets: [u8; 4] = [0, 0, 0, 0];
            proof {
                assert(octets@ =~= seq![0u8, 0u8, 0u8, 0u8]);
            }
            SocketAddress::V4 { octets, port: 0 }
        },
        SocketAddress::V6 { .. } => {
            let segments: [u16; 8] = [0, 0, 0, 0, 0, 0, 0, 0];
            proof {
                assert(segments@ =~= crate::net::last_segment(0));
            }
            SocketAddress::V6 { segments, port: 0, flowinfo: 0, scope_id: 0 }
        },
    }
}

fn check_instance_ip(ip: IpAddress) -> (r: Result<IpAddress, WorkerError>)
    ensures
        match r {
            Ok(accepted) => routable(ip) && accepted == ip,
            Err(error) => !routable(ip) && (error matches WorkerError::NotRoutable { ip: told }
                && told@ == unroutable_text(ip)),
        },
{
    let loopback = ip.is_loopback();
    if loopback || ip.is_unspecified() {
        let told: String = match ip {
            IpAddress::V4(octets) => dotted_text(&octets),
            IpAddress::V6(_) => {
                if loopback {
                    "::1".to_owned()
                } else {
                    "::".to_owned()
                }
            },
        };
        Err(WorkerError::NotRoutable { ip: told })
    } else {
        Ok(ip)
    }
}

fn failed(step: Step, cause: String) -> (r: Discovery)
    ensures
        failed_in(r, step, cause@),
{
    Discovery::Done(Err(WorkerError::Failed { step, cause }))
}

impl Discovery {
    /// Takes in an event.
    pub fn step(self, event: DiscoveryEvent) -> (r: Self)
        ensures
            discovery_goes_on(self, event, r),
    {
        match (self, event) {
            (Discovery::Resolve { .. }, DiscoveryEvent::Resolved(found)) => match found {
                Err(cause) => failed(Step::Resolve, cause),
                Ok(addresses) => {
                    if addresses.len() == 0 {
                        Discovery::Done(Err(WorkerError::NoAddresses))
                    } else {
                        let target: SocketAddress = addresses[0];
                        Discovery::OpenSocket { bind: any_address(&target), target }
                    }
                },
            },
            (Discovery::OpenSocket { target, .. }, DiscoveryEvent::SocketOpened(opened)) =>
                match opened {
                    Err(cause) => failed(Step::OpenSocket, cause),
                    Ok(_) => Discovery::Connect { target },
                },
            (Discovery::Connect { .. }, DiscoveryEvent::Connected(connected)) => match connected {
                Err(cause) => failed(Step::SelectRoute, cause),
                Ok(_) => Discovery::Inspect,
            },
            (Discovery::Inspect, DiscoveryEvent::Inspected(inspected)) => match inspected {
                Err(cause) => failed(Step::InspectSocket, cause),
                Ok(ip) => Discovery::Done(check_instance_ip(ip)),
            },
            (state, _) => state,
        }
    }
}

/// Whether `states` are the states that a discovery passes through on `events`.
pub open spec fn discovery_run(states: Seq<Discovery>, events: Seq<DiscoveryEvent>) -> bool {
    &&& states.len() == events.len() + 1
    &&& forall|i: int|
        0 <= i < events.len() ==> #[trigger] discovery_goes_on(
            states[i],
            events[i],
            states[i + 1],
        )
}

/// Every address that a discovery ends with is routable, and is the local address of the socket as
/// it was read.
pub proof fn law_discovered_ip_is_routable(
    parsed: Result<(Seq<char>, Option<Seq<char>>, Option<u16>), Seq<char>>,
    states: Seq<Discovery>,
    events: Seq<DiscoveryEvent>,
    ip: IpAddress,
)
    requires
        discovery_run(states, events),
        discovery_starts(parsed, states[0]),
        states.last() == Discovery::Done(Ok(ip)),
    ensures
        routable(ip),
        events.contains(DiscoveryEvent::Inspected(Ok(ip))),
    decreases events.len(),
{
    let n = events.len() as int;
    if n > 0 {
        assert(discovery_goes_on(states[n - 1], events[n - 1], states[n - 1 + 1]));
        if states[n - 1] == Discovery::Done(Ok(ip)) {
            let before = states.drop_last();
            let earlier = events.drop_last();
            assert forall|i: int| 0 <= i < earlier.len() implies #[trigger] discovery_goes_on(
                before[i],
                earlier[i],
                before[i + 1],
            ) by {
                assert(discovery_goes_on(states[i], events[i], states[i + 1]));
            }
            law_discovered_ip_is_routable(parsed, before, earlier, ip);
            let k = choose|k: int|
                0 <= k < earlier.len() && earlier[k] == DiscoveryEvent::Inspected(Ok(ip));
            assert(events[k] == DiscoveryEvent::Inspected(Ok(ip)));
        } else {
            assert(events[n - 1] == DiscoveryEvent::Inspected(Ok(ip)));
        }
    }
}

/// The control plane can reach a worker at every IPv4 address but those of 127.0.0.0/8 and 0.0.0.0, and
/// at every IPv6 address but `::1` and `::`.
pub proof fn law_every_other_address_is_routable(octets: [u8; 4], segments: [u16; 8])
    ensures
        routable(IpAddress::V4(octets)) <==> octets@[0] != 127 && !(octets@[0] == 0 && octets@[1]
            == 0 && octets@[2] == 0 && octets@[3] == 0),
        routable(IpAddress::V6(segments)) <==> !((forall|i: int|
            0 <= i < 7 ==> #[trigger] segments@[i] == 0) && segments@[7] <= 1),
{
    crate::net::law_ipv4_is_told_by_its_octets(octets);
    crate::net::law_ipv6_is_told_by_its_segments(segments);
}

/// The local address that was read off the socket is what the discovery ends with, exactly where the
/// control plane can reach it; else it is reported, in its usual writing.
pub proof fn law_discovery_ends_with_the_local_address(ip: IpAddress, r: Discovery)
    requires
        discovery_goes_on(Discovery::Inspect, DiscoveryEvent::Inspected(Ok(ip)), r),
    ensures
        r == Discovery::Done(Ok(ip)) <==> !ip.loopback() && !ip.unspecified(),
        ip.loopback() || ip.unspecified() ==> (r matches Discovery::Done(
            Err(WorkerError::NotRoutable { ip: told }),
        ) && match ip {
            IpAddress::V4(octets) => crate::net::numbers(told@) == seq![
                octets@[0] as int,
                octets@[1] as int,
                octets@[2] as int,
                octets@[3] as int,
            ],
            IpAddress::V6(_) => told@ == if ip.loopback() {
                "::1"@
            } else {
                "::"@
            },
        }),
{
    if let IpAddress::V4(octets) = ip {
        crate::net::law_dotted_reads_back(octets@);
    }
}

/// The discovery asks for the addresses of exactly the host and the port of the URL. It fails before
/// that only for want of a URL, of a host or of a port, in this order.
pub proof fn law_discovery_asks_for_the_host_of_the_url(
    parsed: Result<(Seq<char>, Option<Seq<char>>, Option<u16>), Seq<char>>,
    r: Discovery,
)
    requires
        discovery_starts(parsed, r),
    ensures
        parsed matches Ok(url) ==> match (url.1, url.2) {
            (Some(name), Some(number)) => r matches Discovery::Resolve { host, port } && host@ == name
                && port == number,
            (None, _) => r == Discovery::Done(Err(WorkerError::NoHost)),
            (Some(_), None) => r == Discovery::Done(Err(WorkerError::NoPort)),
        },
        parsed matches Err(words) ==> (r matches Discovery::Done(
            Err(WorkerError::Failed { step, cause }),
        ) && step == Step::ParseUrl && cause@ == words),
{
}

/// The socket is opened for the first of the addresses that were found, at an address of the same family
/// all of whose numbers are zero; where none was found, the discovery fails for that.
pub proof fn law_first_address_is_the_target(
    host: String,
    port: u16,
    addresses: Vec<SocketAddress>,
    r: Discovery,
)
    requires
        discovery_goes_on(
            Discovery::Resolve { host, port },
            DiscoveryEvent::Resolved(Ok(addresses)),
            r,
        ),
    ensures
        addresses@.len() == 0 ==> r == Discovery::Done(Err(WorkerError::NoAddresses)),
        addresses@.len() > 0 ==> (r matches Discovery::OpenSocket { bind, target } && target
            == addresses@[0] && match (target, bind) {
            (SocketAddress::V4 { .. }, SocketAddress::V4 { octets, port }) => port == 0 && octets@[0]
                == 0 && octets@[1] == 0 && octets@[2] == 0 && octets@[3] == 0,
            (
                SocketAddress::V6 { .. },
                SocketAddress::V6 { segments, port, flowinfo, scope_id },
            ) => port == 0 && flowinfo == 0 && scope_id == 0 && forall|i: int|
                0 <= i < 8 ==> #[trigger] segments@[i] == 0,
            _ => false,
        }),
{
}

/// The socket that was opened is connected to the very target it was opened for, and then inspected.
pub proof fn law_socket_is_connected_to_its_target(
    bind: SocketAddress,
    target: SocketAddress,
    connecting: Discovery,
    inspecting: Discovery,
)
    requires
        discovery_goes_on(
            Discovery::OpenSocket { bind, target },
            DiscoveryEvent::SocketOpened(Ok(())),
            connecting,
        ),
        discovery_goes_on(
            Discovery::Connect { target },
            DiscoveryEvent::Connected(Ok(())),
            inspecting,
        ),
    ensures
        connecting == (Discovery::Connect { target }),
        inspecting == Discovery::Inspect,
{
}

/// What fails in a discovery ends it, and is reported as what was tried, with its cause as it was told.
pub proof fn law_failure_ends_the_discovery(s: Discovery, event: DiscoveryEvent, r: Discovery)
    requires
        discovery_goes_on(s, event, r),
        match (s, event) {
            (Discovery::Resolve { .. }, DiscoveryEvent::Resolved(Err(_))) => true,
            (Discovery::OpenSocket { .. }, DiscoveryEvent::SocketOpened(Err(_))) => true,
            (Discovery::Connect { .. }, DiscoveryEvent::Connected(Err(_))) => true,
            (Discovery::Inspect, DiscoveryEvent::Inspected(Err(_))) => true,
            _ => false,
        },
    ensures
        r matches Discovery::Done(Err(WorkerError::Failed { step, cause })) && (match event {
            DiscoveryEvent::Resolved(Err(told)) => step == Step::Resolve && cause@ == told@,
            DiscoveryEvent::SocketOpened(Err(told)) => step == Step::OpenSocket && cause@ == told@,
            DiscoveryEvent::Connected(Err(told)) => step == Step::SelectRoute && cause@ == told@,
            DiscoveryEvent::Inspected(Err(told)) => step == Step::InspectSocket && cause@ == told@,
            _ => false,
        }),
{
}

/// A discovery that waits for one thing is not moved by the outcome of another, and one that is done is
/// moved by nothing.
pub proof fn law_discovery_waits_for_one_thing(s: Discovery, event: DiscoveryEvent, r: Discovery)
    requires
        discovery_goes_on(s, event, r),
        s is Resolve ==> event !is Resolved,
        s is OpenSocket ==> event !is SocketOpened,
        s is Connect ==> event !is Connected,
        s is Inspect ==> event !is Inspected,
    ensures
        r == s,
{
}

} // verus!
