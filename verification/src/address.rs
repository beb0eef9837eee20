//! Endpoints, destinations, and the recovery of a destination's host name.

use vstd::prelude::*;

verus! {

/// An IP address, held as its octets in network order.
#[derive(Clone, Copy, Debug, PartialEq, Eq, Hash)]
pub enum IpAddress {
    V4([u8; 4]),
    V6([u8; 16]),
}

/// The remote end of an intercepted flow, as the virtual interface saw it.
#[derive(Clone, Copy, Debug, PartialEq, Eq, Hash)]
pub struct Endpoint {
    pub ip: IpAddress,
    pub port: u16,
}

/// Where a flow is to be taken: either the bare socket address, or the host name that the
/// address was handed out for, with the port of the flow.
#[derive(Debug, PartialEq, Eq, Hash)]
pub enum Destination {
    SocketAddress(Endpoint),
    DomainName(String, u16),
}

/// What a `Destination` holds, with the host name as a sequence of characters.
pub enum DestinationView {
    SocketAddress(Endpoint),
    DomainName(Seq<char>, u16),
}

impl View for Destination {
    type V = DestinationView;

    open spec fn view(&self) -> DestinationView {
        match *self {
            Destination::SocketAddress(endpoint) => DestinationView::SocketAddress(endpoint),
            Destination::DomainName(name, port) => DestinationView::DomainName(name@, port),
        }
    }
}

impl Clone for Destination {
    fn clone(&self) -> (copy: Self)
        ensures
            copy@ == self@,
    {
        match self {
            Destination::SocketAddress(endpoint) => Destination::SocketAddress(*endpoint),
            Destination::DomainName(name, port) => Destination::DomainName(name.clone(), *port),
        }
    }
}

/// The destination of a flow from `endpoint`, given what the host resolver answered for the
/// endpoint's address: the name with the endpoint's port where it knew one, the endpoint itself
/// where it did not.
pub open spec fn recovered(endpoint: Endpoint, hostname: Option<Seq<char>>) -> DestinationView {
    match hostname {
        Some(name) => DestinationView::DomainName(name, endpoint.port),
        None => DestinationView::SocketAddress(endpoint),
    }
}

/// Builds the destination of a flow from its endpoint and the resolver's answer.
pub fn recover_destination(endpoint: Endpoint, hostname: Option<String>) -> (destination: Destination)
    ensures
        destination@ == recovered(endpoint, hostname.deep_view()),
{
    match hostname {
        Some(name) => Destination::DomainName(name, endpoint.port),
        None => Destination::SocketAddress(endpoint),
    }
}

/// What a host resolver whose table is `table` answers for `ip`.
pub open spec fn resolve(table: Map<IpAddress, Seq<char>>, ip: IpAddress) -> Option<Seq<char>> {
    if table.contains_key(ip) {
        Some(table[ip])
    } else {
        None
    }
}

/// Address recovery follows the resolver's table: a flow whose address is in the table gets the
/// stored name with the flow's own port, and a flow whose address is not gets its endpoint,
/// unchanged.
pub proof fn lemma_recovery_follows_table(table: Map<IpAddress, Seq<char>>, endpoint: Endpoint)
    ensures
        table.contains_key(endpoint.ip) ==> recovered(endpoint, resolve(table, endpoint.ip))
            == DestinationView::DomainName(table[endpoint.ip], endpoint.port),
        !table.contains_key(endpoint.ip) ==> recovered(endpoint, resolve(table, endpoint.ip))
            == DestinationView::SocketAddress(endpoint),
{
}

} // verus!
