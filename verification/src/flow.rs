//! Intercepted flows, and the servicing operation that each one is handed to.

use crate::address::{recover_destination, recovered, Destination, Endpoint};
use vstd::prelude::*;

verus! {

/// The socket of one intercepted flow: a stream channel or a datagram channel, with the remote
/// endpoint that the virtual interface saw. `S` and `D` are the channel types of the interface.
#[derive(Debug, PartialEq, Eq)]
pub enum FlowSocket<S, D> {
    Stream { stream: S, remote: Endpoint },
    Datagram { datagram: D, remote: Endpoint },
}

impl<S, D> FlowSocket<S, D> {
    /// The remote endpoint of the flow.
    pub open spec fn remote(self) -> Endpoint {
        match self {
            FlowSocket::Stream { remote, .. } => remote,
            FlowSocket::Datagram { remote, .. } => remote,
        }
    }

    /// The remote endpoint of the flow.
    pub fn remote_endpoint(&self) -> (endpoint: Endpoint)
        ensures
            endpoint == self.remote(),
    {
        match self {
            FlowSocket::Stream { remote, .. } => *remote,
            FlowSocket::Datagram { remote, .. } => *remote,
        }
    }
}

/// One call of the transport client: the operation, picked by the kind of the flow, with the
/// channel and the destination that it is given.
#[derive(Debug, PartialEq, Eq)]
pub enum ServiceCall<S, D> {
    Stream { stream: S, destination: Destination },
    Datagram { datagram: D, destination: Destination },
}

/// Whether `call` is the call that services `socket` once the host resolver has answered
/// `hostname` for the address of the flow: the stream operation for a stream flow and the
/// datagram operation for a datagram flow, on the channel of the flow, with the recovered
/// destination.
pub open spec fn services<S, D>(
    call: ServiceCall<S, D>,
    socket: FlowSocket<S, D>,
    hostname: Option<Seq<char>>,
) -> bool {
    match socket {
        FlowSocket::Stream { stream, remote } => {
            &&& call matches ServiceCall::Stream { stream: given, destination }
            &&& given == stream
            &&& destination@ == recovered(remote, hostname)
        },
        FlowSocket::Datagram { datagram, remote } => {
            &&& call matches ServiceCall::Datagram { datagram: given, destination }
            &&& given == datagram
            &&& destination@ == recovered(remote, hostname)
        },
    }
}

/// Settles how a flow is serviced: takes the socket and the resolver's answer for the address
/// of its remote endpoint, and gives the call to make on the transport client.
pub fn service_call<S, D>(
    socket: FlowSocket<S, D>,
    hostname: Option<String>,
) -> (call: ServiceCall<S, D>)
    ensures
        services(call, socket, hostname.deep_view()),
{
    match socket {
        FlowSocket::Stream { stream, remote } => {
            let destination = recover_destination(remote, hostname);
            ServiceCall::Stream { stream, destination }
        },
        FlowSocket::Datagram { datagram, remote } => {
            let destination = recover_destination(remote, hostname);
            ServiceCall::Datagram { datagram, destination }
        },
    }
}

} // verus!
