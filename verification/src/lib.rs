//! The connection-dispatch core of a transparent tunneling proxy.
//!
//! The proxy takes flows off a virtual network interface, finds for each the host name that
//! its address was handed out for, and gives it to a transport client in a task of its own,
//! until the interface closes or a stop is requested. This library holds the decisions of that
//! loop; the waiting, the resolver, the client and the tasks belong to its caller.
//!
//! - `shutdown`: the termination signal.
//! - `address`: endpoints, destinations, and address recovery.
//! - `flow`: flow sockets, and the call of the transport client that services one.
//! - `wait`: from the outcome of a bounded wait to an event.
//! - `dispatcher`: the accept loop as a state machine over those events.
//! - `run`: what holds of whole runs of the dispatcher.

pub mod address;
pub mod dispatcher;
pub mod flow;
pub mod run;
pub mod shutdown;
pub mod wait;
