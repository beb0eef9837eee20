use seeker::address::{Endpoint, IpAddress};
use seeker::dispatcher::SourceEvent;
use seeker::flow::FlowSocket;
use seeker::wait::{classify_wait, wait_event};
use std::io::{Error, ErrorKind};

fn stream(id: u32) -> FlowSocket<u32, u32> {
    FlowSocket::Stream { stream: id, remote: Endpoint { ip: IpAddress::V4([10, 0, 0, 2]), port: 443 } }
}

#[test]
fn a_flow_is_a_flow_event() {
    let event = wait_event::<u32, u32, String>(Ok(Some(stream(7))), false);
    assert_eq!(event, SourceEvent::Flow(stream(7)));
    let event = wait_event::<u32, u32, String>(Ok(Some(stream(7))), true);
    assert_eq!(event, SourceEvent::Flow(stream(7)));
}

#[test]
fn end_of_source_is_exhaustion() {
    let event = wait_event::<u32, u32, String>(Ok(None), false);
    assert_eq!(event, SourceEvent::Exhausted);
    let event = wait_event::<u32, u32, String>(Ok(None), true);
    assert_eq!(event, SourceEvent::Exhausted);
}

#[test]
fn error_is_timeout_or_fault_as_told() {
    let event = wait_event::<u32, u32, String>(Err(String::from("late")), true);
    assert_eq!(event, SourceEvent::TimedOut);
    let event = wait_event::<u32, u32, String>(Err(String::from("device closed")), false);
    assert_eq!(event, SourceEvent::Fault(String::from("device closed")));
}

#[test]
fn io_timeout_is_a_timeout() {
    let outcome: Result<Option<FlowSocket<u32, u32>>, Error> =
        Err(Error::new(ErrorKind::TimedOut, "future timed out"));
    assert!(matches!(classify_wait(outcome), SourceEvent::TimedOut));
    let outcome: Result<Option<FlowSocket<u32, u32>>, Error> = Err(Error::from(ErrorKind::TimedOut));
    assert!(matches!(classify_wait(outcome), SourceEvent::TimedOut));
}

#[test]
fn other_io_errors_are_faults() {
    let kinds = vec![
        ErrorKind::BrokenPipe,
        ErrorKind::UnexpectedEof,
        ErrorKind::WouldBlock,
        ErrorKind::Interrupted,
        ErrorKind::Other,
    ];
    for kind in kinds {
        let outcome: Result<Option<FlowSocket<u32, u32>>, Error> =
            Err(Error::new(kind, "device failed"));
        match classify_wait(outcome) {
            SourceEvent::Fault(error) => {
                assert_eq!(error.kind(), kind);
                assert_eq!(format!("{}", error), "device failed");
            }
            _ => panic!("a fault of the source was taken for something else"),
        }
    }
}

#[test]
fn io_success_is_flow_or_exhaustion() {
    let outcome: Result<Option<FlowSocket<u32, u32>>, Error> = Ok(Some(stream(3)));
    match classify_wait(outcome) {
        SourceEvent::Flow(socket) => assert_eq!(socket, stream(3)),
        _ => panic!("a flow was taken for something else"),
    }
    let outcome: Result<Option<FlowSocket<u32, u32>>, Error> = Ok(None);
    assert!(matches!(classify_wait(outcome), SourceEvent::Exhausted));
}
