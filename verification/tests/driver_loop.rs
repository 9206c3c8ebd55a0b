use nwep::driver::status_of_headers;
use nwep::driver::PollFlow;
use nwep::driver::PollOutcome;
use nwep::driver::ReadAction;
use nwep::driver::RecvOutcome;
use nwep::driver::ReadFlow;
use nwep::driver::SendOutcome;
use nwep::driver::WriteFlow;
use nwep::Driver;
use nwep::DriverError;
use nwep::DriverState;
use nwep::Event;
use nwep::EventAction;
use nwep::Header;
use nwep::StatusToken;

fn header(name: &[u8], value: &[u8]) -> Header {
    Header {
        name: name.to_vec(),
        value: value.to_vec(),
    }
}

/// A successful run: the peer answers `ok` with body `b"hello"`, split
/// over two data events, then finishes the stream.
#[test]
fn test_read_request_completes_gracefully() {
    let mut d = Driver::new();
    assert_eq!(d.state, DriverState::Connecting);

    // handshake not done yet: nothing to create
    assert!(!d.should_create_session(false));
    assert!(!d.should_issue_request());

    // transport becomes established: create the session, then issue the
    // single request
    assert!(d.should_create_session(true));
    assert!(d.on_session_result(true).is_ok());
    assert_eq!(d.state, DriverState::Established);
    assert!(d.should_issue_request());
    assert_eq!(d.on_request_result(true), WriteFlow::Transmit);
    assert_eq!(d.state, DriverState::RequestIssued);
    assert!(!d.should_issue_request());
    assert!(!d.should_create_session(true));

    // response headers carrying status `ok`
    let headers = Event::Headers {
        stream_id: 0,
        headers: vec![
            header(b":status", b"ok"),
            header(b"server", b"demo"),
        ],
    };
    let a = d.on_event(&headers);
    assert_eq!(a, EventAction::Surface(Some(StatusToken::Okay)));
    assert_eq!(d.state, DriverState::Draining);

    // body arrives over two data events; the loop drains the bytes
    let mut pending: Vec<Vec<u8>> = vec![b"he".to_vec(), b"llo".to_vec()];
    let mut body: Vec<u8> = Vec::new();
    for _ in 0..2 {
        let a = d.on_event(&Event::Data { stream_id: 0 });
        assert_eq!(a, EventAction::DrainBody(0));
        body.extend_from_slice(&pending.remove(0));
    }
    assert_eq!(body, b"hello".to_vec());
    assert_eq!(d.state, DriverState::Draining);

    // the stream finishes: graceful close, then the transport reports
    // closed and the run is over
    let a = d.on_event(&Event::Finished { stream_id: 0 });
    assert_eq!(a, EventAction::CloseGraceful);
    assert_eq!(d.state, DriverState::Closing);
    assert!(!d.is_finished());
    d.on_transport_closed();
    assert!(d.is_finished());
}

/// The peer resets the stream before responding: the driver initiates the
/// same graceful close without ever observing a finished stream.
#[test]
fn test_reset_before_response_closes_gracefully() {
    let mut d = Driver::new();
    assert!(d.should_create_session(true));
    assert!(d.on_session_result(true).is_ok());
    assert_eq!(d.on_request_result(true), WriteFlow::Transmit);
    assert_eq!(d.state, DriverState::RequestIssued);

    let a = d.on_event(&Event::Reset {
        stream_id: 0,
        error_code: 7,
    });
    assert_eq!(a, EventAction::CloseGraceful);
    assert_eq!(d.state, DriverState::Closing);

    d.on_transport_closed();
    assert!(d.is_finished());
}

#[test]
fn test_session_construction_failure_is_fatal() {
    let mut d = Driver::new();
    assert!(d.should_create_session(true));
    let r = d.on_session_result(false);
    assert_eq!(r, Err(DriverError::SessionConstruction));
    assert_eq!(d.state, DriverState::Closed);
    assert!(d.is_finished());
}

#[test]
fn test_request_send_failure_closes_with_error() {
    let mut d = Driver::new();
    assert!(d.on_session_result(true).is_ok());
    let f = d.on_request_result(false);
    assert_eq!(f, WriteFlow::CloseError);
    assert_eq!(d.state, DriverState::Closing);
}

#[test]
fn test_priority_update_is_unreachable_for_a_client() {
    let mut d = Driver::new();
    assert!(d.on_session_result(true).is_ok());
    assert_eq!(d.on_request_result(true), WriteFlow::Transmit);
    let a = d.on_event(&Event::PriorityUpdate);
    assert_eq!(a, EventAction::Fatal(DriverError::UnreachableEvent));
    assert_eq!(d.state, DriverState::Closed);
}

#[test]
fn test_goaway_does_not_end_the_loop() {
    let mut d = Driver::new();
    assert!(d.on_session_result(true).is_ok());
    assert_eq!(d.on_request_result(true), WriteFlow::Transmit);
    let a = d.on_event(&Event::GoAway { last_stream_id: 0 });
    assert_eq!(a, EventAction::Note);
    assert_eq!(d.state, DriverState::RequestIssued);
}

#[test]
fn test_read_phase_decisions() {
    let d = Driver::new();
    assert_eq!(d.read_action(true), ReadAction::HandleTimeout);
    assert_eq!(d.read_action(false), ReadAction::Receive);
    // a malformed datagram is recoverable: reading goes on
    assert_eq!(d.recv_flow(RecvOutcome::Consumed), ReadFlow::KeepReading);
    assert_eq!(d.recv_flow(RecvOutcome::Malformed), ReadFlow::KeepReading);
    assert_eq!(d.recv_flow(RecvOutcome::WouldBlock), ReadFlow::StopReading);
}

#[test]
fn test_poll_phase_decisions() {
    let d = Driver::new();
    assert_eq!(d.poll_flow(PollOutcome::Delivered), PollFlow::Dispatch);
    assert_eq!(d.poll_flow(PollOutcome::DoneForNow), PollFlow::StopPolling);
    // a poll failure ends the turn's polling without closing the session
    assert_eq!(d.poll_flow(PollOutcome::Failed), PollFlow::StopPolling);
}

#[test]
fn test_write_phase_decisions() {
    let mut d = Driver::new();
    assert_eq!(d.write_flow(SendOutcome::Emitted), WriteFlow::Transmit);
    assert_eq!(d.write_flow(SendOutcome::DoneForNow), WriteFlow::StopWriting);
    assert_eq!(d.state, DriverState::Connecting);
    assert_eq!(d.write_flow(SendOutcome::Failed), WriteFlow::CloseError);
    assert_eq!(d.state, DriverState::Closing);
}

#[test]
fn test_status_extraction_from_headers() {
    let with_status = vec![
        header(b"server", b"demo"),
        header(b":status", b"not_found"),
        header(b":status", b"ok"),
    ];
    // the first `:status` wins
    assert_eq!(
        status_of_headers(&with_status),
        Some(StatusToken::NotFound)
    );

    let unknown = vec![header(b":status", b"brand_new_status")];
    assert_eq!(
        status_of_headers(&unknown),
        Some(StatusToken::InternalError)
    );

    let without: Vec<Header> = vec![header(b"server", b"demo")];
    assert_eq!(status_of_headers(&without), None);
    assert_eq!(status_of_headers(&Vec::new()), None);
}

#[test]
fn test_request_composition() {
    let request = nwep::driver::compose_request(
        nwep::Method::Read,
        &b"example.com:99".to_vec(),
        &b"/x".to_vec(),
    );
    let as_pairs: Vec<(Vec<u8>, Vec<u8>)> = request
        .iter()
        .map(|h| (h.name.clone(), h.value.clone()))
        .collect();
    assert_eq!(
        as_pairs,
        vec![
            (b":method".to_vec(), b"READ".to_vec()),
            (b":scheme".to_vec(), b"web".to_vec()),
            (b":authority".to_vec(), b"example.com:99".to_vec()),
            (b":path".to_vec(), b"/x".to_vec()),
            (b"user-agent".to_vec(), b"nwep-client".to_vec()),
        ]
    );
}

#[test]
fn test_application_protocol_token() {
    assert_eq!(nwep::driver::application_protocol(), b"nwep/1".to_vec());
}

#[test]
fn test_close_codes() {
    assert_eq!(nwep::driver::GRACEFUL_CLOSE_CODE, 0x100);
    assert_eq!(nwep::driver::FATAL_CLOSE_CODE, 0x1);
}
