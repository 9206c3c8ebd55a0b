//! The request/response driver: the state machine that coordinates
//! transport readiness, handshake completion, protocol-session creation,
//! request issuance and per-stream event dispatch into a terminal outcome.
//!
//! The driver owns no I/O. Each turn, the surrounding loop reports what the
//! transport and the protocol session observed (readiness, establishment,
//! closure, per-stream events, send outcomes) and performs the action the
//! driver decides on. Every decision of the loop stands here with a
//! contract; the loop around it only moves bytes.

use crate::method::spec_method_wire;
use crate::method::Method;
use crate::status::spec_status_of_wire;
use crate::status::StatusToken;
use vstd::prelude::*;

verus! {

/// Application error code for the graceful close issued after a response
/// finishes or the peer resets the stream.
pub const GRACEFUL_CLOSE_CODE: u64 = 0x100;

/// Application error code for the close issued after a fatal send failure.
pub const FATAL_CLOSE_CODE: u64 = 0x1;

/// The states a driver moves through, in order of progress. `Closed` is
/// terminal: it is the only way out of the loop.
#[derive(Clone, Copy, Debug, PartialEq, Eq, Structural)]
pub enum DriverState {
    /// Transport created and handshake datagram sent; no protocol session.
    Connecting,
    /// Transport established and protocol session constructed; the request
    /// has not been issued yet.
    Established,
    /// The single configured request has been issued.
    RequestIssued,
    /// Response events for the request's stream are being dispatched.
    Draining,
    /// A close was initiated; waiting for the transport to report closed.
    Closing,
    /// The transport reported closed, or a fatal condition ended the run.
    Closed,
}

/// Fatal conditions the driver surfaces instead of handling.
#[derive(Clone, Copy, Debug, PartialEq, Eq, Structural)]
pub enum DriverError {
    /// The protocol session could not be constructed once the transport was
    /// established: the negotiated stream or window limits are insufficient.
    /// Fatal and user-visible; never retried.
    SessionConstruction,
    /// A priority-update event was observed. That event never occurs for a
    /// client, so seeing one is a programming-invariant violation, not a
    /// recoverable error.
    UnreachableEvent,
}

/// One response header: a name and a value, both plain bytes.
pub struct Header {
    /// The header's name; pseudo-headers start with a colon.
    pub name: Vec<u8>,
    /// The header's value.
    pub value: Vec<u8>,
}

/// A protocol-level event handed to the driver from the session's event
/// queue.
pub enum Event {
    /// A response header block arrived on a stream.
    Headers {
        /// The stream the headers arrived on.
        stream_id: u64,
        /// The header block, pseudo-headers included.
        headers: Vec<Header>,
    },
    /// Body bytes are available on a stream.
    Data {
        /// The stream with body bytes pending.
        stream_id: u64,
    },
    /// A stream is complete.
    Finished {
        /// The completed stream.
        stream_id: u64,
    },
    /// The peer aborted a stream.
    Reset {
        /// The aborted stream.
        stream_id: u64,
        /// The peer's error code.
        error_code: u64,
    },
    /// Connection-level shutdown notice; does not by itself end the loop.
    GoAway {
        /// The highest stream identifier the peer will process.
        last_stream_id: u64,
    },
    /// Structurally possible but never delivered to a client.
    PriorityUpdate,
}

/// What the loop must do with one event.
#[derive(Debug, PartialEq, Eq)]
pub enum EventAction {
    /// Deliver the response status mapped through the vocabulary, if the
    /// header block carried one.
    Surface(Option<StatusToken>),
    /// Read body bytes from the stream until the read itself reports that
    /// no more data is available this turn.
    DrainBody(u64),
    /// Close the whole session gracefully with `GRACEFUL_CLOSE_CODE`.
    CloseGraceful,
    /// Nothing to do beyond diagnostics.
    Note,
    /// Stop: an invariant was violated.
    Fatal(DriverError),
}

/// What the loop must do after waking from the readiness wait.
#[derive(Clone, Copy, Debug, PartialEq, Eq, Structural)]
pub enum ReadAction {
    /// The wait expired with nothing ready: advance the transport's timers
    /// and skip reading.
    HandleTimeout,
    /// Sockets are ready: drain all pending inbound datagrams.
    Receive,
}

/// What one inbound datagram did.
#[derive(Clone, Copy, Debug, PartialEq, Eq, Structural)]
pub enum RecvOutcome {
    /// The transport consumed the datagram.
    Consumed,
    /// No more datagrams to read this turn.
    WouldBlock,
    /// The transport rejected the datagram as malformed.
    Malformed,
}

/// Whether the read loop goes on.
#[derive(Clone, Copy, Debug, PartialEq, Eq, Structural)]
pub enum ReadFlow {
    /// Keep reading inbound datagrams.
    KeepReading,
    /// Stop reading for this turn.
    StopReading,
}

/// What one poll of the protocol session's event queue did.
#[derive(Clone, Copy, Debug, PartialEq, Eq, Structural)]
pub enum PollOutcome {
    /// The queue delivered an event.
    Delivered,
    /// The queue is empty for this turn.
    DoneForNow,
    /// Polling itself failed.
    Failed,
}

/// Whether the event loop goes on.
#[derive(Clone, Copy, Debug, PartialEq, Eq, Structural)]
pub enum PollFlow {
    /// Dispatch the delivered event and poll again.
    Dispatch,
    /// Stop polling for this turn.
    StopPolling,
}

/// What one attempt to generate an outbound datagram did.
#[derive(Clone, Copy, Debug, PartialEq, Eq, Structural)]
pub enum SendOutcome {
    /// The transport produced a datagram to transmit.
    Emitted,
    /// No more data to emit this turn.
    DoneForNow,
    /// The transport failed to generate a packet, not from transient
    /// backpressure.
    Failed,
}

/// What the write loop must do next.
#[derive(Clone, Copy, Debug, PartialEq, Eq, Structural)]
pub enum WriteFlow {
    /// Transmit the datagram just produced and keep writing.
    Transmit,
    /// Stop writing for this turn.
    StopWriting,
    /// Close the session with `FATAL_CLOSE_CODE` and stop writing.
    CloseError,
}

/// The name of the status pseudo-header, `b":status"`.
pub open spec fn spec_status_header_name() -> Seq<u8> {
    seq![58u8, 115u8, 116u8, 97u8, 116u8, 117u8, 115u8]
}

/// The value of the first header named `:status`, if any.
pub open spec fn spec_first_status_value(hs: Seq<Header>) -> Option<Seq<u8>>
    decreases hs.len(),
{
    if hs.len() == 0 {
        None
    } else if hs[0].name@ == spec_status_header_name() {
        Some(hs[0].value@)
    } else {
        spec_first_status_value(hs.drop_first())
    }
}

/// The status token a header block surfaces: the first `:status` value
/// mapped through the vocabulary, or nothing when no `:status` is present.
pub open spec fn spec_headers_status(hs: Seq<Header>) -> Option<StatusToken> {
    match spec_first_status_value(hs) {
        Some(v) => Some(spec_status_of_wire(v)),
        None => None,
    }
}

/// The action the driver takes for one event.
pub open spec fn spec_event_action(ev: Event) -> EventAction {
    match ev {
        Event::Headers { headers, .. } => EventAction::Surface(spec_headers_status(headers@)),
        Event::Data { stream_id } => EventAction::DrainBody(stream_id),
        Event::Finished { .. } => EventAction::CloseGraceful,
        Event::Reset { .. } => EventAction::CloseGraceful,
        Event::GoAway { .. } => EventAction::Note,
        Event::PriorityUpdate => EventAction::Fatal(DriverError::UnreachableEvent),
    }
}

/// The state the driver moves to on one event.
pub open spec fn spec_event_state(s: DriverState, ev: Event) -> DriverState {
    match ev {
        Event::Headers { .. } | Event::Data { .. } => if s is RequestIssued {
            DriverState::Draining
        } else {
            s
        },
        Event::Finished { .. } | Event::Reset { .. } => DriverState::Closing,
        Event::GoAway { .. } => s,
        Event::PriorityUpdate => DriverState::Closed,
    }
}

/// How far along a state is; transitions never move backward from a
/// non-terminal state.
pub open spec fn spec_state_rank(s: DriverState) -> int {
    match s {
        DriverState::Connecting => 0,
        DriverState::Established => 1,
        DriverState::RequestIssued => 2,
        DriverState::Draining => 3,
        DriverState::Closing => 4,
        DriverState::Closed => 5,
    }
}

/// The request/response driver. It holds only its progress through the
/// run; buffers, the transport session and the protocol session stay with
/// the loop that owns the I/O.
pub struct Driver {
    /// Where the run stands.
    pub state: DriverState,
}

impl Driver {
    /// A driver for a freshly created transport session whose handshake
    /// datagram has been sent.
    pub fn new() -> (d: Driver)
        ensures
            d.state is Connecting,
    {
        Driver { state: DriverState::Connecting }
    }

    /// Step one of a turn: when the readiness wait reported nothing, the
    /// transport's timers are advanced and reading is skipped; otherwise
    /// all pending inbound datagrams are drained.
    pub fn read_action(&self, timed_out: bool) -> (a: ReadAction)
        ensures
            a == (if timed_out {
                ReadAction::HandleTimeout
            } else {
                ReadAction::Receive
            }),
    {
        if timed_out {
            ReadAction::HandleTimeout
        } else {
            ReadAction::Receive
        }
    }

    /// Whether the read loop goes on after one inbound datagram: a
    /// malformed datagram is a recoverable error that must not abort the
    /// read loop, so only exhaustion stops reading.
    pub fn recv_flow(&self, outcome: RecvOutcome) -> (f: ReadFlow)
        ensures
            f == (match outcome {
                RecvOutcome::Consumed => ReadFlow::KeepReading,
                RecvOutcome::WouldBlock => ReadFlow::StopReading,
                RecvOutcome::Malformed => ReadFlow::KeepReading,
            }),
    {
        match outcome {
            RecvOutcome::Consumed => ReadFlow::KeepReading,
            RecvOutcome::WouldBlock => ReadFlow::StopReading,
            RecvOutcome::Malformed => ReadFlow::KeepReading,
        }
    }

    /// The transport reported closed: the run is over, whatever came
    /// before.
    pub fn on_transport_closed(&mut self)
        ensures
            final(self).state is Closed,
    {
        self.state = DriverState::Closed;
    }

    /// Whether this turn must construct the protocol session: exactly once,
    /// the turn the transport first reports established.
    pub fn should_create_session(&self, established: bool) -> (b: bool)
        ensures
            b == (established && self.state is Connecting),
    {
        established && matches!(self.state, DriverState::Connecting)
    }

    /// Record the outcome of constructing the protocol session.
    /// Construction failure is fatal and user-visible, never retried.
    pub fn on_session_result(&mut self, ok: bool) -> (r: Result<(), DriverError>)
        requires
            old(self).state is Connecting,
        ensures
            ok ==> final(self).state is Established && r is Ok,
            !ok ==> final(self).state is Closed && r == Err::<(), DriverError>(
                DriverError::SessionConstruction,
            ),
    {
        if ok {
            self.state = DriverState::Established;
            Ok(())
        } else {
            self.state = DriverState::Closed;
            Err(DriverError::SessionConstruction)
        }
    }

    /// Whether this turn must issue the single configured request: exactly
    /// when the protocol session exists and no request was issued yet.
    pub fn should_issue_request(&self) -> (b: bool)
        ensures
            b == (self.state is Established),
    {
        matches!(self.state, DriverState::Established)
    }

    /// Record the outcome of issuing the request. A send failure not
    /// attributable to backpressure is fatal: the session is closed with
    /// `FATAL_CLOSE_CODE`.
    pub fn on_request_result(&mut self, ok: bool) -> (f: WriteFlow)
        requires
            old(self).state is Established,
        ensures
            ok ==> final(self).state is RequestIssued && f == WriteFlow::Transmit,
            !ok ==> final(self).state is Closing && f == WriteFlow::CloseError,
    {
        if ok {
            self.state = DriverState::RequestIssued;
            WriteFlow::Transmit
        } else {
            self.state = DriverState::Closing;
            WriteFlow::CloseError
        }
    }

    /// Dispatch one event from the protocol session's queue.
    ///
    /// Headers surface the status token of the block's `:status`
    /// pseudo-header, mapped through the vocabulary; data asks the loop to
    /// drain body bytes; a finished or reset stream initiates the same
    /// graceful close; a goaway is noted and does not end the loop; a
    /// priority update never occurs for a client and is surfaced as a
    /// fatal invariant violation.
    pub fn on_event(&mut self, ev: &Event) -> (a: EventAction)
        ensures
            a == spec_event_action(*ev),
            final(self).state == spec_event_state(old(self).state, *ev),
    {
        match ev {
            Event::Headers { headers, .. } => {
                if matches!(self.state, DriverState::RequestIssued) {
                    self.state = DriverState::Draining;
                }
                EventAction::Surface(status_of_headers(headers))
            },
            Event::Data { stream_id } => {
                if matches!(self.state, DriverState::RequestIssued) {
                    self.state = DriverState::Draining;
                }
                EventAction::DrainBody(*stream_id)
            },
            Event::Finished { .. } => {
                self.state = DriverState::Closing;
                EventAction::CloseGraceful
            },
            Event::Reset { .. } => {
                self.state = DriverState::Closing;
                EventAction::CloseGraceful
            },
            Event::GoAway { .. } => EventAction::Note,
            Event::PriorityUpdate => {
                self.state = DriverState::Closed;
                EventAction::Fatal(DriverError::UnreachableEvent)
            },
        }
    }

    /// Whether the event loop goes on after one poll of the protocol
    /// session's queue: an exhausted queue ends it for the turn, and so
    /// does a poll failure, which is noted and does not close the session.
    pub fn poll_flow(&self, outcome: PollOutcome) -> (f: PollFlow)
        ensures
            f == (match outcome {
                PollOutcome::Delivered => PollFlow::Dispatch,
                PollOutcome::DoneForNow => PollFlow::StopPolling,
                PollOutcome::Failed => PollFlow::StopPolling,
            }),
    {
        match outcome {
            PollOutcome::Delivered => PollFlow::Dispatch,
            PollOutcome::DoneForNow => PollFlow::StopPolling,
            PollOutcome::Failed => PollFlow::StopPolling,
        }
    }

    /// Whether the write loop goes on after one attempt to generate an
    /// outbound datagram: exhaustion stops it, and a fatal failure closes
    /// the session with `FATAL_CLOSE_CODE` before stopping.
    pub fn write_flow(&mut self, outcome: SendOutcome) -> (f: WriteFlow)
        ensures
            f == (match outcome {
                SendOutcome::Emitted => WriteFlow::Transmit,
                SendOutcome::DoneForNow => WriteFlow::StopWriting,
                SendOutcome::Failed => WriteFlow::CloseError,
            }),
            final(self).state == (if outcome is Failed && !(old(self).state is Closed) {
                DriverState::Closing
            } else {
                old(self).state
            }),
    {
        match outcome {
            SendOutcome::Emitted => WriteFlow::Transmit,
            SendOutcome::DoneForNow => WriteFlow::StopWriting,
            SendOutcome::Failed => {
                if !matches!(self.state, DriverState::Closed) {
                    self.state = DriverState::Closing;
                }
                WriteFlow::CloseError
            },
        }
    }

    /// Whether the run has reached its terminal state.
    pub fn is_finished(&self) -> (b: bool)
        ensures
            b == (self.state is Closed),
    {
        matches!(self.state, DriverState::Closed)
    }
}

/// Extract the response status from a header block: the value of the first
/// header named `:status`, mapped through the vocabulary's lenient status
/// parser. `None` exactly when no header is named `:status`.
pub fn status_of_headers(headers: &Vec<Header>) -> (r: Option<StatusToken>)
    ensures
        r == spec_headers_status(headers@),
{
    let name: Vec<u8> = vec![58u8, 115u8, 116u8, 97u8, 116u8, 117u8, 115u8];
    proof {
        assert(name@ =~= spec_status_header_name());
        assert(headers@.skip(0) =~= headers@);
    }
    let mut i: usize = 0;
    while i < headers.len()
        invariant
            i <= headers.len(),
            name@ == spec_status_header_name(),
            spec_first_status_value(headers@) == spec_first_status_value(
                headers@.skip(i as int),
            ),
        decreases headers.len() - i,
    {
        proof {
            assert(headers@.skip(i as int)[0] == headers@[i as int]);
        }
        if crate::bytes::bytes_eq(headers[i].name.as_slice(), name.as_slice()) {
            let token = StatusToken::from_bytes(headers[i].value.as_slice());
            return Some(token);
        }
        proof {
            assert(headers@.skip(i as int).drop_first() =~= headers@.skip(i as int + 1));
        }
        i = i + 1;
    }
    proof {
        assert(headers@.skip(i as int).len() == 0);
    }
    None
}

/// The fixed negotiation token selecting this application protocol over
/// the transport, `b"nwep/1"`; distinct from the tokens of legacy HTTP
/// over the same transport.
pub open spec fn spec_application_protocol() -> Seq<u8> {
    seq![110u8, 119u8, 101u8, 112u8, 47u8, 49u8]
}

/// The negotiation token handed to the transport's protocol selection.
pub fn application_protocol() -> (r: Vec<u8>)
    ensures
        r@ == spec_application_protocol(),
{
    let r: Vec<u8> = vec![110u8, 119u8, 101u8, 112u8, 47u8, 49u8];
    proof {
        assert(r@ =~= spec_application_protocol());
    }
    r
}

/// The header block of the single request issued against an authority and
/// a path: the four required pseudo-headers `:method` (the method's wire
/// token), `:scheme` (the fixed `web`), `:authority` and `:path`, then the
/// client's `user-agent`.
pub open spec fn spec_request_headers(m: Method, authority: Seq<u8>, path: Seq<u8>) -> Seq<
    (Seq<u8>, Seq<u8>),
> {
    seq![
        (seq![58u8, 109u8, 101u8, 116u8, 104u8, 111u8, 100u8], spec_method_wire(m)),
        (seq![58u8, 115u8, 99u8, 104u8, 101u8, 109u8, 101u8], seq![119u8, 101u8, 98u8]),
        (seq![58u8, 97u8, 117u8, 116u8, 104u8, 111u8, 114u8, 105u8, 116u8, 121u8], authority),
        (seq![58u8, 112u8, 97u8, 116u8, 104u8], path),
        (
            seq![117u8, 115u8, 101u8, 114u8, 45u8, 97u8, 103u8, 101u8, 110u8, 116u8],
            seq![110u8, 119u8, 101u8, 112u8, 45u8, 99u8, 108u8, 105u8, 101u8, 110u8, 116u8],
        ),
    ]
}

/// Compose the request's header block for a method, an authority and a
/// path, exactly as `spec_request_headers` lays it out.
pub fn compose_request(m: Method, authority: &Vec<u8>, path: &Vec<u8>) -> (r: Vec<Header>)
    ensures
        r@.map_values(|h: Header| (h.name@, h.value@)) == spec_request_headers(
            m,
            authority@,
            path@,
        ),
{
    let mut r: Vec<Header> = Vec::new();
    r.push(Header { name: vec![58u8, 109u8, 101u8, 116u8, 104u8, 111u8, 100u8], value: m.as_bytes() });
    r.push(
        Header {
            name: vec![58u8, 115u8, 99u8, 104u8, 101u8, 109u8, 101u8],
            value: vec![119u8, 101u8, 98u8],
        },
    );
    let mut auth: Vec<u8> = Vec::new();
    let mut i: usize = 0;
    while i < authority.len()
        invariant
            i <= authority@.len(),
            auth@ == authority@.subrange(0, i as int),
        decreases authority@.len() - i,
    {
        auth.push(authority[i]);
        proof {
            assert(auth@ =~= authority@.subrange(0, i as int + 1));
        }
        i = i + 1;
    }
    proof {
        assert(auth@ =~= authority@);
    }
    r.push(
        Header {
            name: vec![58u8, 97u8, 117u8, 116u8, 104u8, 111u8, 114u8, 105u8, 116u8, 121u8],
            value: auth,
        },
    );
    let mut pth: Vec<u8> = Vec::new();
    let mut j: usize = 0;
    while j < path.len()
        invariant
            j <= path@.len(),
            pth@ == path@.subrange(0, j as int),
        decreases path@.len() - j,
    {
        pth.push(path[j]);
        proof {
            assert(pth@ =~= path@.subrange(0, j as int + 1));
        }
        j = j + 1;
    }
    proof {
        assert(pth@ =~= path@);
    }
    r.push(Header { name: vec![58u8, 112u8, 97u8, 116u8, 104u8], value: pth });
    r.push(
        Header {
            name: vec![117u8, 115u8, 101u8, 114u8, 45u8, 97u8, 103u8, 101u8, 110u8, 116u8],
            value: vec![110u8, 119u8, 101u8, 112u8, 45u8, 99u8, 108u8, 105u8, 101u8, 110u8, 116u8],
        },
    );
    proof {
        assert(r@.map_values(|h: Header| (h.name@, h.value@)) =~= spec_request_headers(
            m,
            authority@,
            path@,
        ));
    }
    r
}

/// From any state the loop still runs in, an event never moves the driver
/// backward: dispatch only advances the run toward its terminal state.
pub proof fn lemma_event_state_monotone(s: DriverState, ev: Event)
    requires
        s !is Closed,
    ensures
        spec_state_rank(spec_event_state(s, ev)) >= spec_state_rank(s),
{
}

/// A finished or reset stream initiates the graceful close from any state:
/// the two peer-initiated ends of a request are handled alike.
pub proof fn lemma_terminal_events_close(s: DriverState, ev: Event)
    requires
        ev is Finished || ev is Reset,
    ensures
        spec_event_action(ev) == EventAction::CloseGraceful,
        spec_event_state(s, ev) is Closing,
{
}

} // verus!
