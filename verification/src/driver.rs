use vstd::prelude::*;

verus! {

// ---------------------------------------------------------------------------
// Closing a connection
// ---------------------------------------------------------------------------

/// Why the client closes a connection itself.
#[derive(Debug, Clone, Copy, PartialEq, Eq, Structural)]
pub enum CloseReason {
    /// The response is complete, or the peer reset the request stream.
    Completed,
    /// The QUIC engine failed to produce an outgoing packet.
    SendFailed,
}

/// The arguments of a connection close: whether it is an application close,
/// the error code and the reason phrase.
#[derive(Debug, PartialEq, Eq)]
pub struct CloseFrame {
    pub app: bool,
    pub code: u64,
    pub reason: Vec<u8>,
}

pub open spec fn close_frame_spec(r: CloseReason) -> (bool, u64, Seq<u8>) {
    match r {
        CloseReason::Completed => (true, 0x100, vstd::utf8::encode_utf8("kthxbye"@)),
        CloseReason::SendFailed => (false, 0x1, vstd::utf8::encode_utf8("fail"@)),
    }
}

/// The close frame sent for a reason: an application close with code
/// `0x100` and phrase `kthxbye` once the exchange is over, a transport
/// close with code `0x1` and phrase `fail` when sending failed.
pub fn close_frame(r: CloseReason) -> (f: CloseFrame)
    ensures
        (f.app, f.code, f.reason@) == close_frame_spec(r),
        r == CloseReason::Completed ==> f.app && f.code == 0x100 && f.reason@ == vstd::utf8::encode_utf8("kthxbye"@),
        r == CloseReason::SendFailed ==> !f.app && f.code == 0x1 && f.reason@ == vstd::utf8::encode_utf8("fail"@),
{
    match r {
        CloseReason::Completed => CloseFrame {
            app: true,
            code: 0x100,
            reason: vstd::slice::slice_to_vec("kthxbye".as_bytes()),
        },
        CloseReason::SendFailed => CloseFrame {
            app: false,
            code: 0x1,
            reason: vstd::slice::slice_to_vec("fail".as_bytes()),
        },
    }
}

// ---------------------------------------------------------------------------
// Reading datagrams
// ---------------------------------------------------------------------------

/// What one attempt to read from the socket found.
#[derive(Debug, Clone, Copy, PartialEq, Eq, Structural)]
pub enum ReadOutcome {
    /// The poll returned without readiness events: its timeout expired.
    NoEvents,
    /// A datagram of this many bytes arrived.
    Datagram(usize),
    /// No more datagrams are queued.
    WouldBlock,
    /// The socket reported any other error.
    Failed,
}

/// What the read loop does next.
#[derive(Debug, Clone, Copy, PartialEq, Eq, Structural)]
pub enum ReadAction {
    /// Let the connection handle its timeout, then stop reading.
    FireTimeout,
    /// Hand the first bytes of the buffer, this many, to the connection and
    /// read again (whether or not the connection accepts them).
    Deliver(usize),
    /// Stop reading.
    Stop,
    /// Give up: the socket is broken.
    Fatal,
}

pub open spec fn read_action_spec(o: ReadOutcome) -> ReadAction {
    match o {
        ReadOutcome::NoEvents => ReadAction::FireTimeout,
        ReadOutcome::Datagram(n) => ReadAction::Deliver(n),
        ReadOutcome::WouldBlock => ReadAction::Stop,
        ReadOutcome::Failed => ReadAction::Fatal,
    }
}

/// Decides the next step of the read loop. The loop goes on exactly when a
/// datagram was delivered.
pub fn read_action(o: ReadOutcome) -> (a: ReadAction)
    ensures
        a == read_action_spec(o),
        (a is Deliver) <==> (o is Datagram),
        o matches ReadOutcome::Datagram(n) ==> a == ReadAction::Deliver(n),
        o is NoEvents ==> a is FireTimeout,
        o is WouldBlock ==> a is Stop,
        o is Failed ==> a is Fatal,
{
    match o {
        ReadOutcome::NoEvents => ReadAction::FireTimeout,
        ReadOutcome::Datagram(n) => ReadAction::Deliver(n),
        ReadOutcome::WouldBlock => ReadAction::Stop,
        ReadOutcome::Failed => ReadAction::Fatal,
    }
}

// ---------------------------------------------------------------------------
// Writing datagrams
// ---------------------------------------------------------------------------

/// What the QUIC engine returned when asked for the next packet.
#[derive(Debug, Clone, Copy, PartialEq, Eq, Structural)]
pub enum SendOutcome {
    /// A packet of this many bytes was written to the output buffer.
    Packet(usize),
    /// Nothing more to send.
    Done,
    /// Any other engine error.
    Failed,
}

/// What the write loop does with the engine's answer.
#[derive(Debug, Clone, Copy, PartialEq, Eq, Structural)]
pub enum SendAction {
    /// Send the first bytes of the output buffer, this many, to the peer.
    Transmit(usize),
    /// Stop writing.
    Stop,
    /// Close the connection for this reason, then stop writing.
    CloseAndStop(CloseReason),
}

pub open spec fn send_action_spec(o: SendOutcome) -> SendAction {
    match o {
        SendOutcome::Packet(n) => SendAction::Transmit(n),
        SendOutcome::Done => SendAction::Stop,
        SendOutcome::Failed => SendAction::CloseAndStop(CloseReason::SendFailed),
    }
}

/// Decides what to do with the engine's next packet.
pub fn send_action(o: SendOutcome) -> (a: SendAction)
    ensures
        a == send_action_spec(o),
        o matches SendOutcome::Packet(n) ==> a == SendAction::Transmit(n),
        o is Done ==> a is Stop,
        o is Failed ==> a == SendAction::CloseAndStop(CloseReason::SendFailed),
{
    match o {
        SendOutcome::Packet(n) => SendAction::Transmit(n),
        SendOutcome::Done => SendAction::Stop,
        SendOutcome::Failed => SendAction::CloseAndStop(CloseReason::SendFailed),
    }
}

/// What the socket did with an outgoing datagram.
#[derive(Debug, Clone, Copy, PartialEq, Eq, Structural)]
pub enum TransmitOutcome {
    Sent,
    WouldBlock,
    Failed,
}

/// What the write loop does after a transmission.
#[derive(Debug, Clone, Copy, PartialEq, Eq, Structural)]
pub enum AfterTransmit {
    /// Ask the engine for the next packet.
    Next,
    /// Stop writing for now; the rest goes out in a later round.
    Stop,
    /// Give up: the socket is broken.
    Fatal,
}

pub open spec fn after_transmit_spec(o: TransmitOutcome) -> AfterTransmit {
    match o {
        TransmitOutcome::Sent => AfterTransmit::Next,
        TransmitOutcome::WouldBlock => AfterTransmit::Stop,
        TransmitOutcome::Failed => AfterTransmit::Fatal,
    }
}

/// Decides how the write loop goes on after a transmission.
pub fn after_transmit(o: TransmitOutcome) -> (a: AfterTransmit)
    ensures
        a == after_transmit_spec(o),
        o is Sent ==> a is Next,
        o is WouldBlock ==> a is Stop,
        o is Failed ==> a is Fatal,
{
    match o {
        TransmitOutcome::Sent => AfterTransmit::Next,
        TransmitOutcome::WouldBlock => AfterTransmit::Stop,
        TransmitOutcome::Failed => AfterTransmit::Fatal,
    }
}

/// What the sender of the first packet does after a transmission attempt.
#[derive(Debug, Clone, Copy, PartialEq, Eq, Structural)]
pub enum InitialAction {
    /// The packet went out.
    Done,
    /// The socket was not ready: try the same packet again.
    Retry,
    /// Give up: the socket is broken.
    Fatal,
}

pub open spec fn initial_action_spec(o: TransmitOutcome) -> InitialAction {
    match o {
        TransmitOutcome::Sent => InitialAction::Done,
        TransmitOutcome::WouldBlock => InitialAction::Retry,
        TransmitOutcome::Failed => InitialAction::Fatal,
    }
}

/// Decides how the first packet of a connection is retried: it is sent
/// again until the socket takes it or fails.
pub fn initial_action(o: TransmitOutcome) -> (a: InitialAction)
    ensures
        a == initial_action_spec(o),
        o is Sent ==> a is Done,
        o is WouldBlock ==> a is Retry,
        o is Failed ==> a is Fatal,
{
    match o {
        TransmitOutcome::Sent => InitialAction::Done,
        TransmitOutcome::WouldBlock => InitialAction::Retry,
        TransmitOutcome::Failed => InitialAction::Fatal,
    }
}

// ---------------------------------------------------------------------------
// HTTP/3 events
// ---------------------------------------------------------------------------

/// An HTTP/3 event, as the HTTP/3 layer reports it.
#[derive(Debug, Clone, Copy, PartialEq, Eq, Structural)]
pub enum H3Event {
    /// Response headers arrived.
    Headers,
    /// Body data can be read.
    Data,
    /// The stream is complete.
    Finished,
    /// The peer reset the stream with this error code.
    Reset(u64),
    /// A priority update arrived (never expected by this client).
    PriorityUpdate,
    /// The peer sent GOAWAY.
    GoAway,
}

/// What one poll of the HTTP/3 layer gave.
#[derive(Debug, Clone, Copy, PartialEq, Eq, Structural)]
pub enum H3Poll {
    /// An event on the stream (or, for GOAWAY, with the id) given.
    Event(u64, H3Event),
    /// No more events for now.
    Done,
    /// The HTTP/3 layer failed.
    Failed,
}

/// What the response loop does with a poll result.
#[derive(Debug, Clone, Copy, PartialEq, Eq, Structural)]
pub enum H3Action {
    /// Nothing to do; poll again.
    Ignore,
    /// Read body data from this stream until none is left, then poll again.
    DrainBody(u64),
    /// Close the connection for this reason, then poll again.
    Close(CloseReason),
    /// Report the GOAWAY id, then poll again.
    ReportGoAway(u64),
    /// Stop polling.
    Stop,
    /// Report the failure, then stop polling.
    ReportFailure,
}

pub open spec fn h3_action_spec(p: H3Poll) -> H3Action {
    match p {
        H3Poll::Event(id, ev) => match ev {
            H3Event::Headers => H3Action::Ignore,
            H3Event::Data => H3Action::DrainBody(id),
            H3Event::Finished => H3Action::Close(CloseReason::Completed),
            H3Event::Reset(_) => H3Action::Close(CloseReason::Completed),
            // not expected by this client; `h3_action` refuses it
            H3Event::PriorityUpdate => H3Action::Ignore,
            H3Event::GoAway => H3Action::ReportGoAway(id),
        },
        H3Poll::Done => H3Action::Stop,
        H3Poll::Failed => H3Action::ReportFailure,
    }
}

pub open spec fn h3_keeps_polling(a: H3Action) -> bool {
    !(a is Stop) && !(a is ReportFailure)
}

/// Decides what to do with one poll of the HTTP/3 layer. A priority update
/// is never expected by this client and is not accepted. The loop polls
/// again exactly after an event.
pub fn h3_action(p: H3Poll) -> (a: H3Action)
    requires
        !(p matches H3Poll::Event(_, H3Event::PriorityUpdate)),
    ensures
        a == h3_action_spec(p),
        h3_keeps_polling(a) <==> (p is Event),
        p matches H3Poll::Event(id, H3Event::Data) ==> a == H3Action::DrainBody(id),
        p matches H3Poll::Event(_, H3Event::Headers) ==> a is Ignore,
        p matches H3Poll::Event(_, H3Event::Finished) ==> a == H3Action::Close(CloseReason::Completed),
        p matches H3Poll::Event(_, H3Event::Reset(_)) ==> a == H3Action::Close(CloseReason::Completed),
        p matches H3Poll::Event(id, H3Event::GoAway) ==> a == H3Action::ReportGoAway(id),
        p is Done ==> a is Stop,
        p is Failed ==> a is ReportFailure,
{
    match p {
        H3Poll::Event(id, ev) => match ev {
            H3Event::Headers => H3Action::Ignore,
            H3Event::Data => H3Action::DrainBody(id),
            H3Event::Finished => H3Action::Close(CloseReason::Completed),
            H3Event::Reset(_) => H3Action::Close(CloseReason::Completed),
            H3Event::PriorityUpdate => {
                proof { assert(false); }
                H3Action::Ignore
            },
            H3Event::GoAway => H3Action::ReportGoAway(id),
        },
        H3Poll::Done => H3Action::Stop,
        H3Poll::Failed => H3Action::ReportFailure,
    }
}

// ---------------------------------------------------------------------------
// Laws of the loop decisions
// ---------------------------------------------------------------------------

/// Every datagram read is handed on whole: the length given to the
/// connection is the length the socket returned, for every length.
pub proof fn law_datagram_delivered_whole(n: usize)
    ensures
        read_action_spec(ReadOutcome::Datagram(n)) == ReadAction::Deliver(n),
{
}

/// The read loop goes on exactly while datagrams arrive; an expired poll
/// fires the timeout, an empty socket ends the loop, and any other socket
/// error is fatal.
pub proof fn law_read_loop_outcomes(o: ReadOutcome)
    ensures
        (read_action_spec(o) is Deliver) <==> (o is Datagram),
        (read_action_spec(o) is FireTimeout) <==> (o is NoEvents),
        (read_action_spec(o) is Stop) <==> (o is WouldBlock),
        (read_action_spec(o) is Fatal) <==> (o is Failed),
{
}

/// Every packet the engine writes is transmitted, whatever its size, and
/// only an engine failure closes the connection.
pub proof fn law_every_packet_transmitted(n: usize)
    ensures
        send_action_spec(SendOutcome::Packet(n)) == SendAction::Transmit(n),
        send_action_spec(SendOutcome::Done) == SendAction::Stop,
        send_action_spec(SendOutcome::Failed) == SendAction::CloseAndStop(CloseReason::SendFailed),
{
}

/// The write loop asks for the next packet exactly after a successful
/// transmission, and the first packet is retried exactly while the socket
/// is busy.
pub proof fn law_transmit_outcomes(o: TransmitOutcome)
    ensures
        (after_transmit_spec(o) is Next) <==> (o is Sent),
        (after_transmit_spec(o) is Fatal) <==> (o is Failed),
        (initial_action_spec(o) is Retry) <==> (o is WouldBlock),
        (initial_action_spec(o) is Done) <==> (o is Sent),
        (initial_action_spec(o) is Fatal) <==> (o is Failed),
{
}

/// Body data is drained on whatever stream it arrives; the end or reset of
/// a stream closes the connection as complete; GOAWAY is reported with its
/// id; polling stops exactly on `Done` or a failure.
pub proof fn law_h3_events(id: u64, code: u64)
    ensures
        h3_action_spec(H3Poll::Event(id, H3Event::Data)) == H3Action::DrainBody(id),
        h3_action_spec(H3Poll::Event(id, H3Event::Headers)) == H3Action::Ignore,
        h3_action_spec(H3Poll::Event(id, H3Event::Finished)) == H3Action::Close(CloseReason::Completed),
        h3_action_spec(H3Poll::Event(id, H3Event::Reset(code))) == H3Action::Close(CloseReason::Completed),
        h3_action_spec(H3Poll::Event(id, H3Event::GoAway)) == H3Action::ReportGoAway(id),
        h3_action_spec(H3Poll::Done) == H3Action::Stop,
        h3_action_spec(H3Poll::Failed) == H3Action::ReportFailure,
{
}

/// A completed exchange is closed by the application with code `0x100` and
/// phrase `kthxbye`; a failed send is closed by the transport with code
/// `0x1` and phrase `fail`.
pub proof fn law_close_frames()
    ensures
        close_frame_spec(CloseReason::Completed) == (true, 0x100u64, vstd::utf8::encode_utf8("kthxbye"@)),
        close_frame_spec(CloseReason::SendFailed) == (false, 0x1u64, vstd::utf8::encode_utf8("fail"@)),
{
}

} // verus!
