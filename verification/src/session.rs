use vstd::prelude::*;

verus! {

/// What the driver of one connection does after it has read from the
/// socket: stop (the connection is closed), or go on, possibly opening the
/// HTTP/3 layer and sending the request first.
#[derive(Debug, PartialEq, Eq)]
pub enum Step {
    Stop,
    Proceed { open_h3: bool, send_request: bool },
}

/// The request state of one connection: whether the HTTP/3 layer is open,
/// whether the request went out, and whether the driver has stopped.
pub struct Session {
    h3_ready: bool,
    request_sent: bool,
    finished: bool,
}

/// The mathematical value of a [`Session`].
pub struct SessionView {
    pub h3_ready: bool,
    pub request_sent: bool,
    pub finished: bool,
}

impl View for Session {
    type V = SessionView;

    closed spec fn view(&self) -> SessionView {
        SessionView { h3_ready: self.h3_ready, request_sent: self.request_sent, finished: self.finished }
    }
}

/// A request is only ever sent over an open HTTP/3 layer.
pub open spec fn session_wf(s: SessionView) -> bool {
    s.request_sent ==> s.h3_ready
}

pub open spec fn initial_session() -> SessionView {
    SessionView { h3_ready: false, request_sent: false, finished: false }
}

/// The decision after a read: a closed connection stops the driver;
/// otherwise the HTTP/3 layer is opened once the handshake is established,
/// and the request is sent once, as soon as the layer is open.
pub open spec fn after_read_spec(s: SessionView, closed: bool, established: bool) -> (SessionView, Step) {
    if s.finished || closed {
        (SessionView { finished: true, ..s }, Step::Stop)
    } else {
        let open_h3 = established && !s.h3_ready;
        let ready = s.h3_ready || open_h3;
        let send_request = ready && !s.request_sent;
        (
            SessionView { h3_ready: ready, request_sent: s.request_sent || send_request, finished: false },
            Step::Proceed { open_h3, send_request },
        )
    }
}

/// The decision after the pending packets went out: stop when the
/// connection has closed meanwhile.
pub open spec fn after_flush_spec(s: SessionView, closed: bool) -> (SessionView, bool) {
    if s.finished || closed {
        (SessionView { finished: true, ..s }, true)
    } else {
        (s, false)
    }
}

impl Session {
    #[verifier::type_invariant]
    spec fn well_formed(&self) -> bool {
        self.request_sent ==> self.h3_ready
    }

    /// A connection whose handshake has not completed yet.
    pub fn new() -> (s: Session)
        ensures
            s@ == initial_session(),
            !s@.h3_ready && !s@.request_sent && !s@.finished,
    {
        Session { h3_ready: false, request_sent: false, finished: false }
    }

    pub fn is_finished(&self) -> (b: bool)
        ensures
            session_wf(self@),
            b == self@.finished,
    {
        proof { use_type_invariant(self); }
        self.finished
    }

    pub fn request_sent(&self) -> (b: bool)
        ensures
            b == self@.request_sent,
    {
        self.request_sent
    }

    /// Decides what to do after reading: `closed` and `established` are the
    /// connection's state as the QUIC engine reports it.
    pub fn after_read(&mut self, closed: bool, established: bool) -> (step: Step)
        ensures
            session_wf(final(self)@),
            (final(self)@, step) == after_read_spec(old(self)@, closed, established),
            closed || old(self)@.finished ==> step == Step::Stop && final(self)@.finished
                && final(self)@.h3_ready == old(self)@.h3_ready
                && final(self)@.request_sent == old(self)@.request_sent,
            !closed && !old(self)@.finished ==> step == (Step::Proceed {
                open_h3: established && !old(self)@.h3_ready,
                send_request: (old(self)@.h3_ready || established) && !old(self)@.request_sent,
            }) && !final(self)@.finished
                && final(self)@.h3_ready == (old(self)@.h3_ready || established)
                && final(self)@.request_sent == (old(self)@.request_sent || old(self)@.h3_ready || established),
    {
        proof { use_type_invariant(&*self); }
        if self.finished || closed {
            self.finished = true;
            return Step::Stop;
        }
        let open_h3 = established && !self.h3_ready;
        if open_h3 {
            self.h3_ready = true;
        }
        let send_request = self.h3_ready && !self.request_sent;
        if send_request {
            self.request_sent = true;
        }
        Step::Proceed { open_h3, send_request }
    }

    /// Decides, after the pending packets went out, whether to stop.
    pub fn after_flush(&mut self, closed: bool) -> (stop: bool)
        ensures
            session_wf(final(self)@),
            (final(self)@, stop) == after_flush_spec(old(self)@, closed),
            stop == (closed || old(self)@.finished),
            final(self)@.finished == (closed || old(self)@.finished),
            final(self)@.h3_ready == old(self)@.h3_ready,
            final(self)@.request_sent == old(self)@.request_sent,
    {
        proof { use_type_invariant(&*self); }
        if self.finished || closed {
            self.finished = true;
            true
        } else {
            false
        }
    }
}

// ---------------------------------------------------------------------------
// Runs of a session
// ---------------------------------------------------------------------------

/// What the engine reports in one round of the driver loop: whether the
/// connection is closed after reading, whether its handshake is
/// established, and whether it is closed after the packets went out.
pub struct Round {
    pub closed_after_read: bool,
    pub established: bool,
    pub closed_after_flush: bool,
}

/// One round: the read decision, then, unless it stopped, the flush decision.
pub open spec fn round_spec(s: SessionView, r: Round) -> (SessionView, Step, bool) {
    let (s1, step) = after_read_spec(s, r.closed_after_read, r.established);
    if step is Stop {
        (s1, step, true)
    } else {
        let (s2, stop) = after_flush_spec(s1, r.closed_after_flush);
        (s2, step, stop)
    }
}

pub open spec fn sends_request(step: Step) -> bool {
    step matches Step::Proceed { send_request, .. } && send_request
}

pub open spec fn opens_h3(step: Step) -> bool {
    step matches Step::Proceed { open_h3, .. } && open_h3
}

/// The session after a sequence of rounds.
pub open spec fn run_state(s: SessionView, rs: Seq<Round>) -> SessionView
    decreases rs.len(),
{
    if rs.len() == 0 {
        s
    } else {
        run_state(round_spec(s, rs[0]).0, rs.drop_first())
    }
}

/// How many rounds of a sequence send the request.
pub open spec fn requests_sent(s: SessionView, rs: Seq<Round>) -> nat
    decreases rs.len(),
{
    if rs.len() == 0 {
        0
    } else {
        let (s1, step, _) = round_spec(s, rs[0]);
        (if sends_request(step) { 1nat } else { 0nat }) + requests_sent(s1, rs.drop_first())
    }
}

/// How many rounds of a sequence open the HTTP/3 layer.
pub open spec fn h3_opens(s: SessionView, rs: Seq<Round>) -> nat
    decreases rs.len(),
{
    if rs.len() == 0 {
        0
    } else {
        let (s1, step, _) = round_spec(s, rs[0]);
        (if opens_h3(step) { 1nat } else { 0nat }) + h3_opens(s1, rs.drop_first())
    }
}

/// Every round keeps the session well formed.
pub proof fn lemma_round_keeps_wf(s: SessionView, r: Round)
    requires
        session_wf(s),
    ensures
        session_wf(round_spec(s, r).0),
{
}

/// Over any sequence of rounds a connection sends its request at most once
/// and opens its HTTP/3 layer at most once; a session that has already sent
/// it never sends it again.
pub proof fn lemma_request_at_most_once(s: SessionView, rs: Seq<Round>)
    requires
        session_wf(s),
    ensures
        requests_sent(s, rs) + (if s.request_sent { 1nat } else { 0nat }) <= 1,
        h3_opens(s, rs) + (if s.h3_ready { 1nat } else { 0nat }) <= 1,
    decreases rs.len(),
{
    if rs.len() > 0 {
        let (s1, step, _) = round_spec(s, rs[0]);
        lemma_request_at_most_once(s1, rs.drop_first());
    }
}

/// A request is only sent in a round in which the handshake is established
/// and the connection was not found closed; and the same round, or an
/// earlier one, opened the HTTP/3 layer.
pub proof fn lemma_request_needs_handshake(s: SessionView, r: Round)
    requires
        session_wf(s),
        sends_request(round_spec(s, r).1),
    ensures
        !r.closed_after_read,
        !s.finished,
        r.established || s.h3_ready,
        round_spec(s, r).0.h3_ready,
{
}

/// Once a round has stopped the driver, every later round stops at once and
/// changes nothing.
pub proof fn lemma_stop_is_final(s: SessionView, rs: Seq<Round>)
    requires
        s.finished,
    ensures
        run_state(s, rs) == s,
        requests_sent(s, rs) == 0,
        h3_opens(s, rs) == 0,
    decreases rs.len(),
{
    if rs.len() > 0 {
        assert(round_spec(s, rs[0]).0 == s);
        lemma_stop_is_final(s, rs.drop_first());
    }
}

/// From a fresh session, the request is sent in the first round whose
/// handshake is established, provided no earlier round found the
/// connection closed.
pub proof fn lemma_first_established_round_sends(rs: Seq<Round>, k: int)
    requires
        0 <= k < rs.len(),
        rs[k].established,
        !rs[k].closed_after_read,
        forall|i: int| 0 <= i < k ==> !#[trigger] rs[i].established,
        forall|i: int| 0 <= i < k ==> !#[trigger] rs[i].closed_after_read && !rs[i].closed_after_flush,
    ensures
        run_state(initial_session(), rs.take(k)) == initial_session(),
        sends_request(round_spec(initial_session(), rs[k]).1),
    decreases k,
{
    if k > 0 {
        let rest = rs.drop_first();
        assert forall|i: int| 0 <= i < k - 1 implies !#[trigger] rest[i].established by {
            assert(rest[i] == rs[i + 1]);
        }
        assert forall|i: int| 0 <= i < k - 1 implies !#[trigger] rest[i].closed_after_read && !rest[i].closed_after_flush by {
            assert(rest[i] == rs[i + 1]);
        }
        assert(rest[k - 1] == rs[k]);
        lemma_first_established_round_sends(rest, k - 1);
        assert(rs.take(k).drop_first() =~= rest.take(k - 1));
        assert(round_spec(initial_session(), rs[0]).0 == initial_session());
    }
}

/// A connection found closed after a read stops the driver, whatever the
/// request state, and the session stays finished: its request and HTTP/3
/// state are kept as they were.
pub proof fn law_closed_connection_stops(s: SessionView, established: bool)
    ensures
        after_read_spec(s, true, established).1 == Step::Stop,
        after_read_spec(s, true, established).0 == (SessionView { finished: true, ..s }),
        after_flush_spec(s, true) == (SessionView { finished: true, ..s }, true),
{
}

/// On an open connection whose driver has not stopped, the HTTP/3 layer is
/// opened in the first round with an established handshake, and the request
/// goes out in the round its layer is (or becomes) open, unless it already
/// went out.
pub proof fn law_open_connection_proceeds(s: SessionView, established: bool)
    requires
        !s.finished,
    ensures
        after_read_spec(s, false, established).1 == (Step::Proceed {
            open_h3: established && !s.h3_ready,
            send_request: (s.h3_ready || established) && !s.request_sent,
        }),
        !after_read_spec(s, false, established).0.finished,
        after_flush_spec(s, false) == (s, false),
{
}

} // verus!
