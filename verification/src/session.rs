//! The course of a client's connection: connect, then send the requests one
//! after another, then close.
//!
//! A `Session` says what to do next and is told whether it was done. It does
//! none of it itself.
use vstd::prelude::*;

verus! {

/// The error code that the connection is closed with.
pub const CLOSE_CODE: u32 = 0;

/// The reason that the connection is closed with.
pub const CLOSE_REASON: &'static str = "done";

/// The local address that the endpoint moves to: any, on a free port.
pub const REBIND_ADDRESS: &'static str = "[::]:0";

/// What ended a session early.
#[derive(Clone, Copy, Debug, PartialEq, Eq, Structural)]
pub enum SessionFailure {
    Connect,
    OpenStream,
    SendRequest,
    ReadResponse,
}

/// The next thing to do.
#[derive(Clone, Copy, Debug, PartialEq, Eq, Structural)]
pub enum SessionAction {
    Connect,
    OpenStream,
    /// Move the endpoint to another local address.
    Rebind,
    /// Write the request and finish the stream.
    SendRequest,
    ReadResponse,
    Close,
    /// Wait until the peer had a chance to see the close.
    WaitIdle,
    /// Nothing is left to do.
    Stop,
}

/// Where a session is. The number is that of the requests without a response,
/// the current one included.
#[derive(Clone, Copy, Debug, PartialEq, Eq, Structural)]
pub enum SessionPhase {
    Connecting(u64),
    Opening(u64),
    Rebinding(u64),
    Sending(u64),
    Reading(u64),
    Closing,
    Draining,
    Finished,
    Failed(SessionFailure),
}

/// A session as mathematical values.
pub struct SessionModel {
    pub phase: SessionPhase,
    pub rebind: bool,
}

/// The phase in which the first of `left` requests begins, or the closing
/// where there is none.
pub open spec fn next_request(left: u64) -> SessionPhase {
    if left > 0 {
        SessionPhase::Opening(left)
    } else {
        SessionPhase::Closing
    }
}

impl SessionModel {
    /// In the middle of a request there is one without a response.
    pub open spec fn valid(self) -> bool {
        match self.phase {
            SessionPhase::Opening(n) => n > 0,
            SessionPhase::Rebinding(n) => n > 0,
            SessionPhase::Sending(n) => n > 0,
            SessionPhase::Reading(n) => n > 0,
            _ => true,
        }
    }

    /// What to do in the phase.
    pub open spec fn action(self) -> SessionAction {
        match self.phase {
            SessionPhase::Connecting(_) => SessionAction::Connect,
            SessionPhase::Opening(_) => SessionAction::OpenStream,
            SessionPhase::Rebinding(_) => SessionAction::Rebind,
            SessionPhase::Sending(_) => SessionAction::SendRequest,
            SessionPhase::Reading(_) => SessionAction::ReadResponse,
            SessionPhase::Closing => SessionAction::Close,
            SessionPhase::Draining => SessionAction::WaitIdle,
            SessionPhase::Finished => SessionAction::Stop,
            SessionPhase::Failed(_) => SessionAction::Stop,
        }
    }

    /// The failure that the action of the phase can meet, if it can meet one.
    pub open spec fn possible_failure(self) -> Option<SessionFailure> {
        match self.phase {
            SessionPhase::Connecting(_) => Some(SessionFailure::Connect),
            SessionPhase::Opening(_) => Some(SessionFailure::OpenStream),
            SessionPhase::Sending(_) => Some(SessionFailure::SendRequest),
            SessionPhase::Reading(_) => Some(SessionFailure::ReadResponse),
            _ => None,
        }
    }

    /// The session after its action was done.
    pub open spec fn after_success(self) -> SessionModel {
        SessionModel {
            phase: match self.phase {
                SessionPhase::Connecting(n) => next_request(n),
                SessionPhase::Opening(n) => if self.rebind {
                    SessionPhase::Rebinding(n)
                } else {
                    SessionPhase::Sending(n)
                },
                SessionPhase::Rebinding(n) => SessionPhase::Sending(n),
                SessionPhase::Sending(n) => SessionPhase::Reading(n),
                SessionPhase::Reading(n) => next_request((n - 1) as u64),
                SessionPhase::Closing => SessionPhase::Draining,
                SessionPhase::Draining => SessionPhase::Finished,
                _ => self.phase,
            },
            ..self
        }
    }

    /// The session after its action was met by its failure.
    pub open spec fn after_failure(self) -> SessionModel {
        match self.possible_failure() {
            Some(f) => SessionModel { phase: SessionPhase::Failed(f), ..self },
            None => self,
        }
    }

    /// A bound on the actions that are left.
    pub open spec fn steps_left(self) -> nat {
        match self.phase {
            SessionPhase::Connecting(n) => (5 * n + 7) as nat,
            SessionPhase::Opening(n) => (5 * n + 1) as nat,
            SessionPhase::Rebinding(n) => (5 * n) as nat,
            SessionPhase::Sending(n) => (5 * n - 1) as nat,
            SessionPhase::Reading(n) => (5 * n - 2) as nat,
            SessionPhase::Closing => 2,
            SessionPhase::Draining => 1,
            _ => 0,
        }
    }

    /// The actions of the session from here on, where every one is done.
    pub open spec fn course(self) -> Seq<SessionAction>
        decreases self.steps_left(),
    {
        if !self.valid() || self.action() == SessionAction::Stop {
            Seq::empty()
        } else {
            seq![self.action()] + self.after_success().course()
        }
    }
}

/// The course of a connection.
pub struct Session {
    phase: SessionPhase,
    rebind: bool,
}

impl View for Session {
    type V = SessionModel;

    closed spec fn view(&self) -> SessionModel {
        SessionModel { phase: self.phase, rebind: self.rebind }
    }
}

impl Session {
    #[verifier::type_invariant]
    spec fn is_valid(self) -> bool {
        self@.valid()
    }

    /// A session of `requests` requests, each on an endpoint that moved to
    /// another local address before it where `rebind` is set.
    pub fn new(requests: u64, rebind: bool) -> (r: Self)
        ensures
            r@ == (SessionModel { phase: SessionPhase::Connecting(requests), rebind }),
            r@.valid(),
    {
        Session { phase: SessionPhase::Connecting(requests), rebind }
    }

    /// Where the session is.
    pub fn phase(&self) -> (r: SessionPhase)
        ensures
            r == self@.phase,
            self@.valid(),
    {
        proof {
            use_type_invariant(&*self);
        }
        self.phase
    }

    /// What to do next.
    pub fn action(&self) -> (r: SessionAction)
        ensures
            r == self@.action(),
            self@.valid(),
    {
        proof {
            use_type_invariant(&*self);
        }
        match self.phase {
            SessionPhase::Connecting(_) => SessionAction::Connect,
            SessionPhase::Opening(_) => SessionAction::OpenStream,
            SessionPhase::Rebinding(_) => SessionAction::Rebind,
            SessionPhase::Sending(_) => SessionAction::SendRequest,
            SessionPhase::Reading(_) => SessionAction::ReadResponse,
            SessionPhase::Closing => SessionAction::Close,
            SessionPhase::Draining => SessionAction::WaitIdle,
            SessionPhase::Finished => SessionAction::Stop,
            SessionPhase::Failed(_) => SessionAction::Stop,
        }
    }

    /// Takes in that the action was done.
    pub fn succeeded(&mut self)
        ensures
            final(self)@ == old(self)@.after_success(),
            final(self)@.valid(),
    {
        proof {
            use_type_invariant(&*self);
        }
        let next = match self.phase {
            SessionPhase::Connecting(n) => Self::begin(n),
            SessionPhase::Opening(n) => if self.rebind {
                SessionPhase::Rebinding(n)
            } else {
                SessionPhase::Sending(n)
            },
            SessionPhase::Rebinding(n) => SessionPhase::Sending(n),
            SessionPhase::Sending(n) => SessionPhase::Reading(n),
            SessionPhase::Reading(n) => Self::begin(n - 1),
            SessionPhase::Closing => SessionPhase::Draining,
            SessionPhase::Draining => SessionPhase::Finished,
            SessionPhase::Finished => SessionPhase::Finished,
            SessionPhase::Failed(f) => SessionPhase::Failed(f),
        };
        self.phase = next;
    }

    /// Takes in that the action failed, and returns what ended the session.
    /// `None` where the action is one that cannot fail; nothing changes then.
    pub fn failed(&mut self) -> (r: Option<SessionFailure>)
        ensures
            r == old(self)@.possible_failure(),
            final(self)@ == old(self)@.after_failure(),
            final(self)@.valid(),
    {
        proof {
            use_type_invariant(&*self);
        }
        let failure = match self.phase {
            SessionPhase::Connecting(_) => SessionFailure::Connect,
            SessionPhase::Opening(_) => SessionFailure::OpenStream,
            SessionPhase::Sending(_) => SessionFailure::SendRequest,
            SessionPhase::Reading(_) => SessionFailure::ReadResponse,
            _ => {
                return None;
            },
        };
        self.phase = SessionPhase::Failed(failure);
        Some(failure)
    }

    fn begin(left: u64) -> (r: SessionPhase)
        ensures
            r == next_request(left),
    {
        if left > 0 {
            SessionPhase::Opening(left)
        } else {
            SessionPhase::Closing
        }
    }
}

/// How a failure is told to the user.
pub open spec fn failure_text(f: SessionFailure) -> Seq<char> {
    match f {
        SessionFailure::Connect => "failed to connect"@,
        SessionFailure::OpenStream => "failed to open stream"@,
        SessionFailure::SendRequest => "failed to send request"@,
        SessionFailure::ReadResponse => "failed to read response"@,
    }
}

impl SessionFailure {
    /// The message for a failure with the given cause.
    pub fn message(&self, cause: &str) -> (r: String)
        ensures
            r@ == failure_text(*self) + ": "@ + cause@,
    {
        let what = match *self {
            SessionFailure::Connect => "failed to connect",
            SessionFailure::OpenStream => "failed to open stream",
            SessionFailure::SendRequest => "failed to send request",
            SessionFailure::ReadResponse => "failed to read response",
        };
        String::from_str(what).concat(": ").concat(cause)
    }
}

/// The actions of one request.
pub open spec fn request_actions(rebind: bool) -> Seq<SessionAction> {
    if rebind {
        seq![
            SessionAction::OpenStream,
            SessionAction::Rebind,
            SessionAction::SendRequest,
            SessionAction::ReadResponse,
        ]
    } else {
        seq![
            SessionAction::OpenStream,
            SessionAction::SendRequest,
            SessionAction::ReadResponse,
        ]
    }
}

/// The actions of `n` requests.
pub open spec fn requests_actions(n: nat, rebind: bool) -> Seq<SessionAction>
    decreases n,
{
    if n == 0 {
        Seq::empty()
    } else {
        request_actions(rebind) + requests_actions((n - 1) as nat, rebind)
    }
}

/// The actions that close a connection.
pub open spec fn closing_actions() -> Seq<SessionAction> {
    seq![SessionAction::Close, SessionAction::WaitIdle]
}

proof fn lemma_course_of_requests(n: u64, rebind: bool)
    ensures
        (SessionModel { phase: next_request(n), rebind }).course() == requests_actions(
            n as nat,
            rebind,
        ) + closing_actions(),
    decreases n,
{
    let m = SessionModel { phase: next_request(n), rebind };
    reveal_with_fuel(SessionModel::course, 6);
    if n == 0 {
        assert(m.course() =~= closing_actions());
        assert(requests_actions(0, rebind) + closing_actions() =~= closing_actions());
    } else {
        let rest = SessionModel { phase: next_request((n - 1) as u64), rebind };
        lemma_course_of_requests((n - 1) as u64, rebind);
        let reading = SessionModel { phase: SessionPhase::Reading(n), rebind };
        assert(reading.after_success() == rest);
        assert(reading.course() == seq![SessionAction::ReadResponse] + rest.course());
        let sending = SessionModel { phase: SessionPhase::Sending(n), rebind };
        assert(sending.course() == seq![SessionAction::SendRequest] + reading.course());
        if rebind {
            let moving = SessionModel { phase: SessionPhase::Rebinding(n), rebind };
            assert(moving.course() == seq![SessionAction::Rebind] + sending.course());
            assert(m.course() == seq![SessionAction::OpenStream] + moving.course());
        } else {
            assert(m.course() == seq![SessionAction::OpenStream] + sending.course());
        }
        assert(m.course() =~= request_actions(rebind) + rest.course());
        assert(m.course() =~= requests_actions(n as nat, rebind) + closing_actions());
    }
}

/// A session that meets no failure connects once, sends exactly the requests
/// it was made for, one after another, and then closes and waits.
pub proof fn law_course_of_session(requests: u64, rebind: bool)
    ensures
        (SessionModel { phase: SessionPhase::Connecting(requests), rebind }).course() == seq![
            SessionAction::Connect,
        ] + requests_actions(requests as nat, rebind) + closing_actions(),
{
    lemma_course_of_requests(requests, rebind);
    let m = SessionModel { phase: SessionPhase::Connecting(requests), rebind };
    assert(m.course() =~= seq![SessionAction::Connect] + (requests_actions(
        requests as nat,
        rebind,
    ) + closing_actions()));
}

/// Every action that is done brings the session nearer to its end.
pub proof fn law_session_ends(m: SessionModel)
    requires
        m.valid(),
        m.action() != SessionAction::Stop,
    ensures
        m.after_success().steps_left() < m.steps_left(),
        m.after_success().valid(),
{
}

/// A failure ends the session at once, as the failure of the action that met
/// it, and an ended session stays as it is.
pub proof fn law_failure_is_final(m: SessionModel)
    requires
        m.possible_failure() is Some,
    ensures
        m.after_failure().phase == SessionPhase::Failed(m.possible_failure()->0),
        m.after_failure().action() == SessionAction::Stop,
        m.after_failure().after_success() == m.after_failure(),
        m.after_failure().after_failure() == m.after_failure(),
{
}

/// After the connection the first request begins, or the closing where there
/// is none. The action after each other one is the next of its request; the
/// response of the last request leads to the closing, and that to the end.
pub proof fn law_next_phase(m: SessionModel, n: u64)
    ensures
        m.phase == SessionPhase::Connecting(0) ==> m.after_success().phase == SessionPhase::Closing,
        m.phase == SessionPhase::Connecting(n) && n > 0 ==> m.after_success().phase
            == SessionPhase::Opening(n),
        m.phase == SessionPhase::Opening(n) && m.rebind ==> m.after_success().phase
            == SessionPhase::Rebinding(n),
        m.phase == SessionPhase::Opening(n) && !m.rebind ==> m.after_success().phase
            == SessionPhase::Sending(n),
        m.phase == SessionPhase::Rebinding(n) ==> m.after_success().phase == SessionPhase::Sending(
            n,
        ),
        m.phase == SessionPhase::Sending(n) ==> m.after_success().phase == SessionPhase::Reading(n),
        m.phase == SessionPhase::Reading(n) && n > 1 ==> m.after_success().phase
            == SessionPhase::Opening((n - 1) as u64),
        m.phase == SessionPhase::Reading(1) ==> m.after_success().phase == SessionPhase::Closing,
        m.phase == SessionPhase::Closing ==> m.after_success().phase == SessionPhase::Draining,
        m.phase == SessionPhase::Draining ==> m.after_success().phase == SessionPhase::Finished,
        m.phase == SessionPhase::Finished || m.phase is Failed ==> m.after_success() == m,
        m.after_success().rebind == m.rebind,
{
}

/// Each phase asks for its own action.
pub proof fn law_action_of_phase(m: SessionModel)
    ensures
        m.phase is Connecting <==> m.action() == SessionAction::Connect,
        m.phase is Opening <==> m.action() == SessionAction::OpenStream,
        m.phase is Rebinding <==> m.action() == SessionAction::Rebind,
        m.phase is Sending <==> m.action() == SessionAction::SendRequest,
        m.phase is Reading <==> m.action() == SessionAction::ReadResponse,
        m.phase is Closing <==> m.action() == SessionAction::Close,
        m.phase is Draining <==> m.action() == SessionAction::WaitIdle,
        m.phase is Finished || m.phase is Failed <==> m.action() == SessionAction::Stop,
{
}

/// The four actions that can fail end the session, each as its own failure.
/// Nothing else changes, and no other action ends it.
pub proof fn law_failure_of_action(m: SessionModel)
    ensures
        m.action() == SessionAction::Connect ==> m.after_failure() == (SessionModel {
            phase: SessionPhase::Failed(SessionFailure::Connect),
            ..m
        }) && m.possible_failure() == Some(SessionFailure::Connect),
        m.action() == SessionAction::OpenStream ==> m.after_failure() == (SessionModel {
            phase: SessionPhase::Failed(SessionFailure::OpenStream),
            ..m
        }) && m.possible_failure() == Some(SessionFailure::OpenStream),
        m.action() == SessionAction::SendRequest ==> m.after_failure() == (SessionModel {
            phase: SessionPhase::Failed(SessionFailure::SendRequest),
            ..m
        }) && m.possible_failure() == Some(SessionFailure::SendRequest),
        m.action() == SessionAction::ReadResponse ==> m.after_failure() == (SessionModel {
            phase: SessionPhase::Failed(SessionFailure::ReadResponse),
            ..m
        }) && m.possible_failure() == Some(SessionFailure::ReadResponse),
        m.action() == SessionAction::Rebind || m.action() == SessionAction::Close || m.action()
            == SessionAction::WaitIdle || m.action() == SessionAction::Stop ==> m.after_failure()
            == m && m.possible_failure() is None,
{
}

proof fn lemma_course_from_request(n: u64, rebind: bool)
    ensures
        ({
            let c = (SessionModel { phase: next_request(n), rebind }).course();
            &&& c.len() == (if rebind { 4 * n } else { 3 * n }) + 2
            &&& c[c.len() - 2] == SessionAction::Close
            &&& c[c.len() - 1] == SessionAction::WaitIdle
            &&& rebind ==> forall|k: int|
                0 <= k < n ==> #[trigger] c[4 * k] == SessionAction::OpenStream && c[4 * k + 1]
                    == SessionAction::Rebind && c[4 * k + 2] == SessionAction::SendRequest && c[4
                    * k + 3] == SessionAction::ReadResponse
            &&& !rebind ==> forall|k: int|
                0 <= k < n ==> #[trigger] c[3 * k] == SessionAction::OpenStream && c[3 * k + 1]
                    == SessionAction::SendRequest && c[3 * k + 2] == SessionAction::ReadResponse
        }),
    decreases n,
{
    let c = (SessionModel { phase: next_request(n), rebind }).course();
    lemma_course_of_requests(n, rebind);
    if n == 0 {
        assert(c =~= closing_actions());
    } else {
        let rest = (SessionModel { phase: next_request((n - 1) as u64), rebind }).course();
        lemma_course_from_request((n - 1) as u64, rebind);
        lemma_course_of_requests((n - 1) as u64, rebind);
        assert(c =~= request_actions(rebind) + rest);
        if rebind {
            assert forall|k: int| 0 <= k < n implies #[trigger] c[4 * k]
                == SessionAction::OpenStream && c[4 * k + 1] == SessionAction::Rebind && c[4 * k
                + 2] == SessionAction::SendRequest && c[4 * k + 3]
                == SessionAction::ReadResponse by {
                if k > 0 {
                    assert(rest[4 * (k - 1)] == c[4 * k]);
                }
            }
        } else {
            assert forall|k: int| 0 <= k < n implies #[trigger] c[3 * k]
                == SessionAction::OpenStream && c[3 * k + 1] == SessionAction::SendRequest && c[3
                * k + 2] == SessionAction::ReadResponse by {
                if k > 0 {
                    assert(rest[3 * (k - 1)] == c[3 * k]);
                }
            }
        }
    }
}

/// A session that meets no failure connects, then for each request opens a
/// stream, moves the endpoint if asked to, sends the request and reads the
/// response, and then closes and waits: three actions and three or four for
/// every request, in this order.
pub proof fn law_actions_in_order(requests: u64, rebind: bool, k: int)
    requires
        0 <= k < requests,
    ensures
        ({
            let c = (SessionModel { phase: SessionPhase::Connecting(requests), rebind }).course();
            &&& c[0] == SessionAction::Connect
            &&& c[c.len() - 2] == SessionAction::Close
            &&& c[c.len() - 1] == SessionAction::WaitIdle
            &&& rebind ==> c.len() == 3 + 4 * requests && c[1 + 4 * k] == SessionAction::OpenStream
                && c[2 + 4 * k] == SessionAction::Rebind && c[3 + 4 * k]
                == SessionAction::SendRequest && c[4 + 4 * k] == SessionAction::ReadResponse
            &&& !rebind ==> c.len() == 3 + 3 * requests && c[1 + 3 * k]
                == SessionAction::OpenStream && c[2 + 3 * k] == SessionAction::SendRequest && c[3
                + 3 * k] == SessionAction::ReadResponse
        }),
{
    let m = SessionModel { phase: SessionPhase::Connecting(requests), rebind };
    let rest = (SessionModel { phase: next_request(requests), rebind }).course();
    lemma_course_from_request(requests, rebind);
    assert(m.course() =~= seq![SessionAction::Connect] + rest);
    if rebind {
        assert(rest[4 * k] == m.course()[1 + 4 * k]);
    } else {
        assert(rest[3 * k] == m.course()[1 + 3 * k]);
    }
}

/// A session without requests only connects, closes and waits.
pub proof fn law_actions_without_requests(rebind: bool)
    ensures
        (SessionModel { phase: SessionPhase::Connecting(0), rebind }).course() == seq![
            SessionAction::Connect,
            SessionAction::Close,
            SessionAction::WaitIdle,
        ],
{
    law_course_of_session(0, rebind);
    assert((SessionModel { phase: SessionPhase::Connecting(0), rebind }).course() =~= seq![
        SessionAction::Connect,
        SessionAction::Close,
        SessionAction::WaitIdle,
    ]);
}

/// Each failure is told in its own words.
pub proof fn law_failure_texts()
    ensures
        failure_text(SessionFailure::Connect) == "failed to connect"@,
        failure_text(SessionFailure::OpenStream) == "failed to open stream"@,
        failure_text(SessionFailure::SendRequest) == "failed to send request"@,
        failure_text(SessionFailure::ReadResponse) == "failed to read response"@,
{
}

/// A failure is told as what failed, a colon, a space and the cause, so that
/// messages of one failure differ only in their causes.
pub proof fn law_failure_messages(f: SessionFailure, cause: &str, message: String)
    requires
        call_ensures(SessionFailure::message, (&f, cause), message),
    ensures
        message@.len() == failure_text(f).len() + 2 + cause@.len(),
        message@.take(failure_text(f).len() as int) == failure_text(f),
        message@[failure_text(f).len() as int] == ':',
        message@[failure_text(f).len() as int + 1] == ' ',
        message@.skip(failure_text(f).len() as int + 2) == cause@,
{
    reveal_strlit(": ");
    assert(message@.take(failure_text(f).len() as int) =~= failure_text(f));
    assert(message@.skip(failure_text(f).len() as int + 2) =~= cause@);
}

} // verus!
