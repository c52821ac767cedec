//! The websocket heartbeat: the server pings a connected client at a fixed
//! interval and closes the connection when no pong arrives in time.
//!
//! The server's only state is the two timer handles it holds. Each handler
//! method takes one event, updates that state, and returns the actions the
//! caller performs with the socket, in order, stopping at the first one that
//! fails. Replacing a timer takes two calls: `on_new_timeout` hands out the
//! handle to cancel, and `keep_new_timeout` stores the new one once that
//! cancellation went through.
use vstd::prelude::*;

verus! {

/// Token of the timer that sends the next ping.
pub const PING: usize = 0;

/// Token of the timer that declares the client unresponsive.
pub const CLIENT_UNRESPONSIVE: usize = 1;

/// Delay between two pings, in milliseconds.
pub const PING_INTERVAL_MS: u64 = 5_000;

/// Time a client has to answer before it counts as unresponsive, in milliseconds.
pub const UNRESPONSIVE_AFTER_MS: u64 = 15_000;

/// The opcode of a websocket frame.
#[derive(Debug, PartialEq, Eq, Structural, Clone, Copy)]
pub enum Opcode {
    Continue,
    Text,
    Binary,
    Close,
    Ping,
    Pong,
    Bad,
}

/// What the server asks its socket to do.
#[derive(Debug)]
pub enum TimerAction<T> {
    /// Arm a timer that fires `token` after `delay_ms` milliseconds.
    Schedule { delay_ms: u64, token: usize },
    /// Send a ping frame with an empty payload.
    SendPing,
    /// Cancel a pending timer.
    Cancel(T),
    /// Close the connection with the "going away" code.
    CloseAway,
}

/// A timer fired with a token the server never armed.
#[derive(Debug, PartialEq, Eq, Structural, Clone, Copy)]
pub enum HeartbeatError {
    InvalidToken,
}

impl HeartbeatError {
    /// The text of the internal error the server reports.
    pub fn message(&self) -> (s: String)
        ensures
            s@ == invalid_token_message(),
    {
        String::from_str("Invalid timeout token encountered!")
    }
}

/// The text reported for an unknown timer token.
pub open spec fn invalid_token_message() -> Seq<char> {
    "Invalid timeout token encountered!"@
}

/// The answer to a newly armed timer: whether its token is known, and if so
/// the handle it displaces, which the caller cancels before keeping the new one.
#[derive(Debug)]
pub enum Replacement<T> {
    UnknownToken,
    Replace(Option<T>),
}

/// The timers a connection holds.
#[derive(Debug)]
pub struct Heartbeat<T> {
    pub ping_timeout: Option<T>,
    pub client_unresponsive_timeout: Option<T>,
}

/// Arming a timer.
pub open spec fn schedule<T>(delay_ms: u64, token: usize) -> TimerAction<T> {
    TimerAction::Schedule { delay_ms, token }
}

/// The actions when a connection opens: start the unresponsiveness
/// deadline, then the first ping.
pub open spec fn open_actions<T>() -> Seq<TimerAction<T>> {
    seq![schedule(UNRESPONSIVE_AFTER_MS, CLIENT_UNRESPONSIVE), schedule(PING_INTERVAL_MS, PING)]
}

/// The actions when the ping timer fires: ping, and arm the next ping only
/// while the unresponsiveness deadline is still pending.
pub open spec fn ping_actions<T>(watching: bool) -> Seq<TimerAction<T>> {
    if watching {
        seq![TimerAction::SendPing, schedule(PING_INTERVAL_MS, PING)]
    } else {
        seq![TimerAction::SendPing]
    }
}

/// The actions when the client is declared unresponsive: cancel the pending
/// ping, if any, then close.
pub open spec fn give_up_actions<T>(pending_ping: Option<T>) -> Seq<TimerAction<T>> {
    match pending_ping {
        Some(t) => seq![TimerAction::Cancel(t), TimerAction::CloseAway],
        None => seq![TimerAction::CloseAway],
    }
}

/// The actions on a received frame: a pong restarts the deadline.
pub open spec fn frame_actions<T>(opcode: Opcode) -> Seq<TimerAction<T>> {
    if opcode == Opcode::Pong {
        seq![schedule(UNRESPONSIVE_AFTER_MS, CLIENT_UNRESPONSIVE)]
    } else {
        Seq::empty()
    }
}

/// The reply to a fired timer.
pub open spec fn timeout_reply<T>(s: Heartbeat<T>, token: usize) -> Result<Seq<TimerAction<T>>, HeartbeatError> {
    if token == PING {
        Ok(ping_actions(s.client_unresponsive_timeout is Some))
    } else if token == CLIENT_UNRESPONSIVE {
        Ok(give_up_actions(s.ping_timeout))
    } else {
        Err(HeartbeatError::InvalidToken)
    }
}

/// The state after a timer fired: an unresponsive client leaves no timer held.
pub open spec fn after_timeout<T>(s: Heartbeat<T>, token: usize) -> Heartbeat<T> {
    if token == CLIENT_UNRESPONSIVE {
        Heartbeat { ping_timeout: None, client_unresponsive_timeout: None }
    } else {
        s
    }
}

/// What a newly armed timer displaces.
pub open spec fn displaced<T>(s: Heartbeat<T>, token: usize) -> Replacement<T> {
    if token == PING {
        Replacement::Replace(s.ping_timeout)
    } else if token == CLIENT_UNRESPONSIVE {
        Replacement::Replace(s.client_unresponsive_timeout)
    } else {
        Replacement::UnknownToken
    }
}

/// The state once the displaced handle was handed out for cancellation.
pub open spec fn vacated<T>(s: Heartbeat<T>, token: usize) -> Heartbeat<T> {
    if token == PING {
        Heartbeat { ping_timeout: None, ..s }
    } else if token == CLIENT_UNRESPONSIVE {
        Heartbeat { client_unresponsive_timeout: None, ..s }
    } else {
        s
    }
}

/// The state once a new timer is kept: a ping timer is only kept while the
/// unresponsiveness deadline is pending.
pub open spec fn installed<T>(s: Heartbeat<T>, token: usize, timeout: T) -> Heartbeat<T> {
    if token == PING {
        Heartbeat {
            ping_timeout: if s.client_unresponsive_timeout is Some { Some(timeout) } else { None },
            ..s
        }
    } else if token == CLIENT_UNRESPONSIVE {
        Heartbeat { client_unresponsive_timeout: Some(timeout), ..s }
    } else {
        s
    }
}

/// The state after a new timer replaced the old one, the old one's
/// cancellation having succeeded.
pub open spec fn after_new_timeout<T>(s: Heartbeat<T>, token: usize, timeout: T) -> Heartbeat<T> {
    installed(vacated(s, token), token, timeout)
}

/// The state after the connection closed: the ping timer was handed out.
pub open spec fn after_close<T>(s: Heartbeat<T>) -> Heartbeat<T> {
    Heartbeat { ping_timeout: None, ..s }
}

/// A ping timer is only held while the unresponsiveness deadline is pending.
pub open spec fn watchdog_guards_ping<T>(s: Heartbeat<T>) -> bool {
    s.ping_timeout is Some ==> s.client_unresponsive_timeout is Some
}

/// The actions of a handler result, by their view.
pub open spec fn reply_view<T>(r: Result<Vec<TimerAction<T>>, HeartbeatError>) -> Result<Seq<TimerAction<T>>, HeartbeatError> {
    match r {
        Ok(v) => Ok(v@),
        Err(e) => Err(e),
    }
}

/// A connection that holds no timer holds no ping timer without a deadline,
/// and every completed event keeps it so: a fired timer, a new timer kept
/// after its predecessor was cancelled, and a close.
pub proof fn lemma_watchdog_guards_ping<T>(s: Heartbeat<T>, token: usize, timeout: T)
    requires
        watchdog_guards_ping(s),
    ensures
        watchdog_guards_ping(Heartbeat::<T> { ping_timeout: None, client_unresponsive_timeout: None }),
        watchdog_guards_ping(after_timeout(s, token)),
        watchdog_guards_ping(after_new_timeout(s, token, timeout)),
        watchdog_guards_ping(after_close(s)),
{
}

/// Once the client was declared unresponsive the server stops pinging: the
/// next ping timer that fires sends a last ping without arming another, and
/// a ping timer armed afterwards is not kept.
pub proof fn lemma_no_ping_after_give_up<T>(s: Heartbeat<T>, timeout: T)
    ensures
        timeout_reply(after_timeout(s, CLIENT_UNRESPONSIVE), PING) == Ok::<Seq<TimerAction<T>>, HeartbeatError>(
            seq![TimerAction::SendPing],
        ),
        after_new_timeout(after_timeout(s, CLIENT_UNRESPONSIVE), PING, timeout).ping_timeout is None,
{
    assert(ping_actions::<T>(false) =~= seq![TimerAction::SendPing]);
}

/// A pending ping timer never leaves the state unnoticed: when a fired timer
/// clears it, the first action cancels it; when a new timer or a close
/// clears it, it is handed out for cancellation.
pub proof fn lemma_pending_ping_is_handed_out<T>(s: Heartbeat<T>, token: usize, timeout: T)
    requires
        s.ping_timeout is Some,
    ensures
        after_timeout(s, token).ping_timeout is None ==> (timeout_reply(s, token) matches Ok(acts) && acts.len() > 0
            && acts[0] == TimerAction::Cancel(s.ping_timeout->0)),
        vacated(s, token).ping_timeout is None ==> displaced(s, token) == Replacement::Replace(s.ping_timeout),
        after_close(s).ping_timeout is None,
{
}

/// The unresponsiveness deadline is re-armed by exactly the frames that are
/// pongs, and a connection arms it before its first ping.
pub proof fn lemma_pong_rearms_deadline<T>(opcode: Opcode)
    ensures
        (frame_actions::<T>(opcode).len() > 0) == (opcode == Opcode::Pong),
        frame_actions::<T>(opcode).len() > 0 ==> frame_actions::<T>(opcode)[0] == schedule::<T>(
            UNRESPONSIVE_AFTER_MS,
            CLIENT_UNRESPONSIVE,
        ),
        open_actions::<T>()[0] == schedule::<T>(UNRESPONSIVE_AFTER_MS, CLIENT_UNRESPONSIVE),
{
}

/// Each timer slot belongs to its own token: handing out or keeping the timer
/// of one token leaves the other token's slot as it was, keeping a deadline
/// holds exactly the new handle, and a fired ping timer or a close leaves the
/// deadline alone.
pub proof fn lemma_slots_are_independent<T>(s: Heartbeat<T>, timeout: T)
    ensures
        installed(s, CLIENT_UNRESPONSIVE, timeout).ping_timeout == s.ping_timeout,
        installed(s, CLIENT_UNRESPONSIVE, timeout).client_unresponsive_timeout == Some(timeout),
        installed(s, PING, timeout).client_unresponsive_timeout == s.client_unresponsive_timeout,
        s.client_unresponsive_timeout is Some ==> installed(s, PING, timeout).ping_timeout == Some(timeout),
        vacated(s, CLIENT_UNRESPONSIVE).ping_timeout == s.ping_timeout,
        vacated(s, PING).client_unresponsive_timeout == s.client_unresponsive_timeout,
        after_new_timeout(s, CLIENT_UNRESPONSIVE, timeout).ping_timeout == s.ping_timeout,
        after_timeout(s, PING) == s,
        after_close(s).client_unresponsive_timeout == s.client_unresponsive_timeout,
        forall|token: usize| token != PING && token != CLIENT_UNRESPONSIVE ==> #[trigger] installed(s, token, timeout) == s
            && vacated(s, token) == s,
{
}

/// A connection holding a pending ping whose deadline is re-armed still
/// cancels that ping when the new deadline fires, and hands it out on close.
pub proof fn lemma_rearmed_deadline_keeps_pending_ping<T>(s: Heartbeat<T>, ping: T, timeout: T)
    requires
        s.ping_timeout == Some(ping),
    ensures
        timeout_reply(after_new_timeout(s, CLIENT_UNRESPONSIVE, timeout), CLIENT_UNRESPONSIVE)
            == Ok::<Seq<TimerAction<T>>, HeartbeatError>(seq![TimerAction::Cancel(ping), TimerAction::CloseAway]),
        after_new_timeout(s, CLIENT_UNRESPONSIVE, timeout).ping_timeout == Some(ping),
{
}

/// A fired ping timer sends one ping first, never cancels or closes, and arms
/// the next ping exactly when the deadline is pending; a fired deadline ends
/// with closing the connection and cancels nothing but the pending ping.
pub proof fn lemma_timer_replies<T>(s: Heartbeat<T>)
    ensures
        timeout_reply(s, PING) matches Ok(acts) && acts[0] == TimerAction::<T>::SendPing
            && (acts.len() == 2) == (s.client_unresponsive_timeout is Some)
            && (acts.len() == 2 ==> acts[1] == schedule::<T>(PING_INTERVAL_MS, PING)) && acts.len() <= 2,
        timeout_reply(s, CLIENT_UNRESPONSIVE) matches Ok(acts) && acts.last() == TimerAction::<T>::CloseAway
            && acts.len() == (if s.ping_timeout is Some { 2int } else { 1int }),
{
}

impl<T> Heartbeat<T> {
    /// A connection that holds no timer.
    pub fn new() -> (h: Self)
        ensures
            h.ping_timeout is None,
            h.client_unresponsive_timeout is None,
    {
        Heartbeat { ping_timeout: None, client_unresponsive_timeout: None }
    }

    /// The connection opened.
    pub fn on_open(&self) -> (acts: Vec<TimerAction<T>>)
        ensures
            acts@ == open_actions::<T>(),
    {
        let mut acts = Vec::new();
        acts.push(TimerAction::Schedule { delay_ms: UNRESPONSIVE_AFTER_MS, token: CLIENT_UNRESPONSIVE });
        acts.push(TimerAction::Schedule { delay_ms: PING_INTERVAL_MS, token: PING });
        acts
    }

    /// A timer fired.
    pub fn on_timeout(&mut self, token: usize) -> (r: Result<Vec<TimerAction<T>>, HeartbeatError>)
        ensures
            reply_view(r) == timeout_reply(*old(self), token),
            *final(self) == after_timeout(*old(self), token),
    {
        if token == PING {
            let mut acts = Vec::new();
            acts.push(TimerAction::SendPing);
            if self.client_unresponsive_timeout.is_some() {
                acts.push(TimerAction::Schedule { delay_ms: PING_INTERVAL_MS, token: PING });
            }
            assert(acts@ =~= ping_actions::<T>(old(self).client_unresponsive_timeout is Some));
            Ok(acts)
        } else if token == CLIENT_UNRESPONSIVE {
            let _expired = self.client_unresponsive_timeout.take();
            let mut acts = Vec::new();
            if let Some(timeout) = self.ping_timeout.take() {
                acts.push(TimerAction::Cancel(timeout));
            }
            acts.push(TimerAction::CloseAway);
            assert(acts@ =~= give_up_actions(old(self).ping_timeout));
            Ok(acts)
        } else {
            Err(HeartbeatError::InvalidToken)
        }
    }

    /// A timer was armed under `token`: hands out the handle it displaces,
    /// which the caller cancels before calling `keep_new_timeout`.
    pub fn on_new_timeout(&mut self, token: usize) -> (r: Replacement<T>)
        ensures
            r == displaced(*old(self), token),
            *final(self) == vacated(*old(self), token),
    {
        if token == PING {
            Replacement::Replace(self.ping_timeout.take())
        } else if token == CLIENT_UNRESPONSIVE {
            Replacement::Replace(self.client_unresponsive_timeout.take())
        } else {
            Replacement::UnknownToken
        }
    }

    /// Keeps the timer armed under `token`, the handle it displaced having
    /// been cancelled.
    pub fn keep_new_timeout(&mut self, token: usize, timeout: T)
        ensures
            *final(self) == installed(*old(self), token, timeout),
    {
        if token == PING {
            if self.client_unresponsive_timeout.is_some() {
                self.ping_timeout = Some(timeout);
            } else {
                self.ping_timeout = None;
            }
        } else if token == CLIENT_UNRESPONSIVE {
            self.client_unresponsive_timeout = Some(timeout);
        }
    }

    /// A frame arrived.
    pub fn on_frame(&self, opcode: Opcode) -> (acts: Vec<TimerAction<T>>)
        ensures
            acts@ == frame_actions::<T>(opcode),
    {
        let mut acts = Vec::new();
        if opcode == Opcode::Pong {
            acts.push(TimerAction::Schedule { delay_ms: UNRESPONSIVE_AFTER_MS, token: CLIENT_UNRESPONSIVE });
        }
        acts
    }

    /// The connection is closing: hands out the pending ping timer, which the
    /// caller cancels.
    pub fn on_close(&mut self) -> (pending: Option<T>)
        ensures
            pending == old(self).ping_timeout,
            *final(self) == after_close(*old(self)),
    {
        self.ping_timeout.take()
    }
}

} // verus!
