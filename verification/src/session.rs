//! The session handler: reacts to one connection's transport events and
//! frame events to drive authentication and forward application messages.
//!
//! The transport that owns the connection feeds every inbound text frame to
//! [`Session::handle_frame_text`] and every timer event to
//! [`Session::on_timeout`], then performs what the session queued: it sends
//! the frames and arms the timers handed out by [`Session::take_frames`] and
//! [`Session::take_timers`].

use vstd::prelude::*;

use crate::error::Error;
use crate::parsing::{
    frame_encoding,
    frame_is_heartbeat,
    frame_is_malformed,
    frame_is_open,
    parse_result_is,
    ParsedMessage,
    ParsedResult,
};
use crate::retry::{FailState, RetryScheduler};
use crate::sender::{Sender, TimerRequest};
use crate::token::TokenStorage;

verus! {

/// How long the session waits before retrying authentication when no
/// credential is available, in milliseconds.
pub const LOGIN_RETRY_DELAY_MS: u64 = 15000;

/// Handler trait to implement for socket clients: receives classified
/// application messages and error or disconnect notifications.
pub trait Handler {
    /// Run when a disconnect has occurred.  The session is discarded by the
    /// owning transport afterwards; no reconnect is attempted by this crate.
    /// The default does nothing and succeeds.
    fn on_disconnect(&mut self) -> (r: Result<(), Error>)
        default_ensures
            r == Ok::<(), Error>(()),
    {
        Ok(())
    }

    /// Run on any transport error or frame parsing error; non-fatal to the
    /// session unless the transport itself tears down.  The default ignores
    /// the error and carries on.
    fn on_error(&mut self, _err: Error) {
    }

    /// Run on each message from the server.
    fn on_message(&mut self, msg: ParsedMessage) -> Result<(), Error>;

    /// Run on any communication from the server.
    ///
    /// The default forwards a single message to `on_message`, forwards the
    /// messages of a batch to `on_message` one by one in batch order —
    /// stopping at the first failure, which it propagates — and ignores
    /// heartbeat, open and close events, which succeed without touching
    /// `on_message`, as does an empty batch.
    fn on_communication(&mut self, result: ParsedResult) -> (r: Result<(), Error>)
        default_ensures
            (result matches ParsedResult::Open || result matches ParsedResult::Heartbeat
                || result matches ParsedResult::Close { .. }) ==> r == Ok::<(), Error>(()),
            (result matches ParsedResult::Messages(msgs) && msgs@.len() == 0) ==> r == Ok::<
                (),
                Error,
            >(()),
    {
        match result {
            ParsedResult::Message(msg) => self.on_message(msg),
            ParsedResult::Messages(messages) => {
                let ghost total = messages@.len();
                let mut rest = messages;
                while rest.len() > 0
                    invariant
                        result matches ParsedResult::Messages(msgs) && msgs@.len() == total,
                        rest@.len() <= total,
                    decreases rest@.len(),
                {
                    let msg = rest.remove(0);
                    match self.on_message(msg) {
                        Ok(()) => (),
                        Err(e) => {
                            return Err(e);
                        },
                    }
                }
                Ok(())
            },
            _ => Ok(()),
        }
    }
}

/// Adapts a single callable into a full [`Handler`], supplying the default
/// behavior for every other notification.
pub struct FnHandler<F: Fn(ParsedMessage) -> Result<(), Error>> {
    f: F,
}

impl<F: Fn(ParsedMessage) -> Result<(), Error>> FnHandler<F> {
    /// The callable must accept every message.
    #[verifier::type_invariant]
    spec fn wf(self) -> bool {
        forall|m: ParsedMessage| self.f.requires((m,))
    }

    /// The wrapped callable, which `on_message` hands each message to.
    pub closed spec fn callable(&self) -> F {
        self.f
    }

    /// Wraps a callable that accepts every message.
    pub fn new(f: F) -> (r: FnHandler<F>)
        requires
            forall|m: ParsedMessage| f.requires((m,)),
        ensures
            r.callable() == f,
    {
        FnHandler { f }
    }
}

impl<F: Fn(ParsedMessage) -> Result<(), Error>> Handler for FnHandler<F> {
    /// Hands the message to the wrapped callable: the result is one the
    /// callable can return for this message.
    fn on_message(&mut self, msg: ParsedMessage) -> (r: Result<(), Error>)
        ensures
            call_ensures(old(self).callable(), (msg,), r),
    {
        proof {
            use_type_invariant(&*self);
        }
        (self.f)(msg)
    }
}

/// The orchestrator of one transport connection attempt: owns a sender, the
/// credential slot, the retry scheduler and the user handler, and reacts to
/// transport and frame events.
pub struct Session<H: Handler> {
    tokens: TokenStorage,
    handler: H,
    sender: Sender,
    retrying: RetryScheduler,
    forwarded: Ghost<Seq<ParsedResult>>,
    reported: Ghost<Seq<Error>>,
    disconnects: Ghost<nat>,
}

impl<H: Handler> Session<H> {
    /// The frames the session has queued for the transport, oldest first.
    pub closed spec fn sent(&self) -> Seq<Seq<char>> {
        self.sender.sent()
    }

    /// The timer requests the session has queued, oldest first.
    pub closed spec fn timers(&self) -> Seq<TimerRequest> {
        self.sender.timers()
    }

    /// The stored credential, if any.
    pub closed spec fn token(&self) -> Option<Seq<char>> {
        self.tokens@
    }

    /// Whether a retry entry is pending under `handle`.
    pub closed spec fn retry_pending(&self, handle: int) -> bool {
        self.retrying.is_pending(handle)
    }

    /// The recovery action pending under `handle`.
    pub closed spec fn retry_state(&self, handle: int) -> FailState {
        self.retrying.pending_state(handle)
    }

    /// The user handler.
    pub closed spec fn spec_handler(&self) -> H {
        self.handler
    }

    /// The classifications the session has handed to the user handler's
    /// `on_communication`, oldest first: exactly one per well-formed frame,
    /// recorded beside each call.
    pub closed spec fn forwarded(&self) -> Seq<ParsedResult> {
        self.forwarded@
    }

    /// The errors the session has handed to the user handler's `on_error`,
    /// oldest first, recorded beside each call.
    pub closed spec fn reported(&self) -> Seq<Error> {
        self.reported@
    }

    /// How many disconnect notifications the session has handed to the user
    /// handler's `on_disconnect`.
    pub closed spec fn disconnects(&self) -> nat {
        self.disconnects@
    }

    /// Whether the pending retry entries of `b` are exactly those of `a`.
    pub open spec fn retries_unchanged(a: Session<H>, b: Session<H>) -> bool {
        &&& forall|k: int| (#[trigger] b.retry_pending(k)) == a.retry_pending(k)
        &&& forall|k: int|
            a.retry_pending(k) ==> (#[trigger] b.retry_state(k)) == a.retry_state(k)
    }

    /// Whether `b` queued nothing and kept the credential and retry entries
    /// of `a`.
    pub open spec fn core_state_unchanged(a: Session<H>, b: Session<H>) -> bool {
        &&& b.sent() == a.sent()
        &&& b.timers() == a.timers()
        &&& b.token() == a.token()
        &&& Self::retries_unchanged(a, b)
    }

    /// Whether `b` differs from `a` exactly by one fresh login-retry entry
    /// under `h` — a handle that was not pending in `a` — together with the
    /// matching timer request for the fixed login delay.
    pub open spec fn login_retry_scheduled_at(a: Session<H>, b: Session<H>, h: usize) -> bool {
        &&& !a.retry_pending(h as int)
        &&& forall|k: int| 0 <= k < h ==> a.retry_pending(k)
        &&& b.retry_pending(h as int)
        &&& b.retry_state(h as int) == FailState::Login
        &&& b.timers() == a.timers().push(
            TimerRequest { delay_ms: LOGIN_RETRY_DELAY_MS, handle: h },
        )
        &&& forall|k: int| k != h ==> (#[trigger] b.retry_pending(k)) == a.retry_pending(k)
        &&& forall|k: int|
            k != h && a.retry_pending(k) ==> (#[trigger] b.retry_state(k)) == a.retry_state(k)
    }

    /// Whether, after the entry under `fired` went away and no credential
    /// was found, `b` holds one fresh login-retry entry under `h` — a number
    /// that may lawfully reuse `fired` — with its timer request queued and
    /// every other entry as it was in `a`.
    pub open spec fn login_retry_rescheduled(
        a: Session<H>,
        b: Session<H>,
        h: usize,
        fired: usize,
    ) -> bool {
        &&& h != fired ==> !a.retry_pending(h as int)
        &&& h != fired ==> !b.retry_pending(fired as int)
        &&& forall|k: int| 0 <= k < h && k != fired ==> a.retry_pending(k)
        &&& b.retry_pending(h as int)
        &&& b.retry_state(h as int) == FailState::Login
        &&& b.timers() == a.timers().push(
            TimerRequest { delay_ms: LOGIN_RETRY_DELAY_MS, handle: h },
        )
        &&& forall|k: int|
            k != h && k != fired ==> (#[trigger] b.retry_pending(k)) == a.retry_pending(k)
        &&& forall|k: int|
            k != h && k != fired && a.retry_pending(k) ==> (#[trigger] b.retry_state(k))
                == a.retry_state(k)
    }

    /// What reacting to the open frame (or to a login retry) does: with a
    /// stored credential, queue `auth <token>` and clear the slot; without
    /// one, report Unauthorized to the handler and schedule a fresh login
    /// retry after the fixed delay.
    pub open spec fn auth_attempted(a: Session<H>, b: Session<H>) -> bool {
        match a.token() {
            Some(tok) => {
                &&& b.sent() == a.sent().push(frame_encoding("auth "@ + tok))
                &&& b.token() is None
                &&& b.timers() == a.timers()
                &&& Self::retries_unchanged(a, b)
                &&& b.reported() == a.reported()
            },
            None => {
                &&& b.sent() == a.sent()
                &&& b.token() is None
                &&& b.reported() == a.reported().push(Error::Unauthorized)
                &&& exists|h: usize| #[trigger] Self::login_retry_scheduled_at(a, b, h)
            },
        }
    }

    /// A session for one connection attempt, with nothing queued and no
    /// retry pending.
    pub fn new(tokens: TokenStorage, handler: H) -> (r: Session<H>)
        ensures
            r.token() == tokens@,
            r.sent() == Seq::<Seq<char>>::empty(),
            r.timers() == Seq::<TimerRequest>::empty(),
            forall|h: int| !r.retry_pending(h),
            r.spec_handler() == handler,
            r.forwarded() == Seq::<ParsedResult>::empty(),
            r.reported() == Seq::<Error>::empty(),
            r.disconnects() == 0,
    {
        Session {
            tokens,
            handler,
            sender: Sender::new(),
            retrying: RetryScheduler::new(),
            forwarded: Ghost(Seq::empty()),
            reported: Ghost(Seq::empty()),
            disconnects: Ghost(0),
        }
    }

    /// Stores a credential obtained elsewhere — for instance by an HTTP
    /// login — replacing whatever the slot held.
    pub fn store_token(&mut self, token: crate::token::Token)
        ensures
            final(self).token() == Some(token@),
            final(self).sent() == old(self).sent(),
            final(self).timers() == old(self).timers(),
            Self::retries_unchanged(*old(self), *final(self)),
            final(self).spec_handler() == old(self).spec_handler(),
            final(self).forwarded() == old(self).forwarded(),
            final(self).reported() == old(self).reported(),
            final(self).disconnects() == old(self).disconnects(),
    {
        self.tokens.set(token);
    }

    /// The user handler, for inspection.
    pub fn handler_ref(&self) -> (r: &H)
        ensures
            *r == self.spec_handler(),
    {
        &self.handler
    }

    /// Hands out the frames the session queued, oldest first, leaving its
    /// queue empty; the transport sends them in this order.
    pub fn take_frames(&mut self) -> (r: Vec<String>)
        ensures
            r.deep_view() == old(self).sent(),
            final(self).sent() == Seq::<Seq<char>>::empty(),
            final(self).timers() == old(self).timers(),
            final(self).token() == old(self).token(),
            Self::retries_unchanged(*old(self), *final(self)),
            final(self).spec_handler() == old(self).spec_handler(),
            final(self).forwarded() == old(self).forwarded(),
            final(self).reported() == old(self).reported(),
            final(self).disconnects() == old(self).disconnects(),
    {
        self.sender.take_frames()
    }

    /// Hands out the timer requests the session queued, oldest first,
    /// leaving its queue empty; the transport arms them.
    pub fn take_timers(&mut self) -> (r: Vec<TimerRequest>)
        ensures
            r@ == old(self).timers(),
            final(self).timers() == Seq::<TimerRequest>::empty(),
            final(self).sent() == old(self).sent(),
            final(self).token() == old(self).token(),
            Self::retries_unchanged(*old(self), *final(self)),
            final(self).spec_handler() == old(self).spec_handler(),
            final(self).forwarded() == old(self).forwarded(),
            final(self).reported() == old(self).reported(),
            final(self).disconnects() == old(self).disconnects(),
    {
        self.sender.take_timers()
    }

    /// Forwards a transport-level error to the user handler — recorded in
    /// the report log — non-fatal to the session, and nothing else changes.
    pub fn on_transport_error(&mut self, err: Error)
        ensures
            Self::core_state_unchanged(*old(self), *final(self)),
            final(self).forwarded() == old(self).forwarded(),
            final(self).reported() == old(self).reported().push(err),
            final(self).disconnects() == old(self).disconnects(),
    {
        let ghost notice = err;
        self.handler.on_error(err);
        self.reported = Ghost(self.reported@.push(notice));
    }

    /// Forwards the transport's disconnect notification to the user handler
    /// — counted in the disconnect tally — and returns its outcome; the
    /// owning transport discards the session afterwards.
    pub fn on_disconnect(&mut self) -> (r: Result<(), Error>)
        ensures
            Self::core_state_unchanged(*old(self), *final(self)),
            final(self).forwarded() == old(self).forwarded(),
            final(self).reported() == old(self).reported(),
            final(self).disconnects() == old(self).disconnects() + 1,
    {
        let r = self.handler.on_disconnect();
        self.disconnects = Ghost(self.disconnects@ + 1);
        r
    }

    /// Schedules a recovery action and asks the transport for its timer.
    fn mark_retry(&mut self, failed: FailState, retry_in_ms: u64) -> (h: usize)
        ensures
            !old(self).retry_pending(h as int),
            final(self).retry_pending(h as int),
            final(self).retry_state(h as int) == failed,
            forall|k: int|
                k != h ==> (#[trigger] final(self).retry_pending(k)) == old(self).retry_pending(k),
            forall|k: int|
                k != h && old(self).retry_pending(k) ==> (#[trigger] final(self).retry_state(k))
                    == old(self).retry_state(k),
            final(self).timers() == old(self).timers().push(
                TimerRequest { delay_ms: retry_in_ms, handle: h },
            ),
            final(self).sent() == old(self).sent(),
            final(self).token() == old(self).token(),
            final(self).spec_handler() == old(self).spec_handler(),
            final(self).forwarded() == old(self).forwarded(),
            final(self).reported() == old(self).reported(),
            final(self).disconnects() == old(self).disconnects(),
            forall|k: int| 0 <= k < h ==> old(self).retry_pending(k),
    {
        let num = self.retrying.schedule(failed);
        self.sender.timeout(retry_in_ms, num);
        num
    }

    /// Sends `auth <token>` with the stored credential, or reports
    /// Unauthorized and schedules a login retry in fifteen seconds.
    fn try_or_retry_auth(&mut self)
        ensures
            Self::auth_attempted(*old(self), *final(self)),
            final(self).forwarded() == old(self).forwarded(),
            final(self).disconnects() == old(self).disconnects(),
    {
        match self.tokens.take() {
            Some(token) => {
                self.sender.authenticate(token);
            },
            None => {
                self.handler.on_error(Error::Unauthorized);
                self.reported = Ghost(self.reported@.push(Error::Unauthorized));
                let ghost pre = *self;
                let h = self.mark_retry(FailState::Login, LOGIN_RETRY_DELAY_MS);
                proof {
                    assert forall|k: int| 0 <= k < h implies old(self).retry_pending(k) by {
                        assert(pre.retry_pending(k));
                    }
                    assert(Self::login_retry_scheduled_at(*old(self), *self, h));
                }
            },
        }
    }

    /// Runs the recovery action of a fired retry entry.
    fn retry_failstate(&mut self, state: FailState)
        ensures
            state == FailState::Login ==> Self::auth_attempted(*old(self), *final(self)),
            final(self).forwarded() == old(self).forwarded(),
            final(self).disconnects() == old(self).disconnects(),
    {
        match state {
            FailState::Login => self.try_or_retry_auth(),
        }
    }

    /// Reacts to one inbound text frame.
    ///
    /// The frame is parsed; a malformed frame is reported to the handler's
    /// error callback and changes nothing.  The open frame triggers an
    /// authentication attempt, the heartbeat frame queues the empty-frame
    /// reply; every well-formed frame is then forwarded to the handler's
    /// `on_communication`, whose outcome is returned.
    pub fn handle_frame_text(&mut self, text: &str) -> (r: Result<(), Error>)
        ensures
            ({
                let t = text@;
                &&& frame_is_open(t) ==> Self::auth_attempted(*old(self), *final(self))
                &&& frame_is_heartbeat(t) ==> {
                    &&& final(self).sent() == old(self).sent().push("[]"@)
                    &&& final(self).timers() == old(self).timers()
                    &&& final(self).token() == old(self).token()
                    &&& Self::retries_unchanged(*old(self), *final(self))
                }
                &&& !frame_is_open(t) && !frame_is_heartbeat(t) ==> Self::core_state_unchanged(
                    *old(self),
                    *final(self),
                )
                &&& frame_is_malformed(t) ==> r == Ok::<(), Error>(())
                &&& frame_is_malformed(t) ==> final(self).forwarded() == old(self).forwarded()
                &&& !frame_is_malformed(t) ==> {
                    &&& final(self).forwarded().len() == old(self).forwarded().len() + 1
                    &&& final(self).forwarded().drop_last() == old(self).forwarded()
                    &&& parse_result_is(t, Ok(final(self).forwarded().last()))
                }
                &&& frame_is_malformed(t) ==> {
                    &&& final(self).reported().len() == old(self).reported().len() + 1
                    &&& final(self).reported().drop_last() == old(self).reported()
                    &&& final(self).reported().last() matches Error::FrameParse { raw } && raw@
                        == t
                }
                &&& !frame_is_malformed(t) && !frame_is_open(t) ==> final(self).reported() == old(
                    self,
                ).reported()
                &&& final(self).disconnects() == old(self).disconnects()
            }),
    {
        match ParsedResult::parse(text) {
            Ok(v) => {
                match &v {
                    ParsedResult::Open => {
                        self.try_or_retry_auth();
                    },
                    ParsedResult::Heartbeat => {
                        self.sender.send_empty_frame();
                    },
                    _ => {},
                }
                let ghost mid = *self;
                self.forwarded = Ghost(self.forwarded@.push(v));
                let r = self.handler.on_communication(v);
                proof {
                    lemma_handler_mutation_preserves_core(*old(self), mid, *self);
                    assert(self.forwarded@.drop_last() =~= old(self).forwarded());
                }
                r
            },
            Err(e) => {
                let ghost notice = e;
                self.handler.on_error(e);
                self.reported = Ghost(self.reported@.push(notice));
                proof {
                    assert(self.reported@.drop_last() =~= old(self).reported());
                }
                Ok(())
            },
        }
    }

    /// Reacts to the transport's timer firing for `handle`: a pending
    /// login-retry entry is removed and the authentication attempt is
    /// repeated; an unknown handle — a stale or duplicate timer event — is
    /// ignored.
    pub fn on_timeout(&mut self, handle: usize)
        ensures
            old(self).retry_pending(handle as int) && old(self).retry_state(handle as int)
                == FailState::Login ==> match old(self).token() {
                Some(tok) => {
                    &&& final(self).sent() == old(self).sent().push(
                        frame_encoding("auth "@ + tok),
                    )
                    &&& final(self).token() is None
                    &&& final(self).timers() == old(self).timers()
                    &&& final(self).reported() == old(self).reported()
                    &&& !final(self).retry_pending(handle as int)
                    &&& forall|k: int|
                        k != handle ==> (#[trigger] final(self).retry_pending(k)) == old(self).retry_pending(k)
                    &&& forall|k: int|
                        k != handle && old(self).retry_pending(k) ==> (#[trigger] final(self).retry_state(k)) == old(self).retry_state(k)
                },
                None => {
                    &&& final(self).sent() == old(self).sent()
                    &&& final(self).token() is None
                    &&& final(self).reported() == old(self).reported().push(Error::Unauthorized)
                    &&& exists|h: usize|
                        #[trigger] Self::login_retry_rescheduled(
                            *old(self),
                            *final(self),
                            h,
                            handle,
                        )
                },
            },
            !old(self).retry_pending(handle as int) ==> Self::core_state_unchanged(
                *old(self),
                *final(self),
            ),
            !old(self).retry_pending(handle as int) ==> {
                &&& final(self).spec_handler() == old(self).spec_handler()
                &&& final(self).reported() == old(self).reported()
            },
            final(self).forwarded() == old(self).forwarded(),
            final(self).disconnects() == old(self).disconnects(),
    {
        match self.retrying.fire(handle) {
            Some(state) => {
                let ghost mid = *self;
                self.retry_failstate(state);
                proof {
                    if old(self).token() is None {
                        let h = choose|h: usize|
                            #[trigger] Self::login_retry_scheduled_at(mid, *self, h);
                        assert forall|k: int|
                            0 <= k < h && k != handle implies old(self).retry_pending(k) by {
                            assert(mid.retry_pending(k));
                        }
                        assert(Self::login_retry_rescheduled(*old(self), *self, h, handle));
                    }
                }
            },
            None => {},
        }
    }
}

/// Mutating only the user handler field leaves every queue, the credential
/// and the retry entries as they were; the session-step relations carry over
/// from the state before that mutation.
proof fn lemma_handler_mutation_preserves_core<H: Handler>(
    a: Session<H>,
    mid: Session<H>,
    fin: Session<H>,
)
    requires
        fin.sender == mid.sender,
        fin.tokens == mid.tokens,
        fin.retrying == mid.retrying,
        fin.reported == mid.reported,
    ensures
        fin.sent() == mid.sent(),
        fin.timers() == mid.timers(),
        fin.token() == mid.token(),
        fin.reported() == mid.reported(),
        Session::<H>::retries_unchanged(mid, fin),
        Session::<H>::auth_attempted(a, mid) ==> Session::<H>::auth_attempted(a, fin),
        Session::<H>::retries_unchanged(a, mid) ==> Session::<H>::retries_unchanged(a, fin),
        Session::<H>::core_state_unchanged(a, mid) ==> Session::<H>::core_state_unchanged(a, fin),
{
    assert forall|k: int| (#[trigger] fin.retry_pending(k)) == mid.retry_pending(k) by {}
    assert forall|k: int| (#[trigger] fin.retry_state(k)) == mid.retry_state(k) by {}
    if Session::<H>::auth_attempted(a, mid) && a.token() is None {
        let h = choose|h: usize| #[trigger] Session::<H>::login_retry_scheduled_at(a, mid, h);
        assert(Session::<H>::login_retry_scheduled_at(a, fin, h));
    }
}

} // verus!
