//! The outbound command surface: builds protocol commands, frames them and
//! queues them, together with timer requests, for the transport to perform.

use vstd::prelude::*;

use crate::channels::Channel;
use crate::parsing::{encode, frame_encoding};
use crate::token::Token;

verus! {

/// A request to arm the transport's fire-once timer: after `delay_ms`
/// milliseconds the transport should hand `handle` back to the session.
#[derive(Debug, Clone, Copy, PartialEq, Eq)]
pub struct TimerRequest {
    /// The delay in milliseconds.
    pub delay_ms: u64,
    /// The retry handle to hand back when the timer fires.
    pub handle: usize,
}

/// Issues outbound protocol commands.
///
/// The sender does not hold a socket itself: each operation queues the exact
/// transport frame (or timer request) that the transport must perform, in
/// order, and the code that owns the transport drains the queues after every
/// event.  Success of an operation means "queued for the transport", never
/// "acknowledged by the server".
pub struct Sender {
    frames: Vec<String>,
    timer_requests: Vec<TimerRequest>,
}

impl Sender {
    /// The frames queued so far, oldest first.
    pub closed spec fn sent(&self) -> Seq<Seq<char>> {
        self.frames.deep_view()
    }

    /// The timer requests queued so far, oldest first.
    pub closed spec fn timers(&self) -> Seq<TimerRequest> {
        self.timer_requests@
    }

    /// A sender with empty queues.
    pub fn new() -> (r: Sender)
        ensures
            r.sent() == Seq::<Seq<char>>::empty(),
            r.timers() == Seq::<TimerRequest>::empty(),
    {
        let r = Sender { frames: Vec::new(), timer_requests: Vec::new() };
        proof {
            assert(r.sent() =~= Seq::<Seq<char>>::empty());
        }
        r
    }

    /// Sends a raw protocol command: the command is framed by the codec and
    /// queued as one outbound frame.
    pub fn send_raw(&mut self, message: &str)
        ensures
            final(self).sent() == old(self).sent().push(frame_encoding(message@)),
            final(self).timers() == old(self).timers(),
    {
        let frame = encode(message);
        self.frames.push(frame);
        proof {
            assert(self.sent() =~= old(self).sent().push(frame_encoding(message@)));
        }
    }

    /// Sends `auth <token>`, consuming the credential that was taken for
    /// this attempt.
    pub fn authenticate(&mut self, token: Token)
        ensures
            final(self).sent() == old(self).sent().push(frame_encoding("auth "@ + token@)),
            final(self).timers() == old(self).timers(),
    {
        let mut message = String::from_str("auth ");
        message.append(token.as_str());
        self.send_raw(message.as_str());
    }

    /// Subscribes to a channel.  The effect of subscribing twice is the
    /// server's business; callers are expected to track their own
    /// subscriptions.
    pub fn subscribe(&mut self, channel: &Channel)
        ensures
            final(self).sent() == old(self).sent().push(
                frame_encoding("subscribe "@ + channel.topic()),
            ),
            final(self).timers() == old(self).timers(),
    {
        let message = channel.message_with_prefix("subscribe ");
        self.send_raw(message.as_str());
    }

    /// Unsubscribes from a channel.  The effect of unsubscribing while not
    /// subscribed is the server's business.
    pub fn unsubscribe(&mut self, channel: &Channel)
        ensures
            final(self).sent() == old(self).sent().push(
                frame_encoding("unsubscribe "@ + channel.topic()),
            ),
            final(self).timers() == old(self).timers(),
    {
        let message = channel.message_with_prefix("unsubscribe ");
        self.send_raw(message.as_str());
    }

    /// Sends the literal two-character frame `[]`, the heartbeat
    /// acknowledgment; the one outbound frame that does not go through the
    /// codec's wrapping.
    pub fn send_empty_frame(&mut self)
        ensures
            final(self).sent() == old(self).sent().push("[]"@),
            final(self).timers() == old(self).timers(),
    {
        self.frames.push(String::from_str("[]"));
        proof {
            assert(self.sent() =~= old(self).sent().push("[]"@));
        }
    }

    /// Queues a request to arm the transport's fire-once timer for `handle`.
    pub fn timeout(&mut self, delay_ms: u64, handle: usize)
        ensures
            final(self).timers() == old(self).timers().push(TimerRequest { delay_ms, handle }),
            final(self).sent() == old(self).sent(),
    {
        self.timer_requests.push(TimerRequest { delay_ms, handle });
    }

    /// Hands out the queued frames, oldest first, leaving the queue empty.
    pub fn take_frames(&mut self) -> (r: Vec<String>)
        ensures
            r.deep_view() == old(self).sent(),
            final(self).sent() == Seq::<Seq<char>>::empty(),
            final(self).timers() == old(self).timers(),
    {
        let mut out: Vec<String> = Vec::new();
        core::mem::swap(&mut self.frames, &mut out);
        proof {
            assert(self.sent() =~= Seq::<Seq<char>>::empty());
        }
        out
    }

    /// Hands out the queued timer requests, oldest first, leaving the queue
    /// empty.
    pub fn take_timers(&mut self) -> (r: Vec<TimerRequest>)
        ensures
            r@ == old(self).timers(),
            final(self).timers() == Seq::<TimerRequest>::empty(),
            final(self).sent() == old(self).sent(),
    {
        let mut out: Vec<TimerRequest> = Vec::new();
        core::mem::swap(&mut self.timer_requests, &mut out);
        out
    }
}

} // verus!
