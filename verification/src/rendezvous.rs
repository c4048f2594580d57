//! The single-shot request/response rendezvous over publish/subscribe: subscribe, wait
//! for one message or for the timer, then unsubscribe and hand the session back. The
//! caller performs each action against the store and reports what happened; the
//! decisions are made here.

use vstd::prelude::*;
use std::time::Duration;
use crate::errors::ErrorKind;
use crate::text::owned;

verus! {

/// How a wait ended, as mathematics: the payload, or the error.
pub type OutcomeView = Result<Seq<char>, ErrorKind>;

/// The view of an outcome.
pub open spec fn outcome_view(outcome: Result<String, ErrorKind>) -> OutcomeView {
    match outcome {
        Ok(payload) => Ok(payload@),
        Err(e) => Err(e),
    }
}

/// Where a rendezvous stands.
#[derive(Debug)]
pub enum WaitState {
    /// Nothing has been done yet.
    Start,
    /// A pub/sub session has been asked for.
    Connecting,
    /// The subscription has been asked for.
    Subscribing,
    /// Subscribed: the next message races the timer.
    Waiting,
    /// The outcome is decided and the unsubscription has been asked for.
    Unsubscribing(Result<String, ErrorKind>),
    /// Unsubscribed: the session is on its way back to its pool.
    Returning(Result<String, ErrorKind>),
    /// The rendezvous is over.
    Finished,
}

/// The mathematical view of a [`WaitState`].
pub enum WaitStateView {
    Start,
    Connecting,
    Subscribing,
    Waiting,
    Unsubscribing(OutcomeView),
    Returning(OutcomeView),
    Finished,
}

impl View for WaitState {
    type V = WaitStateView;

    open spec fn view(&self) -> WaitStateView {
        match self {
            WaitState::Start => WaitStateView::Start,
            WaitState::Connecting => WaitStateView::Connecting,
            WaitState::Subscribing => WaitStateView::Subscribing,
            WaitState::Waiting => WaitStateView::Waiting,
            WaitState::Unsubscribing(o) => WaitStateView::Unsubscribing(outcome_view(*o)),
            WaitState::Returning(o) => WaitStateView::Returning(outcome_view(*o)),
            WaitState::Finished => WaitStateView::Finished,
        }
    }
}

/// What the caller reports.
#[derive(Debug)]
pub enum WaitEvent {
    /// The caller wants the rendezvous to begin.
    Begin,
    /// A pub/sub session is at hand, from the pool or newly connected.
    SessionReady,
    /// No session could be obtained.
    ConnectFailed,
    /// The store confirmed the subscription.
    Subscribed,
    /// The store refused or failed the subscription.
    SubscribeFailed,
    /// A message arrived on the subscription, with this payload.
    Message(String),
    /// A message arrived whose payload is no text.
    MessageUnreadable,
    /// The stream of messages ended.
    StreamEnded,
    /// The timer fired before a message arrived.
    TimerFired,
    /// The store confirmed the unsubscription.
    Unsubscribed,
    /// The store refused or failed the unsubscription.
    UnsubscribeFailed,
    /// The session is back in its pool, or was discarded because the pool is full.
    SessionReturned,
}

/// The mathematical view of a [`WaitEvent`].
pub enum WaitEventView {
    Begin,
    SessionReady,
    ConnectFailed,
    Subscribed,
    SubscribeFailed,
    Message(Seq<char>),
    MessageUnreadable,
    StreamEnded,
    TimerFired,
    Unsubscribed,
    UnsubscribeFailed,
    SessionReturned,
}

impl View for WaitEvent {
    type V = WaitEventView;

    open spec fn view(&self) -> WaitEventView {
        match self {
            WaitEvent::Begin => WaitEventView::Begin,
            WaitEvent::SessionReady => WaitEventView::SessionReady,
            WaitEvent::ConnectFailed => WaitEventView::ConnectFailed,
            WaitEvent::Subscribed => WaitEventView::Subscribed,
            WaitEvent::SubscribeFailed => WaitEventView::SubscribeFailed,
            WaitEvent::Message(payload) => WaitEventView::Message(payload@),
            WaitEvent::MessageUnreadable => WaitEventView::MessageUnreadable,
            WaitEvent::StreamEnded => WaitEventView::StreamEnded,
            WaitEvent::TimerFired => WaitEventView::TimerFired,
            WaitEvent::Unsubscribed => WaitEventView::Unsubscribed,
            WaitEvent::UnsubscribeFailed => WaitEventView::UnsubscribeFailed,
            WaitEvent::SessionReturned => WaitEventView::SessionReturned,
        }
    }
}

/// What the caller is to do next.
#[derive(Debug)]
pub enum WaitAction {
    /// Check a pub/sub session out of the pool, or connect a new one.
    Checkout,
    /// Subscribe the session to this channel.
    Subscribe(String),
    /// Read the next message of the subscription, for at most this long.
    AwaitMessage(Duration),
    /// Unsubscribe the session from this channel.
    Unsubscribe(String),
    /// Hand the session back to its pool.
    ReturnSession,
    /// Return this result to the caller of the rendezvous. The session, if there was
    /// one, is back in its pool.
    Finish(Result<String, ErrorKind>),
    /// Discard the session and return this error to the caller of the rendezvous.
    Abandon(ErrorKind),
    /// The event does not belong to where the rendezvous stands: do nothing.
    Ignore,
}

/// The mathematical view of a [`WaitAction`].
pub enum WaitActionView {
    Checkout,
    Subscribe(Seq<char>),
    AwaitMessage(Duration),
    Unsubscribe(Seq<char>),
    ReturnSession,
    Finish(OutcomeView),
    Abandon(ErrorKind),
    Ignore,
}

impl View for WaitAction {
    type V = WaitActionView;

    open spec fn view(&self) -> WaitActionView {
        match self {
            WaitAction::Checkout => WaitActionView::Checkout,
            WaitAction::Subscribe(channel) => WaitActionView::Subscribe(channel@),
            WaitAction::AwaitMessage(timeout) => WaitActionView::AwaitMessage(*timeout),
            WaitAction::Unsubscribe(channel) => WaitActionView::Unsubscribe(channel@),
            WaitAction::ReturnSession => WaitActionView::ReturnSession,
            WaitAction::Finish(o) => WaitActionView::Finish(outcome_view(*o)),
            WaitAction::Abandon(e) => WaitActionView::Abandon(*e),
            WaitAction::Ignore => WaitActionView::Ignore,
        }
    }
}

/// How a wait ends when `event` is reported while the rendezvous is waiting: a message
/// gives its payload, the end of the stream `NoMessage`, the timer `Timeout`, and a
/// payload that is no text `StoreProtocolError`. Other events do not end the wait.
pub open spec fn wait_outcome(event: WaitEventView) -> Option<OutcomeView> {
    match event {
        WaitEventView::Message(payload) => Some(Ok(payload)),
        WaitEventView::MessageUnreadable => Some(Err(ErrorKind::StoreProtocolError)),
        WaitEventView::StreamEnded => Some(Err(ErrorKind::NoMessage)),
        WaitEventView::TimerFired => Some(Err(ErrorKind::Timeout)),
        _ => None,
    }
}

/// The next state and the action for an event, for a rendezvous on `channel` that waits
/// at most `timeout`. An event that does not belong to the state changes nothing.
pub open spec fn transition(
    state: WaitStateView,
    channel: Seq<char>,
    timeout: Duration,
    event: WaitEventView,
) -> (WaitStateView, WaitActionView) {
    match (state, event) {
        (WaitStateView::Start, WaitEventView::Begin) => (
            WaitStateView::Connecting,
            WaitActionView::Checkout,
        ),
        (WaitStateView::Connecting, WaitEventView::SessionReady) => (
            WaitStateView::Subscribing,
            WaitActionView::Subscribe(channel),
        ),
        (WaitStateView::Connecting, WaitEventView::ConnectFailed) => (
            WaitStateView::Finished,
            WaitActionView::Finish(Err(ErrorKind::ConnectFailed)),
        ),
        (WaitStateView::Subscribing, WaitEventView::Subscribed) => (
            WaitStateView::Waiting,
            WaitActionView::AwaitMessage(timeout),
        ),
        (WaitStateView::Subscribing, WaitEventView::SubscribeFailed) => (
            WaitStateView::Finished,
            WaitActionView::Abandon(ErrorKind::StoreProtocolError),
        ),
        (WaitStateView::Waiting, e) => match wait_outcome(e) {
            Some(outcome) => (
                WaitStateView::Unsubscribing(outcome),
                WaitActionView::Unsubscribe(channel),
            ),
            None => (state, WaitActionView::Ignore),
        },
        (WaitStateView::Unsubscribing(outcome), WaitEventView::Unsubscribed) => (
            WaitStateView::Returning(outcome),
            WaitActionView::ReturnSession,
        ),
        (WaitStateView::Unsubscribing(_), WaitEventView::UnsubscribeFailed) => (
            WaitStateView::Finished,
            WaitActionView::Abandon(ErrorKind::StoreProtocolError),
        ),
        (WaitStateView::Returning(outcome), WaitEventView::SessionReturned) => (
            WaitStateView::Finished,
            WaitActionView::Finish(outcome),
        ),
        _ => (state, WaitActionView::Ignore),
    }
}

/// The state after a sequence of events, reported in order.
pub open spec fn state_after(
    state: WaitStateView,
    channel: Seq<char>,
    timeout: Duration,
    events: Seq<WaitEventView>,
) -> WaitStateView
    decreases events.len(),
{
    if events.len() == 0 {
        state
    } else {
        state_after(
            transition(state, channel, timeout, events.first()).0,
            channel,
            timeout,
            events.drop_first(),
        )
    }
}

/// The actions that a sequence of events gives, one for each event, in order.
pub open spec fn actions_for(
    state: WaitStateView,
    channel: Seq<char>,
    timeout: Duration,
    events: Seq<WaitEventView>,
) -> Seq<WaitActionView>
    decreases events.len(),
{
    if events.len() == 0 {
        Seq::empty()
    } else {
        let (next, action) = transition(state, channel, timeout, events.first());
        seq![action] + actions_for(next, channel, timeout, events.drop_first())
    }
}

/// The events of a rendezvous in which nothing fails but, perhaps, the wait itself:
/// the session is obtained, the subscription confirmed, the wait ends with `ending`,
/// the unsubscription is confirmed and the session handed back.
pub open spec fn full_run(ending: WaitEventView) -> Seq<WaitEventView> {
    seq![
        WaitEventView::Begin,
        WaitEventView::SessionReady,
        WaitEventView::Subscribed,
        ending,
        WaitEventView::Unsubscribed,
        WaitEventView::SessionReturned,
    ]
}

/// However the wait ends (a message, the timer, the end of the stream, an unreadable
/// payload), the session is unsubscribed from the channel and handed back to its pool,
/// in this order, before the result is returned; and the result is the outcome of the
/// wait: the exact payload of the message, `Timeout`, `NoMessage`, or
/// `StoreProtocolError`.
pub proof fn lemma_wait_always_cleans_up(channel: Seq<char>, timeout: Duration, ending: WaitEventView)
    requires
        wait_outcome(ending) is Some,
    ensures
        actions_for(WaitStateView::Start, channel, timeout, full_run(ending)) == seq![
            WaitActionView::Checkout,
            WaitActionView::Subscribe(channel),
            WaitActionView::AwaitMessage(timeout),
            WaitActionView::Unsubscribe(channel),
            WaitActionView::ReturnSession,
            WaitActionView::Finish(wait_outcome(ending).unwrap()),
        ],
        state_after(WaitStateView::Start, channel, timeout, full_run(ending))
            == WaitStateView::Finished,
{
    reveal_with_fuel(actions_for, 7);
    reveal_with_fuel(state_after, 7);
    let e0 = full_run(ending);
    let e1 = e0.drop_first();
    let e2 = e1.drop_first();
    let e3 = e2.drop_first();
    let e4 = e3.drop_first();
    let e5 = e4.drop_first();
    let e6 = e5.drop_first();
    assert(e1.first() == WaitEventView::SessionReady);
    assert(e2.first() == WaitEventView::Subscribed);
    assert(e3.first() == ending);
    assert(e4.first() == WaitEventView::Unsubscribed);
    assert(e5.first() == WaitEventView::SessionReturned);
    assert(e6.len() == 0);
    assert(actions_for(WaitStateView::Start, channel, timeout, e0) =~= seq![
        WaitActionView::Checkout,
        WaitActionView::Subscribe(channel),
        WaitActionView::AwaitMessage(timeout),
        WaitActionView::Unsubscribe(channel),
        WaitActionView::ReturnSession,
        WaitActionView::Finish(wait_outcome(ending).unwrap()),
    ]);
}

/// The wait returns `Timeout` when the timer fires before any message, and the exact
/// payload when a message arrives first.
pub proof fn lemma_timeout_or_payload(channel: Seq<char>, timeout: Duration, payload: Seq<char>)
    ensures
        transition(WaitStateView::Waiting, channel, timeout, WaitEventView::TimerFired).0
            == WaitStateView::Unsubscribing(Err(ErrorKind::Timeout)),
        transition(WaitStateView::Waiting, channel, timeout, WaitEventView::Message(payload)).0
            == WaitStateView::Unsubscribing(Ok(payload)),
        transition(
            WaitStateView::Returning(Err(ErrorKind::Timeout)),
            channel,
            timeout,
            WaitEventView::SessionReturned,
        ).1 == WaitActionView::Finish(Err(ErrorKind::Timeout)),
        transition(
            WaitStateView::Returning(Ok(payload)),
            channel,
            timeout,
            WaitEventView::SessionReturned,
        ).1 == WaitActionView::Finish(Ok(payload)),
{
}

/// A message that arrives before the subscription is confirmed is not delivered: in
/// every state but `Waiting` it changes nothing and is not kept for later.
pub proof fn lemma_early_message_is_dropped(
    state: WaitStateView,
    channel: Seq<char>,
    timeout: Duration,
    payload: Seq<char>,
)
    requires
        state != WaitStateView::Waiting,
    ensures
        transition(state, channel, timeout, WaitEventView::Message(payload)) == (
            state,
            WaitActionView::Ignore,
        ),
{
}

/// A result is returned only from two places: when no session could be obtained, and
/// when the session has been handed back after the unsubscription. `Returning` is
/// entered only from `Unsubscribing` on a confirmed unsubscription.
pub proof fn lemma_finish_only_after_release(
    state: WaitStateView,
    channel: Seq<char>,
    timeout: Duration,
    event: WaitEventView,
)
    ensures
        transition(state, channel, timeout, event).1 matches WaitActionView::Finish(outcome) ==> {
            ||| state == WaitStateView::Connecting && event == WaitEventView::ConnectFailed
            ||| state == WaitStateView::Returning(outcome) && event
                == WaitEventView::SessionReturned
        },
        transition(state, channel, timeout, event).0 matches WaitStateView::Returning(outcome)
            ==> {
            ||| state == WaitStateView::Returning(outcome)
            ||| state == WaitStateView::Unsubscribing(outcome) && event
                == WaitEventView::Unsubscribed
        },
{
}

/// One rendezvous: a channel, a time limit, and where the exchange stands.
pub struct Rendezvous {
    channel: String,
    timeout: Duration,
    state: WaitState,
}

impl Rendezvous {
    /// The channel that the rendezvous subscribes to.
    pub closed spec fn channel(&self) -> Seq<char> {
        self.channel@
    }

    /// The longest time that the rendezvous waits for a message.
    pub closed spec fn timeout(&self) -> Duration {
        self.timeout
    }

    /// Where the rendezvous stands.
    pub closed spec fn state(&self) -> WaitStateView {
        self.state@
    }

    /// A rendezvous on `subscribe_channel` that waits at most `timeout_duration` and
    /// has not begun.
    pub fn new(subscribe_channel: &str, timeout_duration: Duration) -> (r: Rendezvous)
        ensures
            r.channel() == subscribe_channel@,
            r.timeout() == timeout_duration,
            r.state() == WaitStateView::Start,
    {
        Rendezvous {
            channel: owned(subscribe_channel),
            timeout: timeout_duration,
            state: WaitState::Start,
        }
    }

    /// Whether the rendezvous is over.
    pub fn is_finished(&self) -> (b: bool)
        ensures
            b == (self.state() == WaitStateView::Finished),
    {
        match &self.state {
            WaitState::Finished => true,
            _ => false,
        }
    }

    /// Takes one event and says what to do next.
    pub fn step(&mut self, event: WaitEvent) -> (action: WaitAction)
        ensures
            final(self).channel() == old(self).channel(),
            final(self).timeout() == old(self).timeout(),
            (final(self).state(), action@) == transition(
                old(self).state(),
                old(self).channel(),
                old(self).timeout(),
                event@,
            ),
    {
        let mut state = WaitState::Finished;
        core::mem::swap(&mut self.state, &mut state);
        let (next, action) = match (state, event) {
            (WaitState::Start, WaitEvent::Begin) => (WaitState::Connecting, WaitAction::Checkout),
            (WaitState::Connecting, WaitEvent::SessionReady) => (
                WaitState::Subscribing,
                WaitAction::Subscribe(self.channel.clone()),
            ),
            (WaitState::Connecting, WaitEvent::ConnectFailed) => (
                WaitState::Finished,
                WaitAction::Finish(Err(ErrorKind::ConnectFailed)),
            ),
            (WaitState::Subscribing, WaitEvent::Subscribed) => (
                WaitState::Waiting,
                WaitAction::AwaitMessage(self.timeout),
            ),
            (WaitState::Subscribing, WaitEvent::SubscribeFailed) => (
                WaitState::Finished,
                WaitAction::Abandon(ErrorKind::StoreProtocolError),
            ),
            (WaitState::Waiting, WaitEvent::Message(payload)) => (
                WaitState::Unsubscribing(Ok(payload)),
                WaitAction::Unsubscribe(self.channel.clone()),
            ),
            (WaitState::Waiting, WaitEvent::MessageUnreadable) => (
                WaitState::Unsubscribing(Err(ErrorKind::StoreProtocolError)),
                WaitAction::Unsubscribe(self.channel.clone()),
            ),
            (WaitState::Waiting, WaitEvent::StreamEnded) => (
                WaitState::Unsubscribing(Err(ErrorKind::NoMessage)),
                WaitAction::Unsubscribe(self.channel.clone()),
            ),
            (WaitState::Waiting, WaitEvent::TimerFired) => (
                WaitState::Unsubscribing(Err(ErrorKind::Timeout)),
                WaitAction::Unsubscribe(self.channel.clone()),
            ),
            (WaitState::Unsubscribing(outcome), WaitEvent::Unsubscribed) => (
                WaitState::Returning(outcome),
                WaitAction::ReturnSession,
            ),
            (WaitState::Unsubscribing(_), WaitEvent::UnsubscribeFailed) => (
                WaitState::Finished,
                WaitAction::Abandon(ErrorKind::StoreProtocolError),
            ),
            (WaitState::Returning(outcome), WaitEvent::SessionReturned) => (
                WaitState::Finished,
                WaitAction::Finish(outcome),
            ),
            (state, _) => (state, WaitAction::Ignore),
        };
        self.state = next;
        action
    }
}

} // verus!
