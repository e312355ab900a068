//! One connection attempt as a state machine: upgrade with retries, the
//! subscription, the receive loop, and the moment the socket is handed
//! over.
//!
//! The driver performs what the machine orders and reports each outcome as
//! an event. It makes the first upgrade attempt by itself, as soon as the
//! session exists; every later attempt is ordered by a `Retry`.

use vstd::prelude::*;
use vstd::string::*;

verus! {

/// Milliseconds between two samples of the process monitor.
pub const POLL_INTERVAL_MS: u64 = 5000;

/// Milliseconds to wait after a failed upgrade before the next attempt.
pub const RETRY_INTERVAL_MS: u64 = 2000;

/// Where a session stands.
#[derive(Clone, Copy, Debug, PartialEq, Eq, Structural)]
pub enum ConnPhase {
    /// An upgrade attempt is under way.
    Upgrading,
    /// The upgrade succeeded and the subscription frame is being sent.
    Subscribing,
    /// Frames are being received.
    Receiving,
    /// The session is over.
    Closed,
}

/// What the driver reports.
#[derive(Clone, Copy, Debug, PartialEq, Eq, Structural)]
pub enum ConnEvent {
    /// The upgrade attempt failed, for whatever reason.
    UpgradeFailed,
    /// The upgrade attempt succeeded.
    Upgraded,
    /// The subscription frame was sent.
    FrameSent,
    /// The subscription frame could not be sent.
    SendFailed,
    /// A frame arrived whose text is `len` bytes long.
    Frame { len: usize },
    /// Reading a frame failed.
    FrameError,
    /// The peer closed the stream.
    StreamClosed,
}

/// What the machine orders.
#[derive(Clone, Copy, Debug, PartialEq, Eq, Structural)]
pub enum ConnAction {
    /// Wait `millis` milliseconds, then attempt the upgrade again.
    Retry { millis: u64 },
    /// Send the subscription frame.
    Subscribe,
    /// Read the next frame.
    Receive,
    /// Store the socket in the connection state; the session is over.
    Publish,
}

/// A connection attempt in progress.
#[derive(Clone, Copy, Debug, PartialEq, Eq)]
pub struct Session {
    pub phase: ConnPhase,
    /// Length of the last frame received, if any.
    pub last_frame_len: Option<usize>,
}

/// The text of the subscription frame.
pub open spec fn subscription_text() -> Seq<char> {
    "[5, \"OnJsonApiEvent\"]"@
}

/// The frame that subscribes to the JSON API events.
pub fn subscription_frame() -> (frame: String)
    ensures
        frame@ == subscription_text(),
{
    String::from_str("[5, \"OnJsonApiEvent\"]")
}

impl Session {
    /// A session whose first upgrade attempt is under way.
    pub open spec fn initial() -> Session {
        Session { phase: ConnPhase::Upgrading, last_frame_len: None }
    }

    /// Whether `event` reports on what the session is doing.
    pub open spec fn expects(self, event: ConnEvent) -> bool {
        match self.phase {
            ConnPhase::Upgrading => event is UpgradeFailed || event is Upgraded,
            ConnPhase::Subscribing => event is FrameSent || event is SendFailed,
            ConnPhase::Receiving => event is Frame || event is FrameError || event is StreamClosed,
            ConnPhase::Closed => false,
        }
    }

    /// The session after `event`. An event that the session does not expect
    /// leaves it as it is.
    pub open spec fn after(self, event: ConnEvent) -> Session {
        match (self.phase, event) {
            (ConnPhase::Upgrading, ConnEvent::Upgraded) => Session {
                phase: ConnPhase::Subscribing,
                last_frame_len: self.last_frame_len,
            },
            (ConnPhase::Subscribing, ConnEvent::FrameSent) => Session {
                phase: ConnPhase::Receiving,
                last_frame_len: self.last_frame_len,
            },
            (ConnPhase::Subscribing, ConnEvent::SendFailed) => Session {
                phase: ConnPhase::Closed,
                last_frame_len: self.last_frame_len,
            },
            (ConnPhase::Receiving, ConnEvent::Frame { len }) => Session {
                phase: ConnPhase::Receiving,
                last_frame_len: Some(len),
            },
            (ConnPhase::Receiving, ConnEvent::FrameError) => Session {
                phase: ConnPhase::Closed,
                last_frame_len: self.last_frame_len,
            },
            (ConnPhase::Receiving, ConnEvent::StreamClosed) => Session {
                phase: ConnPhase::Closed,
                last_frame_len: self.last_frame_len,
            },
            _ => self,
        }
    }

    /// What the machine orders on `event`: `None` exactly where the session
    /// does not expect the event.
    pub open spec fn answer(self, event: ConnEvent) -> Option<ConnAction> {
        match (self.phase, event) {
            (ConnPhase::Upgrading, ConnEvent::UpgradeFailed) => Some(
                ConnAction::Retry { millis: RETRY_INTERVAL_MS },
            ),
            (ConnPhase::Upgrading, ConnEvent::Upgraded) => Some(ConnAction::Subscribe),
            (ConnPhase::Subscribing, ConnEvent::FrameSent) => Some(ConnAction::Receive),
            (ConnPhase::Subscribing, ConnEvent::SendFailed) => Some(ConnAction::Publish),
            (ConnPhase::Receiving, ConnEvent::Frame { len }) => Some(ConnAction::Receive),
            (ConnPhase::Receiving, ConnEvent::FrameError) => Some(ConnAction::Publish),
            (ConnPhase::Receiving, ConnEvent::StreamClosed) => Some(ConnAction::Publish),
            _ => None,
        }
    }

    /// The session after a sequence of events.
    pub open spec fn after_all(self, events: Seq<ConnEvent>) -> Session
        decreases events.len(),
    {
        if events.len() == 0 {
            self
        } else {
            self.after_all(events.drop_last()).after(events.last())
        }
    }

    /// The answers to a sequence of events, one for each.
    pub open spec fn answers(self, events: Seq<ConnEvent>) -> Seq<Option<ConnAction>>
        decreases events.len(),
    {
        if events.len() == 0 {
            Seq::empty()
        } else {
            self.answers(events.drop_last()).push(
                self.after_all(events.drop_last()).answer(events.last()),
            )
        }
    }

    /// Starts a session. The driver attempts the upgrade at once.
    pub fn new() -> (session: Session)
        ensures
            session == Session::initial(),
    {
        Session { phase: ConnPhase::Upgrading, last_frame_len: None }
    }

    /// Takes the outcome of what the driver last did and orders the next
    /// thing to do.
    pub fn step(&mut self, event: ConnEvent) -> (action: Option<ConnAction>)
        ensures
            *final(self) == old(self).after(event),
            action == old(self).answer(event),
            action is Some <==> old(self).expects(event),
    {
        match self.phase {
            ConnPhase::Upgrading => match event {
                ConnEvent::UpgradeFailed => Some(ConnAction::Retry { millis: RETRY_INTERVAL_MS }),
                ConnEvent::Upgraded => {
                    self.phase = ConnPhase::Subscribing;
                    Some(ConnAction::Subscribe)
                },
                _ => None,
            },
            ConnPhase::Subscribing => match event {
                ConnEvent::FrameSent => {
                    self.phase = ConnPhase::Receiving;
                    Some(ConnAction::Receive)
                },
                ConnEvent::SendFailed => {
                    self.phase = ConnPhase::Closed;
                    Some(ConnAction::Publish)
                },
                _ => None,
            },
            ConnPhase::Receiving => match event {
                ConnEvent::Frame { len } => {
                    self.last_frame_len = Some(len);
                    Some(ConnAction::Receive)
                },
                ConnEvent::FrameError | ConnEvent::StreamClosed => {
                    self.phase = ConnPhase::Closed;
                    Some(ConnAction::Publish)
                },
                _ => None,
            },
            ConnPhase::Closed => None,
        }
    }

    /// Feeds a recorded sequence of events to the session and returns the
    /// answer to each.
    pub fn replay(&mut self, events: &Vec<ConnEvent>) -> (answers: Vec<Option<ConnAction>>)
        ensures
            *final(self) == old(self).after_all(events@),
            answers@ == old(self).answers(events@),
    {
        let mut answers: Vec<Option<ConnAction>> = Vec::new();
        let mut i: usize = 0;
        while i < events.len()
            invariant
                i <= events.len(),
                *self == old(self).after_all(events@.take(i as int)),
                answers@ == old(self).answers(events@.take(i as int)),
            decreases events.len() - i,
        {
            proof {
                assert(events@.take(i + 1).drop_last() == events@.take(i as int));
            }
            let action = self.step(events[i]);
            answers.push(action);
            i += 1;
        }
        proof {
            assert(events@.take(i as int) == events@);
        }
        answers
    }
}

/// `n` failed upgrade attempts in a row.
pub open spec fn failures(n: nat) -> Seq<ConnEvent> {
    Seq::new(n, |i: int| ConnEvent::UpgradeFailed)
}

/// `n` orders to wait the retry interval and attempt the upgrade again.
pub open spec fn retries(n: nat) -> Seq<Option<ConnAction>> {
    Seq::new(n, |i: int| Some(ConnAction::Retry { millis: RETRY_INTERVAL_MS }))
}

/// The number of upgrade attempts that a driver has made which started a
/// session and received `answers`: the first one, and one for each `Retry`.
pub open spec fn attempts(answers: Seq<Option<ConnAction>>) -> nat
    decreases answers.len(),
{
    if answers.len() == 0 {
        1
    } else if answers.last() matches Some(ConnAction::Retry { .. }) {
        attempts(answers.drop_last()) + 1
    } else {
        attempts(answers.drop_last())
    }
}

/// While the upgrade keeps failing the session stays where it is and orders
/// one retry per failure, each after the retry interval.
pub proof fn lemma_failures_retry(session: Session, n: nat)
    requires
        session.phase == ConnPhase::Upgrading,
    ensures
        session.after_all(failures(n)) == session,
        session.answers(failures(n)) == retries(n),
        attempts(retries(n)) == n + 1,
    decreases n,
{
    if n > 0 {
        lemma_failures_retry(session, (n - 1) as nat);
        assert(failures(n).drop_last() == failures((n - 1) as nat));
        assert(retries(n).drop_last() == retries((n - 1) as nat));
        assert(retries((n - 1) as nat).push(Some(ConnAction::Retry { millis: RETRY_INTERVAL_MS }))
            == retries(n));
    } else {
        assert(session.answers(failures(0)) == retries(0));
    }
}

/// An upgrade that fails `n` times and then succeeds takes `n + 1` attempts:
/// the session orders `n` retries, each after the retry interval of 2000
/// milliseconds, then the subscription, and nothing else.
pub proof fn lemma_retry_until_upgraded(session: Session, n: nat)
    requires
        session.phase == ConnPhase::Upgrading,
    ensures
        session.after_all(failures(n).push(ConnEvent::Upgraded)).phase == ConnPhase::Subscribing,
        session.answers(failures(n).push(ConnEvent::Upgraded)) == retries(n).push(
            Some(ConnAction::Subscribe),
        ),
        attempts(session.answers(failures(n).push(ConnEvent::Upgraded))) == n + 1,
        forall|i: int|
            0 <= i < n ==> #[trigger] session.answers(failures(n).push(ConnEvent::Upgraded))[i]
                == Some(ConnAction::Retry { millis: 2000 }),
{
    lemma_failures_retry(session, n);
    let events = failures(n).push(ConnEvent::Upgraded);
    assert(events.drop_last() == failures(n));
    let answers = retries(n).push(Some(ConnAction::Subscribe));
    assert(answers.drop_last() == retries(n));
}

/// A closed session answers no event and stays closed.
pub proof fn lemma_closed_is_final(session: Session, events: Seq<ConnEvent>)
    requires
        session.phase == ConnPhase::Closed,
    ensures
        session.after_all(events) == session,
        forall|i: int| 0 <= i < events.len() ==> #[trigger] session.answers(events)[i] is None,
        session.answers(events).len() == events.len(),
    decreases events.len(),
{
    if events.len() > 0 {
        lemma_closed_is_final(session, events.drop_last());
    }
}

/// The number of `Publish` orders among `answers`.
pub open spec fn publishes(answers: Seq<Option<ConnAction>>) -> nat
    decreases answers.len(),
{
    if answers.len() == 0 {
        0
    } else if answers.last() == Some(ConnAction::Publish) {
        publishes(answers.drop_last()) + 1
    } else {
        publishes(answers.drop_last())
    }
}

/// Whatever the events, a session hands its socket over at most once: once
/// if the events have closed it, not at all while it is open.
pub proof fn lemma_publish_once(session: Session, events: Seq<ConnEvent>)
    requires
        session.phase != ConnPhase::Closed,
    ensures
        publishes(session.answers(events)) == (if session.after_all(events).phase
            == ConnPhase::Closed {
            1nat
        } else {
            0nat
        }),
    decreases events.len(),
{
    if events.len() > 0 {
        let before = session.after_all(events.drop_last());
        let earlier = session.answers(events.drop_last());
        lemma_publish_once(session, events.drop_last());
        lemma_publish_on_close(before, events.last());
        assert(earlier.push(before.answer(events.last())).drop_last() == earlier);
    }
}

/// The socket is handed over exactly when a session closes: an event is
/// answered with `Publish` if and only if it takes the session from an open
/// phase to `Closed`.
pub proof fn lemma_publish_on_close(session: Session, event: ConnEvent)
    ensures
        session.answer(event) == Some(ConnAction::Publish) <==> (session.phase != ConnPhase::Closed
            && session.after(event).phase == ConnPhase::Closed),
        session.answer(event) is Some <==> session.expects(event),
        session.answer(event) is None ==> session.after(event) == session,
{
}

} // verus!
