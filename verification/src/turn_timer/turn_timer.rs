//! The turn timer, its status, and the subscriber that remembers the status.

use crate::channel::{open, Inbox, Outbox};
use crate::turn_timer::observer::{notified, one_more_outcome, Notifier, Subscriber};
use std::sync::mpsc::{Receiver, Sender};
use vstd::prelude::*;

verus! {

/// Whether a turn's time window has elapsed. The only change a timer ever
/// makes is from `TimerNotComplete` to `TimerComplete`.
#[derive(Clone, Copy, Debug, PartialEq, Eq, Structural)]
pub enum TimerStatus {
    TimerNotComplete,
    TimerComplete,
}

impl TimerStatus {
    /// The status that a subscriber holding `self` holds after it looked into
    /// its conduit and found `received`. Completion is never taken back, and
    /// only a received `TimerComplete` brings it about.
    pub open spec fn spec_after(self, received: Option<TimerStatus>) -> TimerStatus {
        if self is TimerComplete || received == Some(TimerStatus::TimerComplete) {
            TimerStatus::TimerComplete
        } else {
            TimerStatus::TimerNotComplete
        }
    }

    /// The status that a subscriber holding `self` holds after it looked into
    /// its conduit and found `received`.
    #[verifier::when_used_as_spec(spec_after)]
    pub fn after(self, received: Option<TimerStatus>) -> (status: TimerStatus)
        ensures
            status == self.spec_after(received),
    {
        match self {
            TimerStatus::TimerComplete => TimerStatus::TimerComplete,
            TimerStatus::TimerNotComplete => match received {
                Some(TimerStatus::TimerComplete) => TimerStatus::TimerComplete,
                _ => TimerStatus::TimerNotComplete,
            },
        }
    }
}

/// The status that a subscriber holding `start` holds after it looked into
/// its conduit once for each entry of `receipts`, in order.
pub open spec fn status_after(start: TimerStatus, receipts: Seq<Option<TimerStatus>>) -> TimerStatus
    decreases receipts.len(),
{
    if receipts.len() == 0 {
        start
    } else {
        status_after(start, receipts.drop_last()).spec_after(receipts.last())
    }
}

/// A subscriber's status never goes back. Whatever arrives and in whatever
/// order: once the status is `TimerComplete` after some of the receipts, it
/// is `TimerComplete` after any more of them.
pub proof fn lemma_status_is_monotonic(
    start: TimerStatus,
    receipts: Seq<Option<TimerStatus>>,
    earlier: int,
    later: int,
)
    requires
        0 <= earlier <= later <= receipts.len(),
        status_after(start, receipts.take(earlier)) is TimerComplete,
    ensures
        status_after(start, receipts.take(later)) is TimerComplete,
    decreases later - earlier,
{
    if earlier < later {
        lemma_status_is_monotonic(start, receipts, earlier, later - 1);
        assert(receipts.take(later).drop_last() =~= receipts.take(later - 1));
    }
}

/// A one-shot timer for a turn. Subscriptions are gathered first; then the
/// timer is consumed by [`TurnTimer::expire`], which tells every subscriber
/// that the turn is over. A timer that was consumed can neither be subscribed
/// to nor expire again.
pub struct TurnTimer {
    timer_duration: u64,
    subscribers: Vec<Outbox<TimerStatus>>,
}

impl TurnTimer {
    /// The length of the turn in whole seconds.
    pub closed spec fn duration(&self) -> u64 {
        self.timer_duration
    }

    /// A timer for a turn of `timer_duration` seconds, with no subscriber.
    /// A turn of zero seconds is allowed.
    pub fn new(timer_duration: u64) -> (timer: TurnTimer)
        ensures
            timer.duration() == timer_duration,
            timer.conduits().len() == 0,
            timer.sent() == Seq::<Seq<TimerStatus>>::empty(),
            timer.outcomes() == Seq::<Seq<bool>>::empty(),
    {
        let timer = TurnTimer { timer_duration, subscribers: Vec::new() };
        assert(timer.sent() =~= Seq::<Seq<TimerStatus>>::empty());
        assert(timer.outcomes() =~= Seq::<Seq<bool>>::empty());
        timer
    }

    /// The length of the turn in whole seconds: how long to wait before
    /// [`TurnTimer::expire`].
    pub fn timer_duration(&self) -> (seconds: u64)
        ensures
            seconds == self.duration(),
    {
        self.timer_duration
    }

    /// Ends the turn: hands `TimerComplete` to every subscriber's conduit
    /// once, in the order of subscription. The timer is consumed; what is
    /// left of it are its outboxes, each with the record of everything that
    /// its subscriber was sent by this timer.
    pub fn expire(self) -> (spent: Vec<Outbox<TimerStatus>>)
        ensures
            spent@.len() == self.sent().len(),
            forall|i: int|
                0 <= i < spent@.len() ==> (#[trigger] spent@[i]).conduit() == self.conduits()[i],
            forall|i: int|
                0 <= i < spent@.len() ==> (#[trigger] spent@[i]).handed() == self.sent()[i].push(
                    TimerStatus::TimerComplete,
                ),
            forall|i: int|
                0 <= i < spent@.len() ==> one_more_outcome(
                    self.outcomes()[i],
                    (#[trigger] spent@[i]).outcomes(),
                ),
    {
        let mut timer = self;
        timer.notify(&TimerStatus::TimerComplete);
        proof {
            assert(timer.sent().len() == timer.subscribers@.len());
            assert forall|i: int| 0 <= i < timer.subscribers@.len() implies {
                &&& (#[trigger] timer.subscribers@[i]).handed() == self.sent()[i].push(
                    TimerStatus::TimerComplete,
                )
                &&& timer.subscribers@[i].conduit() == self.conduits()[i]
                &&& one_more_outcome(self.outcomes()[i], timer.subscribers@[i].outcomes())
            } by {
                assert(timer.sent()[i] == timer.subscribers@[i].handed());
                assert(timer.conduits()[i] == timer.subscribers@[i].conduit());
                assert(timer.outcomes()[i] == timer.subscribers@[i].outcomes());
            }
        }
        timer.subscribers
    }
}

impl Notifier<TimerStatus> for TurnTimer {
    closed spec fn conduits(&self) -> Seq<Sender<TimerStatus>> {
        Seq::new(self.subscribers@.len(), |i: int| self.subscribers@[i].conduit())
    }

    closed spec fn sent(&self) -> Seq<Seq<TimerStatus>> {
        Seq::new(self.subscribers@.len(), |i: int| self.subscribers@[i].handed())
    }

    closed spec fn outcomes(&self) -> Seq<Seq<bool>> {
        Seq::new(self.subscribers@.len(), |i: int| self.subscribers@[i].outcomes())
    }

    fn subscribers(&self) -> (outboxes: &Vec<Outbox<TimerStatus>>) {
        &self.subscribers
    }

    fn subscribe(&mut self) -> (receiver: Receiver<TimerStatus>)
        ensures
            final(self).duration() == old(self).duration(),
    {
        let (outbox, receiver) = open();
        self.subscribers.push(outbox);
        assert(self.sent() =~= old(self).sent().push(Seq::empty()));
        assert(self.outcomes() =~= old(self).outcomes().push(Seq::empty()));
        assert(self.conduits().drop_last() =~= old(self).conduits());
        receiver
    }

    fn notify(&mut self, value: &TimerStatus)
        ensures
            final(self).duration() == old(self).duration(),
    {
        let count = self.subscribers.len();
        let mut i: usize = 0;
        while i < count
            invariant
                i <= count,
                count == self.subscribers@.len(),
                count == old(self).subscribers@.len(),
                self.timer_duration == old(self).timer_duration,
                forall|j: int|
                    0 <= j < count ==> (#[trigger] self.subscribers@[j]).conduit() == old(self).subscribers@[j].conduit(),
                forall|j: int|
                    0 <= j < i ==> (#[trigger] self.subscribers@[j]).handed() == old(self).subscribers@[j].handed().push(*value),
                forall|j: int|
                    i <= j < count ==> (#[trigger] self.subscribers@[j]).handed() == old(self).subscribers@[j].handed(),
                forall|j: int|
                    0 <= j < i ==> one_more_outcome(
                        old(self).subscribers@[j].outcomes(),
                        (#[trigger] self.subscribers@[j]).outcomes(),
                    ),
                forall|j: int|
                    i <= j < count ==> (#[trigger] self.subscribers@[j]).outcomes() == old(self).subscribers@[j].outcomes(),
            decreases count - i,
        {
            let _ = self.subscribers[i].send(*value);
            assert(self.subscribers@[i as int].outcomes().drop_last() =~= old(self).subscribers@[i as int].outcomes());
            i = i + 1;
        }
        assert(self.sent() =~= notified(old(self).sent(), *value));
        assert(self.conduits() =~= old(self).conduits());
        assert forall|j: int| 0 <= j < old(self).outcomes().len() implies one_more_outcome(
            old(self).outcomes()[j],
            #[trigger] self.outcomes()[j],
        ) by {
            assert(self.outcomes()[j] == self.subscribers@[j].outcomes());
        }
    }
}

/// Every subscriber of a timer that notified nobody before it expired was
/// sent exactly one notification by it, the completion. As expiring consumes
/// the timer, the timer sends none after it.
pub proof fn lemma_expiry_notifies_each_subscriber_once(sent: Seq<Seq<TimerStatus>>, subscriber: int)
    requires
        0 <= subscriber < sent.len(),
        sent[subscriber] == Seq::<TimerStatus>::empty(),
    ensures
        notified(sent, TimerStatus::TimerComplete).len() == sent.len(),
        notified(sent, TimerStatus::TimerComplete)[subscriber] == seq![TimerStatus::TimerComplete],
        sent[subscriber].push(TimerStatus::TimerComplete) == seq![TimerStatus::TimerComplete],
{
    assert(sent[subscriber].push(TimerStatus::TimerComplete) =~= seq![TimerStatus::TimerComplete]);
}

/// Anything that can say, without blocking, whether the turn is over.
pub trait TurnTimerSubscriberTrait {
    /// The status as far as this source knows it now.
    fn get_timer_status(&mut self) -> TimerStatus;
}

/// A subscriber to a turn timer that remembers completion: once it has seen
/// `TimerComplete` it never looks into its conduit again.
pub struct TurnTimerSubscriber {
    timer_status: StatusCache,
    subscription: Option<Inbox<TimerStatus>>,
}

/// A status together with the receipts that it was made of.
struct StatusCache {
    status: TimerStatus,
    receipts: Ghost<Seq<Option<TimerStatus>>>,
}

impl StatusCache {
    #[verifier::type_invariant]
    spec fn remembers_receipts(&self) -> bool {
        self.status == status_after(TimerStatus::TimerNotComplete, self.receipts@)
    }
}

impl TurnTimerSubscriber {
    /// Everything that the subscriber took note of so far, oldest first: what
    /// a look into a conduit found, a value or `None`.
    pub closed spec fn receipts(&self) -> Seq<Option<TimerStatus>> {
        self.timer_status.receipts@
    }

    /// What each look into the conduit that is attached now found, oldest
    /// first; empty where none is attached.
    pub closed spec fn found(&self) -> Seq<Option<TimerStatus>> {
        match self.subscription {
            Some(inbox) => inbox.found(),
            None => Seq::empty(),
        }
    }

    /// The status that the subscriber remembers: what its receipts make of
    /// `TimerNotComplete`.
    pub open spec fn status(&self) -> TimerStatus {
        status_after(TimerStatus::TimerNotComplete, self.receipts())
    }

    /// Whether a conduit is attached.
    pub open spec fn is_subscribed(&self) -> bool {
        self.conduit() is Some
    }

    /// Whether `self` is `before` after one more look into the attached
    /// conduit: the look is on the conduit's record, and what it found is the
    /// one receipt that the subscriber took note of since.
    pub open spec fn looked_once_since(&self, before: &TurnTimerSubscriber) -> bool {
        &&& self.receipts().len() == before.receipts().len() + 1
        &&& self.receipts().drop_last() == before.receipts()
        &&& self.found() == before.found().push(self.receipts().last())
    }

    /// Whether `self` is `before` with no look made and no receipt taken
    /// note of.
    pub open spec fn untouched_since(&self, before: &TurnTimerSubscriber) -> bool {
        &&& self.receipts() == before.receipts()
        &&& self.found() == before.found()
    }

    /// A subscriber that has received nothing, so remembers
    /// `TimerNotComplete`, and has no conduit.
    pub fn new() -> (subscriber: TurnTimerSubscriber)
        ensures
            subscriber.receipts() == Seq::<Option<TimerStatus>>::empty(),
            subscriber.conduit() is None,
    {
        TurnTimerSubscriber {
            timer_status: StatusCache {
                status: TimerStatus::TimerNotComplete,
                receipts: Ghost(Seq::empty()),
            },
            subscription: None,
        }
    }

    /// Takes note of what a look into the conduit found, and returns the
    /// status that the subscriber remembers from now on. The conduit itself
    /// is left alone.
    pub fn observe(&mut self, received: Option<TimerStatus>) -> (status: TimerStatus)
        ensures
            final(self).receipts() == old(self).receipts().push(received),
            final(self).conduit() == old(self).conduit(),
            final(self).found() == old(self).found(),
            status == final(self).status(),
            status == old(self).status().spec_after(received),
    {
        proof {
            use_type_invariant(&self.timer_status);
            assert(self.receipts().push(received).drop_last() =~= self.receipts());
        }
        let status = self.timer_status.status.after(received);
        self.timer_status = StatusCache {
            status,
            receipts: Ghost(self.timer_status.receipts@.push(received)),
        };
        status
    }

    /// The timer's status as far as this subscriber knows it. Never blocks.
    ///
    /// A subscriber that remembers `TimerComplete` returns it at once and
    /// leaves its conduit alone. One that does not looks into its conduit
    /// once, if it has one, and returns what it remembers then:
    /// `TimerComplete` exactly when that was found. The conduit stays
    /// attached.
    pub fn get_timer_status(&mut self) -> (status: TimerStatus)
        ensures
            status == final(self).status(),
            final(self).conduit() == old(self).conduit(),
            old(self).status() is TimerComplete ==> status is TimerComplete,
            old(self).status() is TimerNotComplete && old(self).is_subscribed() ==> final(self).looked_once_since(old(self)),
            old(self).status() is TimerComplete || !old(self).is_subscribed() ==> final(self).untouched_since(old(self)),
    {
        proof {
            use_type_invariant(&self.timer_status);
        }
        match self.timer_status.status {
            TimerStatus::TimerComplete => TimerStatus::TimerComplete,
            TimerStatus::TimerNotComplete => {
                self.update();
                proof {
                    use_type_invariant(&self.timer_status);
                }
                self.timer_status.status
            },
        }
    }
}

impl Subscriber<TimerStatus> for TurnTimerSubscriber {
    closed spec fn conduit(&self) -> Option<Receiver<TimerStatus>> {
        match self.subscription {
            Some(inbox) => Some(inbox.conduit()),
            None => None,
        }
    }

    fn update(&mut self)
        ensures
            old(self).is_subscribed() ==> final(self).looked_once_since(old(self)),
            !old(self).is_subscribed() ==> final(self).untouched_since(old(self)),
    {
        let looked = match &mut self.subscription {
            Some(inbox) => Some(inbox.look()),
            None => None,
        };
        if let Some(received) = looked {
            let _ = self.observe(received);
            assert(self.receipts().drop_last() =~= old(self).receipts());
        }
    }

    fn add_subscription(&mut self, receiver: Receiver<TimerStatus>)
        ensures
            final(self).receipts() == old(self).receipts(),
            final(self).found() == Seq::<Option<TimerStatus>>::empty(),
    {
        self.subscription = Some(Inbox::new(receiver));
    }
}

impl TurnTimerSubscriberTrait for TurnTimerSubscriber {
    fn get_timer_status(&mut self) -> (status: TimerStatus)
        ensures
            status == final(self).status(),
            final(self).conduit() == old(self).conduit(),
            old(self).status() is TimerComplete ==> status is TimerComplete,
            old(self).status() is TimerNotComplete && old(self).is_subscribed() ==> final(self).looked_once_since(old(self)),
            old(self).status() is TimerComplete || !old(self).is_subscribed() ==> final(self).untouched_since(old(self)),
    {
        TurnTimerSubscriber::get_timer_status(self)
    }
}

} // verus!
