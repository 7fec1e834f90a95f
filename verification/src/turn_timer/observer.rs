//! Notifiers and subscribers: who sends a value to all who asked for it, and
//! who waits for one.
//!
//! Subscribing and attaching are two steps. A notifier opens a conduit, keeps
//! its sending end and gives the receiving end away; whoever holds that end
//! attaches it to a subscriber. So the two sides are built apart and wired
//! together by a third party.

use crate::channel::Outbox;
use std::sync::mpsc::{Receiver, Sender};
use vstd::prelude::*;

verus! {

/// The records of `sent` after `value` was handed to every subscriber once.
pub open spec fn notified<T>(sent: Seq<Seq<T>>, value: T) -> Seq<Seq<T>> {
    Seq::new(sent.len(), |i: int| sent[i].push(value))
}

/// Whether `after` is `before` with the outcome of one more send at its end.
pub open spec fn one_more_outcome(before: Seq<bool>, after: Seq<bool>) -> bool {
    after.len() == before.len() + 1 && after.drop_last() == before
}

/// A holder of outbound conduits, one for each subscription, that can send a
/// value to all of them.
pub trait Notifier<T: Copy> {
    /// The sending ends that this notifier holds, in the order of
    /// subscription.
    spec fn conduits(&self) -> Seq<Sender<T>>;

    /// For each subscriber, in the order of subscription, the values handed to
    /// its conduit so far.
    spec fn sent(&self) -> Seq<Seq<T>>;

    /// For each subscriber, in the order of subscription, whether its conduit
    /// took each of the values handed to it so far.
    spec fn outcomes(&self) -> Seq<Seq<bool>>;

    /// The outboxes that this notifier holds, in the order of subscription.
    fn subscribers(&self) -> (outboxes: &Vec<Outbox<T>>)
        ensures
            outboxes@.len() == self.sent().len(),
            outboxes@.len() == self.conduits().len(),
            outboxes@.len() == self.outcomes().len(),
            forall|i: int|
                0 <= i < outboxes@.len() ==> (#[trigger] outboxes@[i]).outcomes()
                    == self.outcomes()[i],
            forall|i: int|
                0 <= i < outboxes@.len() ==> (#[trigger] outboxes@[i]).handed() == self.sent()[i],
            forall|i: int|
                0 <= i < outboxes@.len() ==> (#[trigger] outboxes@[i]).conduit()
                    == self.conduits()[i],
    ;

    /// Opens a conduit, keeps its sending end as the last subscriber, and
    /// returns its receiving end. Earlier subscribers are untouched.
    fn subscribe(&mut self) -> (receiver: Receiver<T>)
        ensures
            final(self).sent() == old(self).sent().push(Seq::empty()),
            final(self).outcomes() == old(self).outcomes().push(Seq::empty()),
            final(self).conduits().len() == old(self).conduits().len() + 1,
            final(self).conduits().drop_last() == old(self).conduits(),
    ;

    /// Hands `value` to every subscriber's conduit once, in the order of
    /// subscription. A conduit whose receiving end is gone does not stop the
    /// rest.
    fn notify(&mut self, value: &T)
        ensures
            final(self).conduits() == old(self).conduits(),
            final(self).sent() == notified(old(self).sent(), *value),
            final(self).outcomes().len() == old(self).outcomes().len(),
            forall|i: int|
                0 <= i < old(self).outcomes().len() ==> one_more_outcome(
                    old(self).outcomes()[i],
                    #[trigger] final(self).outcomes()[i],
                ),
    ;
}

/// A holder of at most one inbound conduit that can look into it without
/// blocking.
pub trait Subscriber<T> {
    /// The receiving end that is attached, if any.
    spec fn conduit(&self) -> Option<Receiver<T>>;

    /// Looks into the attached conduit, if there is one, and takes note of
    /// what it finds. Never blocks, and leaves the conduit attached.
    fn update(&mut self)
        ensures
            final(self).conduit() == old(self).conduit(),
    ;

    /// Attaches `receiver` in place of any conduit attached before.
    fn add_subscription(&mut self, receiver: Receiver<T>)
        ensures
            final(self).conduit() == Some(receiver),
    ;
}

} // verus!
