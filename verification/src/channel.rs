//! Message conduits between the timer, the input loop and the game.
//!
//! The conduits are the channels of `std::sync::mpsc`. Their two ends are
//! opaque here: whether a value that is handed to a sender arrives, and what
//! a receiver yields, depends on the other end, so nothing is claimed of
//! either. What the library itself hands to a sender is recorded in an
//! [`Outbox`], and what it finds at a receiver in an [`Inbox`].

use std::sync::mpsc::{Receiver, SendError, Sender, TryRecvError};
use vstd::prelude::*;

verus! {

#[verifier::external_type_specification]
#[verifier::external_body]
#[verifier::reject_recursive_types(T)]
pub struct ExSender<T>(Sender<T>);

#[verifier::external_type_specification]
#[verifier::external_body]
#[verifier::reject_recursive_types(T)]
pub struct ExReceiver<T>(Receiver<T>);

#[verifier::external_type_specification]
#[verifier::external_body]
#[verifier::reject_recursive_types(T)]
pub struct ExSendError<T>(SendError<T>);

#[verifier::external_type_specification]
#[verifier::external_body]
pub struct ExTryRecvError(TryRecvError);

/// `std::sync::mpsc::channel`: makes the two ends of a new conduit. Nothing is
/// claimed of them.
pub assume_specification<T>[ std::sync::mpsc::channel::<T> ]() -> (ends: (Sender<T>, Receiver<T>));

/// `std::sync::mpsc::Sender::send`: hands `t` to the conduit without blocking.
/// Nothing is claimed of the result: it is an error exactly when the receiving
/// end is gone, which the sender cannot know beforehand.
pub assume_specification<T>[ Sender::<T>::send ](sender: &Sender<T>, t: T) -> (outcome: Result<
    (),
    SendError<T>,
>);

/// `std::sync::mpsc::Receiver::try_recv`: takes the next value off the conduit
/// if one is waiting, without blocking. Nothing is claimed of the result: it
/// depends on what the sending end has done so far.
pub assume_specification<T>[ Receiver::<T>::try_recv ](receiver: &Receiver<T>) -> (outcome: Result<
    T,
    TryRecvError,
>);

/// The sending end of a conduit, together with the record of every value that
/// was handed to it and of whether the conduit took it, oldest first.
#[verifier::reject_recursive_types(T)]
pub struct Outbox<T> {
    sender: Sender<T>,
    handed: Ghost<Seq<T>>,
    outcomes: Ghost<Seq<bool>>,
}

impl<T> Outbox<T> {
    /// The sending end that this outbox wraps.
    pub closed spec fn conduit(&self) -> Sender<T> {
        self.sender
    }

    /// The values handed to the conduit so far, in the order of the calls.
    /// A value is on record whether or not the receiving end took it.
    pub closed spec fn handed(&self) -> Seq<T> {
        self.handed@
    }

    /// For each value handed to the conduit so far, in the order of the
    /// calls, whether the conduit took it.
    pub closed spec fn outcomes(&self) -> Seq<bool> {
        self.outcomes@
    }

    /// Wraps `sender`, to which nothing has been handed through this outbox.
    pub fn new(sender: Sender<T>) -> (outbox: Outbox<T>)
        ensures
            outbox.conduit() == sender,
            outbox.handed() == Seq::<T>::empty(),
            outbox.outcomes() == Seq::<bool>::empty(),
    {
        Outbox { sender, handed: Ghost(Seq::empty()), outcomes: Ghost(Seq::empty()) }
    }

    /// Hands `value` to the conduit. Returns whether the conduit took it,
    /// which it does not once the receiving end is gone; the value and the
    /// outcome are on record in either case.
    pub fn send(&mut self, value: T) -> (delivered: bool)
        ensures
            final(self).conduit() == old(self).conduit(),
            final(self).handed() == old(self).handed().push(value),
            final(self).outcomes() == old(self).outcomes().push(delivered),
    {
        let delivered = self.sender.send(value).is_ok();
        proof {
            self.handed@ = self.handed@.push(value);
            self.outcomes@ = self.outcomes@.push(delivered);
        }
        delivered
    }
}

/// Opens a new conduit and returns its sending end, with empty records,
/// and its receiving end.
pub fn open<T>() -> (ends: (Outbox<T>, Receiver<T>))
    ensures
        ends.0.handed() == Seq::<T>::empty(),
        ends.0.outcomes() == Seq::<bool>::empty(),
{
    let (sender, receiver) = std::sync::mpsc::channel();
    (Outbox::new(sender), receiver)
}

/// Takes the next value off the conduit if one is waiting. Never blocks:
/// `None` stands both for an empty conduit and for one whose sending end is
/// gone.
pub(crate) fn poll<T>(receiver: &Receiver<T>) -> (received: Option<T>) {
    arrived(receiver.try_recv())
}

/// What a look into a conduit found, given what the conduit answered: the
/// value that was waiting, or `None` for either error, an empty conduit or
/// one whose sending end is gone.
pub fn arrived<T>(outcome: Result<T, TryRecvError>) -> (received: Option<T>)
    ensures
        received == match outcome {
            Ok(value) => Some(value),
            Err(_) => None,
        },
{
    match outcome {
        Ok(value) => Some(value),
        Err(_) => None,
    }
}

/// The receiving end of a conduit, together with the record of what every
/// look into it found, oldest first.
#[verifier::reject_recursive_types(T)]
pub struct Inbox<T> {
    receiver: Receiver<T>,
    found: Ghost<Seq<Option<T>>>,
}

impl<T> Inbox<T> {
    /// The receiving end that this inbox wraps.
    pub closed spec fn conduit(&self) -> Receiver<T> {
        self.receiver
    }

    /// What each look into the conduit found so far, in the order of the
    /// looks: a value, or `None` when nothing was to be had.
    pub closed spec fn found(&self) -> Seq<Option<T>> {
        self.found@
    }

    /// Wraps `receiver`, into which nobody has looked through this inbox.
    pub fn new(receiver: Receiver<T>) -> (inbox: Inbox<T>)
        ensures
            inbox.conduit() == receiver,
            inbox.found() == Seq::<Option<T>>::empty(),
    {
        Inbox { receiver, found: Ghost(Seq::empty()) }
    }

    /// Looks into the conduit once, without blocking, and returns what was
    /// found there; the look is on record whatever it found.
    pub fn look(&mut self) -> (received: Option<T>)
        ensures
            final(self).conduit() == old(self).conduit(),
            final(self).found() == old(self).found().push(received),
    {
        let received = poll(&self.receiver);
        proof {
            self.found@ = self.found@.push(received);
        }
        received
    }
}

} // verus!
