//! Those whom the input loop asks, each with the record of what it answered.
//!
//! The records are kept here, apart from the loop, so that they grow by
//! nothing but the answers themselves.

use crate::turn_timer::turn_timer::{TimerStatus, TurnTimerSubscriberTrait};
use crate::ui::{CommandCollector, MoveCommand};
use vstd::prelude::*;

verus! {

/// A source of the timer's status, together with the record of every status
/// that it answered through this watch, oldest first.
pub struct TimerWatch<U: TurnTimerSubscriberTrait> {
    source: U,
    answered: Ghost<Seq<TimerStatus>>,
}

impl<U: TurnTimerSubscriberTrait> TimerWatch<U> {
    /// The source that is asked.
    pub closed spec fn source(&self) -> U {
        self.source
    }

    /// Every status that the source answered through this watch, in the
    /// order of the calls.
    pub closed spec fn statuses_answered(&self) -> Seq<TimerStatus> {
        self.answered@
    }

    /// Wraps `source`, which has not been asked through this watch.
    pub fn new(source: U) -> (watch: TimerWatch<U>)
        ensures
            watch.source() == source,
            watch.statuses_answered() == Seq::<TimerStatus>::empty(),
    {
        TimerWatch { source, answered: Ghost(Seq::empty()) }
    }

    /// Asks the source once and returns its answer, which goes on record.
    pub fn get_timer_status(&mut self) -> (status: TimerStatus)
        ensures
            final(self).statuses_answered() == old(self).statuses_answered().push(status),
    {
        let status = self.source.get_timer_status();
        proof {
            self.answered@ = self.answered@.push(status);
        }
        status
    }

    /// Gives the source back.
    pub fn into_inner(self) -> (source: U)
        ensures
            source == self.source(),
    {
        self.source
    }
}

/// A command collector, together with the record of every answer that it
/// gave through this feed, oldest first.
pub struct CommandFeed<T: CommandCollector> {
    collector: T,
    given: Ghost<Seq<Result<Option<MoveCommand>, ()>>>,
}

impl<T: CommandCollector> CommandFeed<T> {
    /// The collector that is asked.
    pub closed spec fn collector(&self) -> T {
        self.collector
    }

    /// Every answer that the collector gave through this feed, in the order
    /// of the calls.
    pub closed spec fn answers_given(&self) -> Seq<Result<Option<MoveCommand>, ()>> {
        self.given@
    }

    /// Wraps `collector`, which has not been asked through this feed.
    pub fn new(collector: T) -> (feed: CommandFeed<T>)
        ensures
            feed.collector() == collector,
            feed.answers_given() == Seq::<Result<Option<MoveCommand>, ()>>::empty(),
    {
        CommandFeed { collector, given: Ghost(Seq::empty()) }
    }

    /// Asks the collector once and returns its answer, which goes on record.
    pub fn get_command(&mut self) -> (answer: Result<Option<MoveCommand>, ()>)
        ensures
            final(self).answers_given() == old(self).answers_given().push(answer),
    {
        let answer = self.collector.get_command();
        proof {
            self.given@ = self.given@.push(answer);
        }
        answer
    }

    /// Gives the collector back.
    pub fn into_inner(self) -> (collector: T)
        ensures
            collector == self.collector(),
    {
        self.collector
    }
}

} // verus!
