//! Collecting the player's commands while the turn lasts.

use crate::channel::Outbox;
pub use crate::record::{CommandFeed, TimerWatch};
use crate::turn_timer::turn_timer::{TimerStatus, TurnTimerSubscriberTrait};
use vstd::prelude::*;

verus! {

/// A move the player can ask for.
#[derive(Clone, Copy, Debug, PartialEq, Eq, Structural)]
pub enum MoveCommand {
    Left,
    Down,
    Right,
    Clockwise,
    Anticlockwise,
}

/// A source of the player's commands that never waits long: each call yields
/// a command, `Ok(None)` when none has arrived, or `Err(())` when what arrived
/// is not a command.
pub trait CommandCollector: Sized {
    /// A collector with no input seen yet.
    fn new() -> Self;

    /// The next command, if any.
    fn get_command(&mut self) -> Result<Option<MoveCommand>, ()>;
}

/// Where the input loop stands.
#[derive(Clone, Copy, Debug, PartialEq, Eq, Structural)]
pub enum LoopState {
    /// Still asking the timer and the collector.
    Polling,
    /// Ended because the timer was complete.
    ExitedTimerComplete,
    /// Ended because the collector met input that is no command.
    ExitedInvalidInput,
}

/// What one pass of the input loop met.
#[derive(Clone, Copy, Debug, PartialEq, Eq, Structural)]
pub enum Observation {
    /// The timer was complete; the collector was not asked.
    TimerComplete,
    /// The collector yielded `command` and the loop handed it to the dispatch
    /// conduit, which took it or not.
    Command { command: MoveCommand, delivered: bool },
    /// The collector had nothing.
    NoCommand,
    /// The collector met input that is no command.
    InvalidInput,
}

impl Observation {
    /// Whether the loop ends on meeting this.
    pub open spec fn ends_loop(self) -> bool {
        self is TimerComplete || self is InvalidInput
    }

    /// The commands that this pass handed to the dispatch conduit: one or none.
    pub open spec fn forwards(self) -> Seq<MoveCommand> {
        match self {
            Observation::Command { command, .. } => seq![command],
            _ => Seq::empty(),
        }
    }

    /// The status that the timer answered in this pass.
    pub open spec fn status(self) -> TimerStatus {
        if self is TimerComplete {
            TimerStatus::TimerComplete
        } else {
            TimerStatus::TimerNotComplete
        }
    }

    /// The answers that the collector gave in this pass: none where the
    /// timer was complete, as the collector is not asked then, and else one.
    pub open spec fn answers(self) -> Seq<Result<Option<MoveCommand>, ()>> {
        match self {
            Observation::TimerComplete => Seq::empty(),
            Observation::Command { command, .. } => seq![Ok(Some(command))],
            Observation::NoCommand => seq![Ok(None)],
            Observation::InvalidInput => seq![Err(())],
        }
    }

    /// The same observation had the dispatch conduit taken every command.
    pub open spec fn as_delivered(self) -> Observation {
        match self {
            Observation::Command { command, .. } => Observation::Command { command, delivered: true },
            _ => self,
        }
    }
}

impl LoopState {
    /// Whether the loop has ended.
    pub open spec fn spec_is_terminal(self) -> bool {
        self != LoopState::Polling
    }

    /// The state after one more observation. A loop that has ended stays as
    /// it is, whatever comes.
    pub open spec fn spec_step(self, met: Observation) -> LoopState {
        match self {
            LoopState::Polling => match met {
                Observation::TimerComplete => LoopState::ExitedTimerComplete,
                Observation::InvalidInput => LoopState::ExitedInvalidInput,
                _ => LoopState::Polling,
            },
            _ => self,
        }
    }

    /// Whether the loop has ended.
    #[verifier::when_used_as_spec(spec_is_terminal)]
    pub fn is_terminal(self) -> (ended: bool)
        ensures
            ended == self.spec_is_terminal(),
    {
        match self {
            LoopState::Polling => false,
            _ => true,
        }
    }

    /// The state after one more observation.
    #[verifier::when_used_as_spec(spec_step)]
    pub fn step(self, met: Observation) -> (next: LoopState)
        ensures
            next == self.spec_step(met),
    {
        match self {
            LoopState::Polling => match met {
                Observation::TimerComplete => LoopState::ExitedTimerComplete,
                Observation::InvalidInput => LoopState::ExitedInvalidInput,
                _ => LoopState::Polling,
            },
            _ => self,
        }
    }
}

/// The state that a loop in state `start` reaches by meeting `trace` in order.
pub open spec fn state_after(start: LoopState, trace: Seq<Observation>) -> LoopState
    decreases trace.len(),
{
    if trace.len() == 0 {
        start
    } else {
        state_after(start, trace.drop_last()).spec_step(trace.last())
    }
}

/// The commands handed to the dispatch conduit over `trace`, in order.
pub open spec fn forwarded(trace: Seq<Observation>) -> Seq<MoveCommand>
    decreases trace.len(),
{
    if trace.len() == 0 {
        Seq::empty()
    } else {
        forwarded(trace.drop_last()) + trace.last().forwards()
    }
}

/// The statuses that the timer answered over `trace`, in order: one for
/// each pass.
pub open spec fn statuses_met(trace: Seq<Observation>) -> Seq<TimerStatus> {
    trace.map_values(|met: Observation| met.status())
}

/// The answers that the collector gave over `trace`, in order: one for each
/// pass in which the timer was not complete.
pub open spec fn answers_met(trace: Seq<Observation>) -> Seq<Result<Option<MoveCommand>, ()>>
    decreases trace.len(),
{
    if trace.len() == 0 {
        Seq::empty()
    } else {
        answers_met(trace.drop_last()) + trace.last().answers()
    }
}

/// The commands among `answers`, in order.
pub open spec fn commands_in(answers: Seq<Result<Option<MoveCommand>, ()>>) -> Seq<MoveCommand>
    decreases answers.len(),
{
    if answers.len() == 0 {
        Seq::empty()
    } else {
        commands_in(answers.drop_last()) + match answers.last() {
            Ok(Some(command)) => seq![command],
            _ => Seq::empty(),
        }
    }
}

/// For each command handed to the dispatch conduit over `trace`, in order,
/// whether the conduit took it.
pub open spec fn deliveries(trace: Seq<Observation>) -> Seq<bool>
    decreases trace.len(),
{
    if trace.len() == 0 {
        Seq::empty()
    } else {
        deliveries(trace.drop_last()) + match trace.last() {
            Observation::Command { delivered, .. } => seq![delivered],
            _ => Seq::empty(),
        }
    }
}

/// How many of `outcomes` are failures.
pub open spec fn failures(outcomes: Seq<bool>) -> nat
    decreases outcomes.len(),
{
    if outcomes.len() == 0 {
        0
    } else {
        failures(outcomes.drop_last()) + if outcomes.last() {
            0nat
        } else {
            1nat
        }
    }
}

/// How many commands of `trace` the dispatch conduit did not take.
pub open spec fn refused(trace: Seq<Observation>) -> nat
    decreases trace.len(),
{
    if trace.len() == 0 {
        0
    } else {
        refused(trace.drop_last()) + if trace.last() matches Observation::Command {
            delivered: false,
            ..
        } {
            1nat
        } else {
            0nat
        }
    }
}

/// Whether nothing in `trace` follows an observation that ends the loop.
pub open spec fn stops_at_end(trace: Seq<Observation>) -> bool {
    forall|i: int| 0 <= i < trace.len() - 1 ==> !(#[trigger] trace[i]).ends_loop()
}

/// What a run of the input loop did.
pub struct LoopReport {
    /// Where the loop stood when it returned.
    pub state: LoopState,
    /// How many passes it made.
    pub polls: u64,
    /// How many commands it handed to the dispatch conduit.
    pub forwarded: u64,
    /// How many of those the conduit did not take.
    pub undelivered: u64,
    /// What each pass met, in order.
    pub trace: Ghost<Seq<Observation>>,
}

/// Collects the player's commands until the turn is over.
///
/// Each pass first asks `turn_timer_subscriber` for the timer's status. If
/// the timer is complete the loop ends at once, without asking the collector.
/// Otherwise it asks `command_collector` once: a command is handed to
/// `command_dispatcher`, and the loop goes on whether or not the conduit took
/// it; no command means another pass; input that is no command ends the loop.
/// Nothing is asked or sent but this, so the three records grow by exactly
/// what the passes met.
///
/// The loop makes at most `max_polls` passes. It returns in state `Polling`
/// only when it has made them all without meeting an end, so that a caller who
/// wants to wait for as long as it takes calls again with the same arguments.
pub fn run_user_input_loop<T: CommandCollector, U: TurnTimerSubscriberTrait>(
    turn_timer_subscriber: &mut TimerWatch<U>,
    command_dispatcher: &mut Outbox<MoveCommand>,
    command_collector: &mut CommandFeed<T>,
    max_polls: u64,
) -> (report: LoopReport)
    ensures
        report.polls == report.trace@.len(),
        report.polls <= max_polls,
        stops_at_end(report.trace@),
        report.state == state_after(LoopState::Polling, report.trace@),
        report.state is Polling ==> report.polls == max_polls,
        final(turn_timer_subscriber).statuses_answered() == old(turn_timer_subscriber).statuses_answered() + statuses_met(report.trace@),
        final(command_collector).answers_given() == old(command_collector).answers_given()
            + answers_met(report.trace@),
        final(command_dispatcher).conduit() == old(command_dispatcher).conduit(),
        final(command_dispatcher).handed() == old(command_dispatcher).handed() + forwarded(
            report.trace@,
        ),
        final(command_dispatcher).outcomes() == old(command_dispatcher).outcomes() + deliveries(
            report.trace@,
        ),
        report.forwarded == forwarded(report.trace@).len(),
        report.undelivered == refused(report.trace@),
{
    let mut state = LoopState::Polling;
    let mut polls: u64 = 0;
    let mut forwarded_count: u64 = 0;
    let mut undelivered: u64 = 0;
    let ghost mut trace: Seq<Observation> = Seq::empty();
    proof {
        assert(turn_timer_subscriber.statuses_answered() =~= old(turn_timer_subscriber).statuses_answered() + statuses_met(trace));
        assert(command_collector.answers_given() =~= old(command_collector).answers_given()
            + answers_met(trace));
        assert(command_dispatcher.outcomes() =~= old(command_dispatcher).outcomes() + deliveries(
            trace,
        ));
    }
    while polls < max_polls && !state.is_terminal()
        invariant
            polls == trace.len(),
            polls <= max_polls,
            stops_at_end(trace),
            state is Polling ==> forall|i: int|
                0 <= i < trace.len() ==> !(#[trigger] trace[i]).ends_loop(),
            state == state_after(LoopState::Polling, trace),
            turn_timer_subscriber.statuses_answered() == old(turn_timer_subscriber).statuses_answered() + statuses_met(trace),
            command_collector.answers_given() == old(command_collector).answers_given()
                + answers_met(trace),
            command_dispatcher.conduit() == old(command_dispatcher).conduit(),
            command_dispatcher.handed() == old(command_dispatcher).handed() + forwarded(trace),
            command_dispatcher.outcomes() == old(command_dispatcher).outcomes() + deliveries(
                trace,
            ),
            forwarded_count == forwarded(trace).len(),
            undelivered == refused(trace),
            undelivered <= forwarded_count <= polls,
        decreases max_polls - polls,
    {
        let met = match turn_timer_subscriber.get_timer_status() {
            TimerStatus::TimerComplete => Observation::TimerComplete,
            TimerStatus::TimerNotComplete => match command_collector.get_command() {
                Ok(Some(command)) => {
                    let delivered = command_dispatcher.send(command);
                    forwarded_count = forwarded_count + 1;
                    if !delivered {
                        undelivered = undelivered + 1;
                    }
                    Observation::Command { command, delivered }
                },
                Ok(None) => Observation::NoCommand,
                Err(unit) => {
                    assert(unit == ());
                    Observation::InvalidInput
                },
            },
        };
        state = state.step(met);
        proof {
            assert(trace.push(met).drop_last() =~= trace);
            assert(statuses_met(trace.push(met)) =~= statuses_met(trace).push(met.status()));
            trace = trace.push(met);
        }
        polls = polls + 1;
    }
    LoopReport { state, polls, forwarded: forwarded_count, undelivered, trace: Ghost(trace) }
}

/// A loop that has ended never polls again: whatever is put before it
/// afterwards, it stays in the state in which it ended.
pub proof fn lemma_exit_is_final(state: LoopState, trace: Seq<Observation>)
    requires
        state.spec_is_terminal(),
    ensures
        state_after(state, trace) == state,
    decreases trace.len(),
{
    if trace.len() > 0 {
        lemma_exit_is_final(state, trace.drop_last());
    }
}

/// A loop keeps polling for as long as nothing that it meets ends it.
pub proof fn lemma_polling_until_an_end(trace: Seq<Observation>)
    requires
        forall|i: int| 0 <= i < trace.len() ==> !(#[trigger] trace[i]).ends_loop(),
    ensures
        state_after(LoopState::Polling, trace) is Polling,
    decreases trace.len(),
{
    if trace.len() > 0 {
        lemma_polling_until_an_end(trace.drop_last());
    }
}

/// A loop ends in exactly one of the two terminal states, and the first
/// observation that ends it decides which: a complete timer gives
/// `ExitedTimerComplete`, input that is no command gives `ExitedInvalidInput`.
pub proof fn lemma_first_end_decides(trace: Seq<Observation>, first: int)
    requires
        0 <= first < trace.len(),
        trace[first].ends_loop(),
        forall|i: int| 0 <= i < first ==> !(#[trigger] trace[i]).ends_loop(),
    ensures
        trace[first] is TimerComplete ==> state_after(LoopState::Polling, trace)
            is ExitedTimerComplete,
        trace[first] is InvalidInput ==> state_after(LoopState::Polling, trace)
            is ExitedInvalidInput,
    decreases trace.len(),
{
    if first == trace.len() - 1 {
        lemma_polling_until_an_end(trace.drop_last());
    } else {
        lemma_first_end_decides(trace.drop_last(), first);
    }
}

/// What is forwarded over two stretches of a run is what is forwarded over
/// the first, followed by what is forwarded over the second.
pub proof fn lemma_forwarded_concat(first: Seq<Observation>, second: Seq<Observation>)
    ensures
        forwarded(first + second) == forwarded(first) + forwarded(second),
    decreases second.len(),
{
    if second.len() == 0 {
        assert(first + second =~= first);
    } else {
        lemma_forwarded_concat(first, second.drop_last());
        assert((first + second).drop_last() =~= first + second.drop_last());
    }
}

/// Every command that the collector yields is forwarded exactly once, in its
/// place: after all that was forwarded before it and before all that is
/// forwarded after it, whether or not the dispatch conduit took it.
pub proof fn lemma_each_command_forwarded_once_in_order(
    before: Seq<Observation>,
    command: MoveCommand,
    delivered: bool,
    after: Seq<Observation>,
)
    ensures
        forwarded(before + seq![Observation::Command { command, delivered }] + after) == forwarded(
            before,
        ) + seq![command] + forwarded(after),
{
    let met = seq![Observation::Command { command, delivered }];
    lemma_forwarded_concat(before + met, after);
    lemma_forwarded_concat(before, met);
    assert(forwarded(met) =~= seq![command]) by {
        reveal_with_fuel(forwarded, 2);
        assert(met.drop_last() =~= Seq::<Observation>::empty());
    }
}

/// Only commands are forwarded: a stretch of a run without a command adds
/// nothing to the dispatch conduit.
pub proof fn lemma_nothing_else_forwarded(trace: Seq<Observation>)
    requires
        forall|i: int| 0 <= i < trace.len() ==> !((#[trigger] trace[i]) is Command),
    ensures
        forwarded(trace) == Seq::<MoveCommand>::empty(),
    decreases trace.len(),
{
    if trace.len() > 0 {
        lemma_nothing_else_forwarded(trace.drop_last());
    }
}

/// What is forwarded is what the collector answered: every command among its
/// answers, once and in the order of the answers, and nothing else.
pub proof fn lemma_forwarded_are_the_commands_answered(trace: Seq<Observation>)
    ensures
        forwarded(trace) == commands_in(answers_met(trace)),
    decreases trace.len(),
{
    if trace.len() > 0 {
        let before = trace.drop_last();
        lemma_forwarded_are_the_commands_answered(before);
        if trace.last() is TimerComplete {
            assert(answers_met(trace) =~= answers_met(before));
            assert(forwarded(trace) =~= forwarded(before));
        } else {
            let answer = trace.last().answers()[0];
            assert(trace.last().answers() =~= seq![answer]);
            assert(answers_met(trace) =~= answers_met(before).push(answer));
            assert(answers_met(trace).drop_last() =~= answers_met(before));
        }
    }
}

/// In a run of the loop every pass asks the timer once, and every pass but
/// one that finds the timer complete asks the collector once, after the
/// timer: the answer of pass `i` is the `i`-th answer given.
pub proof fn lemma_one_answer_for_each_pass(trace: Seq<Observation>)
    requires
        stops_at_end(trace),
    ensures
        statuses_met(trace).len() == trace.len(),
        trace.len() > 0 && trace.last() is TimerComplete ==> answers_met(trace).len()
            == trace.len() - 1,
        !(trace.len() > 0 && trace.last() is TimerComplete) ==> answers_met(trace).len()
            == trace.len(),
        forall|i: int|
            0 <= i < answers_met(trace).len() ==> (#[trigger] trace[i]).answers()
                == seq![answers_met(trace)[i]],
    decreases trace.len(),
{
    if trace.len() > 0 {
        let before = trace.drop_last();
        assert(stops_at_end(before)) by {
            assert forall|i: int| 0 <= i < before.len() - 1 implies !(
            #[trigger] before[i]).ends_loop() by {
                assert(before[i] == trace[i]);
            }
        }
        lemma_one_answer_for_each_pass(before);
        if before.len() > 0 {
            assert(!trace[before.len() - 1].ends_loop());
            assert(before.last() == trace[before.len() - 1]);
        }
        assert(answers_met(before).len() == before.len());
        assert forall|i: int| 0 <= i < answers_met(trace).len() implies (
        #[trigger] trace[i]).answers() == seq![answers_met(trace)[i]] by {
            if i < before.len() {
                assert(trace[i] == before[i]);
                assert(answers_met(trace)[i] == answers_met(before)[i]);
            } else {
                assert(trace[i] == trace.last());
                assert(trace.last().answers().len() == 1);
                assert(trace.last().answers() =~= seq![answers_met(trace)[i]]);
            }
        }
    }
}

/// How a run of the loop stands is decided by the last thing it was told,
/// and by nothing before it: every status before the last was
/// `TimerNotComplete` and every answer before the last pass was `Ok`;
/// the loop has ended by a complete timer exactly when the last status was
/// `TimerComplete`, and by invalid input exactly when the last pass asked the
/// collector and was answered `Err`.
pub proof fn lemma_end_follows_last_answer(trace: Seq<Observation>)
    requires
        stops_at_end(trace),
    ensures
        forall|i: int|
            0 <= i < trace.len() - 1 ==> (#[trigger] statuses_met(trace)[i]) is TimerNotComplete,
        forall|i: int| 0 <= i < trace.len() - 1 ==> (#[trigger] answers_met(trace)[i]) is Ok,
        state_after(LoopState::Polling, trace) is ExitedTimerComplete <==> trace.len() > 0
            && statuses_met(trace).last() is TimerComplete,
        state_after(LoopState::Polling, trace) is ExitedInvalidInput <==> trace.len() > 0
            && answers_met(trace).len() == trace.len() && answers_met(trace).last() is Err,
{
    lemma_one_answer_for_each_pass(trace);
    assert forall|i: int| 0 <= i < trace.len() - 1 implies (#[trigger] answers_met(trace)[i])
        is Ok by {
        assert(!trace[i].ends_loop());
        assert(trace[i].answers() == seq![answers_met(trace)[i]]);
        assert(trace[i].answers()[0] == answers_met(trace)[i]);
    }
    assert forall|i: int| 0 <= i < trace.len() - 1 implies (#[trigger] statuses_met(trace)[i])
        is TimerNotComplete by {
        assert(!trace[i].ends_loop());
    }
    if trace.len() > 0 {
        let last = trace.len() - 1;
        if trace[last].ends_loop() {
            lemma_first_end_decides(trace, last);
        } else {
            lemma_polling_until_an_end(trace);
        }
        if answers_met(trace).len() == trace.len() {
            assert(trace[last].answers() == seq![answers_met(trace)[last]]);
            assert(trace[last].answers()[0] == answers_met(trace)[last]);
        }
    }
}

/// Every command that is forwarded has one outcome on record, and the
/// commands that the conduit did not take are the failures among them.
pub proof fn lemma_one_outcome_for_each_command(trace: Seq<Observation>)
    ensures
        deliveries(trace).len() == forwarded(trace).len(),
        refused(trace) == failures(deliveries(trace)),
    decreases trace.len(),
{
    if trace.len() > 0 {
        let before = trace.drop_last();
        lemma_one_outcome_for_each_command(before);
        match trace.last() {
            Observation::Command { delivered, .. } => {
                assert(deliveries(trace) =~= deliveries(before).push(delivered));
                assert(deliveries(trace).drop_last() =~= deliveries(before));
            },
            _ => {
                assert(deliveries(trace) =~= deliveries(before));
            },
        }
    }
}

/// A run that has ended has ended in exactly one of two ways. Either the
/// last thing it was told is a status of `TimerComplete`, and then the
/// collector never answered `Err`; or the last thing it was told is an answer
/// of `Err`, and then the timer never answered `TimerComplete`.
pub proof fn lemma_ended_run_has_exactly_one_end(trace: Seq<Observation>)
    requires
        stops_at_end(trace),
        state_after(LoopState::Polling, trace).spec_is_terminal(),
    ensures
        trace.len() > 0,
        state_after(LoopState::Polling, trace) is ExitedTimerComplete <==> !(state_after(LoopState::Polling, trace) is ExitedInvalidInput),
        state_after(LoopState::Polling, trace) is ExitedTimerComplete ==> {
            &&& statuses_met(trace).last() is TimerComplete
            &&& answers_met(trace).len() == trace.len() - 1
            &&& forall|i: int|
                0 <= i < answers_met(trace).len() ==> (#[trigger] answers_met(trace)[i]) is Ok
        },
        state_after(LoopState::Polling, trace) is ExitedInvalidInput ==> {
            &&& answers_met(trace).len() == trace.len()
            &&& answers_met(trace).last() is Err
            &&& forall|i: int|
                0 <= i < statuses_met(trace).len() ==> (#[trigger] statuses_met(trace)[i])
                    is TimerNotComplete
        },
{
    lemma_end_follows_last_answer(trace);
    lemma_one_answer_for_each_pass(trace);
    if trace.len() == 0 {
        assert(state_after(LoopState::Polling, trace) is Polling);
    } else if state_after(LoopState::Polling, trace) is ExitedInvalidInput {
        let last = trace.len() - 1;
        assert(trace[last].answers() == seq![answers_met(trace)[last]]);
        assert(trace[last].answers()[0] == answers_met(trace)[last]);
        assert(statuses_met(trace)[last] is TimerNotComplete);
    }
}

/// A dispatch conduit that does not take a command never ends the loop: the
/// loop stands where it would stand had every command been taken, after the
/// same questions and the same answers, with the same commands forwarded.
pub proof fn lemma_send_failure_never_ends_loop(start: LoopState, trace: Seq<Observation>)
    ensures
        state_after(start, trace) == state_after(
            start,
            trace.map_values(|met: Observation| met.as_delivered()),
        ),
        forwarded(trace) == forwarded(trace.map_values(|met: Observation| met.as_delivered())),
        statuses_met(trace) == statuses_met(
            trace.map_values(|met: Observation| met.as_delivered()),
        ),
        answers_met(trace) == answers_met(trace.map_values(|met: Observation| met.as_delivered())),
    decreases trace.len(),
{
    let taken = trace.map_values(|met: Observation| met.as_delivered());
    assert(statuses_met(trace) =~= statuses_met(taken));
    if trace.len() > 0 {
        lemma_send_failure_never_ends_loop(start, trace.drop_last());
        assert(taken.drop_last() =~= trace.drop_last().map_values(
            |met: Observation| met.as_delivered(),
        ));
    }
}

/// What the terminal reports of a key that was pressed, as far as the
/// commands depend on it.
#[derive(Clone, Copy, Debug, PartialEq, Eq, Structural)]
pub enum Key {
    /// The left arrow.
    Left,
    /// The right arrow.
    Right,
    /// The down arrow.
    Down,
    /// A character key.
    Char(char),
    /// Any other key.
    Other,
}

/// What the terminal reports.
#[derive(Clone, Copy, Debug, PartialEq, Eq, Structural)]
pub enum TerminalEvent {
    /// A key was pressed.
    Key(Key),
    /// Anything else: the mouse, a resize, a change of focus.
    Other,
}

/// How long, in milliseconds, a terminal-backed collector waits for an event
/// before it answers that there is no command.
pub const POLL_INTERVAL_MILLIS: u64 = 100;

/// The command that `key` stands for, if any: the arrows move, `z` turns
/// anticlockwise and `x` clockwise.
pub open spec fn command_for_key(key: Key) -> Option<MoveCommand> {
    match key {
        Key::Left => Some(MoveCommand::Left),
        Key::Right => Some(MoveCommand::Right),
        Key::Down => Some(MoveCommand::Down),
        Key::Char(c) => if c == 'z' {
            Some(MoveCommand::Anticlockwise)
        } else if c == 'x' {
            Some(MoveCommand::Clockwise)
        } else {
            None
        },
        Key::Other => None,
    }
}

/// What a collector answers when the terminal reported `event` within the
/// wait, or nothing if `event` is `None`: no event is no command, a key that
/// stands for a command is that command, and all else is an error.
pub open spec fn answer_for_event(event: Option<TerminalEvent>) -> Result<Option<MoveCommand>, ()> {
    match event {
        None => Ok(None),
        Some(TerminalEvent::Key(key)) => match command_for_key(key) {
            Some(command) => Ok(Some(command)),
            None => Err(()),
        },
        Some(TerminalEvent::Other) => Err(()),
    }
}

/// The reading of terminal events as commands.
pub struct CliCommandCollector {}

impl CliCommandCollector {
    /// A collector for the terminal.
    pub fn new() -> (collector: CliCommandCollector) {
        CliCommandCollector {  }
    }

    /// The answer to one call for a command, given what the terminal
    /// reported within the wait.
    pub fn interpret(&self, event: Option<TerminalEvent>) -> (answer: Result<
        Option<MoveCommand>,
        (),
    >)
        ensures
            answer == answer_for_event(event),
    {
        match event {
            None => Ok(None),
            Some(TerminalEvent::Key(key)) => match key {
                Key::Down => Ok(Some(MoveCommand::Down)),
                Key::Left => Ok(Some(MoveCommand::Left)),
                Key::Right => Ok(Some(MoveCommand::Right)),
                Key::Char('z') => Ok(Some(MoveCommand::Anticlockwise)),
                Key::Char('x') => Ok(Some(MoveCommand::Clockwise)),
                _ => Err(()),
            },
            Some(TerminalEvent::Other) => Err(()),
        }
    }
}

} // verus!
