//! The worker protocol: one engine driven by a loop that receives commands,
//! reads a clock and sleeps on the worker's behalf.
//!
//! The worker decides; the loop acts. After every signal the worker says what
//! it needs next (`Request`) and hands out the event to emit, if any. The loop
//! performs the request and comes back with the matching `Signal`:
//!
//! | request     | the loop does                         | and answers with            |
//! |-------------|---------------------------------------|-----------------------------|
//! | `Poll`      | a receive that does not block         | `Command`, `Empty`, `Closed` |
//! | `ReadClock` | reads a monotonic clock               | `Clock`                     |
//! | `Sleep`     | sleeps for the given time             | `Slept`                     |
//! | `Wait`      | a receive that blocks                 | `Command`, `Closed`         |
//! | `Exit`      | leaves the loop                       | nothing                     |
//!
//! One cycle of the worker fixes the step interval from the tempo, drains the
//! queued commands, and then either fires a step that is due, sleeps briefly
//! until one is, or, while stopped, waits for the next command.

use vstd::prelude::*;
use crate::sequencer::engine::{
    emitted_view, CommandView, EngineState, EventView, SequencerCommand, SequencerEngine,
    SequencerEvent,
};

verus! {

/// How long the worker sleeps when it is playing and no step is due yet, in
/// milliseconds.
pub const IDLE_SLEEP_MS: u64 = 1;

/// Nanoseconds in one millisecond.
pub const NANOS_PER_MILLI: u128 = 1_000_000;

/// What the loop must do next.
#[derive(Debug, Clone, Copy, PartialEq, Eq, Structural)]
pub enum Request {
    /// Try to receive a command without blocking.
    Poll,
    /// Read the clock.
    ReadClock,
    /// Sleep for `millis` milliseconds.
    Sleep { millis: u64 },
    /// Block until a command arrives.
    Wait,
    /// Leave the loop: the command source is closed.
    Exit,
}

/// What the loop reports back.
#[derive(Debug, PartialEq, Eq)]
pub enum Signal {
    /// A command was received.
    Command(SequencerCommand),
    /// No command is queued.
    Empty,
    /// The clock reads `nanos` nanoseconds since the worker was started.
    Clock { nanos: u128 },
    /// The sleep is over.
    Slept,
    /// The command source is closed for good.
    Closed,
}

/// The worker's answer to a signal.
#[derive(Debug, PartialEq, Eq)]
pub struct Reaction {
    /// The event to emit, if the signal gave rise to one.
    pub event: Option<SequencerEvent>,
    /// What the loop must do next.
    pub next: Request,
}

/// A signal as a mathematical value.
pub enum SignalView {
    Command(CommandView),
    Empty,
    Clock { nanos: nat },
    Slept,
    Closed,
}

impl View for Signal {
    type V = SignalView;

    open spec fn view(&self) -> SignalView {
        match self {
            Signal::Command(command) => SignalView::Command(command@),
            Signal::Empty => SignalView::Empty,
            Signal::Clock { nanos } => SignalView::Clock { nanos: *nanos as nat },
            Signal::Slept => SignalView::Slept,
            Signal::Closed => SignalView::Closed,
        }
    }
}

/// The views of a sequence of signals, in order.
pub open spec fn signals_view(signals: Seq<Signal>) -> Seq<SignalView> {
    Seq::new(signals.len(), |i: int| signals[i]@)
}

/// The views of a sequence of events, in order.
pub open spec fn events_view(events: Seq<SequencerEvent>) -> Seq<EventView> {
    Seq::new(events.len(), |i: int| events[i]@)
}

/// The worker as a mathematical value.
pub struct WorkerState {
    /// The engine that the worker owns.
    pub engine: EngineState,
    /// The step interval of the current cycle, in milliseconds.
    pub interval_ms: int,
    /// The clock reading at which the last step fired, in nanoseconds.
    pub last_advance: nat,
    /// The request that the loop is carrying out.
    pub pending: Request,
}

impl WorkerState {
    /// A worker that has just taken over an engine: the clock starts at zero
    /// and the first cycle begins.
    pub open spec fn start(engine: EngineState) -> WorkerState {
        WorkerState { engine, interval_ms: 0, last_advance: 0, pending: Request::Poll }.begin_cycle()
    }

    /// The top of a cycle: the step interval is taken from the tempo as it is
    /// now, and the queued commands are drained next.
    pub open spec fn begin_cycle(self) -> WorkerState {
        WorkerState {
            interval_ms: self.engine.interval_ms(),
            pending: Request::Poll,
            ..self
        }
    }

    /// Nanoseconds between the last step and the clock reading `now`; none if
    /// the clock reads earlier than it did then.
    pub open spec fn elapsed(self, now: nat) -> nat {
        if now >= self.last_advance {
            (now - self.last_advance) as nat
        } else {
            0
        }
    }

    /// At clock reading `now` a full step interval has passed since the last
    /// step, and the cycle has a step to fire.
    pub open spec fn step_due(self, now: nat) -> bool {
        self.engine.steps > 0 && self.elapsed(now) >= self.interval_ms * NANOS_PER_MILLI
    }

    /// The signal is one that answers the pending request.
    pub open spec fn answered_by(self, signal: SignalView) -> bool {
        match self.pending {
            Request::Poll => signal is Command || signal is Empty || signal is Closed,
            Request::ReadClock => signal is Clock,
            Request::Sleep { .. } => signal is Slept,
            Request::Wait => signal is Command || signal is Closed,
            Request::Exit => false,
        }
    }

    /// The worker after a signal. A signal that does not answer the pending
    /// request is ignored: the request stays pending.
    pub open spec fn after(self, signal: SignalView) -> WorkerState {
        match (self.pending, signal) {
            (Request::Poll, SignalView::Command(command)) => WorkerState {
                engine: self.engine.apply(command),
                ..self
            },
            (Request::Poll, SignalView::Empty) => WorkerState {
                pending: if self.engine.playing {
                    Request::ReadClock
                } else {
                    Request::Wait
                },
                ..self
            },
            (Request::Poll, SignalView::Closed) => WorkerState { pending: Request::Exit, ..self },
            (Request::ReadClock, SignalView::Clock { nanos }) => if self.step_due(nanos) {
                WorkerState {
                    engine: self.engine.advanced(),
                    last_advance: nanos,
                    ..self
                }.begin_cycle()
            } else {
                WorkerState { pending: Request::Sleep { millis: IDLE_SLEEP_MS }, ..self }
            },
            (Request::Sleep { .. }, SignalView::Slept) => self.begin_cycle(),
            (Request::Wait, SignalView::Command(command)) => WorkerState {
                engine: self.engine.apply(command),
                ..self
            }.begin_cycle(),
            (Request::Wait, SignalView::Closed) => WorkerState { pending: Request::Exit, ..self },
            _ => self,
        }
    }

    /// The event that a signal gives rise to, if any: the event of a command
    /// that was received, or the step that a clock reading found due.
    pub open spec fn event(self, signal: SignalView) -> Option<EventView> {
        match (self.pending, signal) {
            (Request::Poll, SignalView::Command(command)) => self.engine.emitted(command),
            (Request::Wait, SignalView::Command(command)) => self.engine.emitted(command),
            (Request::ReadClock, SignalView::Clock { nanos }) => if self.step_due(nanos) {
                self.engine.step_event()
            } else {
                None
            },
            _ => None,
        }
    }

    /// The worker after a whole sequence of signals, taken in order.
    pub open spec fn after_all(self, signals: Seq<SignalView>) -> WorkerState
        decreases signals.len(),
    {
        if signals.len() == 0 {
            self
        } else {
            self.after_all(signals.drop_last()).after(signals.last())
        }
    }

    /// The events that a sequence of signals gives rise to, in the order in
    /// which they arise.
    pub open spec fn events_of(self, signals: Seq<SignalView>) -> Seq<EventView>
        decreases signals.len(),
    {
        if signals.len() == 0 {
            Seq::empty()
        } else {
            let earlier = self.events_of(signals.drop_last());
            match self.after_all(signals.drop_last()).event(signals.last()) {
                Some(event) => earlier.push(event),
                None => earlier,
            }
        }
    }

    /// The pending request fits the transport: the worker reads the clock or
    /// sleeps only while playing, and waits only while stopped.
    pub open spec fn consistent(self) -> bool {
        match self.pending {
            Request::ReadClock => self.engine.playing,
            Request::Sleep { .. } => self.engine.playing,
            Request::Wait => !self.engine.playing,
            _ => true,
        }
    }
}

/// A worker that has just started is consistent and asks for a poll.
pub proof fn lemma_start_consistent(engine: EngineState)
    ensures
        WorkerState::start(engine).consistent(),
        WorkerState::start(engine).pending == Request::Poll,
        WorkerState::start(engine).engine == engine,
        WorkerState::start(engine).interval_ms == engine.interval_ms(),
{
}

/// No signal makes a consistent worker inconsistent.
pub proof fn lemma_stays_consistent(worker: WorkerState, signal: SignalView)
    requires
        worker.consistent(),
    ensures
        worker.after(signal).consistent(),
{
}

/// A step fires only while the transport is playing, only in answer to a
/// clock reading, and only when a full step interval has passed since the last
/// step. When it fires, the interval starts anew at that clock reading.
pub proof fn lemma_steps_fire_on_time(worker: WorkerState, signal: SignalView)
    requires
        worker.consistent(),
        worker.event(signal) matches Some(event) && event is Step,
    ensures
        worker.engine.playing,
        worker.pending == Request::ReadClock,
        signal matches SignalView::Clock { nanos } && worker.elapsed(nanos) >= worker.interval_ms
            * NANOS_PER_MILLI && worker.after(signal).last_advance == nanos,
        worker.event(signal) == worker.engine.step_event(),
        worker.after(signal).engine == worker.engine.advanced(),
{
}

/// A command that arrives while the worker polls or waits is applied at once,
/// by the engine's own rule, and its event is handed out with it. Control is
/// never starved by playback.
pub proof fn lemma_commands_are_applied(worker: WorkerState, command: CommandView)
    requires
        worker.pending == Request::Poll || worker.pending == Request::Wait,
    ensures
        worker.after(SignalView::Command(command)).engine == worker.engine.apply(command),
        worker.event(SignalView::Command(command)) == worker.engine.emitted(command),
        worker.after(SignalView::Command(command)).pending == Request::Poll,
{
}

/// The worker changes the engine in two ways only: by applying a command it
/// was handed, or by one advance.
pub proof fn lemma_engine_changes_by_rule(worker: WorkerState, signal: SignalView)
    ensures
        worker.after(signal).engine == worker.engine
            || (signal matches SignalView::Command(command) && worker.after(signal).engine
            == worker.engine.apply(command))
            || worker.after(signal).engine == worker.engine.advanced(),
{
}

/// Every cycle starts with the step interval of the tempo as it is then, so a
/// tempo change takes effect on the next cycle.
pub proof fn lemma_cycle_takes_current_tempo(worker: WorkerState, signal: SignalView)
    requires
        worker.pending != Request::Poll,
        worker.after(signal).pending == Request::Poll,
    ensures
        worker.after(signal).interval_ms == worker.after(signal).engine.interval_ms(),
{
}

/// The worker leaves only when the command source is closed, and then for
/// good: once it has asked to exit, no signal changes it or yields an event.
pub proof fn lemma_exit_on_close_only(worker: WorkerState, signal: SignalView)
    ensures
        worker.pending != Request::Exit && worker.after(signal).pending == Request::Exit
            ==> signal is Closed,
        signal is Closed && (worker.pending == Request::Poll || worker.pending == Request::Wait)
            ==> worker.after(signal).pending == Request::Exit,
        worker.pending == Request::Exit ==> worker.after(signal) == worker && worker.event(signal)
            is None,
{
}

/// A clock reading that finds a step due fires exactly that step: one `Step`
/// event, one advance, and the next cycle begins.
pub proof fn lemma_due_step_fires(worker: WorkerState, nanos: nat)
    requires
        worker.pending == Request::ReadClock,
        worker.step_due(nanos),
    ensures
        worker.event(SignalView::Clock { nanos }) == worker.engine.step_event(),
        worker.event(SignalView::Clock { nanos }) matches Some(event) && event is Step,
        worker.after(SignalView::Clock { nanos }).engine == worker.engine.advanced(),
        worker.after(SignalView::Clock { nanos }).last_advance == nanos,
        worker.after(SignalView::Clock { nanos }).pending == Request::Poll,
{
}

/// Some event before the `upto`-th says that playback has started.
pub open spec fn play_announced(events: Seq<EventView>, upto: int) -> bool {
    exists|i: int| 0 <= i < upto && i < events.len() && #[trigger] events[i] == EventView::PlaybackState(true)
}

/// What holds after every sequence of signals, from a stopped worker on.
proof fn lemma_announced_along(worker: WorkerState, signals: Seq<SignalView>)
    requires
        worker.consistent(),
        !worker.engine.playing,
    ensures
        worker.after_all(signals).consistent(),
        worker.after_all(signals).engine.playing ==> play_announced(
            worker.events_of(signals),
            worker.events_of(signals).len() as int,
        ),
        forall|j: int|
            0 <= j < worker.events_of(signals).len() && (#[trigger] worker.events_of(signals)[j])
                is Step ==> play_announced(worker.events_of(signals), j),
    decreases signals.len(),
{
    if signals.len() > 0 {
        let head = signals.drop_last();
        let last = signals.last();
        lemma_announced_along(worker, head);
        let before = worker.after_all(head);
        let earlier = worker.events_of(head);
        let events = worker.events_of(signals);
        lemma_stays_consistent(before, last);
        assert forall|j: int| 0 <= j < earlier.len() implies events[j] == earlier[j] by {}
        assert forall|n: int| play_announced(earlier, n) implies play_announced(events, n) by {
            let i = choose|i: int|
                0 <= i < n && i < earlier.len() && #[trigger] earlier[i]
                    == EventView::PlaybackState(true);
            assert(events[i] == EventView::PlaybackState(true));
        }
        match before.event(last) {
            Some(event) => {
                assert(events[earlier.len() as int] == event);
                if event == EventView::PlaybackState(true) {
                    assert(play_announced(events, events.len() as int));
                }
                if event is Step {
                    lemma_steps_fire_on_time(before, last);
                    assert(play_announced(earlier, earlier.len() as int));
                }
            },
            None => {},
        }
    }
}

/// Playback is announced before it is heard: whatever signals a stopped
/// worker is given, every `Step` event among those it emits comes after a
/// `PlaybackState(true)` event.
pub proof fn lemma_play_announced_before_step(
    worker: WorkerState,
    signals: Seq<SignalView>,
    j: int,
)
    requires
        worker.consistent(),
        !worker.engine.playing,
        0 <= j < worker.events_of(signals).len(),
        worker.events_of(signals)[j] is Step,
    ensures
        exists|i: int|
            0 <= i < j && #[trigger] worker.events_of(signals)[i] == EventView::PlaybackState(true),
{
    lemma_announced_along(worker, signals);
    let events = worker.events_of(signals);
    assert(play_announced(events, j));
    let i = choose|i: int|
        0 <= i < j && i < events.len() && #[trigger] events[i] == EventView::PlaybackState(true);
    assert(events[i] == EventView::PlaybackState(true));
}

/// The tempo stays in the accepted range whatever signals the worker is given.
pub proof fn lemma_tempo_in_range_along(worker: WorkerState, signals: Seq<SignalView>)
    requires
        worker.engine.tempo_in_range(),
    ensures
        worker.after_all(signals).engine.tempo_in_range(),
    decreases signals.len(),
{
    if signals.len() > 0 {
        lemma_tempo_in_range_along(worker, signals.drop_last());
        let before = worker.after_all(signals.drop_last());
        lemma_engine_changes_by_rule(before, signals.last());
    }
}

/// A signal that does not answer the pending request is ignored.
pub proof fn lemma_stray_signal_ignored(worker: WorkerState, signal: SignalView)
    requires
        !worker.answered_by(signal),
    ensures
        worker.after(signal) == worker,
        worker.event(signal) is None,
{
}

/// The worker: an engine together with the state of the loop around it.
pub struct Worker {
    engine: SequencerEngine,
    interval_ms: u64,
    last_advance: u128,
    pending: Request,
}

impl View for Worker {
    type V = WorkerState;

    closed spec fn view(&self) -> WorkerState {
        WorkerState {
            engine: self.engine@,
            interval_ms: self.interval_ms as int,
            last_advance: self.last_advance as nat,
            pending: self.pending,
        }
    }
}

impl Worker {
    /// Takes over an engine and begins the first cycle. Clock readings handed
    /// to the worker count from this moment.
    pub fn new(engine: SequencerEngine) -> (worker: Self)
        ensures
            worker@ == WorkerState::start(engine@),
            worker@.pending == Request::Poll,
    {
        let interval_ms = engine.step_interval();
        Worker { engine, interval_ms, last_advance: 0, pending: Request::Poll }
    }

    /// The engine that the worker owns.
    pub fn engine(&self) -> (engine: &SequencerEngine)
        ensures
            engine@ == self@.engine,
    {
        &self.engine
    }

    /// The request that the loop is to carry out.
    pub fn pending(&self) -> (request: Request)
        ensures
            request == self@.pending,
    {
        self.pending
    }

    /// Starts the next cycle.
    fn restart_cycle(&mut self)
        ensures
            final(self)@ == old(self)@.begin_cycle(),
    {
        self.interval_ms = self.engine.step_interval();
        self.pending = Request::Poll;
    }

    /// Whether a step is due at clock reading `now`.
    fn is_step_due(&self, now: u128) -> (due: bool)
        ensures
            due == self@.step_due(now as nat),
    {
        let elapsed: u128 = if now >= self.last_advance {
            now - self.last_advance
        } else {
            0
        };
        self.engine.step_count() > 0 && elapsed >= (self.interval_ms as u128) * NANOS_PER_MILLI
    }

    /// Takes one signal from the loop, updates the engine and says what to
    /// emit and what to do next.
    pub fn step(&mut self, signal: Signal) -> (reaction: Reaction)
        ensures
            final(self)@ == old(self)@.after(signal@),
            emitted_view(reaction.event) == old(self)@.event(signal@),
            reaction.next == final(self)@.pending,
    {
        let mut event: Option<SequencerEvent> = None;
        match self.pending {
            Request::Poll => match signal {
                Signal::Command(command) => {
                    event = self.engine.apply(command);
                },
                Signal::Empty => {
                    if self.engine.is_playing() {
                        self.pending = Request::ReadClock;
                    } else {
                        self.pending = Request::Wait;
                    }
                },
                Signal::Closed => {
                    self.pending = Request::Exit;
                },
                _ => {},
            },
            Request::ReadClock => match signal {
                Signal::Clock { nanos } => {
                    if self.is_step_due(nanos) {
                        event = self.engine.advance();
                        self.last_advance = nanos;
                        self.restart_cycle();
                    } else {
                        self.pending = Request::Sleep { millis: IDLE_SLEEP_MS };
                    }
                },
                _ => {},
            },
            Request::Sleep { .. } => match signal {
                Signal::Slept => {
                    self.restart_cycle();
                },
                _ => {},
            },
            Request::Wait => match signal {
                Signal::Command(command) => {
                    event = self.engine.apply(command);
                    self.restart_cycle();
                },
                Signal::Closed => {
                    self.pending = Request::Exit;
                },
                _ => {},
            },
            Request::Exit => {},
        }
        Reaction { event, next: self.pending }
    }

    /// Takes a whole sequence of signals, one after the other, and returns
    /// the events that they gave rise to, in the order in which they arose.
    pub fn replay(&mut self, signals: Vec<Signal>) -> (events: Vec<SequencerEvent>)
        ensures
            final(self)@ == old(self)@.after_all(signals_view(signals@)),
            events_view(events@) == old(self)@.events_of(signals_view(signals@)),
    {
        let ghost start = self@;
        let ghost all = signals_view(signals@);
        let mut events: Vec<SequencerEvent> = Vec::new();
        for signal in it: signals.into_iter()
            invariant
                it.seq() == signals@,
                all == signals_view(signals@),
                self@ == start.after_all(all.take(it.index() as int)),
                events_view(events@) == start.events_of(all.take(it.index() as int)),
        {
            let ghost done = all.take(it.index() as int);
            let ghost next = all.take(it.index() + 1);
            assert(next.drop_last() == done);
            assert(next.last() == signal@);
            let reaction = self.step(signal);
            match reaction.event {
                Some(event) => {
                    events.push(event);
                },
                None => {},
            }
        }
        assert(all.take(all.len() as int) == all);
        events
    }
}

} // verus!
