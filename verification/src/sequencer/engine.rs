//! The sequencer engine: transport state, the pattern it plays, the commands
//! that change them and the events that report what happened.

use vstd::prelude::*;
use vstd::arithmetic::div_mod::lemma_add_mod_noop_right;
use crate::sequencer::clock::{
    lemma_step_interval_positive, step_duration_millis, step_interval_ms, MAX_BPM, MIN_BPM,
    STEPS_PER_BEAT,
};
use crate::sequencer::steps::{
    column, empty_grid, empty_pattern, grid_of, hits_at, in_grid, is_uniform,
    lemma_hits_are_column, lemma_toggle_twice, pattern_steps, row_length, step_hits, toggle_step,
    toggled, Grid, Pattern,
};

verus! {

/// Tempo of a new engine, in beats per minute.
pub const DEFAULT_BPM: u32 = 120;

/// Step count of a new engine.
pub const DEFAULT_STEPS: usize = 8;

/// Track count of a new engine.
pub const DEFAULT_TRACKS: usize = 4;

/// Commands sent to the engine.
#[derive(Debug, PartialEq, Eq)]
pub enum SequencerCommand {
    /// Set the tempo and start over with an empty pattern of `steps` steps.
    Configure { bpm: u32, steps: usize },
    /// Replace the whole pattern.
    SetPattern { pattern: Pattern },
    /// Flip one cell of the pattern.
    ToggleStep { track: usize, step: usize },
    /// Start if stopped, stop if playing.
    TogglePlay,
    /// Start playing.
    Play,
    /// Stop playing.
    Stop,
    /// Change the tempo by a signed number of beats per minute.
    AdjustBpm(i32),
}

/// Events emitted by the engine.
#[derive(Debug, PartialEq, Eq)]
pub enum SequencerEvent {
    /// The transport reached `step`; `hits[track]` says whether the track fires.
    Step { step: usize, hits: Vec<bool> },
    /// The transport is now playing (`true`) or stopped (`false`).
    PlaybackState(bool),
}

/// A command as a mathematical value.
pub enum CommandView {
    Configure { bpm: nat, steps: nat },
    SetPattern { pattern: Grid },
    ToggleStep { track: nat, step: nat },
    TogglePlay,
    Play,
    Stop,
    AdjustBpm(int),
}

/// An event as a mathematical value.
pub enum EventView {
    Step { step: nat, hits: Seq<bool> },
    PlaybackState(bool),
}

impl View for SequencerCommand {
    type V = CommandView;

    open spec fn view(&self) -> CommandView {
        match self {
            SequencerCommand::Configure { bpm, steps } => CommandView::Configure {
                bpm: *bpm as nat,
                steps: *steps as nat,
            },
            SequencerCommand::SetPattern { pattern } => CommandView::SetPattern {
                pattern: grid_of(pattern),
            },
            SequencerCommand::ToggleStep { track, step } => CommandView::ToggleStep {
                track: *track as nat,
                step: *step as nat,
            },
            SequencerCommand::TogglePlay => CommandView::TogglePlay,
            SequencerCommand::Play => CommandView::Play,
            SequencerCommand::Stop => CommandView::Stop,
            SequencerCommand::AdjustBpm(delta) => CommandView::AdjustBpm(*delta as int),
        }
    }
}

impl View for SequencerEvent {
    type V = EventView;

    open spec fn view(&self) -> EventView {
        match self {
            SequencerEvent::Step { step, hits } => EventView::Step {
                step: *step as nat,
                hits: hits@,
            },
            SequencerEvent::PlaybackState(playing) => EventView::PlaybackState(*playing),
        }
    }
}

/// The view of an event that may or may not have been emitted.
pub open spec fn emitted_view(event: Option<SequencerEvent>) -> Option<EventView> {
    match event {
        Some(e) => Some(e@),
        None => None,
    }
}

/// The tempo nearest to `bpm` that the transport accepts.
pub open spec fn clamp_tempo(bpm: int) -> nat {
    if bpm < MIN_BPM {
        MIN_BPM as nat
    } else if bpm > MAX_BPM {
        MAX_BPM as nat
    } else {
        bpm as nat
    }
}

/// The engine as a mathematical value: transport state and pattern.
pub struct EngineState {
    /// Tempo in beats per minute.
    pub tempo: nat,
    /// Number of steps in one cycle.
    pub steps: nat,
    /// The pattern being played.
    pub grid: Grid,
    /// Whether the transport is running.
    pub playing: bool,
    /// Where the transport stands; the next step fired is `position % steps`.
    pub position: nat,
}

impl EngineState {
    /// A new engine: four empty tracks of eight steps, 120 beats per minute,
    /// stopped, at the first step.
    pub open spec fn initial() -> EngineState {
        EngineState {
            tempo: DEFAULT_BPM as nat,
            steps: DEFAULT_STEPS as nat,
            grid: empty_grid(DEFAULT_TRACKS as nat, DEFAULT_STEPS as nat),
            playing: false,
            position: 0,
        }
    }

    /// The tempo lies in the accepted range.
    pub open spec fn tempo_in_range(self) -> bool {
        MIN_BPM <= self.tempo <= MAX_BPM
    }

    /// The state after a command.
    pub open spec fn apply(self, command: CommandView) -> EngineState {
        match command {
            CommandView::Configure { bpm, steps } => EngineState {
                tempo: clamp_tempo(bpm as int),
                steps: steps,
                grid: empty_grid(self.grid.len(), steps),
                ..self
            },
            CommandView::SetPattern { pattern } => EngineState {
                steps: row_length(pattern, self.steps),
                grid: pattern,
                ..self
            },
            CommandView::ToggleStep { track, step } => EngineState {
                grid: toggled(self.grid, track as int, step as int),
                ..self
            },
            CommandView::TogglePlay => EngineState { playing: !self.playing, ..self },
            CommandView::Play => EngineState { playing: true, ..self },
            CommandView::Stop => EngineState { playing: false, ..self },
            CommandView::AdjustBpm(delta) => EngineState {
                tempo: clamp_tempo(self.tempo + delta),
                ..self
            },
        }
    }

    /// The event that a command gives rise to, if any: the three transport
    /// commands report the playing flag as it is after the command, also
    /// where it did not change.
    pub open spec fn emitted(self, command: CommandView) -> Option<EventView> {
        match command {
            CommandView::TogglePlay => Some(EventView::PlaybackState(!self.playing)),
            CommandView::Play => Some(EventView::PlaybackState(true)),
            CommandView::Stop => Some(EventView::PlaybackState(false)),
            _ => None,
        }
    }

    /// The step that fires next. Meaningful where `steps > 0`.
    pub open spec fn step_index(self) -> nat {
        self.position % self.steps
    }

    /// The event of one advance: the step that fires and what it hits, read
    /// from the pattern before the transport moves on. A cycle of no steps
    /// has nothing to fire.
    pub open spec fn step_event(self) -> Option<EventView> {
        if self.steps == 0 {
            None
        } else {
            Some(
                EventView::Step {
                    step: self.step_index(),
                    hits: hits_at(self.grid, self.step_index() as int),
                },
            )
        }
    }

    /// The state after one advance: the transport moves to the next step and
    /// wraps at the end of the cycle; nothing else changes.
    pub open spec fn advanced(self) -> EngineState {
        if self.steps == 0 {
            self
        } else {
            EngineState { position: (self.step_index() + 1) % self.steps, ..self }
        }
    }

    /// The state after `n` advances in a row.
    pub open spec fn advanced_times(self, n: nat) -> EngineState
        decreases n,
    {
        if n == 0 {
            self
        } else {
            self.advanced().advanced_times((n - 1) as nat)
        }
    }

    /// The step interval at the current tempo, in milliseconds.
    pub open spec fn interval_ms(self) -> int {
        step_interval_ms(self.tempo as int, STEPS_PER_BEAT as int)
    }

    /// Every row of the pattern has exactly `steps` cells.
    pub open spec fn pattern_uniform(self) -> bool {
        is_uniform(self.grid, self.steps)
    }
}

/// A command whose pattern, if it carries one, has rows of one length.
pub open spec fn carries_uniform_pattern(command: CommandView, fallback: nat) -> bool {
    command matches CommandView::SetPattern { pattern } ==> is_uniform(
        pattern,
        row_length(pattern, fallback),
    )
}

/// A new engine has a tempo in range and a pattern whose rows all have
/// `steps` cells.
pub proof fn lemma_initial_state_valid()
    ensures
        EngineState::initial().tempo_in_range(),
        EngineState::initial().pattern_uniform(),
        !EngineState::initial().playing,
{
}

/// No command moves the tempo out of the accepted range, and the two commands
/// that set the tempo bring it into the range whatever it was before.
pub proof fn lemma_tempo_stays_in_range(state: EngineState, command: CommandView)
    ensures
        state.tempo_in_range() ==> state.apply(command).tempo_in_range(),
        command is Configure || command is AdjustBpm ==> state.apply(command).tempo_in_range(),
{
}

/// `AdjustBpm` leaves the tempo in the accepted range for every delta, of
/// either sign and any size: the sum is clamped, never wrapped.
pub proof fn lemma_adjust_bpm_clamps(state: EngineState, delta: int)
    ensures
        state.apply(CommandView::AdjustBpm(delta)).tempo == clamp_tempo(state.tempo + delta),
        state.apply(CommandView::AdjustBpm(delta)).tempo_in_range(),
        MIN_BPM <= state.tempo + delta <= MAX_BPM ==> state.apply(
            CommandView::AdjustBpm(delta),
        ).tempo == state.tempo + delta,
{
}

/// Two adjustments in the same direction add up: applied one after the other
/// they give the tempo that their sum gives. Adjustments in opposite
/// directions need not, since the first may already have been clamped.
pub proof fn lemma_adjust_bpm_same_direction(state: EngineState, first: int, second: int)
    requires
        state.tempo_in_range(),
        (first >= 0 && second >= 0) || (first <= 0 && second <= 0),
    ensures
        state.apply(CommandView::AdjustBpm(first)).apply(CommandView::AdjustBpm(second)).tempo
            == state.apply(CommandView::AdjustBpm(first + second)).tempo,
{
}

/// `ToggleStep` is its own inverse: sent twice for the same cell it gives the
/// state back. Sent for a cell outside the pattern it changes nothing at all.
pub proof fn lemma_toggle_step_involution(state: EngineState, track: nat, step: nat)
    ensures
        state.apply(CommandView::ToggleStep { track, step }).apply(
            CommandView::ToggleStep { track, step },
        ) == state,
        !in_grid(state.grid, track as int, step as int) ==> state.apply(
            CommandView::ToggleStep { track, step },
        ) == state,
        in_grid(state.grid, track as int, step as int) ==> state.apply(
            CommandView::ToggleStep { track, step },
        ).grid[track as int][step as int] == !state.grid[track as int][step as int],
{
    lemma_toggle_twice(state.grid, track as int, step as int);
}

/// `TogglePlay` twice gives the state back, and the two events report first
/// the flipped playing flag, then the flag as it was.
pub proof fn lemma_toggle_play_twice(state: EngineState)
    ensures
        state.apply(CommandView::TogglePlay).apply(CommandView::TogglePlay) == state,
        state.emitted(CommandView::TogglePlay) == Some(EventView::PlaybackState(!state.playing)),
        state.apply(CommandView::TogglePlay).emitted(CommandView::TogglePlay) == Some(
            EventView::PlaybackState(state.playing),
        ),
{
}

/// `Play` and `Stop` report the playing flag every time, also when it did not
/// change, and a second one in a row changes nothing.
pub proof fn lemma_play_stop_idempotent(state: EngineState)
    ensures
        state.emitted(CommandView::Stop) == Some(EventView::PlaybackState(false)),
        state.emitted(CommandView::Play) == Some(EventView::PlaybackState(true)),
        state.apply(CommandView::Stop).apply(CommandView::Stop) == state.apply(CommandView::Stop),
        state.apply(CommandView::Play).apply(CommandView::Play) == state.apply(CommandView::Play),
        !state.playing ==> state.apply(CommandView::Stop) == state,
        state.playing ==> state.apply(CommandView::Play) == state,
{
}

/// Every change of the playing flag is reported: a command that changes the
/// flag emits `PlaybackState` with the new value, and a `PlaybackState` event
/// always carries the flag as it is after the command. No command emits a
/// `Step`.
pub proof fn lemma_transitions_are_reported(state: EngineState, command: CommandView)
    ensures
        state.apply(command).playing != state.playing ==> state.emitted(command) == Some(
            EventView::PlaybackState(state.apply(command).playing),
        ),
        state.emitted(command) matches Some(event) ==> event == EventView::PlaybackState(
            state.apply(command).playing,
        ),
{
}

/// Commands never move the transport: where it stands changes only by an
/// advance.
pub proof fn lemma_commands_keep_position(state: EngineState, command: CommandView)
    ensures
        state.apply(command).position == state.position,
{
}

/// The rows of the pattern keep one length, the step count: no command breaks
/// this, provided a pattern that is set has rows of one length itself.
pub proof fn lemma_pattern_stays_uniform(state: EngineState, command: CommandView)
    requires
        state.pattern_uniform(),
        carries_uniform_pattern(command, state.steps),
    ensures
        state.apply(command).pattern_uniform(),
        state.advanced().pattern_uniform(),
{
    let after = state.apply(command);
    assert forall|t: int| 0 <= t < after.grid.len() implies (#[trigger] after.grid[t]).len()
        == after.steps by {
        match command {
            CommandView::ToggleStep { track, step } => {
                assert(state.grid[t].len() == state.steps);
            },
            _ => {},
        }
    }
}

/// Playback never edits the pattern: any number of advances leaves the tempo,
/// the step count, the pattern and the playing flag as they were, and after
/// `n` advances the transport stands `n` steps further on, modulo the step count.
pub proof fn lemma_advance_moves_position_only(state: EngineState, n: nat)
    ensures
        state.advanced_times(n).tempo == state.tempo,
        state.advanced_times(n).steps == state.steps,
        state.advanced_times(n).grid == state.grid,
        state.advanced_times(n).playing == state.playing,
        state.steps > 0 ==> state.advanced_times(n).step_index() == (state.position + n)
            % state.steps,
        state.steps == 0 ==> state.advanced_times(n) == state,
    decreases n,
{
    if n > 0 {
        let next = state.advanced();
        lemma_advance_moves_position_only(next, (n - 1) as nat);
        if state.steps > 0 {
            let m = state.steps as int;
            let p = state.position as int;
            // one step on, then n - 1 more, is n steps on
            lemma_add_mod_noop_right(n - 1, p % m + 1, m);
            lemma_add_mod_noop_right(n as int, p, m);
        }
    }
}

/// After `SetPattern`, every step event reports a column of that pattern: the
/// `n`-th advance after the command fires step `(position + n) % steps`, and
/// its hits are that column of the pattern, in track order. The pattern is
/// one whose rows all have the length of the first.
pub proof fn lemma_steps_report_pattern_columns(state: EngineState, pattern: Grid, n: nat)
    requires
        row_length(pattern, state.steps) > 0,
        is_uniform(pattern, row_length(pattern, state.steps)),
    ensures
        ({
            let steps = row_length(pattern, state.steps);
            let index = (state.position + n) % steps;
            let loaded = state.apply(CommandView::SetPattern { pattern });
            &&& loaded.steps == steps
            &&& loaded.grid == pattern
            &&& 0 <= index < steps
            &&& loaded.advanced_times(n).step_event() == Some(
                EventView::Step { step: index as nat, hits: column(pattern, index as int) },
            )
        }),
{
    let steps = row_length(pattern, state.steps);
    let index = (state.position + n) % steps;
    let loaded = state.apply(CommandView::SetPattern { pattern });
    lemma_advance_moves_position_only(loaded, n);
    lemma_hits_are_column(pattern, steps, index as int);
}

/// The sequencer engine. It owns the transport state and the pattern; they
/// change only through `apply` and `advance`.
pub struct SequencerEngine {
    bpm: u32,
    steps: usize,
    pattern: Pattern,
    playing: bool,
    position: usize,
}

impl View for SequencerEngine {
    type V = EngineState;

    closed spec fn view(&self) -> EngineState {
        EngineState {
            tempo: self.bpm as nat,
            steps: self.steps as nat,
            grid: grid_of(&self.pattern),
            playing: self.playing,
            position: self.position as nat,
        }
    }
}

/// Brings a tempo into the accepted range.
fn clamp_bpm(bpm: i64) -> (clamped: u32)
    ensures
        clamped == clamp_tempo(bpm as int),
{
    if bpm < MIN_BPM as i64 {
        MIN_BPM
    } else if bpm > MAX_BPM as i64 {
        MAX_BPM
    } else {
        bpm as u32
    }
}

impl SequencerEngine {
    #[verifier::type_invariant]
    spec fn tempo_accepted(self) -> bool {
        MIN_BPM <= self.bpm <= MAX_BPM
    }

    /// Creates an engine in its initial state.
    pub fn new() -> (engine: Self)
        ensures
            engine@ == EngineState::initial(),
    {
        SequencerEngine {
            bpm: DEFAULT_BPM,
            steps: DEFAULT_STEPS,
            pattern: empty_pattern(DEFAULT_TRACKS, DEFAULT_STEPS),
            playing: false,
            position: 0,
        }
    }

    /// Applies one command and returns the event to emit for it, if any.
    /// Every command is accepted: a tempo out of range is clamped and an edit
    /// outside the pattern changes nothing.
    pub fn apply(&mut self, command: SequencerCommand) -> (event: Option<SequencerEvent>)
        ensures
            final(self)@ == old(self)@.apply(command@),
            emitted_view(event) == old(self)@.emitted(command@),
            final(self)@.tempo_in_range(),
    {
        proof {
            use_type_invariant(&*self);
        }
        match command {
            SequencerCommand::Configure { bpm, steps } => {
                self.bpm = clamp_bpm(bpm as i64);
                self.steps = steps;
                self.pattern = empty_pattern(self.pattern.len(), steps);
                None
            },
            SequencerCommand::SetPattern { pattern } => {
                self.steps = pattern_steps(&pattern, self.steps);
                self.pattern = pattern;
                None
            },
            SequencerCommand::ToggleStep { track, step } => {
                toggle_step(&mut self.pattern, track, step);
                None
            },
            SequencerCommand::TogglePlay => {
                self.playing = !self.playing;
                Some(SequencerEvent::PlaybackState(self.playing))
            },
            SequencerCommand::Play => {
                self.playing = true;
                Some(SequencerEvent::PlaybackState(true))
            },
            SequencerCommand::Stop => {
                self.playing = false;
                Some(SequencerEvent::PlaybackState(false))
            },
            SequencerCommand::AdjustBpm(delta) => {
                self.bpm = clamp_bpm(self.bpm as i64 + delta as i64);
                None
            },
        }
    }

    /// Fires the next step: returns its `Step` event, built from the pattern
    /// at the step the transport stands on, and moves the transport on by one,
    /// wrapping at the end of the cycle. With a cycle of no steps nothing
    /// fires and nothing changes.
    pub fn advance(&mut self) -> (event: Option<SequencerEvent>)
        ensures
            final(self)@ == old(self)@.advanced(),
            emitted_view(event) == old(self)@.step_event(),
    {
        proof {
            use_type_invariant(&*self);
        }
        if self.steps == 0 {
            return None;
        }
        let step: usize = self.position % self.steps;
        let hits = step_hits(&self.pattern, step);
        self.position = (step + 1) % self.steps;
        Some(SequencerEvent::Step { step, hits })
    }

    /// The step interval at the current tempo, in milliseconds.
    pub fn step_interval(&self) -> (ms: u64)
        ensures
            ms == self@.interval_ms(),
            50 <= ms <= 750,
    {
        proof {
            use_type_invariant(self);
            lemma_step_interval_positive(self.bpm as int);
        }
        step_duration_millis(self.bpm, STEPS_PER_BEAT)
    }

    /// The tempo in beats per minute; always within the accepted range.
    pub fn bpm(&self) -> (bpm: u32)
        ensures
            bpm == self@.tempo,
            self@.tempo_in_range(),
    {
        proof {
            use_type_invariant(self);
        }
        self.bpm
    }

    /// The number of steps in one cycle.
    pub fn step_count(&self) -> (steps: usize)
        ensures
            steps == self@.steps,
    {
        self.steps
    }

    /// The number of tracks in the pattern.
    pub fn track_count(&self) -> (tracks: usize)
        ensures
            tracks == self@.grid.len(),
    {
        self.pattern.len()
    }

    /// Whether the transport is running.
    pub fn is_playing(&self) -> (playing: bool)
        ensures
            playing == self@.playing,
    {
        self.playing
    }

    /// Where the transport stands.
    pub fn current_step(&self) -> (position: usize)
        ensures
            position == self@.position,
    {
        self.position
    }

    /// The pattern being played.
    pub fn pattern(&self) -> (pattern: &Pattern)
        ensures
            grid_of(pattern) == self@.grid,
    {
        &self.pattern
    }
}

} // verus!
