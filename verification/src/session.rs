//! What the application does between the screen, the engine and the sound
//! player: the pattern it starts with, where each user request goes, and
//! which sounds a step sets off.

use vstd::prelude::*;
use crate::sequencer::engine::{CommandView, SequencerCommand};
use crate::sequencer::steps::{grid_of, Grid, Pattern};
use crate::tracks::TRACK_COUNT;
use crate::ui::{UiEvent, UiEventView, GRID_STEPS};

verus! {

/// Whether the starting pattern has the cell at (`track`, `step`) set: the
/// kick on steps 0 and 2, the snare on step 1, the hat on every even step.
pub open spec fn starts_set(track: int, step: int) -> bool {
    ||| track == 0 && (step == 0 || step == 2)
    ||| track == 1 && step == 1
    ||| track == 2 && step % 2 == 0
}

/// The pattern that the application starts with: four tracks of eight steps.
pub open spec fn starting_grid() -> Grid {
    Seq::new(TRACK_COUNT as nat, |t: int| Seq::new(GRID_STEPS as nat, |s: int| starts_set(t, s)))
}

/// Builds one row of the starting pattern.
fn starting_row(track: usize) -> (row: Vec<bool>)
    ensures
        row@ == Seq::new(GRID_STEPS as nat, |s: int| starts_set(track as int, s)),
{
    let mut row: Vec<bool> = Vec::new();
    let mut s: usize = 0;
    while s < GRID_STEPS
        invariant
            s <= GRID_STEPS,
            row@ == Seq::new(s as nat, |k: int| starts_set(track as int, k)),
        decreases GRID_STEPS - s,
    {
        let set = (track == 0 && (s == 0 || s == 2)) || (track == 1 && s == 1) || (track == 2 && s
            % 2 == 0);
        row.push(set);
        s += 1;
    }
    row
}

/// Builds the pattern that the application starts with.
pub fn default_pattern() -> (pattern: Pattern)
    ensures
        grid_of(&pattern) == starting_grid(),
{
    let mut pattern: Pattern = Vec::new();
    let mut t: usize = 0;
    while t < TRACK_COUNT
        invariant
            t <= TRACK_COUNT,
            pattern@.len() == t,
            forall|k: int|
                0 <= k < t ==> (#[trigger] pattern@[k])@ =~= Seq::new(
                    GRID_STEPS as nat,
                    |s: int| starts_set(k, s),
                ),
        decreases TRACK_COUNT - t,
    {
        pattern.push(starting_row(t));
        t += 1;
    }
    assert(grid_of(&pattern) =~~= starting_grid());
    pattern
}

/// What the application does with one user request.
#[derive(Debug, PartialEq, Eq)]
pub struct Dispatch {
    /// The command to send to the engine, if any.
    pub command: Option<SequencerCommand>,
    /// The sound to play at once, if any.
    pub sound: Option<String>,
    /// Whether to leave the main loop afterwards.
    pub quit: bool,
}

/// A dispatch as a mathematical value.
pub struct DispatchView {
    pub command: Option<CommandView>,
    pub sound: Option<Seq<char>>,
    pub quit: bool,
}

impl View for Dispatch {
    type V = DispatchView;

    open spec fn view(&self) -> DispatchView {
        DispatchView {
            command: match self.command {
                Some(command) => Some(command@),
                None => None,
            },
            sound: match self.sound {
                Some(name) => Some(name@),
                None => None,
            },
            quit: self.quit,
        }
    }
}

/// Where a user request goes. Leaving stops the engine first; the transport
/// and edit requests become the engine command of the same meaning; a pad hit
/// goes to the player and not to the engine.
pub open spec fn dispatch_of(event: UiEventView) -> DispatchView {
    match event {
        UiEventView::Exit => DispatchView {
            command: Some(CommandView::Stop),
            sound: None,
            quit: true,
        },
        UiEventView::PlayToggle => DispatchView {
            command: Some(CommandView::TogglePlay),
            sound: None,
            quit: false,
        },
        UiEventView::BpmChange(delta) => DispatchView {
            command: Some(CommandView::AdjustBpm(delta)),
            sound: None,
            quit: false,
        },
        UiEventView::ToggleStep(track, step) => DispatchView {
            command: Some(CommandView::ToggleStep { track: track as nat, step: step as nat }),
            sound: None,
            quit: false,
        },
        UiEventView::ManualHit(name) => DispatchView { command: None, sound: name, quit: false },
        UiEventView::Noop => DispatchView { command: None, sound: None, quit: false },
    }
}

/// Decides what to do with one user request.
pub fn dispatch(event: UiEvent) -> (action: Dispatch)
    ensures
        action@ == dispatch_of(event@),
{
    match event {
        UiEvent::Exit => Dispatch { command: Some(SequencerCommand::Stop), sound: None, quit: true },
        UiEvent::PlayToggle => Dispatch {
            command: Some(SequencerCommand::TogglePlay),
            sound: None,
            quit: false,
        },
        UiEvent::BpmChange(delta) => Dispatch {
            command: Some(SequencerCommand::AdjustBpm(delta)),
            sound: None,
            quit: false,
        },
        UiEvent::ToggleStep(track, step) => Dispatch {
            command: Some(SequencerCommand::ToggleStep { track, step }),
            sound: None,
            quit: false,
        },
        UiEvent::ManualHit(name) => Dispatch { command: None, sound: name, quit: false },
        UiEvent::Noop => Dispatch { command: None, sound: None, quit: false },
    }
}

/// The track fires on this step and has a sound to play.
pub open spec fn sounds_on(hits: Seq<bool>, track: int) -> bool {
    0 <= track < hits.len() && track < TRACK_COUNT && hits[track]
}

/// The tracks whose sound a step sets off: every track that fires and has a
/// sound, each once, in track order.
pub fn fired_tracks(hits: &Vec<bool>) -> (fired: Vec<usize>)
    ensures
        forall|k: int| 0 <= k < fired@.len() ==> sounds_on(hits@, #[trigger] fired@[k] as int),
        forall|j: int, k: int| 0 <= j < k < fired@.len() ==> fired@[j] < fired@[k],
        forall|track: int| sounds_on(hits@, track) ==> fired@.contains(track as usize),
{
    let mut fired: Vec<usize> = Vec::new();
    let mut t: usize = 0;
    while t < hits.len() && t < TRACK_COUNT
        invariant
            t <= hits.len(),
            t <= TRACK_COUNT,
            forall|k: int|
                0 <= k < fired@.len() ==> sounds_on(hits@, #[trigger] fired@[k] as int)
                    && fired@[k] < t,
            forall|j: int, k: int| 0 <= j < k < fired@.len() ==> fired@[j] < fired@[k],
            forall|track: int|
                sounds_on(hits@, track) && track < t ==> fired@.contains(track as usize),
        decreases hits.len() - t,
    {
        if hits[t] {
            let ghost before = fired@;
            fired.push(t);
            assert(fired@[before.len() as int] == t);
            assert forall|track: int| sounds_on(hits@, track) && track < t + 1 implies fired@.contains(
                track as usize,
            ) by {
                if track < t {
                    let k = choose|k: int| 0 <= k < before.len() && before[k] == track as usize;
                    assert(fired@[k] == track as usize);
                }
            }
        }
        t += 1;
    }
    fired
}

} // verus!
