//! The state behind the screen: cursor, playhead and the mirrored transport,
//! and what each key does to them.

pub mod layout;

use vstd::prelude::*;
use crate::sequencer::clock::{MAX_BPM, MIN_BPM};
use crate::tracks::{sound_of, track_name};

verus! {

/// Tracks shown on the screen.
pub const GRID_TRACKS: usize = 4;

/// Steps shown on the screen.
pub const GRID_STEPS: usize = 8;

/// Beats per minute that one press of `+` or `-` adds or takes away.
pub const BPM_STEP: u32 = 5;

/// What the user asked for.
#[derive(Debug, PartialEq, Eq)]
pub enum UiEvent {
    /// Leave the program.
    Exit,
    /// Start or stop playback.
    PlayToggle,
    /// Change the tempo by this many beats per minute.
    BpmChange(i32),
    /// Flip the cell at (track, step).
    ToggleStep(usize, usize),
    /// Play the named sound once, now.
    ManualHit(Option<String>),
    /// Nothing to pass on.
    Noop,
}

/// A key press, reduced to what the screen reacts to.
#[derive(Debug, Clone, Copy, PartialEq, Eq)]
pub enum Key {
    /// A character key.
    Char(char),
    /// The arrow keys.
    Left,
    Right,
    Up,
    Down,
    /// Any other key.
    Other,
}

/// A user request as a mathematical value.
pub enum UiEventView {
    Exit,
    PlayToggle,
    BpmChange(int),
    ToggleStep(int, int),
    ManualHit(Option<Seq<char>>),
    Noop,
}

impl View for UiEvent {
    type V = UiEventView;

    open spec fn view(&self) -> UiEventView {
        match self {
            UiEvent::Exit => UiEventView::Exit,
            UiEvent::PlayToggle => UiEventView::PlayToggle,
            UiEvent::BpmChange(delta) => UiEventView::BpmChange(*delta as int),
            UiEvent::ToggleStep(track, step) => UiEventView::ToggleStep(
                *track as int,
                *step as int,
            ),
            UiEvent::ManualHit(name) => UiEventView::ManualHit(
                match name {
                    Some(text) => Some(text@),
                    None => None,
                },
            ),
            UiEvent::Noop => UiEventView::Noop,
        }
    }
}

/// The track that a pad key plays: `a`, `s`, `d` and `f` are the four pads.
pub open spec fn pad_track(key: char) -> Option<int> {
    if key == 'a' {
        Some(0int)
    } else if key == 's' {
        Some(1int)
    } else if key == 'd' {
        Some(2int)
    } else if key == 'f' {
        Some(3int)
    } else {
        None
    }
}

/// The screen state as a mathematical value.
pub struct UiModel {
    /// The step that the playhead marks.
    pub playhead: int,
    /// The cell under the cursor, as (track, step).
    pub cursor: (int, int),
    /// Whether the screen shows the transport as playing.
    pub playing: bool,
    /// The tempo that the screen shows.
    pub bpm: int,
}

impl UiModel {
    /// The tempo shown after `+`: five more, but never above the fastest tempo.
    pub open spec fn bpm_raised(self) -> int {
        if self.bpm + BPM_STEP >= MAX_BPM {
            MAX_BPM as int
        } else {
            self.bpm + BPM_STEP
        }
    }

    /// The tempo shown after `-`: five less, but never below the slowest tempo.
    pub open spec fn bpm_lowered(self) -> int {
        if self.bpm - BPM_STEP <= MIN_BPM {
            MIN_BPM as int
        } else {
            self.bpm - BPM_STEP
        }
    }

    /// The state after a key press. `p` flips the playing flag, `+` and `-`
    /// move the tempo shown, the arrows move the cursor one cell and wrap at
    /// the edges of the grid; no other key changes the state.
    pub open spec fn after_key(self, key: Key) -> UiModel {
        match key {
            Key::Char(c) => if c == 'p' {
                UiModel { playing: !self.playing, ..self }
            } else if c == '+' {
                UiModel { bpm: self.bpm_raised(), ..self }
            } else if c == '-' {
                UiModel { bpm: self.bpm_lowered(), ..self }
            } else {
                self
            },
            Key::Right => UiModel {
                cursor: (self.cursor.0, (self.cursor.1 + 1) % (GRID_STEPS as int)),
                ..self
            },
            Key::Left => UiModel {
                cursor: (self.cursor.0, (GRID_STEPS + self.cursor.1 - 1) % (GRID_STEPS as int)),
                ..self
            },
            Key::Down => UiModel {
                cursor: ((self.cursor.0 + 1) % (GRID_TRACKS as int), self.cursor.1),
                ..self
            },
            Key::Up => UiModel {
                cursor: ((GRID_TRACKS + self.cursor.0 - 1) % (GRID_TRACKS as int), self.cursor.1),
                ..self
            },
            Key::Other => self,
        }
    }

    /// The request that a key press stands for.
    pub open spec fn request_for(self, key: Key) -> UiEventView {
        match key {
            Key::Char(c) => if c == 'q' {
                UiEventView::Exit
            } else if c == 'p' {
                UiEventView::PlayToggle
            } else if c == '+' {
                UiEventView::BpmChange(BPM_STEP as int)
            } else if c == '-' {
                UiEventView::BpmChange(-(BPM_STEP as int))
            } else if c == ' ' {
                UiEventView::ToggleStep(self.cursor.0, self.cursor.1)
            } else if pad_track(c) is Some {
                UiEventView::ManualHit(sound_of(pad_track(c).unwrap()))
            } else {
                UiEventView::Noop
            },
            _ => UiEventView::Noop,
        }
    }
}

/// The state behind the screen.
#[derive(Debug, PartialEq, Eq)]
pub struct UiState {
    /// The step that the playhead marks.
    pub playhead: usize,
    /// The cell under the cursor, as (track, step).
    pub cursor: (usize, usize),
    /// Whether the screen shows the transport as playing.
    pub playing: bool,
    /// The tempo that the screen shows.
    pub bpm: u32,
}

impl View for UiState {
    type V = UiModel;

    open spec fn view(&self) -> UiModel {
        UiModel {
            playhead: self.playhead as int,
            cursor: (self.cursor.0 as int, self.cursor.1 as int),
            playing: self.playing,
            bpm: self.bpm as int,
        }
    }
}

/// The track that a pad key plays.
fn pad_for(key: char) -> (track: Option<usize>)
    ensures
        match track {
            Some(t) => pad_track(key) == Some(t as int),
            None => pad_track(key) is None,
        },
{
    if key == 'a' {
        Some(0)
    } else if key == 's' {
        Some(1)
    } else if key == 'd' {
        Some(2)
    } else if key == 'f' {
        Some(3)
    } else {
        None
    }
}

impl UiState {
    /// The screen at start: cursor and playhead on the first cell, stopped,
    /// 120 beats per minute.
    pub fn new() -> (state: Self)
        ensures
            state@ == (UiModel { playhead: 0, cursor: (0, 0), playing: false, bpm: 120 }),
    {
        UiState { playhead: 0, cursor: (0, 0), playing: false, bpm: 120 }
    }

    /// Moves the playhead to a step.
    pub fn set_playhead(&mut self, idx: usize)
        ensures
            final(self)@ == (UiModel { playhead: idx as int, ..old(self)@ }),
    {
        self.playhead = idx;
    }

    /// Reacts to one key press: updates the state and returns the request to
    /// pass on.
    pub fn handle_key(&mut self, key: Key) -> (event: UiEvent)
        ensures
            final(self)@ == old(self)@.after_key(key),
            event@ == old(self)@.request_for(key),
    {
        match key {
            Key::Char(c) => {
                if c == 'q' {
                    UiEvent::Exit
                } else if c == 'p' {
                    self.playing = !self.playing;
                    UiEvent::PlayToggle
                } else if c == '+' {
                    self.bpm = if self.bpm >= MAX_BPM - BPM_STEP {
                        MAX_BPM
                    } else {
                        self.bpm + BPM_STEP
                    };
                    UiEvent::BpmChange(5)
                } else if c == '-' {
                    self.bpm = if self.bpm <= MIN_BPM + BPM_STEP {
                        MIN_BPM
                    } else {
                        self.bpm - BPM_STEP
                    };
                    UiEvent::BpmChange(-5)
                } else if c == ' ' {
                    UiEvent::ToggleStep(self.cursor.0, self.cursor.1)
                } else {
                    match pad_for(c) {
                        Some(track) => {
                            let name = match track_name(track) {
                                Some(text) => Some(text.to_owned()),
                                None => None,
                            };
                            UiEvent::ManualHit(name)
                        },
                        None => UiEvent::Noop,
                    }
                }
            },
            Key::Right => {
                self.cursor.1 = (self.cursor.1 % GRID_STEPS + 1) % GRID_STEPS;
                UiEvent::Noop
            },
            Key::Left => {
                self.cursor.1 = (self.cursor.1 % GRID_STEPS + (GRID_STEPS - 1)) % GRID_STEPS;
                UiEvent::Noop
            },
            Key::Down => {
                self.cursor.0 = (self.cursor.0 % GRID_TRACKS + 1) % GRID_TRACKS;
                UiEvent::Noop
            },
            Key::Up => {
                self.cursor.0 = (self.cursor.0 % GRID_TRACKS + (GRID_TRACKS - 1)) % GRID_TRACKS;
                UiEvent::Noop
            },
            Key::Other => UiEvent::Noop,
        }
    }
}

} // verus!
