//! What each cell of the grid shows.

use vstd::prelude::*;
use crate::ui::{GRID_STEPS, GRID_TRACKS};

verus! {

/// How a cell of the grid is drawn.
#[derive(Debug, Clone, Copy, PartialEq, Eq, Structural)]
pub enum CellMark {
    /// An ordinary cell.
    Plain,
    /// A cell in the column that the playhead stands on.
    Playhead,
    /// The cell under the cursor, labelled with its step.
    Cursor { step: usize },
}

/// The mark of the cell at (`track`, `step`): the cursor's cell shows the
/// cursor, every other cell in the playhead's column shows the playhead.
pub open spec fn mark_at(playhead: int, cursor: (int, int), track: int, step: int) -> CellMark {
    if cursor.0 == track && cursor.1 == step {
        CellMark::Cursor { step: step as usize }
    } else if step == playhead {
        CellMark::Playhead
    } else {
        CellMark::Plain
    }
}

/// The marks of a whole grid, row by row.
pub open spec fn marks_of(playhead: int, cursor: (int, int), tracks: nat, steps: nat) -> Seq<
    Seq<CellMark>,
> {
    Seq::new(tracks, |t: int| Seq::new(steps, |s: int| mark_at(playhead, cursor, t, s)))
}

/// The marks of a stored grid.
pub open spec fn marks_view(marks: &Vec<Vec<CellMark>>) -> Seq<Seq<CellMark>> {
    Seq::new(marks@.len(), |t: int| marks@[t]@)
}

/// Chooses the mark of one cell.
pub fn cell_mark(playhead: usize, cursor: (usize, usize), track: usize, step: usize) -> (mark:
    CellMark)
    ensures
        mark == mark_at(
            playhead as int,
            (cursor.0 as int, cursor.1 as int),
            track as int,
            step as int,
        ),
{
    if cursor.0 == track && cursor.1 == step {
        CellMark::Cursor { step }
    } else if step == playhead {
        CellMark::Playhead
    } else {
        CellMark::Plain
    }
}

/// Chooses the marks of one row of the screen's grid.
fn row_marks(playhead: usize, cursor: (usize, usize), track: usize) -> (row: Vec<CellMark>)
    ensures
        row@ == Seq::new(
            GRID_STEPS as nat,
            |s: int| mark_at(playhead as int, (cursor.0 as int, cursor.1 as int), track as int, s),
        ),
{
    let mut row: Vec<CellMark> = Vec::new();
    let mut s: usize = 0;
    while s < GRID_STEPS
        invariant
            s <= GRID_STEPS,
            row@ == Seq::new(
                s as nat,
                |k: int|
                    mark_at(playhead as int, (cursor.0 as int, cursor.1 as int), track as int, k),
            ),
        decreases GRID_STEPS - s,
    {
        row.push(cell_mark(playhead, cursor, track, s));
        s += 1;
    }
    row
}

/// Chooses the marks of the screen's grid: four tracks of eight steps.
pub fn grid_marks(playhead: usize, cursor: (usize, usize)) -> (marks: Vec<Vec<CellMark>>)
    ensures
        marks_view(&marks) == marks_of(
            playhead as int,
            (cursor.0 as int, cursor.1 as int),
            GRID_TRACKS as nat,
            GRID_STEPS as nat,
        ),
{
    let mut marks: Vec<Vec<CellMark>> = Vec::new();
    let mut t: usize = 0;
    while t < GRID_TRACKS
        invariant
            t <= GRID_TRACKS,
            marks@.len() == t,
            forall|k: int|
                0 <= k < t ==> (#[trigger] marks@[k])@ =~= Seq::new(
                    GRID_STEPS as nat,
                    |s: int|
                        mark_at(playhead as int, (cursor.0 as int, cursor.1 as int), k, s),
                ),
        decreases GRID_TRACKS - t,
    {
        marks.push(row_marks(playhead, cursor, t));
        t += 1;
    }
    assert(marks_view(&marks) =~~= marks_of(
        playhead as int,
        (cursor.0 as int, cursor.1 as int),
        GRID_TRACKS as nat,
        GRID_STEPS as nat,
    ));
    marks
}

} // verus!
