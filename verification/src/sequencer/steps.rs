//! The pattern grid: one row of on/off cells per track, one cell per step.

use vstd::prelude::*;

verus! {

/// A pattern as stored: `pattern[track][step]` says whether the track fires on
/// that step.
pub type Pattern = Vec<Vec<bool>>;

/// A pattern as a mathematical value: a sequence of rows, each a sequence of
/// cells.
pub type Grid = Seq<Seq<bool>>;

/// The grid that a stored pattern holds.
pub open spec fn grid_of(pattern: &Pattern) -> Grid {
    Seq::new(pattern@.len(), |t: int| pattern@[t]@)
}

/// The grid of `tracks` rows and `steps` columns in which no cell is set.
pub open spec fn empty_grid(tracks: nat, steps: nat) -> Grid {
    Seq::new(tracks, |t: int| Seq::new(steps, |s: int| false))
}

/// Every row of the grid has exactly `steps` cells.
pub open spec fn is_uniform(grid: Grid, steps: nat) -> bool {
    forall|t: int| 0 <= t < grid.len() ==> (#[trigger] grid[t]).len() == steps
}

/// The cell at (`track`, `step`) lies inside the grid.
pub open spec fn in_grid(grid: Grid, track: int, step: int) -> bool {
    0 <= track < grid.len() && 0 <= step < grid[track].len()
}

/// The grid with the cell at (`track`, `step`) flipped. A position outside the
/// grid names no cell, and the grid stays as it is.
pub open spec fn toggled(grid: Grid, track: int, step: int) -> Grid {
    if in_grid(grid, track, step) {
        grid.update(track, grid[track].update(step, !grid[track][step]))
    } else {
        grid
    }
}

/// Column `step` of the grid in track order, where every row has that column.
pub open spec fn column(grid: Grid, step: int) -> Seq<bool> {
    Seq::new(grid.len(), |t: int| grid[t][step])
}

/// What fires on `step`, one entry per track in track order. A row too short
/// to have the step does not fire.
pub open spec fn hits_at(grid: Grid, step: int) -> Seq<bool> {
    Seq::new(grid.len(), |t: int| 0 <= step < grid[t].len() && grid[t][step])
}

/// The step count that a grid stands for: the length of its first row, or
/// `fallback` where it has no row.
pub open spec fn row_length(grid: Grid, fallback: nat) -> nat {
    if grid.len() > 0 {
        grid[0].len()
    } else {
        fallback
    }
}

/// Builds one row of `steps` unset cells.
fn empty_row(steps: usize) -> (row: Vec<bool>)
    ensures
        row@ == Seq::new(steps as nat, |s: int| false),
{
    let mut row: Vec<bool> = Vec::new();
    let mut s: usize = 0;
    while s < steps
        invariant
            s <= steps,
            row@ == Seq::new(s as nat, |k: int| false),
        decreases steps - s,
    {
        row.push(false);
        s += 1;
    }
    row
}

/// Builds the all-unset pattern of `tracks` rows and `steps` columns.
pub fn empty_pattern(tracks: usize, steps: usize) -> (pattern: Pattern)
    ensures
        grid_of(&pattern) == empty_grid(tracks as nat, steps as nat),
{
    let mut pattern: Pattern = Vec::new();
    let mut t: usize = 0;
    while t < tracks
        invariant
            t <= tracks,
            pattern@.len() == t,
            forall|k: int|
                0 <= k < t ==> (#[trigger] pattern@[k])@ =~= Seq::new(steps as nat, |s: int| false),
        decreases tracks - t,
    {
        let row = empty_row(steps);
        pattern.push(row);
        t += 1;
    }
    assert(grid_of(&pattern) =~~= empty_grid(tracks as nat, steps as nat));
    pattern
}

/// Flips one cell of the pattern. A position outside the pattern is ignored.
pub fn toggle_step(pattern: &mut Pattern, track: usize, step: usize)
    ensures
        grid_of(final(pattern)) == toggled(grid_of(old(pattern)), track as int, step as int),
    no_unwind
{
    if track < pattern.len() {
        if step < pattern[track].len() {
            let cell = pattern[track][step];
            pattern[track][step] = !cell;
        }
    }
}

/// Reads what fires on `step`: one entry per track, in track order.
pub fn step_hits(pattern: &Pattern, step: usize) -> (hits: Vec<bool>)
    ensures
        hits@ == hits_at(grid_of(pattern), step as int),
{
    let mut hits: Vec<bool> = Vec::new();
    let mut t: usize = 0;
    while t < pattern.len()
        invariant
            t <= pattern.len(),
            hits@ == hits_at(grid_of(pattern), step as int).take(t as int),
        decreases pattern.len() - t,
    {
        let hit = step < pattern[t].len() && pattern[t][step];
        hits.push(hit);
        t += 1;
    }
    hits
}

/// The step count that a pattern stands for: the length of its first row, or
/// `fallback` where it has no row.
pub fn pattern_steps(pattern: &Pattern, fallback: usize) -> (steps: usize)
    ensures
        steps == row_length(grid_of(pattern), fallback as nat),
{
    if pattern.len() > 0 {
        pattern[0].len()
    } else {
        fallback
    }
}

/// Toggling the same cell twice gives the grid back, whether or not the cell
/// lies inside the grid.
pub proof fn lemma_toggle_twice(grid: Grid, track: int, step: int)
    ensures
        toggled(toggled(grid, track, step), track, step) == grid,
{
    assert(toggled(toggled(grid, track, step), track, step) =~~= grid);
}

/// Toggling a cell inside the grid flips that cell and no other.
pub proof fn lemma_toggle_in_range(grid: Grid, track: int, step: int)
    requires
        in_grid(grid, track, step),
    ensures
        toggled(grid, track, step).len() == grid.len(),
        forall|t: int, s: int|
            #![trigger toggled(grid, track, step)[t][s]]
            in_grid(grid, t, s) ==> in_grid(toggled(grid, track, step), t, s) && toggled(
                grid,
                track,
                step,
            )[t][s] == (if t == track && s == step {
                !grid[t][s]
            } else {
                grid[t][s]
            }),
{
}

/// Toggling a cell outside the grid leaves the grid exactly as it was.
pub proof fn lemma_toggle_out_of_range(grid: Grid, track: int, step: int)
    requires
        !in_grid(grid, track, step),
    ensures
        toggled(grid, track, step) == grid,
{
}

/// Where every row has exactly `steps` cells, what fires on a step below
/// `steps` is that column of the grid.
pub proof fn lemma_hits_are_column(grid: Grid, steps: nat, step: int)
    requires
        is_uniform(grid, steps),
        0 <= step < steps,
    ensures
        hits_at(grid, step) == column(grid, step),
{
    assert(hits_at(grid, step) =~= column(grid, step));
}

} // verus!
