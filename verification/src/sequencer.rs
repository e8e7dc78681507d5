//! The sequencer core: clock arithmetic, the pattern grid, the engine and the
//! protocol of the worker loop that drives it.

pub mod clock;
pub mod steps;
pub mod engine;
pub mod worker;
