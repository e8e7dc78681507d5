//! A step-sequencer timing engine: a grid of on/off triggers per track and
//! step, a transport that walks the grid at a tempo-derived rate, and the
//! command/event protocol between the engine and the loop that drives it.

#![allow(unused_imports)]

pub mod config;
pub mod sequencer;
pub mod session;
pub mod tracks;
pub mod ui;
