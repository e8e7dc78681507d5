//! The tracks of the drum kit and the sounds they trigger.

use vstd::prelude::*;

verus! {

/// Number of tracks that have a sound.
pub const TRACK_COUNT: usize = 4;

/// The name of the sound that a track triggers, as a mathematical value:
/// kick, snare, hat and clap for tracks 0 to 3, none for any other.
pub open spec fn sound_of(track: int) -> Option<Seq<char>> {
    if track == 0 {
        Some("kick"@)
    } else if track == 1 {
        Some("snare"@)
    } else if track == 2 {
        Some("hat"@)
    } else if track == 3 {
        Some("clap"@)
    } else {
        None
    }
}

/// The view of a name that may be absent.
pub open spec fn name_view(name: Option<&'static str>) -> Option<Seq<char>> {
    match name {
        Some(text) => Some(text@),
        None => None,
    }
}

/// The name of the sound that a track triggers.
pub fn track_name(track: usize) -> (name: Option<&'static str>)
    ensures
        name_view(name) == sound_of(track as int),
        name is Some <==> track < TRACK_COUNT,
{
    if track == 0 {
        Some("kick")
    } else if track == 1 {
        Some("snare")
    } else if track == 2 {
        Some("hat")
    } else if track == 3 {
        Some("clap")
    } else {
        None
    }
}

} // verus!
