use cratebeat::config::Config;
use cratebeat::sequencer::engine::SequencerCommand;
use cratebeat::session::{default_pattern, dispatch, fired_tracks, Dispatch};
use cratebeat::tracks::{track_name, TRACK_COUNT};
use cratebeat::ui::UiEvent;

#[test]
fn the_default_config_is_120_bpm_and_8_steps() {
    let config = Config::default();
    assert_eq!(config.bpm, 120);
    assert_eq!(config.steps, 8);
}

#[test]
fn the_starting_pattern() {
    let x = true;
    let o = false;
    assert_eq!(
        default_pattern(),
        vec![
            vec![x, o, x, o, o, o, o, o],
            vec![o, x, o, o, o, o, o, o],
            vec![x, o, x, o, x, o, x, o],
            vec![o, o, o, o, o, o, o, o],
        ]
    );
}

#[test]
fn leaving_stops_the_engine_first() {
    assert_eq!(
        dispatch(UiEvent::Exit),
        Dispatch { command: Some(SequencerCommand::Stop), sound: None, quit: true }
    );
}

#[test]
fn requests_become_commands() {
    assert_eq!(
        dispatch(UiEvent::PlayToggle),
        Dispatch { command: Some(SequencerCommand::TogglePlay), sound: None, quit: false }
    );
    assert_eq!(
        dispatch(UiEvent::BpmChange(-5)),
        Dispatch { command: Some(SequencerCommand::AdjustBpm(-5)), sound: None, quit: false }
    );
    assert_eq!(
        dispatch(UiEvent::ToggleStep(3, 7)),
        Dispatch {
            command: Some(SequencerCommand::ToggleStep { track: 3, step: 7 }),
            sound: None,
            quit: false,
        }
    );
}

#[test]
fn a_pad_hit_goes_to_the_player() {
    assert_eq!(
        dispatch(UiEvent::ManualHit(Some("snare".to_string()))),
        Dispatch { command: None, sound: Some("snare".to_string()), quit: false }
    );
    assert_eq!(
        dispatch(UiEvent::ManualHit(None)),
        Dispatch { command: None, sound: None, quit: false }
    );
}

#[test]
fn nothing_to_do_for_noop() {
    assert_eq!(
        dispatch(UiEvent::Noop),
        Dispatch { command: None, sound: None, quit: false }
    );
}

#[test]
fn fired_tracks_are_the_set_entries_in_order() {
    assert_eq!(fired_tracks(&vec![true, false, true, false]), vec![0, 2]);
    assert_eq!(fired_tracks(&vec![false, true, true, true]), vec![1, 2, 3]);
    assert_eq!(fired_tracks(&vec![true; 4]), vec![0, 1, 2, 3]);
    assert_eq!(fired_tracks(&vec![false; 4]), Vec::<usize>::new());
    assert_eq!(fired_tracks(&vec![]), Vec::<usize>::new());
    assert_eq!(fired_tracks(&vec![false, true]), vec![1]);
}

#[test]
fn tracks_without_a_sound_are_left_out() {
    assert_eq!(fired_tracks(&vec![false, false, false, true, true, true]), vec![3]);
    assert_eq!(fired_tracks(&vec![true; 9]), vec![0, 1, 2, 3]);
}

#[test]
fn the_four_tracks_have_names() {
    assert_eq!(TRACK_COUNT, 4);
    assert_eq!(track_name(0), Some("kick"));
    assert_eq!(track_name(1), Some("snare"));
    assert_eq!(track_name(2), Some("hat"));
    assert_eq!(track_name(3), Some("clap"));
    assert_eq!(track_name(4), None);
    assert_eq!(track_name(usize::MAX), None);
}
