use cratebeat::sequencer::engine::{
    SequencerCommand, SequencerEngine, SequencerEvent, DEFAULT_BPM, DEFAULT_STEPS, DEFAULT_TRACKS,
};
use cratebeat::sequencer::steps::{empty_pattern, Pattern};

fn two_by_three() -> Pattern {
    vec![vec![true, false, true], vec![false, true, false]]
}

#[test]
fn a_new_engine_has_the_defaults() {
    let engine = SequencerEngine::new();
    assert_eq!(engine.bpm(), 120);
    assert_eq!(engine.bpm(), DEFAULT_BPM);
    assert_eq!(engine.step_count(), 8);
    assert_eq!(engine.step_count(), DEFAULT_STEPS);
    assert_eq!(engine.track_count(), 4);
    assert_eq!(engine.track_count(), DEFAULT_TRACKS);
    assert!(!engine.is_playing());
    assert_eq!(engine.current_step(), 0);
    assert_eq!(*engine.pattern(), vec![vec![false; 8]; 4]);
    assert_eq!(engine.step_interval(), 125);
}

#[test]
fn adjust_bpm_by_a_thousand_reads_three_hundred() {
    let mut engine = SequencerEngine::new();
    assert_eq!(engine.apply(SequencerCommand::AdjustBpm(1000)), None);
    assert_eq!(engine.bpm(), 300);
}

#[test]
fn adjust_bpm_adds_the_delta_inside_the_range() {
    let mut engine = SequencerEngine::new();
    engine.apply(SequencerCommand::AdjustBpm(5));
    assert_eq!(engine.bpm(), 125);
    engine.apply(SequencerCommand::AdjustBpm(-10));
    assert_eq!(engine.bpm(), 115);
    engine.apply(SequencerCommand::AdjustBpm(0));
    assert_eq!(engine.bpm(), 115);
}

#[test]
fn adjust_bpm_clamps_at_both_ends() {
    let mut engine = SequencerEngine::new();
    engine.apply(SequencerCommand::AdjustBpm(-1000));
    assert_eq!(engine.bpm(), 20);
    engine.apply(SequencerCommand::AdjustBpm(280));
    assert_eq!(engine.bpm(), 300);
    engine.apply(SequencerCommand::AdjustBpm(1));
    assert_eq!(engine.bpm(), 300);
    engine.apply(SequencerCommand::AdjustBpm(-280));
    assert_eq!(engine.bpm(), 20);
    engine.apply(SequencerCommand::AdjustBpm(-1));
    assert_eq!(engine.bpm(), 20);
}

#[test]
fn adjust_bpm_by_the_largest_deltas_does_not_wrap() {
    let mut engine = SequencerEngine::new();
    engine.apply(SequencerCommand::AdjustBpm(i32::MAX));
    assert_eq!(engine.bpm(), 300);
    engine.apply(SequencerCommand::AdjustBpm(i32::MIN));
    assert_eq!(engine.bpm(), 20);
    engine.apply(SequencerCommand::AdjustBpm(i32::MAX));
    assert_eq!(engine.bpm(), 300);
}

#[test]
fn clamping_after_each_adjustment_is_not_clamping_the_sum() {
    // 120 + 1000 is clamped to 300 before 100 is taken away again.
    let mut stepwise = SequencerEngine::new();
    stepwise.apply(SequencerCommand::AdjustBpm(1000));
    stepwise.apply(SequencerCommand::AdjustBpm(-100));
    assert_eq!(stepwise.bpm(), 200);

    let mut at_once = SequencerEngine::new();
    at_once.apply(SequencerCommand::AdjustBpm(900));
    assert_eq!(at_once.bpm(), 300);
}

#[test]
fn adjustments_in_one_direction_add_up() {
    let mut stepwise = SequencerEngine::new();
    stepwise.apply(SequencerCommand::AdjustBpm(100));
    stepwise.apply(SequencerCommand::AdjustBpm(100));
    let mut at_once = SequencerEngine::new();
    at_once.apply(SequencerCommand::AdjustBpm(200));
    assert_eq!(stepwise.bpm(), 300);
    assert_eq!(at_once.bpm(), 300);

    let mut down = SequencerEngine::new();
    down.apply(SequencerCommand::AdjustBpm(-30));
    down.apply(SequencerCommand::AdjustBpm(-40));
    assert_eq!(down.bpm(), 50);
}

#[test]
fn configure_sets_tempo_and_empties_the_pattern() {
    let mut engine = SequencerEngine::new();
    engine.apply(SequencerCommand::ToggleStep { track: 0, step: 0 });
    engine.apply(SequencerCommand::Play);
    let event = engine.apply(SequencerCommand::Configure { bpm: 90, steps: 16 });
    assert_eq!(event, None);
    assert_eq!(engine.bpm(), 90);
    assert_eq!(engine.step_count(), 16);
    assert_eq!(*engine.pattern(), empty_pattern(4, 16));
    assert!(engine.is_playing());
}

#[test]
fn configure_clamps_the_tempo() {
    let mut engine = SequencerEngine::new();
    engine.apply(SequencerCommand::Configure { bpm: 0, steps: 8 });
    assert_eq!(engine.bpm(), 20);
    engine.apply(SequencerCommand::Configure { bpm: 19, steps: 8 });
    assert_eq!(engine.bpm(), 20);
    engine.apply(SequencerCommand::Configure { bpm: 20, steps: 8 });
    assert_eq!(engine.bpm(), 20);
    engine.apply(SequencerCommand::Configure { bpm: 300, steps: 8 });
    assert_eq!(engine.bpm(), 300);
    engine.apply(SequencerCommand::Configure { bpm: 301, steps: 8 });
    assert_eq!(engine.bpm(), 300);
    engine.apply(SequencerCommand::Configure { bpm: u32::MAX, steps: 8 });
    assert_eq!(engine.bpm(), 300);
}

#[test]
fn configure_keeps_the_track_count_of_the_pattern() {
    let mut engine = SequencerEngine::new();
    engine.apply(SequencerCommand::SetPattern { pattern: two_by_three() });
    assert_eq!(engine.track_count(), 2);
    engine.apply(SequencerCommand::Configure { bpm: 120, steps: 5 });
    assert_eq!(engine.track_count(), 2);
    assert_eq!(*engine.pattern(), empty_pattern(2, 5));
}

#[test]
fn set_pattern_replaces_the_grid_and_takes_its_step_count() {
    let mut engine = SequencerEngine::new();
    let event = engine.apply(SequencerCommand::SetPattern { pattern: two_by_three() });
    assert_eq!(event, None);
    assert_eq!(*engine.pattern(), two_by_three());
    assert_eq!(engine.step_count(), 3);
    assert_eq!(engine.track_count(), 2);
    assert_eq!(engine.bpm(), 120);
}

#[test]
fn set_pattern_without_tracks_keeps_the_step_count() {
    let mut engine = SequencerEngine::new();
    engine.apply(SequencerCommand::SetPattern { pattern: Vec::new() });
    assert_eq!(engine.step_count(), 8);
    assert_eq!(engine.track_count(), 0);
    assert_eq!(
        engine.advance(),
        Some(SequencerEvent::Step { step: 0, hits: vec![] })
    );
}

#[test]
fn toggle_step_flips_one_cell_and_back() {
    let mut engine = SequencerEngine::new();
    assert_eq!(engine.apply(SequencerCommand::ToggleStep { track: 2, step: 5 }), None);
    let mut expected = empty_pattern(4, 8);
    expected[2][5] = true;
    assert_eq!(*engine.pattern(), expected);
    engine.apply(SequencerCommand::ToggleStep { track: 2, step: 5 });
    assert_eq!(*engine.pattern(), empty_pattern(4, 8));
}

#[test]
fn toggle_step_out_of_range_is_absorbed() {
    let mut engine = SequencerEngine::new();
    engine.apply(SequencerCommand::SetPattern { pattern: two_by_three() });
    assert_eq!(engine.apply(SequencerCommand::ToggleStep { track: 2, step: 0 }), None);
    assert_eq!(engine.apply(SequencerCommand::ToggleStep { track: 0, step: 3 }), None);
    assert_eq!(
        engine.apply(SequencerCommand::ToggleStep { track: usize::MAX, step: usize::MAX }),
        None
    );
    assert_eq!(*engine.pattern(), two_by_three());
    assert_eq!(engine.step_count(), 3);
}

#[test]
fn toggle_play_twice_reports_the_flipped_flag_then_the_first() {
    let mut engine = SequencerEngine::new();
    assert!(!engine.is_playing());
    assert_eq!(
        engine.apply(SequencerCommand::TogglePlay),
        Some(SequencerEvent::PlaybackState(true))
    );
    assert!(engine.is_playing());
    assert_eq!(
        engine.apply(SequencerCommand::TogglePlay),
        Some(SequencerEvent::PlaybackState(false))
    );
    assert!(!engine.is_playing());
}

#[test]
fn toggle_play_twice_while_playing() {
    let mut engine = SequencerEngine::new();
    engine.apply(SequencerCommand::Play);
    assert_eq!(
        engine.apply(SequencerCommand::TogglePlay),
        Some(SequencerEvent::PlaybackState(false))
    );
    assert_eq!(
        engine.apply(SequencerCommand::TogglePlay),
        Some(SequencerEvent::PlaybackState(true))
    );
    assert!(engine.is_playing());
}

#[test]
fn stop_while_stopped_still_reports() {
    let mut engine = SequencerEngine::new();
    assert_eq!(
        engine.apply(SequencerCommand::Stop),
        Some(SequencerEvent::PlaybackState(false))
    );
    assert_eq!(
        engine.apply(SequencerCommand::Stop),
        Some(SequencerEvent::PlaybackState(false))
    );
    assert!(!engine.is_playing());
}

#[test]
fn play_while_playing_still_reports() {
    let mut engine = SequencerEngine::new();
    assert_eq!(
        engine.apply(SequencerCommand::Play),
        Some(SequencerEvent::PlaybackState(true))
    );
    assert_eq!(
        engine.apply(SequencerCommand::Play),
        Some(SequencerEvent::PlaybackState(true))
    );
    assert!(engine.is_playing());
}

#[test]
fn advance_reports_each_column_and_wraps() {
    let mut engine = SequencerEngine::new();
    engine.apply(SequencerCommand::SetPattern { pattern: two_by_three() });
    assert_eq!(
        engine.advance(),
        Some(SequencerEvent::Step { step: 0, hits: vec![true, false] })
    );
    assert_eq!(engine.current_step(), 1);
    assert_eq!(
        engine.advance(),
        Some(SequencerEvent::Step { step: 1, hits: vec![false, true] })
    );
    assert_eq!(
        engine.advance(),
        Some(SequencerEvent::Step { step: 2, hits: vec![true, false] })
    );
    assert_eq!(engine.current_step(), 0);
    assert_eq!(
        engine.advance(),
        Some(SequencerEvent::Step { step: 0, hits: vec![true, false] })
    );
    assert_eq!(*engine.pattern(), two_by_three());
}

#[test]
fn advance_does_not_need_the_transport_to_play() {
    let mut engine = SequencerEngine::new();
    assert!(!engine.is_playing());
    assert_eq!(
        engine.advance(),
        Some(SequencerEvent::Step { step: 0, hits: vec![false; 4] })
    );
    assert!(!engine.is_playing());
}

#[test]
fn advance_with_no_steps_fires_nothing() {
    let mut engine = SequencerEngine::new();
    engine.apply(SequencerCommand::Configure { bpm: 120, steps: 0 });
    assert_eq!(engine.step_count(), 0);
    assert_eq!(engine.advance(), None);
    assert_eq!(engine.current_step(), 0);
}

#[test]
fn a_shorter_cycle_folds_the_position() {
    let mut engine = SequencerEngine::new();
    for _ in 0..6 {
        engine.advance();
    }
    assert_eq!(engine.current_step(), 6);
    engine.apply(SequencerCommand::Configure { bpm: 120, steps: 4 });
    assert_eq!(
        engine.advance(),
        Some(SequencerEvent::Step { step: 2, hits: vec![false; 4] })
    );
    assert_eq!(engine.current_step(), 3);
}

#[test]
fn step_interval_follows_the_tempo() {
    let mut engine = SequencerEngine::new();
    engine.apply(SequencerCommand::AdjustBpm(-100));
    assert_eq!(engine.step_interval(), 750);
    engine.apply(SequencerCommand::AdjustBpm(280));
    assert_eq!(engine.step_interval(), 50);
    engine.apply(SequencerCommand::Configure { bpm: 130, steps: 8 });
    assert_eq!(engine.step_interval(), 115);
}
