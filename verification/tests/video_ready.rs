use stremio_shell::video_ready::VideoReadyState;

#[test]
fn ready_follows_file_loaded_restart_once() {
    let mut state = VideoReadyState::default();
    let load_id = state.begin_transition(true);
    state.start_file();
    assert_eq!(state.playback_restarted(), None);
    state.file_loaded();
    assert_eq!(state.playback_restarted(), Some(load_id));
    assert_eq!(state.playback_restarted(), None);
}

#[test]
fn new_transition_ignores_previous_file_events() {
    let mut state = VideoReadyState::default();
    state.begin_transition(true);
    state.start_file();

    let current_load = state.begin_transition(true);
    state.file_loaded();
    assert_eq!(state.playback_restarted(), None);

    state.start_file();
    state.file_loaded();
    assert_eq!(state.playback_restarted(), Some(current_load));
}

#[test]
fn stop_never_becomes_ready() {
    let mut state = VideoReadyState::default();
    state.begin_transition(false);
    state.file_loaded();
    assert_eq!(state.playback_restarted(), None);
}

#[test]
fn a_stop_outlives_the_file_before_it() {
    let mut state = VideoReadyState::default();
    state.begin_transition(true);
    state.begin_transition(false);
    state.start_file();
    state.file_loaded();
    assert_eq!(state.playback_restarted(), None);
    state.start_file();
    state.file_loaded();
    assert_eq!(state.playback_restarted(), None);
}

#[test]
fn loads_are_numbered_from_one_and_reported_in_order() {
    let mut state = VideoReadyState::default();
    assert!(state.can_begin());
    let mut reports = vec![];
    for expected in 1..=3u64 {
        assert_eq!(state.begin_transition(true), expected);
        state.start_file();
        state.file_loaded();
        reports.extend(state.playback_restarted());
        reports.extend(state.playback_restarted());
    }
    assert_eq!(reports, vec![1, 2, 3]);
}

#[test]
fn a_new_start_needs_a_new_load() {
    let mut state = VideoReadyState::default();
    state.begin_transition(true);
    state.start_file();
    state.file_loaded();
    state.start_file();
    assert_eq!(state.playback_restarted(), None);
}
