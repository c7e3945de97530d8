use torrent_playback::layout::desired_priorities;
use torrent_playback::playback::{LibtorrentNetworkPhase, TorrentPlaybackState};

const CLOCK: u64 = 1_000_000_000;

#[test]
fn priority_vector_size_is_constant_operation_for_large_torrent() {
    let priorities = desired_priorities(366, 365, 1).expect("valid file");
    assert_eq!(
        priorities.iter().filter(|&&priority| priority > 0).count(),
        1
    );
}

#[test]
fn switching_file_cancels_previous_generation() {
    let mut state = TorrentPlaybackState::new();
    let first = state.select(1, 1, true, false, true, true, CLOCK);
    let second = state.select(2, 1, true, false, true, true, CLOCK);

    assert!(first.cancellation.is_cancelled());
    assert!(!second.cancellation.is_cancelled());
}

#[test]
fn same_file_range_reuses_generation() {
    let mut state = TorrentPlaybackState::new();
    let first = state.select(7, 1, true, false, true, true, CLOCK);
    let second = state.select(7, 1, true, false, true, true, CLOCK);

    assert_eq!(first.generation, second.generation);
}

#[test]
fn same_file_probe_joins_foreground_without_changing_selection() {
    let mut state = TorrentPlaybackState::new();
    let foreground = state.select(7, 1, true, false, true, true, CLOCK);
    let probe = state.select(7, 1, true, false, true, false, CLOCK);

    assert_eq!(foreground.generation, probe.generation);
    assert!(!probe.changed);
    assert!(probe.subordinate);
    assert_eq!(state.active_foreground_permits(), 1);
}

#[test]
fn complete_file_uses_zero_priority_vector() {
    let priorities = desired_priorities(3, 1, 0).expect("valid file");
    assert_eq!(priorities, vec![0, 0, 0]);
}

#[test]
fn hls_destroy_does_not_leave_pause_pending_when_seeding() {
    let mut state = TorrentPlaybackState::new();
    state.select(2, 1, false, true, true, false, CLOCK);

    let generation = state.begin_pause();
    state.keep_active_for_seeding(generation);

    assert_eq!(state.phase, LibtorrentNetworkPhase::Active);
    assert!(state.selected_file.is_none());
    assert!(state.hls_last_activity.is_none());
}

#[test]
fn complete_same_file_range_preserves_paused_idle_phase() {
    let mut state = TorrentPlaybackState::new();
    state.phase = LibtorrentNetworkPhase::PausedIdle;
    state.selected_file = Some(4);
    state.selected_priority = 0;

    let selection = state.select(4, 0, true, false, false, true, CLOCK);

    assert!(!selection.changed);
    assert_eq!(state.phase, LibtorrentNetworkPhase::PausedIdle);
    assert_eq!(state.active_playback_permits(), 1);
}
