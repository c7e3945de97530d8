use torrent_playback::acknowledgement::{
    metadata_received, metadata_wait, priorities_read_back, priority_received,
    submits_priorities, AlertCodes, AlertInfo, PriorityAck, PrioritySubmission, Received,
    SubmissionStep, FILE_PRIORITY_ACK_TIMEOUT, METADATA_TIMEOUT,
};
use torrent_playback::activation::{Activation, ActivationAction, ActivationEvent};
use torrent_playback::coordinator::{CommandOutcome, DueTorrent, LibtorrentPlaybackCoordinator};
use torrent_playback::domain::{
    emergency_announce, silence_network, start_network, FileInfo, NativeCommand, PlaybackIntent,
    TorrentStatus,
};
use torrent_playback::errors::{PauseStatusSnapshot, PlaybackError};
use torrent_playback::layout::{
    file_count_bucket, same_priorities, FileCompletion, TorrentLayout,
};
use torrent_playback::pausing::{
    pause_status, PauseAction, PauseAttempt, PauseConfirmation, PauseEvent, PauseSilenceTracker,
    PauseWatch,
    PAUSE_CONFIRM_TIMEOUT, PAUSE_POLL_INTERVAL, PAUSE_QUIET_CONFIRMATION,
};
use torrent_playback::permits::PermitCounts;
use torrent_playback::playback::{
    LibtorrentNetworkPhase, TorrentPlaybackState, EMERGENCY_REANNOUNCE_COOLDOWN,
    HLS_ACTIVITY_TTL, IDLE_PAUSE_GRACE, PAUSE_RETRY_DELAY,
};
use torrent_playback::transitions::{HlsEnd, LibtorrentPlaybackStart, PlaybackCommand};

const SECOND: u64 = 1_000_000_000;
const CLOCK: u64 = 100 * SECOND;

const CODES: AlertCodes = AlertCodes {
    metadata_received: 45,
    file_error: 43,
    file_priority: 96,
    torrent_paused: 39,
    read_piece: 5,
};

fn alert(alert_type: i32) -> Received {
    Received::Alert(AlertInfo {
        alert_type,
        category: 0,
        what: String::new(),
        message: "disk is full".to_owned(),
        timestamp: 0,
        info_hash: "abc".to_owned(),
        piece_index: -1,
        piece_data: Vec::new(),
    })
}

fn request(file_idx: usize, intent: PlaybackIntent) -> LibtorrentPlaybackStart {
    LibtorrentPlaybackStart {
        file_idx,
        start_offset: 0,
        priority: 1,
        intent,
        bitrate_bytes_per_sec: None,
        source: "file-reader",
    }
}

fn info(size: i64, downloaded: i64, first_piece: i32, last_piece: i32) -> FileInfo {
    FileInfo { path: "f".to_owned(), size, offset: 0, downloaded, first_piece, last_piece }
}

fn layout() -> TorrentLayout {
    TorrentLayout::query_layout(
        true,
        16,
        vec![info(20, 20, 0, 1), info(40, 0, 1, 3), info(0, 0, 3, 3)],
    )
    .unwrap()
}

fn snapshot() -> PauseStatusSnapshot {
    PauseStatusSnapshot {
        is_paused: true,
        num_peers: 0,
        total_downloaded: 10_000,
        total_uploaded: 200,
        download_rate: 0,
        upload_rate: 0,
    }
}

#[test]
fn hls_activity_expires_after_fifteen_seconds() {
    let mut state = TorrentPlaybackState::new();
    state.select(2, 1, false, true, true, false, CLOCK);

    assert!(state.hls_is_active(CLOCK + 14 * SECOND));

    assert!(!state.hls_is_active(CLOCK + 16 * SECOND));
}

#[test]
fn pause_confirmation_ignores_decaying_rate_estimates() {
    let mut tracker = PauseSilenceTracker::default();
    let mut status = PauseStatusSnapshot {
        is_paused: true,
        num_peers: 0,
        total_downloaded: 10_000,
        total_uploaded: 200,
        download_rate: 4_000_000,
        upload_rate: 1_000,
    };
    assert!(!tracker.observe(status, CLOCK));

    status.download_rate = 10;
    status.upload_rate = 1;
    assert!(tracker.observe(status, CLOCK + PAUSE_QUIET_CONFIRMATION));
}

#[test]
fn pause_confirmation_resets_when_transfer_totals_move() {
    let mut tracker = PauseSilenceTracker::default();
    let mut status = PauseStatusSnapshot {
        is_paused: true,
        num_peers: 0,
        total_downloaded: 10_000,
        total_uploaded: 200,
        download_rate: 0,
        upload_rate: 0,
    };
    assert!(!tracker.observe(status, CLOCK));

    status.total_downloaded += 1;
    assert!(!tracker.observe(status, CLOCK + PAUSE_QUIET_CONFIRMATION));
    assert!(tracker.observe(status, CLOCK + 2 * PAUSE_QUIET_CONFIRMATION));
}

#[test]
fn silence_starts_anew_when_a_peer_returns() {
    let mut tracker = PauseSilenceTracker::default();
    let quiet = snapshot();
    let noisy = PauseStatusSnapshot { num_peers: 1, ..quiet };
    let running = PauseStatusSnapshot { is_paused: false, ..quiet };
    assert!(!tracker.observe(quiet, CLOCK));
    assert!(!tracker.observe(noisy, CLOCK + SECOND));
    assert!(!tracker.observe(quiet, CLOCK + 2 * SECOND));
    assert!(!tracker.observe(running, CLOCK + 3 * SECOND));
    assert!(!tracker.observe(quiet, CLOCK + 4 * SECOND));
    assert!(!tracker.observe(quiet, CLOCK + 4 * SECOND + PAUSE_QUIET_CONFIRMATION - 1));
    assert!(tracker.observe(quiet, CLOCK + 4 * SECOND + PAUSE_QUIET_CONFIRMATION));
}

#[test]
fn pauses_are_watched_until_their_deadline() {
    let mut wait = PauseConfirmation::new(CLOCK);
    let loud = PauseStatusSnapshot { num_peers: 2, download_rate: 5, ..snapshot() };
    assert_eq!(
        wait.watch(loud, CLOCK, CLOCK),
        Ok(PauseWatch::PollUntil(CLOCK + PAUSE_POLL_INTERVAL))
    );
    let late = CLOCK + PAUSE_CONFIRM_TIMEOUT - 1;
    assert_eq!(wait.watch(loud, late, late), Ok(PauseWatch::PollUntil(late + 1)));
    let error = wait.watch(loud, late + 1, late + 1).unwrap_err();
    assert_eq!(
        error.message(),
        "Torrent pause was not silent after 5s (paused=true, peers=2, down=5, up=0, \
         total_down=10000, total_up=200)"
    );

    let mut wait = PauseConfirmation::new(CLOCK);
    wait.watch(snapshot(), CLOCK, CLOCK).unwrap();
    let quiet = CLOCK + PAUSE_QUIET_CONFIRMATION;
    assert_eq!(wait.watch(snapshot(), quiet, quiet), Ok(PauseWatch::Silent));
    assert_eq!(wait.alert_received(alert(39), &CODES), Ok(()));
    assert_eq!(wait.watch(snapshot(), quiet, quiet), Ok(PauseWatch::SilentWithAlert));
    assert_eq!(wait.alert_received(alert(1), &CODES), Ok(()));
    assert_eq!(wait.alert_received(Received::Lagged, &CODES), Ok(()));
    assert_eq!(wait.alert_received(Received::TimedOut, &CODES), Ok(()));
    assert_eq!(
        wait.alert_received(Received::Closed, &CODES).unwrap_err().message(),
        "Libtorrent alert channel closed"
    );
    assert_eq!(
        wait.alert_received(alert(43), &CODES).unwrap_err().message(),
        "Libtorrent file error while pausing: disk is full"
    );
}

#[test]
fn metadata_is_waited_for_half_a_minute() {
    assert_eq!(metadata_wait(0), Ok(METADATA_TIMEOUT));
    assert_eq!(metadata_wait(METADATA_TIMEOUT), Ok(0));
    assert_eq!(
        metadata_wait(METADATA_TIMEOUT + 1).unwrap_err().message(),
        "Timeout waiting for torrent metadata (30s)"
    );
    assert_eq!(metadata_received(alert(45), &CODES), Ok(()));
    assert_eq!(metadata_received(alert(1), &CODES), Ok(()));
    assert_eq!(metadata_received(Received::Lagged, &CODES), Ok(()));
    assert_eq!(
        metadata_received(alert(43), &CODES).unwrap_err().message(),
        "Torrent metadata file error: disk is full"
    );
    assert_eq!(
        metadata_received(Received::Closed, &CODES),
        Err(PlaybackError::AlertChannelClosed)
    );
    assert_eq!(
        metadata_received(Received::TimedOut, &CODES),
        Err(PlaybackError::MetadataTimeout)
    );
}

#[test]
fn priorities_count_only_when_read_back() {
    assert!(submits_priorities(false));
    assert!(!submits_priorities(true));
    assert_eq!(priority_received(alert(96), &CODES), Ok(PriorityAck::Compare));
    assert_eq!(priority_received(alert(1), &CODES), Ok(PriorityAck::Wait));
    assert_eq!(priority_received(Received::Lagged, &CODES), Ok(PriorityAck::Wait));
    assert_eq!(priority_received(Received::TimedOut, &CODES), Ok(PriorityAck::CompareFinally));
    assert_eq!(
        priority_received(alert(43), &CODES).unwrap_err().message(),
        "Libtorrent file priority error: disk is full"
    );
    assert_eq!(
        priority_received(Received::Closed, &CODES),
        Err(PlaybackError::AlertChannelClosed)
    );
    assert_eq!(priorities_read_back(true, &vec![0, 1], &vec![0, 1]), Ok(true));
    assert_eq!(priorities_read_back(false, &vec![0], &vec![0, 1]), Ok(false));
    assert_eq!(
        priorities_read_back(true, &vec![0, 4], &vec![0, 1]).unwrap_err().message(),
        "Libtorrent file priorities did not match after acknowledgement timeout"
    );
}

#[test]
fn errors_have_their_words() {
    for (error, message) in [
        (PlaybackError::TorrentNotFound("gone".to_owned()), "Torrent not found: gone"),
        (PlaybackError::FileIndexOutOfRange(12), "File index 12 out of range"),
        (PlaybackError::ZeroPieceLength, "Torrent piece length is zero"),
        (
            PlaybackError::BackgroundProbeRejected,
            "Background probe rejected because a different playback file is active",
        ),
        (
            PlaybackError::SupersededByNewerFile,
            "Playback request was superseded by a newer file",
        ),
        (
            PlaybackError::SupersededDuringPriorityUpdate,
            "Playback request was superseded during priority update",
        ),
        (
            PlaybackError::SupersededDuringHotWindow,
            "Playback request was superseded while applying its hot window",
        ),
        (
            PlaybackError::SupersededBeforeResume,
            "Playback request was superseded before resume",
        ),
    ] {
        assert_eq!(error.message(), message);
    }
}

#[test]
fn layouts_remember_completion_until_pieces_change() {
    assert!(TorrentLayout::query_layout(false, 16, Vec::new()).is_none());
    assert_eq!(TorrentLayout::query_layout(true, -4, Vec::new()).unwrap().piece_length, 0);
    let mut layout = layout();
    assert_eq!(layout.file_completion(0), Ok(FileCompletion::Known(true)));
    assert_eq!(layout.file_completion(2), Ok(FileCompletion::Known(true)));
    assert_eq!(
        layout.file_completion(1),
        Ok(FileCompletion::Unknown { first_piece: 1, last_piece: 3 })
    );
    assert_eq!(layout.file_completion(3), Err(PlaybackError::FileIndexOutOfRange(3)));
    assert!(!layout.record_completion(1, &vec![true, false, true]));
    assert_eq!(layout.file_completion(1), Ok(FileCompletion::Known(false)));
    layout.piece_verified(1);
    assert_eq!(layout.completion, vec![Some(true), None, Some(true)]);
    assert!(layout.record_completion(1, &vec![true, true, true]));
    layout.piece_verified(2);
    assert_eq!(layout.completion, vec![Some(true), Some(true), Some(true)]);
    layout.piece_invalidated(1);
    assert_eq!(layout.completion, vec![None, None, Some(true)]);

    assert!(same_priorities(&vec![1, 0], &vec![1, 0]));
    assert!(!same_priorities(&vec![1, 0], &vec![1]));
    assert_eq!(
        [0, 1, 2, 10, 11, 100, 101].map(file_count_bucket),
        ["1", "1", "2-10", "2-10", "11-100", "11-100", "101+"]
    );
}

#[test]
fn permits_are_given_back_without_a_trace() {
    let mut permits = PermitCounts::new();
    permits.grant(3);
    permits.grant(3);
    permits.grant(8);
    assert_eq!((permits.count(3), permits.count(8), permits.total()), (2, 1, 3));
    permits.give_back(3);
    permits.give_back(3);
    permits.give_back(3);
    permits.give_back(5);
    assert_eq!((permits.count(3), permits.count(5), permits.total()), (0, 0, 1));
}

#[test]
fn a_reader_leaves_the_counts_as_it_found_them() {
    let mut state = TorrentPlaybackState::new();
    let (mut permit, selection) = state
        .start_playback("abc".to_owned(), &request(1, PlaybackIntent::DirectInitial), false, true, CLOCK)
        .unwrap();
    assert!(selection.changed);
    assert!(!permit.is_cancelled() && !permit.is_subordinate());
    assert_eq!((state.selected_file, state.selected_priority), (Some(1), 1));
    assert_eq!(state.phase, LibtorrentNetworkPhase::Active);
    assert_eq!(state.active_playback_permits(), 1);
    match permit.release() {
        Some(PlaybackCommand::ReleasePlayback { info_hash, file_idx, generation, foreground }) => {
            assert_eq!((info_hash.as_str(), file_idx, foreground), ("abc", 1, true));
            state.release_playback(generation, foreground, CLOCK);
        }
        other => panic!("{other:?}"),
    }
    assert!(permit.release().is_none());
    assert_eq!(state.active_playback_permits(), 0);
    assert_eq!(state.idle_deadline, Some(CLOCK + IDLE_PAUSE_GRACE));
    state.begin_pause();
    assert!(permit.is_cancelled());
}

#[test]
fn every_generation_starts_with_a_clear_token() {
    let mut state = TorrentPlaybackState::new();
    let added = state.cancellation.clone();
    assert!(!added.is_cancelled());
    let first = state.select(1, 1, true, false, true, true, CLOCK);
    assert!(added.is_cancelled() && !first.cancellation.is_cancelled());
    let again = state.select(1, 1, true, false, true, true, CLOCK);
    assert!(!again.changed && !again.cancellation.is_cancelled());
    state.begin_pause();
    assert!(first.cancellation.is_cancelled() && again.cancellation.is_cancelled());
    assert!(!state.cancellation.is_cancelled());
    let hls = state.refresh_hls(2, false, true, CLOCK);
    assert!(!hls.cancellation.is_cancelled());
    state.end_hls(2, true);
    assert!(hls.cancellation.is_cancelled() && !state.cancellation.is_cancelled());
}

#[test]
fn probes_yield_to_the_file_that_plays() {
    let mut state = TorrentPlaybackState::new();
    let (_leader, _) = state
        .start_playback("abc".to_owned(), &request(1, PlaybackIntent::DownloadFull), false, true, CLOCK)
        .unwrap();
    assert_eq!(state.selected_priority, 7);
    let refused = state.start_playback(
        "abc".to_owned(),
        &request(2, PlaybackIntent::InternalProbe),
        false,
        true,
        CLOCK,
    );
    assert!(matches!(refused, Err(PlaybackError::BackgroundProbeRejected)));
    let (probe, selection) = state
        .start_playback("abc".to_owned(), &request(1, PlaybackIntent::InternalProbe), false, true, CLOCK)
        .unwrap();
    assert!(probe.is_subordinate());
    assert!(!selection.changed);
    assert_eq!(selection.native_priority, 7);
    // A complete file is read locally and leaves the phase alone.
    let mut idle = TorrentPlaybackState::new();
    idle.start_playback("abc".to_owned(), &request(1, PlaybackIntent::DirectSeek), true, false, CLOCK)
        .unwrap();
    assert_eq!(idle.phase, LibtorrentNetworkPhase::PausedIdle);
    assert_eq!(idle.selected_priority, 0);
}

#[test]
fn hls_ends_as_seeding_and_phase_have_it() {
    let mut state = TorrentPlaybackState::new();
    assert_eq!(state.end_hls(4, false), HlsEnd::Ignored);
    state.refresh_hls(4, false, false, CLOCK);
    assert_eq!(state.end_hls(4, false), HlsEnd::Pause { generation: 2 });
    assert_eq!(state.phase, LibtorrentNetworkPhase::PausePending);

    let mut state = TorrentPlaybackState::new();
    state.refresh_hls(4, false, true, CLOCK);
    assert_eq!(state.end_hls(9, true), HlsEnd::KeptActive { generation: 2 });
    assert_eq!(state.phase, LibtorrentNetworkPhase::Active);

    let mut state = TorrentPlaybackState::new();
    state.refresh_hls(4, true, false, CLOCK);
    assert_eq!(state.end_hls(4, false), HlsEnd::AlreadyPaused { generation: 2 });
    assert_eq!(state.phase, LibtorrentNetworkPhase::PausedIdle);
}

#[test]
fn metadata_queries_wake_and_announce_once() {
    let mut state = TorrentPlaybackState::new();
    let first = state.acquire_metadata(false, true);
    assert!(first.resume && first.announce);
    assert_eq!(state.phase, LibtorrentNetworkPhase::Active);
    let second = state.acquire_metadata(false, false);
    assert!(!second.resume && !second.announce);
    assert!(state.has_activity(CLOCK));
    state.release_metadata(CLOCK);
    state.release_metadata(CLOCK);
    assert!(!state.has_activity(CLOCK));
    assert_eq!(state.idle_deadline, Some(CLOCK + IDLE_PAUSE_GRACE));
    let known = state.acquire_metadata(true, true);
    assert!(!known.resume && !known.announce);
    assert_eq!(
        start_network(true, true),
        vec![
            NativeCommand::Resume,
            NativeCommand::ForceReannounce { first_flag: true, second_flag: false },
            NativeCommand::ForceDhtAnnounce,
        ]
    );
    assert!(start_network(false, false).is_empty());
}

#[test]
fn emergency_announces_keep_their_distance() {
    let mut state = TorrentPlaybackState::new();
    assert!(!state.emergency_reannounce(1, false, CLOCK));
    assert!(!state.emergency_reannounce(0, true, CLOCK));
    assert!(state.emergency_reannounce(0, false, CLOCK));
    assert!(!state.emergency_reannounce(0, false, CLOCK + EMERGENCY_REANNOUNCE_COOLDOWN - 1));
    assert!(state.emergency_reannounce(0, false, CLOCK + EMERGENCY_REANNOUNCE_COOLDOWN));
    assert_eq!(
        emergency_announce(),
        vec![NativeCommand::ForceReannounce { first_flag: true, second_flag: true }]
    );
}

#[test]
fn an_activation_goes_step_by_step() {
    let mut state = TorrentPlaybackState::new();
    let selection = state.select(1, 1, true, false, true, true, CLOCK);
    let activation = Activation::new(1, 3, &selection, false);
    assert_eq!(
        activation.advance(&mut state, ActivationEvent::Started, true),
        Ok(ActivationAction::ApplyFilePriorities(vec![0, 1, 0]))
    );
    assert_eq!(
        activation.advance(&mut state, ActivationEvent::PrioritiesApplied, true),
        Ok(ActivationAction::ApplyHotWindow)
    );
    assert_eq!(state.acknowledged_priorities, Some(vec![0, 1, 0]));
    assert_eq!(
        activation.advance(&mut state, ActivationEvent::HotWindowApplied { first_piece: 5 }, true),
        Ok(ActivationAction::InspectNative { first_piece: 5 })
    );
    assert_eq!(state.selected_first_piece, Some(5));
    assert_eq!(
        activation.advance(
            &mut state,
            ActivationEvent::NativeInspected { is_paused: true, first_piece_present: true },
            true
        ),
        Ok(ActivationAction::StartNetwork { resume: true, announce: true })
    );
    assert_eq!(state.selected_first_piece, None);

    // The same file again needs no new priorities.
    let selection = state.select(1, 1, true, false, true, true, CLOCK);
    let again = Activation::new(1, 3, &selection, false);
    assert_eq!(
        again.advance(&mut state, ActivationEvent::Started, true),
        Ok(ActivationAction::ApplyHotWindow)
    );
}

#[test]
fn an_overtaken_activation_stops_everywhere() {
    let mut state = TorrentPlaybackState::new();
    let selection = state.select(1, 1, true, false, true, true, CLOCK);
    let activation = Activation::new(1, 3, &selection, false);
    state.select(2, 1, true, false, true, true, CLOCK);
    for (event, error) in [
        (ActivationEvent::Started, PlaybackError::SupersededByNewerFile),
        (ActivationEvent::PrioritiesApplied, PlaybackError::SupersededDuringPriorityUpdate),
        (
            ActivationEvent::HotWindowApplied { first_piece: 5 },
            PlaybackError::SupersededDuringHotWindow,
        ),
        (
            ActivationEvent::NativeInspected { is_paused: true, first_piece_present: true },
            PlaybackError::SupersededBeforeResume,
        ),
    ] {
        assert_eq!(activation.advance(&mut state, event, true), Err(error));
    }
    assert_eq!(state.acknowledged_priorities, None);
    assert_eq!(state.selected_first_piece, None);
}

#[test]
fn complete_files_are_activated_without_pieces() {
    let mut state = TorrentPlaybackState::new();
    let selection = state.select(1, 0, true, false, false, true, CLOCK);
    let activation = Activation::new(1, 2, &selection, true);
    assert_eq!(
        activation.advance(&mut state, ActivationEvent::Started, false),
        Ok(ActivationAction::ApplyFilePriorities(vec![0, 0]))
    );
    assert_eq!(
        activation.advance(&mut state, ActivationEvent::PrioritiesApplied, false),
        Ok(ActivationAction::PauseComplete)
    );
    assert_eq!(
        activation.advance(&mut state, ActivationEvent::Started, false),
        Ok(ActivationAction::LocalFastPath)
    );
    assert_eq!(
        activation.advance(&mut state, ActivationEvent::Started, true),
        Ok(ActivationAction::CompleteWhileSeeding)
    );
    let outside = Activation { file_idx: 1, file_count: 1, ..activation };
    assert_eq!(
        outside.advance(&mut state, ActivationEvent::Started, false),
        Err(PlaybackError::FileIndexOutOfRange(1))
    );
    let joined = Activation { subordinate: true, ..activation };
    assert_eq!(
        joined.advance(&mut state, ActivationEvent::Started, false),
        Ok(ActivationAction::JoinedGeneration)
    );
}

#[test]
fn a_pause_goes_step_by_step() {
    let mut state = TorrentPlaybackState::new();
    state.select(1, 1, true, false, true, true, CLOCK);
    let attempt = PauseAttempt { generation: state.generation, clear_selection: true };
    assert_eq!(
        attempt.advance(&mut state, PauseEvent::Requested, false),
        PauseAction::HoldOperation
    );
    assert_eq!(
        attempt.advance(&mut state, PauseEvent::OperationHeld, false),
        PauseAction::SilenceNative
    );
    assert_eq!(
        attempt.advance(&mut state, PauseEvent::Silent { file_count: 2 }, false),
        PauseAction::ApplyFilePriorities(vec![0, 0])
    );
    assert_eq!(state.phase, LibtorrentNetworkPhase::Active);
    assert_eq!(
        attempt.advance(&mut state, PauseEvent::PrioritiesCleared { file_count: 2 }, false),
        PauseAction::Finished
    );
    assert_eq!(state.phase, LibtorrentNetworkPhase::PausedIdle);
    assert_eq!(state.acknowledged_priorities, Some(vec![0, 0]));
    assert_eq!((state.selected_file, state.selected_priority), (None, 0));

    // Without files there is nothing to clear.
    let mut state = TorrentPlaybackState::new();
    state.select(1, 1, true, false, true, true, CLOCK);
    let attempt = PauseAttempt { generation: state.generation, clear_selection: false };
    assert_eq!(
        attempt.advance(&mut state, PauseEvent::Silent { file_count: 0 }, false),
        PauseAction::Finished
    );
    assert_eq!(state.selected_file, Some(1));
    assert_eq!(state.phase, LibtorrentNetworkPhase::PausedIdle);
    assert_eq!(
        silence_network(false),
        vec![
            NativeCommand::ClearPieceDeadlines,
            NativeCommand::SetSequentialDownload(false),
            NativeCommand::Pause,
        ]
    );
    assert_eq!(silence_network(true).len(), 2);
}

#[test]
fn an_overtaken_pause_stops_everywhere() {
    let mut state = TorrentPlaybackState::new();
    let generation = state.begin_pause();
    let attempt = PauseAttempt { generation, clear_selection: true };
    assert_eq!(attempt.advance(&mut state, PauseEvent::Requested, true), PauseAction::Finished);
    assert_eq!(state.phase, LibtorrentNetworkPhase::Active);
    state.select(1, 1, true, false, true, true, CLOCK);
    for event in [
        PauseEvent::OperationHeld,
        PauseEvent::Silent { file_count: 2 },
        PauseEvent::PrioritiesCleared { file_count: 2 },
    ] {
        assert_eq!(attempt.advance(&mut state, event, false), PauseAction::Finished);
    }
    assert_eq!(state.selected_file, Some(1));
    assert_eq!(state.phase, LibtorrentNetworkPhase::Active);
}

#[test]
fn torrents_are_known_by_their_lowercase_identity() {
    let mut coordinator = LibtorrentPlaybackCoordinator::new();
    assert!(coordinator.seeding_enabled);
    coordinator.register_torrent("ABC");
    coordinator.register_torrent("abc");
    assert_eq!(coordinator.entries.entries.len(), 1);
    assert_eq!(coordinator.entry("aBc"), 0);
    let token = coordinator.entries.entries[0].1.state.cancellation.clone();
    assert!(coordinator.remove_torrent("ABC"));
    assert!(token.is_cancelled());
    assert!(!coordinator.remove_torrent("ABC"));
    match LibtorrentPlaybackCoordinator::observe_piece_verified("ABC", 4) {
        PlaybackCommand::PieceVerified { info_hash, piece: 4 } => assert_eq!(info_hash, "abc"),
        other => panic!("{other:?}"),
    }
    match LibtorrentPlaybackCoordinator::observe_piece_invalidated("ABC", 4) {
        PlaybackCommand::PieceInvalidated { info_hash, piece: 4 } => assert_eq!(info_hash, "abc"),
        other => panic!("{other:?}"),
    }
}

#[test]
fn idle_torrents_are_paused_when_nothing_seeds() {
    let mut coordinator = LibtorrentPlaybackCoordinator::new();
    for hash in ["a", "b", "c"] {
        let index = coordinator.entry(hash);
        let state = &mut coordinator.entries.value_at(index).state;
        let selection = state.select(0, 1, true, false, true, true, CLOCK);
        if hash != "b" {
            let release = PlaybackCommand::ReleasePlayback {
                info_hash: hash.to_uppercase(),
                file_idx: 0,
                generation: selection.generation,
                foreground: true,
            };
            assert_eq!(coordinator.handle_command(release, CLOCK), CommandOutcome::Done);
        }
    }
    let due = CLOCK + IDLE_PAUSE_GRACE;
    assert!(coordinator.pause_due_torrents(due).is_empty());
    let off = coordinator.set_seeding_enabled(false);
    assert_eq!(coordinator.handle_command(off, CLOCK), CommandOutcome::Done);
    assert!(coordinator.pause_due_torrents(due - 1).is_empty());
    assert_eq!(
        coordinator.pause_due_torrents(due),
        vec![
            DueTorrent { info_hash: "a".to_owned(), generation: 2 },
            DueTorrent { info_hash: "c".to_owned(), generation: 2 },
        ]
    );
    let state = &mut coordinator.entries.value_at(0).state;
    assert_eq!(state.phase, LibtorrentNetworkPhase::PausePending);
    state.idle_pause_failed(2, due);
    assert_eq!(state.idle_deadline, Some(due + PAUSE_RETRY_DELAY));
    assert_eq!(
        coordinator.pause_due_torrents(due + PAUSE_RETRY_DELAY),
        vec![DueTorrent { info_hash: "a".to_owned(), generation: 2 }]
    );

    let on = coordinator.set_seeding_enabled(true);
    assert_eq!(
        coordinator.handle_command(on, CLOCK),
        CommandOutcome::ResumeForSeeding(vec!["a".to_owned(), "b".to_owned(), "c".to_owned()])
    );
    let state = &mut coordinator.entries.value_at(0).state;
    assert!(state.begin_seeding_resume());
    state.finish_seeding_resume();
    assert_eq!(state.phase, LibtorrentNetworkPhase::Active);
    assert!(!state.begin_seeding_resume());
}

#[test]
fn expired_hls_playback_is_paused() {
    let mut coordinator = LibtorrentPlaybackCoordinator::new();
    coordinator.set_seeding_enabled(false);
    let index = coordinator.entry("a");
    coordinator.entries.value_at(index).state.refresh_hls(0, false, false, CLOCK);
    assert!(coordinator.pause_due_torrents(CLOCK + HLS_ACTIVITY_TTL - 1).is_empty());
    assert_eq!(coordinator.pause_due_torrents(CLOCK + HLS_ACTIVITY_TTL).len(), 1);
}

#[test]
fn verified_pieces_may_complete_the_selected_file() {
    let mut coordinator = LibtorrentPlaybackCoordinator::new();
    let verified = |piece: i32| PlaybackCommand::PieceVerified { info_hash: "a".to_owned(), piece };
    assert_eq!(coordinator.handle_command(verified(1), CLOCK), CommandOutcome::Done);
    assert!(coordinator.entries.entries.is_empty());

    coordinator.keep_layout("A", layout());
    let mut other = layout();
    other.piece_length = 99;
    coordinator.keep_layout("a", other);
    let entry = coordinator.entries.value_at(0);
    assert_eq!(entry.layout.as_ref().unwrap().piece_length, 16);
    let selection = entry.state.select(1, 1, true, false, true, true, CLOCK);
    entry.state.selected_first_piece = Some(2);
    entry.layout.as_mut().unwrap().record_completion(1, &vec![false, true, true]);

    // While torrents seed, a complete file needs no pause.
    assert_eq!(coordinator.handle_command(verified(1), CLOCK), CommandOutcome::Done);
    assert_eq!(coordinator.entries.value_at(0).state.selected_first_piece, Some(2));
    coordinator.set_seeding_enabled(false);
    assert_eq!(
        coordinator.handle_command(verified(2), CLOCK),
        CommandOutcome::CheckCompletion {
            info_hash: "a".to_owned(),
            file_idx: 1,
            generation: selection.generation,
        }
    );
    let entry = coordinator.entries.value_at(0);
    assert_eq!(entry.state.selected_first_piece, None);
    assert_eq!(entry.layout.as_ref().unwrap().completion, vec![Some(true), None, Some(true)]);
    assert!(entry.state.begin_completion_pause(1, selection.generation));
    assert!(!entry.state.begin_completion_pause(1, selection.generation));
    entry.state.completion_pause_failed(selection.generation);
    assert_eq!(entry.state.phase, LibtorrentNetworkPhase::Active);

    let lost = PlaybackCommand::PieceInvalidated { info_hash: "a".to_owned(), piece: 0 };
    assert_eq!(coordinator.handle_command(lost, CLOCK), CommandOutcome::Done);
    let entry = coordinator.entries.value_at(0);
    assert_eq!(entry.layout.as_ref().unwrap().completion, vec![None, None, Some(true)]);
}

#[test]
fn releases_reach_torrents_that_were_never_registered() {
    let mut coordinator = LibtorrentPlaybackCoordinator::new();
    let release = PlaybackCommand::ReleaseMetadata { info_hash: "X".to_owned(), generation: 0 };
    assert_eq!(coordinator.handle_command(release, CLOCK), CommandOutcome::Done);
    assert_eq!(coordinator.entries.entries[0].0, "x");
    assert_eq!(
        coordinator.entries.value_at(0).state.idle_deadline,
        Some(CLOCK + IDLE_PAUSE_GRACE)
    );
}

#[test]
fn a_submission_ends_when_it_is_read_back() {
    let mut submission = PrioritySubmission::submitted(vec![0, 1], CLOCK);
    assert_eq!(submission.deadline, CLOCK + FILE_PRIORITY_ACK_TIMEOUT);
    assert_eq!(submission.received(Received::Lagged, &CODES), Ok(SubmissionStep::Receive));
    assert_eq!(submission.received(alert(96), &CODES), Ok(SubmissionStep::ReadBack));
    assert_eq!(submission.read_back(&vec![0, 0]), Ok(SubmissionStep::Receive));
    assert_eq!(submission.read_back(&vec![0, 1]), Ok(SubmissionStep::InForce));
    assert_eq!(submission.received(Received::TimedOut, &CODES), Ok(SubmissionStep::ReadBack));
    assert_eq!(
        submission.read_back(&vec![0, 0]),
        Err(PlaybackError::FilePrioritiesMismatch)
    );
    assert_eq!(submission.read_back(&vec![0, 1]), Ok(SubmissionStep::InForce));
    assert_eq!(
        submission.received(alert(43), &CODES),
        Err(PlaybackError::FilePriorityError("disk is full".to_owned()))
    );
}

#[test]
fn a_silenced_torrent_serves_complete_files_locally() {
    let mut state = TorrentPlaybackState::new();
    let selection = state.select(1, 0, true, false, true, true, CLOCK);
    let attempt = PauseAttempt { generation: selection.generation, clear_selection: false };
    attempt.advance(&mut state, PauseEvent::PrioritiesCleared { file_count: 2 }, false);
    let again = state.select(1, 0, true, false, false, true, CLOCK);
    let activation = Activation::new(1, 2, &again, true);
    assert_eq!(
        activation.advance(&mut state, ActivationEvent::Started, false),
        Ok(ActivationAction::LocalFastPath)
    );
}

#[test]
fn pause_counters_are_read_from_the_status() {
    let status = TorrentStatus {
        has_metadata: true,
        is_paused: true,
        is_seeding: false,
        num_peers: 3,
        download_rate: 4,
        upload_rate: 5,
        total_downloaded: 6,
        total_uploaded: 7,
    };
    assert_eq!(
        pause_status(&status),
        PauseStatusSnapshot {
            is_paused: true,
            num_peers: 3,
            total_downloaded: 6,
            total_uploaded: 7,
            download_rate: 4,
            upload_rate: 5,
        }
    );
}

#[test]
fn added_torrents_are_silent_until_something_needs_them() {
    let mut state = TorrentPlaybackState::new();
    assert_eq!(state.phase, LibtorrentNetworkPhase::PausedIdle);
    assert_eq!(state.selected_file, None);
    assert!(!state.has_activity(CLOCK));
    assert_eq!(state.begin_due_pause(CLOCK), None);
    state.acquire_metadata(true, true);
    assert_eq!(state.phase, LibtorrentNetworkPhase::PausedIdle);
    state.select(0, 1, true, false, true, true, CLOCK);
    assert_eq!(state.phase, LibtorrentNetworkPhase::Active);
}
