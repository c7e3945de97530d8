use std::sync::Arc;
use torrent_playback::domain::{NativeCommand, PlaybackIntent};
use torrent_playback::stream::{
    broker_slice_bounds, starts_open, BrokerPoll, FilePoll, LibtorrentDiskFileStream, OpenOutcome,
    OpenPoll, PieceRequest, ReadStep, SeekPoll, SeekTarget, StreamError, StreamErrorKind,
    StreamFile, PIECE_READ_RETRY, SCRATCH_BYTES, URGENT_REASSERT_INTERVAL,
};
use torrent_playback::window::{
    active_forward_window, pinned_metadata_missing, read_ahead_priority, widened_window_count,
    window_count,
};

const NOW: u64 = 100_000_000_000;
const INTERVAL: u64 = 1_000_000_000;

/// Ten bytes per piece; the file covers bytes 25..95 of the torrent.
fn file() -> StreamFile {
    StreamFile { first_piece: 2, last_piece: 9, piece_length: 10, file_offset: 25, file_size: 70 }
}

fn stream(intent: PlaybackIntent) -> LibtorrentDiskFileStream {
    LibtorrentDiskFileStream::new(
        file(),
        13,
        intent,
        PlaybackIntent::DirectSequential,
        false,
        false,
        NOW,
    )
}

fn urgent(piece: i32) -> Vec<NativeCommand> {
    ask(piece, 7, 0)
}

fn ask(piece: i32, priority: i32, deadline_ms: i32) -> Vec<NativeCommand> {
    vec![
        NativeCommand::SetPiecePriority { piece, priority },
        NativeCommand::SetPieceDeadline { piece, deadline_ms },
    ]
}

#[test]
fn broker_slices_a_file_that_starts_inside_a_shared_piece() {
    // Piece 2 spans global bytes 32..48. This file starts four bytes into
    // that piece, so only piece bytes 4..16 belong to its first read.
    assert_eq!(broker_slice_bounds(2, 16, 36, 0, 20, 16, 64), Some((4, 16)));
}

#[test]
fn broker_does_not_cross_the_selected_file_boundary() {
    assert_eq!(broker_slice_bounds(2, 16, 32, 0, 5, 16, 64), Some((0, 5)));
}

#[test]
fn slices_end_with_the_request_the_piece_and_the_file() {
    assert_eq!(broker_slice_bounds(2, 16, 32, 3, 64, 16, 4), Some((3, 7)));
    assert_eq!(broker_slice_bounds(2, 16, 32, 3, 64, 16, 0), None);
    assert_eq!(broker_slice_bounds(2, 16, 32, 64, 64, 16, 4), None);
    assert_eq!(broker_slice_bounds(2, 16, 32, 16, 64, 16, 4), None);
    assert_eq!(broker_slice_bounds(-3, 16, 2, 0, 8, 16, 4), Some((2, 6)));
    assert_eq!(broker_slice_bounds(i32::MAX, u64::MAX, u64::MAX, 1, 9, 16, 4), Some((0, 4)));
}

#[test]
fn a_read_begins_with_the_piece_at_the_position() {
    let mut reader = stream(PlaybackIntent::DirectInitial);
    assert!(matches!(reader.poll_read(false, 64), ReadStep::Inspect { piece: 2 }));
    assert!(matches!(reader.poll_read(true, 64), ReadStep::Failed(StreamError::Superseded)));
    assert!(matches!(reader.poll_read(false, 0), ReadStep::Finished));
    reader.start_seek(SeekTarget::Start(70));
    assert!(matches!(reader.poll_read(false, 64), ReadStep::Finished));
    reader.start_seek(SeekTarget::Start(69));
    assert!(matches!(reader.poll_read(false, 64), ReadStep::Inspect { piece: 9 }));

    reader.file.last_piece = 8;
    assert!(matches!(reader.poll_read(false, 64), ReadStep::Failed(StreamError::OutsideFile)));
    reader.file.piece_length = 0;
    assert!(matches!(reader.poll_read(false, 64), ReadStep::Failed(StreamError::ZeroPieceLength)));
    assert_eq!(reader.current_piece(), Err(StreamError::ZeroPieceLength));
}

#[test]
fn failures_are_told_apart() {
    assert_eq!(StreamError::Superseded.kind(), StreamErrorKind::Interrupted);
    assert_eq!(
        StreamError::Superseded.message(),
        Some("playback superseded by a newer torrent file")
    );
    assert_eq!(StreamError::ZeroPieceLength.kind(), StreamErrorKind::InvalidData);
    assert_eq!(StreamError::ZeroPieceLength.message(), Some("torrent piece length is zero"));
    assert_eq!(StreamError::OutsideFile.kind(), StreamErrorKind::UnexpectedEof);
    assert_eq!(
        StreamError::OutsideFile.message(),
        Some("read position is outside selected torrent file")
    );
    for outside in [StreamError::BrokerTask, StreamError::Open, StreamError::Seek, StreamError::Read] {
        assert_eq!(outside.kind(), StreamErrorKind::Outside);
        assert_eq!(outside.message(), None);
    }
}

#[test]
fn a_missing_piece_is_fetched_and_served() {
    let mut reader = stream(PlaybackIntent::DirectInitial);
    let request = match reader.piece_inspected(2, false, 64, NOW) {
        ReadStep::PollBroker { piece: 2, available: None, request: Some(request) } => request,
        other => panic!("{other:?}"),
    };
    assert_eq!(
        request,
        PieceRequest { piece: 2, priority: 7, deadline_ms: 0, abort_previous: false }
    );
    assert!(matches!(
        reader.broker_polled(2, None, BrokerPoll::Pending, 64, NOW),
        ReadStep::Wait { piece: 2 }
    ));
    assert!(matches!(
        reader.piece_inspected(2, false, 64, NOW),
        ReadStep::PollBroker { request: None, .. }
    ));

    // The piece holds torrent bytes 20..30, of which the file starts at 25.
    let data = Arc::new((20..30).collect::<Vec<u8>>());
    match reader.broker_polled(2, None, BrokerPoll::Bytes(data), 64, NOW) {
        ReadStep::Deliver { bytes, next_piece: 3 } => assert_eq!(bytes, vec![25, 26, 27, 28, 29]),
        other => panic!("{other:?}"),
    }
    assert_eq!(reader.current_pos, 5);
    assert!(reader.first_byte_read);
    assert_eq!(reader.consecutive_waits, 0);
}

#[test]
fn bytes_at_hand_are_handed_out_piecemeal_and_in_order() {
    let mut reader = stream(PlaybackIntent::DirectSeek);
    reader.start_seek(SeekTarget::Start(5));
    reader.broker_piece = Some((3, Arc::new((30..40).collect())));
    assert_eq!(reader.serve_broker_piece(3, 4), Some(vec![30, 31, 32, 33]));
    assert_eq!(reader.serve_broker_piece(3, 64), Some(vec![34, 35, 36, 37, 38, 39]));
    assert_eq!(reader.serve_broker_piece(3, 64), None);
    assert_eq!(reader.serve_broker_piece(4, 64), None);
    assert_eq!(reader.current_pos, 15);
}

#[test]
fn failed_fetches_are_waited_out() {
    let mut reader = stream(PlaybackIntent::DirectInitial);
    assert!(reader.request_piece_from_libtorrent(2, NOW).is_some());
    assert_eq!(reader.request_piece_from_libtorrent(2, NOW), None);
    assert_eq!(reader.poll_piece_broker(2, BrokerPoll::NoBytes, NOW), Ok(()));
    assert_eq!(reader.request_piece_from_libtorrent(2, NOW + PIECE_READ_RETRY - 1), None);
    assert!(reader.request_piece_from_libtorrent(2, NOW + PIECE_READ_RETRY).is_some());

    assert_eq!(
        reader.poll_piece_broker(2, BrokerPoll::TaskFailed { cancelled: false }, NOW),
        Err(StreamError::BrokerTask)
    );
    assert_eq!(reader.piece_read_retry_at, Some((2, NOW + PIECE_READ_RETRY)));
    let other = reader.request_piece_from_libtorrent(3, NOW).unwrap();
    assert!(!other.abort_previous);
    let instead = reader.request_piece_from_libtorrent(4, NOW).unwrap();
    assert!(instead.abort_previous);
    assert_eq!(
        reader.poll_piece_broker(4, BrokerPoll::TaskFailed { cancelled: true }, NOW),
        Ok(())
    );
    assert_eq!(reader.piece_read, None);
    assert_eq!(reader.poll_piece_broker(4, BrokerPoll::NoBytes, NOW), Ok(()));
    assert_eq!(reader.piece_read_retry_at, Some((2, NOW + PIECE_READ_RETRY)));
    assert!(matches!(
        reader.broker_polled(4, None, BrokerPoll::Pending, 64, NOW),
        ReadStep::Wait { piece: 4 }
    ));
}

#[test]
fn a_dead_fetch_fails_the_read() {
    let mut reader = stream(PlaybackIntent::DirectInitial);
    reader.piece_inspected(2, false, 64, NOW);
    assert!(matches!(
        reader.broker_polled(2, None, BrokerPoll::TaskFailed { cancelled: false }, 64, NOW),
        ReadStep::Failed(StreamError::BrokerTask)
    ));
}

#[test]
fn a_verified_piece_is_read_from_disk() {
    let mut reader = stream(PlaybackIntent::DirectSeek);
    reader.start_seek(SeekTarget::Start(7));
    assert_eq!(reader.bytes_available_in_verified_piece(3), 8);
    assert!(matches!(
        reader.piece_inspected(3, true, 64, NOW),
        ReadStep::PollBroker { piece: 3, available: Some(8), request: Some(_) }
    ));
    assert!(matches!(
        reader.broker_polled(3, Some(8), BrokerPoll::Pending, 64, NOW),
        ReadStep::OpenFile { piece: 3, available: 8, start: true }
    ));
    assert!(matches!(
        reader.poll_file_open(3, 8, OpenPoll::Pending, 64, NOW),
        ReadStep::Retry { request: None }
    ));
    assert!(matches!(
        reader.broker_polled(3, Some(8), BrokerPoll::Pending, 64, NOW),
        ReadStep::OpenFile { start: false, .. }
    ));
    assert!(matches!(
        reader.poll_file_open(3, 8, OpenPoll::Opened, 64, NOW),
        ReadStep::SeekFile { piece: 3, available: 8, start: Some(7) }
    ));
    assert!(matches!(reader.file_sought(3, 8, SeekPoll::Pending, 64), ReadStep::Pending));
    assert!(matches!(
        reader.broker_polled(3, Some(8), BrokerPoll::Pending, 64, NOW),
        ReadStep::SeekFile { start: None, .. }
    ));
    assert!(matches!(
        reader.file_sought(3, 8, SeekPoll::At(7), 64),
        ReadStep::ReadFile { piece: 3, len: 8 }
    ));
    assert!(matches!(reader.file_read(3, FilePoll::Pending, NOW), ReadStep::Pending));
    match reader.file_read(3, FilePoll::Bytes(vec![0, 1, 2]), NOW) {
        ReadStep::Deliver { bytes, next_piece: 4 } => assert_eq!(bytes, vec![0, 1, 2]),
        other => panic!("{other:?}"),
    }
    assert_eq!((reader.current_pos, reader.file_cursor), (10, 10));

    // The file is open now and the first byte was read: no more requests.
    reader.piece_read = None;
    assert!(matches!(
        reader.piece_inspected(3, true, 4, NOW),
        ReadStep::ReadFile { piece: 3, len: 4 }
    ));
    assert_eq!(reader.piece_read, None);
}

#[test]
fn one_disk_read_is_limited() {
    let mut reader = stream(PlaybackIntent::DirectSequential);
    reader.file.piece_length = 16 * 1024 * 1024;
    reader.file.file_size = 64 * 1024 * 1024;
    reader.file.first_piece = 0;
    reader.file_open = true;
    reader.first_byte_read = true;
    match reader.piece_inspected(0, true, usize::MAX, NOW) {
        ReadStep::ReadFile { len, .. } => assert_eq!(len, SCRATCH_BYTES),
        other => panic!("{other:?}"),
    }
}

#[test]
fn holes_on_disk_are_not_content() {
    let mut reader = stream(PlaybackIntent::DirectInitial);
    reader.file_open = true;
    assert!(matches!(
        reader.file_read(2, FilePoll::Bytes(vec![0; 5]), NOW),
        ReadStep::Retry { request: Some(_) }
    ));
    assert_eq!((reader.current_pos, reader.file_cursor), (0, 5));
    assert!(matches!(
        reader.file_read(2, FilePoll::Bytes(Vec::new()), NOW),
        ReadStep::Retry { request: None }
    ));
    // Zeros later in the file are content.
    reader.first_byte_read = true;
    assert!(matches!(
        reader.file_read(2, FilePoll::Bytes(vec![0; 5]), NOW),
        ReadStep::Deliver { .. }
    ));
}

#[test]
fn storage_errors_fail_the_read() {
    let mut reader = stream(PlaybackIntent::DirectInitial);
    reader.opening = true;
    assert!(matches!(
        reader.poll_file_open(2, 5, OpenPoll::Failed, 64, NOW),
        ReadStep::Failed(StreamError::Open)
    ));
    assert!(!reader.opening);
    reader.opening = true;
    assert!(matches!(
        reader.poll_file_open(2, 5, OpenPoll::NotFound, 64, NOW),
        ReadStep::Retry { request: Some(_) }
    ));
    assert!(!reader.opening);
    reader.seek_pending = true;
    assert!(matches!(
        reader.file_sought(2, 5, SeekPoll::Failed, 64),
        ReadStep::Failed(StreamError::Seek)
    ));
    assert!(!reader.seek_pending);
    assert!(matches!(
        reader.file_sought(2, 5, SeekPoll::StartFailed, 64),
        ReadStep::Failed(StreamError::Seek)
    ));
    assert!(matches!(
        reader.file_read(2, FilePoll::Failed, NOW),
        ReadStep::Failed(StreamError::Read)
    ));
}

#[test]
fn a_verified_piece_behind_the_position_gives_nothing() {
    let mut reader = stream(PlaybackIntent::DirectInitial);
    reader.start_seek(SeekTarget::Start(10));
    assert_eq!(reader.bytes_available_in_verified_piece(2), 0);
    assert!(matches!(reader.piece_inspected(2, true, 64, NOW), ReadStep::Finished));
    // The file ends inside its last piece.
    reader.start_seek(SeekTarget::Start(65));
    assert_eq!(reader.bytes_available_in_verified_piece(9), 5);
}

#[test]
fn seeks_are_held_inside_the_file() {
    let mut reader = stream(PlaybackIntent::DirectInitial);
    assert!(!reader.start_seek(SeekTarget::Start(40)));
    assert_eq!(reader.poll_complete(), 40);
    reader.piece_read = Some(6);
    reader.piece_read_retry_at = Some((6, NOW));
    reader.broker_piece = Some((6, Arc::new(vec![1])));
    reader.last_prioritized_piece = 6;
    assert!(reader.start_seek(SeekTarget::Current(-15)));
    assert_eq!(reader.poll_complete(), 25);
    assert!(reader.broker_piece.is_none());
    assert_eq!(reader.piece_read, None);
    assert_eq!(reader.piece_read_retry_at, None);
    assert_eq!(reader.last_prioritized_piece, -1);

    for (target, expected) in [
        (SeekTarget::Current(-100), 0),
        (SeekTarget::End(-1), 69),
        (SeekTarget::End(1), 70),
        (SeekTarget::End(i64::MIN), 0),
        (SeekTarget::Current(i64::MAX), 70),
        (SeekTarget::Start(u64::MAX), 70),
    ] {
        reader.start_seek(target);
        assert_eq!(reader.poll_complete(), expected);
    }
}

#[test]
fn the_window_is_small_before_a_cold_start_only() {
    assert_eq!(active_forward_window(false, PlaybackIntent::DirectInitial, 8), 3);
    assert_eq!(active_forward_window(false, PlaybackIntent::HlsInitial, 2), 2);
    assert_eq!(active_forward_window(false, PlaybackIntent::DirectSeek, 8), 8);
    assert_eq!(active_forward_window(true, PlaybackIntent::DirectInitial, 8), 8);
    assert_eq!(window_count(4, 9, 3), 4);
    assert_eq!(window_count(8, 9, 3), 2);
    assert_eq!(window_count(4, 9, -1), 0);
    assert_eq!(window_count(i32::MIN, i32::MAX, i32::MAX), 0x8000_0000);
    assert_eq!(widened_window_count(4, 9, 2), 5);
    assert_eq!(widened_window_count(4, 9, 3), 6);
    assert_eq!(widened_window_count(4, 9, 0), 2);
    assert_eq!(widened_window_count(4, 9, -3), 2);
    assert_eq!(widened_window_count(i32::MIN, i32::MAX, i32::MAX), 0xffff_ffff);
}

#[test]
fn read_ahead_backs_off_for_pending_metadata() {
    assert_eq!(read_ahead_priority(PlaybackIntent::DirectSeek, false), 7);
    assert_eq!(read_ahead_priority(PlaybackIntent::DirectSeek, true), 4);
    assert_eq!(read_ahead_priority(PlaybackIntent::ContainerMetadata, true), 7);
    assert_eq!(read_ahead_priority(PlaybackIntent::InternalProbe, true), 2);
    assert_eq!(read_ahead_priority(PlaybackIntent::Background, false), 1);
}

#[test]
fn the_whole_window_is_urgent_with_ordered_deadlines() {
    let mut reader = stream(PlaybackIntent::DirectInitial);
    assert_eq!(reader.pieces_to_inspect(2, 8, u64::MAX, NOW), 4);
    assert!(reader.deadlines_fit(2, 8, u64::MAX, NOW));
    let commands = reader.prioritize_from(2, 8, &vec![false, false, true, false], &vec![], NOW);
    let mut expected = vec![NativeCommand::SetSequentialDownload(false)];
    expected.extend(urgent(2));
    expected.extend(ask(3, 7, 265));
    expected.extend(ask(5, 7, 765));
    expected.extend(urgent(2));
    assert_eq!(commands, expected);
    assert_eq!(reader.last_prioritized_piece, 2);
    assert_eq!(reader.urgent_reassert_count, 1);
    assert_eq!(reader.last_urgent_reassert, NOW);

    // Once per piece, and only for pieces of the file.
    assert!(reader.prioritize_from(2, 8, &vec![false; 4], &vec![], NOW).is_empty());
    assert!(reader.prioritize_from(1, 8, &vec![false; 4], &vec![], NOW).is_empty());
    assert!(reader.prioritize_from(10, 8, &vec![false], &vec![], NOW).is_empty());
}

#[test]
fn pinned_pieces_come_last_and_stay_urgent() {
    let mut reader = stream(PlaybackIntent::DirectSeek);
    let commands = reader.prioritize_from(4, 1, &vec![true, false], &vec![9, 30], NOW);
    let mut expected = vec![NativeCommand::SetSequentialDownload(false)];
    expected.extend(ask(5, 4, 265));
    expected.extend(urgent(9));
    assert_eq!(commands, expected);
    assert_eq!(reader.urgent_reassert_count, 0);

    let split = pinned_metadata_missing(&vec![9, 3, 8], &vec![false, true, false]);
    assert_eq!(split.verified, vec![3]);
    assert_eq!(split.missing, vec![9, 8]);
}

#[test]
fn metadata_streams_pin_what_their_window_misses() {
    let reader = stream(PlaybackIntent::ContainerMetadata);
    assert_eq!(
        reader.pieces_to_pin(8, 4, &vec![false, true]),
        Some(vec![8])
    );
    assert_eq!(reader.pieces_to_pin(1, 4, &vec![false; 9]), None);
    let head = stream(PlaybackIntent::DirectInitial);
    assert_eq!(head.pieces_to_pin(8, 4, &vec![false, true]), None);
    assert!(head.looks_at_pins(8, INTERVAL, NOW));
}

#[test]
fn background_readers_yield() {
    let mut probe = stream(PlaybackIntent::InternalProbe);
    assert!(probe.is_background_reader());
    assert!(!probe.looks_at_pins(2, INTERVAL, NOW));
    let commands = probe.wait_for_piece(2, 8, &vec![false; 8], &vec![9], 0, NOW);
    assert_eq!(commands, ask(2, 4, 500));
    assert_eq!(probe.consecutive_waits, 1);
    assert!(probe.wait_for_piece(2, 8, &vec![false; 8], &vec![9], 0, NOW).is_empty());
    assert_eq!(
        probe.request_piece_from_libtorrent(2, NOW),
        Some(PieceRequest { piece: 2, priority: 4, deadline_ms: 500, abort_previous: false })
    );

    let mut subordinate = stream(PlaybackIntent::DirectSeek);
    subordinate.subordinate = true;
    assert!(subordinate.is_background_reader());
    assert!(subordinate.prioritize_from(2, 8, &vec![true; 8], &vec![], NOW).is_empty());
}

#[test]
fn blocked_readers_ask_again() {
    let mut reader = stream(PlaybackIntent::DirectSeek);
    let present = vec![false, false];
    reader.wait_for_piece(8, 1, &present, &vec![], INTERVAL, NOW);
    assert!(reader.wait_for_piece(8, 1, &present, &vec![], INTERVAL, NOW + 1).is_empty());

    let commands = reader.wait_for_piece(8, 1, &present, &vec![], INTERVAL, NOW + INTERVAL);
    let mut expected = urgent(8);
    expected.extend(ask(9, 7, 250));
    expected.extend(urgent(8));
    assert_eq!(commands, expected);
    assert_eq!(reader.last_blocked_replan, NOW + INTERVAL);
    assert_eq!(reader.consecutive_waits, 3);

    // With replanning far off, the piece is still forced every few seconds.
    let later = NOW + INTERVAL + URGENT_REASSERT_INTERVAL;
    assert_eq!(reader.pieces_to_inspect(8, 1, u64::MAX, later), 1);
    assert_eq!(reader.pieces_to_inspect(8, 1, u64::MAX, later - 1), 0);
    let commands = reader.wait_for_piece(8, 1, &present, &vec![], u64::MAX, later);
    assert_eq!(commands, urgent(8));
}

#[test]
fn the_window_widens_while_a_reader_keeps_waiting() {
    let mut reader = stream(PlaybackIntent::DirectSeek);
    assert_eq!(reader.pieces_to_inspect(3, 2, INTERVAL, NOW), 3);
    let commands = reader.wait_for_piece(3, 2, &vec![false; 3], &vec![], INTERVAL, NOW);
    let mut expected = vec![NativeCommand::SetSequentialDownload(false)];
    expected.extend(urgent(3));
    expected.extend(ask(4, 7, 265));
    expected.extend(ask(5, 7, 515));
    expected.extend(urgent(3));
    assert_eq!(commands, expected);

    // Replanned at the second wait, the window reaches twice as far ahead.
    let later = NOW + INTERVAL;
    assert_eq!(reader.pieces_to_inspect(3, 2, INTERVAL, later), 5);
    assert!(reader.deadlines_fit(3, 2, INTERVAL, later));
    let present = vec![false, true, false, false, false];
    let commands = reader.wait_for_piece(3, 2, &present, &vec![], INTERVAL, later);
    let mut expected = urgent(3);
    expected.extend(ask(5, 7, 500));
    expected.extend(ask(6, 7, 750));
    expected.extend(ask(7, 7, 1000));
    expected.extend(urgent(3));
    assert_eq!(commands, expected);

    // It never leaves the file, and shrinks back once bytes come.
    let end = later + INTERVAL;
    assert_eq!(reader.pieces_to_inspect(3, 6, INTERVAL, end), 7);
    assert_eq!(reader.pieces_to_inspect(7, 6, INTERVAL, end), 3);
    reader.consecutive_waits = 0;
    assert_eq!(reader.pieces_to_inspect(3, 2, INTERVAL, end), 3);
}

#[test]
fn a_read_that_touches_no_piece_needs_no_position() {
    let mut reader = stream(PlaybackIntent::DirectSeek);
    reader.file.file_offset = u64::MAX;
    reader.current_pos = 69;
    assert!(matches!(reader.poll_read(true, 64), ReadStep::Failed(StreamError::Superseded)));
    assert!(matches!(reader.poll_read(false, 0), ReadStep::Finished));
    reader.current_pos = 70;
    assert!(matches!(reader.poll_read(false, 64), ReadStep::Finished));
    reader.current_pos = 69;
    reader.file.piece_length = 0;
    assert!(matches!(reader.poll_read(false, 64), ReadStep::Failed(StreamError::ZeroPieceLength)));
    assert_eq!(reader.current_piece(), Err(StreamError::ZeroPieceLength));
}

#[test]
fn far_deadlines_cannot_be_told() {
    let mut reader = stream(PlaybackIntent::DirectSeek);
    reader.file.last_piece = i32::MAX;
    assert!(reader.deadlines_fit(2, 8_589_934, u64::MAX, NOW));
    assert!(!reader.deadlines_fit(2, 8_589_935, u64::MAX, NOW));
    reader.last_prioritized_piece = 2;
    assert!(reader.deadlines_fit(2, i32::MAX, u64::MAX, NOW));
    assert!(reader.deadlines_fit(2, 8_589_934, 0, NOW));
    reader.consecutive_waits = 1;
    assert!(reader.deadlines_fit(2, 4_294_967, 0, NOW));
    assert!(!reader.deadlines_fit(2, 4_294_968, 0, NOW));
    reader.subordinate = true;
    assert!(reader.deadlines_fit(2, i32::MAX, 0, NOW));
}

#[test]
fn a_missing_file_still_gives_a_reader() {
    assert_eq!(starts_open(OpenOutcome::Opened), Ok(true));
    assert_eq!(starts_open(OpenOutcome::NotFound), Ok(false));
    assert_eq!(starts_open(OpenOutcome::Failed), Err(StreamError::Open));
}

#[test]
fn a_new_reader_may_force_its_piece_at_once() {
    let reader = stream(PlaybackIntent::DirectInitial);
    assert_eq!(reader.last_urgent_reassert, NOW - URGENT_REASSERT_INTERVAL);
    let early = LibtorrentDiskFileStream::new(
        file(),
        0,
        PlaybackIntent::HlsInitial,
        PlaybackIntent::HlsSequential,
        false,
        true,
        5,
    );
    assert_eq!(early.last_urgent_reassert, 5);
    assert!(early.file_open);
    assert_eq!(early.priority_intent(), PlaybackIntent::HlsInitial);
    let mut moved = early;
    moved.first_byte_read = true;
    assert_eq!(moved.priority_intent(), PlaybackIntent::HlsSequential);
}
