use torrent_playback::domain::{
    FileInfo, LibtorrentStorageMode, MemoryPressure, NativeCommand, PlaybackIntent,
    PriorityAssignment, TorrentStatus,
};
use torrent_playback::errors::PlaybackError;
use torrent_playback::handle::{
    count_present, stats, tracker_tiers, LibtorrentTorrentHandle, ReadinessStart, SeekType,
};
use torrent_playback::hot_window::{apply_hot_window, hot_window_context, hot_window_start};
use torrent_playback::layout::TorrentLayout;
use torrent_playback::readiness::{
    disk_readiness_target_pieces, memory_pressure, plan_of, ReadinessReason, ReadinessStep,
    ReadinessWait, ScanStep,
};

const MEGABYTE: u64 = 1024 * 1024;
const SECOND: u64 = 1_000_000_000;
const NOW: u64 = 50 * SECOND;

fn info(path: &str, size: i64, offset: i64, first_piece: i32, last_piece: i32) -> FileInfo {
    FileInfo { path: path.to_owned(), size, offset, downloaded: 0, first_piece, last_piece }
}

fn files() -> Vec<FileInfo> {
    vec![
        info("a.nfo", 10, 0, 0, 0),
        info("b.mkv", 8 * MEGABYTE as i64, 10, 0, 4),
    ]
}

fn layout() -> TorrentLayout {
    TorrentLayout::query_layout(true, 2 * MEGABYTE as i32, files()).unwrap()
}

fn handle(storage_mode: LibtorrentStorageMode) -> LibtorrentTorrentHandle {
    LibtorrentTorrentHandle { info_hash: "abc".to_owned(), storage_mode, cache_size: 1000 }
}

fn begin(storage_mode: LibtorrentStorageMode, intent: PlaybackIntent) -> ReadinessWait {
    let start = handle(storage_mode)
        .wait_for_piece_ready(
            &files(),
            1,
            2 * MEGABYTE,
            0,
            3 * SECOND,
            intent,
            5,
            100_000,
            0,
            NOW,
            NOW,
        )
        .unwrap();
    match start {
        ReadinessStart::Wait { wait, context } => {
            assert_eq!(context.current_piece, 0);
            assert_eq!(context.consecutive_waits, 0);
            assert_eq!(context.peers, 5);
            assert_eq!(context.download_rate_bytes_per_sec, 100_000);
            wait
        }
        other => panic!("{other:?}"),
    }
}

#[test]
fn targets_fill_the_buffer_within_limits() {
    let disk = LibtorrentStorageMode::DiskBacked;
    let direct = PlaybackIntent::DirectInitial;
    assert_eq!(disk_readiness_target_pieces(direct, 0, 99, 4 * MEGABYTE, disk), 2);
    assert_eq!(disk_readiness_target_pieces(direct, 0, 99, 3 * MEGABYTE, disk), 3);
    assert_eq!(disk_readiness_target_pieces(direct, 0, 99, 256 * 1024, disk), 4);
    assert_eq!(disk_readiness_target_pieces(direct, 0, 99, 64 * MEGABYTE, disk), 1);
    assert_eq!(disk_readiness_target_pieces(direct, 98, 99, 256 * 1024, disk), 2);
    assert_eq!(disk_readiness_target_pieces(direct, 100, 99, 256 * 1024, disk), 1);
    assert_eq!(disk_readiness_target_pieces(direct, 0, 99, 0, disk), 1);
    assert_eq!(disk_readiness_target_pieces(direct, 0, 99, u64::MAX, disk), 1);
    assert_eq!(
        disk_readiness_target_pieces(PlaybackIntent::ContainerMetadata, 0, 99, MEGABYTE, disk),
        1
    );
    assert_eq!(
        disk_readiness_target_pieces(direct, 0, 99, MEGABYTE, LibtorrentStorageMode::MemoryOnly),
        1
    );
}

#[test]
fn waits_that_cannot_succeed_end_at_once() {
    let handle = handle(LibtorrentStorageMode::DiskBacked);
    let ask = |file_idx: usize, piece_length: u64, offset: u64| {
        handle.wait_for_piece_ready(
            &files(),
            file_idx,
            piece_length,
            offset,
            SECOND,
            PlaybackIntent::DirectSeek,
            5,
            7,
            0,
            NOW,
            NOW + 4_999_999,
        )
    };
    assert_eq!(ask(2, 1, 0).unwrap_err(), PlaybackError::FileIndexOutOfRange(2));
    match ask(1, 0, 0).unwrap() {
        ReadinessStart::Done(report) => {
            assert_eq!(report.reason.text(), "zero-piece-length");
            assert_eq!((report.ready, report.piece, report.target_pieces), (false, -1, 0));
            assert_eq!(report.elapsed_ms, 4);
        }
        other => panic!("{other:?}"),
    }
    match ask(1, 2 * MEGABYTE, 100 * MEGABYTE).unwrap() {
        ReadinessStart::Done(report) => {
            assert_eq!(report.reason.text(), "piece-out-of-file-range");
            assert_eq!((report.ready, report.piece, report.target_pieces), (false, 50, 1));
            assert_eq!((report.peers, report.download_rate), (0, 0));
        }
        other => panic!("{other:?}"),
    }
}

#[test]
fn a_disk_wait_polls_renews_and_ends_ready() {
    let mut wait = begin(LibtorrentStorageMode::DiskBacked, PlaybackIntent::DirectInitial);
    assert_eq!(wait.target_pieces, 4);
    assert_eq!(wait.next_round(NOW), ReadinessStep::Inspect { first: 0, last: 3 });

    let seen = wait.observe(5, 100_000, &vec![1, 0, 1, 0], NOW);
    assert_eq!(seen.present_pieces, 1);
    let plan = seen.ask_again.unwrap();
    assert_eq!(plan.priorities, vec![(1, 7), (3, 7)]);
    assert_eq!(plan.deadlines, vec![(1, 10), (3, 30)]);
    let context = seen.decide.unwrap();
    assert_eq!(context.consecutive_waits, 1);
    assert_eq!(context.memory_pressure, MemoryPressure::Normal);
    assert!(wait.cache_scan(1).is_none());
    assert_eq!(wait.count_ready(1, NOW), ReadinessStep::Sleep { milliseconds: 5 });

    // The same swarm, too early to ask again.
    let seen = wait.observe(5, 130_000, &vec![1, 0, 1, 0], NOW + 249_000_000);
    assert!(seen.ask_again.is_none());
    assert!(seen.decide.is_none());
    assert_eq!(wait.count_ready(1, NOW), ReadinessStep::Sleep { milliseconds: 10 });
    // Another rate, and time to ask again.
    let seen = wait.observe(5, 140_000, &vec![1, 1, 1, 0], NOW + 250_000_000);
    assert!(seen.ask_again.is_some());
    assert!(seen.decide.is_some());
    assert_eq!(wait.count_ready(3, NOW), ReadinessStep::Sleep { milliseconds: 20 });
    assert_eq!(wait.count_ready(2, NOW), ReadinessStep::Sleep { milliseconds: 25 });
    assert_eq!(wait.count_ready(2, NOW), ReadinessStep::Sleep { milliseconds: 25 });
    assert_eq!(wait.best_ready_pieces, 3);

    // A satisfied wait leaves the native library alone.
    let seen = wait.observe(9, 900_000, &vec![1, 1, 2, 1], NOW + SECOND);
    assert_eq!(seen.present_pieces, 4);
    assert!(seen.ask_again.is_none() && seen.decide.is_none());
    match wait.count_ready(4, NOW + SECOND) {
        ReadinessStep::Done(report) => {
            assert!(report.ready);
            assert_eq!(report.reason, ReadinessReason::BufferReady);
            assert_eq!(report.reason.text(), "buffer-ready");
            assert_eq!((report.ready_pieces, report.target_pieces), (4, 4));
            assert_eq!((report.peers, report.download_rate), (9, 900_000));
            assert_eq!(report.elapsed_ms, 1000);
        }
        other => panic!("{other:?}"),
    }
}

#[test]
fn a_wait_ends_with_what_it_has() {
    let mut wait = begin(LibtorrentStorageMode::DiskBacked, PlaybackIntent::DirectInitial);
    assert_eq!(wait.next_round(NOW + 3 * SECOND - 1), ReadinessStep::Inspect { first: 0, last: 3 });
    match wait.next_round(NOW + 3 * SECOND) {
        ReadinessStep::Done(report) => {
            assert!(!report.ready);
            assert_eq!(report.reason.text(), "timeout");
            assert_eq!(report.elapsed_ms, 3000);
        }
        other => panic!("{other:?}"),
    }
    wait.observe(2, 10, &vec![1, 1, 0, 0], NOW);
    wait.count_ready(2, NOW);
    match wait.next_round(NOW + 3 * SECOND) {
        ReadinessStep::Done(report) => {
            assert!(report.ready);
            assert_eq!(report.ready_pieces, 2);
            assert!(report.ready_pieces < report.target_pieces);
            assert_eq!(report.reason.text(), "partial-buffer-timeout");
            assert_eq!((report.peers, report.download_rate), (2, 10));
        }
        other => panic!("{other:?}"),
    }
}

#[test]
fn memory_pieces_count_once_they_are_cached() {
    let mut wait = begin(LibtorrentStorageMode::MemoryOnly, PlaybackIntent::DirectInitial);
    assert_eq!(wait.target_pieces, 1);
    let seen = wait.observe(5, 100_000, &vec![1], NOW);
    assert!(seen.ask_again.is_none());
    assert!(seen.decide.is_some());
    let mut scan = wait.cache_scan(seen.present_pieces).unwrap();
    assert_eq!(scan.step(), ScanStep::CheckCache { piece: 0 });
    assert_eq!(scan.cache_checked(false), ScanStep::ReadStorage { piece: 0 });
    assert_eq!(scan.storage_read(true), ScanStep::Done { ready: 1 });

    let mut scan = wait.cache_scan(0).unwrap();
    assert_eq!(scan.cache_checked(false), ScanStep::Done { ready: 0 });
    let mut scan = wait.cache_scan(1).unwrap();
    scan.count = 2;
    assert_eq!(scan.cache_checked(true), ScanStep::CheckCache { piece: 1 });
    assert_eq!(scan.cache_checked(false), ScanStep::Done { ready: 1 });
    let mut scan = wait.cache_scan(1).unwrap();
    scan.cache_checked(false);
    assert_eq!(scan.storage_read(false), ScanStep::Done { ready: 0 });

    match wait.count_ready(1, NOW) {
        ReadinessStep::Done(report) => assert_eq!(report.reason.text(), "piece-ready"),
        other => panic!("{other:?}"),
    }
}

#[test]
fn pressure_starts_at_four_fifths() {
    assert_eq!(memory_pressure(1000, 799), MemoryPressure::Normal);
    assert_eq!(memory_pressure(1000, 800), MemoryPressure::High);
    assert_eq!(memory_pressure(0, u64::MAX), MemoryPressure::Normal);
    assert_eq!(memory_pressure(u64::MAX, u64::MAX / 100), MemoryPressure::High);
    assert_eq!(memory_pressure(u64::MAX, u64::MAX / 100 - 1), MemoryPressure::Normal);
}

#[test]
fn assignments_are_taken_apart() {
    let plan = plan_of(&vec![
        PriorityAssignment { piece_idx: 3, piece_priority: 7, deadline: 0 },
        PriorityAssignment { piece_idx: 5, piece_priority: 4, deadline: 500 },
    ]);
    assert_eq!(plan.priorities, vec![(3, 7), (5, 4)]);
    assert_eq!(plan.deadlines, vec![(3, 0), (5, 500)]);
}

#[test]
fn readers_are_set_up_from_their_request() {
    let handle = handle(LibtorrentStorageMode::DiskBacked);
    let layout = layout();
    let plan = |start: u64, priority: u8, intent: PlaybackIntent, complete: bool| {
        handle.get_file_reader(&layout, 1, start, priority, intent, complete).unwrap()
    };
    let first = plan(0, 1, PlaybackIntent::DirectSeek, false);
    assert_eq!(first.playback_intent, PlaybackIntent::DirectInitial);
    assert_eq!(first.seek_type, SeekType::InitialPlayback);
    assert_eq!(first.last_priorities_piece, 0);
    assert_eq!(first.file.file_offset, 10);
    assert_eq!(first.file.file_size, 8 * MEGABYTE);
    assert_eq!((first.file.first_piece, first.file.last_piece), (0, 4));

    let scrub = plan(5 * MEGABYTE, 1, PlaybackIntent::HlsSequential, false);
    assert_eq!(scrub.playback_intent, PlaybackIntent::HlsSeek);
    assert_eq!(scrub.seek_type, SeekType::UserScrub);
    assert_eq!(scrub.last_priorities_piece, 2);
    assert_eq!(plan(5, 1, PlaybackIntent::HlsInitial, true).last_priorities_piece, -1);

    let tail = plan(5, 1, PlaybackIntent::ContainerMetadata, false);
    assert_eq!(tail.seek_type, SeekType::ContainerMetadata);
    assert_eq!(tail.playback_intent, PlaybackIntent::ContainerMetadata);
    assert_eq!(
        plan(5, 255, PlaybackIntent::DirectSeek, false).playback_intent,
        PlaybackIntent::InternalProbe
    );
    assert_eq!(
        plan(5, 1, PlaybackIntent::DownloadRange, false).playback_intent,
        PlaybackIntent::DownloadRange
    );
    assert_eq!(
        handle.get_file_reader(&layout, 2, 0, 1, PlaybackIntent::DirectSeek, false),
        Err(PlaybackError::FileIndexOutOfRange(2))
    );
    let unknown = TorrentLayout { piece_length: 0, ..layout };
    assert_eq!(
        handle.get_file_reader(&unknown, 2, 0, 1, PlaybackIntent::DirectSeek, false),
        Err(PlaybackError::FileIndexOutOfRange(2))
    );

    let probe = LibtorrentTorrentHandle::reader_start(1, 9, 255, None, PlaybackIntent::Background);
    assert_eq!(probe.source, "internal-probe-reader");
    let reader =
        LibtorrentTorrentHandle::reader_start(1, 9, 1, Some(3), PlaybackIntent::DirectSeek);
    assert_eq!(reader.source, "file-reader");
    assert_eq!(
        (reader.file_idx, reader.start_offset, reader.priority, reader.bitrate_bytes_per_sec),
        (1, 9, 1, Some(3))
    );
}

#[test]
fn torrents_are_described_to_clients() {
    let handle = handle(LibtorrentStorageMode::MemoryOnly);
    assert_eq!(handle.info_hash(), "abc");
    assert_eq!(handle.name(String::new()), None);
    assert_eq!(handle.name("Big Buck".to_owned()), Some("Big Buck".to_owned()));
    assert!(handle.label_memory_storage());

    let mut files = files();
    files.push(info("broken", -5, 0, 0, 0));
    let layout = TorrentLayout::query_layout(true, 16, files).unwrap();
    let listed = LibtorrentTorrentHandle::get_files(&layout);
    assert_eq!(listed.len(), 3);
    assert_eq!((listed[1].name.as_str(), listed[1].length), ("b.mkv", 8 * MEGABYTE));
    assert_eq!(listed[2].length, 0);

    assert_eq!(
        tracker_tiers(&vec!["udp://a".to_owned(), "udp://b".to_owned()]),
        vec![("udp://a".to_owned(), 0), ("udp://b".to_owned(), 1)]
    );
}

#[test]
fn progress_is_counted_where_the_native_report_is_silent() {
    let mut files = vec![
        info("a", 25, 0, 0, 2),
        info("b", 5, 25, 2, 2),
        info("c", 100, 30, 3, 12),
        info("d", 7, 130, -3, -1),
    ];
    files[1].downloaded = 3;
    let presence = vec![1, 0, 1, 1, 0, 1];
    let reports = stats(&files, 10, &presence);
    assert_eq!(reports[0].downloaded, 20);
    assert_eq!(reports[1].downloaded, 3);
    assert_eq!(reports[2].downloaded, 20);
    assert_eq!(reports[3].downloaded, 0);
    assert_eq!(
        reports.iter().map(|report| (report.offset, report.length)).collect::<Vec<_>>(),
        vec![(0, 25), (25, 5), (30, 100), (130, 7)]
    );
    assert_eq!(reports[2].path, "c");
    // A short file never counts more than its size.
    let reports = stats(&vec![info("a", 5, 0, 0, 0)], 10, &vec![1]);
    assert_eq!(reports[0].downloaded, 5);
    assert_eq!(stats(&files, 0, &Vec::new())[0].downloaded, 0);
    // What the native report tells is not counted, however long the pieces are.
    let mut reported = info("a", 5, 0, 0, 1);
    reported.downloaded = 4;
    assert_eq!(stats(&vec![reported], u64::MAX, &vec![1, 1])[0].downloaded, 4);
    assert_eq!(count_present(&presence, 0, 3), 3);
    assert_eq!(count_present(&presence, -2, 0), 1);
    assert_eq!(count_present(&presence, 4, 9), 1);
}

#[test]
fn playback_starts_inside_its_file() {
    let mut start =
        LibtorrentTorrentHandle::reader_start(1, 3 * MEGABYTE, 1, None, PlaybackIntent::DirectSeek);
    let mut layout = layout();
    assert_eq!(hot_window_start(&layout, &start), Ok(1));
    start.start_offset = u64::MAX;
    assert_eq!(hot_window_start(&layout, &start), Ok(4));
    start.file_idx = 7;
    assert_eq!(hot_window_start(&layout, &start), Err(PlaybackError::FileIndexOutOfRange(7)));
    start.file_idx = 1;
    layout.piece_length = 0;
    assert_eq!(hot_window_start(&layout, &start), Err(PlaybackError::ZeroPieceLength));
}

#[test]
fn the_policy_is_told_the_facts() {
    let start =
        LibtorrentTorrentHandle::reader_start(1, 0, 1, Some(9), PlaybackIntent::HlsInitial);
    let status = TorrentStatus {
        has_metadata: true,
        is_paused: false,
        is_seeding: false,
        num_peers: -1,
        download_rate: 77,
        upload_rate: 0,
        total_downloaded: 0,
        total_uploaded: 0,
    };
    let told = |mode: LibtorrentStorageMode| {
        hot_window_context(&files()[1], 16, &start, 3, &status, mode, 1000, 900)
    };
    let context = told(LibtorrentStorageMode::MemoryOnly);
    assert_eq!(context.memory_pressure, MemoryPressure::High);
    assert_eq!((context.peers, context.download_rate_bytes_per_sec), (0, 77));
    assert_eq!(context.bitrate_bytes_per_sec, Some(9));
    assert_eq!((context.current_piece, context.first_piece, context.last_piece), (3, 0, 4));
    assert_eq!(
        told(LibtorrentStorageMode::DiskBacked).memory_pressure,
        MemoryPressure::Normal
    );
}

#[test]
fn the_hot_window_leaves_other_files_and_verified_pieces_alone() {
    let assign = |piece_idx: i32| PriorityAssignment { piece_idx, piece_priority: 6, deadline: 40 };
    let commands = apply_hot_window(
        &vec![assign(9), assign(2), assign(3), assign(-1)],
        &vec![false, true, false, false],
        &files()[1],
    );
    assert_eq!(
        commands,
        vec![
            NativeCommand::SetSequentialDownload(false),
            NativeCommand::SetPiecePriority { piece: 3, priority: 6 },
            NativeCommand::SetPieceDeadline { piece: 3, deadline_ms: 40 },
        ]
    );
}
