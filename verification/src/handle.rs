//! What a torrent handle answers from the native torrent's reports.

use crate::arith::{
    int_max, int_min, law_piece_holds_its_position, min_u64, non_negative, piece_at, piece_index,
};
use crate::domain::{FileInfo, LibtorrentStorageMode, PlaybackIntent, PriorityContext};
use crate::errors::PlaybackError;
use crate::layout::TorrentLayout;
use crate::playback::elapsed_since;
use crate::readiness::{
    disk_readiness_target_pieces, memory_pressure, pressure, target_count, PieceReadiness,
    ReadinessReason, ReadinessWait, DISK_READINESS_REASSERT, FIRST_POLL_INTERVAL_MS,
};
use crate::stream::StreamFile;
use crate::transitions::LibtorrentPlaybackStart;
use vstd::prelude::*;

verus! {

/// A torrent of the native session.
#[derive(Debug, Clone)]
pub struct LibtorrentTorrentHandle {
    pub info_hash: String,
    pub storage_mode: LibtorrentStorageMode,
    /// The configured size of the piece cache, zero for none.
    pub cache_size: u64,
}

/// What a reader came for, told from where it starts.
#[derive(Debug, Clone, Copy, PartialEq, Eq, Structural)]
pub enum SeekType {
    /// The first request, at the start of the file.
    InitialPlayback,
    /// A look at the container metadata near the end of the file.
    ContainerMetadata,
    /// The user moved in the video.
    UserScrub,
}

/// The priority that marks a reader as an internal probe.
pub const PROBE_PRIORITY: u8 = 255;

/// What a reader came for.
pub open spec fn seek_type_of(start_offset: u64, intent: PlaybackIntent) -> SeekType {
    if start_offset == 0 {
        SeekType::InitialPlayback
    } else if intent == PlaybackIntent::ContainerMetadata {
        SeekType::ContainerMetadata
    } else {
        SeekType::UserScrub
    }
}

/// The intent of a reader. A stream is at its beginning or was moved, whatever
/// its request said of that; downloads, metadata and background reads keep
/// their intent, and probes are known by their priority.
pub open spec fn reader_intent(priority: u8, intent: PlaybackIntent, start_offset: u64)
    -> PlaybackIntent {
    if priority == PROBE_PRIORITY {
        PlaybackIntent::InternalProbe
    } else {
        match intent {
            PlaybackIntent::DownloadFull
            | PlaybackIntent::DownloadRange
            | PlaybackIntent::ContainerMetadata
            | PlaybackIntent::Background
            | PlaybackIntent::InternalProbe => intent,
            PlaybackIntent::HlsInitial
            | PlaybackIntent::HlsSequential
            | PlaybackIntent::HlsSeek => if start_offset == 0 {
                PlaybackIntent::HlsInitial
            } else {
                PlaybackIntent::HlsSeek
            },
            _ => if start_offset == 0 {
                PlaybackIntent::DirectInitial
            } else {
                PlaybackIntent::DirectSeek
            },
        }
    }
}

/// How a reader is set up.
#[derive(Debug, Clone, Copy, PartialEq, Eq)]
pub struct ReaderPlan {
    pub file: StreamFile,
    pub playback_intent: PlaybackIntent,
    pub seek_type: SeekType,
    pub storage_mode: LibtorrentStorageMode,
    pub is_complete: bool,
    /// The piece that priorities were last set for, -1 for none.
    pub last_priorities_piece: i32,
}

/// A file as it is listed to clients.
#[derive(Debug, Clone, PartialEq, Eq)]
pub struct BackendFileInfo {
    pub name: String,
    pub length: u64,
}

/// How far a file has come.
#[derive(Debug, Clone, PartialEq, Eq)]
pub struct FileStats {
    pub path: String,
    pub length: u64,
    pub offset: u64,
    pub downloaded: u64,
}

/// How many pieces from `first` to `last` are there. A piece is there where its
/// flag is not zero.
pub open spec fn present_count(presence: Seq<u8>, first: int, last: int) -> nat
    decreases last - first + 1,
{
    if first > last {
        0
    } else {
        present_count(presence, first, last - 1) + (if 0 <= last < presence.len()
            && presence[last] != 0 {
            1nat
        } else {
            0nat
        })
    }
}

/// Pieces outside the flags are not counted.
proof fn lemma_present_count_outside(presence: Seq<u8>, first: int, last: int)
    requires
        last < 0 || first >= presence.len() || presence.len() == 0,
    ensures
        present_count(presence, first, last) == 0,
    decreases last - first + 1,
{
    if first <= last {
        lemma_present_count_outside(presence, first, last - 1);
    }
}

/// Counting splits at any point of a range.
proof fn lemma_present_count_split(presence: Seq<u8>, first: int, middle: int, last: int)
    requires
        first <= middle <= last + 1,
    ensures
        present_count(presence, first, last) == present_count(presence, first, middle - 1)
            + present_count(presence, middle, last),
    decreases last - middle + 1,
{
    if middle <= last {
        lemma_present_count_split(presence, first, middle, last - 1);
    }
}

/// Counts the pieces from `first` to `last` that are there.
pub fn count_present(presence: &Vec<u8>, first: i32, last: i32) -> (r: u64)
    ensures
        r == present_count(presence@, first as int, last as int),
{
    let from: i64 = if first < 0 {
        0
    } else {
        first as i64
    };
    let to: i64 = if last < 0 {
        0
    } else if (last as usize) < presence.len() {
        last as i64 + 1
    } else {
        presence.len() as i64
    };
    if from >= to {
        proof {
            if first <= last {
                lemma_present_count_outside(presence@, first as int, last as int);
            }
        }
        return 0;
    }
    let mut count: u64 = 0;
    let mut i: i64 = from;
    proof {
        if first < 0 {
            lemma_present_count_outside(presence@, first as int, -1);
        }
    }
    while i < to
        invariant
            first <= from <= i <= to <= presence@.len(),
            0 <= from,
            to <= i32::MAX + 1,
            count <= i - from,
            count == present_count(presence@, first as int, i - 1),
        decreases to - i,
    {
        if presence[i as usize] != 0 {
            count += 1;
        }
        i += 1;
    }
    proof {
        lemma_present_count_split(presence@, first as int, to as int, last as int);
        if to <= last {
            lemma_present_count_outside(presence@, to as int, last as int);
        }
    }
    count
}

/// How much of a file has come. The native report is taken where it has any;
/// else, as it stays at zero for files that are only streamed, the pieces that
/// are there are counted, and no more than the file.
pub open spec fn downloaded_bytes(file: FileInfo, piece_length: u64, presence: Seq<u8>) -> int {
    if file.downloaded > 0 {
        file.downloaded as int
    } else if piece_length > 0 {
        int_min(
            present_count(presence, file.first_piece as int, file.last_piece as int)
                * piece_length,
            (file.size as u64) as int,
        )
    } else {
        0
    }
}

/// Where a file starts when the files lie one behind the other.
pub open spec fn stacked_offset(files: Seq<FileInfo>, index: int) -> int
    decreases index,
{
    if index <= 0 {
        0
    } else {
        stacked_offset(files, index - 1) + (files[index - 1].size as u64)
    }
}

/// Files further on start no earlier.
proof fn lemma_stacked_offset_grows(files: Seq<FileInfo>, i: int, j: int)
    requires
        0 <= i <= j,
    ensures
        0 <= stacked_offset(files, i) <= stacked_offset(files, j),
    decreases j,
{
    if i < j {
        lemma_stacked_offset_grows(files, i, j - 1);
    } else if i > 0 {
        lemma_stacked_offset_grows(files, 0, i - 1);
    }
}

/// The statistics of one file.
pub open spec fn stats_of(files: Seq<FileInfo>, index: int, piece_length: u64, presence: Seq<u8>)
    -> (Seq<char>, int, int, int) {
    let file = files[index];
    (
        file.path@,
        (file.size as u64) as int,
        stacked_offset(files, index),
        downloaded_bytes(file, piece_length, presence),
    )
}

impl FileStats {
    /// The numbers as they are stated.
    pub open spec fn parts(self) -> (Seq<char>, int, int, int) {
        (self.path@, self.length as int, self.offset as int, self.downloaded as int)
    }
}

/// Reports how far each file has come.
pub fn stats(files: &Vec<FileInfo>, piece_length: u64, presence: &Vec<u8>) -> (r: Vec<FileStats>)
    requires
        stacked_offset(files@, files@.len() as int) <= u64::MAX,
        forall|i: int|
            0 <= i < files@.len() && (#[trigger] files@[i]).downloaded <= 0 ==> present_count(
                presence@,
                files@[i].first_piece as int,
                files@[i].last_piece as int,
            ) * piece_length <= u64::MAX,
    ensures
        r@.len() == files@.len(),
        forall|i: int|
            0 <= i < files@.len() ==> (#[trigger] r@[i]).parts() == stats_of(
                files@,
                i,
                piece_length,
                presence@,
            ),
{
    let mut reports: Vec<FileStats> = Vec::new();
    let mut offset: u64 = 0;
    let mut i: usize = 0;
    while i < files.len()
        invariant
            i <= files@.len(),
            stacked_offset(files@, files@.len() as int) <= u64::MAX,
            forall|i: int|
                0 <= i < files@.len() && (#[trigger] files@[i]).downloaded <= 0 ==> present_count(
                    presence@,
                    files@[i].first_piece as int,
                    files@[i].last_piece as int,
                ) * piece_length <= u64::MAX,
            offset == stacked_offset(files@, i as int),
            reports@.len() == i,
            forall|k: int|
                0 <= k < i ==> (#[trigger] reports@[k]).parts() == stats_of(
                    files@,
                    k,
                    piece_length,
                    presence@,
                ),
        decreases files@.len() - i,
    {
        let file: &FileInfo = &files[i];
        let length: u64 = file.size as u64;
        let downloaded: u64 = if file.downloaded > 0 {
            file.downloaded as u64
        } else if piece_length > 0 {
            min_u64(
                count_present(presence, file.first_piece, file.last_piece) * piece_length,
                length,
            )
        } else {
            0
        };
        reports.push(FileStats { path: file.path.clone(), length, offset, downloaded });
        proof {
            lemma_stacked_offset_grows(files@, i + 1, files@.len() as int);
        }
        offset = offset + length;
        i += 1;
    }
    reports
}

/// Ranks trackers by their position, the first one highest.
pub fn tracker_tiers(trackers: &Vec<String>) -> (r: Vec<(String, i32)>)
    ensures
        r@.len() == trackers@.len(),
        forall|i: int|
            0 <= i < r@.len() ==> (#[trigger] r@[i]).0 == trackers@[i] && r@[i].1 == i as i32,
{
    let mut tiers: Vec<(String, i32)> = Vec::new();
    let mut i: usize = 0;
    while i < trackers.len()
        invariant
            i <= trackers@.len(),
            tiers@.len() == i,
            forall|k: int|
                0 <= k < i ==> (#[trigger] tiers@[k]).0 == trackers@[k] && tiers@[k].1 == k as i32,
        decreases trackers@.len() - i,
    {
        tiers.push((trackers[i].clone(), i as i32));
        i += 1;
    }
    tiers
}

/// What a wait for a piece starts with.
#[derive(Debug, Clone, Copy, PartialEq, Eq)]
pub enum ReadinessStart {
    /// There is nothing to wait for.
    Done(PieceReadiness),
    /// Apply what the priority policy decides in this context, then wait.
    Wait { wait: ReadinessWait, context: PriorityContext },
}

impl LibtorrentTorrentHandle {
    /// The identity of the torrent.
    pub fn info_hash(&self) -> (r: String)
        ensures
            r@ == self.info_hash@,
    {
        self.info_hash.clone()
    }

    /// The name of the torrent, once it has one.
    pub fn name(&self, native_name: String) -> (r: Option<String>)
        ensures
            r == (if native_name@.len() == 0 {
                None
            } else {
                Some(native_name)
            }),
    {
        if native_name.as_str().is_empty() {
            None
        } else {
            Some(native_name)
        }
    }

    /// Whether the native memory storage has to be told which torrent it holds.
    pub fn label_memory_storage(&self) -> (r: bool)
        ensures
            r == (self.storage_mode == LibtorrentStorageMode::MemoryOnly),
    {
        self.storage_mode == LibtorrentStorageMode::MemoryOnly
    }

    /// Lists the files of a torrent.
    pub fn get_files(layout: &TorrentLayout) -> (r: Vec<BackendFileInfo>)
        ensures
            r@.len() == layout.files@.len(),
            forall|i: int|
                0 <= i < r@.len() ==> (#[trigger] r@[i]).name == layout.files@[i].path
                    && r@[i].length == int_max(0, layout.files@[i].size as int),
    {
        let mut files: Vec<BackendFileInfo> = Vec::new();
        let mut i: usize = 0;
        while i < layout.files.len()
            invariant
                i <= layout.files@.len(),
                files@.len() == i,
                forall|k: int|
                    0 <= k < i ==> (#[trigger] files@[k]).name == layout.files@[k].path
                        && files@[k].length == int_max(0, layout.files@[k].size as int),
            decreases layout.files@.len() - i,
        {
            let file: &FileInfo = &layout.files[i];
            files.push(
                BackendFileInfo { name: file.path.clone(), length: non_negative(file.size) },
            );
            i += 1;
        }
        files
    }

    /// The playback request behind a reader.
    pub fn reader_start(
        file_idx: usize,
        start_offset: u64,
        priority: u8,
        bitrate: Option<u64>,
        intent: PlaybackIntent,
    ) -> (r: LibtorrentPlaybackStart)
        ensures
            r.file_idx == file_idx,
            r.start_offset == start_offset,
            r.priority == priority,
            r.intent == intent,
            r.bitrate_bytes_per_sec == bitrate,
            r.source@ == (if priority == PROBE_PRIORITY {
                "internal-probe-reader"@
            } else {
                "file-reader"@
            }),
    {
        LibtorrentPlaybackStart {
            file_idx,
            start_offset,
            priority,
            intent,
            bitrate_bytes_per_sec: bitrate,
            source: if priority == PROBE_PRIORITY {
                "internal-probe-reader"
            } else {
                "file-reader"
            },
        }
    }

    /// How a reader of a file is set up.
    pub open spec fn reader_plan(
        self,
        file: FileInfo,
        piece_length: u64,
        start_offset: u64,
        priority: u8,
        intent: PlaybackIntent,
        is_complete: bool,
    ) -> ReaderPlan {
        ReaderPlan {
            file: StreamFile {
                first_piece: file.first_piece,
                last_piece: file.last_piece,
                piece_length,
                file_offset: file.offset as u64,
                file_size: file.size as u64,
            },
            playback_intent: reader_intent(priority, intent, start_offset),
            seek_type: seek_type_of(start_offset, intent),
            storage_mode: self.storage_mode,
            is_complete,
            last_priorities_piece: if is_complete {
                (-1) as i32
            } else {
                piece_index((file.offset as u64) + start_offset, piece_length as int)
            },
        }
    }

    /// Sets a reader up, once playback of its file was started.
    pub fn get_file_reader(
        &self,
        layout: &TorrentLayout,
        file_idx: usize,
        start_offset: u64,
        priority: u8,
        intent: PlaybackIntent,
        is_complete: bool,
    ) -> (r: Result<ReaderPlan, PlaybackError>)
        requires
            file_idx < layout.files@.len() ==> layout.piece_length > 0
                && (layout.files@[file_idx as int].offset as u64) + start_offset <= u64::MAX,
        ensures
            r == (if file_idx >= layout.files@.len() {
                Err(PlaybackError::FileIndexOutOfRange(file_idx))
            } else {
                Ok(
                    self.reader_plan(
                        layout.files@[file_idx as int],
                        layout.piece_length,
                        start_offset,
                        priority,
                        intent,
                        is_complete,
                    ),
                )
            }),
    {
        if file_idx >= layout.files.len() {
            return Err(PlaybackError::FileIndexOutOfRange(file_idx));
        }
        let file: &FileInfo = &layout.files[file_idx];
        let file_offset: u64 = file.offset as u64;
        let seek_type: SeekType = if start_offset == 0 {
            SeekType::InitialPlayback
        } else {
            match intent {
                PlaybackIntent::ContainerMetadata => SeekType::ContainerMetadata,
                _ => SeekType::UserScrub,
            }
        };
        let playback_intent: PlaybackIntent = if priority == PROBE_PRIORITY {
            PlaybackIntent::InternalProbe
        } else {
            match intent {
                PlaybackIntent::DownloadFull
                | PlaybackIntent::DownloadRange
                | PlaybackIntent::ContainerMetadata
                | PlaybackIntent::Background
                | PlaybackIntent::InternalProbe => intent,
                PlaybackIntent::HlsInitial
                | PlaybackIntent::HlsSequential
                | PlaybackIntent::HlsSeek => if start_offset == 0 {
                    PlaybackIntent::HlsInitial
                } else {
                    PlaybackIntent::HlsSeek
                },
                _ => if start_offset == 0 {
                    PlaybackIntent::DirectInitial
                } else {
                    PlaybackIntent::DirectSeek
                },
            }
        };
        let start_piece: i32 = piece_at(file_offset + start_offset, layout.piece_length);
        Ok(
            ReaderPlan {
                file: StreamFile {
                    first_piece: file.first_piece,
                    last_piece: file.last_piece,
                    piece_length: layout.piece_length,
                    file_offset,
                    file_size: file.size as u64,
                },
                playback_intent,
                seek_type,
                storage_mode: self.storage_mode,
                is_complete,
                last_priorities_piece: if is_complete {
                    -1
                } else {
                    start_piece
                },
            },
        )
    }

    /// What a wait for the piece at `offset` of a file starts with.
    pub open spec fn readiness_start(
        self,
        file: FileInfo,
        piece_length: u64,
        offset: u64,
        timeout: u64,
        intent: PlaybackIntent,
        peers: u64,
        rate: u64,
        native_bytes: u64,
        started: u64,
        now: u64,
    ) -> ReadinessStart {
        let elapsed_ms = (elapsed_since(started, now) / 1_000_000) as u64;
        let piece = piece_index((file.offset as u64) + offset, piece_length as int);
        if piece_length == 0 {
            ReadinessStart::Done(
                PieceReadiness {
                    ready: false,
                    piece: (-1) as i32,
                    ready_pieces: 0,
                    target_pieces: 0,
                    elapsed_ms,
                    peers: 0,
                    download_rate: 0,
                    reason: ReadinessReason::ZeroPieceLength,
                },
            )
        } else if !file.spans(piece as int) {
            ReadinessStart::Done(
                PieceReadiness {
                    ready: false,
                    piece,
                    ready_pieces: 0,
                    target_pieces: 1,
                    elapsed_ms,
                    peers: 0,
                    download_rate: 0,
                    reason: ReadinessReason::PieceOutOfFileRange,
                },
            )
        } else {
            ReadinessStart::Wait {
                wait: ReadinessWait {
                    intent,
                    storage_mode: self.storage_mode,
                    cache_size: self.cache_size,
                    started,
                    timeout,
                    piece,
                    first_piece: file.first_piece,
                    last_piece: file.last_piece,
                    piece_length,
                    file_size: file.size as u64,
                    target_pieces: target_count(
                        intent,
                        piece as int,
                        file.last_piece as int,
                        piece_length as int,
                        self.storage_mode,
                    ) as u32,
                    best_ready_pieces: 0,
                    last_decide_peers: u64::MAX,
                    last_decide_rate_bucket: u64::MAX,
                    poll_interval_ms: FIRST_POLL_INTERVAL_MS,
                    last_cluster_reassert: if now >= DISK_READINESS_REASSERT {
                        (now - DISK_READINESS_REASSERT) as u64
                    } else {
                        now
                    },
                    last_peers: 0,
                    last_rate: 0,
                },
                context: PriorityContext {
                    intent,
                    current_piece: piece,
                    first_piece: file.first_piece,
                    last_piece: file.last_piece,
                    piece_length,
                    file_size: file.size as u64,
                    bitrate_bytes_per_sec: None,
                    download_rate_bytes_per_sec: rate,
                    peers,
                    cache_size_bytes: self.cache_size,
                    memory_pressure: pressure(self.cache_size, native_bytes),
                    consecutive_waits: 0,
                    first_byte_sent: false,
                },
            }
        }
    }

    /// Starts to wait until the piece at `offset` of a file can be served, with
    /// as many further ones as the intent calls for. `started` is when the wait
    /// was asked for.
    pub fn wait_for_piece_ready(
        &self,
        files: &Vec<FileInfo>,
        file_idx: usize,
        piece_length: u64,
        offset: u64,
        timeout: u64,
        intent: PlaybackIntent,
        peers: u64,
        rate: u64,
        native_bytes: u64,
        started: u64,
        now: u64,
    ) -> (r: Result<ReadinessStart, PlaybackError>)
        requires
            file_idx < files@.len() && piece_length > 0 ==> {
                let file = files@[file_idx as int];
                let piece = piece_index((file.offset as u64) + offset, piece_length as int);
                &&& (file.offset as u64) + offset <= u64::MAX
                &&& file.spans(piece as int) ==> file.last_piece - piece < i32::MAX
            },
        ensures
            r == (if file_idx >= files@.len() {
                Err(PlaybackError::FileIndexOutOfRange(file_idx))
            } else {
                Ok(
                    self.readiness_start(
                        files@[file_idx as int],
                        piece_length,
                        offset,
                        timeout,
                        intent,
                        peers,
                        rate,
                        native_bytes,
                        started,
                        now,
                    ),
                )
            }),
            r matches Ok(ReadinessStart::Wait { wait, .. }) ==> wait.wf(),
    {
        if file_idx >= files.len() {
            return Err(PlaybackError::FileIndexOutOfRange(file_idx));
        }
        let elapsed_ms: u64 = now.saturating_sub(started) / 1_000_000;
        let file: &FileInfo = &files[file_idx];
        if piece_length == 0 {
            return Ok(
                ReadinessStart::Done(
                    PieceReadiness {
                        ready: false,
                        piece: -1,
                        ready_pieces: 0,
                        target_pieces: 0,
                        elapsed_ms,
                        peers: 0,
                        download_rate: 0,
                        reason: ReadinessReason::ZeroPieceLength,
                    },
                ),
            );
        }
        let piece: i32 = piece_at(file.offset as u64 + offset, piece_length);
        if piece < file.first_piece || piece > file.last_piece {
            return Ok(
                ReadinessStart::Done(
                    PieceReadiness {
                        ready: false,
                        piece,
                        ready_pieces: 0,
                        target_pieces: 1,
                        elapsed_ms,
                        peers: 0,
                        download_rate: 0,
                        reason: ReadinessReason::PieceOutOfFileRange,
                    },
                ),
            );
        }
        let target_pieces: u32 = disk_readiness_target_pieces(
            intent,
            piece,
            file.last_piece,
            piece_length,
            self.storage_mode,
        );
        Ok(
            ReadinessStart::Wait {
                wait: ReadinessWait {
                    intent,
                    storage_mode: self.storage_mode,
                    cache_size: self.cache_size,
                    started,
                    timeout,
                    piece,
                    first_piece: file.first_piece,
                    last_piece: file.last_piece,
                    piece_length,
                    file_size: file.size as u64,
                    target_pieces,
                    best_ready_pieces: 0,
                    last_decide_peers: u64::MAX,
                    last_decide_rate_bucket: u64::MAX,
                    poll_interval_ms: FIRST_POLL_INTERVAL_MS,
                    last_cluster_reassert: if now >= DISK_READINESS_REASSERT {
                        now - DISK_READINESS_REASSERT
                    } else {
                        now
                    },
                    last_peers: 0,
                    last_rate: 0,
                },
                context: PriorityContext {
                    intent,
                    current_piece: piece,
                    first_piece: file.first_piece,
                    last_piece: file.last_piece,
                    piece_length,
                    file_size: file.size as u64,
                    bitrate_bytes_per_sec: None,
                    download_rate_bytes_per_sec: rate,
                    peers,
                    cache_size_bytes: self.cache_size,
                    memory_pressure: memory_pressure(self.cache_size, native_bytes),
                    consecutive_waits: 0,
                    first_byte_sent: false,
                },
            },
        )
    }
}

/// Files are reported one behind the other, and a file that is only streamed
/// never counts more than its size.
pub proof fn law_stats_fit_the_files(
    files: Seq<FileInfo>,
    index: int,
    piece_length: u64,
    presence: Seq<u8>,
)
    requires
        0 <= index < files.len(),
    ensures
        stats_of(files, 0, piece_length, presence).2 == 0,
        stats_of(files, index + 1, piece_length, presence).2 == stats_of(
            files,
            index,
            piece_length,
            presence,
        ).2 + stats_of(files, index, piece_length, presence).1,
        files[index].downloaded <= 0 ==> stats_of(files, index, piece_length, presence).3
            <= stats_of(files, index, piece_length, presence).1,
{
}

/// A reader at the start of its file plays from the start, and any other one was
/// moved there, whatever its request said; direct playback stays direct and HLS
/// stays HLS. A probe is known by its priority, and what is not played keeps its
/// intent.
pub proof fn law_reader_intent_follows_its_offset(
    priority: u8,
    intent: PlaybackIntent,
    start_offset: u64,
)
    ensures
        priority == 255 ==> reader_intent(priority, intent, start_offset)
            == PlaybackIntent::InternalProbe,
        priority != 255 && (intent == PlaybackIntent::DirectInitial || intent
            == PlaybackIntent::DirectSeek || intent == PlaybackIntent::DirectSequential) ==> {
            &&& start_offset == 0 ==> reader_intent(priority, intent, start_offset)
                == PlaybackIntent::DirectInitial
            &&& start_offset > 0 ==> reader_intent(priority, intent, start_offset)
                == PlaybackIntent::DirectSeek
        },
        priority != 255 && (intent == PlaybackIntent::HlsInitial || intent
            == PlaybackIntent::HlsSeek || intent == PlaybackIntent::HlsSequential) ==> {
            &&& start_offset == 0 ==> reader_intent(priority, intent, start_offset)
                == PlaybackIntent::HlsInitial
            &&& start_offset > 0 ==> reader_intent(priority, intent, start_offset)
                == PlaybackIntent::HlsSeek
        },
        priority != 255 && (intent == PlaybackIntent::DownloadFull || intent
            == PlaybackIntent::DownloadRange || intent == PlaybackIntent::ContainerMetadata
            || intent == PlaybackIntent::Background || intent == PlaybackIntent::InternalProbe)
            ==> reader_intent(priority, intent, start_offset) == intent,
        seek_type_of(start_offset, intent) == SeekType::InitialPlayback <==> start_offset == 0,
        seek_type_of(start_offset, intent) == SeekType::ContainerMetadata <==> start_offset > 0
            && intent == PlaybackIntent::ContainerMetadata,
{
}

/// A reader is set up for its file as it lies in the torrent. Priorities were set
/// for the piece it starts in, and for none where the file is complete.
pub proof fn law_reader_is_set_up_for_its_file(
    handle: LibtorrentTorrentHandle,
    file: FileInfo,
    piece_length: u64,
    start_offset: u64,
    priority: u8,
    intent: PlaybackIntent,
    is_complete: bool,
)
    requires
        0 < piece_length,
        0 <= file.offset,
        0 <= file.size,
        file.offset + start_offset < piece_length * 0x8000_0000,
    ensures
        ({
            let plan = handle.reader_plan(
                file,
                piece_length,
                start_offset,
                priority,
                intent,
                is_complete,
            );
            &&& plan.file.first_piece == file.first_piece
            &&& plan.file.last_piece == file.last_piece
            &&& plan.file.piece_length == piece_length
            &&& plan.file.file_offset == file.offset
            &&& plan.file.file_size == file.size
            &&& plan.storage_mode == handle.storage_mode
            &&& plan.is_complete == is_complete
            &&& plan.playback_intent == reader_intent(priority, intent, start_offset)
            &&& plan.seek_type == seek_type_of(start_offset, intent)
            &&& is_complete ==> plan.last_priorities_piece == -1
            &&& !is_complete ==> plan.last_priorities_piece * piece_length <= file.offset
                + start_offset < (plan.last_priorities_piece + 1) * piece_length
        }),
{
    law_piece_holds_its_position(file.offset + start_offset, piece_length as int);
}

/// Pieces are counted one by one: a range has as many as its two parts, and a
/// single piece counts exactly where its flag is set.
pub proof fn law_present_pieces_add_up(presence: Seq<u8>, first: int, middle: int, last: int)
    requires
        first <= middle <= last + 1,
    ensures
        present_count(presence, first, last) == present_count(presence, first, middle - 1)
            + present_count(presence, middle, last),
        present_count(presence, middle, middle) == (if 0 <= middle < presence.len()
            && presence[middle] != 0 {
            1nat
        } else {
            0nat
        }),
        present_count(presence, middle, middle - 1) == 0,
{
    lemma_present_count_split(presence, first, middle, last);
    reveal_with_fuel(present_count, 3);
}

/// What the native library reports of a file counts. Where it reports nothing the
/// pieces that are there are counted, each at its full length and no more than
/// the file has; without a piece length nothing is.
pub proof fn law_progress_is_reported_or_counted(
    files: Seq<FileInfo>,
    index: int,
    piece_length: u64,
    presence: Seq<u8>,
)
    requires
        0 <= index < files.len(),
        files[index].size >= 0,
    ensures
        ({
            let file = files[index];
            let report = stats_of(files, index, piece_length, presence);
            let counted = present_count(presence, file.first_piece as int, file.last_piece as int)
                * piece_length;
            &&& report.0 == file.path@
            &&& report.1 == file.size
            &&& file.downloaded > 0 ==> report.3 == file.downloaded
            &&& file.downloaded <= 0 && piece_length == 0 ==> report.3 == 0
            &&& file.downloaded <= 0 && piece_length > 0 && counted <= file.size ==> report.3
                == counted
            &&& file.downloaded <= 0 && piece_length > 0 && counted > file.size ==> report.3
                == file.size
        }),
{
}

/// What a report shows is what it holds.
pub proof fn law_stats_show_all_parts(stats: FileStats)
    ensures
        stats.parts().0 == stats.path@,
        stats.parts().1 == stats.length,
        stats.parts().2 == stats.offset,
        stats.parts().3 == stats.downloaded,
{
}

/// A wait is for the piece that holds the asked byte. It is refused where pieces
/// have no length, and where the file does not have that piece, and then nothing
/// counts as ready.
pub proof fn law_wait_is_for_the_asked_piece(
    handle: LibtorrentTorrentHandle,
    file: FileInfo,
    piece_length: u64,
    offset: u64,
    timeout: u64,
    intent: PlaybackIntent,
    peers: u64,
    rate: u64,
    native_bytes: u64,
    started: u64,
    now: u64,
)
    requires
        0 <= file.offset,
        piece_length > 0 ==> file.offset + offset < piece_length * 0x8000_0000,
        started <= now,
    ensures
        ({
            let start = handle.readiness_start(
                file,
                piece_length,
                offset,
                timeout,
                intent,
                peers,
                rate,
                native_bytes,
                started,
                now,
            );
            &&& piece_length == 0 ==> {
                &&& start matches ReadinessStart::Done(report)
                &&& report.reason == ReadinessReason::ZeroPieceLength
            }
            &&& start matches ReadinessStart::Done(report) ==> {
                &&& !report.ready
                &&& report.ready_pieces == 0
                &&& report.peers == 0 && report.download_rate == 0
                &&& report.elapsed_ms * 1_000_000 <= now - started < (report.elapsed_ms + 1)
                    * 1_000_000
                &&& piece_length == 0 ==> report.piece == -1 && report.target_pieces == 0
                &&& piece_length > 0 ==> {
                    &&& report.reason == ReadinessReason::PieceOutOfFileRange
                    &&& report.target_pieces == 1
                    &&& report.piece < file.first_piece || file.last_piece < report.piece
                    &&& report.piece * piece_length <= file.offset + offset < (report.piece + 1)
                        * piece_length
                }
            }
            &&& start matches ReadinessStart::Wait { wait, context } ==> {
                &&& piece_length > 0
                &&& wait.piece * piece_length <= file.offset + offset < (wait.piece + 1)
                    * piece_length
                &&& file.first_piece <= wait.piece <= file.last_piece
                &&& wait.first_piece == file.first_piece && wait.last_piece == file.last_piece
                &&& wait.piece_length == piece_length
                &&& file.size >= 0 ==> wait.file_size == file.size
                &&& wait.intent == intent
                &&& wait.storage_mode == handle.storage_mode
                &&& wait.cache_size == handle.cache_size
                &&& wait.started == started && wait.timeout == timeout
                &&& wait.best_ready_pieces == 0
                &&& wait.last_peers == 0 && wait.last_rate == 0
                &&& wait.poll_interval_ms == 5
                &&& wait.target_pieces == target_count(
                    intent,
                    wait.piece as int,
                    file.last_piece as int,
                    piece_length as int,
                    handle.storage_mode,
                ) as u32
                &&& context.intent == intent
                &&& context.current_piece == wait.piece
                &&& context.first_piece == file.first_piece && context.last_piece
                    == file.last_piece
                &&& context.piece_length == piece_length
                &&& context.file_size == wait.file_size
                &&& context.peers == peers
                &&& context.download_rate_bytes_per_sec == rate
                &&& context.cache_size_bytes == handle.cache_size
                &&& context.memory_pressure == pressure(handle.cache_size, native_bytes)
                &&& context.bitrate_bytes_per_sec is None
                &&& context.consecutive_waits == 0
                &&& !context.first_byte_sent
            }
        }),
{
    if piece_length > 0 {
        law_piece_holds_its_position(file.offset + offset, piece_length as int);
    }
}

/// A new wait acts at once: its first look asks for the missing pieces and lets
/// the policy decide.
pub proof fn law_new_wait_acts_at_once(
    handle: LibtorrentTorrentHandle,
    file: FileInfo,
    piece_length: u64,
    offset: u64,
    timeout: u64,
    intent: PlaybackIntent,
    peers: u64,
    rate: u64,
    native_bytes: u64,
    started: u64,
    now: u64,
    wait: ReadinessWait,
    context: PriorityContext,
)
    requires
        handle.readiness_start(
            file,
            piece_length,
            offset,
            timeout,
            intent,
            peers,
            rate,
            native_bytes,
            started,
            now,
        ) == (ReadinessStart::Wait { wait, context }),
    ensures
        now >= 250_000_000 ==> now - wait.last_cluster_reassert == 250_000_000,
        now < 250_000_000 ==> wait.last_cluster_reassert == now,
        peers < u64::MAX ==> wait.last_decide_peers != peers,
        wait.last_decide_rate_bucket == u64::MAX,
{
}

/// A reader of a file that the torrent has is set up for it; any other index is
/// named as out of range.
pub proof fn law_reader_is_for_an_existing_file(
    handle: &LibtorrentTorrentHandle,
    layout: &TorrentLayout,
    file_idx: usize,
    start_offset: u64,
    priority: u8,
    intent: PlaybackIntent,
    is_complete: bool,
    r: Result<ReaderPlan, PlaybackError>,
)
    requires
        call_ensures(
            LibtorrentTorrentHandle::get_file_reader,
            (handle, layout, file_idx, start_offset, priority, intent, is_complete),
            r,
        ),
    ensures
        file_idx >= layout.files@.len() <==> r is Err,
        r matches Err(error) ==> error == PlaybackError::FileIndexOutOfRange(file_idx),
        r matches Ok(plan) ==> {
            let file = layout.files@[file_idx as int];
            &&& plan.file.first_piece == file.first_piece && plan.file.last_piece
                == file.last_piece
            &&& plan.file.piece_length == layout.piece_length
            &&& file.offset >= 0 ==> plan.file.file_offset == file.offset
            &&& file.size >= 0 ==> plan.file.file_size == file.size
            &&& plan.storage_mode == handle.storage_mode
            &&& plan.is_complete == is_complete
            &&& priority == 255 ==> plan.playback_intent == PlaybackIntent::InternalProbe
            &&& plan.seek_type == SeekType::InitialPlayback <==> start_offset == 0
            &&& is_complete ==> plan.last_priorities_piece == -1
        },
{
}

/// A wait for a file that the torrent does not have is refused; any other one is
/// for the piece that holds the asked byte.
pub proof fn law_wait_is_for_an_existing_file(
    handle: &LibtorrentTorrentHandle,
    files: &Vec<FileInfo>,
    file_idx: usize,
    piece_length: u64,
    offset: u64,
    timeout: u64,
    intent: PlaybackIntent,
    peers: u64,
    rate: u64,
    native_bytes: u64,
    started: u64,
    now: u64,
    r: Result<ReadinessStart, PlaybackError>,
)
    requires
        call_ensures(
            LibtorrentTorrentHandle::wait_for_piece_ready,
            (
                handle,
                files,
                file_idx,
                piece_length,
                offset,
                timeout,
                intent,
                peers,
                rate,
                native_bytes,
                started,
                now,
            ),
            r,
        ),
        file_idx < files@.len() ==> 0 <= files@[file_idx as int].offset && (piece_length > 0
            ==> files@[file_idx as int].offset + offset < piece_length * 0x8000_0000),
        started <= now,
    ensures
        file_idx >= files@.len() <==> r is Err,
        r matches Err(error) ==> error == PlaybackError::FileIndexOutOfRange(file_idx),
        r matches Ok(ReadinessStart::Wait { wait, context }) ==> {
            let file = files@[file_idx as int];
            &&& piece_length > 0
            &&& wait.piece * piece_length <= file.offset + offset < (wait.piece + 1)
                * piece_length
            &&& file.first_piece <= wait.piece <= file.last_piece
            &&& wait.best_ready_pieces == 0
            &&& wait.intent == intent
            &&& wait.timeout == timeout && wait.started == started
            &&& wait.last_piece == file.last_piece
            &&& context.current_piece == wait.piece
        },
        r matches Ok(ReadinessStart::Done(report)) ==> !report.ready && report.ready_pieces == 0,
{
    if file_idx < files@.len() {
        law_wait_is_for_the_asked_piece(
            *handle,
            files@[file_idx as int],
            piece_length,
            offset,
            timeout,
            intent,
            peers,
            rate,
            native_bytes,
            started,
            now,
        );
    }
}

/// Every file is listed under its path with its size, none below nothing, and
/// every tracker in its place, the first one highest.
pub proof fn law_listings_are_complete(
    layout: &TorrentLayout,
    listed: Vec<BackendFileInfo>,
    trackers: &Vec<String>,
    tiers: Vec<(String, i32)>,
    i: int,
)
    requires
        call_ensures(LibtorrentTorrentHandle::get_files, (layout,), listed),
        call_ensures(tracker_tiers, (trackers,), tiers),
    ensures
        listed@.len() == layout.files@.len(),
        0 <= i < layout.files@.len() ==> listed@[i].name == layout.files@[i].path,
        0 <= i < layout.files@.len() && layout.files@[i].size >= 0 ==> listed@[i].length
            == layout.files@[i].size,
        0 <= i < layout.files@.len() && layout.files@[i].size < 0 ==> listed@[i].length == 0,
        tiers@.len() == trackers@.len(),
        0 <= i < trackers@.len() && i <= i32::MAX ==> tiers@[i].0 == trackers@[i] && tiers@[i].1
            == i,
{
}

/// Statistics tell of every file: where it lies behind the ones before it, and what
/// of it has come, as the native library reports it or else by its pieces.
pub proof fn law_statistics_tell_of_every_file(
    files: &Vec<FileInfo>,
    piece_length: u64,
    presence: &Vec<u8>,
    reports: Vec<FileStats>,
    i: int,
)
    requires
        call_ensures(stats, (files, piece_length, presence), reports),
        0 <= i < files@.len(),
        files@[i].size >= 0,
    ensures
        reports@.len() == files@.len(),
        reports@[i].path@ == files@[i].path@,
        reports@[i].length == files@[i].size,
        reports@[0].offset == 0,
        i + 1 < files@.len() ==> reports@[i + 1].offset == reports@[i].offset + reports@[i].length,
        files@[i].downloaded > 0 ==> reports@[i].downloaded == files@[i].downloaded,
        files@[i].downloaded <= 0 ==> reports@[i].downloaded <= reports@[i].length,
        files@[i].downloaded <= 0 && piece_length == 0 ==> reports@[i].downloaded == 0,
{
    law_stats_fit_the_files(files@, i, piece_length, presence@);
    law_progress_is_reported_or_counted(files@, i, piece_length, presence@);
    assert(reports@[0].parts() == stats_of(files@, 0, piece_length, presence@));
    assert(reports@[i].parts() == stats_of(files@, i, piece_length, presence@));
    if i + 1 < files@.len() {
        assert(reports@[i + 1].parts() == stats_of(files@, i + 1, piece_length, presence@));
    }
}

/// The request behind a reader says what the reader said, and whether a probe made
/// it.
pub proof fn law_reader_request_is_passed_on(
    file_idx: usize,
    start_offset: u64,
    priority: u8,
    bitrate: Option<u64>,
    intent: PlaybackIntent,
    r: LibtorrentPlaybackStart,
)
    requires
        call_ensures(
            LibtorrentTorrentHandle::reader_start,
            (file_idx, start_offset, priority, bitrate, intent),
            r,
        ),
    ensures
        r.file_idx == file_idx,
        r.start_offset == start_offset,
        r.priority == priority,
        r.intent == intent,
        r.bitrate_bytes_per_sec == bitrate,
        priority == 255 ==> r.source@ == "internal-probe-reader"@,
        priority != 255 ==> r.source@ == "file-reader"@,
{
}

/// A torrent is known by its identity, by its name where it has one, and as kept
/// in memory exactly where it is.
pub proof fn law_torrent_tells_of_itself(
    handle: &LibtorrentTorrentHandle,
    info_hash: String,
    native_name: String,
    name: Option<String>,
    in_memory: bool,
)
    requires
        call_ensures(LibtorrentTorrentHandle::info_hash, (handle,), info_hash),
        call_ensures(LibtorrentTorrentHandle::name, (handle, native_name), name),
        call_ensures(LibtorrentTorrentHandle::label_memory_storage, (handle,), in_memory),
    ensures
        info_hash@ == handle.info_hash@,
        native_name@.len() == 0 <==> name is None,
        name matches Some(name) ==> name == native_name,
        in_memory <==> handle.storage_mode == LibtorrentStorageMode::MemoryOnly,
{
}

} // verus!
