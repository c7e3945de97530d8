//! Waiting until enough of a file is verified to start serving it.
//!
//! The wait polls the native library: tightly at first, so that a piece that
//! verifies in between is served almost at once, then less often. Each round
//! inspects the pieces at the reading position, renews what was asked of the
//! native library where that is due, and counts what is ready without a gap.

use crate::arith::{int_clamp, int_max, int_min, saturating_difference_i32, saturating_sum_i32};
use crate::domain::{
    LibtorrentStorageMode, MemoryPressure, PlaybackIntent, PriorityAssignment, PriorityContext,
};
use crate::playback::elapsed_since;
use vstd::prelude::*;

verus! {

/// How much of a file on disk should be ready before playback starts.
pub const DISK_READINESS_BUFFER_BYTES: u64 = 8_388_608;

/// The most pieces that are waited for.
pub const DISK_READINESS_MAX_PIECES: u32 = 4;

/// How often the missing pieces are asked for again.
pub const DISK_READINESS_REASSERT: u64 = 250_000_000;

/// The first pause between two rounds, in milliseconds.
pub const FIRST_POLL_INTERVAL_MS: u64 = 5;

/// The longest pause between two rounds, in milliseconds.
pub const LAST_POLL_INTERVAL_MS: u64 = 25;

/// Download rates that differ by less than this are taken as the same.
pub const RATE_BUCKET_BYTES: u64 = 65_536;

/// Whether a reader with this intent plays what it reads.
pub open spec fn is_playback_intent(intent: PlaybackIntent) -> bool {
    match intent {
        PlaybackIntent::DirectInitial
        | PlaybackIntent::DirectSeek
        | PlaybackIntent::DirectSequential
        | PlaybackIntent::HlsInitial
        | PlaybackIntent::HlsSeek
        | PlaybackIntent::HlsSequential => true,
        _ => false,
    }
}

fn plays(intent: PlaybackIntent) -> (r: bool)
    ensures
        r == is_playback_intent(intent),
{
    match intent {
        PlaybackIntent::DirectInitial
        | PlaybackIntent::DirectSeek
        | PlaybackIntent::DirectSequential
        | PlaybackIntent::HlsInitial
        | PlaybackIntent::HlsSeek
        | PlaybackIntent::HlsSequential => true,
        _ => false,
    }
}

/// How many pieces have to be ready: enough for the buffer where a file on disk
/// is played, within limits and within the file; else the one that is read.
pub open spec fn target_count(
    intent: PlaybackIntent,
    piece: int,
    last_piece: int,
    piece_length: int,
    storage_mode: LibtorrentStorageMode,
) -> int {
    if storage_mode != LibtorrentStorageMode::DiskBacked || piece_length == 0
        || !is_playback_intent(intent) {
        1
    } else {
        let for_buffer = int_min(
            DISK_READINESS_BUFFER_BYTES + piece_length - 1,
            u64::MAX as int,
        ) / piece_length;
        int_min(
            int_clamp(for_buffer, 1, DISK_READINESS_MAX_PIECES as int),
            int_max(1, last_piece - piece + 1),
        )
    }
}

/// Computes how many pieces have to be ready.
pub fn disk_readiness_target_pieces(
    intent: PlaybackIntent,
    piece: i32,
    last_piece: i32,
    piece_length: u64,
    storage_mode: LibtorrentStorageMode,
) -> (r: u32)
    requires
        last_piece - piece < i32::MAX,
    ensures
        r == target_count(
            intent,
            piece as int,
            last_piece as int,
            piece_length as int,
            storage_mode,
        ),
{
    let rest: i32 = saturating_difference_i32(last_piece, piece) + 1;
    let remaining: u32 = if rest < 1 {
        1
    } else {
        rest as u32
    };
    if storage_mode != LibtorrentStorageMode::DiskBacked || piece_length == 0 || !plays(intent) {
        return 1;
    }
    let for_buffer: u64 = DISK_READINESS_BUFFER_BYTES.saturating_add(piece_length - 1)
        / piece_length;
    let wanted: u32 = if for_buffer < 1 {
        1
    } else if for_buffer > DISK_READINESS_MAX_PIECES as u64 {
        DISK_READINESS_MAX_PIECES
    } else {
        for_buffer as u32
    };
    if wanted < remaining {
        wanted
    } else {
        remaining
    }
}

/// Whether the native storage has filled most of the cache.
pub open spec fn pressure(cache_size: u64, native_bytes: u64) -> MemoryPressure {
    if cache_size > 0 && native_bytes >= int_min(cache_size * 80, u64::MAX as int) / 100 {
        MemoryPressure::High
    } else {
        MemoryPressure::Normal
    }
}

/// Tells whether the native storage has filled most of the cache.
pub fn memory_pressure(cache_size: u64, native_bytes: u64) -> (r: MemoryPressure)
    ensures
        r == pressure(cache_size, native_bytes),
{
    if cache_size > 0 && native_bytes >= crate::arith::saturating_product(cache_size, 80) / 100 {
        MemoryPressure::High
    } else {
        MemoryPressure::Normal
    }
}

/// How a wait ended.
#[derive(Debug, Clone, Copy, PartialEq, Eq, Structural)]
pub enum ReadinessReason {
    ZeroPieceLength,
    PieceOutOfFileRange,
    BufferReady,
    PieceReady,
    PartialBufferTimeout,
    Timeout,
}

impl ReadinessReason {
    pub open spec fn spec_text(self) -> Seq<char> {
        match self {
            ReadinessReason::ZeroPieceLength => "zero-piece-length"@,
            ReadinessReason::PieceOutOfFileRange => "piece-out-of-file-range"@,
            ReadinessReason::BufferReady => "buffer-ready"@,
            ReadinessReason::PieceReady => "piece-ready"@,
            ReadinessReason::PartialBufferTimeout => "partial-buffer-timeout"@,
            ReadinessReason::Timeout => "timeout"@,
        }
    }

    /// The reason in words.
    pub fn text(&self) -> (r: &'static str)
        ensures
            r@ == self.spec_text(),
    {
        match self {
            ReadinessReason::ZeroPieceLength => "zero-piece-length",
            ReadinessReason::PieceOutOfFileRange => "piece-out-of-file-range",
            ReadinessReason::BufferReady => "buffer-ready",
            ReadinessReason::PieceReady => "piece-ready",
            ReadinessReason::PartialBufferTimeout => "partial-buffer-timeout",
            ReadinessReason::Timeout => "timeout",
        }
    }
}

/// What a wait found.
#[derive(Debug, Clone, Copy, PartialEq, Eq)]
pub struct PieceReadiness {
    pub ready: bool,
    pub piece: i32,
    pub ready_pieces: u32,
    pub target_pieces: u32,
    pub elapsed_ms: u64,
    pub peers: u64,
    pub download_rate: u64,
    pub reason: ReadinessReason,
}

/// Priorities and deadlines to hand to the native library in bulk, as pairs of
/// a piece and its value.
#[derive(Debug, Clone, PartialEq, Eq)]
pub struct PiecePlan {
    pub priorities: Vec<(i32, i32)>,
    pub deadlines: Vec<(i32, i32)>,
}

/// Takes the priority policy's assignments apart.
pub fn plan_of(assignments: &Vec<PriorityAssignment>) -> (r: PiecePlan)
    ensures
        r.priorities@ == assignments@.map_values(
            |assignment: PriorityAssignment| (assignment.piece_idx, assignment.piece_priority),
        ),
        r.deadlines@ == assignments@.map_values(
            |assignment: PriorityAssignment| (assignment.piece_idx, assignment.deadline),
        ),
{
    let mut priorities: Vec<(i32, i32)> = Vec::new();
    let mut deadlines: Vec<(i32, i32)> = Vec::new();
    let mut i: usize = 0;
    while i < assignments.len()
        invariant
            i <= assignments@.len(),
            priorities@.len() == i,
            deadlines@.len() == i,
            forall|k: int|
                0 <= k < i ==> #[trigger] priorities@[k] == (
                    assignments@[k].piece_idx,
                    assignments@[k].piece_priority,
                ),
            forall|k: int|
                0 <= k < i ==> #[trigger] deadlines@[k] == (
                    assignments@[k].piece_idx,
                    assignments@[k].deadline,
                ),
        decreases assignments@.len() - i,
    {
        priorities.push((assignments[i].piece_idx, assignments[i].piece_priority));
        deadlines.push((assignments[i].piece_idx, assignments[i].deadline));
        i += 1;
    }
    PiecePlan { priorities, deadlines }
}

/// How many pieces are there without a gap. A piece is there where its flag is
/// not zero.
pub open spec fn leading(presence: Seq<u8>) -> nat
    decreases presence.len(),
{
    if presence.len() == 0 || presence[0] == 0 {
        0
    } else {
        1 + leading(presence.drop_first())
    }
}

/// The leading flags are those before the first zero.
pub proof fn lemma_leading(presence: Seq<u8>)
    ensures
        leading(presence) <= presence.len(),
        forall|i: int| 0 <= i < leading(presence) ==> presence[i] != 0,
        leading(presence) < presence.len() ==> presence[leading(presence) as int] == 0,
    decreases presence.len(),
{
    if presence.len() > 0 && presence[0] != 0 {
        let rest = presence.drop_first();
        lemma_leading(rest);
        assert forall|i: int| 0 <= i < leading(presence) implies presence[i] != 0 by {
            if i > 0 {
                assert(presence[i] == rest[i - 1]);
            }
        }
        if leading(presence) < presence.len() {
            assert(presence[leading(presence) as int] == rest[leading(rest) as int]);
        }
    }
}

/// A count is the number of leading flags if it is where the zeros begin.
proof fn lemma_leading_is(presence: Seq<u8>, count: int)
    requires
        0 <= count <= presence.len(),
        forall|i: int| 0 <= i < count ==> presence[i] != 0,
        count < presence.len() ==> presence[count] == 0,
    ensures
        leading(presence) == count,
{
    lemma_leading(presence);
}

/// Which of the inspected pieces are asked for again, and by when: those that
/// are missing, in order, at top priority.
pub open spec fn missing_plan(piece: int, presence: Seq<u8>) -> Seq<(i32, i32)>
    decreases presence.len(),
{
    if presence.len() == 0 {
        Seq::empty()
    } else {
        let earlier = missing_plan(piece, presence.drop_last());
        if presence.last() == 0 {
            let target = int_min(piece + presence.len() - 1, i32::MAX as int);
            earlier.push((target as i32, ((target - piece) * 10) as i32))
        } else {
            earlier
        }
    }
}

/// The same pieces at top priority.
pub open spec fn at_top_priority(deadlines: Seq<(i32, i32)>) -> Seq<(i32, i32)> {
    deadlines.map_values(|entry: (i32, i32)| (entry.0, 7i32))
}

fn ask_again(piece: i32, presence: &Vec<u8>) -> (r: PiecePlan)
    requires
        presence@.len() * 10 <= i32::MAX,
    ensures
        r.deadlines@ == missing_plan(piece as int, presence@),
        r.priorities@ == at_top_priority(missing_plan(piece as int, presence@)),
{
    let mut priorities: Vec<(i32, i32)> = Vec::new();
    let mut deadlines: Vec<(i32, i32)> = Vec::new();
    let mut i: usize = 0;
    assert(presence@.take(0) =~= Seq::empty());
    while i < presence.len()
        invariant
            i <= presence@.len(),
            presence@.len() * 10 <= i32::MAX,
            deadlines@ == missing_plan(piece as int, presence@.take(i as int)),
            priorities@ == at_top_priority(deadlines@),
        decreases presence@.len() - i,
    {
        assert(presence@.take(i + 1).drop_last() =~= presence@.take(i as int));
        if presence[i] == 0 {
            let target: i32 = saturating_sum_i32(piece, i as i32);
            let deadline: i32 = saturating_difference_i32(target, piece) * 10;
            priorities.push((target, 7));
            deadlines.push((target, deadline));
            assert(priorities@ =~= at_top_priority(deadlines@));
        }
        i += 1;
    }
    assert(presence@.take(i as int) =~= presence@);
    PiecePlan { priorities, deadlines }
}

/// A wait that is going on.
#[derive(Debug, Clone, Copy, PartialEq, Eq)]
pub struct ReadinessWait {
    pub intent: PlaybackIntent,
    pub storage_mode: LibtorrentStorageMode,
    pub cache_size: u64,
    pub started: u64,
    pub timeout: u64,
    pub piece: i32,
    pub first_piece: i32,
    pub last_piece: i32,
    pub piece_length: u64,
    pub file_size: u64,
    pub target_pieces: u32,
    pub best_ready_pieces: u32,
    pub last_decide_peers: u64,
    pub last_decide_rate_bucket: u64,
    pub poll_interval_ms: u64,
    pub last_cluster_reassert: u64,
    pub last_peers: u64,
    pub last_rate: u64,
}

/// The next step of a wait.
#[derive(Debug, Clone, Copy, PartialEq, Eq)]
pub enum ReadinessStep {
    /// Inspect the native torrent, with the presence of these pieces.
    Inspect { first: i32, last: i32 },
    /// Go on after this many milliseconds.
    Sleep { milliseconds: u64 },
    Done(PieceReadiness),
}

/// What an inspection leads to, in this order.
#[derive(Debug, Clone)]
pub struct Inspection {
    /// The pieces to ask for again.
    pub ask_again: Option<PiecePlan>,
    /// What the priority policy has to decide anew.
    pub decide: Option<PriorityContext>,
    /// How many pieces are there without a gap.
    pub present_pieces: u32,
}

impl ReadinessWait {
    /// Whether the pieces that are waited for are the ones that the file has, and
    /// never were all there.
    pub open spec fn wf(self) -> bool {
        &&& 1 <= self.target_pieces
        &&& self.best_ready_pieces < self.target_pieces
        &&& self.target_pieces <= self.last_piece - self.piece + 1
        &&& self.poll_interval_ms <= LAST_POLL_INTERVAL_MS
    }

    /// Whether what is needed lies on disk.
    pub open spec fn disk_satisfied(self, presence: Seq<u8>) -> bool {
        self.storage_mode == LibtorrentStorageMode::DiskBacked && leading(presence)
            >= self.target_pieces
    }

    /// Whether the missing pieces are asked for again.
    pub open spec fn reassert_due(self, presence: Seq<u8>, now: u64) -> bool {
        &&& !self.disk_satisfied(presence)
        &&& self.storage_mode == LibtorrentStorageMode::DiskBacked
        &&& elapsed_since(self.last_cluster_reassert, now) >= DISK_READINESS_REASSERT
    }

    /// Whether the priority policy decides anew: only where the swarm changed.
    pub open spec fn decision_due(self, peers: u64, rate: u64, presence: Seq<u8>) -> bool {
        &&& !self.disk_satisfied(presence)
        &&& (peers != self.last_decide_peers || rate / RATE_BUCKET_BYTES
            != self.last_decide_rate_bucket)
    }

    /// What the priority policy is told while a wait goes on.
    pub open spec fn context(self, peers: u64, rate: u64) -> PriorityContext {
        PriorityContext {
            intent: self.intent,
            current_piece: self.piece,
            first_piece: self.first_piece,
            last_piece: self.last_piece,
            piece_length: self.piece_length,
            file_size: self.file_size,
            bitrate_bytes_per_sec: None,
            download_rate_bytes_per_sec: rate,
            peers,
            cache_size_bytes: self.cache_size,
            memory_pressure: MemoryPressure::Normal,
            consecutive_waits: 1,
            first_byte_sent: false,
        }
    }

    /// The wait after an inspection.
    pub open spec fn inspected(self, peers: u64, rate: u64, presence: Seq<u8>, now: u64) -> Self {
        ReadinessWait {
            last_cluster_reassert: if self.reassert_due(presence, now) {
                now
            } else {
                self.last_cluster_reassert
            },
            last_decide_peers: if self.decision_due(peers, rate, presence) {
                peers
            } else {
                self.last_decide_peers
            },
            last_decide_rate_bucket: if self.decision_due(peers, rate, presence) {
                rate / RATE_BUCKET_BYTES
            } else {
                self.last_decide_rate_bucket
            },
            last_peers: peers,
            last_rate: rate,
            ..self
        }
    }

    pub open spec fn elapsed_ms_at(self, now: u64) -> u64 {
        (elapsed_since(self.started, now) / 1_000_000) as u64
    }

    /// What is reported when time is up.
    pub open spec fn timed_out(self, now: u64) -> PieceReadiness {
        PieceReadiness {
            ready: self.best_ready_pieces > 0,
            piece: self.piece,
            ready_pieces: self.best_ready_pieces,
            target_pieces: self.target_pieces,
            elapsed_ms: self.elapsed_ms_at(now),
            peers: self.last_peers,
            download_rate: self.last_rate,
            reason: if self.best_ready_pieces > 0 {
                ReadinessReason::PartialBufferTimeout
            } else {
                ReadinessReason::Timeout
            },
        }
    }

    /// What is reported when all pieces are ready.
    pub open spec fn satisfied(self, ready_pieces: u32, now: u64) -> PieceReadiness {
        PieceReadiness {
            ready: true,
            piece: self.piece,
            ready_pieces,
            target_pieces: self.target_pieces,
            elapsed_ms: self.elapsed_ms_at(now),
            peers: self.last_peers,
            download_rate: self.last_rate,
            reason: if self.target_pieces > 1 {
                ReadinessReason::BufferReady
            } else {
                ReadinessReason::PieceReady
            },
        }
    }

    /// The wait and its next step once it is clear how many pieces are ready.
    pub open spec fn counted(self, ready_pieces: u32, now: u64) -> (Self, ReadinessStep) {
        let best = ReadinessWait {
            best_ready_pieces: int_max(
                self.best_ready_pieces as int,
                ready_pieces as int,
            ) as u32,
            ..self
        };
        if ready_pieces >= self.target_pieces {
            (best, ReadinessStep::Done(self.satisfied(ready_pieces, now)))
        } else {
            (
                ReadinessWait {
                    poll_interval_ms: int_min(
                        self.poll_interval_ms * 2,
                        LAST_POLL_INTERVAL_MS as int,
                    ) as u64,
                    ..best
                },
                ReadinessStep::Sleep { milliseconds: self.poll_interval_ms },
            )
        }
    }

    fn elapsed_ms(&self, now: u64) -> (r: u64)
        ensures
            r == self.elapsed_ms_at(now),
    {
        now.saturating_sub(self.started) / 1_000_000
    }

    /// Begins a round, unless time is up.
    pub fn next_round(&self, now: u64) -> (r: ReadinessStep)
        requires
            self.wf(),
        ensures
            r == (if elapsed_since(self.started, now) >= self.timeout {
                ReadinessStep::Done(self.timed_out(now))
            } else {
                ReadinessStep::Inspect {
                    first: self.piece,
                    last: (self.piece + self.target_pieces - 1) as i32,
                }
            }),
    {
        if now.saturating_sub(self.started) >= self.timeout {
            return ReadinessStep::Done(
                PieceReadiness {
                    ready: self.best_ready_pieces > 0,
                    piece: self.piece,
                    ready_pieces: self.best_ready_pieces,
                    target_pieces: self.target_pieces,
                    elapsed_ms: self.elapsed_ms(now),
                    peers: self.last_peers,
                    download_rate: self.last_rate,
                    reason: if self.best_ready_pieces > 0 {
                        ReadinessReason::PartialBufferTimeout
                    } else {
                        ReadinessReason::Timeout
                    },
                },
            );
        }
        ReadinessStep::Inspect {
            first: self.piece,
            last: (self.piece as i64 + self.target_pieces as i64 - 1) as i32,
        }
    }

    /// Takes in an inspection of the native torrent.
    pub fn observe(&mut self, peers: u64, rate: u64, presence: &Vec<u8>, now: u64) -> (r:
        Inspection)
        requires
            old(self).wf(),
            presence@.len() * 10 <= i32::MAX,
        ensures
            *final(self) == old(self).inspected(peers, rate, presence@, now),
            final(self).wf(),
            r.present_pieces == leading(presence@),
            match r.ask_again {
                Some(plan) => {
                    &&& old(self).reassert_due(presence@, now)
                    &&& plan.deadlines@ == missing_plan(old(self).piece as int, presence@)
                    &&& plan.priorities@ == at_top_priority(
                        missing_plan(old(self).piece as int, presence@),
                    )
                },
                None => !old(self).reassert_due(presence@, now),
            },
            r.decide == (if old(self).decision_due(peers, rate, presence@) {
                Some(old(self).context(peers, rate))
            } else {
                None
            }),
    {
        let mut present: u32 = 0;
        while (present as usize) < presence.len() && presence[present as usize] != 0
            invariant
                present <= presence@.len(),
                presence@.len() * 10 <= i32::MAX,
                forall|i: int| 0 <= i < present ==> presence@[i] != 0,
            decreases presence@.len() - present,
        {
            present += 1;
        }
        proof {
            lemma_leading_is(presence@, present as int);
        }
        let on_disk: bool = self.storage_mode == LibtorrentStorageMode::DiskBacked;
        let satisfied: bool = on_disk && present >= self.target_pieces;
        let mut again: Option<PiecePlan> = None;
        if !satisfied && on_disk && now.saturating_sub(self.last_cluster_reassert)
            >= DISK_READINESS_REASSERT {
            self.last_cluster_reassert = now;
            again = Some(ask_again(self.piece, presence));
        }
        let bucket: u64 = rate / RATE_BUCKET_BYTES;
        let mut decide: Option<PriorityContext> = None;
        if !satisfied && (peers != self.last_decide_peers || bucket
            != self.last_decide_rate_bucket) {
            self.last_decide_peers = peers;
            self.last_decide_rate_bucket = bucket;
            decide = Some(
                PriorityContext {
                    intent: self.intent,
                    current_piece: self.piece,
                    first_piece: self.first_piece,
                    last_piece: self.last_piece,
                    piece_length: self.piece_length,
                    file_size: self.file_size,
                    bitrate_bytes_per_sec: None,
                    download_rate_bytes_per_sec: rate,
                    peers,
                    cache_size_bytes: self.cache_size,
                    memory_pressure: MemoryPressure::Normal,
                    consecutive_waits: 1,
                    first_byte_sent: false,
                },
            );
        }
        self.last_peers = peers;
        self.last_rate = rate;
        Inspection { ask_again: again, decide, present_pieces: present }
    }

    /// Ends a round: `ready_pieces` pieces can be served without a gap.
    pub fn count_ready(&mut self, ready_pieces: u32, now: u64) -> (r: ReadinessStep)
        requires
            old(self).wf(),
        ensures
            (*final(self), r) == old(self).counted(ready_pieces, now),
            !(r is Done) ==> final(self).wf(),
    {
        if ready_pieces > self.best_ready_pieces {
            self.best_ready_pieces = ready_pieces;
        }
        if ready_pieces >= self.target_pieces {
            return ReadinessStep::Done(
                PieceReadiness {
                    ready: true,
                    piece: self.piece,
                    ready_pieces,
                    target_pieces: self.target_pieces,
                    elapsed_ms: self.elapsed_ms(now),
                    peers: self.last_peers,
                    download_rate: self.last_rate,
                    reason: if self.target_pieces > 1 {
                        ReadinessReason::BufferReady
                    } else {
                        ReadinessReason::PieceReady
                    },
                },
            );
        }
        let milliseconds: u64 = self.poll_interval_ms;
        self.poll_interval_ms = crate::arith::min_u64(milliseconds * 2, LAST_POLL_INTERVAL_MS);
        ReadinessStep::Sleep { milliseconds }
    }
}

/// The next step of counting the pieces in memory that can be served.
#[derive(Debug, Clone, Copy, PartialEq, Eq)]
pub enum ScanStep {
    /// Ask the read cache for the piece.
    CheckCache { piece: i32 },
    /// Read the piece from the native memory storage; if bytes come, put them
    /// into the read cache and wake whoever waits for the piece.
    ReadStorage { piece: i32 },
    /// This many pieces can be served without a gap.
    Done { ready: u32 },
}

/// Counting the pieces in memory that can be served: those in the read cache,
/// or in the native storage and copied from there now.
#[derive(Debug, Clone, Copy, PartialEq, Eq)]
pub struct CacheScan {
    pub first: i32,
    pub count: u32,
    /// How many pieces from `first` on the native storage has without a gap.
    pub stored: u32,
    pub ready: u32,
}

impl CacheScan {
    pub open spec fn wf(self) -> bool {
        &&& self.ready <= self.count
        &&& self.first + self.count <= i32::MAX + 1
    }

    pub open spec fn next(self) -> ScanStep {
        if self.ready >= self.count {
            ScanStep::Done { ready: self.ready }
        } else {
            ScanStep::CheckCache { piece: (self.first + self.ready) as i32 }
        }
    }

    pub open spec fn one_more(self) -> Self {
        CacheScan { ready: (self.ready + 1) as u32, ..self }
    }

    /// Names the step for the next piece.
    pub fn step(&self) -> (r: ScanStep)
        requires
            self.wf(),
        ensures
            r == self.next(),
    {
        if self.ready >= self.count {
            ScanStep::Done { ready: self.ready }
        } else {
            ScanStep::CheckCache { piece: (self.first as i64 + self.ready as i64) as i32 }
        }
    }

    /// Goes on after [`ScanStep::CheckCache`].
    pub fn cache_checked(&mut self, cached: bool) -> (r: ScanStep)
        requires
            old(self).wf(),
            old(self).ready < old(self).count,
        ensures
            final(self).wf(),
            if cached {
                *final(self) == old(self).one_more() && r == old(self).one_more().next()
            } else {
                &&& *final(self) == *old(self)
                &&& r == (if old(self).ready < old(self).stored {
                    ScanStep::ReadStorage { piece: (old(self).first + old(self).ready) as i32 }
                } else {
                    ScanStep::Done { ready: old(self).ready }
                })
            },
    {
        if cached {
            self.ready += 1;
            return self.step();
        }
        if self.ready < self.stored {
            ScanStep::ReadStorage { piece: (self.first as i64 + self.ready as i64) as i32 }
        } else {
            ScanStep::Done { ready: self.ready }
        }
    }

    /// Goes on after [`ScanStep::ReadStorage`].
    pub fn storage_read(&mut self, found: bool) -> (r: ScanStep)
        requires
            old(self).wf(),
            old(self).ready < old(self).count,
        ensures
            final(self).wf(),
            if found {
                *final(self) == old(self).one_more() && r == old(self).one_more().next()
            } else {
                *final(self) == *old(self) && r == (ScanStep::Done { ready: old(self).ready })
            },
    {
        if found {
            self.ready += 1;
            return self.step();
        }
        ScanStep::Done { ready: self.ready }
    }
}

impl ReadinessWait {
    /// How the pieces that can be served are counted after an inspection: on
    /// disk the verified pieces are all there is to it, in memory they have to
    /// be in the read cache too.
    pub fn cache_scan(&self, present_pieces: u32) -> (r: Option<CacheScan>)
        requires
            self.wf(),
        ensures
            r == (if self.storage_mode == LibtorrentStorageMode::DiskBacked {
                None
            } else {
                Some(
                    CacheScan {
                        first: self.piece,
                        count: self.target_pieces,
                        stored: present_pieces,
                        ready: 0,
                    },
                )
            }),
            r matches Some(scan) ==> scan.wf(),
    {
        if self.storage_mode == LibtorrentStorageMode::DiskBacked {
            None
        } else {
            Some(
                CacheScan {
                    first: self.piece,
                    count: self.target_pieces,
                    stored: present_pieces,
                    ready: 0,
                },
            )
        }
    }
}

/// A report is honest: it calls the file ready exactly where some piece was, it
/// counts as many pieces as asked for exactly where it names no timeout, and
/// the best count of all rounds is never forgotten.
pub proof fn law_report_is_honest(wait: ReadinessWait, ready_pieces: u32, now: u64)
    requires
        wait.wf(),
    ensures
        wait.timed_out(now).ready <==> wait.timed_out(now).ready_pieces > 0,
        wait.timed_out(now).ready_pieces < wait.target_pieces,
        wait.timed_out(now).reason == (if wait.timed_out(now).ready {
            ReadinessReason::PartialBufferTimeout
        } else {
            ReadinessReason::Timeout
        }),
        wait.counted(ready_pieces, now).0.best_ready_pieces >= wait.best_ready_pieces,
        wait.counted(ready_pieces, now).0.best_ready_pieces >= ready_pieces,
        wait.counted(ready_pieces, now).1 is Done <==> ready_pieces >= wait.target_pieces,
        wait.counted(ready_pieces, now).1 matches ReadinessStep::Done(report) ==> {
            &&& report.ready
            &&& report.ready_pieces >= report.target_pieces
            &&& report.reason is BufferReady || report.reason is PieceReady
        },
        !(wait.counted(ready_pieces, now).1 is Done) ==> wait.counted(ready_pieces, now).0.wf(),
{
}

/// Polling backs off: every pause is at least as long as the one before, and
/// none is longer than the longest.
pub proof fn law_polling_backs_off(wait: ReadinessWait, ready_pieces: u32, now: u64)
    requires
        wait.wf(),
    ensures
        wait.counted(ready_pieces, now).1 matches ReadinessStep::Sleep { milliseconds } ==> {
            &&& milliseconds == wait.poll_interval_ms
            &&& milliseconds <= wait.counted(ready_pieces, now).0.poll_interval_ms
                <= LAST_POLL_INTERVAL_MS
        },
{
}

/// A satisfied wait leaves the native library alone.
pub proof fn law_satisfied_wait_is_quiet(
    wait: ReadinessWait,
    peers: u64,
    rate: u64,
    presence: Seq<u8>,
    now: u64,
)
    requires
        wait.disk_satisfied(presence),
    ensures
        !wait.reassert_due(presence, now),
        !wait.decision_due(peers, rate, presence),
{
}

/// The policy decides once per picture of the swarm: with the same peers and
/// about the same rate it is not asked again.
pub proof fn law_same_swarm_decides_once(
    wait: ReadinessWait,
    peers: u64,
    rate: u64,
    presence: Seq<u8>,
    now: u64,
    later_rate: u64,
    later_presence: Seq<u8>,
)
    requires
        wait.decision_due(peers, rate, presence),
        later_rate / RATE_BUCKET_BYTES == rate / RATE_BUCKET_BYTES,
    ensures
        !wait.inspected(peers, rate, presence, now).decision_due(peers, later_rate, later_presence),
{
}

/// The missing pieces are asked for in reading order: of two of them the nearer
/// one is due first.
pub proof fn law_missing_are_due_in_order(piece: int, presence: Seq<u8>, i: int, j: int)
    requires
        i32::MIN <= piece,
        piece + presence.len() <= i32::MAX,
        presence.len() * 10 <= i32::MAX,
        0 <= i < j < missing_plan(piece, presence).len(),
    ensures
        missing_plan(piece, presence)[i].0 < missing_plan(piece, presence)[j].0,
        missing_plan(piece, presence)[i].1 < missing_plan(piece, presence)[j].1,
{
    lemma_missing_plan(piece, presence);
}

/// Every entry of the plan is a missing piece that was inspected, in order.
proof fn lemma_missing_plan(piece: int, presence: Seq<u8>)
    requires
        i32::MIN <= piece,
        piece + presence.len() <= i32::MAX,
        presence.len() * 10 <= i32::MAX,
    ensures
        forall|i: int|
            0 <= i < missing_plan(piece, presence).len() ==> {
                let entry = #[trigger] missing_plan(piece, presence)[i];
                &&& piece <= entry.0 < piece + presence.len()
                &&& entry.1 == (entry.0 - piece) * 10
            },
        forall|i: int, j: int|
            0 <= i < j < missing_plan(piece, presence).len() ==> (#[trigger] missing_plan(
                piece,
                presence,
            )[i]).0 < (#[trigger] missing_plan(piece, presence)[j]).0,
    decreases presence.len(),
{
    if presence.len() > 0 {
        let shorter = presence.drop_last();
        let earlier = missing_plan(piece, shorter);
        let all = missing_plan(piece, presence);
        lemma_missing_plan(piece, shorter);
        assert forall|i: int| 0 <= i < all.len() implies {
            let entry = #[trigger] all[i];
            &&& piece <= entry.0 < piece + presence.len()
            &&& entry.1 == (entry.0 - piece) * 10
        } by {
            if i < earlier.len() {
                assert(all[i] == earlier[i]);
            }
        }
        assert forall|i: int, j: int| 0 <= i < j < all.len() implies (#[trigger] all[i]).0
            < (#[trigger] all[j]).0 by {
            assert(all[i] == earlier[i]);
            if j < earlier.len() {
                assert(all[j] == earlier[j]);
            }
        }
    }
}

/// Playback from disk, direct or HLS, from the start, after a seek or reading on,
/// waits for eight mebibytes: the pieces that are waited for cover them, unless
/// four pieces or the rest of the file are less, and one piece fewer would not.
/// Which kind of playback it is makes no difference.
pub proof fn law_target_covers_the_buffer(
    intent: PlaybackIntent,
    other: PlaybackIntent,
    piece: int,
    last_piece: int,
    piece_length: u64,
)
    requires
        piece_length > 0,
        piece <= last_piece,
        intent == PlaybackIntent::DirectInitial || intent == PlaybackIntent::DirectSeek || intent
            == PlaybackIntent::DirectSequential || intent == PlaybackIntent::HlsInitial || intent
            == PlaybackIntent::HlsSeek || intent == PlaybackIntent::HlsSequential,
        other == PlaybackIntent::DirectInitial || other == PlaybackIntent::DirectSeek || other
            == PlaybackIntent::DirectSequential || other == PlaybackIntent::HlsInitial || other
            == PlaybackIntent::HlsSeek || other == PlaybackIntent::HlsSequential,
    ensures
        ({
            let target = target_count(
                intent,
                piece,
                last_piece,
                piece_length as int,
                LibtorrentStorageMode::DiskBacked,
            );
            &&& 1 <= target <= 4
            &&& piece + target - 1 <= last_piece
            &&& target * piece_length >= 8_388_608 || target == 4 || piece + target - 1
                == last_piece
            &&& target > 1 ==> (target - 1) * piece_length < 8_388_608
            &&& target_count(
                other,
                piece,
                last_piece,
                piece_length as int,
                LibtorrentStorageMode::DiskBacked,
            ) == target
        }),
{
    let length = piece_length as int;
    let sum = int_min(8_388_608 + length - 1, u64::MAX as int);
    let for_buffer = sum / length;
    vstd::arithmetic::div_mod::lemma_fundamental_div_mod(sum, length);
    vstd::arithmetic::div_mod::lemma_mod_bound(sum, length);
    assert(for_buffer >= 1 && for_buffer * length >= 8_388_608 && (for_buffer > 1 ==> (for_buffer
        - 1) * length < 8_388_608)) by (nonlinear_arith)
        requires
            0 < length <= u64::MAX,
            sum == length * for_buffer + sum % length,
            0 <= sum % length < length,
            sum == 8_388_608 + length - 1 || (sum == u64::MAX && 8_388_608 + length - 1
                > u64::MAX),
    ;
    let target = target_count(
        intent,
        piece,
        last_piece,
        length,
        LibtorrentStorageMode::DiskBacked,
    );
    assert(target <= for_buffer);
    assert(target > 1 ==> (target - 1) * length <= (for_buffer - 1) * length) by (nonlinear_arith)
        requires
            target <= for_buffer,
            0 < length,
    ;
}

/// Everything else waits for the one piece that it reads: what is kept in memory,
/// what is not played, and a torrent whose pieces have no length.
pub proof fn law_other_readers_wait_for_one_piece(
    intent: PlaybackIntent,
    piece: int,
    last_piece: int,
    piece_length: int,
    storage_mode: LibtorrentStorageMode,
)
    requires
        storage_mode == LibtorrentStorageMode::MemoryOnly || piece_length == 0 || intent
            == PlaybackIntent::ContainerMetadata || intent == PlaybackIntent::InternalProbe
            || intent == PlaybackIntent::Background || intent == PlaybackIntent::DownloadFull
            || intent == PlaybackIntent::DownloadRange,
    ensures
        target_count(intent, piece, last_piece, piece_length, storage_mode) == 1,
{
}

/// Memory is short once four fifths of a cache are filled, and never without a
/// cache.
pub proof fn law_memory_is_short_at_four_fifths(cache_size: u64, native_bytes: u64)
    requires
        cache_size * 80 <= u64::MAX,
    ensures
        cache_size == 0 ==> pressure(cache_size, native_bytes) == MemoryPressure::Normal,
        cache_size > 0 && native_bytes * 5 >= cache_size * 4 ==> pressure(cache_size, native_bytes)
            == MemoryPressure::High,
        native_bytes * 5 + 5 <= cache_size * 4 ==> pressure(cache_size, native_bytes)
            == MemoryPressure::Normal,
{
}

/// Each way a wait can end has its own words.
pub proof fn law_reasons_have_their_words()
    ensures
        ReadinessReason::ZeroPieceLength.spec_text() == "zero-piece-length"@,
        ReadinessReason::PieceOutOfFileRange.spec_text() == "piece-out-of-file-range"@,
        ReadinessReason::BufferReady.spec_text() == "buffer-ready"@,
        ReadinessReason::PieceReady.spec_text() == "piece-ready"@,
        ReadinessReason::PartialBufferTimeout.spec_text() == "partial-buffer-timeout"@,
        ReadinessReason::Timeout.spec_text() == "timeout"@,
{
}

/// Of the inspected pieces exactly the missing ones are asked for again, each at
/// top priority and ten milliseconds later than the piece before it.
pub proof fn law_missing_pieces_are_renewed(piece: int, presence: Seq<u8>, ahead: int)
    requires
        i32::MIN <= piece,
        piece + presence.len() <= i32::MAX,
        presence.len() * 10 <= i32::MAX,
        0 <= ahead < presence.len(),
    ensures
        presence[ahead] == 0 ==> missing_plan(piece, presence).contains(
            ((piece + ahead) as i32, (ahead * 10) as i32),
        ),
        presence[ahead] == 0 ==> at_top_priority(missing_plan(piece, presence)).contains(
            ((piece + ahead) as i32, 7i32),
        ),
        presence[ahead] != 0 ==> !missing_plan(piece, presence).contains(
            ((piece + ahead) as i32, (ahead * 10) as i32),
        ),
        forall|i: int|
            0 <= i < missing_plan(piece, presence).len() ==> (#[trigger] missing_plan(
                piece,
                presence,
            )[i]).1 == ((#[trigger] missing_plan(piece, presence)[i]).0 - piece) * 10,
        at_top_priority(missing_plan(piece, presence)).len() == missing_plan(piece, presence).len(),
{
    lemma_missing_plan(piece, presence);
    lemma_missing_plan_members(piece, presence, ahead);
    let plan = missing_plan(piece, presence);
    let entry = ((piece + ahead) as i32, (ahead * 10) as i32);
    if presence[ahead] == 0 {
        let at = choose|at: int| 0 <= at < plan.len() && plan[at] == entry;
        assert(at_top_priority(plan)[at] == (entry.0, 7i32));
    }
}

proof fn lemma_missing_plan_members(piece: int, presence: Seq<u8>, ahead: int)
    requires
        i32::MIN <= piece,
        piece + presence.len() <= i32::MAX,
        presence.len() * 10 <= i32::MAX,
        0 <= ahead < presence.len(),
    ensures
        presence[ahead] == 0 <==> missing_plan(piece, presence).contains(
            ((piece + ahead) as i32, (ahead * 10) as i32),
        ),
    decreases presence.len(),
{
    let last = presence.len() - 1;
    let shorter = presence.drop_last();
    let earlier = missing_plan(piece, shorter);
    let all = missing_plan(piece, presence);
    let entry = ((piece + ahead) as i32, (ahead * 10) as i32);
    lemma_missing_plan(piece, shorter);
    if ahead < last {
        lemma_missing_plan_members(piece, shorter, ahead);
        assert(shorter[ahead] == presence[ahead]);
        if earlier.contains(entry) {
            let at = choose|at: int| 0 <= at < earlier.len() && earlier[at] == entry;
            assert(all[at] == entry);
        }
        if all.contains(entry) {
            let at = choose|at: int| 0 <= at < all.len() && all[at] == entry;
            assert(at < earlier.len());
            assert(earlier[at] == entry);
        }
    } else {
        if presence[ahead] == 0 {
            assert(all[all.len() - 1] == entry);
        }
        if all.contains(entry) && presence[ahead] != 0 {
            let at = choose|at: int| 0 <= at < all.len() && all[at] == entry;
            assert(earlier[at] == entry);
            assert(false);
        }
    }
}

/// A wait on disk is over once the verified pieces without a gap are as many as
/// asked for. Until then the missing ones are renewed every quarter of a second,
/// and the policy decides anew exactly where the number of peers or, by steps of
/// 64 KiB, the rate is another one. In memory nothing is renewed.
pub proof fn law_wait_renews_what_is_missing(
    wait: ReadinessWait,
    peers: u64,
    rate: u64,
    presence: Seq<u8>,
    now: u64,
)
    requires
        wait.last_cluster_reassert <= now,
    ensures
        ({
            let on_disk = wait.storage_mode == LibtorrentStorageMode::DiskBacked;
            let enough = on_disk && leading(presence) >= wait.target_pieces;
            let moved = peers != wait.last_decide_peers || rate / 65_536
                != wait.last_decide_rate_bucket;
            let after = wait.inspected(peers, rate, presence, now);
            &&& wait.disk_satisfied(presence) <==> enough
            &&& wait.reassert_due(presence, now) <==> on_disk && !enough && now
                - wait.last_cluster_reassert >= 250_000_000
            &&& wait.decision_due(peers, rate, presence) <==> !enough && moved
            &&& wait.reassert_due(presence, now) ==> after.last_cluster_reassert == now
            &&& !wait.reassert_due(presence, now) ==> after.last_cluster_reassert
                == wait.last_cluster_reassert
            &&& !enough ==> after.last_decide_peers == peers && after.last_decide_rate_bucket
                == rate / 65_536
            &&& enough ==> after.last_decide_peers == wait.last_decide_peers
                && after.last_decide_rate_bucket == wait.last_decide_rate_bucket
            &&& after.last_peers == peers
            &&& after.last_rate == rate
            &&& after == (ReadinessWait {
                last_cluster_reassert: after.last_cluster_reassert,
                last_decide_peers: after.last_decide_peers,
                last_decide_rate_bucket: after.last_decide_rate_bucket,
                last_peers: after.last_peers,
                last_rate: after.last_rate,
                ..wait
            })
        }),
{
}

/// While a wait goes on the policy is told of the same file and piece, of the
/// swarm as it was last seen, and that the reader has been waiting.
pub proof fn law_waiting_policy_is_told_the_truth(wait: ReadinessWait, peers: u64, rate: u64)
    ensures
        ({
            let told = wait.context(peers, rate);
            &&& told.intent == wait.intent
            &&& told.current_piece == wait.piece
            &&& told.first_piece == wait.first_piece
            &&& told.last_piece == wait.last_piece
            &&& told.piece_length == wait.piece_length
            &&& told.file_size == wait.file_size
            &&& told.bitrate_bytes_per_sec is None
            &&& told.download_rate_bytes_per_sec == rate
            &&& told.peers == peers
            &&& told.cache_size_bytes == wait.cache_size
            &&& told.memory_pressure == MemoryPressure::Normal
            &&& told.consecutive_waits == 1
            &&& !told.first_byte_sent
        }),
{
}

/// A report tells of the wait that it ends: its piece, what was asked for, the
/// swarm as it was last seen and the time in whole milliseconds. A buffer is more
/// than one piece.
pub proof fn law_report_tells_of_its_wait(wait: ReadinessWait, ready_pieces: u32, now: u64)
    requires
        wait.started <= now,
    ensures
        ({
            let late = wait.timed_out(now);
            let done = wait.satisfied(ready_pieces, now);
            &&& late.piece == wait.piece && done.piece == wait.piece
            &&& late.target_pieces == wait.target_pieces && done.target_pieces
                == wait.target_pieces
            &&& late.ready_pieces == wait.best_ready_pieces
            &&& done.ready_pieces == ready_pieces
            &&& late.peers == wait.last_peers && done.peers == wait.last_peers
            &&& late.download_rate == wait.last_rate && done.download_rate == wait.last_rate
            &&& late.elapsed_ms * 1_000_000 <= now - wait.started < (late.elapsed_ms + 1)
                * 1_000_000
            &&& done.elapsed_ms == late.elapsed_ms
            &&& done.ready
            &&& late.ready <==> wait.best_ready_pieces > 0
            &&& wait.target_pieces > 1 ==> done.reason == ReadinessReason::BufferReady
            &&& wait.target_pieces <= 1 ==> done.reason == ReadinessReason::PieceReady
            &&& wait.best_ready_pieces > 0 ==> late.reason
                == ReadinessReason::PartialBufferTimeout
            &&& wait.best_ready_pieces == 0 ==> late.reason == ReadinessReason::Timeout
        }),
{
}

/// A round ends the wait exactly where enough pieces are ready. Else the next
/// pause is twice as long as the one before, and never longer than twenty-five
/// milliseconds; the best count stands, and nothing else changes.
pub proof fn law_round_ends_or_pauses(wait: ReadinessWait, ready_pieces: u32, now: u64)
    requires
        wait.wf(),
    ensures
        ({
            let (after, step) = wait.counted(ready_pieces, now);
            &&& ready_pieces >= wait.target_pieces ==> step == ReadinessStep::Done(
                wait.satisfied(ready_pieces, now),
            )
            &&& ready_pieces < wait.target_pieces ==> {
                &&& step == (ReadinessStep::Sleep { milliseconds: wait.poll_interval_ms })
                &&& wait.poll_interval_ms * 2 <= 25 ==> after.poll_interval_ms
                    == wait.poll_interval_ms * 2
                &&& wait.poll_interval_ms * 2 > 25 ==> after.poll_interval_ms == 25
            }
            &&& ready_pieces > wait.best_ready_pieces ==> after.best_ready_pieces == ready_pieces
            &&& ready_pieces <= wait.best_ready_pieces ==> after.best_ready_pieces
                == wait.best_ready_pieces
            &&& after == (ReadinessWait {
                best_ready_pieces: after.best_ready_pieces,
                poll_interval_ms: after.poll_interval_ms,
                ..wait
            })
        }),
{
}

/// Pieces in memory are counted one after the other, from the first on, until
/// there are as many as asked for.
pub proof fn law_scan_goes_piece_by_piece(scan: CacheScan)
    requires
        scan.wf(),
    ensures
        scan.ready < scan.count ==> scan.next() == (ScanStep::CheckCache {
            piece: (scan.first + scan.ready) as i32,
        }),
        scan.ready == scan.count ==> scan.next() == (ScanStep::Done { ready: scan.count }),
        scan.ready < scan.count ==> scan.one_more().ready == scan.ready + 1
            && scan.one_more().first == scan.first && scan.one_more().count == scan.count
            && scan.one_more().stored == scan.stored && scan.one_more().wf(),
{
}

/// The number of pieces that a playback from disk waits for covers eight
/// mebibytes, within four pieces and the file, whatever kind of playback it is.
pub proof fn law_computed_target_covers_the_buffer(
    intent: PlaybackIntent,
    piece: i32,
    last_piece: i32,
    piece_length: u64,
    storage_mode: LibtorrentStorageMode,
    target: u32,
)
    requires
        call_ensures(
            disk_readiness_target_pieces,
            (intent, piece, last_piece, piece_length, storage_mode),
            target,
        ),
        piece <= last_piece,
    ensures
        ({
            let plays = intent == PlaybackIntent::DirectInitial || intent
                == PlaybackIntent::DirectSeek || intent == PlaybackIntent::DirectSequential
                || intent == PlaybackIntent::HlsInitial || intent == PlaybackIntent::HlsSeek
                || intent == PlaybackIntent::HlsSequential;
            let buffers = plays && storage_mode == LibtorrentStorageMode::DiskBacked && piece_length
                > 0;
            &&& !buffers ==> target == 1
            &&& buffers ==> {
                &&& 1 <= target <= 4
                &&& piece + target - 1 <= last_piece
                &&& target * piece_length >= 8_388_608 || target == 4 || piece + target - 1
                    == last_piece
                &&& target > 1 ==> (target - 1) * piece_length < 8_388_608
            }
        }),
{
    if storage_mode == LibtorrentStorageMode::DiskBacked && piece_length > 0 && is_playback_intent(
        intent,
    ) {
        law_target_covers_the_buffer(
            intent,
            intent,
            piece as int,
            last_piece as int,
            piece_length,
        );
    }
}

/// A round looks at all pieces that are waited for until the time is up, and then
/// reports what there is: ready with the pieces that were, and not where none was.
pub proof fn law_round_looks_or_reports(wait: &ReadinessWait, now: u64, step: ReadinessStep)
    requires
        call_ensures(ReadinessWait::next_round, (wait, now), step),
        wait.started <= now,
        wait.piece + wait.target_pieces - 1 <= i32::MAX,
        wait.target_pieces >= 1,
    ensures
        now - wait.started < wait.timeout ==> {
            &&& step matches ReadinessStep::Inspect { first, last }
            &&& first == wait.piece
            &&& last == wait.piece + wait.target_pieces - 1
        },
        now - wait.started >= wait.timeout ==> {
            &&& step matches ReadinessStep::Done(report)
            &&& report.ready <==> wait.best_ready_pieces > 0
            &&& report.ready_pieces == wait.best_ready_pieces
            &&& report.piece == wait.piece
            &&& report.target_pieces == wait.target_pieces
            &&& report.peers == wait.last_peers
            &&& report.download_rate == wait.last_rate
            &&& report.reason == (if report.ready {
                ReadinessReason::PartialBufferTimeout
            } else {
                ReadinessReason::Timeout
            })
        },
{
}

/// A look counts the pieces before the first gap, renews exactly the missing ones
/// where that is due, and notes how the swarm does.
pub proof fn law_look_counts_and_renews(
    peers: u64,
    rate: u64,
    presence: &Vec<u8>,
    now: u64,
    ahead: int,
)
    requires
        presence@.len() * 10 <= i32::MAX,
        0 <= ahead < presence@.len(),
    ensures
        forall|wait: &mut ReadinessWait, r: Inspection| #[trigger]
            call_ensures(ReadinessWait::observe, (wait, peers, rate, presence, now), r)
                && (*wait).last_cluster_reassert <= now && (*wait).piece + presence@.len()
                <= i32::MAX ==> {
                let before = *wait;
                let enough = before.storage_mode == LibtorrentStorageMode::DiskBacked
                    && r.present_pieces >= before.target_pieces;
                &&& ahead < r.present_pieces ==> presence@[ahead] != 0
                &&& ahead == r.present_pieces ==> presence@[ahead] == 0
                &&& r.present_pieces <= presence@.len()
                &&& r.ask_again is Some <==> before.storage_mode
                    == LibtorrentStorageMode::DiskBacked && !enough && now
                    - before.last_cluster_reassert >= 250_000_000
                &&& r.ask_again matches Some(plan) ==> (presence@[ahead] == 0
                    ==> plan.deadlines@.contains(
                    ((before.piece + ahead) as i32, (ahead * 10) as i32),
                ) && plan.priorities@.contains(((before.piece + ahead) as i32, 7i32)))
                &&& r.decide is Some <==> !enough && (peers != before.last_decide_peers || rate
                    / 65_536 != before.last_decide_rate_bucket)
                &&& r.decide matches Some(context) ==> context.current_piece == before.piece
                    && context.peers == peers && context.download_rate_bytes_per_sec == rate
                    && context.intent == before.intent
                &&& (*final(wait)).last_peers == peers
                &&& (*final(wait)).last_rate == rate
            },
{
    assert forall|wait: &mut ReadinessWait, r: Inspection| #[trigger]
        call_ensures(ReadinessWait::observe, (wait, peers, rate, presence, now), r)
            && (*wait).last_cluster_reassert <= now && (*wait).piece + presence@.len()
            <= i32::MAX implies {
        let before = *wait;
        let enough = before.storage_mode == LibtorrentStorageMode::DiskBacked && r.present_pieces
            >= before.target_pieces;
        &&& ahead < r.present_pieces ==> presence@[ahead] != 0
        &&& ahead == r.present_pieces ==> presence@[ahead] == 0
        &&& r.present_pieces <= presence@.len()
        &&& r.ask_again is Some <==> before.storage_mode == LibtorrentStorageMode::DiskBacked
            && !enough && now - before.last_cluster_reassert >= 250_000_000
        &&& r.ask_again matches Some(plan) ==> (presence@[ahead] == 0 ==> plan.deadlines@.contains(
            ((before.piece + ahead) as i32, (ahead * 10) as i32),
        ) && plan.priorities@.contains(((before.piece + ahead) as i32, 7i32)))
        &&& r.decide is Some <==> !enough && (peers != before.last_decide_peers || rate / 65_536
            != before.last_decide_rate_bucket)
        &&& r.decide matches Some(context) ==> context.current_piece == before.piece
            && context.peers == peers && context.download_rate_bytes_per_sec == rate
            && context.intent == before.intent
        &&& (*final(wait)).last_peers == peers
        &&& (*final(wait)).last_rate == rate
    } by {
        lemma_leading(presence@);
        law_missing_pieces_are_renewed((*wait).piece as int, presence@, ahead);
    }
}

/// A wait is over exactly where as many pieces are ready as it was for, and is then
/// reported ready; else it pauses and keeps the best count.
pub proof fn law_enough_pieces_end_the_wait(ready_pieces: u32, now: u64)
    ensures
        forall|wait: &mut ReadinessWait, step: ReadinessStep| #[trigger]
            call_ensures(ReadinessWait::count_ready, (wait, ready_pieces, now), step) ==> {
                let before = *wait;
                let after = *final(wait);
                &&& ready_pieces >= before.target_pieces ==> {
                    &&& step matches ReadinessStep::Done(report)
                    &&& report.ready
                    &&& report.ready_pieces == ready_pieces
                    &&& report.piece == before.piece
                    &&& report.reason == (if before.target_pieces > 1 {
                        ReadinessReason::BufferReady
                    } else {
                        ReadinessReason::PieceReady
                    })
                }
                &&& ready_pieces < before.target_pieces ==> step == (ReadinessStep::Sleep {
                    milliseconds: before.poll_interval_ms,
                })
                &&& after.best_ready_pieces >= ready_pieces
                &&& after.best_ready_pieces >= before.best_ready_pieces
                &&& after.best_ready_pieces == ready_pieces || after.best_ready_pieces
                    == before.best_ready_pieces
            },
{
}

/// In memory each piece is looked for in the cache, and one that the storage has
/// is read from there. The count ends with the first piece that neither has, or
/// with as many as asked for.
pub proof fn law_scan_stops_at_the_first_gap(cached: bool, found: bool)
    ensures
        forall|scan: &mut CacheScan, step: ScanStep| #[trigger]
            call_ensures(CacheScan::cache_checked, (scan, cached), step) && (*scan).wf()
                && (*scan).ready < (*scan).count ==> {
                let before = *scan;
                let after = *final(scan);
                &&& cached ==> after.ready == before.ready + 1
                &&& cached && before.ready + 1 < before.count ==> step == (ScanStep::CheckCache {
                    piece: (before.first + before.ready + 1) as i32,
                })
                &&& cached && before.ready + 1 == before.count ==> step == (ScanStep::Done {
                    ready: before.count,
                })
                &&& !cached ==> after == before
                &&& !cached && before.ready < before.stored ==> step == (ScanStep::ReadStorage {
                    piece: (before.first + before.ready) as i32,
                })
                &&& !cached && before.ready >= before.stored ==> step == (ScanStep::Done {
                    ready: before.ready,
                })
            },
        forall|scan: &mut CacheScan, step: ScanStep| #[trigger]
            call_ensures(CacheScan::storage_read, (scan, found), step) && (*scan).wf()
                && (*scan).ready < (*scan).count ==> {
                let before = *scan;
                let after = *final(scan);
                &&& found ==> after.ready == before.ready + 1 && !(step is ReadStorage)
                &&& !found ==> after == before && step == (ScanStep::Done { ready: before.ready })
            },
{
}

/// On disk nothing but the verified pieces counts; in memory a scan over all pieces
/// that are waited for starts with none counted.
pub proof fn law_scan_is_for_memory(
    wait: &ReadinessWait,
    present_pieces: u32,
    r: Option<CacheScan>,
)
    requires
        call_ensures(ReadinessWait::cache_scan, (wait, present_pieces), r),
    ensures
        r is None <==> wait.storage_mode == LibtorrentStorageMode::DiskBacked,
        r matches Some(scan) ==> scan.first == wait.piece && scan.count == wait.target_pieces
            && scan.stored == present_pieces && scan.ready == 0,
{
}

/// Each assignment of the policy gives its piece its priority and its deadline.
pub proof fn law_plan_keeps_the_assignments(
    assignments: &Vec<PriorityAssignment>,
    plan: PiecePlan,
    i: int,
)
    requires
        call_ensures(plan_of, (assignments,), plan),
        0 <= i < assignments@.len(),
    ensures
        plan.priorities@.len() == assignments@.len(),
        plan.deadlines@.len() == assignments@.len(),
        plan.priorities@[i] == (assignments@[i].piece_idx, assignments@[i].piece_priority),
        plan.deadlines@[i] == (assignments@[i].piece_idx, assignments@[i].deadline),
{
}

/// Memory pressure is told as it is: high from four fifths of the cache on.
pub proof fn law_told_pressure_is_high_at_four_fifths(
    cache_size: u64,
    native_bytes: u64,
    r: MemoryPressure,
)
    requires
        call_ensures(memory_pressure, (cache_size, native_bytes), r),
        cache_size * 80 <= u64::MAX,
    ensures
        cache_size > 0 && native_bytes * 5 >= cache_size * 4 ==> r == MemoryPressure::High,
        cache_size == 0 || native_bytes * 5 + 5 <= cache_size * 4 ==> r == MemoryPressure::Normal,
{
}

/// A scan goes to the next piece until it has counted all of them.
pub proof fn law_scan_names_the_next_piece(scan: &CacheScan, r: ScanStep)
    requires
        call_ensures(CacheScan::step, (scan,), r),
        scan.wf(),
    ensures
        scan.ready < scan.count ==> r is CheckCache && r->CheckCache_piece == scan.first
            + scan.ready,
        scan.ready >= scan.count ==> r == (ScanStep::Done { ready: scan.ready }),
{
}

/// The pieces that are there up to the first gap are all there are to serve.
pub proof fn law_leading_pieces_end_at_the_gap(presence: Seq<u8>, i: int)
    ensures
        leading(presence) <= presence.len(),
        0 <= i < leading(presence) ==> presence[i] != 0,
        leading(presence) < presence.len() ==> presence[leading(presence) as int] == 0,
{
    lemma_leading(presence);
}

} // verus!
