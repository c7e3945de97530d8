//! Reading a file of a torrent from disk while it downloads.
//!
//! A read serves verified bytes only. Where the piece at the reading position
//! is missing, or the file on disk does not have it yet, its bytes are asked
//! for from the native library directly. One read runs as a series of steps:
//! each names the outside work to do, and what came of that work leads to the
//! next step.

use crate::arith::{
    int_max, int_min, law_piece_holds_its_position, min_u64, min_usize, non_negative, piece_at, piece_index, saturating_product,
    saturating_sum_i32, saturating_sum_i64,
};
use crate::domain::PlaybackIntent;
use std::sync::Arc;
use vstd::prelude::*;

verus! {

/// The most bytes that one read takes from the file on disk.
pub const SCRATCH_BYTES: usize = 262_144;

/// How long a piece whose bytes did not come is not asked for again.
pub const PIECE_READ_RETRY: u64 = 250_000_000;

/// How long one request for a piece's bytes may take.
pub const PIECE_READ_TIMEOUT: u64 = 2_000_000_000;

/// How soon a read is tried again while its piece is missing.
pub const MISSING_PIECE_RETRY_MS: u64 = 50;

/// How soon a read is tried again while the file on disk is behind.
pub const STORAGE_RETRY_MS: u64 = 25;

/// How often the piece that a reader waits for is asked for anew.
pub const URGENT_REASSERT_INTERVAL: u64 = 8_000_000_000;

/// The part of a piece that a read gets, as offsets into the piece.
pub open spec fn slice_bounds(
    piece: int,
    piece_length: int,
    file_offset: int,
    current_pos: int,
    file_size: int,
    piece_bytes: int,
    requested_bytes: int,
) -> Option<(int, int)> {
    let piece_start = int_min(int_max(piece, 0) * piece_length, u64::MAX as int);
    let position = int_min(file_offset + current_pos, u64::MAX as int);
    let offset = int_max(0, position - piece_start);
    let in_piece = int_max(0, piece_bytes - offset);
    let in_file = int_max(0, file_size - current_pos);
    let len = int_min(int_min(requested_bytes, in_piece), in_file);
    if len == 0 {
        None
    } else {
        Some((offset, offset + len))
    }
}

/// Finds the part of a piece that a read at `current_pos` of a file gets: from
/// the reading position on, up to the end of the piece, of the file and of the
/// request, whichever comes first.
pub fn broker_slice_bounds(
    piece: i32,
    piece_length: u64,
    file_offset: u64,
    current_pos: u64,
    file_size: u64,
    piece_bytes: usize,
    requested_bytes: usize,
) -> (r: Option<(usize, usize)>)
    ensures
        match r {
            Some((start, end)) => slice_bounds(
                piece as int,
                piece_length as int,
                file_offset as int,
                current_pos as int,
                file_size as int,
                piece_bytes as int,
                requested_bytes as int,
            ) == Some((start as int, end as int)) && start < end <= piece_bytes,
            None => slice_bounds(
                piece as int,
                piece_length as int,
                file_offset as int,
                current_pos as int,
                file_size as int,
                piece_bytes as int,
                requested_bytes as int,
            ) is None,
        },
{
    let piece_start: u64 = saturating_product(non_negative(piece as i64), piece_length);
    let position: u64 = file_offset.saturating_add(current_pos);
    let offset: u64 = position.saturating_sub(piece_start);
    if offset > usize::MAX as u64 {
        return None;
    }
    let offset: usize = offset as usize;
    let in_piece: usize = piece_bytes.saturating_sub(offset);
    let rest: u64 = file_size.saturating_sub(current_pos);
    let in_file: usize = if rest > usize::MAX as u64 {
        usize::MAX
    } else {
        rest as usize
    };
    let len: usize = min_usize(min_usize(requested_bytes, in_piece), in_file);
    if len == 0 {
        None
    } else {
        Some((offset, offset + len))
    }
}

/// What went wrong with a read.
#[derive(Debug, Clone, Copy, PartialEq, Eq, Structural)]
pub enum StreamError {
    /// A newer file took the torrent over.
    Superseded,
    ZeroPieceLength,
    /// The reading position belongs to no piece of the file.
    OutsideFile,
    /// The task that fetches a piece's bytes died.
    BrokerTask,
    /// The file on disk could not be opened, for another reason than that it
    /// is not there yet.
    Open,
    Seek,
    Read,
}

/// How a failed read is classified for its caller.
#[derive(Debug, Clone, Copy, PartialEq, Eq, Structural)]
pub enum StreamErrorKind {
    Interrupted,
    InvalidData,
    UnexpectedEof,
    /// As the outside error that led to it.
    Outside,
}

impl StreamError {
    pub open spec fn spec_kind(self) -> StreamErrorKind {
        match self {
            StreamError::Superseded => StreamErrorKind::Interrupted,
            StreamError::ZeroPieceLength => StreamErrorKind::InvalidData,
            StreamError::OutsideFile => StreamErrorKind::UnexpectedEof,
            _ => StreamErrorKind::Outside,
        }
    }

    /// The kind of the failure.
    pub fn kind(&self) -> (r: StreamErrorKind)
        ensures
            r == self.spec_kind(),
    {
        match self {
            StreamError::Superseded => StreamErrorKind::Interrupted,
            StreamError::ZeroPieceLength => StreamErrorKind::InvalidData,
            StreamError::OutsideFile => StreamErrorKind::UnexpectedEof,
            _ => StreamErrorKind::Outside,
        }
    }

    pub open spec fn text(self) -> Option<Seq<char>> {
        match self {
            StreamError::Superseded => Some("playback superseded by a newer torrent file"@),
            StreamError::ZeroPieceLength => Some("torrent piece length is zero"@),
            StreamError::OutsideFile => Some("read position is outside selected torrent file"@),
            _ => None,
        }
    }

    /// The message of a failure that was found here, nothing where an outside
    /// error has its own.
    pub fn message(&self) -> (r: Option<&'static str>)
        ensures
            match r {
                Some(message) => self.text() == Some(message@),
                None => self.text() is None,
            },
    {
        match self {
            StreamError::Superseded => Some("playback superseded by a newer torrent file"),
            StreamError::ZeroPieceLength => Some("torrent piece length is zero"),
            StreamError::OutsideFile => Some("read position is outside selected torrent file"),
            _ => None,
        }
    }
}

/// Where a file lies in its torrent.
#[derive(Debug, Clone, Copy, PartialEq, Eq)]
pub struct StreamFile {
    pub first_piece: i32,
    pub last_piece: i32,
    pub piece_length: u64,
    pub file_offset: u64,
    pub file_size: u64,
}

/// A request for a piece's bytes.
#[derive(Debug, Clone, Copy, PartialEq, Eq)]
pub struct PieceRequest {
    pub piece: i32,
    pub priority: i32,
    pub deadline_ms: i32,
    /// A request for another piece is still running and has to be given up.
    pub abort_previous: bool,
}

/// A reader of one file, at one position.
pub struct LibtorrentDiskFileStream {
    pub file: StreamFile,
    pub current_pos: u64,
    pub stream_id: usize,
    pub playback_intent: PlaybackIntent,
    /// What the intent becomes once the first byte was read.
    pub sequential_intent: PlaybackIntent,
    /// Whether the reader only joined a generation that another one leads.
    pub subordinate: bool,
    pub first_byte_read: bool,
    pub last_prioritized_piece: i32,
    pub consecutive_waits: u32,
    pub last_blocked_replan: u64,
    pub last_urgent_reassert: u64,
    pub urgent_reassert_count: u32,
    /// Whether the file on disk is open, and where it stands.
    pub file_open: bool,
    pub opening: bool,
    pub file_cursor: u64,
    pub seek_pending: bool,
    /// The last piece whose bytes came from the native library.
    pub broker_piece: Option<(i32, Arc<Vec<u8>>)>,
    /// The piece whose bytes are being fetched.
    pub piece_read: Option<i32>,
    /// A piece that is not asked for again before the given time.
    pub piece_read_retry_at: Option<(i32, u64)>,
}

/// Where a reader wants to go.
#[derive(Debug, Clone, Copy, PartialEq, Eq)]
pub enum SeekTarget {
    Start(u64),
    Current(i64),
    End(i64),
}

impl SeekTarget {
    /// The position that is meant, before it is held inside the file.
    pub open spec fn resolved(self, current_pos: u64, file_size: u64) -> int {
        match self {
            SeekTarget::Start(position) => position as int,
            SeekTarget::Current(delta) => int_max(
                0,
                int_min(current_pos as i64 + delta, i64::MAX as int),
            ),
            SeekTarget::End(delta) => int_max(0, int_min(file_size as i64 + delta, i64::MAX as int)),
        }
    }
}

/// What came of asking for a piece's bytes.
#[derive(Debug)]
pub enum BrokerPoll {
    Pending,
    Bytes(Arc<Vec<u8>>),
    NoBytes,
    TaskFailed { cancelled: bool },
}

/// What came of opening the file on disk for a new reader.
#[derive(Debug, Clone, Copy, PartialEq, Eq)]
pub enum OpenOutcome {
    Opened,
    NotFound,
    Failed,
}

/// Whether a new reader starts with its file open. A file that is not there yet
/// is opened later, once there is something to read; any other failure leaves
/// no reader.
pub fn starts_open(outcome: OpenOutcome) -> (r: Result<bool, StreamError>)
    ensures
        r == (match outcome {
            OpenOutcome::Opened => Ok(true),
            OpenOutcome::NotFound => Ok(false),
            OpenOutcome::Failed => Err(StreamError::Open),
        }),
{
    match outcome {
        OpenOutcome::Opened => Ok(true),
        OpenOutcome::NotFound => Ok(false),
        OpenOutcome::Failed => Err(StreamError::Open),
    }
}

/// What came of opening the file on disk.
#[derive(Debug, Clone, Copy, PartialEq, Eq)]
pub enum OpenPoll {
    Pending,
    Opened,
    NotFound,
    Failed,
}

/// What came of moving to a position of the file on disk.
#[derive(Debug, Clone, Copy, PartialEq, Eq)]
pub enum SeekPoll {
    Pending,
    At(u64),
    StartFailed,
    Failed,
}

/// What came of reading the file on disk.
#[derive(Debug)]
pub enum FilePoll {
    Pending,
    Bytes(Vec<u8>),
    Failed,
}

/// The next step of a read.
#[derive(Debug)]
pub enum ReadStep {
    /// Ask the native library whether it has the piece.
    Inspect { piece: i32 },
    /// Start the request, if there is one, and look at what came of the piece's
    /// bytes. `available` counts the verified bytes of a piece that is there.
    PollBroker { piece: i32, available: Option<usize>, request: Option<PieceRequest> },
    /// Open the file on disk, or look at what came of that.
    OpenFile { piece: i32, available: usize, start: bool },
    /// Move to the given position of the file on disk, or look at what came of
    /// that.
    SeekFile { piece: i32, available: usize, start: Option<u64> },
    /// Read up to `len` bytes of the file on disk.
    ReadFile { piece: i32, len: usize },
    /// Hand the bytes out, then prioritize from `next_piece` on.
    Deliver { bytes: Vec<u8>, next_piece: i32 },
    /// The read ends without bytes.
    Finished,
    /// Wait for the piece.
    Wait { piece: i32 },
    /// Start the request, if there is one, and try again shortly.
    Retry { request: Option<PieceRequest> },
    Pending,
    Failed(StreamError),
}

/// A step of a read, with bytes as a sequence.
pub enum ReadStepView {
    Inspect { piece: i32 },
    PollBroker { piece: i32, available: Option<usize>, request: Option<PieceRequest> },
    OpenFile { piece: i32, available: usize, start: bool },
    SeekFile { piece: i32, available: usize, start: Option<u64> },
    ReadFile { piece: i32, len: usize },
    Deliver { bytes: Seq<u8>, next_piece: i32 },
    Finished,
    Wait { piece: i32 },
    Retry { request: Option<PieceRequest> },
    Pending,
    Failed(StreamError),
}

impl View for ReadStep {
    type V = ReadStepView;

    open spec fn view(&self) -> ReadStepView {
        match *self {
            ReadStep::Inspect { piece } => ReadStepView::Inspect { piece },
            ReadStep::PollBroker { piece, available, request } => ReadStepView::PollBroker {
                piece,
                available,
                request,
            },
            ReadStep::OpenFile { piece, available, start } => ReadStepView::OpenFile {
                piece,
                available,
                start,
            },
            ReadStep::SeekFile { piece, available, start } => ReadStepView::SeekFile {
                piece,
                available,
                start,
            },
            ReadStep::ReadFile { piece, len } => ReadStepView::ReadFile { piece, len },
            ReadStep::Deliver { bytes, next_piece } => ReadStepView::Deliver {
                bytes: bytes@,
                next_piece,
            },
            ReadStep::Finished => ReadStepView::Finished,
            ReadStep::Wait { piece } => ReadStepView::Wait { piece },
            ReadStep::Retry { request } => ReadStepView::Retry { request },
            ReadStep::Pending => ReadStepView::Pending,
            ReadStep::Failed(error) => ReadStepView::Failed(error),
        }
    }
}

/// The bytes of `data` from `start` up to `end`.
pub(crate) fn copy_range(data: &Vec<u8>, start: usize, end: usize) -> (r: Vec<u8>)
    requires
        start <= end <= data@.len(),
    ensures
        r@ == data@.subrange(start as int, end as int),
{
    let mut bytes: Vec<u8> = Vec::new();
    let mut i: usize = start;
    while i < end
        invariant
            start <= i <= end <= data@.len(),
            bytes@ == data@.subrange(start as int, i as int),
        decreases end - i,
    {
        bytes.push(data[i]);
        i += 1;
        assert(bytes@ =~= data@.subrange(start as int, i as int));
    }
    bytes
}

/// Whether nothing but zero bytes came.
pub open spec fn only_zeros(bytes: Seq<u8>) -> bool {
    forall|i: int| 0 <= i < bytes.len() ==> bytes[i] == 0
}

pub(crate) fn all_zero(bytes: &Vec<u8>) -> (r: bool)
    ensures
        r == only_zeros(bytes@),
{
    let mut i: usize = 0;
    while i < bytes.len()
        invariant
            i <= bytes@.len(),
            forall|j: int| 0 <= j < i ==> bytes@[j] == 0,
        decreases bytes@.len() - i,
    {
        if bytes[i] != 0 {
            return false;
        }
        i += 1;
    }
    true
}

/// A piece number as the native library counts it in unsigned arithmetic:
/// negative numbers wrap around.
pub open spec fn unsigned_piece(piece: int) -> int {
    if piece < 0 {
        piece + 0x1_0000_0000_0000_0000
    } else {
        piece
    }
}

impl LibtorrentDiskFileStream {
    /// The reading position, counted from the start of the torrent.
    pub open spec fn position(self) -> int {
        self.file.file_offset + self.current_pos
    }

    /// Whether the reading position can be counted at all.
    pub open spec fn position_fits(self) -> bool {
        self.position() <= u64::MAX
    }

    /// The piece at the reading position.
    pub open spec fn piece_here(self) -> i32 {
        piece_index(self.position(), self.file.piece_length as int)
    }

    /// Whether the reader yields to the ones that play.
    pub open spec fn in_background(self) -> bool {
        self.subordinate || self.playback_intent == PlaybackIntent::InternalProbe
            || self.playback_intent == PlaybackIntent::Background
    }

    /// The intent that priorities go by.
    pub open spec fn intent_now(self) -> PlaybackIntent {
        if self.first_byte_read {
            self.sequential_intent
        } else {
            self.playback_intent
        }
    }

    /// Starts a reader at the beginning of its file. `sequential_intent` is what
    /// `playback_intent` becomes once the first byte was read.
    pub fn new(
        file: StreamFile,
        stream_id: usize,
        playback_intent: PlaybackIntent,
        sequential_intent: PlaybackIntent,
        subordinate: bool,
        file_open: bool,
        now: u64,
    ) -> (r: Self)
        ensures
            r == (LibtorrentDiskFileStream {
                file,
                current_pos: 0,
                stream_id,
                playback_intent,
                sequential_intent,
                subordinate,
                first_byte_read: false,
                last_prioritized_piece: (-1) as i32,
                consecutive_waits: 0,
                last_blocked_replan: now,
                last_urgent_reassert: if now >= URGENT_REASSERT_INTERVAL {
                    (now - URGENT_REASSERT_INTERVAL) as u64
                } else {
                    now
                },
                urgent_reassert_count: 0,
                file_open,
                opening: false,
                file_cursor: 0,
                seek_pending: false,
                broker_piece: None,
                piece_read: None,
                piece_read_retry_at: None,
            }),
    {
        LibtorrentDiskFileStream {
            file,
            current_pos: 0,
            stream_id,
            playback_intent,
            sequential_intent,
            subordinate,
            first_byte_read: false,
            last_prioritized_piece: -1,
            consecutive_waits: 0,
            last_blocked_replan: now,
            last_urgent_reassert: if now >= URGENT_REASSERT_INTERVAL {
                now - URGENT_REASSERT_INTERVAL
            } else {
                now
            },
            urgent_reassert_count: 0,
            file_open,
            opening: false,
            file_cursor: 0,
            seek_pending: false,
            broker_piece: None,
            piece_read: None,
            piece_read_retry_at: None,
        }
    }

    /// The piece at the reading position.
    pub fn current_piece(&self) -> (r: Result<i32, StreamError>)
        requires
            self.file.piece_length > 0 ==> self.position_fits(),
        ensures
            r == (if self.file.piece_length == 0 {
                Err(StreamError::ZeroPieceLength)
            } else {
                Ok(self.piece_here())
            }),
    {
        if self.file.piece_length == 0 {
            return Err(StreamError::ZeroPieceLength);
        }
        Ok(piece_at(self.file.file_offset + self.current_pos, self.file.piece_length))
    }

    /// How many bytes from the reading position on belong to the file and to
    /// the verified piece.
    pub open spec fn verified_bytes(self, piece: int) -> int {
        let piece_end = int_min(
            (unsigned_piece(piece) + 1) * self.file.piece_length,
            u64::MAX as int,
        );
        let in_piece = int_max(0, piece_end - self.position());
        let in_file = int_max(0, self.file.file_size - self.current_pos);
        int_min(int_min(in_piece, in_file), usize::MAX as int)
    }

    /// Counts the bytes that a verified piece gives at the reading position.
    pub fn bytes_available_in_verified_piece(&self, piece: i32) -> (r: usize)
        requires
            self.position_fits(),
            piece != -1,
        ensures
            r == self.verified_bytes(piece as int),
    {
        let index: u64 = if piece < 0 {
            u64::MAX - (-(piece as i64 + 1)) as u64
        } else {
            piece as u64
        };
        let piece_end: u64 = saturating_product(index + 1, self.file.piece_length);
        let in_piece: u64 = piece_end.saturating_sub(self.file.file_offset + self.current_pos);
        let in_file: u64 = self.file.file_size.saturating_sub(self.current_pos);
        min_u64(min_u64(in_piece, in_file), usize::MAX as u64) as usize
    }

    /// The intent that priorities go by.
    pub fn priority_intent(&self) -> (r: PlaybackIntent)
        ensures
            r == self.intent_now(),
    {
        if self.first_byte_read {
            self.sequential_intent
        } else {
            self.playback_intent
        }
    }

    /// Whether the reader yields to the ones that play.
    pub fn is_background_reader(&self) -> (r: bool)
        ensures
            r == self.in_background(),
    {
        self.subordinate || match self.playback_intent {
            PlaybackIntent::InternalProbe | PlaybackIntent::Background => true,
            _ => false,
        }
    }

    /// The reader after a move.
    pub open spec fn sought(self, target: SeekTarget) -> Self {
        LibtorrentDiskFileStream {
            current_pos: int_min(
                target.resolved(self.current_pos, self.file.file_size),
                self.file.file_size as int,
            ) as u64,
            last_prioritized_piece: (-1) as i32,
            broker_piece: None,
            piece_read: None,
            piece_read_retry_at: None,
            ..self
        }
    }

    /// Moves the reader. A position behind the end of the file becomes its end.
    /// Whatever was fetched or asked for at the old position is dropped; the
    /// result tells whether a running request has to be given up.
    pub fn start_seek(&mut self, target: SeekTarget) -> (r: bool)
        ensures
            *final(self) == old(self).sought(target),
            r == (old(self).piece_read is Some),
    {
        let position: u64 = match target {
            SeekTarget::Start(position) => position,
            SeekTarget::Current(delta) => non_negative(
                saturating_sum_i64(self.current_pos as i64, delta),
            ),
            SeekTarget::End(delta) => non_negative(
                saturating_sum_i64(self.file.file_size as i64, delta),
            ),
        };
        self.current_pos = min_u64(position, self.file.file_size);
        self.last_prioritized_piece = -1;
        self.broker_piece = None;
        let abort: bool = self.piece_read.is_some();
        self.piece_read = None;
        self.piece_read_retry_at = None;
        abort
    }

    /// Where the reader stands after a seek.
    pub fn poll_complete(&self) -> (r: u64)
        ensures
            r == self.current_pos,
    {
        self.current_pos
    }
}

/// What went wrong tells the caller how to take it: an overtaken reader was
/// interrupted, a torrent without pieces is broken data, a position outside the
/// file is its end, and what failed outside keeps its own kind and words.
pub proof fn law_failures_are_classified(error: StreamError)
    ensures
        error.spec_kind() == StreamErrorKind::Interrupted <==> error == StreamError::Superseded,
        error.spec_kind() == StreamErrorKind::InvalidData <==> error
            == StreamError::ZeroPieceLength,
        error.spec_kind() == StreamErrorKind::UnexpectedEof <==> error == StreamError::OutsideFile,
        error.text() is None <==> error.spec_kind() == StreamErrorKind::Outside,
        StreamError::Superseded.text() == Some("playback superseded by a newer torrent file"@),
        StreamError::ZeroPieceLength.text() == Some("torrent piece length is zero"@),
        StreamError::OutsideFile.text() == Some("read position is outside selected torrent file"@),
{
}

/// A move leads to where it was aimed, counted from the start, from the reading
/// position or from the end, and no further than the file goes in either
/// direction.
pub proof fn law_seek_goes_where_it_is_aimed(
    reader: LibtorrentDiskFileStream,
    position: u64,
    delta: i64,
)
    requires
        reader.current_pos <= i64::MAX,
        reader.file.file_size <= i64::MAX,
    ensures
        ({
            let size = reader.file.file_size as int;
            let start = reader.sought(SeekTarget::Start(position)).current_pos as int;
            let current = reader.sought(SeekTarget::Current(delta)).current_pos as int;
            let end = reader.sought(SeekTarget::End(delta)).current_pos as int;
            &&& position <= size ==> start == position
            &&& position > size ==> start == size
            &&& 0 <= reader.current_pos + delta <= size ==> current == reader.current_pos + delta
            &&& reader.current_pos + delta < 0 ==> current == 0
            &&& reader.current_pos + delta > size ==> current == size
            &&& 0 <= size + delta <= size ==> end == size + delta
            &&& size + delta < 0 ==> end == 0
            &&& delta > 0 ==> end == size
        }),
{
}

/// A move forgets whatever was fetched, asked for or prioritized at the old
/// position, and nothing else.
pub proof fn law_seek_forgets_the_old_position(
    reader: LibtorrentDiskFileStream,
    target: SeekTarget,
)
    ensures
        ({
            let moved = reader.sought(target);
            &&& moved.broker_piece is None
            &&& moved.piece_read is None
            &&& moved.piece_read_retry_at is None
            &&& moved.last_prioritized_piece == -1
            &&& moved == (LibtorrentDiskFileStream {
                current_pos: moved.current_pos,
                last_prioritized_piece: moved.last_prioritized_piece,
                broker_piece: moved.broker_piece,
                piece_read: moved.piece_read,
                piece_read_retry_at: moved.piece_read_retry_at,
                ..reader
            })
        }),
{
}

/// A reader yields exactly where it only joined, probes, or reads in the
/// background. It goes by the intent it came with until its first byte, and by
/// the one for reading on after that.
pub proof fn law_reader_goes_by_its_intent(reader: LibtorrentDiskFileStream)
    ensures
        reader.subordinate ==> reader.in_background(),
        reader.playback_intent == PlaybackIntent::InternalProbe || reader.playback_intent
            == PlaybackIntent::Background ==> reader.in_background(),
        !reader.subordinate && reader.playback_intent != PlaybackIntent::InternalProbe
            && reader.playback_intent != PlaybackIntent::Background ==> !reader.in_background(),
        !reader.first_byte_read ==> reader.intent_now() == reader.playback_intent,
        reader.first_byte_read ==> reader.intent_now() == reader.sequential_intent,
{
}

/// The reader stands in the piece that it reads from.
pub proof fn law_reader_stands_in_its_piece(reader: LibtorrentDiskFileStream)
    requires
        0 < reader.file.piece_length,
        reader.file.file_offset + reader.current_pos < reader.file.piece_length * 0x8000_0000,
    ensures
        0 <= reader.piece_here(),
        reader.piece_here() * reader.file.piece_length <= reader.file.file_offset
            + reader.current_pos,
        reader.file.file_offset + reader.current_pos < (reader.piece_here() + 1)
            * reader.file.piece_length,
{
    law_piece_holds_its_position(
        reader.file.file_offset + reader.current_pos,
        reader.file.piece_length as int,
    );
}

/// A verified piece gives every byte from the reading position to its own end or
/// the end of the file, whichever comes first: none only at the end of the file.
pub proof fn law_verified_piece_gives_all_its_bytes(reader: LibtorrentDiskFileStream, piece: int)
    requires
        0 <= piece,
        piece * reader.file.piece_length <= reader.file.file_offset + reader.current_pos,
        reader.file.file_offset + reader.current_pos < (piece + 1) * reader.file.piece_length,
        (piece + 1) * reader.file.piece_length <= u64::MAX,
        reader.current_pos <= reader.file.file_size,
    ensures
        ({
            let count = reader.verified_bytes(piece);
            let in_piece = (piece + 1) * reader.file.piece_length - reader.file.file_offset
                - reader.current_pos;
            let in_file = reader.file.file_size - reader.current_pos;
            &&& 0 <= count <= in_piece
            &&& count <= in_file
            &&& count == in_piece || count == in_file || count == usize::MAX
            &&& count == 0 <==> reader.current_pos == reader.file.file_size
        }),
{
}

/// The part of a piece that a read gets starts at the reading position, stays
/// inside the piece, the file and the request, and takes all that one of them
/// allows. Nothing is got exactly where one of them allows nothing.
pub proof fn law_slice_takes_all_it_may(
    piece: int,
    piece_length: int,
    file_offset: int,
    current_pos: int,
    file_size: int,
    piece_bytes: int,
    requested_bytes: int,
)
    requires
        0 <= piece,
        0 <= piece_length,
        0 <= file_offset,
        0 <= current_pos,
        0 <= piece_bytes,
        0 <= requested_bytes,
        0 <= piece * piece_length <= file_offset + current_pos <= u64::MAX,
    ensures
        ({
            let slice = slice_bounds(
                piece,
                piece_length,
                file_offset,
                current_pos,
                file_size,
                piece_bytes,
                requested_bytes,
            );
            let offset = file_offset + current_pos - piece * piece_length;
            &&& slice is None <==> requested_bytes == 0 || offset >= piece_bytes || current_pos
                >= file_size
            &&& slice matches Some((start, end)) ==> {
                &&& start == offset
                &&& start < end <= piece_bytes
                &&& end - start <= requested_bytes
                &&& current_pos + (end - start) <= file_size
                &&& end == piece_bytes || end - start == requested_bytes || current_pos + (end
                    - start) == file_size
            }
        }),
{
}

/// Bytes are all zero exactly where no other one is among them.
pub proof fn law_one_other_byte_is_enough(bytes: Seq<u8>, i: int)
    requires
        0 <= i < bytes.len(),
    ensures
        bytes[i] != 0 ==> !only_zeros(bytes),
        (forall|k: int| 0 <= k < bytes.len() ==> #[trigger] bytes[k] == 0) ==> only_zeros(bytes),
{
}

/// What a step shows is what it holds.
pub proof fn law_step_view_shows_the_step(step: ReadStep)
    ensures
        step matches ReadStep::Inspect { piece } ==> step@ == (ReadStepView::Inspect { piece }),
        step matches ReadStep::PollBroker { piece, available, request } ==> step@ == (
        ReadStepView::PollBroker { piece, available, request }),
        step matches ReadStep::OpenFile { piece, available, start } ==> step@ == (
        ReadStepView::OpenFile { piece, available, start }),
        step matches ReadStep::SeekFile { piece, available, start } ==> step@ == (
        ReadStepView::SeekFile { piece, available, start }),
        step matches ReadStep::ReadFile { piece, len } ==> step@ == (ReadStepView::ReadFile {
            piece,
            len,
        }),
        step matches ReadStep::Deliver { bytes, next_piece } ==> step@ == (ReadStepView::Deliver {
            bytes: bytes@,
            next_piece,
        }),
        step matches ReadStep::Wait { piece } ==> step@ == (ReadStepView::Wait { piece }),
        step matches ReadStep::Retry { request } ==> step@ == (ReadStepView::Retry { request }),
        step matches ReadStep::Failed(error) ==> step@ == ReadStepView::Failed(error),
        step is Finished <==> step@ is Finished,
        step is Pending <==> step@ is Pending,
        step is Deliver <==> step@ is Deliver,
        step is Failed <==> step@ is Failed,
{
}

/// Moving a reader takes it to where it was aimed, inside its file, and drops what
/// was fetched for the old position. A request that is running is given up.
pub proof fn law_moved_reader_stands_where_aimed(position: u64, delta: i64)
    ensures
        forall|reader: &mut LibtorrentDiskFileStream, abort: bool| #[trigger]
            call_ensures(
                LibtorrentDiskFileStream::start_seek,
                (reader, SeekTarget::Start(position)),
                abort,
            ) ==> {
                &&& position <= (*reader).file.file_size ==> (*final(reader)).current_pos
                    == position
                &&& position > (*reader).file.file_size ==> (*final(reader)).current_pos
                    == (*reader).file.file_size
                &&& abort <==> (*reader).piece_read is Some
                &&& (*final(reader)).broker_piece is None
                &&& (*final(reader)).piece_read is None
                &&& (*final(reader)).last_prioritized_piece == -1
                &&& (*final(reader)).file == (*reader).file
            },
        forall|reader: &mut LibtorrentDiskFileStream, abort: bool| #[trigger]
            call_ensures(
                LibtorrentDiskFileStream::start_seek,
                (reader, SeekTarget::Current(delta)),
                abort,
            ) && 0 <= (*reader).current_pos + delta <= (*reader).file.file_size <= i64::MAX
                && (*reader).current_pos <= i64::MAX ==> (*final(reader)).current_pos
                == (*reader).current_pos + delta,
        forall|reader: &mut LibtorrentDiskFileStream, abort: bool| #[trigger]
            call_ensures(
                LibtorrentDiskFileStream::start_seek,
                (reader, SeekTarget::End(delta)),
                abort,
            ) && delta <= 0 && 0 <= (*reader).file.file_size + delta && (*reader).file.file_size
                <= i64::MAX ==> (*final(reader)).current_pos == (*reader).file.file_size + delta,
{
}

/// A new reader stands at the start of its file, has read nothing, and may force
/// its first piece at once.
pub proof fn law_new_reader_stands_at_the_start(
    file: StreamFile,
    stream_id: usize,
    playback_intent: PlaybackIntent,
    sequential_intent: PlaybackIntent,
    subordinate: bool,
    file_open: bool,
    now: u64,
    reader: LibtorrentDiskFileStream,
)
    requires
        call_ensures(
            LibtorrentDiskFileStream::new,
            (
                file,
                stream_id,
                playback_intent,
                sequential_intent,
                subordinate,
                file_open,
                now,
            ),
            reader,
        ),
    ensures
        reader.file == file,
        reader.stream_id == stream_id,
        reader.playback_intent == playback_intent,
        reader.sequential_intent == sequential_intent,
        reader.subordinate == subordinate,
        reader.file_open == file_open,
        reader.current_pos == 0 && reader.file_cursor == 0,
        !reader.first_byte_read,
        reader.last_prioritized_piece == -1,
        reader.consecutive_waits == 0 && reader.urgent_reassert_count == 0,
        reader.broker_piece is None && reader.piece_read is None
            && reader.piece_read_retry_at is None,
        reader.last_blocked_replan == now,
        now >= 8_000_000_000 ==> now - reader.last_urgent_reassert == 8_000_000_000,
        !reader.opening && !reader.seek_pending,
{
}

/// A reader is made where its file is open or not there yet, and nowhere else.
pub proof fn law_missing_file_still_gives_a_reader(
    outcome: OpenOutcome,
    r: Result<bool, StreamError>,
)
    requires
        call_ensures(starts_open, (outcome,), r),
    ensures
        r is Err <==> outcome is Failed,
        outcome is Opened <==> r == Ok::<bool, StreamError>(true),
        outcome is NotFound <==> r == Ok::<bool, StreamError>(false),
{
}

/// The part of a piece that a read gets is found: it starts at the reading
/// position and takes all that the piece, the file and the request allow.
pub proof fn law_slice_is_found(
    piece: i32,
    piece_length: u64,
    file_offset: u64,
    current_pos: u64,
    file_size: u64,
    piece_bytes: usize,
    requested_bytes: usize,
    r: Option<(usize, usize)>,
)
    requires
        call_ensures(
            broker_slice_bounds,
            (
                piece,
                piece_length,
                file_offset,
                current_pos,
                file_size,
                piece_bytes,
                requested_bytes,
            ),
            r,
        ),
        0 <= piece,
        piece * piece_length <= file_offset + current_pos <= u64::MAX,
    ensures
        r is None <==> requested_bytes == 0 || current_pos >= file_size || file_offset + current_pos
            - piece * piece_length >= piece_bytes,
        r matches Some((start, end)) ==> {
            &&& start == file_offset + current_pos - piece * piece_length
            &&& start < end <= piece_bytes
            &&& end - start <= requested_bytes
            &&& current_pos + (end - start) <= file_size
            &&& end == piece_bytes || end - start == requested_bytes || current_pos + (end - start)
                == file_size
        },
{
    assert(0 <= piece * piece_length) by (nonlinear_arith)
        requires
            0 <= piece,
            0 <= piece_length,
    ;
    law_slice_takes_all_it_may(
        piece as int,
        piece_length as int,
        file_offset as int,
        current_pos as int,
        file_size as int,
        piece_bytes as int,
        requested_bytes as int,
    );
}

/// A reader stands in the piece that holds its position; where pieces have no
/// length it stands nowhere.
pub proof fn law_current_piece_holds_the_position(
    reader: &LibtorrentDiskFileStream,
    r: Result<i32, StreamError>,
    position: u64,
)
    requires
        call_ensures(LibtorrentDiskFileStream::current_piece, (reader,), r),
        call_ensures(LibtorrentDiskFileStream::poll_complete, (reader,), position),
    ensures
        reader.file.piece_length == 0 <==> r is Err,
        r is Err ==> r->Err_0 == StreamError::ZeroPieceLength,
        r is Ok && reader.file.file_offset + reader.current_pos < reader.file.piece_length
            * 0x8000_0000 ==> r->Ok_0 * reader.file.piece_length <= reader.file.file_offset
            + reader.current_pos < (r->Ok_0 + 1) * reader.file.piece_length,
        position == reader.current_pos,
{
    if r is Ok && reader.file.file_offset + reader.current_pos < reader.file.piece_length
        * 0x8000_0000 {
        law_reader_stands_in_its_piece(*reader);
    }
}

/// A verified piece gives the bytes up to its end or the end of the file.
pub proof fn law_available_bytes_end_with_piece_or_file(
    reader: &LibtorrentDiskFileStream,
    piece: i32,
    r: usize,
)
    requires
        call_ensures(
            LibtorrentDiskFileStream::bytes_available_in_verified_piece,
            (reader, piece),
            r,
        ),
        0 <= piece,
        piece * reader.file.piece_length <= reader.file.file_offset + reader.current_pos,
        reader.file.file_offset + reader.current_pos < (piece + 1) * reader.file.piece_length,
        (piece + 1) * reader.file.piece_length <= u64::MAX,
        reader.current_pos <= reader.file.file_size,
    ensures
        r <= (piece + 1) * reader.file.piece_length - reader.file.file_offset - reader.current_pos,
        r <= reader.file.file_size - reader.current_pos,
        r == (piece + 1) * reader.file.piece_length - reader.file.file_offset - reader.current_pos
            || r == reader.file.file_size - reader.current_pos || r == usize::MAX,
{
    law_verified_piece_gives_all_its_bytes(*reader, piece as int);
}

/// A reader goes by the intent that it was opened with until its first byte, and
/// by the sequential one from then on. It stays behind others where it is
/// subordinate or was opened as a probe or in the background.
pub proof fn law_reader_tells_its_intent(
    reader: &LibtorrentDiskFileStream,
    intent: PlaybackIntent,
    background: bool,
)
    requires
        call_ensures(LibtorrentDiskFileStream::priority_intent, (reader,), intent),
        call_ensures(LibtorrentDiskFileStream::is_background_reader, (reader,), background),
    ensures
        reader.first_byte_read ==> intent == reader.sequential_intent,
        !reader.first_byte_read ==> intent == reader.playback_intent,
        background <==> reader.subordinate || reader.playback_intent
            == PlaybackIntent::InternalProbe || reader.playback_intent
            == PlaybackIntent::Background,
{
}

/// A failed read tells its kind and its reason.
pub proof fn law_failed_read_tells_kind_and_reason(
    error: &StreamError,
    kind: StreamErrorKind,
    message: Option<&'static str>,
)
    requires
        call_ensures(StreamError::kind, (error,), kind),
        call_ensures(StreamError::message, (error,), message),
    ensures
        *error is Superseded ==> kind == StreamErrorKind::Interrupted && message is Some
            && message->0@ == "playback superseded by a newer torrent file"@,
        *error is ZeroPieceLength ==> kind == StreamErrorKind::InvalidData && message is Some
            && message->0@ == "torrent piece length is zero"@,
        *error is OutsideFile ==> kind == StreamErrorKind::UnexpectedEof && message is Some
            && message->0@ == "read position is outside selected torrent file"@,
        !(*error is Superseded) && !(*error is ZeroPieceLength) && !(*error is OutsideFile) ==> kind
            == StreamErrorKind::Outside && message is None,
{
}

/// A piece that the reader has passed gives nothing, and neither does the end of
/// the file.
pub proof fn law_passed_piece_gives_nothing(
    reader: &LibtorrentDiskFileStream,
    piece: i32,
    r: usize,
)
    requires
        call_ensures(
            LibtorrentDiskFileStream::bytes_available_in_verified_piece,
            (reader, piece),
            r,
        ),
        0 <= piece,
        (piece + 1) * reader.file.piece_length <= u64::MAX,
    ensures
        (piece + 1) * reader.file.piece_length <= reader.file.file_offset + reader.current_pos ==> r
            == 0,
        reader.file.file_size <= reader.current_pos ==> r == 0,
        reader.verified_bytes(piece as int) == r,
{
}

} // verus!
