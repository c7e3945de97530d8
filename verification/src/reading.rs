//! The steps of one read of a [`LibtorrentDiskFileStream`].
//!
//! `poll_read` begins a read and names the first step. After the outside work
//! of a step, the method for it takes what came of it and names the next one.

use crate::arith::{
    int_min, law_piece_holds_its_position, min_usize, piece_index, saturating_sum_i32,
};
use crate::domain::PlaybackIntent;
use crate::stream::{
    all_zero, broker_slice_bounds, copy_range, law_slice_takes_all_it_may, only_zeros,
    slice_bounds, BrokerPoll, FilePoll,
    LibtorrentDiskFileStream, OpenPoll, PieceRequest, ReadStep, ReadStepView, SeekPoll,
    SeekTarget, StreamError, PIECE_READ_RETRY, SCRATCH_BYTES,
};
use vstd::prelude::*;

verus! {

/// The piece after `piece`.
pub open spec fn following(piece: i32) -> i32 {
    int_min(piece + 1, i32::MAX as int) as i32
}

impl LibtorrentDiskFileStream {
    /// The request for a piece's bytes that is due now, if any: none while the
    /// last one is being waited out, while one is running, or when the bytes are
    /// at hand.
    pub open spec fn request_due(self, piece: i32, now: u64) -> Option<PieceRequest> {
        if self.piece_read_retry_at is Some && (self.piece_read_retry_at->0).0 == piece && now
            < (self.piece_read_retry_at->0).1 {
            None
        } else if self.piece_read == Some(piece) || self.has_bytes_of(piece) {
            None
        } else {
            Some(
                PieceRequest {
                    piece,
                    priority: if self.in_background() {
                        4
                    } else {
                        7
                    },
                    deadline_ms: if self.in_background() {
                        500
                    } else {
                        0
                    },
                    abort_previous: self.piece_read is Some,
                },
            )
        }
    }

    /// Whether a piece's bytes are at hand.
    pub open spec fn has_bytes_of(self, piece: i32) -> bool {
        self.broker_piece is Some && (self.broker_piece->0).0 == piece
    }

    /// The reader once a request that is due was made.
    pub open spec fn after_request(self, piece: i32, now: u64) -> Self {
        if self.request_due(piece, now) is Some {
            LibtorrentDiskFileStream { piece_read: Some(piece), ..self }
        } else {
            self
        }
    }

    /// The part of a piece's bytes at hand that a read gets.
    pub open spec fn serves(self, piece: i32, remaining: usize) -> Option<(int, int)> {
        if self.has_bytes_of(piece) {
            slice_bounds(
                piece as int,
                self.file.piece_length as int,
                self.file.file_offset as int,
                self.current_pos as int,
                self.file.file_size as int,
                (self.broker_piece->0).1@.len() as int,
                remaining as int,
            )
        } else {
            None
        }
    }

    /// The reader after `count` bytes were handed out.
    pub open spec fn after_bytes(self, count: int) -> Self {
        LibtorrentDiskFileStream {
            current_pos: int_min(self.current_pos + count, u64::MAX as int) as u64,
            consecutive_waits: 0,
            first_byte_read: true,
            ..self
        }
    }

    /// The first step of a read.
    pub open spec fn begins(self, cancelled: bool, remaining: usize) -> ReadStepView {
        if cancelled {
            ReadStepView::Failed(StreamError::Superseded)
        } else if self.current_pos >= self.file.file_size || remaining == 0 {
            ReadStepView::Finished
        } else if self.file.piece_length == 0 {
            ReadStepView::Failed(StreamError::ZeroPieceLength)
        } else if !(self.file.first_piece <= self.piece_here() <= self.file.last_piece) {
            ReadStepView::Failed(StreamError::OutsideFile)
        } else {
            ReadStepView::Inspect { piece: self.piece_here() }
        }
    }

    /// The step once the file on disk is open.
    pub open spec fn opened(self, piece: i32, available: usize, remaining: usize) -> ReadStepView {
        if self.file_cursor != self.current_pos {
            ReadStepView::SeekFile {
                piece,
                available,
                start: if self.seek_pending {
                    None
                } else {
                    Some(self.current_pos)
                },
            }
        } else {
            ReadStepView::ReadFile { piece, len: read_len(available, remaining) }
        }
    }

    /// The reader and the step once it is clear which bytes are at hand.
    pub open spec fn supplied(self, piece: i32, available: Option<usize>, remaining: usize) -> (
        Self,
        ReadStepView,
    ) {
        match self.serves(piece, remaining) {
            Some((start, end)) => (
                self.after_bytes(end - start),
                ReadStepView::Deliver {
                    bytes: (self.broker_piece->0).1@.subrange(start, end),
                    next_piece: following(piece),
                },
            ),
            None => match available {
                None => (self, ReadStepView::Wait { piece }),
                Some(available) => if self.file_open {
                    (self, self.opened(piece, available, remaining))
                } else {
                    (
                        LibtorrentDiskFileStream { opening: true, ..self },
                        ReadStepView::OpenFile { piece, available, start: !self.opening },
                    )
                },
            },
        }
    }

    /// The reader and the step once it is clear whether the piece is verified.
    pub open spec fn inspected(self, piece: i32, present: bool, remaining: usize, now: u64) -> (
        Self,
        ReadStepView,
    ) {
        let available = if present {
            Some(self.verified_bytes(piece as int) as usize)
        } else {
            None
        };
        if available == Some(0usize) {
            (self, ReadStepView::Finished)
        } else {
            let asks = !present || !self.first_byte_read || !self.file_open;
            let request = if asks {
                self.request_due(piece, now)
            } else {
                None
            };
            let reader = if asks {
                self.after_request(piece, now)
            } else {
                self
            };
            if reader.piece_read == Some(piece) {
                (reader, ReadStepView::PollBroker { piece, available, request })
            } else {
                reader.supplied(piece, available, remaining)
            }
        }
    }

    /// The reader after it looked at what came of a piece's bytes.
    pub open spec fn after_broker(self, piece: i32, poll: BrokerPoll, now: u64) -> Self {
        if self.piece_read != Some(piece) {
            self
        } else {
            match poll {
                BrokerPoll::Pending => self,
                BrokerPoll::Bytes(data) => LibtorrentDiskFileStream {
                    broker_piece: Some((piece, data)),
                    piece_read: None,
                    piece_read_retry_at: None,
                    ..self
                },
                BrokerPoll::TaskFailed { cancelled: true } => LibtorrentDiskFileStream {
                    piece_read: None,
                    ..self
                },
                _ => LibtorrentDiskFileStream {
                    piece_read: None,
                    piece_read_retry_at: Some((piece, (now + PIECE_READ_RETRY) as u64)),
                    ..self
                },
            }
        }
    }

    /// The reader and the step after it looked at what came of a piece's bytes.
    pub open spec fn brokered(
        self,
        piece: i32,
        available: Option<usize>,
        poll: BrokerPoll,
        remaining: usize,
        now: u64,
    ) -> (Self, ReadStepView) {
        let reader = self.after_broker(piece, poll, now);
        if self.piece_read == Some(piece) && poll == (BrokerPoll::TaskFailed { cancelled: false }) {
            (reader, ReadStepView::Failed(StreamError::BrokerTask))
        } else {
            reader.supplied(piece, available, remaining)
        }
    }

    /// The reader and the step when storage is behind: ask for the piece's bytes
    /// and try again.
    pub open spec fn storage_behind(self, piece: i32, now: u64) -> (Self, ReadStepView) {
        (
            self.after_request(piece, now),
            ReadStepView::Retry { request: self.request_due(piece, now) },
        )
    }

    /// The reader and the step after it looked at what came of opening the file.
    pub open spec fn after_open(
        self,
        piece: i32,
        available: usize,
        poll: OpenPoll,
        remaining: usize,
        now: u64,
    ) -> (Self, ReadStepView) {
        match poll {
            OpenPoll::Opened => {
                let reader = LibtorrentDiskFileStream {
                    file_open: true,
                    file_cursor: 0,
                    seek_pending: false,
                    opening: false,
                    ..self
                };
                (reader, reader.opened(piece, available, remaining))
            },
            OpenPoll::NotFound => (LibtorrentDiskFileStream {
                opening: false,
                ..self
            }).storage_behind(piece, now),
            OpenPoll::Failed => (
                LibtorrentDiskFileStream { opening: false, ..self },
                ReadStepView::Failed(StreamError::Open),
            ),
            OpenPoll::Pending => self.storage_behind(piece, now),
        }
    }

    /// The reader and the step after it looked at what came of a move in the
    /// file.
    pub open spec fn after_seek(
        self,
        piece: i32,
        available: usize,
        poll: SeekPoll,
        remaining: usize,
    ) -> (Self, ReadStepView) {
        match poll {
            SeekPoll::StartFailed => (self, ReadStepView::Failed(StreamError::Seek)),
            SeekPoll::Failed => (
                LibtorrentDiskFileStream { seek_pending: false, ..self },
                ReadStepView::Failed(StreamError::Seek),
            ),
            SeekPoll::Pending => (
                LibtorrentDiskFileStream { seek_pending: true, ..self },
                ReadStepView::Pending,
            ),
            SeekPoll::At(position) => (
                LibtorrentDiskFileStream { file_cursor: position, seek_pending: false, ..self },
                ReadStepView::ReadFile { piece, len: read_len(available, remaining) },
            ),
        }
    }

    /// Whether what came from disk is no content yet: nothing, or only zeros at
    /// the very start of a file.
    pub open spec fn is_hole(self, bytes: Seq<u8>) -> bool {
        bytes.len() == 0 || (self.current_pos == 0 && !self.first_byte_read && only_zeros(bytes))
    }

    /// The reader and the step after it looked at what came from disk.
    pub open spec fn after_file(self, piece: i32, poll: FilePoll, now: u64) -> (
        Self,
        ReadStepView,
    ) {
        match poll {
            FilePoll::Pending => (self, ReadStepView::Pending),
            FilePoll::Failed => (self, ReadStepView::Failed(StreamError::Read)),
            FilePoll::Bytes(bytes) => {
                let reader = LibtorrentDiskFileStream {
                    file_cursor: int_min(
                        self.file_cursor + bytes@.len(),
                        u64::MAX as int,
                    ) as u64,
                    ..self
                };
                if self.is_hole(bytes@) {
                    reader.storage_behind(piece, now)
                } else {
                    (
                        reader.after_bytes(bytes@.len() as int),
                        ReadStepView::Deliver { bytes: bytes@, next_piece: following(piece) },
                    )
                }
            },
        }
    }

    /// Makes the request for a piece's bytes that is due now, if any.
    pub fn request_piece_from_libtorrent(&mut self, piece: i32, now: u64) -> (r: Option<
        PieceRequest,
    >)
        ensures
            r == old(self).request_due(piece, now),
            *final(self) == old(self).after_request(piece, now),
    {
        if let Some((failed_piece, retry_at)) = self.piece_read_retry_at {
            if failed_piece == piece && now < retry_at {
                return None;
            }
        }
        let abort_previous: bool = match self.piece_read {
            Some(requested) => {
                if requested == piece {
                    return None;
                }
                true
            },
            None => false,
        };
        if let Some((cached, _)) = &self.broker_piece {
            if *cached == piece {
                return None;
            }
        }
        let subordinate: bool = self.is_background_reader();
        self.piece_read = Some(piece);
        Some(
            PieceRequest {
                piece,
                priority: if subordinate {
                    4
                } else {
                    7
                },
                deadline_ms: if subordinate {
                    500
                } else {
                    0
                },
                abort_previous,
            },
        )
    }

    /// Hands out the bytes at hand, if they are those of `piece` and the read
    /// gets any of them.
    pub fn serve_broker_piece(&mut self, piece: i32, remaining: usize) -> (r: Option<Vec<u8>>)
        ensures
            match r {
                Some(bytes) => {
                    &&& old(self).serves(piece, remaining) matches Some((start, end))
                    &&& bytes@ == (old(self).broker_piece->0).1@.subrange(start, end)
                    &&& *final(self) == old(self).after_bytes(end - start)
                },
                None => old(self).serves(piece, remaining) is None && *final(self) == *old(self),
            },
    {
        let bytes: Vec<u8> = match &self.broker_piece {
            Some((cached, data)) => {
                if *cached != piece {
                    return None;
                }
                match broker_slice_bounds(
                    piece,
                    self.file.piece_length,
                    self.file.file_offset,
                    self.current_pos,
                    self.file.file_size,
                    data.len(),
                    remaining,
                ) {
                    Some((start, end)) => copy_range(data, start, end),
                    None => return None,
                }
            },
            None => return None,
        };
        self.record_bytes(bytes.len());
        Some(bytes)
    }

    fn record_bytes(&mut self, count: usize)
        ensures
            *final(self) == old(self).after_bytes(count as int),
    {
        self.current_pos = self.current_pos.saturating_add(count as u64);
        self.consecutive_waits = 0;
        self.first_byte_read = true;
    }

    /// Begins a read into `remaining` bytes of room.
    pub fn poll_read(&self, cancelled: bool, remaining: usize) -> (r: ReadStep)
        requires
            !cancelled && self.current_pos < self.file.file_size && remaining > 0
                && self.file.piece_length > 0 ==> self.position_fits(),
        ensures
            r@ == self.begins(cancelled, remaining),
    {
        if cancelled {
            return ReadStep::Failed(StreamError::Superseded);
        }
        if self.current_pos >= self.file.file_size || remaining == 0 {
            return ReadStep::Finished;
        }
        match self.current_piece() {
            Err(error) => ReadStep::Failed(error),
            Ok(piece) => {
                if piece < self.file.first_piece || piece > self.file.last_piece {
                    ReadStep::Failed(StreamError::OutsideFile)
                } else {
                    ReadStep::Inspect { piece }
                }
            },
        }
    }

    /// Goes on after [`ReadStep::Inspect`].
    pub fn piece_inspected(&mut self, piece: i32, present: bool, remaining: usize, now: u64) -> (r:
        ReadStep)
        requires
            old(self).position_fits(),
            present ==> piece != -1,
        ensures
            (*final(self), r@) == old(self).inspected(piece, present, remaining, now),
    {
        let mut available: Option<usize> = None;
        if present {
            let verified: usize = self.bytes_available_in_verified_piece(piece);
            if verified == 0 {
                return ReadStep::Finished;
            }
            available = Some(verified);
        }
        let mut request: Option<PieceRequest> = None;
        if !present || !self.first_byte_read || !self.file_open {
            request = self.request_piece_from_libtorrent(piece, now);
        }
        if self.piece_read == Some(piece) {
            ReadStep::PollBroker { piece, available, request }
        } else {
            self.bytes_supplied(piece, available, remaining)
        }
    }

    /// Takes in what came of asking for a piece's bytes. The result tells
    /// whether the task that fetches them died.
    pub fn poll_piece_broker(&mut self, piece: i32, poll: BrokerPoll, now: u64) -> (r: Result<
        (),
        StreamError,
    >)
        requires
            now + PIECE_READ_RETRY <= u64::MAX,
        ensures
            *final(self) == old(self).after_broker(piece, poll, now),
            r == (if old(self).piece_read == Some(piece) && poll == (BrokerPoll::TaskFailed {
                cancelled: false,
            }) {
                Err(StreamError::BrokerTask)
            } else {
                Ok(())
            }),
    {
        if self.piece_read != Some(piece) {
            return Ok(());
        }
        match poll {
            BrokerPoll::Pending => Ok(()),
            BrokerPoll::Bytes(data) => {
                self.broker_piece = Some((piece, data));
                self.piece_read = None;
                self.piece_read_retry_at = None;
                Ok(())
            },
            BrokerPoll::NoBytes => {
                self.piece_read = None;
                self.piece_read_retry_at = Some((piece, now + PIECE_READ_RETRY));
                Ok(())
            },
            BrokerPoll::TaskFailed { cancelled } => {
                self.piece_read = None;
                if cancelled {
                    return Ok(());
                }
                self.piece_read_retry_at = Some((piece, now + PIECE_READ_RETRY));
                Err(StreamError::BrokerTask)
            },
        }
    }

    /// Goes on after [`ReadStep::PollBroker`].
    pub fn broker_polled(
        &mut self,
        piece: i32,
        available: Option<usize>,
        poll: BrokerPoll,
        remaining: usize,
        now: u64,
    ) -> (r: ReadStep)
        requires
            now + PIECE_READ_RETRY <= u64::MAX,
        ensures
            (*final(self), r@) == old(self).brokered(piece, available, poll, remaining, now),
    {
        match self.poll_piece_broker(piece, poll, now) {
            Err(error) => ReadStep::Failed(error),
            Ok(()) => self.bytes_supplied(piece, available, remaining),
        }
    }

    fn bytes_supplied(&mut self, piece: i32, available: Option<usize>, remaining: usize) -> (r:
        ReadStep)
        ensures
            (*final(self), r@) == old(self).supplied(piece, available, remaining),
    {
        if let Some(bytes) = self.serve_broker_piece(piece, remaining) {
            return ReadStep::Deliver { bytes, next_piece: saturating_sum_i32(piece, 1) };
        }
        match available {
            None => ReadStep::Wait { piece },
            Some(available) => {
                if self.file_open {
                    self.file_ready(piece, available, remaining)
                } else {
                    let start: bool = !self.opening;
                    self.opening = true;
                    ReadStep::OpenFile { piece, available, start }
                }
            },
        }
    }

    fn file_ready(&self, piece: i32, available: usize, remaining: usize) -> (r: ReadStep)
        ensures
            r@ == self.opened(piece, available, remaining),
    {
        if self.file_cursor != self.current_pos {
            let start: Option<u64> = if self.seek_pending {
                None
            } else {
                Some(self.current_pos)
            };
            ReadStep::SeekFile { piece, available, start }
        } else {
            ReadStep::ReadFile { piece, len: bytes_to_read(available, remaining) }
        }
    }

    fn retry_later(&mut self, piece: i32, now: u64) -> (r: ReadStep)
        ensures
            (*final(self), r@) == old(self).storage_behind(piece, now),
    {
        ReadStep::Retry { request: self.request_piece_from_libtorrent(piece, now) }
    }

    /// Goes on after [`ReadStep::OpenFile`].
    pub fn poll_file_open(
        &mut self,
        piece: i32,
        available: usize,
        poll: OpenPoll,
        remaining: usize,
        now: u64,
    ) -> (r: ReadStep)
        ensures
            (*final(self), r@) == old(self).after_open(piece, available, poll, remaining, now),
    {
        match poll {
            OpenPoll::Opened => {
                self.file_open = true;
                self.file_cursor = 0;
                self.seek_pending = false;
                self.opening = false;
                self.file_ready(piece, available, remaining)
            },
            OpenPoll::NotFound => {
                self.opening = false;
                self.retry_later(piece, now)
            },
            OpenPoll::Failed => {
                self.opening = false;
                ReadStep::Failed(StreamError::Open)
            },
            OpenPoll::Pending => self.retry_later(piece, now),
        }
    }

    /// Goes on after [`ReadStep::SeekFile`].
    pub fn file_sought(&mut self, piece: i32, available: usize, poll: SeekPoll, remaining: usize)
        -> (r: ReadStep)
        ensures
            (*final(self), r@) == old(self).after_seek(piece, available, poll, remaining),
    {
        match poll {
            SeekPoll::StartFailed => ReadStep::Failed(StreamError::Seek),
            SeekPoll::Failed => {
                self.seek_pending = false;
                ReadStep::Failed(StreamError::Seek)
            },
            SeekPoll::Pending => {
                self.seek_pending = true;
                ReadStep::Pending
            },
            SeekPoll::At(position) => {
                self.file_cursor = position;
                self.seek_pending = false;
                ReadStep::ReadFile { piece, len: bytes_to_read(available, remaining) }
            },
        }
    }

    /// Goes on after [`ReadStep::ReadFile`].
    pub fn file_read(&mut self, piece: i32, poll: FilePoll, now: u64) -> (r: ReadStep)
        ensures
            (*final(self), r@) == old(self).after_file(piece, poll, now),
    {
        match poll {
            FilePoll::Pending => ReadStep::Pending,
            FilePoll::Failed => ReadStep::Failed(StreamError::Read),
            FilePoll::Bytes(bytes) => {
                self.file_cursor = self.file_cursor.saturating_add(bytes.len() as u64);
                if bytes.len() == 0 || (self.current_pos == 0 && !self.first_byte_read && all_zero(
                    &bytes,
                )) {
                    return self.retry_later(piece, now);
                }
                self.record_bytes(bytes.len());
                ReadStep::Deliver { bytes, next_piece: saturating_sum_i32(piece, 1) }
            },
        }
    }
}

/// How many bytes one read takes from the file on disk.
pub open spec fn read_len(available: usize, remaining: usize) -> usize {
    int_min(int_min(remaining as int, available as int), SCRATCH_BYTES as int) as usize
}

fn bytes_to_read(available: usize, remaining: usize) -> (r: usize)
    ensures
        r == read_len(available, remaining),
{
    min_usize(min_usize(remaining, available), SCRATCH_BYTES)
}

/// A read from a piece's bytes gives exactly the file's next bytes: it goes on
/// where the reader stands, stays inside the file and the request, and comes
/// back empty-handed only where the file or the request is exhausted.
/// `content` is the whole torrent, cut into pieces of equal length.
pub proof fn law_bytes_are_the_files(
    reader: LibtorrentDiskFileStream,
    piece: i32,
    remaining: usize,
    content: Seq<u8>,
)
    requires
        content.len() <= u64::MAX,
        reader.file.piece_length > 0,
        reader.file.file_offset + reader.file.file_size <= content.len(),
        reader.current_pos <= reader.file.file_size,
        reader.position() / (reader.file.piece_length as int) == piece,
        reader.has_bytes_of(piece),
        (reader.broker_piece->0).1@ == content.subrange(
            piece * reader.file.piece_length,
            int_min((piece + 1) * reader.file.piece_length, content.len() as int),
        ),
    ensures
        reader.serves(piece, remaining) is None <==> remaining == 0 || reader.current_pos
            == reader.file.file_size,
        reader.serves(piece, remaining) matches Some((start, end)) ==> {
            let count = end - start;
            let next = reader.after_bytes(count);
            &&& 0 < count <= remaining
            &&& (reader.broker_piece->0).1@.subrange(start, end) == content.subrange(
                reader.position(),
                reader.position() + count,
            )
            &&& next.current_pos == reader.current_pos + count
            &&& next.current_pos <= reader.file.file_size
        },
{
    let length = reader.file.piece_length as int;
    let position = reader.position();
    let start = piece * length;
    vstd::arithmetic::div_mod::lemma_fundamental_div_mod(position, length);
    vstd::arithmetic::div_mod::lemma_mod_bound(position, length);
    vstd::arithmetic::mul::lemma_mul_is_commutative(length, piece as int);
    vstd::arithmetic::mul::lemma_mul_is_distributive_add_other_way(length, piece as int, 1);
    assert(start <= position < start + length);
    assert((piece + 1) * length == start + length);
    assert(piece >= 0) by {
        vstd::arithmetic::div_mod::lemma_div_pos_is_pos(position, length);
    }
    assert(start >= 0) by (nonlinear_arith)
        requires
            start == piece * length,
            piece >= 0,
            length > 0,
    ;
    let data = (reader.broker_piece->0).1@;
    assert(data.len() == int_min(start + length, content.len() as int) - start);
    if let Some((from, to)) = reader.serves(piece, remaining) {
        assert(from == position - start);
        assert(data.subrange(from, to) =~= content.subrange(position, position + (to - from)));
    }
}

/// No step of a read moves the reader past the end of its file. From disk this
/// holds because a read never asks for more than the file has left.
pub proof fn law_reader_stays_in_file(
    reader: LibtorrentDiskFileStream,
    piece: i32,
    available: Option<usize>,
    poll: BrokerPoll,
    bytes: Vec<u8>,
    remaining: usize,
    now: u64,
    present: bool,
)
    requires
        reader.current_pos <= reader.file.file_size,
        bytes@.len() <= read_len(reader.verified_bytes(piece as int) as usize, remaining),
    ensures
        reader.inspected(piece, present, remaining, now).0.current_pos <= reader.file.file_size,
        reader.brokered(piece, available, poll, remaining, now).0.current_pos
            <= reader.file.file_size,
        reader.after_file(piece, FilePoll::Bytes(bytes), now).0.current_pos
            <= reader.file.file_size,
{
    assert(reader.verified_bytes(piece as int) <= reader.file.file_size - reader.current_pos);
}

/// The file on disk is only read where the reader stands: once it is open, or a
/// move in it ended where it was aimed, the bytes that are handed out are those
/// at the reading position, and both go on together. Bytes that were no content
/// leave the reader where it was, so that they are read again.
pub proof fn law_disk_is_read_at_the_position(
    reader: LibtorrentDiskFileStream,
    piece: i32,
    available: usize,
    remaining: usize,
    bytes: Vec<u8>,
    now: u64,
)
    requires
        reader.current_pos + bytes@.len() <= u64::MAX,
    ensures
        reader.opened(piece, available, remaining) is ReadFile ==> reader.file_cursor
            == reader.current_pos,
        ({
            let moved = reader.after_seek(
                piece,
                available,
                SeekPoll::At(reader.current_pos),
                remaining,
            ).0;
            moved.file_cursor == moved.current_pos
        }),
        reader.file_cursor == reader.current_pos ==> {
            let (after, step) = reader.after_file(piece, FilePoll::Bytes(bytes), now);
            &&& after.file_cursor == reader.current_pos + bytes@.len()
            &&& step is Deliver ==> after.current_pos == after.file_cursor
            &&& step is Retry ==> after.current_pos == reader.current_pos
            &&& step is Retry && bytes@.len() > 0 ==> after.opened(
                piece,
                available,
                remaining,
            ) is SeekFile
        },
{
}

/// A piece's bytes are asked for once: after the request no second one is due,
/// and while a failed one is waited out none is due either.
pub proof fn law_piece_is_requested_once(
    reader: LibtorrentDiskFileStream,
    piece: i32,
    now: u64,
    later: u64,
)
    requires
        now + PIECE_READ_RETRY <= u64::MAX,
    ensures
        reader.after_request(piece, now).request_due(piece, now) is None,
        reader.piece_read == Some(piece) ==> {
            let failed = reader.after_broker(piece, BrokerPoll::NoBytes, now);
            &&& later < now + PIECE_READ_RETRY ==> failed.request_due(piece, later) is None
            &&& later >= now + PIECE_READ_RETRY && !reader.has_bytes_of(piece)
                ==> failed.request_due(piece, later) is Some
        },
{
}

/// After a seek inside the file, a read goes on at exactly that position, and
/// nothing that was fetched for the old one is handed out.
pub proof fn law_seek_sets_position(
    reader: LibtorrentDiskFileStream,
    position: u64,
    remaining: usize,
)
    requires
        position < reader.file.file_size,
        remaining > 0,
        reader.file.piece_length > 0,
    ensures
        reader.sought(SeekTarget::Start(position)).current_pos == position,
        forall|piece: i32|
            (#[trigger] reader.sought(SeekTarget::Start(position)).serves(piece, remaining)) is None,
        ({
            let step = reader.sought(SeekTarget::Start(position)).begins(false, remaining);
            let piece = piece_index(
                reader.file.file_offset + position,
                reader.file.piece_length as int,
            );
            if reader.file.first_piece <= piece <= reader.file.last_piece {
                step == (ReadStepView::Inspect { piece })
            } else {
                step == ReadStepView::Failed(StreamError::OutsideFile)
            }
        }),
{
}

/// A move never leads outside the file, wherever it was aimed.
pub proof fn law_seek_stays_in_file(reader: LibtorrentDiskFileStream, target: SeekTarget)
    ensures
        reader.sought(target).current_pos <= reader.file.file_size,
{
}

/// What came from disk is delivered, all of it and in order, as soon as one byte
/// of it is not zero, wherever the reader stands: the position goes on by as many
/// bytes, and the pieces behind this one are prioritized next.
pub proof fn law_content_is_delivered(
    reader: LibtorrentDiskFileStream,
    piece: i32,
    bytes: Vec<u8>,
    now: u64,
    i: int,
)
    requires
        0 <= i < bytes@.len(),
        bytes@[i] != 0,
        reader.current_pos + bytes@.len() <= u64::MAX,
        piece < i32::MAX,
    ensures
        ({
            let (after, step) = reader.after_file(piece, FilePoll::Bytes(bytes), now);
            &&& step == (ReadStepView::Deliver { bytes: bytes@, next_piece: (piece + 1) as i32 })
            &&& after.current_pos == reader.current_pos + bytes@.len()
            &&& after.first_byte_read
            &&& after.consecutive_waits == 0
        }),
{
}

/// Bytes from disk are taken for a hole only where there are none, or where
/// nothing but zeros came at the very start, before the first byte. Then nothing
/// is delivered and the reader stays. Zeros anywhere else are content.
pub proof fn law_only_a_blank_start_is_a_hole(
    reader: LibtorrentDiskFileStream,
    piece: i32,
    bytes: Vec<u8>,
    now: u64,
)
    ensures
        ({
            let (after, step) = reader.after_file(piece, FilePoll::Bytes(bytes), now);
            let blank = forall|i: int| 0 <= i < bytes@.len() ==> #[trigger] bytes@[i] == 0;
            let hole = bytes@.len() == 0 || (reader.current_pos == 0 && !reader.first_byte_read
                && blank);
            &&& step is Retry <==> hole
            &&& step is Deliver <==> !hole
            &&& step is Deliver ==> step == (ReadStepView::Deliver {
                bytes: bytes@,
                next_piece: following(piece),
            })
            &&& step is Retry ==> after.current_pos == reader.current_pos && after.first_byte_read
                == reader.first_byte_read
        }),
{
}

/// A read from disk that is still running changes nothing, and one that failed
/// fails the read.
pub proof fn law_disk_failure_is_reported(reader: LibtorrentDiskFileStream, piece: i32, now: u64)
    ensures
        reader.after_file(piece, FilePoll::Pending, now) == (reader, ReadStepView::Pending),
        reader.after_file(piece, FilePoll::Failed, now) == (
            reader,
            ReadStepView::Failed(StreamError::Read),
        ),
{
}

/// Handing bytes out moves the reader by as many, ends its waiting and counts as
/// its first byte. Nothing else about it changes.
pub proof fn law_bytes_move_the_reader(reader: LibtorrentDiskFileStream, count: int)
    requires
        0 <= count,
        reader.current_pos + count <= u64::MAX,
    ensures
        ({
            let after = reader.after_bytes(count);
            &&& after.current_pos == reader.current_pos + count
            &&& after.first_byte_read
            &&& after.consecutive_waits == 0
            &&& after == (LibtorrentDiskFileStream {
                current_pos: after.current_pos,
                first_byte_read: after.first_byte_read,
                consecutive_waits: after.consecutive_waits,
                ..reader
            })
        }),
{
}

/// A read of a reader that was overtaken fails, one at the end of the file or
/// without room ends, and every other one looks at the piece that holds the
/// reading position, if the file has it.
pub proof fn law_read_begins_at_its_piece(
    reader: LibtorrentDiskFileStream,
    cancelled: bool,
    remaining: usize,
)
    requires
        reader.file.piece_length > 0 ==> reader.file.file_offset + reader.current_pos
            < reader.file.piece_length * 0x8000_0000,
    ensures
        ({
            let step = reader.begins(cancelled, remaining);
            let length = reader.file.piece_length as int;
            let position = reader.file.file_offset + reader.current_pos;
            let idle = reader.current_pos >= reader.file.file_size || remaining == 0;
            &&& cancelled ==> step == ReadStepView::Failed(StreamError::Superseded)
            &&& !cancelled && idle ==> step == ReadStepView::Finished
            &&& !cancelled && !idle && length == 0 ==> step == ReadStepView::Failed(
                StreamError::ZeroPieceLength,
            )
            &&& step matches ReadStepView::Inspect { piece } ==> {
                &&& !cancelled && !idle
                &&& piece * length <= position < (piece + 1) * length
                &&& reader.file.first_piece <= piece <= reader.file.last_piece
            }
            &&& !cancelled && !idle && length > 0 && reader.file.first_piece * length <= position
                < (reader.file.last_piece + 1) * length ==> step is Inspect
            &&& !cancelled && !idle && length > 0 && !(step is Inspect) ==> step
                == ReadStepView::Failed(StreamError::OutsideFile)
        }),
{
    let length = reader.file.piece_length as int;
    let position = reader.file.file_offset + reader.current_pos;
    if length > 0 {
        law_piece_holds_its_position(position, length);
        let piece = piece_index(position, length);
        let first = reader.file.first_piece as int;
        let last = reader.file.last_piece as int;
        if first * length <= position < (last + 1) * length {
            assert(first <= piece <= last) by (nonlinear_arith)
                requires
                    0 < length,
                    first * length <= position < (last + 1) * length,
                    piece * length <= position < (piece + 1) * length,
            ;
        }
    }
}

/// A piece's bytes are asked for where they are not at hand, not on their way and
/// not being waited out, and only there: at top priority and at once for playback,
/// at middle priority and later in the background. A request for another piece
/// that is still running is given up.
pub proof fn law_request_is_made_where_needed(
    reader: LibtorrentDiskFileStream,
    piece: i32,
    now: u64,
)
    ensures
        ({
            let waited_out = reader.piece_read_retry_at is Some && (reader.piece_read_retry_at->0).0
                == piece && now < (reader.piece_read_retry_at->0).1;
            let running = reader.piece_read is Some && reader.piece_read->0 == piece;
            let at_hand = reader.broker_piece is Some && (reader.broker_piece->0).0 == piece;
            let yields = reader.subordinate || reader.playback_intent
                == PlaybackIntent::InternalProbe || reader.playback_intent
                == PlaybackIntent::Background;
            let request = reader.request_due(piece, now);
            let after = reader.after_request(piece, now);
            &&& request is Some <==> !waited_out && !running && !at_hand
            &&& request matches Some(made) ==> {
                &&& made.piece == piece
                &&& yields ==> made.priority == 4 && made.deadline_ms == 500
                &&& !yields ==> made.priority == 7 && made.deadline_ms == 0
                &&& made.abort_previous <==> reader.piece_read is Some
                &&& after.piece_read is Some && after.piece_read->0 == piece
            }
            &&& request is None ==> after == reader
            &&& after == (LibtorrentDiskFileStream { piece_read: after.piece_read, ..reader })
            &&& reader.has_bytes_of(piece) <==> at_hand
        }),
{
}

/// Only verified bytes are handed out: while the piece at the reading position is
/// missing, a read never touches the file on disk. It looks after the piece's
/// bytes, delivers those that the native library handed over, or waits.
pub proof fn law_missing_piece_is_not_read_from_disk(
    reader: LibtorrentDiskFileStream,
    piece: i32,
    remaining: usize,
    poll: BrokerPoll,
    now: u64,
)
    ensures
        ({
            let step = reader.inspected(piece, false, remaining, now).1;
            let polled = reader.brokered(piece, None, poll, remaining, now).1;
            &&& step is PollBroker || step is Deliver || step is Wait
            &&& polled is Deliver || polled is Wait || polled is Failed
            &&& step matches ReadStepView::Wait { piece: awaited } ==> awaited == piece
            &&& step matches ReadStepView::PollBroker { piece: polled_piece, available, .. }
                ==> polled_piece == piece && available is None
        }),
{
}

/// A verified piece is served: a read of it ends only where it has no byte left
/// for the file, and otherwise looks after its bytes, delivers those at hand, or
/// goes to the file on disk. It never waits for the piece.
pub proof fn law_verified_piece_is_served(
    reader: LibtorrentDiskFileStream,
    piece: i32,
    remaining: usize,
    now: u64,
)
    requires
        reader.verified_bytes(piece as int) >= 0,
    ensures
        ({
            let count = reader.verified_bytes(piece as int);
            let step = reader.inspected(piece, true, remaining, now).1;
            &&& count == 0 ==> step is Finished
            &&& count > 0 ==> step is PollBroker || step is Deliver || step is OpenFile
                || step is SeekFile || step is ReadFile
            &&& step matches ReadStepView::PollBroker { piece: polled, available, .. } ==> polled
                == piece && available is Some && available->0 == count
            &&& step matches ReadStepView::OpenFile { piece: opened, available, .. } ==> opened
                == piece && available == count
            &&& step matches ReadStepView::SeekFile { piece: sought, available, .. } ==> sought
                == piece && available == count
            &&& step matches ReadStepView::ReadFile { piece: read, len } ==> read == piece && len
                <= count
        }),
{
}

/// The native library is asked for the bytes of a piece that is missing, and of
/// every piece before the first byte or while the file is not open, as the file
/// on disk may be behind. Once a file that is open has been read, a verified piece
/// is read from disk alone.
pub proof fn law_bytes_are_asked_for_until_disk_serves(
    reader: LibtorrentDiskFileStream,
    piece: i32,
    remaining: usize,
    now: u64,
)
    requires
        reader.verified_bytes(piece as int) > 0,
        reader.request_due(piece, now) is Some,
    ensures
        reader.inspected(piece, false, remaining, now).0.piece_read == Some(piece),
        !reader.first_byte_read || !reader.file_open ==> {
            let (after, step) = reader.inspected(piece, true, remaining, now);
            &&& after.piece_read == Some(piece)
            &&& step matches ReadStepView::PollBroker { request, .. }
            &&& request == reader.request_due(piece, now)
        },
        reader.first_byte_read && reader.file_open ==> {
            let (after, step) = reader.inspected(piece, true, remaining, now);
            &&& after == reader
            &&& step is SeekFile || step is ReadFile
        },
        reader.first_byte_read && reader.file_open && reader.file_cursor == reader.current_pos
            ==> reader.inspected(piece, true, remaining, now).1 is ReadFile,
{
}

/// One read takes from disk all that the verified bytes, the room and its own
/// limit of a quarter of a mebibyte allow.
pub proof fn law_disk_read_takes_all_it_may(available: usize, remaining: usize)
    ensures
        read_len(available, remaining) <= available,
        read_len(available, remaining) <= remaining,
        read_len(available, remaining) <= 262_144,
        read_len(available, remaining) == available || read_len(available, remaining) == remaining
            || read_len(available, remaining) == 262_144,
{
}

/// Where no bytes are at hand a missing piece is waited for, and a verified one
/// comes from disk: the file is opened once, moved to the reading position where
/// it stands elsewhere, and read.
pub proof fn law_disk_is_opened_moved_and_read(
    reader: LibtorrentDiskFileStream,
    piece: i32,
    available: usize,
    remaining: usize,
)
    requires
        reader.serves(piece, remaining) is None,
    ensures
        reader.supplied(piece, None, remaining) == (reader, ReadStepView::Wait { piece }),
        !reader.file_open ==> {
            let (after, step) = reader.supplied(piece, Some(available), remaining);
            &&& step == (ReadStepView::OpenFile { piece, available, start: !reader.opening })
            &&& after.opening
            &&& after == (LibtorrentDiskFileStream { opening: after.opening, ..reader })
        },
        reader.file_open && reader.file_cursor != reader.current_pos ==> {
            let (after, step) = reader.supplied(piece, Some(available), remaining);
            &&& after == reader
            &&& step matches ReadStepView::SeekFile { piece: sought, available: count, start }
            &&& sought == piece
            &&& count == available
            &&& reader.seek_pending ==> start is None
            &&& !reader.seek_pending ==> start is Some && start->0 == reader.current_pos
        },
        reader.file_open && reader.file_cursor == reader.current_pos ==> {
            let (after, step) = reader.supplied(piece, Some(available), remaining);
            &&& after == reader
            &&& step matches ReadStepView::ReadFile { piece: read, .. }
            &&& read == piece
        },
{
}

/// Bytes that the native library handed over are at hand and their request is
/// over. Where none came the piece is left alone for a quarter of a second, a
/// fetch that was called off is forgotten, and one that died fails the read. What
/// came of another piece changes nothing.
pub proof fn law_fetched_bytes_are_kept(
    reader: LibtorrentDiskFileStream,
    piece: i32,
    data: std::sync::Arc<Vec<u8>>,
    poll: BrokerPoll,
    available: Option<usize>,
    remaining: usize,
    now: u64,
)
    requires
        now + 250_000_000 <= u64::MAX,
    ensures
        reader.piece_read != Some(piece) ==> reader.after_broker(piece, poll, now) == reader,
        reader.piece_read == Some(piece) ==> {
            let kept = reader.after_broker(piece, BrokerPoll::Bytes(data), now);
            let empty = reader.after_broker(piece, BrokerPoll::NoBytes, now);
            let dropped = reader.after_broker(piece, BrokerPoll::TaskFailed { cancelled: true }, now);
            let dead = reader.brokered(
                piece,
                available,
                BrokerPoll::TaskFailed { cancelled: false },
                remaining,
                now,
            );
            &&& kept.broker_piece == Some((piece, data))
            &&& kept.piece_read is None
            &&& kept.piece_read_retry_at is None
            &&& empty.piece_read is None
            &&& empty.piece_read_retry_at == Some((piece, (now + 250_000_000) as u64))
            &&& empty.broker_piece == reader.broker_piece
            &&& dropped.piece_read is None
            &&& dropped.piece_read_retry_at == reader.piece_read_retry_at
            &&& dead.1 == ReadStepView::Failed(StreamError::BrokerTask)
            &&& dead.0.piece_read is None
            &&& dead.0.piece_read_retry_at == Some((piece, (now + 250_000_000) as u64))
            &&& reader.after_broker(piece, BrokerPoll::Pending, now) == reader
            &&& kept.current_pos == reader.current_pos
        },
{
}

/// An opened file stands at its start and is gone on with at once. A file that is
/// not there yet, or not open yet, lets the read be tried again, and any other
/// failure to open it fails the read.
pub proof fn law_opening_leads_on(
    reader: LibtorrentDiskFileStream,
    piece: i32,
    available: usize,
    remaining: usize,
    now: u64,
)
    ensures
        ({
            let (opened, step) = reader.after_open(
                piece,
                available,
                OpenPoll::Opened,
                remaining,
                now,
            );
            &&& opened.file_open && !opened.opening && !opened.seek_pending
            &&& opened.file_cursor == 0
            &&& opened.current_pos == reader.current_pos
            &&& reader.current_pos == 0 ==> step is ReadFile
            &&& reader.current_pos > 0 ==> step == (ReadStepView::SeekFile {
                piece,
                available,
                start: Some(reader.current_pos),
            })
        }),
        ({
            let (absent, step) = reader.after_open(
                piece,
                available,
                OpenPoll::NotFound,
                remaining,
                now,
            );
            &&& step is Retry
            &&& !absent.opening
            &&& absent.file_open == reader.file_open
            &&& absent.current_pos == reader.current_pos
        }),
        ({
            let (waiting, step) = reader.after_open(
                piece,
                available,
                OpenPoll::Pending,
                remaining,
                now,
            );
            &&& step is Retry
            &&& waiting.opening == reader.opening
            &&& waiting.file_open == reader.file_open
        }),
        ({
            let (failed, step) = reader.after_open(
                piece,
                available,
                OpenPoll::Failed,
                remaining,
                now,
            );
            &&& step == ReadStepView::Failed(StreamError::Open)
            &&& !failed.opening
        }),
{
}

/// A move in the file that ended is where the file stands, and the read goes on
/// there; one that runs is waited for, and one that failed fails the read.
pub proof fn law_moving_leads_on(
    reader: LibtorrentDiskFileStream,
    piece: i32,
    available: usize,
    position: u64,
    remaining: usize,
)
    ensures
        ({
            let (moved, step) = reader.after_seek(
                piece,
                available,
                SeekPoll::At(position),
                remaining,
            );
            &&& moved.file_cursor == position
            &&& !moved.seek_pending
            &&& moved.current_pos == reader.current_pos
            &&& step matches ReadStepView::ReadFile { piece: read, .. }
            &&& read == piece
        }),
        reader.after_seek(piece, available, SeekPoll::Pending, remaining).1 is Pending,
        reader.after_seek(piece, available, SeekPoll::Pending, remaining).0.seek_pending,
        reader.after_seek(piece, available, SeekPoll::StartFailed, remaining) == (
            reader,
            ReadStepView::Failed(StreamError::Seek),
        ),
        reader.after_seek(piece, available, SeekPoll::Failed, remaining).1 == ReadStepView::Failed(
            StreamError::Seek,
        ),
        !reader.after_seek(piece, available, SeekPoll::Failed, remaining).0.seek_pending,
{
}

/// Bytes at hand are delivered: those from the reading position on, with the next
/// piece named, and the reader goes on behind them.
pub proof fn law_bytes_at_hand_are_delivered(
    reader: LibtorrentDiskFileStream,
    piece: i32,
    available: Option<usize>,
    remaining: usize,
)
    requires
        reader.serves(piece, remaining) is Some,
        0 <= piece < i32::MAX,
        0 <= piece * reader.file.piece_length <= reader.file.file_offset + reader.current_pos
            <= u64::MAX,
        reader.file.file_size <= u64::MAX,
    ensures
        ({
            let data = (reader.broker_piece->0).1@;
            let offset = reader.file.file_offset + reader.current_pos - piece
                * reader.file.piece_length;
            let (after, step) = reader.supplied(piece, available, remaining);
            &&& (reader.broker_piece->0).0 == piece
            &&& step matches ReadStepView::Deliver { bytes, next_piece }
            &&& next_piece == piece + 1
            &&& 0 < bytes.len() <= remaining
            &&& offset + bytes.len() <= data.len()
            &&& bytes == data.subrange(offset, offset + bytes.len())
            &&& after.current_pos == reader.current_pos + bytes.len()
            &&& after.current_pos <= reader.file.file_size
            &&& after.first_byte_read
        }),
{
}

/// A disk read that brought content delivers it: all of its bytes, and the reader
/// is behind them. It is content where one byte is not zero, and zeros are too
/// anywhere but at the very start of a file nothing was read of yet.
pub proof fn law_disk_content_is_delivered(piece: i32, bytes: Vec<u8>, now: u64)
    requires
        piece < i32::MAX,
    ensures
        forall|reader: &mut LibtorrentDiskFileStream, step: ReadStep| #[trigger]
            call_ensures(
                LibtorrentDiskFileStream::file_read,
                (reader, piece, FilePoll::Bytes(bytes), now),
                step,
            ) && (*reader).current_pos + bytes@.len() <= u64::MAX ==> {
                let before = *reader;
                let after = *final(reader);
                let blank = forall|i: int| 0 <= i < bytes@.len() ==> #[trigger] bytes@[i] == 0;
                let hole = bytes@.len() == 0 || (before.current_pos == 0 && !before.first_byte_read
                    && blank);
                &&& !hole ==> {
                    &&& step matches ReadStep::Deliver { bytes: out, next_piece }
                    &&& out@ == bytes@
                    &&& next_piece == piece + 1
                    &&& after.current_pos == before.current_pos + bytes@.len()
                    &&& after.first_byte_read
                    &&& after.consecutive_waits == 0
                }
                &&& hole ==> step is Retry && after.current_pos == before.current_pos
                    && after.first_byte_read == before.first_byte_read
            },
{
}

/// A read begins with the piece that holds the reading position. It fails where
/// the reader was overtaken, where pieces have no length or where the file does
/// not have that piece, and ends where nothing is left to read or no room is.
pub proof fn law_poll_looks_at_the_piece_here(
    reader: &LibtorrentDiskFileStream,
    cancelled: bool,
    remaining: usize,
    step: ReadStep,
)
    requires
        call_ensures(LibtorrentDiskFileStream::poll_read, (reader, cancelled, remaining), step),
        reader.file.piece_length > 0 ==> reader.file.file_offset + reader.current_pos
            < reader.file.piece_length * 0x8000_0000,
    ensures
        cancelled <==> (step matches ReadStep::Failed(error) && error == StreamError::Superseded),
        !cancelled && (reader.current_pos >= reader.file.file_size || remaining == 0)
            <==> step is Finished,
        step matches ReadStep::Inspect { piece } ==> {
            let length = reader.file.piece_length as int;
            let position = reader.file.file_offset + reader.current_pos;
            &&& piece * length <= position < (piece + 1) * length
            &&& reader.file.first_piece <= piece <= reader.file.last_piece
            &&& remaining > 0
        },
        step is Inspect || step is Finished || step is Failed,
{
    law_read_begins_at_its_piece(*reader, cancelled, remaining);
}

/// Looking at a missing piece leads to its bytes or to waiting for it, and never to
/// the file on disk; looking at a verified one never waits for it.
pub proof fn law_inspection_serves_verified_bytes_only(
    piece: i32,
    present: bool,
    remaining: usize,
    now: u64,
)
    ensures
        forall|reader: &mut LibtorrentDiskFileStream, step: ReadStep| #[trigger]
            call_ensures(
                LibtorrentDiskFileStream::piece_inspected,
                (reader, piece, present, remaining, now),
                step,
            ) ==> {
                &&& !present ==> step is PollBroker || step is Deliver || step is Wait
                &&& present ==> !(step is Wait)
                &&& step matches ReadStep::Deliver { bytes, .. } ==> 0 < bytes@.len() <= remaining
                &&& step matches ReadStep::Wait { piece: awaited } ==> awaited == piece
                &&& (*final(reader)).file == (*reader).file
            },
{
    assert forall|reader: &mut LibtorrentDiskFileStream, step: ReadStep| #[trigger]
        call_ensures(
            LibtorrentDiskFileStream::piece_inspected,
            (reader, piece, present, remaining, now),
            step,
        ) implies {
        &&& !present ==> step is PollBroker || step is Deliver || step is Wait
        &&& present ==> !(step is Wait)
        &&& step matches ReadStep::Deliver { bytes, .. } ==> 0 < bytes@.len() <= remaining
        &&& step matches ReadStep::Wait { piece: awaited } ==> awaited == piece
        &&& (*final(reader)).file == (*reader).file
    } by {
        let asking = (*reader).after_request(piece, now);
        if let Some((start, end)) = (*reader).serves(piece, remaining) {
            let data = ((*reader).broker_piece->0).1@;
            assert(0 <= start < end <= data.len());
        }
        if let Some((start, end)) = asking.serves(piece, remaining) {
            let data = (asking.broker_piece->0).1@;
            assert(0 <= start < end <= data.len());
        }
    }
}

/// A request for a piece's bytes goes out where they are neither at hand nor on
/// their way nor waited out: urgently for playback, later in the background, and
/// in place of a request for another piece.
pub proof fn law_bytes_are_requested_urgently(piece: i32, now: u64)
    ensures
        forall|reader: &mut LibtorrentDiskFileStream, r: Option<PieceRequest>| #[trigger]
            call_ensures(
                LibtorrentDiskFileStream::request_piece_from_libtorrent,
                (reader, piece, now),
                r,
            ) ==> {
                let before = *reader;
                let after = *final(reader);
                let waited_out = before.piece_read_retry_at is Some
                    && (before.piece_read_retry_at->0).0 == piece && now
                    < (before.piece_read_retry_at->0).1;
                let at_hand = before.broker_piece is Some && (before.broker_piece->0).0 == piece;
                let yields = before.subordinate || before.playback_intent
                    == PlaybackIntent::InternalProbe || before.playback_intent
                    == PlaybackIntent::Background;
                &&& r is Some <==> !waited_out && before.piece_read != Some(piece) && !at_hand
                &&& r matches Some(request) ==> {
                    &&& request.piece == piece
                    &&& yields ==> request.priority == 4 && request.deadline_ms == 500
                    &&& !yields ==> request.priority == 7 && request.deadline_ms == 0
                    &&& request.abort_previous <==> before.piece_read is Some
                    &&& after.piece_read == Some(piece)
                }
                &&& r is None ==> after == before
            },
{
}

/// Once the file is open, moved or not there, a read goes on, is tried again or
/// fails, and the file on disk stands where the reader is told.
pub proof fn law_disk_steps_lead_on(
    piece: i32,
    available: usize,
    position: u64,
    remaining: usize,
    now: u64,
)
    ensures
        forall|reader: &mut LibtorrentDiskFileStream, step: ReadStep| #[trigger]
            call_ensures(
                LibtorrentDiskFileStream::poll_file_open,
                (reader, piece, available, OpenPoll::Opened, remaining, now),
                step,
            ) ==> {
                &&& (*final(reader)).file_open
                &&& (*final(reader)).file_cursor == 0
                &&& (*reader).current_pos == 0 ==> step is ReadFile
                &&& (*reader).current_pos > 0 ==> (step matches ReadStep::SeekFile { start, .. }
                    && start == Some((*reader).current_pos))
            },
        forall|reader: &mut LibtorrentDiskFileStream, step: ReadStep| #[trigger]
            call_ensures(
                LibtorrentDiskFileStream::poll_file_open,
                (reader, piece, available, OpenPoll::NotFound, remaining, now),
                step,
            ) ==> step is Retry && !(*final(reader)).opening,
        forall|reader: &mut LibtorrentDiskFileStream, step: ReadStep| #[trigger]
            call_ensures(
                LibtorrentDiskFileStream::poll_file_open,
                (reader, piece, available, OpenPoll::Failed, remaining, now),
                step,
            ) ==> (step matches ReadStep::Failed(error) && error == StreamError::Open),
        forall|reader: &mut LibtorrentDiskFileStream, step: ReadStep| #[trigger]
            call_ensures(
                LibtorrentDiskFileStream::file_sought,
                (reader, piece, available, SeekPoll::At(position), remaining),
                step,
            ) ==> {
                &&& (*final(reader)).file_cursor == position
                &&& step matches ReadStep::ReadFile { piece: read, len }
                &&& read == piece
                &&& len <= available && len <= remaining && len <= 262_144
                &&& len == available || len == remaining || len == 262_144
            },
{
}

/// Bytes that the native library handed over for the piece that is read are
/// delivered from the reading position on, in one go with looking for them.
pub proof fn law_handed_over_bytes_are_delivered(
    piece: i32,
    available: Option<usize>,
    data: std::sync::Arc<Vec<u8>>,
    remaining: usize,
    now: u64,
)
    requires
        0 <= piece < i32::MAX,
        remaining > 0,
    ensures
        forall|reader: &mut LibtorrentDiskFileStream, step: ReadStep| #[trigger]
            call_ensures(
                LibtorrentDiskFileStream::broker_polled,
                (reader, piece, available, BrokerPoll::Bytes(data), remaining, now),
                step,
            ) && (*reader).piece_read == Some(piece) && (*reader).current_pos
                < (*reader).file.file_size && piece * (*reader).file.piece_length
                <= (*reader).file.file_offset + (*reader).current_pos <= u64::MAX
                && (*reader).file.file_offset + (*reader).current_pos - piece
                * (*reader).file.piece_length < data@.len() ==> {
                let before = *reader;
                let after = *final(reader);
                let offset = before.file.file_offset + before.current_pos - piece
                    * before.file.piece_length;
                &&& step matches ReadStep::Deliver { bytes, next_piece }
                &&& next_piece == piece + 1
                &&& 0 < bytes@.len() <= remaining
                &&& bytes@ == data@.subrange(offset, offset + bytes@.len())
                &&& after.current_pos == before.current_pos + bytes@.len()
                &&& after.current_pos <= before.file.file_size
                &&& after.piece_read is None
                &&& bytes@.len() == remaining || offset + bytes@.len() == data@.len()
                    || after.current_pos == before.file.file_size
            },
{
    assert forall|reader: &mut LibtorrentDiskFileStream, step: ReadStep| #[trigger]
        call_ensures(
            LibtorrentDiskFileStream::broker_polled,
            (reader, piece, available, BrokerPoll::Bytes(data), remaining, now),
            step,
        ) && (*reader).piece_read == Some(piece) && (*reader).current_pos
            < (*reader).file.file_size && piece * (*reader).file.piece_length
            <= (*reader).file.file_offset + (*reader).current_pos <= u64::MAX
            && (*reader).file.file_offset + (*reader).current_pos - piece
            * (*reader).file.piece_length < data@.len() implies {
        let before = *reader;
        let after = *final(reader);
        let offset = before.file.file_offset + before.current_pos - piece
            * before.file.piece_length;
        &&& step matches ReadStep::Deliver { bytes, next_piece }
        &&& next_piece == piece + 1
        &&& 0 < bytes@.len() <= remaining
        &&& bytes@ == data@.subrange(offset, offset + bytes@.len())
        &&& after.current_pos == before.current_pos + bytes@.len()
        &&& after.current_pos <= before.file.file_size
        &&& after.piece_read is None
        &&& bytes@.len() == remaining || offset + bytes@.len() == data@.len() || after.current_pos
            == before.file.file_size
    } by {
        let kept = (*reader).after_broker(piece, BrokerPoll::Bytes(data), now);
        assert(0 <= piece * kept.file.piece_length) by (nonlinear_arith)
            requires
                0 <= piece,
                0 <= kept.file.piece_length,
        ;
        law_slice_takes_all_it_may(
            piece as int,
            kept.file.piece_length as int,
            kept.file.file_offset as int,
            kept.current_pos as int,
            kept.file.file_size as int,
            data@.len() as int,
            remaining as int,
        );
    }
}

/// What the broker brought is kept for its piece; what failed is tried again half
/// a second later, or at once where it was called off.
pub proof fn law_broker_is_listened_to(
    piece: i32,
    data: std::sync::Arc<Vec<u8>>,
    now: u64,
    r: Result<(), StreamError>,
)
    requires
        now + 500_000_000 <= u64::MAX,
    ensures
        forall|reader: &mut LibtorrentDiskFileStream, poll: BrokerPoll| #[trigger]
            call_ensures(
                LibtorrentDiskFileStream::poll_piece_broker,
                (reader, piece, poll, now),
                r,
            ) ==> {
                let before = *reader;
                let after = *final(reader);
                &&& before.piece_read != Some(piece) ==> after == before && r is Ok
                &&& poll is Pending ==> after == before && r is Ok
                &&& before.piece_read == Some(piece) && poll == BrokerPoll::Bytes(data)
                    ==> after.broker_piece == Some((piece, data)) && after.piece_read is None && r is Ok
                &&& before.piece_read == Some(piece) && !(poll is Pending) ==> after.piece_read is None
                &&& before.piece_read == Some(piece) && poll == (BrokerPoll::TaskFailed {
                    cancelled: false,
                }) ==> r is Err
                &&& before.piece_read == Some(piece) && poll == (BrokerPoll::TaskFailed {
                    cancelled: true,
                }) ==> r is Ok && after.piece_read_retry_at == before.piece_read_retry_at
                &&& after.current_pos == before.current_pos
            },
{
}

} // verus!
