//! Prioritizing the pieces around the position where playback starts.

use crate::arith::{
    int_max, int_min, law_piece_holds_its_position, min_u64, non_negative, piece_at, piece_index,
};
use crate::domain::{
    FileInfo, LibtorrentStorageMode, MemoryPressure, NativeCommand, PriorityAssignment,
    PriorityContext, TorrentStatus,
};
use crate::errors::PlaybackError;
use crate::layout::TorrentLayout;
use crate::readiness::{memory_pressure, pressure};
use crate::transitions::LibtorrentPlaybackStart;
use vstd::prelude::*;

verus! {

/// Where in the torrent playback of a file starts. A start behind the end of
/// the file is its end.
pub open spec fn start_position(file: FileInfo, start_offset: u64) -> int {
    int_max(0, file.offset as int) + int_min(start_offset as int, int_max(0, file.size as int))
}

/// The piece that playback starts with.
pub fn hot_window_start(layout: &TorrentLayout, start: &LibtorrentPlaybackStart) -> (r: Result<
    i32,
    PlaybackError,
>)
    ensures
        r == (if start.file_idx >= layout.files@.len() {
            Err(PlaybackError::FileIndexOutOfRange(start.file_idx))
        } else if layout.piece_length == 0 {
            Err(PlaybackError::ZeroPieceLength)
        } else {
            Ok(
                piece_index(
                    start_position(layout.files@[start.file_idx as int], start.start_offset),
                    layout.piece_length as int,
                ),
            )
        }),
{
    if start.file_idx >= layout.files.len() {
        return Err(PlaybackError::FileIndexOutOfRange(start.file_idx));
    }
    if layout.piece_length == 0 {
        return Err(PlaybackError::ZeroPieceLength);
    }
    let file: &FileInfo = &layout.files[start.file_idx];
    let file_offset: u64 = non_negative(file.offset);
    let start_offset: u64 = min_u64(start.start_offset, non_negative(file.size));
    Ok(piece_at(file_offset + start_offset, layout.piece_length))
}

/// What the priority policy is told when playback of a file starts.
pub open spec fn start_context(
    file: FileInfo,
    piece_length: u64,
    start: LibtorrentPlaybackStart,
    first_piece: i32,
    status: TorrentStatus,
    storage_mode: LibtorrentStorageMode,
    cache_size: u64,
    native_bytes: u64,
) -> PriorityContext {
    PriorityContext {
        intent: start.intent,
        current_piece: first_piece,
        first_piece: file.first_piece,
        last_piece: file.last_piece,
        piece_length,
        file_size: int_max(0, file.size as int) as u64,
        bitrate_bytes_per_sec: start.bitrate_bytes_per_sec,
        download_rate_bytes_per_sec: int_max(0, status.download_rate as int) as u64,
        peers: int_max(0, status.num_peers as int) as u64,
        cache_size_bytes: cache_size,
        memory_pressure: pressure(
            cache_size,
            if storage_mode == LibtorrentStorageMode::MemoryOnly {
                native_bytes
            } else {
                0
            },
        ),
        consecutive_waits: 0,
        first_byte_sent: false,
    }
}

/// Tells the priority policy what it has to know when playback of a file starts.
/// Memory is only an issue where pieces are kept in it.
pub fn hot_window_context(
    file: &FileInfo,
    piece_length: u64,
    start: &LibtorrentPlaybackStart,
    first_piece: i32,
    status: &TorrentStatus,
    storage_mode: LibtorrentStorageMode,
    cache_size: u64,
    native_bytes: u64,
) -> (r: PriorityContext)
    ensures
        r == start_context(
            *file,
            piece_length,
            *start,
            first_piece,
            *status,
            storage_mode,
            cache_size,
            native_bytes,
        ),
{
    let native_memory: u64 = if storage_mode == LibtorrentStorageMode::MemoryOnly {
        native_bytes
    } else {
        0
    };
    PriorityContext {
        intent: start.intent,
        current_piece: first_piece,
        first_piece: file.first_piece,
        last_piece: file.last_piece,
        piece_length,
        file_size: non_negative(file.size),
        bitrate_bytes_per_sec: start.bitrate_bytes_per_sec,
        download_rate_bytes_per_sec: non_negative(status.download_rate as i64),
        peers: non_negative(status.num_peers as i64),
        cache_size_bytes: cache_size,
        memory_pressure: memory_pressure(cache_size, native_memory),
        consecutive_waits: 0,
        first_byte_sent: false,
    }
}

/// The commands for those of the policy's assignments that lie in the file and
/// are still missing, in the policy's order.
pub open spec fn assignment_commands(
    assignments: Seq<PriorityAssignment>,
    present: Seq<bool>,
    file: FileInfo,
) -> Seq<NativeCommand>
    decreases assignments.len(),
{
    if assignments.len() == 0 {
        Seq::empty()
    } else {
        let earlier = assignment_commands(assignments.drop_last(), present, file);
        let assignment = assignments.last();
        if file.spans(assignment.piece_idx as int) && !present[assignments.len() - 1] {
            earlier.push(
                NativeCommand::SetPiecePriority {
                    piece: assignment.piece_idx,
                    priority: assignment.piece_priority,
                },
            ).push(
                NativeCommand::SetPieceDeadline {
                    piece: assignment.piece_idx,
                    deadline_ms: assignment.deadline,
                },
            )
        } else {
            earlier
        }
    }
}

/// Lists the commands for the policy's assignments. `present` tells of each
/// assigned piece whether it is verified.
pub fn apply_hot_window(
    assignments: &Vec<PriorityAssignment>,
    present: &Vec<bool>,
    file: &FileInfo,
) -> (r: Vec<NativeCommand>)
    requires
        present@.len() == assignments@.len(),
    ensures
        r@ == seq![NativeCommand::SetSequentialDownload(false)] + assignment_commands(
            assignments@,
            present@,
            *file,
        ),
{
    let mut commands: Vec<NativeCommand> = Vec::new();
    commands.push(NativeCommand::SetSequentialDownload(false));
    let ghost first = seq![NativeCommand::SetSequentialDownload(false)];
    let mut i: usize = 0;
    assert(assignments@.take(0) =~= Seq::empty());
    assert(commands@ =~= first + assignment_commands(assignments@.take(0), present@, *file));
    while i < assignments.len()
        invariant
            i <= assignments@.len(),
            present@.len() == assignments@.len(),
            commands@ == first + assignment_commands(
                assignments@.take(i as int),
                present@,
                *file,
            ),
        decreases assignments@.len() - i,
    {
        let assignment: &PriorityAssignment = &assignments[i];
        assert(assignments@.take(i + 1).drop_last() =~= assignments@.take(i as int));
        if assignment.piece_idx >= file.first_piece && assignment.piece_idx <= file.last_piece
            && !present[i] {
            commands.push(
                NativeCommand::SetPiecePriority {
                    piece: assignment.piece_idx,
                    priority: assignment.piece_priority,
                },
            );
            commands.push(
                NativeCommand::SetPieceDeadline {
                    piece: assignment.piece_idx,
                    deadline_ms: assignment.deadline,
                },
            );
        }
        assert(commands@ =~= first + assignment_commands(
            assignments@.take(i + 1),
            present@,
            *file,
        ));
        i += 1;
    }
    assert(assignments@.take(i as int) =~= assignments@);
    commands
}

/// Whether a command speaks of a piece of the file, or of no piece.
pub open spec fn stays_in_file(command: NativeCommand, file: FileInfo) -> bool {
    match command {
        NativeCommand::SetPiecePriority { piece, .. } => file.spans(piece as int),
        NativeCommand::SetPieceDeadline { piece, .. } => file.spans(piece as int),
        _ => true,
    }
}

/// Whatever the policy assigns, pieces of other files are left alone.
pub proof fn law_hot_window_stays_in_file(
    assignments: Seq<PriorityAssignment>,
    present: Seq<bool>,
    file: FileInfo,
    i: int,
)
    requires
        0 <= i < assignment_commands(assignments, present, file).len(),
    ensures
        stays_in_file(assignment_commands(assignments, present, file)[i], file),
    decreases assignments.len(),
{
    if assignments.len() > 0 {
        let earlier = assignment_commands(assignments.drop_last(), present, file);
        if i < earlier.len() {
            law_hot_window_stays_in_file(assignments.drop_last(), present, file, i);
        }
    }
}

/// Playback never starts behind the end of its file, and a start inside the
/// file is kept.
pub proof fn law_start_is_in_file(file: FileInfo, start_offset: u64)
    requires
        file.offset >= 0,
        file.size >= 0,
    ensures
        file.offset <= start_position(file, start_offset) <= file.offset + file.size,
        start_offset <= file.size ==> start_position(file, start_offset) == file.offset
            + start_offset,
{
}

/// The policy is told of the file and the request as they are: what it is wanted
/// for, where it starts, where the file lies and how the swarm does. Readings
/// below zero count as none, and memory only where pieces are kept in it.
pub proof fn law_policy_is_told_the_truth(
    file: FileInfo,
    piece_length: u64,
    start: LibtorrentPlaybackStart,
    first_piece: i32,
    status: TorrentStatus,
    storage_mode: LibtorrentStorageMode,
    cache_size: u64,
    native_bytes: u64,
)
    requires
        cache_size * 80 <= u64::MAX,
    ensures
        ({
            let told = start_context(
                file,
                piece_length,
                start,
                first_piece,
                status,
                storage_mode,
                cache_size,
                native_bytes,
            );
            &&& told.intent == start.intent
            &&& told.current_piece == first_piece
            &&& told.first_piece == file.first_piece
            &&& told.last_piece == file.last_piece
            &&& told.piece_length == piece_length
            &&& file.size >= 0 ==> told.file_size == file.size
            &&& file.size < 0 ==> told.file_size == 0
            &&& told.bitrate_bytes_per_sec == start.bitrate_bytes_per_sec
            &&& status.download_rate >= 0 ==> told.download_rate_bytes_per_sec
                == status.download_rate
            &&& status.download_rate < 0 ==> told.download_rate_bytes_per_sec == 0
            &&& status.num_peers >= 0 ==> told.peers == status.num_peers
            &&& status.num_peers < 0 ==> told.peers == 0
            &&& told.cache_size_bytes == cache_size
            &&& told.consecutive_waits == 0
            &&& !told.first_byte_sent
            &&& storage_mode == LibtorrentStorageMode::MemoryOnly && cache_size > 0 && native_bytes
                >= cache_size ==> told.memory_pressure == MemoryPressure::High
            &&& storage_mode == LibtorrentStorageMode::MemoryOnly && native_bytes * 5 + 5
                <= cache_size * 4 ==> told.memory_pressure == MemoryPressure::Normal
            &&& storage_mode == LibtorrentStorageMode::DiskBacked && cache_size > 1
                ==> told.memory_pressure == MemoryPressure::Normal
        }),
{
}

/// Playback starts at the byte that was asked for, or at the end of the file
/// where that lies behind it. A file whose place is not known counts from the
/// start of the torrent.
pub proof fn law_start_is_where_it_was_asked_for(file: FileInfo, start_offset: u64)
    ensures
        file.offset >= 0 && start_offset <= file.size ==> start_position(file, start_offset)
            == file.offset + start_offset,
        file.offset >= 0 && 0 <= file.size < start_offset ==> start_position(file, start_offset)
            == file.offset + file.size,
        file.offset >= 0 && file.size < 0 ==> start_position(file, start_offset) == file.offset,
        file.offset < 0 && start_offset <= file.size ==> start_position(file, start_offset)
            == start_offset,
{
}

/// Every piece that the policy assigned is given its priority and its deadline
/// if it lies in the file and is missing, and nothing is asked for that the
/// policy did not assign.
pub proof fn law_assignments_are_carried_out(
    assignments: Seq<PriorityAssignment>,
    present: Seq<bool>,
    file: FileInfo,
    i: int,
    k: int,
)
    requires
        assignments.len() <= present.len(),
    ensures
        0 <= i < assignments.len() && file.first_piece <= assignments[i].piece_idx
            <= file.last_piece && !present[i] ==> {
            let commands = assignment_commands(assignments, present, file);
            &&& commands.contains(
                NativeCommand::SetPiecePriority {
                    piece: assignments[i].piece_idx,
                    priority: assignments[i].piece_priority,
                },
            )
            &&& commands.contains(
                NativeCommand::SetPieceDeadline {
                    piece: assignments[i].piece_idx,
                    deadline_ms: assignments[i].deadline,
                },
            )
        },
        0 <= k < assignment_commands(assignments, present, file).len() ==> exists|j: int|
            0 <= j < assignments.len() && !present[j] && carries_out(
                assignment_commands(assignments, present, file)[k],
                #[trigger] assignments[j],
            ),
    decreases assignments.len(),
{
    if assignments.len() > 0 {
        let last = assignments.len() - 1;
        let rest = assignments.drop_last();
        let earlier = assignment_commands(rest, present, file);
        let all = assignment_commands(assignments, present, file);
        law_assignments_are_carried_out(rest, present, file, i, k);
        if 0 <= i < assignments.len() && file.first_piece <= assignments[i].piece_idx
            <= file.last_piece && !present[i] {
            let priority = NativeCommand::SetPiecePriority {
                piece: assignments[i].piece_idx,
                priority: assignments[i].piece_priority,
            };
            let deadline = NativeCommand::SetPieceDeadline {
                piece: assignments[i].piece_idx,
                deadline_ms: assignments[i].deadline,
            };
            if i < last {
                assert(rest[i] == assignments[i]);
                let at = choose|at: int| 0 <= at < earlier.len() && earlier[at] == priority;
                let to = choose|to: int| 0 <= to < earlier.len() && earlier[to] == deadline;
                assert(all[at] == priority);
                assert(all[to] == deadline);
            } else {
                assert(all[all.len() - 2] == priority);
                assert(all[all.len() - 1] == deadline);
            }
        }
        if 0 <= k < all.len() {
            if k < earlier.len() {
                assert(all[k] == earlier[k]);
                let j = choose|j: int|
                    0 <= j < rest.len() && !present[j] && carries_out(
                        earlier[k],
                        #[trigger] rest[j],
                    );
                assert(assignments[j] == rest[j]);
            } else {
                assert(carries_out(all[k], assignments[last]));
            }
        }
    }
}

/// Whether a command gives the assigned piece its assigned priority or deadline.
pub open spec fn carries_out(command: NativeCommand, assignment: PriorityAssignment) -> bool {
    ||| command == (NativeCommand::SetPiecePriority {
        piece: assignment.piece_idx,
        priority: assignment.piece_priority,
    })
    ||| command == (NativeCommand::SetPieceDeadline {
        piece: assignment.piece_idx,
        deadline_ms: assignment.deadline,
    })
}

/// Playback starts with the piece that holds the byte that was asked for, or the
/// end of the file where that lies behind it. A file that the torrent does not
/// have, and pieces without a length, are named.
pub proof fn law_playback_starts_with_its_piece(
    layout: &TorrentLayout,
    start: &LibtorrentPlaybackStart,
    r: Result<i32, PlaybackError>,
)
    requires
        call_ensures(hot_window_start, (layout, start), r),
    ensures
        start.file_idx >= layout.files@.len() ==> r == Err::<i32, PlaybackError>(
            PlaybackError::FileIndexOutOfRange(start.file_idx),
        ),
        start.file_idx < layout.files@.len() && layout.piece_length == 0 ==> r == Err::<
            i32,
            PlaybackError,
        >(PlaybackError::ZeroPieceLength),
        start.file_idx < layout.files@.len() && layout.piece_length > 0 ==> r is Ok,
        r is Ok && layout.files@[start.file_idx as int].offset >= 0 && start.start_offset
            <= layout.files@[start.file_idx as int].size && layout.files@[start.file_idx as int].offset
            + start.start_offset < layout.piece_length * 0x8000_0000 ==> {
            let position = layout.files@[start.file_idx as int].offset + start.start_offset;
            r->Ok_0 * layout.piece_length <= position < (r->Ok_0 + 1) * layout.piece_length
        },
{
    if r is Ok && layout.files@[start.file_idx as int].offset >= 0 && start.start_offset
        <= layout.files@[start.file_idx as int].size && layout.files@[start.file_idx as int].offset
        + start.start_offset < layout.piece_length * 0x8000_0000 {
        law_piece_holds_its_position(
            layout.files@[start.file_idx as int].offset + start.start_offset,
            layout.piece_length as int,
        );
    }
}

/// What the policy assigned is carried out for the missing pieces of the file,
/// without sequential download.
pub proof fn law_hot_window_is_carried_out(
    assignments: &Vec<PriorityAssignment>,
    present: &Vec<bool>,
    file: &FileInfo,
    commands: Vec<NativeCommand>,
    i: int,
)
    requires
        call_ensures(apply_hot_window, (assignments, present, file), commands),
        0 <= i < assignments@.len() <= present@.len(),
        file.first_piece <= assignments@[i].piece_idx <= file.last_piece,
        !present@[i],
    ensures
        commands@[0] == NativeCommand::SetSequentialDownload(false),
        commands@.contains(
            NativeCommand::SetPiecePriority {
                piece: assignments@[i].piece_idx,
                priority: assignments@[i].piece_priority,
            },
        ),
        commands@.contains(
            NativeCommand::SetPieceDeadline {
                piece: assignments@[i].piece_idx,
                deadline_ms: assignments@[i].deadline,
            },
        ),
{
    let rest = assignment_commands(assignments@, present@, *file);
    let priority = NativeCommand::SetPiecePriority {
        piece: assignments@[i].piece_idx,
        priority: assignments@[i].piece_priority,
    };
    let deadline = NativeCommand::SetPieceDeadline {
        piece: assignments@[i].piece_idx,
        deadline_ms: assignments@[i].deadline,
    };
    law_assignments_are_carried_out(assignments@, present@, *file, i, 0);
    let at = choose|at: int| 0 <= at < rest.len() && rest[at] == priority;
    let to = choose|to: int| 0 <= to < rest.len() && rest[to] == deadline;
    assert(commands@[at + 1] == priority);
    assert(commands@[to + 1] == deadline);
}

/// The policy is told of the piece that playback starts with, of its file, and of
/// the network as it is.
pub proof fn law_policy_hears_of_the_start(
    file: &FileInfo,
    piece_length: u64,
    start: &LibtorrentPlaybackStart,
    first_piece: i32,
    status: &TorrentStatus,
    storage_mode: LibtorrentStorageMode,
    cache_size: u64,
    native_bytes: u64,
    r: PriorityContext,
)
    requires
        call_ensures(
            hot_window_context,
            (
                file,
                piece_length,
                start,
                first_piece,
                status,
                storage_mode,
                cache_size,
                native_bytes,
            ),
            r,
        ),
    ensures
        r.intent == start.intent,
        r.current_piece == first_piece,
        r.first_piece == file.first_piece && r.last_piece == file.last_piece,
        r.piece_length == piece_length,
        file.size >= 0 ==> r.file_size == file.size,
        r.bitrate_bytes_per_sec == start.bitrate_bytes_per_sec,
        status.download_rate >= 0 ==> r.download_rate_bytes_per_sec == status.download_rate,
        status.num_peers >= 0 ==> r.peers == status.num_peers,
        r.cache_size_bytes == cache_size,
        r.consecutive_waits == 0 && !r.first_byte_sent,
{
}

} // verus!
