//! Piece priorities and deadlines around the reading position.
//!
//! The whole window that playback needs next is urgent, with deadlines in
//! reading order. Pieces that hold container metadata (`Cues`, `moov`) may be
//! pinned: while some are still missing, the read-ahead of other streams backs
//! off, so that the few peers that hold them serve them first.

use crate::arith::{int_max, int_min, min_i32};
use crate::domain::{NativeCommand, PlaybackIntent};
use vstd::prelude::*;

verus! {

/// How far a cold start reads ahead before its first byte.
pub const INITIAL_FIRST_BYTE_WINDOW_PIECES: i32 = 3;

/// The native priority of a piece that has to come now.
pub const TOP_PRIORITY: i32 = 7;

/// How much later each further piece of a window is due, in milliseconds.
pub const DEADLINE_STEP_MS: i32 = 250;

/// The pieces ahead of the reading position that a stream asks for. Cold
/// starts only need a tiny head cluster before the first byte; seeks need the
/// full configured cluster, because players commonly pull several pieces right
/// after one.
pub open spec fn active_window(first_byte_read: bool, intent: PlaybackIntent, configured: int) -> int {
    if !first_byte_read && (intent == PlaybackIntent::DirectInitial || intent
        == PlaybackIntent::HlsInitial) {
        int_min(configured, INITIAL_FIRST_BYTE_WINDOW_PIECES as int)
    } else {
        configured
    }
}

/// Computes the pieces ahead of the reading position that a stream asks for.
pub fn active_forward_window(first_byte_read: bool, intent: PlaybackIntent, configured: i32) -> (r: i32)
    ensures
        r == active_window(first_byte_read, intent, configured as int),
{
    if first_byte_read {
        return configured;
    }
    match intent {
        PlaybackIntent::DirectInitial | PlaybackIntent::HlsInitial => min_i32(
            configured,
            INITIAL_FIRST_BYTE_WINDOW_PIECES,
        ),
        _ => configured,
    }
}

/// How many pieces a window holds that starts at `piece` and ends with the
/// file or `window` pieces later.
pub open spec fn window_len(piece: int, last_piece: int, window: int) -> int {
    int_max(0, int_min(last_piece, piece + window) - piece + 1)
}

/// How far a window reaches once its reader keeps waiting: twice as far, and
/// always further than before.
pub open spec fn widened(window: int) -> int {
    if window < 1 {
        1
    } else {
        2 * window
    }
}

fn count_until(piece: i32, last_piece: i32, reach: i64) -> (r: u64)
    ensures
        r == int_max(0, int_min(last_piece as int, reach as int) - piece + 1),
{
    let end: i64 = if reach < last_piece as i64 {
        reach
    } else {
        last_piece as i64
    };
    if end < piece as i64 {
        0
    } else {
        (end - piece as i64 + 1) as u64
    }
}

/// Counts the pieces of the window that starts at `piece`.
pub fn window_count(piece: i32, last_piece: i32, window: i32) -> (r: u64)
    ensures
        r == window_len(piece as int, last_piece as int, window as int),
{
    count_until(piece, last_piece, piece as i64 + window as i64)
}

/// Counts the pieces of the window that starts at `piece`, once it was widened.
pub fn widened_window_count(piece: i32, last_piece: i32, window: i32) -> (r: u64)
    ensures
        r == window_len(piece as int, last_piece as int, widened(window as int)),
{
    let ahead: i64 = if window < 1 {
        1
    } else {
        2 * window as i64
    };
    count_until(piece, last_piece, piece as i64 + ahead)
}

/// The pieces that are missing, where `present` tells of each piece from
/// `first` on whether it is there.
pub open spec fn absent(first: int, present: Seq<bool>) -> Seq<i32>
    decreases present.len(),
{
    if present.len() == 0 {
        Seq::empty()
    } else {
        let earlier = absent(first, present.drop_last());
        if present.last() {
            earlier
        } else {
            earlier.push((first + present.len() - 1) as i32)
        }
    }
}

/// A missing piece lies in the range that was looked at and is not there, and
/// the missing pieces are listed in order.
pub proof fn lemma_absent_members(first: int, present: Seq<bool>)
    requires
        i32::MIN <= first,
        first + present.len() <= i32::MAX + 1,
    ensures
        forall|i: int|
            0 <= i < absent(first, present).len() ==> {
                &&& first <= #[trigger] absent(first, present)[i] < first + present.len()
                &&& !present[absent(first, present)[i] - first]
            },
        forall|i: int, j: int|
            0 <= i < j < absent(first, present).len() ==> #[trigger] absent(first, present)[i]
                < #[trigger] absent(first, present)[j],
    decreases present.len(),
{
    if present.len() > 0 {
        let shorter = present.drop_last();
        let earlier = absent(first, shorter);
        let all = absent(first, present);
        lemma_absent_members(first, shorter);
        assert forall|i: int| 0 <= i < all.len() implies {
            &&& first <= #[trigger] all[i] < first + present.len()
            &&& !present[all[i] - first]
        } by {
            if i < earlier.len() {
                assert(all[i] == earlier[i]);
                assert(shorter[earlier[i] - first] == present[all[i] - first]);
            }
        }
        assert forall|i: int, j: int| 0 <= i < j < all.len() implies #[trigger] all[i]
            < #[trigger] all[j] by {
            assert(all[i] == earlier[i]);
            if j < earlier.len() {
                assert(all[j] == earlier[j]);
            }
        }
    }
}

/// No missing piece is forgotten: every piece that was looked at and is not
/// there is asked for.
pub proof fn law_missing_pieces_are_asked_for(first: int, present: Seq<bool>, i: int)
    requires
        i32::MIN <= first,
        first + present.len() <= i32::MAX + 1,
        0 <= i < present.len(),
        !present[i],
    ensures
        absent(first, present).contains((first + i) as i32),
    decreases present.len(),
{
    let earlier = absent(first, present.drop_last());
    if i < present.len() - 1 {
        law_missing_pieces_are_asked_for(first, present.drop_last(), i);
        let at = choose|k: int| 0 <= k < earlier.len() && earlier[k] == (first + i) as i32;
        assert(absent(first, present)[at] == (first + i) as i32);
    } else {
        assert(absent(first, present).last() == (first + i) as i32);
    }
}

/// Lists the missing pieces.
pub fn absent_pieces(first: i32, present: &Vec<bool>, count: usize) -> (r: Vec<i32>)
    requires
        count <= present@.len(),
        first + count <= i32::MAX + 1,
    ensures
        r@ == absent(first as int, present@.take(count as int)),
{
    let mut missing: Vec<i32> = Vec::new();
    let mut i: usize = 0;
    assert(present@.take(0) =~= Seq::empty());
    while i < count
        invariant
            i <= count <= present@.len(),
            first + count <= i32::MAX + 1,
            missing@ == absent(first as int, present@.take(i as int)),
        decreases count - i,
    {
        assert(present@.take(i + 1).drop_last() =~= present@.take(i as int));
        if !present[i] {
            missing.push((first as i64 + i as i64) as i32);
        }
        i += 1;
    }
    missing
}

/// When a piece of a window is due: the one that is read now at once, the
/// others in reading order.
pub open spec fn deadline_for(target: int, piece: int, jitter: int) -> int {
    if target == piece {
        0
    } else {
        (target - piece) * DEADLINE_STEP_MS + jitter
    }
}

/// How urgent a piece of a window is.
pub open spec fn priority_for(target: int, piece: int, ahead_priority: i32) -> i32 {
    if target == piece {
        TOP_PRIORITY
    } else {
        ahead_priority
    }
}

/// The commands that ask for each missing piece of the window at `piece`:
/// first its priority, then its deadline.
pub open spec fn window_commands(
    missing: Seq<i32>,
    piece: int,
    ahead_priority: i32,
    jitter: int,
) -> Seq<NativeCommand> {
    Seq::new(
        2 * missing.len(),
        |i: int|
            {
                let target = missing[i / 2];
                if i % 2 == 0 {
                    NativeCommand::SetPiecePriority {
                        piece: target,
                        priority: priority_for(target as int, piece, ahead_priority),
                    }
                } else {
                    NativeCommand::SetPieceDeadline {
                        piece: target,
                        deadline_ms: deadline_for(target as int, piece, jitter) as i32,
                    }
                }
            },
    )
}

/// Adds the commands that ask for each missing piece of the window at `piece`.
pub fn push_window(
    commands: &mut Vec<NativeCommand>,
    missing: &Vec<i32>,
    piece: i32,
    ahead_priority: i32,
    jitter: i32,
)
    requires
        0 <= jitter,
        forall|i: int|
            0 <= i < missing@.len() ==> piece <= #[trigger] missing@[i] && deadline_for(
                missing@[i] as int,
                piece as int,
                jitter as int,
            ) <= i32::MAX,
    ensures
        final(commands)@ == old(commands)@ + window_commands(
            missing@,
            piece as int,
            ahead_priority,
            jitter as int,
        ),
{
    let ghost before = commands@;
    let mut i: usize = 0;
    assert(commands@ =~= before + window_commands(
        missing@.take(0),
        piece as int,
        ahead_priority,
        jitter as int,
    ));
    while i < missing.len()
        invariant
            i <= missing@.len(),
            0 <= jitter,
            forall|i: int|
                0 <= i < missing@.len() ==> piece <= #[trigger] missing@[i] && deadline_for(
                    missing@[i] as int,
                    piece as int,
                    jitter as int,
                ) <= i32::MAX,
            commands@ == before + window_commands(
                missing@.take(i as int),
                piece as int,
                ahead_priority,
                jitter as int,
            ),
        decreases missing@.len() - i,
    {
        let target: i32 = missing[i];
        let distance: i64 = target as i64 - piece as i64;
        let priority: i32 = if distance == 0 {
            TOP_PRIORITY
        } else {
            ahead_priority
        };
        let deadline: i32 = if distance == 0 {
            0
        } else {
            (distance * 250 + jitter as i64) as i32
        };
        let ghost so_far = commands@;
        commands.push(NativeCommand::SetPiecePriority { piece: target, priority });
        commands.push(NativeCommand::SetPieceDeadline { piece: target, deadline_ms: deadline });
        proof {
            let shorter = window_commands(
                missing@.take(i as int),
                piece as int,
                ahead_priority,
                jitter as int,
            );
            let longer = window_commands(
                missing@.take(i + 1),
                piece as int,
                ahead_priority,
                jitter as int,
            );
            assert forall|k: int| 0 <= k < longer.len() implies commands@[before.len() + k]
                == #[trigger] longer[k] by {
                if k < shorter.len() {
                    assert(so_far[before.len() + k] == shorter[k]);
                    assert(missing@.take(i as int)[k / 2] == missing@.take(i + 1)[k / 2]);
                }
            }
            assert(commands@ =~= before + longer);
        }
        i += 1;
    }
    assert(missing@.take(i as int) =~= missing@);
}

/// The commands that make one piece come now.
pub open spec fn urgent_commands(piece: i32) -> Seq<NativeCommand> {
    seq![
        NativeCommand::SetPiecePriority { piece, priority: TOP_PRIORITY },
        NativeCommand::SetPieceDeadline { piece, deadline_ms: 0 },
    ]
}

/// Adds the commands that make one piece come now.
pub fn push_urgent(commands: &mut Vec<NativeCommand>, piece: i32)
    ensures
        final(commands)@ == old(commands)@ + urgent_commands(piece),
{
    let ghost before = commands@;
    commands.push(NativeCommand::SetPiecePriority { piece, priority: TOP_PRIORITY });
    commands.push(NativeCommand::SetPieceDeadline { piece, deadline_ms: 0 });
    assert(commands@ =~= before + urgent_commands(piece));
}

/// The commands that keep the missing pinned pieces of a file urgent.
pub open spec fn pinned_commands(pinned: Seq<i32>, first_piece: int, last_piece: int) -> Seq<
    NativeCommand,
>
    decreases pinned.len(),
{
    if pinned.len() == 0 {
        Seq::empty()
    } else {
        let earlier = pinned_commands(pinned.drop_last(), first_piece, last_piece);
        if first_piece <= pinned.last() <= last_piece {
            earlier + urgent_commands(pinned.last())
        } else {
            earlier
        }
    }
}

/// Adds the commands that keep the missing pinned pieces of a file urgent.
pub fn push_pinned(
    commands: &mut Vec<NativeCommand>,
    pinned: &Vec<i32>,
    first_piece: i32,
    last_piece: i32,
)
    ensures
        final(commands)@ == old(commands)@ + pinned_commands(
            pinned@,
            first_piece as int,
            last_piece as int,
        ),
{
    let ghost before = commands@;
    let mut i: usize = 0;
    assert(pinned@.take(0) =~= Seq::empty());
    assert(commands@ =~= before + pinned_commands(
        pinned@.take(0),
        first_piece as int,
        last_piece as int,
    ));
    while i < pinned.len()
        invariant
            i <= pinned@.len(),
            commands@ == before + pinned_commands(
                pinned@.take(i as int),
                first_piece as int,
                last_piece as int,
            ),
        decreases pinned@.len() - i,
    {
        let piece: i32 = pinned[i];
        let ghost so_far = commands@;
        assert(pinned@.take(i + 1).drop_last() =~= pinned@.take(i as int));
        if piece >= first_piece && piece <= last_piece {
            push_urgent(commands, piece);
        }
        assert(commands@ =~= before + pinned_commands(
            pinned@.take(i + 1),
            first_piece as int,
            last_piece as int,
        ));
        i += 1;
    }
    assert(pinned@.take(i as int) =~= pinned@);
}

/// The pinned pieces whose presence is `wanted`, in order.
pub open spec fn pins_with(pinned: Seq<i32>, present: Seq<bool>, wanted: bool) -> Seq<i32>
    decreases pinned.len(),
{
    if pinned.len() == 0 {
        Seq::empty()
    } else {
        let earlier = pins_with(pinned.drop_last(), present, wanted);
        if present[pinned.len() - 1] == wanted {
            earlier.push(pinned.last())
        } else {
            earlier
        }
    }
}

/// The pinned pieces of a torrent: those that arrived and need no pin any
/// more, and those that are still missing.
#[derive(Debug, Clone, PartialEq, Eq)]
pub struct PinnedPieces {
    pub verified: Vec<i32>,
    pub missing: Vec<i32>,
}

/// Splits the pinned pieces by presence, so that the set shrinks toward empty.
pub fn pinned_metadata_missing(pinned: &Vec<i32>, present: &Vec<bool>) -> (r: PinnedPieces)
    requires
        present@.len() == pinned@.len(),
    ensures
        r.verified@ == pins_with(pinned@, present@, true),
        r.missing@ == pins_with(pinned@, present@, false),
{
    let mut verified: Vec<i32> = Vec::new();
    let mut missing: Vec<i32> = Vec::new();
    let mut i: usize = 0;
    assert(pinned@.take(0) =~= Seq::empty());
    while i < pinned.len()
        invariant
            i <= pinned@.len(),
            present@.len() == pinned@.len(),
            verified@ == pins_with(pinned@.take(i as int), present@, true),
            missing@ == pins_with(pinned@.take(i as int), present@, false),
        decreases pinned@.len() - i,
    {
        assert(pinned@.take(i + 1).drop_last() =~= pinned@.take(i as int));
        if present[i] {
            verified.push(pinned[i]);
        } else {
            missing.push(pinned[i]);
        }
        i += 1;
    }
    assert(pinned@.take(i as int) =~= pinned@);
    PinnedPieces { verified, missing }
}

/// How urgent the read-ahead of a stream is. A head stream backs off while
/// pinned metadata is still missing; the metadata stream itself keeps full
/// priority.
pub open spec fn ahead_priority(intent: PlaybackIntent, metadata_pending: bool) -> i32 {
    match intent {
        PlaybackIntent::Background => 1,
        PlaybackIntent::InternalProbe => 2,
        PlaybackIntent::ContainerMetadata => TOP_PRIORITY,
        _ => if metadata_pending {
            4
        } else {
            TOP_PRIORITY
        },
    }
}

/// Computes how urgent the read-ahead of a stream is.
pub fn read_ahead_priority(intent: PlaybackIntent, metadata_pending: bool) -> (r: i32)
    ensures
        r == ahead_priority(intent, metadata_pending),
{
    match intent {
        PlaybackIntent::Background => 1,
        PlaybackIntent::InternalProbe => 2,
        PlaybackIntent::ContainerMetadata => TOP_PRIORITY,
        _ => if metadata_pending {
            4
        } else {
            TOP_PRIORITY
        },
    }
}

/// Whether a stream with this intent reads container metadata, so that its
/// window is pinned.
pub open spec fn is_metadata_intent(intent: PlaybackIntent) -> bool {
    intent == PlaybackIntent::ContainerMetadata || intent == PlaybackIntent::InternalProbe
}

/// Tells whether a stream with this intent reads container metadata.
pub fn reads_metadata(intent: PlaybackIntent) -> (r: bool)
    ensures
        r == is_metadata_intent(intent),
{
    match intent {
        PlaybackIntent::ContainerMetadata | PlaybackIntent::InternalProbe => true,
        _ => false,
    }
}

/// Deadlines follow the reading order: of two pieces of a window the nearer one
/// is due first.
pub proof fn law_deadlines_follow_reading_order(near: int, far: int, piece: int, jitter: int)
    requires
        piece <= near < far,
        0 <= jitter,
    ensures
        deadline_for(near, piece, jitter) < deadline_for(far, piece, jitter),
        0 <= deadline_for(near, piece, jitter),
{
}

/// A pin is either dropped or still missing, and never both: splitting keeps
/// every pinned piece exactly once.
pub proof fn law_pins_are_split(pinned: Seq<i32>, present: Seq<bool>)
    requires
        pinned.len() == present.len(),
    ensures
        pins_with(pinned, present, true).len() + pins_with(pinned, present, false).len()
            == pinned.len(),
        pins_with(pinned, present, true).to_multiset().add(
            pins_with(pinned, present, false).to_multiset(),
        ) =~= pinned.to_multiset(),
    decreases pinned.len(),
{
    broadcast use vstd::seq_lib::group_to_multiset_ensures;

    if pinned.len() > 0 {
        let rest = pinned.drop_last();
        lemma_pins_prefix(rest, present, present.drop_last());
        law_pins_are_split(rest, present.drop_last());
        assert(pinned =~= rest.push(pinned.last()));
    }
}

/// Only the presence of the pinned pieces themselves matters.
proof fn lemma_pins_prefix(pinned: Seq<i32>, present: Seq<bool>, shorter: Seq<bool>)
    requires
        pinned.len() <= shorter.len() <= present.len(),
        forall|i: int| 0 <= i < pinned.len() ==> present[i] == shorter[i],
    ensures
        pins_with(pinned, present, true) == pins_with(pinned, shorter, true),
        pins_with(pinned, present, false) == pins_with(pinned, shorter, false),
    decreases pinned.len(),
{
    if pinned.len() > 0 {
        lemma_pins_prefix(pinned.drop_last(), present, shorter);
    }
}

/// The window reaches as far as it was configured to, for every intent. Only a
/// cold start, before its first byte, reaches no further than three pieces.
pub proof fn law_window_reaches_as_configured(
    first_byte_read: bool,
    intent: PlaybackIntent,
    configured: int,
)
    ensures
        first_byte_read ==> active_window(first_byte_read, intent, configured) == configured,
        intent != PlaybackIntent::DirectInitial && intent != PlaybackIntent::HlsInitial
            ==> active_window(first_byte_read, intent, configured) == configured,
        configured <= 3 ==> active_window(first_byte_read, intent, configured) == configured,
        !first_byte_read && (intent == PlaybackIntent::DirectInitial || intent
            == PlaybackIntent::HlsInitial) && configured > 3 ==> active_window(
            first_byte_read,
            intent,
            configured,
        ) == 3,
{
}

/// A window holds exactly the pieces from its first one on that lie in the file
/// and no further ahead than it reaches.
pub proof fn law_window_holds_what_it_reaches(
    piece: int,
    last_piece: int,
    window: int,
    ahead: int,
)
    requires
        0 <= ahead,
    ensures
        ahead < window_len(piece, last_piece, window) <==> piece + ahead <= last_piece && ahead
            <= window,
        0 <= window_len(piece, last_piece, window),
{
}

/// A window that is widened reaches twice as far, and always further.
pub proof fn law_widened_window_reaches_twice_as_far(window: int)
    ensures
        widened(window) > window,
        widened(window) >= 1,
        window >= 1 ==> widened(window) == window + window,
{
}

/// The piece that is read now is due at once and at top priority. Each further
/// one is due a quarter of a second later than the one before it.
pub proof fn law_deadlines_step_by_a_quarter_second(
    piece: int,
    ahead: int,
    jitter: int,
    ahead_priority: i32,
)
    requires
        0 < ahead,
    ensures
        deadline_for(piece, piece, jitter) == 0,
        deadline_for(piece + ahead, piece, jitter) == ahead * 250 + jitter,
        priority_for(piece, piece, ahead_priority) == 7,
        priority_for(piece + ahead, piece, ahead_priority) == ahead_priority,
{
}

/// Read-ahead is as urgent as the piece itself, for everything that is played or
/// downloaded. It backs off while metadata that others wait for is missing, the
/// metadata itself does not, and probes and background reads always rank last.
pub proof fn law_read_ahead_backs_off_for_metadata(intent: PlaybackIntent, pending: bool)
    ensures
        intent == PlaybackIntent::Background ==> ahead_priority(intent, pending) == 1,
        intent == PlaybackIntent::InternalProbe ==> ahead_priority(intent, pending) == 2,
        intent == PlaybackIntent::ContainerMetadata ==> ahead_priority(intent, pending) == 7,
        intent != PlaybackIntent::Background && intent != PlaybackIntent::InternalProbe && !pending
            ==> ahead_priority(intent, pending) == 7,
        intent != PlaybackIntent::Background && intent != PlaybackIntent::InternalProbe && intent
            != PlaybackIntent::ContainerMetadata && pending ==> ahead_priority(intent, pending)
            == 4,
        is_metadata_intent(intent) <==> intent == PlaybackIntent::ContainerMetadata || intent
            == PlaybackIntent::InternalProbe,
{
}

/// A missing piece of a window is given its priority and its deadline, in this
/// order, and the pieces come in the order they are listed. An urgent piece gets
/// the top priority and is due at once.
pub proof fn law_each_missing_piece_gets_two_commands(
    missing: Seq<i32>,
    piece: int,
    ahead_priority: i32,
    jitter: int,
    i: int,
    urgent: i32,
)
    requires
        0 <= i < missing.len(),
    ensures
        window_commands(missing, piece, ahead_priority, jitter).len() == 2 * missing.len(),
        window_commands(missing, piece, ahead_priority, jitter)[2 * i] == (
        NativeCommand::SetPiecePriority {
            piece: missing[i],
            priority: if missing[i] == piece {
                7
            } else {
                ahead_priority
            },
        }),
        window_commands(missing, piece, ahead_priority, jitter)[2 * i + 1] == (
        NativeCommand::SetPieceDeadline {
            piece: missing[i],
            deadline_ms: if missing[i] == piece {
                0
            } else {
                ((missing[i] - piece) * 250 + jitter) as i32
            },
        }),
        urgent_commands(urgent).len() == 2,
        urgent_commands(urgent)[0] == (NativeCommand::SetPiecePriority {
            piece: urgent,
            priority: 7,
        }),
        urgent_commands(urgent)[1] == (NativeCommand::SetPieceDeadline {
            piece: urgent,
            deadline_ms: 0,
        }),
{
}

/// Whether a piece is pinned whose presence is `wanted`.
pub open spec fn is_pin_with(pinned: Seq<i32>, present: Seq<bool>, wanted: bool, piece: i32) -> bool {
    exists|j: int| 0 <= j < pinned.len() && present[j] == wanted && #[trigger] pinned[j] == piece
}

/// Splitting pins goes by presence: a pin is dropped where its piece arrived and
/// kept where it did not.
pub proof fn law_pins_are_split_by_presence(
    pinned: Seq<i32>,
    present: Seq<bool>,
    wanted: bool,
    piece: i32,
)
    requires
        pinned.len() <= present.len(),
    ensures
        pins_with(pinned, present, wanted).contains(piece) <==> is_pin_with(
            pinned,
            present,
            wanted,
            piece,
        ),
    decreases pinned.len(),
{
    if pinned.len() > 0 {
        let rest = pinned.drop_last();
        let last = pinned.len() - 1;
        let earlier = pins_with(rest, present, wanted);
        let all = pins_with(pinned, present, wanted);
        law_pins_are_split_by_presence(rest, present, wanted, piece);
        if all.contains(piece) {
            let at = choose|at: int| 0 <= at < all.len() && all[at] == piece;
            if at < earlier.len() {
                assert(earlier[at] == piece);
                let j = choose|j: int|
                    0 <= j < rest.len() && present[j] == wanted && #[trigger] rest[j] == piece;
                assert(pinned[j] == piece);
            } else {
                assert(pinned[last] == piece);
            }
        }
        if is_pin_with(pinned, present, wanted, piece) {
            let j = choose|j: int|
                0 <= j < pinned.len() && present[j] == wanted && #[trigger] pinned[j] == piece;
            if j < last {
                assert(rest[j] == piece);
                let at = choose|at: int| 0 <= at < earlier.len() && earlier[at] == piece;
                assert(all[at] == piece);
            } else {
                assert(all[all.len() - 1] == piece);
            }
        }
    }
}

/// The window that is computed is the configured one, but for a cold start, and
/// counting it counts the pieces that it reaches in the file.
pub proof fn law_computed_window_is_the_configured_one(
    first_byte_read: bool,
    intent: PlaybackIntent,
    configured: i32,
    window: i32,
    piece: i32,
    last_piece: i32,
    count: u64,
    wide: u64,
    ahead: u64,
)
    requires
        call_ensures(active_forward_window, (first_byte_read, intent, configured), window),
        call_ensures(window_count, (piece, last_piece, configured), count),
        call_ensures(widened_window_count, (piece, last_piece, configured), wide),
    ensures
        first_byte_read || (intent != PlaybackIntent::DirectInitial && intent
            != PlaybackIntent::HlsInitial) ==> window == configured,
        !first_byte_read && (intent == PlaybackIntent::DirectInitial || intent
            == PlaybackIntent::HlsInitial) ==> (configured <= 3 ==> window == configured) && (
        configured > 3 ==> window == 3),
        ahead < count <==> ahead <= configured && piece + ahead <= last_piece,
        configured >= 1 ==> (ahead < wide <==> ahead <= 2 * configured && piece + ahead
            <= last_piece),
        configured < 1 ==> (ahead < wide <==> ahead <= 1 && piece + ahead <= last_piece),
{
}

/// Pins are split by whether their piece is there; read-ahead backs off while
/// metadata is pending; and metadata is read by metadata readers and probes.
pub proof fn law_pins_and_intents_are_told_apart(
    pinned: &Vec<i32>,
    present: &Vec<bool>,
    r: PinnedPieces,
    piece: i32,
    intent: PlaybackIntent,
    pending: bool,
    priority: i32,
    metadata: bool,
)
    requires
        call_ensures(pinned_metadata_missing, (pinned, present), r),
        call_ensures(read_ahead_priority, (intent, pending), priority),
        call_ensures(reads_metadata, (intent,), metadata),
        pinned@.len() == present@.len(),
    ensures
        r.verified@.contains(piece) <==> is_pin_with(pinned@, present@, true, piece),
        r.missing@.contains(piece) <==> is_pin_with(pinned@, present@, false, piece),
        metadata <==> intent == PlaybackIntent::ContainerMetadata || intent
            == PlaybackIntent::InternalProbe,
        intent == PlaybackIntent::Background ==> priority == 1,
        intent == PlaybackIntent::InternalProbe ==> priority == 2,
        intent == PlaybackIntent::ContainerMetadata ==> priority == 7,
        intent != PlaybackIntent::Background && !metadata && pending ==> priority == 4,
        intent != PlaybackIntent::Background && !metadata && !pending ==> priority == 7,
{
    law_pins_are_split_by_presence(pinned@, present@, true, piece);
    law_pins_are_split_by_presence(pinned@, present@, false, piece);
}

} // verus!
