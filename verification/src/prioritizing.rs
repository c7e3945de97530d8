//! What a [`LibtorrentDiskFileStream`] asks of the native library while it
//! moves through its file or waits for a piece.
//!
//! `present` always tells, from the piece in question on, which pieces are
//! verified, and reaches as far as the window that is asked for. `pinned` lists
//! the pinned pieces that are still missing.

use crate::arith::int_max;
use crate::domain::{NativeCommand, PlaybackIntent};
use crate::playback::elapsed_since;
use crate::stream::{LibtorrentDiskFileStream, URGENT_REASSERT_INTERVAL};
use crate::window::{
    absent, absent_pieces, active_forward_window, active_window, ahead_priority, deadline_for,
    is_metadata_intent, law_missing_pieces_are_asked_for, lemma_absent_members, pinned_commands,
    priority_for, push_pinned, push_urgent, push_window, read_ahead_priority, reads_metadata,
    urgent_commands, widened, widened_window_count, window_commands, window_count, window_len,
    TOP_PRIORITY,
};
use vstd::prelude::*;

verus! {

/// What a reader in the background asks for a missing piece with.
pub open spec fn background_commands(piece: i32) -> Seq<NativeCommand> {
    seq![
        NativeCommand::SetPiecePriority { piece, priority: 4 },
        NativeCommand::SetPieceDeadline { piece, deadline_ms: 500 },
    ]
}

fn later_by(earlier: u64, now: u64, interval: u64) -> (r: bool)
    ensures
        r == (elapsed_since(earlier, now) >= interval),
{
    now.saturating_sub(earlier) >= interval
}

impl LibtorrentDiskFileStream {
    /// Whether the window has to be set up for `piece`: it belongs to the file
    /// and is not the one that the window was last set up for.
    pub open spec fn window_moves(self, piece: i32) -> bool {
        self.file.first_piece <= piece <= self.file.last_piece && self.last_prioritized_piece
            != piece
    }

    /// How many pieces the window at `piece` holds.
    pub open spec fn window_size(self, piece: i32, configured: i32) -> int {
        window_len(
            piece as int,
            self.file.last_piece as int,
            active_window(self.first_byte_read, self.intent_now(), configured as int),
        )
    }

    /// How much later the read-ahead of this reader is due than that of others.
    pub open spec fn jitter(self) -> int {
        (self.stream_id % 10) * 5
    }

    /// Whether the window can be asked for: its pieces were looked at, and its
    /// deadlines can be told to the native library.
    pub open spec fn window_fits(self, piece: i32, configured: i32, present: Seq<bool>) -> bool {
        &&& 1 <= present.len()
        &&& self.window_size(piece, configured) <= present.len()
        &&& deadline_for(
            piece + self.window_size(piece, configured) - 1,
            piece as int,
            self.jitter(),
        ) <= i32::MAX
    }

    /// The missing pieces of the window at `piece`.
    pub open spec fn window_missing(self, piece: i32, configured: i32, present: Seq<bool>) -> Seq<
        i32,
    > {
        absent(piece as int, present.take(self.window_size(piece, configured)))
    }

    /// How many pieces the window of a blocked reader at `piece` holds: as many
    /// as when it was set up, and more once the reader keeps waiting.
    pub open spec fn blocked_window(self, piece: i32, configured: i32) -> int {
        let ahead = active_window(self.first_byte_read, self.intent_now(), configured as int);
        window_len(
            piece as int,
            self.file.last_piece as int,
            if self.consecutive_waits > 1 {
                widened(ahead)
            } else {
                ahead
            },
        )
    }

    /// Whether the window of a blocked reader can be asked for.
    pub open spec fn blocked_fits(self, piece: i32, configured: i32, present: Seq<bool>) -> bool {
        &&& 1 <= present.len()
        &&& self.blocked_window(piece, configured) <= present.len()
        &&& deadline_for(
            piece + self.blocked_window(piece, configured) - 1,
            piece as int,
            0,
        ) <= i32::MAX
    }

    /// The missing pieces of the window of a blocked reader at `piece`.
    pub open spec fn blocked_missing(self, piece: i32, configured: i32, present: Seq<bool>) -> Seq<
        i32,
    > {
        absent(piece as int, present.take(self.blocked_window(piece, configured)))
    }

    /// The reader once it has to wait one more time.
    pub open spec fn counting_wait(self) -> Self {
        LibtorrentDiskFileStream {
            consecutive_waits: if self.consecutive_waits == u32::MAX {
                u32::MAX
            } else {
                (self.consecutive_waits + 1) as u32
            },
            ..self
        }
    }

    /// Whether a reader that waits for `piece` looks at it.
    pub open spec fn looks_at_piece(self, piece: i32, interval: u64, now: u64) -> bool {
        self.window_moves(piece) || (!self.in_background() && (self.reassert_due(now)
            || self.replan_due(interval, now)))
    }

    /// How many pieces from `piece` on a reader looks at that waits for it: the
    /// piece itself, and all of the windows that it asks for.
    pub open spec fn pieces_looked_at(
        self,
        piece: i32,
        configured: i32,
        interval: u64,
        now: u64,
    ) -> int {
        let itself: int = if self.looks_at_piece(piece, interval, now) {
            1
        } else {
            0
        };
        let window = if self.window_moves(piece) && !self.in_background() {
            self.window_size(piece, configured)
        } else {
            0
        };
        let blocked = if self.replan_due(interval, now) && !self.in_background() {
            self.counting_wait().blocked_window(piece, configured)
        } else {
            0
        };
        int_max(itself, int_max(window, blocked))
    }

    /// Whether the deadlines of all windows that a reader asks for that waits for
    /// `piece` can be told to the native library.
    pub open spec fn deadlines_in_reach(
        self,
        piece: i32,
        configured: i32,
        interval: u64,
        now: u64,
    ) -> bool {
        &&& self.window_moves(piece) && !self.in_background() ==> deadline_for(
            piece + self.window_size(piece, configured) - 1,
            piece as int,
            self.jitter(),
        ) <= i32::MAX
        &&& self.replan_due(interval, now) && !self.in_background() ==> deadline_for(
            piece + self.counting_wait().blocked_window(piece, configured) - 1,
            piece as int,
            0,
        ) <= i32::MAX
    }

    /// Whether the window can be set up at `piece`, where it has to be.
    pub open spec fn setup_fits(self, piece: i32, configured: i32, present: Seq<bool>) -> bool {
        self.window_moves(piece) ==> {
            &&& 1 <= present.len()
            &&& !self.in_background() ==> self.window_fits(piece, configured, present)
        }
    }

    /// Whether everything can be asked for that a reader asks for that waits for
    /// `piece`.
    pub open spec fn wait_fits(
        self,
        piece: i32,
        configured: i32,
        present: Seq<bool>,
        interval: u64,
        now: u64,
    ) -> bool {
        &&& self.setup_fits(piece, configured, present)
        &&& self.looks_at_piece(piece, interval, now) ==> 1 <= present.len()
        &&& self.replan_due(interval, now) && !self.in_background()
            ==> self.counting_wait().blocked_fits(piece, configured, present)
    }

    /// The commands that force the piece that a reader needs now.
    pub open spec fn reassert_commands(self, piece: i32, present: bool) -> Seq<NativeCommand> {
        if self.file.first_piece <= piece <= self.file.last_piece && !present {
            urgent_commands(piece)
        } else {
            seq![]
        }
    }

    /// The reader after that.
    pub open spec fn reasserted(self, piece: i32, present: bool, now: u64) -> Self {
        if self.file.first_piece <= piece <= self.file.last_piece && !present {
            LibtorrentDiskFileStream {
                last_urgent_reassert: now,
                urgent_reassert_count: if self.urgent_reassert_count == u32::MAX {
                    u32::MAX
                } else {
                    (self.urgent_reassert_count + 1) as u32
                },
                ..self
            }
        } else {
            self
        }
    }

    /// The commands that set the window up at `piece`. The pinned pieces come
    /// last, so that nothing before them takes their urgency away.
    pub open spec fn prioritize_commands(
        self,
        piece: i32,
        configured: i32,
        present: Seq<bool>,
        pinned: Seq<i32>,
    ) -> Seq<NativeCommand> {
        if !self.window_moves(piece) {
            seq![]
        } else if self.in_background() {
            if present[0] {
                seq![]
            } else {
                background_commands(piece)
            }
        } else {
            seq![NativeCommand::SetSequentialDownload(false)] + window_commands(
                self.window_missing(piece, configured, present),
                piece as int,
                ahead_priority(self.intent_now(), pinned.len() > 0),
                self.jitter(),
            ) + self.reassert_commands(piece, present[0]) + pinned_commands(
                pinned,
                self.file.first_piece as int,
                self.file.last_piece as int,
            )
        }
    }

    /// The reader after that.
    pub open spec fn prioritized(self, piece: i32, present: bool, now: u64) -> Self {
        let moved = LibtorrentDiskFileStream { last_prioritized_piece: piece, ..self };
        if !self.window_moves(piece) {
            self
        } else if self.in_background() {
            moved
        } else {
            moved.reasserted(piece, present, now)
        }
    }

    /// Whether a reader that is blocked may ask for its window again.
    pub open spec fn replan_due(self, interval: u64, now: u64) -> bool {
        elapsed_since(self.last_blocked_replan, now) >= interval
    }

    /// The commands that a blocked reader asks for its window with, which is wider
    /// than before once it keeps waiting.
    pub open spec fn escalate_commands(
        self,
        piece: i32,
        configured: i32,
        present: Seq<bool>,
        pinned: Seq<i32>,
        interval: u64,
        now: u64,
    ) -> Seq<NativeCommand> {
        if !self.replan_due(interval, now) {
            seq![]
        } else {
            window_commands(
                self.blocked_missing(piece, configured, present),
                piece as int,
                TOP_PRIORITY,
                0,
            ) + self.reassert_commands(piece, present[0]) + pinned_commands(
                pinned,
                self.file.first_piece as int,
                self.file.last_piece as int,
            )
        }
    }

    /// The reader after that.
    pub open spec fn escalated(self, piece: i32, present: bool, interval: u64, now: u64) -> Self {
        if !self.replan_due(interval, now) {
            self
        } else {
            (LibtorrentDiskFileStream { last_blocked_replan: now, ..self }).reasserted(
                piece,
                present,
                now,
            )
        }
    }

    /// Whether a waiting reader forces its piece again.
    pub open spec fn reassert_due(self, now: u64) -> bool {
        elapsed_since(self.last_urgent_reassert, now) >= URGENT_REASSERT_INTERVAL
    }

    /// The commands of a reader that has to wait for `piece`, and the reader
    /// after them.
    pub open spec fn waiting(
        self,
        piece: i32,
        configured: i32,
        present: Seq<bool>,
        pinned: Seq<i32>,
        interval: u64,
        now: u64,
    ) -> (Self, Seq<NativeCommand>) {
        let counted = self.counting_wait();
        let moved = counted.prioritized(piece, present[0], now);
        let setup = counted.prioritize_commands(piece, configured, present, pinned);
        if self.in_background() {
            (moved, setup)
        } else {
            let forced = if moved.reassert_due(now) {
                moved.reasserted(piece, present[0], now)
            } else {
                moved
            };
            let again = if moved.reassert_due(now) {
                moved.reassert_commands(piece, present[0])
            } else {
                seq![]
            };
            (
                forced.escalated(piece, present[0], interval, now),
                setup + again + forced.escalate_commands(
                    piece,
                    configured,
                    present,
                    pinned,
                    interval,
                    now,
                ),
            )
        }
    }

    /// Whether setting up or replanning the window at `piece` looks at the
    /// pinned pieces.
    pub fn looks_at_pins(&self, piece: i32, interval: u64, now: u64) -> (r: bool)
        ensures
            r == (!self.in_background() && (self.window_moves(piece) || self.replan_due(
                interval,
                now,
            ))),
    {
        if self.is_background_reader() {
            return false;
        }
        self.moves_window(piece) || later_by(self.last_blocked_replan, now, interval)
    }

    fn moves_window(&self, piece: i32) -> (r: bool)
        ensures
            r == self.window_moves(piece),
    {
        piece >= self.file.first_piece && piece <= self.file.last_piece
            && self.last_prioritized_piece != piece
    }

    fn window_pieces(&self, piece: i32, configured: i32) -> (r: u64)
        ensures
            r == self.window_size(piece, configured),
    {
        let window: i32 = active_forward_window(
            self.first_byte_read,
            self.priority_intent(),
            configured,
        );
        window_count(piece, self.file.last_piece, window)
    }

    fn blocked_pieces(&self, piece: i32, configured: i32, keeps_waiting: bool) -> (r: u64)
        ensures
            keeps_waiting == (self.consecutive_waits > 1) ==> r == self.blocked_window(
                piece,
                configured,
            ),
            keeps_waiting == (self.counting_wait().consecutive_waits > 1) ==> r
                == self.counting_wait().blocked_window(piece, configured),
    {
        let window: i32 = active_forward_window(
            self.first_byte_read,
            self.priority_intent(),
            configured,
        );
        if keeps_waiting {
            widened_window_count(piece, self.file.last_piece, window)
        } else {
            window_count(piece, self.file.last_piece, window)
        }
    }

    /// Counts the pieces from `piece` on that have to be looked at before a
    /// reader waits for it: the piece itself, and all of the windows that the
    /// reader then asks for. A reader that only sets its window up is one whose
    /// `interval` never ends.
    pub fn pieces_to_inspect(&self, piece: i32, configured: i32, interval: u64, now: u64) -> (r:
        u64)
        ensures
            r == self.pieces_looked_at(piece, configured, interval, now),
    {
        let moves: bool = self.moves_window(piece);
        if self.is_background_reader() {
            return if moves {
                1
            } else {
                0
            };
        }
        let replan: bool = later_by(self.last_blocked_replan, now, interval);
        let forced: bool = later_by(self.last_urgent_reassert, now, URGENT_REASSERT_INTERVAL);
        let mut count: u64 = if moves || forced || replan {
            1
        } else {
            0
        };
        if moves {
            let window: u64 = self.window_pieces(piece, configured);
            if window > count {
                count = window;
            }
        }
        if replan {
            let blocked: u64 = self.blocked_pieces(piece, configured, self.consecutive_waits > 0);
            if blocked > count {
                count = blocked;
            }
        }
        count
    }

    /// Whether the deadlines of the windows that a reader asks for that waits for
    /// `piece` can be told to the native library.
    pub fn deadlines_fit(&self, piece: i32, configured: i32, interval: u64, now: u64) -> (r: bool)
        ensures
            r == self.deadlines_in_reach(piece, configured, interval, now),
    {
        if self.is_background_reader() {
            return true;
        }
        if self.moves_window(piece) {
            let window: u64 = self.window_pieces(piece, configured);
            let jitter: i64 = (self.stream_id % 10) as i64 * 5;
            if window > 1 && (window as i64 - 1) * 250 + jitter > i32::MAX as i64 {
                return false;
            }
        }
        if later_by(self.last_blocked_replan, now, interval) {
            let blocked: u64 = self.blocked_pieces(piece, configured, self.consecutive_waits > 0);
            if blocked > 1 && (blocked as i64 - 1) * 250 > i32::MAX as i64 {
                return false;
            }
        }
        true
    }

    /// The pieces to pin before the window is set up at `piece`. A stream that
    /// reads container metadata pins what its window still misses, so that the
    /// read-ahead of other streams ranks below it until it is verified.
    pub fn pieces_to_pin(&self, piece: i32, configured: i32, present: &Vec<bool>) -> (r: Option<
        Vec<i32>,
    >)
        requires
            self.window_moves(piece) && !self.in_background() && is_metadata_intent(
                self.intent_now(),
            ) ==> self.window_size(piece, configured) <= present@.len(),
        ensures
            match r {
                Some(pieces) => self.window_moves(piece) && !self.in_background()
                    && is_metadata_intent(self.intent_now()) && pieces@ == self.window_missing(
                    piece,
                    configured,
                    present@,
                ),
                None => !(self.window_moves(piece) && !self.in_background() && is_metadata_intent(
                    self.intent_now(),
                )),
            },
    {
        if !self.moves_window(piece) || self.is_background_reader() || !reads_metadata(
            self.priority_intent(),
        ) {
            return None;
        }
        Some(Self::missing_ahead(piece, self.window_pieces(piece, configured), present))
    }

    fn missing_ahead(piece: i32, count: u64, present: &Vec<bool>) -> (r: Vec<i32>)
        requires
            count <= present@.len(),
            piece + count <= i32::MAX + 1,
        ensures
            r@ == absent(piece as int, present@.take(count as int)),
            forall|i: int| 0 <= i < r@.len() ==> piece <= #[trigger] r@[i] < piece + count,
    {
        let missing: Vec<i32> = absent_pieces(piece, present, count as usize);
        assert(count <= present.len());
        proof {
            lemma_absent_members(piece as int, present@.take(count as int));
        }
        missing
    }

    /// Forces the piece that the reader needs now, unless it is verified.
    pub fn reassert_requested_piece(&mut self, piece: i32, present: bool, now: u64) -> (r: Vec<
        NativeCommand,
    >)
        ensures
            r@ == old(self).reassert_commands(piece, present),
            *final(self) == old(self).reasserted(piece, present, now),
    {
        let mut commands: Vec<NativeCommand> = Vec::new();
        if piece < self.file.first_piece || piece > self.file.last_piece || present {
            return commands;
        }
        push_urgent(&mut commands, piece);
        self.last_urgent_reassert = now;
        self.urgent_reassert_count = self.urgent_reassert_count.saturating_add(1);
        commands
    }

    /// Sets the window up at `piece`, once.
    pub fn prioritize_from(
        &mut self,
        piece: i32,
        configured: i32,
        present: &Vec<bool>,
        pinned: &Vec<i32>,
        now: u64,
    ) -> (r: Vec<NativeCommand>)
        requires
            old(self).setup_fits(piece, configured, present@),
        ensures
            r@ == old(self).prioritize_commands(piece, configured, present@, pinned@),
            *final(self) == old(self).prioritized(piece, present@[0], now),
    {
        let mut commands: Vec<NativeCommand> = Vec::new();
        if !self.moves_window(piece) {
            return commands;
        }
        self.last_prioritized_piece = piece;
        if self.is_background_reader() {
            if !present[0] {
                commands.push(NativeCommand::SetPiecePriority { piece, priority: 4 });
                commands.push(NativeCommand::SetPieceDeadline { piece, deadline_ms: 500 });
            }
            return commands;
        }
        commands.push(NativeCommand::SetSequentialDownload(false));
        let count: u64 = self.window_pieces(piece, configured);
        let missing: Vec<i32> = Self::missing_ahead(piece, count, present);
        let ahead: i32 = read_ahead_priority(self.priority_intent(), pinned.len() > 0);
        let jitter: i32 = (self.stream_id % 10) as i32 * 5;
        push_window(&mut commands, &missing, piece, ahead, jitter);
        let mut urgent: Vec<NativeCommand> = self.reassert_requested_piece(piece, present[0], now);
        commands.append(&mut urgent);
        push_pinned(&mut commands, pinned, self.file.first_piece, self.file.last_piece);
        commands
    }

    /// Asks for the window of a blocked reader again, once per `interval`, and
    /// for a wider one when the reader keeps waiting. The window is otherwise set
    /// up once per piece, so a choked swarm could stall the reader for good.
    pub fn escalate_blocked_piece(
        &mut self,
        piece: i32,
        configured: i32,
        present: &Vec<bool>,
        pinned: &Vec<i32>,
        interval: u64,
        now: u64,
    ) -> (r: Vec<NativeCommand>)
        requires
            old(self).replan_due(interval, now) ==> old(self).blocked_fits(
                piece,
                configured,
                present@,
            ),
        ensures
            r@ == old(self).escalate_commands(piece, configured, present@, pinned@, interval, now),
            *final(self) == old(self).escalated(piece, present@[0], interval, now),
    {
        let mut commands: Vec<NativeCommand> = Vec::new();
        if !later_by(self.last_blocked_replan, now, interval) {
            return commands;
        }
        self.last_blocked_replan = now;
        let count: u64 = self.blocked_pieces(piece, configured, self.consecutive_waits > 1);
        let missing: Vec<i32> = Self::missing_ahead(piece, count, present);
        push_window(&mut commands, &missing, piece, TOP_PRIORITY, 0);
        let mut urgent: Vec<NativeCommand> = self.reassert_requested_piece(piece, present[0], now);
        commands.append(&mut urgent);
        push_pinned(&mut commands, pinned, self.file.first_piece, self.file.last_piece);
        commands
    }

    /// What a reader does that has to wait for `piece`: set its window up, force
    /// the piece every few seconds, and replan when it stays blocked. A reader
    /// in the background only does the first.
    pub fn wait_for_piece(
        &mut self,
        piece: i32,
        configured: i32,
        present: &Vec<bool>,
        pinned: &Vec<i32>,
        interval: u64,
        now: u64,
    ) -> (r: Vec<NativeCommand>)
        requires
            old(self).wait_fits(piece, configured, present@, interval, now),
        ensures
            (*final(self), r@) == old(self).waiting(
                piece,
                configured,
                present@,
                pinned@,
                interval,
                now,
            ),
    {
        self.consecutive_waits = self.consecutive_waits.saturating_add(1);
        let mut commands: Vec<NativeCommand> = self.prioritize_from(
            piece,
            configured,
            present,
            pinned,
            now,
        );
        if !self.is_background_reader() {
            if later_by(self.last_urgent_reassert, now, URGENT_REASSERT_INTERVAL) {
                let mut urgent: Vec<NativeCommand> = self.reassert_requested_piece(
                    piece,
                    present[0],
                    now,
                );
                commands.append(&mut urgent);
            }
            let mut replan: Vec<NativeCommand> = self.escalate_blocked_piece(
                piece,
                configured,
                present,
                pinned,
                interval,
                now,
            );
            commands.append(&mut replan);
        }
        commands
    }
}

/// The priority that a piece has after the commands were carried out, if they
/// set it at all.
pub open spec fn priority_set(commands: Seq<NativeCommand>, piece: i32) -> Option<i32>
    decreases commands.len(),
{
    if commands.len() == 0 {
        None
    } else {
        match commands.last() {
            NativeCommand::SetPiecePriority { piece: target, priority } if target == piece => Some(
                priority,
            ),
            _ => priority_set(commands.drop_last(), piece),
        }
    }
}

/// The deadline that a piece has after the commands were carried out, if they
/// set it at all.
pub open spec fn deadline_set(commands: Seq<NativeCommand>, piece: i32) -> Option<i32>
    decreases commands.len(),
{
    if commands.len() == 0 {
        None
    } else {
        match commands.last() {
            NativeCommand::SetPieceDeadline { piece: target, deadline_ms } if target
                == piece => Some(deadline_ms),
            _ => deadline_set(commands.drop_last(), piece),
        }
    }
}

/// Whether the commands leave a piece at top priority and due at once.
pub open spec fn made_urgent(commands: Seq<NativeCommand>, piece: i32) -> bool {
    priority_set(commands, piece) == Some(TOP_PRIORITY) && deadline_set(commands, piece) == Some(
        0i32,
    )
}

/// Later commands win over earlier ones.
proof fn lemma_later_commands_win(
    earlier: Seq<NativeCommand>,
    later: Seq<NativeCommand>,
    piece: i32,
)
    ensures
        priority_set(earlier + later, piece) == (if priority_set(later, piece) is Some {
            priority_set(later, piece)
        } else {
            priority_set(earlier, piece)
        }),
        deadline_set(earlier + later, piece) == (if deadline_set(later, piece) is Some {
            deadline_set(later, piece)
        } else {
            deadline_set(earlier, piece)
        }),
    decreases later.len(),
{
    if later.len() == 0 {
        assert(earlier + later =~= earlier);
    } else {
        lemma_later_commands_win(earlier, later.drop_last(), piece);
        assert((earlier + later).drop_last() =~= earlier + later.drop_last());
    }
}

proof fn lemma_urgent_commands(piece: i32, target: i32)
    ensures
        made_urgent(urgent_commands(piece), piece),
        target != piece ==> priority_set(urgent_commands(piece), target) is None && deadline_set(
            urgent_commands(piece),
            target,
        ) is None,
{
    let commands = urgent_commands(piece);
    assert(commands.drop_last() =~= seq![commands[0]]);
    assert(commands.drop_last().drop_last() =~= Seq::<NativeCommand>::empty());
    reveal_with_fuel(priority_set, 3);
    reveal_with_fuel(deadline_set, 3);
}

/// Commands for pinned pieces make a piece urgent or leave it alone.
proof fn lemma_pinned_commands(pinned: Seq<i32>, first: int, last: int, piece: i32)
    ensures
        ({
            let commands = pinned_commands(pinned, first, last);
            if pinned.contains(piece) && first <= piece <= last {
                made_urgent(commands, piece)
            } else {
                priority_set(commands, piece) is None && deadline_set(commands, piece) is None
            }
        }),
    decreases pinned.len(),
{
    if pinned.len() > 0 {
        let shorter = pinned.drop_last();
        lemma_pinned_commands(shorter, first, last, piece);
        lemma_later_commands_win(
            pinned_commands(shorter, first, last),
            urgent_commands(pinned.last()),
            piece,
        );
        lemma_urgent_commands(pinned.last(), piece);
        if pinned.contains(piece) {
            let at = choose|i: int| 0 <= i < pinned.len() && pinned[i] == piece;
            if at < shorter.len() {
                assert(shorter[at] == piece);
            }
        }
        if shorter.contains(piece) {
            let at = choose|i: int| 0 <= i < shorter.len() && shorter[i] == piece;
            assert(pinned[at] == piece);
        }
        assert(pinned[pinned.len() - 1] == pinned.last());
    }
}

/// Commands for a window set every missing piece of it, each to its own values.
proof fn lemma_window_commands(
    missing: Seq<i32>,
    piece: int,
    ahead: i32,
    jitter: int,
    i: int,
)
    requires
        0 <= i < missing.len(),
        forall|a: int, b: int| 0 <= a < b < missing.len() ==> missing[a] < missing[b],
    ensures
        priority_set(window_commands(missing, piece, ahead, jitter), missing[i]) == Some(
            priority_for(missing[i] as int, piece, ahead),
        ),
        deadline_set(window_commands(missing, piece, ahead, jitter), missing[i]) == Some(
            deadline_for(missing[i] as int, piece, jitter) as i32,
        ),
    decreases missing.len(),
{
    let shorter = missing.drop_last();
    let last = missing.last();
    let set_priority = NativeCommand::SetPiecePriority {
        piece: last,
        priority: priority_for(last as int, piece, ahead),
    };
    let set_deadline = NativeCommand::SetPieceDeadline {
        piece: last,
        deadline_ms: deadline_for(last as int, piece, jitter) as i32,
    };
    let pair = seq![set_priority, set_deadline];
    assert(window_commands(missing, piece, ahead, jitter) =~= window_commands(
        shorter,
        piece,
        ahead,
        jitter,
    ) + pair);
    lemma_later_commands_win(window_commands(shorter, piece, ahead, jitter), pair, missing[i]);
    assert(pair.drop_last() =~= seq![set_priority]);
    assert(pair.drop_last().drop_last() =~= Seq::<NativeCommand>::empty());
    reveal_with_fuel(priority_set, 3);
    reveal_with_fuel(deadline_set, 3);
    if i < shorter.len() {
        assert(missing[i] == shorter[i]);
        assert forall|a: int, b: int| 0 <= a < b < shorter.len() implies shorter[a] < shorter[b] by {
            assert(missing[a] < missing[b]);
        }
        lemma_window_commands(shorter, piece, ahead, jitter, i);
    }
}

/// When the window of a playing reader is set up, every missing piece of it is
/// asked for: the read-ahead at the priority of its intent, each piece due in
/// its turn. With no metadata pending that is top priority for the complete
/// window of whatever is played.
pub proof fn law_window_is_asked_for(
    reader: LibtorrentDiskFileStream,
    piece: i32,
    configured: i32,
    present: Seq<bool>,
    pinned: Seq<i32>,
    i: int,
)
    requires
        reader.window_moves(piece),
        !reader.in_background(),
        reader.window_size(piece, configured) <= present.len(),
        0 <= i < reader.window_missing(piece, configured, present).len(),
        reader.window_missing(piece, configured, present)[i] != piece,
        !pinned.contains(reader.window_missing(piece, configured, present)[i]),
    ensures
        ({
            let target = reader.window_missing(piece, configured, present)[i];
            let commands = reader.prioritize_commands(piece, configured, present, pinned);
            &&& priority_set(commands, target) == Some(
                ahead_priority(reader.intent_now(), pinned.len() > 0),
            )
            &&& deadline_set(commands, target) == Some(
                deadline_for(target as int, piece as int, reader.jitter()) as i32,
            )
        }),
        !(reader.intent_now() is Background) && !(reader.intent_now() is InternalProbe)
            ==> ahead_priority(reader.intent_now(), false) == TOP_PRIORITY,
{
    let missing = reader.window_missing(piece, configured, present);
    let target = missing[i];
    let ahead = ahead_priority(reader.intent_now(), pinned.len() > 0);
    let start = seq![NativeCommand::SetSequentialDownload(false)];
    let window = window_commands(missing, piece as int, ahead, reader.jitter());
    let forced = reader.reassert_commands(piece, present[0]);
    let first = reader.file.first_piece as int;
    let last = reader.file.last_piece as int;
    lemma_absent_members(piece as int, present.take(reader.window_size(piece, configured)));
    lemma_window_commands(missing, piece as int, ahead, reader.jitter(), i);
    lemma_later_commands_win(start, window, target);
    lemma_later_commands_win(start + window, forced, target);
    lemma_pinned_commands(pinned, first, last, target);
    lemma_later_commands_win(start + window + forced, pinned_commands(pinned, first, last), target);
    lemma_urgent_commands(piece, target);
    assert(priority_set(seq![], target) is None);
}

/// When the window of a playing reader is set up, the piece that it needs now
/// and every missing pinned piece of the file end up at top priority and due at
/// once, whatever else the window asks for.
pub proof fn law_needed_pieces_are_urgent(
    reader: LibtorrentDiskFileStream,
    piece: i32,
    configured: i32,
    present: Seq<bool>,
    pinned: Seq<i32>,
    target: i32,
)
    requires
        reader.window_moves(piece),
        !reader.in_background(),
        (target == piece && !present[0]) || (pinned.contains(target) && reader.file.first_piece
            <= target <= reader.file.last_piece),
    ensures
        made_urgent(reader.prioritize_commands(piece, configured, present, pinned), target),
{
    let window = seq![NativeCommand::SetSequentialDownload(false)] + window_commands(
        reader.window_missing(piece, configured, present),
        piece as int,
        ahead_priority(reader.intent_now(), pinned.len() > 0),
        reader.jitter(),
    );
    let forced = reader.reassert_commands(piece, present[0]);
    let first = reader.file.first_piece as int;
    let last = reader.file.last_piece as int;
    lemma_pinned_commands(pinned, first, last, target);
    lemma_later_commands_win(window, forced, target);
    lemma_later_commands_win(window + forced, pinned_commands(pinned, first, last), target);
    lemma_urgent_commands(piece, target);
}

/// A window never leaves its file, and never goes back behind the piece it was
/// set up for.
pub proof fn law_window_stays_in_file(
    reader: LibtorrentDiskFileStream,
    piece: i32,
    configured: i32,
    present: Seq<bool>,
    i: int,
)
    requires
        reader.file.first_piece <= piece <= reader.file.last_piece,
        reader.window_size(piece, configured) <= present.len(),
        0 <= i < reader.window_missing(piece, configured, present).len(),
    ensures
        piece <= reader.window_missing(piece, configured, present)[i] <= reader.file.last_piece,
{
    let size = reader.window_size(piece, configured);
    lemma_absent_members(piece as int, present.take(size));
}

/// A reader that stays blocked gets its piece forced again: once the replan
/// interval has passed, waiting leaves the missing piece at top priority and
/// due at once, also where its window was set up long ago.
pub proof fn law_blocked_reader_asks_again(
    reader: LibtorrentDiskFileStream,
    piece: i32,
    configured: i32,
    present: Seq<bool>,
    pinned: Seq<i32>,
    interval: u64,
    now: u64,
)
    requires
        reader.file.first_piece <= piece <= reader.file.last_piece,
        !reader.in_background(),
        !present[0],
        reader.replan_due(interval, now),
    ensures
        made_urgent(reader.waiting(piece, configured, present, pinned, interval, now).1, piece),
{
    let all = reader.waiting(piece, configured, present, pinned, interval, now).1;
    let window = window_commands(
        reader.counting_wait().blocked_missing(piece, configured, present),
        piece as int,
        TOP_PRIORITY,
        0,
    );
    let first = reader.file.first_piece as int;
    let last = reader.file.last_piece as int;
    let tail = pinned_commands(pinned, first, last);
    lemma_urgent_commands(piece, piece);
    lemma_pinned_commands(pinned, first, last, piece);
    lemma_later_commands_win(window, urgent_commands(piece), piece);
    lemma_later_commands_win(window + urgent_commands(piece), tail, piece);
    let replan = window + urgent_commands(piece) + tail;
    let before = all.take(all.len() - replan.len());
    assert(all =~= before + replan);
    lemma_later_commands_win(before, replan, piece);
}

/// The window of a reader that keeps waiting reaches further than the one that
/// was set up, unless that one already reached the end of the file. Before, it
/// reaches as far, and never less.
pub proof fn law_blocked_window_widens(
    reader: LibtorrentDiskFileStream,
    piece: i32,
    configured: i32,
)
    ensures
        reader.consecutive_waits > 1 ==> reader.blocked_window(piece, configured)
            > reader.window_size(piece, configured) || piece + reader.window_size(piece, configured)
            - 1 >= reader.file.last_piece,
        reader.consecutive_waits <= 1 ==> reader.blocked_window(piece, configured)
            == reader.window_size(piece, configured),
        reader.blocked_window(piece, configured) >= reader.window_size(piece, configured),
{
}

/// A reader that stays blocked asks for the whole of its window: once the replan
/// interval has passed, waiting leaves each missing piece further ahead at top
/// priority and due in its turn.
pub proof fn law_blocked_window_is_asked_for(
    reader: LibtorrentDiskFileStream,
    piece: i32,
    configured: i32,
    present: Seq<bool>,
    pinned: Seq<i32>,
    interval: u64,
    now: u64,
    ahead: int,
)
    requires
        !reader.in_background(),
        reader.replan_due(interval, now),
        reader.counting_wait().blocked_window(piece, configured) <= present.len(),
        0 < ahead < reader.counting_wait().blocked_window(piece, configured),
        !present[ahead],
        !pinned.contains((piece + ahead) as i32),
    ensures
        ({
            let commands = reader.waiting(piece, configured, present, pinned, interval, now).1;
            let target = (piece + ahead) as i32;
            &&& priority_set(commands, target) == Some(TOP_PRIORITY)
            &&& deadline_set(commands, target) == Some(
                deadline_for(target as int, piece as int, 0) as i32,
            )
        }),
{
    let all = reader.waiting(piece, configured, present, pinned, interval, now).1;
    let target = (piece + ahead) as i32;
    let blocked = reader.counting_wait();
    let looked_at = present.take(blocked.blocked_window(piece, configured));
    let missing = blocked.blocked_missing(piece, configured, present);
    law_missing_pieces_are_asked_for(piece as int, looked_at, ahead);
    lemma_absent_members(piece as int, looked_at);
    let i = choose|i: int| 0 <= i < missing.len() && missing[i] == target;
    let window = window_commands(missing, piece as int, TOP_PRIORITY, 0);
    let forced = reader.reassert_commands(piece, present[0]);
    let first = reader.file.first_piece as int;
    let last = reader.file.last_piece as int;
    let tail = pinned_commands(pinned, first, last);
    lemma_window_commands(missing, piece as int, TOP_PRIORITY, 0, i);
    lemma_urgent_commands(piece, target);
    assert(priority_set(seq![], target) is None);
    lemma_pinned_commands(pinned, first, last, target);
    lemma_later_commands_win(window, forced, target);
    lemma_later_commands_win(window + forced, tail, target);
    let replan = window + forced + tail;
    let before = all.take(all.len() - replan.len());
    assert(all =~= before + replan);
    lemma_later_commands_win(before, replan, target);
}

/// Looking as far as [`LibtorrentDiskFileStream::pieces_to_inspect`] says, and
/// not beyond the deadlines that can be told, is enough to set the window up and
/// to wait.
pub proof fn law_inspection_suffices(
    reader: LibtorrentDiskFileStream,
    piece: i32,
    configured: i32,
    present: Seq<bool>,
    interval: u64,
    now: u64,
)
    requires
        reader.pieces_looked_at(piece, configured, interval, now) <= present.len(),
        reader.deadlines_in_reach(piece, configured, interval, now),
    ensures
        reader.setup_fits(piece, configured, present),
        reader.wait_fits(piece, configured, present, interval, now),
{
}

/// The window is set up once per piece, and replanned once per interval.
pub proof fn law_window_is_set_once(
    reader: LibtorrentDiskFileStream,
    piece: i32,
    present: bool,
    interval: u64,
    now: u64,
    later: u64,
)
    requires
        reader.file.first_piece <= piece <= reader.file.last_piece,
    ensures
        !reader.prioritized(piece, present, now).window_moves(piece),
        reader.replan_due(interval, now) && now <= later && later - now < interval
            ==> !reader.escalated(piece, present, interval, now).replan_due(interval, later),
{
}

/// A reader in the background never competes with playback: all it asks for is
/// the piece it needs, at middle priority.
pub proof fn law_background_reader_yields(
    reader: LibtorrentDiskFileStream,
    piece: i32,
    configured: i32,
    present: Seq<bool>,
    pinned: Seq<i32>,
    interval: u64,
    now: u64,
    target: i32,
)
    requires
        reader.in_background(),
    ensures
        ({
            let commands = reader.waiting(piece, configured, present, pinned, interval, now).1;
            &&& target != piece ==> priority_set(commands, target) is None
            &&& priority_set(commands, piece) is Some ==> priority_set(commands, piece) == Some(4i32)
        }),
{
    let commands = background_commands(piece);
    assert(commands.drop_last() =~= seq![commands[0]]);
    assert(commands.drop_last().drop_last() =~= Seq::<NativeCommand>::empty());
    reveal_with_fuel(priority_set, 3);
}

/// Commands for a window leave every piece alone that is not missing from it.
proof fn lemma_window_commands_skip(
    missing: Seq<i32>,
    piece: int,
    ahead: i32,
    jitter: int,
    target: i32,
)
    requires
        !missing.contains(target),
    ensures
        priority_set(window_commands(missing, piece, ahead, jitter), target) is None,
        deadline_set(window_commands(missing, piece, ahead, jitter), target) is None,
    decreases missing.len(),
{
    let commands = window_commands(missing, piece, ahead, jitter);
    if missing.len() > 0 {
        let shorter = missing.drop_last();
        let last = missing.last();
        assert(missing[missing.len() - 1] == last);
        assert(!shorter.contains(target)) by {
            if shorter.contains(target) {
                let at = choose|at: int| 0 <= at < shorter.len() && shorter[at] == target;
                assert(missing[at] == target);
            }
        }
        let pair = seq![
            NativeCommand::SetPiecePriority {
                piece: last,
                priority: priority_for(last as int, piece, ahead),
            },
            NativeCommand::SetPieceDeadline {
                piece: last,
                deadline_ms: deadline_for(last as int, piece, jitter) as i32,
            },
        ];
        assert(commands =~= window_commands(shorter, piece, ahead, jitter) + pair);
        lemma_window_commands_skip(shorter, piece, ahead, jitter, target);
        lemma_later_commands_win(window_commands(shorter, piece, ahead, jitter), pair, target);
        assert(pair.drop_last() =~= seq![pair[0]]);
        assert(pair.drop_last().drop_last() =~= Seq::<NativeCommand>::empty());
        reveal_with_fuel(priority_set, 3);
        reveal_with_fuel(deadline_set, 3);
    }
}

/// Whether a reader plays: it leads its generation, and neither probes nor reads
/// in the background.
pub open spec fn is_playing(reader: LibtorrentDiskFileStream) -> bool {
    &&& !reader.subordinate
    &&& reader.playback_intent != PlaybackIntent::InternalProbe
    &&& reader.playback_intent != PlaybackIntent::Background
}

/// Whether a reader starts cold: nothing of a playback from the start was read
/// yet.
pub open spec fn starts_cold(reader: LibtorrentDiskFileStream) -> bool {
    !reader.first_byte_read && (reader.playback_intent == PlaybackIntent::DirectInitial
        || reader.playback_intent == PlaybackIntent::HlsInitial)
}

/// Setting the window up asks for every missing piece from the reading position
/// to as far ahead as configured, or three pieces for a cold start, and to the end
/// of the file at most. The piece itself and pinned pieces come at once; the
/// others are due a quarter of a second after one another, at top priority unless
/// metadata is pending.
pub proof fn law_setup_asks_for_the_configured_window(
    reader: LibtorrentDiskFileStream,
    piece: i32,
    configured: i32,
    present: Seq<bool>,
    pinned: Seq<i32>,
    ahead: int,
)
    requires
        is_playing(reader),
        reader.file.first_piece <= piece <= reader.file.last_piece,
        reader.last_prioritized_piece != piece,
        present.len() > configured || present.len() > reader.file.last_piece - piece,
        0 <= ahead <= configured,
        piece + ahead <= reader.file.last_piece,
        starts_cold(reader) ==> ahead <= 3,
        !present[ahead],
    ensures
        ({
            let commands = reader.prioritize_commands(piece, configured, present, pinned);
            let target = (piece + ahead) as i32;
            let intent = if reader.first_byte_read {
                reader.sequential_intent
            } else {
                reader.playback_intent
            };
            let far = ahead > 0 && !pinned.contains(target);
            &&& commands[0] == NativeCommand::SetSequentialDownload(false)
            &&& priority_set(commands, target) is Some
            &&& deadline_set(commands, target) is Some
            &&& !far ==> priority_set(commands, target) == Some(7i32) && deadline_set(
                commands,
                target,
            ) == Some(0i32)
            &&& far ==> deadline_set(commands, target) == Some(
                (ahead * 250 + (reader.stream_id % 10) * 5) as i32,
            )
            &&& far && pinned.len() == 0 && intent != PlaybackIntent::InternalProbe && intent
                != PlaybackIntent::Background ==> priority_set(commands, target) == Some(7i32)
            &&& far && intent == PlaybackIntent::ContainerMetadata ==> priority_set(
                commands,
                target,
            ) == Some(7i32)
            &&& far && pinned.len() > 0 && intent != PlaybackIntent::InternalProbe && intent
                != PlaybackIntent::Background && intent != PlaybackIntent::ContainerMetadata
                ==> priority_set(commands, target) == Some(4i32)
        }),
{
    let target = (piece + ahead) as i32;
    let size = reader.window_size(piece, configured);
    let looked_at = present.take(size);
    let missing = reader.window_missing(piece, configured, present);
    assert(ahead < size <= present.len());
    assert(!looked_at[ahead]);
    law_missing_pieces_are_asked_for(piece as int, looked_at, ahead);
    let i = choose|i: int| 0 <= i < missing.len() && missing[i] == target;
    if target == piece || pinned.contains(target) {
        law_needed_pieces_are_urgent(reader, piece, configured, present, pinned, target);
    } else {
        law_window_is_asked_for(reader, piece, configured, present, pinned, i);
    }
}

/// Setting the window up asks for nothing else: a piece that is there, or lies
/// outside the file, behind the reading position or further ahead than the window
/// reaches, is left alone, unless it is pinned.
pub proof fn law_setup_asks_for_nothing_else(
    reader: LibtorrentDiskFileStream,
    piece: i32,
    configured: i32,
    present: Seq<bool>,
    pinned: Seq<i32>,
    target: i32,
)
    requires
        is_playing(reader),
        reader.file.first_piece <= piece <= reader.file.last_piece,
        reader.last_prioritized_piece != piece,
        present.len() > configured || present.len() > reader.file.last_piece - piece,
        target != piece || present[0],
        target < piece || target > reader.file.last_piece || target - piece > configured || (
        starts_cold(reader) && target - piece > 3) || present[target - piece],
        !pinned.contains(target) || target < reader.file.first_piece || target
            > reader.file.last_piece,
    ensures
        priority_set(
            reader.prioritize_commands(piece, configured, present, pinned),
            target,
        ) is None,
        deadline_set(
            reader.prioritize_commands(piece, configured, present, pinned),
            target,
        ) is None,
{
    let size = reader.window_size(piece, configured);
    let looked_at = present.take(size);
    let missing = reader.window_missing(piece, configured, present);
    let ahead = ahead_priority(reader.intent_now(), pinned.len() > 0);
    let start = seq![NativeCommand::SetSequentialDownload(false)];
    let window = window_commands(missing, piece as int, ahead, reader.jitter());
    let forced = reader.reassert_commands(piece, present[0]);
    let first = reader.file.first_piece as int;
    let last = reader.file.last_piece as int;
    lemma_absent_members(piece as int, looked_at);
    assert(!missing.contains(target)) by {
        if missing.contains(target) {
            let at = choose|at: int| 0 <= at < missing.len() && missing[at] == target;
            assert(piece <= missing[at] < piece + size);
            assert(!looked_at[missing[at] - piece]);
            assert(looked_at[target - piece] == present[target - piece]);
        }
    }
    lemma_window_commands_skip(missing, piece as int, ahead, reader.jitter(), target);
    assert(start.drop_last() =~= Seq::<NativeCommand>::empty());
    assert(priority_set(start, target) is None && deadline_set(start, target) is None) by {
        reveal_with_fuel(priority_set, 2);
        reveal_with_fuel(deadline_set, 2);
    }
    lemma_later_commands_win(start, window, target);
    lemma_later_commands_win(start + window, forced, target);
    lemma_pinned_commands(pinned, first, last, target);
    lemma_later_commands_win(start + window + forced, pinned_commands(pinned, first, last), target);
    lemma_urgent_commands(piece, target);
    assert(priority_set(seq![], target) is None);
}

/// The window is set up where the reader comes to another piece of its file, and
/// only there. That piece is then the one it was set up for, and where it is
/// missing it counts as forced now.
pub proof fn law_window_follows_the_reader(
    reader: LibtorrentDiskFileStream,
    piece: i32,
    configured: i32,
    present: Seq<bool>,
    pinned: Seq<i32>,
    now: u64,
)
    ensures
        ({
            let inside = reader.file.first_piece <= piece <= reader.file.last_piece;
            let moves = inside && reader.last_prioritized_piece != piece;
            let after = reader.prioritized(piece, present[0], now);
            &&& reader.window_moves(piece) <==> moves
            &&& !moves ==> after == reader && reader.prioritize_commands(
                piece,
                configured,
                present,
                pinned,
            ).len() == 0
            &&& moves ==> after.last_prioritized_piece == piece
            &&& moves && is_playing(reader) && !present[0] ==> after.last_urgent_reassert == now
            &&& moves && is_playing(reader) && !present[0] && reader.urgent_reassert_count
                < u32::MAX ==> after.urgent_reassert_count == reader.urgent_reassert_count + 1
            &&& !is_playing(reader) || present[0] ==> after.last_urgent_reassert
                == reader.last_urgent_reassert && after.urgent_reassert_count
                == reader.urgent_reassert_count
            &&& after == (LibtorrentDiskFileStream {
                last_prioritized_piece: after.last_prioritized_piece,
                last_urgent_reassert: after.last_urgent_reassert,
                urgent_reassert_count: after.urgent_reassert_count,
                ..reader
            })
        }),
{
}

/// Forcing a piece concerns pieces of the file that are missing, and makes them
/// come at once.
pub proof fn law_missing_piece_is_forced(
    reader: LibtorrentDiskFileStream,
    piece: i32,
    present: bool,
    now: u64,
)
    ensures
        ({
            let forced = reader.file.first_piece <= piece <= reader.file.last_piece && !present;
            let commands = reader.reassert_commands(piece, present);
            let after = reader.reasserted(piece, present, now);
            &&& !forced ==> commands.len() == 0 && after == reader
            &&& forced ==> {
                &&& commands.len() == 2
                &&& commands[0] == (NativeCommand::SetPiecePriority { piece, priority: 7 })
                &&& commands[1] == (NativeCommand::SetPieceDeadline { piece, deadline_ms: 0 })
                &&& after.last_urgent_reassert == now
                &&& reader.urgent_reassert_count < u32::MAX ==> after.urgent_reassert_count
                    == reader.urgent_reassert_count + 1
            }
        }),
{
}

/// A reader in the background asks for the one piece it needs where that is
/// missing, at middle priority and within half a second, and for nothing else.
pub proof fn law_background_reader_asks_for_one_piece(
    reader: LibtorrentDiskFileStream,
    piece: i32,
    configured: i32,
    present: Seq<bool>,
    pinned: Seq<i32>,
    interval: u64,
    now: u64,
)
    requires
        !is_playing(reader),
    ensures
        ({
            let commands = reader.waiting(piece, configured, present, pinned, interval, now).1;
            let asks = reader.file.first_piece <= piece <= reader.file.last_piece
                && reader.last_prioritized_piece != piece && !present[0];
            &&& !asks ==> commands.len() == 0
            &&& asks ==> {
                &&& commands.len() == 2
                &&& commands[0] == (NativeCommand::SetPiecePriority { piece, priority: 4 })
                &&& commands[1] == (NativeCommand::SetPieceDeadline { piece, deadline_ms: 500 })
            }
        }),
{
}

/// A reader that stays blocked asks again once the interval has passed, at its
/// first wait as far ahead as configured and from the second on twice as far:
/// each missing piece up to there, and to the end of the file at most, is then at
/// top priority and due a quarter of a second after the one before it.
pub proof fn law_blocked_reader_asks_twice_as_far(
    reader: LibtorrentDiskFileStream,
    piece: i32,
    configured: i32,
    present: Seq<bool>,
    pinned: Seq<i32>,
    interval: u64,
    now: u64,
    ahead: int,
)
    requires
        is_playing(reader),
        !starts_cold(reader),
        reader.file.first_piece <= piece <= reader.file.last_piece,
        now >= reader.last_blocked_replan + interval,
        1 <= configured,
        present.len() > configured + configured || present.len() > reader.file.last_piece - piece,
        0 < ahead,
        piece + ahead <= reader.file.last_piece,
        ahead <= configured || (reader.consecutive_waits >= 1 && ahead <= configured + configured),
        !present[ahead],
        !pinned.contains((piece + ahead) as i32),
    ensures
        ({
            let commands = reader.waiting(piece, configured, present, pinned, interval, now).1;
            let target = (piece + ahead) as i32;
            &&& priority_set(commands, target) == Some(7i32)
            &&& deadline_set(commands, target) == Some((ahead * 250) as i32)
        }),
{
    law_blocked_window_is_asked_for(
        reader,
        piece,
        configured,
        present,
        pinned,
        interval,
        now,
        ahead,
    );
}

/// A blocked window holds as many pieces as configured ahead of the first one,
/// and once the reader keeps waiting twice as many, as far as the file goes.
pub proof fn law_blocked_window_holds_twice_as_much(
    reader: LibtorrentDiskFileStream,
    piece: i32,
    configured: i32,
    ahead: int,
)
    requires
        !starts_cold(reader),
        1 <= configured,
        0 <= ahead,
    ensures
        reader.consecutive_waits <= 1 ==> (ahead < reader.blocked_window(piece, configured) <==> ahead
            <= configured && piece + ahead <= reader.file.last_piece),
        reader.consecutive_waits > 1 ==> (ahead < reader.blocked_window(piece, configured) <==> ahead
            <= configured + configured && piece + ahead <= reader.file.last_piece),
{
}

/// A reader that waits on counts its waits, forces its missing piece every eight
/// seconds and replans once per interval. In between it asks for nothing.
pub proof fn law_waiting_reader_asks_in_intervals(
    reader: LibtorrentDiskFileStream,
    piece: i32,
    configured: i32,
    present: Seq<bool>,
    pinned: Seq<i32>,
    interval: u64,
    now: u64,
)
    requires
        is_playing(reader),
        reader.file.first_piece <= piece <= reader.file.last_piece,
        reader.last_prioritized_piece == piece,
        !present[0],
        reader.last_blocked_replan <= now,
        reader.last_urgent_reassert <= now,
    ensures
        ({
            let (after, commands) = reader.waiting(
                piece,
                configured,
                present,
                pinned,
                interval,
                now,
            );
            let forces = now - reader.last_urgent_reassert >= 8_000_000_000;
            let replans = now - reader.last_blocked_replan >= interval;
            &&& reader.consecutive_waits < u32::MAX ==> after.consecutive_waits
                == reader.consecutive_waits + 1
            &&& !forces && !replans ==> commands.len() == 0
            &&& forces && !replans ==> {
                &&& commands.len() == 2
                &&& commands[0] == (NativeCommand::SetPiecePriority { piece, priority: 7 })
                &&& commands[1] == (NativeCommand::SetPieceDeadline { piece, deadline_ms: 0 })
            }
            &&& replans ==> after.last_blocked_replan == now && commands.len() > 0
            &&& !replans ==> after.last_blocked_replan == reader.last_blocked_replan
            &&& forces || replans ==> after.last_urgent_reassert == now
            &&& !forces && !replans ==> after.last_urgent_reassert == reader.last_urgent_reassert
            &&& after.current_pos == reader.current_pos
            &&& after.last_prioritized_piece == piece
        }),
{
    if now - reader.last_blocked_replan >= interval {
        law_blocked_reader_asks_again(
            reader,
            piece,
            configured,
            present,
            pinned,
            interval,
            now,
        );
    }
}

/// When the window of a playing reader is set up, the native library is told of
/// every missing piece from the reading position to as far ahead as configured,
/// three pieces for a cold start, and to the end of the file at most.
pub proof fn law_prioritizing_covers_the_window(
    piece: i32,
    configured: i32,
    present: &Vec<bool>,
    pinned: &Vec<i32>,
    now: u64,
    ahead: int,
)
    requires
        0 <= ahead <= configured,
        ahead < present@.len(),
        !present@[ahead],
    ensures
        forall|reader: &mut LibtorrentDiskFileStream, commands: Vec<NativeCommand>| #[trigger]
            call_ensures(
                LibtorrentDiskFileStream::prioritize_from,
                (reader, piece, configured, present, pinned, now),
                commands,
            ) && is_playing(*reader) && (*reader).file.first_piece <= piece && piece + ahead
                <= (*reader).file.last_piece && (*reader).last_prioritized_piece != piece && (
            starts_cold(*reader) ==> ahead <= 3) && (present@.len() > configured || present@.len()
                > (*reader).file.last_piece - piece) ==> {
                let target = (piece + ahead) as i32;
                &&& priority_set(commands@, target) is Some
                &&& deadline_set(commands@, target) is Some
                &&& ahead == 0 ==> priority_set(commands@, target) == Some(7i32) && deadline_set(
                    commands@,
                    target,
                ) == Some(0i32)
                &&& ahead > 0 && !pinned@.contains(target) ==> deadline_set(commands@, target)
                    == Some((ahead * 250 + ((*reader).stream_id % 10) * 5) as i32)
                &&& (*final(reader)).last_prioritized_piece == piece
            },
{
    assert forall|reader: &mut LibtorrentDiskFileStream, commands: Vec<NativeCommand>| #[trigger]
        call_ensures(
            LibtorrentDiskFileStream::prioritize_from,
            (reader, piece, configured, present, pinned, now),
            commands,
        ) && is_playing(*reader) && (*reader).file.first_piece <= piece && piece + ahead
            <= (*reader).file.last_piece && (*reader).last_prioritized_piece != piece && (
        starts_cold(*reader) ==> ahead <= 3) && (present@.len() > configured || present@.len()
            > (*reader).file.last_piece - piece) implies {
        let target = (piece + ahead) as i32;
        &&& priority_set(commands@, target) is Some
        &&& deadline_set(commands@, target) is Some
        &&& ahead == 0 ==> priority_set(commands@, target) == Some(7i32) && deadline_set(
            commands@,
            target,
        ) == Some(0i32)
        &&& ahead > 0 && !pinned@.contains(target) ==> deadline_set(commands@, target) == Some(
            (ahead * 250 + ((*reader).stream_id % 10) * 5) as i32,
        )
        &&& (*final(reader)).last_prioritized_piece == piece
    } by {
        law_setup_asks_for_the_configured_window(
            *reader,
            piece,
            configured,
            present@,
            pinned@,
            ahead,
        );
        law_window_follows_the_reader(*reader, piece, configured, present@, pinned@, now);
    }
}

/// A playing reader that keeps waiting for a missing piece has it forced again
/// once the replan interval has passed, and every missing piece up to twice as far
/// ahead as configured asked for.
pub proof fn law_waiting_reader_recovers(
    piece: i32,
    configured: i32,
    present: &Vec<bool>,
    pinned: &Vec<i32>,
    interval: u64,
    now: u64,
    ahead: int,
)
    requires
        1 <= configured,
        0 < ahead <= configured + configured,
        ahead < present@.len(),
        !present@[0],
        !present@[ahead],
        !pinned@.contains((piece + ahead) as i32),
    ensures
        forall|reader: &mut LibtorrentDiskFileStream, commands: Vec<NativeCommand>| #[trigger]
            call_ensures(
                LibtorrentDiskFileStream::wait_for_piece,
                (reader, piece, configured, present, pinned, interval, now),
                commands,
            ) && is_playing(*reader) && !starts_cold(*reader) && (*reader).consecutive_waits >= 1
                && (*reader).file.first_piece <= piece && piece + ahead
                <= (*reader).file.last_piece && now >= (*reader).last_blocked_replan + interval && (
            present@.len() > configured + configured || present@.len() > (*reader).file.last_piece
                - piece) ==> {
                let target = (piece + ahead) as i32;
                &&& made_urgent(commands@, piece)
                &&& priority_set(commands@, target) == Some(7i32)
                &&& deadline_set(commands@, target) == Some((ahead * 250) as i32)
                &&& (*final(reader)).last_blocked_replan == now
            },
{
    assert forall|reader: &mut LibtorrentDiskFileStream, commands: Vec<NativeCommand>| #[trigger]
        call_ensures(
            LibtorrentDiskFileStream::wait_for_piece,
            (reader, piece, configured, present, pinned, interval, now),
            commands,
        ) && is_playing(*reader) && !starts_cold(*reader) && (*reader).consecutive_waits >= 1
            && (*reader).file.first_piece <= piece && piece + ahead <= (*reader).file.last_piece
            && now >= (*reader).last_blocked_replan + interval && (present@.len() > configured
            + configured || present@.len() > (*reader).file.last_piece - piece) implies {
        let target = (piece + ahead) as i32;
        &&& made_urgent(commands@, piece)
        &&& priority_set(commands@, target) == Some(7i32)
        &&& deadline_set(commands@, target) == Some((ahead * 250) as i32)
        &&& (*final(reader)).last_blocked_replan == now
    } by {
        law_blocked_reader_asks_again(
            *reader,
            piece,
            configured,
            present@,
            pinned@,
            interval,
            now,
        );
        law_blocked_reader_asks_twice_as_far(
            *reader,
            piece,
            configured,
            present@,
            pinned@,
            interval,
            now,
            ahead,
        );
    }
}

/// A playing reader of container metadata pins what its window misses, and nobody
/// else pins anything.
pub proof fn law_metadata_reader_pins_its_window(
    reader: &LibtorrentDiskFileStream,
    piece: i32,
    configured: i32,
    present: &Vec<bool>,
    r: Option<Vec<i32>>,
    ahead: int,
)
    requires
        call_ensures(
            LibtorrentDiskFileStream::pieces_to_pin,
            (reader, piece, configured, present),
            r,
        ),
    ensures
        ({
            let intent = if reader.first_byte_read {
                reader.sequential_intent
            } else {
                reader.playback_intent
            };
            r is Some <==> is_playing(*reader) && reader.file.first_piece <= piece
                <= reader.file.last_piece && reader.last_prioritized_piece != piece && (intent
                == PlaybackIntent::ContainerMetadata || intent == PlaybackIntent::InternalProbe)
        }),
        r is Some && 0 <= ahead <= configured && piece + ahead <= reader.file.last_piece && (
        present@.len() > configured || present@.len() > reader.file.last_piece - piece)
            && !present@[ahead] ==> (r->0)@.contains((piece + ahead) as i32),
{
    if r is Some && 0 <= ahead <= configured && piece + ahead <= reader.file.last_piece && (
    present@.len() > configured || present@.len() > reader.file.last_piece - piece)
        && !present@[ahead] {
        let looked_at = present@.take(reader.window_size(piece, configured));
        assert(!looked_at[ahead]);
        law_missing_pieces_are_asked_for(piece as int, looked_at, ahead);
    }
}

/// A missing piece of the file is forced with top priority and at once, and
/// counted; any other piece is left.
pub proof fn law_requested_piece_is_forced(
    piece: i32,
    present: bool,
    now: u64,
    r: Vec<NativeCommand>,
)
    ensures
        forall|reader: &mut LibtorrentDiskFileStream| #[trigger]
            call_ensures(
                LibtorrentDiskFileStream::reassert_requested_piece,
                (reader, piece, present, now),
                r,
            ) ==> {
                let before = *reader;
                let after = *final(reader);
                let forced = before.file.first_piece <= piece <= before.file.last_piece && !present;
                &&& forced ==> r@.len() == 2 && r@[0] == (NativeCommand::SetPiecePriority {
                    piece,
                    priority: 7,
                }) && r@[1] == (NativeCommand::SetPieceDeadline { piece, deadline_ms: 0 })
                &&& forced ==> after.last_urgent_reassert == now
                &&& forced && before.urgent_reassert_count < u32::MAX
                    ==> after.urgent_reassert_count == before.urgent_reassert_count + 1
                &&& !forced ==> r@.len() == 0 && after == before
                &&& after.current_pos == before.current_pos
            },
{
}

/// Pinned pieces are looked at by a reader in the foreground whose window moves or
/// whose wait is due, and a metadata reader pins what its moved window misses.
pub proof fn law_pins_are_looked_at(
    reader: &LibtorrentDiskFileStream,
    piece: i32,
    configured: i32,
    present: &Vec<bool>,
    interval: u64,
    now: u64,
    looks: bool,
    pins: Option<Vec<i32>>,
)
    requires
        call_ensures(LibtorrentDiskFileStream::looks_at_pins, (reader, piece, interval, now), looks),
        call_ensures(
            LibtorrentDiskFileStream::pieces_to_pin,
            (reader, piece, configured, present),
            pins,
        ),
        reader.last_blocked_replan <= now,
    ensures
        ({
            let moves = reader.file.first_piece <= piece <= reader.file.last_piece
                && reader.last_prioritized_piece != piece;
            let background = reader.subordinate || reader.playback_intent
                == PlaybackIntent::InternalProbe || reader.playback_intent
                == PlaybackIntent::Background;
            let intent = if reader.first_byte_read {
                reader.sequential_intent
            } else {
                reader.playback_intent
            };
            &&& looks <==> !background && (moves || now - reader.last_blocked_replan >= interval)
            &&& pins is Some <==> moves && !background && (intent
                == PlaybackIntent::ContainerMetadata || intent == PlaybackIntent::InternalProbe)
        }),
{
}

} // verus!
