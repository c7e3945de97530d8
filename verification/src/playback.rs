//! The playback state of one torrent: which file is selected, who holds it
//! open, and whether the network is running.
//!
//! Times are nanoseconds on one monotonic clock of the caller.

use crate::cancellation::{cancel_requested, cancel_token, fresh_token, raised, share_token};
use crate::permits::{
    lemma_total_splits, permit_count, permit_total, with_permit, without_permit, PermitCounts,
};
use tokio_util::sync::CancellationToken;
use vstd::prelude::*;

verus! {

/// How long a torrent without readers keeps running.
pub const IDLE_PAUSE_GRACE: u64 = 15_000_000_000;

/// How long one HLS request counts as activity.
pub const HLS_ACTIVITY_TTL: u64 = 15_000_000_000;

/// How long to wait before trying a failed pause again.
pub const PAUSE_RETRY_DELAY: u64 = 5_000_000_000;

/// How long an activation waits before it looks for a torrent without peers.
pub const EMERGENCY_REANNOUNCE_DELAY: u64 = 2_000_000_000;

/// How much time lies between two emergency announces of one torrent.
pub const EMERGENCY_REANNOUNCE_COOLDOWN: u64 = 60_000_000_000;

/// Whether a torrent talks to its swarm.
#[derive(Debug, Clone, Copy, PartialEq, Eq, Structural)]
pub enum LibtorrentNetworkPhase {
    Active,
    PausePending,
    PausedIdle,
}

/// What a torrent's playback state stands for.
#[verifier::ext_equal]
pub struct PlaybackView {
    pub phase: LibtorrentNetworkPhase,
    pub generation: u64,
    pub selected_file: Option<usize>,
    pub selected_priority: i32,
    pub selected_first_piece: Option<i32>,
    pub direct_permits: Map<u64, usize>,
    pub foreground_permits: Map<u64, usize>,
    pub metadata_permits: usize,
    pub hls_last_activity: Option<u64>,
    pub idle_deadline: Option<u64>,
    pub cancellation: CancellationToken,
    pub acknowledged_priorities: Option<Seq<i32>>,
    pub metadata_announced: bool,
    pub last_emergency_reannounce: Option<u64>,
}

/// The time from `earlier` to `now`, zero where `earlier` is later.
pub open spec fn elapsed_since(earlier: u64, now: u64) -> int {
    if now >= earlier {
        now - earlier
    } else {
        0
    }
}

/// The generation that follows `generation`. The counter stops at its maximum.
pub open spec fn next_generation(generation: u64) -> u64 {
    if generation == u64::MAX {
        generation
    } else {
        (generation + 1) as u64
    }
}

impl PlaybackView {
    /// The foreground readers of the current generation.
    pub open spec fn foreground_readers(self) -> nat {
        permit_count(self.foreground_permits, self.generation)
    }

    pub open spec fn hls_is_active(self, now: u64) -> bool {
        match self.hls_last_activity {
            Some(last) => elapsed_since(last, now) < HLS_ACTIVITY_TTL,
            None => false,
        }
    }

    /// Whether anything still needs the torrent.
    pub open spec fn has_activity(self, now: u64) -> bool {
        ||| permit_total(self.direct_permits) > 0
        ||| self.metadata_permits > 0
        ||| self.hls_is_active(now)
    }

    /// Whether `file_idx` at `generation` is what the torrent plays now.
    pub open spec fn selection_is_current(self, file_idx: usize, generation: u64) -> bool {
        self.generation == generation && self.selected_file == Some(file_idx)
    }

    /// A torrent that was just added: paused, with nothing selected.
    pub open spec fn just_added(cancellation: CancellationToken) -> PlaybackView {
        PlaybackView {
            phase: LibtorrentNetworkPhase::PausedIdle,
            generation: 0,
            selected_file: None,
            selected_priority: 0,
            selected_first_piece: None,
            direct_permits: Map::empty(),
            foreground_permits: Map::empty(),
            metadata_permits: 0,
            hls_last_activity: None,
            idle_deadline: None,
            cancellation,
            acknowledged_priorities: None,
            metadata_announced: false,
            last_emergency_reannounce: None,
        }
    }

    /// The state after the idle deadline was set or dropped.
    pub open spec fn idle_scheduled(self, now: u64) -> PlaybackView {
        let deadline = if self.has_activity(now) {
            None
        } else {
            match self.hls_last_activity {
                Some(_) => Some(now),
                None => Some((now + IDLE_PAUSE_GRACE) as u64),
            }
        };
        PlaybackView { idle_deadline: deadline, ..self }
    }

    /// Whether one more reader can be counted.
    pub open spec fn has_room_for_reader(self) -> bool {
        &&& permit_total(self.direct_permits) < usize::MAX
        &&& permit_total(self.foreground_permits) < usize::MAX
    }

    /// Whether selecting `file_idx` at `native_priority` starts a generation.
    pub open spec fn selection_changes(self, file_idx: usize, native_priority: i32) -> bool {
        self.selected_file != Some(file_idx) || self.selected_priority != native_priority
    }

    /// The state after `request` was selected. `token` is the cancellation
    /// token of the generation that is then current.
    pub open spec fn selected(
        self,
        request: SelectRequest,
        now: u64,
        token: CancellationToken,
    ) -> PlaybackView {
        let changed = self.selection_changes(request.file_idx, request.native_priority);
        let generation = if changed {
            next_generation(self.generation)
        } else {
            self.generation
        };
        PlaybackView {
            generation,
            cancellation: token,
            selected_file: Some(request.file_idx),
            selected_priority: request.native_priority,
            selected_first_piece: if changed {
                None
            } else {
                self.selected_first_piece
            },
            direct_permits: if request.direct_permit {
                with_permit(self.direct_permits, generation)
            } else {
                self.direct_permits
            },
            foreground_permits: if request.direct_permit && request.foreground {
                with_permit(self.foreground_permits, generation)
            } else {
                self.foreground_permits
            },
            hls_last_activity: if request.hls_activity {
                Some(now)
            } else {
                self.hls_last_activity
            },
            phase: if request.network_required {
                LibtorrentNetworkPhase::Active
            } else {
                self.phase
            },
            idle_deadline: None,
            ..self
        }
    }

    /// The state after a pause began. `token` is the new generation's token.
    pub open spec fn pausing(self, token: CancellationToken) -> PlaybackView {
        PlaybackView {
            generation: next_generation(self.generation),
            cancellation: token,
            selected_file: None,
            selected_priority: 0,
            selected_first_piece: None,
            hls_last_activity: None,
            idle_deadline: None,
            phase: LibtorrentNetworkPhase::PausePending,
            ..self
        }
    }

    /// The state after a pending pause of `generation` was called off.
    pub open spec fn kept_for_seeding(self, generation: u64) -> PlaybackView {
        if self.generation == generation && self.phase == LibtorrentNetworkPhase::PausePending {
            PlaybackView { phase: LibtorrentNetworkPhase::Active, ..self }
        } else {
            self
        }
    }
}

/// The arguments of one selection: the file, and what it is wanted for.
pub struct SelectRequest {
    pub file_idx: usize,
    pub native_priority: i32,
    pub direct_permit: bool,
    pub hls_activity: bool,
    pub network_required: bool,
    pub foreground: bool,
}

/// What became of a selection.
pub struct Selection {
    pub generation: u64,
    pub cancellation: CancellationToken,
    pub changed: bool,
    pub subordinate: bool,
    pub native_priority: i32,
}

/// `request` took the playback state from `pre` to `post` and was answered
/// with `selection`.
pub open spec fn selection_made(
    pre: PlaybackView,
    request: SelectRequest,
    now: u64,
    post: PlaybackView,
    selection: Selection,
) -> bool {
    &&& post == pre.selected(request, now, post.cancellation)
    &&& selection.changed == pre.selection_changes(request.file_idx, request.native_priority)
    &&& selection.changed ==> {
        &&& cancel_requested(pre.cancellation)
        &&& !raised(post.cancellation)
        &&& post.cancellation != pre.cancellation
    }
    &&& !selection.changed ==> post.cancellation == pre.cancellation
    &&& selection.generation == post.generation
    &&& selection.cancellation == post.cancellation
    &&& selection.native_priority == request.native_priority
    &&& selection.subordinate == (request.direct_permit && !request.foreground && pre.selected_file
        == Some(request.file_idx) && pre.foreground_readers() > 0)
}

pub struct TorrentPlaybackState {
    pub phase: LibtorrentNetworkPhase,
    pub generation: u64,
    pub selected_file: Option<usize>,
    pub selected_priority: i32,
    pub selected_first_piece: Option<i32>,
    pub direct_permits: PermitCounts,
    pub foreground_permits: PermitCounts,
    pub metadata_permits: usize,
    pub hls_last_activity: Option<u64>,
    pub idle_deadline: Option<u64>,
    pub cancellation: CancellationToken,
    pub acknowledged_priorities: Option<Vec<i32>>,
    pub metadata_announced: bool,
    pub last_emergency_reannounce: Option<u64>,
}

impl View for TorrentPlaybackState {
    type V = PlaybackView;

    open spec fn view(&self) -> PlaybackView {
        PlaybackView {
            phase: self.phase,
            generation: self.generation,
            selected_file: self.selected_file,
            selected_priority: self.selected_priority,
            selected_first_piece: self.selected_first_piece,
            direct_permits: self.direct_permits@,
            foreground_permits: self.foreground_permits@,
            metadata_permits: self.metadata_permits,
            hls_last_activity: self.hls_last_activity,
            idle_deadline: self.idle_deadline,
            cancellation: self.cancellation,
            acknowledged_priorities: match self.acknowledged_priorities {
                Some(priorities) => Some(priorities@),
                None => None,
            },
            metadata_announced: self.metadata_announced,
            last_emergency_reannounce: self.last_emergency_reannounce,
        }
    }
}

impl TorrentPlaybackState {
    /// The readers are counted, and the generation that plays was not cancelled
    /// through its own token.
    pub open spec fn wf(&self) -> bool {
        &&& self.direct_permits.wf()
        &&& self.foreground_permits.wf()
        &&& !raised(self.cancellation)
    }

    /// A torrent that was just added: paused, with nothing selected. The
    /// network starts only once metadata or an incomplete file needs it.
    pub fn new() -> (r: Self)
        ensures
            r.wf(),
            r@ == PlaybackView::just_added(r.cancellation),
            !raised(r.cancellation),
    {
        TorrentPlaybackState {
            phase: LibtorrentNetworkPhase::PausedIdle,
            generation: 0,
            selected_file: None,
            selected_priority: 0,
            selected_first_piece: None,
            direct_permits: PermitCounts::new(),
            foreground_permits: PermitCounts::new(),
            metadata_permits: 0,
            hls_last_activity: None,
            idle_deadline: None,
            cancellation: fresh_token(None),
            acknowledged_priorities: None,
            metadata_announced: false,
            last_emergency_reannounce: None,
        }
    }

    /// The readers of all generations.
    pub fn active_playback_permits(&self) -> (r: usize)
        requires
            self.wf(),
        ensures
            r == permit_total(self@.direct_permits),
    {
        self.direct_permits.total()
    }

    /// The foreground readers of the current generation.
    pub fn active_foreground_permits(&self) -> (r: usize)
        ensures
            r == self@.foreground_readers(),
    {
        self.foreground_permits.count(self.generation)
    }

    pub fn hls_is_active(&self, now: u64) -> (r: bool)
        ensures
            r == self@.hls_is_active(now),
    {
        match self.hls_last_activity {
            Some(last) => now.saturating_sub(last) < HLS_ACTIVITY_TTL,
            None => false,
        }
    }

    /// Whether a reader, a metadata query or HLS still needs the torrent.
    pub fn has_activity(&self, now: u64) -> (r: bool)
        requires
            self.wf(),
        ensures
            r == self@.has_activity(now),
    {
        self.active_playback_permits() > 0 || self.metadata_permits > 0 || self.hls_is_active(now)
    }

    /// Starts or stops the countdown to an idle pause. Where HLS was the last
    /// activity its own time to live was the grace, so the pause is due at
    /// once.
    pub fn schedule_idle_if_needed(&mut self, now: u64)
        requires
            old(self).wf(),
            now + IDLE_PAUSE_GRACE <= u64::MAX,
        ensures
            final(self).wf(),
            final(self)@ == old(self)@.idle_scheduled(now),
    {
        if self.has_activity(now) {
            self.idle_deadline = None;
            return;
        }
        self.idle_deadline =
        match self.hls_last_activity {
            Some(last) => {
                let expired: u64 = last + HLS_ACTIVITY_TTL;
                Some(
                    if expired > now {
                        expired
                    } else {
                        now
                    },
                )
            },
            None => Some(now + IDLE_PAUSE_GRACE),
        };
    }

    /// Makes one file the torrent's playback file and registers the reader.
    ///
    /// A file or priority that differs from the current one starts a new
    /// generation, with a token of its own, and cancels the one before it. A complete file is read
    /// locally, so without `network_required` the network phase stays.
    pub fn select(
        &mut self,
        file_idx: usize,
        native_priority: i32,
        direct_permit: bool,
        hls_activity: bool,
        network_required: bool,
        foreground: bool,
        now: u64,
    ) -> (r: Selection)
        requires
            old(self).wf(),
            direct_permit ==> old(self)@.has_room_for_reader(),
        ensures
            final(self).wf(),
            selection_made(
                old(self)@,
                (SelectRequest {
                    file_idx,
                    native_priority,
                    direct_permit,
                    hls_activity,
                    network_required,
                    foreground,
                }),
                now,
                final(self)@,
                r,
            ),
    {
        let same_file: bool = match self.selected_file {
            Some(selected) => selected == file_idx,
            None => false,
        };
        let subordinate: bool = direct_permit && !foreground && same_file
            && self.active_foreground_permits() > 0;
        let changed: bool = !same_file || self.selected_priority != native_priority;
        if changed {
            self.generation = self.generation.saturating_add(1);
            let token: CancellationToken = fresh_token(Some(&self.cancellation));
            cancel_token(&mut self.cancellation);
            self.cancellation = token;
            self.selected_file = Some(file_idx);
            self.selected_priority = native_priority;
            self.selected_first_piece = None;
        }
        if direct_permit {
            self.direct_permits.grant(self.generation);
            if foreground {
                self.foreground_permits.grant(self.generation);
            }
        }
        if hls_activity {
            self.hls_last_activity = Some(now);
        }
        if network_required {
            self.phase = LibtorrentNetworkPhase::Active;
        }
        self.idle_deadline = None;
        Selection {
            generation: self.generation,
            cancellation: share_token(&self.cancellation),
            changed,
            subordinate,
            native_priority,
        }
    }

    /// Drops the selection and cancels its generation, before the torrent is
    /// silenced. The result is the generation that the pause belongs to.
    pub fn begin_pause(&mut self) -> (r: u64)
        requires
            old(self).wf(),
        ensures
            final(self).wf(),
            final(self)@ == old(self)@.pausing(final(self)@.cancellation),
            cancel_requested(old(self)@.cancellation),
            !raised(final(self)@.cancellation),
            final(self)@.cancellation != old(self)@.cancellation,
            r == final(self)@.generation,
    {
        self.generation = self.generation.saturating_add(1);
        let token: CancellationToken = fresh_token(Some(&self.cancellation));
        cancel_token(&mut self.cancellation);
        self.cancellation = token;
        self.selected_file = None;
        self.selected_priority = 0;
        self.selected_first_piece = None;
        self.hls_last_activity = None;
        self.idle_deadline = None;
        self.phase = LibtorrentNetworkPhase::PausePending;
        self.generation
    }

    /// Calls off the pause of `generation`, if that is still the one pending.
    pub fn keep_active_for_seeding(&mut self, generation: u64)
        requires
            old(self).wf(),
        ensures
            final(self).wf(),
            final(self)@ == old(self)@.kept_for_seeding(generation),
    {
        if self.generation == generation && self.phase == LibtorrentNetworkPhase::PausePending {
            self.phase = LibtorrentNetworkPhase::Active;
        }
    }
}

/// What the state shows is what it holds.
pub proof fn law_view_shows_the_state(state: TorrentPlaybackState)
    ensures
        state@.phase == state.phase,
        state@.generation == state.generation,
        state@.selected_file == state.selected_file,
        state@.selected_priority == state.selected_priority,
        state@.selected_first_piece == state.selected_first_piece,
        state@.direct_permits == state.direct_permits@,
        state@.foreground_permits == state.foreground_permits@,
        state@.metadata_permits == state.metadata_permits,
        state@.hls_last_activity == state.hls_last_activity,
        state@.idle_deadline == state.idle_deadline,
        state@.cancellation == state.cancellation,
        state@.acknowledged_priorities is Some <==> state.acknowledged_priorities is Some,
        state.acknowledged_priorities matches Some(priorities)
            ==> state@.acknowledged_priorities == Some(priorities@),
        state@.metadata_announced == state.metadata_announced,
        state@.last_emergency_reannounce == state.last_emergency_reannounce,
{
}

/// The clock only counts forward: the time from one moment to a later one is
/// their distance, and back to an earlier one it is nothing.
pub proof fn law_time_is_a_distance(earlier: u64, now: u64)
    ensures
        now >= earlier ==> elapsed_since(earlier, now) == now - earlier,
        now <= earlier ==> elapsed_since(earlier, now) == 0,
{
}

/// One HLS request keeps HLS alive for fifteen seconds, and nothing else does.
pub proof fn law_hls_lives_fifteen_seconds(state: PlaybackView, now: u64)
    ensures
        state.hls_last_activity matches Some(last) ==> (state.hls_is_active(now) <==> now < last
            + 15_000_000_000),
        state.hls_last_activity is None ==> !state.hls_is_active(now),
{
}

/// A torrent is needed by its readers, of whatever generation, by metadata
/// queries and by live HLS, each on its own, and by nothing else.
pub proof fn law_activity_has_three_sources(state: PlaybackView, now: u64, generation: u64)
    requires
        state.direct_permits.dom().finite(),
    ensures
        state.direct_permits.contains_key(generation) && state.direct_permits[generation] > 0
            ==> state.has_activity(now),
        state.metadata_permits > 0 ==> state.has_activity(now),
        (state.hls_last_activity matches Some(last) && now < last + 15_000_000_000)
            ==> state.has_activity(now),
        state.direct_permits =~= Map::empty() && state.metadata_permits == 0 && !(
        state.hls_last_activity matches Some(last) && now < last + 15_000_000_000)
            ==> !state.has_activity(now),
{
    lemma_total_splits(state.direct_permits, generation);
    if state.direct_permits =~= Map::empty() {
        assert(state.direct_permits.dom() =~= Set::<u64>::empty());
    }
}

/// A torrent that was just added has done nothing yet.
pub proof fn law_added_torrent_starts_from_nothing(token: CancellationToken)
    ensures
        ({
            let added = PlaybackView::just_added(token);
            &&& added.generation == 0
            &&& added.phase == LibtorrentNetworkPhase::PausedIdle
            &&& added.selected_file is None
            &&& added.selected_priority == 0
            &&& added.selected_first_piece is None
            &&& added.direct_permits =~= Map::empty()
            &&& added.foreground_permits =~= Map::empty()
            &&& added.metadata_permits == 0
            &&& added.hls_last_activity is None
            &&& added.idle_deadline is None
            &&& added.cancellation == token
            &&& added.acknowledged_priorities is None
            &&& !added.metadata_announced
            &&& added.last_emergency_reannounce is None
        }),
{
}

/// The idle countdown runs fifteen seconds, is over at once where it was HLS that
/// ended, and does not run while something needs the torrent. It changes nothing
/// else.
pub proof fn law_idle_countdown_runs_fifteen_seconds(state: PlaybackView, now: u64)
    requires
        now + 15_000_000_000 <= u64::MAX,
    ensures
        state.has_activity(now) ==> state.idle_scheduled(now).idle_deadline is None,
        !state.has_activity(now) && state.hls_last_activity is None ==> state.idle_scheduled(
            now,
        ).idle_deadline == Some((now + 15_000_000_000) as u64),
        !state.has_activity(now) && state.hls_last_activity is Some ==> state.idle_scheduled(
            now,
        ).idle_deadline == Some(now),
        state == (PlaybackView {
            idle_deadline: state.idle_deadline,
            ..state.idle_scheduled(now)
        }),
{
}

/// A selection is current exactly for the file and the generation that play.
pub proof fn law_one_selection_is_current(state: PlaybackView, file_idx: usize, generation: u64)
    ensures
        state.selection_is_current(file_idx, generation) ==> state.generation == generation
            && state.selected_file is Some && state.selected_file->0 == file_idx,
        state.generation != generation ==> !state.selection_is_current(file_idx, generation),
        state.selected_file is None ==> !state.selection_is_current(file_idx, generation),
        state.selected_file is Some && state.selected_file->0 == file_idx && state.generation
            == generation ==> state.selection_is_current(file_idx, generation),
{
}

/// Whatever was selected before, a selection makes the requested file at the
/// requested priority the one that plays. It starts a generation exactly where
/// the file or the priority is another one, and only then forgets the piece that
/// was waited for.
pub proof fn law_selection_takes_over(
    state: PlaybackView,
    request: SelectRequest,
    now: u64,
    token: CancellationToken,
)
    ensures
        ({
            let after = state.selected(request, now, token);
            let same = state.selected_file is Some && state.selected_file->0 == request.file_idx
                && state.selected_priority == request.native_priority;
            &&& after.selected_file is Some
            &&& after.selected_file->0 == request.file_idx
            &&& after.selected_priority == request.native_priority
            &&& after.cancellation == token
            &&& same ==> after.generation == state.generation && after.selected_first_piece
                == state.selected_first_piece
            &&& !same ==> after.selected_first_piece is None
            &&& !same && state.generation < u64::MAX ==> after.generation == state.generation + 1
            &&& state.selection_changes(request.file_idx, request.native_priority) == !same
        }),
{
}

/// A selection counts its reader once, in the generation that then plays, and as
/// a foreground reader only where it is one. It stops the idle countdown, notes
/// HLS activity and brings the network up as far as it was asked to, and leaves
/// metadata queries, acknowledged priorities and announces alone.
pub proof fn law_selection_counts_its_reader(
    state: PlaybackView,
    request: SelectRequest,
    now: u64,
    token: CancellationToken,
)
    requires
        permit_count(state.direct_permits, state.selected(request, now, token).generation)
            < usize::MAX,
        permit_count(state.foreground_permits, state.selected(request, now, token).generation)
            < usize::MAX,
    ensures
        ({
            let after = state.selected(request, now, token);
            let reader: int = if request.direct_permit {
                1
            } else {
                0
            };
            let leader: int = if request.direct_permit && request.foreground {
                1
            } else {
                0
            };
            &&& permit_count(after.direct_permits, after.generation) == permit_count(
                state.direct_permits,
                after.generation,
            ) + reader
            &&& permit_count(after.foreground_permits, after.generation) == permit_count(
                state.foreground_permits,
                after.generation,
            ) + leader
            &&& after.direct_permits.remove(after.generation) =~= state.direct_permits.remove(
                after.generation,
            )
            &&& after.foreground_permits.remove(after.generation)
                =~= state.foreground_permits.remove(after.generation)
            &&& after.idle_deadline is None
            &&& request.hls_activity ==> after.hls_last_activity is Some
                && after.hls_last_activity->0 == now
            &&& !request.hls_activity ==> after.hls_last_activity == state.hls_last_activity
            &&& request.network_required ==> after.phase == LibtorrentNetworkPhase::Active
            &&& !request.network_required ==> after.phase == state.phase
            &&& after.metadata_permits == state.metadata_permits
            &&& after.acknowledged_priorities == state.acknowledged_priorities
            &&& after.metadata_announced == state.metadata_announced
            &&& after.last_emergency_reannounce == state.last_emergency_reannounce
        }),
{
}

/// The answer to a selection tells what became of it. A reader is subordinate
/// exactly where it joins, without leading, a file that somebody in the
/// foreground plays.
pub proof fn law_answer_tells_the_selection(
    pre: PlaybackView,
    request: SelectRequest,
    now: u64,
    post: PlaybackView,
    selection: Selection,
)
    requires
        selection_made(pre, request, now, post, selection),
    ensures
        post.selected_file is Some && post.selected_file->0 == request.file_idx,
        post.selected_priority == request.native_priority,
        selection.generation == post.generation,
        selection.cancellation == post.cancellation,
        selection.native_priority == request.native_priority,
        !selection.changed <==> pre.selected_file is Some && pre.selected_file->0
            == request.file_idx && pre.selected_priority == request.native_priority,
        !selection.changed ==> post.cancellation == pre.cancellation && post.generation
            == pre.generation,
        selection.changed ==> cancel_requested(pre.cancellation) && post.cancellation
            != pre.cancellation && !raised(post.cancellation),
        selection.subordinate ==> request.direct_permit && !request.foreground
            && pre.selected_file is Some && pre.selected_file->0 == request.file_idx
            && pre.foreground_permits.contains_key(pre.generation)
            && pre.foreground_permits[pre.generation] > 0,
        request.direct_permit && !request.foreground && pre.selected_file is Some
            && pre.selected_file->0 == request.file_idx && pre.foreground_permits.contains_key(
            pre.generation,
        ) && pre.foreground_permits[pre.generation] > 0 ==> selection.subordinate,
{
}

/// A pause lets go of what was played and of HLS, and is then pending. The
/// readers that are still there, metadata queries and what the native library
/// acknowledged stay as they are.
pub proof fn law_pause_lets_go_of_playback(state: PlaybackView, token: CancellationToken)
    ensures
        ({
            let after = state.pausing(token);
            &&& after.phase == LibtorrentNetworkPhase::PausePending
            &&& after.selected_file is None
            &&& after.selected_priority == 0
            &&& after.selected_first_piece is None
            &&& after.hls_last_activity is None
            &&& after.idle_deadline is None
            &&& after.cancellation == token
            &&& state.generation < u64::MAX ==> after.generation == state.generation + 1
            &&& after.direct_permits == state.direct_permits
            &&& after.foreground_permits == state.foreground_permits
            &&& after.metadata_permits == state.metadata_permits
            &&& after.acknowledged_priorities == state.acknowledged_priorities
            &&& after.metadata_announced == state.metadata_announced
            &&& after.last_emergency_reannounce == state.last_emergency_reannounce
        }),
{
}

/// Calling a pause off for seeding concerns the pending pause of that very
/// generation and nothing else.
pub proof fn law_only_the_pending_pause_is_called_off(state: PlaybackView, generation: u64)
    ensures
        state.generation == generation && state.phase == LibtorrentNetworkPhase::PausePending
            ==> state.kept_for_seeding(generation).phase == LibtorrentNetworkPhase::Active,
        state.generation != generation || state.phase != LibtorrentNetworkPhase::PausePending
            ==> state.kept_for_seeding(generation) == state,
        state == (PlaybackView { phase: state.phase, ..state.kept_for_seeding(generation) }),
{
}

/// Selecting a file makes it the one that plays, whatever was selected before, and
/// counts its reader. Another file or priority ends the generation before it and
/// gives the new one a token of its own.
pub proof fn law_select_plays_the_file(
    file_idx: usize,
    native_priority: i32,
    direct_permit: bool,
    hls_activity: bool,
    network_required: bool,
    foreground: bool,
    now: u64,
)
    ensures
        forall|state: &mut TorrentPlaybackState, r: Selection| #[trigger]
            call_ensures(
                TorrentPlaybackState::select,
                (
                    state,
                    file_idx,
                    native_priority,
                    direct_permit,
                    hls_activity,
                    network_required,
                    foreground,
                    now,
                ),
                r,
            ) ==> {
                let before = *state;
                let after = *final(state);
                &&& after.selected_file == Some(file_idx)
                &&& after.selected_priority == native_priority
                &&& r.native_priority == native_priority
                &&& r.changed <==> before.selected_file != Some(file_idx)
                    || before.selected_priority != native_priority
                &&& r.generation == after.generation
                &&& r.cancellation == after.cancellation
                &&& r.changed ==> cancel_requested(before.cancellation) && after.cancellation
                    != before.cancellation && !raised(after.cancellation)
                    && after.selected_first_piece is None
                &&& r.changed && before.generation < u64::MAX ==> after.generation
                    == before.generation + 1
                &&& !r.changed ==> after.generation == before.generation && after.cancellation
                    == before.cancellation && after.selected_first_piece
                    == before.selected_first_piece
                &&& network_required ==> after.phase == LibtorrentNetworkPhase::Active
                &&& !network_required ==> after.phase == before.phase
                &&& hls_activity ==> after.hls_last_activity == Some(now)
                &&& !hls_activity ==> after.hls_last_activity == before.hls_last_activity
                &&& after.idle_deadline is None
                &&& !direct_permit ==> after.direct_permits@ == before.direct_permits@
                &&& !direct_permit || !foreground ==> after.foreground_permits@
                    == before.foreground_permits@
                &&& direct_permit ==> after.direct_permits@.contains_key(after.generation)
                &&& direct_permit && foreground ==> after.foreground_permits@.contains_key(
                    after.generation,
                )
                &&& after.metadata_permits == before.metadata_permits
                &&& r.subordinate <==> direct_permit && !foreground && before.selected_file == Some(
                    file_idx,
                ) && before.foreground_permits@.contains_key(before.generation)
                    && before.foreground_permits@[before.generation] > 0
            },
{
}

/// Beginning a pause ends what played, in a generation of its own.
pub proof fn law_pause_ends_what_played()
    ensures
        forall|state: &mut TorrentPlaybackState, r: u64| #[trigger]
            call_ensures(TorrentPlaybackState::begin_pause, (state,), r) ==> {
                let before = *state;
                let after = *final(state);
                &&& r == after.generation
                &&& before.generation < u64::MAX ==> r == before.generation + 1
                &&& after.phase == LibtorrentNetworkPhase::PausePending
                &&& after.selected_file is None
                &&& after.selected_priority == 0
                &&& after.selected_first_piece is None
                &&& after.hls_last_activity is None
                &&& after.idle_deadline is None
                &&& cancel_requested(before.cancellation)
                &&& after.cancellation != before.cancellation
                &&& !raised(after.cancellation)
                &&& after.direct_permits@ == before.direct_permits@
                &&& after.foreground_permits@ == before.foreground_permits@
                &&& after.metadata_permits == before.metadata_permits
            },
{
}

/// A new torrent is silent, plays nothing and has nobody that needs it.
pub proof fn law_new_torrent_is_silent(state: TorrentPlaybackState)
    requires
        call_ensures(TorrentPlaybackState::new, (), state),
    ensures
        state.phase == LibtorrentNetworkPhase::PausedIdle,
        state.generation == 0,
        state.selected_file is None,
        state.direct_permits@ =~= Map::empty(),
        state.metadata_permits == 0,
        state.hls_last_activity is None,
        state.idle_deadline is None,
        state.acknowledged_priorities is None,
        !state.metadata_announced,
        !raised(state.cancellation),
{
}

/// Whether a torrent is in use is told by its readers, its metadata queries and
/// its HLS segments of the last fifteen seconds.
pub proof fn law_use_of_a_torrent_is_told(
    state: &TorrentPlaybackState,
    now: u64,
    readers: usize,
    foreground: usize,
    hls: bool,
    active: bool,
)
    requires
        call_ensures(TorrentPlaybackState::active_playback_permits, (state,), readers),
        call_ensures(TorrentPlaybackState::active_foreground_permits, (state,), foreground),
        call_ensures(TorrentPlaybackState::hls_is_active, (state, now), hls),
        call_ensures(TorrentPlaybackState::has_activity, (state, now), active),
    ensures
        active <==> readers > 0 || state.metadata_permits > 0 || hls,
        state.hls_last_activity is None ==> !hls,
        state.hls_last_activity is Some ==> (hls <==> now < state.hls_last_activity->0
            + 15_000_000_000),
        readers == permit_total(state.direct_permits@),
        state.foreground_permits@.contains_key(state.generation) ==> foreground
            == state.foreground_permits@[state.generation],
        !state.foreground_permits@.contains_key(state.generation) ==> foreground == 0,
{
}

/// A torrent in use has no countdown; one that fell silent is paused fifteen
/// seconds later, or at once where its HLS segments ran out. One that is kept for
/// seeding is active again, where its pause had begun in that generation.
pub proof fn law_countdown_is_set(now: u64, generation: u64)
    requires
        now + 15_000_000_000 <= u64::MAX,
    ensures
        forall|state: &mut TorrentPlaybackState| #[trigger]
            call_ensures(TorrentPlaybackState::schedule_idle_if_needed, (state, now), ()) ==> {
                let before = (*state)@;
                let after = (*final(state))@;
                let active = permit_total(before.direct_permits) > 0 || before.metadata_permits > 0
                    || (before.hls_last_activity is Some && now < before.hls_last_activity->0
                    + 15_000_000_000);
                &&& active ==> after.idle_deadline is None
                &&& !active && before.hls_last_activity is None ==> after.idle_deadline is Some
                    && after.idle_deadline->0 == now + 15_000_000_000
                &&& !active && before.hls_last_activity is Some ==> after.idle_deadline == Some(now)
                &&& after.phase == before.phase
                &&& after.generation == before.generation
                &&& after.selected_file == before.selected_file
                &&& after.hls_last_activity == before.hls_last_activity
            },
        forall|state: &mut TorrentPlaybackState| #[trigger]
            call_ensures(
                TorrentPlaybackState::keep_active_for_seeding,
                (state, generation),
                (),
            ) ==> {
                let before = (*state)@;
                let after = (*final(state))@;
                let pending = before.generation == generation && before.phase
                    == LibtorrentNetworkPhase::PausePending;
                &&& pending ==> after.phase == LibtorrentNetworkPhase::Active
                &&& !pending ==> after.phase == before.phase
                &&& after.generation == before.generation
                &&& after.selected_file == before.selected_file
                &&& after.idle_deadline == before.idle_deadline
                &&& after.direct_permits == before.direct_permits
            },
{
}

} // verus!
