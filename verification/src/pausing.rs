//! Silencing a torrent and making sure that it is silent.

use crate::acknowledgement::{AlertCodes, Received};
use crate::arith::{int_min, min_u64};
use crate::domain::TorrentStatus;
use crate::errors::{PauseStatusSnapshot, PlaybackError};
use crate::layout::{
    law_complete_file_selects_nothing, no_priorities, same_priorities, selected_priorities,
    zero_priorities,
};
use crate::playback::{
    elapsed_since, LibtorrentNetworkPhase, PlaybackView, TorrentPlaybackState,
};
use vstd::prelude::*;

verus! {

/// How long a pause may take to become silent.
pub const PAUSE_CONFIRM_TIMEOUT: u64 = 5_000_000_000;

/// How long the transfer totals have to stand still.
pub const PAUSE_QUIET_CONFIRMATION: u64 = 500_000_000;

/// How often a pausing torrent is looked at.
pub const PAUSE_POLL_INTERVAL: u64 = 50_000_000;

/// Reads the counters that tell whether a torrent is silent.
pub fn pause_status(status: &TorrentStatus) -> (r: PauseStatusSnapshot)
    ensures
        r == (PauseStatusSnapshot {
            is_paused: status.is_paused,
            num_peers: status.num_peers,
            total_downloaded: status.total_downloaded,
            total_uploaded: status.total_uploaded,
            download_rate: status.download_rate,
            upload_rate: status.upload_rate,
        }),
{
    PauseStatusSnapshot {
        is_paused: status.is_paused,
        num_peers: status.num_peers,
        total_downloaded: status.total_downloaded,
        total_uploaded: status.total_uploaded,
        download_rate: status.download_rate,
        upload_rate: status.upload_rate,
    }
}

/// Since when the transfer totals have stood still, and at which values. Rate
/// estimates decay slowly and are no sign of traffic, so they are not kept.
pub struct PauseSilenceTracker {
    pub stable_since: Option<u64>,
    pub total_downloaded: i64,
    pub total_uploaded: i64,
}

/// A torrent that is paused and has no peers left.
pub open spec fn is_disconnected(status: PauseStatusSnapshot) -> bool {
    status.is_paused && status.num_peers == 0
}

impl Default for PauseSilenceTracker {
    fn default() -> (r: Self)
        ensures
            r.stable_since is None,
            r.total_downloaded == 0,
            r.total_uploaded == 0,
    {
        PauseSilenceTracker { stable_since: None, total_downloaded: 0, total_uploaded: 0 }
    }
}

impl PauseSilenceTracker {
    /// Whether `status` shows the totals that the tracker has been watching.
    pub open spec fn continues(self, status: PauseStatusSnapshot) -> bool {
        &&& is_disconnected(status)
        &&& self.stable_since is Some
        &&& self.total_downloaded == status.total_downloaded
        &&& self.total_uploaded == status.total_uploaded
    }

    /// The tracker after it saw `status`.
    pub open spec fn observed(self, status: PauseStatusSnapshot, now: u64) -> PauseSilenceTracker {
        if !is_disconnected(status) {
            PauseSilenceTracker { stable_since: None, ..self }
        } else if self.continues(status) {
            self
        } else {
            PauseSilenceTracker {
                stable_since: Some(now),
                total_downloaded: status.total_downloaded,
                total_uploaded: status.total_uploaded,
            }
        }
    }

    /// Whether `status` confirms the silence.
    pub open spec fn confirms(self, status: PauseStatusSnapshot, now: u64) -> bool {
        &&& self.continues(status)
        &&& elapsed_since(self.stable_since->0, now) >= PAUSE_QUIET_CONFIRMATION
    }

    /// Looks at the torrent. The answer is `true` once it has been paused,
    /// without peers and with unchanged totals for long enough.
    pub fn observe(&mut self, status: PauseStatusSnapshot, now: u64) -> (r: bool)
        ensures
            *final(self) == old(self).observed(status, now),
            r == old(self).confirms(status, now),
    {
        if !status.is_paused || status.num_peers != 0 {
            self.stable_since = None;
            return false;
        }
        match self.stable_since {
            Some(since) => {
                if self.total_downloaded == status.total_downloaded && self.total_uploaded
                    == status.total_uploaded {
                    return now.saturating_sub(since) >= PAUSE_QUIET_CONFIRMATION;
                }
            },
            None => {},
        }
        self.stable_since = Some(now);
        self.total_downloaded = status.total_downloaded;
        self.total_uploaded = status.total_uploaded;
        false
    }
}

/// How a silence was confirmed.
#[derive(Debug, Clone, Copy, PartialEq, Eq)]
pub enum PauseWatch {
    /// The torrent is silent; the native library also said it was paused.
    SilentWithAlert,
    /// The torrent is silent by its counters alone.
    Silent,
    /// Wait for an alert until this time, then look again.
    PollUntil(u64),
}

/// A wait for a torrent to fall silent.
pub struct PauseConfirmation {
    pub deadline: u64,
    pub paused_alert_seen: bool,
    pub silence: PauseSilenceTracker,
}

impl PauseConfirmation {
    /// Starts a wait at `now`.
    pub fn new(now: u64) -> (r: Self)
        requires
            now + PAUSE_CONFIRM_TIMEOUT <= u64::MAX,
        ensures
            r.deadline == now + PAUSE_CONFIRM_TIMEOUT,
            !r.paused_alert_seen,
            r.silence.stable_since is None,
            r.silence.total_downloaded == 0,
            r.silence.total_uploaded == 0,
    {
        PauseConfirmation {
            deadline: now + PAUSE_CONFIRM_TIMEOUT,
            paused_alert_seen: false,
            silence: PauseSilenceTracker::default(),
        }
    }

    /// What a look at the torrent at `observed_at`, decided at `now`, says.
    pub open spec fn look(self, status: PauseStatusSnapshot, observed_at: u64, now: u64) -> Result<
        PauseWatch,
        PlaybackError,
    > {
        if self.silence.confirms(status, observed_at) {
            Ok(
                if self.paused_alert_seen {
                    PauseWatch::SilentWithAlert
                } else {
                    PauseWatch::Silent
                },
            )
        } else if now >= self.deadline {
            Err(PlaybackError::PauseNotSilent(status))
        } else {
            Ok(PauseWatch::PollUntil(int_min(self.deadline as int, now + PAUSE_POLL_INTERVAL) as u64))
        }
    }

    /// Looks at the torrent: silent, not silent in time, or to be looked at
    /// again.
    pub fn watch(&mut self, status: PauseStatusSnapshot, observed_at: u64, now: u64) -> (r: Result<
        PauseWatch,
        PlaybackError,
    >)
        requires
            now + PAUSE_POLL_INTERVAL <= u64::MAX,
        ensures
            r == old(self).look(status, observed_at, now),
            *final(self) == (PauseConfirmation {
                silence: old(self).silence.observed(status, observed_at),
                ..*old(self)
            }),
    {
        if self.silence.observe(status, observed_at) {
            return Ok(
                if self.paused_alert_seen {
                    PauseWatch::SilentWithAlert
                } else {
                    PauseWatch::Silent
                },
            );
        }
        if now >= self.deadline {
            return Err(PlaybackError::PauseNotSilent(status));
        }
        Ok(PauseWatch::PollUntil(min_u64(self.deadline, now + PAUSE_POLL_INTERVAL)))
    }

    /// What an alert during the wait leads to.
    pub open spec fn alert_answer(received: Received, codes: AlertCodes) -> Result<
        (),
        PlaybackError,
    > {
        match received {
            Received::Alert(alert) => if alert.alert_type != codes.torrent_paused
                && alert.alert_type == codes.file_error {
                Err(PlaybackError::PauseFileError(alert.message))
            } else {
                Ok(())
            },
            Received::Closed => Err(PlaybackError::AlertChannelClosed),
            Received::Lagged | Received::TimedOut => Ok(()),
        }
    }

    /// Takes in an alert. A paused alert is only noted: the counters decide.
    pub fn alert_received(&mut self, received: Received, codes: &AlertCodes) -> (r: Result<
        (),
        PlaybackError,
    >)
        ensures
            r == Self::alert_answer(received, *codes),
            *final(self) == (PauseConfirmation {
                paused_alert_seen: old(self).paused_alert_seen || (received matches Received::Alert(
                    alert,
                ) && alert.alert_type == codes.torrent_paused),
                ..*old(self)
            }),
    {
        match received {
            Received::Alert(alert) => {
                if alert.alert_type == codes.torrent_paused {
                    self.paused_alert_seen = true;
                    Ok(())
                } else if alert.alert_type == codes.file_error {
                    Err(PlaybackError::PauseFileError(alert.message))
                } else {
                    Ok(())
                }
            },
            Received::Lagged => Ok(()),
            Received::Closed => Err(PlaybackError::AlertChannelClosed),
            Received::TimedOut => Ok(()),
        }
    }
}

/// One attempt to silence a torrent for a generation.
#[derive(Debug, Clone, Copy, PartialEq, Eq)]
pub struct PauseAttempt {
    pub generation: u64,
    /// Whether the selection is dropped along with the network.
    pub clear_selection: bool,
}

/// What happened outside since the last step of a pause.
#[derive(Debug, Clone, Copy, PartialEq, Eq)]
pub enum PauseEvent {
    Requested,
    /// The torrent's native operations are now exclusively ours.
    OperationHeld,
    /// The torrent was confirmed silent.
    Silent { file_count: usize },
    /// The zero priorities for `file_count` files were acknowledged.
    PrioritiesCleared { file_count: usize },
}

/// What has to be done outside next.
#[derive(Debug, Clone, PartialEq, Eq)]
pub enum PauseAction {
    /// Nothing is left to do.
    Finished,
    /// Take the torrent's native operations.
    HoldOperation,
    /// Silence the native torrent and wait for the silence.
    SilenceNative,
    /// Submit these file priorities and wait for their acknowledgement.
    ApplyFilePriorities(Vec<i32>),
}

/// What a pause action stands for.
pub enum PauseActionView {
    Finished,
    HoldOperation,
    SilenceNative,
    ApplyFilePriorities(Seq<i32>),
}

impl View for PauseAction {
    type V = PauseActionView;

    open spec fn view(&self) -> PauseActionView {
        match *self {
            PauseAction::Finished => PauseActionView::Finished,
            PauseAction::HoldOperation => PauseActionView::HoldOperation,
            PauseAction::SilenceNative => PauseActionView::SilenceNative,
            PauseAction::ApplyFilePriorities(
                priorities,
            ) => PauseActionView::ApplyFilePriorities(priorities@),
        }
    }
}

impl PauseAttempt {
    /// The state of a torrent that this pause has silenced.
    pub open spec fn completed(self, state: PlaybackView, file_count: nat) -> PlaybackView {
        PlaybackView {
            phase: LibtorrentNetworkPhase::PausedIdle,
            acknowledged_priorities: if file_count > 0 {
                Some(zero_priorities(file_count))
            } else {
                None
            },
            selected_file: if self.clear_selection {
                None
            } else {
                state.selected_file
            },
            selected_priority: if self.clear_selection {
                0
            } else {
                state.selected_priority
            },
            ..state
        }
    }

    /// What `event` leads to.
    pub open spec fn next_action(
        self,
        state: PlaybackView,
        event: PauseEvent,
        seeding_enabled: bool,
    ) -> PauseActionView {
        match event {
            PauseEvent::Requested => if seeding_enabled {
                PauseActionView::Finished
            } else {
                PauseActionView::HoldOperation
            },
            PauseEvent::OperationHeld => if state.generation != self.generation {
                PauseActionView::Finished
            } else {
                PauseActionView::SilenceNative
            },
            PauseEvent::Silent { file_count } => if state.generation == self.generation
                && file_count > 0 && state.acknowledged_priorities != Some(
                zero_priorities(file_count as nat),
            ) {
                PauseActionView::ApplyFilePriorities(zero_priorities(file_count as nat))
            } else {
                PauseActionView::Finished
            },
            PauseEvent::PrioritiesCleared { file_count } => PauseActionView::Finished,
        }
    }

    /// The state that `event` leaves.
    pub open spec fn next_state(
        self,
        state: PlaybackView,
        event: PauseEvent,
        seeding_enabled: bool,
    ) -> PlaybackView {
        match event {
            PauseEvent::Requested => if seeding_enabled {
                state.kept_for_seeding(self.generation)
            } else {
                state
            },
            PauseEvent::OperationHeld => state,
            PauseEvent::Silent { file_count } => if state.generation == self.generation
                && self.next_action(state, event, seeding_enabled) is Finished {
                self.completed(state, file_count as nat)
            } else {
                state
            },
            PauseEvent::PrioritiesCleared { file_count } => if state.generation
                == self.generation {
                self.completed(state, file_count as nat)
            } else {
                state
            },
        }
    }

    fn complete(&self, state: &mut TorrentPlaybackState, file_count: usize)
        requires
            old(state).wf(),
        ensures
            final(state).wf(),
            final(state)@ == self.completed(old(state)@, file_count as nat),
    {
        state.phase = LibtorrentNetworkPhase::PausedIdle;
        state.acknowledged_priorities =
        if file_count > 0 {
            Some(no_priorities(file_count))
        } else {
            None
        };
        if self.clear_selection {
            state.selected_file = None;
            state.selected_priority = 0;
        }
    }

    /// Answers what happened outside with what to do next. A pause whose
    /// generation has passed stops without touching the state.
    pub fn advance(
        &self,
        state: &mut TorrentPlaybackState,
        event: PauseEvent,
        seeding_enabled: bool,
    ) -> (r: PauseAction)
        requires
            old(state).wf(),
        ensures
            final(state).wf(),
            r@ == self.next_action(old(state)@, event, seeding_enabled),
            final(state)@ == self.next_state(old(state)@, event, seeding_enabled),
    {
        match event {
            PauseEvent::Requested => {
                if seeding_enabled {
                    state.keep_active_for_seeding(self.generation);
                    PauseAction::Finished
                } else {
                    PauseAction::HoldOperation
                }
            },
            PauseEvent::OperationHeld => {
                if state.generation != self.generation {
                    PauseAction::Finished
                } else {
                    PauseAction::SilenceNative
                }
            },
            PauseEvent::Silent { file_count } => {
                if state.generation != self.generation {
                    return PauseAction::Finished;
                }
                let zeros: Vec<i32> = no_priorities(file_count);
                let cleared: bool = match &state.acknowledged_priorities {
                    Some(priorities) => same_priorities(priorities, &zeros),
                    None => false,
                };
                if file_count > 0 && !cleared {
                    return PauseAction::ApplyFilePriorities(zeros);
                }
                self.complete(state, file_count);
                PauseAction::Finished
            },
            PauseEvent::PrioritiesCleared { file_count } => {
                if state.generation == self.generation {
                    self.complete(state, file_count);
                }
                PauseAction::Finished
            },
        }
    }
}

/// A pause that a newer generation overtook changes nothing, whatever it has
/// been through.
pub proof fn law_overtaken_pause_changes_nothing(
    attempt: PauseAttempt,
    state: PlaybackView,
    event: PauseEvent,
    seeding_enabled: bool,
)
    requires
        attempt.generation != state.generation,
    ensures
        attempt.next_state(state, event, seeding_enabled) == state,
{
}

/// A torrent is marked silent only by a pause of the current generation that
/// was confirmed silent.
pub proof fn law_silence_is_confirmed(
    attempt: PauseAttempt,
    state: PlaybackView,
    event: PauseEvent,
    seeding_enabled: bool,
)
    requires
        state.phase != LibtorrentNetworkPhase::PausedIdle,
        attempt.next_state(state, event, seeding_enabled).phase
            == LibtorrentNetworkPhase::PausedIdle,
    ensures
        event is Silent || event is PrioritiesCleared,
        attempt.generation == state.generation,
{
}

/// A torrent that was silenced and then has its complete file opened needs no
/// native work: its priorities are those of a file that needs nothing.
pub proof fn law_silenced_torrent_serves_locally(
    attempt: PauseAttempt,
    state: PlaybackView,
    file_count: nat,
    file_idx: int,
)
    requires
        0 <= file_idx < file_count,
    ensures
        attempt.completed(state, file_count).acknowledged_priorities == Some(
            selected_priorities(file_count, file_idx, 0),
        ),
        attempt.completed(state, file_count).phase == LibtorrentNetworkPhase::PausedIdle,
{
    law_complete_file_selects_nothing(file_count, file_idx);
}

/// Rate estimates never keep a pause from being confirmed.
pub proof fn law_silence_ignores_rates(
    tracker: PauseSilenceTracker,
    status: PauseStatusSnapshot,
    download_rate: i32,
    upload_rate: i32,
    now: u64,
)
    ensures
        ({
            let decaying = PauseStatusSnapshot { download_rate, upload_rate, ..status };
            &&& tracker.confirms(decaying, now) == tracker.confirms(status, now)
            &&& tracker.observed(decaying, now) == tracker.observed(status, now)
        }),
{
}

/// Silence is confirmed only after the totals stood still, without peers, for
/// the whole confirmation time since they were first seen at these values.
pub proof fn law_silence_needs_stable_totals(
    tracker: PauseSilenceTracker,
    first: PauseStatusSnapshot,
    seen: u64,
    second: PauseStatusSnapshot,
    now: u64,
)
    requires
        !tracker.continues(first),
        seen <= now,
    ensures
        !tracker.confirms(first, seen),
        tracker.observed(first, seen).confirms(second, now) <==> {
            &&& is_disconnected(first)
            &&& is_disconnected(second)
            &&& first.total_downloaded == second.total_downloaded
            &&& first.total_uploaded == second.total_uploaded
            &&& now - seen >= PAUSE_QUIET_CONFIRMATION
        },
{
}

/// A torrent counts as disconnected only when it is paused and its last peer is
/// gone, and its silence is confirmed only by half a second, or more, of that at
/// the same totals.
pub proof fn law_silence_lasts_half_a_second(
    tracker: PauseSilenceTracker,
    status: PauseStatusSnapshot,
    now: u64,
)
    ensures
        is_disconnected(status) <==> status.is_paused && status.num_peers == 0,
        tracker.confirms(status, now) <==> {
            &&& status.is_paused
            &&& status.num_peers == 0
            &&& status.total_downloaded == tracker.total_downloaded
            &&& status.total_uploaded == tracker.total_uploaded
            &&& tracker.stable_since is Some
            &&& now >= tracker.stable_since->0 + 500_000_000
        },
{
}

/// Looking at a torrent starts the silence anew where its totals moved, forgets
/// it where the torrent runs or has peers, and lets it go on where nothing moved.
pub proof fn law_silence_starts_anew_with_traffic(
    tracker: PauseSilenceTracker,
    status: PauseStatusSnapshot,
    now: u64,
)
    ensures
        !status.is_paused || status.num_peers != 0 ==> tracker.observed(
            status,
            now,
        ).stable_since is None,
        status.is_paused && status.num_peers == 0 ==> {
            let after = tracker.observed(status, now);
            &&& after.stable_since is Some
            &&& after.total_downloaded == status.total_downloaded
            &&& after.total_uploaded == status.total_uploaded
            &&& tracker.stable_since is Some && tracker.total_downloaded == status.total_downloaded
                && tracker.total_uploaded == status.total_uploaded ==> after.stable_since
                == tracker.stable_since
            &&& tracker.stable_since is None || tracker.total_downloaded != status.total_downloaded
                || tracker.total_uploaded != status.total_uploaded ==> after.stable_since == Some(
                now,
            )
        },
{
}

/// A wait for silence ends well exactly with the confirmation, and badly exactly
/// when its time is up without one. In between the torrent is looked at every
/// fifty milliseconds, and never later than at the end.
pub proof fn law_pause_is_watched_to_the_end(
    watch: PauseConfirmation,
    status: PauseStatusSnapshot,
    observed_at: u64,
    now: u64,
)
    requires
        now + 50_000_000 <= u64::MAX,
    ensures
        ({
            let silent = status.is_paused && status.num_peers == 0 && status.total_downloaded
                == watch.silence.total_downloaded && status.total_uploaded
                == watch.silence.total_uploaded && watch.silence.stable_since is Some && observed_at
                >= watch.silence.stable_since->0 + 500_000_000;
            let answer = watch.look(status, observed_at, now);
            &&& silent && watch.paused_alert_seen ==> answer == Ok::<PauseWatch, PlaybackError>(
                PauseWatch::SilentWithAlert,
            )
            &&& silent && !watch.paused_alert_seen ==> answer == Ok::<PauseWatch, PlaybackError>(
                PauseWatch::Silent,
            )
            &&& !silent && now >= watch.deadline ==> answer == Err::<PauseWatch, PlaybackError>(
                PlaybackError::PauseNotSilent(status),
            )
            &&& !silent && now < watch.deadline ==> {
                &&& answer is Ok
                &&& answer->Ok_0 matches PauseWatch::PollUntil(until)
                &&& now < until <= watch.deadline
                &&& until <= now + 50_000_000
                &&& until == watch.deadline || until == now + 50_000_000
            }
        }),
{
}

/// While a pause is confirmed only a file error or a closed channel ends the
/// wait. The alert that the torrent is paused does not.
pub proof fn law_pause_alerts_do_not_decide(received: Received, codes: AlertCodes)
    ensures
        received is Lagged || received is TimedOut ==> PauseConfirmation::alert_answer(
            received,
            codes,
        ) is Ok,
        received is Closed ==> PauseConfirmation::alert_answer(received, codes) == Err::<
            (),
            PlaybackError,
        >(PlaybackError::AlertChannelClosed),
        received matches Received::Alert(alert) ==> {
            &&& alert.alert_type == codes.torrent_paused ==> PauseConfirmation::alert_answer(
                received,
                codes,
            ) is Ok
            &&& alert.alert_type != codes.file_error ==> PauseConfirmation::alert_answer(
                received,
                codes,
            ) is Ok
            &&& alert.alert_type == codes.file_error && codes.file_error != codes.torrent_paused
                ==> PauseConfirmation::alert_answer(received, codes) == Err::<(), PlaybackError>(
                PlaybackError::PauseFileError(alert.message),
            )
        },
{
}

/// A silenced torrent is idle and downloads none of its files. Its selection is
/// dropped only where that was asked for, and the rest of its state stays.
pub proof fn law_silenced_torrent_downloads_nothing(
    attempt: PauseAttempt,
    state: PlaybackView,
    file_count: nat,
    file: int,
)
    requires
        0 <= file < file_count,
    ensures
        ({
            let after = attempt.completed(state, file_count);
            &&& after.phase == LibtorrentNetworkPhase::PausedIdle
            &&& after.acknowledged_priorities matches Some(priorities)
            &&& priorities.len() == file_count
            &&& priorities[file] == 0
            &&& attempt.completed(state, 0).acknowledged_priorities is None
            &&& attempt.clear_selection ==> after.selected_file is None && after.selected_priority
                == 0
            &&& !attempt.clear_selection ==> after.selected_file == state.selected_file
                && after.selected_priority == state.selected_priority
            &&& after == (PlaybackView {
                phase: after.phase,
                acknowledged_priorities: after.acknowledged_priorities,
                selected_file: after.selected_file,
                selected_priority: after.selected_priority,
                ..state
            })
        }),
{
}

/// A pause that is still wanted is carried through: operations are taken, the
/// torrent is silenced, and files that are not known to be at zero are set to it.
/// While torrents seed there is nothing to do but to call it off.
pub proof fn law_pause_is_carried_through(
    attempt: PauseAttempt,
    state: PlaybackView,
    file_count: usize,
    seeding_enabled: bool,
)
    requires
        state.generation == attempt.generation,
    ensures
        attempt.next_action(state, PauseEvent::Requested, false) is HoldOperation,
        attempt.next_state(state, PauseEvent::Requested, false) == state,
        attempt.next_action(state, PauseEvent::Requested, true) is Finished,
        state.phase == LibtorrentNetworkPhase::PausePending ==> attempt.next_state(
            state,
            PauseEvent::Requested,
            true,
        ).phase == LibtorrentNetworkPhase::Active,
        attempt.next_action(state, PauseEvent::OperationHeld, seeding_enabled) is SilenceNative,
        attempt.next_state(state, PauseEvent::OperationHeld, seeding_enabled) == state,
        attempt.next_action(
            state,
            PauseEvent::PrioritiesCleared { file_count },
            seeding_enabled,
        ) is Finished,
        attempt.next_state(
            state,
            PauseEvent::PrioritiesCleared { file_count },
            seeding_enabled,
        ).phase == LibtorrentNetworkPhase::PausedIdle,
        ({
            let action = attempt.next_action(
                state,
                PauseEvent::Silent { file_count },
                seeding_enabled,
            );
            let after = attempt.next_state(state, PauseEvent::Silent { file_count }, seeding_enabled);
            &&& file_count > 0 && state.acknowledged_priorities is None
                ==> action is ApplyFilePriorities
            &&& action matches PauseActionView::ApplyFilePriorities(priorities) ==> {
                &&& priorities.len() == file_count
                &&& forall|i: int| 0 <= i < file_count ==> #[trigger] priorities[i] == 0
                &&& after == state
            }
            &&& !(action is ApplyFilePriorities) ==> action is Finished && after.phase
                == LibtorrentNetworkPhase::PausedIdle
            &&& action is ApplyFilePriorities <==> file_count > 0 && !(
            state.acknowledged_priorities is Some && state.acknowledged_priorities->0.len()
                == file_count && forall|i: int|
                0 <= i < file_count ==> #[trigger] state.acknowledged_priorities->0[i] == 0)
        }),
{
    if let Some(known) = state.acknowledged_priorities {
        let zeros = zero_priorities(file_count as nat);
        if known.len() == file_count && forall|i: int|
            0 <= i < file_count ==> #[trigger] known[i] == 0 {
            assert(known =~= zeros);
        }
        if known == zeros {
            assert forall|i: int| 0 <= i < file_count implies #[trigger] known[i] == 0 by {
                assert(zeros[i] == 0);
            }
        }
    }
}

/// A pause that was overtaken before it held the torrent's operations does not
/// touch the native torrent, and afterwards submits nothing more.
pub proof fn law_overtaken_pause_does_nothing(
    attempt: PauseAttempt,
    state: PlaybackView,
    file_count: usize,
    seeding_enabled: bool,
)
    requires
        state.generation != attempt.generation,
    ensures
        attempt.next_action(state, PauseEvent::OperationHeld, seeding_enabled) is Finished,
        attempt.next_action(state, PauseEvent::Silent { file_count }, seeding_enabled) is Finished,
        attempt.next_action(
            state,
            PauseEvent::PrioritiesCleared { file_count },
            seeding_enabled,
        ) is Finished,
{
}

/// What an action shows is what it holds.
pub proof fn law_pause_action_view_shows_the_action(action: PauseAction)
    ensures
        action is Finished <==> action@ is Finished,
        action is HoldOperation <==> action@ is HoldOperation,
        action is SilenceNative <==> action@ is SilenceNative,
        action is ApplyFilePriorities <==> action@ is ApplyFilePriorities,
        action matches PauseAction::ApplyFilePriorities(priorities) ==> action@
            == PauseActionView::ApplyFilePriorities(priorities@),
{
}

/// A look at a torrent confirms its silence after half a second without peers and
/// traffic, and starts anew with either.
pub proof fn law_look_confirms_half_a_second(status: PauseStatusSnapshot, now: u64)
    ensures
        forall|tracker: &mut PauseSilenceTracker, r: bool| #[trigger]
            call_ensures(PauseSilenceTracker::observe, (tracker, status, now), r) ==> {
                let before = *tracker;
                let after = *final(tracker);
                let quiet = status.is_paused && status.num_peers == 0;
                let same = before.stable_since is Some && before.total_downloaded
                    == status.total_downloaded && before.total_uploaded == status.total_uploaded;
                &&& r <==> quiet && same && now >= before.stable_since->0 + 500_000_000
                &&& !quiet ==> after.stable_since is None
                &&& quiet && same ==> after.stable_since == before.stable_since
                &&& quiet && !same ==> after.stable_since == Some(now) && after.total_downloaded
                    == status.total_downloaded && after.total_uploaded == status.total_uploaded
            },
{
}

/// A wait for silence runs five seconds and starts without having seen anything.
/// Only the alert that the torrent is paused is noted.
pub proof fn law_confirmation_runs_five_seconds(
    now: u64,
    watch: PauseConfirmation,
    received: Received,
    codes: &AlertCodes,
)
    requires
        call_ensures(PauseConfirmation::new, (now,), watch),
    ensures
        watch.deadline == now + 5_000_000_000,
        !watch.paused_alert_seen,
        watch.silence.stable_since is None,
        forall|waiting: &mut PauseConfirmation, r: Result<(), PlaybackError>| #[trigger]
            call_ensures(PauseConfirmation::alert_received, (waiting, received, codes), r) ==> {
                let paused = received matches Received::Alert(alert) && alert.alert_type
                    == codes.torrent_paused;
                &&& paused ==> (*final(waiting)).paused_alert_seen && r is Ok
                &&& !paused ==> (*final(waiting)).paused_alert_seen
                    == (*waiting).paused_alert_seen
                &&& (*final(waiting)).deadline == (*waiting).deadline
                &&& received is Closed ==> r == Err::<(), PlaybackError>(
                    PlaybackError::AlertChannelClosed,
                )
            },
{
}

/// A watched torrent is silent, not silent in time, or looked at again within
/// fifty milliseconds.
pub proof fn law_watch_ends_in_time(status: PauseStatusSnapshot, observed_at: u64, now: u64)
    requires
        now + 50_000_000 <= u64::MAX,
    ensures
        forall|watch: &mut PauseConfirmation, r: Result<PauseWatch, PlaybackError>| #[trigger]
            call_ensures(PauseConfirmation::watch, (watch, status, observed_at, now), r) ==> {
                let before = *watch;
                &&& r is Err ==> now >= before.deadline && r->Err_0 == PlaybackError::PauseNotSilent(
                    status,
                )
                &&& r matches Ok(PauseWatch::PollUntil(until)) ==> now < until <= before.deadline
                    && until <= now + 50_000_000
                &&& r matches Ok(PauseWatch::Silent) ==> status.is_paused && status.num_peers == 0
                    && !before.paused_alert_seen
                &&& r matches Ok(PauseWatch::SilentWithAlert) ==> status.is_paused
                    && status.num_peers == 0 && before.paused_alert_seen
                &&& now >= before.deadline ==> !(r matches Ok(PauseWatch::PollUntil(_)))
            },
{
}

/// A status is read as it is.
pub proof fn law_status_is_read_as_it_is(status: &TorrentStatus, r: PauseStatusSnapshot)
    requires
        call_ensures(pause_status, (status,), r),
    ensures
        r.is_paused == status.is_paused,
        r.num_peers == status.num_peers,
        r.total_downloaded == status.total_downloaded,
        r.total_uploaded == status.total_uploaded,
        r.download_rate == status.download_rate,
        r.upload_rate == status.upload_rate,
{
}

/// A pause of the current generation that was confirmed silent leaves the torrent
/// idle and downloading nothing; one that was overtaken leaves it alone.
pub proof fn law_confirmed_pause_leaves_the_torrent_idle(
    attempt: &PauseAttempt,
    file_count: usize,
    seeding_enabled: bool,
    event: PauseEvent,
    file: int,
)
    requires
        0 <= file < file_count,
    ensures
        forall|state: &mut TorrentPlaybackState, r: PauseAction| #[trigger]
            call_ensures(PauseAttempt::advance, (attempt, state, event, seeding_enabled), r)
                && (*state).generation != attempt.generation ==> (*final(state))@ == (*state)@,
        forall|state: &mut TorrentPlaybackState, r: PauseAction| #[trigger]
            call_ensures(
                PauseAttempt::advance,
                (
                    attempt,
                    state,
                    PauseEvent::PrioritiesCleared { file_count },
                    seeding_enabled,
                ),
                r,
            ) && (*state).generation == attempt.generation ==> {
                let after = *final(state);
                &&& r is Finished
                &&& after.phase == LibtorrentNetworkPhase::PausedIdle
                &&& after.acknowledged_priorities is Some
                &&& after.acknowledged_priorities->0@.len() == file_count
                &&& after.acknowledged_priorities->0@[file] == 0
                &&& attempt.clear_selection ==> after.selected_file is None
                &&& !attempt.clear_selection ==> after.selected_file == (*state).selected_file
            },
        forall|state: &mut TorrentPlaybackState, r: PauseAction| #[trigger]
            call_ensures(
                PauseAttempt::advance,
                (attempt, state, PauseEvent::Requested, seeding_enabled),
                r,
            ) ==> {
                &&& seeding_enabled ==> r is Finished
                &&& !seeding_enabled ==> r is HoldOperation && (*final(state))@ == (*state)@
            },
        forall|state: &mut TorrentPlaybackState, r: PauseAction| #[trigger]
            call_ensures(
                PauseAttempt::advance,
                (attempt, state, PauseEvent::OperationHeld, seeding_enabled),
                r,
            ) ==> {
                &&& (*state).generation == attempt.generation ==> r is SilenceNative
                &&& (*state).generation != attempt.generation ==> r is Finished
            },
{
}

} // verus!
