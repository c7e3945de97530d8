//! What readers, metadata queries, HLS, verified pieces and the idle clock do
//! to a torrent's playback state.

use crate::cancellation::{cancel_requested, raised, share_token, token_is_cancelled};
use crate::domain::PlaybackIntent;
use crate::errors::PlaybackError;
use crate::permits::{
    law_grant_then_give_back, lemma_total_splits, permit_count, permit_total, without_permit,
};
use crate::playback::{
    elapsed_since, next_generation, selection_made, LibtorrentNetworkPhase, PlaybackView,
    SelectRequest, Selection, TorrentPlaybackState, EMERGENCY_REANNOUNCE_COOLDOWN,
    HLS_ACTIVITY_TTL, IDLE_PAUSE_GRACE, PAUSE_RETRY_DELAY,
};
use tokio_util::sync::CancellationToken;
use vstd::prelude::*;

verus! {

/// A request to start reading a file.
#[derive(Debug, Clone)]
pub struct LibtorrentPlaybackStart {
    pub file_idx: usize,
    pub start_offset: u64,
    pub priority: u8,
    pub intent: PlaybackIntent,
    pub bitrate_bytes_per_sec: Option<u64>,
    pub source: &'static str,
}

/// A reader's claim on a torrent. It is given back with `release`, once.
pub struct LibtorrentPlaybackPermit {
    pub info_hash: String,
    pub file_idx: usize,
    pub generation: u64,
    pub cancellation: CancellationToken,
    pub foreground: bool,
    pub subordinate: bool,
    pub released: bool,
}

/// A message to the playback coordinator.
#[derive(Debug, Clone, PartialEq, Eq)]
pub enum PlaybackCommand {
    ReleasePlayback { info_hash: String, file_idx: usize, generation: u64, foreground: bool },
    ReleaseMetadata { info_hash: String, generation: u64 },
    SeedingEnabled(bool),
    PieceVerified { info_hash: String, piece: i32 },
    PieceInvalidated { info_hash: String, piece: i32 },
}

impl LibtorrentPlaybackPermit {
    /// Whether the reader was superseded by now. It is once its own token was
    /// cancelled, and only where cancellation is asked for. What it reads between
    /// the two depends on when another holder cancels.
    pub fn is_cancelled(&self) -> (r: bool)
        ensures
            r ==> cancel_requested(self.cancellation),
            raised(self.cancellation) ==> r,
    {
        token_is_cancelled(&self.cancellation)
    }

    /// Whether the reader joined a file that a foreground reader drives.
    pub fn is_subordinate(&self) -> (r: bool)
        ensures
            r == self.subordinate,
    {
        self.subordinate
    }

    /// Gives the permit back. Only the first call has anything to send.
    pub fn release(&mut self) -> (r: Option<PlaybackCommand>)
        ensures
            final(self).released,
            final(self).info_hash == old(self).info_hash,
            final(self).file_idx == old(self).file_idx,
            final(self).generation == old(self).generation,
            final(self).cancellation == old(self).cancellation,
            final(self).foreground == old(self).foreground,
            final(self).subordinate == old(self).subordinate,
            r == (if old(self).released {
                None
            } else {
                Some(
                    PlaybackCommand::ReleasePlayback {
                        info_hash: old(self).info_hash,
                        file_idx: old(self).file_idx,
                        generation: old(self).generation,
                        foreground: old(self).foreground,
                    },
                )
            }),
    {
        if self.released {
            return None;
        }
        self.released = true;
        Some(
            PlaybackCommand::ReleasePlayback {
                info_hash: self.info_hash.clone(),
                file_idx: self.file_idx,
                generation: self.generation,
                foreground: self.foreground,
            },
        )
    }
}

/// The native priority a request asks for: none for a complete file, the
/// highest for downloads, the lowest that downloads at all for the rest.
pub open spec fn requested_priority(complete: bool, intent: PlaybackIntent) -> i32 {
    if complete {
        0
    } else if intent == PlaybackIntent::DownloadFull || intent == PlaybackIntent::DownloadRange {
        7
    } else {
        1
    }
}

/// Probes and background reads never drive the selection.
pub open spec fn is_foreground_intent(intent: PlaybackIntent) -> bool {
    intent != PlaybackIntent::InternalProbe && intent != PlaybackIntent::Background
}

impl PlaybackView {
    /// Whether a request has to yield to a different file that is being played.
    pub open spec fn rejects(self, start: LibtorrentPlaybackStart) -> bool {
        !is_foreground_intent(start.intent) && self.foreground_readers() > 0 && self.selected_file
            != Some(start.file_idx)
    }

    /// The selection that an admitted request makes. A probe of the file that
    /// is being played keeps that file's priority.
    pub open spec fn admitted_request(
        self,
        start: LibtorrentPlaybackStart,
        complete: bool,
        seeding_enabled: bool,
    ) -> SelectRequest {
        let foreground = is_foreground_intent(start.intent);
        SelectRequest {
            file_idx: start.file_idx,
            native_priority: if !foreground && self.foreground_readers() > 0 {
                self.selected_priority
            } else {
                requested_priority(complete, start.intent)
            },
            direct_permit: true,
            hls_activity: false,
            network_required: !complete || seeding_enabled,
            foreground,
        }
    }

    /// The selection that HLS activity makes.
    pub open spec fn hls_request(
        self,
        file_idx: usize,
        complete: bool,
        seeding_enabled: bool,
    ) -> SelectRequest {
        SelectRequest {
            file_idx,
            native_priority: if complete {
                0
            } else {
                1
            },
            direct_permit: false,
            hls_activity: true,
            network_required: !complete || seeding_enabled,
            foreground: false,
        }
    }

    /// The state after a reader gave its permit back.
    pub open spec fn playback_released(
        self,
        generation: u64,
        foreground: bool,
        now: u64,
    ) -> PlaybackView {
        let released = PlaybackView {
            direct_permits: without_permit(self.direct_permits, generation),
            foreground_permits: if foreground {
                without_permit(self.foreground_permits, generation)
            } else {
                self.foreground_permits
            },
            ..self
        };
        released.idle_scheduled(now)
    }

    /// The state after a metadata query was counted out.
    pub open spec fn metadata_released(self, now: u64) -> PlaybackView {
        let released = PlaybackView {
            metadata_permits: if self.metadata_permits == 0 {
                0
            } else {
                (self.metadata_permits - 1) as usize
            },
            ..self
        };
        released.idle_scheduled(now)
    }

    /// The state after a metadata query was counted in.
    pub open spec fn metadata_acquired(self, has_metadata: bool) -> PlaybackView {
        PlaybackView {
            metadata_permits: if self.metadata_permits == usize::MAX {
                self.metadata_permits
            } else {
                (self.metadata_permits + 1) as usize
            },
            phase: if has_metadata {
                self.phase
            } else {
                LibtorrentNetworkPhase::Active
            },
            idle_deadline: None,
            metadata_announced: self.metadata_announced || !has_metadata,
            ..self
        }
    }

    /// Whether the end of HLS playback of `file_idx` concerns this torrent.
    pub open spec fn hls_end_applies(self, file_idx: usize) -> bool {
        self.selected_file == Some(file_idx) || self.hls_last_activity is Some
    }

    /// The state after an expired HLS activity was dropped.
    pub open spec fn hls_expired(self, now: u64) -> PlaybackView {
        if self.hls_last_activity is Some && !self.hls_is_active(now) {
            PlaybackView { hls_last_activity: None, idle_deadline: Some(now), ..self }
        } else {
            self
        }
    }

    /// Whether a torrent that nothing needs has waited long enough.
    pub open spec fn pause_is_due(self, now: u64) -> bool {
        &&& !self.has_activity(now)
        &&& self.idle_deadline matches Some(deadline) && deadline <= now
        &&& self.phase != LibtorrentNetworkPhase::PausedIdle
    }

    /// The generation in which a torrent is paused now, if its pause is due: its
    /// own where a pause is pending, else a new one.
    pub open spec fn due_generation(self, now: u64) -> Option<u64> {
        let expired = self.hls_expired(now);
        if !expired.pause_is_due(now) {
            None
        } else if expired.phase == LibtorrentNetworkPhase::PausePending {
            Some(expired.generation)
        } else {
            Some(next_generation(expired.generation))
        }
    }

    /// Whether `after` is this state once the due pause was begun, if any is.
    pub open spec fn became_due(self, after: PlaybackView, now: u64) -> bool {
        let expired = self.hls_expired(now);
        if !expired.pause_is_due(now) {
            after == expired
        } else if expired.phase == LibtorrentNetworkPhase::PausePending {
            after == (PlaybackView { idle_deadline: None, ..expired })
        } else {
            &&& after == expired.pausing(after.cancellation)
            &&& cancel_requested(self.cancellation)
            &&& !raised(after.cancellation)
            &&& after.cancellation != self.cancellation
        }
    }

    /// Whether an emergency announce is allowed at `now`.
    pub open spec fn reannounce_allowed(self, now: u64) -> bool {
        match self.last_emergency_reannounce {
            Some(last) => elapsed_since(last, now) >= EMERGENCY_REANNOUNCE_COOLDOWN,
            None => true,
        }
    }
}

/// What a metadata query has to do to the native torrent.
#[derive(Debug, Clone, Copy, PartialEq, Eq)]
pub struct MetadataActivation {
    pub generation: u64,
    pub resume: bool,
    pub announce: bool,
}

/// What the end of HLS playback leads to.
#[derive(Debug, Clone, Copy, PartialEq, Eq)]
pub enum HlsEnd {
    /// It concerned another file.
    Ignored,
    /// The torrent goes on seeding.
    KeptActive { generation: u64 },
    /// The torrent was silent already.
    AlreadyPaused { generation: u64 },
    /// The torrent has to be silenced.
    Pause { generation: u64 },
}

/// The selected file when a piece was verified.
#[derive(Debug, Clone, Copy, PartialEq, Eq)]
pub struct SelectedPlayback {
    pub file_idx: usize,
    pub generation: u64,
    pub phase: LibtorrentNetworkPhase,
}

pub fn native_priority_for(complete: bool, intent: PlaybackIntent) -> (r: i32)
    ensures
        r == requested_priority(complete, intent),
{
    if complete {
        0
    } else if intent == PlaybackIntent::DownloadFull || intent == PlaybackIntent::DownloadRange {
        7
    } else {
        1
    }
}

pub fn drives_selection(intent: PlaybackIntent) -> (r: bool)
    ensures
        r == is_foreground_intent(intent),
{
    intent != PlaybackIntent::InternalProbe && intent != PlaybackIntent::Background
}

impl TorrentPlaybackState {
    pub fn selection_is_current(&self, file_idx: usize, generation: u64) -> (r: bool)
        ensures
            r == self@.selection_is_current(file_idx, generation),
    {
        self.generation == generation && match self.selected_file {
            Some(selected) => selected == file_idx,
            None => false,
        }
    }

    /// Admits a reader: selects its file and hands out a permit.
    ///
    /// A probe or background read of a file other than the one that foreground
    /// readers play is turned away and changes nothing.
    pub fn start_playback(
        &mut self,
        info_hash: String,
        start: &LibtorrentPlaybackStart,
        complete: bool,
        seeding_enabled: bool,
        now: u64,
    ) -> (r: Result<(LibtorrentPlaybackPermit, Selection), PlaybackError>)
        requires
            old(self).wf(),
            old(self)@.has_room_for_reader(),
        ensures
            final(self).wf(),
            match r {
                Ok((permit, selection)) => {
                    &&& !old(self)@.rejects(*start)
                    &&& selection_made(
                        old(self)@,
                        old(self)@.admitted_request(*start, complete, seeding_enabled),
                        now,
                        final(self)@,
                        selection,
                    )
                    &&& permit == (LibtorrentPlaybackPermit {
                        info_hash,
                        file_idx: start.file_idx,
                        generation: selection.generation,
                        cancellation: selection.cancellation,
                        foreground: is_foreground_intent(start.intent),
                        subordinate: selection.subordinate,
                        released: false,
                    })
                },
                Err(error) => {
                    &&& old(self)@.rejects(*start)
                    &&& error == PlaybackError::BackgroundProbeRejected
                    &&& final(self)@ == old(self)@
                },
            },
    {
        let foreground: bool = drives_selection(start.intent);
        let same_file: bool = match self.selected_file {
            Some(selected) => selected == start.file_idx,
            None => false,
        };
        let yields: bool = !foreground && self.active_foreground_permits() > 0;
        if yields && !same_file {
            return Err(PlaybackError::BackgroundProbeRejected);
        }
        let native_priority: i32 = if yields {
            self.selected_priority
        } else {
            native_priority_for(complete, start.intent)
        };
        let selection: Selection = self.select(
            start.file_idx,
            native_priority,
            true,
            false,
            !complete || seeding_enabled,
            foreground,
            now,
        );
        let permit: LibtorrentPlaybackPermit = LibtorrentPlaybackPermit {
            info_hash,
            file_idx: start.file_idx,
            generation: selection.generation,
            cancellation: share_token(&selection.cancellation),
            foreground,
            subordinate: selection.subordinate,
            released: false,
        };
        Ok((permit, selection))
    }

    /// Records HLS activity on a file. Native work follows only where the
    /// selection changed.
    pub fn refresh_hls(
        &mut self,
        file_idx: usize,
        complete: bool,
        seeding_enabled: bool,
        now: u64,
    ) -> (r: Selection)
        requires
            old(self).wf(),
        ensures
            final(self).wf(),
            selection_made(
                old(self)@,
                old(self)@.hls_request(file_idx, complete, seeding_enabled),
                now,
                final(self)@,
                r,
            ),
    {
        let native_priority: i32 = if complete {
            0
        } else {
            1
        };
        self.select(
            file_idx,
            native_priority,
            false,
            true,
            !complete || seeding_enabled,
            false,
            now,
        )
    }

    /// Ends HLS playback of a file and says whether the torrent has to be
    /// silenced. With seeding on, no pause is left pending.
    pub fn end_hls(&mut self, file_idx: usize, seeding_enabled: bool) -> (r: HlsEnd)
        requires
            old(self).wf(),
        ensures
            final(self).wf(),
            !old(self)@.hls_end_applies(file_idx) ==> {
                &&& r == HlsEnd::Ignored
                &&& final(self)@ == old(self)@
            },
            old(self)@.hls_end_applies(file_idx) ==> {
                let generation = next_generation(old(self)@.generation);
                let paused = old(self)@.pausing(final(self)@.cancellation);
                &&& cancel_requested(old(self)@.cancellation)
                &&& !raised(final(self)@.cancellation)
                &&& final(self)@.cancellation != old(self)@.cancellation
                &&& if seeding_enabled {
                    &&& r == HlsEnd::KeptActive { generation }
                    &&& final(self)@ == (PlaybackView {
                        phase: LibtorrentNetworkPhase::Active,
                        ..paused
                    })
                } else if old(self)@.phase == LibtorrentNetworkPhase::PausedIdle {
                    &&& r == HlsEnd::AlreadyPaused { generation }
                    &&& final(self)@ == (PlaybackView {
                        phase: LibtorrentNetworkPhase::PausedIdle,
                        ..paused
                    })
                } else {
                    &&& r == HlsEnd::Pause { generation }
                    &&& final(self)@ == paused
                }
            },
    {
        let selected: bool = match self.selected_file {
            Some(selected) => selected == file_idx,
            None => false,
        };
        if !selected && self.hls_last_activity.is_none() {
            return HlsEnd::Ignored;
        }
        let already_paused: bool = self.phase == LibtorrentNetworkPhase::PausedIdle;
        let generation: u64 = self.begin_pause();
        if seeding_enabled {
            self.keep_active_for_seeding(generation);
            return HlsEnd::KeptActive { generation };
        }
        if already_paused {
            self.phase = LibtorrentNetworkPhase::PausedIdle;
            return HlsEnd::AlreadyPaused { generation };
        }
        HlsEnd::Pause { generation }
    }

    /// Counts a metadata query in. Without metadata the network has to run,
    /// and the first such query also announces the torrent.
    pub fn acquire_metadata(&mut self, has_metadata: bool, is_paused: bool) -> (r:
        MetadataActivation)
        requires
            old(self).wf(),
        ensures
            final(self).wf(),
            final(self)@ == old(self)@.metadata_acquired(has_metadata),
            r == (MetadataActivation {
                generation: old(self)@.generation,
                resume: !has_metadata && is_paused,
                announce: !has_metadata && !old(self)@.metadata_announced,
            }),
    {
        self.metadata_permits = self.metadata_permits.saturating_add(1);
        self.idle_deadline = None;
        let generation: u64 = self.generation;
        if has_metadata {
            return MetadataActivation { generation, resume: false, announce: false };
        }
        self.phase = LibtorrentNetworkPhase::Active;
        let announce: bool = !self.metadata_announced;
        self.metadata_announced = true;
        MetadataActivation { generation, resume: is_paused, announce }
    }

    /// Takes a reader's permit back and restarts the idle countdown if it was
    /// the last.
    pub fn release_playback(&mut self, generation: u64, foreground: bool, now: u64)
        requires
            old(self).wf(),
            now + IDLE_PAUSE_GRACE <= u64::MAX,
        ensures
            final(self).wf(),
            final(self)@ == old(self)@.playback_released(generation, foreground, now),
    {
        self.direct_permits.give_back(generation);
        if foreground {
            self.foreground_permits.give_back(generation);
        }
        self.schedule_idle_if_needed(now);
    }

    /// Counts a metadata query out and restarts the idle countdown if it was
    /// the last.
    pub fn release_metadata(&mut self, now: u64)
        requires
            old(self).wf(),
            now + IDLE_PAUSE_GRACE <= u64::MAX,
        ensures
            final(self).wf(),
            final(self)@ == old(self)@.metadata_released(now),
    {
        self.metadata_permits = self.metadata_permits.saturating_sub(1);
        self.schedule_idle_if_needed(now);
    }

    /// A piece was verified. The first piece of a playback is waited for only
    /// once.
    pub fn piece_verified(&mut self, piece: i32) -> (r: Option<SelectedPlayback>)
        requires
            old(self).wf(),
        ensures
            final(self).wf(),
            final(self)@ == (PlaybackView {
                selected_first_piece: if old(self)@.selected_first_piece == Some(piece) {
                    None
                } else {
                    old(self)@.selected_first_piece
                },
                ..old(self)@
            }),
            r == (match old(self)@.selected_file {
                Some(file_idx) => Some(
                    SelectedPlayback {
                        file_idx,
                        generation: old(self)@.generation,
                        phase: old(self)@.phase,
                    },
                ),
                None => None,
            }),
    {
        if let Some(awaited) = self.selected_first_piece {
            if awaited == piece {
                self.selected_first_piece = None;
            }
        }
        match self.selected_file {
            Some(file_idx) => Some(
                SelectedPlayback { file_idx, generation: self.generation, phase: self.phase },
            ),
            None => None,
        }
    }

    /// Marks a torrent whose playback file just became complete for a pause,
    /// unless something else was selected meanwhile.
    pub fn begin_completion_pause(&mut self, file_idx: usize, generation: u64) -> (r: bool)
        requires
            old(self).wf(),
        ensures
            final(self).wf(),
            r == (old(self)@.selection_is_current(file_idx, generation) && old(self)@.phase
                == LibtorrentNetworkPhase::Active),
            final(self)@ == (if r {
                PlaybackView { phase: LibtorrentNetworkPhase::PausePending, ..old(self)@ }
            } else {
                old(self)@
            }),
    {
        if !self.selection_is_current(file_idx, generation) || self.phase
            != LibtorrentNetworkPhase::Active {
            return false;
        }
        self.phase = LibtorrentNetworkPhase::PausePending;
        true
    }

    /// The pause of a completed playback failed: the network is still running.
    pub fn completion_pause_failed(&mut self, generation: u64)
        requires
            old(self).wf(),
        ensures
            final(self).wf(),
            final(self)@ == (if old(self)@.generation == generation {
                PlaybackView { phase: LibtorrentNetworkPhase::Active, ..old(self)@ }
            } else {
                old(self)@
            }),
    {
        if self.generation == generation {
            self.phase = LibtorrentNetworkPhase::Active;
        }
    }

    /// Starts the pause of a torrent that nothing has needed for long enough.
    /// A pause that is still pending is tried again in its own generation.
    pub fn begin_due_pause(&mut self, now: u64) -> (r: Option<u64>)
        requires
            old(self).wf(),
        ensures
            final(self).wf(),
            r == old(self)@.due_generation(now),
            old(self)@.became_due(final(self)@, now),
    {
        if self.hls_last_activity.is_some() && !self.hls_is_active(now) {
            self.hls_last_activity = None;
            self.idle_deadline = Some(now);
        }
        let waited: bool = match self.idle_deadline {
            Some(deadline) => deadline <= now,
            None => false,
        };
        let due: bool = !self.has_activity(now) && waited && self.phase
            != LibtorrentNetworkPhase::PausedIdle;
        if !due {
            None
        } else if self.phase == LibtorrentNetworkPhase::PausePending {
            self.idle_deadline = None;
            Some(self.generation)
        } else {
            Some(self.begin_pause())
        }
    }

    /// An idle pause could not be confirmed: it stays pending and is due again
    /// a little later.
    pub fn idle_pause_failed(&mut self, generation: u64, now: u64)
        requires
            old(self).wf(),
            now + PAUSE_RETRY_DELAY <= u64::MAX,
        ensures
            final(self).wf(),
            final(self)@ == (if old(self)@.generation == generation {
                PlaybackView {
                    phase: LibtorrentNetworkPhase::PausePending,
                    idle_deadline: Some((now + PAUSE_RETRY_DELAY) as u64),
                    ..old(self)@
                }
            } else {
                old(self)@
            }),
    {
        if self.generation == generation {
            self.phase = LibtorrentNetworkPhase::PausePending;
            self.idle_deadline = Some(now + PAUSE_RETRY_DELAY);
        }
    }

    /// Seeding was switched on: no idle pause is to come, and a torrent that
    /// is silent or about to be has to be woken.
    pub fn begin_seeding_resume(&mut self) -> (r: bool)
        requires
            old(self).wf(),
        ensures
            final(self).wf(),
            final(self)@ == (PlaybackView { idle_deadline: None, ..old(self)@ }),
            r == (old(self)@.phase != LibtorrentNetworkPhase::Active),
    {
        self.idle_deadline = None;
        self.phase == LibtorrentNetworkPhase::PausePending || self.phase
            == LibtorrentNetworkPhase::PausedIdle
    }

    /// The native torrent was found for seeding: the network runs again.
    pub fn finish_seeding_resume(&mut self)
        requires
            old(self).wf(),
        ensures
            final(self).wf(),
            final(self)@ == (PlaybackView { phase: LibtorrentNetworkPhase::Active, ..old(self)@ }),
    {
        self.phase = LibtorrentNetworkPhase::Active;
    }

    /// Whether a playback that still has neither a peer nor its first piece
    /// may announce the torrent again.
    pub fn emergency_reannounce(&mut self, num_peers: i32, piece_present: bool, now: u64) -> (r:
        bool)
        requires
            old(self).wf(),
        ensures
            final(self).wf(),
            r == (num_peers <= 0 && !piece_present && old(self)@.reannounce_allowed(now)),
            final(self)@ == (if r {
                PlaybackView { last_emergency_reannounce: Some(now), ..old(self)@ }
            } else {
                old(self)@
            }),
    {
        if num_peers > 0 || piece_present {
            return false;
        }
        let allowed: bool = match self.last_emergency_reannounce {
            Some(last) => now.saturating_sub(last) >= EMERGENCY_REANNOUNCE_COOLDOWN,
            None => true,
        };
        if allowed {
            self.last_emergency_reannounce = Some(now);
        }
        allowed
    }
}

/// A reader leaves no trace in the counts: giving its permit back undoes what
/// selecting its file added, whatever was selected before.
pub proof fn law_reader_leaves_no_trace(
    state: PlaybackView,
    request: SelectRequest,
    token: CancellationToken,
    opened: u64,
    closed: u64,
)
    requires
        request.direct_permit,
        state.has_room_for_reader(),
        state.direct_permits.dom().finite(),
        state.foreground_permits.dom().finite(),
        forall|g: u64| #[trigger]
            state.direct_permits.contains_key(g) ==> state.direct_permits[g] > 0,
        forall|g: u64| #[trigger]
            state.foreground_permits.contains_key(g) ==> state.foreground_permits[g] > 0,
    ensures
        ({
            let reading = state.selected(request, opened, token);
            let done = reading.playback_released(reading.generation, request.foreground, closed);
            &&& done.direct_permits == state.direct_permits
            &&& done.foreground_permits == state.foreground_permits
        }),
{
    let generation = state.selected(request, opened, token).generation;
    lemma_total_splits(state.direct_permits, generation);
    lemma_total_splits(state.foreground_permits, generation);
    law_grant_then_give_back(state.direct_permits, generation);
    law_grant_then_give_back(state.foreground_permits, generation);
}

/// A probe or background read that is admitted beside foreground readers joins
/// them: generation, file, priority and the piece waited for stay.
pub proof fn law_probe_joins_without_moving_selection(
    state: PlaybackView,
    start: LibtorrentPlaybackStart,
    complete: bool,
    seeding_enabled: bool,
    now: u64,
    token: CancellationToken,
)
    requires
        !is_foreground_intent(start.intent),
        state.foreground_readers() > 0,
        !state.rejects(start),
    ensures
        ({
            let request = state.admitted_request(start, complete, seeding_enabled);
            let joined = state.selected(request, now, token);
            &&& !state.selection_changes(request.file_idx, request.native_priority)
            &&& joined.generation == state.generation
            &&& joined.selected_file == state.selected_file
            &&& joined.selected_priority == state.selected_priority
            &&& joined.selected_first_piece == state.selected_first_piece
            &&& joined.foreground_readers() == state.foreground_readers()
        }),
{
}

/// Opening another range of the file that is playing, with the same priority,
/// stays in its generation.
pub proof fn law_same_file_reuses_generation(
    state: PlaybackView,
    request: SelectRequest,
    now: u64,
    token: CancellationToken,
)
    ensures
        ({
            let once = state.selected(request, now, token);
            let twice = once.selected(request, now, token);
            &&& !once.selection_changes(request.file_idx, request.native_priority)
            &&& twice.generation == once.generation
            &&& twice.selected_file == once.selected_file
        }),
{
}

/// Generations never go back, and a change of selection or a pause takes a new
/// one until the counter is exhausted.
pub proof fn law_generations_advance(
    state: PlaybackView,
    request: SelectRequest,
    now: u64,
    token: CancellationToken,
)
    ensures
        state.selected(request, now, token).generation >= state.generation,
        state.selection_changes(request.file_idx, request.native_priority) && state.generation
            < u64::MAX ==> state.selected(request, now, token).generation == state.generation + 1,
        state.generation < u64::MAX ==> state.pausing(token).generation == state.generation + 1,
        state.pausing(token).generation >= state.generation,
{
}

/// A change of selection ends the generation before it and starts one with a
/// token of its own: cancellation is asked for on the old token, and the new
/// generation has another one, which was not cancelled.
pub proof fn law_change_ends_old_generation(
    pre: PlaybackView,
    request: SelectRequest,
    now: u64,
    post: PlaybackView,
    selection: Selection,
)
    requires
        selection_made(pre, request, now, post, selection),
        pre.selection_changes(request.file_idx, request.native_priority),
    ensures
        cancel_requested(pre.cancellation),
        !raised(post.cancellation),
        !raised(selection.cancellation),
        selection.cancellation == post.cancellation,
        selection.cancellation != pre.cancellation,
        pre.generation < u64::MAX ==> selection.generation == pre.generation + 1,
{
}

/// A complete file is read without touching the network: a silent torrent
/// stays silent.
pub proof fn law_local_read_keeps_phase(
    state: PlaybackView,
    start: LibtorrentPlaybackStart,
    now: u64,
    token: CancellationToken,
)
    ensures
        state.selected(state.admitted_request(start, true, false), now, token).phase == state.phase,
        state.selected(state.hls_request(start.file_idx, true, false), now, token).phase
            == state.phase,
{
}

/// A torrent that was just added is silent and stays so until something needs
/// the network: nothing is selected, nothing counts as activity, no pause comes,
/// and a look at metadata that is already there does not wake it.
pub proof fn law_added_torrent_is_silent(token: CancellationToken, now: u64)
    ensures
        ({
            let added = PlaybackView::just_added(token);
            &&& added.phase == LibtorrentNetworkPhase::PausedIdle
            &&& added.selected_file is None
            &&& added.acknowledged_priorities is None
            &&& !added.has_activity(now)
            &&& added.due_generation(now) is None
            &&& added.metadata_acquired(true).phase == LibtorrentNetworkPhase::PausedIdle
        }),
{
    assert(Map::<u64, usize>::empty().dom() =~= Set::<u64>::empty());
}

/// An incomplete file, or seeding, brings the network up.
pub proof fn law_network_runs_when_needed(
    state: PlaybackView,
    start: LibtorrentPlaybackStart,
    complete: bool,
    seeding_enabled: bool,
    now: u64,
    token: CancellationToken,
)
    requires
        !complete || seeding_enabled,
    ensures
        state.selected(
            state.admitted_request(start, complete, seeding_enabled),
            now,
            token,
        ).phase == LibtorrentNetworkPhase::Active,
{
}

/// One HLS request counts as activity for exactly its time to live.
pub proof fn law_hls_activity_expires(
    state: PlaybackView,
    request: SelectRequest,
    token: CancellationToken,
    seen: u64,
    now: u64,
)
    requires
        request.hls_activity,
        seen <= now,
    ensures
        state.selected(request, seen, token).hls_is_active(now) <==> now - seen < HLS_ACTIVITY_TTL,
{
}

/// A torrent that something still needs is never picked for an idle pause.
pub proof fn law_needed_torrent_is_not_paused(state: PlaybackView, now: u64)
    requires
        state.has_activity(now),
    ensures
        !state.hls_expired(now).pause_is_due(now),
{
}

/// A running torrent that nothing needs any more is picked for a pause exactly
/// from its deadline on, and the deadline lies within the grace.
pub proof fn law_idle_torrent_is_paused(state: PlaybackView, now: u64, later: u64)
    requires
        !state.has_activity(now),
        state.phase != LibtorrentNetworkPhase::PausedIdle,
        now <= later,
        now + IDLE_PAUSE_GRACE <= u64::MAX,
    ensures
        ({
            let waiting = state.idle_scheduled(now);
            &&& waiting.idle_deadline matches Some(deadline)
            &&& now <= deadline <= now + IDLE_PAUSE_GRACE
            &&& waiting.hls_expired(later).pause_is_due(later) <==> deadline <= later
        }),
{
}

/// Ending HLS while seeding never leaves a pause pending, and the selection is
/// gone.
pub proof fn law_seeding_leaves_no_pause_pending(state: PlaybackView, token: CancellationToken)
    ensures
        ({
            let ended = state.pausing(token).kept_for_seeding(next_generation(state.generation));
            &&& ended.phase == LibtorrentNetworkPhase::Active
            &&& ended.selected_file is None
            &&& ended.hls_last_activity is None
        }),
{
}

/// Two emergency announces of one torrent lie at least the cooldown apart.
pub proof fn law_emergency_announces_keep_distance(state: PlaybackView, first: u64, second: u64)
    requires
        first <= second,
        (PlaybackView {
            last_emergency_reannounce: Some(first),
            ..state
        }).reannounce_allowed(second),
    ensures
        second - first >= EMERGENCY_REANNOUNCE_COOLDOWN,
{
}

/// A file that is not complete is downloaded, whoever opens it: by HLS at the
/// lowest priority that downloads at all, by a reader at least at that, and by a
/// download at the highest. A complete file is asked for by nobody.
pub proof fn law_incomplete_file_is_downloaded(
    state: PlaybackView,
    start: LibtorrentPlaybackStart,
    file_idx: usize,
    seeding_enabled: bool,
)
    requires
        start.intent != PlaybackIntent::InternalProbe && start.intent != PlaybackIntent::Background
            || !state.foreground_permits.contains_key(state.generation),
    ensures
        state.hls_request(file_idx, false, seeding_enabled).native_priority == 1,
        state.hls_request(file_idx, true, seeding_enabled).native_priority == 0,
        state.admitted_request(start, true, seeding_enabled).native_priority == 0,
        start.intent == PlaybackIntent::DownloadFull || start.intent
            == PlaybackIntent::DownloadRange ==> state.admitted_request(
            start,
            false,
            seeding_enabled,
        ).native_priority == 7,
        start.intent != PlaybackIntent::DownloadFull && start.intent
            != PlaybackIntent::DownloadRange ==> state.admitted_request(
            start,
            false,
            seeding_enabled,
        ).native_priority == 1,
{
}

/// Opening a file that is not complete, by HLS or as a reader that leads, ends
/// with that file selected at a priority above zero and with the network up,
/// whatever was selected before.
pub proof fn law_opened_file_plays(
    state: PlaybackView,
    start: LibtorrentPlaybackStart,
    seeding_enabled: bool,
    now: u64,
    token: CancellationToken,
)
    requires
        start.intent != PlaybackIntent::InternalProbe,
        start.intent != PlaybackIntent::Background,
    ensures
        ({
            let played = state.selected(
                state.admitted_request(start, false, seeding_enabled),
                now,
                token,
            );
            let streamed = state.selected(
                state.hls_request(start.file_idx, false, seeding_enabled),
                now,
                token,
            );
            &&& played.selected_file is Some && played.selected_file->0 == start.file_idx
            &&& streamed.selected_file is Some && streamed.selected_file->0 == start.file_idx
            &&& played.selected_priority >= 1
            &&& streamed.selected_priority == 1
            &&& played.phase == LibtorrentNetworkPhase::Active
            &&& streamed.phase == LibtorrentNetworkPhase::Active
            &&& streamed.hls_last_activity is Some && streamed.hls_last_activity->0 == now
            &&& played.hls_last_activity == state.hls_last_activity
        }),
{
}

/// What a reader is counted as follows from its intent alone: everything but
/// probes and background reads leads. HLS holds no reader, and a reader is no HLS
/// activity. Both need the network exactly for a file that is not complete, or
/// to seed.
pub proof fn law_requests_say_what_they_are(
    state: PlaybackView,
    start: LibtorrentPlaybackStart,
    complete: bool,
    seeding_enabled: bool,
)
    ensures
        ({
            let reader = state.admitted_request(start, complete, seeding_enabled);
            let hls = state.hls_request(start.file_idx, complete, seeding_enabled);
            &&& reader.file_idx == start.file_idx
            &&& hls.file_idx == start.file_idx
            &&& reader.direct_permit
            &&& !hls.direct_permit
            &&& !reader.hls_activity
            &&& hls.hls_activity
            &&& !hls.foreground
            &&& reader.foreground <==> start.intent != PlaybackIntent::InternalProbe
                && start.intent != PlaybackIntent::Background
            &&& reader.network_required <==> !complete || seeding_enabled
            &&& hls.network_required <==> !complete || seeding_enabled
        }),
{
}

/// Nobody but a probe or a background read is ever turned away, and those only
/// where somebody in the foreground plays another file.
pub proof fn law_only_probes_are_turned_away(state: PlaybackView, start: LibtorrentPlaybackStart)
    ensures
        state.rejects(start) ==> start.intent == PlaybackIntent::InternalProbe || start.intent
            == PlaybackIntent::Background,
        state.rejects(start) ==> state.foreground_permits.contains_key(state.generation)
            && state.foreground_permits[state.generation] > 0,
        state.rejects(start) ==> !(state.selected_file is Some && state.selected_file->0
            == start.file_idx),
        (start.intent == PlaybackIntent::InternalProbe || start.intent
            == PlaybackIntent::Background) && state.foreground_permits.contains_key(
            state.generation,
        ) && state.foreground_permits[state.generation] > 0 && !(state.selected_file is Some
            && state.selected_file->0 == start.file_idx) ==> state.rejects(start),
{
}

/// A reader that leaves gives one permit of its generation back, as a foreground
/// reader only where it was one, and restarts the countdown. Selection and phase
/// stay.
pub proof fn law_leaving_reader_restarts_countdown(
    state: PlaybackView,
    generation: u64,
    foreground: bool,
    now: u64,
)
    requires
        now + 15_000_000_000 <= u64::MAX,
        state.direct_permits.contains_key(generation) && state.direct_permits[generation] > 0,
        state.foreground_permits.contains_key(generation),
    ensures
        ({
            let after = state.playback_released(generation, foreground, now);
            &&& permit_count(after.direct_permits, generation) == state.direct_permits[generation]
                - 1
            &&& after.direct_permits.remove(generation) =~= state.direct_permits.remove(generation)
            &&& foreground && state.foreground_permits[generation] > 0 ==> permit_count(
                after.foreground_permits,
                generation,
            ) == state.foreground_permits[generation] - 1
            &&& !foreground ==> after.foreground_permits == state.foreground_permits
            &&& after.foreground_permits.remove(generation) =~= state.foreground_permits.remove(
                generation,
            )
            &&& after.has_activity(now) <==> after.idle_deadline is None
            &&& after.idle_deadline is Some && state.hls_last_activity is None
                ==> after.idle_deadline->0 == now + 15_000_000_000
            &&& after == (PlaybackView {
                direct_permits: after.direct_permits,
                foreground_permits: after.foreground_permits,
                idle_deadline: after.idle_deadline,
                ..state
            })
        }),
{
}

/// Metadata queries are counted: one in, one out, never below nothing. A query
/// for missing metadata wakes the network and is announced; one for metadata that
/// is there changes neither. The last one out restarts the countdown.
pub proof fn law_metadata_queries_are_counted(state: PlaybackView, has_metadata: bool, now: u64)
    requires
        state.metadata_permits < usize::MAX,
        now + 15_000_000_000 <= u64::MAX,
    ensures
        ({
            let waiting = state.metadata_acquired(has_metadata);
            let done = state.metadata_released(now);
            &&& waiting.metadata_permits == state.metadata_permits + 1
            &&& waiting.idle_deadline is None
            &&& has_metadata ==> waiting.phase == state.phase && waiting.metadata_announced
                == state.metadata_announced
            &&& !has_metadata ==> waiting.phase == LibtorrentNetworkPhase::Active
                && waiting.metadata_announced
            &&& waiting == (PlaybackView {
                metadata_permits: waiting.metadata_permits,
                idle_deadline: waiting.idle_deadline,
                phase: waiting.phase,
                metadata_announced: waiting.metadata_announced,
                ..state
            })
            &&& state.metadata_permits > 0 ==> done.metadata_permits == state.metadata_permits - 1
            &&& state.metadata_permits == 0 ==> done.metadata_permits == 0
            &&& done.has_activity(now) <==> done.idle_deadline is None
            &&& done == (PlaybackView {
                metadata_permits: done.metadata_permits,
                idle_deadline: done.idle_deadline,
                ..state
            })
            &&& waiting.metadata_released(now).metadata_permits == state.metadata_permits
        }),
{
}

/// The end of HLS concerns a torrent that plays the file, and one that HLS plays
/// from at all.
pub proof fn law_hls_end_concerns_its_torrent(state: PlaybackView, file_idx: usize)
    ensures
        state.selected_file is Some && state.selected_file->0 == file_idx
            ==> state.hls_end_applies(file_idx),
        state.hls_last_activity is Some ==> state.hls_end_applies(file_idx),
        state.hls_last_activity is None && !(state.selected_file is Some && state.selected_file->0
            == file_idx) ==> !state.hls_end_applies(file_idx),
{
}

/// HLS that nobody asked for within fifteen seconds is forgotten, and its torrent
/// may then be paused at once. Live HLS is left alone.
pub proof fn law_lapsed_hls_is_forgotten(state: PlaybackView, now: u64)
    ensures
        state.hls_last_activity matches Some(last) && now >= last + 15_000_000_000 ==> {
            let after = state.hls_expired(now);
            &&& after.hls_last_activity is None
            &&& after.idle_deadline is Some && after.idle_deadline->0 == now
            &&& after == (PlaybackView {
                hls_last_activity: after.hls_last_activity,
                idle_deadline: after.idle_deadline,
                ..state
            })
        },
        !(state.hls_last_activity matches Some(last) && now >= last + 15_000_000_000)
            ==> state.hls_expired(now) == state,
{
}

/// A pause comes due exactly where nothing needs the torrent, its countdown is
/// over and it is not silent yet.
pub proof fn law_pause_comes_due_after_countdown(state: PlaybackView, now: u64)
    ensures
        state.pause_is_due(now) ==> !state.has_activity(now) && state.phase
            != LibtorrentNetworkPhase::PausedIdle && state.idle_deadline is Some
            && state.idle_deadline->0 <= now,
        !state.has_activity(now) && state.phase != LibtorrentNetworkPhase::PausedIdle
            && state.idle_deadline is Some && state.idle_deadline->0 <= now
            ==> state.pause_is_due(now),
{
}

/// A due pause of a running torrent takes a generation of its own and drops the
/// selection; one that is pending already is tried again in its own generation
/// and keeps everything but the deadline. Nothing happens to a torrent whose
/// pause is not due, except that lapsed HLS is forgotten.
pub proof fn law_due_pause_begins(state: PlaybackView, after: PlaybackView, now: u64)
    requires
        state.became_due(after, now),
    ensures
        !state.hls_expired(now).pause_is_due(now) ==> state.due_generation(now) is None && after
            == state.hls_expired(now),
        state.hls_expired(now).pause_is_due(now) ==> {
            &&& state.due_generation(now) is Some
            &&& state.due_generation(now)->0 == after.generation
            &&& after.phase == LibtorrentNetworkPhase::PausePending
            &&& after.idle_deadline is None
            &&& state.phase == LibtorrentNetworkPhase::PausePending ==> after.generation
                == state.generation && after.cancellation == state.cancellation
                && after.selected_file == state.selected_file && after.selected_priority
                == state.selected_priority && after.acknowledged_priorities
                == state.acknowledged_priorities
            &&& state.phase == LibtorrentNetworkPhase::Active ==> after.selected_file is None
                && after.selected_priority == 0 && cancel_requested(state.cancellation)
                && after.cancellation != state.cancellation && !raised(after.cancellation)
            &&& state.phase == LibtorrentNetworkPhase::Active && state.generation < u64::MAX
                ==> after.generation == state.generation + 1
            &&& after.direct_permits == state.direct_permits
            &&& after.metadata_permits == state.metadata_permits
        },
{
}

/// An emergency announce is allowed for a torrent that never had one, and again
/// one minute after the last.
pub proof fn law_emergency_announce_waits_a_minute(state: PlaybackView, now: u64)
    ensures
        state.last_emergency_reannounce is None ==> state.reannounce_allowed(now),
        state.last_emergency_reannounce matches Some(last) ==> (state.reannounce_allowed(now)
            <==> now >= last + 60_000_000_000),
{
}

/// The priority that an intent asks for is zero exactly for a complete file, and
/// seven exactly for a download of one that is not. Every intent leads but those
/// of probes and background reads.
pub proof fn law_intent_decides_priority(complete: bool, intent: PlaybackIntent)
    ensures
        requested_priority(complete, intent) == 0 <==> complete,
        requested_priority(complete, intent) == 7 <==> !complete && (intent
            == PlaybackIntent::DownloadFull || intent == PlaybackIntent::DownloadRange),
        requested_priority(complete, intent) == 0 || requested_priority(complete, intent) == 1
            || requested_priority(complete, intent) == 7,
        !is_foreground_intent(intent) <==> intent == PlaybackIntent::InternalProbe || intent
            == PlaybackIntent::Background,
{
}

/// HLS playback of a file selects it: at priority one where it is not complete, so
/// that it downloads, and at zero where it is. The network comes up where it is
/// needed, the idle countdown stops, and no reader is counted.
pub proof fn law_hls_playback_selects_its_file(
    file_idx: usize,
    complete: bool,
    seeding_enabled: bool,
    now: u64,
)
    ensures
        forall|state: &mut TorrentPlaybackState, selection: Selection| #[trigger]
            call_ensures(
                TorrentPlaybackState::refresh_hls,
                (state, file_idx, complete, seeding_enabled, now),
                selection,
            ) ==> {
                let after = *final(state);
                &&& !complete ==> selection.native_priority == 1 && after.selected_priority == 1
                &&& complete ==> selection.native_priority == 0 && after.selected_priority == 0
                &&& after.selected_file == Some(file_idx)
                &&& after.hls_last_activity == Some(now)
                &&& after.idle_deadline is None
                &&& !complete || seeding_enabled ==> after.phase == LibtorrentNetworkPhase::Active
                &&& complete && !seeding_enabled ==> after.phase == (*state).phase
                &&& after.direct_permits@ == (*state).direct_permits@
                &&& after.foreground_permits@ == (*state).foreground_permits@
                &&& selection.generation == after.generation
                &&& selection.changed <==> (*state).selected_file != Some(file_idx)
                    || (*state).selected_priority != after.selected_priority
                &&& !selection.subordinate
            },
{
}

/// A reader that is admitted plays its file: it is selected at the priority of its
/// intent, the reader is counted in the generation that its permit names, and the
/// network comes up where it is needed. Only a probe or background read beside
/// foreground readers keeps the priority it finds, and is turned away, changing
/// nothing, where they play another file.
pub proof fn law_reader_plays_its_file(
    info_hash: String,
    start: &LibtorrentPlaybackStart,
    complete: bool,
    seeding_enabled: bool,
    now: u64,
)
    ensures
        forall|
            state: &mut TorrentPlaybackState,
            r: Result<(LibtorrentPlaybackPermit, Selection), PlaybackError>,
        | #[trigger]
            call_ensures(
                TorrentPlaybackState::start_playback,
                (state, info_hash, start, complete, seeding_enabled, now),
                r,
            ) ==> {
                let before = *state;
                let after = *final(state);
                let probes = start.intent == PlaybackIntent::InternalProbe || start.intent
                    == PlaybackIntent::Background;
                let led = before.foreground_permits@.contains_key(before.generation)
                    && before.foreground_permits@[before.generation] > 0;
                &&& r is Err <==> probes && led && before.selected_file != Some(start.file_idx)
                &&& r matches Err(error) ==> error == PlaybackError::BackgroundProbeRejected
                    && after@ == before@
                &&& r matches Ok((permit, selection)) ==> {
                    &&& after.selected_file == Some(start.file_idx)
                    &&& after.idle_deadline is None
                    &&& probes && led ==> after.selected_priority == before.selected_priority
                        && after.generation == before.generation
                    &&& !(probes && led) && complete ==> after.selected_priority == 0
                    &&& !(probes && led) && !complete ==> after.selected_priority == (
                    if start.intent == PlaybackIntent::DownloadFull || start.intent
                        == PlaybackIntent::DownloadRange {
                        7i32
                    } else {
                        1i32
                    })
                    &&& !complete || seeding_enabled ==> after.phase
                        == LibtorrentNetworkPhase::Active
                    &&& complete && !seeding_enabled ==> after.phase == before.phase
                    &&& after.hls_last_activity == before.hls_last_activity
                    &&& after.direct_permits@.contains_key(after.generation)
                    &&& !probes ==> after.foreground_permits@.contains_key(after.generation)
                    &&& probes ==> after.foreground_permits@ == before.foreground_permits@
                    &&& permit.info_hash == info_hash
                    &&& permit.file_idx == start.file_idx
                    &&& permit.generation == after.generation
                    &&& permit.cancellation == after.cancellation
                    &&& permit.foreground <==> !probes
                    &&& permit.subordinate <==> probes && led
                    &&& !permit.released
                    &&& selection.generation == after.generation
                    &&& selection.native_priority == after.selected_priority
                    &&& selection.subordinate == permit.subordinate
                }
            },
{
}

/// The end of HLS drops the selection of a torrent that it concerns, in a new
/// generation. The torrent goes on where it seeds, is silenced where it runs, and
/// stays silent where it was. Any other torrent is left alone.
pub proof fn law_hls_end_drops_the_selection(file_idx: usize, seeding_enabled: bool)
    ensures
        forall|state: &mut TorrentPlaybackState, r: HlsEnd| #[trigger]
            call_ensures(TorrentPlaybackState::end_hls, (state, file_idx, seeding_enabled), r) ==> {
                let before = *state;
                let after = *final(state);
                let concerned = before.selected_file == Some(file_idx)
                    || before.hls_last_activity is Some;
                &&& r is Ignored <==> !concerned
                &&& !concerned ==> after@ == before@
                &&& concerned ==> {
                    &&& after.selected_file is None
                    &&& after.selected_priority == 0
                    &&& after.hls_last_activity is None
                    &&& after.idle_deadline is None
                    &&& before.generation < u64::MAX ==> after.generation == before.generation + 1
                    &&& cancel_requested(before.cancellation)
                    &&& after.cancellation != before.cancellation
                    &&& after.direct_permits@ == before.direct_permits@
                    &&& seeding_enabled ==> r == (HlsEnd::KeptActive {
                        generation: after.generation,
                    }) && after.phase == LibtorrentNetworkPhase::Active
                    &&& !seeding_enabled && before.phase == LibtorrentNetworkPhase::PausedIdle
                        ==> r == (HlsEnd::AlreadyPaused { generation: after.generation })
                        && after.phase == LibtorrentNetworkPhase::PausedIdle
                    &&& !seeding_enabled && before.phase != LibtorrentNetworkPhase::PausedIdle
                        ==> r == (HlsEnd::Pause { generation: after.generation }) && after.phase
                        == LibtorrentNetworkPhase::PausePending
                }
            },
{
}

/// A metadata query resumes a paused torrent and announces it only where its
/// metadata is missing, and announces it once.
pub proof fn law_metadata_query_wakes_the_torrent_once(has_metadata: bool, is_paused: bool)
    ensures
        forall|state: &mut TorrentPlaybackState, r: MetadataActivation| #[trigger]
            call_ensures(
                TorrentPlaybackState::acquire_metadata,
                (state, has_metadata, is_paused),
                r,
            ) ==> {
                let before = *state;
                let after = *final(state);
                &&& r.generation == before.generation
                &&& r.resume <==> !has_metadata && is_paused
                &&& r.announce <==> !has_metadata && !before.metadata_announced
                &&& !has_metadata ==> after.metadata_announced && after.phase
                    == LibtorrentNetworkPhase::Active
                &&& has_metadata ==> after.metadata_announced == before.metadata_announced
                    && after.phase == before.phase
                &&& before.metadata_permits < usize::MAX ==> after.metadata_permits
                    == before.metadata_permits + 1
                &&& after.idle_deadline is None
                &&& after.selected_file == before.selected_file
                &&& after.generation == before.generation
            },
{
}

/// The first piece of a playback is waited for until it is verified, and no other
/// piece ends that wait. The answer tells what plays.
pub proof fn law_first_piece_is_waited_for_once(piece: i32)
    ensures
        forall|state: &mut TorrentPlaybackState, r: Option<SelectedPlayback>| #[trigger]
            call_ensures(TorrentPlaybackState::piece_verified, (state, piece), r) ==> {
                let before = *state;
                let after = *final(state);
                &&& before.selected_first_piece == Some(piece)
                    ==> after.selected_first_piece is None
                &&& before.selected_first_piece != Some(piece) ==> after.selected_first_piece
                    == before.selected_first_piece
                &&& after.selected_file == before.selected_file
                &&& after.phase == before.phase
                &&& r is Some <==> before.selected_file is Some
                &&& r matches Some(playback) ==> before.selected_file == Some(playback.file_idx)
                    && playback.generation == before.generation && playback.phase == before.phase
            },
{
}

/// A torrent is paused for its completed file only where that file, in that
/// generation, is what plays and the network runs. Where the pause then fails the
/// network is taken as running again, unless something newer plays.
pub proof fn law_completed_file_pauses_the_torrent(file_idx: usize, generation: u64)
    ensures
        forall|state: &mut TorrentPlaybackState, r: bool| #[trigger]
            call_ensures(
                TorrentPlaybackState::begin_completion_pause,
                (state, file_idx, generation),
                r,
            ) ==> {
                let before = *state;
                let after = *final(state);
                &&& r <==> before.generation == generation && before.selected_file == Some(file_idx)
                    && before.phase == LibtorrentNetworkPhase::Active
                &&& r ==> after.phase == LibtorrentNetworkPhase::PausePending
                &&& !r ==> after.phase == before.phase
                &&& after.selected_file == before.selected_file
                &&& after.generation == before.generation
            },
        forall|state: &mut TorrentPlaybackState| #[trigger]
            call_ensures(TorrentPlaybackState::completion_pause_failed, (state, generation), ())
                ==> {
                let before = *state;
                let after = *final(state);
                &&& before.generation == generation ==> after.phase
                    == LibtorrentNetworkPhase::Active
                &&& before.generation != generation ==> after@ == before@
                &&& after.selected_file == before.selected_file
            },
{
}

/// An idle pause that failed is tried again five seconds later, unless something
/// newer plays.
pub proof fn law_failed_pause_is_tried_again(generation: u64, now: u64)
    requires
        now + 5_000_000_000 <= u64::MAX,
    ensures
        forall|state: &mut TorrentPlaybackState| #[trigger]
            call_ensures(TorrentPlaybackState::idle_pause_failed, (state, generation, now), ())
                ==> {
                let before = *state;
                let after = *final(state);
                &&& before.generation == generation ==> after.phase
                    == LibtorrentNetworkPhase::PausePending && after.idle_deadline == Some(
                    (now + 5_000_000_000) as u64,
                )
                &&& before.generation != generation ==> after@ == before@
                &&& after.generation == before.generation
                &&& after.selected_file == before.selected_file
            },
{
}

/// Seeding wakes every torrent that does not run, and stops its idle countdown.
pub proof fn law_seeding_wakes_silent_torrents()
    ensures
        forall|state: &mut TorrentPlaybackState, r: bool| #[trigger]
            call_ensures(TorrentPlaybackState::begin_seeding_resume, (state,), r) ==> {
                &&& r <==> (*state).phase != LibtorrentNetworkPhase::Active
                &&& (*final(state)).idle_deadline is None
                &&& (*final(state)).phase == (*state).phase
                &&& (*final(state)).selected_file == (*state).selected_file
            },
        forall|state: &mut TorrentPlaybackState| #[trigger]
            call_ensures(TorrentPlaybackState::finish_seeding_resume, (state,), ()) ==> {
                &&& (*final(state)).phase == LibtorrentNetworkPhase::Active
                &&& (*final(state)).selected_file == (*state).selected_file
                &&& (*final(state)).generation == (*state).generation
            },
{
}

/// A playback without a peer and without its first piece announces its torrent in
/// an emergency, at most once a minute, and notes when it did.
pub proof fn law_emergency_announces_a_lonely_playback(
    num_peers: i32,
    piece_present: bool,
    now: u64,
)
    ensures
        forall|state: &mut TorrentPlaybackState, r: bool| #[trigger]
            call_ensures(
                TorrentPlaybackState::emergency_reannounce,
                (state, num_peers, piece_present, now),
                r,
            ) ==> {
                let before = *state;
                let after = *final(state);
                let recently = before.last_emergency_reannounce is Some && now
                    < before.last_emergency_reannounce->0 + 60_000_000_000;
                &&& r <==> num_peers <= 0 && !piece_present && !recently
                &&& r ==> after.last_emergency_reannounce == Some(now)
                &&& !r ==> after.last_emergency_reannounce == before.last_emergency_reannounce
                &&& after.phase == before.phase
            },
{
}

/// Readers and metadata queries that leave restart the idle countdown of fifteen
/// seconds with the last of them.
pub proof fn law_last_to_leave_restarts_countdown(generation: u64, foreground: bool, now: u64)
    requires
        now + 15_000_000_000 <= u64::MAX,
    ensures
        forall|state: &mut TorrentPlaybackState| #[trigger]
            call_ensures(
                TorrentPlaybackState::release_playback,
                (state, generation, foreground, now),
                (),
            ) ==> {
                let before = *state;
                let after = *final(state);
                &&& after.selected_file == before.selected_file
                &&& after.phase == before.phase
                &&& after.metadata_permits == before.metadata_permits
                &&& before.metadata_permits > 0 ==> after.idle_deadline is None
                &&& after.direct_permits@ =~= Map::empty() && before.metadata_permits == 0
                    && before.hls_last_activity is None ==> after.idle_deadline == Some(
                    (now + 15_000_000_000) as u64,
                )
            },
        forall|state: &mut TorrentPlaybackState| #[trigger]
            call_ensures(TorrentPlaybackState::release_metadata, (state, now), ()) ==> {
                let before = *state;
                let after = *final(state);
                &&& before.metadata_permits > 0 ==> after.metadata_permits
                    == before.metadata_permits - 1
                &&& after.direct_permits@ == before.direct_permits@
                &&& before.metadata_permits > 1 ==> after.idle_deadline is None
                &&& before.direct_permits@ =~= Map::empty() && before.metadata_permits == 1
                    && before.hls_last_activity is None ==> after.idle_deadline == Some(
                    (now + 15_000_000_000) as u64,
                )
            },
{
    assert(Map::<u64, usize>::empty().dom() =~= Set::<u64>::empty());
    assert(permit_total(Map::<u64, usize>::empty()) == 0);
}

/// A permit is given back once, and tells whose it was.
pub proof fn law_permit_is_given_back_once()
    ensures
        forall|permit: &mut LibtorrentPlaybackPermit, r: Option<PlaybackCommand>| #[trigger]
            call_ensures(LibtorrentPlaybackPermit::release, (permit,), r) ==> {
                &&& r is Some <==> !(*permit).released
                &&& (*final(permit)).released
                &&& r matches Some(command) ==> {
                    &&& command matches PlaybackCommand::ReleasePlayback {
                        info_hash,
                        file_idx,
                        generation,
                        foreground,
                    }
                    &&& info_hash == (*permit).info_hash
                    &&& file_idx == (*permit).file_idx
                    &&& generation == (*permit).generation
                    &&& foreground == (*permit).foreground
                }
            },
{
}

/// A permit tells whether it is subordinate, and that it was cancelled once it
/// was.
pub proof fn law_permit_tells_of_itself(
    permit: &LibtorrentPlaybackPermit,
    cancelled: bool,
    subordinate: bool,
)
    requires
        call_ensures(LibtorrentPlaybackPermit::is_cancelled, (permit,), cancelled),
        call_ensures(LibtorrentPlaybackPermit::is_subordinate, (permit,), subordinate),
    ensures
        subordinate <==> permit.subordinate,
        raised(permit.cancellation) ==> cancelled,
        cancelled ==> cancel_requested(permit.cancellation),
        forall|released: &mut LibtorrentPlaybackPermit, r: Option<PlaybackCommand>| #[trigger]
            call_ensures(LibtorrentPlaybackPermit::release, (released,), r) ==> {
                &&& (*final(released)).info_hash == (*released).info_hash
                &&& (*final(released)).file_idx == (*released).file_idx
                &&& (*final(released)).generation == (*released).generation
                &&& (*final(released)).foreground == (*released).foreground
            },
{
}

/// A complete file is not downloaded, one to be downloaded has the highest
/// priority, and any other the lowest. Probes and background readers do not drive
/// the selection.
pub proof fn law_request_has_its_priority(
    complete: bool,
    intent: PlaybackIntent,
    priority: i32,
    drives: bool,
    state: &TorrentPlaybackState,
    file_idx: usize,
    generation: u64,
    current: bool,
)
    requires
        call_ensures(native_priority_for, (complete, intent), priority),
        call_ensures(drives_selection, (intent,), drives),
        call_ensures(
            TorrentPlaybackState::selection_is_current,
            (state, file_idx, generation),
            current,
        ),
    ensures
        complete <==> priority == 0,
        !complete && (intent == PlaybackIntent::DownloadFull || intent
            == PlaybackIntent::DownloadRange) ==> priority == 7,
        !complete && intent != PlaybackIntent::DownloadFull && intent
            != PlaybackIntent::DownloadRange ==> priority == 1,
        drives <==> intent != PlaybackIntent::InternalProbe && intent
            != PlaybackIntent::Background,
        current <==> state.generation == generation && state.selected_file == Some(file_idx),
{
}

/// A pause that is due begins: the selection is let go of in a new generation, and
/// the torrent is on its way to silence. One that had begun goes on in its
/// generation, and one that is not due does not begin.
pub proof fn law_due_pause_lets_go(now: u64, r: Option<u64>)
    ensures
        forall|state: &mut TorrentPlaybackState| #[trigger]
            call_ensures(TorrentPlaybackState::begin_due_pause, (state, now), r) ==> {
                let before = (*state)@;
                let after = (*final(state))@;
                let active = permit_total(before.direct_permits) > 0 || before.metadata_permits > 0
                    || (before.hls_last_activity is Some && now < before.hls_last_activity->0
                    + 15_000_000_000);
                let lapsed = before.hls_last_activity is Some && !active;
                let over = before.idle_deadline is Some && before.idle_deadline->0 <= now;
                &&& active ==> r is None
                &&& before.phase == LibtorrentNetworkPhase::PausedIdle ==> r is None
                &&& !active && (over || lapsed) && before.phase
                    == LibtorrentNetworkPhase::PausePending ==> r == Some(before.generation)
                    && after.generation == before.generation && after.idle_deadline is None
                &&& !active && (over || lapsed) && before.phase != LibtorrentNetworkPhase::PausedIdle
                    && before.phase != LibtorrentNetworkPhase::PausePending ==> {
                    &&& r == Some(after.generation)
                    &&& before.generation < u64::MAX ==> after.generation == before.generation
                        + 1
                    &&& after.phase == LibtorrentNetworkPhase::PausePending
                    &&& after.selected_file is None
                    &&& after.hls_last_activity is None
                    &&& after.idle_deadline is None
                    &&& cancel_requested(before.cancellation)
                }
                &&& !active && !over && !lapsed ==> r is None && after == before
            },
{
}

} // verus!
