//! The torrents that playback takes care of, and the events that concern them.

use crate::cancellation::{cancel_requested, cancel_token, raised};
use crate::domain::FileInfo;
use crate::layout::TorrentLayout;
use crate::playback::{
    LibtorrentNetworkPhase, PlaybackView, TorrentPlaybackState, IDLE_PAUSE_GRACE,
};
use crate::registry::{Registry, RegistryKey};
use crate::text::lowercase;
use crate::transitions::{PlaybackCommand, SelectedPlayback};
use vstd::prelude::*;

verus! {

/// One torrent: its playback state and, once known, its files.
pub struct TorrentPlaybackEntry {
    pub state: TorrentPlaybackState,
    pub layout: Option<TorrentLayout>,
}

impl TorrentPlaybackEntry {
    pub open spec fn wf(&self) -> bool {
        &&& self.state.wf()
        &&& self.layout matches Some(layout) ==> layout.wf()
    }

    /// A torrent that was just added.
    pub fn new() -> (r: Self)
        ensures
            r.wf(),
            r.layout is None,
            r.state@ == PlaybackView::just_added(r.state@.cancellation),
            !raised(r.state@.cancellation),
    {
        TorrentPlaybackEntry { state: TorrentPlaybackState::new(), layout: None }
    }
}

/// All torrents, by the lowercase form of their identity.
pub struct LibtorrentPlaybackCoordinator {
    pub entries: Registry<String, TorrentPlaybackEntry>,
    pub seeding_enabled: bool,
}

/// A torrent whose pause is due, and the generation to pause it in.
#[derive(Debug, Clone, PartialEq, Eq)]
pub struct DueTorrent {
    pub info_hash: String,
    pub generation: u64,
}

/// What is left to do after a command.
#[derive(Debug, Clone, PartialEq, Eq)]
pub enum CommandOutcome {
    Done,
    /// Wake these torrents so that they seed.
    ResumeForSeeding(Vec<String>),
    /// Find out whether the selected file is complete now.
    CheckCompletion { info_hash: String, file_idx: usize, generation: u64 },
}

/// The identities of torrents, in order.
pub open spec fn identities(entries: Seq<(String, TorrentPlaybackEntry)>) -> Seq<String> {
    Seq::new(entries.len(), |i: int| entries[i].0)
}

/// The torrents whose pause is due, in order.
pub open spec fn due_torrents(entries: Seq<(String, TorrentPlaybackEntry)>, now: u64) -> Seq<
    DueTorrent,
>
    decreases entries.len(),
{
    if entries.len() == 0 {
        Seq::empty()
    } else {
        let earlier = due_torrents(entries.drop_last(), now);
        match entries.last().1.state@.due_generation(now) {
            Some(generation) => earlier.push(
                DueTorrent { info_hash: entries.last().0, generation },
            ),
            None => earlier,
        }
    }
}

/// What is known of a file's completion once a piece of it was verified: a file
/// that was not complete has to be looked at again.
pub open spec fn after_verified(known: Option<bool>, file: FileInfo, piece: i32) -> Option<bool> {
    if file.spans(piece as int) && known != Some(true) {
        None
    } else {
        known
    }
}

/// What is known of a file's completion once a piece of it was lost.
pub open spec fn after_lost(known: Option<bool>, file: FileInfo, piece: i32) -> Option<bool> {
    if file.spans(piece as int) {
        None
    } else {
        known
    }
}

/// Whether a layout changed only in what is known of its files, to `known_after`
/// of what was known.
pub open spec fn recheck(
    before: Option<TorrentLayout>,
    after: Option<TorrentLayout>,
    known_after: spec_fn(Option<bool>, FileInfo) -> Option<bool>,
) -> bool {
    match (before, after) {
        (Some(before), Some(after)) => {
            &&& after.files == before.files
            &&& after.piece_length == before.piece_length
            &&& after.completion@ =~= Seq::new(
                before.completion@.len(),
                |i: int| known_after(before.completion@[i], before.files@[i]),
            )
        },
        (None, None) => true,
        _ => false,
    }
}

impl LibtorrentPlaybackCoordinator {
    pub open spec fn wf(&self) -> bool {
        &&& self.entries.wf()
        &&& forall|i: int|
            0 <= i < self.entries.entries@.len() ==> (#[trigger] self.entries.entries@[i]).1.wf()
    }

    /// Whether `key` is the only torrent that may have changed.
    pub open spec fn only_changes(&self, after: &Self, key: Seq<char>) -> bool {
        &&& after.seeding_enabled == self.seeding_enabled
        &&& after.entries@.contains_key(key)
        &&& after.entries@ == self.entries@.insert(key, after.entries@[key])
    }

    /// The state of a torrent before a command: that of a torrent that was just
    /// added, where it was not known.
    pub open spec fn state_before(&self, after: &Self, key: Seq<char>) -> PlaybackView {
        if self.entries@.contains_key(key) {
            self.entries@[key].state@
        } else {
            PlaybackView::just_added(after.entries@[key].state@.cancellation)
        }
    }

    /// The layout of a torrent, none where the torrent is not known.
    pub open spec fn layout_before(&self, key: Seq<char>) -> Option<TorrentLayout> {
        if self.entries@.contains_key(key) {
            self.entries@[key].layout
        } else {
            None
        }
    }

    /// No torrents yet. Seeding is on until it is switched off.
    pub fn new() -> (r: Self)
        ensures
            r.wf(),
            r.entries@ == Map::<Seq<char>, TorrentPlaybackEntry>::empty(),
            r.seeding_enabled,
    {
        LibtorrentPlaybackCoordinator { entries: Registry::new(), seeding_enabled: true }
    }

    /// Finds a torrent, and adds it where it is not known.
    pub fn entry(&mut self, info_hash: &str) -> (r: usize)
        requires
            old(self).wf(),
        ensures
            final(self).wf(),
            r < final(self).entries.entries@.len(),
            final(self).entries.entries@[r as int].0@ == lowercase(info_hash@),
            final(self).entries@.contains_key(lowercase(info_hash@)),
            final(self).entries.entries@[r as int].1 == final(self).entries@[lowercase(
                info_hash@,
            )],
            old(self).only_changes(final(self), lowercase(info_hash@)),
            if old(self).entries@.contains_key(lowercase(info_hash@)) {
                final(self).entries == old(self).entries
            } else {
                let added = final(self).entries@[lowercase(info_hash@)];
                &&& added.layout is None
                &&& added.state@ == PlaybackView::just_added(added.state@.cancellation)
                &&& !raised(added.state@.cancellation)
            },
    {
        let key: String = info_hash.to_lowercase();
        match self.entries.find(&key) {
            Some(index) => {
                assert(self.entries@ =~= old(self).entries@.insert(key@, self.entries@[key@]));
                index
            },
            None => {
                let index: usize = self.entries.entries.len();
                self.entries.insert(key, TorrentPlaybackEntry::new());
                proof {
                    self.entries.lemma_entry(index as int);
                }
                index
            },
        }
    }

    /// Makes a torrent known.
    pub fn register_torrent(&mut self, info_hash: &str)
        requires
            old(self).wf(),
        ensures
            final(self).wf(),
            old(self).only_changes(final(self), lowercase(info_hash@)),
            old(self).entries@.contains_key(lowercase(info_hash@)) ==> final(self).entries == old(
                self,
            ).entries,
            !old(self).entries@.contains_key(lowercase(info_hash@)) ==> {
                let added = final(self).entries@[lowercase(info_hash@)];
                &&& added.layout is None
                &&& added.state@ == PlaybackView::just_added(added.state@.cancellation)
                &&& !raised(added.state@.cancellation)
            },
    {
        let _ = self.entry(info_hash);
    }

    /// The event that a piece was verified.
    pub fn observe_piece_verified(info_hash: &str, piece: i32) -> (r: PlaybackCommand)
        ensures
            r matches PlaybackCommand::PieceVerified { info_hash: hash, piece: verified } && hash@
                == lowercase(info_hash@) && verified == piece,
    {
        PlaybackCommand::PieceVerified { info_hash: info_hash.to_lowercase(), piece }
    }

    /// The event that a piece was lost.
    pub fn observe_piece_invalidated(info_hash: &str, piece: i32) -> (r: PlaybackCommand)
        ensures
            r matches PlaybackCommand::PieceInvalidated { info_hash: hash, piece: lost } && hash@
                == lowercase(info_hash@) && lost == piece,
    {
        PlaybackCommand::PieceInvalidated { info_hash: info_hash.to_lowercase(), piece }
    }

    /// Forgets a torrent and cancels what plays from it.
    pub fn remove_torrent(&mut self, info_hash: &str) -> (r: bool)
        requires
            old(self).wf(),
        ensures
            final(self).wf(),
            final(self).seeding_enabled == old(self).seeding_enabled,
            final(self).entries@ == old(self).entries@.remove(lowercase(info_hash@)),
            r == old(self).entries@.contains_key(lowercase(info_hash@)),
            r ==> cancel_requested(old(self).entries@[lowercase(info_hash@)].state@.cancellation),
    {
        let key: String = info_hash.to_lowercase();
        match self.entries.find(&key) {
            Some(index) => {
                let mut entry: TorrentPlaybackEntry = self.entries.remove_at(index);
                cancel_token(&mut entry.state.cancellation);
                true
            },
            None => {
                assert(self.entries@ =~= old(self).entries@.remove(key@));
                false
            },
        }
    }

    /// Switches seeding on or off, and tells the event that follows.
    pub fn set_seeding_enabled(&mut self, enabled: bool) -> (r: PlaybackCommand)
        ensures
            final(self).seeding_enabled == enabled,
            final(self).entries == old(self).entries,
            r == PlaybackCommand::SeedingEnabled(enabled),
    {
        self.seeding_enabled = enabled;
        PlaybackCommand::SeedingEnabled(enabled)
    }

    /// Starts the pauses that are due. While torrents seed, none is.
    pub fn pause_due_torrents(&mut self, now: u64) -> (r: Vec<DueTorrent>)
        requires
            old(self).wf(),
        ensures
            final(self).wf(),
            final(self).seeding_enabled == old(self).seeding_enabled,
            old(self).seeding_enabled ==> r@.len() == 0 && *final(self) == *old(self),
            !old(self).seeding_enabled ==> {
                &&& r@ == due_torrents(old(self).entries.entries@, now)
                &&& identities(final(self).entries.entries@) == identities(
                    old(self).entries.entries@,
                )
                &&& forall|i: int|
                    0 <= i < old(self).entries.entries@.len() ==> {
                        let before = old(self).entries.entries@[i].1;
                        let after = (#[trigger] final(self).entries.entries@[i]).1;
                        &&& before.state@.became_due(after.state@, now)
                        &&& after.layout == before.layout
                    }
            },
    {
        let mut due: Vec<DueTorrent> = Vec::new();
        if self.seeding_enabled {
            return due;
        }
        let ghost before = self.entries.entries@;
        let mut i: usize = 0;
        assert(before.take(0) =~= Seq::empty());
        while i < self.entries.entries.len()
            invariant
                i <= self.entries.entries@.len() == before.len(),
                before == old(self).entries.entries@,
                old(self).wf(),
                self.seeding_enabled == old(self).seeding_enabled,
                due@ == due_torrents(before.take(i as int), now),
                forall|k: int|
                    0 <= k < before.len() ==> (#[trigger] self.entries.entries@[k]).0
                        == before[k].0,
                forall|k: int|
                    0 <= k < i ==> {
                        let after = (#[trigger] self.entries.entries@[k]).1;
                        &&& after.wf()
                        &&& before[k].1.state@.became_due(after.state@, now)
                        &&& after.layout == before[k].1.layout
                    },
                forall|k: int|
                    i <= k < before.len() ==> #[trigger] self.entries.entries@[k] == before[k],
            decreases before.len() - i,
        {
            assert(before.take(i + 1).drop_last() =~= before.take(i as int));
            assert(before[i as int].1.wf());
            let info_hash: String = self.entries.entries[i].0.clone();
            let entry: &mut TorrentPlaybackEntry = self.entries.value_at(i);
            if let Some(generation) = entry.state.begin_due_pause(now) {
                due.push(DueTorrent { info_hash, generation });
            }
            i += 1;
        }
        assert(before.take(i as int) =~= before);
        assert(identities(self.entries.entries@) =~= identities(before));
        due
    }

    fn schedule_idle(&mut self, now: u64)
        requires
            old(self).wf(),
            now + IDLE_PAUSE_GRACE <= u64::MAX,
        ensures
            final(self).wf(),
            final(self).seeding_enabled == old(self).seeding_enabled,
            identities(final(self).entries.entries@) == identities(old(self).entries.entries@),
            forall|i: int|
                0 <= i < old(self).entries.entries@.len() ==> {
                    let before = old(self).entries.entries@[i].1;
                    let after = (#[trigger] final(self).entries.entries@[i]).1;
                    &&& after.state@ == before.state@.idle_scheduled(now)
                    &&& after.layout == before.layout
                },
    {
        let ghost before = self.entries.entries@;
        let mut i: usize = 0;
        while i < self.entries.entries.len()
            invariant
                i <= self.entries.entries@.len() == before.len(),
                before == old(self).entries.entries@,
                old(self).wf(),
                now + IDLE_PAUSE_GRACE <= u64::MAX,
                self.seeding_enabled == old(self).seeding_enabled,
                forall|k: int|
                    0 <= k < before.len() ==> (#[trigger] self.entries.entries@[k]).0
                        == before[k].0,
                forall|k: int|
                    0 <= k < i ==> {
                        let after = (#[trigger] self.entries.entries@[k]).1;
                        &&& after.wf()
                        &&& after.state@ == before[k].1.state@.idle_scheduled(now)
                        &&& after.layout == before[k].1.layout
                    },
                forall|k: int|
                    i <= k < before.len() ==> #[trigger] self.entries.entries@[k] == before[k],
            decreases before.len() - i,
        {
            assert(before[i as int].1.wf());
            let entry: &mut TorrentPlaybackEntry = self.entries.value_at(i);
            entry.state.schedule_idle_if_needed(now);
            i += 1;
        }
        assert(identities(self.entries.entries@) =~= identities(before));
    }

    /// What follows a verified piece: unless torrents seed, a selected file that
    /// is being downloaded may be complete now.
    pub open spec fn completion_check(self, info_hash: String) -> CommandOutcome {
        let entry = self.entries@[info_hash@];
        if self.entries@.contains_key(info_hash@) && !self.seeding_enabled
            && entry.state@.selected_file is Some && entry.state@.phase
            == LibtorrentNetworkPhase::Active && entry.layout is Some {
            CommandOutcome::CheckCompletion {
                info_hash,
                file_idx: entry.state@.selected_file->0,
                generation: entry.state@.generation,
            }
        } else {
            CommandOutcome::Done
        }
    }

    /// Changing one entry in place concerns that torrent alone.
    proof fn lemma_entry_changed(&self, before: &Self, index: int)
        requires
            before.wf(),
            0 <= index < before.entries.entries@.len(),
            self.seeding_enabled == before.seeding_enabled,
            self.entries.entries@.len() == before.entries.entries@.len(),
            self.entries.entries@ == before.entries.entries@.update(
                index,
                (before.entries.entries@[index].0, self.entries.entries@[index].1),
            ),
            self.entries.entries@[index].1.wf(),
        ensures
            self.wf(),
            before.only_changes(self, before.entries.entries@[index].0@),
            self.entries@[before.entries.entries@[index].0@] == self.entries.entries@[index].1,
    {
        let key = before.entries.entries@[index].0;
        Registry::lemma_updated(
            &before.entries,
            &self.entries,
            index,
            self.entries.entries@[index].1,
        );
        self.entries.lemma_entry(index);
        assert forall|i: int| 0 <= i < self.entries.entries@.len() implies (
        #[trigger] self.entries.entries@[i]).1.wf() by {
            if i != index {
                assert(self.entries.entries@[i] == before.entries.entries@[i]);
            }
        }
        assert(key.id() == key@);
    }

    /// Lists all torrents.
    fn torrents(&self) -> (r: Vec<String>)
        ensures
            r@ == identities(self.entries.entries@),
    {
        let mut torrents: Vec<String> = Vec::new();
        let mut i: usize = 0;
        while i < self.entries.entries.len()
            invariant
                i <= self.entries.entries@.len(),
                torrents@ =~= identities(self.entries.entries@).take(i as int),
            decreases self.entries.entries@.len() - i,
        {
            torrents.push(self.entries.entries[i].0.clone());
            i += 1;
        }
        assert(identities(self.entries.entries@).take(i as int) =~= identities(
            self.entries.entries@,
        ));
        torrents
    }

    fn piece_verified(&mut self, info_hash: String, piece: i32) -> (r: CommandOutcome)
        requires
            old(self).wf(),
        ensures
            final(self).wf(),
            r == old(self).completion_check(info_hash),
            if old(self).entries@.contains_key(info_hash@) {
                let key = info_hash@;
                &&& old(self).only_changes(final(self), key)
                &&& final(self).entries@[key].state@ == (PlaybackView {
                    selected_first_piece: if old(self).entries@[key].state@.selected_first_piece
                        == Some(piece) {
                        None
                    } else {
                        old(self).entries@[key].state@.selected_first_piece
                    },
                    ..old(self).entries@[key].state@
                })
                &&& recheck(
                    old(self).entries@[key].layout,
                    final(self).entries@[key].layout,
                    |known: Option<bool>, file: FileInfo| after_verified(known, file, piece),
                )
            } else {
                *final(self) == *old(self)
            },
    {
        let index: usize = match self.entries.find(&info_hash) {
            Some(index) => index,
            None => return CommandOutcome::Done,
        };
        let ghost before = *self;
        assert(before.entries.entries@[index as int].1.wf());
        let seeding_enabled: bool = self.seeding_enabled;
        let entry: &mut TorrentPlaybackEntry = self.entries.value_at(index);
        if let Some(layout) = &mut entry.layout {
            layout.piece_verified(piece);
        }
        let has_layout: bool = entry.layout.is_some();
        let selected: Option<SelectedPlayback> = entry.state.piece_verified(piece);
        proof {
            self.lemma_entry_changed(&before, index as int);
        }
        match selected {
            Some(playback) => {
                if !seeding_enabled && has_layout && playback.phase
                    == LibtorrentNetworkPhase::Active {
                    CommandOutcome::CheckCompletion {
                        info_hash,
                        file_idx: playback.file_idx,
                        generation: playback.generation,
                    }
                } else {
                    CommandOutcome::Done
                }
            },
            None => CommandOutcome::Done,
        }
    }

    fn piece_invalidated(&mut self, info_hash: &String, piece: i32)
        requires
            old(self).wf(),
        ensures
            final(self).wf(),
            if old(self).entries@.contains_key(info_hash@) {
                let key = info_hash@;
                &&& old(self).only_changes(final(self), key)
                &&& final(self).entries@[key].state == old(self).entries@[key].state
                &&& recheck(
                    old(self).entries@[key].layout,
                    final(self).entries@[key].layout,
                    |known: Option<bool>, file: FileInfo| after_lost(known, file, piece),
                )
            } else {
                *final(self) == *old(self)
            },
    {
        let index: usize = match self.entries.find(info_hash) {
            Some(index) => index,
            None => return,
        };
        let ghost before = *self;
        assert(before.entries.entries@[index as int].1.wf());
        let entry: &mut TorrentPlaybackEntry = self.entries.value_at(index);
        if let Some(layout) = &mut entry.layout {
            layout.piece_invalidated(piece);
        }
        proof {
            self.lemma_entry_changed(&before, index as int);
        }
    }

    /// Keeps a torrent's files once they are known. The first layout stays.
    pub fn keep_layout(&mut self, info_hash: &str, layout: TorrentLayout)
        requires
            old(self).wf(),
            layout.wf(),
        ensures
            final(self).wf(),
            ({
                let key = lowercase(info_hash@);
                &&& old(self).only_changes(final(self), key)
                &&& final(self).entries@[key].layout == (match old(self).layout_before(key) {
                    Some(known) => Some(known),
                    None => Some(layout),
                })
                &&& final(self).entries@[key].state@ == old(self).state_before(final(self), key)
            }),
    {
        let index: usize = self.entry(info_hash);
        let ghost before = *self;
        assert(before.entries.entries@[index as int].1.wf());
        let entry: &mut TorrentPlaybackEntry = self.entries.value_at(index);
        if entry.layout.is_none() {
            entry.layout = Some(layout);
        }
        proof {
            let key = lowercase(info_hash@);
            self.lemma_entry_changed(&before, index as int);
            assert(self.entries@ =~= old(self).entries@.insert(key, self.entries@[key]));
        }
    }

    /// Handles an event.
    pub fn handle_command(&mut self, command: PlaybackCommand, now: u64) -> (r: CommandOutcome)
        requires
            old(self).wf(),
            now + IDLE_PAUSE_GRACE <= u64::MAX,
        ensures
            final(self).wf(),
            match command {
                PlaybackCommand::ReleasePlayback { info_hash, generation, foreground, .. } => {
                    let key = lowercase(info_hash@);
                    &&& r == CommandOutcome::Done
                    &&& old(self).only_changes(final(self), key)
                    &&& final(self).entries@[key].layout == old(self).layout_before(key)
                    &&& final(self).entries@[key].state@ == old(self).state_before(
                        final(self),
                        key,
                    ).playback_released(generation, foreground, now)
                },
                PlaybackCommand::ReleaseMetadata { info_hash, .. } => {
                    let key = lowercase(info_hash@);
                    &&& r == CommandOutcome::Done
                    &&& old(self).only_changes(final(self), key)
                    &&& final(self).entries@[key].layout == old(self).layout_before(key)
                    &&& final(self).entries@[key].state@ == old(self).state_before(
                        final(self),
                        key,
                    ).metadata_released(now)
                },
                PlaybackCommand::SeedingEnabled(true) => {
                    &&& *final(self) == *old(self)
                    &&& r matches CommandOutcome::ResumeForSeeding(torrents) && torrents@
                        == identities(old(self).entries.entries@)
                },
                PlaybackCommand::SeedingEnabled(false) => {
                    &&& r == CommandOutcome::Done
                    &&& final(self).seeding_enabled == old(self).seeding_enabled
                    &&& identities(final(self).entries.entries@) == identities(
                        old(self).entries.entries@,
                    )
                    &&& forall|i: int|
                        0 <= i < old(self).entries.entries@.len() ==> {
                            let before = old(self).entries.entries@[i].1;
                            let after = (#[trigger] final(self).entries.entries@[i]).1;
                            &&& after.state@ == before.state@.idle_scheduled(now)
                            &&& after.layout == before.layout
                        }
                },
                PlaybackCommand::PieceVerified { info_hash, piece } => {
                    let key = info_hash@;
                    &&& r == old(self).completion_check(info_hash)
                    &&& if old(self).entries@.contains_key(key) {
                        &&& old(self).only_changes(final(self), key)
                        &&& final(self).entries@[key].state@ == (PlaybackView {
                            selected_first_piece: if old(
                                self,
                            ).entries@[key].state@.selected_first_piece == Some(piece) {
                                None
                            } else {
                                old(self).entries@[key].state@.selected_first_piece
                            },
                            ..old(self).entries@[key].state@
                        })
                        &&& recheck(
                            old(self).entries@[key].layout,
                            final(self).entries@[key].layout,
                            |known: Option<bool>, file: FileInfo|
                                after_verified(known, file, piece),
                        )
                    } else {
                        *final(self) == *old(self)
                    }
                },
                PlaybackCommand::PieceInvalidated { info_hash, piece } => {
                    let key = info_hash@;
                    &&& r == CommandOutcome::Done
                    &&& if old(self).entries@.contains_key(key) {
                        &&& old(self).only_changes(final(self), key)
                        &&& final(self).entries@[key].state == old(self).entries@[key].state
                        &&& recheck(
                            old(self).entries@[key].layout,
                            final(self).entries@[key].layout,
                            |known: Option<bool>, file: FileInfo| after_lost(known, file, piece),
                        )
                    } else {
                        *final(self) == *old(self)
                    }
                },
            },
    {
        match command {
            PlaybackCommand::ReleasePlayback { info_hash, generation, foreground, .. } => {
                let index: usize = self.entry(info_hash.as_str());
                let ghost before = *self;
                assert(before.entries.entries@[index as int].1.wf());
                let entry: &mut TorrentPlaybackEntry = self.entries.value_at(index);
                entry.state.release_playback(generation, foreground, now);
                proof {
                    let key = lowercase(info_hash@);
                    self.lemma_entry_changed(&before, index as int);
                    assert(self.entries@ =~= old(self).entries@.insert(key, self.entries@[key]));
                }
                CommandOutcome::Done
            },
            PlaybackCommand::ReleaseMetadata { info_hash, .. } => {
                let index: usize = self.entry(info_hash.as_str());
                let ghost before = *self;
                assert(before.entries.entries@[index as int].1.wf());
                let entry: &mut TorrentPlaybackEntry = self.entries.value_at(index);
                entry.state.release_metadata(now);
                proof {
                    let key = lowercase(info_hash@);
                    self.lemma_entry_changed(&before, index as int);
                    assert(self.entries@ =~= old(self).entries@.insert(key, self.entries@[key]));
                }
                CommandOutcome::Done
            },
            PlaybackCommand::SeedingEnabled(enabled) => {
                if enabled {
                    CommandOutcome::ResumeForSeeding(self.torrents())
                } else {
                    self.schedule_idle(now);
                    CommandOutcome::Done
                }
            },
            PlaybackCommand::PieceVerified { info_hash, piece } => self.piece_verified(
                info_hash,
                piece,
            ),
            PlaybackCommand::PieceInvalidated { info_hash, piece } => {
                self.piece_invalidated(&info_hash, piece);
                CommandOutcome::Done
            },
        }
    }
}

/// Every torrent whose pause is due is paused, in its due generation, and no
/// other one is.
pub proof fn law_due_torrents_are_paused(
    entries: Seq<(String, TorrentPlaybackEntry)>,
    now: u64,
    info_hash: String,
    generation: u64,
)
    ensures
        due_torrents(entries, now).contains(DueTorrent { info_hash, generation }) <==> exists|i: int|
            0 <= i < entries.len() && (#[trigger] entries[i]).0 == info_hash
                && entries[i].1.state@.due_generation(now) == Some(generation),
    decreases entries.len(),
{
    let wanted = DueTorrent { info_hash, generation };
    let all = due_torrents(entries, now);
    if entries.len() > 0 {
        let shorter = entries.drop_last();
        let earlier = due_torrents(shorter, now);
        law_due_torrents_are_paused(shorter, now, info_hash, generation);
        if all.contains(wanted) {
            let at = choose|k: int| 0 <= k < all.len() && all[k] == wanted;
            if at < earlier.len() {
                assert(earlier[at] == wanted);
                let i = choose|i: int|
                    0 <= i < shorter.len() && (#[trigger] shorter[i]).0 == info_hash
                        && shorter[i].1.state@.due_generation(now) == Some(generation);
                assert(entries[i] == shorter[i]);
            } else {
                assert(entries[entries.len() - 1].0 == info_hash);
            }
        }
        if exists|i: int|
            0 <= i < entries.len() && (#[trigger] entries[i]).0 == info_hash
                && entries[i].1.state@.due_generation(now) == Some(generation) {
            let i = choose|i: int|
                0 <= i < entries.len() && (#[trigger] entries[i]).0 == info_hash
                    && entries[i].1.state@.due_generation(now) == Some(generation);
            if i < shorter.len() {
                assert(shorter[i] == entries[i]);
                let at = choose|k: int| 0 <= k < earlier.len() && earlier[k] == wanted;
                assert(all[at] == wanted);
            } else {
                assert(all[all.len() - 1] == wanted);
            }
        }
    }
}

/// A verified piece never makes a complete file doubtful, a lost one always
/// does, and neither touches files that do not carry it.
pub proof fn law_completion_follows_pieces(known: Option<bool>, file: FileInfo, piece: i32)
    ensures
        known == Some(true) ==> after_verified(known, file, piece) == known,
        file.spans(piece as int) ==> after_lost(known, file, piece) is None,
        !file.spans(piece as int) ==> after_verified(known, file, piece) == known && after_lost(
            known,
            file,
            piece,
        ) == known,
{
}

/// A verified piece reopens the question for every file that carries it and was
/// not complete, so that its completion is noticed; a lost piece reopens it for
/// every file that carries it, complete or not.
pub proof fn law_pieces_reopen_the_question(known: Option<bool>, file: FileInfo, piece: i32)
    ensures
        file.first_piece <= piece <= file.last_piece && known != Some(true) ==> after_verified(
            known,
            file,
            piece,
        ) is None,
        known == Some(true) ==> after_verified(known, file, piece) == Some(true),
        file.first_piece <= piece <= file.last_piece ==> after_lost(known, file, piece) is None,
        piece < file.first_piece || piece > file.last_piece ==> after_verified(known, file, piece)
            == known && after_lost(known, file, piece) == known,
{
}

/// After a verified piece the selected file is checked for completion exactly
/// where its torrent is known with its files, downloads, and does not seed.
pub proof fn law_completion_is_checked_while_downloading(
    coordinator: LibtorrentPlaybackCoordinator,
    info_hash: String,
)
    ensures
        ({
            let outcome = coordinator.completion_check(info_hash);
            let entry = coordinator.entries@[info_hash@];
            let checks = coordinator.entries@.contains_key(info_hash@)
                && !coordinator.seeding_enabled && entry.layout is Some && entry.state.phase
                == LibtorrentNetworkPhase::Active && entry.state.selected_file is Some;
            &&& !checks ==> outcome is Done
            &&& checks ==> {
                &&& outcome matches CommandOutcome::CheckCompletion {
                    info_hash: hash,
                    file_idx,
                    generation,
                }
                &&& hash == info_hash
                &&& file_idx == entry.state.selected_file->0
                &&& generation == entry.state.generation
            }
        }),
{
}

/// Looking at the files of a torrent again keeps the files: what is known of each
/// changes by the rule, for each on its own, and a layout neither comes nor goes.
pub proof fn law_recheck_keeps_the_files(
    before: TorrentLayout,
    after: TorrentLayout,
    rule: spec_fn(Option<bool>, FileInfo) -> Option<bool>,
    i: int,
)
    requires
        recheck(Some(before), Some(after), rule),
        before.wf(),
        0 <= i < before.files@.len(),
    ensures
        after.files == before.files,
        after.piece_length == before.piece_length,
        after.completion@.len() == before.completion@.len(),
        after.completion@[i] == rule(before.completion@[i], before.files@[i]),
        !recheck(None, Some(after), rule),
        !recheck(Some(before), None, rule),
        recheck(None, None, rule),
{
}

/// A command for one torrent leaves every other one, and the seeding switch, as
/// they were.
pub proof fn law_other_torrents_are_left_alone(
    before: LibtorrentPlaybackCoordinator,
    after: LibtorrentPlaybackCoordinator,
    key: Seq<char>,
    other: Seq<char>,
)
    requires
        before.only_changes(&after, key),
        other != key,
    ensures
        after.seeding_enabled == before.seeding_enabled,
        after.entries@.contains_key(key),
        after.entries@.contains_key(other) <==> before.entries@.contains_key(other),
        before.entries@.contains_key(other) ==> after.entries@[other] == before.entries@[other],
{
}

/// A torrent that a command finds unknown starts as one that was just added:
/// silent, with nothing selected and without files.
pub proof fn law_unknown_torrent_starts_silent(
    before: LibtorrentPlaybackCoordinator,
    after: LibtorrentPlaybackCoordinator,
    key: Seq<char>,
)
    ensures
        before.entries@.contains_key(key) ==> before.state_before(&after, key)
            == before.entries@[key].state@ && before.layout_before(key)
            == before.entries@[key].layout,
        !before.entries@.contains_key(key) ==> {
            let state = before.state_before(&after, key);
            &&& state.phase == LibtorrentNetworkPhase::PausedIdle
            &&& state.generation == 0
            &&& state.selected_file is None
            &&& state.metadata_permits == 0
            &&& state.idle_deadline is None
            &&& state.direct_permits =~= Map::empty()
            &&& state.cancellation == after.entries@[key].state.cancellation
            &&& before.layout_before(key) is None
        },
{
}

/// Every torrent is listed, each in its place.
pub proof fn law_every_torrent_is_listed(
    entries: Seq<(String, TorrentPlaybackEntry)>,
    i: int,
)
    requires
        0 <= i < entries.len(),
    ensures
        identities(entries).len() == entries.len(),
        identities(entries)[i] == entries[i].0,
{
}

/// A reader that leaves gives back one permit of its generation, one in the
/// foreground only where it had it, and what is left decides over the countdown.
pub proof fn law_released_playback_gives_back_its_permit(
    command: PlaybackCommand,
    now: u64,
    r: CommandOutcome,
    other: u64,
)
    requires
        command is ReleasePlayback,
        now + 15_000_000_000 <= u64::MAX,
    ensures
        forall|coordinator: &mut LibtorrentPlaybackCoordinator| #[trigger]
            call_ensures(
                LibtorrentPlaybackCoordinator::handle_command,
                (coordinator, command, now),
                r,
            ) && (*coordinator).entries@.contains_key(
                lowercase(command->ReleasePlayback_info_hash@),
            ) ==> {
                let key = lowercase(command->ReleasePlayback_info_hash@);
                let generation = command->ReleasePlayback_generation;
                let before = (*coordinator).entries@[key].state@;
                let after = (*final(coordinator)).entries@[key].state@;
                &&& r is Done
                &&& (*final(coordinator)).seeding_enabled == (*coordinator).seeding_enabled
                &&& (*final(coordinator)).entries@[key].layout
                    == (*coordinator).entries@[key].layout
                &&& before.direct_permits.dom().contains(generation)
                    && before.direct_permits[generation] > 1 ==> after.direct_permits[generation]
                    == before.direct_permits[generation] - 1
                &&& before.direct_permits.dom().contains(generation)
                    && before.direct_permits[generation] <= 1
                    ==> !after.direct_permits.dom().contains(generation)
                &&& other != generation && before.direct_permits.dom().contains(other)
                    ==> after.direct_permits.dom().contains(other) && after.direct_permits[other]
                    == before.direct_permits[other]
                &&& !command->foreground ==> after.foreground_permits == before.foreground_permits
                &&& command->foreground && before.foreground_permits.dom().contains(generation)
                    && before.foreground_permits[generation] <= 1
                    ==> !after.foreground_permits.dom().contains(generation)
                &&& after.metadata_permits == before.metadata_permits
                &&& after.selected_file == before.selected_file
                &&& after.phase == before.phase
                &&& after.generation == before.generation
                &&& after.idle_deadline is Some ==> after.idle_deadline == Some(now)
                    || after.idle_deadline->0 == now + 15_000_000_000
            },
{
}

/// A metadata query that ended gives back its permit and touches nothing else but
/// the countdown.
pub proof fn law_released_metadata_gives_back_its_permit(
    command: PlaybackCommand,
    now: u64,
    r: CommandOutcome,
)
    requires
        command is ReleaseMetadata,
        now + 15_000_000_000 <= u64::MAX,
    ensures
        forall|coordinator: &mut LibtorrentPlaybackCoordinator| #[trigger]
            call_ensures(
                LibtorrentPlaybackCoordinator::handle_command,
                (coordinator, command, now),
                r,
            ) && (*coordinator).entries@.contains_key(
                lowercase(command->ReleaseMetadata_info_hash@),
            ) ==> {
                let key = lowercase(command->ReleaseMetadata_info_hash@);
                let before = (*coordinator).entries@[key].state@;
                let after = (*final(coordinator)).entries@[key].state@;
                &&& r is Done
                &&& (*final(coordinator)).entries@[key].layout
                    == (*coordinator).entries@[key].layout
                &&& before.metadata_permits > 0 ==> after.metadata_permits
                    == before.metadata_permits - 1
                &&& before.metadata_permits == 0 ==> after.metadata_permits == 0
                &&& after.direct_permits == before.direct_permits
                &&& after.foreground_permits == before.foreground_permits
                &&& after.selected_file == before.selected_file
                &&& after.phase == before.phase
                &&& after.generation == before.generation
                &&& after.idle_deadline is Some ==> after.idle_deadline == Some(now)
                    || after.idle_deadline->0 == now + 15_000_000_000
            },
{
}

/// Seeding wakes every torrent, in order, and leaves all as they are.
pub proof fn law_seeding_names_every_torrent(now: u64, r: CommandOutcome, i: int)
    requires
        now + 15_000_000_000 <= u64::MAX,
    ensures
        forall|coordinator: &mut LibtorrentPlaybackCoordinator| #[trigger]
            call_ensures(
                LibtorrentPlaybackCoordinator::handle_command,
                (coordinator, PlaybackCommand::SeedingEnabled(true), now),
                r,
            ) ==> {
                let torrents = (*coordinator).entries.entries@;
                &&& *final(coordinator) == *coordinator
                &&& r matches CommandOutcome::ResumeForSeeding(named)
                &&& named@.len() == torrents.len()
                &&& 0 <= i < torrents.len() ==> named@[i] == torrents[i].0
            },
        forall|coordinator: &mut LibtorrentPlaybackCoordinator| #[trigger]
            call_ensures(
                LibtorrentPlaybackCoordinator::handle_command,
                (coordinator, PlaybackCommand::SeedingEnabled(false), now),
                r,
            ) && 0 <= i < (*coordinator).entries.entries@.len() ==> {
                let before = (*coordinator).entries.entries@[i].1;
                let after = (*final(coordinator)).entries.entries@[i].1;
                &&& r is Done
                &&& after.layout == before.layout
                &&& after.state@.phase == before.state@.phase
                &&& after.state@.generation == before.state@.generation
                &&& after.state@.selected_file == before.state@.selected_file
                &&& before.state@.metadata_permits > 0 ==> after.state@.idle_deadline is None
            },
{
}

/// A verified piece is waited for no longer, and has the files that carry it and
/// were not complete looked at again; a lost piece all files that carry it. An
/// unknown torrent is left unknown.
pub proof fn law_pieces_change_their_torrent(
    info_hash: String,
    piece: i32,
    now: u64,
    r: CommandOutcome,
    i: int,
)
    requires
        now + 15_000_000_000 <= u64::MAX,
    ensures
        forall|coordinator: &mut LibtorrentPlaybackCoordinator| #[trigger]
            call_ensures(
                LibtorrentPlaybackCoordinator::handle_command,
                (coordinator, PlaybackCommand::PieceVerified { info_hash, piece }, now),
                r,
            ) ==> {
                let known = (*coordinator).entries@.contains_key(info_hash@);
                let before = (*coordinator).entries@[info_hash@];
                let after = (*final(coordinator)).entries@[info_hash@];
                let first = before.state@.selected_first_piece;
                &&& !known ==> *final(coordinator) == *coordinator && r is Done
                &&& known && first == Some(piece) ==> after.state@.selected_first_piece is None
                &&& known && first != Some(piece) ==> after.state@.selected_first_piece == first
                &&& known ==> after.state@.phase == before.state@.phase
                    && after.state@.selected_file == before.state@.selected_file
                &&& known && before.layout is Some && 0 <= i < before.layout->0.completion@.len()
                    ==> {
                    let file = before.layout->0.files@[i];
                    let complete = before.layout->0.completion@[i];
                    &&& after.layout is Some
                    &&& file.first_piece <= piece <= file.last_piece && complete != Some(true)
                        ==> after.layout->0.completion@[i] is None
                    &&& piece < file.first_piece || piece > file.last_piece || complete == Some(
                        true,
                    ) ==> after.layout->0.completion@[i] == complete
                }
            },
        forall|coordinator: &mut LibtorrentPlaybackCoordinator| #[trigger]
            call_ensures(
                LibtorrentPlaybackCoordinator::handle_command,
                (coordinator, PlaybackCommand::PieceInvalidated { info_hash, piece }, now),
                r,
            ) ==> {
                let known = (*coordinator).entries@.contains_key(info_hash@);
                let before = (*coordinator).entries@[info_hash@];
                let after = (*final(coordinator)).entries@[info_hash@];
                &&& r is Done
                &&& !known ==> *final(coordinator) == *coordinator
                &&& known ==> after.state == before.state
                &&& known && before.layout is Some && 0 <= i < before.layout->0.completion@.len()
                    ==> {
                    let file = before.layout->0.files@[i];
                    &&& after.layout is Some
                    &&& file.first_piece <= piece <= file.last_piece
                        ==> after.layout->0.completion@[i] is None
                    &&& piece < file.first_piece || piece > file.last_piece
                        ==> after.layout->0.completion@[i] == before.layout->0.completion@[i]
                }
            },
{
}

/// A verified piece of a torrent that downloads its selected file, with its files
/// known and without seeding, has that file checked for completion.
pub proof fn law_verified_piece_has_the_file_checked(
    info_hash: String,
    piece: i32,
    now: u64,
    r: CommandOutcome,
)
    requires
        now + 15_000_000_000 <= u64::MAX,
    ensures
        forall|coordinator: &mut LibtorrentPlaybackCoordinator| #[trigger]
            call_ensures(
                LibtorrentPlaybackCoordinator::handle_command,
                (coordinator, PlaybackCommand::PieceVerified { info_hash, piece }, now),
                r,
            ) && (*coordinator).entries@.contains_key(info_hash@) ==> {
                let entry = (*coordinator).entries@[info_hash@];
                let checks = !(*coordinator).seeding_enabled && entry.layout is Some
                    && entry.state.phase == LibtorrentNetworkPhase::Active
                    && entry.state.selected_file is Some;
                &&& checks ==> r is CheckCompletion && r->info_hash == info_hash && Some(
                    r->file_idx,
                ) == entry.state.selected_file && r->CheckCompletion_generation
                    == entry.state.generation
                &&& !checks ==> r is Done
            },
{
}

/// The first layout of a torrent is kept, and so is a known one; the state of the
/// torrent stays as it is.
pub proof fn law_first_layout_is_kept(info_hash: &str, layout: TorrentLayout)
    ensures
        forall|coordinator: &mut LibtorrentPlaybackCoordinator| #[trigger]
            call_ensures(
                LibtorrentPlaybackCoordinator::keep_layout,
                (coordinator, info_hash, layout),
                (),
            ) ==> {
                let key = lowercase(info_hash@);
                let known = (*coordinator).entries@.contains_key(key);
                let before = (*coordinator).entries@[key];
                let after = (*final(coordinator)).entries@[key];
                &&& known && before.layout is Some ==> after.layout == before.layout
                &&& known && before.layout is None ==> after.layout == Some(layout)
                &&& known ==> after.state@ == before.state@
                &&& !known ==> after.layout == Some(layout)
            },
{
}

/// A removed torrent is gone, and only it; its playback is told to stop.
pub proof fn law_removed_torrent_is_gone(info_hash: &str, r: bool, other: Seq<char>)
    requires
        other != lowercase(info_hash@),
    ensures
        forall|coordinator: &mut LibtorrentPlaybackCoordinator| #[trigger]
            call_ensures(
                LibtorrentPlaybackCoordinator::remove_torrent,
                (coordinator, info_hash),
                r,
            ) ==> {
                let key = lowercase(info_hash@);
                let before = (*coordinator).entries@;
                let after = (*final(coordinator)).entries@;
                &&& !after.contains_key(key)
                &&& r <==> before.contains_key(key)
                &&& r ==> cancel_requested(before[key].state.cancellation)
                &&& after.contains_key(other) <==> before.contains_key(other)
                &&& before.contains_key(other) ==> after[other] == before[other]
                &&& (*final(coordinator)).seeding_enabled == (*coordinator).seeding_enabled
            },
{
}

/// Seeding is switched for all torrents at once, and the loop is told of it. Due
/// pauses are for those who do not seed.
pub proof fn law_seeding_is_switched(enabled: bool, r: PlaybackCommand, now: u64)
    ensures
        forall|coordinator: &mut LibtorrentPlaybackCoordinator| #[trigger]
            call_ensures(
                LibtorrentPlaybackCoordinator::set_seeding_enabled,
                (coordinator, enabled),
                r,
            ) ==> {
                &&& (*final(coordinator)).seeding_enabled == enabled
                &&& (*final(coordinator)).entries == (*coordinator).entries
                &&& r == PlaybackCommand::SeedingEnabled(enabled)
            },
        forall|coordinator: &mut LibtorrentPlaybackCoordinator, due: Vec<DueTorrent>| #[trigger]
            call_ensures(
                LibtorrentPlaybackCoordinator::pause_due_torrents,
                (coordinator, now),
                due,
            ) && (*coordinator).seeding_enabled ==> due@.len() == 0 && *final(coordinator)
                == *coordinator,
{
}

/// A torrent is named among those to pause exactly where its pause is due, in the
/// generation that the pause begins.
pub proof fn law_due_torrents_are_named(
    now: u64,
    due: Vec<DueTorrent>,
    info_hash: String,
    generation: u64,
)
    ensures
        forall|coordinator: &mut LibtorrentPlaybackCoordinator| #[trigger]
            call_ensures(
                LibtorrentPlaybackCoordinator::pause_due_torrents,
                (coordinator, now),
                due,
            ) && !(*coordinator).seeding_enabled ==> (due@.contains(
                DueTorrent { info_hash, generation },
            ) <==> exists|i: int|
                0 <= i < (*coordinator).entries.entries@.len()
                    && (#[trigger] (*coordinator).entries.entries@[i]).0 == info_hash
                    && (*coordinator).entries.entries@[i].1.state@.due_generation(now) == Some(
                    generation,
                )),
{
    assert forall|coordinator: &mut LibtorrentPlaybackCoordinator| #[trigger]
        call_ensures(
            LibtorrentPlaybackCoordinator::pause_due_torrents,
            (coordinator, now),
            due,
        ) && !(*coordinator).seeding_enabled implies (due@.contains(
        DueTorrent { info_hash, generation },
    ) <==> exists|i: int|
        0 <= i < (*coordinator).entries.entries@.len()
            && (#[trigger] (*coordinator).entries.entries@[i]).0 == info_hash
            && (*coordinator).entries.entries@[i].1.state@.due_generation(now) == Some(
            generation,
        )) by {
        law_due_torrents_are_paused((*coordinator).entries.entries@, now, info_hash, generation);
    }
}

/// Pieces are told of under the identity of their torrent, however it was spelled,
/// and a torrent is known from its first mention on.
pub proof fn law_pieces_are_told_of(
    info_hash: &str,
    piece: i32,
    verified: PlaybackCommand,
    lost: PlaybackCommand,
)
    requires
        call_ensures(
            LibtorrentPlaybackCoordinator::observe_piece_verified,
            (info_hash, piece),
            verified,
        ),
        call_ensures(
            LibtorrentPlaybackCoordinator::observe_piece_invalidated,
            (info_hash, piece),
            lost,
        ),
    ensures
        verified is PieceVerified,
        verified->PieceVerified_info_hash@ == lowercase(info_hash@),
        verified->PieceVerified_piece == piece,
        lost is PieceInvalidated,
        lost->PieceInvalidated_info_hash@ == lowercase(info_hash@),
        lost->PieceInvalidated_piece == piece,
        forall|coordinator: &mut LibtorrentPlaybackCoordinator| #[trigger]
            call_ensures(
                LibtorrentPlaybackCoordinator::register_torrent,
                (coordinator, info_hash),
                (),
            ) ==> {
                let key = lowercase(info_hash@);
                let known = (*coordinator).entries@.contains_key(key);
                let added = (*final(coordinator)).entries@[key];
                &&& (*final(coordinator)).entries@.contains_key(key)
                &&& known ==> (*final(coordinator)).entries == (*coordinator).entries
                &&& !known ==> added.layout is None && added.state.phase
                    == LibtorrentNetworkPhase::PausedIdle && added.state.selected_file is None
                    && added.state.generation == 0
            },
{
}

/// Before anything happens no torrent is known, and seeding is on.
pub proof fn law_coordinator_starts_empty(r: LibtorrentPlaybackCoordinator, key: Seq<char>)
    requires
        call_ensures(LibtorrentPlaybackCoordinator::new, (), r),
    ensures
        !r.entries@.contains_key(key),
        r.seeding_enabled,
{
}

} // verus!
