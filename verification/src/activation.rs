//! Turning a selection into native work, one outside step at a time.
//!
//! Between two steps a newer request may take the torrent over. Every step
//! looks at the playback state again, and a request that was overtaken stops
//! without touching it.

use crate::errors::PlaybackError;
use crate::layout::{desired_priorities, same_priorities, selected_priorities};
use crate::playback::{LibtorrentNetworkPhase, PlaybackView, Selection, TorrentPlaybackState};
use vstd::prelude::*;

verus! {

/// A selection on its way to the native torrent.
#[derive(Debug, Clone, Copy, PartialEq, Eq)]
pub struct Activation {
    pub file_idx: usize,
    pub file_count: usize,
    pub generation: u64,
    pub changed: bool,
    pub subordinate: bool,
    pub native_priority: i32,
    pub complete: bool,
}

/// What happened outside since the last step.
#[derive(Debug, Clone, Copy, PartialEq, Eq)]
pub enum ActivationEvent {
    Started,
    PrioritiesApplied,
    HotWindowApplied { first_piece: i32 },
    NativeInspected { is_paused: bool, first_piece_present: bool },
}

/// What has to be done outside next.
#[derive(Debug, Clone, PartialEq, Eq)]
pub enum ActivationAction {
    /// A background reader joined the running generation: nothing to do.
    JoinedGeneration,
    /// The complete file can be read from the silent torrent: nothing to do.
    LocalFastPath,
    /// Submit these file priorities and wait for their acknowledgement.
    ApplyFilePriorities(Vec<i32>),
    /// The complete file is selected and the torrent goes on seeding.
    CompleteWhileSeeding,
    /// The complete file is selected: silence the torrent.
    PauseComplete,
    /// Prioritize the pieces around the playback position.
    ApplyHotWindow,
    /// Ask the native torrent for its status and for the first piece.
    InspectNative { first_piece: i32 },
    /// Start the network as far as needed. A changed selection also announces
    /// the torrent and arms the emergency announce.
    StartNetwork { resume: bool, announce: bool },
}

/// What an action stands for.
pub enum ActivationActionView {
    JoinedGeneration,
    LocalFastPath,
    ApplyFilePriorities(Seq<i32>),
    CompleteWhileSeeding,
    PauseComplete,
    ApplyHotWindow,
    InspectNative { first_piece: i32 },
    StartNetwork { resume: bool, announce: bool },
}

impl View for ActivationAction {
    type V = ActivationActionView;

    open spec fn view(&self) -> ActivationActionView {
        match *self {
            ActivationAction::JoinedGeneration => ActivationActionView::JoinedGeneration,
            ActivationAction::LocalFastPath => ActivationActionView::LocalFastPath,
            ActivationAction::ApplyFilePriorities(
                priorities,
            ) => ActivationActionView::ApplyFilePriorities(priorities@),
            ActivationAction::CompleteWhileSeeding => ActivationActionView::CompleteWhileSeeding,
            ActivationAction::PauseComplete => ActivationActionView::PauseComplete,
            ActivationAction::ApplyHotWindow => ActivationActionView::ApplyHotWindow,
            ActivationAction::InspectNative { first_piece } => ActivationActionView::InspectNative {
                first_piece,
            },
            ActivationAction::StartNetwork { resume, announce } =>
            ActivationActionView::StartNetwork { resume, announce },
        }
    }
}

/// The answer of a step and the playback state after it.
pub struct ActivationOutcome {
    pub answer: Result<ActivationActionView, PlaybackError>,
    pub state: PlaybackView,
}

impl Activation {
    /// The file priorities that this selection wants.
    pub open spec fn wanted_priorities(self) -> Seq<i32> {
        selected_priorities(self.file_count as nat, self.file_idx as int, self.native_priority)
    }

    /// Whether the selection still is what the torrent plays.
    pub open spec fn is_current(self, state: PlaybackView) -> bool {
        state.selection_is_current(self.file_idx, self.generation)
    }

    /// What follows once the wanted priorities are in force.
    pub open spec fn after_priorities(self, seeding_enabled: bool) -> ActivationActionView {
        if !self.complete {
            ActivationActionView::ApplyHotWindow
        } else if seeding_enabled {
            ActivationActionView::CompleteWhileSeeding
        } else {
            ActivationActionView::PauseComplete
        }
    }

    /// The first step.
    pub open spec fn started(self, state: PlaybackView, seeding_enabled: bool) -> Result<
        ActivationActionView,
        PlaybackError,
    > {
        if !self.is_current(state) {
            Err(PlaybackError::SupersededByNewerFile)
        } else if self.subordinate {
            Ok(ActivationActionView::JoinedGeneration)
        } else if self.file_idx >= self.file_count {
            Err(PlaybackError::FileIndexOutOfRange(self.file_idx))
        } else if state.acknowledged_priorities != Some(self.wanted_priorities()) {
            Ok(ActivationActionView::ApplyFilePriorities(self.wanted_priorities()))
        } else if self.complete && !seeding_enabled && state.phase
            == LibtorrentNetworkPhase::PausedIdle {
            Ok(ActivationActionView::LocalFastPath)
        } else {
            Ok(self.after_priorities(seeding_enabled))
        }
    }

    /// The answer to `event` and the state it leaves.
    pub open spec fn outcome(
        self,
        state: PlaybackView,
        event: ActivationEvent,
        seeding_enabled: bool,
    ) -> ActivationOutcome {
        match event {
            ActivationEvent::Started => ActivationOutcome {
                answer: self.started(state, seeding_enabled),
                state,
            },
            ActivationEvent::PrioritiesApplied => if state.generation != self.generation {
                ActivationOutcome {
                    answer: Err(PlaybackError::SupersededDuringPriorityUpdate),
                    state,
                }
            } else if self.file_idx >= self.file_count {
                ActivationOutcome {
                    answer: Err(PlaybackError::FileIndexOutOfRange(self.file_idx)),
                    state,
                }
            } else {
                ActivationOutcome {
                    answer: Ok(self.after_priorities(seeding_enabled)),
                    state: PlaybackView {
                        acknowledged_priorities: Some(self.wanted_priorities()),
                        ..state
                    },
                }
            },
            ActivationEvent::HotWindowApplied { first_piece } => if !self.is_current(state) {
                ActivationOutcome { answer: Err(PlaybackError::SupersededDuringHotWindow), state }
            } else {
                ActivationOutcome {
                    answer: Ok(ActivationActionView::InspectNative { first_piece }),
                    state: PlaybackView { selected_first_piece: Some(first_piece), ..state },
                }
            },
            ActivationEvent::NativeInspected { is_paused, first_piece_present } =>
            if !self.is_current(state) {
                ActivationOutcome { answer: Err(PlaybackError::SupersededBeforeResume), state }
            } else {
                ActivationOutcome {
                    answer: Ok(
                        ActivationActionView::StartNetwork {
                            resume: is_paused,
                            announce: self.changed,
                        },
                    ),
                    state: PlaybackView {
                        selected_first_piece: if first_piece_present {
                            None
                        } else {
                            state.selected_first_piece
                        },
                        ..state
                    },
                }
            },
        }
    }

    /// The activation of a selection that was just made.
    pub fn new(file_idx: usize, file_count: usize, selection: &Selection, complete: bool) -> (r:
        Self)
        ensures
            r == (Activation {
                file_idx,
                file_count,
                generation: selection.generation,
                changed: selection.changed,
                subordinate: selection.subordinate,
                native_priority: selection.native_priority,
                complete,
            }),
    {
        Activation {
            file_idx,
            file_count,
            generation: selection.generation,
            changed: selection.changed,
            subordinate: selection.subordinate,
            native_priority: selection.native_priority,
            complete,
        }
    }

    fn next_after_priorities(&self, seeding_enabled: bool) -> (r: ActivationAction)
        ensures
            r@ == self.after_priorities(seeding_enabled),
    {
        if !self.complete {
            ActivationAction::ApplyHotWindow
        } else if seeding_enabled {
            ActivationAction::CompleteWhileSeeding
        } else {
            ActivationAction::PauseComplete
        }
    }

    /// Answers what happened outside with what to do next.
    pub fn advance(
        &self,
        state: &mut TorrentPlaybackState,
        event: ActivationEvent,
        seeding_enabled: bool,
    ) -> (r: Result<ActivationAction, PlaybackError>)
        requires
            old(state).wf(),
        ensures
            final(state).wf(),
            final(state)@ == self.outcome(old(state)@, event, seeding_enabled).state,
            match r {
                Ok(action) => self.outcome(old(state)@, event, seeding_enabled).answer == Ok::<
                    ActivationActionView,
                    PlaybackError,
                >(action@),
                Err(error) => self.outcome(old(state)@, event, seeding_enabled).answer == Err::<
                    ActivationActionView,
                    PlaybackError,
                >(error),
            },
    {
        match event {
            ActivationEvent::Started => {
                if !state.selection_is_current(self.file_idx, self.generation) {
                    return Err(PlaybackError::SupersededByNewerFile);
                }
                if self.subordinate {
                    return Ok(ActivationAction::JoinedGeneration);
                }
                let desired: Vec<i32> = match desired_priorities(
                    self.file_count,
                    self.file_idx,
                    self.native_priority,
                ) {
                    Ok(desired) => desired,
                    Err(error) => return Err(error),
                };
                let acknowledged: bool = match &state.acknowledged_priorities {
                    Some(priorities) => same_priorities(priorities, &desired),
                    None => false,
                };
                if !acknowledged {
                    return Ok(ActivationAction::ApplyFilePriorities(desired));
                }
                if self.complete && !seeding_enabled && state.phase
                    == LibtorrentNetworkPhase::PausedIdle {
                    return Ok(ActivationAction::LocalFastPath);
                }
                Ok(self.next_after_priorities(seeding_enabled))
            },
            ActivationEvent::PrioritiesApplied => {
                if state.generation != self.generation {
                    return Err(PlaybackError::SupersededDuringPriorityUpdate);
                }
                match desired_priorities(self.file_count, self.file_idx, self.native_priority) {
                    Ok(desired) => {
                        state.acknowledged_priorities = Some(desired);
                    },
                    Err(error) => return Err(error),
                }
                Ok(self.next_after_priorities(seeding_enabled))
            },
            ActivationEvent::HotWindowApplied { first_piece } => {
                if !state.selection_is_current(self.file_idx, self.generation) {
                    return Err(PlaybackError::SupersededDuringHotWindow);
                }
                state.selected_first_piece = Some(first_piece);
                Ok(ActivationAction::InspectNative { first_piece })
            },
            ActivationEvent::NativeInspected { is_paused, first_piece_present } => {
                if !state.selection_is_current(self.file_idx, self.generation) {
                    return Err(PlaybackError::SupersededBeforeResume);
                }
                if first_piece_present {
                    state.selected_first_piece = None;
                }
                Ok(ActivationAction::StartNetwork { resume: is_paused, announce: self.changed })
            },
        }
    }
}

/// A request that a newer generation overtook is refused at every step and
/// leaves the playback state as it is.
pub proof fn law_overtaken_activation_changes_nothing(
    activation: Activation,
    state: PlaybackView,
    event: ActivationEvent,
    seeding_enabled: bool,
)
    requires
        activation.generation != state.generation,
    ensures
        activation.outcome(state, event, seeding_enabled).answer is Err,
        activation.outcome(state, event, seeding_enabled).state == state,
{
}

/// No step of an activation changes the selection, the permits or the phase.
pub proof fn law_activation_keeps_selection(
    activation: Activation,
    state: PlaybackView,
    event: ActivationEvent,
    seeding_enabled: bool,
)
    ensures
        ({
            let after = activation.outcome(state, event, seeding_enabled).state;
            after == PlaybackView {
                acknowledged_priorities: after.acknowledged_priorities,
                selected_first_piece: after.selected_first_piece,
                ..state
            }
        }),
{
}

/// A complete file never asks for pieces: neither at the start nor after its
/// priorities were applied does its activation reach the hot window.
pub proof fn law_complete_file_is_not_prioritized(
    activation: Activation,
    state: PlaybackView,
    seeding_enabled: bool,
)
    requires
        activation.complete,
    ensures
        activation.outcome(state, ActivationEvent::Started, seeding_enabled).answer != Ok::<
            ActivationActionView,
            PlaybackError,
        >(ActivationActionView::ApplyHotWindow),
        activation.outcome(state, ActivationEvent::PrioritiesApplied, seeding_enabled).answer
            != Ok::<ActivationActionView, PlaybackError>(ActivationActionView::ApplyHotWindow),
{
}

/// A current request that leads gets its file's priorities applied: the file at
/// the priority of the selection, every other one at zero, unless exactly these
/// are in force. A reader that only joined changes nothing.
pub proof fn law_activation_applies_the_selection(
    activation: Activation,
    state: PlaybackView,
    seeding_enabled: bool,
    other: int,
)
    requires
        state.generation == activation.generation,
        state.selected_file == Some(activation.file_idx),
        activation.file_idx < activation.file_count,
        0 <= other < activation.file_count,
    ensures
        activation.subordinate ==> activation.outcome(
            state,
            ActivationEvent::Started,
            seeding_enabled,
        ).answer == Ok::<ActivationActionView, PlaybackError>(
            ActivationActionView::JoinedGeneration,
        ),
        !activation.subordinate ==> {
            let answer = activation.outcome(state, ActivationEvent::Started, seeding_enabled).answer;
            &&& answer is Ok
            &&& state.acknowledged_priorities is None ==> answer->Ok_0 is ApplyFilePriorities
            &&& answer->Ok_0 matches ActivationActionView::ApplyFilePriorities(priorities) ==> {
                &&& priorities.len() == activation.file_count
                &&& priorities[activation.file_idx as int] == activation.native_priority
                &&& other != activation.file_idx ==> priorities[other] == 0
                &&& state.acknowledged_priorities != Some(priorities)
            }
            &&& state.acknowledged_priorities matches Some(known) ==> (answer->Ok_0
                is ApplyFilePriorities <==> known.len() != activation.file_count
                || known[activation.file_idx as int] != activation.native_priority || exists|i: int|
                0 <= i < known.len() && i != activation.file_idx && #[trigger] known[i] != 0)
        },
{
    let wanted = activation.wanted_priorities();
    if let Some(known) = state.acknowledged_priorities {
        if known.len() == activation.file_count && known[activation.file_idx as int]
            == activation.native_priority && !(exists|i: int|
            0 <= i < known.len() && i != activation.file_idx && #[trigger] known[i] != 0) {
            assert(known =~= wanted);
        }
        if known == wanted {
            assert forall|i: int|
                0 <= i < known.len() && i != activation.file_idx implies #[trigger] known[i] == 0 by {
                assert(wanted[i] == 0);
            }
        }
    }
}

/// Once the priorities are in force a file that is not complete gets its pieces
/// prioritized, then the native torrent is looked at and the network started: it
/// is resumed where it was paused, and announced where the selection is new. A
/// complete file silences the torrent, unless it seeds.
pub proof fn law_activation_runs_its_course(
    activation: Activation,
    state: PlaybackView,
    seeding_enabled: bool,
    first_piece: i32,
    is_paused: bool,
    first_piece_present: bool,
)
    requires
        state.generation == activation.generation,
        state.selected_file == Some(activation.file_idx),
        activation.file_idx < activation.file_count,
    ensures
        ({
            let applied = activation.outcome(
                state,
                ActivationEvent::PrioritiesApplied,
                seeding_enabled,
            );
            &&& applied.state.acknowledged_priorities matches Some(priorities)
            &&& priorities.len() == activation.file_count
            &&& priorities[activation.file_idx as int] == activation.native_priority
            &&& applied.answer is Ok
            &&& !activation.complete ==> applied.answer->Ok_0 is ApplyHotWindow
            &&& activation.complete && seeding_enabled ==> applied.answer->Ok_0
                is CompleteWhileSeeding
            &&& activation.complete && !seeding_enabled ==> applied.answer->Ok_0 is PauseComplete
        }),
        ({
            let prioritized = activation.outcome(
                state,
                ActivationEvent::HotWindowApplied { first_piece },
                seeding_enabled,
            );
            &&& prioritized.answer == Ok::<ActivationActionView, PlaybackError>(
                ActivationActionView::InspectNative { first_piece },
            )
            &&& prioritized.state.selected_first_piece == Some(first_piece)
        }),
        ({
            let inspected = activation.outcome(
                state,
                ActivationEvent::NativeInspected { is_paused, first_piece_present },
                seeding_enabled,
            );
            &&& inspected.answer is Ok
            &&& inspected.answer->Ok_0 matches ActivationActionView::StartNetwork {
                resume,
                announce,
            }
            &&& resume == is_paused
            &&& announce == activation.changed
            &&& first_piece_present ==> inspected.state.selected_first_piece is None
            &&& !first_piece_present ==> inspected.state.selected_first_piece
                == state.selected_first_piece
        }),
{
}

/// With its priorities in force already, the first step goes on as if they had
/// just been applied; only a complete file of a silent torrent needs no step at
/// all.
pub proof fn law_acknowledged_priorities_are_not_repeated(
    activation: Activation,
    state: PlaybackView,
    seeding_enabled: bool,
)
    requires
        state.generation == activation.generation,
        state.selected_file == Some(activation.file_idx),
        activation.file_idx < activation.file_count,
        !activation.subordinate,
        state.acknowledged_priorities == Some(
            Seq::new(
                activation.file_count as nat,
                |i: int|
                    if i == activation.file_idx {
                        activation.native_priority
                    } else {
                        0i32
                    },
            ),
        ),
    ensures
        ({
            let answer = activation.outcome(state, ActivationEvent::Started, seeding_enabled).answer;
            &&& answer is Ok
            &&& !activation.complete ==> answer->Ok_0 is ApplyHotWindow
            &&& activation.complete && seeding_enabled ==> answer->Ok_0 is CompleteWhileSeeding
            &&& activation.complete && !seeding_enabled && state.phase
                == LibtorrentNetworkPhase::PausedIdle ==> answer->Ok_0 is LocalFastPath
            &&& activation.complete && !seeding_enabled && state.phase
                != LibtorrentNetworkPhase::PausedIdle ==> answer->Ok_0 is PauseComplete
        }),
{
    assert(state.acknowledged_priorities->0 =~= activation.wanted_priorities());
}

/// Each refusal names what stood in the way: which step a newer request overtook,
/// or a file that the torrent does not have.
pub proof fn law_activation_names_its_refusals(
    activation: Activation,
    state: PlaybackView,
    seeding_enabled: bool,
    first_piece: i32,
    is_paused: bool,
    first_piece_present: bool,
)
    ensures
        ({
            let current = state.generation == activation.generation && state.selected_file == Some(
                activation.file_idx,
            );
            let started = activation.outcome(state, ActivationEvent::Started, seeding_enabled);
            let applied = activation.outcome(
                state,
                ActivationEvent::PrioritiesApplied,
                seeding_enabled,
            );
            let prioritized = activation.outcome(
                state,
                ActivationEvent::HotWindowApplied { first_piece },
                seeding_enabled,
            );
            let inspected = activation.outcome(
                state,
                ActivationEvent::NativeInspected { is_paused, first_piece_present },
                seeding_enabled,
            );
            &&& !current ==> started.answer is Err && started.answer->Err_0
                == PlaybackError::SupersededByNewerFile
            &&& !current ==> prioritized.answer is Err && prioritized.answer->Err_0
                == PlaybackError::SupersededDuringHotWindow
            &&& !current ==> inspected.answer is Err && inspected.answer->Err_0
                == PlaybackError::SupersededBeforeResume
            &&& state.generation != activation.generation ==> applied.answer is Err
                && applied.answer->Err_0 == PlaybackError::SupersededDuringPriorityUpdate
            &&& current && activation.file_idx >= activation.file_count ==> applied.answer is Err
                && applied.answer->Err_0 == PlaybackError::FileIndexOutOfRange(
                activation.file_idx,
            )
            &&& current && !activation.subordinate && activation.file_idx >= activation.file_count
                ==> started.answer is Err && started.answer->Err_0
                == PlaybackError::FileIndexOutOfRange(activation.file_idx)
            &&& started.state == state
            &&& applied.answer is Err ==> applied.state == state
            &&& prioritized.answer is Err ==> prioritized.state == state
            &&& inspected.answer is Err ==> inspected.state == state
        }),
{
}

/// What an action shows is what it holds.
pub proof fn law_action_view_shows_the_action(action: ActivationAction)
    ensures
        action is ApplyFilePriorities <==> action@ is ApplyFilePriorities,
        action matches ActivationAction::ApplyFilePriorities(priorities) ==> action@
            == ActivationActionView::ApplyFilePriorities(priorities@),
        action is InspectNative <==> action@ is InspectNative,
        action matches ActivationAction::InspectNative { first_piece } ==> action@ == (
        ActivationActionView::InspectNative { first_piece }),
        action is StartNetwork <==> action@ is StartNetwork,
        action matches ActivationAction::StartNetwork { resume, announce } ==> action@ == (
        ActivationActionView::StartNetwork { resume, announce }),
        action is JoinedGeneration <==> action@ is JoinedGeneration,
        action is LocalFastPath <==> action@ is LocalFastPath,
        action is CompleteWhileSeeding <==> action@ is CompleteWhileSeeding,
        action is PauseComplete <==> action@ is PauseComplete,
        action is ApplyHotWindow <==> action@ is ApplyHotWindow,
{
}

/// An activation carries its selection, and starting it applies the file's
/// priorities where they are not in force: the file at the selection's priority,
/// every other one at none.
pub proof fn law_activation_carries_its_selection(
    file_idx: usize,
    file_count: usize,
    selection: &Selection,
    complete: bool,
    activation: Activation,
    seeding_enabled: bool,
    other: int,
)
    requires
        call_ensures(Activation::new, (file_idx, file_count, selection, complete), activation),
        file_idx < file_count,
        0 <= other < file_count,
    ensures
        activation.file_idx == file_idx,
        activation.file_count == file_count,
        activation.generation == selection.generation,
        activation.changed == selection.changed,
        activation.subordinate == selection.subordinate,
        activation.native_priority == selection.native_priority,
        activation.complete == complete,
        forall|state: &mut TorrentPlaybackState, r: Result<ActivationAction, PlaybackError>|
            #[trigger]
            call_ensures(
                Activation::advance,
                (&activation, state, ActivationEvent::Started, seeding_enabled),
                r,
            ) && (*state).generation == selection.generation && (*state).selected_file == Some(
                file_idx,
            ) && !selection.subordinate && (*state).acknowledged_priorities is None ==> {
                &&& r is Ok
                &&& r->Ok_0 matches ActivationAction::ApplyFilePriorities(priorities)
                &&& priorities@.len() == file_count
                &&& priorities@[file_idx as int] == selection.native_priority
                &&& other != file_idx ==> priorities@[other] == 0
            },
{
}

/// An activation that is still current goes on: to its pieces once the priorities
/// are in force, to the native torrent once they were asked for, and to the
/// network. One that was overtaken stops and leaves the state alone.
pub proof fn law_activation_goes_on_while_current(
    activation: &Activation,
    seeding_enabled: bool,
    first_piece: i32,
    is_paused: bool,
    first_piece_present: bool,
    event: ActivationEvent,
)
    requires
        activation.file_idx < activation.file_count,
    ensures
        forall|state: &mut TorrentPlaybackState, r: Result<ActivationAction, PlaybackError>|
            #[trigger]
            call_ensures(Activation::advance, (activation, state, event, seeding_enabled), r)
                && (*state).generation != activation.generation ==> r is Err && (*final(state))@
                == (*state)@,
        forall|state: &mut TorrentPlaybackState, r: Result<ActivationAction, PlaybackError>|
            #[trigger]
            call_ensures(
                Activation::advance,
                (activation, state, ActivationEvent::PrioritiesApplied, seeding_enabled),
                r,
            ) && (*state).generation == activation.generation ==> {
                &&& r is Ok
                &&& !activation.complete ==> r->Ok_0 is ApplyHotWindow
                &&& activation.complete && seeding_enabled ==> r->Ok_0 is CompleteWhileSeeding
                &&& activation.complete && !seeding_enabled ==> r->Ok_0 is PauseComplete
                &&& (*final(state)).acknowledged_priorities is Some
                &&& (*final(state)).acknowledged_priorities->0@.len() == activation.file_count
                &&& (*final(state)).acknowledged_priorities->0@[activation.file_idx as int]
                    == activation.native_priority
            },
        forall|state: &mut TorrentPlaybackState, r: Result<ActivationAction, PlaybackError>|
            #[trigger]
            call_ensures(
                Activation::advance,
                (
                    activation,
                    state,
                    ActivationEvent::HotWindowApplied { first_piece },
                    seeding_enabled,
                ),
                r,
            ) && (*state).generation == activation.generation && (*state).selected_file == Some(
                activation.file_idx,
            ) ==> {
                &&& r is Ok
                &&& r->Ok_0 == (ActivationAction::InspectNative { first_piece })
                &&& (*final(state)).selected_first_piece == Some(first_piece)
            },
        forall|state: &mut TorrentPlaybackState, r: Result<ActivationAction, PlaybackError>|
            #[trigger]
            call_ensures(
                Activation::advance,
                (
                    activation,
                    state,
                    ActivationEvent::NativeInspected { is_paused, first_piece_present },
                    seeding_enabled,
                ),
                r,
            ) && (*state).generation == activation.generation && (*state).selected_file == Some(
                activation.file_idx,
            ) ==> {
                &&& r is Ok
                &&& r->Ok_0 == (ActivationAction::StartNetwork {
                    resume: is_paused,
                    announce: activation.changed,
                })
                &&& first_piece_present ==> (*final(state)).selected_first_piece is None
            },
{
}

} // verus!
