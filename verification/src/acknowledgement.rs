//! Waiting for the native library: for torrent metadata and for submitted file
//! priorities to take effect.

use crate::errors::PlaybackError;
use crate::layout::same_priorities;
use vstd::prelude::*;

verus! {

/// How long metadata is waited for.
pub const METADATA_TIMEOUT: u64 = 30_000_000_000;

/// How long an acknowledgement of file priorities is waited for.
pub const FILE_PRIORITY_ACK_TIMEOUT: u64 = 2_000_000_000;

/// The native alert numbers that playback listens for.
#[derive(Debug, Clone, Copy, PartialEq, Eq)]
pub struct AlertCodes {
    pub metadata_received: i32,
    pub file_error: i32,
    pub file_priority: i32,
    pub torrent_paused: i32,
    pub read_piece: i32,
}

/// One alert of the native library.
#[derive(Debug, Clone, PartialEq, Eq)]
pub struct AlertInfo {
    pub alert_type: i32,
    pub category: u32,
    pub what: String,
    pub message: String,
    pub timestamp: i64,
    pub info_hash: String,
    pub piece_index: i32,
    pub piece_data: Vec<u8>,
}

/// What came out of waiting on an alert channel.
#[derive(Debug, Clone, PartialEq, Eq)]
pub enum Received {
    Alert(AlertInfo),
    Lagged,
    Closed,
    TimedOut,
}

/// How much longer metadata may be waited for.
pub fn metadata_wait(elapsed: u64) -> (r: Result<u64, PlaybackError>)
    ensures
        r == (if elapsed <= METADATA_TIMEOUT {
            Ok::<u64, PlaybackError>((METADATA_TIMEOUT - elapsed) as u64)
        } else {
            Err(PlaybackError::MetadataTimeout)
        }),
{
    if elapsed <= METADATA_TIMEOUT {
        Ok(METADATA_TIMEOUT - elapsed)
    } else {
        Err(PlaybackError::MetadataTimeout)
    }
}

/// Whether a metadata wait goes on after `received`.
pub open spec fn metadata_answer(received: Received, codes: AlertCodes) -> Result<
    (),
    PlaybackError,
> {
    match received {
        Received::Alert(alert) => if alert.alert_type != codes.metadata_received && alert.alert_type
            == codes.file_error {
            Err(PlaybackError::MetadataFileError(alert.message))
        } else {
            Ok(())
        },
        Received::Lagged => Ok(()),
        Received::Closed => Err(PlaybackError::AlertChannelClosed),
        Received::TimedOut => Err(PlaybackError::MetadataTimeout),
    }
}

/// Answers an alert during a metadata wait: look for the layout again, or give
/// up. Missed alerts only mean another look.
pub fn metadata_received(received: Received, codes: &AlertCodes) -> (r: Result<(), PlaybackError>)
    ensures
        r == metadata_answer(received, *codes),
{
    match received {
        Received::Alert(alert) => if alert.alert_type == codes.metadata_received {
            Ok(())
        } else if alert.alert_type == codes.file_error {
            Err(PlaybackError::MetadataFileError(alert.message))
        } else {
            Ok(())
        },
        Received::Lagged => Ok(()),
        Received::Closed => Err(PlaybackError::AlertChannelClosed),
        Received::TimedOut => Err(PlaybackError::MetadataTimeout),
    }
}

/// What submitting file priorities has to do next.
#[derive(Debug, Clone, Copy, PartialEq, Eq, Structural)]
pub enum PriorityAck {
    /// Wait for the next alert.
    Wait,
    /// Read the priorities back; on a mismatch the wait goes on.
    Compare,
    /// Read the priorities back a last time.
    CompareFinally,
}

/// Whether priorities have to be submitted at all. The native library ignores
/// them for a seed and would never acknowledge them.
pub fn submits_priorities(is_seeding: bool) -> (r: bool)
    ensures
        r == !is_seeding,
{
    !is_seeding
}

/// What a wait for acknowledgement does with `received`.
pub open spec fn priority_answer(received: Received, codes: AlertCodes) -> Result<
    PriorityAck,
    PlaybackError,
> {
    match received {
        Received::Alert(alert) => if alert.alert_type == codes.file_error {
            Err(PlaybackError::FilePriorityError(alert.message))
        } else if alert.alert_type == codes.file_priority {
            Ok(PriorityAck::Compare)
        } else {
            Ok(PriorityAck::Wait)
        },
        Received::Lagged => Ok(PriorityAck::Wait),
        Received::Closed => Err(PlaybackError::AlertChannelClosed),
        Received::TimedOut => Ok(PriorityAck::CompareFinally),
    }
}

/// Answers an alert while submitted priorities are not yet acknowledged.
pub fn priority_received(received: Received, codes: &AlertCodes) -> (r: Result<
    PriorityAck,
    PlaybackError,
>)
    ensures
        r == priority_answer(received, *codes),
{
    match received {
        Received::Alert(alert) => if alert.alert_type == codes.file_error {
            Err(PlaybackError::FilePriorityError(alert.message))
        } else if alert.alert_type == codes.file_priority {
            Ok(PriorityAck::Compare)
        } else {
            Ok(PriorityAck::Wait)
        },
        Received::Lagged => Ok(PriorityAck::Wait),
        Received::Closed => Err(PlaybackError::AlertChannelClosed),
        Received::TimedOut => Ok(PriorityAck::CompareFinally),
    }
}

/// What comparing the priorities that were read back leads to: `true` where
/// they took effect, `false` where the wait goes on. After the wait timed out
/// a mismatch is final.
pub open spec fn read_back_answer(timed_out: bool, actual: Seq<i32>, expected: Seq<i32>) -> Result<
    bool,
    PlaybackError,
> {
    if actual == expected {
        Ok(true)
    } else if timed_out {
        Err(PlaybackError::FilePrioritiesMismatch)
    } else {
        Ok(false)
    }
}

/// Compares the priorities that were read back with those submitted.
pub fn priorities_read_back(timed_out: bool, actual: &Vec<i32>, expected: &Vec<i32>) -> (r: Result<
    bool,
    PlaybackError,
>)
    ensures
        r == read_back_answer(timed_out, actual@, expected@),
{
    if same_priorities(actual, expected) {
        Ok(true)
    } else if timed_out {
        Err(PlaybackError::FilePrioritiesMismatch)
    } else {
        Ok(false)
    }
}

/// A submission of file priorities, until they are known to be in force.
#[derive(Debug, Clone, PartialEq, Eq)]
pub struct PrioritySubmission {
    pub priorities: Vec<i32>,
    /// Until when an acknowledgement is waited for.
    pub deadline: u64,
    /// Whether that time is up.
    pub timed_out: bool,
}

/// What a submission does next.
#[derive(Debug, Clone, Copy, PartialEq, Eq, Structural)]
pub enum SubmissionStep {
    /// Wait for an alert until the deadline.
    Receive,
    /// Read the priorities of the native torrent back.
    ReadBack,
    /// The priorities are in force.
    InForce,
}

impl PrioritySubmission {
    /// Starts to wait for priorities that were submitted at `now`.
    pub fn submitted(priorities: Vec<i32>, now: u64) -> (r: Self)
        requires
            now + FILE_PRIORITY_ACK_TIMEOUT <= u64::MAX,
        ensures
            r == (PrioritySubmission {
                priorities,
                deadline: (now + FILE_PRIORITY_ACK_TIMEOUT) as u64,
                timed_out: false,
            }),
    {
        PrioritySubmission {
            priorities,
            deadline: now + FILE_PRIORITY_ACK_TIMEOUT,
            timed_out: false,
        }
    }

    /// The step after `received`.
    pub open spec fn after_received(received: Received, codes: AlertCodes) -> Result<
        SubmissionStep,
        PlaybackError,
    > {
        match priority_answer(received, codes) {
            Ok(PriorityAck::Wait) => Ok(SubmissionStep::Receive),
            Ok(_) => Ok(SubmissionStep::ReadBack),
            Err(error) => Err(error),
        }
    }

    /// Goes on after [`SubmissionStep::Receive`].
    pub fn received(&mut self, received: Received, codes: &AlertCodes) -> (r: Result<
        SubmissionStep,
        PlaybackError,
    >)
        ensures
            r == Self::after_received(received, *codes),
            *final(self) == (PrioritySubmission {
                timed_out: old(self).timed_out || received is TimedOut,
                ..*old(self)
            }),
    {
        match priority_received(received, codes) {
            Ok(PriorityAck::Wait) => Ok(SubmissionStep::Receive),
            Ok(PriorityAck::Compare) => Ok(SubmissionStep::ReadBack),
            Ok(PriorityAck::CompareFinally) => {
                self.timed_out = true;
                Ok(SubmissionStep::ReadBack)
            },
            Err(error) => Err(error),
        }
    }

    /// The step after the priorities were read back.
    pub open spec fn after_read_back(self, actual: Seq<i32>) -> Result<
        SubmissionStep,
        PlaybackError,
    > {
        match read_back_answer(self.timed_out, actual, self.priorities@) {
            Ok(true) => Ok(SubmissionStep::InForce),
            Ok(false) => Ok(SubmissionStep::Receive),
            Err(error) => Err(error),
        }
    }

    /// Goes on after [`SubmissionStep::ReadBack`].
    pub fn read_back(&self, actual: &Vec<i32>) -> (r: Result<SubmissionStep, PlaybackError>)
        ensures
            r == self.after_read_back(actual@),
    {
        match priorities_read_back(self.timed_out, actual, &self.priorities) {
            Ok(true) => Ok(SubmissionStep::InForce),
            Ok(false) => Ok(SubmissionStep::Receive),
            Err(error) => Err(error),
        }
    }
}

/// Priorities count as in force only when they were read back equal: no alert
/// does that on its own, no lost alert prevents it, and once time is up the
/// next comparison ends the wait.
pub proof fn law_acknowledged_priorities_match(
    submission: PrioritySubmission,
    received: Received,
    codes: AlertCodes,
    actual: Seq<i32>,
)
    ensures
        submission.after_read_back(actual) == Ok::<SubmissionStep, PlaybackError>(
            SubmissionStep::InForce,
        ) <==> actual == submission.priorities@,
        PrioritySubmission::after_received(received, codes) != Ok::<SubmissionStep, PlaybackError>(
            SubmissionStep::InForce,
        ),
        received is TimedOut || received is Lagged ==> PrioritySubmission::after_received(
            received,
            codes,
        ) is Ok,
        submission.timed_out ==> submission.after_read_back(actual) != Ok::<
            SubmissionStep,
            PlaybackError,
        >(SubmissionStep::Receive),
{
}

/// A wait for metadata ends badly in three ways only: a file error, a closed
/// channel, or no time left. Every other alert, and alerts that were missed, lead
/// to another look.
pub proof fn law_metadata_wait_ends_for_a_reason(received: Received, codes: AlertCodes)
    ensures
        received is Lagged ==> metadata_answer(received, codes) is Ok,
        received is TimedOut ==> metadata_answer(received, codes) == Err::<(), PlaybackError>(
            PlaybackError::MetadataTimeout,
        ),
        received is Closed ==> metadata_answer(received, codes) == Err::<(), PlaybackError>(
            PlaybackError::AlertChannelClosed,
        ),
        received matches Received::Alert(alert) ==> {
            &&& alert.alert_type == codes.metadata_received ==> metadata_answer(
                received,
                codes,
            ) is Ok
            &&& alert.alert_type != codes.file_error ==> metadata_answer(received, codes) is Ok
            &&& alert.alert_type == codes.file_error && codes.file_error
                != codes.metadata_received ==> metadata_answer(received, codes) == Err::<
                (),
                PlaybackError,
            >(PlaybackError::MetadataFileError(alert.message))
        },
{
}

/// While priorities are not acknowledged, their alert leads to a comparison, time
/// that is up to a last one, a file error or a closed channel to a failure, and
/// anything else to more waiting.
pub proof fn law_acknowledgement_follows_alerts(received: Received, codes: AlertCodes)
    ensures
        received is Lagged ==> priority_answer(received, codes) == Ok::<PriorityAck, PlaybackError>(
            PriorityAck::Wait,
        ),
        received is TimedOut ==> priority_answer(received, codes) == Ok::<
            PriorityAck,
            PlaybackError,
        >(PriorityAck::CompareFinally),
        received is Closed ==> priority_answer(received, codes) == Err::<
            PriorityAck,
            PlaybackError,
        >(PlaybackError::AlertChannelClosed),
        received matches Received::Alert(alert) ==> {
            &&& alert.alert_type == codes.file_error ==> priority_answer(received, codes) == Err::<
                PriorityAck,
                PlaybackError,
            >(PlaybackError::FilePriorityError(alert.message))
            &&& alert.alert_type == codes.file_priority && codes.file_priority != codes.file_error
                ==> priority_answer(received, codes) == Ok::<PriorityAck, PlaybackError>(
                PriorityAck::Compare,
            )
            &&& alert.alert_type != codes.file_priority && alert.alert_type != codes.file_error
                ==> priority_answer(received, codes) == Ok::<PriorityAck, PlaybackError>(
                PriorityAck::Wait,
            )
        },
{
}

/// A submission reads the priorities back exactly after their alert or when its
/// time is up, fails exactly on a file error or a closed channel, and waits on
/// after everything else.
pub proof fn law_submission_reads_back_when_told(received: Received, codes: AlertCodes)
    requires
        codes.file_error != codes.file_priority,
    ensures
        ({
            let step = PrioritySubmission::after_received(received, codes);
            let acknowledged = received matches Received::Alert(alert) && alert.alert_type
                == codes.file_priority;
            let failed = received matches Received::Alert(alert) && alert.alert_type
                == codes.file_error;
            &&& step == Ok::<SubmissionStep, PlaybackError>(SubmissionStep::ReadBack)
                <==> acknowledged || received is TimedOut
            &&& step is Err <==> failed || received is Closed
            &&& step is Err || step == Ok::<SubmissionStep, PlaybackError>(SubmissionStep::ReadBack)
                || step == Ok::<SubmissionStep, PlaybackError>(SubmissionStep::Receive)
        }),
{
}

/// Priorities that were read back different are waited for as long as there is
/// time, and after that they failed to take effect.
pub proof fn law_mismatch_ends_with_the_time(
    submission: PrioritySubmission,
    actual: Seq<i32>,
    expected: Seq<i32>,
    timed_out: bool,
)
    ensures
        read_back_answer(timed_out, expected, expected) == Ok::<bool, PlaybackError>(true),
        actual != expected && !timed_out ==> read_back_answer(timed_out, actual, expected) == Ok::<
            bool,
            PlaybackError,
        >(false),
        actual != expected && timed_out ==> read_back_answer(timed_out, actual, expected) == Err::<
            bool,
            PlaybackError,
        >(PlaybackError::FilePrioritiesMismatch),
        actual != submission.priorities@ && submission.timed_out ==> submission.after_read_back(
            actual,
        ) == Err::<SubmissionStep, PlaybackError>(PlaybackError::FilePrioritiesMismatch),
        actual != submission.priorities@ && !submission.timed_out ==> submission.after_read_back(
            actual,
        ) == Ok::<SubmissionStep, PlaybackError>(SubmissionStep::Receive),
{
}

/// Metadata is waited for thirty seconds in all.
pub proof fn law_metadata_is_waited_for_thirty_seconds(
    elapsed: u64,
    r: Result<u64, PlaybackError>,
)
    requires
        call_ensures(metadata_wait, (elapsed,), r),
    ensures
        elapsed <= 30_000_000_000 ==> r == Ok::<u64, PlaybackError>(
            (30_000_000_000 - elapsed) as u64,
        ),
        elapsed > 30_000_000_000 ==> r == Err::<u64, PlaybackError>(PlaybackError::MetadataTimeout),
{
}

/// Submitted priorities are waited for two seconds. They are in force exactly when
/// they were read back equal, and failed where they are not when the time is up.
pub proof fn law_submission_waits_two_seconds(
    priorities: Vec<i32>,
    now: u64,
    submission: PrioritySubmission,
    actual: &Vec<i32>,
    received: Received,
    codes: &AlertCodes,
    r: Result<SubmissionStep, PlaybackError>,
)
    requires
        call_ensures(PrioritySubmission::submitted, (priorities, now), submission),
        call_ensures(PrioritySubmission::read_back, (&submission, actual), r),
        now + 2_000_000_000 <= u64::MAX,
    ensures
        submission.priorities == priorities,
        submission.deadline == now + 2_000_000_000,
        !submission.timed_out,
        r == Ok::<SubmissionStep, PlaybackError>(SubmissionStep::InForce) <==> actual@
            == priorities@,
        r is Ok,
        forall|waiting: &mut PrioritySubmission, step: Result<SubmissionStep, PlaybackError>|
            #[trigger]
            call_ensures(PrioritySubmission::received, (waiting, received, codes), step) ==> {
                &&& (*final(waiting)).priorities == (*waiting).priorities
                &&& (*final(waiting)).deadline == (*waiting).deadline
                &&& received is TimedOut ==> (*final(waiting)).timed_out
                &&& !(received is TimedOut) ==> (*final(waiting)).timed_out
                    == (*waiting).timed_out
                &&& received is TimedOut ==> step == Ok::<SubmissionStep, PlaybackError>(
                    SubmissionStep::ReadBack,
                )
                &&& received is Closed ==> step == Err::<SubmissionStep, PlaybackError>(
                    PlaybackError::AlertChannelClosed,
                )
                &&& received is Lagged ==> step == Ok::<SubmissionStep, PlaybackError>(
                    SubmissionStep::Receive,
                )
            },
{
}

/// Once its time is up, a submission that was read back different has failed.
pub proof fn law_late_mismatch_has_failed(
    submission: &PrioritySubmission,
    actual: &Vec<i32>,
    r: Result<SubmissionStep, PlaybackError>,
    is_seeding: bool,
    submits: bool,
)
    requires
        call_ensures(PrioritySubmission::read_back, (submission, actual), r),
        call_ensures(submits_priorities, (is_seeding,), submits),
        submission.timed_out,
    ensures
        actual@ == submission.priorities@ ==> r == Ok::<SubmissionStep, PlaybackError>(
            SubmissionStep::InForce,
        ),
        actual@ != submission.priorities@ ==> r == Err::<SubmissionStep, PlaybackError>(
            PlaybackError::FilePrioritiesMismatch,
        ),
        submits <==> !is_seeding,
{
}

/// What is received while metadata or priorities are waited for is answered in its
/// kind, and priorities are in force where they were read back equal.
pub proof fn law_received_is_answered(
    received: Received,
    codes: &AlertCodes,
    metadata: Result<(), PlaybackError>,
    priority: Result<PriorityAck, PlaybackError>,
    timed_out: bool,
    actual: &Vec<i32>,
    expected: &Vec<i32>,
    equal: Result<bool, PlaybackError>,
)
    requires
        call_ensures(metadata_received, (received, codes), metadata),
        call_ensures(priority_received, (received, codes), priority),
        call_ensures(priorities_read_back, (timed_out, actual, expected), equal),
    ensures
        received is Lagged ==> metadata is Ok && priority == Ok::<PriorityAck, PlaybackError>(
            PriorityAck::Wait,
        ),
        received is TimedOut ==> metadata == Err::<(), PlaybackError>(
            PlaybackError::MetadataTimeout,
        ) && priority == Ok::<PriorityAck, PlaybackError>(PriorityAck::CompareFinally),
        received is Closed ==> metadata is Err && priority is Err,
        received matches Received::Alert(alert) ==> (alert.alert_type == codes.file_error
            && codes.file_error != codes.metadata_received ==> metadata == Err::<(), PlaybackError>(
            PlaybackError::MetadataFileError(alert.message),
        )),
        received matches Received::Alert(alert) ==> (alert.alert_type == codes.metadata_received
            ==> metadata is Ok),
        actual@ == expected@ ==> equal == Ok::<bool, PlaybackError>(true),
        actual@ != expected@ && !timed_out ==> equal == Ok::<bool, PlaybackError>(false),
        actual@ != expected@ && timed_out ==> equal == Err::<bool, PlaybackError>(
            PlaybackError::FilePrioritiesMismatch,
        ),
{
}

} // verus!
