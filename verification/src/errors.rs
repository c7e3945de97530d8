//! Why a playback operation did not go through.

use crate::text::{decimal, decimal_text, signed_decimal, signed_decimal_text};
use vstd::prelude::*;
use vstd::string::*;

verus! {

/// What the native status looked like when a pause was given up on.
#[derive(Debug, Clone, Copy, PartialEq, Eq)]
pub struct PauseStatusSnapshot {
    pub is_paused: bool,
    pub num_peers: i32,
    pub total_downloaded: i64,
    pub total_uploaded: i64,
    pub download_rate: i32,
    pub upload_rate: i32,
}

#[derive(Debug, Clone, PartialEq, Eq)]
pub enum PlaybackError {
    TorrentNotFound(String),
    FileIndexOutOfRange(usize),
    ZeroPieceLength,
    MetadataTimeout,
    MetadataFileError(String),
    AlertChannelClosed,
    BackgroundProbeRejected,
    SupersededByNewerFile,
    SupersededDuringPriorityUpdate,
    SupersededDuringHotWindow,
    SupersededBeforeResume,
    FilePriorityError(String),
    FilePrioritiesMismatch,
    PauseNotSilent(PauseStatusSnapshot),
    PauseFileError(String),
}

pub open spec fn flag_text(flag: bool) -> Seq<char> {
    if flag {
        "true"@
    } else {
        "false"@
    }
}

/// The message shown for an error.
pub open spec fn error_text(error: PlaybackError) -> Seq<char> {
    match error {
        PlaybackError::TorrentNotFound(detail) => "Torrent not found: "@ + detail@,
        PlaybackError::FileIndexOutOfRange(index) => "File index "@ + decimal(index as nat)
            + " out of range"@,
        PlaybackError::ZeroPieceLength => "Torrent piece length is zero"@,
        PlaybackError::MetadataTimeout => "Timeout waiting for torrent metadata (30s)"@,
        PlaybackError::MetadataFileError(detail) => "Torrent metadata file error: "@ + detail@,
        PlaybackError::AlertChannelClosed => "Libtorrent alert channel closed"@,
        PlaybackError::BackgroundProbeRejected =>
        "Background probe rejected because a different playback file is active"@,
        PlaybackError::SupersededByNewerFile => "Playback request was superseded by a newer file"@,
        PlaybackError::SupersededDuringPriorityUpdate =>
        "Playback request was superseded during priority update"@,
        PlaybackError::SupersededDuringHotWindow =>
        "Playback request was superseded while applying its hot window"@,
        PlaybackError::SupersededBeforeResume => "Playback request was superseded before resume"@,
        PlaybackError::FilePriorityError(detail) => "Libtorrent file priority error: "@ + detail@,
        PlaybackError::FilePrioritiesMismatch =>
        "Libtorrent file priorities did not match after acknowledgement timeout"@,
        PlaybackError::PauseNotSilent(status) => "Torrent pause was not silent after 5s (paused="@
            + flag_text(status.is_paused) + ", peers="@ + signed_decimal(status.num_peers as int)
            + ", down="@ + signed_decimal(status.download_rate as int) + ", up="@ + signed_decimal(
            status.upload_rate as int,
        ) + ", total_down="@ + signed_decimal(status.total_downloaded as int) + ", total_up="@
            + signed_decimal(status.total_uploaded as int) + ")"@,
        PlaybackError::PauseFileError(detail) => "Libtorrent file error while pausing: "@ + detail@,
    }
}

fn joined(head: &str, tail: &str) -> (r: String)
    ensures
        r@ == head@ + tail@,
{
    let mut text: String = head.to_owned();
    text.append(tail);
    text
}

impl PlaybackError {
    /// The message shown for this error.
    pub fn message(&self) -> (r: String)
        ensures
            r@ == error_text(*self),
    {
        match self {
            PlaybackError::TorrentNotFound(detail) => joined("Torrent not found: ", detail.as_str()),
            PlaybackError::FileIndexOutOfRange(index) => {
                let mut text: String = "File index ".to_owned();
                text.append(decimal_text(*index as u64).as_str());
                text.append(" out of range");
                text
            },
            PlaybackError::ZeroPieceLength => "Torrent piece length is zero".to_owned(),
            PlaybackError::MetadataTimeout =>
            "Timeout waiting for torrent metadata (30s)".to_owned(),
            PlaybackError::MetadataFileError(detail) => joined(
                "Torrent metadata file error: ",
                detail.as_str(),
            ),
            PlaybackError::AlertChannelClosed => "Libtorrent alert channel closed".to_owned(),
            PlaybackError::BackgroundProbeRejected =>
            "Background probe rejected because a different playback file is active".to_owned(),
            PlaybackError::SupersededByNewerFile =>
            "Playback request was superseded by a newer file".to_owned(),
            PlaybackError::SupersededDuringPriorityUpdate =>
            "Playback request was superseded during priority update".to_owned(),
            PlaybackError::SupersededDuringHotWindow =>
            "Playback request was superseded while applying its hot window".to_owned(),
            PlaybackError::SupersededBeforeResume =>
            "Playback request was superseded before resume".to_owned(),
            PlaybackError::FilePriorityError(detail) => joined(
                "Libtorrent file priority error: ",
                detail.as_str(),
            ),
            PlaybackError::FilePrioritiesMismatch =>
            "Libtorrent file priorities did not match after acknowledgement timeout".to_owned(),
            PlaybackError::PauseNotSilent(status) => {
                let mut text: String = "Torrent pause was not silent after 5s (paused=".to_owned();
                if status.is_paused {
                    text.append("true");
                } else {
                    text.append("false");
                }
                text.append(", peers=");
                text.append(signed_decimal_text(status.num_peers as i64).as_str());
                text.append(", down=");
                text.append(signed_decimal_text(status.download_rate as i64).as_str());
                text.append(", up=");
                text.append(signed_decimal_text(status.upload_rate as i64).as_str());
                text.append(", total_down=");
                text.append(signed_decimal_text(status.total_downloaded).as_str());
                text.append(", total_up=");
                text.append(signed_decimal_text(status.total_uploaded).as_str());
                text.append(")");
                text
            },
            PlaybackError::PauseFileError(detail) => joined(
                "Libtorrent file error while pausing: ",
                detail.as_str(),
            ),
        }
    }
}

/// A message carries what is known of its error: the detail that came with it,
/// the index that was out of range, and all counters of a torrent that did not
/// fall silent.
pub proof fn law_messages_carry_the_detail(
    detail: String,
    index: usize,
    status: PauseStatusSnapshot,
)
    ensures
        error_text(PlaybackError::TorrentNotFound(detail)) == "Torrent not found: "@ + detail@,
        error_text(PlaybackError::MetadataFileError(detail)) == "Torrent metadata file error: "@
            + detail@,
        error_text(PlaybackError::FilePriorityError(detail)) == "Libtorrent file priority error: "@
            + detail@,
        error_text(PlaybackError::PauseFileError(detail)) == "Libtorrent file error while pausing: "@
            + detail@,
        error_text(PlaybackError::FileIndexOutOfRange(index)) == "File index "@ + decimal(
            index as nat,
        ) + " out of range"@,
        error_text(PlaybackError::PauseNotSilent(status))
            == "Torrent pause was not silent after 5s (paused="@ + (if status.is_paused {
            "true"@
        } else {
            "false"@
        }) + ", peers="@ + signed_decimal(status.num_peers as int) + ", down="@ + signed_decimal(
            status.download_rate as int,
        ) + ", up="@ + signed_decimal(status.upload_rate as int) + ", total_down="@
            + signed_decimal(status.total_downloaded as int) + ", total_up="@ + signed_decimal(
            status.total_uploaded as int,
        ) + ")"@,
{
}

/// Every error without a detail says what happened in its own words.
pub proof fn law_messages_say_what_happened()
    ensures
        error_text(PlaybackError::ZeroPieceLength) == "Torrent piece length is zero"@,
        error_text(PlaybackError::MetadataTimeout) == "Timeout waiting for torrent metadata (30s)"@,
        error_text(PlaybackError::AlertChannelClosed) == "Libtorrent alert channel closed"@,
        error_text(PlaybackError::BackgroundProbeRejected)
            == "Background probe rejected because a different playback file is active"@,
        error_text(PlaybackError::SupersededByNewerFile)
            == "Playback request was superseded by a newer file"@,
        error_text(PlaybackError::SupersededDuringPriorityUpdate)
            == "Playback request was superseded during priority update"@,
        error_text(PlaybackError::SupersededDuringHotWindow)
            == "Playback request was superseded while applying its hot window"@,
        error_text(PlaybackError::SupersededBeforeResume)
            == "Playback request was superseded before resume"@,
        error_text(PlaybackError::FilePrioritiesMismatch)
            == "Libtorrent file priorities did not match after acknowledgement timeout"@,
{
}

/// An error tells of itself: with its detail, its index or what did not fit.
pub proof fn law_error_tells_of_itself(error: &PlaybackError, r: String)
    requires
        call_ensures(PlaybackError::message, (error,), r),
    ensures
        *error is ZeroPieceLength ==> r@ == "Torrent piece length is zero"@,
        *error is MetadataTimeout ==> r@ == "Timeout waiting for torrent metadata (30s)"@,
        *error is AlertChannelClosed ==> r@ == "Libtorrent alert channel closed"@,
        *error is TorrentNotFound ==> r@ == "Torrent not found: "@ + error->TorrentNotFound_0@,
        *error is FileIndexOutOfRange ==> r@ == "File index "@ + decimal(
            error->FileIndexOutOfRange_0 as nat,
        ) + " out of range"@,
        *error is SupersededByNewerFile ==> r@
            == "Playback request was superseded by a newer file"@,
        *error is MetadataFileError ==> r@ == "Torrent metadata file error: "@
            + error->MetadataFileError_0@,
        *error is FilePriorityError ==> r@ == "Libtorrent file priority error: "@
            + error->FilePriorityError_0@,
        *error is PauseFileError ==> r@ == "Libtorrent file error while pausing: "@
            + error->PauseFileError_0@,
{
}

} // verus!
