//! Plain values that describe torrents and playback requests.

use vstd::prelude::*;

verus! {

/// What a reader wants the bytes for.
#[derive(Debug, Clone, Copy, PartialEq, Eq, Structural)]
pub enum PlaybackIntent {
    DirectInitial,
    DirectSeek,
    DirectSequential,
    HlsInitial,
    HlsSeek,
    HlsSequential,
    ContainerMetadata,
    InternalProbe,
    Background,
    DownloadFull,
    DownloadRange,
}

/// Where verified pieces are kept.
#[derive(Debug, Clone, Copy, PartialEq, Eq, Structural)]
pub enum LibtorrentStorageMode {
    DiskBacked,
    MemoryOnly,
}

/// How close the native piece storage is to the configured cache size.
#[derive(Debug, Clone, Copy, PartialEq, Eq, Structural)]
pub enum MemoryPressure {
    Normal,
    High,
}

/// One file of a torrent, as the native library reports it.
#[derive(Debug, Clone)]
pub struct FileInfo {
    pub path: String,
    pub size: i64,
    pub offset: i64,
    pub downloaded: i64,
    pub first_piece: i32,
    pub last_piece: i32,
}

impl FileInfo {
    /// Whether `piece` carries bytes of this file.
    pub open spec fn spans(&self, piece: int) -> bool {
        self.first_piece <= piece <= self.last_piece
    }
}

/// The part of the native torrent status that decisions depend on.
#[derive(Debug, Clone, Copy, PartialEq, Eq)]
pub struct TorrentStatus {
    pub has_metadata: bool,
    pub is_paused: bool,
    pub is_seeding: bool,
    pub num_peers: i32,
    pub download_rate: i32,
    pub upload_rate: i32,
    pub total_downloaded: i64,
    pub total_uploaded: i64,
}

/// Everything the piece priority policy is told about a request.
#[derive(Debug, Clone, Copy, PartialEq, Eq)]
pub struct PriorityContext {
    pub intent: PlaybackIntent,
    pub current_piece: i32,
    pub first_piece: i32,
    pub last_piece: i32,
    pub piece_length: u64,
    pub file_size: u64,
    pub bitrate_bytes_per_sec: Option<u64>,
    pub download_rate_bytes_per_sec: u64,
    pub peers: u64,
    pub cache_size_bytes: u64,
    pub memory_pressure: MemoryPressure,
    pub consecutive_waits: u32,
    pub first_byte_sent: bool,
}

/// One piece that the priority policy wants, with how urgently.
#[derive(Debug, Clone, Copy, PartialEq, Eq)]
pub struct PriorityAssignment {
    pub piece_idx: i32,
    pub piece_priority: i32,
    pub deadline: i32,
}

/// A change to the native torrent, in the order it has to be made.
#[derive(Debug, Clone, Copy, PartialEq, Eq)]
pub enum NativeCommand {
    SetSequentialDownload(bool),
    SetPiecePriority { piece: i32, priority: i32 },
    SetPieceDeadline { piece: i32, deadline_ms: i32 },
    ClearPieceDeadlines,
    Pause,
    Resume,
    /// Announce to the trackers, with the two flags of the native call.
    ForceReannounce { first_flag: bool, second_flag: bool },
    ForceDhtAnnounce,
}

/// The commands that bring the network up: resume where that is needed, and
/// announce to trackers and DHT where that is wanted.
pub open spec fn network_commands(resume: bool, announce: bool) -> Seq<NativeCommand> {
    let resumed = if resume {
        seq![NativeCommand::Resume]
    } else {
        seq![]
    };
    let announced = if announce {
        seq![
            NativeCommand::ForceReannounce { first_flag: true, second_flag: false },
            NativeCommand::ForceDhtAnnounce,
        ]
    } else {
        seq![]
    };
    resumed + announced
}

/// Lists the commands that bring the network up.
pub fn start_network(resume: bool, announce: bool) -> (r: Vec<NativeCommand>)
    ensures
        r@ == network_commands(resume, announce),
{
    let mut commands: Vec<NativeCommand> = Vec::new();
    if resume {
        commands.push(NativeCommand::Resume);
    }
    if announce {
        commands.push(NativeCommand::ForceReannounce { first_flag: true, second_flag: false });
        commands.push(NativeCommand::ForceDhtAnnounce);
    }
    assert(commands@ =~= network_commands(resume, announce));
    commands
}

/// Lists the commands of an emergency announce.
pub fn emergency_announce() -> (r: Vec<NativeCommand>)
    ensures
        r@ == seq![NativeCommand::ForceReannounce { first_flag: true, second_flag: true }],
{
    vec![NativeCommand::ForceReannounce { first_flag: true, second_flag: true }]
}

/// The commands that silence a torrent.
pub open spec fn silence_commands(is_paused: bool) -> Seq<NativeCommand> {
    let quiet = seq![
        NativeCommand::ClearPieceDeadlines,
        NativeCommand::SetSequentialDownload(false),
    ];
    if is_paused {
        quiet
    } else {
        quiet.push(NativeCommand::Pause)
    }
}

/// Lists the commands that silence a torrent.
pub fn silence_network(is_paused: bool) -> (r: Vec<NativeCommand>)
    ensures
        r@ == silence_commands(is_paused),
{
    let mut commands: Vec<NativeCommand> = Vec::new();
    commands.push(NativeCommand::ClearPieceDeadlines);
    commands.push(NativeCommand::SetSequentialDownload(false));
    if !is_paused {
        commands.push(NativeCommand::Pause);
    }
    assert(commands@ =~= silence_commands(is_paused));
    commands
}

/// A file carries exactly the pieces from its first to its last.
pub proof fn law_file_carries_its_pieces(file: FileInfo, piece: int)
    ensures
        file.first_piece <= piece && piece <= file.last_piece ==> file.spans(piece),
        piece < file.first_piece || file.last_piece < piece ==> !file.spans(piece),
{
}

/// Bringing the network up resumes exactly where that was asked for, before
/// anything is announced, and announces to trackers and DHT exactly where that
/// was. It never pauses.
pub proof fn law_network_is_resumed_before_announcing(resume: bool, announce: bool)
    ensures
        network_commands(resume, announce).contains(NativeCommand::Resume) <==> resume,
        resume ==> network_commands(resume, announce)[0] == NativeCommand::Resume,
        network_commands(resume, announce).contains(
            NativeCommand::ForceReannounce { first_flag: true, second_flag: false },
        ) <==> announce,
        network_commands(resume, announce).contains(NativeCommand::ForceDhtAnnounce) <==> announce,
        network_commands(resume, announce).len() == (if resume {
            1int
        } else {
            0
        }) + (if announce {
            2int
        } else {
            0
        }),
{
    let commands = network_commands(resume, announce);
    if resume {
        assert(commands[0] == NativeCommand::Resume);
    }
    if announce {
        let at: int = if resume {
            1
        } else {
            0
        };
        assert(commands[at] == (NativeCommand::ForceReannounce {
            first_flag: true,
            second_flag: false,
        }));
        assert(commands[at + 1] == NativeCommand::ForceDhtAnnounce);
    }
}

/// Silencing forgets all piece deadlines and sequential download first, and then
/// pauses a torrent that is not paused yet.
pub proof fn law_silencing_pauses_once(is_paused: bool)
    ensures
        silence_commands(is_paused)[0] == NativeCommand::ClearPieceDeadlines,
        silence_commands(is_paused)[1] == NativeCommand::SetSequentialDownload(false),
        is_paused ==> silence_commands(is_paused).len() == 2,
        !is_paused ==> silence_commands(is_paused).len() == 3 && silence_commands(is_paused)[2]
            == NativeCommand::Pause,
{
}

/// The network is woken where it slept, and asked for peers exactly where that is
/// wanted; silencing pauses what is not paused.
pub proof fn law_network_commands_are_given(
    resume: bool,
    announce: bool,
    is_paused: bool,
    started: Vec<NativeCommand>,
    announced: Vec<NativeCommand>,
    silenced: Vec<NativeCommand>,
)
    requires
        call_ensures(start_network, (resume, announce), started),
        call_ensures(emergency_announce, (), announced),
        call_ensures(silence_network, (is_paused,), silenced),
    ensures
        started@.contains(NativeCommand::Resume) <==> resume,
        resume ==> started@[0] == NativeCommand::Resume,
        started@.contains(NativeCommand::ForceDhtAnnounce) <==> announce,
        announce ==> started@.contains(
            NativeCommand::ForceReannounce { first_flag: true, second_flag: false },
        ),
        !resume && !announce ==> started@.len() == 0,
        announced@.len() == 1,
        announced@[0] == (NativeCommand::ForceReannounce { first_flag: true, second_flag: true }),
        silenced@[0] == NativeCommand::ClearPieceDeadlines,
        silenced@[1] == NativeCommand::SetSequentialDownload(false),
        is_paused ==> silenced@.len() == 2,
        !is_paused ==> silenced@.len() == 3 && silenced@[2] == NativeCommand::Pause,
{
    law_network_is_resumed_before_announcing(resume, announce);
    law_silencing_pauses_once(is_paused);
}

} // verus!
