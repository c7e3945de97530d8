//! The files of a torrent, what is known of their completion, and the
//! file-priority vectors that select one of them.

use crate::domain::FileInfo;
use crate::errors::PlaybackError;
use vstd::prelude::*;

verus! {

/// What a file's own counters say of its completion: a file without bytes or
/// with all of them is complete, any other needs its pieces looked at.
pub open spec fn completion_at_load(file: FileInfo) -> Option<bool> {
    if file.size <= 0 || file.downloaded >= file.size {
        Some(true)
    } else {
        None
    }
}

/// Whether every flag in `present` is set.
pub open spec fn all_present(present: Seq<bool>) -> bool {
    forall|i: int| 0 <= i < present.len() ==> #[trigger] present[i]
}

/// The priorities that select `file_idx` alone.
pub open spec fn selected_priorities(file_count: nat, file_idx: int, priority: i32) -> Seq<i32> {
    Seq::new(
        file_count,
        |i: int|
            if i == file_idx {
                priority
            } else {
                0
            },
    )
}

/// The priorities that select no file.
pub open spec fn zero_priorities(file_count: nat) -> Seq<i32> {
    Seq::new(file_count, |i: int| 0i32)
}

/// What is known of a file's completion.
#[derive(Debug, Clone, Copy, PartialEq, Eq, Structural)]
pub enum FileCompletion {
    Known(bool),
    /// Every piece from the first to the last has to be asked for.
    Unknown { first_piece: i32, last_piece: i32 },
}

/// A torrent's files with the completion that was last established for each.
pub struct TorrentLayout {
    pub files: Vec<FileInfo>,
    pub piece_length: u64,
    pub completion: Vec<Option<bool>>,
}

impl TorrentLayout {
    pub open spec fn wf(&self) -> bool {
        self.completion@.len() == self.files@.len()
    }

    /// The answer to whether file `file_idx` is complete.
    pub open spec fn completion_of(&self, file_idx: int) -> FileCompletion {
        match self.completion@[file_idx] {
            Some(complete) => FileCompletion::Known(complete),
            None => FileCompletion::Unknown {
                first_piece: self.files@[file_idx].first_piece,
                last_piece: self.files@[file_idx].last_piece,
            },
        }
    }

    /// Reads the layout from the native torrent, once it has metadata.
    pub fn query_layout(has_metadata: bool, piece_length: i32, files: Vec<FileInfo>) -> (r: Option<
        TorrentLayout,
    >)
        ensures
            r is Some <==> has_metadata,
            r matches Some(layout) ==> {
                &&& layout.wf()
                &&& layout.files == files
                &&& layout.piece_length == (if piece_length < 0 {
                    0int
                } else {
                    piece_length as int
                })
                &&& forall|i: int|
                    0 <= i < files@.len() ==> #[trigger] layout.completion@[i]
                        == completion_at_load(files@[i])
            },
    {
        if !has_metadata {
            return None;
        }
        let mut completion: Vec<Option<bool>> = Vec::new();
        let mut i: usize = 0;
        while i < files.len()
            invariant
                i <= files.len(),
                completion@.len() == i,
                forall|j: int|
                    0 <= j < i ==> #[trigger] completion@[j] == completion_at_load(files@[j]),
            decreases files.len() - i,
        {
            let file: &FileInfo = &files[i];
            completion.push(
                if file.size <= 0 || file.downloaded >= file.size {
                    Some(true)
                } else {
                    None
                },
            );
            i += 1;
        }
        let piece_length: u64 = if piece_length < 0 {
            0
        } else {
            piece_length as u64
        };
        Some(TorrentLayout { files, piece_length, completion })
    }

    /// Whether file `file_idx` is complete, or which pieces decide it.
    pub fn file_completion(&self, file_idx: usize) -> (r: Result<FileCompletion, PlaybackError>)
        requires
            self.wf(),
        ensures
            r == (if file_idx < self.files@.len() {
                Ok::<FileCompletion, PlaybackError>(self.completion_of(file_idx as int))
            } else {
                Err(PlaybackError::FileIndexOutOfRange(file_idx))
            }),
    {
        if file_idx >= self.files.len() {
            return Err(PlaybackError::FileIndexOutOfRange(file_idx));
        }
        match self.completion[file_idx] {
            Some(complete) => Ok(FileCompletion::Known(complete)),
            None => {
                let file: &FileInfo = &self.files[file_idx];
                Ok(
                    FileCompletion::Unknown {
                        first_piece: file.first_piece,
                        last_piece: file.last_piece,
                    },
                )
            },
        }
    }

    /// Remembers that a file is complete if and only if all its pieces are
    /// there. `present` holds one flag for each piece that was asked for.
    pub fn record_completion(&mut self, file_idx: usize, present: &Vec<bool>) -> (r: bool)
        requires
            old(self).wf(),
            file_idx < old(self).files@.len(),
        ensures
            final(self).wf(),
            final(self).files == old(self).files,
            final(self).piece_length == old(self).piece_length,
            r == all_present(present@),
            final(self).completion@ == old(self).completion@.update(file_idx as int, Some(r)),
    {
        let mut complete: bool = true;
        let mut i: usize = 0;
        while i < present.len()
            invariant
                i <= present.len(),
                complete <==> (forall|j: int| 0 <= j < i ==> #[trigger] present@[j]),
            decreases present.len() - i,
        {
            if !present[i] {
                complete = false;
            }
            i += 1;
        }
        self.completion.set(file_idx, Some(complete));
        complete
    }

    /// A piece was verified: files that carry it and were not complete have to
    /// be looked at again. A complete file stays complete.
    pub fn piece_verified(&mut self, piece: i32)
        requires
            old(self).wf(),
        ensures
            final(self).wf(),
            final(self).files == old(self).files,
            final(self).piece_length == old(self).piece_length,
            forall|i: int|
                0 <= i < old(self).files@.len() ==> #[trigger] final(self).completion@[i] == (
                if old(self).files@[i].spans(piece as int) && old(self).completion@[i] != Some(
                    true,
                ) {
                    None
                } else {
                    old(self).completion@[i]
                }),
    {
        let mut i: usize = 0;
        while i < self.files.len()
            invariant
                i <= self.files@.len(),
                self.wf(),
                self.files == old(self).files,
                self.piece_length == old(self).piece_length,
                forall|j: int|
                    i <= j < self.files@.len() ==> #[trigger] self.completion@[j] == old(
                        self,
                    ).completion@[j],
                forall|j: int|
                    0 <= j < i ==> #[trigger] self.completion@[j] == (if self.files@[j].spans(
                        piece as int,
                    ) && old(self).completion@[j] != Some(true) {
                        None
                    } else {
                        old(self).completion@[j]
                    }),
            decreases self.files.len() - i,
        {
            let carries: bool = piece >= self.files[i].first_piece && piece
                <= self.files[i].last_piece;
            let complete: bool = match self.completion[i] {
                Some(complete) => complete,
                None => false,
            };
            if carries && !complete {
                self.completion.set(i, None);
            }
            i += 1;
        }
    }

    /// A piece was lost: whatever was known of the files that carry it no
    /// longer holds.
    pub fn piece_invalidated(&mut self, piece: i32)
        requires
            old(self).wf(),
        ensures
            final(self).wf(),
            final(self).files == old(self).files,
            final(self).piece_length == old(self).piece_length,
            forall|i: int|
                0 <= i < old(self).files@.len() ==> #[trigger] final(self).completion@[i] == (
                if old(self).files@[i].spans(piece as int) {
                    None
                } else {
                    old(self).completion@[i]
                }),
    {
        let mut i: usize = 0;
        while i < self.files.len()
            invariant
                i <= self.files@.len(),
                self.wf(),
                self.files == old(self).files,
                self.piece_length == old(self).piece_length,
                forall|j: int|
                    i <= j < self.files@.len() ==> #[trigger] self.completion@[j] == old(
                        self,
                    ).completion@[j],
                forall|j: int|
                    0 <= j < i ==> #[trigger] self.completion@[j] == (if self.files@[j].spans(
                        piece as int,
                    ) {
                        None
                    } else {
                        old(self).completion@[j]
                    }),
            decreases self.files.len() - i,
        {
            if piece >= self.files[i].first_piece && piece <= self.files[i].last_piece {
                self.completion.set(i, None);
            }
            i += 1;
        }
    }
}

/// The priority vector that downloads one file at `priority` and no other.
pub fn desired_priorities(file_count: usize, file_idx: usize, priority: i32) -> (r: Result<
    Vec<i32>,
    PlaybackError,
>)
    ensures
        match r {
            Ok(priorities) => file_idx < file_count && priorities@ == selected_priorities(
                file_count as nat,
                file_idx as int,
                priority,
            ),
            Err(error) => file_idx >= file_count && error == PlaybackError::FileIndexOutOfRange(
                file_idx,
            ),
        },
{
    if file_idx >= file_count {
        return Err(PlaybackError::FileIndexOutOfRange(file_idx));
    }
    let mut priorities: Vec<i32> = no_priorities(file_count);
    priorities.set(file_idx, priority);
    assert(priorities@ =~= selected_priorities(file_count as nat, file_idx as int, priority));
    Ok(priorities)
}

/// The priority vector that downloads nothing.
pub fn no_priorities(file_count: usize) -> (r: Vec<i32>)
    ensures
        r@ == zero_priorities(file_count as nat),
{
    let priorities: Vec<i32> = vec![0i32; file_count];
    assert(priorities@ =~= zero_priorities(file_count as nat));
    priorities
}

/// Whether two priority vectors are the same.
pub fn same_priorities(a: &Vec<i32>, b: &Vec<i32>) -> (r: bool)
    ensures
        r == (a@ == b@),
{
    if a.len() != b.len() {
        return false;
    }
    let mut i: usize = 0;
    while i < a.len()
        invariant
            a.len() == b.len(),
            i <= a.len(),
            forall|j: int| 0 <= j < i ==> a@[j] == b@[j],
        decreases a.len() - i,
    {
        if a[i] != b[i] {
            return false;
        }
        i += 1;
    }
    assert(a@ =~= b@);
    true
}

/// The size class of a torrent, by its number of files.
pub fn file_count_bucket(file_count: usize) -> (r: &'static str)
    ensures
        r@ == (if file_count <= 1 {
            "1"@
        } else if file_count <= 10 {
            "2-10"@
        } else if file_count <= 100 {
            "11-100"@
        } else {
            "101+"@
        }),
{
    if file_count <= 1 {
        "1"
    } else if file_count <= 10 {
        "2-10"
    } else if file_count <= 100 {
        "11-100"
    } else {
        "101+"
    }
}

/// A zero priority selects nothing: the vector of a complete file is the one
/// that downloads nothing.
pub proof fn law_complete_file_selects_nothing(file_count: nat, file_idx: int)
    ensures
        selected_priorities(file_count, file_idx, 0) == zero_priorities(file_count),
{
    assert(selected_priorities(file_count, file_idx, 0) =~= zero_priorities(file_count));
}

/// However many files a torrent has, a selection downloads at most the one
/// that was asked for.
pub proof fn law_selection_is_exclusive(file_count: nat, file_idx: int, priority: i32, other: int)
    requires
        0 <= other < file_count,
        other != file_idx,
    ensures
        selected_priorities(file_count, file_idx, priority)[other] == 0,
{
}

/// What a file's completion is at the start: settled where there is nothing to
/// download or all of it was, open in every other case.
pub proof fn law_completion_is_known_for_downloaded_files(file: FileInfo)
    ensures
        file.size <= 0 ==> completion_at_load(file) == Some(true),
        file.downloaded >= file.size ==> completion_at_load(file) == Some(true),
        0 < file.size && file.downloaded < file.size ==> completion_at_load(file) is None,
{
}

/// A selection downloads its file at the wanted priority, and of the other files
/// nothing. Every file has its entry.
pub proof fn law_selected_file_has_its_priority(
    file_count: nat,
    file_idx: int,
    priority: i32,
    other: int,
)
    requires
        0 <= file_idx < file_count,
        0 <= other < file_count,
    ensures
        selected_priorities(file_count, file_idx, priority).len() == file_count,
        selected_priorities(file_count, file_idx, priority)[file_idx] == priority,
        other != file_idx ==> selected_priorities(file_count, file_idx, priority)[other] == 0,
        zero_priorities(file_count).len() == file_count,
        zero_priorities(file_count)[other] == 0,
{
}

/// One missing piece is enough to make a file incomplete, and nothing else is.
pub proof fn law_one_missing_piece_is_enough(present: Seq<bool>, i: int)
    requires
        0 <= i < present.len(),
    ensures
        !present[i] ==> !all_present(present),
        (forall|k: int| 0 <= k < present.len() ==> #[trigger] present[k]) ==> all_present(present),
        all_present(Seq::empty()),
{
}

/// What is known of a file is answered; else all of its pieces have to be asked
/// for, from the first to the last.
pub proof fn law_unknown_completion_asks_for_all_pieces(layout: TorrentLayout, file_idx: int)
    requires
        layout.wf(),
        0 <= file_idx < layout.files@.len(),
    ensures
        layout.completion@[file_idx] matches Some(complete) ==> layout.completion_of(file_idx)
            == FileCompletion::Known(complete),
        layout.completion@[file_idx] is None ==> {
            &&& layout.completion_of(file_idx) matches FileCompletion::Unknown {
                first_piece,
                last_piece,
            }
            &&& first_piece == layout.files@[file_idx].first_piece
            &&& last_piece == layout.files@[file_idx].last_piece
        },
{
}

/// The priorities that select a file give it its priority and every other file
/// none. A file that the torrent does not have is named.
pub proof fn law_priorities_select_one_file(
    file_count: usize,
    file_idx: usize,
    priority: i32,
    r: Result<Vec<i32>, PlaybackError>,
    other: int,
)
    requires
        call_ensures(desired_priorities, (file_count, file_idx, priority), r),
        0 <= other < file_count,
    ensures
        r is Ok <==> file_idx < file_count,
        r matches Err(error) ==> error == PlaybackError::FileIndexOutOfRange(file_idx),
        r matches Ok(priorities) ==> {
            &&& priorities@.len() == file_count
            &&& priorities@[file_idx as int] == priority
            &&& other != file_idx ==> priorities@[other] == 0
        },
{
}

/// A layout is read once there is metadata. Files that are empty or all there are
/// complete, the others are not decided.
pub proof fn law_layout_is_read_with_metadata(
    has_metadata: bool,
    piece_length: i32,
    files: Vec<FileInfo>,
    r: Option<TorrentLayout>,
    i: int,
)
    requires
        call_ensures(TorrentLayout::query_layout, (has_metadata, piece_length, files), r),
        0 <= i < files@.len(),
    ensures
        r is Some <==> has_metadata,
        r matches Some(layout) ==> {
            &&& layout.files == files
            &&& layout.completion@.len() == files@.len()
            &&& piece_length >= 0 ==> layout.piece_length == piece_length
            &&& piece_length < 0 ==> layout.piece_length == 0
            &&& layout.completion@[i] == Some(true) <==> files@[i].size <= 0 || files@[i].downloaded
                >= files@[i].size
            &&& layout.completion@[i] != Some(true) ==> layout.completion@[i] is None
        },
{
}

/// What is known of a file is answered, and of an unknown one which pieces decide.
/// What they decide is kept: complete exactly where all of them are there.
pub proof fn law_completion_is_decided_by_all_pieces(
    layout: &TorrentLayout,
    file_idx: usize,
    r: Result<FileCompletion, PlaybackError>,
    present: &Vec<bool>,
)
    requires
        call_ensures(TorrentLayout::file_completion, (layout, file_idx), r),
    ensures
        r is Err <==> file_idx >= layout.files@.len(),
        r matches Err(error) ==> error == PlaybackError::FileIndexOutOfRange(file_idx),
        r matches Ok(FileCompletion::Known(complete)) ==> layout.completion@[file_idx as int]
            == Some(complete),
        r matches Ok(FileCompletion::Unknown { first_piece, last_piece }) ==> {
            &&& layout.completion@[file_idx as int] is None
            &&& first_piece == layout.files@[file_idx as int].first_piece
            &&& last_piece == layout.files@[file_idx as int].last_piece
        },
        forall|kept: &mut TorrentLayout, complete: bool| #[trigger]
            call_ensures(TorrentLayout::record_completion, (kept, file_idx, present), complete)
                ==> {
                &&& complete <==> (forall|i: int|
                    0 <= i < present@.len() ==> #[trigger] present@[i])
                &&& (*kept).wf() && file_idx < (*kept).files@.len() ==> (*final(kept)).completion@[file_idx as int]
                    == Some(complete)
                &&& (*final(kept)).files == (*kept).files
            },
{
}

/// A verified piece makes every file that carries it, and was not complete, be
/// looked at again; a lost piece every file that carries it. No other file is
/// touched.
pub proof fn law_pieces_concern_their_files(piece: i32, i: int)
    ensures
        forall|layout: &mut TorrentLayout| #[trigger]
            call_ensures(TorrentLayout::piece_verified, (layout, piece), ()) && 0 <= i
                < (*layout).files@.len() ==> {
                let file = (*layout).files@[i];
                let known = (*layout).completion@[i];
                let after = (*final(layout)).completion@[i];
                &&& file.first_piece <= piece <= file.last_piece && known != Some(true)
                    ==> after is None
                &&& known == Some(true) ==> after == known
                &&& piece < file.first_piece || piece > file.last_piece ==> after == known
            },
        forall|layout: &mut TorrentLayout| #[trigger]
            call_ensures(TorrentLayout::piece_invalidated, (layout, piece), ()) && 0 <= i
                < (*layout).files@.len() ==> {
                let file = (*layout).files@[i];
                let known = (*layout).completion@[i];
                let after = (*final(layout)).completion@[i];
                &&& file.first_piece <= piece <= file.last_piece ==> after is None
                &&& piece < file.first_piece || piece > file.last_piece ==> after == known
            },
{
}

/// Nothing is downloaded without priorities, priorities are the same where all of
/// them are, and torrents are told apart by how many files they have.
pub proof fn law_priorities_are_told_apart(
    file_count: usize,
    none: Vec<i32>,
    a: &Vec<i32>,
    b: &Vec<i32>,
    same: bool,
    bucket: &'static str,
    i: int,
)
    requires
        call_ensures(no_priorities, (file_count,), none),
        call_ensures(same_priorities, (a, b), same),
        call_ensures(file_count_bucket, (file_count,), bucket),
        0 <= i < file_count,
    ensures
        none@.len() == file_count,
        none@[i] == 0,
        same <==> a@ == b@,
        file_count <= 1 ==> bucket@ == "1"@,
        2 <= file_count <= 10 ==> bucket@ == "2-10"@,
        11 <= file_count <= 100 ==> bucket@ == "11-100"@,
        101 <= file_count ==> bucket@ == "101+"@,
{
}

} // verus!
