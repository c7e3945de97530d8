//! Routing native alerts to the readers and operations that wait for them.
//!
//! Callers subscribe before they submit an asynchronous native operation, so
//! an acknowledgement cannot be lost in between. Readers that ask for the same
//! piece share one native request, and each request is answered once.
//!
//! The channels themselves belong to the caller: `T` stands for the sending
//! side of a torrent's alert channel, `P` for that of one pending piece read.

use crate::acknowledgement::{AlertCodes, AlertInfo};
use crate::registry::{PieceKey, Registry, RegistryKey};
use crate::text::{lowercase, signed_decimal, signed_decimal_text};
use std::sync::Arc;
use vstd::prelude::*;
use vstd::string::*;

verus! {

/// How many alerts a torrent's channel holds.
pub const ALERT_CHANNEL_CAPACITY: usize = 512;

/// Who listens for alerts, by torrent and by piece.
pub struct LibtorrentAlertHub<T, P> {
    pub senders: Registry<String, T>,
    pub piece_senders: Registry<PieceKey, P>,
}

/// The answer to a pending piece read.
#[derive(Debug)]
pub struct PieceReply<P> {
    pub sender: P,
    pub result: Result<Arc<Vec<u8>>, String>,
}

/// Where an alert goes.
#[derive(Debug)]
pub struct Dispatch<P> {
    /// Answer this piece read.
    pub reply: Option<PieceReply<P>>,
    /// Fail these piece reads.
    pub failed: Vec<PieceReply<P>>,
    /// Send the alert on this channel.
    pub channel: Option<usize>,
}

/// How a piece read begins.
#[derive(Debug, Clone, Copy, PartialEq, Eq)]
pub enum PieceRead {
    /// The same piece is being read already: wait for that answer.
    Joined { index: usize },
    /// Submit the native request, then wait for the answer.
    Submitted { index: usize },
}

/// The native request behind a piece read.
#[derive(Debug, Clone, Copy, PartialEq, Eq)]
pub enum NativeRead {
    /// The piece is verified: read it.
    Read { piece: i32 },
    /// The piece is missing: ask for it, to be read when it arrives.
    Await { piece: i32, priority: i32, deadline_ms: i32 },
}

/// What came out of waiting for a piece's bytes.
#[derive(Debug)]
pub enum PieceReceived {
    Data(Arc<Vec<u8>>),
    Failed(String),
    Lagged,
    Closed,
    TimedOut,
}

/// How a failed piece read is classified.
#[derive(Debug, Clone, Copy, PartialEq, Eq, Structural)]
pub enum PieceReadErrorKind {
    Other,
    BrokenPipe,
    TimedOut,
}

/// Why a piece's bytes did not come.
#[derive(Debug, Clone, PartialEq, Eq)]
pub struct PieceReadError {
    pub kind: PieceReadErrorKind,
    pub message: String,
}

/// The identity of a pending piece read.
pub open spec fn read_id(info_hash: Seq<char>, piece: i32) -> (Seq<char>, i32) {
    (lowercase(info_hash), piece)
}

/// The channels once the one for a torrent was looked up: a torrent that has
/// none gets the one that was `opened`.
pub open spec fn channels_after<T>(channels: Map<Seq<char>, T>, key: Seq<char>, opened: T) -> Map<
    Seq<char>,
    T,
> {
    if channels.contains_key(key) {
        channels
    } else {
        channels.insert(key, opened)
    }
}

/// The message for a piece whose bytes the native library did not deliver.
pub open spec fn no_data_text(piece: int) -> Seq<char> {
    "libtorrent returned no data for piece "@ + signed_decimal(piece)
}

/// Whether an alert carries what came of reading a piece.
pub open spec fn answers_piece(alert: AlertInfo, codes: AlertCodes) -> bool {
    alert.alert_type == codes.read_piece && alert.piece_index >= 0
}

/// Whether an alert tells that a torrent's files cannot be read.
pub open spec fn fails_torrent(alert: AlertInfo, codes: AlertCodes) -> bool {
    !answers_piece(alert, codes) && alert.alert_type == codes.file_error
}

/// Whether a piece read got what the alert carries.
pub open spec fn result_of(result: Result<Arc<Vec<u8>>, String>, piece: int, data: Seq<u8>) -> bool {
    match result {
        Ok(bytes) => data.len() > 0 && bytes@ == data,
        Err(text) => data.len() == 0 && text@ == no_data_text(piece),
    }
}

/// The pending reads of a torrent, in the order they were made.
pub open spec fn reads_of<P>(entries: Seq<(PieceKey, P)>, info_hash: Seq<char>) -> Seq<P>
    decreases entries.len(),
{
    if entries.len() == 0 {
        Seq::empty()
    } else {
        let earlier = reads_of(entries.drop_last(), info_hash);
        if entries.last().0.info_hash@ == info_hash {
            earlier.push(entries.last().1)
        } else {
            earlier
        }
    }
}

/// Who is answered, in order.
pub open spec fn senders_of<P>(replies: Seq<PieceReply<P>>) -> Seq<P> {
    replies.map_values(|reply: PieceReply<P>| reply.sender)
}

/// Whether every answer is a failure with this text.
pub open spec fn all_fail_with<P>(replies: Seq<PieceReply<P>>, text: Seq<char>) -> bool {
    forall|i: int|
        0 <= i < replies.len() ==> ((#[trigger] replies[i]).result matches Err(error) && error@
            == text)
}

/// Answers every read with the same failure.
fn fail_all<P>(senders: Vec<P>, text: &String) -> (r: Vec<PieceReply<P>>)
    ensures
        senders_of(r@) == senders@,
        all_fail_with(r@, text@),
{
    let ghost all = senders@;
    let mut replies: Vec<PieceReply<P>> = Vec::new();
    let ghost mut seen: int = 0;
    for sender in it: senders
        invariant
            it.seq() == all,
            seen == it.index(),
            senders_of(replies@) == all.take(seen),
            all_fail_with(replies@, text@),
    {
        let ghost before = replies@;
        replies.push(PieceReply { sender, result: Err(text.clone()) });
        proof {
            seen = seen + 1;
            assert(senders_of(replies@) =~= senders_of(before).push(sender));
            assert(all.take(seen) =~= all.take(seen - 1).push(sender));
        }
    }
    assert(all.take(all.len() as int) =~= all);
    replies
}

/// The pending reads of the other torrents, in the order they were made.
pub open spec fn reads_of_others<P>(entries: Seq<(PieceKey, P)>, info_hash: Seq<char>) -> Seq<
    (PieceKey, P),
>
    decreases entries.len(),
{
    if entries.len() == 0 {
        Seq::empty()
    } else {
        let earlier = reads_of_others(entries.drop_last(), info_hash);
        if entries.last().0.info_hash@ == info_hash {
            earlier
        } else {
            earlier.push(entries.last())
        }
    }
}

/// The pending reads without those of one torrent.
pub open spec fn without_torrent<P>(reads: Map<(Seq<char>, i32), P>, info_hash: Seq<char>) -> Map<
    (Seq<char>, i32),
    P,
> {
    Map::new(
        |id: (Seq<char>, i32)| reads.contains_key(id) && id.0 != info_hash,
        |id: (Seq<char>, i32)| reads[id],
    )
}

/// A read stays exactly if it belongs to another torrent.
proof fn lemma_reads_of_others<P>(entries: Seq<(PieceKey, P)>, info_hash: Seq<char>)
    ensures
        forall|i: int|
            0 <= i < reads_of_others(entries, info_hash).len() ==> {
                &&& entries.contains(#[trigger] reads_of_others(entries, info_hash)[i])
                &&& reads_of_others(entries, info_hash)[i].0.info_hash@ != info_hash
            },
        forall|i: int|
            0 <= i < entries.len() && (#[trigger] entries[i]).0.info_hash@ != info_hash
                ==> reads_of_others(entries, info_hash).contains(entries[i]),
    decreases entries.len(),
{
    if entries.len() > 0 {
        let shorter = entries.drop_last();
        let earlier = reads_of_others(shorter, info_hash);
        let all = reads_of_others(entries, info_hash);
        lemma_reads_of_others(shorter, info_hash);
        assert forall|i: int| 0 <= i < all.len() implies {
            &&& entries.contains(#[trigger] all[i])
            &&& all[i].0.info_hash@ != info_hash
        } by {
            if i < earlier.len() {
                assert(all[i] == earlier[i]);
                let at = choose|k: int| 0 <= k < shorter.len() && shorter[k] == earlier[i];
                assert(entries[at] == all[i]);
            } else {
                assert(entries[entries.len() - 1] == all[i]);
            }
        }
        assert forall|i: int|
            0 <= i < entries.len() && (#[trigger] entries[i]).0.info_hash@
                != info_hash implies all.contains(entries[i]) by {
            if i < shorter.len() {
                assert(shorter[i] == entries[i]);
                let at = choose|k: int| 0 <= k < earlier.len() && earlier[k] == shorter[i];
                assert(all[at] == entries[i]);
            } else {
                assert(all[all.len() - 1] == entries[i]);
            }
        }
    }
}

/// Leaving reads out keeps the remaining ones apart.
proof fn lemma_others_keep_apart<P>(entries: Seq<(PieceKey, P)>, info_hash: Seq<char>)
    requires
        forall|i: int, j: int|
            0 <= i < j < entries.len() ==> (#[trigger] entries[i]).0.id()
                != (#[trigger] entries[j]).0.id(),
    ensures
        forall|i: int, j: int|
            0 <= i < j < reads_of_others(entries, info_hash).len() ==> (
            #[trigger] reads_of_others(entries, info_hash)[i]).0.id()
                != (#[trigger] reads_of_others(entries, info_hash)[j]).0.id(),
    decreases entries.len(),
{
    if entries.len() > 0 {
        let shorter = entries.drop_last();
        let earlier = reads_of_others(shorter, info_hash);
        let all = reads_of_others(entries, info_hash);
        lemma_others_keep_apart(shorter, info_hash);
        lemma_reads_of_others(shorter, info_hash);
        assert forall|i: int, j: int| 0 <= i < j < all.len() implies (#[trigger] all[i]).0.id() != (
        #[trigger] all[j]).0.id() by {
            assert(all[i] == earlier[i]);
            if j < earlier.len() {
                assert(all[j] == earlier[j]);
            } else {
                let at = choose|k: int| 0 <= k < shorter.len() && shorter[k] == earlier[i];
                assert(entries[at] == all[i]);
                assert(entries[entries.len() - 1] == all[j]);
            }
        }
    }
}

/// Leaving a torrent's reads out of the list leaves them out of the map.
proof fn lemma_without_torrent<P>(
    before: Registry<PieceKey, P>,
    after: Registry<PieceKey, P>,
    info_hash: Seq<char>,
)
    requires
        before.wf(),
        after.entries@ == reads_of_others(before.entries@, info_hash),
    ensures
        after.wf(),
        after@ == without_torrent(before@, info_hash),
{
    let old_entries = before.entries@;
    let new_entries = after.entries@;
    lemma_reads_of_others(old_entries, info_hash);
    lemma_others_keep_apart(old_entries, info_hash);
    assert(after.wf());
    assert forall|id: (Seq<char>, i32)| #[trigger] after@.contains_key(id) == without_torrent(
        before@,
        info_hash,
    ).contains_key(id) by {
        if after@.contains_key(id) {
            let at = after.place(id);
            assert(after.holds_at(at, id));
            let was = choose|k: int| 0 <= k < old_entries.len() && old_entries[k] == new_entries[at];
            before.lemma_entry(was);
        }
        if before@.contains_key(id) && id.0 != info_hash {
            let was = before.place(id);
            assert(before.holds_at(was, id));
            let at = choose|k: int| 0 <= k < new_entries.len() && new_entries[k] == old_entries[was];
            after.lemma_entry(at);
        }
    }
    assert forall|id: (Seq<char>, i32)| #[trigger] after@.contains_key(id) implies after@[id]
        == without_torrent(before@, info_hash)[id] by {
        let at = after.place(id);
        assert(after.holds_at(at, id));
        after.lemma_entry(at);
        let was = choose|k: int| 0 <= k < old_entries.len() && old_entries[k] == new_entries[at];
        before.lemma_entry(was);
    }
    assert(after@ =~= without_torrent(before@, info_hash));
}

impl<P> Registry<PieceKey, P> {
    /// Takes the pending reads of one torrent out.
    fn take_torrent(&mut self, info_hash: &String) -> (r: Vec<P>)
        requires
            old(self).wf(),
        ensures
            final(self).wf(),
            final(self)@ == without_torrent(old(self)@, info_hash@),
            r@ == reads_of(old(self).entries@, info_hash@),
    {
        let ghost before = *self;
        let mut kept: Vec<(PieceKey, P)> = Vec::new();
        let mut taken: Vec<P> = Vec::new();
        let mut entries: Vec<(PieceKey, P)> = Vec::new();
        std::mem::swap(&mut entries, &mut self.entries);
        let ghost all = entries@;
        let ghost mut seen: int = 0;
        assert(all.take(0) =~= Seq::empty());
        for entry in it: entries
            invariant
                it.seq() == all,
                seen == it.index(),
                taken@ == reads_of(all.take(seen), info_hash@),
                kept@ == reads_of_others(all.take(seen), info_hash@),
        {
            proof {
                assert(all.take(seen + 1).drop_last() =~= all.take(seen));
                assert(all.take(seen + 1).last() == entry);
                seen = seen + 1;
            }
            let (key, sender) = entry;
            if key.info_hash == *info_hash {
                taken.push(sender);
            } else {
                kept.push((key, sender));
            }
        }
        assert(all.take(all.len() as int) =~= all);
        self.entries = kept;
        proof {
            lemma_without_torrent(before, *self, info_hash@);
        }
        taken
    }
}

impl<T, P> LibtorrentAlertHub<T, P> {
    pub open spec fn wf(&self) -> bool {
        self.senders.wf() && self.piece_senders.wf()
    }

    /// Nobody listens yet.
    pub fn new() -> (r: Self)
        ensures
            r.wf(),
            r.senders@ == Map::<Seq<char>, T>::empty(),
            r.piece_senders@ == Map::<(Seq<char>, i32), P>::empty(),
    {
        LibtorrentAlertHub { senders: Registry::new(), piece_senders: Registry::new() }
    }

    fn channel_index<F: FnOnce() -> T>(&mut self, key: String, open: F) -> (r: usize)
        requires
            old(self).wf(),
            call_requires(open, ()),
        ensures
            final(self).wf(),
            final(self).piece_senders == old(self).piece_senders,
            r < final(self).senders.entries@.len(),
            final(self).senders.entries@[r as int].0@ == key@,
            final(self).senders@.contains_key(key@),
            final(self).senders.entries@[r as int].1 == final(self).senders@[key@],
            final(self).senders@ == channels_after(
                old(self).senders@,
                key@,
                final(self).senders@[key@],
            ),
            !old(self).senders@.contains_key(key@) ==> call_ensures(
                open,
                (),
                final(self).senders@[key@],
            ),
    {
        match self.senders.find(&key) {
            Some(index) => index,
            None => {
                let sender: T = open();
                let index: usize = self.senders.entries.len();
                self.senders.insert(key, sender);
                proof {
                    self.senders.lemma_entry(index as int);
                }
                index
            },
        }
    }

    /// Finds the channel of a torrent to listen on, and opens it where there is
    /// none.
    pub fn subscribe<F: FnOnce() -> T>(&mut self, info_hash: &str, open: F) -> (r: usize)
        requires
            old(self).wf(),
            call_requires(open, ()),
        ensures
            final(self).wf(),
            final(self).piece_senders == old(self).piece_senders,
            r < final(self).senders.entries@.len(),
            final(self).senders@.contains_key(lowercase(info_hash@)),
            final(self).senders.entries@[r as int].1 == final(self).senders@[lowercase(
                info_hash@,
            )],
            final(self).senders@ == channels_after(
                old(self).senders@,
                lowercase(info_hash@),
                final(self).senders@[lowercase(info_hash@)],
            ),
            !old(self).senders@.contains_key(lowercase(info_hash@)) ==> call_ensures(
                open,
                (),
                final(self).senders@[lowercase(info_hash@)],
            ),
    {
        self.channel_index(info_hash.to_lowercase(), open)
    }

    /// Routes an alert: bytes of a piece to whoever reads it, the message of a file
    /// error to every pending read of the torrent, and every alert to the torrent's
    /// channel. An alert of no torrent goes nowhere. Bytes are moved out of the
    /// alert, so that only the reader gets them.
    pub fn dispatch<F: FnOnce() -> T>(
        &mut self,
        alert: &mut AlertInfo,
        codes: &AlertCodes,
        open: F,
    ) -> (r: Dispatch<P>)
        requires
            old(self).wf(),
            call_requires(open, ()),
        ensures
            final(self).wf(),
            old(alert).info_hash@.len() == 0 ==> {
                &&& *final(self) == *old(self)
                &&& *final(alert) == *old(alert)
                &&& r.reply is None
                &&& r.failed@.len() == 0
                &&& r.channel is None
            },
            old(alert).info_hash@.len() > 0 ==> {
                let hash = lowercase(old(alert).info_hash@);
                let id = (hash, old(alert).piece_index);
                let answers = answers_piece(*old(alert), *codes);
                let fails = fails_torrent(*old(alert), *codes);
                &&& r.reply is Some <==> answers && old(self).piece_senders@.contains_key(id)
                &&& r.reply matches Some(reply) ==> {
                    &&& reply.sender == old(self).piece_senders@[id]
                    &&& result_of(
                        reply.result,
                        old(alert).piece_index as int,
                        old(alert).piece_data@,
                    )
                }
                &&& senders_of(r.failed@) == (if fails {
                    reads_of(old(self).piece_senders.entries@, hash)
                } else {
                    Seq::empty()
                })
                &&& all_fail_with(r.failed@, old(alert).message@)
                &&& final(self).piece_senders@ == (if answers {
                    old(self).piece_senders@.remove(id)
                } else if fails {
                    without_torrent(old(self).piece_senders@, hash)
                } else {
                    old(self).piece_senders@
                })
                &&& final(alert).piece_data@ == (if answers {
                    Seq::empty()
                } else {
                    old(alert).piece_data@
                })
                &&& *final(alert) == (AlertInfo {
                    piece_data: final(alert).piece_data,
                    ..*old(alert)
                })
                &&& r.channel matches Some(index) && index < final(self).senders.entries@.len()
                    && final(self).senders@.contains_key(hash)
                    && final(self).senders.entries@[index as int].1 == final(self).senders@[hash]
                &&& final(self).senders@ == channels_after(
                    old(self).senders@,
                    hash,
                    final(self).senders@[hash],
                )
                &&& !old(self).senders@.contains_key(hash) ==> call_ensures(
                    open,
                    (),
                    final(self).senders@[hash],
                )
            },
    {
        let mut reply: Option<PieceReply<P>> = None;
        let mut failed: Vec<PieceReply<P>> = Vec::new();
        if alert.info_hash.as_str().is_empty() {
            return Dispatch { reply, failed, channel: None };
        }
        let info_hash: String = alert.info_hash.as_str().to_lowercase();
        if alert.alert_type == codes.read_piece && alert.piece_index >= 0 {
            let result: Result<Arc<Vec<u8>>, String> = if alert.piece_data.len() == 0 {
                let mut text: String = "libtorrent returned no data for piece ".to_owned();
                let number: String = signed_decimal_text(alert.piece_index as i64);
                text.append(number.as_str());
                Err(text)
            } else {
                let mut data: Vec<u8> = Vec::new();
                std::mem::swap(&mut data, &mut alert.piece_data);
                Ok(Arc::new(data))
            };
            let key = PieceKey { info_hash: info_hash.clone(), piece: alert.piece_index };
            if let Some(sender) = self.piece_senders.remove(&key) {
                reply = Some(PieceReply { sender, result });
            }
        } else if alert.alert_type == codes.file_error {
            failed = fail_all(self.piece_senders.take_torrent(&info_hash), &alert.message);
        }
        let channel: usize = self.channel_index(info_hash, open);
        Dispatch { reply, failed, channel: Some(channel) }
    }

    /// Forgets a torrent: its channel and its pending reads.
    pub fn remove_torrent(&mut self, info_hash: &str)
        requires
            old(self).wf(),
        ensures
            final(self).wf(),
            final(self).senders@ == old(self).senders@.remove(lowercase(info_hash@)),
            final(self).piece_senders@ == without_torrent(
                old(self).piece_senders@,
                lowercase(info_hash@),
            ),
    {
        let key: String = info_hash.to_lowercase();
        let _ = self.senders.remove(&key);
        let _ = self.piece_senders.take_torrent(&key);
    }

    /// Begins to read a piece, or joins whoever is reading it.
    pub fn read_piece<F: FnOnce() -> P>(&mut self, info_hash: &str, piece: i32, open: F) -> (r:
        PieceRead)
        requires
            old(self).wf(),
            call_requires(open, ()),
        ensures
            final(self).wf(),
            final(self).senders == old(self).senders,
            ({
                let id = read_id(info_hash@, piece);
                match r {
                    PieceRead::Joined { index } => {
                        &&& old(self).piece_senders@.contains_key(id)
                        &&& final(self).piece_senders == old(self).piece_senders
                        &&& index < old(self).piece_senders.entries@.len()
                        &&& old(self).piece_senders.entries@[index as int].1 == old(
                            self,
                        ).piece_senders@[id]
                    },
                    PieceRead::Submitted { index } => {
                        &&& !old(self).piece_senders@.contains_key(id)
                        &&& index < final(self).piece_senders.entries@.len()
                        &&& call_ensures(
                            open,
                            (),
                            final(self).piece_senders.entries@[index as int].1,
                        )
                        &&& final(self).piece_senders@ == old(self).piece_senders@.insert(
                            id,
                            final(self).piece_senders.entries@[index as int].1,
                        )
                    },
                }
            }),
    {
        let key = PieceKey { info_hash: info_hash.to_lowercase(), piece };
        match self.piece_senders.find(&key) {
            Some(index) => PieceRead::Joined { index },
            None => {
                let sender: P = open();
                let index: usize = self.piece_senders.entries.len();
                self.piece_senders.insert(key, sender);
                PieceRead::Submitted { index }
            },
        }
    }

    /// Gives a pending read up that the native library refused, and tells whom
    /// to fail.
    pub fn fail_read(&mut self, info_hash: &str, piece: i32) -> (r: Option<P>)
        requires
            old(self).wf(),
        ensures
            final(self).wf(),
            final(self).senders == old(self).senders,
            final(self).piece_senders@ == old(self).piece_senders@.remove(
                read_id(info_hash@, piece),
            ),
            r == (if old(self).piece_senders@.contains_key(read_id(info_hash@, piece)) {
                Some(old(self).piece_senders@[read_id(info_hash@, piece)])
            } else {
                None
            }),
    {
        let key = PieceKey { info_hash: info_hash.to_lowercase(), piece };
        self.piece_senders.remove(&key)
    }

    /// The channel on which a pending read is answered.
    pub fn pending_read(&self, info_hash: &str, piece: i32) -> (r: Option<&P>)
        requires
            self.wf(),
        ensures
            match r {
                Some(sender) => self.piece_senders@.contains_key(read_id(info_hash@, piece))
                    && *sender == self.piece_senders@[read_id(info_hash@, piece)],
                None => !self.piece_senders@.contains_key(read_id(info_hash@, piece)),
            },
    {
        let key = PieceKey { info_hash: info_hash.to_lowercase(), piece };
        self.piece_senders.get(&key)
    }

    /// Stops waiting for a piece. The pending read is dropped only with its last
    /// listener.
    pub fn stop_waiting(&mut self, info_hash: &str, piece: i32, listeners: usize)
        requires
            old(self).wf(),
        ensures
            final(self).wf(),
            final(self).senders == old(self).senders,
            final(self).piece_senders@ == (if listeners <= 1 {
                old(self).piece_senders@.remove(read_id(info_hash@, piece))
            } else {
                old(self).piece_senders@
            }),
    {
        if listeners <= 1 {
            let _ = self.fail_read(info_hash, piece);
        }
    }
}

/// Chooses the native request behind a piece read.
pub fn native_read(piece: i32, have_piece: bool, priority: i32, deadline_ms: i32) -> (r: NativeRead)
    ensures
        r == (if have_piece {
            NativeRead::Read { piece }
        } else {
            NativeRead::Await { piece, priority, deadline_ms }
        }),
{
    if have_piece {
        NativeRead::Read { piece }
    } else {
        NativeRead::Await { piece, priority, deadline_ms }
    }
}

/// How a failed piece read is reported.
pub open spec fn read_failure(received: PieceReceived, piece: int) -> (PieceReadErrorKind, Seq<char>) {
    match received {
        PieceReceived::Failed(text) => (PieceReadErrorKind::Other, text@),
        PieceReceived::Lagged => (
            PieceReadErrorKind::Other,
            "piece broker lagged while reading piece "@ + signed_decimal(piece),
        ),
        PieceReceived::Closed => (
            PieceReadErrorKind::BrokenPipe,
            "libtorrent piece broker closed"@,
        ),
        _ => (
            PieceReadErrorKind::TimedOut,
            "timed out reading torrent piece "@ + signed_decimal(piece),
        ),
    }
}

/// What a piece read comes to.
pub fn piece_received(received: PieceReceived, piece: i32) -> (r: Result<
    Arc<Vec<u8>>,
    PieceReadError,
>)
    ensures
        match r {
            Ok(data) => received == PieceReceived::Data(data),
            Err(error) => !(received is Data) && (error.kind, error.message@) == read_failure(
                received,
                piece as int,
            ),
        },
{
    match received {
        PieceReceived::Data(data) => Ok(data),
        PieceReceived::Failed(message) => Err(
            PieceReadError { kind: PieceReadErrorKind::Other, message },
        ),
        PieceReceived::Lagged => {
            let mut message: String = "piece broker lagged while reading piece ".to_owned();
            let number: String = signed_decimal_text(piece as i64);
            message.append(number.as_str());
            Err(PieceReadError { kind: PieceReadErrorKind::Other, message })
        },
        PieceReceived::Closed => Err(
            PieceReadError {
                kind: PieceReadErrorKind::BrokenPipe,
                message: "libtorrent piece broker closed".to_owned(),
            },
        ),
        PieceReceived::TimedOut => {
            let mut message: String = "timed out reading torrent piece ".to_owned();
            let number: String = signed_decimal_text(piece as i64);
            message.append(number.as_str());
            Err(PieceReadError { kind: PieceReadErrorKind::TimedOut, message })
        },
    }
}

/// A torrent is known by its lowercase identity: reads of two spellings of one
/// identity are the same read, and reads of different pieces are not.
pub proof fn law_spelling_does_not_matter(a: Seq<char>, b: Seq<char>, piece: i32, other: i32)
    requires
        lowercase(a) == lowercase(b),
    ensures
        read_id(a, piece) == read_id(b, piece),
        piece != other ==> read_id(a, piece) != read_id(b, other),
{
}

/// No alert is lost once somebody subscribed: the subscriber's channel stays the
/// torrent's channel whatever is dispatched, and alerts under any spelling of
/// the torrent's identity go there.
pub proof fn law_subscriber_hears_alerts<T>(
    channels: Map<Seq<char>, T>,
    subscribed: Seq<char>,
    alerted: Seq<char>,
    opened: T,
)
    requires
        channels.contains_key(lowercase(subscribed)),
    ensures
        channels_after(channels, lowercase(alerted), opened).contains_key(lowercase(subscribed)),
        channels_after(channels, lowercase(alerted), opened)[lowercase(subscribed)]
            == channels[lowercase(subscribed)],
        lowercase(alerted) == lowercase(subscribed) ==> channels_after(
            channels,
            lowercase(alerted),
            opened,
        )[lowercase(alerted)] == channels[lowercase(subscribed)],
{
}

/// A file error fails every pending read of its torrent and none of another:
/// each of them is handed out, and the others stay.
pub proof fn law_file_error_fails_the_torrent<P>(
    pending: Registry<PieceKey, P>,
    info_hash: Seq<char>,
    id: (Seq<char>, i32),
)
    requires
        pending.wf(),
        pending@.contains_key(id),
    ensures
        id.0 == info_hash ==> reads_of(pending.entries@, info_hash).contains(pending@[id])
            && !without_torrent(pending@, info_hash).contains_key(id),
        id.0 != info_hash ==> without_torrent(pending@, info_hash).contains_key(id)
            && without_torrent(pending@, info_hash)[id] == pending@[id],
{
    let at = pending.place(id);
    assert(pending.holds_at(at, id));
    pending.lemma_entry(at);
    if id.0 == info_hash {
        lemma_reads_of_member(pending.entries@, info_hash, at);
    }
}

proof fn lemma_reads_of_member<P>(entries: Seq<(PieceKey, P)>, info_hash: Seq<char>, at: int)
    requires
        0 <= at < entries.len(),
        entries[at].0.info_hash@ == info_hash,
    ensures
        reads_of(entries, info_hash).contains(entries[at].1),
    decreases entries.len(),
{
    let all = reads_of(entries, info_hash);
    let earlier = reads_of(entries.drop_last(), info_hash);
    if at < entries.len() - 1 {
        lemma_reads_of_member(entries.drop_last(), info_hash, at);
        let k = choose|k: int| 0 <= k < earlier.len() && earlier[k] == entries[at].1;
        assert(all[k] == entries[at].1);
    } else {
        assert(all[all.len() - 1] == entries[at].1);
    }
}

/// A torrent without a channel gets the one that was opened for it; a channel
/// that is there is never replaced, and no other torrent's changes.
pub proof fn law_each_torrent_keeps_its_channel<T>(
    channels: Map<Seq<char>, T>,
    key: Seq<char>,
    opened: T,
    other: Seq<char>,
)
    requires
        other != key,
    ensures
        !channels.contains_key(key) ==> channels_after(channels, key, opened).contains_key(key)
            && channels_after(channels, key, opened)[key] == opened,
        channels.contains_key(key) ==> channels_after(channels, key, opened)[key] == channels[key],
        channels_after(channels, key, opened).contains_key(other) <==> channels.contains_key(other),
        channels.contains_key(other) ==> channels_after(channels, key, opened)[other]
            == channels[other],
{
}

/// An alert answers a piece read exactly where it reports one of a real piece,
/// and fails its torrent's reads exactly where it is a file error. It never does
/// both.
pub proof fn law_alerts_answer_or_fail(alert: AlertInfo, codes: AlertCodes)
    ensures
        answers_piece(alert, codes) <==> alert.alert_type == codes.read_piece && 0
            <= alert.piece_index,
        alert.alert_type == codes.file_error && codes.file_error != codes.read_piece
            ==> fails_torrent(alert, codes),
        alert.alert_type != codes.file_error ==> !fails_torrent(alert, codes),
        !(answers_piece(alert, codes) && fails_torrent(alert, codes)),
{
}

/// A piece read gets all of the bytes that came, and a failure exactly where none
/// did. The failure names the piece.
pub proof fn law_reader_gets_all_bytes(
    result: Result<Arc<Vec<u8>>, String>,
    piece: int,
    data: Seq<u8>,
)
    requires
        result_of(result, piece, data),
    ensures
        result is Ok <==> data.len() > 0,
        result matches Ok(bytes) ==> bytes@ == data,
        result matches Err(text) ==> text@ == "libtorrent returned no data for piece "@
            + signed_decimal(piece),
{
}

/// Taking a torrent's reads out takes none of another torrent's, and answering
/// them answers each of those that were taken with the same text.
pub proof fn law_failed_reads_belong_to_the_torrent<P>(
    entries: Seq<(PieceKey, P)>,
    info_hash: Seq<char>,
    i: int,
)
    requires
        0 <= i < reads_of(entries, info_hash).len(),
    ensures
        exists|k: int|
            0 <= k < entries.len() && (#[trigger] entries[k]).0.info_hash@ == info_hash
                && entries[k].1 == reads_of(entries, info_hash)[i],
    decreases entries.len(),
{
    let shorter = entries.drop_last();
    let earlier = reads_of(shorter, info_hash);
    if i < earlier.len() {
        law_failed_reads_belong_to_the_torrent(shorter, info_hash, i);
        let k = choose|k: int|
            0 <= k < shorter.len() && (#[trigger] shorter[k]).0.info_hash@ == info_hash
                && shorter[k].1 == earlier[i];
        assert(entries[k] == shorter[k]);
    } else {
        assert(entries[entries.len() - 1].1 == reads_of(entries, info_hash)[i]);
    }
}

/// Of a list of answers each goes to its own sender, and where all fail each has
/// the text.
pub proof fn law_answers_keep_their_senders<P>(
    replies: Seq<PieceReply<P>>,
    text: Seq<char>,
    i: int,
)
    requires
        0 <= i < replies.len(),
    ensures
        senders_of(replies).len() == replies.len(),
        senders_of(replies)[i] == replies[i].sender,
        all_fail_with(replies, text) ==> (replies[i].result matches Err(error) && error@ == text),
{
}

/// A read is known by its torrent's lowercase identity and its piece.
pub proof fn law_read_is_known_by_torrent_and_piece(info_hash: Seq<char>, piece: i32)
    ensures
        read_id(info_hash, piece).0 == lowercase(info_hash),
        read_id(info_hash, piece).1 == piece,
{
}

/// A read that failed tells why: with the text that came, that it lagged, that
/// the broker is gone or that time ran out, and of which piece.
pub proof fn law_failed_read_tells_why(received: PieceReceived, piece: int)
    ensures
        received matches PieceReceived::Failed(text) ==> read_failure(received, piece) == (
            PieceReadErrorKind::Other,
            text@,
        ),
        received is Lagged ==> read_failure(received, piece).0 == PieceReadErrorKind::Other
            && read_failure(received, piece).1 == "piece broker lagged while reading piece "@
            + signed_decimal(piece),
        received is Closed ==> read_failure(received, piece).0 == PieceReadErrorKind::BrokenPipe
            && read_failure(received, piece).1 == "libtorrent piece broker closed"@,
        received is TimedOut ==> read_failure(received, piece).0 == PieceReadErrorKind::TimedOut
            && read_failure(received, piece).1 == "timed out reading torrent piece "@
            + signed_decimal(piece),
{
}

/// A dispatched alert that carries a real piece's bytes answers the read of that
/// piece, with all of them, and takes it from the pending ones; the alert goes to
/// its torrent's channel without the bytes.
pub proof fn law_dispatch_answers_the_read<T, P, F: FnOnce() -> T>(
    codes: &AlertCodes,
    open: F,
    r: Dispatch<P>,
    other: (Seq<char>, i32),
)
    ensures
        forall|hub: &mut LibtorrentAlertHub<T, P>, alert: &mut AlertInfo| #[trigger]
            call_ensures(
                LibtorrentAlertHub::<T, P>::dispatch::<F>,
                (hub, alert, codes, open),
                r,
            ) && (*alert).info_hash@.len() > 0 && (*alert).alert_type == codes.read_piece && 0
                <= (*alert).piece_index ==> {
                let id = (lowercase((*alert).info_hash@), (*alert).piece_index);
                let before = (*hub).piece_senders@;
                let after = (*final(hub)).piece_senders@;
                &&& r.reply is Some <==> before.contains_key(id)
                &&& before.contains_key(id) ==> r.reply->0.sender == before[id]
                &&& before.contains_key(id) && (*alert).piece_data@.len() > 0
                    ==> r.reply->0.result is Ok && r.reply->0.result->Ok_0@
                    == (*alert).piece_data@
                &&& before.contains_key(id) && (*alert).piece_data@.len() == 0
                    ==> r.reply->0.result is Err
                &&& r.failed@.len() == 0
                &&& !after.contains_key(id)
                &&& other != id ==> (after.contains_key(other) <==> before.contains_key(other))
                &&& other != id && before.contains_key(other) ==> after[other] == before[other]
                &&& (*final(alert)).piece_data@.len() == 0
                &&& (*final(alert)).message == (*alert).message
                &&& (*final(alert)).alert_type == (*alert).alert_type
                &&& (*final(alert)).piece_index == (*alert).piece_index
                &&& r.channel is Some
                &&& (*final(hub)).senders@.contains_key(id.0)
                &&& (*final(hub)).senders.entries@[r.channel->0 as int].1
                    == (*final(hub)).senders@[id.0]
            },
{
    assert(senders_of(r.failed@).len() == r.failed@.len());
}

/// A dispatched alert of any other sort leaves the alert and the reads of other
/// torrents alone; a file error fails those of its torrent with its text. An alert
/// without a torrent goes nowhere.
pub proof fn law_dispatch_passes_other_alerts_on<T, P, F: FnOnce() -> T>(
    codes: &AlertCodes,
    open: F,
    r: Dispatch<P>,
    id: (Seq<char>, i32),
    i: int,
)
    ensures
        forall|hub: &mut LibtorrentAlertHub<T, P>, alert: &mut AlertInfo| #[trigger]
            call_ensures(
                LibtorrentAlertHub::<T, P>::dispatch::<F>,
                (hub, alert, codes, open),
                r,
            ) && (*alert).info_hash@.len() == 0 ==> {
                &&& *final(hub) == *hub
                &&& *final(alert) == *alert
                &&& r.reply is None && r.failed@.len() == 0 && r.channel is None
            },
        forall|hub: &mut LibtorrentAlertHub<T, P>, alert: &mut AlertInfo| #[trigger]
            call_ensures(
                LibtorrentAlertHub::<T, P>::dispatch::<F>,
                (hub, alert, codes, open),
                r,
            ) && (*alert).info_hash@.len() > 0 && (*alert).alert_type != codes.read_piece ==> {
                let hash = lowercase((*alert).info_hash@);
                let before = (*hub).piece_senders@;
                let after = (*final(hub)).piece_senders@;
                &&& r.reply is None
                &&& (*final(alert)).piece_data@ == (*alert).piece_data@
                &&& r.channel is Some
                &&& (*alert).alert_type != codes.file_error ==> r.failed@.len() == 0 && after
                    == before
                &&& id.0 != hash ==> (after.contains_key(id) <==> before.contains_key(id))
                &&& (*alert).alert_type == codes.file_error && id.0 == hash
                    ==> !after.contains_key(id)
                &&& 0 <= i < r.failed@.len() ==> r.failed@[i].result is Err
                    && r.failed@[i].result->Err_0@ == (*alert).message@
            },
{
    assert(senders_of(r.failed@).len() == r.failed@.len());
}

/// A subscriber hears of its torrent on the channel that is there, or on the one
/// that it opened.
pub proof fn law_subscriber_gets_the_channel<T, P, F: FnOnce() -> T>(
    info_hash: &str,
    open: F,
    r: usize,
    other: Seq<char>,
)
    requires
        other != lowercase(info_hash@),
    ensures
        forall|hub: &mut LibtorrentAlertHub<T, P>| #[trigger]
            call_ensures(
                LibtorrentAlertHub::<T, P>::subscribe::<F>,
                (hub, info_hash, open),
                r,
            ) ==> {
                let key = lowercase(info_hash@);
                let before = (*hub).senders@;
                let after = (*final(hub)).senders@;
                &&& after.contains_key(key)
                &&& (*final(hub)).senders.entries@[r as int].1 == after[key]
                &&& before.contains_key(key) ==> after[key] == before[key]
                &&& !before.contains_key(key) ==> call_ensures(open, (), after[key])
                &&& before.contains_key(other) ==> after.contains_key(other) && after[other]
                    == before[other]
                &&& (*final(hub)).piece_senders == (*hub).piece_senders
            },
{
}

/// The first read of a piece is submitted, and every later one joins it until it
/// is answered.
pub proof fn law_piece_is_read_once<T, P, F: FnOnce() -> P>(
    info_hash: &str,
    piece: i32,
    open: F,
    r: PieceRead,
    other: (Seq<char>, i32),
)
    requires
        other != (lowercase(info_hash@), piece),
    ensures
        forall|hub: &mut LibtorrentAlertHub<T, P>| #[trigger]
            call_ensures(
                LibtorrentAlertHub::<T, P>::read_piece::<F>,
                (hub, info_hash, piece, open),
                r,
            ) ==> {
                let id = (lowercase(info_hash@), piece);
                let before = (*hub).piece_senders@;
                let after = (*final(hub)).piece_senders@;
                &&& r is Joined <==> before.contains_key(id)
                &&& after.contains_key(id)
                &&& before.contains_key(id) ==> after[id] == before[id]
                &&& !before.contains_key(id) ==> call_ensures(open, (), after[id])
                &&& after.contains_key(other) <==> before.contains_key(other)
                &&& (*final(hub)).senders == (*hub).senders
            },
{
}

/// A read that failed, or that its last listener left, is pending no more; others
/// stay.
pub proof fn law_ended_read_is_forgotten<T, P>(
    info_hash: &str,
    piece: i32,
    listeners: usize,
    taken: Option<P>,
    other: (Seq<char>, i32),
)
    requires
        other != (lowercase(info_hash@), piece),
    ensures
        forall|hub: &mut LibtorrentAlertHub<T, P>| #[trigger]
            call_ensures(
                LibtorrentAlertHub::<T, P>::fail_read,
                (hub, info_hash, piece),
                taken,
            ) ==> {
                let id = (lowercase(info_hash@), piece);
                let before = (*hub).piece_senders@;
                let after = (*final(hub)).piece_senders@;
                &&& before.contains_key(id) ==> taken == Some(before[id])
                &&& !before.contains_key(id) ==> taken is None
                &&& !after.contains_key(id)
                &&& after.contains_key(other) <==> before.contains_key(other)
                &&& (*final(hub)).senders == (*hub).senders
            },
        forall|hub: &mut LibtorrentAlertHub<T, P>| #[trigger]
            call_ensures(
                LibtorrentAlertHub::<T, P>::stop_waiting,
                (hub, info_hash, piece, listeners),
                (),
            ) ==> {
                let id = (lowercase(info_hash@), piece);
                let before = (*hub).piece_senders@;
                let after = (*final(hub)).piece_senders@;
                &&& listeners <= 1 ==> !after.contains_key(id)
                &&& listeners > 1 ==> after == before
                &&& after.contains_key(other) <==> before.contains_key(other)
                &&& (*final(hub)).senders == (*hub).senders
            },
{
}

/// A removed torrent has neither a channel nor pending reads; the others keep
/// theirs.
pub proof fn law_removed_torrent_is_not_heard<T, P>(
    info_hash: &str,
    other: Seq<char>,
    piece: i32,
)
    requires
        other != lowercase(info_hash@),
    ensures
        forall|hub: &mut LibtorrentAlertHub<T, P>| #[trigger]
            call_ensures(LibtorrentAlertHub::<T, P>::remove_torrent, (hub, info_hash), ()) ==> {
                let key = lowercase(info_hash@);
                let before = *hub;
                let after = *final(hub);
                &&& !after.senders@.contains_key(key)
                &&& !after.piece_senders@.contains_key((key, piece))
                &&& after.senders@.contains_key(other) <==> before.senders@.contains_key(other)
                &&& before.senders@.contains_key(other) ==> after.senders@[other]
                    == before.senders@[other]
                &&& after.piece_senders@.contains_key((other, piece))
                    <==> before.piece_senders@.contains_key((other, piece))
                &&& before.piece_senders@.contains_key((other, piece))
                    ==> after.piece_senders@[(other, piece)] == before.piece_senders@[(
                    other,
                    piece,
                )]
            },
{
}

/// A piece that is there is read at once, a missing one asked for; what came of
/// it is delivered, or fails with its kind.
pub proof fn law_piece_is_read_or_awaited(
    piece: i32,
    have_piece: bool,
    priority: i32,
    deadline_ms: i32,
    native: NativeRead,
    received: PieceReceived,
    r: Result<Arc<Vec<u8>>, PieceReadError>,
)
    requires
        call_ensures(native_read, (piece, have_piece, priority, deadline_ms), native),
        call_ensures(piece_received, (received, piece), r),
    ensures
        have_piece ==> native == (NativeRead::Read { piece }),
        !have_piece ==> native == (NativeRead::Await { piece, priority, deadline_ms }),
        received matches PieceReceived::Data(data) ==> r == Ok::<Arc<Vec<u8>>, PieceReadError>(
            data,
        ),
        !(received is Data) ==> r is Err,
        received matches PieceReceived::Failed(text) ==> r->Err_0.kind == PieceReadErrorKind::Other
            && r->Err_0.message@ == text@,
        received is Lagged ==> r->Err_0.kind == PieceReadErrorKind::Other,
        received is Closed ==> r->Err_0.kind == PieceReadErrorKind::BrokenPipe,
        received is TimedOut ==> r->Err_0.kind == PieceReadErrorKind::TimedOut,
{
}

/// Whether a read is pending is told by its torrent and piece.
pub proof fn law_pending_read_is_found<T, P>(
    hub: &LibtorrentAlertHub<T, P>,
    info_hash: &str,
    piece: i32,
    r: Option<&P>,
)
    requires
        call_ensures(LibtorrentAlertHub::<T, P>::pending_read, (hub, info_hash, piece), r),
    ensures
        r is Some <==> hub.piece_senders@.contains_key((lowercase(info_hash@), piece)),
        r matches Some(sender) ==> *sender == hub.piece_senders@[(lowercase(info_hash@), piece)],
{
}

/// Before anything happens nobody listens.
pub proof fn law_hub_starts_empty<T, P>(
    r: LibtorrentAlertHub<T, P>,
    key: Seq<char>,
    id: (Seq<char>, i32),
)
    requires
        call_ensures(LibtorrentAlertHub::<T, P>::new, (), r),
    ensures
        !r.senders@.contains_key(key),
        !r.piece_senders@.contains_key(id),
{
}

} // verus!
