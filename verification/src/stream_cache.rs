//! Resolved streams that are kept until their signed addresses may expire.

use crate::playback::elapsed_since;
use crate::youtube::{
    law_run_gives_stream_or_failure,
    cache_serves, failure_response, resolve, run_failure, run_stream, ExtractorRun, ResolveError,
    ResolvedStream, StreamView, CACHE_TTL,
};
use dashmap::DashMap;
use vstd::prelude::*;

verus! {

#[verifier::external_type_specification]
#[verifier::external_body]
#[verifier::reject_recursive_types(K)]
#[verifier::reject_recursive_types(V)]
#[verifier::reject_recursive_types(S)]
pub struct ExDashMap<K, V, S>(DashMap<K, V, S>);

/// The streams that the map holds, each with the time it was resolved at, by
/// video ID.
pub uninterp spec fn cached_streams(streams: DashMap<String, (u64, ResolvedStream)>) -> Map<
    Seq<char>,
    (u64, StreamView),
>;

/// No streams at all.
pub open spec fn no_streams() -> Map<Seq<char>, (u64, StreamView)> {
    Map::empty()
}

fn copy_stream(stream: &ResolvedStream) -> (r: ResolvedStream)
    ensures
        r@ == stream@,
{
    ResolvedStream {
        url: stream.url.clone(),
        itag: stream.itag,
        quality: stream.quality.clone(),
        container: stream.container.clone(),
        mime_type: stream.mime_type.clone(),
        has_video: stream.has_video,
        has_audio: stream.has_audio,
        is_live: stream.is_live,
        is_hls: stream.is_hls,
        is_dash: stream.is_dash,
        duration_ms: stream.duration_ms,
    }
}

/// A copy of a kept stream.
fn copy_kept(kept: &(u64, ResolvedStream)) -> (r: (u64, ResolvedStream))
    ensures
        r.0 == kept.0,
        r.1@ == kept.1@,
{
    (kept.0, copy_stream(&kept.1))
}

/// `DashMap::new` makes a map that holds nothing.
#[verifier::external_body]
fn empty_streams() -> (r: DashMap<String, (u64, ResolvedStream)>)
    ensures
        cached_streams(r) == no_streams(),
{
    DashMap::new()
}

/// `DashMap::get` finds the value under a key, if there is one. What it refers
/// to is copied, so that no lock on the map is held.
#[verifier::external_body]
fn find_stream(streams: &DashMap<String, (u64, ResolvedStream)>, video_id: &str) -> (r: Option<
    (u64, ResolvedStream),
>)
    ensures
        match r {
            Some(kept) => cached_streams(*streams).contains_key(video_id@) && cached_streams(
                *streams,
            )[video_id@] == (kept.0, kept.1@),
            None => !cached_streams(*streams).contains_key(video_id@),
        },
{
    streams.get(video_id).map(|kept| copy_kept(kept.value()))
}

/// `DashMap::insert` stores a value under a key, in place of one that was there.
/// The map is borrowed exclusively, so nobody else changes it meanwhile.
#[verifier::external_body]
fn keep_stream(
    streams: &mut DashMap<String, (u64, ResolvedStream)>,
    video_id: String,
    kept: (u64, ResolvedStream),
)
    ensures
        cached_streams(*final(streams)) == cached_streams(*old(streams)).insert(
            video_id@,
            (kept.0, kept.1@),
        ),
{
    streams.insert(video_id, kept);
}

/// The stream that is served for a video, if a kept one is young enough.
pub open spec fn served_stream(
    streams: Map<Seq<char>, (u64, StreamView)>,
    video_id: Seq<char>,
    now: u64,
) -> Option<StreamView> {
    if streams.contains_key(video_id) && elapsed_since(streams[video_id].0, now) < CACHE_TTL {
        Some(streams[video_id].1)
    } else {
        None
    }
}

/// Whether the extractor is run for a video: only where no stream is served.
pub open spec fn runs_extractor(
    streams: Map<Seq<char>, (u64, StreamView)>,
    video_id: Seq<char>,
    now: u64,
) -> bool {
    served_stream(streams, video_id, now) is None
}

/// The streams that are kept after the extractor ran for a video: a run that
/// fails changes nothing.
pub open spec fn streams_after(
    streams: Map<Seq<char>, (u64, StreamView)>,
    video_id: Seq<char>,
    run: ExtractorRun,
    now: u64,
) -> Map<Seq<char>, (u64, StreamView)> {
    match run_stream(run) {
        Some(stream) => streams.insert(video_id, (now, stream)),
        None => streams,
    }
}

/// How resolving a video begins.
#[derive(Debug, Clone, PartialEq, Eq)]
pub enum ResolveStart {
    /// The video was resolved lately: this is its stream.
    Serve(ResolvedStream),
    /// Run the extractor, then go on with what came of it.
    RunExtractor,
}

/// The streams that were resolved lately.
pub struct StreamCache {
    streams: DashMap<String, (u64, ResolvedStream)>,
}

impl View for StreamCache {
    type V = Map<Seq<char>, (u64, StreamView)>;

    closed spec fn view(&self) -> Map<Seq<char>, (u64, StreamView)> {
        cached_streams(self.streams)
    }
}

impl StreamCache {
    /// Nothing was resolved yet.
    pub fn new() -> (r: Self)
        ensures
            r@ == no_streams(),
    {
        StreamCache { streams: empty_streams() }
    }

    /// The stream of a video, if it was resolved lately.
    pub fn lookup(&self, video_id: &str, now: u64) -> (r: Option<ResolvedStream>)
        ensures
            match r {
                Some(stream) => served_stream(self@, video_id@, now) == Some(stream@),
                None => served_stream(self@, video_id@, now) is None,
            },
    {
        match find_stream(&self.streams, video_id) {
            Some((resolved_at, stream)) => {
                if cache_serves(now.saturating_sub(resolved_at)) {
                    Some(stream)
                } else {
                    None
                }
            },
            None => None,
        }
    }

    /// Keeps the stream of a video.
    pub fn remember(&mut self, video_id: &str, stream: ResolvedStream, now: u64)
        ensures
            final(self)@ == old(self)@.insert(video_id@, (now, stream@)),
    {
        keep_stream(&mut self.streams, video_id.to_owned(), (now, stream));
    }

    /// Begins to resolve a video.
    pub fn begin_resolve(&self, video_id: &str, now: u64) -> (r: ResolveStart)
        ensures
            match r {
                ResolveStart::Serve(stream) => {
                    &&& !runs_extractor(self@, video_id@, now)
                    &&& served_stream(self@, video_id@, now) == Some(stream@)
                },
                ResolveStart::RunExtractor => runs_extractor(self@, video_id@, now),
            },
    {
        match self.lookup(video_id, now) {
            Some(stream) => ResolveStart::Serve(stream),
            None => ResolveStart::RunExtractor,
        }
    }

    /// Goes on once the extractor ran: a stream is kept and handed out, and a
    /// failure is not kept.
    pub fn finish_resolve(&mut self, video_id: &str, run: ExtractorRun, now: u64) -> (r: Result<
        ResolvedStream,
        ResolveError,
    >)
        ensures
            final(self)@ == streams_after(old(self)@, video_id@, run, now),
            match r {
                Ok(stream) => run_failure(run) is None && run_stream(run) == Some(stream@),
                Err(error) => run_failure(run) == Some(failure_response(error)),
            },
    {
        let ghost taken = run;
        match resolve(run) {
            Ok(stream) => {
                self.remember(video_id, copy_stream(&stream), now);
                Ok(stream)
            },
            Err(error) => {
                assert(run_stream(taken) is None);
                Err(error)
            },
        }
    }
}

/// What was kept is served until it is too old, and the streams of other videos
/// are served as before.
pub proof fn law_kept_stream_is_served(
    streams: Map<Seq<char>, (u64, StreamView)>,
    video_id: Seq<char>,
    stream: StreamView,
    other: Seq<char>,
    now: u64,
    later: u64,
)
    ensures
        served_stream(streams.insert(video_id, (now, stream)), video_id, later) == (
        if elapsed_since(now, later) < CACHE_TTL {
            Some(stream)
        } else {
            None
        }),
        other != video_id ==> served_stream(
            streams.insert(video_id, (now, stream)),
            other,
            later,
        ) == served_stream(streams, other, later),
{
}

/// A video that the extractor resolved is served from then on, equal in every
/// field, and the extractor is not run for it again until the stream is too old,
/// whatever run for another video, or failed run for the same one, comes between.
pub proof fn law_resolved_video_is_not_extracted_again(
    streams: Map<Seq<char>, (u64, StreamView)>,
    video_id: Seq<char>,
    run: ExtractorRun,
    now: u64,
    other: Seq<char>,
    other_run: ExtractorRun,
    between: u64,
    later: u64,
)
    requires
        run_stream(run) is Some,
        elapsed_since(now, later) < CACHE_TTL,
        other != video_id || run_stream(other_run) is None,
    ensures
        ({
            let resolved = streams_after(streams, video_id, run, now);
            let changed = streams_after(resolved, other, other_run, between);
            &&& served_stream(resolved, video_id, later) == run_stream(run)
            &&& !runs_extractor(resolved, video_id, later)
            &&& served_stream(changed, video_id, later) == run_stream(run)
            &&& !runs_extractor(changed, video_id, later)
        }),
{
}

/// A stream is served for thirty minutes after it was resolved, and not a moment
/// longer. Whatever is not kept is not served.
pub proof fn law_streams_are_served_for_thirty_minutes(
    streams: Map<Seq<char>, (u64, StreamView)>,
    video_id: Seq<char>,
    now: u64,
)
    ensures
        streams.contains_key(video_id) && now < streams[video_id].0 + 1_800_000_000_000
            ==> served_stream(streams, video_id, now) == Some(streams[video_id].1)
            && !runs_extractor(streams, video_id, now),
        streams.contains_key(video_id) && now >= streams[video_id].0 + 1_800_000_000_000
            ==> served_stream(streams, video_id, now) is None && runs_extractor(
            streams,
            video_id,
            now,
        ),
        !streams.contains_key(video_id) ==> served_stream(streams, video_id, now) is None
            && runs_extractor(streams, video_id, now),
{
}

/// A run that gives a stream keeps it, from now on, in place of an older one. A
/// run that fails keeps nothing, and neither touches another video's stream.
pub proof fn law_successful_runs_are_kept(
    streams: Map<Seq<char>, (u64, StreamView)>,
    video_id: Seq<char>,
    run: ExtractorRun,
    now: u64,
    other: Seq<char>,
)
    requires
        other != video_id,
    ensures
        run_failure(run) is None ==> {
            let after = streams_after(streams, video_id, run, now);
            &&& after.contains_key(video_id)
            &&& after[video_id].0 == now
            &&& run_stream(run) == Some(after[video_id].1)
        },
        run_failure(run) is Some ==> streams_after(streams, video_id, run, now) == streams,
        streams_after(streams, video_id, run, now).contains_key(other) <==> streams.contains_key(
            other,
        ),
        streams.contains_key(other) ==> streams_after(streams, video_id, run, now)[other]
            == streams[other],
        no_streams() =~= Map::empty(),
{
}

/// A video that was resolved less than thirty minutes ago is served as it was
/// kept; for any other one the extractor runs.
pub proof fn law_kept_video_is_served_at_once(
    cache: &StreamCache,
    video_id: &str,
    now: u64,
    r: ResolveStart,
    found: Option<ResolvedStream>,
)
    requires
        call_ensures(StreamCache::begin_resolve, (cache, video_id, now), r),
        call_ensures(StreamCache::lookup, (cache, video_id, now), found),
    ensures
        r is Serve <==> cache@.contains_key(video_id@) && now < cache@[video_id@].0
            + 1_800_000_000_000,
        r matches ResolveStart::Serve(stream) ==> stream@ == cache@[video_id@].1,
        found is Some <==> r is Serve,
        found matches Some(stream) ==> stream@ == cache@[video_id@].1,
{
    law_streams_are_served_for_thirty_minutes(cache@, video_id@, now);
}

/// A run that gave a stream is kept with its time and handed out; one that failed
/// is not kept, and no other video is touched.
pub proof fn law_resolved_video_is_kept(
    video_id: &str,
    run: ExtractorRun,
    now: u64,
    r: Result<ResolvedStream, ResolveError>,
    other: Seq<char>,
)
    requires
        other != video_id@,
    ensures
        forall|cache: &mut StreamCache| #[trigger]
            call_ensures(StreamCache::finish_resolve, (cache, video_id, run, now), r) ==> {
                let before = (*cache)@;
                let after = (*final(cache))@;
                &&& r matches Ok(stream) ==> after.contains_key(video_id@) && after[video_id@] == (
                    now,
                    stream@,
                )
                &&& r is Err ==> after == before
                &&& r is Ok ==> run is Reported
                &&& after.contains_key(other) <==> before.contains_key(other)
                &&& before.contains_key(other) ==> after[other] == before[other]
            },
        forall|cache: &mut StreamCache, stream: ResolvedStream| #[trigger]
            call_ensures(StreamCache::remember, (cache, video_id, stream, now), ()) ==> {
                let before = (*cache)@;
                let after = (*final(cache))@;
                &&& after.contains_key(video_id@) && after[video_id@] == (now, stream@)
                &&& after.contains_key(other) <==> before.contains_key(other)
                &&& before.contains_key(other) ==> after[other] == before[other]
            },
{
    assert forall|cache: &mut StreamCache| #[trigger]
        call_ensures(StreamCache::finish_resolve, (cache, video_id, run, now), r) implies {
        let before = (*cache)@;
        let after = (*final(cache))@;
        &&& r matches Ok(stream) ==> after.contains_key(video_id@) && after[video_id@] == (
            now,
            stream@,
        )
        &&& r is Err ==> after == before
        &&& r is Ok ==> run is Reported
        &&& after.contains_key(other) <==> before.contains_key(other)
        &&& before.contains_key(other) ==> after[other] == before[other]
    } by {
        law_run_gives_stream_or_failure(run);
        law_successful_runs_are_kept((*cache)@, video_id@, run, now, other);
    }
}

} // verus!
