//! Resolving YouTube videos to one playable URL: checking what was asked for,
//! driving the external extractor, and reading its answer.

use crate::json::{empty_object, json_members, put_member, JsonField, JsonScalar};
use crate::text::{
    chars_of, contains_text, decimal, decimal_text, decode_lossy, ends_with, law_suffix_is_the_end,
    lossy_utf8, occurs_in, parse_u64, parsed_u64, push_text, same_text, strip_suffix, texts, trimmed,
};
use serde_json::Value;
use vstd::prelude::*;
use vstd::string::*;
use vstd::utf8::is_ascii_chars;

verus! {

/// How long a resolved stream is served from the cache.
pub const CACHE_TTL: u64 = 1_800_000_000_000;

/// Whether `c` is one of the URL-safe base64 characters.
pub open spec fn is_id_char(c: char) -> bool {
    ('0' <= c && c <= '9') || ('a' <= c && c <= 'z') || ('A' <= c && c <= 'Z') || c == '-' || c
        == '_'
}

/// Whether `id` has the form of a video ID: eleven URL-safe characters.
pub open spec fn is_id_text(id: Seq<char>) -> bool {
    id.len() == 11 && forall|i: int| 0 <= i < id.len() ==> is_id_char(#[trigger] id[i])
}

/// Whether `id` is a video ID. Nothing else reaches the extractor's arguments.
pub fn is_video_id(id: &str) -> (r: bool)
    ensures
        r == is_id_text(id@),
{
    let chars: Vec<char> = chars_of(id);
    let mut i: usize = 0;
    while i < chars.len()
        invariant
            chars@ == id@,
            i <= chars.len(),
            forall|j: int| 0 <= j < i ==> is_id_char(#[trigger] id@[j]),
        decreases chars.len() - i,
    {
        let c: char = chars[i];
        if !(('0' <= c && c <= '9') || ('a' <= c && c <= 'z') || ('A' <= c && c <= 'Z') || c == '-'
            || c == '_') {
            return false;
        }
        i += 1;
    }
    proof {
        assert(is_ascii_chars(id@)) by {
            assert forall|j: int| 0 <= j < id@.len() implies '\0' <= #[trigger] id@[j] <= '\u{7f}' by {
                assert(is_id_char(id@[j]));
            }
        }
        assert(is_ascii(id));
    }
    id.len() == 11
}

/// Whether a codec names a track. The extractor writes a missing one as `none`.
pub open spec fn codec_present(codec: Option<Seq<char>>) -> bool {
    match codec {
        Some(name) => name.len() > 0 && name != "none"@,
        None => false,
    }
}

/// The characters of an optional string.
pub open spec fn str_chars(text: Option<&str>) -> Option<Seq<char>> {
    match text {
        Some(text) => Some(text@),
        None => None,
    }
}

/// The characters of an optional owned string.
pub open spec fn string_chars(text: Option<String>) -> Option<Seq<char>> {
    match text {
        Some(text) => Some(text@),
        None => None,
    }
}

/// Whether a codec names a track.
pub fn is_present(codec: Option<&str>) -> (r: bool)
    ensures
        r == codec_present(str_chars(codec)),
{
    match codec {
        Some(name) => !name.is_empty() && !same_text(name, "none"),
        None => false,
    }
}

/// The media type of a container.
pub open spec fn container_type(container: Seq<char>) -> Seq<char> {
    if container == "webm"@ {
        "video/webm"@
    } else if container == "3gp"@ {
        "video/3gpp"@
    } else {
        "video/mp4"@
    }
}

/// The codecs that are present, separated by commas.
pub open spec fn codec_list(vcodec: Option<Seq<char>>, acodec: Option<Seq<char>>) -> Seq<char> {
    if codec_present(vcodec) && codec_present(acodec) {
        vcodec->0 + ", "@ + acodec->0
    } else if codec_present(vcodec) {
        vcodec->0
    } else if codec_present(acodec) {
        acodec->0
    } else {
        Seq::empty()
    }
}

/// The media type of a stream, with its codecs where it has any.
pub open spec fn mime_text(
    container: Seq<char>,
    vcodec: Option<Seq<char>>,
    acodec: Option<Seq<char>>,
) -> Seq<char> {
    if codec_present(vcodec) || codec_present(acodec) {
        container_type(container) + "; codecs=\""@ + codec_list(vcodec, acodec) + "\""@
    } else {
        container_type(container)
    }
}

/// The media type of a stream.
pub fn mime_type(container: &str, vcodec: Option<&str>, acodec: Option<&str>) -> (r: String)
    ensures
        r@ == mime_text(container@, str_chars(vcodec), str_chars(acodec)),
{
    let base: &str = if same_text(container, "webm") {
        "video/webm"
    } else if same_text(container, "3gp") {
        "video/3gpp"
    } else {
        "video/mp4"
    };
    let mut mime: String = base.to_owned();
    let video: bool = is_present(vcodec);
    let audio: bool = is_present(acodec);
    if !video && !audio {
        return mime;
    }
    mime.append("; codecs=\"");
    if let Some(name) = vcodec {
        if video {
            mime.append(name);
            if audio {
                mime.append(", ");
            }
        }
    }
    if let Some(name) = acodec {
        if audio {
            mime.append(name);
        }
    }
    mime.append("\"");
    assert(mime@ =~= mime_text(container@, str_chars(vcodec), str_chars(acodec)));
    mime
}

/// Prefer one file that already carries audio and video; formats that exist
/// only as separate streams are not asked for.
pub const FORMAT_SELECTOR: &'static str =
    "b[ext=mp4][vcodec!=none][acodec!=none]/b[vcodec!=none][acodec!=none]";

/// What a request path asks for.
#[derive(Debug, Clone, PartialEq, Eq)]
pub enum VideoRequest {
    Invalid,
    Valid { video_id: String, as_json: bool },
}

/// The video that a request path names: the path without `.json`.
pub open spec fn requested_id(path: Seq<char>) -> Seq<char> {
    if ends_with(path, ".json"@) {
        path.take(path.len() - ".json"@.len())
    } else {
        path
    }
}

/// Reads a request path. A `.json` ending asks for a description in place of a
/// redirect.
pub fn youtube_handler(id: String) -> (r: VideoRequest)
    ensures
        match r {
            VideoRequest::Valid { video_id, as_json } => {
                &&& is_id_text(requested_id(id@))
                &&& video_id@ == requested_id(id@)
                &&& as_json == ends_with(id@, ".json"@)
            },
            VideoRequest::Invalid => !is_id_text(requested_id(id@)),
        },
{
    let stripped: Option<String> = strip_suffix(id.as_str(), ".json");
    let (video_id, as_json): (String, bool) = match stripped {
        Some(stripped) => {
            proof {
                let tail = id@.subrange(id@.len() - ".json"@.len(), id@.len() as int);
                assert(tail =~= ".json"@);
                assert(id@.take(id@.len() - ".json"@.len()) =~= stripped@);
            }
            (stripped, true)
        },
        None => (id, false),
    };
    if is_video_id(video_id.as_str()) {
        VideoRequest::Valid { video_id, as_json }
    } else {
        VideoRequest::Invalid
    }
}

/// The HTTP status and text that a request without a video ID is answered with.
pub fn invalid_id_response() -> (r: (u16, String))
    ensures
        r.0 == 400,
        r.1@ == "Invalid YouTube ID"@,
{
    (400, "Invalid YouTube ID".to_owned())
}

/// Whether a stream that was resolved `age` ago is still served.
pub fn cache_serves(age: u64) -> (r: bool)
    ensures
        r == (age < CACHE_TTL),
{
    age < CACHE_TTL
}

/// The arguments that make the extractor describe one video.
pub open spec fn extractor_texts(video_id: Seq<char>) -> Seq<Seq<char>> {
    seq![
        "--quiet"@,
        "--no-warnings"@,
        "--no-playlist"@,
        "--dump-single-json"@,
        "--format"@,
        FORMAT_SELECTOR@,
        "https://www.youtube.com/watch?v="@ + video_id,
    ]
}

/// Lists the arguments that make the extractor describe one video.
pub fn extractor_arguments(video_id: &str) -> (r: Vec<String>)
    ensures
        texts(r@) == extractor_texts(video_id@),
{
    let mut arguments: Vec<String> = Vec::new();
    push_text(&mut arguments, "--quiet");
    push_text(&mut arguments, "--no-warnings");
    push_text(&mut arguments, "--no-playlist");
    push_text(&mut arguments, "--dump-single-json");
    push_text(&mut arguments, "--format");
    push_text(&mut arguments, FORMAT_SELECTOR);
    let mut address: String = "https://www.youtube.com/watch?v=".to_owned();
    address.append(video_id);
    push_text(&mut arguments, address.as_str());
    assert(texts(arguments@) =~= extractor_texts(video_id@));
    arguments
}

/// Why a video could not be resolved.
#[derive(Debug, Clone, PartialEq, Eq)]
pub enum ResolveError {
    /// The extractor itself could not be obtained or started.
    Unavailable(String),
    /// The extractor ran but could not produce stream information.
    Extraction(String),
    /// The video has no format carrying both audio and video.
    NoFormat,
}

/// The status and text that a failure is answered with.
pub open spec fn failure_response(error: ResolveError) -> (u16, Seq<char>) {
    match error {
        ResolveError::Unavailable(detail) => (
            503,
            "YouTube support is unavailable: "@ + detail@,
        ),
        ResolveError::Extraction(detail) => (502, "Failed to get video info: "@ + detail@),
        ResolveError::NoFormat => (404, "No suitable video format found"@),
    }
}

fn prefixed(prefix: &str, detail: &str) -> (r: String)
    ensures
        r@ == prefix@ + detail@,
{
    let mut text: String = prefix.to_owned();
    text.append(detail);
    text
}

impl ResolveError {
    /// The HTTP status and text that this failure is answered with.
    pub fn into_response(self) -> (r: (u16, String))
        ensures
            (r.0, r.1@) == failure_response(self),
    {
        match self {
            ResolveError::Unavailable(detail) => (
                503,
                prefixed("YouTube support is unavailable: ", detail.as_str()),
            ),
            ResolveError::Extraction(detail) => (
                502,
                prefixed("Failed to get video info: ", detail.as_str()),
            ),
            ResolveError::NoFormat => (404, "No suitable video format found".to_owned()),
        }
    }
}

/// What the extractor reports of a video. The selected format is flattened
/// onto the top level; the duration is in whole milliseconds.
#[derive(Debug, Clone, PartialEq, Eq)]
pub struct YtDlpInfo {
    pub url: Option<String>,
    pub format_id: Option<String>,
    pub ext: Option<String>,
    pub height: Option<u32>,
    pub format_note: Option<String>,
    pub vcodec: Option<String>,
    pub acodec: Option<String>,
    pub duration_ms: Option<u64>,
    pub protocol: Option<String>,
    pub is_live: Option<bool>,
}

/// A stream that a player can open.
#[derive(Debug, Clone, PartialEq, Eq)]
pub struct ResolvedStream {
    pub url: String,
    pub itag: Option<u64>,
    pub quality: String,
    pub container: String,
    pub mime_type: String,
    pub has_video: bool,
    pub has_audio: bool,
    pub is_live: bool,
    pub is_hls: bool,
    pub is_dash: bool,
    pub duration_ms: Option<u64>,
}

/// What a resolved stream stands for.
pub struct StreamView {
    pub url: Seq<char>,
    pub itag: Option<u64>,
    pub quality: Seq<char>,
    pub container: Seq<char>,
    pub mime_type: Seq<char>,
    pub has_video: bool,
    pub has_audio: bool,
    pub is_live: bool,
    pub is_hls: bool,
    pub is_dash: bool,
    pub duration_ms: Option<u64>,
}

impl View for ResolvedStream {
    type V = StreamView;

    open spec fn view(&self) -> StreamView {
        StreamView {
            url: self.url@,
            itag: self.itag,
            quality: self.quality@,
            container: self.container@,
            mime_type: self.mime_type@,
            has_video: self.has_video,
            has_audio: self.has_audio,
            is_live: self.is_live,
            is_hls: self.is_hls,
            is_dash: self.is_dash,
            duration_ms: self.duration_ms,
        }
    }
}

/// The quality label: the note where there is one, else the height, else
/// `unknown`.
pub open spec fn quality_text(note: Option<Seq<char>>, height: Option<u32>) -> Seq<char> {
    match (note, height) {
        (Some(note), _) if note.len() > 0 => note,
        (_, Some(height)) => decimal(height as nat) + "p"@,
        _ => "unknown"@,
    }
}

/// The stream that the extractor's report describes. Without an address, or
/// without both tracks, there is none.
pub open spec fn described_stream(info: YtDlpInfo) -> Option<StreamView> {
    if info.url is None || !codec_present(string_chars(info.vcodec)) || !codec_present(
        string_chars(info.acodec),
    ) {
        None
    } else {
        let container = match info.ext {
            Some(ext) => ext@,
            None => "mp4"@,
        };
        let protocol = match info.protocol {
            Some(protocol) => protocol@,
            None => Seq::empty(),
        };
        Some(
            StreamView {
                url: info.url->0@,
                itag: match info.format_id {
                    Some(id) => parsed_u64(id@),
                    None => None,
                },
                quality: quality_text(string_chars(info.format_note), info.height),
                container,
                mime_type: mime_text(
                    container,
                    string_chars(info.vcodec),
                    string_chars(info.acodec),
                ),
                has_video: true,
                has_audio: true,
                is_live: info.is_live == Some(true),
                is_hls: occurs_in(protocol, "m3u8"@),
                is_dash: occurs_in(protocol, "dash"@),
                duration_ms: info.duration_ms,
            },
        )
    }
}

fn optional_str(text: &Option<String>) -> (r: Option<&str>)
    ensures
        str_chars(r) == string_chars(*text),
{
    match text {
        Some(text) => Some(text.as_str()),
        None => None,
    }
}

fn quality_of(note: Option<String>, height: Option<u32>) -> (r: String)
    ensures
        r@ == quality_text(string_chars(note), height),
{
    if let Some(note) = note {
        if !note.as_str().is_empty() {
            return note;
        }
    }
    match height {
        Some(height) => {
            let mut label: String = decimal_text(height as u64);
            label.append("p");
            label
        },
        None => "unknown".to_owned(),
    }
}

impl ResolvedStream {
    /// Reads the extractor's report. A stream without sound or without picture
    /// is no answer.
    pub fn from_info(info: YtDlpInfo) -> (r: Option<ResolvedStream>)
        ensures
            match r {
                Some(stream) => described_stream(info) == Some(stream@),
                None => described_stream(info) is None,
            },
    {
        let url: String = match info.url {
            Some(url) => url,
            None => return None,
        };
        let has_video: bool = is_present(optional_str(&info.vcodec));
        let has_audio: bool = is_present(optional_str(&info.acodec));
        if !has_video || !has_audio {
            return None;
        }
        let container: String = match info.ext {
            Some(ext) => ext,
            None => "mp4".to_owned(),
        };
        let protocol: String = match info.protocol {
            Some(protocol) => protocol,
            None => String::new(),
        };
        let itag: Option<u64> = match &info.format_id {
            Some(id) => parse_u64(id.as_str()),
            None => None,
        };
        let mime_type: String = mime_type(
            container.as_str(),
            optional_str(&info.vcodec),
            optional_str(&info.acodec),
        );
        let quality: String = quality_of(info.format_note, info.height);
        let is_live: bool = match info.is_live {
            Some(is_live) => is_live,
            None => false,
        };
        let is_hls: bool = contains_text(protocol.as_str(), "m3u8");
        let is_dash: bool = contains_text(protocol.as_str(), "dash");
        Some(
            ResolvedStream {
                url,
                itag,
                quality,
                container,
                mime_type,
                has_video,
                has_audio,
                is_live,
                is_hls,
                is_dash,
                duration_ms: info.duration_ms,
            },
        )
    }
}

/// An optional number as a JSON member.
pub open spec fn number_or_null(number: Option<u64>) -> JsonScalar {
    match number {
        Some(number) => JsonScalar::Number(number),
        None => JsonScalar::Null,
    }
}

/// The description of a stream, by member name. The duration is a numeral in
/// text, as callers of the description expect it.
pub open spec fn stream_members(stream: StreamView) -> Map<Seq<char>, JsonScalar> {
    map![
        "url"@ => JsonScalar::Text(stream.url),
        "itag"@ => number_or_null(stream.itag),
        "quality"@ => JsonScalar::Text(stream.quality),
        "container"@ => JsonScalar::Text(stream.container),
        "hasVideo"@ => JsonScalar::Bool(stream.has_video),
        "hasAudio"@ => JsonScalar::Bool(stream.has_audio),
        "isLive"@ => JsonScalar::Bool(stream.is_live),
        "isHLS"@ => JsonScalar::Bool(stream.is_hls),
        "isDashMPD"@ => JsonScalar::Bool(stream.is_dash),
        "approxDurationMs"@ => match stream.duration_ms {
            Some(ms) => JsonScalar::Text(decimal(ms as nat)),
            None => JsonScalar::Null,
        },
        "mimeType"@ => JsonScalar::Text(stream.mime_type),
    ]
}

impl ResolvedStream {
    /// Describes the stream as a JSON object.
    pub fn to_json(&self) -> (r: serde_json::Map<String, Value>)
        ensures
            json_members(r) == stream_members(self@),
    {
        let mut object: serde_json::Map<String, Value> = empty_object();
        put_member(&mut object, "url", JsonField::Text(self.url.clone()));
        let itag: JsonField = match self.itag {
            Some(itag) => JsonField::Number(itag),
            None => JsonField::Null,
        };
        put_member(&mut object, "itag", itag);
        put_member(&mut object, "quality", JsonField::Text(self.quality.clone()));
        put_member(&mut object, "container", JsonField::Text(self.container.clone()));
        put_member(&mut object, "hasVideo", JsonField::Bool(self.has_video));
        put_member(&mut object, "hasAudio", JsonField::Bool(self.has_audio));
        put_member(&mut object, "isLive", JsonField::Bool(self.is_live));
        put_member(&mut object, "isHLS", JsonField::Bool(self.is_hls));
        put_member(&mut object, "isDashMPD", JsonField::Bool(self.is_dash));
        let duration: JsonField = match self.duration_ms {
            Some(ms) => JsonField::Text(decimal_text(ms)),
            None => JsonField::Null,
        };
        put_member(&mut object, "approxDurationMs", duration);
        put_member(&mut object, "mimeType", JsonField::Text(self.mime_type.clone()));
        object
    }
}

/// How an attempt to describe a video with the extractor went.
#[derive(Debug, Clone, PartialEq, Eq)]
pub enum ExtractorRun {
    /// No extractor could be obtained.
    Missing { error: String },
    /// The extractor could not be started.
    NotStarted { error: String },
    /// The extractor gave up, with this on its error output.
    Failed { stderr: Vec<u8> },
    /// The extractor's output was no report.
    Unreadable { error: String },
    /// The extractor reported this.
    Reported { info: YtDlpInfo },
}

/// The failure that an extractor run ends in, if it does.
pub open spec fn run_failure(run: ExtractorRun) -> Option<(u16, Seq<char>)> {
    match run {
        ExtractorRun::Missing { error } => Some(
            (503, "YouTube support is unavailable: "@ + error@),
        ),
        ExtractorRun::NotStarted { error } => Some(
            (503, "YouTube support is unavailable: "@ + ("could not run yt-dlp: "@ + error@)),
        ),
        ExtractorRun::Failed { stderr } => Some(
            (502, "Failed to get video info: "@ + trimmed(lossy_utf8(stderr@))),
        ),
        ExtractorRun::Unreadable { error } => Some(
            (502, "Failed to get video info: "@ + ("could not parse yt-dlp output: "@ + error@)),
        ),
        ExtractorRun::Reported { info } => if described_stream(info) is None {
            Some((404, "No suitable video format found"@))
        } else {
            None
        },
    }
}

/// The stream that an extractor run gives, if it does.
pub open spec fn run_stream(run: ExtractorRun) -> Option<StreamView> {
    match run {
        ExtractorRun::Reported { info } => described_stream(info),
        _ => None,
    }
}

/// Turns an extractor run into a stream or the failure to answer with.
pub fn resolve(run: ExtractorRun) -> (r: Result<ResolvedStream, ResolveError>)
    ensures
        match r {
            Ok(stream) => run_failure(run) is None && run_stream(run) == Some(stream@),
            Err(error) => run_failure(run) == Some(failure_response(error)),
        },
{
    match run {
        ExtractorRun::Missing { error } => Err(ResolveError::Unavailable(error)),
        ExtractorRun::NotStarted { error } => Err(
            ResolveError::Unavailable(prefixed("could not run yt-dlp: ", error.as_str())),
        ),
        ExtractorRun::Failed { stderr } => {
            let detail: String = decode_lossy(&stderr);
            Err(ResolveError::Extraction(detail.as_str().trim().to_owned()))
        },
        ExtractorRun::Unreadable { error } => Err(
            ResolveError::Extraction(prefixed("could not parse yt-dlp output: ", error.as_str())),
        ),
        ExtractorRun::Reported { info } => match ResolvedStream::from_info(info) {
            Some(stream) => Ok(stream),
            None => Err(ResolveError::NoFormat),
        },
    }
}

/// What a request is answered with once its video was resolved.
#[derive(Debug)]
pub enum VideoReply {
    Describe(serde_json::Map<String, Value>),
    RedirectTo(String),
}

/// Answers a resolved request: a description, or a redirect to the stream.
pub fn video_reply(stream: &ResolvedStream, as_json: bool) -> (r: VideoReply)
    ensures
        match r {
            VideoReply::Describe(object) => as_json && json_members(object) == stream_members(
                stream@,
            ),
            VideoReply::RedirectTo(url) => !as_json && url@ == stream@.url,
        },
{
    if as_json {
        VideoReply::Describe(stream.to_json())
    } else {
        VideoReply::RedirectTo(stream.url.clone())
    }
}

/// Whatever the extractor reports, a resolved stream carries both picture and
/// sound.
pub proof fn law_resolved_stream_has_both_tracks(info: YtDlpInfo)
    requires
        described_stream(info) is Some,
    ensures
        (described_stream(info)->0).has_video,
        (described_stream(info)->0).has_audio,
        codec_present(string_chars(info.vcodec)),
        codec_present(string_chars(info.acodec)),
{
}

/// No video ID can be taken for an option or carry anything but URL-safe
/// characters into the extractor's arguments: the one argument that holds it
/// starts with the address of the site.
pub proof fn law_video_id_stays_in_address(path: Seq<char>)
    requires
        is_id_text(requested_id(path)),
    ensures
        extractor_texts(requested_id(path)).len() == 7,
        extractor_texts(requested_id(path))[6] == "https://www.youtube.com/watch?v="@
            + requested_id(path),
        forall|i: int|
            0 <= i < requested_id(path).len() ==> is_id_char(#[trigger] requested_id(path)[i]),
{
}

/// A video ID is eleven characters, each a letter, a digit, a dash or an
/// underscore, and every such text is one.
pub proof fn law_video_ids_are_eleven_safe_characters(id: Seq<char>, i: int)
    requires
        0 <= i < id.len(),
    ensures
        id.len() != 11 ==> !is_id_text(id),
        is_id_text(id) ==> ('a' <= id[i] <= 'z') || ('A' <= id[i] <= 'Z') || ('0' <= id[i] <= '9')
            || id[i] == '-' || id[i] == '_',
        id.len() == 11 && (forall|k: int|
            0 <= k < 11 ==> {
                let c = #[trigger] id[k];
                ('a' <= c <= 'z') || ('A' <= c <= 'Z') || ('0' <= c <= '9') || c == '-' || c == '_'
            }) ==> is_id_text(id),
{
    if is_id_text(id) {
        assert(is_id_char(id[i]));
    }
}

/// A request path names a video with or without `.json` behind it: the ending is
/// cut where it is, and nothing else is.
pub proof fn law_json_ending_is_cut(id: Seq<char>, path: Seq<char>)
    ensures
        requested_id(id + ".json"@) == id,
        !ends_with(path, ".json"@) ==> requested_id(path) == path,
        ends_with(path, ".json"@) ==> requested_id(path) + ".json"@ == path,
{
    law_suffix_is_the_end(id, ".json"@, path);
    assert((id + ".json"@).take(id.len() as int) =~= id);
}

/// The extractor is asked for one video in one report, in a format that carries
/// both tracks, and quietly.
pub proof fn law_extractor_is_asked_for_one_video(video_id: Seq<char>)
    ensures
        ({
            let arguments = extractor_texts(video_id);
            &&& arguments.len() == 7
            &&& arguments[0] == "--quiet"@
            &&& arguments[1] == "--no-warnings"@
            &&& arguments[2] == "--no-playlist"@
            &&& arguments[3] == "--dump-single-json"@
            &&& arguments[4] == "--format"@
            &&& arguments[5]
                == "b[ext=mp4][vcodec!=none][acodec!=none]/b[vcodec!=none][acodec!=none]"@
            &&& arguments[6] == "https://www.youtube.com/watch?v="@ + video_id
        }),
{
}

/// A report gives a stream exactly where it has an address and names both a video
/// and an audio codec. No codec is named by nothing, by an empty text or by
/// `none`.
pub proof fn law_report_needs_address_and_both_codecs(info: YtDlpInfo)
    ensures
        described_stream(info) is Some <==> {
            &&& info.url is Some
            &&& info.vcodec matches Some(video) && video@.len() > 0 && video@ != "none"@
            &&& info.acodec matches Some(audio) && audio@.len() > 0 && audio@ != "none"@
        },
{
}

/// A stream is what the report says: its address, its format number, its
/// container, its length, and whether it is live. It is marked live exactly where
/// it was reported so, HLS and DASH exactly where its protocol says so.
pub proof fn law_stream_is_what_was_reported(info: YtDlpInfo)
    requires
        described_stream(info) is Some,
    ensures
        ({
            let stream = described_stream(info)->0;
            &&& info.url matches Some(url) && stream.url == url@
            &&& info.format_id matches Some(id) ==> stream.itag == parsed_u64(id@)
            &&& info.format_id is None ==> stream.itag is None
            &&& info.ext matches Some(ext) ==> stream.container == ext@
            &&& info.ext is None ==> stream.container == "mp4"@
            &&& stream.duration_ms == info.duration_ms
            &&& info.is_live == Some(true) ==> stream.is_live
            &&& info.is_live != Some(true) ==> !stream.is_live
            &&& info.protocol matches Some(protocol) ==> (stream.is_hls <==> occurs_in(
                protocol@,
                "m3u8"@,
            )) && (stream.is_dash <==> occurs_in(protocol@, "dash"@))
            &&& info.protocol is None ==> !stream.is_hls && !stream.is_dash
            &&& stream.has_video && stream.has_audio
        }),
{
    reveal_strlit("m3u8");
    reveal_strlit("dash");
}

/// The quality label is the note where there is one, else the height, else that
/// it is unknown.
pub proof fn law_quality_is_note_or_height(info: YtDlpInfo)
    requires
        described_stream(info) is Some,
    ensures
        ({
            let quality = (described_stream(info)->0).quality;
            let noted = info.format_note is Some && info.format_note->0@.len() > 0;
            &&& noted ==> quality == info.format_note->0@
            &&& !noted && info.height is Some ==> quality == decimal(info.height->0 as nat) + "p"@
            &&& !noted && info.height is None ==> quality == "unknown"@
        }),
{
}

/// The media type of a stream tells its container, mp4 where that is another one,
/// and both of its codecs.
pub proof fn law_media_type_tells_container_and_codecs(info: YtDlpInfo)
    requires
        described_stream(info) is Some,
    ensures
        ({
            let stream = described_stream(info)->0;
            let base = if stream.container == "webm"@ {
                "video/webm"@
            } else if stream.container == "3gp"@ {
                "video/3gpp"@
            } else {
                "video/mp4"@
            };
            stream.mime_type == base + "; codecs=\""@ + (info.vcodec->0@ + ", "@ + info.acodec->0@)
                + "\""@
        }),
{
}

/// Codecs that are missing are left out of a media type, and with them, where
/// both are missing, the list.
pub proof fn law_missing_codecs_are_left_out(
    container: Seq<char>,
    codec: Seq<char>,
    missing: Option<Seq<char>>,
)
    requires
        codec.len() > 0,
        codec != "none"@,
        missing is None || missing == Some(Seq::<char>::empty()) || missing == Some("none"@),
    ensures
        mime_text(container, missing, missing) == container_type(container),
        mime_text(container, Some(codec), missing) == container_type(container) + "; codecs=\""@
            + codec + "\""@,
        mime_text(container, missing, Some(codec)) == container_type(container) + "; codecs=\""@
            + codec + "\""@,
        container_type("webm"@) == "video/webm"@,
        container_type("3gp"@) == "video/3gpp"@,
        container != "webm"@ && container != "3gp"@ ==> container_type(container) == "video/mp4"@,
{
    reveal_strlit("webm");
    reveal_strlit("3gp");
    assert("webm"@.len() != "3gp"@.len());
}

/// The description of a stream has every one of its parts under its name, and
/// nothing more. What is not known is null, and the length is a numeral in text.
pub proof fn law_description_has_every_part(stream: StreamView, name: Seq<char>)
    ensures
        ({
            let members = stream_members(stream);
            &&& members.contains_key("url"@) && members["url"@] == JsonScalar::Text(stream.url)
            &&& members.contains_key("itag"@)
            &&& stream.itag matches Some(itag) ==> members["itag"@] == JsonScalar::Number(itag)
            &&& stream.itag is None ==> members["itag"@] == JsonScalar::Null
            &&& members.contains_key("quality"@) && members["quality"@] == JsonScalar::Text(
                stream.quality,
            )
            &&& members.contains_key("container"@) && members["container"@] == JsonScalar::Text(
                stream.container,
            )
            &&& members.contains_key("hasVideo"@) && members["hasVideo"@] == JsonScalar::Bool(
                stream.has_video,
            )
            &&& members.contains_key("hasAudio"@) && members["hasAudio"@] == JsonScalar::Bool(
                stream.has_audio,
            )
            &&& members.contains_key("isLive"@) && members["isLive"@] == JsonScalar::Bool(
                stream.is_live,
            )
            &&& members.contains_key("isHLS"@) && members["isHLS"@] == JsonScalar::Bool(
                stream.is_hls,
            )
            &&& members.contains_key("isDashMPD"@) && members["isDashMPD"@] == JsonScalar::Bool(
                stream.is_dash,
            )
            &&& members.contains_key("approxDurationMs"@)
            &&& stream.duration_ms matches Some(ms) ==> members["approxDurationMs"@]
                == JsonScalar::Text(decimal(ms as nat))
            &&& stream.duration_ms is None ==> members["approxDurationMs"@] == JsonScalar::Null
            &&& members.contains_key("mimeType"@) && members["mimeType"@] == JsonScalar::Text(
                stream.mime_type,
            )
            &&& members.contains_key(name) ==> name == "url"@ || name == "itag"@ || name
                == "quality"@ || name == "container"@ || name == "hasVideo"@ || name == "hasAudio"@
                || name == "isLive"@ || name == "isHLS"@ || name == "isDashMPD"@ || name
                == "approxDurationMs"@ || name == "mimeType"@
        }),
{
    reveal_strlit("url");
    reveal_strlit("itag");
    reveal_strlit("quality");
    reveal_strlit("container");
    reveal_strlit("hasVideo");
    reveal_strlit("hasAudio");
    reveal_strlit("isLive");
    reveal_strlit("isHLS");
    reveal_strlit("isDashMPD");
    reveal_strlit("approxDurationMs");
    reveal_strlit("mimeType");
    assert("url"@.len() == 3);
    assert("itag"@.len() == 4);
    assert("quality"@.len() == 7);
    assert("container"@.len() == 9);
    assert("hasVideo"@.len() == 8);
    assert("hasAudio"@.len() == 8);
    assert("isLive"@.len() == 6);
    assert("isHLS"@.len() == 5);
    assert("isDashMPD"@.len() == 9);
    assert("approxDurationMs"@.len() == 16);
    assert("mimeType"@.len() == 8);
    assert("container"@[0] == 'c' && "isDashMPD"@[0] == 'i');
    assert("hasVideo"@[3] == 'V' && "hasAudio"@[3] == 'A');
    assert("mimeType"@[0] == 'm' && "hasVideo"@[0] == 'h' && "hasAudio"@[0] == 'h');
}

/// A live broadcast is described as live, and nothing else is.
pub proof fn law_description_marks_live_broadcasts(info: YtDlpInfo)
    requires
        described_stream(info) is Some,
    ensures
        stream_members(described_stream(info)->0)["isLive"@] == JsonScalar::Bool(
            info.is_live == Some(true),
        ),
{
    law_description_has_every_part(described_stream(info)->0, "isLive"@);
}

/// What a stream shows is what it holds.
pub proof fn law_stream_view_shows_the_stream(stream: ResolvedStream)
    ensures
        stream@.url == stream.url@,
        stream@.itag == stream.itag,
        stream@.quality == stream.quality@,
        stream@.container == stream.container@,
        stream@.mime_type == stream.mime_type@,
        stream@.has_video == stream.has_video,
        stream@.has_audio == stream.has_audio,
        stream@.is_live == stream.is_live,
        stream@.is_hls == stream.is_hls,
        stream@.is_dash == stream.is_dash,
        stream@.duration_ms == stream.duration_ms,
{
}

/// A failure is answered by what failed: the extractor that is not there, the
/// extraction, or a video without a playable format. The answer carries the
/// detail, cut to its text where the extractor wrote it.
pub proof fn law_failures_are_answered_in_kind(
    detail: String,
    stderr: Vec<u8>,
    info: YtDlpInfo,
)
    ensures
        failure_response(ResolveError::Unavailable(detail)) == (
            503u16,
            "YouTube support is unavailable: "@ + detail@,
        ),
        failure_response(ResolveError::Extraction(detail)) == (
            502u16,
            "Failed to get video info: "@ + detail@,
        ),
        failure_response(ResolveError::NoFormat) == (404u16, "No suitable video format found"@),
        run_failure(ExtractorRun::Missing { error: detail }) == Some(
            (503u16, "YouTube support is unavailable: "@ + detail@),
        ),
        run_failure(ExtractorRun::NotStarted { error: detail }) == Some(
            (503u16, "YouTube support is unavailable: "@ + ("could not run yt-dlp: "@ + detail@)),
        ),
        run_failure(ExtractorRun::Failed { stderr }) == Some(
            (502u16, "Failed to get video info: "@ + trimmed(lossy_utf8(stderr@))),
        ),
        run_failure(ExtractorRun::Unreadable { error: detail }) == Some(
            (
                502u16,
                "Failed to get video info: "@ + ("could not parse yt-dlp output: "@ + detail@),
            ),
        ),
        run_failure(ExtractorRun::Reported { info }) is None <==> described_stream(info) is Some,
        described_stream(info) is None ==> run_failure(ExtractorRun::Reported { info }) == Some(
            (404u16, "No suitable video format found"@),
        ),
{
}

/// A run gives a stream exactly where it does not fail, and that of its report.
pub proof fn law_run_gives_stream_or_failure(run: ExtractorRun)
    ensures
        run_stream(run) is Some <==> run_failure(run) is None,
        run_stream(run) is Some ==> run is Reported,
        run matches ExtractorRun::Reported { info } ==> run_stream(run) == described_stream(info),
{
}

/// A path is a request exactly where it is a video ID, with or without the ending
/// that asks for a description.
pub proof fn law_video_is_requested_by_its_id(id: String, r: VideoRequest, plain: Seq<char>)
    requires
        call_ensures(youtube_handler, (id,), r),
        plain.len() == 11,
        forall|i: int|
            0 <= i < plain.len() ==> ('0' <= #[trigger] plain[i] <= '9' || 'a' <= plain[i] <= 'z'
                || 'A' <= plain[i] <= 'Z' || plain[i] == '-' || plain[i] == '_'),
    ensures
        id@ == plain + ".json"@ ==> r is Valid && r->video_id@ == plain && r->as_json,
        id@ == plain ==> r is Valid && r->video_id@ == plain && !r->as_json,
        r is Valid ==> r->video_id@.len() == 11 && (id@ == r->video_id@ || id@ == r->video_id@
            + ".json"@),
{
    reveal_strlit(".json");
    if id@ == plain + ".json"@ {
        law_json_ending_is_cut(plain, id@);
    }
    if id@ == plain {
        assert(!ends_with(id@, ".json"@)) by {
            if ends_with(id@, ".json"@) {
                let tail = id@.subrange(id@.len() - ".json"@.len(), id@.len() as int);
                assert(tail[0] == '.');
                assert(tail[0] == plain[6]);
            }
        }
    }
    if r is Valid && ends_with(id@, ".json"@) {
        assert(id@ =~= requested_id(id@) + id@.subrange(
            id@.len() - ".json"@.len(),
            id@.len() as int,
        ));
    }
}

/// A report with an address and both codecs becomes a stream of that address; any
/// other report becomes none.
pub proof fn law_report_becomes_a_stream(info: YtDlpInfo, r: Option<ResolvedStream>)
    requires
        call_ensures(ResolvedStream::from_info, (info,), r),
    ensures
        r is Some <==> info.url is Some && codec_present(string_chars(info.vcodec))
            && codec_present(string_chars(info.acodec)),
        r matches Some(stream) ==> {
            &&& stream.url@ == info.url->0@
            &&& stream.is_live <==> info.is_live == Some(true)
            &&& stream.duration_ms == info.duration_ms
            &&& stream.has_video && stream.has_audio
            &&& info.ext matches Some(ext) ==> stream.container@ == ext@
            &&& info.ext is None ==> stream.container@ == "mp4"@
            &&& info.format_id is None ==> stream.itag is None
            &&& info.format_id matches Some(format) ==> stream.itag == parsed_u64(format@)
            &&& info.protocol is Some ==> (stream.is_hls <==> occurs_in(
                info.protocol->0@,
                "m3u8"@,
            )) && (stream.is_dash <==> occurs_in(info.protocol->0@, "dash"@))
            &&& info.format_note is Some && info.format_note->0@.len() > 0 ==> stream.quality@
                == info.format_note->0@
        },
{
    if described_stream(info) is Some {
        law_stream_is_what_was_reported(info);
    }
}

/// Whatever the extractor did is answered: a stream for a report of one, and for
/// each other outcome the failure of its kind.
pub proof fn law_run_is_answered(
    run: ExtractorRun,
    r: Result<ResolvedStream, ResolveError>,
    answer: (u16, String),
)
    requires
        call_ensures(resolve, (run,), r),
        r is Err ==> call_ensures(ResolveError::into_response, (r->Err_0,), answer),
    ensures
        run matches ExtractorRun::Missing { error } ==> r is Err && answer.0 == 503 && answer.1@
            == "YouTube support is unavailable: "@ + error@,
        run is NotStarted ==> r is Err && answer.0 == 503,
        run is Failed ==> r is Err && answer.0 == 502,
        run is Unreadable ==> r is Err && answer.0 == 502,
        run is Reported && r is Err ==> answer.0 == 404 && (run->info.url is None
            || !codec_present(string_chars(run->info.vcodec)) || !codec_present(
            string_chars(run->info.acodec),
        )),
        r is Ok ==> run is Reported && run->info.url is Some && r->Ok_0.url@ == run->info.url->0@,
{
    if run is Reported {
        law_report_needs_address_and_both_codecs(run->info);
        if described_stream(run->info) is Some {
            law_stream_is_what_was_reported(run->info);
        }
    }
}

/// A described stream tells its address and whether it is live; a redirect goes to
/// the address.
pub proof fn law_reply_leads_to_the_stream(
    stream: &ResolvedStream,
    as_json: bool,
    r: VideoReply,
    described: serde_json::Map<String, Value>,
)
    requires
        call_ensures(video_reply, (stream, as_json), r),
        call_ensures(ResolvedStream::to_json, (stream,), described),
    ensures
        as_json <==> r is Describe,
        r matches VideoReply::RedirectTo(url) ==> url@ == stream.url@,
        r matches VideoReply::Describe(object) ==> json_members(object) == json_members(described),
        json_members(described).contains_key("url"@),
        json_members(described)["url"@] == JsonScalar::Text(stream.url@),
        json_members(described).contains_key("isLive"@),
        json_members(described)["isLive"@] == JsonScalar::Bool(stream.is_live),
{
    law_description_has_every_part(stream@, "url"@);
}

/// A media type names the container, and the codecs that are there.
pub proof fn law_media_type_is_named(
    container: &str,
    vcodec: Option<&str>,
    acodec: Option<&str>,
    r: String,
    video: bool,
)
    requires
        call_ensures(mime_type, (container, vcodec, acodec), r),
        call_ensures(is_present, (vcodec,), video),
    ensures
        video <==> vcodec is Some && vcodec->0@.len() > 0 && vcodec->0@ != "none"@,
        vcodec is None && acodec is None && container@ == "webm"@ ==> r@ == "video/webm"@,
        vcodec is None && acodec is None && container@ == "3gp"@ && container@ != "webm"@ ==> r@
            == "video/3gpp"@,
        vcodec is None && acodec is None && container@ != "3gp"@ && container@ != "webm"@ ==> r@
            == "video/mp4"@,
        video && acodec is None && container@ != "3gp"@ && container@ != "webm"@ ==> r@
            == "video/mp4"@ + "; codecs=\""@ + vcodec->0@ + "\""@,
{
}

/// The extractor is asked for one video, by its address; a stream is served for
/// thirty minutes; and a path that is no video is a bad request.
pub proof fn law_extractor_gets_the_address(
    video_id: &str,
    arguments: Vec<String>,
    age: u64,
    served: bool,
    refusal: (u16, String),
    is_id: bool,
)
    requires
        call_ensures(extractor_arguments, (video_id,), arguments),
        call_ensures(cache_serves, (age,), served),
        call_ensures(invalid_id_response, (), refusal),
        call_ensures(is_video_id, (video_id,), is_id),
    ensures
        arguments@.len() == 7,
        arguments@[2]@ == "--no-playlist"@,
        arguments@[3]@ == "--dump-single-json"@,
        arguments@[4]@ == "--format"@,
        arguments@[6]@ == "https://www.youtube.com/watch?v="@ + video_id@,
        served <==> age < 1_800_000_000_000,
        refusal.0 == 400,
        refusal.1@ == "Invalid YouTube ID"@,
        is_id ==> video_id@.len() == 11,
        is_id <==> is_id_text(video_id@),
{
    let given = texts(arguments@);
    law_extractor_is_asked_for_one_video(video_id@);
    assert(given.len() == arguments@.len());
    assert(given[2] == arguments@[2]@);
    assert(given[3] == arguments@[3]@);
    assert(given[4] == arguments@[4]@);
    assert(given[6] == arguments@[6]@);
}

} // verus!
