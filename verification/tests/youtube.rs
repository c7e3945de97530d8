use serde_json::Value;
use torrent_playback::stream_cache::{ResolveStart, StreamCache};
use torrent_playback::youtube::{
    cache_serves, extractor_arguments, invalid_id_response, is_present, is_video_id, mime_type,
    resolve, video_reply, youtube_handler, ExtractorRun, ResolveError, ResolvedStream, VideoReply,
    VideoRequest, YtDlpInfo, CACHE_TTL, FORMAT_SELECTOR,
};

fn milliseconds(seconds: f64) -> u64 {
    (seconds * 1000.0) as u64
}

fn progressive() -> YtDlpInfo {
    YtDlpInfo {
        url: Some("https://example.com/video.mp4".to_owned()),
        format_id: Some("18".to_owned()),
        ext: Some("mp4".to_owned()),
        height: Some(360),
        format_note: None,
        vcodec: Some("avc1.42001E".to_owned()),
        acodec: Some("mp4a.40.2".to_owned()),
        duration_ms: Some(157.0).map(milliseconds),
        protocol: Some("https".to_owned()),
        is_live: Some(false),
    }
}

#[test]
fn video_ids_are_validated() {
    assert!(is_video_id("P3uI5sLosKU"));
    assert!(is_video_id("rt-2cxAiPJ_"));
    assert!(!is_video_id("short"));
    assert!(!is_video_id("P3uI5sLosKU_toolong"));
    assert!(!is_video_id("--help; rm -"));
}

#[test]
fn a_progressive_format_resolves() {
    let stream = ResolvedStream::from_info(YtDlpInfo {
        url: Some("https://example.com/video.mp4".to_owned()),
        format_id: Some("18".to_owned()),
        ext: Some("mp4".to_owned()),
        height: Some(360),
        format_note: None,
        vcodec: Some("avc1.42001E".to_owned()),
        acodec: Some("mp4a.40.2".to_owned()),
        duration_ms: Some(157.0).map(milliseconds),
        protocol: Some("https".to_owned()),
        is_live: Some(false),
    })
    .expect("a progressive format should resolve");

    assert_eq!(stream.itag, Some(18));
    assert_eq!(stream.quality, "360p");
    assert_eq!(stream.duration_ms, Some(157_000));
    assert_eq!(
        stream.mime_type,
        "video/mp4; codecs=\"avc1.42001E, mp4a.40.2\""
    );
    assert!(!stream.is_hls && !stream.is_dash);
}

#[test]
fn a_video_only_format_is_rejected() {
    // Handing an adaptive stream back would give the caller silent video.
    let stream = ResolvedStream::from_info(YtDlpInfo {
        url: Some("https://example.com/video.mp4".to_owned()),
        format_id: Some("137".to_owned()),
        ext: Some("mp4".to_owned()),
        height: Some(1080),
        format_note: None,
        vcodec: Some("avc1.640028".to_owned()),
        acodec: Some("none".to_owned()),
        duration_ms: Some(157.0).map(milliseconds),
        protocol: Some("https".to_owned()),
        is_live: Some(false),
    });

    assert!(stream.is_none());
}

#[test]
fn ids_of_the_right_length_need_the_right_characters() {
    assert!(!is_video_id("P3uI5sLos U"));
    assert!(!is_video_id("P3uI5sLos\u{e9}"));
    assert!(!is_video_id(""));
    assert!(is_video_id("-----------"));
}

#[test]
fn a_stream_without_address_is_none() {
    let mut info = progressive();
    info.url = None;
    assert!(ResolvedStream::from_info(info).is_none());
}

#[test]
fn labels_fall_back_step_by_step() {
    let mut info = progressive();
    info.format_note = Some("720p60".to_owned());
    assert_eq!(ResolvedStream::from_info(info).unwrap().quality, "720p60");

    let mut info = progressive();
    info.format_note = Some(String::new());
    assert_eq!(ResolvedStream::from_info(info).unwrap().quality, "360p");

    let mut info = progressive();
    info.height = None;
    info.ext = None;
    info.is_live = None;
    info.format_id = Some("hls-18".to_owned());
    info.protocol = Some("m3u8_native".to_owned());
    let stream = ResolvedStream::from_info(info).unwrap();
    assert_eq!(stream.quality, "unknown");
    assert_eq!(stream.container, "mp4");
    assert_eq!(stream.itag, None);
    assert!(!stream.is_live && stream.is_hls && !stream.is_dash);

    let mut info = progressive();
    info.protocol = Some("http_dash_segments".to_owned());
    assert!(ResolvedStream::from_info(info).unwrap().is_dash);
}

#[test]
fn numerals_are_read_like_unsigned_integers() {
    for (text, expected) in [
        ("+18", Some(18)),
        ("018", Some(18)),
        ("18446744073709551615", Some(u64::MAX)),
        ("18446744073709551616", None),
        ("-1", None),
        ("+", None),
        ("", None),
        ("1 8", None),
    ] {
        assert_eq!(text.parse::<u64>().ok(), expected);
        let mut info = progressive();
        info.format_id = Some(text.to_owned());
        assert_eq!(ResolvedStream::from_info(info).unwrap().itag, expected);
    }
}

#[test]
fn media_types_name_the_tracks_that_are_there() {
    assert_eq!(mime_type("webm", Some("vp9"), None), "video/webm; codecs=\"vp9\"");
    assert_eq!(mime_type("3gp", Some("none"), Some("aac")), "video/3gpp; codecs=\"aac\"");
    assert_eq!(mime_type("mkv", None, Some("")), "video/mp4");
    assert!(is_present(Some("vp9")));
    assert!(!is_present(Some("none")));
    assert!(!is_present(Some("")));
    assert!(!is_present(None));
}

#[test]
fn request_paths_are_taken_apart() {
    assert_eq!(
        youtube_handler("P3uI5sLosKU".to_owned()),
        VideoRequest::Valid { video_id: "P3uI5sLosKU".to_owned(), as_json: false }
    );
    assert_eq!(
        youtube_handler("P3uI5sLosKU.json".to_owned()),
        VideoRequest::Valid { video_id: "P3uI5sLosKU".to_owned(), as_json: true }
    );
    assert_eq!(youtube_handler(".json".to_owned()), VideoRequest::Invalid);
    assert_eq!(youtube_handler("P3uI5sLosKU.json.json".to_owned()), VideoRequest::Invalid);
}

#[test]
fn the_video_id_only_ends_the_address() {
    let arguments = extractor_arguments("--version00");
    assert_eq!(
        arguments,
        vec![
            "--quiet",
            "--no-warnings",
            "--no-playlist",
            "--dump-single-json",
            "--format",
            FORMAT_SELECTOR,
            "https://www.youtube.com/watch?v=--version00",
        ]
    );
}

#[test]
fn extractor_runs_end_in_a_stream_or_an_answer() {
    let missing = resolve(ExtractorRun::Missing { error: "no network".to_owned() });
    assert_eq!(
        missing.unwrap_err().into_response(),
        (503, "YouTube support is unavailable: no network".to_owned())
    );
    let not_started = resolve(ExtractorRun::NotStarted { error: "denied".to_owned() });
    assert_eq!(
        not_started.unwrap_err().into_response(),
        (503, "YouTube support is unavailable: could not run yt-dlp: denied".to_owned())
    );
    let failed = resolve(ExtractorRun::Failed { stderr: b" \n ERROR: private \xff\t\n".to_vec() });
    assert_eq!(
        failed.unwrap_err().into_response(),
        (502, "Failed to get video info: ERROR: private \u{fffd}".to_owned())
    );
    let unreadable = resolve(ExtractorRun::Unreadable { error: "eof".to_owned() });
    assert_eq!(
        unreadable.unwrap_err().into_response(),
        (502, "Failed to get video info: could not parse yt-dlp output: eof".to_owned())
    );
    let mut silent = progressive();
    silent.acodec = None;
    let no_format = resolve(ExtractorRun::Reported { info: silent });
    assert_eq!(no_format.clone().unwrap_err(), ResolveError::NoFormat);
    assert_eq!(
        no_format.unwrap_err().into_response(),
        (404, "No suitable video format found".to_owned())
    );
    let stream = resolve(ExtractorRun::Reported { info: progressive() }).unwrap();
    assert_eq!(stream.url, "https://example.com/video.mp4");
    assert!(stream.has_video && stream.has_audio);
}

#[test]
fn replies_describe_or_redirect() {
    let stream = ResolvedStream::from_info(progressive()).unwrap();
    match video_reply(&stream, false) {
        VideoReply::RedirectTo(url) => assert_eq!(url, "https://example.com/video.mp4"),
        other => panic!("{other:?}"),
    }
    let object = match video_reply(&stream, true) {
        VideoReply::Describe(object) => object,
        other => panic!("{other:?}"),
    };
    assert_eq!(object.len(), 11);
    assert_eq!(object["url"], Value::from("https://example.com/video.mp4"));
    assert_eq!(object["itag"], Value::from(18));
    assert_eq!(object["quality"], Value::from("360p"));
    assert_eq!(object["container"], Value::from("mp4"));
    assert_eq!(object["hasVideo"], Value::from(true));
    assert_eq!(object["hasAudio"], Value::from(true));
    assert_eq!(object["isLive"], Value::from(false));
    assert_eq!(object["isHLS"], Value::from(false));
    assert_eq!(object["isDashMPD"], Value::from(false));
    assert_eq!(object["approxDurationMs"], Value::from("157000"));
    assert_eq!(
        object["mimeType"],
        Value::from("video/mp4; codecs=\"avc1.42001E, mp4a.40.2\"")
    );

    let mut info = progressive();
    info.duration_ms = None;
    info.format_id = None;
    let object = ResolvedStream::from_info(info).unwrap().to_json();
    assert_eq!(object["itag"], Value::Null);
    assert_eq!(object["approxDurationMs"], Value::Null);
}

#[test]
fn kept_streams_are_served_until_they_age() {
    let mut cache = StreamCache::new();
    assert!(cache.lookup("P3uI5sLosKU", 0).is_none());

    let stream = ResolvedStream::from_info(progressive()).unwrap();
    cache.remember("P3uI5sLosKU", stream.clone(), 10);
    assert_eq!(cache.lookup("P3uI5sLosKU", 10), Some(stream.clone()));
    assert_eq!(cache.lookup("P3uI5sLosKU", 9 + CACHE_TTL), Some(stream.clone()));
    assert!(cache.lookup("P3uI5sLosKU", 10 + CACHE_TTL).is_none());
    assert!(cache.lookup("rt-2cxAiPJ_", 10).is_none());

    let mut newer = stream.clone();
    newer.url = "https://example.com/newer.mp4".to_owned();
    cache.remember("P3uI5sLosKU", newer.clone(), 20);
    assert_eq!(cache.lookup("P3uI5sLosKU", 10 + CACHE_TTL), Some(newer));
    assert!(cache_serves(0));
    assert!(!cache_serves(CACHE_TTL));
}

#[test]
fn the_extractor_runs_once_while_a_stream_is_fresh() {
    let mut cache = StreamCache::new();
    let (id, other) = ("P3uI5sLosKU", "rt-2cxAiPJ_");
    assert_eq!(cache.begin_resolve(id, 10), ResolveStart::RunExtractor);

    // A failed run is not kept.
    let failed = ExtractorRun::Missing { error: "gone".to_owned() };
    assert_eq!(
        cache.finish_resolve(id, failed.clone(), 10).unwrap_err().into_response().0,
        503
    );
    assert_eq!(cache.begin_resolve(id, 10), ResolveStart::RunExtractor);

    let run = ExtractorRun::Reported { info: progressive() };
    let stream = cache.finish_resolve(id, run, 20).unwrap();
    assert_eq!(Some(stream.clone()), ResolvedStream::from_info(progressive()));
    assert!(cache.finish_resolve(id, failed, 30).is_err());
    let mut info = progressive();
    info.url = Some("https://example.com/other.mp4".to_owned());
    cache.finish_resolve(other, ExtractorRun::Reported { info }, 40).unwrap();
    assert_eq!(cache.begin_resolve(id, 19 + CACHE_TTL), ResolveStart::Serve(stream));
    assert_eq!(cache.begin_resolve(id, 20 + CACHE_TTL), ResolveStart::RunExtractor);
}

#[test]
fn white_space_around_a_failure_is_cut() {
    let cut = |text: &str| {
        let run = ExtractorRun::Failed { stderr: text.as_bytes().to_vec() };
        resolve(run).unwrap_err().into_response().1
    };
    let blank = [
        '\u{9}', '\u{a}', '\u{b}', '\u{c}', '\u{d}', '\u{20}', '\u{85}', '\u{a0}', '\u{1680}',
        '\u{2000}', '\u{2001}', '\u{2002}', '\u{2003}', '\u{2004}', '\u{2005}', '\u{2006}',
        '\u{2007}', '\u{2008}', '\u{2009}', '\u{200a}', '\u{2028}', '\u{2029}', '\u{202f}',
        '\u{205f}', '\u{3000}',
    ];
    for number in 0..0x1_0000u32 {
        let Some(c) = char::from_u32(number) else {
            continue;
        };
        let text = format!("{c}x{c}y{c}");
        let left = if blank.contains(&c) { format!("x{c}y") } else { text.clone() };
        assert_eq!(cut(&text), format!("Failed to get video info: {left}"));
    }
    assert_eq!(cut(" \n\t"), "Failed to get video info: ");
}

#[test]
fn requests_without_a_video_are_bad_requests() {
    assert_eq!(youtube_handler("short".to_owned()), VideoRequest::Invalid);
    assert_eq!(invalid_id_response(), (400, "Invalid YouTube ID".to_owned()));
}
