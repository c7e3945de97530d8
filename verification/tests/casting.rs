use serde_json::Value;
use torrent_playback::casting::{
    get_device, list_devices, mpv_default_paths, mpv_device, mpv_missing, mpv_path,
    player_control, transcode, DeviceReply, MpvChoice, MpvNumbers, MpvState, PlayerRoute,
};

fn object(members: Vec<(&str, Value)>) -> serde_json::Map<String, Value> {
    members.into_iter().map(|(name, value)| (name.to_owned(), value)).collect()
}

const NO_NUMBERS: MpvNumbers = MpvNumbers {
    time_bits: None,
    subtitles_delay_bits: None,
    subtitles_size_bits: None,
};

#[test]
fn mpv_device_matches_legacy_casting_shape() {
    assert_eq!(
        Value::Object(mpv_device()),
        Value::Object(object(vec![
            ("name", Value::from("MPV")),
            ("type", Value::from("external")),
            ("id", Value::from("mpv")),
            ("usePlayerUI", Value::from(true)),
        ]))
    );
}

#[test]
fn mpv_is_looked_for_in_order() {
    assert_eq!(mpv_default_paths(), vec!["/usr/bin/mpv", "/usr/local/bin/mpv"]);
    assert_eq!(mpv_path(Some(true), &vec![true, true]), MpvChoice::Configured);
    assert_eq!(mpv_path(Some(false), &vec![false, true]), MpvChoice::Default(1));
    assert_eq!(mpv_path(None, &vec![true, true]), MpvChoice::Default(0));
    assert_eq!(mpv_path(None, &vec![false, false]), MpvChoice::Missing);
}

#[test]
fn devices_are_listed_with_mpv_last() {
    assert_eq!(list_devices(vec![Some("tv"), None, Some("box")], Some("mpv")), vec!["tv", "box", "mpv"]);
    assert_eq!(list_devices(vec![Some("tv")], None), vec!["tv"]);
    match get_device("mpv", true) {
        DeviceReply::Device(device) => assert_eq!(device, mpv_device()),
        other => panic!("{other:?}"),
    }
    for (id, installed) in [("mpv", false), ("tv", true)] {
        match get_device(id, installed) {
            DeviceReply::NotFound(text) => assert_eq!(text, format!("Device {id} not found")),
            other => panic!("{other:?}"),
        }
    }
}

#[test]
fn player_requests_are_routed() {
    assert_eq!(player_control("mpv", true, true), PlayerRoute::UpdateFromBody);
    assert_eq!(player_control("mpv", true, false), PlayerRoute::UpdateFromQuery);
    assert_eq!(player_control("mpv", false, true), PlayerRoute::MpvMissing);
    assert_eq!(player_control("tv", true, true), PlayerRoute::Unsupported);
    assert_eq!(mpv_missing(), object(vec![("error", Value::from("MPV is not installed"))]));
}

#[test]
fn updates_touch_only_what_they_name() {
    let mut state = MpvState::new();
    let update = object(vec![
        ("source", Value::from("http://a/1.mkv")),
        ("subtitlesSrc", Value::from("http://a/1.srt")),
    ]);
    let numbers = MpvNumbers {
        time_bits: Some(1500.0f64.to_bits()),
        subtitles_delay_bits: Some(0.5f64.to_bits()),
        subtitles_size_bits: Some(Some(2.0f64.to_bits())),
    };
    assert_eq!(state.update_mpv(Some(&update), numbers), Some(1));
    assert_eq!(state.source.as_deref(), Some("http://a/1.mkv"));
    assert_eq!(state.subtitles_src.as_deref(), Some("http://a/1.srt"));
    assert_eq!(f64::from_bits(state.time_bits), 1500.0);
    let before = state.clone();
    assert_eq!(state.update_mpv(Some(&serde_json::Map::new()), NO_NUMBERS), None);
    assert_eq!(state.update_mpv(None, NO_NUMBERS), None);
    assert_eq!(state, before);

    // A member that is no text clears, and a source always starts a generation.
    let stop = object(vec![("source", Value::Null), ("subtitlesSrc", Value::from(3))]);
    let sizeless = MpvNumbers { subtitles_size_bits: Some(None), ..NO_NUMBERS };
    assert_eq!(state.update_mpv(Some(&stop), sizeless), None);
    assert_eq!(state.generation, 2);
    assert_eq!((state.source.clone(), state.subtitles_src.clone()), (None, None));
    assert_eq!(state.subtitles_size_bits, None);
    assert_eq!(state.subtitles_delay_bits, before.subtitles_delay_bits);

    state.generation = u64::MAX;
    assert_eq!(state.update_mpv(Some(&update), NO_NUMBERS), Some(0));
}

#[test]
fn the_status_tells_what_plays() {
    let mut state = MpvState::new();
    let stopped = state.mpv_status();
    assert_eq!(stopped.len(), 7);
    assert_eq!(stopped["state"], Value::from("stopped"));
    assert_eq!(stopped["source"], Value::Null);
    state.update_mpv(Some(&object(vec![("source", Value::from("x"))])), NO_NUMBERS);
    assert_eq!(
        state.mpv_status(),
        object(vec![
            ("volume", Value::Null),
            ("paused", Value::from(false)),
            ("state", Value::from("playing")),
            ("length", Value::Null),
            ("source", Value::from("x")),
            ("mediaSessionId", Value::Null),
            ("subtitlesSrc", Value::Null),
        ])
    );
}

#[test]
fn only_the_newest_source_is_launched() {
    let mut state = MpvState::new();
    let first = state.update_mpv(Some(&object(vec![("source", Value::from("a"))])), NO_NUMBERS);
    let second = state.update_mpv(Some(&object(vec![("source", Value::from("-b"))])), NO_NUMBERS);
    assert_eq!(state.launch_arguments(first.unwrap(), None), None);
    assert_eq!(
        state.launch_arguments(second.unwrap(), None),
        Some(vec!["--no-terminal".to_owned(), "--".to_owned(), "-b".to_owned()])
    );
    state.subtitles_src = Some("s.srt".to_owned());
    assert_eq!(
        state.launch_arguments(second.unwrap(), Some("61".to_owned())).unwrap(),
        vec!["--no-terminal", "--start=61", "--sub-file=s.srt", "--", "-b"]
    );
    state.source = None;
    assert_eq!(state.launch_arguments(second.unwrap(), None), None);
}

#[test]
fn transcoding_is_planned() {
    let plan = transcode("http://a/1.mkv", "12.5", None);
    assert_eq!(plan.content_type, "video/x-matroska");
    assert_eq!(
        plan.arguments,
        vec![
            "-copyts", "-ss", "12.5", "-i", "http://a/1.mkv", "-c:v", "libx264", "-preset",
            "ultrafast", "-tune", "zerolatency", "-pix_fmt", "yuv420p", "-c:a", "aac", "-ac", "2",
            "-threads", "0", "-f", "matroska", "pipe:1",
        ]
    );
    // The value of the option does not matter, only that there is one.
    for value in ["1", "0", ""] {
        let plan = transcode("http://h/v.mkv", "90.5", Some(value));
        assert_eq!(plan.content_type, "video/mp4");
        assert_eq!(
            plan.arguments.join(" "),
            "-copyts -ss 90.5 -i http://h/v.mkv -c:v libx264 -preset ultrafast -tune zerolatency \
             -pix_fmt yuv420p -c:a aac -ac 2 -threads 0 -movflags frag_keyframe+empty_moov -f mp4 \
             pipe:1"
        );
    }
}
