use std::sync::Arc;
use tokio::sync::broadcast;
use torrent_playback::acknowledgement::{AlertCodes, AlertInfo};
use torrent_playback::alerts::{
    native_read, piece_received, LibtorrentAlertHub, NativeRead, PieceRead, PieceReadErrorKind,
    PieceReceived, ALERT_CHANNEL_CAPACITY,
};

type PieceResult = Result<Arc<Vec<u8>>, String>;
type Hub = LibtorrentAlertHub<broadcast::Sender<AlertInfo>, broadcast::Sender<PieceResult>>;

const CODES: AlertCodes = AlertCodes {
    metadata_received: 45,
    file_error: 43,
    file_priority: 96,
    torrent_paused: 39,
    read_piece: 5,
};

fn open_channel() -> broadcast::Sender<AlertInfo> {
    broadcast::channel(ALERT_CHANNEL_CAPACITY).0
}

fn open_read() -> broadcast::Sender<PieceResult> {
    broadcast::channel(1).0
}

/// Routes an alert and performs the deliveries.
fn dispatch(hub: &mut Hub, alert: &mut AlertInfo) {
    let routed = hub.dispatch(alert, &CODES, open_channel);
    if let Some(reply) = routed.reply {
        let _ = reply.sender.send(reply.result);
    }
    for reply in routed.failed {
        let _ = reply.sender.send(reply.result);
    }
    if let Some(index) = routed.channel {
        let _ = hub.senders.entries[index].1.send(alert.clone());
    }
}

fn subscribe(hub: &mut Hub, info_hash: &str) -> broadcast::Receiver<AlertInfo> {
    let index = hub.subscribe(info_hash, open_channel);
    hub.senders.entries[index].1.subscribe()
}

fn read(hub: &mut Hub, info_hash: &str, piece: i32) -> (bool, broadcast::Receiver<PieceResult>) {
    match hub.read_piece(info_hash, piece, open_read) {
        PieceRead::Joined { index } => (false, hub.piece_senders.entries[index].1.subscribe()),
        PieceRead::Submitted { index } => (true, hub.piece_senders.entries[index].1.subscribe()),
    }
}

fn alert(alert_type: i32, info_hash: &str, piece_index: i32, piece_data: Vec<u8>) -> AlertInfo {
    AlertInfo {
        alert_type,
        category: 0,
        what: String::new(),
        message: "disk is full".to_string(),
        timestamp: 0,
        info_hash: info_hash.to_string(),
        piece_index,
        piece_data,
    }
}

#[test]
fn dispatch_routes_alert_to_matching_torrent() {
    let mut hub = Hub::new();
    let mut receiver = subscribe(&mut hub, "ABC");
    let mut alert = AlertInfo {
        alert_type: 97,
        category: 0,
        what: String::new(),
        message: String::new(),
        timestamp: 0,
        info_hash: "abc".to_string(),
        piece_index: -1,
        piece_data: Vec::new(),
    };
    dispatch(&mut hub, &mut alert);

    let alert = receiver.try_recv().expect("matching alert");
    assert_eq!(alert.alert_type, 97);
}

#[test]
fn read_piece_alert_moves_bytes_into_shared_broker_result() {
    let mut hub = Hub::new();
    let (_, mut receiver) = read(&mut hub, "abc", 7);
    let mut alert = AlertInfo {
        alert_type: CODES.read_piece,
        category: 0,
        what: String::new(),
        message: String::new(),
        timestamp: 0,
        info_hash: "ABC".to_string(),
        piece_index: 7,
        piece_data: vec![1, 2, 3, 4],
    };

    dispatch(&mut hub, &mut alert);

    let data = receiver
        .try_recv()
        .expect("broker result")
        .expect("bytes");
    assert_eq!(data.as_slice(), [1, 2, 3, 4]);
    assert!(alert.piece_data.is_empty());
    assert!(hub.piece_senders.entries.is_empty());
}

#[test]
fn alerts_of_other_torrents_and_of_none_are_not_heard() {
    let mut hub = Hub::new();
    let mut receiver = subscribe(&mut hub, "abc");
    dispatch(&mut hub, &mut alert(97, "abd", -1, Vec::new()));
    dispatch(&mut hub, &mut alert(97, "", -1, Vec::new()));
    assert!(receiver.try_recv().is_err());
    assert_eq!(hub.senders.entries.len(), 2);
    let again = subscribe(&mut hub, "aBc");
    assert_eq!(hub.senders.entries.len(), 2);
    dispatch(&mut hub, &mut alert(98, "ABC", -1, Vec::new()));
    assert_eq!(receiver.try_recv().unwrap().alert_type, 98);
    drop(again);
}

#[test]
fn reads_of_one_piece_are_coalesced_and_answered_once() {
    let mut hub = Hub::new();
    let (submitted, mut first) = read(&mut hub, "ABC", 7);
    assert!(submitted);
    let (submitted, mut second) = read(&mut hub, "abc", 7);
    assert!(!submitted);
    let (submitted, mut other) = read(&mut hub, "abc", 8);
    assert!(submitted);

    dispatch(&mut hub, &mut alert(CODES.read_piece, "abc", 7, vec![9]));
    assert_eq!(first.try_recv().unwrap().unwrap().as_slice(), [9]);
    assert_eq!(second.try_recv().unwrap().unwrap().as_slice(), [9]);
    assert!(other.try_recv().is_err());

    // Nobody waits any more, and the bytes do not travel with the alert.
    let mut listener = subscribe(&mut hub, "abc");
    dispatch(&mut hub, &mut alert(CODES.read_piece, "abc", 7, vec![9]));
    assert!(listener.try_recv().unwrap().piece_data.is_empty());
    assert!(read(&mut hub, "abc", 7).0);
}

#[test]
fn a_piece_without_data_is_an_error() {
    let mut hub = Hub::new();
    let (_, mut receiver) = read(&mut hub, "abc", 12);
    dispatch(&mut hub, &mut alert(CODES.read_piece, "abc", 12, Vec::new()));
    assert_eq!(
        receiver.try_recv().unwrap().unwrap_err(),
        "libtorrent returned no data for piece 12"
    );
    // Without a piece the alert answers nothing.
    let (_, mut receiver) = read(&mut hub, "abc", 12);
    let mut nameless = alert(CODES.read_piece, "abc", -1, vec![1]);
    dispatch(&mut hub, &mut nameless);
    assert!(receiver.try_recv().is_err());
    assert_eq!(nameless.piece_data, vec![1]);
}

#[test]
fn a_file_error_fails_the_reads_of_its_torrent() {
    let mut hub = Hub::new();
    let (_, mut first) = read(&mut hub, "abc", 1);
    let (_, mut other) = read(&mut hub, "def", 1);
    let (_, mut second) = read(&mut hub, "ABC", 2);
    dispatch(&mut hub, &mut alert(CODES.file_error, "Abc", -1, Vec::new()));
    assert_eq!(first.try_recv().unwrap().unwrap_err(), "disk is full");
    assert_eq!(second.try_recv().unwrap().unwrap_err(), "disk is full");
    assert!(other.try_recv().is_err());
    assert!(hub.pending_read("abc", 1).is_none());
    assert!(hub.pending_read("DEF", 1).is_some());
}

#[test]
fn removed_torrents_are_forgotten() {
    let mut hub = Hub::new();
    let _ = subscribe(&mut hub, "abc");
    let _ = subscribe(&mut hub, "def");
    let _ = read(&mut hub, "abc", 1);
    let _ = read(&mut hub, "def", 1);
    hub.remove_torrent("ABC");
    assert_eq!(hub.senders.entries.len(), 1);
    assert!(hub.pending_read("abc", 1).is_none());
    assert!(hub.pending_read("def", 1).is_some());
    assert!(hub.fail_read("DEF", 1).is_some());
    assert!(hub.fail_read("def", 1).is_none());
}

#[test]
fn the_last_listener_drops_the_read() {
    let mut hub = Hub::new();
    let _ = read(&mut hub, "abc", 1);
    hub.stop_waiting("abc", 1, 2);
    assert!(hub.pending_read("abc", 1).is_some());
    hub.stop_waiting("ABC", 1, 1);
    assert!(hub.pending_read("abc", 1).is_none());
    hub.stop_waiting("abc", 1, 0);
}

#[test]
fn native_reads_depend_on_presence() {
    assert_eq!(native_read(3, true, 7, 0), NativeRead::Read { piece: 3 });
    assert_eq!(
        native_read(3, false, 4, 500),
        NativeRead::Await { piece: 3, priority: 4, deadline_ms: 500 }
    );
}

#[test]
fn piece_reads_report_what_happened() {
    let data = Arc::new(vec![1, 2]);
    assert_eq!(piece_received(PieceReceived::Data(data.clone()), 3), Ok(data));
    for (received, kind, message) in [
        (PieceReceived::Failed("bad".to_owned()), PieceReadErrorKind::Other, "bad"),
        (
            PieceReceived::Lagged,
            PieceReadErrorKind::Other,
            "piece broker lagged while reading piece 3",
        ),
        (PieceReceived::Closed, PieceReadErrorKind::BrokenPipe, "libtorrent piece broker closed"),
        (
            PieceReceived::TimedOut,
            PieceReadErrorKind::TimedOut,
            "timed out reading torrent piece 3",
        ),
    ] {
        let error = piece_received(received, 3).unwrap_err();
        assert_eq!(error.kind, kind);
        assert_eq!(error.message, message);
    }
    let error = piece_received(PieceReceived::TimedOut, -7).unwrap_err();
    assert_eq!(error.message, "timed out reading torrent piece -7");
}
