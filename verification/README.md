# torrent_playback

The decision core of a torrent streaming server, verified with
[Verus](https://github.com/verus-lang/verus). Given what the outside world
reports, it decides which file of a torrent is played, which pieces are asked
for and how urgently, when a torrent goes silent, and which bytes a reader gets.

## Layout

- `src/` is the verified library. Every function has a contract; functions
  named `law_*` state what holds across several of them.
- `tests/` runs the library on concrete values.
- `app/` is ordinary Rust around the library: tasks, channels, files, external
  processes and HTTP routes.

The library's modules, from the ground up:

| Module | What it decides |
| --- | --- |
| `arith`, `text`, `registry`, `permits` | integers, strings, keyed lists and permit counts |
| `cancellation`, `json`, `stream_cache` | values of `tokio-util`, `serde_json` and `dashmap` |
| `domain`, `errors`, `layout` | torrents, files and what can go wrong |
| `playback`, `transitions` | the playback state of one torrent and its changes |
| `activation`, `acknowledgement`, `pausing` | starting and silencing a torrent, step by step |
| `coordinator` | all torrents, and the events that concern them |
| `alerts` | routing native alerts and piece bytes |
| `window`, `hot_window`, `prioritizing` | piece priorities and deadlines |
| `stream`, `reading` | reading a file while it downloads |
| `handle`, `readiness` | what clients ask of a torrent |
| `casting`, `youtube` | devices, the external player, transcoding and video resolution |

## Conventions

Times are nanoseconds on one monotonic clock that the caller owns. Work that
waits on the outside runs as a series of steps: a method names the next step,
and the caller reports what came of it. Fractional numbers are carried as bit
patterns or as text and never calculated with.
