//! Casting: the local MPV player as a device, and on-the-fly transcoding.
//!
//! Fractional numbers (positions, delays, sizes) are carried as their IEEE 754
//! bit patterns. Nothing here calculates with them.

use crate::json::{
    empty_object, json_members, put_member, text_member, JsonField, JsonScalar,
};
use crate::text::{push_text, same_text, texts};
use serde_json::Value;
use vstd::prelude::*;
use vstd::string::*;

verus! {

/// How long updates are collected before the player is launched.
pub const LAUNCH_DELAY_MS: u64 = 1_500;

/// Where MPV is looked for when no path is configured.
pub fn mpv_default_paths() -> (r: Vec<&'static str>)
    ensures
        r@.len() == 2,
        r@[0]@ == "/usr/bin/mpv"@,
        r@[1]@ == "/usr/local/bin/mpv"@,
{
    vec!["/usr/bin/mpv", "/usr/local/bin/mpv"]
}

/// Which MPV to use.
#[derive(Debug, Clone, Copy, PartialEq, Eq)]
pub enum MpvChoice {
    Configured,
    Default(usize),
    Missing,
}

/// Whether a program is in none of some places.
pub open spec fn none_there(there: Seq<bool>) -> bool {
    forall|i: int| 0 <= i < there.len() ==> !#[trigger] there[i]
}

/// Picks the configured path where it is a file, else the first default that
/// is one. `defaults` tells for each default path whether it is a file.
pub fn mpv_path(configured: Option<bool>, defaults: &Vec<bool>) -> (r: MpvChoice)
    ensures
        match r {
            MpvChoice::Configured => configured == Some(true),
            MpvChoice::Default(index) => {
                &&& configured != Some(true)
                &&& index < defaults@.len()
                &&& defaults@[index as int]
                &&& forall|i: int| 0 <= i < index ==> !#[trigger] defaults@[i]
            },
            MpvChoice::Missing => {
                &&& configured != Some(true)
                &&& forall|i: int| 0 <= i < defaults@.len() ==> !#[trigger] defaults@[i]
            },
        },
        r is Missing ==> none_there(defaults@),
{
    if let Some(is_file) = configured {
        if is_file {
            return MpvChoice::Configured;
        }
    }
    let mut i: usize = 0;
    while i < defaults.len()
        invariant
            i <= defaults@.len(),
            configured != Some(true),
            forall|j: int| 0 <= j < i ==> !#[trigger] defaults@[j],
        decreases defaults.len() - i,
    {
        if defaults[i] {
            return MpvChoice::Default(i);
        }
        i += 1;
    }
    MpvChoice::Missing
}

/// The members of MPV's device description.
pub open spec fn mpv_device_members() -> Map<Seq<char>, JsonScalar> {
    map![
        "name"@ => JsonScalar::Text("MPV"@),
        "type"@ => JsonScalar::Text("external"@),
        "id"@ => JsonScalar::Text("mpv"@),
        "usePlayerUI"@ => JsonScalar::Bool(true),
    ]
}

/// Describes MPV as a casting device.
pub fn mpv_device() -> (r: serde_json::Map<String, Value>)
    ensures
        json_members(r) == mpv_device_members(),
{
    let mut device: serde_json::Map<String, Value> = empty_object();
    put_member(&mut device, "name", JsonField::Text("MPV".to_owned()));
    put_member(&mut device, "type", JsonField::Text("external".to_owned()));
    put_member(&mut device, "id", JsonField::Text("mpv".to_owned()));
    put_member(&mut device, "usePlayerUI", JsonField::Bool(true));
    device
}

/// The entries of a list that are there, in order.
pub open spec fn kept<T>(entries: Seq<Option<T>>) -> Seq<T>
    decreases entries.len(),
{
    if entries.len() == 0 {
        Seq::empty()
    } else {
        match entries.last() {
            Some(entry) => kept(entries.drop_last()).push(entry),
            None => kept(entries.drop_last()),
        }
    }
}

/// Lists the casting devices: those whose description could be written, then
/// MPV where it is installed.
pub fn list_devices<T>(described: Vec<Option<T>>, mpv: Option<T>) -> (r: Vec<T>)
    ensures
        r@ == (match mpv {
            Some(device) => kept(described@).push(device),
            None => kept(described@),
        }),
{
    let mut devices: Vec<T> = Vec::new();
    let ghost all = described@;
    let ghost mut seen: int = 0;
    assert(all.take(0) =~= Seq::empty());
    for entry in it: described
        invariant
            it.seq() == all,
            seen == it.index(),
            devices@ == kept(all.take(seen)),
    {
        proof {
            assert(all.take(seen + 1).drop_last() =~= all.take(seen));
            assert(all.take(seen + 1).last() == entry);
            seen = seen + 1;
        }
        if let Some(device) = entry {
            devices.push(device);
        }
    }
    assert(all.take(all.len() as int) =~= all);
    if let Some(device) = mpv {
        devices.push(device);
    }
    devices
}

/// The answer to a question about one device.
#[derive(Debug)]
pub enum DeviceReply {
    Device(serde_json::Map<String, Value>),
    NotFound(String),
}

/// Looks a device up by its ID. Only an installed MPV is known.
pub fn get_device(dev_id: &str, mpv_installed: bool) -> (r: DeviceReply)
    ensures
        match r {
            DeviceReply::Device(device) => dev_id@ == "mpv"@ && mpv_installed && json_members(
                device,
            ) == mpv_device_members(),
            DeviceReply::NotFound(text) => !(dev_id@ == "mpv"@ && mpv_installed) && text@
                == "Device "@ + dev_id@ + " not found"@,
        },
{
    if same_text(dev_id, "mpv") && mpv_installed {
        return DeviceReply::Device(mpv_device());
    }
    let mut text: String = "Device ".to_owned();
    text.append(dev_id);
    text.append(" not found");
    DeviceReply::NotFound(text)
}

/// How a player request is handled.
#[derive(Debug, Clone, Copy, PartialEq, Eq)]
pub enum PlayerRoute {
    /// MPV was asked for and is not there.
    MpvMissing,
    /// Update MPV from the request body, which may be missing.
    UpdateFromBody,
    /// Update MPV from the query.
    UpdateFromQuery,
    /// No other device can be controlled.
    Unsupported,
}

/// Decides how a player request is handled.
pub fn player_control(dev_id: &str, mpv_installed: bool, is_post: bool) -> (r: PlayerRoute)
    ensures
        r == (if dev_id@ != "mpv"@ {
            PlayerRoute::Unsupported
        } else if !mpv_installed {
            PlayerRoute::MpvMissing
        } else if is_post {
            PlayerRoute::UpdateFromBody
        } else {
            PlayerRoute::UpdateFromQuery
        }),
{
    if !same_text(dev_id, "mpv") {
        PlayerRoute::Unsupported
    } else if !mpv_installed {
        PlayerRoute::MpvMissing
    } else if is_post {
        PlayerRoute::UpdateFromBody
    } else {
        PlayerRoute::UpdateFromQuery
    }
}

/// The answer to a player request when MPV is not there.
pub fn mpv_missing() -> (r: serde_json::Map<String, Value>)
    ensures
        json_members(r) == map!["error"@ => JsonScalar::Text("MPV is not installed"@)],
{
    let mut answer: serde_json::Map<String, Value> = empty_object();
    put_member(&mut answer, "error", JsonField::Text("MPV is not installed".to_owned()));
    answer
}

/// What the external player was last told.
#[derive(Debug, Clone, PartialEq, Eq)]
pub struct MpvState {
    pub source: Option<String>,
    pub time_bits: u64,
    pub subtitles_src: Option<String>,
    pub subtitles_delay_bits: u64,
    pub subtitles_size_bits: Option<u64>,
    pub generation: u64,
}

/// The numeric members of an update: nothing where the member is missing, and
/// for position and delay also where it is no number.
#[derive(Debug, Clone, Copy, PartialEq, Eq)]
pub struct MpvNumbers {
    pub time_bits: Option<u64>,
    pub subtitles_delay_bits: Option<u64>,
    pub subtitles_size_bits: Option<Option<u64>>,
}

/// The text that an update gives for `name`: nothing where it has no such
/// member, `Some(None)` where the member is no text.
pub open spec fn updated_text(members: Map<Seq<char>, JsonScalar>, name: Seq<char>) -> Option<
    Option<Seq<char>>,
> {
    if !members.contains_key(name) {
        None
    } else {
        match members[name] {
            JsonScalar::Text(text) => Some(Some(text)),
            _ => Some(None),
        }
    }
}

/// The characters of an optional text.
pub open spec fn text_view(text: Option<String>) -> Option<Seq<char>> {
    match text {
        Some(text) => Some(text@),
        None => None,
    }
}

/// The generation that a new source starts. The counter wraps around.
pub open spec fn newer_generation(generation: u64) -> u64 {
    if generation == u64::MAX {
        0
    } else {
        (generation + 1) as u64
    }
}

/// The members of an update that is an object, none for any other.
pub open spec fn update_members(updates: Option<&serde_json::Map<String, Value>>) -> Map<
    Seq<char>,
    JsonScalar,
> {
    match updates {
        Some(object) => json_members(*object),
        None => Map::empty(),
    }
}

fn member_of(updates: Option<&serde_json::Map<String, Value>>, name: &str) -> (r: Option<
    Option<String>,
>)
    ensures
        match r {
            None => updated_text(update_members(updates), name@) is None,
            Some(text) => updated_text(update_members(updates), name@) == Some(text_view(text)),
        },
{
    match updates {
        Some(object) => text_member(object, name),
        None => None,
    }
}

impl MpvState {
    /// Nothing was played yet. All bits clear is the number zero.
    pub fn new() -> (r: Self)
        ensures
            r.source is None,
            r.time_bits == 0,
            r.subtitles_src is None,
            r.subtitles_delay_bits == 0,
            r.subtitles_size_bits is None,
            r.generation == 0,
    {
        MpvState {
            source: None,
            time_bits: 0,
            subtitles_src: None,
            subtitles_delay_bits: 0,
            subtitles_size_bits: None,
            generation: 0,
        }
    }

    /// Takes in an update. Members that are missing change nothing. A source
    /// starts a new generation, and a source that is text asks for a launch of
    /// that generation.
    pub fn update_mpv(
        &mut self,
        updates: Option<&serde_json::Map<String, Value>>,
        numbers: MpvNumbers,
    ) -> (r: Option<u64>)
        ensures
            final(self).time_bits == (match numbers.time_bits {
                Some(bits) => bits,
                None => old(self).time_bits,
            }),
            final(self).subtitles_delay_bits == (match numbers.subtitles_delay_bits {
                Some(bits) => bits,
                None => old(self).subtitles_delay_bits,
            }),
            final(self).subtitles_size_bits == (match numbers.subtitles_size_bits {
                Some(bits) => bits,
                None => old(self).subtitles_size_bits,
            }),
            text_view(final(self).subtitles_src) == (match updated_text(
                update_members(updates),
                "subtitlesSrc"@,
            ) {
                Some(text) => text,
                None => text_view(old(self).subtitles_src),
            }),
            match updated_text(update_members(updates), "source"@) {
                Some(source) => {
                    &&& text_view(final(self).source) == source
                    &&& final(self).generation == newer_generation(old(self).generation)
                    &&& r == (if source is Some {
                        Some(final(self).generation)
                    } else {
                        None
                    })
                },
                None => {
                    &&& final(self).source == old(self).source
                    &&& final(self).generation == old(self).generation
                    &&& r is None
                },
            },
    {
        if let Some(bits) = numbers.time_bits {
            self.time_bits = bits;
        }
        if let Some(text) = member_of(updates, "subtitlesSrc") {
            self.subtitles_src = text;
        }
        if let Some(bits) = numbers.subtitles_delay_bits {
            self.subtitles_delay_bits = bits;
        }
        if let Some(bits) = numbers.subtitles_size_bits {
            self.subtitles_size_bits = bits;
        }
        if let Some(source) = member_of(updates, "source") {
            self.source = source;
            self.generation = self.generation.wrapping_add(1);
            if self.source.is_some() {
                return Some(self.generation);
            }
        }
        None
    }

    /// The members of the status report, without its three numbers.
    pub open spec fn status_members(self) -> Map<Seq<char>, JsonScalar> {
        map![
            "volume"@ => JsonScalar::Null,
            "paused"@ => JsonScalar::Bool(false),
            "state"@ => JsonScalar::Text(if self.source is Some { "playing"@ } else { "stopped"@ }),
            "length"@ => JsonScalar::Null,
            "source"@ => text_or_null(text_view(self.source)),
            "mediaSessionId"@ => JsonScalar::Null,
            "subtitlesSrc"@ => text_or_null(text_view(self.subtitles_src)),
        ]
    }

    /// Reports the player's status. The numbers `time`, `subtitlesDelay` and
    /// `subtitlesSize` are added by whoever can write them.
    pub fn mpv_status(&self) -> (r: serde_json::Map<String, Value>)
        ensures
            json_members(r) == self.status_members(),
    {
        let mut status: serde_json::Map<String, Value> = empty_object();
        put_member(&mut status, "volume", JsonField::Null);
        put_member(&mut status, "paused", JsonField::Bool(false));
        let state: &str = if self.source.is_some() {
            "playing"
        } else {
            "stopped"
        };
        put_member(&mut status, "state", JsonField::Text(state.to_owned()));
        put_member(&mut status, "length", JsonField::Null);
        put_member(&mut status, "source", text_field(&self.source));
        put_member(&mut status, "mediaSessionId", JsonField::Null);
        put_member(&mut status, "subtitlesSrc", text_field(&self.subtitles_src));
        status
    }

    /// Whether the launch that was asked for in `generation` still takes place.
    pub open spec fn launches(self, generation: u64) -> bool {
        self.generation == generation && self.source is Some
    }

    /// The arguments of a launch: options first, then the source behind `--`,
    /// where no text can be taken for an option.
    pub open spec fn launch_texts(self, start: Option<Seq<char>>) -> Seq<Seq<char>> {
        let position = match start {
            Some(seconds) => seq!["--start="@ + seconds],
            None => seq![],
        };
        let subtitles = match self.subtitles_src {
            Some(path) => seq!["--sub-file="@ + path@],
            None => seq![],
        };
        seq!["--no-terminal"@] + position + subtitles + seq!["--"@, self.source->0@]
    }

    /// The arguments to launch MPV with for `generation`, unless a newer update
    /// took over or the source is gone. `start` is the position in seconds.
    pub fn launch_arguments(&self, generation: u64, start: Option<String>) -> (r: Option<
        Vec<String>,
    >)
        ensures
            match r {
                Some(arguments) => self.launches(generation) && texts(arguments@)
                    == self.launch_texts(text_view(start)),
                None => !self.launches(generation),
            },
    {
        if self.generation != generation {
            return None;
        }
        let source: &String = match &self.source {
            Some(source) => source,
            None => return None,
        };
        let mut arguments: Vec<String> = Vec::new();
        push_text(&mut arguments, "--no-terminal");
        if let Some(seconds) = &start {
            let mut option: String = "--start=".to_owned();
            option.append(seconds.as_str());
            push_text(&mut arguments, option.as_str());
        }
        if let Some(path) = &self.subtitles_src {
            let mut option: String = "--sub-file=".to_owned();
            option.append(path.as_str());
            push_text(&mut arguments, option.as_str());
        }
        push_text(&mut arguments, "--");
        push_text(&mut arguments, source.as_str());
        assert(texts(arguments@) =~= self.launch_texts(text_view(start)));
        Some(arguments)
    }
}

/// An optional text as a JSON member.
pub open spec fn text_or_null(text: Option<Seq<char>>) -> JsonScalar {
    match text {
        Some(text) => JsonScalar::Text(text),
        None => JsonScalar::Null,
    }
}

fn text_field(text: &Option<String>) -> (r: JsonField)
    ensures
        r@ == text_or_null(text_view(*text)),
{
    match text {
        Some(text) => JsonField::Text(text.clone()),
        None => JsonField::Null,
    }
}

/// The arguments of a transcoding run.
pub open spec fn transcode_texts(video: Seq<char>, offset: Seq<char>, fragmented: bool) -> Seq<
    Seq<char>,
> {
    let input = seq!["-copyts"@, "-ss"@, offset, "-i"@, video];
    let codecs = seq![
        "-c:v"@,
        "libx264"@,
        "-preset"@,
        "ultrafast"@,
        "-tune"@,
        "zerolatency"@,
        "-pix_fmt"@,
        "yuv420p"@,
        "-c:a"@,
        "aac"@,
        "-ac"@,
        "2"@,
        "-threads"@,
        "0"@,
    ];
    let container = if fragmented {
        seq!["-movflags"@, "frag_keyframe+empty_moov"@, "-f"@, "mp4"@]
    } else {
        seq!["-f"@, "matroska"@]
    };
    input + codecs + container + seq!["pipe:1"@]
}

/// A transcoding run: the arguments for FFmpeg and the type of what comes out.
#[derive(Debug, Clone, PartialEq, Eq)]
pub struct TranscodePlan {
    pub arguments: Vec<String>,
    pub content_type: &'static str,
}

/// Plans a transcoding run that writes to its standard output, from `offset`
/// seconds on. Any value of `fmp4` asks for fragmented output, whatever it says.
pub fn transcode(video: &str, offset: &str, fmp4: Option<&str>) -> (r: TranscodePlan)
    ensures
        texts(r.arguments@) == transcode_texts(video@, offset@, fmp4 is Some),
        r.content_type@ == (if fmp4 is Some {
            "video/mp4"@
        } else {
            "video/x-matroska"@
        }),
{
    let fragmented: bool = fmp4.is_some();
    let mut arguments: Vec<String> = Vec::new();
    push_text(&mut arguments, "-copyts");
    push_text(&mut arguments, "-ss");
    push_text(&mut arguments, offset);
    push_text(&mut arguments, "-i");
    push_text(&mut arguments, video);
    push_text(&mut arguments, "-c:v");
    push_text(&mut arguments, "libx264");
    push_text(&mut arguments, "-preset");
    push_text(&mut arguments, "ultrafast");
    push_text(&mut arguments, "-tune");
    push_text(&mut arguments, "zerolatency");
    push_text(&mut arguments, "-pix_fmt");
    push_text(&mut arguments, "yuv420p");
    push_text(&mut arguments, "-c:a");
    push_text(&mut arguments, "aac");
    push_text(&mut arguments, "-ac");
    push_text(&mut arguments, "2");
    push_text(&mut arguments, "-threads");
    push_text(&mut arguments, "0");
    if fragmented {
        push_text(&mut arguments, "-movflags");
        push_text(&mut arguments, "frag_keyframe+empty_moov");
        push_text(&mut arguments, "-f");
        push_text(&mut arguments, "mp4");
    } else {
        push_text(&mut arguments, "-f");
        push_text(&mut arguments, "matroska");
    }
    push_text(&mut arguments, "pipe:1");
    assert(texts(arguments@) =~= transcode_texts(video@, offset@, fragmented));
    let content_type: &'static str = if fragmented {
        "video/mp4"
    } else {
        "video/x-matroska"
    };
    TranscodePlan { arguments, content_type }
}

/// Of a burst of updates only the last source is launched: a source that follows
/// takes a generation of its own, and the earlier launch does not take place.
pub proof fn law_newer_source_stops_launch(state: MpvState, generation: u64)
    requires
        state.generation == newer_generation(generation),
    ensures
        !state.launches(generation),
{
}

/// MPV is described by its name, its kind and its ID, as a device that brings its
/// own player, and by nothing else.
pub proof fn law_mpv_describes_itself(name: Seq<char>)
    ensures
        ({
            let members = mpv_device_members();
            &&& members.contains_key("name"@) && members["name"@] == JsonScalar::Text("MPV"@)
            &&& members.contains_key("type"@) && members["type"@] == JsonScalar::Text("external"@)
            &&& members.contains_key("id"@) && members["id"@] == JsonScalar::Text("mpv"@)
            &&& members.contains_key("usePlayerUI"@) && members["usePlayerUI"@]
                == JsonScalar::Bool(true)
            &&& members.contains_key(name) ==> name == "name"@ || name == "type"@ || name == "id"@
                || name == "usePlayerUI"@
        }),
{
    reveal_strlit("name");
    reveal_strlit("type");
    reveal_strlit("id");
    reveal_strlit("usePlayerUI");
    assert("name"@.len() == 4);
    assert("type"@.len() == 4);
    assert("id"@.len() == 2);
    assert("usePlayerUI"@.len() == 11);
    assert("name"@[0] == 'n' && "type"@[0] == 't');
}

/// Of a list of devices those that could be described stay, in order, and only
/// those.
pub proof fn law_described_devices_stay<T>(entries: Seq<Option<T>>, device: T)
    ensures
        kept(Seq::<Option<T>>::empty()) =~= Seq::<T>::empty(),
        kept(entries.push(Some(device))) == kept(entries).push(device),
        kept(entries.push(None)) == kept(entries),
{
    assert(entries.push(Some(device)).drop_last() =~= entries);
    assert(entries.push(None).drop_last() =~= entries);
}

/// A member of an update that is a text sets it, one that is anything else clears
/// it, and one that is missing changes nothing.
pub proof fn law_update_sets_clears_or_keeps(
    members: Map<Seq<char>, JsonScalar>,
    name: Seq<char>,
)
    ensures
        !members.contains_key(name) ==> updated_text(members, name) is None,
        members.contains_key(name) ==> updated_text(members, name) is Some,
        members.contains_key(name) && !(members[name] is Text) ==> updated_text(members, name)
            == Some(None::<Seq<char>>),
        members.contains_key(name) && members[name] is Text ==> updated_text(members, name) == Some(
            Some(members[name]->Text_0),
        ),
        update_members(None) =~= Map::empty(),
{
}

/// Every source takes another generation than the one before it.
pub proof fn law_new_source_takes_new_generation(generation: u64)
    ensures
        newer_generation(generation) != generation,
        generation < u64::MAX ==> newer_generation(generation) == generation + 1,
        newer_generation(u64::MAX) == 0,
{
}

/// A launch takes place exactly where its generation is still the latest and
/// there is a source to play.
pub proof fn law_latest_source_is_launched(state: MpvState, generation: u64)
    ensures
        state.source is Some && state.generation == generation ==> state.launches(generation),
        state.source is None ==> !state.launches(generation),
        state.generation != generation ==> !state.launches(generation),
{
}

/// A launch plays the source, which comes last and behind `--`, with nothing but
/// options before it: from the start position where there is one, and with the
/// subtitles where there are any.
pub proof fn law_launch_plays_the_source(state: MpvState, start: Option<Seq<char>>)
    requires
        state.source is Some,
    ensures
        ({
            let arguments = state.launch_texts(start);
            let last = arguments.len() - 1;
            let positioned: int = if start is Some {
                1
            } else {
                0
            };
            &&& arguments.len() == 3 + positioned + (if state.subtitles_src is Some {
                1int
            } else {
                0
            })
            &&& arguments[0] == "--no-terminal"@
            &&& arguments[last] == state.source->0@
            &&& arguments[last - 1] == "--"@
            &&& start matches Some(seconds) ==> arguments[1] == "--start="@ + seconds
            &&& state.subtitles_src matches Some(path) ==> arguments[1 + positioned]
                == "--sub-file="@ + path@
        }),
{
}

/// The status tells what plays: the source and the subtitles as they were given,
/// null where there are none, and playing exactly where there is a source. What
/// is not known of the player is null.
pub proof fn law_status_tells_what_plays(state: MpvState, name: Seq<char>)
    ensures
        ({
            let members = state.status_members();
            &&& members.contains_key("state"@)
            &&& state.source is Some ==> members["state"@] == JsonScalar::Text("playing"@)
            &&& state.source is None ==> members["state"@] == JsonScalar::Text("stopped"@)
            &&& members.contains_key("source"@)
            &&& state.source matches Some(source) ==> members["source"@] == JsonScalar::Text(
                source@,
            )
            &&& state.source is None ==> members["source"@] == JsonScalar::Null
            &&& members.contains_key("subtitlesSrc"@)
            &&& state.subtitles_src matches Some(path) ==> members["subtitlesSrc"@]
                == JsonScalar::Text(path@)
            &&& state.subtitles_src is None ==> members["subtitlesSrc"@] == JsonScalar::Null
            &&& members.contains_key("paused"@) && members["paused"@] == JsonScalar::Bool(false)
            &&& members.contains_key("volume"@) && members["volume"@] == JsonScalar::Null
            &&& members.contains_key("length"@) && members["length"@] == JsonScalar::Null
            &&& members.contains_key("mediaSessionId"@) && members["mediaSessionId"@]
                == JsonScalar::Null
            &&& members.contains_key(name) ==> name == "state"@ || name == "source"@ || name
                == "subtitlesSrc"@ || name == "paused"@ || name == "volume"@ || name == "length"@
                || name == "mediaSessionId"@
        }),
{
    reveal_strlit("volume");
    reveal_strlit("paused");
    reveal_strlit("state");
    reveal_strlit("length");
    reveal_strlit("source");
    reveal_strlit("mediaSessionId");
    reveal_strlit("subtitlesSrc");
    assert("volume"@.len() == 6);
    assert("paused"@.len() == 6);
    assert("state"@.len() == 5);
    assert("length"@.len() == 6);
    assert("source"@.len() == 6);
    assert("mediaSessionId"@.len() == 14);
    assert("subtitlesSrc"@.len() == 12);
    assert("volume"@[0] == 'v' && "paused"@[0] == 'p' && "length"@[0] == 'l' && "source"@[0]
        == 's');
}

/// A transcoding run reads the video from the offset on, encodes both tracks for
/// playing along, and writes to its output in the container that was asked for:
/// fragmented MP4, or Matroska.
pub proof fn law_transcoding_reads_encodes_and_writes(
    video: Seq<char>,
    offset: Seq<char>,
    fragmented: bool,
)
    ensures
        ({
            let arguments = transcode_texts(video, offset, fragmented);
            let last = arguments.len() - 1;
            &&& arguments[0] == "-copyts"@
            &&& arguments[1] == "-ss"@ && arguments[2] == offset
            &&& arguments[3] == "-i"@ && arguments[4] == video
            &&& arguments[5] == "-c:v"@ && arguments[6] == "libx264"@
            &&& arguments[7] == "-preset"@ && arguments[8] == "ultrafast"@
            &&& arguments[9] == "-tune"@ && arguments[10] == "zerolatency"@
            &&& arguments[11] == "-pix_fmt"@ && arguments[12] == "yuv420p"@
            &&& arguments[13] == "-c:a"@ && arguments[14] == "aac"@
            &&& arguments[15] == "-ac"@ && arguments[16] == "2"@
            &&& arguments[17] == "-threads"@ && arguments[18] == "0"@
            &&& arguments[last] == "pipe:1"@
            &&& arguments[last - 2] == "-f"@
            &&& fragmented ==> arguments.len() == 24 && arguments[19] == "-movflags"@
                && arguments[20] == "frag_keyframe+empty_moov"@ && arguments[last - 1] == "mp4"@
            &&& !fragmented ==> arguments.len() == 22 && arguments[last - 1] == "matroska"@
        }),
{
}

/// An update with a source plays it in a new generation, which is to be launched;
/// one that clears the source takes a new generation too and launches nothing; one
/// that does not speak of the source leaves it.
pub proof fn law_update_takes_the_source(
    updates: Option<&serde_json::Map<String, Value>>,
    numbers: MpvNumbers,
    r: Option<u64>,
)
    ensures
        forall|state: &mut MpvState| #[trigger]
            call_ensures(MpvState::update_mpv, (state, updates, numbers), r) ==> {
                let before = *state;
                let after = *final(state);
                let members = json_members(*updates->0);
                let told = updates is Some && members.contains_key("source"@);
                &&& told && members["source"@] is Text ==> after.source is Some && after.source->0@
                    == members["source"@]->Text_0 && r == Some(after.generation)
                &&& told && !(members["source"@] is Text) ==> after.source is None && r is None
                &&& told ==> after.generation != before.generation
                &&& told && before.generation < u64::MAX ==> after.generation == before.generation
                    + 1
                &&& !told ==> after.source == before.source && after.generation
                    == before.generation && r is None
            },
{
}

/// An update sets the numbers and the subtitles that it speaks of and keeps the
/// others.
pub proof fn law_update_sets_what_it_speaks_of(
    updates: Option<&serde_json::Map<String, Value>>,
    numbers: MpvNumbers,
    r: Option<u64>,
)
    ensures
        forall|state: &mut MpvState| #[trigger]
            call_ensures(MpvState::update_mpv, (state, updates, numbers), r) ==> {
                let before = *state;
                let after = *final(state);
                let members = json_members(*updates->0);
                let told = updates is Some && members.contains_key("subtitlesSrc"@);
                &&& numbers.time_bits is Some ==> after.time_bits == numbers.time_bits->0
                &&& numbers.time_bits is None ==> after.time_bits == before.time_bits
                &&& numbers.subtitles_delay_bits is Some ==> after.subtitles_delay_bits
                    == numbers.subtitles_delay_bits->0
                &&& numbers.subtitles_delay_bits is None ==> after.subtitles_delay_bits
                    == before.subtitles_delay_bits
                &&& numbers.subtitles_size_bits is Some ==> after.subtitles_size_bits
                    == numbers.subtitles_size_bits->0
                &&& numbers.subtitles_size_bits is None ==> after.subtitles_size_bits
                    == before.subtitles_size_bits
                &&& told && members["subtitlesSrc"@] is Text ==> after.subtitles_src is Some
                    && after.subtitles_src->0@ == members["subtitlesSrc"@]->Text_0
                &&& told && !(members["subtitlesSrc"@] is Text) ==> after.subtitles_src is None
                &&& !told && before.subtitles_src is None ==> after.subtitles_src is None
                &&& !told && before.subtitles_src is Some ==> after.subtitles_src is Some
                    && after.subtitles_src->0@ == before.subtitles_src->0@
            },
{
}

/// The configured player is taken where it is there, else the first of the usual
/// places where one is.
pub proof fn law_first_player_is_taken(
    configured: Option<bool>,
    defaults: &Vec<bool>,
    r: MpvChoice,
    i: int,
)
    requires
        call_ensures(mpv_path, (configured, defaults), r),
        0 <= i < defaults@.len(),
    ensures
        configured == Some(true) ==> r is Configured,
        configured != Some(true) ==> !(r is Configured),
        configured != Some(true) && defaults@[i] && (forall|j: int|
            0 <= j < i ==> !#[trigger] defaults@[j]) ==> r == MpvChoice::Default(i as usize),
        r is Missing ==> !defaults@[i],
{
    let there = defaults@;
    match r {
        MpvChoice::Configured => {},
        MpvChoice::Default(index) => {
            assert(there[index as int]);
            assert(index > i ==> !there[i]);
        },
        MpvChoice::Missing => {
            assert(none_there(there));
        },
    }
}

/// Only MPV is a device, where it is installed: it alone is described, controlled
/// and launched.
pub proof fn law_mpv_is_the_device(
    dev_id: &str,
    installed: bool,
    is_post: bool,
    reply: DeviceReply,
    route: PlayerRoute,
)
    requires
        call_ensures(get_device, (dev_id, installed), reply),
        call_ensures(player_control, (dev_id, installed, is_post), route),
    ensures
        dev_id@ == "mpv"@ && installed ==> reply is Device && json_members(
            reply->Device_0,
        ).contains_key("id"@) && json_members(reply->Device_0)["id"@] == JsonScalar::Text("mpv"@),
        dev_id@ == "mpv"@ && installed && is_post ==> route is UpdateFromBody,
        dev_id@ == "mpv"@ && installed && !is_post ==> route is UpdateFromQuery,
        dev_id@ == "mpv"@ && !installed ==> reply is NotFound && route is MpvMissing,
        dev_id@ != "mpv"@ ==> reply is NotFound && route is Unsupported,
        reply matches DeviceReply::NotFound(text) ==> text@ == "Device "@ + dev_id@
            + " not found"@,
{
    law_mpv_describes_itself("id"@);
}

/// Every described device is listed, and MPV behind them where it is there.
pub proof fn law_mpv_is_listed_last<T>(described: Vec<Option<T>>, mpv: Option<T>, r: Vec<T>)
    requires
        call_ensures(list_devices::<T>, (described, mpv), r),
    ensures
        mpv is None ==> r@ == kept(described@),
        mpv matches Some(device) ==> r@.len() == kept(described@).len() + 1 && r@.last() == device
            && r@.drop_last() =~= kept(described@),
{
}

/// A launch gives the player its source, behind everything else.
pub proof fn law_launch_hands_over_the_source(
    state: &MpvState,
    generation: u64,
    start: Option<String>,
    r: Option<Vec<String>>,
)
    requires
        call_ensures(MpvState::launch_arguments, (state, generation, start), r),
    ensures
        r is Some <==> state.generation == generation && state.source is Some,
        r matches Some(arguments) ==> {
            let last = arguments@.len() - 1;
            &&& arguments@.len() >= 3
            &&& arguments@[0]@ == "--no-terminal"@
            &&& arguments@[last]@ == state.source->0@
            &&& arguments@[last - 1]@ == "--"@
            &&& start is Some ==> arguments@[1]@ == "--start="@ + start->0@
            &&& start is None && state.subtitles_src is Some ==> arguments@[1]@ == "--sub-file="@
                + state.subtitles_src->0@
            &&& start is Some && state.subtitles_src is Some ==> arguments@[2]@ == "--sub-file="@
                + state.subtitles_src->0@
        },
{
    if let Some(arguments) = r {
        let given = texts(arguments@);
        law_launch_plays_the_source(*state, text_view(start));
        assert(given.len() == arguments@.len());
        assert(given[0] == arguments@[0]@);
        assert(given[1] == arguments@[1]@);
        assert(given[2] == arguments@[2]@);
        assert(given[given.len() - 1] == arguments@[arguments@.len() - 1]@);
        assert(given[given.len() - 2] == arguments@[arguments@.len() - 2]@);
    }
}

/// The status is that of the player: what it was given to play.
pub proof fn law_status_is_reported(
    state: &MpvState,
    r: serde_json::Map<String, Value>,
    fresh: MpvState,
    missing: serde_json::Map<String, Value>,
)
    requires
        call_ensures(MpvState::mpv_status, (state,), r),
        call_ensures(MpvState::new, (), fresh),
        call_ensures(mpv_missing, (), missing),
    ensures
        json_members(r).contains_key("state"@),
        state.source is Some ==> json_members(r)["state"@] == JsonScalar::Text("playing"@),
        state.source is None ==> json_members(r)["state"@] == JsonScalar::Text("stopped"@),
        json_members(r).contains_key("source"@),
        state.source matches Some(source) ==> json_members(r)["source"@] == JsonScalar::Text(
            source@,
        ),
        fresh.source is None,
        fresh.subtitles_src is None,
        fresh.time_bits == 0,
        fresh.generation == 0,
        json_members(missing).contains_key("error"@),
        json_members(missing)["error"@] == JsonScalar::Text("MPV is not installed"@),
{
    law_status_tells_what_plays(*state, "state"@);
}

/// A transcoding run reads the video from the offset on and says what it writes.
pub proof fn law_transcoding_says_what_it_writes(
    video: &str,
    offset: &str,
    fmp4: Option<&str>,
    r: TranscodePlan,
)
    requires
        call_ensures(transcode, (video, offset, fmp4), r),
    ensures
        r.arguments@.len() >= 22,
        r.arguments@[1]@ == "-ss"@ && r.arguments@[2]@ == offset@,
        r.arguments@[3]@ == "-i"@ && r.arguments@[4]@ == video@,
        fmp4 is Some ==> r.content_type@ == "video/mp4"@ && r.arguments@[22]@ == "mp4"@,
        fmp4 is None ==> r.content_type@ == "video/x-matroska"@ && r.arguments@[20]@
            == "matroska"@,
        r.arguments@[r.arguments@.len() - 1]@ == "pipe:1"@,
{
    let given = texts(r.arguments@);
    law_transcoding_reads_encodes_and_writes(video@, offset@, fmp4 is Some);
    assert(given.len() == r.arguments@.len());
    assert(forall|i: int| 0 <= i < given.len() ==> #[trigger] given[i] == r.arguments@[i]@);
    assert(given[1] == r.arguments@[1]@);
    assert(given[2] == r.arguments@[2]@);
    assert(given[3] == r.arguments@[3]@);
    assert(given[4] == r.arguments@[4]@);
    assert(given[given.len() - 2] == r.arguments@[given.len() - 2]@);
    assert(given[given.len() - 1] == r.arguments@[given.len() - 1]@);
}

/// MPV is looked for where it is usually installed, and is described as itself.
pub proof fn law_mpv_is_looked_for(
    paths: Vec<&'static str>,
    described: serde_json::Map<String, Value>,
)
    requires
        call_ensures(mpv_default_paths, (), paths),
        call_ensures(mpv_device, (), described),
    ensures
        paths@.len() == 2,
        paths@[0]@ == "/usr/bin/mpv"@,
        paths@[1]@ == "/usr/local/bin/mpv"@,
        json_members(described).contains_key("id"@),
        json_members(described)["id"@] == JsonScalar::Text("mpv"@),
        json_members(described).contains_key("usePlayerUI"@),
        json_members(described)["usePlayerUI"@] == JsonScalar::Bool(true),
{
    law_mpv_describes_itself("id"@);
}

} // verus!
