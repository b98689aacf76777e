use vstd::prelude::*;

use std::collections::HashMap;

use vstd::std_specs::convert::FromSpecImpl;
use vstd::std_specs::hash::{builds_valid_hashers, obeys_key_model};

use crate::protocol::Protocol;
use crate::stream::{Stream, StreamInfo};

verus! {

/// A command of the Mist API, known to the server by its name.
pub trait MistCommand {
    /// The name under which the Mist API knows this command.
    const NAME: &'static str;
}

/// User credentials: a user name and a password, or the answer to a challenge
/// in place of the password.
#[derive(Debug, Clone, PartialEq, Eq)]
pub struct AuthCredentials {
    /// User name or account identifier.
    pub username: String,
    /// Password, or the answer to an authentication challenge.
    pub password: String,
}

/// The credentials as the `authorize` command carries them.
pub type Credentials = AuthCredentials;

/// Command that authorizes against the Mist server.
#[derive(Debug, Clone, PartialEq, Eq)]
pub struct AuthorizeCommand {
    /// The credentials to send.
    pub authorize: AuthCredentials,
}

impl AuthorizeCommand {
    /// Creates an `authorize` command with the given credentials.
    pub fn new(credentials: AuthCredentials) -> (res: Self)
        ensures
            res.authorize == credentials,
    {
        AuthorizeCommand { authorize: credentials }
    }
}

impl MistCommand for AuthorizeCommand {
    const NAME: &'static str = "authorize";
}

/// Command that creates or updates streams, keyed by stream name.
#[derive(Debug, Clone)]
pub struct AddStreamCommand {
    /// The streams to create or update, keyed by stream name.
    pub addstream: HashMap<String, Stream>,
}

impl AddStreamCommand {
    /// Creates the command from a map of streams.
    pub fn new(streams: HashMap<String, Stream>) -> (res: Self)
        ensures
            res.addstream == streams,
    {
        AddStreamCommand { addstream: streams }
    }
}

impl From<HashMap<String, Stream>> for AddStreamCommand {
    /// Creates the command from a map of streams.
    fn from(value: HashMap<String, Stream>) -> (res: Self)
        ensures
            res.addstream == value,
    {
        AddStreamCommand::new(value)
    }
}

impl FromSpecImpl<HashMap<String, Stream>> for AddStreamCommand {
    open spec fn obeys_from_spec() -> bool {
        true
    }

    open spec fn from_spec(v: HashMap<String, Stream>) -> AddStreamCommand {
        AddStreamCommand { addstream: v }
    }
}

/// `HashMap::insert` of std, on a map of streams and a key whose text no key of
/// the map has. Claimed, as std documents `insert`: the map then holds `value`
/// under `key`, every other entry stays, and `None` comes back. vstd states this
/// only for key types under its key model, which it gives no `String`; a
/// `String` equals another exactly when their texts are equal, so such a key is
/// new to the map.
#[verifier::external_body]
fn insert_new_stream(map: &mut HashMap<String, Stream>, key: String, value: Stream) -> (res:
    Option<Stream>)
    requires
        forall|k: String| #[trigger] old(map)@.contains_key(k) ==> k@ != key@,
    ensures
        final(map)@ == old(map)@.insert(key, value),
        res is None,
{
    map.insert(key, value)
}

impl From<Stream> for AddStreamCommand {
    /// Creates the command for a single stream, under its own name.
    fn from(value: Stream) -> (res: Self)
        ensures
            res.addstream@ == Map::<String, Stream>::empty().insert(value.name, value),
    {
        let mut map: HashMap<String, Stream> = HashMap::new();
        let key = value.name.clone();
        insert_new_stream(&mut map, key, value);
        AddStreamCommand::new(map)
    }
}

impl FromSpecImpl<Stream> for AddStreamCommand {
    /// The map that results is stated by `from` itself, over the map's view.
    open spec fn obeys_from_spec() -> bool {
        false
    }

    /// Not used: `obeys_from_spec` is false, so no clause rests on this value;
    /// what `from` gives is stated in its own `ensures`.
    open spec fn from_spec(v: Stream) -> AddStreamCommand {
        AddStreamCommand { addstream: arbitrary() }
    }
}

impl MistCommand for AddStreamCommand {
    const NAME: &'static str = "addstream";
}

/// Command that lists every configured stream.
#[derive(Debug, Clone, Copy, PartialEq, Eq)]
pub struct StreamListCommand {
    /// Empty payload that the API expects.
    pub streams: (),
}

impl MistCommand for StreamListCommand {
    const NAME: &'static str = "liststream";
}

/// Response of the stream listing and stream adding commands: stream name to
/// stream information.
#[derive(Debug, Clone)]
pub struct StreamCommandsResponse {
    /// Information on each stream, keyed by stream name.
    pub streams: HashMap<String, StreamInfo>,
}

/// Command that deletes one or more streams by name.
#[derive(Debug, Clone, PartialEq, Eq)]
pub struct DeleteStreamCommand {
    /// Names of the streams to delete.
    pub deletestream: Vec<String>,
}

impl DeleteStreamCommand {
    /// Creates a deletion command for the given stream names.
    pub fn new(names: Vec<String>) -> (res: Self)
        ensures
            res.deletestream == names,
    {
        DeleteStreamCommand { deletestream: names }
    }
}

impl MistCommand for DeleteStreamCommand {
    const NAME: &'static str = "deletestream";
}

/// What is left of the configured streams after a deletion.
#[derive(Debug, Clone)]
pub struct DeleteStreamResponse {
    /// Information on each remaining stream, keyed by stream name.
    pub streams: HashMap<String, StreamInfo>,
}

/// Command that deletes the source files of one or more streams.
#[derive(Debug, Clone, PartialEq, Eq)]
pub struct DeleteStreamSourceCommand {
    /// Names of the streams whose source files are to be removed.
    pub deletestreamsource: Vec<String>,
}

impl DeleteStreamSourceCommand {
    /// Creates the command for the given stream names.
    pub fn new(names: Vec<String>) -> (res: Self)
        ensures
            res.deletestreamsource == names,
    {
        DeleteStreamSourceCommand { deletestreamsource: names }
    }
}

impl MistCommand for DeleteStreamSourceCommand {
    const NAME: &'static str = "deletestreamsource";
}

/// Command that shuts a stream down completely and clears what it left in memory.
#[derive(Debug, Clone, PartialEq, Eq)]
pub struct NukeStreamCommand {
    /// Name of the stream.
    pub nuke_stream: String,
}

impl NukeStreamCommand {
    /// Creates the command for the named stream.
    pub fn new(name: String) -> (res: Self)
        ensures
            res.nuke_stream == name,
    {
        NukeStreamCommand { nuke_stream: name }
    }
}

impl MistCommand for NukeStreamCommand {
    const NAME: &'static str = "nuke_stream";
}

/// The statistics that the `active_streams` command asks for, in the order in
/// which the server reports them.
pub open spec fn default_metrics() -> Seq<Seq<char>> {
    seq![
        "clients"@,
        "lastms"@,
        "firstms"@,
        "viewers"@,
        "inputs"@,
        "outputs"@,
        "views"@,
        "viewseconds"@,
        "upbytes"@,
        "downbytes"@,
        "packsent"@,
        "packloss"@,
        "packretrans"@,
        "status"@,
        "health"@,
    ]
}

/// The statistics asked for, position by position, are those that the server
/// reports back in the same positions: clients, last and first timestamps,
/// viewers, inputs, outputs, views, view seconds, bytes up, then bytes down,
/// packets sent, lost and retransmitted, status and health; fifteen in all.
pub proof fn lemma_metric_positions(metrics: Seq<Seq<char>>)
    requires
        metrics == default_metrics(),
    ensures
        metrics.len() == 15,
        metrics[0] == "clients"@,
        metrics[1] == "lastms"@,
        metrics[2] == "firstms"@,
        metrics[3] == "viewers"@,
        metrics[4] == "inputs"@,
        metrics[5] == "outputs"@,
        metrics[6] == "views"@,
        metrics[7] == "viewseconds"@,
        metrics[8] == "upbytes"@,
        metrics[9] == "downbytes"@,
        metrics[10] == "packsent"@,
        metrics[11] == "packloss"@,
        metrics[12] == "packretrans"@,
        metrics[13] == "status"@,
        metrics[14] == "health"@,
{
}

/// Command that asks for statistics on every active stream.
#[derive(Debug, Clone)]
pub struct ListActiveStreamsCommand {
    /// The statistics asked for.
    pub active_streams: Vec<&'static str>,
}

impl ListActiveStreamsCommand {
    /// Creates the command asking for the default statistics.
    pub fn new() -> (res: Self)
        ensures
            res.active_streams@.map_values(|m: &'static str| m@) == default_metrics(),
    {
        let active_streams = vec![
            "clients",
            "lastms",
            "firstms",
            "viewers",
            "inputs",
            "outputs",
            "views",
            "viewseconds",
            "upbytes",
            "downbytes",
            "packsent",
            "packloss",
            "packretrans",
            "status",
            "health",
        ];
        assert(active_streams@.map_values(|m: &'static str| m@) =~= default_metrics());
        ListActiveStreamsCommand { active_streams }
    }
}

impl MistCommand for ListActiveStreamsCommand {
    const NAME: &'static str = "active_streams";
}

/// Keyframe timing and interval statistics of a media track.
#[derive(Debug, Clone, PartialEq, Eq)]
pub struct KeyInfo {
    pub frame_ms_max: Option<i32>,
    pub frame_ms_min: Option<i32>,
    pub frames_max: Option<i32>,
    pub frames_min: Option<i32>,
    pub ms_max: Option<i32>,
    pub ms_min: Option<i32>,
}

/// Command that asks for the tags of the named streams.
#[derive(Debug, Clone, PartialEq, Eq)]
pub struct StreamTagsCommand {
    /// Names of the streams.
    pub stream_tags: Vec<String>,
}

impl StreamTagsCommand {
    /// Creates the command for the given stream names.
    pub fn new(names: Vec<String>) -> (res: Self)
        ensures
            res.stream_tags == names,
    {
        StreamTagsCommand { stream_tags: names }
    }
}

impl MistCommand for StreamTagsCommand {
    const NAME: &'static str = "stream_tags";
}

/// The tags of each stream asked for.
#[derive(Debug, Clone)]
pub struct StreamTagsCommandResponse {
    /// Tags, keyed by stream name.
    pub stream_tags: HashMap<String, Vec<String>>,
}

/// The tags given to a stream: one, or several.
#[derive(Debug, Clone, PartialEq, Eq)]
pub enum TagValue {
    /// A single tag.
    Single(String),
    /// Several tags.
    Multiple(Vec<String>),
}

impl<'a> From<&'a str> for TagValue {
    /// A single tag.
    fn from(value: &'a str) -> (res: Self)
        ensures
            res matches TagValue::Single(s) && s@ == value@,
    {
        TagValue::Single(value.to_owned())
    }
}

impl<'a> FromSpecImpl<&'a str> for TagValue {
    /// The tag that results is stated by `from` itself, over its text.
    open spec fn obeys_from_spec() -> bool {
        false
    }

    /// Not used: `obeys_from_spec` is false, so no clause rests on this value;
    /// what `from` gives is stated in its own `ensures`.
    open spec fn from_spec(v: &'a str) -> TagValue {
        TagValue::Multiple(arbitrary())
    }
}

impl From<Vec<String>> for TagValue {
    /// Several tags.
    fn from(value: Vec<String>) -> (res: Self)
        ensures
            res == TagValue::Multiple(value),
    {
        TagValue::Multiple(value)
    }
}

impl FromSpecImpl<Vec<String>> for TagValue {
    open spec fn obeys_from_spec() -> bool {
        true
    }

    open spec fn from_spec(v: Vec<String>) -> TagValue {
        TagValue::Multiple(v)
    }
}

/// Command that gives tags to streams.
#[derive(Debug, Clone)]
pub struct TagStreamCommand {
    /// Tags to give, keyed by stream name.
    pub tag_stream: HashMap<String, TagValue>,
}

impl TagStreamCommand {
    /// Creates the command from stream names and their tags.
    pub fn new(hash_map: HashMap<String, TagValue>) -> (res: Self)
        ensures
            res.tag_stream == hash_map,
    {
        TagStreamCommand { tag_stream: hash_map }
    }
}

/// Command that adds protocols (connectors) to the server configuration.
#[derive(Debug, Clone)]
pub struct AddProtocolCommmand {
    /// The protocols to add.
    pub addprotocols: Vec<Protocol>,
}

impl AddProtocolCommmand {
    /// Creates the command for the given protocols.
    pub fn new(protocols: Vec<Protocol>) -> (res: Self)
        ensures
            res.addprotocols == protocols,
    {
        AddProtocolCommmand { addprotocols: protocols }
    }
}

impl From<Protocol> for AddProtocolCommmand {
    /// The command for a single protocol.
    fn from(value: Protocol) -> (res: Self)
        ensures
            res.addprotocols@ == seq![value],
    {
        AddProtocolCommmand { addprotocols: vec![value] }
    }
}

impl FromSpecImpl<Protocol> for AddProtocolCommmand {
    /// The list that results is stated by `from` itself.
    open spec fn obeys_from_spec() -> bool {
        false
    }

    /// Not used: `obeys_from_spec` is false, so no clause rests on this value;
    /// what `from` gives is stated in its own `ensures`.
    open spec fn from_spec(v: Protocol) -> AddProtocolCommmand {
        AddProtocolCommmand { addprotocols: arbitrary() }
    }
}

impl From<Vec<Protocol>> for AddProtocolCommmand {
    /// The command for the given protocols.
    fn from(value: Vec<Protocol>) -> (res: Self)
        ensures
            res.addprotocols == value,
    {
        AddProtocolCommmand { addprotocols: value }
    }
}

impl FromSpecImpl<Vec<Protocol>> for AddProtocolCommmand {
    open spec fn obeys_from_spec() -> bool {
        true
    }

    open spec fn from_spec(v: Vec<Protocol>) -> AddProtocolCommmand {
        AddProtocolCommmand { addprotocols: v }
    }
}

impl MistCommand for AddProtocolCommmand {
    const NAME: &'static str = "addprotocol";
}

} // verus!
