use vstd::prelude::*;

use std::collections::HashMap;

verus! {

/// A connector (output protocol) of the Mist server.
#[derive(Debug, Clone, Copy, PartialEq, Eq)]
pub enum ProtocolConnector {
    AAC,
    CMAF,
    DTSC,
    EBML,
    FLAC,
    FLV,
    H264,
    HDS,
    HLS,
    HTTP,
    HTTPS,
    JPG,
    JSON,
    MP3,
    MP4,
    OGG,
    RTMP,
    SDP,
    SubRip,
    TSSRT,
    WAV,
    WebRTC,
}

/// The online state of a protocol, as the server reports it: a text or a number.
#[derive(Debug, Clone, PartialEq, Eq)]
pub enum ProtocolStatus {
    String(String),
    Number(i8),
}

/// The online value of a protocol, as the older configuration format reports it.
#[derive(Debug, Clone, PartialEq, Eq)]
pub enum ProtocolOnlineValue {
    String(String),
    Number(i8),
}

/// A protocol (connector) entry of the server configuration.
#[derive(Debug, Clone, PartialEq)]
pub struct Protocol {
    pub connector: ProtocolConnector,
    pub online: Option<ProtocolStatus>,
    pub cert: Option<String>,
    pub ctrlprefix: Option<String>,
    pub debug: Option<i8>,
    pub default_track_sorting: Option<String>,
    pub iceservers: Option<String>,
    /// Any further fields of the entry.
    pub extra_fields: Option<HashMap<String, serde_json::Value>>,
}

/// Builder of a protocol entry for the given connector.
#[derive(Debug, Clone, Copy, PartialEq, Eq)]
pub struct ProtocolBuilder {
    pub connector: ProtocolConnector,
}

impl ProtocolBuilder {
    /// Starts a protocol entry for `connector`.
    pub fn new(connector: ProtocolConnector) -> (res: Self)
        ensures
            res.connector == connector,
    {
        ProtocolBuilder { connector }
    }
}

} // verus!
