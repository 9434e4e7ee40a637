//! The daemon connection and the work items that the screens hand to the
//! serialized RPC worker.

use vstd::prelude::*;

use crate::text::{parse_u16, parse_unsigned};

verus! {

/// Where and as whom to reach the daemon.
#[derive(Debug, Clone, PartialEq, Eq)]
pub struct TransmissionCredentials {
    pub host: String,
    pub port: u16,
    pub username: Option<String>,
    pub password: Option<String>,
}

/// What a periodic `session-get` reports of the daemon's session.
#[derive(Debug, Clone, PartialEq, Eq)]
pub struct SessionData {
    /// Whether the alternative speed limits (Turtle Mode) are on.
    pub alt_speed_enabled: bool,
}

/// Credentials plus the current `X-Transmission-Session-Id`.
#[derive(Debug, Clone, PartialEq, Eq)]
pub struct ConnectionParams {
    pub credentials: TransmissionCredentials,
    pub session_id: String,
}

impl ConnectionParams {
    pub fn new(credentials: TransmissionCredentials, session_id: String) -> (p: ConnectionParams)
        ensures
            p.credentials == credentials,
            p.session_id == session_id,
    {
        ConnectionParams { credentials, session_id }
    }
}

/// The optional form of a text field: `None` when it is empty.
pub open spec fn optional_text(field: String) -> Option<String> {
    if field@.len() == 0 {
        None
    } else {
        Some(field)
    }
}

/// The credentials that a connection form describes: its host, its port
/// when the port field parses as a `u16` (otherwise there are none), and
/// its user name and password, each absent when its field is empty.
pub open spec fn form_credentials(
    host: String,
    port: Seq<char>,
    username: String,
    password: String,
) -> Option<TransmissionCredentials> {
    match parse_unsigned(port, u16::MAX as nat) {
        Some(n) => Some(
            TransmissionCredentials {
                host,
                port: n as u16,
                username: optional_text(username),
                password: optional_text(password),
            },
        ),
        None => None,
    }
}

/// `None` for an empty field, a copy of it otherwise.
pub fn optional_text_of(field: &String) -> (r: Option<String>)
    ensures
        r == optional_text(*field),
{
    if field.as_str().is_empty() {
        None
    } else {
        Some(field.clone())
    }
}

/// The credentials that a connection form describes.
pub fn credentials_from_form(
    host: &String,
    port: &String,
    username: &String,
    password: &String,
) -> (r: Option<TransmissionCredentials>)
    ensures
        r == form_credentials(*host, port@, *username, *password),
{
    match parse_u16(port.as_str()) {
        Some(n) => Some(
            TransmissionCredentials {
                host: host.clone(),
                port: n,
                username: optional_text_of(username),
                password: optional_text_of(password),
            },
        ),
        None => None,
    }
}

/// A copy of an optional string.
pub fn copy_opt_string(s: &Option<String>) -> (r: Option<String>)
    ensures
        r == *s,
{
    match s {
        Some(v) => Some(v.clone()),
        None => None,
    }
}

/// A copy of the credentials.
pub fn copy_credentials(c: &TransmissionCredentials) -> (r: TransmissionCredentials)
    ensures
        r == *c,
{
    TransmissionCredentials {
        host: c.host.clone(),
        port: c.port,
        username: copy_opt_string(&c.username),
        password: copy_opt_string(&c.password),
    }
}

/// A copy of the connection parameters.
pub fn copy_params(p: &ConnectionParams) -> (r: ConnectionParams)
    ensures
        r == *p,
{
    ConnectionParams {
        credentials: copy_credentials(&p.credentials),
        session_id: p.session_id.clone(),
    }
}

/// What a `torrent-add` call adds.
#[derive(Debug, Clone, PartialEq, Eq)]
pub enum AddPayload {
    /// A magnet link.
    Magnet(String),
    /// A `.torrent` file, base64-encoded.
    Metainfo(String),
}

/// Per-torrent bandwidth fields for `torrent-set`; only `Some` fields are
/// sent.
#[derive(Debug, Clone, Default, PartialEq, Eq)]
pub struct TorrentBandwidthArgs {
    pub download_limited: Option<bool>,
    /// KB/s.
    pub download_limit: Option<u64>,
    pub upload_limited: Option<bool>,
    /// KB/s.
    pub upload_limit: Option<u64>,
    pub seed_ratio_mode: Option<u8>,
    /// The ratio limit as typed; sent as its `f64` value, 0.0 where it does
    /// not parse.
    pub seed_ratio_limit_text: Option<String>,
    pub honors_session_limits: Option<bool>,
}

impl TorrentBandwidthArgs {
    /// Arguments with no field set.
    pub fn none() -> (a: TorrentBandwidthArgs)
        ensures
            a == no_bandwidth_args(),
    {
        TorrentBandwidthArgs {
            download_limited: None,
            download_limit: None,
            upload_limited: None,
            upload_limit: None,
            seed_ratio_mode: None,
            seed_ratio_limit_text: None,
            honors_session_limits: None,
        }
    }
}

/// Bandwidth arguments with no field set.
pub open spec fn no_bandwidth_args() -> TorrentBandwidthArgs {
    TorrentBandwidthArgs {
        download_limited: None,
        download_limit: None,
        upload_limited: None,
        upload_limit: None,
        seed_ratio_mode: None,
        seed_ratio_limit_text: None,
        honors_session_limits: None,
    }
}

/// A unit of work for the serialized RPC worker.
#[derive(Debug, Clone, PartialEq, Eq)]
pub enum RpcWork {
    TorrentGet(ConnectionParams),
    SessionGet(ConnectionParams),
    TorrentStart { params: ConnectionParams, ids: Vec<i64> },
    TorrentStop { params: ConnectionParams, ids: Vec<i64> },
    TorrentRemove { params: ConnectionParams, ids: Vec<i64>, delete_local_data: bool },
    TorrentAdd {
        params: ConnectionParams,
        payload: AddPayload,
        download_dir: Option<String>,
        files_unwanted: Vec<i64>,
    },
    SetLocation { params: ConnectionParams, ids: Vec<i64>, location: String, move_data: bool },
    SetFileWanted {
        params: ConnectionParams,
        torrent_id: i64,
        file_indices: Vec<i64>,
        wanted: bool,
    },
    TorrentSetBandwidth { params: ConnectionParams, ids: Vec<i64>, args: TorrentBandwidthArgs },
}

} // verus!
