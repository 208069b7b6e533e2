//! Plain data exchanged between callers, the station actor and subscribers.
use vstd::prelude::*;

verus! {

/// Outcome of one attempt to select a network. Always a well-formed answer
/// from the station, never a failure to reach it.
#[derive(Debug, Clone, Copy, PartialEq, Eq, Structural)]
pub enum SelectResult {
    Success,
    WrongPsk,
    NotFound,
    PendingSelect,
    InvalidNetworkId,
}

/// The text form of each select outcome.
pub open spec fn select_result_text(r: SelectResult) -> Seq<char> {
    match r {
        SelectResult::Success => "success"@,
        SelectResult::WrongPsk => "wrong_psk"@,
        SelectResult::NotFound => "network_not_found"@,
        SelectResult::PendingSelect => "select_already_pending"@,
        SelectResult::InvalidNetworkId => "invalid_network_id"@,
    }
}

impl SelectResult {
    /// The outcome's text form, as shown to users and logs.
    pub fn to_string(&self) -> (s: String)
        ensures
            s@ == select_result_text(*self),
    {
        let t: &str = match self {
            SelectResult::Success => "success",
            SelectResult::WrongPsk => "wrong_psk",
            SelectResult::NotFound => "network_not_found",
            SelectResult::PendingSelect => "select_already_pending",
            SelectResult::InvalidNetworkId => "invalid_network_id",
        };
        t.to_owned()
    }
}

/// Unsolicited events that the station publishes to its subscribers, such as
/// losing the link to the joined network.
#[derive(Debug, Clone, Copy, PartialEq, Eq, Structural)]
pub enum Broadcast {
    Connected,
    Disconnected,
    NetworkNotFound,
    WrongPsk,
    Ready,
}

/// An edit of one field of a configured network.
#[derive(Debug, Clone, PartialEq, Eq)]
pub enum SetNetwork {
    Ssid(String),
    Psk(String),
}

/// The closed set of operations a caller may ask of the station. The reply
/// handle, where an operation has one, travels beside the request.
#[derive(Debug, Clone, PartialEq, Eq)]
pub enum Request {
    Status,
    Networks,
    Scan,
    AddNetwork,
    SetNetwork(usize, SetNetwork),
    SaveConfig,
    RemoveNetwork(usize),
    SelectNetwork(usize),
    Shutdown,
}

impl Request {
    /// Whether the caller waits for a value in reply.
    pub open spec fn spec_expects_reply(&self) -> bool {
        match self {
            Request::Status | Request::Networks | Request::Scan | Request::AddNetwork
            | Request::SelectNetwork(_) => true,
            _ => false,
        }
    }

    /// Whether the caller waits for a value in reply.
    #[verifier::when_used_as_spec(spec_expects_reply)]
    pub fn expects_reply(&self) -> (r: bool)
        ensures
            r == self.spec_expects_reply(),
    {
        match self {
            Request::Status | Request::Networks | Request::Scan | Request::AddNetwork
            | Request::SelectNetwork(_) => true,
            _ => false,
        }
    }
}

/// One configured network as the station holds it.
#[derive(Debug, Clone, PartialEq, Eq)]
pub struct NetworkConfig {
    pub id: usize,
    pub ssid: String,
    pub psk: String,
}

/// One configured network as reported to callers.
#[derive(Debug, Clone, PartialEq, Eq)]
pub struct NetworkResult {
    pub network_id: usize,
    pub ssid: String,
}

/// What the link layer answered to an attempt to join a network.
#[derive(Debug, Clone, Copy, PartialEq, Eq, Structural)]
pub enum JoinOutcome {
    Joined,
    WrongPsk,
    NotFound,
}

/// One access point found by a scan.
#[derive(Debug, Clone, PartialEq, Eq)]
pub struct ScanResult {
    pub bssid: String,
    pub frequency: u32,
    pub signal: i32,
    pub flags: String,
    pub ssid: String,
}

/// The access points found by one scan. Shared, so that one snapshot can be
/// handed to several callers without copying, and never changed once made.
pub type ScanResults = std::sync::Arc<Vec<ScanResult>>;

/// Failure to reach the station: its request queue is closed, or it dropped
/// the reply handle without answering.
#[derive(Debug, Clone, Copy, PartialEq, Eq, Structural)]
pub enum Error {
    WifiStationRequestChannelClosed,
}

} // verus!
