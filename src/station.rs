//! The station actor's state machine. The actor owns this state alone and
//! applies requests to it one at a time, in arrival order; each step returns
//! the action the actor's loop must carry out (reply, call the link layer,
//! persist, stop).
use vstd::prelude::*;
use crate::types::{
    Broadcast, JoinOutcome, NetworkConfig, NetworkResult, Request, ScanResult, ScanResults,
    SelectResult, SetNetwork,
};

verus! {

/// The station's state as contracts speak of it.
pub struct StationState {
    /// Configured networks, in the order they were added.
    pub networks: Seq<NetworkConfig>,
    /// The id the next added network receives; ids are never reused.
    pub next_id: nat,
    /// The network whose selection is being resolved by the link layer.
    pub pending: Option<usize>,
    /// False once a shutdown has been processed.
    pub running: bool,
}

/// What the actor's loop must do after one step.
#[derive(Debug, PartialEq, Eq)]
pub enum Action {
    /// Ask the link layer for the current status and reply with it.
    FetchStatus,
    /// Reply with the configured networks.
    ReplyNetworks(Vec<NetworkResult>),
    /// Ask the link layer for a scan and reply with a fresh snapshot.
    PerformScan,
    /// Reply with the id of the network just added.
    ReplyNetworkId(usize),
    /// Ask the link layer to join this network; the reply waits for its outcome.
    BeginSelect(NetworkConfig),
    /// Reply to a select request at once.
    ReplySelect(SelectResult),
    /// Write this network list to configuration storage.
    Persist(Vec<NetworkConfig>),
    /// A fire-and-forget edit was applied.
    Applied,
    /// A fire-and-forget request named a network that is not configured.
    UnknownNetwork(usize),
    /// The request is not carried out: its reply handle is dropped, and the
    /// caller sees the control-channel failure.
    Refuse,
    /// Leave the loop: requests still queued are never processed.
    Stop,
}

pub open spec fn has_id(nets: Seq<NetworkConfig>, id: usize) -> bool {
    exists|i: int| 0 <= i < nets.len() && #[trigger] nets[i].id == id
}

/// Ids appear in strictly increasing order, all below the next id to give.
pub open spec fn state_wf(s: StationState) -> bool {
    &&& forall|i: int, j: int|
        0 <= i < j < s.networks.len() ==> #[trigger] s.networks[i].id < #[trigger] s.networks[j].id
    &&& forall|i: int| 0 <= i < s.networks.len() ==> #[trigger] s.networks[i].id < s.next_id
    &&& s.next_id <= usize::MAX
}

pub open spec fn result_of(c: NetworkConfig) -> NetworkResult {
    NetworkResult { network_id: c.id, ssid: c.ssid }
}

pub open spec fn results_of(nets: Seq<NetworkConfig>) -> Seq<NetworkResult> {
    nets.map_values(|c: NetworkConfig| result_of(c))
}

pub open spec fn edit_config(c: NetworkConfig, e: SetNetwork) -> NetworkConfig {
    match e {
        SetNetwork::Ssid(s) => NetworkConfig { ssid: s, ..c },
        SetNetwork::Psk(p) => NetworkConfig { psk: p, ..c },
    }
}

pub open spec fn select_result_of(o: JoinOutcome) -> SelectResult {
    match o {
        JoinOutcome::Joined => SelectResult::Success,
        JoinOutcome::WrongPsk => SelectResult::WrongPsk,
        JoinOutcome::NotFound => SelectResult::NotFound,
    }
}

pub open spec fn broadcast_of(o: JoinOutcome) -> Broadcast {
    match o {
        JoinOutcome::Joined => Broadcast::Connected,
        JoinOutcome::WrongPsk => Broadcast::WrongPsk,
        JoinOutcome::NotFound => Broadcast::NetworkNotFound,
    }
}

/// One step of the actor: from state `pre`, request `req` leads to state
/// `post` and action `a`.
pub open spec fn step_ok(pre: StationState, req: Request, post: StationState, a: Action) -> bool {
    let nets = pre.networks;
    if !pre.running {
        post == pre && a is Refuse
    } else {
        match req {
            Request::Status => post == pre && a is FetchStatus,
            Request::Networks => post == pre && (a matches Action::ReplyNetworks(v) && v@
                == results_of(nets)),
            Request::Scan => post == pre && a is PerformScan,
            Request::AddNetwork => if pre.next_id < usize::MAX {
                &&& a == Action::ReplyNetworkId(pre.next_id as usize)
                &&& post.networks.len() == nets.len() + 1
                &&& post.networks.drop_last() == nets
                &&& post.networks.last().id == pre.next_id
                &&& post.networks.last().ssid@.len() == 0
                &&& post.networks.last().psk@.len() == 0
                &&& post.next_id == pre.next_id + 1
                &&& post.pending == pre.pending
                &&& post.running
            } else {
                post == pre && a is Refuse
            },
            Request::SetNetwork(id, e) => if has_id(nets, id) {
                &&& a is Applied
                &&& exists|i: int|
                    0 <= i < nets.len() && #[trigger] nets[i].id == id && post == StationState {
                        networks: nets.update(i, edit_config(nets[i], e)),
                        ..pre
                    }
            } else {
                post == pre && a == Action::UnknownNetwork(id)
            },
            Request::SaveConfig => post == pre && (a matches Action::Persist(v) && v@ == nets),
            Request::RemoveNetwork(id) => if has_id(nets, id) {
                &&& a is Applied
                &&& exists|i: int|
                    0 <= i < nets.len() && #[trigger] nets[i].id == id && post == StationState {
                        networks: nets.remove(i),
                        ..pre
                    }
            } else {
                post == pre && a == Action::UnknownNetwork(id)
            },
            Request::SelectNetwork(id) => if !has_id(nets, id) {
                post == pre && a == Action::ReplySelect(SelectResult::InvalidNetworkId)
            } else if pre.pending is Some {
                post == pre && a == Action::ReplySelect(SelectResult::PendingSelect)
            } else {
                &&& exists|i: int|
                    0 <= i < nets.len() && #[trigger] nets[i].id == id && a == Action::BeginSelect(
                        nets[i],
                    )
                &&& post == StationState { pending: Some(id), ..pre }
            },
            Request::Shutdown => post == StationState { running: false, ..pre } && a is Stop,
        }
    }
}

/// Freeze the access points of one completed scan into a snapshot of its own.
/// Each scan makes a new snapshot; one handed out earlier is never touched.
pub fn snapshot(results: Vec<ScanResult>) -> (s: ScanResults)
    ensures
        *s == results,
{
    std::sync::Arc::new(results)
}

/// The state owned by the station actor.
pub struct Station {
    networks: Vec<NetworkConfig>,
    next_id: usize,
    pending: Option<usize>,
    running: bool,
}

impl View for Station {
    type V = StationState;

    closed spec fn view(&self) -> StationState {
        StationState {
            networks: self.networks@,
            next_id: self.next_id as nat,
            pending: self.pending,
            running: self.running,
        }
    }
}

fn copy_config(c: &NetworkConfig) -> (r: NetworkConfig)
    ensures
        r == *c,
{
    NetworkConfig { id: c.id, ssid: c.ssid.clone(), psk: c.psk.clone() }
}

impl Station {
    pub open spec fn wf(&self) -> bool {
        state_wf(self@)
    }

    /// A running station with no configured network and no pending selection.
    pub fn new() -> (s: Station)
        ensures
            s.wf(),
            s@.networks.len() == 0,
            s@.next_id == 0,
            s@.pending is None,
            s@.running,
    {
        Station { networks: Vec::new(), next_id: 0, pending: None, running: true }
    }

    fn position(&self, id: usize) -> (r: Option<usize>)
        ensures
            r matches Some(i) ==> i < self@.networks.len() && self@.networks[i as int].id == id,
            r is None ==> !has_id(self@.networks, id),
    {
        let mut i: usize = 0;
        while i < self.networks.len()
            invariant
                i <= self.networks@.len(),
                forall|k: int| 0 <= k < i ==> #[trigger] self.networks@[k].id != id,
            decreases self.networks@.len() - i,
        {
            if self.networks[i].id == id {
                return Some(i);
            }
            i = i + 1;
        }
        None
    }
    fn network_results(&self) -> (r: Vec<NetworkResult>)
        ensures
            r@ == results_of(self@.networks),
    {
        let mut out: Vec<NetworkResult> = Vec::new();
        let mut i: usize = 0;
        while i < self.networks.len()
            invariant
                i <= self.networks@.len(),
                out@ == results_of(self.networks@.subrange(0, i as int)),
            decreases self.networks@.len() - i,
        {
            let c = &self.networks[i];
            out.push(NetworkResult { network_id: c.id, ssid: c.ssid.clone() });
            assert(self.networks@.subrange(0, i + 1) == self.networks@.subrange(0, i as int).push(
                self.networks@[i as int],
            ));
            i = i + 1;
        }
        assert(self.networks@.subrange(0, i as int) == self.networks@);
        out
    }

    fn network_configs(&self) -> (r: Vec<NetworkConfig>)
        ensures
            r@ == self@.networks,
    {
        let mut out: Vec<NetworkConfig> = Vec::new();
        let mut i: usize = 0;
        while i < self.networks.len()
            invariant
                i <= self.networks@.len(),
                out@ == self.networks@.subrange(0, i as int),
            decreases self.networks@.len() - i,
        {
            out.push(copy_config(&self.networks[i]));
            assert(self.networks@.subrange(0, i + 1) == self.networks@.subrange(0, i as int).push(
                self.networks@[i as int],
            ));
            i = i + 1;
        }
        assert(self.networks@.subrange(0, i as int) == self.networks@);
        out
    }

    fn add_network(&mut self) -> (a: Action)
        requires
            old(self).wf(),
            old(self)@.running,
        ensures
            final(self).wf(),
            step_ok(old(self)@, Request::AddNetwork, final(self)@, a),
    {
        if self.next_id == usize::MAX {
            return Action::Refuse;
        }
        let id = self.next_id;
        assert(state_wf(old(self)@));
        assert(old(self)@.networks == old(self).networks@);
        assert(old(self)@.next_id == id);
        assert(forall|k: int| 0 <= k < old(self).networks@.len() ==> #[trigger] old(self).networks@[k].id < id);
        self.networks.push(NetworkConfig { id, ssid: String::new(), psk: String::new() });
        self.next_id = id + 1;
        assert(self.networks@.drop_last() == old(self).networks@);
        assert forall|a: int, b: int| 0 <= a < b < self.networks@.len() implies #[trigger] self.networks@[a].id
            < #[trigger] self.networks@[b].id by {
            if b == self.networks@.len() - 1 {
                assert(self.networks@[a] == old(self).networks@[a]);
            } else {
                assert(self.networks@[a] == old(self).networks@[a]);
                assert(self.networks@[b] == old(self).networks@[b]);
            }
        }
        assert forall|a: int| 0 <= a < self.networks@.len() implies #[trigger] self.networks@[a].id
            < self.next_id by {
            if a < self.networks@.len() - 1 {
                assert(self.networks@[a] == old(self).networks@[a]);
            }
        }
        Action::ReplyNetworkId(id)
    }

    fn set_network(&mut self, id: usize, e: SetNetwork) -> (a: Action)
        requires
            old(self).wf(),
            old(self)@.running,
        ensures
            final(self).wf(),
            step_ok(old(self)@, Request::SetNetwork(id, e), final(self)@, a),
    {
        let ghost e0 = e;
        match self.position(id) {
            None => Action::UnknownNetwork(id),
            Some(i) => {
                let old_cfg = copy_config(&self.networks[i]);
                let cfg = match e {
                    SetNetwork::Ssid(s) => NetworkConfig { id: old_cfg.id, ssid: s, psk: old_cfg.psk },
                    SetNetwork::Psk(p) => NetworkConfig { id: old_cfg.id, ssid: old_cfg.ssid, psk: p },
                };
                assert(cfg == edit_config(old(self)@.networks[i as int], e0));
                self.networks.set(i, cfg);
                assert(self@ == StationState {
                    networks: old(self)@.networks.update(i as int, edit_config(old(self)@.networks[i as int], e0)),
                    ..old(self)@
                });
                Action::Applied
            },
        }
    }

    fn remove_network(&mut self, id: usize) -> (a: Action)
        requires
            old(self).wf(),
            old(self)@.running,
        ensures
            final(self).wf(),
            step_ok(old(self)@, Request::RemoveNetwork(id), final(self)@, a),
    {
        match self.position(id) {
            None => Action::UnknownNetwork(id),
            Some(i) => {
                self.networks.remove(i);
                proof {
                    old(self)@.networks.remove_ensures(i as int);
                }
                assert(self@ == StationState { networks: old(self)@.networks.remove(i as int), ..old(self)@ });
                Action::Applied
            },
        }
    }

    fn select_network(&mut self, id: usize) -> (a: Action)
        requires
            old(self).wf(),
            old(self)@.running,
        ensures
            final(self).wf(),
            step_ok(old(self)@, Request::SelectNetwork(id), final(self)@, a),
    {
        match self.position(id) {
            None => Action::ReplySelect(SelectResult::InvalidNetworkId),
            Some(i) => {
                if self.pending.is_some() {
                    Action::ReplySelect(SelectResult::PendingSelect)
                } else {
                    self.pending = Some(id);
                    Action::BeginSelect(copy_config(&self.networks[i]))
                }
            },
        }
    }

    /// Apply one request to the station and return what the actor's loop must
    /// do next. A stopped station refuses every request.
    pub fn step(&mut self, req: Request) -> (a: Action)
        requires
            old(self).wf(),
        ensures
            final(self).wf(),
            step_ok(old(self)@, req, final(self)@, a),
    {
        if !self.running {
            Action::Refuse
        } else {
            self.step_running(req)
        }
    }

    fn step_running(&mut self, req: Request) -> (a: Action)
        requires
            old(self).wf(),
            old(self)@.running,
        ensures
            final(self).wf(),
            step_ok(old(self)@, req, final(self)@, a),
    {
        match req {
            Request::Status => Action::FetchStatus,
            Request::Networks => Action::ReplyNetworks(self.network_results()),
            Request::Scan => Action::PerformScan,
            Request::AddNetwork => self.add_network(),
            Request::SetNetwork(id, e) => self.set_network(id, e),
            Request::SaveConfig => Action::Persist(self.network_configs()),
            Request::RemoveNetwork(id) => self.remove_network(id),
            Request::SelectNetwork(id) => self.select_network(id),
            Request::Shutdown => {
                self.running = false;
                assert(self@ == StationState { running: false, ..old(self)@ });
                Action::Stop
            },
        }
    }
    /// Settle the pending selection with the link layer's answer. The caller
    /// of the pending selection, if any, gets the matching select outcome, and
    /// every subscriber gets the matching event; an answer that arrives with
    /// no selection pending is an event only.
    pub fn resolve_select(&mut self, outcome: JoinOutcome) -> (r: (Option<SelectResult>, Broadcast))
        requires
            old(self).wf(),
        ensures
            final(self).wf(),
            final(self)@ == (StationState { pending: None, ..old(self)@ }),
            r.0 == (if old(self)@.pending is Some {
                Some(select_result_of(outcome))
            } else {
                None
            }),
            r.1 == broadcast_of(outcome),
    {
        let reply = if self.pending.is_some() {
            Some(match outcome {
                JoinOutcome::Joined => SelectResult::Success,
                JoinOutcome::WrongPsk => SelectResult::WrongPsk,
                JoinOutcome::NotFound => SelectResult::NotFound,
            })
        } else {
            None
        };
        let event = match outcome {
            JoinOutcome::Joined => Broadcast::Connected,
            JoinOutcome::WrongPsk => Broadcast::WrongPsk,
            JoinOutcome::NotFound => Broadcast::NetworkNotFound,
        };
        self.pending = None;
        assert(self@ == StationState { pending: None, ..old(self)@ });
        (reply, event)
    }

    /// Whether the station still processes requests.
    pub fn is_running(&self) -> (r: bool)
        ensures
            r == self@.running,
    {
        self.running
    }

    /// The network whose selection is being resolved, if any.
    pub fn pending_select(&self) -> (r: Option<usize>)
        ensures
            r == self@.pending,
    {
        self.pending
    }
}

} // verus!
