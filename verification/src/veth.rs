use vstd::prelude::*;
use crate::errors::{NetOp, NetworkError};
use crate::names::{veth_host_name, veth_host_name_spec, veth_peer_name, veth_peer_name_spec};
use crate::netlink::{NetAction, NetEvent};

verus! {

/// Where the veth pair creation stands: the pair is created in one atomic
/// kernel call, both ends' indices are resolved by name, the host end is
/// brought up and attached to the bridge.
pub enum VethState {
    /// Awaiting the outcome of creating the pair.
    Creating,
    /// Awaiting the index of the host-side end.
    ResolvingHost,
    /// Awaiting the index of the peer-side end.
    ResolvingPeer { host_index: u32 },
    /// Awaiting the outcome of bringing the host end up.
    BringingUpHost { host_index: u32, peer_index: u32 },
    /// Awaiting the outcome of attaching the host end to the bridge.
    Attaching { host_index: u32, peer_index: u32 },
    /// Both ends exist; the host end is up and attached to the bridge.
    Ready { host_index: u32, peer_index: u32 },
    /// A step failed; the whole creation is aborted.
    Failed { error: NetworkError },
}

/// Veth pair creation as a step machine, bound to the bridge the host end
/// is attached to. Collisions of the randomly suffixed names are not
/// checked beforehand: if the kernel rejects the pair, the machine fails
/// with an `OperationError` rather than reusing existing state.
pub struct VethSetup {
    pub bridge_index: u32,
    pub host_name: String,
    pub peer_name: String,
    pub state: VethState,
}

/// The transition relation of the veth machine. Events that the current
/// state does not await leave the machine unchanged.
pub open spec fn veth_step_spec(s: VethState, e: NetEvent) -> VethState {
    match s {
        VethState::Creating => match e {
            NetEvent::Done => VethState::ResolvingHost,
            NetEvent::Failed { detail } => VethState::Failed {
                error: NetworkError::OperationError {
                    op: NetOp::CreateVethPair,
                    cause: Some(detail),
                },
            },
            _ => s,
        },
        VethState::ResolvingHost => match e {
            NetEvent::IndexFound { index } => VethState::ResolvingPeer { host_index: index },
            NetEvent::NotFound => VethState::Failed {
                error: NetworkError::OperationError { op: NetOp::ResolveVethIndex, cause: None },
            },
            NetEvent::Failed { detail } => VethState::Failed {
                error: NetworkError::ConnectionError { detail },
            },
            NetEvent::Done => s,
        },
        VethState::ResolvingPeer { host_index } => match e {
            NetEvent::IndexFound { index } => VethState::BringingUpHost {
                host_index,
                peer_index: index,
            },
            NetEvent::NotFound => VethState::Failed {
                error: NetworkError::OperationError { op: NetOp::ResolveVethIndex, cause: None },
            },
            NetEvent::Failed { detail } => VethState::Failed {
                error: NetworkError::ConnectionError { detail },
            },
            NetEvent::Done => s,
        },
        VethState::BringingUpHost { host_index, peer_index } => match e {
            NetEvent::Done => VethState::Attaching { host_index, peer_index },
            NetEvent::Failed { detail } => VethState::Failed {
                error: NetworkError::OperationError { op: NetOp::BringUpVeth, cause: Some(detail) },
            },
            _ => s,
        },
        VethState::Attaching { host_index, peer_index } => match e {
            NetEvent::Done => VethState::Ready { host_index, peer_index },
            NetEvent::Failed { detail } => VethState::Failed {
                error: NetworkError::OperationError {
                    op: NetOp::AttachToBridge,
                    cause: Some(detail),
                },
            },
            _ => s,
        },
        VethState::Ready { .. } => s,
        VethState::Failed { .. } => s,
    }
}

/// The action the machine asks for in a given state; `None` when terminal.
pub open spec fn veth_action_spec(m: VethSetup) -> Option<NetAction> {
    match m.state {
        VethState::Creating => Some(NetAction::AddVethPair { host: m.host_name, peer: m.peer_name }),
        VethState::ResolvingHost => Some(NetAction::GetLinkIndex { name: m.host_name }),
        VethState::ResolvingPeer { .. } => Some(NetAction::GetLinkIndex { name: m.peer_name }),
        VethState::BringingUpHost { host_index, .. } => Some(NetAction::SetUp { index: host_index }),
        VethState::Attaching { host_index, .. } => Some(
            NetAction::SetController { index: host_index, controller: m.bridge_index },
        ),
        VethState::Ready { .. } => None,
        VethState::Failed { .. } => None,
    }
}

/// One machine step at the level of the whole record.
pub open spec fn veth_machine_step(m: VethSetup, e: NetEvent) -> VethSetup {
    VethSetup {
        bridge_index: m.bridge_index,
        host_name: m.host_name,
        peer_name: m.peer_name,
        state: veth_step_spec(m.state, e),
    }
}

/// The machine after consuming a whole sequence of events.
pub open spec fn veth_run_spec(m: VethSetup, events: Seq<NetEvent>) -> VethSetup
    decreases events.len(),
{
    if events.len() == 0 {
        m
    } else {
        veth_run_spec(veth_machine_step(m, events[0]), events.drop_first())
    }
}

impl VethSetup {
    /// Start creating a veth pair whose names are derived from `suffix`,
    /// with the host end destined for the bridge at `bridge_index`.
    pub fn new(bridge_index: u32, suffix: &str) -> (m: VethSetup)
        ensures
            m.bridge_index == bridge_index,
            m.host_name@ == veth_host_name_spec(suffix@),
            m.peer_name@ == veth_peer_name_spec(suffix@),
            m.state == VethState::Creating,
    {
        VethSetup {
            bridge_index,
            host_name: veth_host_name(suffix),
            peer_name: veth_peer_name(suffix),
            state: VethState::Creating,
        }
    }

    /// The netlink action to perform next; `None` once the machine is done.
    pub fn pending_action(&self) -> (a: Option<NetAction>)
        ensures
            a == veth_action_spec(*self),
    {
        match &self.state {
            VethState::Creating => Some(
                NetAction::AddVethPair {
                    host: self.host_name.clone(),
                    peer: self.peer_name.clone(),
                },
            ),
            VethState::ResolvingHost => Some(
                NetAction::GetLinkIndex { name: self.host_name.clone() },
            ),
            VethState::ResolvingPeer { .. } => Some(
                NetAction::GetLinkIndex { name: self.peer_name.clone() },
            ),
            VethState::BringingUpHost { host_index, .. } => Some(
                NetAction::SetUp { index: *host_index },
            ),
            VethState::Attaching { host_index, .. } => Some(
                NetAction::SetController { index: *host_index, controller: self.bridge_index },
            ),
            VethState::Ready { .. } => None,
            VethState::Failed { .. } => None,
        }
    }

    /// Consume the outcome of the pending action and move on.
    pub fn step(self, event: NetEvent) -> (m: VethSetup)
        ensures
            m == veth_machine_step(self, event),
    {
        let VethSetup { bridge_index, host_name, peer_name, state } = self;
        let next = match (state, event) {
            (VethState::Creating, NetEvent::Done) => VethState::ResolvingHost,
            (VethState::Creating, NetEvent::Failed { detail }) => VethState::Failed {
                error: NetworkError::OperationError {
                    op: NetOp::CreateVethPair,
                    cause: Some(detail),
                },
            },
            (VethState::Creating, _) => VethState::Creating,
            (VethState::ResolvingHost, NetEvent::IndexFound { index }) => VethState::ResolvingPeer {
                host_index: index,
            },
            (VethState::ResolvingHost, NetEvent::NotFound) => VethState::Failed {
                error: NetworkError::OperationError { op: NetOp::ResolveVethIndex, cause: None },
            },
            (VethState::ResolvingHost, NetEvent::Failed { detail }) => VethState::Failed {
                error: NetworkError::ConnectionError { detail },
            },
            (VethState::ResolvingHost, NetEvent::Done) => VethState::ResolvingHost,
            (VethState::ResolvingPeer { host_index }, NetEvent::IndexFound { index }) => {
                VethState::BringingUpHost { host_index, peer_index: index }
            },
            (VethState::ResolvingPeer { host_index }, NetEvent::NotFound) => VethState::Failed {
                error: NetworkError::OperationError { op: NetOp::ResolveVethIndex, cause: None },
            },
            (VethState::ResolvingPeer { host_index }, NetEvent::Failed { detail }) => {
                VethState::Failed { error: NetworkError::ConnectionError { detail } }
            },
            (VethState::ResolvingPeer { host_index }, NetEvent::Done) => VethState::ResolvingPeer {
                host_index,
            },
            (VethState::BringingUpHost { host_index, peer_index }, NetEvent::Done) => {
                VethState::Attaching { host_index, peer_index }
            },
            (VethState::BringingUpHost { host_index, peer_index }, NetEvent::Failed { detail }) => {
                VethState::Failed {
                    error: NetworkError::OperationError {
                        op: NetOp::BringUpVeth,
                        cause: Some(detail),
                    },
                }
            },
            (VethState::BringingUpHost { host_index, peer_index }, _) => {
                VethState::BringingUpHost { host_index, peer_index }
            },
            (VethState::Attaching { host_index, peer_index }, NetEvent::Done) => VethState::Ready {
                host_index,
                peer_index,
            },
            (VethState::Attaching { host_index, peer_index }, NetEvent::Failed { detail }) => {
                VethState::Failed {
                    error: NetworkError::OperationError {
                        op: NetOp::AttachToBridge,
                        cause: Some(detail),
                    },
                }
            },
            (VethState::Attaching { host_index, peer_index }, _) => VethState::Attaching {
                host_index,
                peer_index,
            },
            (VethState::Ready { host_index, peer_index }, _) => VethState::Ready {
                host_index,
                peer_index,
            },
            (VethState::Failed { error }, _) => VethState::Failed { error },
        };
        VethSetup { bridge_index, host_name, peer_name, state: next }
    }
}

/// Once `Failed`, the machine stays `Failed` with the same error.
proof fn lemma_veth_failed_absorbs(m: VethSetup, err: NetworkError, events: Seq<NetEvent>)
    requires
        m.state == (VethState::Failed { error: err }),
    ensures
        veth_run_spec(m, events).state == (VethState::Failed { error: err }),
    decreases events.len(),
{
    if events.len() > 0 {
        lemma_veth_failed_absorbs(veth_machine_step(m, events[0]), err, events.drop_first());
    }
}

/// A forced name collision is a hard failure: when the kernel rejects the
/// pair creation, the machine ends `Failed` with an `OperationError` naming
/// the creation step, and never reaches `Ready` — existing state is not
/// silently reused.
pub proof fn lemma_veth_collision_fails(m: VethSetup, d: String, events: Seq<NetEvent>)
    requires
        m.state == VethState::Creating,
        events.len() >= 1,
        events[0] == (NetEvent::Failed { detail: d }),
    ensures
        veth_run_spec(m, events).state == (VethState::Failed {
            error: NetworkError::OperationError { op: NetOp::CreateVethPair, cause: Some(d) },
        }),
        !(veth_run_spec(m, events).state is Ready),
{
    let err = NetworkError::OperationError { op: NetOp::CreateVethPair, cause: Some(d) };
    let m1 = veth_machine_step(m, events[0]);
    assert(m1.state == (VethState::Failed { error: err }));
    lemma_veth_failed_absorbs(m1, err, events.drop_first());
}

} // verus!
