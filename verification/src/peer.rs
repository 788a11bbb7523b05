use vstd::prelude::*;
use vstd::string::*;
use crate::addr::Ipv4Address;
use crate::errors::{NetOp, NetworkError};
use crate::netlink::{NetAction, NetEvent};

verus! {

/// The reserved name of the loopback interface inside every namespace.
pub open spec fn loopback_name_spec() -> Seq<char> {
    "lo"@
}

/// Where the in-namespace configuration of the migrated peer end stands:
/// assign its address, bring it up, then resolve and bring up loopback.
/// This runs inside the child's namespace, after migration.
pub enum PeerState {
    /// Awaiting the outcome of assigning the address to the peer end.
    AssigningAddress,
    /// Awaiting the outcome of bringing the peer end up.
    BringingUp,
    /// Awaiting the index of the loopback interface.
    ResolvingLoopback,
    /// Awaiting the outcome of bringing loopback up.
    BringingUpLoopback { lo_index: u32 },
    /// The peer end is addressed and up, and loopback works.
    Ready,
    /// A step failed; the namespace is not usable.
    Failed { error: NetworkError },
}

/// Peer-end configuration as a step machine over the peer's interface
/// index, its address and prefix length.
pub struct PeerSetup {
    pub index: u32,
    pub addr: Ipv4Address,
    pub prefix: u8,
    pub state: PeerState,
}

/// The transition relation of the peer machine. Events that the current
/// state does not await leave the machine unchanged.
pub open spec fn peer_step_spec(s: PeerState, e: NetEvent) -> PeerState {
    match s {
        PeerState::AssigningAddress => match e {
            NetEvent::Done => PeerState::BringingUp,
            NetEvent::Failed { detail } => PeerState::Failed {
                error: NetworkError::OperationError {
                    op: NetOp::AssignPeerAddress,
                    cause: Some(detail),
                },
            },
            _ => s,
        },
        PeerState::BringingUp => match e {
            NetEvent::Done => PeerState::ResolvingLoopback,
            NetEvent::Failed { detail } => PeerState::Failed {
                error: NetworkError::OperationError { op: NetOp::BringUpPeer, cause: Some(detail) },
            },
            _ => s,
        },
        PeerState::ResolvingLoopback => match e {
            NetEvent::IndexFound { index } => PeerState::BringingUpLoopback { lo_index: index },
            NetEvent::NotFound => PeerState::Failed {
                error: NetworkError::OperationError { op: NetOp::ResolveLoopback, cause: None },
            },
            NetEvent::Failed { detail } => PeerState::Failed {
                error: NetworkError::ConnectionError { detail },
            },
            NetEvent::Done => s,
        },
        PeerState::BringingUpLoopback { lo_index } => match e {
            NetEvent::Done => PeerState::Ready,
            NetEvent::Failed { detail } => PeerState::Failed {
                error: NetworkError::OperationError {
                    op: NetOp::BringUpLoopback,
                    cause: Some(detail),
                },
            },
            _ => s,
        },
        PeerState::Ready => s,
        PeerState::Failed { .. } => s,
    }
}

/// What the pending action must be in each state; stated as a predicate
/// because the loopback lookup carries a name the machine does not store.
pub open spec fn peer_action_matches(m: PeerSetup, a: Option<NetAction>) -> bool {
    match m.state {
        PeerState::AssigningAddress => a == Some(
            NetAction::AssignAddress { index: m.index, addr: m.addr, prefix: m.prefix },
        ),
        PeerState::BringingUp => a == Some(NetAction::SetUp { index: m.index }),
        PeerState::ResolvingLoopback => match a {
            Some(NetAction::GetLinkIndex { name }) => name@ == loopback_name_spec(),
            _ => false,
        },
        PeerState::BringingUpLoopback { lo_index } => a == Some(NetAction::SetUp { index: lo_index }),
        PeerState::Ready => a is None,
        PeerState::Failed { .. } => a is None,
    }
}

impl PeerSetup {
    /// Start configuring the migrated peer end at `index` with this address.
    pub fn new(index: u32, addr: Ipv4Address, prefix: u8) -> (m: PeerSetup)
        ensures
            m.index == index,
            m.addr == addr,
            m.prefix == prefix,
            m.state == PeerState::AssigningAddress,
    {
        PeerSetup { index, addr, prefix, state: PeerState::AssigningAddress }
    }

    /// The netlink action to perform next; `None` once the machine is done.
    pub fn pending_action(&self) -> (a: Option<NetAction>)
        ensures
            peer_action_matches(*self, a),
    {
        match &self.state {
            PeerState::AssigningAddress => Some(
                NetAction::AssignAddress { index: self.index, addr: self.addr, prefix: self.prefix },
            ),
            PeerState::BringingUp => Some(NetAction::SetUp { index: self.index }),
            PeerState::ResolvingLoopback => Some(
                NetAction::GetLinkIndex { name: String::from_str("lo") },
            ),
            PeerState::BringingUpLoopback { lo_index } => Some(NetAction::SetUp { index: *lo_index }),
            PeerState::Ready => None,
            PeerState::Failed { .. } => None,
        }
    }

    /// Consume the outcome of the pending action and move on.
    pub fn step(self, event: NetEvent) -> (m: PeerSetup)
        ensures
            m.index == self.index,
            m.addr == self.addr,
            m.prefix == self.prefix,
            m.state == peer_step_spec(self.state, event),
    {
        let PeerSetup { index, addr, prefix, state } = self;
        let next = match (state, event) {
            (PeerState::AssigningAddress, NetEvent::Done) => PeerState::BringingUp,
            (PeerState::AssigningAddress, NetEvent::Failed { detail }) => PeerState::Failed {
                error: NetworkError::OperationError {
                    op: NetOp::AssignPeerAddress,
                    cause: Some(detail),
                },
            },
            (PeerState::AssigningAddress, _) => PeerState::AssigningAddress,
            (PeerState::BringingUp, NetEvent::Done) => PeerState::ResolvingLoopback,
            (PeerState::BringingUp, NetEvent::Failed { detail }) => PeerState::Failed {
                error: NetworkError::OperationError { op: NetOp::BringUpPeer, cause: Some(detail) },
            },
            (PeerState::BringingUp, _) => PeerState::BringingUp,
            (PeerState::ResolvingLoopback, NetEvent::IndexFound { index: li }) => {
                PeerState::BringingUpLoopback { lo_index: li }
            },
            (PeerState::ResolvingLoopback, NetEvent::NotFound) => PeerState::Failed {
                error: NetworkError::OperationError { op: NetOp::ResolveLoopback, cause: None },
            },
            (PeerState::ResolvingLoopback, NetEvent::Failed { detail }) => PeerState::Failed {
                error: NetworkError::ConnectionError { detail },
            },
            (PeerState::ResolvingLoopback, NetEvent::Done) => PeerState::ResolvingLoopback,
            (PeerState::BringingUpLoopback { lo_index }, NetEvent::Done) => PeerState::Ready,
            (PeerState::BringingUpLoopback { lo_index }, NetEvent::Failed { detail }) => {
                PeerState::Failed {
                    error: NetworkError::OperationError {
                        op: NetOp::BringUpLoopback,
                        cause: Some(detail),
                    },
                }
            },
            (PeerState::BringingUpLoopback { lo_index }, _) => PeerState::BringingUpLoopback {
                lo_index,
            },
            (PeerState::Ready, _) => PeerState::Ready,
            (PeerState::Failed { error }, _) => PeerState::Failed { error },
        };
        PeerSetup { index, addr, prefix, state: next }
    }
}

/// The single netlink action that migrates the peer end at `veth_index`
/// into the network namespace of the process `pid`. The target namespace
/// must already exist: the caller issues this only after the child process
/// was created with a fresh network namespace.
pub fn migration_action(veth_index: u32, pid: u32) -> (a: NetAction)
    ensures
        a == (NetAction::SetNamespaceByPid { index: veth_index, pid }),
{
    NetAction::SetNamespaceByPid { index: veth_index, pid }
}

/// Interpret the outcome of the migration: completion is success, a kernel
/// error is an `OperationError` naming the migration step, and an answer of
/// the wrong shape is the same error without a kernel message.
pub fn migration_result(event: NetEvent) -> (r: Result<(), NetworkError>)
    ensures
        match event {
            NetEvent::Done => r is Ok,
            NetEvent::Failed { detail } => r == Err::<(), NetworkError>(
                NetworkError::OperationError {
                    op: NetOp::MigrateToNamespace,
                    cause: Some(detail),
                },
            ),
            _ => r == Err::<(), NetworkError>(
                NetworkError::OperationError { op: NetOp::MigrateToNamespace, cause: None },
            ),
        },
{
    match event {
        NetEvent::Done => Ok(()),
        NetEvent::Failed { detail } => Err(
            NetworkError::OperationError { op: NetOp::MigrateToNamespace, cause: Some(detail) },
        ),
        _ => Err(NetworkError::OperationError { op: NetOp::MigrateToNamespace, cause: None }),
    }
}

} // verus!
