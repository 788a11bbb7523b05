use vstd::prelude::*;
use crate::addr::Ipv4Address;
use crate::errors::{NetOp, NetworkError};
use crate::netlink::{NetAction, NetEvent};

verus! {

/// Where the bridge preparation stands. The machine looks the bridge up by
/// name first; only when nothing is found does it create the device, assign
/// its address and bring it up.
pub enum BridgeState {
    /// Awaiting the answer to the initial lookup by name.
    LookingUp,
    /// Awaiting the outcome of creating the bridge device.
    Creating,
    /// Awaiting the index of the freshly created device (creation does not
    /// atomically return one).
    Resolving,
    /// Awaiting the outcome of assigning the address to the device.
    AssigningAddress { index: u32 },
    /// Awaiting the outcome of bringing the device up.
    BringingUp { index: u32 },
    /// The bridge exists, is addressed and up; `index` is its kernel index.
    Ready { index: u32 },
    /// A step failed; the whole preparation is aborted.
    Failed { error: NetworkError },
}

/// Idempotent bridge preparation as a step machine: it emits one
/// `NetAction` at a time and consumes the resulting `NetEvent`, until it is
/// `Ready` with the bridge's interface index or `Failed`.
pub struct BridgeSetup {
    pub name: String,
    pub addr: Ipv4Address,
    pub prefix: u8,
    pub state: BridgeState,
}

/// The transition relation of the bridge machine. Events that the current
/// state does not await leave the machine unchanged.
pub open spec fn bridge_step_spec(s: BridgeState, e: NetEvent) -> BridgeState {
    match s {
        BridgeState::LookingUp => match e {
            NetEvent::IndexFound { index } => BridgeState::Ready { index },
            NetEvent::NotFound => BridgeState::Creating,
            NetEvent::Failed { detail } => BridgeState::Creating,
            NetEvent::Done => s,
        },
        BridgeState::Creating => match e {
            NetEvent::Done => BridgeState::Resolving,
            NetEvent::Failed { detail } => BridgeState::Failed {
                error: NetworkError::OperationError {
                    op: NetOp::CreateBridge,
                    cause: Some(detail),
                },
            },
            _ => s,
        },
        BridgeState::Resolving => match e {
            NetEvent::IndexFound { index } => BridgeState::AssigningAddress { index },
            NetEvent::NotFound => BridgeState::Failed {
                error: NetworkError::OperationError {
                    op: NetOp::ResolveBridgeIndex,
                    cause: None,
                },
            },
            NetEvent::Failed { detail } => BridgeState::Failed {
                error: NetworkError::ConnectionError { detail },
            },
            NetEvent::Done => s,
        },
        BridgeState::AssigningAddress { index } => match e {
            NetEvent::Done => BridgeState::BringingUp { index },
            NetEvent::Failed { detail } => BridgeState::Failed {
                error: NetworkError::OperationError {
                    op: NetOp::AssignBridgeAddress,
                    cause: Some(detail),
                },
            },
            _ => s,
        },
        BridgeState::BringingUp { index } => match e {
            NetEvent::Done => BridgeState::Ready { index },
            NetEvent::Failed { detail } => BridgeState::Failed {
                error: NetworkError::OperationError {
                    op: NetOp::BringUpBridge,
                    cause: Some(detail),
                },
            },
            _ => s,
        },
        BridgeState::Ready { .. } => s,
        BridgeState::Failed { .. } => s,
    }
}

/// The action the machine asks for in a given state; `None` when terminal.
pub open spec fn bridge_action_spec(m: BridgeSetup) -> Option<NetAction> {
    match m.state {
        BridgeState::LookingUp => Some(NetAction::GetLinkIndex { name: m.name }),
        BridgeState::Creating => Some(NetAction::AddBridge { name: m.name }),
        BridgeState::Resolving => Some(NetAction::GetLinkIndex { name: m.name }),
        BridgeState::AssigningAddress { index } => Some(
            NetAction::AssignAddress { index, addr: m.addr, prefix: m.prefix },
        ),
        BridgeState::BringingUp { index } => Some(NetAction::SetUp { index }),
        BridgeState::Ready { .. } => None,
        BridgeState::Failed { .. } => None,
    }
}

/// One machine step at the level of the whole record.
pub open spec fn bridge_machine_step(m: BridgeSetup, e: NetEvent) -> BridgeSetup {
    BridgeSetup {
        name: m.name,
        addr: m.addr,
        prefix: m.prefix,
        state: bridge_step_spec(m.state, e),
    }
}

/// The machine after consuming a whole sequence of events.
pub open spec fn bridge_run_spec(m: BridgeSetup, events: Seq<NetEvent>) -> BridgeSetup
    decreases events.len(),
{
    if events.len() == 0 {
        m
    } else {
        bridge_run_spec(bridge_machine_step(m, events[0]), events.drop_first())
    }
}

/// The actions the machine emits while consuming a sequence of events: the
/// pending action of each visited non-terminal state, in order.
pub open spec fn bridge_run_actions(m: BridgeSetup, events: Seq<NetEvent>) -> Seq<NetAction>
    decreases events.len(),
{
    if events.len() == 0 {
        Seq::empty()
    } else {
        let head: Seq<NetAction> = match bridge_action_spec(m) {
            Some(a) => seq![a],
            None => Seq::empty(),
        };
        head + bridge_run_actions(bridge_machine_step(m, events[0]), events.drop_first())
    }
}

impl BridgeSetup {
    /// Start preparing a bridge with this name, address and prefix length.
    pub fn new(name: String, addr: Ipv4Address, prefix: u8) -> (m: BridgeSetup)
        ensures
            m.name == name,
            m.addr == addr,
            m.prefix == prefix,
            m.state == BridgeState::LookingUp,
    {
        BridgeSetup { name, addr, prefix, state: BridgeState::LookingUp }
    }

    /// The netlink action to perform next; `None` once the machine is done.
    pub fn pending_action(&self) -> (a: Option<NetAction>)
        ensures
            a == bridge_action_spec(*self),
    {
        match &self.state {
            BridgeState::LookingUp => Some(NetAction::GetLinkIndex { name: self.name.clone() }),
            BridgeState::Creating => Some(NetAction::AddBridge { name: self.name.clone() }),
            BridgeState::Resolving => Some(NetAction::GetLinkIndex { name: self.name.clone() }),
            BridgeState::AssigningAddress { index } => Some(
                NetAction::AssignAddress { index: *index, addr: self.addr, prefix: self.prefix },
            ),
            BridgeState::BringingUp { index } => Some(NetAction::SetUp { index: *index }),
            BridgeState::Ready { .. } => None,
            BridgeState::Failed { .. } => None,
        }
    }

    /// Consume the outcome of the pending action and move on.
    pub fn step(self, event: NetEvent) -> (m: BridgeSetup)
        ensures
            m == bridge_machine_step(self, event),
    {
        let BridgeSetup { name, addr, prefix, state } = self;
        let next = match (state, event) {
            (BridgeState::LookingUp, NetEvent::IndexFound { index }) => BridgeState::Ready {
                index,
            },
            (BridgeState::LookingUp, NetEvent::NotFound) => BridgeState::Creating,
            (BridgeState::LookingUp, NetEvent::Failed { detail }) => BridgeState::Creating,
            (BridgeState::LookingUp, NetEvent::Done) => BridgeState::LookingUp,
            (BridgeState::Creating, NetEvent::Done) => BridgeState::Resolving,
            (BridgeState::Creating, NetEvent::Failed { detail }) => BridgeState::Failed {
                error: NetworkError::OperationError {
                    op: NetOp::CreateBridge,
                    cause: Some(detail),
                },
            },
            (BridgeState::Creating, _) => BridgeState::Creating,
            (BridgeState::Resolving, NetEvent::IndexFound { index }) => {
                BridgeState::AssigningAddress { index }
            },
            (BridgeState::Resolving, NetEvent::NotFound) => BridgeState::Failed {
                error: NetworkError::OperationError {
                    op: NetOp::ResolveBridgeIndex,
                    cause: None,
                },
            },
            (BridgeState::Resolving, NetEvent::Failed { detail }) => BridgeState::Failed {
                error: NetworkError::ConnectionError { detail },
            },
            (BridgeState::Resolving, NetEvent::Done) => BridgeState::Resolving,
            (BridgeState::AssigningAddress { index }, NetEvent::Done) => BridgeState::BringingUp {
                index,
            },
            (BridgeState::AssigningAddress { index }, NetEvent::Failed { detail }) => {
                BridgeState::Failed {
                    error: NetworkError::OperationError {
                        op: NetOp::AssignBridgeAddress,
                        cause: Some(detail),
                    },
                }
            },
            (BridgeState::AssigningAddress { index }, _) => BridgeState::AssigningAddress {
                index,
            },
            (BridgeState::BringingUp { index }, NetEvent::Done) => BridgeState::Ready { index },
            (BridgeState::BringingUp { index }, NetEvent::Failed { detail }) => {
                BridgeState::Failed {
                    error: NetworkError::OperationError {
                        op: NetOp::BringUpBridge,
                        cause: Some(detail),
                    },
                }
            },
            (BridgeState::BringingUp { index }, _) => BridgeState::BringingUp { index },
            (BridgeState::Ready { index }, _) => BridgeState::Ready { index },
            (BridgeState::Failed { error }, _) => BridgeState::Failed { error },
        };
        BridgeSetup { name, addr, prefix, state: next }
    }
}

/// Once `Ready`, the machine stays `Ready` with the same index and emits no
/// further action, whatever events arrive.
proof fn lemma_bridge_ready_absorbs(m: BridgeSetup, i: u32, events: Seq<NetEvent>)
    requires
        m.state == (BridgeState::Ready { index: i }),
    ensures
        bridge_run_spec(m, events).state == (BridgeState::Ready { index: i }),
        bridge_run_actions(m, events) == Seq::<NetAction>::empty(),
    decreases events.len(),
{
    if events.len() > 0 {
        let m1 = bridge_machine_step(m, events[0]);
        assert(m1.state == (BridgeState::Ready { index: i }));
        lemma_bridge_ready_absorbs(m1, i, events.drop_first());
        assert(bridge_run_actions(m, events) =~= Seq::<NetAction>::empty());
    }
}

/// Idempotence of bridge preparation: when the initial lookup finds an
/// existing bridge with index `i`, the machine finishes `Ready` with that
/// same index and never asks for a device creation; run twice against a
/// host on which the bridge exists, both runs return the same index and
/// neither creates a duplicate device.
pub proof fn lemma_bridge_preparation_idempotent(m: BridgeSetup, i: u32, events: Seq<NetEvent>)
    requires
        m.state == BridgeState::LookingUp,
        events.len() >= 1,
        events[0] == (NetEvent::IndexFound { index: i }),
    ensures
        bridge_run_spec(m, events).state == (BridgeState::Ready { index: i }),
        forall|j: int|
            0 <= j < bridge_run_actions(m, events).len() ==> !(#[trigger] bridge_run_actions(
                m,
                events,
            )[j] is AddBridge),
{
    let m1 = bridge_machine_step(m, events[0]);
    assert(m1.state == (BridgeState::Ready { index: i }));
    lemma_bridge_ready_absorbs(m1, i, events.drop_first());
    assert(bridge_run_actions(m, events) =~= seq![
        NetAction::GetLinkIndex { name: m.name },
    ]);
}

} // verus!
