use vstd::prelude::*;
use crate::addr::Ipv4Address;
use crate::bridge::{bridge_action_spec, bridge_machine_step, BridgeSetup, BridgeState};
use crate::errors::NetworkError;
use crate::names::{veth_host_name_spec, veth_peer_name_spec};
use crate::netlink::{NetAction, NetEvent};
use crate::veth::{veth_action_spec, veth_machine_step, VethSetup, VethState};

verus! {

/// The two-phase host-side preparation: the bridge first, then the veth
/// pair attached to it. This is everything that happens before the child
/// process is spawned.
pub enum NetworkPhase {
    /// The bridge machine is running.
    Bridge { bridge: BridgeSetup },
    /// The bridge is ready; the veth machine is running.
    Veth { bridge_index: u32, veth: VethSetup },
    /// Host-side preparation is complete: the three indices the caller
    /// needs to drive the remaining steps.
    Ready { bridge_index: u32, host_index: u32, peer_index: u32 },
    /// A phase failed; the whole preparation is aborted.
    Failed { error: NetworkError },
}

/// Host-side network preparation as one step machine composing the bridge
/// and veth machines. The veth names are derived from `suffix` the moment
/// the bridge phase completes.
pub struct NetworkSetup {
    pub suffix: String,
    pub phase: NetworkPhase,
}

/// How one consumed event relates the machine before and after: the inner
/// machine steps, and a completed inner machine hands over to the next
/// phase (a fresh veth machine, or the final indices).
pub open spec fn network_step_ok(pre: NetworkSetup, e: NetEvent, post: NetworkSetup) -> bool {
    &&& post.suffix == pre.suffix
    &&& match pre.phase {
        NetworkPhase::Bridge { bridge } => {
            let b2 = bridge_machine_step(bridge, e);
            match b2.state {
                BridgeState::Ready { index } => {
                    &&& post.phase matches NetworkPhase::Veth { bridge_index, veth }
                    &&& bridge_index == index
                    &&& veth.bridge_index == index
                    &&& veth.host_name@ == veth_host_name_spec(pre.suffix@)
                    &&& veth.peer_name@ == veth_peer_name_spec(pre.suffix@)
                    &&& veth.state == VethState::Creating
                },
                BridgeState::Failed { error } => post.phase == (NetworkPhase::Failed { error }),
                _ => post.phase == (NetworkPhase::Bridge { bridge: b2 }),
            }
        },
        NetworkPhase::Veth { bridge_index, veth } => {
            let v2 = veth_machine_step(veth, e);
            match v2.state {
                VethState::Ready { host_index, peer_index } => post.phase == (NetworkPhase::Ready {
                    bridge_index,
                    host_index,
                    peer_index,
                }),
                VethState::Failed { error } => post.phase == (NetworkPhase::Failed { error }),
                _ => post.phase == (NetworkPhase::Veth { bridge_index, veth: v2 }),
            }
        },
        NetworkPhase::Ready { .. } => post == pre,
        NetworkPhase::Failed { .. } => post == pre,
    }
}

/// The action the composed machine asks for: the inner machine's pending
/// action, or none once preparation has settled.
pub open spec fn network_action_spec(m: NetworkSetup) -> Option<NetAction> {
    match m.phase {
        NetworkPhase::Bridge { bridge } => bridge_action_spec(bridge),
        NetworkPhase::Veth { veth, .. } => veth_action_spec(veth),
        NetworkPhase::Ready { .. } => None,
        NetworkPhase::Failed { .. } => None,
    }
}

impl NetworkSetup {
    /// Start preparing the host side: a bridge with this name and address,
    /// then a veth pair whose names are derived from `suffix`.
    pub fn new(bridge_name: String, addr: Ipv4Address, prefix: u8, suffix: String) -> (m:
        NetworkSetup)
        ensures
            m.suffix == suffix,
            m.phase matches NetworkPhase::Bridge { bridge } && bridge.name == bridge_name
                && bridge.addr == addr && bridge.prefix == prefix && bridge.state
                == BridgeState::LookingUp,
    {
        NetworkSetup {
            suffix,
            phase: NetworkPhase::Bridge { bridge: BridgeSetup::new(bridge_name, addr, prefix) },
        }
    }

    /// The netlink action to perform next; `None` once preparation settled.
    pub fn pending_action(&self) -> (a: Option<NetAction>)
        ensures
            a == network_action_spec(*self),
    {
        match &self.phase {
            NetworkPhase::Bridge { bridge } => bridge.pending_action(),
            NetworkPhase::Veth { veth, .. } => veth.pending_action(),
            NetworkPhase::Ready { .. } => None,
            NetworkPhase::Failed { .. } => None,
        }
    }

    /// Consume the outcome of the pending action and move on, handing over
    /// from the bridge phase to the veth phase when the bridge is ready.
    pub fn step(self, event: NetEvent) -> (m: NetworkSetup)
        ensures
            network_step_ok(self, event, m),
    {
        let NetworkSetup { suffix, phase } = self;
        match phase {
            NetworkPhase::Bridge { bridge } => {
                let b2 = bridge.step(event);
                let BridgeSetup { name, addr, prefix, state } = b2;
                match state {
                    BridgeState::Ready { index } => {
                        let veth = VethSetup::new(index, suffix.as_str());
                        NetworkSetup { suffix, phase: NetworkPhase::Veth { bridge_index: index, veth } }
                    },
                    BridgeState::Failed { error } => NetworkSetup {
                        suffix,
                        phase: NetworkPhase::Failed { error },
                    },
                    other => NetworkSetup {
                        suffix,
                        phase: NetworkPhase::Bridge {
                            bridge: BridgeSetup { name, addr, prefix, state: other },
                        },
                    },
                }
            },
            NetworkPhase::Veth { bridge_index, veth } => {
                let v2 = veth.step(event);
                let VethSetup { bridge_index: vb, host_name, peer_name, state } = v2;
                match state {
                    VethState::Ready { host_index, peer_index } => NetworkSetup {
                        suffix,
                        phase: NetworkPhase::Ready { bridge_index, host_index, peer_index },
                    },
                    VethState::Failed { error } => NetworkSetup {
                        suffix,
                        phase: NetworkPhase::Failed { error },
                    },
                    other => NetworkSetup {
                        suffix,
                        phase: NetworkPhase::Veth {
                            bridge_index,
                            veth: VethSetup {
                                bridge_index: vb,
                                host_name,
                                peer_name,
                                state: other,
                            },
                        },
                    },
                }
            },
            NetworkPhase::Ready { bridge_index, host_index, peer_index } => NetworkSetup {
                suffix,
                phase: NetworkPhase::Ready { bridge_index, host_index, peer_index },
            },
            NetworkPhase::Failed { error } => NetworkSetup {
                suffix,
                phase: NetworkPhase::Failed { error },
            },
        }
    }
}

} // verus!
