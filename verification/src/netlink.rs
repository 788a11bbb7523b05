use vstd::prelude::*;
use crate::addr::Ipv4Address;

verus! {

/// One kernel-object mutation or query that the orchestration asks the
/// netlink control channel to perform. The orchestration machines emit
/// these; an unverified driver performs them and reports a `NetEvent`.
pub enum NetAction {
    /// Look an interface up by name and report its index.
    GetLinkIndex { name: String },
    /// Create a bridge device with the given name.
    AddBridge { name: String },
    /// Create a veth pair with the two given names in one atomic call.
    AddVethPair { host: String, peer: String },
    /// Assign an IPv4 address with a prefix length to an interface.
    AssignAddress { index: u32, addr: Ipv4Address, prefix: u8 },
    /// Bring an interface administratively up.
    SetUp { index: u32 },
    /// Attach an interface to a bridge (set its controller).
    SetController { index: u32, controller: u32 },
    /// Move an interface into the network namespace of a process.
    SetNamespaceByPid { index: u32, pid: u32 },
}

/// The outcome of one performed `NetAction`. Queries answer with
/// `IndexFound` or `NotFound`; mutations answer with `Done`; `Failed`
/// carries the kernel's or the channel's error message.
pub enum NetEvent {
    IndexFound { index: u32 },
    NotFound,
    Done,
    Failed { detail: String },
}

} // verus!
