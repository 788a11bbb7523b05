use vstd::prelude::*;
use vstd::string::*;

verus! {

/// The orchestration step in which a network failure occurred.
#[derive(Clone, Copy, Debug, PartialEq, Eq, Structural)]
pub enum NetOp {
    CreateBridge,
    ResolveBridgeIndex,
    AssignBridgeAddress,
    BringUpBridge,
    CreateVethPair,
    ResolveVethIndex,
    BringUpVeth,
    AttachToBridge,
    MigrateToNamespace,
    AssignPeerAddress,
    BringUpPeer,
    ResolveLoopback,
    BringUpLoopback,
}

/// Failure taxonomy of the network orchestration, one variant per failure
/// axis: the kernel control channel itself, a specific orchestration step,
/// an address that does not parse, and lower-level I/O.
#[derive(Debug)]
pub enum NetworkError {
    /// Failure to establish or use the kernel networking control channel.
    ConnectionError { detail: String },
    /// A specific orchestration step failed. `cause` carries the kernel's
    /// message; `None` means the step got no usable answer — the object it
    /// needed was not found, or the channel answered with the wrong shape.
    OperationError { op: NetOp, cause: Option<String> },
    /// A supplied IPv4 address string is not valid.
    AddressParseError { input: String },
    /// Lower-level I/O failure unrelated to the netlink control path.
    Other { detail: String },
}

/// The failure axis alone, without its payload; convenient for callers
/// that only dispatch on the kind of failure.
#[derive(Clone, Copy, Debug, PartialEq, Eq, Structural)]
pub enum NetworkErrorKind {
    Connection,
    Operation,
    AddressParse,
    Other,
}

pub open spec fn op_label_spec(op: NetOp) -> Seq<char> {
    match op {
        NetOp::CreateBridge => "create bridge"@,
        NetOp::ResolveBridgeIndex => "resolve bridge index"@,
        NetOp::AssignBridgeAddress => "assign address to bridge"@,
        NetOp::BringUpBridge => "bring bridge up"@,
        NetOp::CreateVethPair => "create veth pair"@,
        NetOp::ResolveVethIndex => "resolve veth index"@,
        NetOp::BringUpVeth => "bring veth up"@,
        NetOp::AttachToBridge => "attach veth to bridge"@,
        NetOp::MigrateToNamespace => "move veth to namespace"@,
        NetOp::AssignPeerAddress => "assign address to veth peer"@,
        NetOp::BringUpPeer => "bring veth peer up"@,
        NetOp::ResolveLoopback => "resolve loopback index"@,
        NetOp::BringUpLoopback => "bring loopback up"@,
    }
}

pub open spec fn describe_spec(e: &NetworkError) -> Seq<char> {
    match e {
        NetworkError::ConnectionError { detail } => "Connection error: "@ + detail@,
        NetworkError::OperationError { op, cause: Some(d) } => "Operation error: "@
            + op_label_spec(*op) + ": "@ + d@,
        NetworkError::OperationError { op, cause: None } => "Operation error: "@
            + op_label_spec(*op) + ": not found"@,
        NetworkError::AddressParseError { input } => "Address parse error: "@ + input@,
        NetworkError::Other { detail } => "IO error: "@ + detail@,
    }
}

impl NetOp {
    /// Human-readable name of the step, used in error descriptions.
    pub fn label(&self) -> (r: &'static str)
        ensures
            r@ == op_label_spec(*self),
    {
        match self {
            NetOp::CreateBridge => "create bridge",
            NetOp::ResolveBridgeIndex => "resolve bridge index",
            NetOp::AssignBridgeAddress => "assign address to bridge",
            NetOp::BringUpBridge => "bring bridge up",
            NetOp::CreateVethPair => "create veth pair",
            NetOp::ResolveVethIndex => "resolve veth index",
            NetOp::BringUpVeth => "bring veth up",
            NetOp::AttachToBridge => "attach veth to bridge",
            NetOp::MigrateToNamespace => "move veth to namespace",
            NetOp::AssignPeerAddress => "assign address to veth peer",
            NetOp::BringUpPeer => "bring veth peer up",
            NetOp::ResolveLoopback => "resolve loopback index",
            NetOp::BringUpLoopback => "bring loopback up",
        }
    }
}

impl NetworkError {
    /// The failure axis of this error.
    pub fn kind(&self) -> (k: NetworkErrorKind)
        ensures
            k == (match self {
                NetworkError::ConnectionError { .. } => NetworkErrorKind::Connection,
                NetworkError::OperationError { .. } => NetworkErrorKind::Operation,
                NetworkError::AddressParseError { .. } => NetworkErrorKind::AddressParse,
                NetworkError::Other { .. } => NetworkErrorKind::Other,
            }),
    {
        match self {
            NetworkError::ConnectionError { .. } => NetworkErrorKind::Connection,
            NetworkError::OperationError { .. } => NetworkErrorKind::Operation,
            NetworkError::AddressParseError { .. } => NetworkErrorKind::AddressParse,
            NetworkError::Other { .. } => NetworkErrorKind::Other,
        }
    }

    /// A human-readable description of the failure, naming the step that
    /// failed and the underlying cause.
    pub fn describe(&self) -> (r: String)
        ensures
            r@ == describe_spec(self),
    {
        match self {
            NetworkError::ConnectionError { detail } => String::from_str(
                "Connection error: ",
            ).concat(detail.as_str()),
            NetworkError::OperationError { op, cause } => {
                let head = String::from_str("Operation error: ").concat(op.label());
                match cause {
                    Some(d) => head.concat(": ").concat(d.as_str()),
                    None => head.concat(": not found"),
                }
            },
            NetworkError::AddressParseError { input } => String::from_str(
                "Address parse error: ",
            ).concat(input.as_str()),
            NetworkError::Other { detail } => String::from_str("IO error: ").concat(
                detail.as_str(),
            ),
        }
    }
}

} // verus!
