use vstd::prelude::*;
use vstd::string::*;

verus! {

/// The closed set of workload handlers a caller can select by name.
#[derive(Clone, Copy, Debug, PartialEq, Eq, Structural)]
pub enum HandlerKind {
    TcpEcho,
    UdpEcho,
    Http,
}

/// A failure around a workload handler: a name outside the known set, or a
/// handler's own runtime failure, kept with the handler it came from.
#[derive(Debug)]
pub enum HandlerError {
    UnknownHandler { name: String },
    HandlerFailed { kind: HandlerKind, detail: String },
}

pub open spec fn handler_label_spec(k: HandlerKind) -> Seq<char> {
    match k {
        HandlerKind::TcpEcho => "tcp-echo"@,
        HandlerKind::UdpEcho => "udp-echo"@,
        HandlerKind::Http => "http"@,
    }
}

pub open spec fn handler_error_describe_spec(e: &HandlerError) -> Seq<char> {
    match e {
        HandlerError::UnknownHandler { name } => "unknown handler: "@ + name@,
        HandlerError::HandlerFailed { kind, detail } => handler_label_spec(*kind) + " error: "@
            + detail@,
    }
}

impl HandlerKind {
    /// The name under which this handler is selected.
    pub fn label(&self) -> (r: &'static str)
        ensures
            r@ == handler_label_spec(*self),
    {
        match self {
            HandlerKind::TcpEcho => "tcp-echo",
            HandlerKind::UdpEcho => "udp-echo",
            HandlerKind::Http => "http",
        }
    }
}

impl HandlerError {
    /// A human-readable description, prefixed as the handler reports it.
    pub fn describe(&self) -> (r: String)
        ensures
            r@ == handler_error_describe_spec(self),
    {
        match self {
            HandlerError::UnknownHandler { name } => String::from_str(
                "unknown handler: ",
            ).concat(name.as_str()),
            HandlerError::HandlerFailed { kind, detail } => String::from_str(
                kind.label(),
            ).concat(" error: ").concat(detail.as_str()),
        }
    }
}

/// Resolve a handler name to its kind: exactly the three known names are
/// accepted, and any other name is rejected as unknown, carrying the name
/// that was asked for.
pub fn parse_handler(name: &String) -> (r: Result<HandlerKind, HandlerError>)
    ensures
        name@ == "tcp-echo"@ ==> r == Ok::<HandlerKind, HandlerError>(HandlerKind::TcpEcho),
        name@ == "udp-echo"@ ==> r == Ok::<HandlerKind, HandlerError>(HandlerKind::UdpEcho),
        name@ == "http"@ ==> r == Ok::<HandlerKind, HandlerError>(HandlerKind::Http),
        !(name@ == "tcp-echo"@ || name@ == "udp-echo"@ || name@ == "http"@) ==> (r matches Err(
            HandlerError::UnknownHandler { name: n },
        ) && n@ == name@),
{
    proof {
        reveal_strlit("tcp-echo");
        reveal_strlit("udp-echo");
        reveal_strlit("http");
        assert("tcp-echo"@[0] == 't' && "udp-echo"@[0] == 'u');
        assert("tcp-echo"@.len() == 8 && "udp-echo"@.len() == 8 && "http"@.len() == 4);
        assert("tcp-echo"@ != "udp-echo"@);
        assert("tcp-echo"@ != "http"@);
        assert("udp-echo"@ != "http"@);
    }
    if *name == String::from_str("tcp-echo") {
        Ok(HandlerKind::TcpEcho)
    } else if *name == String::from_str("udp-echo") {
        Ok(HandlerKind::UdpEcho)
    } else if *name == String::from_str("http") {
        Ok(HandlerKind::Http)
    } else {
        Err(HandlerError::UnknownHandler { name: name.clone() })
    }
}

/// A TCP echo workload: accepts connections on `address` and echoes
/// received bytes verbatim per connection.
pub struct TcpServer {
    pub address: String,
}

impl TcpServer {
    pub fn new(address: String) -> (s: TcpServer)
        ensures
            s.address == address,
    {
        TcpServer { address }
    }
}

/// A UDP echo workload: echoes each received datagram to its source.
pub struct UdpServer {
    pub address: String,
}

impl UdpServer {
    pub fn new(address: String) -> (s: UdpServer)
        ensures
            s.address == address,
    {
        UdpServer { address }
    }
}

/// An HTTP workload serving the whoami and echo routes.
pub struct HTTPServer {
    pub address: String,
}

impl HTTPServer {
    pub fn new(address: String) -> (s: HTTPServer)
        ensures
            s.address == address,
    {
        HTTPServer { address }
    }
}

} // verus!
