pub mod addr;
pub mod bridge;
pub mod echo;
pub mod errors;
pub mod handlers;
pub mod http_route;
pub mod launch;
pub mod names;
pub mod netlink;
pub mod orchestrator;
pub mod peer;
pub mod veth;
