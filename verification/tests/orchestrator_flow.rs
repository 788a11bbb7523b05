use isonet::addr::Ipv4Address;
use isonet::netlink::{NetAction, NetEvent};
use isonet::orchestrator::{NetworkPhase, NetworkSetup};
use isonet::peer::{migration_action, migration_result, PeerSetup, PeerState};
use isonet::errors::NetworkErrorKind;

fn addr() -> Ipv4Address {
    Ipv4Address::new(172, 18, 0, 1)
}

#[test]
fn preparation_runs_bridge_then_veth() {
    let m = NetworkSetup::new(String::from("isobr0"), addr(), 16, String::from("ab12"));
    // Bridge exists already.
    let m = m.step(NetEvent::IndexFound { index: 3 });
    match &m.phase {
        NetworkPhase::Veth { bridge_index, veth } => {
            assert_eq!(*bridge_index, 3);
            assert_eq!(veth.bridge_index, 3);
            assert_eq!(veth.host_name, "vethab12");
            assert_eq!(veth.peer_name, "vethab12_peer");
        }
        _ => panic!("expected the veth phase"),
    }
    let m = m.step(NetEvent::Done);
    let m = m.step(NetEvent::IndexFound { index: 4 });
    let m = m.step(NetEvent::IndexFound { index: 5 });
    let m = m.step(NetEvent::Done);
    let m = m.step(NetEvent::Done);
    match m.phase {
        NetworkPhase::Ready { bridge_index, host_index, peer_index } => {
            assert_eq!((bridge_index, host_index, peer_index), (3, 4, 5));
        }
        _ => panic!("preparation should be complete"),
    }
    assert!(m.pending_action().is_none());
}

#[test]
fn bridge_failure_aborts_preparation() {
    let m = NetworkSetup::new(String::from("isobr0"), addr(), 16, String::from("ab12"));
    let m = m.step(NetEvent::NotFound);
    let m = m.step(NetEvent::Failed { detail: String::from("no permission") });
    match m.phase {
        NetworkPhase::Failed { error } => {
            assert_eq!(error.kind(), NetworkErrorKind::Operation);
        }
        _ => panic!("preparation should have failed"),
    }
}

#[test]
fn peer_setup_configures_interface_and_loopback() {
    let m = PeerSetup::new(5, Ipv4Address::new(172, 18, 0, 2), 16);
    match m.pending_action() {
        Some(NetAction::AssignAddress { index, addr, prefix }) => {
            assert_eq!(index, 5);
            assert_eq!(addr, Ipv4Address::new(172, 18, 0, 2));
            assert_eq!(prefix, 16);
        }
        _ => panic!("expected the address assignment"),
    }
    let m = m.step(NetEvent::Done);
    assert!(matches!(m.pending_action(), Some(NetAction::SetUp { index: 5 })));
    let m = m.step(NetEvent::Done);
    assert!(matches!(m.pending_action(), Some(NetAction::GetLinkIndex { name }) if name == "lo"));
    let m = m.step(NetEvent::IndexFound { index: 1 });
    assert!(matches!(m.pending_action(), Some(NetAction::SetUp { index: 1 })));
    let m = m.step(NetEvent::Done);
    assert!(matches!(m.state, PeerState::Ready));
    assert!(m.pending_action().is_none());
}

#[test]
fn peer_setup_missing_loopback_fails() {
    let m = PeerSetup::new(5, Ipv4Address::new(172, 18, 0, 2), 16);
    let m = m.step(NetEvent::Done);
    let m = m.step(NetEvent::Done);
    let m = m.step(NetEvent::NotFound);
    match m.state {
        PeerState::Failed { error } => {
            assert_eq!(error.describe(), "Operation error: resolve loopback index: not found");
        }
        _ => panic!("expected a failure"),
    }
}

#[test]
fn migration_action_and_result() {
    let a = migration_action(5, 4242);
    assert!(matches!(a, NetAction::SetNamespaceByPid { index: 5, pid: 4242 }));
    assert!(migration_result(NetEvent::Done).is_ok());
    let e = migration_result(NetEvent::Failed { detail: String::from("no such pid") }).unwrap_err();
    assert_eq!(e.describe(), "Operation error: move veth to namespace: no such pid");
}
