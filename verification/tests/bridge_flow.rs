use isonet::addr::Ipv4Address;
use isonet::bridge::{BridgeSetup, BridgeState};
use isonet::errors::{NetworkError, NetworkErrorKind};
use isonet::netlink::{NetAction, NetEvent};

fn bridge_addr() -> Ipv4Address {
    Ipv4Address::new(172, 18, 0, 1)
}

#[test]
fn bridge_lookup_is_first_action() {
    let m = BridgeSetup::new(String::from("isobr0"), bridge_addr(), 16);
    let a = m.pending_action();
    assert!(matches!(a, Some(NetAction::GetLinkIndex { name }) if name == "isobr0"));
}

#[test]
fn bridge_preparation_reuses_existing_index() {
    // The bridge already exists with index 7: the machine finishes at once
    // with that index and never asks to create a device.
    let m = BridgeSetup::new(String::from("isobr0"), bridge_addr(), 16);
    let m = m.step(NetEvent::IndexFound { index: 7 });
    assert!(matches!(m.state, BridgeState::Ready { index: 7 }));
    assert!(m.pending_action().is_none());
}

#[test]
fn bridge_preparation_idempotent_across_runs() {
    // Both preparations observe the same existing bridge and report the
    // same index; neither emits a creating action.
    let mut indices = Vec::new();
    for _ in 0..2 {
        let m = BridgeSetup::new(String::from("isobr0"), bridge_addr(), 16);
        let m = m.step(NetEvent::IndexFound { index: 5 });
        assert!(m.pending_action().is_none());
        match m.state {
            BridgeState::Ready { index } => indices.push(index),
            _ => panic!("machine should be ready"),
        }
    }
    assert_eq!(indices, vec![5, 5]);
}

#[test]
fn bridge_creation_path_runs_all_steps() {
    let m = BridgeSetup::new(String::from("isobr0"), bridge_addr(), 16);
    let m = m.step(NetEvent::NotFound);
    assert!(matches!(m.state, BridgeState::Creating));
    assert!(matches!(m.pending_action(), Some(NetAction::AddBridge { name }) if name == "isobr0"));
    let m = m.step(NetEvent::Done);
    assert!(
        matches!(m.pending_action(), Some(NetAction::GetLinkIndex { name }) if name == "isobr0")
    );
    let m = m.step(NetEvent::IndexFound { index: 9 });
    match m.pending_action() {
        Some(NetAction::AssignAddress { index, addr, prefix }) => {
            assert_eq!(index, 9);
            assert_eq!(addr, bridge_addr());
            assert_eq!(prefix, 16);
        }
        _ => panic!("expected the address assignment"),
    }
    let m = m.step(NetEvent::Done);
    assert!(matches!(m.pending_action(), Some(NetAction::SetUp { index: 9 })));
    let m = m.step(NetEvent::Done);
    assert!(matches!(m.state, BridgeState::Ready { index: 9 }));
}

#[test]
fn bridge_creation_failure_is_operation_error() {
    let m = BridgeSetup::new(String::from("isobr0"), bridge_addr(), 16);
    let m = m.step(NetEvent::NotFound);
    let m = m.step(NetEvent::Failed { detail: String::from("permission denied") });
    match m.state {
        BridgeState::Failed { error } => {
            assert_eq!(error.kind(), NetworkErrorKind::Operation);
            assert_eq!(
                error.describe(),
                "Operation error: create bridge: permission denied"
            );
        }
        _ => panic!("machine should have failed"),
    }
}

#[test]
fn bridge_resolve_not_found_fails_without_message() {
    let m = BridgeSetup::new(String::from("isobr0"), bridge_addr(), 16);
    let m = m.step(NetEvent::NotFound);
    let m = m.step(NetEvent::Done);
    let m = m.step(NetEvent::NotFound);
    match m.state {
        BridgeState::Failed { error } => {
            assert_eq!(error.kind(), NetworkErrorKind::Operation);
            assert_eq!(error.describe(), "Operation error: resolve bridge index: not found");
        }
        _ => panic!("machine should have failed"),
    }
}

#[test]
fn bridge_lookup_channel_failure_falls_back_to_creation() {
    let m = BridgeSetup::new(String::from("isobr0"), bridge_addr(), 16);
    let m = m.step(NetEvent::Failed { detail: String::from("channel closed") });
    assert!(matches!(m.state, BridgeState::Creating));
}

#[test]
fn connection_error_describe() {
    let e = NetworkError::ConnectionError { detail: String::from("socket closed") };
    assert_eq!(e.kind(), NetworkErrorKind::Connection);
    assert_eq!(e.describe(), "Connection error: socket closed");
    let o = NetworkError::Other { detail: String::from("bind failed") };
    assert_eq!(o.kind(), NetworkErrorKind::Other);
    assert_eq!(o.describe(), "IO error: bind failed");
}
