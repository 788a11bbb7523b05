use isonet::errors::NetworkErrorKind;
use isonet::netlink::{NetAction, NetEvent};
use isonet::veth::{VethSetup, VethState};

#[test]
fn veth_names_and_first_action() {
    let m = VethSetup::new(3, "ab12");
    assert_eq!(m.host_name, "vethab12");
    assert_eq!(m.peer_name, "vethab12_peer");
    match m.pending_action() {
        Some(NetAction::AddVethPair { host, peer }) => {
            assert_eq!(host, "vethab12");
            assert_eq!(peer, "vethab12_peer");
        }
        _ => panic!("expected the pair creation"),
    }
}

#[test]
fn veth_happy_path_attaches_to_bridge() {
    let m = VethSetup::new(3, "ab12");
    let m = m.step(NetEvent::Done);
    assert!(
        matches!(m.pending_action(), Some(NetAction::GetLinkIndex { name }) if name == "vethab12")
    );
    let m = m.step(NetEvent::IndexFound { index: 10 });
    assert!(
        matches!(m.pending_action(), Some(NetAction::GetLinkIndex { name }) if name == "vethab12_peer")
    );
    let m = m.step(NetEvent::IndexFound { index: 11 });
    assert!(matches!(m.pending_action(), Some(NetAction::SetUp { index: 10 })));
    let m = m.step(NetEvent::Done);
    assert!(matches!(
        m.pending_action(),
        Some(NetAction::SetController { index: 10, controller: 3 })
    ));
    let m = m.step(NetEvent::Done);
    assert!(matches!(m.state, VethState::Ready { host_index: 10, peer_index: 11 }));
    assert!(m.pending_action().is_none());
}

#[test]
fn forced_name_collision_fails_with_operation_error() {
    // The kernel rejects the pair as a duplicate: hard failure, no reuse.
    let m = VethSetup::new(3, "ab12");
    let m = m.step(NetEvent::Failed { detail: String::from("File exists") });
    match &m.state {
        VethState::Failed { error } => {
            assert_eq!(error.kind(), NetworkErrorKind::Operation);
            assert_eq!(error.describe(), "Operation error: create veth pair: File exists");
        }
        _ => panic!("machine should have failed"),
    }
    // Terminal: further events change nothing and no action is asked for.
    let m = m.step(NetEvent::Done);
    assert!(matches!(m.state, VethState::Failed { .. }));
    assert!(m.pending_action().is_none());
}

#[test]
fn two_creations_with_distinct_suffixes_share_no_name() {
    let a = VethSetup::new(1, "aaaa");
    let b = VethSetup::new(1, "bbbb");
    assert_ne!(a.host_name, b.host_name);
    assert_ne!(a.peer_name, b.peer_name);
    assert_ne!(a.host_name, b.peer_name);
    assert_ne!(a.peer_name, b.host_name);
}

#[test]
fn missing_host_end_after_creation_fails() {
    let m = VethSetup::new(3, "ab12");
    let m = m.step(NetEvent::Done);
    let m = m.step(NetEvent::NotFound);
    match m.state {
        VethState::Failed { error } => {
            assert_eq!(error.describe(), "Operation error: resolve veth index: not found");
        }
        _ => panic!("machine should have failed"),
    }
}
