use isonet::addr::Ipv4Address;
use isonet::echo::{echo_chunk, echo_datagram, Datagram, Endpoint, ForwardQueue, UDP_QUEUE_CAPACITY};

fn endpoint(port: u16) -> Endpoint {
    Endpoint { addr: Ipv4Address::new(172, 18, 0, 2), port }
}

fn datagram(bytes: &[u8], port: u16) -> Datagram {
    Datagram { payload: bytes.to_vec(), source: endpoint(port) }
}

#[test]
fn tcp_chunk_round_trips_bytes() {
    let mut buf = vec![0u8; 1024];
    for (i, b) in b"hello, namespace".iter().enumerate() {
        buf[i] = *b;
    }
    let out = echo_chunk(&buf, 16).unwrap();
    assert_eq!(out, b"hello, namespace".to_vec());
}

#[test]
fn tcp_chunk_full_buffer_and_binary_bytes() {
    let buf: Vec<u8> = (0u8..=255).cycle().take(1024).collect();
    let out = echo_chunk(&buf, 1024).unwrap();
    assert_eq!(out, buf);
}

#[test]
fn tcp_zero_read_means_disconnect() {
    let buf = vec![7u8; 16];
    assert!(echo_chunk(&buf, 0).is_none());
}

#[test]
fn udp_reply_goes_back_to_source_unchanged() {
    let d = datagram(b"ping", 9999);
    let r = echo_datagram(d);
    assert_eq!(r.payload, b"ping".to_vec());
    assert_eq!(r.source, endpoint(9999));
}

#[test]
fn queue_keeps_fifo_order() {
    let mut q = ForwardQueue::new(UDP_QUEUE_CAPACITY);
    for port in 0u16..5 {
        assert!(q.try_enqueue(datagram(&[port as u8], port)));
    }
    for port in 0u16..5 {
        let d = q.dequeue().unwrap();
        assert_eq!(d.source.port, port);
        assert_eq!(d.payload, vec![port as u8]);
    }
    assert!(q.dequeue().is_none());
}

#[test]
fn saturated_queue_suspends_instead_of_dropping() {
    let mut q = ForwardQueue::new(2);
    assert!(q.try_enqueue(datagram(b"a", 1)));
    assert!(q.try_enqueue(datagram(b"b", 2)));
    // Full: the offer is not accepted, nothing already queued is lost.
    assert!(!q.try_enqueue(datagram(b"c", 3)));
    assert_eq!(q.len(), 2);
    // After the sender drains one slot, the same datagram is accepted and
    // everything leaves in arrival order.
    assert_eq!(q.dequeue().unwrap().source.port, 1);
    assert!(q.try_enqueue(datagram(b"c", 3)));
    assert_eq!(q.dequeue().unwrap().source.port, 2);
    assert_eq!(q.dequeue().unwrap().source.port, 3);
    assert!(q.dequeue().is_none());
}

#[test]
fn queue_capacity_matches_design() {
    let q = ForwardQueue::new(UDP_QUEUE_CAPACITY);
    assert_eq!(q.capacity, 1000);
    assert_eq!(q.len(), 0);
    assert!(!q.is_full());
}
