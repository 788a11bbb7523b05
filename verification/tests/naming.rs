use isonet::names::{namespace_hostname, random_suffix, veth_host_name, veth_peer_name};

#[test]
fn random_suffix_has_requested_length() {
    for len in [0usize, 1, 4, 5, 16] {
        let s = random_suffix(len);
        assert_eq!(s.len(), len);
        assert!(s.chars().all(|c| c.is_ascii_alphanumeric()));
    }
}

#[test]
fn random_suffixes_rarely_collide() {
    // Two draws from a 62^16 space; a collision here means the wrapper
    // ignores its randomness source.
    let a = random_suffix(16);
    let b = random_suffix(16);
    assert_ne!(a, b);
}

#[test]
fn veth_names_derive_from_suffix() {
    assert_eq!(veth_host_name("ab12"), "vethab12");
    assert_eq!(veth_peer_name("ab12"), "vethab12_peer");
    assert_eq!(veth_host_name(""), "veth");
}

#[test]
fn veth_names_distinct_for_distinct_suffixes() {
    let names_a = [veth_host_name("aaaa"), veth_peer_name("aaaa")];
    let names_b = [veth_host_name("bbbb"), veth_peer_name("bbbb")];
    for x in &names_a {
        for y in &names_b {
            assert_ne!(x, y);
        }
    }
    assert_ne!(names_a[0], names_a[1]);
}

#[test]
fn namespace_hostname_has_prefix() {
    let h = namespace_hostname("xyz01");
    assert_eq!(h, "isoserver-xyz01");
    assert!(h.starts_with("isoserver-"));
}

#[test]
fn namespace_hostname_differs_from_ordinary_host() {
    let h = namespace_hostname("abcde");
    assert_ne!(h, "myhost");
    assert_ne!(h, "localhost");
}
