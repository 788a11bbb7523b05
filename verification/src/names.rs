use vstd::prelude::*;
use vstd::string::*;
use rand::distr::SampleString;

verus! {

/// An ASCII letter or digit, the alphabet random suffixes are drawn from.
pub open spec fn is_alnum_char(c: char) -> bool {
    ('0' <= c && c <= '9') || ('a' <= c && c <= 'z') || ('A' <= c && c <= 'Z')
}

pub open spec fn all_alnum(s: Seq<char>) -> bool {
    forall|i: int| 0 <= i < s.len() ==> is_alnum_char(#[trigger] s[i])
}

/// The host-side interface name derived from a random suffix.
pub open spec fn veth_host_name_spec(suffix: Seq<char>) -> Seq<char> {
    "veth"@ + suffix
}

/// The peer-side interface name, derived deterministically from the host name.
pub open spec fn veth_peer_name_spec(suffix: Seq<char>) -> Seq<char> {
    veth_host_name_spec(suffix) + "_peer"@
}

/// The hostname given to the isolated child: a fixed prefix and a suffix.
pub open spec fn namespace_hostname_spec(suffix: Seq<char>) -> Seq<char> {
    "isoserver-"@ + suffix
}

/// Relies on rand's `Alphanumeric::sample_string`: it returns a string of
/// exactly `len` characters, each drawn from A-Z, a-z and 0-9. Nothing is
/// assumed about which characters come back.
#[verifier::external_body]
pub fn random_suffix(len: usize) -> (r: String)
    ensures
        r@.len() == len as nat,
        all_alnum(r@),
{
    rand::distr::Alphanumeric.sample_string(&mut rand::rng(), len)
}

/// Derive the host-side veth interface name from a suffix.
pub fn veth_host_name(suffix: &str) -> (r: String)
    ensures
        r@ == veth_host_name_spec(suffix@),
{
    String::from_str("veth").concat(suffix)
}

/// Derive the peer-side veth interface name from the same suffix.
pub fn veth_peer_name(suffix: &str) -> (r: String)
    ensures
        r@ == veth_peer_name_spec(suffix@),
{
    veth_host_name(suffix).concat("_peer")
}

/// Derive the hostname for the isolated child process from a suffix.
pub fn namespace_hostname(suffix: &str) -> (r: String)
    ensures
        r@ == namespace_hostname_spec(suffix@),
{
    String::from_str("isoserver-").concat(suffix)
}

/// A common prefix cancels: two concatenations with the same prefix are
/// equal only when what follows the prefix is equal.
pub proof fn lemma_concat_injective(p: Seq<char>, x: Seq<char>, y: Seq<char>)
    requires
        p + x == p + y,
    ensures
        x == y,
{
    assert((p + x).len() == p.len() + x.len());
    assert((p + y).len() == p.len() + y.len());
    assert(x.len() == y.len());
    assert forall|i: int| 0 <= i < x.len() implies x[i] == y[i] by {
        assert((p + x)[p.len() + i] == x[i]);
        assert((p + y)[p.len() + i] == y[i]);
    }
    assert(x =~= y);
}

/// Two veth pair creations with distinct alphanumeric suffixes never choose
/// the same name for any of their four interfaces: host and peer names are
/// pairwise distinct across the two pairs, and within one pair the host name
/// always differs from the peer name.
pub proof fn lemma_veth_names_distinct(a: Seq<char>, b: Seq<char>)
    requires
        a != b,
        all_alnum(a),
        all_alnum(b),
    ensures
        veth_host_name_spec(a) != veth_host_name_spec(b),
        veth_peer_name_spec(a) != veth_peer_name_spec(b),
        veth_host_name_spec(a) != veth_peer_name_spec(b),
        veth_peer_name_spec(a) != veth_host_name_spec(b),
        veth_host_name_spec(a) != veth_peer_name_spec(a),
{
    reveal_strlit("veth");
    reveal_strlit("_peer");
    if veth_host_name_spec(a) == veth_host_name_spec(b) {
        lemma_concat_injective("veth"@, a, b);
    }
    if veth_peer_name_spec(a) == veth_peer_name_spec(b) {
        assert(("veth"@ + a) + "_peer"@ =~= "veth"@ + (a + "_peer"@));
        assert(("veth"@ + b) + "_peer"@ =~= "veth"@ + (b + "_peer"@));
        lemma_concat_injective("veth"@, a + "_peer"@, b + "_peer"@);
        assert(a.len() == b.len());
        assert(a =~= (a + "_peer"@).subrange(0, a.len() as int));
        assert(b =~= (b + "_peer"@).subrange(0, b.len() as int));
        assert(a == b);
    }
    lemma_host_never_peer(a, b);
    lemma_host_never_peer(b, a);
    lemma_host_never_peer(a, a);
}

/// A host name is never a peer name: the peer name ends in an underscore
/// region that no alphanumeric suffix can produce.
proof fn lemma_host_never_peer(a: Seq<char>, b: Seq<char>)
    requires
        all_alnum(a),
    ensures
        veth_host_name_spec(a) != veth_peer_name_spec(b),
{
    reveal_strlit("veth");
    reveal_strlit("_peer");
    if veth_host_name_spec(a) == veth_peer_name_spec(b) {
        assert(("veth"@ + b) + "_peer"@ =~= "veth"@ + (b + "_peer"@));
        lemma_concat_injective("veth"@, a, b + "_peer"@);
        assert(a[b.len() as int] == '_');
        assert(is_alnum_char(a[b.len() as int]));
    }
}

/// The hostname set inside the child always carries the fixed prefix, so it
/// differs from any host-side hostname that does not itself begin with that
/// prefix (a host named like an isolated child is the one input left out).
pub proof fn lemma_namespace_hostname_differs(suffix: Seq<char>, host: Seq<char>)
    requires
        !(host.len() >= 10 && host.subrange(0, 10) == "isoserver-"@),
    ensures
        namespace_hostname_spec(suffix) != host,
{
    reveal_strlit("isoserver-");
    if namespace_hostname_spec(suffix) == host {
        assert(host.subrange(0, 10) =~= "isoserver-"@);
    }
}

} // verus!
