use vstd::prelude::*;
use vstd::string::*;
use crate::errors::NetworkError;

verus! {

/// An IPv4 address as four plain octets, most significant first.
#[derive(Clone, Copy, Debug, PartialEq, Eq, Structural)]
pub struct Ipv4Address {
    pub a: u8,
    pub b: u8,
    pub c: u8,
    pub d: u8,
}

impl Ipv4Address {
    pub fn new(a: u8, b: u8, c: u8, d: u8) -> (r: Ipv4Address)
        ensures
            r == (Ipv4Address { a, b, c, d }),
    {
        Ipv4Address { a, b, c, d }
    }
}

/// The byte of an ASCII decimal digit.
pub open spec fn is_digit(b: u8) -> bool {
    0x30 <= b <= 0x39
}

/// The numeric value of a run of ASCII digits, most significant first.
pub open spec fn octet_value(s: Seq<u8>) -> int
    decreases s.len(),
{
    if s.len() == 0 {
        0
    } else {
        octet_value(s.drop_last()) * 10 + (s.last() - 0x30)
    }
}

/// A well-formed textual octet: one to three ASCII digits, no leading
/// zero unless the octet is exactly `0`, value at most 255.
pub open spec fn octet_text_valid(s: Seq<u8>) -> bool {
    &&& 1 <= s.len() <= 3
    &&& (forall|i: int| 0 <= i < s.len() ==> is_digit(#[trigger] s[i]))
    &&& (s.len() > 1 ==> s[0] != 0x30)
    &&& octet_value(s) <= 255
}

/// `s` is a dotted quad whose three dots stand at `i`, `j` and `k` and
/// whose four digit runs are well-formed octets.
pub open spec fn ipv4_split_at(s: Seq<u8>, i: int, j: int, k: int) -> bool {
    &&& 0 <= i < j < k < s.len()
    &&& s[i] == 0x2e && s[j] == 0x2e && s[k] == 0x2e
    &&& octet_text_valid(s.subrange(0, i))
    &&& octet_text_valid(s.subrange(i + 1, j))
    &&& octet_text_valid(s.subrange(j + 1, k))
    &&& octet_text_valid(s.subrange(k + 1, s.len() as int))
}

/// A valid textual IPv4 address: four well-formed octets joined by dots.
pub open spec fn ipv4_text_valid(s: Seq<u8>) -> bool {
    exists|i: int, j: int, k: int| ipv4_split_at(s, i, j, k)
}

/// Inside a valid split, dots stand only at the three split positions:
/// every other byte belongs to an octet and is a digit.
proof fn lemma_split_dots_only(s: Seq<u8>, i: int, j: int, k: int)
    requires
        ipv4_split_at(s, i, j, k),
    ensures
        forall|q: int| 0 <= q < i ==> s[q] != 0x2e,
        forall|q: int| i < q < j ==> s[q] != 0x2e,
        forall|q: int| j < q < k ==> s[q] != 0x2e,
        forall|q: int| k < q < s.len() ==> s[q] != 0x2e,
{
    assert forall|q: int| 0 <= q < i implies s[q] != 0x2e by {
        assert(s.subrange(0, i)[q] == s[q]);
    }
    assert forall|q: int| i < q < j implies s[q] != 0x2e by {
        assert(s.subrange(i + 1, j)[q - i - 1] == s[q]);
    }
    assert forall|q: int| j < q < k implies s[q] != 0x2e by {
        assert(s.subrange(j + 1, k)[q - j - 1] == s[q]);
    }
    assert forall|q: int| k < q < s.len() implies s[q] != 0x2e by {
        assert(s.subrange(k + 1, s.len() as int)[q - k - 1] == s[q]);
    }
}

/// The first dot at or after `from`, if any.
fn find_dot(bs: &Vec<u8>, from: usize) -> (r: Option<usize>)
    requires
        from <= bs@.len(),
    ensures
        match r {
            Some(p) => from <= p < bs@.len() && bs@[p as int] == 0x2e && (forall|q: int|
                from <= q < p ==> bs@[q] != 0x2e),
            None => forall|q: int| from <= q < bs@.len() ==> bs@[q] != 0x2e,
        },
{
    let mut p = from;
    while p < bs.len()
        invariant
            from <= p <= bs@.len(),
            forall|q: int| from <= q < p ==> bs@[q] != 0x2e,
        decreases bs@.len() - p,
    {
        if bs[p] == 0x2e {
            return Some(p);
        }
        p += 1;
    }
    None
}

/// Read the digit run `bs[start..end]` as an octet: its value when the
/// run is a well-formed octet, nothing otherwise.
fn parse_octet(bs: &Vec<u8>, start: usize, end: usize) -> (r: Option<u8>)
    requires
        start <= end <= bs@.len(),
    ensures
        match r {
            Some(v) => octet_text_valid(bs@.subrange(start as int, end as int)) && v
                == octet_value(bs@.subrange(start as int, end as int)),
            None => !octet_text_valid(bs@.subrange(start as int, end as int)),
        },
{
    let ghost seg = bs@.subrange(start as int, end as int);
    let n = end - start;
    if n < 1 || n > 3 {
        return None;
    }
    if n > 1 && bs[start] == 0x30 {
        assert(seg[0] == 0x30);
        return None;
    }
    let mut v: u16 = 0;
    let mut idx: usize = start;
    while idx < end
        invariant
            start <= idx <= end <= bs@.len(),
            end - start <= 3,
            seg == bs@.subrange(start as int, end as int),
            forall|q: int| start <= q < idx ==> is_digit(#[trigger] bs@[q]),
            v == octet_value(bs@.subrange(start as int, idx as int)),
            idx - start == 0 ==> v == 0,
            idx - start == 1 ==> v <= 9,
            idx - start == 2 ==> v <= 99,
            idx - start == 3 ==> v <= 999,
        decreases end - idx,
    {
        let b = bs[idx];
        if b < 0x30 || b > 0x39 {
            assert(seg[idx - start] == bs@[idx as int]);
            return None;
        }
        proof {
            let pre = bs@.subrange(start as int, idx as int);
            assert(bs@.subrange(start as int, idx + 1 as int).drop_last() =~= pre);
            assert(bs@.subrange(start as int, idx + 1 as int).last() == bs@[idx as int]);
        }
        v = v * 10 + ((b - 0x30) as u16);
        idx += 1;
    }
    assert(bs@.subrange(start as int, end as int) =~= seg);
    if v > 255 {
        return None;
    }
    assert forall|q: int| 0 <= q < seg.len() implies is_digit(#[trigger] seg[q]) by {
        assert(seg[q] == bs@[start + q]);
    }
    assert(seg[0] == bs@[start as int]);
    Some(v as u8)
}

/// Parse a textual IPv4 address. Exactly the well-formed dotted quads are
/// accepted — four octets of one to three digits, each at most 255, no
/// leading zeros — and their four octet values are returned; any other
/// string is rejected with an `AddressParseError` carrying the input.
pub fn parse_ipv4(s: &str) -> (r: Result<Ipv4Address, NetworkError>)
    ensures
        match r {
            Ok(ip) => exists|i: int, j: int, k: int|
                #[trigger] ipv4_split_at(s.spec_bytes(), i, j, k) && ip.a == octet_value(
                    s.spec_bytes().subrange(0, i),
                ) && ip.b == octet_value(s.spec_bytes().subrange(i + 1, j)) && ip.c == octet_value(
                    s.spec_bytes().subrange(j + 1, k),
                ) && ip.d == octet_value(
                    s.spec_bytes().subrange(k + 1, s.spec_bytes().len() as int),
                ),
            Err(e) => !ipv4_text_valid(s.spec_bytes()) && (e matches
                NetworkError::AddressParseError { input } && input@ == s@),
        },
{
    let bs = s.as_bytes_vec();
    let ghost t = s.spec_bytes();
    let n = bs.len();

    let d1 = find_dot(&bs, 0);
    let i = match d1 {
        Some(i) => i,
        None => {
            proof {
                if ipv4_text_valid(t) {
                    let (i2, j2, k2): (int, int, int) = choose|i2: int, j2: int, k2: int|
                        ipv4_split_at(t, i2, j2, k2);
                    assert(t[i2] == 0x2e);
                }
            }
            return Err(NetworkError::AddressParseError { input: String::from_str(s) });
        },
    };
    let d2 = find_dot(&bs, i + 1);
    let j = match d2 {
        Some(j) => j,
        None => {
            proof {
                if ipv4_text_valid(t) {
                    let (i2, j2, k2): (int, int, int) = choose|i2: int, j2: int, k2: int|
                        ipv4_split_at(t, i2, j2, k2);
                    lemma_split_dots_only(t, i2, j2, k2);
                    assert(i2 == i);
                    assert(t[j2] == 0x2e);
                }
            }
            return Err(NetworkError::AddressParseError { input: String::from_str(s) });
        },
    };
    let d3 = find_dot(&bs, j + 1);
    let k = match d3 {
        Some(k) => k,
        None => {
            proof {
                if ipv4_text_valid(t) {
                    let (i2, j2, k2): (int, int, int) = choose|i2: int, j2: int, k2: int|
                        ipv4_split_at(t, i2, j2, k2);
                    lemma_split_dots_only(t, i2, j2, k2);
                    assert(i2 == i);
                    assert(j2 == j);
                    assert(t[k2] == 0x2e);
                }
            }
            return Err(NetworkError::AddressParseError { input: String::from_str(s) });
        },
    };
    let d4 = find_dot(&bs, k + 1);
    if let Some(p) = d4 {
        proof {
            if ipv4_text_valid(t) {
                let (i2, j2, k2): (int, int, int) = choose|i2: int, j2: int, k2: int|
                    ipv4_split_at(t, i2, j2, k2);
                lemma_split_dots_only(t, i2, j2, k2);
                assert(i2 == i);
                assert(j2 == j);
                assert(k2 == k);
                assert(t[p as int] != 0x2e);
            }
        }
        return Err(NetworkError::AddressParseError { input: String::from_str(s) });
    }

    let oa = parse_octet(&bs, 0, i);
    let ob = parse_octet(&bs, i + 1, j);
    let oc = parse_octet(&bs, j + 1, k);
    let od = parse_octet(&bs, k + 1, n);
    match (oa, ob, oc, od) {
        (Some(a), Some(b), Some(c), Some(d)) => {
            assert(ipv4_split_at(t, i as int, j as int, k as int));
            Ok(Ipv4Address { a, b, c, d })
        },
        _ => {
            proof {
                if ipv4_text_valid(t) {
                    let (i2, j2, k2): (int, int, int) = choose|i2: int, j2: int, k2: int|
                        ipv4_split_at(t, i2, j2, k2);
                    lemma_split_dots_only(t, i2, j2, k2);
                    assert(i2 == i);
                    assert(j2 == j);
                    assert(k2 == k);
                }
            }
            Err(NetworkError::AddressParseError { input: String::from_str(s) })
        },
    }
}

} // verus!
