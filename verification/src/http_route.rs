use vstd::prelude::*;
use vstd::string::*;

verus! {

/// The request methods the HTTP workload distinguishes; everything beyond
/// GET and POST falls together, since no route accepts it.
#[derive(Clone, Copy, Debug, PartialEq, Eq, Structural)]
pub enum HttpMethod {
    Get,
    Post,
    Other,
}

/// The body of the whoami answer before serialization: one field, the
/// hostname of the serving process.
pub struct Whoami {
    pub hostname: String,
}

/// What the HTTP workload answers: a status code and the response body.
pub struct RouteResponse {
    pub status: u16,
    pub body: Vec<u8>,
}

/// The lowercase hexadecimal digit for a value below sixteen.
pub open spec fn hex_digit_spec(n: u8) -> u8 {
    if n < 10 {
        (0x30 + n) as u8
    } else {
        (0x61 + (n - 10)) as u8
    }
}

/// How one byte of a string appears inside a JSON string literal: quote,
/// backslash and the named control characters get a two-byte escape, the
/// remaining control bytes a six-byte `\u00xx` escape, and everything else
/// stands as itself.
pub open spec fn json_escape_byte(b: u8) -> Seq<u8> {
    if b == 0x22 {
        seq![0x5cu8, 0x22u8]
    } else if b == 0x5c {
        seq![0x5cu8, 0x5cu8]
    } else if b == 0x08 {
        seq![0x5cu8, 0x62u8]
    } else if b == 0x09 {
        seq![0x5cu8, 0x74u8]
    } else if b == 0x0a {
        seq![0x5cu8, 0x6eu8]
    } else if b == 0x0c {
        seq![0x5cu8, 0x66u8]
    } else if b == 0x0d {
        seq![0x5cu8, 0x72u8]
    } else if b < 0x20 {
        seq![0x5cu8, 0x75u8, 0x30u8, 0x30u8, hex_digit_spec(b / 16), hex_digit_spec(b % 16)]
    } else {
        seq![b]
    }
}

pub open spec fn json_escape_bytes(s: Seq<u8>) -> Seq<u8>
    decreases s.len(),
{
    if s.len() == 0 {
        Seq::empty()
    } else {
        json_escape_byte(s[0]) + json_escape_bytes(s.drop_first())
    }
}

/// The UTF-8 bytes of `{"hostname":"`.
pub open spec fn whoami_prefix() -> Seq<u8> {
    seq![0x7bu8, 0x22u8, 0x68u8, 0x6fu8, 0x73u8, 0x74u8, 0x6eu8, 0x61u8, 0x6du8, 0x65u8, 0x22u8, 0x3au8, 0x22u8]
}

/// The whoami response body: a JSON object with exactly the one key
/// `hostname`, whose value is the serving process's hostname, escaped as a
/// JSON string.
pub open spec fn whoami_json_spec(h: Seq<u8>) -> Seq<u8> {
    whoami_prefix() + json_escape_bytes(h) + seq![0x22u8, 0x7du8]
}

/// Escaping distributes over extending the input one byte at a time.
proof fn lemma_json_escape_push(s: Seq<u8>, b: u8)
    ensures
        json_escape_bytes(s.push(b)) == json_escape_bytes(s) + json_escape_byte(b),
    decreases s.len(),
{
    if s.len() == 0 {
        assert(s.push(b).len() == 1);
        assert(s.push(b)[0] == b);
        assert(s.push(b).drop_first() =~= Seq::<u8>::empty());
        assert(json_escape_bytes(s.push(b)) == json_escape_byte(b) + json_escape_bytes(
            Seq::<u8>::empty(),
        ));
        assert(json_escape_bytes(s.push(b)) =~= json_escape_byte(b));
        assert(json_escape_bytes(s) + json_escape_byte(b) =~= json_escape_byte(b));
    } else {
        assert(s.push(b).len() == s.len() + 1);
        assert(s.push(b)[0] == s[0]);
        assert(s.push(b).drop_first() =~= s.drop_first().push(b));
        lemma_json_escape_push(s.drop_first(), b);
        assert(json_escape_bytes(s.push(b)) == json_escape_byte(s[0]) + (json_escape_bytes(
            s.drop_first(),
        ) + json_escape_byte(b)));
        assert(json_escape_bytes(s.push(b)) =~= json_escape_bytes(s) + json_escape_byte(b));
    }
}

fn hex_digit(n: u8) -> (r: u8)
    requires
        n < 16,
    ensures
        r == hex_digit_spec(n),
{
    if n < 10 {
        0x30 + n
    } else {
        0x61 + (n - 10)
    }
}

/// Append the JSON escape of one byte to the output.
fn push_escaped(out: &mut Vec<u8>, b: u8)
    ensures
        final(out)@ == old(out)@ + json_escape_byte(b),
{
    if b == 0x22 {
        out.push(0x5c);
        out.push(0x22);
    } else if b == 0x5c {
        out.push(0x5c);
        out.push(0x5c);
    } else if b == 0x08 {
        out.push(0x5c);
        out.push(0x62);
    } else if b == 0x09 {
        out.push(0x5c);
        out.push(0x74);
    } else if b == 0x0a {
        out.push(0x5c);
        out.push(0x6e);
    } else if b == 0x0c {
        out.push(0x5c);
        out.push(0x66);
    } else if b == 0x0d {
        out.push(0x5c);
        out.push(0x72);
    } else if b < 0x20 {
        out.push(0x5c);
        out.push(0x75);
        out.push(0x30);
        out.push(0x30);
        out.push(hex_digit(b / 16));
        out.push(hex_digit(b % 16));
    } else {
        out.push(b);
    }
    assert(final(out)@ =~= old(out)@ + json_escape_byte(b));
}

/// Serialize the whoami object: the body is a JSON object with exactly one
/// key, `hostname`, carrying the given hostname. This serialization cannot
/// fail, so the route that uses it always answers 200.
pub fn whoami_body(hostname: &str) -> (r: Vec<u8>)
    ensures
        r@ == whoami_json_spec(hostname.spec_bytes()),
{
    let bs = hostname.as_bytes_vec();
    let mut out: Vec<u8> = Vec::new();
    out.push(0x7b);
    out.push(0x22);
    out.push(0x68);
    out.push(0x6f);
    out.push(0x73);
    out.push(0x74);
    out.push(0x6e);
    out.push(0x61);
    out.push(0x6d);
    out.push(0x65);
    out.push(0x22);
    out.push(0x3a);
    out.push(0x22);
    assert(out@ =~= whoami_prefix());
    let mut i: usize = 0;
    while i < bs.len()
        invariant
            i <= bs@.len(),
            bs@ == hostname.spec_bytes(),
            out@ == whoami_prefix() + json_escape_bytes(bs@.subrange(0, i as int)),
        decreases bs@.len() - i,
    {
        let ghost pre = bs@.subrange(0, i as int);
        push_escaped(&mut out, bs[i]);
        proof {
            lemma_json_escape_push(pre, bs@[i as int]);
            assert(bs@.subrange(0, i + 1 as int) =~= pre.push(bs@[i as int]));
            assert(out@ =~= whoami_prefix() + json_escape_bytes(bs@.subrange(0, i + 1 as int)));
        }
        i += 1;
    }
    assert(bs@.subrange(0, bs@.len() as int) =~= bs@);
    out.push(0x22);
    out.push(0x7d);
    assert(out@ =~= whoami_json_spec(hostname.spec_bytes()));
    out
}

/// Dispatch one request. GET `/whoami` answers 200 with the whoami JSON
/// object for the hostname of the serving process; POST `/echo` answers
/// 200 with the request body returned verbatim; every other method/path
/// pair answers 404 with an empty body.
pub fn route(method: HttpMethod, path: &String, hostname: &str, body: Vec<u8>) -> (r:
    RouteResponse)
    ensures
        method == HttpMethod::Get && path@ == "/whoami"@ ==> r.status == 200 && r.body@
            == whoami_json_spec(hostname.spec_bytes()),
        method == HttpMethod::Post && path@ == "/echo"@ ==> r.status == 200 && r.body@ == body@,
        !(method == HttpMethod::Get && path@ == "/whoami"@) && !(method == HttpMethod::Post
            && path@ == "/echo"@) ==> r.status == 404 && r.body@ == Seq::<u8>::empty(),
{
    if method == HttpMethod::Get && *path == String::from_str("/whoami") {
        RouteResponse { status: 200, body: whoami_body(hostname) }
    } else if method == HttpMethod::Post && *path == String::from_str("/echo") {
        RouteResponse { status: 200, body }
    } else {
        RouteResponse { status: 404, body: Vec::new() }
    }
}

} // verus!
