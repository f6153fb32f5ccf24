//! Reading a request out of gateway parameters: what the request line and
//! scheme parameters of a FastCGI request mean, with their defaults.

use vstd::prelude::*;
use vstd::string::StringExecFns;
use crate::http::{lowercase, to_lowercase};

verus! {

/// Position `i` holds the first `?` of `uri`.
pub open spec fn is_first_mark(uri: Seq<char>, i: int) -> bool {
    &&& 0 <= i < uri.len()
    &&& uri[i] == '?'
    &&& forall|j: int| 0 <= j < i ==> uri[j] != '?'
}

/// The query string of a request URI: what follows its first `?`, which may
/// be empty, or nothing when the URI holds no `?`.
pub fn query_string(uri: &str) -> (query: Option<String>)
    ensures
        match query {
            Some(q) => exists|i: int| is_first_mark(uri@, i) && q@ == uri@.skip(i + 1),
            None => forall|j: int| 0 <= j < uri@.len() ==> uri@[j] != '?',
        },
{
    let n = uri.unicode_len();
    let mut i: usize = 0;
    while i < n
        invariant
            n == uri@.len(),
            i <= n,
            forall|j: int| 0 <= j < i ==> uri@[j] != '?',
        decreases n - i,
    {
        if uri.get_char(i) == '?' {
            let rest = uri.substring_char(i + 1, n);
            assert(is_first_mark(uri@, i as int));
            assert(rest@ =~= uri@.skip(i + 1));
            return Some(String::from_str(rest));
        }
        i += 1;
    }
    None
}

/// The request path: the `REQUEST_URI` parameter, or `/` without one.
pub fn uri(request_uri: Option<String>) -> (path: String)
    ensures
        match request_uri {
            Some(u) => path == u,
            None => path@ == "/"@,
        },
{
    match request_uri {
        Some(u) => u,
        None => String::from_str("/"),
    }
}

/// The request method: the `REQUEST_METHOD` parameter, or `GET` without one.
pub fn method(request_method: Option<String>) -> (name: String)
    ensures
        match request_method {
            Some(m) => name == m,
            None => name@ == "GET"@,
        },
{
    match request_method {
        Some(m) => m,
        None => String::from_str("GET"),
    }
}

/// Whether a lower-case scheme is the secure one.
pub fn is_https(lowered: &String) -> (secure: bool)
    ensures
        secure == (lowered@ == "https"@),
{
    *lowered == String::from_str("https")
}

/// Whether the request came over HTTPS: the `REQUEST_SCHEME` parameter is
/// `https` in any letter case. Without the parameter it did not.
pub fn is_secure(request_scheme: Option<&str>) -> (secure: bool)
    ensures
        secure == match request_scheme {
            Some(s) => lowercase(s@) == "https"@,
            None => false,
        },
{
    match request_scheme {
        Some(s) => {
            let lowered = to_lowercase(s);
            is_https(&lowered)
        },
        None => false,
    }
}

/// The character is one of the ten decimal digits.
pub open spec fn is_digit(c: char) -> bool {
    '0' <= c && c <= '9'
}

/// The value of a decimal digit.
pub open spec fn digit_value(c: char) -> nat {
    (c as u32 - '0' as u32) as nat
}

/// The number that a sequence of decimal digits writes, most significant
/// digit first; the empty sequence writes zero.
pub open spec fn decimal(digits: Seq<char>) -> nat
    decreases digits.len(),
{
    if digits.len() == 0 {
        0
    } else {
        decimal(digits.drop_last()) * 10 + digit_value(digits.last())
    }
}

/// The text without one leading `+`.
pub open spec fn unsigned(text: Seq<char>) -> Seq<char> {
    if text.len() > 0 && text[0] == '+' {
        text.skip(1)
    } else {
        text
    }
}

/// The port that a parameter writes: one or more decimal digits, after at
/// most one `+`, whose number fits sixteen bits. Anything else writes none.
pub open spec fn spec_port(text: Seq<char>) -> Option<u16> {
    let digits = unsigned(text);
    if digits.len() > 0 && (forall|i: int| 0 <= i < digits.len() ==> is_digit(#[trigger] digits[i]))
        && decimal(digits) <= u16::MAX {
        Some(decimal(digits) as u16)
    } else {
        None
    }
}

/// A number only grows as digits are appended to it.
proof fn lemma_decimal_grows(digits: Seq<char>, k: int)
    requires
        0 <= k <= digits.len(),
    ensures
        decimal(digits.take(k)) <= decimal(digits),
    decreases digits.len() - k,
{
    if k == digits.len() {
        assert(digits.take(k) =~= digits);
    } else {
        lemma_decimal_grows(digits.drop_last(), k);
        assert(digits.drop_last().take(k) =~= digits.take(k));
    }
}

/// The port number in a `REMOTE_PORT` or `SERVER_PORT` parameter, read as
/// `str::parse` reads a `u16`: decimal digits, an optional leading `+`, no
/// blanks, and nothing above 65535.
pub fn port(text: &str) -> (number: Option<u16>)
    ensures
        number == spec_port(text@),
{
    let n = text.unicode_len();
    let start: usize = if n > 0 && text.get_char(0) == '+' {
        1
    } else {
        0
    };
    let ghost digits = unsigned(text@);
    if start == n {
        return None;
    }
    let mut value: u32 = 0;
    let mut i: usize = start;
    while i < n
        invariant
            n == text@.len(),
            start <= i <= n,
            digits == text@.skip(start as int),
            digits == unsigned(text@),
            value <= u16::MAX,
            value == decimal(digits.take(i - start)),
            forall|j: int| 0 <= j < i - start ==> is_digit(#[trigger] digits[j]),
        decreases n - i,
    {
        let c = text.get_char(i);
        assert(c == digits[i - start]);
        if c < '0' || c > '9' {
            return None;
        }
        let digit: u32 = c as u32 - '0' as u32;
        proof {
            assert(digits.take(i - start + 1).drop_last() =~= digits.take(i - start));
            assert(digits.take(i - start + 1).last() == c);
        }
        value = value * 10 + digit;
        if value > 65535 {
            proof {
                lemma_decimal_grows(digits, i - start + 1);
            }
            return None;
        }
        i += 1;
    }
    assert(digits.take(i - start) =~= digits);
    Some(value as u16)
}

/// One end of a connection, as the gateway parameters name it: a host, by
/// name or by address, and a port.
pub struct Endpoint {
    pub host: String,
    pub port: u16,
}

/// What the gateway parameters say of a request before any of it is read:
/// the two ends of the connection, the name of the server, and the query
/// string.
pub struct Context {
    pub remote: Endpoint,
    pub server: Endpoint,
    pub server_name: String,
    pub query_string: Option<String>,
}

/// An end of a connection can be read when the address is there and the port
/// is there and is a port number.
pub open spec fn spec_endpoint_ok(addr: Option<String>, number: Option<&str>) -> bool {
    addr.is_some() && number.is_some() && spec_port(number.unwrap()@).is_some()
}

/// The query string of a request, when its URI is known and holds one.
pub open spec fn has_query(request_uri: Option<&str>, query: Seq<char>) -> bool {
    request_uri.is_some() && exists|i: int|
        is_first_mark(request_uri.unwrap()@, i) && query == request_uri.unwrap()@.skip(i + 1)
}

/// One end of a connection, from its address and port parameters.
pub fn endpoint(addr: Option<String>, number: Option<&str>) -> (end: Option<Endpoint>)
    ensures
        end.is_some() == spec_endpoint_ok(addr, number),
        end.is_some() ==> end.unwrap().host == addr.unwrap() && Some(end.unwrap().port)
            == spec_port(number.unwrap()@),
{
    match (addr, number) {
        (Some(host), Some(text)) => match port(text) {
            Some(port) => Some(Endpoint { host, port }),
            None => None,
        },
        _ => None,
    }
}

impl Context {
    /// Reads the context of a request out of its gateway parameters. The
    /// remote and the server address, each with its port, are required; the
    /// server name is empty without `SERVER_NAME`; the query string is what
    /// follows the first `?` of `REQUEST_URI`.
    pub fn from_params(
        remote_addr: Option<String>,
        remote_port: Option<&str>,
        server_addr: Option<String>,
        server_port: Option<&str>,
        server_name: Option<String>,
        request_uri: Option<&str>,
    ) -> (context: Option<Context>)
        ensures
            context.is_some() == (spec_endpoint_ok(remote_addr, remote_port) && spec_endpoint_ok(
                server_addr,
                server_port,
            )),
            context.is_some() ==> {
                let c = context.unwrap();
                &&& c.remote.host == remote_addr.unwrap()
                &&& Some(c.remote.port) == spec_port(remote_port.unwrap()@)
                &&& c.server.host == server_addr.unwrap()
                &&& Some(c.server.port) == spec_port(server_port.unwrap()@)
                &&& match server_name {
                    Some(name) => c.server_name == name,
                    None => c.server_name@ == Seq::<char>::empty(),
                }
                &&& match c.query_string {
                    Some(q) => has_query(request_uri, q@),
                    None => request_uri.is_none() || forall|j: int|
                        0 <= j < request_uri.unwrap()@.len() ==> request_uri.unwrap()@[j] != '?',
                }
            },
    {
        let remote = match endpoint(remote_addr, remote_port) {
            Some(end) => end,
            None => {
                return None;
            },
        };
        let server = match endpoint(server_addr, server_port) {
            Some(end) => end,
            None => {
                return None;
            },
        };
        let server_name = match server_name {
            Some(name) => name,
            None => String::new(),
        };
        let query_string = match request_uri {
            Some(uri) => query_string(uri),
            None => None,
        };
        Some(Context { remote, server, server_name, query_string })
    }
}

} // verus!
