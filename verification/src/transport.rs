//! Framing of the byte-level conversation with the container runtime and
//! the report collector.
//!
//! The runtime is reached over a local socket speaking an HTTP-shaped
//! protocol; the collector receives the report as an HTTP POST. This module
//! builds the request text and extracts the body from a raw response; moving
//! the bytes over the wire is the caller's business.

use vstd::prelude::*;
use vstd::string::StringExecFns;

verus! {

/// Carriage return, the first byte of the header/body separator.
pub const CR: u8 = 13;

/// Line feed, the second byte of the header/body separator.
pub const LF: u8 = 10;

/// The decimal digit characters of `n`, most significant first, with no
/// leading zero except for `n == 0` itself.
pub open spec fn decimal_digits(n: nat) -> Seq<char>
    decreases n,
{
    if n < 10 {
        seq![decimal_digit(n)]
    } else {
        decimal_digits(n / 10) + seq![decimal_digit(n % 10)]
    }
}

/// The character of one decimal digit.
pub open spec fn decimal_digit(d: nat) -> char {
    if d == 0 {
        '0'
    } else if d == 1 {
        '1'
    } else if d == 2 {
        '2'
    } else if d == 3 {
        '3'
    } else if d == 4 {
        '4'
    } else if d == 5 {
        '5'
    } else if d == 6 {
        '6'
    } else if d == 7 {
        '7'
    } else if d == 8 {
        '8'
    } else {
        '9'
    }
}

/// The one-character string of one decimal digit.
fn decimal_digit_str(d: u64) -> (r: &'static str)
    requires
        d < 10,
    ensures
        r@ == seq![decimal_digit(d as nat)],
{
    proof {
        reveal_strlit("0");
        reveal_strlit("1");
        reveal_strlit("2");
        reveal_strlit("3");
        reveal_strlit("4");
        reveal_strlit("5");
        reveal_strlit("6");
        reveal_strlit("7");
        reveal_strlit("8");
        reveal_strlit("9");
    }
    if d == 0 {
        "0"
    } else if d == 1 {
        "1"
    } else if d == 2 {
        "2"
    } else if d == 3 {
        "3"
    } else if d == 4 {
        "4"
    } else if d == 5 {
        "5"
    } else if d == 6 {
        "6"
    } else if d == 7 {
        "7"
    } else if d == 8 {
        "8"
    } else {
        "9"
    }
}

/// Renders `n` in decimal, most significant digit first.
pub fn u64_to_decimal(n: u64) -> (r: String)
    ensures
        r@ == decimal_digits(n as nat),
    decreases n,
{
    if n < 10 {
        String::from_str(decimal_digit_str(n))
    } else {
        let mut s = u64_to_decimal(n / 10);
        s.append(decimal_digit_str(n % 10));
        s
    }
}

/// Builds the request text of one GET against the runtime's HTTP-shaped
/// endpoint, exactly the request line followed by the end of the (empty)
/// header block.
pub fn http_get_request(path: &str) -> (r: String)
    ensures
        r@ == "GET "@ + path@ + " HTTP/1.1\r\n\r\n"@,
{
    let mut s = String::from_str("GET ");
    s.append(path);
    s.append(" HTTP/1.1\r\n\r\n");
    proof {
        assert(s@ =~= "GET "@ + path@ + " HTTP/1.1\r\n\r\n"@);
    }
    s
}

/// The path that lists the running containers (the runtime's default
/// filter: stopped containers are not included).
pub fn containers_list_path() -> (r: String)
    ensures
        r@ == "/containers/json"@,
{
    String::from_str("/containers/json")
}

/// The path of one stats snapshot for the container with the given
/// identifier.
pub fn container_stats_path(id: &str) -> (r: String)
    ensures
        r@ == "/containers/"@ + id@ + "/stats"@,
{
    let mut s = String::from_str("/containers/");
    s.append(id);
    s.append("/stats");
    proof {
        assert(s@ =~= "/containers/"@ + id@ + "/stats"@);
    }
    s
}

/// Builds the head of the HTTP POST that delivers one report: request line,
/// host, a close-after-response connection, JSON content type on both sides,
/// and the body length, ended by the blank line that precedes the body.
pub fn http_post_head(host: &str, path: &str, content_length: u64) -> (r: String)
    ensures
        r@ == "POST "@ + path@ + " HTTP/1.1\r\nHost: "@ + host@
            + "\r\nConnection: close\r\nContent-Type: application/json\r\nAccept: application/json\r\nContent-Length: "@
            + decimal_digits(content_length as nat) + "\r\n\r\n"@,
{
    let mut s = String::from_str("POST ");
    s.append(path);
    s.append(" HTTP/1.1\r\nHost: ");
    s.append(host);
    s.append("\r\nConnection: close\r\nContent-Type: application/json\r\nAccept: application/json\r\nContent-Length: ");
    let length = u64_to_decimal(content_length);
    s.append(length.as_str());
    s.append("\r\n\r\n");
    proof {
        assert(s@ =~= "POST "@ + path@ + " HTTP/1.1\r\nHost: "@ + host@
            + "\r\nConnection: close\r\nContent-Type: application/json\r\nAccept: application/json\r\nContent-Length: "@
            + decimal_digits(content_length as nat) + "\r\n\r\n"@);
    }
    s
}

/// Whether the four-byte header/body separator (an empty line: CR LF CR LF)
/// stands at position `i` of `s`.
pub open spec fn separator_at(s: Seq<u8>, i: int) -> bool {
    &&& 0 <= i
    &&& i + 4 <= s.len()
    &&& s[i] == CR
    &&& s[i + 1] == LF
    &&& s[i + 2] == CR
    &&& s[i + 3] == LF
}

/// Extracts the body of a raw HTTP-shaped response: everything after the
/// last header/body separator. A response without the separator is returned
/// whole.
pub fn extract_http_body(response: &Vec<u8>) -> (r: Vec<u8>)
    ensures
        (forall|i: int| !separator_at(response@, i)) ==> r@ == response@,
        (exists|i: int| separator_at(response@, i)) ==> (exists|i: int|
            {
                &&& separator_at(response@, i)
                &&& r@ == response@.subrange(i + 4, response@.len() as int)
                &&& forall|j: int| j > i ==> !separator_at(response@, j)
            }),
{
    let len = response.len();
    if len >= 4 {
        let mut upper: usize = len - 3;
        while upper > 0
            invariant
                len == response@.len(),
                len >= 4,
                upper <= len - 3,
                forall|j: int| j >= upper ==> !separator_at(response@, j),
            decreases upper,
        {
            let i = upper - 1;
            if response[i] == CR && response[i + 1] == LF && response[i + 2] == CR
                && response[i + 3] == LF {
                let body = copy_range(response, i + 4, len);
                proof {
                    assert(separator_at(response@, i as int));
                }
                return body;
            }
            upper = i;
        }
    }
    copy_range(response, 0, len)
}

/// Copies the bytes of `v` from `from` (inclusive) to `to` (exclusive).
fn copy_range(v: &Vec<u8>, from: usize, to: usize) -> (r: Vec<u8>)
    requires
        from <= to <= v@.len(),
    ensures
        r@ == v@.subrange(from as int, to as int),
{
    let mut out: Vec<u8> = Vec::new();
    let mut i: usize = from;
    while i < to
        invariant
            from <= i <= to <= v@.len(),
            out@ == v@.subrange(from as int, i as int),
        decreases to - i,
    {
        out.push(v[i]);
        proof {
            assert(out@ =~= v@.subrange(from as int, i + 1 as int));
        }
        i = i + 1;
    }
    out
}

} // verus!
