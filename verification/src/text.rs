//! Decimal numerals and the addresses and URLs built from them.

use vstd::prelude::*;
use crate::http::{is_whitespace, law_request_line_routes_by_its_key, spec_extract_subdomain};

verus! {

/// The port on which the server takes control connections.
pub const CONTROL_PORT: u16 = 4000;

/// The port on which the server takes a client's data connections.
pub const DATA_PORT: u16 = 4001;

/// The port on which the server takes public HTTP connections.
pub const PUBLIC_PORT: u16 = 8080;

/// `String::push`: appends one character to the string.
#[verifier::external_body]
fn push_char(s: &mut String, c: char)
    ensures
        final(s)@ == old(s)@.push(c),
{
    s.push(c);
}

/// The ASCII digit of `d`, for `d < 10`.
pub open spec fn digit_char(d: nat) -> char {
    (48 + d) as char
}

/// The decimal numeral of `n`, without leading zeros.
pub open spec fn decimal(n: nat) -> Seq<char>
    decreases n,
{
    if n < 10 {
        seq![digit_char(n)]
    } else {
        decimal(n / 10).push(digit_char(n % 10))
    }
}

/// An ASCII decimal digit.
pub open spec fn is_ascii_digit(c: char) -> bool {
    '0' <= c && c <= '9'
}

/// The number that a string of ASCII digits reads as, most significant
/// digit first.
pub open spec fn numeral_value(s: Seq<char>) -> int
    decreases s.len(),
{
    if s.len() == 0 {
        0
    } else {
        numeral_value(s.drop_last()) * 10 + (s.last() as int - 48)
    }
}

/// The numeral of `n` is a non-empty string of ASCII digits, without a
/// leading zero unless `n` is zero, that reads back as `n`; its last digit is
/// that of `n % 10`.
pub proof fn law_decimal_reads_back(n: nat)
    ensures
        decimal(n).len() > 0,
        forall|i: int| 0 <= i < decimal(n).len() ==> is_ascii_digit(#[trigger] decimal(n)[i]),
        numeral_value(decimal(n)) == n,
        decimal(n).last() as int - 48 == n % 10,
        n > 0 ==> decimal(n)[0] != '0',
    decreases n,
{
    let d = n % 10;
    assert(digit_char(d) as int == 48 + d);
    if n >= 10 {
        law_decimal_reads_back(n / 10);
        let prev = decimal(n / 10);
        assert(decimal(n) == prev.push(digit_char(d)));
        assert(decimal(n).drop_last() =~= prev);
        assert forall|i: int| 0 <= i < decimal(n).len() implies is_ascii_digit(#[trigger] decimal(n)[i]) by {
            if i < prev.len() {
                assert(decimal(n)[i] == prev[i]);
            }
        }
        assert(decimal(n)[0] == prev[0]);
        assert(n / 10 > 0);
        assert(decimal(n).last() == digit_char(d));
        assert(numeral_value(decimal(n)) == numeral_value(prev) * 10 + d);
        assert((n / 10) * 10 + n % 10 == n);
    } else {
        assert(decimal(n).drop_last() =~= Seq::<char>::empty());
        assert(numeral_value(decimal(n)) == numeral_value(Seq::<char>::empty()) * 10 + d);
    }
}

/// Appends the decimal numeral of `n` to `s`.
pub fn push_decimal(s: &mut String, n: u16)
    ensures
        final(s)@ == old(s)@ + decimal(n as nat),
        numeral_value(final(s)@.subrange(old(s)@.len() as int, final(s)@.len() as int)) == n,
    decreases n,
{
    if n >= 10 {
        push_decimal(s, n / 10);
    }
    let d: u8 = (n % 10) as u8;
    let c: char = (48u8 + d) as char;
    push_char(s, c);
    proof {
        law_decimal_reads_back(n as nat);
        assert(s@.subrange(old(s)@.len() as int, s@.len() as int) =~= decimal(n as nat));
        assert(c == digit_char((n % 10) as nat));
        if n >= 10 {
            assert(decimal(n as nat) == decimal((n / 10) as nat).push(c));
        }
    }
}

/// The numeral of the public port.
proof fn lemma_public_port_numeral()
    ensures
        decimal(PUBLIC_PORT as nat) == seq!['8', '0', '8', '0'],
{
    assert(decimal(8) == seq!['8']);
    assert(decimal(80) == seq!['8', '0']);
    assert(decimal(808) == seq!['8', '0', '8']);
    assert(decimal(8080) == seq!['8', '0', '8', '0']);
}

/// The public URL of a subdomain is `http://localhost:8080/` followed by the
/// whole subdomain, so its path, asked for in a request line, is routed back
/// to the subdomain whenever that is a key a request can name.
pub proof fn law_public_url_is_the_subdomain_path(subdomain: Seq<char>)
    ensures
        spec_public_url(subdomain) == "http://localhost:8080/"@ + subdomain,
        spec_public_url(subdomain).subrange(0, 21) == "http://localhost:8080"@,
        spec_public_url(subdomain).subrange(21, spec_public_url(subdomain).len() as int) == seq!['/']
            + subdomain,
        subdomain.len() > 0 && (forall|k: int|
            0 <= k < subdomain.len() ==> #[trigger] subdomain[k] != '/' && !is_whitespace(
                subdomain[k],
            )) ==> spec_extract_subdomain(
            seq!['G', 'E', 'T', ' '] + spec_public_url(subdomain).subrange(
                21,
                spec_public_url(subdomain).len() as int,
            ) + seq![' '],
        ) == subdomain,
{
    lemma_public_port_numeral();
    reveal_strlit("http://localhost:");
    reveal_strlit("http://localhost:8080/");
    reveal_strlit("http://localhost:8080");
    let u = spec_public_url(subdomain);
    assert(u =~= "http://localhost:8080/"@ + subdomain);
    assert(u.subrange(0, 21) =~= "http://localhost:8080"@);
    assert(u.subrange(21, u.len() as int) =~= seq!['/'] + subdomain);
    if subdomain.len() > 0 && (forall|k: int|
        0 <= k < subdomain.len() ==> #[trigger] subdomain[k] != '/' && !is_whitespace(subdomain[k])) {
        law_request_line_routes_by_its_key(subdomain, seq![' ']);
        assert(seq!['G', 'E', 'T', ' '] + u.subrange(21, u.len() as int) + seq![' '] =~= seq![
            'G',
            'E',
            'T',
            ' ',
            '/',
        ] + subdomain + seq![' ']);
    }
}

/// An address built for a host and port is the host, a colon, and ASCII
/// digits that read back as the port.
pub proof fn law_address_names_its_port(host: Seq<char>, port: u16)
    ensures
        spec_host_address(host, port).subrange(0, host.len() as int) == host,
        spec_host_address(host, port)[host.len() as int] == ':',
        ({
            let a = spec_host_address(host, port);
            let digits = a.subrange(host.len() as int + 1, a.len() as int);
            &&& digits.len() > 0
            &&& forall|i: int| 0 <= i < digits.len() ==> is_ascii_digit(#[trigger] digits[i])
            &&& numeral_value(digits) == port
        }),
{
    law_decimal_reads_back(port as nat);
    let a = spec_host_address(host, port);
    assert(a.subrange(0, host.len() as int) =~= host);
    assert(a.subrange(host.len() as int + 1, a.len() as int) =~= decimal(port as nat));
}

/// The address of the server's control port on `host`.
pub open spec fn spec_host_address(host: Seq<char>, port: u16) -> Seq<char> {
    host + seq![':'] + decimal(port as nat)
}

/// `host:port` for the server's control port.
pub fn control_address(server_host: &str) -> (addr: String)
    ensures
        addr@ == spec_host_address(server_host@, CONTROL_PORT),
{
    let mut addr = server_host.to_owned();
    push_char(&mut addr, ':');
    push_decimal(&mut addr, CONTROL_PORT);
    addr
}

/// `host:port` for the server's data port.
pub fn data_address(server_host: &str) -> (addr: String)
    ensures
        addr@ == spec_host_address(server_host@, DATA_PORT),
{
    let mut addr = server_host.to_owned();
    push_char(&mut addr, ':');
    push_decimal(&mut addr, DATA_PORT);
    addr
}

/// The loopback address of the service that a client exposes.
pub fn local_address(local_port: u16) -> (addr: String)
    ensures
        addr@ == spec_host_address("127.0.0.1"@, local_port),
{
    let mut addr = String::from_str("127.0.0.1");
    push_char(&mut addr, ':');
    push_decimal(&mut addr, local_port);
    addr
}

/// The public URL under which the server reaches a client's subdomain.
pub open spec fn spec_public_url(subdomain: Seq<char>) -> Seq<char> {
    "http://localhost:"@ + decimal(PUBLIC_PORT as nat) + seq!['/'] + subdomain
}

/// `http://localhost:<public port>/<subdomain>`.
pub fn public_url(subdomain: &str) -> (url: String)
    ensures
        url@ == spec_public_url(subdomain@),
        url@ == "http://localhost:8080/"@ + subdomain@,
{
    proof {
        law_public_url_is_the_subdomain_path(subdomain@);
    }
    let mut url = String::from_str("http://localhost:");
    push_decimal(&mut url, PUBLIC_PORT);
    push_char(&mut url, '/');
    url.append(subdomain);
    url
}

} // verus!
