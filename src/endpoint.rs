//! The addresses of the daemon's control API.

use vstd::prelude::*;
use vstd::string::*;
use vstd::utf8::encode_utf8;
use crate::format::{decimal, decimal_string};

verus! {

/// The bytes that percent-encoding leaves as they are.
pub open spec fn unreserved(b: u8) -> bool {
    (48 <= b <= 57) || (65 <= b <= 90) || (97 <= b <= 122) || b == 45 || b == 46 || b == 95 || b == 126
}

/// An upper-case hexadecimal digit.
pub open spec fn hex_upper(d: u8) -> char {
    seq!['0', '1', '2', '3', '4', '5', '6', '7', '8', '9', 'A', 'B', 'C', 'D', 'E', 'F'][d as int]
}

/// The percent-encoding of one byte.
pub open spec fn percent_byte(b: u8) -> Seq<char> {
    if unreserved(b) {
        seq![b as char]
    } else {
        seq!['%', hex_upper(b / 16), hex_upper(b % 16)]
    }
}

/// Percent-encodes every byte but ASCII letters, digits and `-`, `.`, `_`,
/// `~`.
pub open spec fn percent_encoded(bs: Seq<u8>) -> Seq<char>
    decreases bs.len(),
{
    if bs.len() == 0 {
        Seq::empty()
    } else {
        percent_encoded(bs.drop_last()) + percent_byte(bs.last())
    }
}

/// Relies on `urlencoding::encode`, which percent-encodes each byte of the
/// text's UTF-8 form except alphanumerics and `-`, `_`, `.`, `~`, with
/// upper-case hex digits.
#[verifier::external_body]
fn url_encode(s: &str) -> (r: String)
    ensures
        r@ == percent_encoded(s.spec_bytes()),
{
    urlencoding::encode(s).into_owned()
}

/// The text begins with `http`.
pub open spec fn has_scheme(c: Seq<char>) -> bool {
    c.len() >= 4 && c.subrange(0, 4) == "http"@
}

/// The API's base address: the controller address as it is where it names
/// its scheme, otherwise over plain HTTP.
pub open spec fn base_url_of(c: Seq<char>) -> Seq<char> {
    if has_scheme(c) {
        c
    } else {
        "http://"@ + c
    }
}

/// The API's base address for a controller address.
pub fn base_url(controller: &str) -> (r: String)
    ensures
        r@ == base_url_of(controller@),
{
    proof {
        reveal_strlit("http");
    }
    let n = controller.unicode_len();
    let scheme = n >= 4 && controller.get_char(0) == 'h' && controller.get_char(1) == 't'
        && controller.get_char(2) == 't' && controller.get_char(3) == 'p';
    assert(scheme == has_scheme(controller@)) by {
        assert("http"@ =~= seq!['h', 't', 't', 'p']);
        if n >= 4 {
            let head = controller@.subrange(0, 4);
            assert(head[0] == controller@[0] && head[1] == controller@[1]);
            assert(head[2] == controller@[2] && head[3] == controller@[3]);
            if scheme {
                assert(head =~= "http"@);
            }
        }
    }
    if scheme {
        String::from_str(controller)
    } else {
        String::from_str("http://").concat(controller)
    }
}

/// The path that selects a group's active member.
pub fn select_path(group: &str) -> (r: String)
    ensures
        r@ == "/proxies/"@ + percent_encoded(group.spec_bytes()),
{
    String::from_str("/proxies/").concat(url_encode(group).as_str())
}

/// The path of a latency probe of `proxy` against `url`.
pub fn delay_path(proxy: &str, url: &str, timeout_ms: u64) -> (r: String)
    ensures
        r@ == "/proxies/"@ + percent_encoded(proxy.spec_bytes()) + "/delay?url="@ + percent_encoded(
            url.spec_bytes(),
        ) + "&timeout="@ + decimal(timeout_ms as nat),
{
    String::from_str("/proxies/").concat(url_encode(proxy).as_str()).concat("/delay?url=").concat(
        url_encode(url).as_str(),
    ).concat("&timeout=").concat(decimal_string(timeout_ms as u128).as_str())
}

/// The address of the live traffic stream, with the secret as a `token`
/// query parameter where there is one.
pub fn traffic_url(controller: &str, secret: &Option<String>) -> (r: String)
    ensures
        r@ == "ws://"@ + controller@ + "/traffic"@ + (match secret {
            Some(s) => "?token="@ + percent_encoded(encode_utf8(s@)),
            None => Seq::<char>::empty(),
        }),
{
    let base = String::from_str("ws://").concat(controller).concat("/traffic");
    match secret {
        Some(s) => base.concat("?token=").concat(url_encode(s.as_str()).as_str()),
        None => base,
    }
}

} // verus!
