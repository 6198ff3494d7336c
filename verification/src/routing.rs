use vstd::prelude::*;

use crate::launch::join2;
use crate::json::JsonSpec;
use crate::text::{starts_with_seq, starts_with_str, str_eq};
use crate::xray::{entry_inbound_members, fallbacks_items, inbounds_spec, jn, jo};

verus! {

/// Paths served by the proxy core's entry (port 3001): the WebSocket paths of its inbounds and
/// the bare protocol paths; every other request goes to the HTTP server.
pub open spec fn is_proxy_path(path: Seq<char>) -> bool {
    ||| starts_with_seq(path, "/vless-argo"@)
    ||| starts_with_seq(path, "/vmess-argo"@)
    ||| starts_with_seq(path, "/trojan-argo"@)
    ||| path == "/vless"@
    ||| path == "/vmess"@
    ||| path == "/trojan"@
}

/// The local port a request for `path` is forwarded to: `3001` for the proxy paths,
/// `http_port` otherwise.
pub fn proxy_target_port(path: &str, http_port: &str) -> (r: String)
    ensures
        r@ == (if is_proxy_path(path@) {
            "3001"@
        } else {
            http_port@
        }),
{
    if starts_with_str(path, "/vless-argo") || starts_with_str(path, "/vmess-argo")
        || starts_with_str(path, "/trojan-argo") || str_eq(path, "/vless") || str_eq(path, "/vmess")
        || str_eq(path, "/trojan") {
        "3001".to_owned()
    } else {
        http_port.to_owned()
    }
}

/// The address a forwarded connection goes to: `localhost:<port>`.
pub fn local_address(port: &str) -> (r: String)
    ensures
        r@ == "localhost:"@ + port@,
{
    join2("localhost:", port)
}

/// The URL a forwarded HTTP request goes to: `http://localhost:<port><path and query>`.
pub fn proxy_target_url(port: &str, path_and_query: &str) -> (r: String)
    ensures
        r@ == "http://localhost:"@ + port@ + path_and_query@,
{
    let mut r = join2("http://localhost:", port);
    r.append(path_and_query);
    r
}

/// The route of the subscription: `/<sub_path>`.
pub fn subscription_route(sub_path: &str) -> (r: String)
    ensures
        r@ == "/"@ + sub_path@,
{
    join2("/", sub_path)
}

/// The pages tried, in order, for the site root: `index.html`, `/app/index.html` and
/// `./index.html`; other paths are served from the current directory.
pub fn index_page_candidates(path: &str) -> (r: Option<Vec<String>>)
    ensures
        match r {
            Some(v) => path@ == "/"@ && v@.map_values(|s: String| s@) == seq![
                "index.html"@,
                "/app/index.html"@,
                "./index.html"@,
            ],
            None => path@ != "/"@,
        },
{
    if !str_eq(path, "/") {
        return None;
    }
    let v = vec!["index.html".to_owned(), "/app/index.html".to_owned(), "./index.html".to_owned()];
    assert(v@.map_values(|s: String| s@) =~= seq![
        "index.html"@,
        "/app/index.html"@,
        "./index.html"@,
    ]);
    Some(v)
}

/// A byte that a header value may hold to be read as text: visible ASCII, space or tab.
pub open spec fn is_header_text_byte(b: u8) -> bool {
    (32 <= b && b < 127) || b == 9
}

/// ASCII lower case of a byte.
pub open spec fn ascii_lower(b: u8) -> u8 {
    if 65 <= b <= 90 {
        (b + 32) as u8
    } else {
        b
    }
}

/// The bytes of `websocket`.
pub open spec fn websocket_bytes() -> Seq<u8> {
    seq![119u8, 101, 98, 115, 111, 99, 107, 101, 116]
}

/// A request asks for a WebSocket upgrade: its `upgrade` header reads as text and, in lower
/// case, is `websocket`.
pub open spec fn is_websocket_upgrade_spec(header: Option<Seq<u8>>) -> bool {
    match header {
        Some(v) => (forall|i: int| 0 <= i < v.len() ==> is_header_text_byte(#[trigger] v[i]))
            && v.len() == 9 && forall|i: int|
            0 <= i < 9 ==> ascii_lower(#[trigger] v[i]) == websocket_bytes()[i],
        None => false,
    }
}

/// Whether the `upgrade` header value (if the request has one) asks for a WebSocket.
pub fn is_websocket_upgrade(header: Option<&[u8]>) -> (r: bool)
    ensures
        r == is_websocket_upgrade_spec(
            match header {
                Some(v) => Some(v@),
                None => None,
            },
        ),
{
    let v = match header {
        Some(v) => v,
        None => {
            return false;
        },
    };
    let mut i: usize = 0;
    while i < v.len()
        invariant
            header == Some(v),
            i <= v@.len(),
            forall|k: int| 0 <= k < i ==> is_header_text_byte(#[trigger] v@[k]),
        decreases v@.len() - i,
    {
        let b = v[i];
        if !((32 <= b && b < 127) || b == 9) {
            assert(!is_header_text_byte(v@[i as int]));
            return false;
        }
        i = i + 1;
    }
    if v.len() != 9 {
        return false;
    }
    let expected: [u8; 9] = [119, 101, 98, 115, 111, 99, 107, 101, 116];
    assert(expected@ =~= websocket_bytes());
    let mut j: usize = 0;
    while j < 9
        invariant
            header == Some(v),
            forall|k: int| 0 <= k < v@.len() ==> is_header_text_byte(#[trigger] v@[k]),
            j <= 9,
            v@.len() == 9,
            expected@ == websocket_bytes(),
            forall|k: int| 0 <= k < j ==> ascii_lower(#[trigger] v@[k]) == websocket_bytes()[k],
        decreases 9 - j,
    {
        let b = v[j];
        let lower: u8 = if 65 <= b && b <= 90 {
            b + 32
        } else {
            b
        };
        assert(lower == ascii_lower(v@[j as int]));
        if lower != expected[j] {
            assert(ascii_lower(v@[j as int]) != websocket_bytes()[j as int]);
            return false;
        }
        j = j + 1;
    }
    true
}

/// The value of a string of decimal digits.
pub open spec fn decimal_value(digits: Seq<char>) -> int
    decreases digits.len(),
{
    if digits.len() == 0 {
        0
    } else {
        decimal_value(digits.drop_last()) * 10 + (digits.last() as int - '0' as int)
    }
}

/// Every character is an ASCII digit.
pub open spec fn all_digits(s: Seq<char>) -> bool {
    forall|i: int| 0 <= i < s.len() ==> '0' <= #[trigger] s[i] <= '9'
}

/// The port number `s` spells as `u16::from_str` reads it: an optional `+`, then at least
/// one decimal digit, for a value of at most 65535.
pub open spec fn port_spec(s: Seq<char>) -> Option<int> {
    let digits = if s.len() > 0 && s[0] == '+' {
        s.drop_first()
    } else {
        s
    };
    if digits.len() > 0 && all_digits(digits) && decimal_value(digits) <= 65535 {
        Some(decimal_value(digits))
    } else {
        None
    }
}

proof fn lemma_decimal_value_grows(digits: Seq<char>)
    requires
        all_digits(digits),
    ensures
        decimal_value(digits) >= 0,
        forall|k: int| 0 <= k <= digits.len() ==> decimal_value(#[trigger] digits.take(k))
            <= decimal_value(digits),
    decreases digits.len(),
{
    if digits.len() > 0 {
        let d = digits.drop_last();
        assert(all_digits(d));
        lemma_decimal_value_grows(d);
        assert forall|k: int| 0 <= k <= digits.len() implies decimal_value(#[trigger] digits.take(k))
            <= decimal_value(digits) by {
            if k < digits.len() {
                assert(digits.take(k) =~= d.take(k));
            } else {
                assert(digits.take(k) =~= digits);
            }
        }
    }
}

/// The port number `s` spells, as `u16::from_str` reads it (see `port_spec`).
pub fn parse_port(s: &str) -> (r: Option<u16>)
    ensures
        match r {
            Some(p) => port_spec(s@) == Some(p as int),
            None => port_spec(s@) is None,
        },
{
    let t = crate::text::chars_of(s);
    let start: usize = if t.len() > 0 && t[0] == '+' {
        1
    } else {
        0
    };
    let ghost digits = if s@.len() > 0 && s@[0] == '+' {
        s@.drop_first()
    } else {
        s@
    };
    assert(digits =~= t@.subrange(start as int, t@.len() as int));
    if start == t.len() {
        return None;
    }
    let mut acc: u32 = 0;
    let mut i: usize = start;
    while i < t.len()
        invariant
            t@ == s@,
            digits == (if s@.len() > 0 && s@[0] == '+' {
                s@.drop_first()
            } else {
                s@
            }),
            start < t@.len(),
            start <= i <= t@.len(),
            digits == t@.subrange(start as int, t@.len() as int),
            all_digits(t@.subrange(start as int, i as int)),
            acc as int == decimal_value(t@.subrange(start as int, i as int)),
            acc <= 65535,
        decreases t@.len() - i,
    {
        let c = t[i];
        proof {
            assert(t@.subrange(start as int, i + 1).drop_last() =~= t@.subrange(
                start as int,
                i as int,
            ));
        }
        if !('0' <= c && c <= '9') {
            proof {
                assert(digits[i - start] == c);
                assert(!('0' <= digits[i - start] <= '9'));
            }
            return None;
        }
        let d: u32 = (c as u32) - ('0' as u32);
        let next: u32 = acc * 10 + d;
        if next > 65535 {
            proof {
                let upto = t@.subrange(start as int, i + 1);
                assert(upto.last() == c);
                assert(decimal_value(upto) == next);
                if all_digits(digits) {
                    lemma_decimal_value_grows(digits);
                    assert(digits.take(i + 1 - start) =~= upto);
                }
            }
            return None;
        }
        acc = next;
        i = i + 1;
    }
    Some(acc as u16)
}

/// The path a fallback of the public entry routes, if it names one.
pub open spec fn fallback_path(item: JsonSpec) -> Option<Seq<char>> {
    match item {
        JsonSpec::Object(members) => if members.len() > 0 && members[0].0 == "path"@ {
            match members[0].1 {
                JsonSpec::Str(p) => Some(p),
                _ => None,
            }
        } else {
            None
        },
        _ => None,
    }
}

/// Requests on the WebSocket paths that the proxy core's entry falls back on (and on any
/// path under them) are forwarded to port 3001, which is the port the entry, the first
/// inbound, listens on.
pub proof fn lemma_fallback_paths_reach_entry(uuid: Seq<char>, suffix: Seq<char>)
    ensures
        inbounds_spec(uuid)[0] == jo(entry_inbound_members(uuid)),
        entry_inbound_members(uuid)[0] == ("port"@, jn(3001)),
        forall|k: int|
            0 <= k < fallbacks_items().len() ==> match fallback_path(#[trigger] fallbacks_items()[k]) {
                Some(p) => is_proxy_path(p + suffix),
                None => true,
            },
{
    reveal_strlit("/vless-argo");
    reveal_strlit("/vmess-argo");
    reveal_strlit("/trojan-argo");
    reveal_strlit("path");
    reveal_strlit("dest");
    let items = fallbacks_items();
    assert forall|k: int| 0 <= k < items.len() implies match fallback_path(#[trigger] items[k]) {
        Some(p) => is_proxy_path(p + suffix),
        None => true,
    } by {
        if k == 1 {
            assert(("/vless-argo"@ + suffix).subrange(0, 11) =~= "/vless-argo"@);
        } else if k == 2 {
            assert(("/vmess-argo"@ + suffix).subrange(0, 11) =~= "/vmess-argo"@);
        } else if k == 3 {
            assert(("/trojan-argo"@ + suffix).subrange(0, 12) =~= "/trojan-argo"@);
        }
    }
}

} // verus!
