use vstd::prelude::*;

use crate::text::{chars_of, contains_seq, contains_str, line_spans, lines_of, str_eq};

verus! {

/// A line names a proxy node when it holds one of the link schemes the subscription uses.
pub open spec fn is_proxy_link_spec(line: Seq<char>) -> bool {
    ||| contains_seq(line, "vless://"@)
    ||| contains_seq(line, "vmess://"@)
    ||| contains_seq(line, "trojan://"@)
    ||| contains_seq(line, "hysteria2://"@)
    ||| contains_seq(line, "tuic://"@)
}

/// The lines among `lines` that are proxy links, in their order.
pub open spec fn proxy_link_lines(lines: Seq<Seq<char>>) -> Seq<Seq<char>>
    decreases lines.len(),
{
    if lines.len() == 0 {
        seq![]
    } else if is_proxy_link_spec(lines.last()) {
        proxy_link_lines(lines.drop_last()).push(lines.last())
    } else {
        proxy_link_lines(lines.drop_last())
    }
}

/// Whether `line` holds a `vless://`, `vmess://`, `trojan://`, `hysteria2://` or `tuic://`
/// link.
pub fn is_proxy_link(line: &str) -> (r: bool)
    ensures
        r == is_proxy_link_spec(line@),
{
    contains_str(line, "vless://") || contains_str(line, "vmess://") || contains_str(
        line,
        "trojan://",
    ) || contains_str(line, "hysteria2://") || contains_str(line, "tuic://")
}

/// The lines of `text` that are proxy links, in their order.
pub fn proxy_links(text: &str) -> (r: Vec<String>)
    ensures
        r@.map_values(|s: String| s@) == proxy_link_lines(lines_of(text@)),
{
    let t = chars_of(text);
    let spans = line_spans(&t);
    let ghost lines = lines_of(text@);
    let mut r: Vec<String> = Vec::new();
    let mut k: usize = 0;
    while k < spans.len()
        invariant
            t@ == text@,
            lines == lines_of(text@),
            spans@.len() == lines.len(),
            forall|m: int|
                0 <= m < spans@.len() ==> {
                    &&& (#[trigger] spans@[m]).0 <= spans@[m].1 <= t@.len()
                    &&& t@.subrange(spans@[m].0 as int, spans@[m].1 as int) == lines[m]
                },
            k <= spans@.len(),
            r@.map_values(|s: String| s@) == proxy_link_lines(lines.take(k as int)),
        decreases spans@.len() - k,
    {
        let (a, b) = spans[k];
        let line = text.substring_char(a, b);
        proof {
            assert(lines.take(k + 1).drop_last() =~= lines.take(k as int));
            assert(lines.take(k + 1).last() == lines[k as int]);
        }
        if is_proxy_link(line) {
            let owned = line.to_owned();
            let ghost before = r@;
            r.push(owned);
            proof {
                assert(r@.map_values(|s: String| s@) =~= before.map_values(|s: String| s@).push(
                    lines[k as int],
                ));
            }
        }
        k = k + 1;
    }
    proof {
        assert(lines.take(spans@.len() as int) =~= lines);
    }
    r
}

/// The architecture family whose binaries are downloaded: `"arm"` for an `arm` or
/// `aarch64` target, `"amd"` for any other.
pub fn get_architecture(target_arch: &str) -> (r: &'static str)
    ensures
        r@ == (if target_arch@ == "arm"@ || target_arch@ == "aarch64"@ {
            "arm"@
        } else {
            "amd"@
        }),
{
    if str_eq(target_arch, "arm") || str_eq(target_arch, "aarch64") {
        "arm"
    } else {
        "amd"
    }
}

} // verus!
