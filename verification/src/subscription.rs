use vstd::prelude::*;

use crate::config::{Config, ConfigView};
use crate::ext::{
    base64_decoding, base64_encoding, decode_base64, encode_base64, is_base64_char,
    json_object_text, json_object_text_of, push_char, utf8_to_string,
};
use crate::nodes::{is_proxy_link_spec, proxy_link_lines, proxy_links};
use crate::text::{
    is_white_space, lemma_lines_of_line_then_rest, lemma_no_line_feed_concat,
    lemma_trim_no_white_space, lines_of, no_line_feed, occurs_at, strip_cr, trim, trim_spec,
};

verus! {

/// The name under which the nodes are published: `<name>-<isp>`, or the ISP alone where no
/// name is set.
pub open spec fn node_name_spec(name: Seq<char>, isp: Seq<char>) -> Seq<char> {
    if name.len() > 0 {
        name + seq!['-'] + isp
    } else {
        isp
    }
}

/// The name under which the nodes are published (see `node_name_spec`).
pub fn node_name(name: &str, isp: &str) -> (r: String)
    ensures
        r@ == node_name_spec(name@, isp@),
{
    if name.is_empty() {
        isp.to_owned()
    } else {
        let mut r = name.to_owned();
        push_char(&mut r, '-');
        r.append(isp);
        r
    }
}

/// The members of the VMess share document for `domain`.
pub open spec fn vmess_members_spec(c: ConfigView, domain: Seq<char>, node: Seq<char>) -> Seq<
    (Seq<char>, Seq<char>),
> {
    seq![
        ("v"@, "2"@),
        ("ps"@, node),
        ("add"@, c.cfip),
        ("port"@, c.cfport),
        ("id"@, c.uuid),
        ("aid"@, "0"@),
        ("scy"@, "none"@),
        ("net"@, "ws"@),
        ("type"@, "none"@),
        ("host"@, domain),
        ("path"@, "/vmess-argo?ed=2560"@),
        ("tls"@, "tls"@),
        ("sni"@, domain),
        ("alpn"@, ""@),
        ("fp"@, "firefox"@),
    ]
}

fn add_member(members: &mut Vec<(String, String)>, key: &str, value: &str)
    ensures
        final(members)@.map_values(|m: (String, String)| (m.0@, m.1@)) == old(
            members,
        )@.map_values(|m: (String, String)| (m.0@, m.1@)).push((key@, value@)),
{
    let ghost before = members@;
    members.push((key.to_owned(), value.to_owned()));
    assert(members@.map_values(|m: (String, String)| (m.0@, m.1@)) =~= before.map_values(
        |m: (String, String)| (m.0@, m.1@),
    ).push((key@, value@)));
}

/// The members of the VMess share document for `domain`, published as `node`.
pub fn vmess_members(cfg: &Config, domain: &str, node: &str) -> (r: Vec<(String, String)>)
    ensures
        r@.map_values(|m: (String, String)| (m.0@, m.1@)) == vmess_members_spec(
            cfg@,
            domain@,
            node@,
        ),
{
    let mut m: Vec<(String, String)> = Vec::new();
    add_member(&mut m, "v", "2");
    add_member(&mut m, "ps", node);
    add_member(&mut m, "add", cfg.cfip.as_str());
    add_member(&mut m, "port", cfg.cfport.as_str());
    add_member(&mut m, "id", cfg.uuid.as_str());
    add_member(&mut m, "aid", "0");
    add_member(&mut m, "scy", "none");
    add_member(&mut m, "net", "ws");
    add_member(&mut m, "type", "none");
    add_member(&mut m, "host", domain);
    add_member(&mut m, "path", "/vmess-argo?ed=2560");
    add_member(&mut m, "tls", "tls");
    add_member(&mut m, "sni", domain);
    add_member(&mut m, "alpn", "");
    add_member(&mut m, "fp", "firefox");
    assert(m@.map_values(|m: (String, String)| (m.0@, m.1@)) =~= vmess_members_spec(
        cfg@,
        domain@,
        node@,
    ));
    m
}

/// The VLESS link of the tunnel `domain`.
pub open spec fn vless_link_spec(c: ConfigView, domain: Seq<char>, node: Seq<char>) -> Seq<char> {
    "vless://"@ + c.uuid + "@"@ + c.cfip + ":"@ + c.cfport
        + "?encryption=none&security=tls&sni="@ + domain + "&fp=firefox&type=ws&host="@ + domain
        + "&path=%2Fvless-argo%3Fed%3D2560#"@ + node
}

/// The Trojan link of the tunnel `domain`.
pub open spec fn trojan_link_spec(c: ConfigView, domain: Seq<char>, node: Seq<char>) -> Seq<char> {
    "trojan://"@ + c.uuid + "@"@ + c.cfip + ":"@ + c.cfport + "?security=tls&sni="@ + domain
        + "&fp=firefox&type=ws&host="@ + domain + "&path=%2Ftrojan-argo%3Fed%3D2560#"@ + node
}

/// The subscription: the VLESS, VMess and Trojan links, each on a line of its own between
/// blank lines.
pub open spec fn subscription_spec(
    c: ConfigView,
    domain: Seq<char>,
    node: Seq<char>,
    vmess_base64: Seq<char>,
) -> Seq<char> {
    "\n"@ + vless_link_spec(c, domain, node) + "\n\n"@ + "vmess://"@ + vmess_base64 + "\n\n"@
        + trojan_link_spec(c, domain, node) + "\n"@
}

fn vless_link(cfg: &Config, domain: &str, node: &str) -> (r: String)
    ensures
        r@ == vless_link_spec(cfg@, domain@, node@),
{
    let mut r = String::new();
    r.append("vless://");
    r.append(cfg.uuid.as_str());
    r.append("@");
    r.append(cfg.cfip.as_str());
    r.append(":");
    r.append(cfg.cfport.as_str());
    r.append("?encryption=none&security=tls&sni=");
    r.append(domain);
    r.append("&fp=firefox&type=ws&host=");
    r.append(domain);
    r.append("&path=%2Fvless-argo%3Fed%3D2560#");
    r.append(node);
    assert(r@ =~= vless_link_spec(cfg@, domain@, node@));
    r
}

fn trojan_link(cfg: &Config, domain: &str, node: &str) -> (r: String)
    ensures
        r@ == trojan_link_spec(cfg@, domain@, node@),
{
    let mut r = String::new();
    r.append("trojan://");
    r.append(cfg.uuid.as_str());
    r.append("@");
    r.append(cfg.cfip.as_str());
    r.append(":");
    r.append(cfg.cfport.as_str());
    r.append("?security=tls&sni=");
    r.append(domain);
    r.append("&fp=firefox&type=ws&host=");
    r.append(domain);
    r.append("&path=%2Ftrojan-argo%3Fed%3D2560#");
    r.append(node);
    assert(r@ =~= trojan_link_spec(cfg@, domain@, node@));
    r
}

/// The subscription for `domain`, published as `node`, with the VMess share document given
/// in base64 as `vmess_base64`.
pub fn subscription_text(cfg: &Config, domain: &str, node: &str, vmess_base64: &str) -> (r:
    String)
    ensures
        r@ == subscription_spec(cfg@, domain@, node@, vmess_base64@),
{
    let vless = vless_link(cfg, domain, node);
    let trojan = trojan_link(cfg, domain, node);
    let mut r = String::new();
    r.append("\n");
    r.append(vless.as_str());
    r.append("\n\n");
    r.append("vmess://");
    r.append(vmess_base64);
    r.append("\n\n");
    r.append(trojan.as_str());
    r.append("\n");
    r
}

/// The VMess payload of the subscription: the share document written as JSON by
/// serde_json, in base64.
pub open spec fn vmess_payload_spec(c: ConfigView, domain: Seq<char>, node: Seq<char>) -> Seq<
    char,
> {
    base64_encoding(json_object_text_of(vmess_members_spec(c, domain, node)))
}

/// The subscription for the tunnel `domain`, its nodes named after the ISP `isp`. Where the
/// settings keep each link on a line of its own, its proxy links are exactly its VLESS,
/// VMess and Trojan links.
pub fn generate_links(cfg: &Config, domain: &str, isp: &str) -> (r: String)
    ensures
        r@ == subscription_spec(
            cfg@,
            domain@,
            node_name_spec(cfg.name@, isp@),
            vmess_payload_spec(cfg@, domain@, node_name_spec(cfg.name@, isp@)),
        ),
        single_line_settings(cfg@, domain@, node_name_spec(cfg.name@, isp@)) ==> proxy_link_lines(
            lines_of(r@),
        ) == seq![
            vless_link_spec(cfg@, domain@, node_name_spec(cfg.name@, isp@)),
            "vmess://"@ + vmess_payload_spec(cfg@, domain@, node_name_spec(cfg.name@, isp@)),
            trojan_link_spec(cfg@, domain@, node_name_spec(cfg.name@, isp@)),
        ],
{
    let node = node_name(cfg.name.as_str(), isp);
    let members = vmess_members(cfg, domain, node.as_str());
    let vmess_json = json_object_text(&members);
    let vmess_base64 = encode_base64(vmess_json.as_str());
    proof {
        let b = vmess_base64@;
        assert forall|i: int| 0 <= i < b.len() implies b[i] != '\n' by {
            assert(is_base64_char(b[i]));
        }
        if b.len() > 0 {
            assert(is_base64_char(b[b.len() - 1]));
        }
        if single_line_settings(cfg@, domain@, node@) {
            lemma_subscription_links(cfg@, domain@, node@, b);
        }
    }
    subscription_text(cfg, domain, node.as_str(), vmess_base64.as_str())
}

/// The proxy links found in a subscription file's content `file`: trimmed, decoded from
/// base64, read as UTF-8; nothing where it does not decode.
pub open spec fn nodes_in_file_spec(file: Seq<char>) -> Seq<Seq<char>> {
    match base64_decoding(trim_spec(file)) {
        Some(bytes) => decoded_nodes_spec(Some(bytes)),
        None => seq![],
    }
}

/// The proxy links in decoded subscription bytes; nothing where there are none or they are
/// not UTF-8.
pub open spec fn decoded_nodes_spec(decoded: Option<Seq<u8>>) -> Seq<Seq<char>> {
    match decoded {
        Some(bytes) => if vstd::utf8::valid_utf8(bytes) {
            proxy_link_lines(lines_of(vstd::utf8::decode_utf8(bytes)))
        } else {
            seq![]
        },
        None => seq![],
    }
}

/// The proxy links in decoded subscription bytes (see `decoded_nodes_spec`).
pub fn nodes_from_decoded(decoded: Option<Vec<u8>>) -> (r: Vec<String>)
    ensures
        r@.map_values(|s: String| s@) == decoded_nodes_spec(
            match decoded {
                Some(b) => Some(b@),
                None => None,
            },
        ),
{
    match decoded {
        None => Vec::new(),
        Some(bytes) => match utf8_to_string(bytes) {
            Some(text) => proxy_links(text.as_str()),
            None => {
                let r: Vec<String> = Vec::new();
                assert(r@.map_values(|s: String| s@) =~= Seq::<Seq<char>>::empty());
                r
            },
        },
    }
}

/// The proxy links held by a subscription file whose content is `file`: the nodes to delete
/// from the upload service at start.
pub fn nodes_to_delete(file: &str) -> (r: Vec<String>)
    ensures
        r@.map_values(|s: String| s@) == nodes_in_file_spec(file@),
{
    let trimmed = trim(file);
    let decoded = decode_base64(trimmed);
    let r = nodes_from_decoded(decoded);
    proof {
        if base64_decoding(trim_spec(file@)) is None {
            assert(r@.map_values(|s: String| s@) =~= Seq::<Seq<char>>::empty());
        }
    }
    r
}

/// The content of the subscription file: the subscription `sub` in base64, which decodes
/// back to the UTF-8 bytes of `sub`. Read back, it holds exactly the proxy links of `sub`.
pub fn encode_subscription(sub: &str) -> (r: String)
    requires
        vstd::utf8::encode_utf8(sub@).len() <= isize::MAX,
    ensures
        r@ == base64_encoding(sub@),
        base64_decoding(r@) == Some(vstd::utf8::encode_utf8(sub@)),
        nodes_in_file_spec(r@) == proxy_link_lines(lines_of(sub@)),
{
    let r = encode_base64(sub);
    proof {
        assert forall|i: int| 0 <= i < r@.len() implies !is_white_space(#[trigger] r@[i]) by {
            assert(is_base64_char(r@[i]));
        }
        lemma_trim_no_white_space(r@);
        vstd::utf8::encode_utf8_valid_utf8(sub@);
        vstd::utf8::encode_utf8_decode_utf8(sub@);
    }
    r
}

/// Settings, domain and node name that keep the VLESS and Trojan links on lines of their
/// own: none of them holds a line feed, and the node name does not end with a carriage
/// return (which reading the lines would drop).
pub open spec fn single_line_settings(c: ConfigView, domain: Seq<char>, node: Seq<char>) -> bool {
    &&& no_line_feed(c.uuid)
    &&& no_line_feed(c.cfip)
    &&& no_line_feed(c.cfport)
    &&& no_line_feed(domain)
    &&& no_line_feed(node)
    &&& (node.len() > 0 ==> node.last() != '\r')
}

/// Settings, domain, node name and VMess payload that keep each link of the subscription on
/// a line of its own (the payload, too, holds no line feed and does not end with a carriage
/// return).
pub open spec fn single_line_parts(
    c: ConfigView,
    domain: Seq<char>,
    node: Seq<char>,
    vmess_base64: Seq<char>,
) -> bool {
    &&& single_line_settings(c, domain, node)
    &&& no_line_feed(vmess_base64)
    &&& (vmess_base64.len() > 0 ==> vmess_base64.last() != '\r')
}

proof fn lemma_literal_pieces()
    ensures
        no_line_feed("vless://"@),
        no_line_feed("trojan://"@),
        no_line_feed("vmess://"@),
        no_line_feed("@"@),
        no_line_feed(":"@),
        no_line_feed("?encryption=none&security=tls&sni="@),
        no_line_feed("?security=tls&sni="@),
        no_line_feed("&fp=firefox&type=ws&host="@),
        no_line_feed("&path=%2Fvless-argo%3Fed%3D2560#"@),
        no_line_feed("&path=%2Ftrojan-argo%3Fed%3D2560#"@),
        "\n"@ =~= seq!['\n'],
        "\n\n"@ =~= seq!['\n', '\n'],
        "vless://"@.len() == 8,
        "vmess://"@.len() == 8,
        "trojan://"@.len() == 9,
        "hysteria2://"@.len() == 12,
        "tuic://"@.len() == 7,
        "#"@ == seq!['#'],
        "vmess://"@.last() == '/',
{
    reveal_strlit("vless://");
    reveal_strlit("trojan://");
    reveal_strlit("vmess://");
    reveal_strlit("hysteria2://");
    reveal_strlit("tuic://");
    reveal_strlit("@");
    reveal_strlit(":");
    reveal_strlit("?encryption=none&security=tls&sni=");
    reveal_strlit("?security=tls&sni=");
    reveal_strlit("&fp=firefox&type=ws&host=");
    reveal_strlit("&path=%2Fvless-argo%3Fed%3D2560#");
    reveal_strlit("&path=%2Ftrojan-argo%3Fed%3D2560#");
    reveal_strlit("\n");
    reveal_strlit("\n\n");
    reveal_strlit("#");
}

/// A link `lead + rest` whose text up to its node name is `head`: no line feed and, since
/// it ends with the node name (or `#`), no trailing carriage return either.
proof fn lemma_link_line(head: Seq<char>, node: Seq<char>)
    requires
        no_line_feed(head),
        no_line_feed(node),
        head.len() > 0,
        head.last() == '#',
        node.len() > 0 ==> node.last() != '\r',
    ensures
        no_line_feed(head + node),
        strip_cr(head + node) == head + node,
{
    lemma_no_line_feed_concat(head, node);
    if node.len() > 0 {
        assert((head + node).last() == node.last());
    } else {
        assert(head + node =~= head);
    }
}

proof fn lemma_vless_line(c: ConfigView, domain: Seq<char>, node: Seq<char>)
    requires
        no_line_feed(c.uuid),
        no_line_feed(c.cfip),
        no_line_feed(c.cfport),
        no_line_feed(domain),
        no_line_feed(node),
        node.len() > 0 ==> node.last() != '\r',
    ensures
        no_line_feed(vless_link_spec(c, domain, node)),
        strip_cr(vless_link_spec(c, domain, node)) == vless_link_spec(c, domain, node),
        occurs_at(vless_link_spec(c, domain, node), "vless://"@, 0),
{
    lemma_literal_pieces();
    let v1 = "vless://"@ + c.uuid + "@"@ + c.cfip + ":"@ + c.cfport;
    lemma_no_line_feed_concat("vless://"@, c.uuid);
    lemma_no_line_feed_concat("vless://"@ + c.uuid, "@"@);
    lemma_no_line_feed_concat("vless://"@ + c.uuid + "@"@, c.cfip);
    lemma_no_line_feed_concat("vless://"@ + c.uuid + "@"@ + c.cfip, ":"@);
    lemma_no_line_feed_concat("vless://"@ + c.uuid + "@"@ + c.cfip + ":"@, c.cfport);
    lemma_no_line_feed_concat(v1, "?encryption=none&security=tls&sni="@);
    lemma_no_line_feed_concat(v1 + "?encryption=none&security=tls&sni="@, domain);
    let v2 = v1 + "?encryption=none&security=tls&sni="@ + domain;
    lemma_no_line_feed_concat(v2, "&fp=firefox&type=ws&host="@);
    lemma_no_line_feed_concat(v2 + "&fp=firefox&type=ws&host="@, domain);
    let v3 = v2 + "&fp=firefox&type=ws&host="@ + domain;
    lemma_no_line_feed_concat(v3, "&path=%2Fvless-argo%3Fed%3D2560#"@);
    reveal_strlit("&path=%2Fvless-argo%3Fed%3D2560#");
    let head = v3 + "&path=%2Fvless-argo%3Fed%3D2560#"@;
    assert(head.last() == '#');
    lemma_link_line(head, node);
    assert(vless_link_spec(c, domain, node).subrange(0, 8) =~= "vless://"@);
}

proof fn lemma_trojan_line(c: ConfigView, domain: Seq<char>, node: Seq<char>)
    requires
        no_line_feed(c.uuid),
        no_line_feed(c.cfip),
        no_line_feed(c.cfport),
        no_line_feed(domain),
        no_line_feed(node),
        node.len() > 0 ==> node.last() != '\r',
    ensures
        no_line_feed(trojan_link_spec(c, domain, node)),
        strip_cr(trojan_link_spec(c, domain, node)) == trojan_link_spec(c, domain, node),
        occurs_at(trojan_link_spec(c, domain, node), "trojan://"@, 0),
{
    lemma_literal_pieces();
    let t1 = "trojan://"@ + c.uuid + "@"@ + c.cfip + ":"@ + c.cfport;
    lemma_no_line_feed_concat("trojan://"@, c.uuid);
    lemma_no_line_feed_concat("trojan://"@ + c.uuid, "@"@);
    lemma_no_line_feed_concat("trojan://"@ + c.uuid + "@"@, c.cfip);
    lemma_no_line_feed_concat("trojan://"@ + c.uuid + "@"@ + c.cfip, ":"@);
    lemma_no_line_feed_concat("trojan://"@ + c.uuid + "@"@ + c.cfip + ":"@, c.cfport);
    lemma_no_line_feed_concat(t1, "?security=tls&sni="@);
    lemma_no_line_feed_concat(t1 + "?security=tls&sni="@, domain);
    let t2 = t1 + "?security=tls&sni="@ + domain;
    lemma_no_line_feed_concat(t2, "&fp=firefox&type=ws&host="@);
    lemma_no_line_feed_concat(t2 + "&fp=firefox&type=ws&host="@, domain);
    let t3 = t2 + "&fp=firefox&type=ws&host="@ + domain;
    lemma_no_line_feed_concat(t3, "&path=%2Ftrojan-argo%3Fed%3D2560#"@);
    reveal_strlit("&path=%2Ftrojan-argo%3Fed%3D2560#");
    let head = t3 + "&path=%2Ftrojan-argo%3Fed%3D2560#"@;
    assert(head.last() == '#');
    lemma_link_line(head, node);
    assert(trojan_link_spec(c, domain, node).subrange(0, 9) =~= "trojan://"@);
}

proof fn lemma_vmess_line(vmess_base64: Seq<char>)
    requires
        no_line_feed(vmess_base64),
        vmess_base64.len() > 0 ==> vmess_base64.last() != '\r',
    ensures
        no_line_feed("vmess://"@ + vmess_base64),
        strip_cr("vmess://"@ + vmess_base64) == "vmess://"@ + vmess_base64,
        occurs_at("vmess://"@ + vmess_base64, "vmess://"@, 0),
{
    lemma_literal_pieces();
    let m = "vmess://"@ + vmess_base64;
    lemma_no_line_feed_concat("vmess://"@, vmess_base64);
    if vmess_base64.len() > 0 {
        assert(m.last() == vmess_base64.last());
    } else {
        assert(m =~= "vmess://"@);
    }
    assert(m.subrange(0, 8) =~= "vmess://"@);
}

/// The lines of a subscription: its three links, each after an empty line.
proof fn lemma_subscription_lines(
    c: ConfigView,
    domain: Seq<char>,
    node: Seq<char>,
    vmess_base64: Seq<char>,
)
    requires
        single_line_parts(c, domain, node, vmess_base64),
    ensures
        lines_of(subscription_spec(c, domain, node, vmess_base64)) == seq![
            Seq::<char>::empty(),
            vless_link_spec(c, domain, node),
            Seq::<char>::empty(),
            "vmess://"@ + vmess_base64,
            Seq::<char>::empty(),
            trojan_link_spec(c, domain, node),
        ],
{
    lemma_literal_pieces();
    lemma_vless_line(c, domain, node);
    lemma_trojan_line(c, domain, node);
    lemma_vmess_line(vmess_base64);
    let v = vless_link_spec(c, domain, node);
    let m = "vmess://"@ + vmess_base64;
    let t = trojan_link_spec(c, domain, node);
    let e = Seq::<char>::empty();
    assert(no_line_feed(e));
    assert(strip_cr(e) =~= e);
    let nl = seq!['\n'];
    let whole = subscription_spec(c, domain, node, vmess_base64);
    assert(whole =~= e + nl + (v + nl + (e + nl + (m + nl + (e + nl + (t + nl + e))))));
    lemma_lines_of_line_then_rest(t, e);
    lemma_lines_of_line_then_rest(e, t + nl + e);
    lemma_lines_of_line_then_rest(m, e + nl + (t + nl + e));
    lemma_lines_of_line_then_rest(e, m + nl + (e + nl + (t + nl + e)));
    lemma_lines_of_line_then_rest(v, e + nl + (m + nl + (e + nl + (t + nl + e))));
    lemma_lines_of_line_then_rest(e, v + nl + (e + nl + (m + nl + (e + nl + (t + nl + e)))));
    assert(lines_of(e) =~= Seq::<Seq<char>>::empty());
    assert(lines_of(whole) =~= seq![e, v, e, m, e, t]);
}

/// The proxy links of a subscription are exactly its VLESS, VMess and Trojan links, in that
/// order, whenever each of them stays on its own line (see `single_line_parts`): the nodes
/// that are uploaded and, through the subscription file, later deleted.
pub proof fn lemma_subscription_links(
    c: ConfigView,
    domain: Seq<char>,
    node: Seq<char>,
    vmess_base64: Seq<char>,
)
    requires
        single_line_parts(c, domain, node, vmess_base64),
    ensures
        proxy_link_lines(lines_of(subscription_spec(c, domain, node, vmess_base64))) == seq![
            vless_link_spec(c, domain, node),
            "vmess://"@ + vmess_base64,
            trojan_link_spec(c, domain, node),
        ],
{
    lemma_subscription_lines(c, domain, node, vmess_base64);
    let v = vless_link_spec(c, domain, node);
    let m = "vmess://"@ + vmess_base64;
    let t = trojan_link_spec(c, domain, node);
    let e = Seq::<char>::empty();
    assert(is_proxy_link_spec(v)) by {
        lemma_vless_line(c, domain, node);
    }
    assert(is_proxy_link_spec(m)) by {
        lemma_vmess_line(vmess_base64);
    }
    assert(is_proxy_link_spec(t)) by {
        lemma_trojan_line(c, domain, node);
    }
    assert(!is_proxy_link_spec(e)) by {
        lemma_literal_pieces();
    }
    let l0 = Seq::<Seq<char>>::empty();
    let l1 = l0.push(e);
    let l2 = l1.push(v);
    let l3 = l2.push(e);
    let l4 = l3.push(m);
    let l5 = l4.push(e);
    let l6 = l5.push(t);
    lemma_proxy_link_lines_push(l0, e);
    lemma_proxy_link_lines_push(l1, v);
    lemma_proxy_link_lines_push(l2, e);
    lemma_proxy_link_lines_push(l3, m);
    lemma_proxy_link_lines_push(l4, e);
    lemma_proxy_link_lines_push(l5, t);
    assert(l6 =~= seq![e, v, e, m, e, t]);
    assert(proxy_link_lines(l6) =~= seq![v, m, t]);
}

/// Appending a line to a list adds it to the list's proxy links exactly when it is one.
pub proof fn lemma_proxy_link_lines_push(lines: Seq<Seq<char>>, line: Seq<char>)
    ensures
        proxy_link_lines(lines.push(line)) == if is_proxy_link_spec(line) {
            proxy_link_lines(lines).push(line)
        } else {
            proxy_link_lines(lines)
        },
{
    assert(lines.push(line).drop_last() =~= lines);
}

} // verus!
