use vstd::prelude::*;

use crate::json::{
    json_entries_view, json_seq_view, json_view, new_items, new_members, push_item, put,
    put_bool, put_int, put_str, str_array, Json, JsonSpec,
};

verus! {

/// A JSON string.
pub open spec fn js(s: Seq<char>) -> JsonSpec {
    JsonSpec::Str(s)
}

/// A JSON number.
pub open spec fn jn(i: int) -> JsonSpec {
    JsonSpec::Int(i)
}

/// A JSON object.
pub open spec fn jo(members: Seq<(Seq<char>, JsonSpec)>) -> JsonSpec {
    JsonSpec::Object(members)
}

/// A JSON array.
pub open spec fn ja(items: Seq<JsonSpec>) -> JsonSpec {
    JsonSpec::Array(items)
}

/// The members of the traffic sniffing block of the WebSocket inbounds.
pub open spec fn sniffing_members() -> Seq<(Seq<char>, JsonSpec)> {
    seq![
        ("enabled"@, JsonSpec::Bool(true)),
        ("destOverride"@, ja(seq![js("http"@), js("tls"@), js("quic"@)])),
        ("metadataOnly"@, JsonSpec::Bool(false)),
    ]
}

/// A fallback of the public entry: traffic for `path` (or for any path) goes to `dest`.
pub open spec fn fallback_spec(path: Option<Seq<char>>, dest: int) -> JsonSpec {
    match path {
        Some(p) => jo(seq![("path"@, js(p)), ("dest"@, jn(dest))]),
        None => jo(seq![("dest"@, jn(dest))]),
    }
}

/// The fallbacks of the public entry, one per inbound behind it.
pub open spec fn fallbacks_items() -> Seq<JsonSpec> {
    seq![
        fallback_spec(None, 3002),
        fallback_spec(Some("/vless-argo"@), 3003),
        fallback_spec(Some("/vmess-argo"@), 3004),
        fallback_spec(Some("/trojan-argo"@), 3005),
    ]
}

/// The settings of the public VLESS entry.
pub open spec fn entry_settings_members(uuid: Seq<char>) -> Seq<(Seq<char>, JsonSpec)> {
    seq![
        ("clients"@, ja(seq![jo(seq![("id"@, js(uuid)), ("flow"@, js("xtls-rprx-vision"@))])])),
        ("decryption"@, js("none"@)),
        ("fallbacks"@, ja(fallbacks_items())),
    ]
}

/// The public VLESS entry on port 3001.
pub open spec fn entry_inbound_members(uuid: Seq<char>) -> Seq<(Seq<char>, JsonSpec)> {
    seq![
        ("port"@, jn(3001)),
        ("protocol"@, js("vless"@)),
        ("settings"@, jo(entry_settings_members(uuid))),
        ("streamSettings"@, jo(seq![("network"@, js("tcp"@))])),
    ]
}

/// The local VLESS inbound over TCP on port 3002.
pub open spec fn tcp_inbound_members(uuid: Seq<char>) -> Seq<(Seq<char>, JsonSpec)> {
    seq![
        ("port"@, jn(3002)),
        ("listen"@, js("127.0.0.1"@)),
        ("protocol"@, js("vless"@)),
        (
            "settings"@,
            jo(
                seq![
                    ("clients"@, ja(seq![jo(seq![("id"@, js(uuid))])])),
                    ("decryption"@, js("none"@)),
                ],
            ),
        ),
        ("streamSettings"@, jo(seq![("network"@, js("tcp"@)), ("security"@, js("none"@))])),
    ]
}

/// The stream settings of a WebSocket inbound on `path`.
pub open spec fn ws_stream_members(path: Seq<char>, with_security: bool) -> Seq<(Seq<char>, JsonSpec)> {
    if with_security {
        seq![
            ("network"@, js("ws"@)),
            ("security"@, js("none"@)),
            ("wsSettings"@, jo(seq![("path"@, js(path))])),
        ]
    } else {
        seq![("network"@, js("ws"@)), ("wsSettings"@, jo(seq![("path"@, js(path))]))]
    }
}

/// The local VLESS inbound over WebSocket on port 3003.
pub open spec fn vless_ws_inbound_members(uuid: Seq<char>) -> Seq<(Seq<char>, JsonSpec)> {
    seq![
        ("port"@, jn(3003)),
        ("listen"@, js("127.0.0.1"@)),
        ("protocol"@, js("vless"@)),
        (
            "settings"@,
            jo(
                seq![
                    ("clients"@, ja(seq![jo(seq![("id"@, js(uuid)), ("level"@, jn(0))])])),
                    ("decryption"@, js("none"@)),
                ],
            ),
        ),
        ("streamSettings"@, jo(ws_stream_members("/vless-argo"@, true))),
        ("sniffing"@, jo(sniffing_members())),
    ]
}

/// The local VMess inbound over WebSocket on port 3004.
pub open spec fn vmess_ws_inbound_members(uuid: Seq<char>) -> Seq<(Seq<char>, JsonSpec)> {
    seq![
        ("port"@, jn(3004)),
        ("listen"@, js("127.0.0.1"@)),
        ("protocol"@, js("vmess"@)),
        (
            "settings"@,
            jo(seq![("clients"@, ja(seq![jo(seq![("id"@, js(uuid)), ("alterId"@, jn(0))])]))]),
        ),
        ("streamSettings"@, jo(ws_stream_members("/vmess-argo"@, false))),
        ("sniffing"@, jo(sniffing_members())),
    ]
}

/// The local Trojan inbound over WebSocket on port 3005.
pub open spec fn trojan_ws_inbound_members(uuid: Seq<char>) -> Seq<(Seq<char>, JsonSpec)> {
    seq![
        ("port"@, jn(3005)),
        ("listen"@, js("127.0.0.1"@)),
        ("protocol"@, js("trojan"@)),
        ("settings"@, jo(seq![("clients"@, ja(seq![jo(seq![("password"@, js(uuid))])]))])),
        ("streamSettings"@, jo(ws_stream_members("/trojan-argo"@, true))),
        ("sniffing"@, jo(sniffing_members())),
    ]
}

/// The five inbounds of the proxy core: the public VLESS entry on 3001, whose fallbacks lead
/// to the local VLESS (3002), VLESS-WS (3003), VMess-WS (3004) and Trojan-WS (3005) inbounds,
/// each client keyed by `uuid`.
pub open spec fn inbounds_spec(uuid: Seq<char>) -> Seq<JsonSpec> {
    seq![
        jo(entry_inbound_members(uuid)),
        jo(tcp_inbound_members(uuid)),
        jo(vless_ws_inbound_members(uuid)),
        jo(vmess_ws_inbound_members(uuid)),
        jo(trojan_ws_inbound_members(uuid)),
    ]
}

/// The two outbounds: direct (`freedom`) and blocking (`blackhole`).
pub open spec fn outbounds_spec() -> Seq<JsonSpec> {
    seq![
        jo(
            seq![
                ("protocol"@, js("freedom"@)),
                ("tag"@, js("direct"@)),
                ("settings"@, jo(seq![("domainStrategy"@, js("UseIP"@))])),
            ],
        ),
        jo(
            seq![
                ("protocol"@, js("blackhole"@)),
                ("tag"@, js("block"@)),
                ("settings"@, jo(seq![])),
            ],
        ),
    ]
}

/// The members of the whole proxy core configuration: logging off, DNS over HTTPS, the
/// inbounds and outbounds above and an empty routing table.
pub open spec fn xray_config_members(uuid: Seq<char>) -> Seq<(Seq<char>, JsonSpec)> {
    seq![
        (
            "log"@,
            jo(
                seq![
                    ("access"@, js("/dev/null"@)),
                    ("error"@, js("/dev/null"@)),
                    ("loglevel"@, js("none"@)),
                ],
            ),
        ),
        (
            "dns"@,
            jo(
                seq![
                    (
                        "servers"@,
                        ja(
                            seq![
                                js("https+local://8.8.8.8/dns-query"@),
                                js("https+local://1.1.1.1/dns-query"@),
                                js("8.8.8.8"@),
                                js("1.1.1.1"@),
                            ],
                        ),
                    ),
                    ("queryStrategy"@, js("UseIP"@)),
                    ("disableCache"@, JsonSpec::Bool(false)),
                ],
            ),
        ),
        ("inbounds"@, ja(inbounds_spec(uuid))),
        ("outbounds"@, ja(outbounds_spec())),
        ("routing"@, jo(seq![("domainStrategy"@, js("IPIfNonMatch"@)), ("rules"@, ja(seq![]))])),
    ]
}

/// The whole proxy core configuration.
pub open spec fn xray_config_spec(uuid: Seq<char>) -> JsonSpec {
    jo(xray_config_members(uuid))
}

fn object(members: Vec<(String, Json)>) -> (r: Json)
    ensures
        json_view(r) == JsonSpec::Object(json_entries_view(members@)),
{
    Json::Object(members)
}

fn array(items: Vec<Json>) -> (r: Json)
    ensures
        json_view(r) == JsonSpec::Array(json_seq_view(items@)),
{
    Json::Array(items)
}

fn single(member_key: &str, value: Json) -> (r: Json)
    ensures
        json_view(r) == jo(seq![(member_key@, json_view(value))]),
{
    let mut m = new_members();
    put(&mut m, member_key, value);
    object(m)
}

fn one_item(value: Json) -> (r: Json)
    ensures
        json_view(r) == ja(seq![json_view(value)]),
{
    let mut a = new_items();
    push_item(&mut a, value);
    array(a)
}

fn sniffing() -> (r: Json)
    ensures
        json_view(r) == jo(sniffing_members()),
{
    let mut m = new_members();
    put_bool(&mut m, "enabled", true);
    put(&mut m, "destOverride", str_array(&["http", "tls", "quic"]));
    put_bool(&mut m, "metadataOnly", false);
    proof {
        let a = seq!["http", "tls", "quic"];
        assert(a.map_values(|v: &str| JsonSpec::Str(v@)) =~= seq![js("http"@), js("tls"@), js("quic"@)]);
        assert(json_entries_view(m@) =~= sniffing_members());
    }
    object(m)
}

fn fallback(path: Option<&str>, dest: i64) -> (r: Json)
    ensures
        json_view(r) == fallback_spec(
            match path {
                Some(p) => Some(p@),
                None => None,
            },
            dest as int,
        ),
{
    let mut m = new_members();
    match path {
        Some(p) => {
            put_str(&mut m, "path", p);
            put_int(&mut m, "dest", dest);
            assert(json_entries_view(m@) =~= seq![("path"@, js(p@)), ("dest"@, jn(dest as int))]);
        },
        None => {
            put_int(&mut m, "dest", dest);
            assert(json_entries_view(m@) =~= seq![("dest"@, jn(dest as int))]);
        },
    }
    object(m)
}

fn ws_stream(path: &str, with_security: bool) -> (r: Json)
    ensures
        json_view(r) == jo(ws_stream_members(path@, with_security)),
{
    let mut m = new_members();
    put_str(&mut m, "network", "ws");
    if with_security {
        put_str(&mut m, "security", "none");
    }
    put(&mut m, "wsSettings", single("path", Json::Str(path.to_owned())));
    assert(json_entries_view(m@) =~= ws_stream_members(path@, with_security));
    object(m)
}

fn client(first_key: &str, uuid: &str, extra: Option<(&str, Json)>) -> (r: Json)
    ensures
        json_view(r) == match extra {
            Some((k, v)) => jo(seq![(first_key@, js(uuid@)), (k@, json_view(v))]),
            None => jo(seq![(first_key@, js(uuid@))]),
        },
{
    let mut m = new_members();
    put_str(&mut m, first_key, uuid);
    match extra {
        Some((k, v)) => {
            let ghost vv = json_view(v);
            put(&mut m, k, v);
            assert(json_entries_view(m@) =~= seq![(first_key@, js(uuid@)), (k@, vv)]);
        },
        None => {
            assert(json_entries_view(m@) =~= seq![(first_key@, js(uuid@))]);
        },
    }
    object(m)
}

fn entry_inbound(uuid: &str) -> (r: Json)
    ensures
        json_view(r) == jo(entry_inbound_members(uuid@)),
{
    let mut fallbacks = new_items();
    push_item(&mut fallbacks, fallback(None, 3002));
    push_item(&mut fallbacks, fallback(Some("/vless-argo"), 3003));
    push_item(&mut fallbacks, fallback(Some("/vmess-argo"), 3004));
    push_item(&mut fallbacks, fallback(Some("/trojan-argo"), 3005));
    assert(json_seq_view(fallbacks@) =~= fallbacks_items());
    let mut settings = new_members();
    put(
        &mut settings,
        "clients",
        one_item(client("id", uuid, Some(("flow", Json::Str("xtls-rprx-vision".to_owned()))))),
    );
    put_str(&mut settings, "decryption", "none");
    put(&mut settings, "fallbacks", array(fallbacks));
    assert(json_entries_view(settings@) =~= entry_settings_members(uuid@));
    let mut m = new_members();
    put_int(&mut m, "port", 3001);
    put_str(&mut m, "protocol", "vless");
    put(&mut m, "settings", object(settings));
    put(&mut m, "streamSettings", single("network", Json::Str("tcp".to_owned())));
    assert(json_entries_view(m@) =~= entry_inbound_members(uuid@));
    object(m)
}

fn tcp_inbound(uuid: &str) -> (r: Json)
    ensures
        json_view(r) == jo(tcp_inbound_members(uuid@)),
{
    let mut settings = new_members();
    put(&mut settings, "clients", one_item(client("id", uuid, None)));
    put_str(&mut settings, "decryption", "none");
    let ghost sv = json_entries_view(settings@);
    assert(sv =~= seq![
        ("clients"@, ja(seq![jo(seq![("id"@, js(uuid@))])])),
        ("decryption"@, js("none"@)),
    ]);
    let mut stream = new_members();
    put_str(&mut stream, "network", "tcp");
    put_str(&mut stream, "security", "none");
    assert(json_entries_view(stream@) =~= seq![("network"@, js("tcp"@)), ("security"@, js("none"@))]);
    let mut m = new_members();
    put_int(&mut m, "port", 3002);
    put_str(&mut m, "listen", "127.0.0.1");
    put_str(&mut m, "protocol", "vless");
    put(&mut m, "settings", object(settings));
    put(&mut m, "streamSettings", object(stream));
    assert(json_entries_view(m@) =~= tcp_inbound_members(uuid@));
    object(m)
}

fn vless_ws_inbound(uuid: &str) -> (r: Json)
    ensures
        json_view(r) == jo(vless_ws_inbound_members(uuid@)),
{
    let mut settings = new_members();
    put(&mut settings, "clients", one_item(client("id", uuid, Some(("level", Json::Int(0))))));
    put_str(&mut settings, "decryption", "none");
    assert(json_entries_view(settings@) =~= seq![
        ("clients"@, ja(seq![jo(seq![("id"@, js(uuid@)), ("level"@, jn(0))])])),
        ("decryption"@, js("none"@)),
    ]);
    let mut m = new_members();
    put_int(&mut m, "port", 3003);
    put_str(&mut m, "listen", "127.0.0.1");
    put_str(&mut m, "protocol", "vless");
    put(&mut m, "settings", object(settings));
    put(&mut m, "streamSettings", ws_stream("/vless-argo", true));
    put(&mut m, "sniffing", sniffing());
    assert(json_entries_view(m@) =~= vless_ws_inbound_members(uuid@));
    object(m)
}

fn vmess_ws_inbound(uuid: &str) -> (r: Json)
    ensures
        json_view(r) == jo(vmess_ws_inbound_members(uuid@)),
{
    let clients = one_item(client("id", uuid, Some(("alterId", Json::Int(0)))));
    let mut m = new_members();
    put_int(&mut m, "port", 3004);
    put_str(&mut m, "listen", "127.0.0.1");
    put_str(&mut m, "protocol", "vmess");
    put(&mut m, "settings", single("clients", clients));
    put(&mut m, "streamSettings", ws_stream("/vmess-argo", false));
    put(&mut m, "sniffing", sniffing());
    assert(json_entries_view(m@) =~= vmess_ws_inbound_members(uuid@));
    object(m)
}

fn trojan_ws_inbound(uuid: &str) -> (r: Json)
    ensures
        json_view(r) == jo(trojan_ws_inbound_members(uuid@)),
{
    let clients = one_item(client("password", uuid, None));
    let mut m = new_members();
    put_int(&mut m, "port", 3005);
    put_str(&mut m, "listen", "127.0.0.1");
    put_str(&mut m, "protocol", "trojan");
    put(&mut m, "settings", single("clients", clients));
    put(&mut m, "streamSettings", ws_stream("/trojan-argo", true));
    put(&mut m, "sniffing", sniffing());
    assert(json_entries_view(m@) =~= trojan_ws_inbound_members(uuid@));
    object(m)
}

/// The inbounds of the proxy core, each client keyed by `uuid`.
pub fn generate_inbounds(uuid: &str) -> (r: Vec<Json>)
    ensures
        json_seq_view(r@) == inbounds_spec(uuid@),
{
    let mut inbounds = new_items();
    push_item(&mut inbounds, entry_inbound(uuid));
    push_item(&mut inbounds, tcp_inbound(uuid));
    push_item(&mut inbounds, vless_ws_inbound(uuid));
    push_item(&mut inbounds, vmess_ws_inbound(uuid));
    push_item(&mut inbounds, trojan_ws_inbound(uuid));
    assert(json_seq_view(inbounds@) =~= inbounds_spec(uuid@));
    inbounds
}

/// The outbounds of the proxy core.
pub fn generate_outbounds() -> (r: Vec<Json>)
    ensures
        json_seq_view(r@) == outbounds_spec(),
{
    let mut direct = new_members();
    put_str(&mut direct, "protocol", "freedom");
    put_str(&mut direct, "tag", "direct");
    put(&mut direct, "settings", single("domainStrategy", Json::Str("UseIP".to_owned())));
    assert(json_entries_view(direct@) =~= seq![
        ("protocol"@, js("freedom"@)),
        ("tag"@, js("direct"@)),
        ("settings"@, jo(seq![("domainStrategy"@, js("UseIP"@))])),
    ]);
    let mut block = new_members();
    put_str(&mut block, "protocol", "blackhole");
    put_str(&mut block, "tag", "block");
    put(&mut block, "settings", object(new_members()));
    assert(json_entries_view(block@) =~= seq![
        ("protocol"@, js("blackhole"@)),
        ("tag"@, js("block"@)),
        ("settings"@, jo(seq![])),
    ]);
    let mut outbounds = new_items();
    push_item(&mut outbounds, object(direct));
    push_item(&mut outbounds, object(block));
    assert(json_seq_view(outbounds@) =~= outbounds_spec());
    outbounds
}

/// The configuration document of the proxy core, its clients keyed by `uuid`.
pub fn xray_config(uuid: &str) -> (r: Json)
    ensures
        json_view(r) == xray_config_spec(uuid@),
{
    let mut log = new_members();
    put_str(&mut log, "access", "/dev/null");
    put_str(&mut log, "error", "/dev/null");
    put_str(&mut log, "loglevel", "none");
    assert(json_entries_view(log@) =~= seq![
        ("access"@, js("/dev/null"@)),
        ("error"@, js("/dev/null"@)),
        ("loglevel"@, js("none"@)),
    ]);
    let servers = str_array(
        &[
            "https+local://8.8.8.8/dns-query",
            "https+local://1.1.1.1/dns-query",
            "8.8.8.8",
            "1.1.1.1",
        ],
    );
    proof {
        let a = seq![
            "https+local://8.8.8.8/dns-query",
            "https+local://1.1.1.1/dns-query",
            "8.8.8.8",
            "1.1.1.1",
        ];
        assert(a.map_values(|v: &str| JsonSpec::Str(v@)) =~= seq![
            js("https+local://8.8.8.8/dns-query"@),
            js("https+local://1.1.1.1/dns-query"@),
            js("8.8.8.8"@),
            js("1.1.1.1"@),
        ]);
    }
    let mut dns = new_members();
    put(&mut dns, "servers", servers);
    put_str(&mut dns, "queryStrategy", "UseIP");
    put_bool(&mut dns, "disableCache", false);
    let ghost dv = json_entries_view(dns@);
    assert(dv =~= seq![
        (
            "servers"@,
            ja(
                seq![
                    js("https+local://8.8.8.8/dns-query"@),
                    js("https+local://1.1.1.1/dns-query"@),
                    js("8.8.8.8"@),
                    js("1.1.1.1"@),
                ],
            ),
        ),
        ("queryStrategy"@, js("UseIP"@)),
        ("disableCache"@, JsonSpec::Bool(false)),
    ]);
    let mut routing = new_members();
    put_str(&mut routing, "domainStrategy", "IPIfNonMatch");
    put(&mut routing, "rules", array(new_items()));
    assert(json_entries_view(routing@) =~= seq![
        ("domainStrategy"@, js("IPIfNonMatch"@)),
        ("rules"@, ja(seq![])),
    ]);
    let mut config = new_members();
    put(&mut config, "log", object(log));
    put(&mut config, "dns", object(dns));
    put(&mut config, "inbounds", array(generate_inbounds(uuid)));
    put(&mut config, "outbounds", array(generate_outbounds()));
    put(&mut config, "routing", object(routing));
    assert(json_entries_view(config@) =~= xray_config_members(uuid@));
    object(config)
}

/// The value of the first member named `key` among `members`.
pub open spec fn lookup(members: Seq<(Seq<char>, JsonSpec)>, key: Seq<char>) -> Option<JsonSpec>
    decreases members.len(),
{
    if members.len() == 0 {
        None
    } else if members[0].0 == key {
        Some(members[0].1)
    } else {
        lookup(members.drop_first(), key)
    }
}

/// None of the first `i` members (of at most six) is named `key`.
pub open spec fn absent_before(members: Seq<(Seq<char>, JsonSpec)>, key: Seq<char>, i: int) -> bool {
    &&& i <= 6
    &&& (i > 0 ==> members[0].0 != key)
    &&& (i > 1 ==> members[1].0 != key)
    &&& (i > 2 ==> members[2].0 != key)
    &&& (i > 3 ==> members[3].0 != key)
    &&& (i > 4 ==> members[4].0 != key)
    &&& (i > 5 ==> members[5].0 != key)
}

proof fn lemma_lookup_after(members: Seq<(Seq<char>, JsonSpec)>, key: Seq<char>, i: int)
    requires
        0 <= i <= members.len(),
        absent_before(members, key, i),
    ensures
        lookup(members, key) == lookup(members.skip(i), key),
    decreases i,
{
    if i > 0 {
        let rest = members.drop_first();
        assert(absent_before(rest, key, i - 1)) by {
            assert forall|j: int| 0 <= j < i - 1 implies rest[j] == members[j + 1] by {}
        }
        lemma_lookup_after(rest, key, i - 1);
        assert(rest.skip(i - 1) =~= members.skip(i));
    } else {
        assert(members.skip(0) =~= members);
    }
}

/// The value of the member at `i` is what `lookup` finds, where no earlier member has its
/// name.
pub proof fn lemma_lookup_at(members: Seq<(Seq<char>, JsonSpec)>, key: Seq<char>, i: int)
    requires
        0 <= i < members.len(),
        members[i].0 == key,
        absent_before(members, key, i),
    ensures
        lookup(members, key) == Some(members[i].1),
{
    lemma_lookup_after(members, key, i);
    assert(members.skip(i)[0] == members[i]);
}

/// `lookup` finds nothing where no member has the name.
pub proof fn lemma_lookup_none(members: Seq<(Seq<char>, JsonSpec)>, key: Seq<char>)
    requires
        absent_before(members, key, members.len() as int),
    ensures
        lookup(members, key) is None,
{
    lemma_lookup_after(members, key, members.len() as int);
    assert(members.skip(members.len() as int).len() == 0);
}

/// The member `key` of `j`, where `j` is an object that has one.
pub open spec fn member(j: Option<JsonSpec>, key: Seq<char>) -> Option<JsonSpec> {
    match j {
        Some(JsonSpec::Object(members)) => lookup(members, key),
        _ => None,
    }
}

/// The number `j` holds, if it is one.
pub open spec fn int_value(j: Option<JsonSpec>) -> Option<int> {
    match j {
        Some(JsonSpec::Int(i)) => Some(i),
        _ => None,
    }
}

/// The string `j` holds, if it is one.
pub open spec fn str_value(j: Option<JsonSpec>) -> Option<Seq<char>> {
    match j {
        Some(JsonSpec::Str(s)) => Some(s),
        _ => None,
    }
}

/// The port an inbound listens on.
pub open spec fn inbound_port(inbound: JsonSpec) -> Option<int> {
    int_value(member(Some(inbound), "port"@))
}

/// The WebSocket path of an inbound, where it carries WebSocket settings.
pub open spec fn ws_path(inbound: JsonSpec) -> Option<Seq<char>> {
    str_value(member(member(member(Some(inbound), "streamSettings"@), "wsSettings"@), "path"@))
}

/// The fallbacks of an inbound, where its settings list them.
pub open spec fn fallbacks_of(inbound: JsonSpec) -> Option<Seq<JsonSpec>> {
    match member(member(Some(inbound), "settings"@), "fallbacks"@) {
        Some(JsonSpec::Array(items)) => Some(items),
        _ => None,
    }
}

/// Every fallback of the public entry leads to exactly one inbound: the one whose port is the
/// fallback's `dest`, which carries the WebSocket path the fallback names (and none where the
/// fallback names no path). The fallback that names no path leads to the local VLESS inbound
/// on 3002, which is plain TCP without WebSocket settings.
pub proof fn lemma_fallbacks_reach_one_inbound(uuid: Seq<char>)
    ensures
        fallbacks_of(inbounds_spec(uuid)[0]) == Some(fallbacks_items()),
        forall|k: int|
            #![trigger fallbacks_items()[k]]
            0 <= k < fallbacks_items().len() ==> {
                let f = fallbacks_items()[k];
                let ins = inbounds_spec(uuid);
                &&& int_value(member(Some(f), "dest"@)) is Some
                &&& inbound_port(ins[k + 1]) == int_value(member(Some(f), "dest"@))
                &&& ws_path(ins[k + 1]) == str_value(member(Some(f), "path"@))
                &&& forall|i: int|
                    0 <= i < ins.len() && inbound_port(#[trigger] ins[i]) == int_value(
                        member(Some(f), "dest"@),
                    ) ==> i == k + 1
            },
        str_value(member(Some(fallbacks_items()[0]), "path"@)) is None,
        str_value(member(member(Some(inbounds_spec(uuid)[1]), "streamSettings"@), "network"@))
            == Some("tcp"@),
        member(member(Some(inbounds_spec(uuid)[1]), "streamSettings"@), "wsSettings"@) is None,
{
    reveal_strlit("port");
    reveal_strlit("listen");
    reveal_strlit("protocol");
    reveal_strlit("settings");
    reveal_strlit("streamSettings");
    reveal_strlit("clients");
    reveal_strlit("decryption");
    reveal_strlit("fallbacks");
    reveal_strlit("network");
    reveal_strlit("security");
    reveal_strlit("wsSettings");
    reveal_strlit("path");
    reveal_strlit("dest");
    assert("port"@.len() == 4 && "listen"@.len() == 6 && "protocol"@.len() == 8);
    assert("settings"@.len() == 8 && "streamSettings"@.len() == 14 && "clients"@.len() == 7);
    assert("decryption"@.len() == 10 && "fallbacks"@.len() == 9 && "network"@.len() == 7);
    assert("security"@.len() == 8 && "wsSettings"@.len() == 10);
    assert("protocol"@[0] != "settings"@[0] && "path"@[0] != "dest"@[0]);
    let ins = inbounds_spec(uuid);
    let fb = fallbacks_items();
    let entry = entry_inbound_members(uuid);
    lemma_lookup_at(entry, "port"@, 0);
    lemma_lookup_at(entry, "settings"@, 2);
    let settings = entry_settings_members(uuid);
    lemma_lookup_at(settings, "fallbacks"@, 2);
    assert(fallbacks_of(ins[0]) == Some(fb));
    let tcp = tcp_inbound_members(uuid);
    let tcp_stream = seq![("network"@, js("tcp"@)), ("security"@, js("none"@))];
    lemma_lookup_at(tcp, "port"@, 0);
    lemma_lookup_at(tcp, "streamSettings"@, 4);
    assert(tcp[4].1 == jo(tcp_stream));
    lemma_lookup_at(tcp_stream, "network"@, 0);
    lemma_lookup_none(tcp_stream, "wsSettings"@);
    let wsv = ws_stream_members("/vless-argo"@, true);
    let wsm = ws_stream_members("/vmess-argo"@, false);
    let wst = ws_stream_members("/trojan-argo"@, true);
    lemma_lookup_at(vless_ws_inbound_members(uuid), "port"@, 0);
    lemma_lookup_at(vless_ws_inbound_members(uuid), "streamSettings"@, 4);
    lemma_lookup_at(wsv, "wsSettings"@, 2);
    lemma_lookup_at(seq![("path"@, js("/vless-argo"@))], "path"@, 0);
    lemma_lookup_at(vmess_ws_inbound_members(uuid), "port"@, 0);
    lemma_lookup_at(vmess_ws_inbound_members(uuid), "streamSettings"@, 4);
    lemma_lookup_at(wsm, "wsSettings"@, 1);
    lemma_lookup_at(seq![("path"@, js("/vmess-argo"@))], "path"@, 0);
    lemma_lookup_at(trojan_ws_inbound_members(uuid), "port"@, 0);
    lemma_lookup_at(trojan_ws_inbound_members(uuid), "streamSettings"@, 4);
    lemma_lookup_at(wst, "wsSettings"@, 2);
    lemma_lookup_at(seq![("path"@, js("/trojan-argo"@))], "path"@, 0);
    assert(inbound_port(ins[0]) == Some(3001int));
    assert(inbound_port(ins[1]) == Some(3002int));
    assert(inbound_port(ins[2]) == Some(3003int));
    assert(inbound_port(ins[3]) == Some(3004int));
    assert(inbound_port(ins[4]) == Some(3005int));
    assert(ws_path(ins[1]) is None);
    assert(ws_path(ins[2]) == Some("/vless-argo"@));
    assert(ws_path(ins[3]) == Some("/vmess-argo"@));
    assert(ws_path(ins[4]) == Some("/trojan-argo"@));
    let f0 = seq![("dest"@, jn(3002))];
    lemma_lookup_none(f0, "path"@);
    lemma_lookup_at(f0, "dest"@, 0);
    let f1 = seq![("path"@, js("/vless-argo"@)), ("dest"@, jn(3003))];
    let f2 = seq![("path"@, js("/vmess-argo"@)), ("dest"@, jn(3004))];
    let f3 = seq![("path"@, js("/trojan-argo"@)), ("dest"@, jn(3005))];
    lemma_lookup_at(f1, "path"@, 0);
    lemma_lookup_at(f1, "dest"@, 1);
    lemma_lookup_at(f2, "path"@, 0);
    lemma_lookup_at(f2, "dest"@, 1);
    lemma_lookup_at(f3, "path"@, 0);
    lemma_lookup_at(f3, "dest"@, 1);
    assert(int_value(member(Some(fb[0]), "dest"@)) == Some(3002int));
    assert(int_value(member(Some(fb[1]), "dest"@)) == Some(3003int));
    assert(int_value(member(Some(fb[2]), "dest"@)) == Some(3004int));
    assert(int_value(member(Some(fb[3]), "dest"@)) == Some(3005int));
}

/// The inbounds of the proxy core configuration are exactly these five documents: the public
/// VLESS entry on 3001 with its fallbacks, and the local VLESS-TCP (3002), VLESS-WS (3003),
/// VMess-WS (3004) and Trojan-WS (3005) inbounds listening on 127.0.0.1. Every VLESS inbound
/// declares `"decryption": "none"`, and every local inbound listens on 127.0.0.1.
pub proof fn lemma_inbound_documents(uuid: Seq<char>)
    ensures
        ({
            let sniff = jo(
                seq![
                    ("enabled"@, JsonSpec::Bool(true)),
                    ("destOverride"@, ja(seq![js("http"@), js("tls"@), js("quic"@)])),
                    ("metadataOnly"@, JsonSpec::Bool(false)),
                ],
            );
            member(Some(xray_config_spec(uuid)), "inbounds"@) == Some(ja(inbounds_spec(uuid)))
                && inbounds_spec(uuid) == seq![
                jo(
                    seq![
                        ("port"@, jn(3001)),
                        ("protocol"@, js("vless"@)),
                        (
                            "settings"@,
                            jo(
                                seq![
                                    (
                                        "clients"@,
                                        ja(
                                            seq![
                                                jo(
                                                    seq![
                                                        ("id"@, js(uuid)),
                                                        ("flow"@, js("xtls-rprx-vision"@)),
                                                    ],
                                                ),
                                            ],
                                        ),
                                    ),
                                    ("decryption"@, js("none"@)),
                                    (
                                        "fallbacks"@,
                                        ja(
                                            seq![
                                                jo(seq![("dest"@, jn(3002))]),
                                                jo(seq![("path"@, js("/vless-argo"@)), ("dest"@, jn(3003))]),
                                                jo(seq![("path"@, js("/vmess-argo"@)), ("dest"@, jn(3004))]),
                                                jo(seq![("path"@, js("/trojan-argo"@)), ("dest"@, jn(3005))]),
                                            ],
                                        ),
                                    ),
                                ],
                            ),
                        ),
                        ("streamSettings"@, jo(seq![("network"@, js("tcp"@))])),
                    ],
                ),
                jo(
                    seq![
                        ("port"@, jn(3002)),
                        ("listen"@, js("127.0.0.1"@)),
                        ("protocol"@, js("vless"@)),
                        (
                            "settings"@,
                            jo(
                                seq![
                                    ("clients"@, ja(seq![jo(seq![("id"@, js(uuid))])])),
                                    ("decryption"@, js("none"@)),
                                ],
                            ),
                        ),
                        ("streamSettings"@, jo(seq![("network"@, js("tcp"@)), ("security"@, js("none"@))])),
                    ],
                ),
                jo(
                    seq![
                        ("port"@, jn(3003)),
                        ("listen"@, js("127.0.0.1"@)),
                        ("protocol"@, js("vless"@)),
                        (
                            "settings"@,
                            jo(
                                seq![
                                    ("clients"@, ja(seq![jo(seq![("id"@, js(uuid)), ("level"@, jn(0))])])),
                                    ("decryption"@, js("none"@)),
                                ],
                            ),
                        ),
                        (
                            "streamSettings"@,
                            jo(
                                seq![
                                    ("network"@, js("ws"@)),
                                    ("security"@, js("none"@)),
                                    ("wsSettings"@, jo(seq![("path"@, js("/vless-argo"@))])),
                                ],
                            ),
                        ),
                        ("sniffing"@, sniff),
                    ],
                ),
                jo(
                    seq![
                        ("port"@, jn(3004)),
                        ("listen"@, js("127.0.0.1"@)),
                        ("protocol"@, js("vmess"@)),
                        (
                            "settings"@,
                            jo(seq![("clients"@, ja(seq![jo(seq![("id"@, js(uuid)), ("alterId"@, jn(0))])]))]),
                        ),
                        (
                            "streamSettings"@,
                            jo(
                                seq![
                                    ("network"@, js("ws"@)),
                                    ("wsSettings"@, jo(seq![("path"@, js("/vmess-argo"@))])),
                                ],
                            ),
                        ),
                        ("sniffing"@, sniff),
                    ],
                ),
                jo(
                    seq![
                        ("port"@, jn(3005)),
                        ("listen"@, js("127.0.0.1"@)),
                        ("protocol"@, js("trojan"@)),
                        ("settings"@, jo(seq![("clients"@, ja(seq![jo(seq![("password"@, js(uuid))])]))])),
                        (
                            "streamSettings"@,
                            jo(
                                seq![
                                    ("network"@, js("ws"@)),
                                    ("security"@, js("none"@)),
                                    ("wsSettings"@, jo(seq![("path"@, js("/trojan-argo"@))])),
                                ],
                            ),
                        ),
                        ("sniffing"@, sniff),
                    ],
                ),
            ]
        }),
        forall|k: int|
            0 <= k < inbounds_spec(uuid).len() && str_value(
                member(Some(#[trigger] inbounds_spec(uuid)[k]), "protocol"@),
            ) == Some("vless"@) ==> str_value(
                member(member(Some(inbounds_spec(uuid)[k]), "settings"@), "decryption"@),
            ) == Some("none"@),
        forall|k: int|
            1 <= k < inbounds_spec(uuid).len() ==> str_value(
                member(Some(#[trigger] inbounds_spec(uuid)[k]), "listen"@),
            ) == Some("127.0.0.1"@),
{
    reveal_strlit("log");
    reveal_strlit("dns");
    reveal_strlit("inbounds");
    reveal_strlit("port");
    reveal_strlit("listen");
    reveal_strlit("protocol");
    reveal_strlit("settings");
    reveal_strlit("clients");
    reveal_strlit("decryption");
    reveal_strlit("vless");
    reveal_strlit("vmess");
    reveal_strlit("trojan");
    assert("log"@.len() == 3 && "dns"@.len() == 3 && "inbounds"@.len() == 8);
    assert("port"@.len() == 4 && "listen"@.len() == 6 && "protocol"@.len() == 8);
    assert("settings"@.len() == 8 && "clients"@.len() == 7 && "decryption"@.len() == 10);
    assert("protocol"@[0] != "settings"@[0]);
    assert("vless"@[1] != "vmess"@[1] && "vless"@.len() != "trojan"@.len());
    lemma_lookup_at(xray_config_members(uuid), "inbounds"@, 2);
    let ins = inbounds_spec(uuid);
    let ms = seq![
        entry_inbound_members(uuid),
        tcp_inbound_members(uuid),
        vless_ws_inbound_members(uuid),
        vmess_ws_inbound_members(uuid),
        trojan_ws_inbound_members(uuid),
    ];
    assert forall|k: int| 0 <= k < 5 implies ins[k] == jo(#[trigger] ms[k]) by {}
    lemma_lookup_at(ms[0], "protocol"@, 1);
    lemma_lookup_at(ms[0], "settings"@, 2);
    lemma_lookup_at(entry_settings_members(uuid), "decryption"@, 1);
    lemma_lookup_at(ms[1], "listen"@, 1);
    lemma_lookup_at(ms[1], "protocol"@, 2);
    lemma_lookup_at(ms[1], "settings"@, 3);
    lemma_lookup_at(ms[1][3].1->Object_0, "decryption"@, 1);
    lemma_lookup_at(ms[2], "listen"@, 1);
    lemma_lookup_at(ms[2], "protocol"@, 2);
    lemma_lookup_at(ms[2], "settings"@, 3);
    lemma_lookup_at(ms[2][3].1->Object_0, "decryption"@, 1);
    lemma_lookup_at(ms[3], "listen"@, 1);
    lemma_lookup_at(ms[3], "protocol"@, 2);
    lemma_lookup_at(ms[4], "listen"@, 1);
    lemma_lookup_at(ms[4], "protocol"@, 2);
    assert forall|k: int|
        0 <= k < ins.len() && str_value(member(Some(#[trigger] ins[k]), "protocol"@)) == Some(
            "vless"@,
        ) implies str_value(member(member(Some(ins[k]), "settings"@), "decryption"@)) == Some(
        "none"@,
    ) by {
        if k == 3 {
            assert(str_value(member(Some(ins[k]), "protocol"@)) == Some("vmess"@));
        } else if k == 4 {
            assert(str_value(member(Some(ins[k]), "protocol"@)) == Some("trojan"@));
        }
    }
}

/// Besides the inbounds, the proxy core configuration holds: logging sent to `/dev/null` at
/// level `none`; DNS over HTTPS to 8.8.8.8 and 1.1.1.1 with both as plain fallbacks, IP
/// queries and the cache on; a direct (`freedom`, resolving with `UseIP`) and a blocking
/// (`blackhole`) outbound; and routing by `IPIfNonMatch` with no rules.
pub proof fn lemma_config_document(uuid: Seq<char>)
    ensures
        member(Some(xray_config_spec(uuid)), "log"@) == Some(
            jo(
                seq![
                    ("access"@, js("/dev/null"@)),
                    ("error"@, js("/dev/null"@)),
                    ("loglevel"@, js("none"@)),
                ],
            ),
        ),
        member(Some(xray_config_spec(uuid)), "dns"@) == Some(
            jo(
                seq![
                    (
                        "servers"@,
                        ja(
                            seq![
                                js("https+local://8.8.8.8/dns-query"@),
                                js("https+local://1.1.1.1/dns-query"@),
                                js("8.8.8.8"@),
                                js("1.1.1.1"@),
                            ],
                        ),
                    ),
                    ("queryStrategy"@, js("UseIP"@)),
                    ("disableCache"@, JsonSpec::Bool(false)),
                ],
            ),
        ),
        member(Some(xray_config_spec(uuid)), "outbounds"@) == Some(ja(outbounds_spec())),
        outbounds_spec() == seq![
            jo(
                seq![
                    ("protocol"@, js("freedom"@)),
                    ("tag"@, js("direct"@)),
                    ("settings"@, jo(seq![("domainStrategy"@, js("UseIP"@))])),
                ],
            ),
            jo(
                seq![
                    ("protocol"@, js("blackhole"@)),
                    ("tag"@, js("block"@)),
                    ("settings"@, jo(seq![])),
                ],
            ),
        ],
        member(Some(xray_config_spec(uuid)), "routing"@) == Some(
            jo(seq![("domainStrategy"@, js("IPIfNonMatch"@)), ("rules"@, ja(seq![]))]),
        ),
{
    reveal_strlit("log");
    reveal_strlit("dns");
    reveal_strlit("inbounds");
    reveal_strlit("outbounds");
    reveal_strlit("routing");
    assert("log"@.len() == 3 && "dns"@.len() == 3 && "inbounds"@.len() == 8);
    assert("outbounds"@.len() == 9 && "routing"@.len() == 7 && "log"@[0] != "dns"@[0]);
    let ms = xray_config_members(uuid);
    lemma_lookup_at(ms, "log"@, 0);
    lemma_lookup_at(ms, "dns"@, 1);
    lemma_lookup_at(ms, "outbounds"@, 3);
    lemma_lookup_at(ms, "routing"@, 4);
}

} // verus!
