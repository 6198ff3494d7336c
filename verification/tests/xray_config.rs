use argo_node::json::Json;
use argo_node::xray::{generate_inbounds, generate_outbounds, xray_config};

fn member<'a>(j: &'a Json, key: &str) -> &'a Json {
    match j {
        Json::Object(m) => &m.iter().find(|(k, _)| k == key).expect("member").1,
        _ => panic!("not an object"),
    }
}

fn text(j: &Json) -> &str {
    match j {
        Json::Str(s) => s,
        _ => panic!("not a string"),
    }
}

fn num(j: &Json) -> i64 {
    match j {
        Json::Int(i) => *i,
        _ => panic!("not a number"),
    }
}

fn items(j: &Json) -> &Vec<Json> {
    match j {
        Json::Array(v) => v,
        _ => panic!("not an array"),
    }
}

#[test]
fn inbounds_ports_and_clients() {
    let inbounds = generate_inbounds("the-uuid");
    assert_eq!(inbounds.len(), 5);
    let ports: Vec<i64> = inbounds.iter().map(|i| num(member(i, "port"))).collect();
    assert_eq!(ports, vec![3001, 3002, 3003, 3004, 3005]);
    let protocols: Vec<&str> = inbounds.iter().map(|i| text(member(i, "protocol"))).collect();
    assert_eq!(protocols, vec!["vless", "vless", "vless", "vmess", "trojan"]);
    for (i, inbound) in inbounds.iter().enumerate() {
        let client = &items(member(member(inbound, "settings"), "clients"))[0];
        let key = if i == 4 { "password" } else { "id" };
        assert_eq!(text(member(client, key)), "the-uuid");
    }
    let fallbacks = items(member(member(&inbounds[0], "settings"), "fallbacks"));
    let dests: Vec<i64> = fallbacks.iter().map(|f| num(member(f, "dest"))).collect();
    assert_eq!(dests, vec![3002, 3003, 3004, 3005]);
    assert_eq!(text(member(&fallbacks[2], "path")), "/vmess-argo");
    let ws = member(member(&inbounds[4], "streamSettings"), "wsSettings");
    assert_eq!(text(member(ws, "path")), "/trojan-argo");
}

#[test]
fn outbounds_direct_and_block() {
    let out = generate_outbounds();
    assert_eq!(out.len(), 2);
    assert_eq!(text(member(&out[0], "tag")), "direct");
    assert_eq!(text(member(&out[1], "protocol")), "blackhole");
}

#[test]
fn whole_config_document() {
    let c = xray_config("u");
    assert_eq!(text(member(member(&c, "log"), "loglevel")), "none");
    let servers = items(member(member(&c, "dns"), "servers"));
    assert_eq!(servers.len(), 4);
    assert_eq!(text(&servers[0]), "https+local://8.8.8.8/dns-query");
    assert_eq!(items(member(&c, "inbounds")).len(), 5);
    assert_eq!(items(member(member(&c, "routing"), "rules")).len(), 0);
}
