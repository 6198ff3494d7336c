use argo_node::config::Config;
use argo_node::nodes::{get_architecture, is_proxy_link, proxy_links};
use argo_node::subscription::{
    encode_subscription, generate_links, node_name, nodes_from_decoded, nodes_to_delete,
    subscription_text,
};
use base64::Engine;

fn config() -> Config {
    Config::from_env(&vec![
        ("UUID".to_string(), "11111111-2222-3333-4444-555555555555".to_string()),
        ("CFIP".to_string(), "cf.example".to_string()),
        ("CFPORT".to_string(), "8443".to_string()),
        ("NAME".to_string(), "Node".to_string()),
    ])
}

#[test]
fn proxy_link_schemes() {
    assert!(is_proxy_link("vless://abc@host:443"));
    assert!(is_proxy_link("x vmess://abc"));
    assert!(is_proxy_link("trojan://p@h:1"));
    assert!(is_proxy_link("hysteria2://h"));
    assert!(is_proxy_link("tuic://h"));
    assert!(!is_proxy_link("ss://abc"));
    assert!(!is_proxy_link("vless:/broken"));
    assert!(!is_proxy_link(""));
}

#[test]
fn proxy_links_filters_lines() {
    let text = "header\r\nvless://a\r\n\nnot a link\ntrojan://b\r";
    assert_eq!(proxy_links(text), vec!["vless://a", "trojan://b\r"]);
    assert_eq!(proxy_links(""), Vec::<String>::new());
    assert_eq!(proxy_links("vmess://x\n"), vec!["vmess://x"]);
}

#[test]
fn architecture_family() {
    assert_eq!(get_architecture("aarch64"), "arm");
    assert_eq!(get_architecture("arm"), "arm");
    assert_eq!(get_architecture("x86_64"), "amd");
    assert_eq!(get_architecture("riscv64"), "amd");
}

#[test]
fn node_name_with_and_without_name() {
    assert_eq!(node_name("Node", "US_ISP"), "Node-US_ISP");
    assert_eq!(node_name("", "US_ISP"), "US_ISP");
}

#[test]
fn subscription_text_layout() {
    let c = config();
    let t = subscription_text(&c, "d.example", "N", "QUJD");
    assert_eq!(
        t,
        "\nvless://11111111-2222-3333-4444-555555555555@cf.example:8443?encryption=none&security=tls&sni=d.example&fp=firefox&type=ws&host=d.example&path=%2Fvless-argo%3Fed%3D2560#N\n\nvmess://QUJD\n\ntrojan://11111111-2222-3333-4444-555555555555@cf.example:8443?security=tls&sni=d.example&fp=firefox&type=ws&host=d.example&path=%2Ftrojan-argo%3Fed%3D2560#N\n"
    );
}

#[test]
fn generated_links_carry_the_vmess_document() {
    let c = config();
    let sub = generate_links(&c, "d.example", "US_ISP");
    let links = proxy_links(&sub);
    assert_eq!(links.len(), 3);
    assert!(links[0].starts_with("vless://"));
    assert!(links[0].ends_with("#Node-US_ISP"));
    assert!(links[2].starts_with("trojan://"));
    let payload = links[1].strip_prefix("vmess://").unwrap();
    let json = base64::engine::general_purpose::STANDARD.decode(payload).unwrap();
    let json = String::from_utf8(json).unwrap();
    assert_eq!(
        json,
        "{\"add\":\"cf.example\",\"aid\":\"0\",\"alpn\":\"\",\"fp\":\"firefox\",\"host\":\"d.example\",\"id\":\"11111111-2222-3333-4444-555555555555\",\"net\":\"ws\",\"path\":\"/vmess-argo?ed=2560\",\"port\":\"8443\",\"ps\":\"Node-US_ISP\",\"scy\":\"none\",\"sni\":\"d.example\",\"tls\":\"tls\",\"type\":\"none\",\"v\":\"2\"}"
    );
}

#[test]
fn subscription_file_is_base64() {
    assert_eq!(encode_subscription("hello"), "aGVsbG8=");
    assert_eq!(encode_subscription(""), "");
}

#[test]
fn subscription_file_decodes_to_the_subscription() {
    let sub = "vless://a@b:443?x=1#n\n\nvmess://eyJ2IjoiMiJ9\ntrojan://a@b:443#ü\n";
    let file = encode_subscription(sub);
    let bytes = base64::engine::general_purpose::STANDARD.decode(&file).unwrap();
    assert_eq!(bytes, sub.as_bytes().to_vec());
}

#[test]
fn subscription_file_round_trip_yields_links() {
    let c = config();
    let sub = generate_links(&c, "d.example", "ISP");
    let file = encode_subscription(&sub);
    assert_eq!(nodes_to_delete(&file), proxy_links(&sub));
    assert_eq!(nodes_to_delete(&format!("  {}\n", file)), proxy_links(&sub));
}

#[test]
fn nodes_to_delete_on_bad_files() {
    assert_eq!(nodes_to_delete("not base64 !!"), Vec::<String>::new());
    // valid base64 of invalid UTF-8
    assert_eq!(nodes_to_delete("/w=="), Vec::<String>::new());
    assert_eq!(nodes_from_decoded(None), Vec::<String>::new());
    assert_eq!(nodes_from_decoded(Some(b"tuic://x\nother".to_vec())), vec!["tuic://x"]);
}
