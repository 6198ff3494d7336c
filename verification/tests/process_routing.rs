use argo_node::json::Json;
use argo_node::process::{ExitDecision, ProcessError, ProcessTable};
use argo_node::routing::{
    index_page_candidates, is_websocket_upgrade, local_address, parse_port, proxy_target_port, proxy_target_url,
    subscription_route,
};
use argo_node::status::{
    isp_cache_is_fresh, isp_from_primary, isp_from_secondary, isp_label, isp_step, level_for_lowercase,
    rust_log_value, stats_document, unknown_isp, IspAction, IspStage,
};

fn args(v: &[&str]) -> Vec<String> {
    v.iter().map(|s| s.to_string()).collect()
}

#[test]
fn register_refuses_duplicates() {
    let mut t = ProcessTable::new();
    assert_eq!(t.register("xray", "/bin/web".into(), args(&["-c", "c.json"]), false, 10), Ok(()));
    assert!(t.contains("xray"));
    assert_eq!(
        t.register("xray", "/bin/other".into(), vec![], true, 11),
        Err(ProcessError::AlreadyExists)
    );
    assert_eq!(t.get_processes(), vec![("xray".to_string(), 10, true, false)]);
}

#[test]
fn monitor_of_a_process_without_restart() {
    let mut t = ProcessTable::new();
    t.register("nezha", "/bin/php".into(), vec![], false, 7).unwrap();
    assert_eq!(t.take_child("nezha"), Some(7));
    assert_eq!(t.get_processes(), vec![("nezha".to_string(), 7, true, false)]);
    assert_eq!(t.take_child("nezha"), None);
    assert_eq!(t.get_processes(), vec![("nezha".to_string(), 7, true, false)]);
    assert_eq!(t.on_exit("nezha"), ExitDecision::Finished);
    assert!(!t.contains("nezha"));
    assert_eq!(t.on_exit("nezha"), ExitDecision::Gone);
}

#[test]
fn monitor_of_a_restarting_process() {
    let mut t = ProcessTable::new();
    t.register("cloudflared", "/bin/bot".into(), args(&["tunnel"]), true, 3).unwrap();
    assert_eq!(t.take_child("cloudflared"), Some(3));
    assert_eq!(t.on_exit("cloudflared"), ExitDecision::Restart);
    assert_eq!(t.get_processes(), vec![("cloudflared".to_string(), 0, false, true)]);
    assert_eq!(t.take_child("cloudflared"), None);
    assert_eq!(t.restart_command("cloudflared"), Some(("/bin/bot".to_string(), args(&["tunnel"]))));
    t.restarted("cloudflared", 4);
    assert_eq!(t.get_processes(), vec![("cloudflared".to_string(), 4, true, true)]);
    assert_eq!(t.restart_command("missing"), None);
    assert_eq!(t.take_child("cloudflared"), Some(4));
}

#[test]
fn stop_hands_back_a_waited_child() {
    let mut t = ProcessTable::new();
    t.register("xray", "/bin/web".into(), vec![], true, 12).unwrap();
    assert_eq!(t.take_child("xray"), Some(12));
    let stopped = t.stop("xray").unwrap();
    assert_eq!(stopped.child, Some(12));
    assert!(stopped.waited);
    assert!(!t.contains("xray"));
    assert_eq!(t.take_child("xray"), None);
    assert_eq!(t.get_processes(), vec![]);
}

#[test]
fn stop_removes_and_undoes_register() {
    let mut t = ProcessTable::new();
    t.register("a", "/a".into(), vec![], false, 1).unwrap();
    t.register("b", "/b".into(), vec![], true, 2).unwrap();
    assert_eq!(t.names(), args(&["a", "b"]));
    let stopped = t.stop("b").unwrap();
    assert_eq!(stopped.name, "b");
    assert_eq!(stopped.child, Some(2));
    assert!(!stopped.waited);
    assert_eq!(t.names(), args(&["a"]));
    assert!(t.stop("b").is_none());
    assert_eq!(t.len(), 1);
}

#[test]
fn routing_of_requests() {
    assert_eq!(proxy_target_port("/vless-argo", "3000"), "3001");
    assert_eq!(proxy_target_port("/vmess-argo?ed=2560", "3000"), "3001");
    assert_eq!(proxy_target_port("/trojan-argo/x", "3000"), "3001");
    assert_eq!(proxy_target_port("/vless", "3000"), "3001");
    assert_eq!(proxy_target_port("/vlessx", "3000"), "3000");
    assert_eq!(proxy_target_port("/", "3000"), "3000");
    assert_eq!(proxy_target_port("/sub", "8080"), "8080");
    assert_eq!(local_address("3001"), "localhost:3001");
    assert_eq!(proxy_target_url("3000", "/sub?x=1"), "http://localhost:3000/sub?x=1");
    assert_eq!(subscription_route("sub"), "/sub");
    assert_eq!(
        index_page_candidates("/"),
        Some(vec!["index.html".to_string(), "/app/index.html".to_string(), "./index.html".to_string()])
    );
    assert_eq!(index_page_candidates("/a.css"), None);
}

#[test]
fn websocket_upgrade_detection() {
    assert!(is_websocket_upgrade(Some(b"websocket")));
    assert!(is_websocket_upgrade(Some(b"WebSocket")));
    assert!(!is_websocket_upgrade(Some(b"h2c")));
    assert!(!is_websocket_upgrade(Some(b"websocket ")));
    assert!(!is_websocket_upgrade(Some(&[0x77, 0x65, 0x62, 0x73, 0x6f, 0x63, 0x6b, 0x65, 0xf4])));
    assert!(!is_websocket_upgrade(None));
}

#[test]
fn port_parsing_like_u16() {
    assert_eq!(parse_port("7860"), Some(7860));
    assert_eq!(parse_port("+80"), Some(80));
    assert_eq!(parse_port("00080"), Some(80));
    assert_eq!(parse_port("65535"), Some(65535));
    assert_eq!(parse_port("65536"), None);
    assert_eq!(parse_port("999999999999"), None);
    assert_eq!(parse_port(""), None);
    assert_eq!(parse_port("+"), None);
    assert_eq!(parse_port("-1"), None);
    assert_eq!(parse_port("12a"), None);
    for s in ["0", "1", "443", "8443", "65535", "+7", "070000", "abc"] {
        assert_eq!(parse_port(s), s.parse::<u16>().ok());
    }
}

#[test]
fn log_levels() {
    assert_eq!(level_for_lowercase("debug"), "debug");
    assert_eq!(level_for_lowercase("warning"), "warn");
    assert_eq!(level_for_lowercase("warn"), "warn");
    assert_eq!(level_for_lowercase("error"), "error");
    assert_eq!(level_for_lowercase("trace"), "info");
    assert_eq!(rust_log_value(true, Some("debug")), None);
    assert_eq!(rust_log_value(false, Some("DEBUG")), Some("debug"));
    assert_eq!(rust_log_value(false, Some("Warning")), Some("warn"));
    assert_eq!(rust_log_value(false, None), Some("info"));
}

#[test]
fn isp_lookup_replies() {
    assert!(isp_cache_is_fresh(3599));
    assert!(!isp_cache_is_fresh(3600));
    assert_eq!(
        isp_from_primary(r#"{"country_code":"US","org":"Example Net"}"#).as_deref(),
        Some("US_Example Net")
    );
    assert_eq!(isp_from_primary(r#"{"country_code":"US"}"#), None);
    assert_eq!(isp_from_primary("not json"), None);
    assert_eq!(
        isp_from_secondary(r#"{"status":"success","countryCode":"DE","org":"Org"}"#).as_deref(),
        Some("DE_Org")
    );
    assert_eq!(isp_from_secondary(r#"{"status":"fail","countryCode":"DE","org":"Org"}"#), None);
    assert_eq!(isp_label(Some(Some("A".into())), Some(None)), None);
    assert_eq!(unknown_isp(), "Unknown");
}

#[test]
fn stats_document_rows() {
    let doc = stats_document(&vec![("xray".to_string(), 12, true, false)], 5);
    match doc {
        Json::Object(m) => {
            assert_eq!(m.len(), 5);
            assert_eq!(m[0].0, "ws_connections");
            assert!(matches!(m[0].1, Json::Int(5)));
            match &m[4].1 {
                Json::Array(rows) => {
                    assert_eq!(rows.len(), 1);
                    match &rows[0] {
                        Json::Object(r) => {
                            assert_eq!(r[0].0, "name");
                            assert!(matches!(&r[0].1, Json::Str(s) if s == "xray"));
                            assert!(matches!(r[1].1, Json::Int(12)));
                            assert!(matches!(r[2].1, Json::Bool(true)));
                            assert!(matches!(r[3].1, Json::Bool(false)));
                        }
                        _ => panic!("row is not an object"),
                    }
                }
                _ => panic!("processes is not an array"),
            }
        }
        _ => panic!("not an object"),
    }
}

#[test]
fn isp_lookup_steps() {
    assert_eq!(isp_step(Some(10), IspStage::Start, None), IspAction::UseCached);
    assert_eq!(isp_step(Some(3600), IspStage::Start, None), IspAction::FetchPrimary);
    assert_eq!(isp_step(None, IspStage::Start, None), IspAction::FetchPrimary);
    let primary = r#"{"country_code":"DE","org":"Hetzner"}"#;
    assert_eq!(isp_step(None, IspStage::Primary, Some(primary)), IspAction::Store("DE_Hetzner".to_string()));
    assert_eq!(isp_step(None, IspStage::Primary, Some("{}")), IspAction::FetchSecondary);
    assert_eq!(isp_step(None, IspStage::Primary, None), IspAction::FetchSecondary);
    let secondary = r#"{"status":"success","countryCode":"US","org":"AS1"}"#;
    assert_eq!(isp_step(None, IspStage::Secondary, Some(secondary)), IspAction::Store("US_AS1".to_string()));
    let failed = r#"{"status":"fail","countryCode":"US","org":"AS1"}"#;
    assert_eq!(isp_step(None, IspStage::Secondary, Some(failed)), IspAction::GiveUp);
    assert_eq!(isp_step(None, IspStage::Secondary, None), IspAction::GiveUp);
}
