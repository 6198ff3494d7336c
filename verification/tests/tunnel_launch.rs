use argo_node::config::Config;
use argo_node::files::AppFiles;
use argo_node::launch::{
    cloudflared_args, delete_nodes_endpoint, download_list, is_tls_port, monitor_args,
    nezha_launch, server_port, tunnel_mode, upload_plan, visit_task, xray_command,
    NezhaLaunch, TunnelMode, UploadPlan,
};
use argo_node::tunnel::{
    argo_setup, argo_setup_from, domain_from_line, domain_from_log, fixed_domain, tunnel_domain, tunnel_yaml,
    ArgoSetup,
};

fn config(pairs: &[(&str, &str)]) -> Config {
    Config::from_env(&pairs.iter().map(|(k, v)| (k.to_string(), v.to_string())).collect())
}

fn files() -> AppFiles {
    AppFiles::with_prefix("/t", "ab")
}

#[test]
fn domain_from_cloudflared_line() {
    let line = "2024-01-01T00:00:00Z INF |  https://brave-cat-fox.trycloudflare.com                     |";
    assert_eq!(domain_from_line(line).as_deref(), Some("brave-cat-fox.trycloudflare.com"));
    assert_eq!(
        domain_from_line("x http://a.trycloudflare.com/// y").as_deref(),
        Some("a.trycloudflare.com")
    );
    assert_eq!(
        domain_from_line("see https://https://b.trycloudflare.com/").as_deref(),
        Some("b.trycloudflare.com")
    );
    assert_eq!(domain_from_line("no url trycloudflare.com"), None);
    assert_eq!(domain_from_line("https://example.com"), None);
}

#[test]
fn domain_from_log_takes_first_announcing_line() {
    let log = "start\nhttps://a.example.com\nINF trycloudflare.com without url\nINF https://c.trycloudflare.com ok\nINF https://d.trycloudflare.com\n";
    assert_eq!(domain_from_log(log).as_deref(), Some("c.trycloudflare.com"));
    assert_eq!(domain_from_log("nothing here"), None);
    assert_eq!(domain_from_log("INF https://e.trycloudflare.com\r\n").as_deref(), Some("e.trycloudflare.com"));
}

#[test]
fn domain_from_a_tunnel_client_log() {
    let log = "2024-05-01T10:00:00Z INF Requesting new quick Tunnel on trycloudflare.com...\n\
2024-05-01T10:00:01Z INF +--------------------------------------------------------------------------------------------+\n\
2024-05-01T10:00:01Z INF |  Your quick Tunnel has been created! Visit it at (it may take some time to be reachable):  |\n\
2024-05-01T10:00:01Z INF |  https://lonely-river-bound-gate.trycloudflare.com                                         |\n\
2024-05-01T10:00:01Z INF +--------------------------------------------------------------------------------------------+\n";
    assert_eq!(domain_from_log(log).as_deref(), Some("lonely-river-bound-gate.trycloudflare.com"));
    let quick = config(&[]);
    assert_eq!(tunnel_domain(&quick, Some(log)).as_deref(), Some("lonely-river-bound-gate.trycloudflare.com"));
}

#[test]
fn tunnel_domain_prefers_fixed_domain() {
    let fixed = config(&[("ARGO_AUTH", "tok"), ("ARGO_DOMAIN", "fixed.example")]);
    assert_eq!(tunnel_domain(&fixed, None).as_deref(), Some("fixed.example"));
    let quick = config(&[("ARGO_DOMAIN", "fixed.example")]);
    assert_eq!(tunnel_domain(&quick, None), None);
    assert_eq!(
        tunnel_domain(&quick, Some("https://q.trycloudflare.com")).as_deref(),
        Some("q.trycloudflare.com")
    );
}

#[test]
fn fixed_domain_needs_credentials_and_domain() {
    let fixed = config(&[("ARGO_AUTH", "tok"), ("ARGO_DOMAIN", "fixed.example")]);
    assert_eq!(fixed_domain(&fixed).as_deref(), Some("fixed.example"));
    assert_eq!(fixed_domain(&config(&[("ARGO_DOMAIN", "fixed.example")])), None);
    assert_eq!(fixed_domain(&config(&[("ARGO_AUTH", "tok")])), None);
}

#[test]
fn argo_setup_modes() {
    let f = files();
    assert!(matches!(argo_setup(&config(&[]), &f), ArgoSetup::QuickTunnel));
    let tok = config(&[("ARGO_AUTH", "eyJhIjoi"), ("ARGO_DOMAIN", "t.example")]);
    assert!(matches!(argo_setup(&tok, &f), ArgoSetup::TokenTunnel));
    let bad = config(&[("ARGO_AUTH", "TunnelSecret but not json"), ("ARGO_DOMAIN", "t.example")]);
    assert!(matches!(argo_setup(&bad, &f), ArgoSetup::InvalidTunnelConfig));
    let auth = r#"{"AccountTag":"a","TunnelSecret":"s","TunnelID":"id-123"}"#;
    let good = config(&[("ARGO_AUTH", auth), ("ARGO_DOMAIN", "t.example"), ("ARGO_PORT", "8001")]);
    match argo_setup(&good, &f) {
        ArgoSetup::TunnelFiles { json_path, json, yaml_path, yaml } => {
            assert_eq!(json_path, "/t/ab-tunnel.json");
            assert_eq!(json, auth);
            assert_eq!(yaml_path, "/t/ab-tunnel.yml");
            assert_eq!(yaml, tunnel_yaml("id-123", "/t/ab-tunnel.json", "t.example", "8001"));
        }
        _ => panic!("expected tunnel files"),
    }
    let no_id = config(&[("ARGO_AUTH", r#"{"TunnelSecret":"s"}"#), ("ARGO_DOMAIN", "t.example")]);
    match argo_setup(&no_id, &f) {
        ArgoSetup::TunnelFiles { yaml, .. } => assert!(yaml.starts_with("tunnel: \n")),
        _ => panic!("expected tunnel files"),
    }
    assert!(matches!(argo_setup_from(&good, &f, None), ArgoSetup::InvalidTunnelConfig));
}

#[test]
fn tunnel_yaml_text() {
    assert_eq!(
        tunnel_yaml("ID", "/c.json", "d.example", "7860"),
        "tunnel: ID\ncredentials-file: /c.json\nprotocol: http2\n\ningress:\n  - hostname: d.example\n    service: http://localhost:7860\n    originRequest:\n      noTLSVerify: true\n  - service: http_status:404\n"
    );
}

#[test]
fn downloads_by_architecture_and_agent() {
    let f = files();
    let d = download_list(&config(&[]), &f, "amd");
    assert_eq!(
        d,
        vec![
            ("web".to_string(), "/t/ab-web".to_string(), "https://amd64.ssss.nyc.mn/web".to_string()),
            ("bot".to_string(), "/t/ab-bot".to_string(), "https://amd64.ssss.nyc.mn/bot".to_string()),
        ]
    );
    let agent = config(&[("NEZHA_SERVER", "n.example"), ("NEZHA_KEY", "k"), ("NEZHA_PORT", "5555")]);
    let d = download_list(&agent, &f, "arm");
    assert_eq!(d.len(), 3);
    assert_eq!(d[2], ("agent".to_string(), "/t/ab-npm".to_string(), "https://arm64.ssss.nyc.mn/agent".to_string()));
    let v1 = config(&[("NEZHA_SERVER", "n.example:443"), ("NEZHA_KEY", "k")]);
    let d = download_list(&v1, &f, "amd");
    assert_eq!(d[2], ("v1".to_string(), "/t/ab-php".to_string(), "https://amd64.ssss.nyc.mn/v1".to_string()));
}

#[test]
fn monitoring_server_port() {
    assert_eq!(server_port("n.example:8443"), "8443");
    assert_eq!(server_port("n.example"), "443");
    assert_eq!(server_port("a:b:c"), "b");
    assert_eq!(server_port("n.example:"), "");
    assert!(is_tls_port("2053"));
    assert!(!is_tls_port("80"));
}

#[test]
fn nezha_launch_plans() {
    let f = files();
    assert!(matches!(nezha_launch(&config(&[("NEZHA_SERVER", "x")]), &f), NezhaLaunch::Skip));
    let v1 = config(&[("NEZHA_SERVER", "n.example:8443"), ("NEZHA_KEY", "key"), ("UUID", "u")]);
    match nezha_launch(&v1, &f) {
        NezhaLaunch::V1 { config_path, config_yaml, bin, args } => {
            assert_eq!(config_path, "/t/ab-config.yaml");
            assert_eq!(bin, "/t/ab-php");
            assert_eq!(args, vec!["-c", "/t/ab-config.yaml"]);
            assert!(config_yaml.starts_with("client_secret: key\ndebug: false\n"));
            assert!(config_yaml.contains("\nserver: n.example:8443\n"));
            assert!(config_yaml.contains("\ntls: true\n"));
            assert!(config_yaml.ends_with("\nuuid: u"));
        }
        _ => panic!("expected v1"),
    }
    let plain = config(&[("NEZHA_SERVER", "n.example:80"), ("NEZHA_KEY", "key")]);
    match nezha_launch(&plain, &f) {
        NezhaLaunch::V1 { config_yaml, .. } => assert!(config_yaml.contains("\ntls: false\n")),
        _ => panic!("expected v1"),
    }
    let agent = config(&[("NEZHA_SERVER", "n.example"), ("NEZHA_KEY", "key"), ("NEZHA_PORT", "443")]);
    match nezha_launch(&agent, &f) {
        NezhaLaunch::Agent { bin, args } => {
            assert_eq!(bin, "/t/ab-npm");
            assert_eq!(
                args,
                vec![
                    "-s", "n.example:443", "-p", "key", "--tls", "--disable-auto-update",
                    "--report-delay", "4", "--skip-conn", "--skip-procs"
                ]
            );
        }
        _ => panic!("expected agent"),
    }
    let agent = config(&[("NEZHA_SERVER", "n.example"), ("NEZHA_KEY", "key"), ("NEZHA_PORT", "5555")]);
    match nezha_launch(&agent, &f) {
        NezhaLaunch::Agent { args, .. } => assert!(!args.contains(&"--tls".to_string())),
        _ => panic!("expected agent"),
    }
}

#[test]
fn xray_command_uses_config() {
    let (bin, args) = xray_command(&files());
    assert_eq!(bin, "/t/ab-web");
    assert_eq!(args, vec!["-c", "/t/ab-config.json"]);
}

#[test]
fn cloudflared_modes() {
    let f = files();
    let quick = config(&[("ARGO_PORT", "7000")]);
    assert_eq!(tunnel_mode(&quick), TunnelMode::Quick);
    assert_eq!(
        cloudflared_args(&quick, &f),
        vec![
            "tunnel", "--edge-ip-version", "auto", "--no-autoupdate", "--protocol", "http2",
            "--logfile", "/t/ab-boot.log", "--loglevel", "info", "--url", "http://localhost:7000"
        ]
    );
    let token: String = "a".repeat(120);
    let tok = config(&[("ARGO_AUTH", &token), ("ARGO_DOMAIN", "d.example")]);
    assert_eq!(tunnel_mode(&tok), TunnelMode::Token);
    let args = cloudflared_args(&tok, &f);
    assert_eq!(&args[6..], &["run".to_string(), "--token".to_string(), token.clone()]);
    let long: String = "a".repeat(251);
    assert_eq!(tunnel_mode(&config(&[("ARGO_AUTH", &long), ("ARGO_DOMAIN", "d")])), TunnelMode::Quick);
    let secret = config(&[("ARGO_AUTH", "{\"TunnelSecret\":\"x\"}"), ("ARGO_DOMAIN", "d.example")]);
    assert_eq!(tunnel_mode(&secret), TunnelMode::ConfigFile);
    assert_eq!(&cloudflared_args(&secret, &f)[6..], &["--config", "/t/ab-tunnel.yml", "run"]);
}

#[test]
fn monitor_visit_and_upload_plans() {
    assert_eq!(monitor_args(&config(&[("MONITOR_KEY", "k"), ("MONITOR_SERVER", "s")])), None);
    assert_eq!(
        monitor_args(&config(&[("MONITOR_KEY", "k"), ("MONITOR_SERVER", "s"), ("MONITOR_URL", "u")])),
        Some(vec!["-i", "-k", "k", "-s", "s", "-u", "u"].into_iter().map(String::from).collect())
    );
    assert_eq!(visit_task(&config(&[("PROJECT_URL", "https://p")])), None);
    assert_eq!(
        visit_task(&config(&[("PROJECT_URL", "https://p"), ("AUTO_ACCESS", "true")])),
        Some(("https://oooo.serv00.net/add-url".to_string(), "https://p".to_string()))
    );
    assert!(matches!(upload_plan(&config(&[])), UploadPlan::Nothing));
    match upload_plan(&config(&[("UPLOAD_URL", "https://u"), ("PROJECT_URL", "https://p"), ("SUB_PATH", "s")])) {
        UploadPlan::Subscription { endpoint, sub_url } => {
            assert_eq!(endpoint, "https://u/api/add-subscriptions");
            assert_eq!(sub_url, "https://p/s");
        }
        _ => panic!("expected subscription"),
    }
    match upload_plan(&config(&[("UPLOAD_URL", "https://u")])) {
        UploadPlan::Nodes { endpoint } => assert_eq!(endpoint, "https://u/api/add-nodes"),
        _ => panic!("expected nodes"),
    }
    assert_eq!(delete_nodes_endpoint(&config(&[])), None);
    assert_eq!(
        delete_nodes_endpoint(&config(&[("UPLOAD_URL", "https://u")])).as_deref(),
        Some("https://u/api/delete-nodes")
    );
}
