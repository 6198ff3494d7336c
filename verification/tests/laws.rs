use argo_node::config::Config;
use argo_node::files::AppFiles;
use argo_node::json::Json;
use argo_node::launch::{
    cloudflared_args, download_list, nezha_launch, upload_plan, xray_command, NezhaLaunch, UploadPlan,
};
use argo_node::process::ProcessTable;
use argo_node::routing::{proxy_target_port, subscription_route};
use argo_node::tunnel::{argo_setup, ArgoSetup};
use argo_node::xray::generate_inbounds;

fn config(pairs: &[(&str, &str)]) -> Config {
    Config::from_env(&pairs.iter().map(|(k, v)| (k.to_string(), v.to_string())).collect())
}

#[test]
fn stop_after_register_restores_table() {
    let mut t = ProcessTable::new();
    t.register("a", "/a".into(), vec![], false, 1).unwrap();
    let before = t.get_processes();
    t.register("b", "/b".into(), vec!["x".into()], true, 2).unwrap();
    let stopped = t.stop("b").unwrap();
    assert_eq!(stopped.bin_path, "/b");
    assert_eq!(stopped.args, vec!["x".to_string()]);
    assert!(stopped.restart);
    assert_eq!(t.get_processes(), before);
}

#[test]
fn waited_process_stays_running() {
    let mut t = ProcessTable::new();
    t.register("a", "/a".into(), vec![], false, 1).unwrap();
    let before = t.get_processes();
    t.register("nezha", "/bin/php".into(), vec![], true, 41).unwrap();
    assert_eq!(t.take_child("nezha"), Some(41));
    assert_eq!(
        t.get_processes(),
        vec![("a".to_string(), 1, true, false), ("nezha".to_string(), 41, true, true)]
    );
    let stopped = t.stop("nezha").unwrap();
    assert_eq!(stopped.child, Some(41));
    assert_eq!(t.get_processes(), before);
}

#[test]
fn fallback_paths_are_routed_to_the_entry() {
    let inbounds = generate_inbounds("u");
    let (entry_port, fallbacks) = match &inbounds[0] {
        Json::Object(m) => {
            let port = match &m[0].1 {
                Json::Int(p) => *p,
                _ => panic!("port"),
            };
            let settings = match &m[2].1 {
                Json::Object(s) => s,
                _ => panic!("settings"),
            };
            let fallbacks = match &settings[2].1 {
                Json::Array(f) => f.clone(),
                _ => panic!("fallbacks"),
            };
            (port, fallbacks)
        }
        _ => panic!("inbound"),
    };
    let mut routed = 0;
    for f in fallbacks {
        if let Json::Object(m) = f {
            if m[0].0 == "path" {
                if let Json::Str(p) = &m[0].1 {
                    assert_eq!(proxy_target_port(p, "3000"), entry_port.to_string());
                    assert_eq!(proxy_target_port(&format!("{}?ed=2560", p), "3000"), entry_port.to_string());
                    routed += 1;
                }
            }
        }
    }
    assert_eq!(routed, 3);
}

fn member<'a>(j: &'a Json, key: &str) -> Option<&'a Json> {
    match j {
        Json::Object(m) => m.iter().find(|(k, _)| k == key).map(|(_, v)| v),
        _ => None,
    }
}

#[test]
fn each_fallback_reaches_one_inbound() {
    let inbounds = generate_inbounds("u");
    let entry = &inbounds[0];
    let fallbacks = match member(member(entry, "settings").unwrap(), "fallbacks") {
        Some(Json::Array(f)) => f,
        _ => panic!("fallbacks"),
    };
    assert_eq!(fallbacks.len(), 4);
    for f in fallbacks.iter() {
        let dest = match member(f, "dest") {
            Some(Json::Int(d)) => *d,
            _ => panic!("dest"),
        };
        let with_port: Vec<&Json> =
            inbounds.iter().filter(|i| matches!(member(i, "port"), Some(Json::Int(p)) if *p == dest)).collect();
        assert_eq!(with_port.len(), 1);
        let ws = member(with_port[0], "streamSettings").and_then(|s| member(s, "wsSettings"));
        let ws_path = ws.and_then(|w| member(w, "path"));
        match member(f, "path") {
            Some(Json::Str(p)) => match ws_path {
                Some(Json::Str(q)) => assert_eq!(p, q),
                _ => panic!("ws path"),
            },
            _ => {
                assert_eq!(dest, 3002);
                assert!(ws.is_none());
                match member(member(with_port[0], "streamSettings").unwrap(), "network") {
                    Some(Json::Str(n)) => assert_eq!(n, "tcp"),
                    _ => panic!("network"),
                }
            }
        }
    }
}

#[test]
fn working_files_are_distinct_and_in_the_directory() {
    for dir in ["/tmp/w", "/tmp/w/", "."] {
        let files = AppFiles::with_prefix(dir, "qzkxab");
        let all = files.all_temp_files();
        assert_eq!(all.len(), 12);
        let distinct: std::collections::HashSet<&String> = all.iter().collect();
        assert_eq!(distinct.len(), 12);
        for p in &all {
            assert_eq!(std::path::Path::new(p).parent(), Some(std::path::Path::new(dir)));
        }
        for p in [files.npm(), files.web(), files.bot(), files.php(), files.monitor(), files.sub()] {
            assert!(all.contains(&p));
        }
        for p in [files.list(), files.boot_log(), files.config(), files.nezha_config()] {
            assert!(all.contains(&p));
        }
        assert!(all.contains(&files.tunnel_json()) && all.contains(&files.tunnel_yml()));
    }
}

#[test]
fn working_files_are_removed_at_exit() {
    let files = AppFiles::with_prefix("/w", "pq");
    let all = files.all_temp_files();
    let cfg = config(&[("NEZHA_SERVER", "n:443"), ("NEZHA_KEY", "k")]);
    for (_, dest, _) in download_list(&cfg, &files, "arm") {
        assert!(all.contains(&dest));
    }
    let (_, args) = xray_command(&files);
    assert!(all.contains(&args[1]));
    match nezha_launch(&cfg, &files) {
        NezhaLaunch::V1 { config_path, .. } => assert!(all.contains(&config_path)),
        _ => panic!("expected v1"),
    }
    assert!(all.contains(&files.boot_log()));
    assert!(all.contains(&files.sub()));
}

#[test]
fn tunnel_client_reads_the_written_configuration() {
    let files = AppFiles::with_prefix("/w", "pq");
    let cfg = config(&[
        ("ARGO_AUTH", r#"{"TunnelSecret":"s","TunnelID":"tid"}"#),
        ("ARGO_DOMAIN", "d.example"),
    ]);
    let args = cloudflared_args(&cfg, &files);
    match argo_setup(&cfg, &files) {
        ArgoSetup::TunnelFiles { json_path, yaml_path, yaml, .. } => {
            assert_eq!(args[6], "--config");
            assert_eq!(args[7], yaml_path);
            assert!(yaml.contains(&format!("credentials-file: {}\n", json_path)));
            assert!(yaml.starts_with("tunnel: tid\n"));
        }
        _ => panic!("expected tunnel files"),
    }
}

#[test]
fn registered_subscription_url_is_the_served_route() {
    let cfg = config(&[("UPLOAD_URL", "https://u"), ("PROJECT_URL", "https://app.example"), ("SUB_PATH", "feed")]);
    match upload_plan(&cfg) {
        UploadPlan::Subscription { sub_url, .. } => {
            assert_eq!(sub_url, format!("{}{}", cfg.project_url, subscription_route(&cfg.sub_path)));
        }
        _ => panic!("expected subscription"),
    }
}
