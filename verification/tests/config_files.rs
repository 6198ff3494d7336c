use argo_node::config::{get_env, Config};
use argo_node::files::{join_path, AppFiles};

fn env(pairs: &[(&str, &str)]) -> Vec<(String, String)> {
    pairs.iter().map(|(k, v)| (k.to_string(), v.to_string())).collect()
}

#[test]
fn config_defaults_without_environment() {
    let c = Config::from_env(&env(&[]));
    assert_eq!(c.upload_url, "");
    assert_eq!(c.project_url, "");
    assert!(!c.auto_access);
    assert_eq!(c.file_path, "./tmp");
    assert_eq!(c.sub_path, "sub");
    assert_eq!(c.port, "3000");
    assert_eq!(c.argo_port, "7860");
    assert_eq!(c.uuid, "e2cae6af-5cdd-fa48-4137-ad3e617fbab0");
    assert_eq!(c.cfip, "cdns.doon.eu.org");
    assert_eq!(c.cfport, "443");
    assert_eq!(c.name, "");
    assert_eq!(c.monitor_url, "");
}

#[test]
fn config_server_port_falls_back_to_port() {
    let c = Config::from_env(&env(&[("PORT", "8080")]));
    assert_eq!(c.port, "8080");
    let c = Config::from_env(&env(&[("PORT", "8080"), ("SERVER_PORT", "9090")]));
    assert_eq!(c.port, "9090");
}

#[test]
fn config_auto_access_only_for_true() {
    assert!(Config::from_env(&env(&[("AUTO_ACCESS", "true")])).auto_access);
    assert!(!Config::from_env(&env(&[("AUTO_ACCESS", "TRUE")])).auto_access);
    assert!(!Config::from_env(&env(&[("AUTO_ACCESS", "yes")])).auto_access);
}

#[test]
fn config_reads_every_variable() {
    let c = Config::from_env(&env(&[
        ("UPLOAD_URL", "https://up.example"),
        ("UUID", "u-1"),
        ("ARGO_DOMAIN", "tunnel.example"),
        ("ARGO_AUTH", "secret"),
        ("NEZHA_SERVER", "nz.example:443"),
        ("CFIP", "1.2.3.4"),
        ("NAME", "node"),
    ]));
    assert_eq!(c.upload_url, "https://up.example");
    assert_eq!(c.uuid, "u-1");
    assert_eq!(c.argo_domain, "tunnel.example");
    assert_eq!(c.argo_auth, "secret");
    assert_eq!(c.nezha_server, "nz.example:443");
    assert_eq!(c.cfip, "1.2.3.4");
    assert_eq!(c.name, "node");
}

#[test]
fn get_env_takes_first_match_or_default() {
    let e = env(&[("A", "1"), ("A", "2")]);
    assert_eq!(get_env(&e, "A", "x"), "1");
    assert_eq!(get_env(&e, "B", "x"), "x");
    assert_eq!(get_env(&e, "", "empty"), "empty");
}

#[test]
fn join_path_like_pathbuf() {
    assert_eq!(join_path("./tmp", "abc-npm"), "./tmp/abc-npm");
    assert_eq!(join_path("./tmp/", "abc-npm"), "./tmp/abc-npm");
    assert_eq!(join_path("", "abc-npm"), "abc-npm");
    assert_eq!(join_path("/data", "/etc/x"), "/etc/x");
    assert_eq!(join_path("/", "x"), "/x");
}

#[test]
fn app_files_paths() {
    let f = AppFiles::with_prefix("./tmp", "abcdef");
    assert_eq!(f.npm(), "./tmp/abcdef-npm");
    assert_eq!(f.web(), "./tmp/abcdef-web");
    assert_eq!(f.bot(), "./tmp/abcdef-bot");
    assert_eq!(f.php(), "./tmp/abcdef-php");
    assert_eq!(f.monitor(), "./tmp/cf-vps-monitor.sh");
    assert_eq!(f.sub(), "./tmp/abcdef-sub.txt");
    assert_eq!(f.list(), "./tmp/abcdef-list.txt");
    assert_eq!(f.boot_log(), "./tmp/abcdef-boot.log");
    assert_eq!(f.config(), "./tmp/abcdef-config.json");
    assert_eq!(f.nezha_config(), "./tmp/abcdef-config.yaml");
    assert_eq!(f.tunnel_json(), "./tmp/abcdef-tunnel.json");
    assert_eq!(f.tunnel_yml(), "./tmp/abcdef-tunnel.yml");
}

#[test]
fn app_files_all_temp_files_in_order() {
    let f = AppFiles::with_prefix("/w", "p");
    assert_eq!(
        f.all_temp_files(),
        vec![
            "/w/p-npm",
            "/w/p-web",
            "/w/p-bot",
            "/w/p-php",
            "/w/cf-vps-monitor.sh",
            "/w/p-sub.txt",
            "/w/p-list.txt",
            "/w/p-boot.log",
            "/w/p-config.json",
            "/w/p-config.yaml",
            "/w/p-tunnel.json",
            "/w/p-tunnel.yml",
        ]
    );
}

#[test]
fn app_files_new_uses_six_random_letters() {
    let f = AppFiles::new("base");
    let npm = f.npm();
    assert!(npm.starts_with("base/"));
    let prefix = &npm["base/".len()..npm.len() - "-npm".len()];
    assert_eq!(prefix.len(), 6);
    assert!(prefix.chars().all(|c| c.is_ascii_lowercase()));
    assert!(f.all_temp_files().iter().all(|p| p == &f.monitor() || p.contains(prefix)));
}
