use vstd::prelude::*;

use crate::config::{Config, ConfigView};
use crate::files::{all_temp_files_spec, prefixed_file, AppFiles, AppFilesView};
use crate::process::strings_view;
use crate::text::{
    chars_of, contains_seq, contains_str, find_char, find_in, lemma_find_seq_contains, occurs_at,
    str_eq,
};
use crate::tunnel::fixed_domain_spec;

verus! {

/// Appends `s` to a list of strings.
pub fn push_str(v: &mut Vec<String>, s: &str)
    ensures
        strings_view(final(v)@) == strings_view(old(v)@).push(s@),
{
    let ghost before = v@;
    v.push(s.to_owned());
    assert(strings_view(v@) =~= strings_view(before).push(s@));
}

/// `a` followed by `b`.
pub fn join2(a: &str, b: &str) -> (r: String)
    ensures
        r@ == a@ + b@,
{
    let mut r = a.to_owned();
    r.append(b);
    r
}

// ---------------------------------------------------------------------------
// Downloads
// ---------------------------------------------------------------------------

/// Where the binaries for the architecture family `arch` are downloaded from.
pub open spec fn base_url_spec(arch: Seq<char>) -> Seq<char> {
    if arch == "arm"@ {
        "https://arm64.ssss.nyc.mn/"@
    } else {
        "https://amd64.ssss.nyc.mn/"@
    }
}

/// The monitoring agent is configured: both its server and its key are set.
pub open spec fn nezha_enabled(c: ConfigView) -> bool {
    c.nezha_server.len() > 0 && c.nezha_key.len() > 0
}

/// The downloads to make, as (name, destination, URL): the proxy core and the tunnel client,
/// and the monitoring agent where one is configured (the agent where a port is set, the v1
/// client otherwise).
pub open spec fn download_list_spec(c: ConfigView, f: AppFilesView, arch: Seq<char>) -> Seq<
    (Seq<char>, Seq<char>, Seq<char>),
> {
    let base = base_url_spec(arch);
    let core = seq![
        ("web"@, prefixed_file(f, "web"@), base + "web"@),
        ("bot"@, prefixed_file(f, "bot"@), base + "bot"@),
    ];
    if nezha_enabled(c) {
        if c.nezha_port.len() > 0 {
            core.push(("agent"@, prefixed_file(f, "npm"@), base + "agent"@))
        } else {
            core.push(("v1"@, prefixed_file(f, "php"@), base + "v1"@))
        }
    } else {
        core
    }
}

/// The view of a download list.
pub open spec fn downloads_view(v: Seq<(String, String, String)>) -> Seq<
    (Seq<char>, Seq<char>, Seq<char>),
> {
    v.map_values(|d: (String, String, String)| (d.0@, d.1@, d.2@))
}

fn push_download(v: &mut Vec<(String, String, String)>, name: &str, dest: String, url: String)
    ensures
        downloads_view(final(v)@) == downloads_view(old(v)@).push((name@, dest@, url@)),
{
    let ghost before = v@;
    v.push((name.to_owned(), dest, url));
    assert(downloads_view(v@) =~= downloads_view(before).push((name@, dest@, url@)));
}

/// The downloads to make for the architecture family `arch` (see `download_list_spec`).
pub fn download_list(cfg: &Config, files: &AppFiles, arch: &str) -> (r: Vec<
    (String, String, String),
>)
    ensures
        downloads_view(r@) == download_list_spec(cfg@, files@, arch@),
{
    let base: &str = if str_eq(arch, "arm") {
        "https://arm64.ssss.nyc.mn/"
    } else {
        "https://amd64.ssss.nyc.mn/"
    };
    let mut r: Vec<(String, String, String)> = Vec::new();
    push_download(&mut r, "web", files.web(), join2(base, "web"));
    push_download(&mut r, "bot", files.bot(), join2(base, "bot"));
    if !cfg.nezha_server.as_str().is_empty() && !cfg.nezha_key.as_str().is_empty() {
        if !cfg.nezha_port.as_str().is_empty() {
            push_download(&mut r, "agent", files.npm(), join2(base, "agent"));
        } else {
            push_download(&mut r, "v1", files.php(), join2(base, "v1"));
        }
    }
    assert(downloads_view(r@) =~= download_list_spec(cfg@, files@, arch@));
    r
}

// ---------------------------------------------------------------------------
// Monitoring agent
// ---------------------------------------------------------------------------

/// The ports on which the monitoring server speaks TLS.
pub open spec fn is_tls_port_spec(port: Seq<char>) -> bool {
    ||| port == "443"@
    ||| port == "8443"@
    ||| port == "2096"@
    ||| port == "2087"@
    ||| port == "2083"@
    ||| port == "2053"@
}

/// TLS is chosen for exactly the ports 443, 8443, 2096, 2087, 2083 and 2053.
pub proof fn lemma_tls_ports(port: Seq<char>)
    ensures
        is_tls_port_spec(port) <==> set!["443"@, "8443"@, "2096"@, "2087"@, "2083"@, "2053"@].contains(
            port,
        ),
{
}

/// Whether the monitoring server speaks TLS on `port`.
pub fn is_tls_port(port: &str) -> (r: bool)
    ensures
        r == is_tls_port_spec(port@),
{
    str_eq(port, "443") || str_eq(port, "8443") || str_eq(port, "2096") || str_eq(port, "2087")
        || str_eq(port, "2083") || str_eq(port, "2053")
}

/// The port of a `host:port` server address: the text after the first `:` up to the next
/// one; `443` where there is no `:`.
pub open spec fn server_port_spec(server: Seq<char>) -> Seq<char> {
    match find_char(server, ':') {
        Some(i) => {
            let rest = server.skip(i + 1);
            match find_char(rest, ':') {
                Some(j) => rest.take(j),
                None => rest,
            }
        },
        None => "443"@,
    }
}

/// The port of a `host:port` server address (see `server_port_spec`).
pub fn server_port(server: &str) -> (r: String)
    ensures
        r@ == server_port_spec(server@),
{
    let t = chars_of(server);
    let n = t.len();
    let colon = vec![':'];
    assert(colon@ =~= seq![':']);
    assert(t@.subrange(0, n as int) =~= server@);
    let first = find_in(&t, 0, n, &colon);
    proof {
        lemma_find_seq_contains(server@, seq![':']);
    }
    match first {
        None => "443".to_owned(),
        Some(i) => {
            let ghost rest = server@.skip(i + 1);
            assert(t@.subrange(i + 1, n as int) =~= rest);
            let second = find_in(&t, i + 1, n, &colon);
            proof {
                lemma_find_seq_contains(rest, seq![':']);
            }
            let end = match second {
                Some(j) => i + 1 + j,
                None => n,
            };
            proof {
                match second {
                    Some(j) => {
                        assert(rest.take(j as int) =~= server@.subrange(i + 1, end as int));
                    },
                    None => {
                        assert(rest =~= server@.subrange(i + 1, end as int));
                    },
                }
            }
            server.substring_char(i + 1, end).to_owned()
        },
    }
}

/// The configuration file of the v1 monitoring client.
pub open spec fn nezha_v1_yaml_spec(c: ConfigView) -> Seq<char> {
    "client_secret: "@ + c.nezha_key
        + "\ndebug: false\ndisable_auto_update: true\ndisable_command_execute: false\ndisable_force_update: true\ndisable_nat: false\ndisable_send_query: false\ngpu: false\ninsecure_tls: true\nip_report_period: 1800\nreport_delay: 4\nserver: "@
        + c.nezha_server
        + "\nskip_connection_count: true\nskip_procs_count: true\ntemperature: false\ntls: "@
        + (if is_tls_port_spec(server_port_spec(c.nezha_server)) {
        "true"@
    } else {
        "false"@
    }) + "\nuse_gitee_to_upgrade: false\nuse_ipv6_country_code: false\nuuid: "@ + c.uuid
}

/// How the monitoring agent is run.
pub enum NezhaLaunch {
    /// Not configured: nothing runs.
    Skip,
    /// The v1 client, reading the configuration `config_yaml` written to `config_path`.
    V1 { config_path: String, config_yaml: String, bin: String, args: Vec<String> },
    /// The agent, configured by its arguments.
    Agent { bin: String, args: Vec<String> },
}

/// The arguments of the agent.
pub open spec fn nezha_agent_args_spec(c: ConfigView) -> Seq<Seq<char>> {
    let head = seq!["-s"@, c.nezha_server + ":"@ + c.nezha_port, "-p"@, c.nezha_key];
    let tls = if is_tls_port_spec(c.nezha_port) {
        head.push("--tls"@)
    } else {
        head
    };
    tls + seq![
        "--disable-auto-update"@,
        "--report-delay"@,
        "4"@,
        "--skip-conn"@,
        "--skip-procs"@,
    ]
}

/// How the monitoring agent is run: skipped unless server and key are set; the v1 client
/// (`php`, with a generated configuration) where no port is set; the agent (`npm`) otherwise.
pub open spec fn nezha_launch_spec(l: NezhaLaunch, c: ConfigView, f: AppFilesView) -> bool {
    if !nezha_enabled(c) {
        l is Skip
    } else if c.nezha_port.len() == 0 {
        match l {
            NezhaLaunch::V1 { config_path, config_yaml, bin, args } => {
                &&& config_path@ == prefixed_file(f, "config.yaml"@)
                &&& config_yaml@ == nezha_v1_yaml_spec(c)
                &&& bin@ == prefixed_file(f, "php"@)
                &&& strings_view(args@) == seq!["-c"@, prefixed_file(f, "config.yaml"@)]
            },
            _ => false,
        }
    } else {
        match l {
            NezhaLaunch::Agent { bin, args } => {
                &&& bin@ == prefixed_file(f, "npm"@)
                &&& strings_view(args@) == nezha_agent_args_spec(c)
            },
            _ => false,
        }
    }
}

/// The monitoring agent speaks TLS exactly on the ports 443, 8443, 2096, 2087, 2083 and
/// 2053: the v1 client's configuration has the line `tls: true` where the server address
/// names one of them and `tls: false` otherwise; the agent gets `--tls` right after its key
/// where its port is one of them, and not otherwise.
pub proof fn lemma_tls_follows_port(l: NezhaLaunch, c: ConfigView, f: AppFilesView)
    requires
        nezha_launch_spec(l, c, f),
    ensures
        nezha_enabled(c) && c.nezha_port.len() == 0 ==> match l {
            NezhaLaunch::V1 { config_yaml, .. } => {
                &&& set!["443"@, "8443"@, "2096"@, "2087"@, "2083"@, "2053"@].contains(
                    server_port_spec(c.nezha_server),
                ) ==> contains_seq(config_yaml@, "\ntls: true\n"@)
                &&& !set!["443"@, "8443"@, "2096"@, "2087"@, "2083"@, "2053"@].contains(
                    server_port_spec(c.nezha_server),
                ) ==> contains_seq(config_yaml@, "\ntls: false\n"@)
            },
            _ => false,
        },
        nezha_enabled(c) && c.nezha_port.len() > 0 ==> match l {
            NezhaLaunch::Agent { args, .. } => strings_view(args@).len() > 4 && (strings_view(
                args@,
            )[4] == "--tls"@ <==> set!["443"@, "8443"@, "2096"@, "2087"@, "2083"@, "2053"@].contains(
                c.nezha_port,
            )),
            _ => false,
        },
{
    let ports = set!["443"@, "8443"@, "2096"@, "2087"@, "2083"@, "2053"@];
    if nezha_enabled(c) && c.nezha_port.len() == 0 {
        let port = server_port_spec(c.nezha_server);
        lemma_tls_ports(port);
        let head = "client_secret: "@ + c.nezha_key
            + "\ndebug: false\ndisable_auto_update: true\ndisable_command_execute: false\ndisable_force_update: true\ndisable_nat: false\ndisable_send_query: false\ngpu: false\ninsecure_tls: true\nip_report_period: 1800\nreport_delay: 4\nserver: "@
            + c.nezha_server;
        let pre = "\nskip_connection_count: true\nskip_procs_count: true\ntemperature: false\ntls: "@;
        let post = "\nuse_gitee_to_upgrade: false\nuse_ipv6_country_code: false\nuuid: "@;
        reveal_strlit("\nskip_connection_count: true\nskip_procs_count: true\ntemperature: false\ntls: ");
        reveal_strlit("\nuse_gitee_to_upgrade: false\nuse_ipv6_country_code: false\nuuid: ");
        reveal_strlit("true");
        reveal_strlit("false");
        reveal_strlit("\ntls: true\n");
        reveal_strlit("\ntls: false\n");
        let v = if ports.contains(port) { "true"@ } else { "false"@ };
        let yaml = head + pre + v + post + c.uuid;
        assert(yaml == nezha_v1_yaml_spec(c));
        let i = head.len() + pre.len() - 6;
        if ports.contains(port) {
            assert(yaml.subrange(i, i + 11) =~= "\ntls: true\n"@);
            assert(occurs_at(yaml, "\ntls: true\n"@, i));
        } else {
            assert(yaml.subrange(i, i + 12) =~= "\ntls: false\n"@);
            assert(occurs_at(yaml, "\ntls: false\n"@, i));
        }
    }
    if nezha_enabled(c) && c.nezha_port.len() > 0 {
        lemma_tls_ports(c.nezha_port);
        reveal_strlit("--tls");
        reveal_strlit("--disable-auto-update");
        assert("--tls"@.len() != "--disable-auto-update"@.len());
    }
}

/// How the monitoring agent is run (see `nezha_launch_spec`).
pub fn nezha_launch(cfg: &Config, files: &AppFiles) -> (r: NezhaLaunch)
    ensures
        nezha_launch_spec(r, cfg@, files@),
{
    if cfg.nezha_server.as_str().is_empty() || cfg.nezha_key.as_str().is_empty() {
        return NezhaLaunch::Skip;
    }
    if cfg.nezha_port.as_str().is_empty() {
        let port = server_port(cfg.nezha_server.as_str());
        let tls: &str = if is_tls_port(port.as_str()) {
            "true"
        } else {
            "false"
        };
        let mut yaml = String::new();
        yaml.append("client_secret: ");
        yaml.append(cfg.nezha_key.as_str());
        yaml.append(
            "\ndebug: false\ndisable_auto_update: true\ndisable_command_execute: false\ndisable_force_update: true\ndisable_nat: false\ndisable_send_query: false\ngpu: false\ninsecure_tls: true\nip_report_period: 1800\nreport_delay: 4\nserver: ",
        );
        yaml.append(cfg.nezha_server.as_str());
        yaml.append(
            "\nskip_connection_count: true\nskip_procs_count: true\ntemperature: false\ntls: ",
        );
        yaml.append(tls);
        yaml.append("\nuse_gitee_to_upgrade: false\nuse_ipv6_country_code: false\nuuid: ");
        yaml.append(cfg.uuid.as_str());
        let config_path = files.nezha_config();
        let mut args: Vec<String> = Vec::new();
        push_str(&mut args, "-c");
        push_str(&mut args, config_path.as_str());
        assert(strings_view(args@) =~= seq!["-c"@, config_path@]);
        assert(yaml@ =~= nezha_v1_yaml_spec(cfg@));
        NezhaLaunch::V1 { config_path, config_yaml: yaml, bin: files.php(), args }
    } else {
        let mut args: Vec<String> = Vec::new();
        push_str(&mut args, "-s");
        let mut server = cfg.nezha_server.clone();
        server.append(":");
        server.append(cfg.nezha_port.as_str());
        push_str(&mut args, server.as_str());
        push_str(&mut args, "-p");
        push_str(&mut args, cfg.nezha_key.as_str());
        let ghost head = strings_view(args@);
        assert(head =~= seq!["-s"@, cfg.nezha_server@ + ":"@ + cfg.nezha_port@, "-p"@, cfg.nezha_key@]);
        if is_tls_port(cfg.nezha_port.as_str()) {
            push_str(&mut args, "--tls");
        }
        let ghost mid = strings_view(args@);
        push_str(&mut args, "--disable-auto-update");
        push_str(&mut args, "--report-delay");
        push_str(&mut args, "4");
        push_str(&mut args, "--skip-conn");
        push_str(&mut args, "--skip-procs");
        assert(strings_view(args@) =~= mid + seq![
            "--disable-auto-update"@,
            "--report-delay"@,
            "4"@,
            "--skip-conn"@,
            "--skip-procs"@,
        ]);
        NezhaLaunch::Agent { bin: files.npm(), args }
    }
}

// ---------------------------------------------------------------------------
// Proxy core
// ---------------------------------------------------------------------------

/// The proxy core runs the `web` binary on its configuration file.
pub fn xray_command(files: &AppFiles) -> (r: (String, Vec<String>))
    ensures
        r.0@ == prefixed_file(files@, "web"@),
        strings_view(r.1@) == seq!["-c"@, prefixed_file(files@, "config.json"@)],
{
    let mut args: Vec<String> = Vec::new();
    push_str(&mut args, "-c");
    let config = files.config();
    push_str(&mut args, config.as_str());
    assert(strings_view(args@) =~= seq!["-c"@, config@]);
    (files.web(), args)
}

// ---------------------------------------------------------------------------
// Tunnel client
// ---------------------------------------------------------------------------

/// How the tunnel is reached.
#[derive(PartialEq, Eq, Structural, Clone, Copy, Debug)]
pub enum TunnelMode {
    /// A fixed tunnel identified by a token.
    Token,
    /// A fixed tunnel described by a credentials file and its configuration.
    ConfigFile,
    /// A temporary tunnel whose domain is read from the client's log.
    Quick,
}

/// The tunnel mode: a fixed tunnel needs both the credentials and the domain; credentials of
/// 120 to 250 bytes are a token, credentials holding `TunnelSecret` a credentials file;
/// anything else falls back to a temporary tunnel.
pub open spec fn tunnel_mode_spec(c: ConfigView) -> TunnelMode {
    if c.argo_auth.len() > 0 && c.argo_domain.len() > 0 {
        let n = vstd::utf8::encode_utf8(c.argo_auth).len() as usize;
        if 120 <= n <= 250 {
            TunnelMode::Token
        } else if contains_seq(c.argo_auth, "TunnelSecret"@) {
            TunnelMode::ConfigFile
        } else {
            TunnelMode::Quick
        }
    } else {
        TunnelMode::Quick
    }
}

/// A fixed tunnel (token or credentials file) is chosen only where both the credentials and
/// the tunnel domain are set. So wherever there is no fixed domain, the tunnel client writes
/// its log to the boot log, from which the temporary domain is read.
pub proof fn lemma_fixed_tunnel_needs_domain(c: ConfigView, f: AppFilesView)
    ensures
        tunnel_mode_spec(c) != TunnelMode::Quick ==> c.argo_auth.len() > 0 && c.argo_domain.len()
            > 0,
        fixed_domain_spec(c) is None ==> exists|k: int|
            0 <= k && k + 1 < cloudflared_args_spec(c, f).len() && #[trigger] cloudflared_args_spec(
                c,
                f,
            )[k] == "--logfile"@ && cloudflared_args_spec(c, f)[k + 1] == prefixed_file(
                f,
                "boot.log"@,
            ),
{
    if fixed_domain_spec(c) is None {
        let a = cloudflared_args_spec(c, f);
        assert(a[6] == "--logfile"@);
    }
}

/// The tunnel modes and the tunnel client's arguments: with credentials and domain both set,
/// credentials of 120 to 250 UTF-8 bytes are run as a token (`run --token <credentials>`),
/// other credentials holding `TunnelSecret` run the written configuration (`--config
/// <tunnel.yml> run`); everything else is a temporary tunnel that logs to the boot log and
/// serves `http://localhost:<ARGO_PORT>`. Every mode starts with the same six arguments.
pub proof fn lemma_tunnel_modes(c: ConfigView, f: AppFilesView)
    requires
        vstd::utf8::encode_utf8(c.argo_auth).len() <= usize::MAX,
    ensures
        tunnel_mode_spec(c) == TunnelMode::Token <==> c.argo_auth.len() > 0 && c.argo_domain.len()
            > 0 && 120 <= vstd::utf8::encode_utf8(c.argo_auth).len() <= 250,
        tunnel_mode_spec(c) == TunnelMode::ConfigFile <==> c.argo_auth.len() > 0
            && c.argo_domain.len() > 0 && !(120 <= vstd::utf8::encode_utf8(c.argo_auth).len()
            <= 250) && contains_seq(c.argo_auth, "TunnelSecret"@),
        ({
            let base = seq![
                "tunnel"@,
                "--edge-ip-version"@,
                "auto"@,
                "--no-autoupdate"@,
                "--protocol"@,
                "http2"@,
            ];
            let a = cloudflared_args_spec(c, f);
            &&& tunnel_mode_spec(c) == TunnelMode::Token ==> a == base + seq![
                "run"@,
                "--token"@,
                c.argo_auth,
            ]
            &&& tunnel_mode_spec(c) == TunnelMode::ConfigFile ==> a == base + seq![
                "--config"@,
                prefixed_file(f, "tunnel.yml"@),
                "run"@,
            ]
            &&& tunnel_mode_spec(c) == TunnelMode::Quick ==> a == base + seq![
                "--logfile"@,
                prefixed_file(f, "boot.log"@),
                "--loglevel"@,
                "info"@,
                "--url"@,
                "http://localhost:"@ + c.argo_port,
            ]
        }),
{
}

/// The tunnel mode (see `tunnel_mode_spec`).
pub fn tunnel_mode(cfg: &Config) -> (r: TunnelMode)
    ensures
        r == tunnel_mode_spec(cfg@),
{
    if !cfg.argo_auth.as_str().is_empty() && !cfg.argo_domain.as_str().is_empty() {
        let n = cfg.argo_auth.as_str().len();
        if n >= 120 && n <= 250 {
            TunnelMode::Token
        } else if contains_str(cfg.argo_auth.as_str(), "TunnelSecret") {
            TunnelMode::ConfigFile
        } else {
            TunnelMode::Quick
        }
    } else {
        TunnelMode::Quick
    }
}

/// The arguments of the tunnel client for the mode of `c`.
pub open spec fn cloudflared_args_spec(c: ConfigView, f: AppFilesView) -> Seq<Seq<char>> {
    let base = seq![
        "tunnel"@,
        "--edge-ip-version"@,
        "auto"@,
        "--no-autoupdate"@,
        "--protocol"@,
        "http2"@,
    ];
    match tunnel_mode_spec(c) {
        TunnelMode::Token => base + seq!["run"@, "--token"@, c.argo_auth],
        TunnelMode::ConfigFile => base + seq!["--config"@, prefixed_file(f, "tunnel.yml"@), "run"@],
        TunnelMode::Quick => base + seq![
            "--logfile"@,
            prefixed_file(f, "boot.log"@),
            "--loglevel"@,
            "info"@,
            "--url"@,
            "http://localhost:"@ + c.argo_port,
        ],
    }
}

/// The arguments of the tunnel client (see `cloudflared_args_spec`).
pub fn cloudflared_args(cfg: &Config, files: &AppFiles) -> (r: Vec<String>)
    ensures
        strings_view(r@) == cloudflared_args_spec(cfg@, files@),
{
    let mut args: Vec<String> = Vec::new();
    push_str(&mut args, "tunnel");
    push_str(&mut args, "--edge-ip-version");
    push_str(&mut args, "auto");
    push_str(&mut args, "--no-autoupdate");
    push_str(&mut args, "--protocol");
    push_str(&mut args, "http2");
    let ghost base = strings_view(args@);
    match tunnel_mode(cfg) {
        TunnelMode::Token => {
            push_str(&mut args, "run");
            push_str(&mut args, "--token");
            push_str(&mut args, cfg.argo_auth.as_str());
        },
        TunnelMode::ConfigFile => {
            push_str(&mut args, "--config");
            let yml = files.tunnel_yml();
            push_str(&mut args, yml.as_str());
            push_str(&mut args, "run");
        },
        TunnelMode::Quick => {
            push_str(&mut args, "--logfile");
            let log = files.boot_log();
            push_str(&mut args, log.as_str());
            push_str(&mut args, "--loglevel");
            push_str(&mut args, "info");
            push_str(&mut args, "--url");
            let url = join2("http://localhost:", cfg.argo_port.as_str());
            push_str(&mut args, url.as_str());
        },
    }
    assert(strings_view(args@) =~= cloudflared_args_spec(cfg@, files@));
    args
}

// ---------------------------------------------------------------------------
// Monitor script, keep-alive task, node upload
// ---------------------------------------------------------------------------

/// The arguments of the monitor script: none where its key, server or URL is missing.
pub open spec fn monitor_args_spec(c: ConfigView) -> Option<Seq<Seq<char>>> {
    if c.monitor_key.len() == 0 || c.monitor_server.len() == 0 || c.monitor_url.len() == 0 {
        None
    } else {
        Some(seq!["-i"@, "-k"@, c.monitor_key, "-s"@, c.monitor_server, "-u"@, c.monitor_url])
    }
}

/// The arguments of the monitor script (see `monitor_args_spec`).
pub fn monitor_args(cfg: &Config) -> (r: Option<Vec<String>>)
    ensures
        match r {
            Some(a) => monitor_args_spec(cfg@) == Some(strings_view(a@)),
            None => monitor_args_spec(cfg@) is None,
        },
{
    if cfg.monitor_key.as_str().is_empty() || cfg.monitor_server.as_str().is_empty() || cfg.monitor_url.as_str().is_empty() {
        return None;
    }
    let mut a: Vec<String> = Vec::new();
    push_str(&mut a, "-i");
    push_str(&mut a, "-k");
    push_str(&mut a, cfg.monitor_key.as_str());
    push_str(&mut a, "-s");
    push_str(&mut a, cfg.monitor_server.as_str());
    push_str(&mut a, "-u");
    push_str(&mut a, cfg.monitor_url.as_str());
    assert(strings_view(a@) =~= seq![
        "-i"@,
        "-k"@,
        cfg.monitor_key@,
        "-s"@,
        cfg.monitor_server@,
        "-u"@,
        cfg.monitor_url@,
    ]);
    Some(a)
}

/// The keep-alive service and the page to register with it: the project URL, where
/// automatic access is on and a project URL is set.
pub fn visit_task(cfg: &Config) -> (r: Option<(String, String)>)
    ensures
        match r {
            Some((service, page)) => cfg.auto_access && cfg.project_url@.len() > 0 && service@
                == "https://oooo.serv00.net/add-url"@ && page@ == cfg.project_url@,
            None => !cfg.auto_access || cfg.project_url@.len() == 0,
        },
{
    if !cfg.auto_access || cfg.project_url.as_str().is_empty() {
        None
    } else {
        Some(("https://oooo.serv00.net/add-url".to_owned(), cfg.project_url.clone()))
    }
}

/// What is uploaded once the links exist.
pub enum UploadPlan {
    /// No upload service is configured.
    Nothing,
    /// The subscription URL `sub_url` is registered at `endpoint`.
    Subscription { endpoint: String, sub_url: String },
    /// The proxy links of the node list are sent to `endpoint`.
    Nodes { endpoint: String },
}

/// What is uploaded: nothing without an upload service; the subscription URL
/// `<project>/<sub_path>` where a project URL is set; the node list otherwise.
pub open spec fn upload_plan_spec(p: UploadPlan, c: ConfigView) -> bool {
    if c.upload_url.len() == 0 {
        p is Nothing
    } else if c.project_url.len() > 0 {
        match p {
            UploadPlan::Subscription { endpoint, sub_url } => {
                &&& endpoint@ == c.upload_url + "/api/add-subscriptions"@
                &&& sub_url@ == c.project_url + "/"@ + c.sub_path
            },
            _ => false,
        }
    } else {
        match p {
            UploadPlan::Nodes { endpoint } => endpoint@ == c.upload_url + "/api/add-nodes"@,
            _ => false,
        }
    }
}

/// What is uploaded (see `upload_plan_spec`).
pub fn upload_plan(cfg: &Config) -> (r: UploadPlan)
    ensures
        upload_plan_spec(r, cfg@),
{
    if cfg.upload_url.as_str().is_empty() {
        UploadPlan::Nothing
    } else if !cfg.project_url.as_str().is_empty() {
        let endpoint = join2(cfg.upload_url.as_str(), "/api/add-subscriptions");
        let mut sub_url = join2(cfg.project_url.as_str(), "/");
        sub_url.append(cfg.sub_path.as_str());
        UploadPlan::Subscription { endpoint, sub_url }
    } else {
        UploadPlan::Nodes { endpoint: join2(cfg.upload_url.as_str(), "/api/add-nodes") }
    }
}

/// Where the previous nodes are deleted at start: nowhere without an upload service.
pub fn delete_nodes_endpoint(cfg: &Config) -> (r: Option<String>)
    ensures
        match r {
            Some(e) => cfg.upload_url@.len() > 0 && e@ == cfg.upload_url@ + "/api/delete-nodes"@,
            None => cfg.upload_url@.len() == 0,
        },
{
    if cfg.upload_url.as_str().is_empty() {
        None
    } else {
        Some(join2(cfg.upload_url.as_str(), "/api/delete-nodes"))
    }
}

/// Every file the service downloads or writes among its working files is removed at exit:
/// the downloaded binaries, the proxy core's configuration, the v1 agent's configuration,
/// the tunnel credentials and configuration, the tunnel client's log and the subscription.
pub proof fn lemma_working_files_removed_at_exit(c: ConfigView, f: AppFilesView, arch: Seq<char>)
    ensures
        forall|k: int|
            0 <= k < download_list_spec(c, f, arch).len() ==> all_temp_files_spec(f).contains(
                (#[trigger] download_list_spec(c, f, arch)[k]).1,
            ),
        all_temp_files_spec(f).contains(prefixed_file(f, "config.json"@)),
        all_temp_files_spec(f).contains(prefixed_file(f, "config.yaml"@)),
        all_temp_files_spec(f).contains(prefixed_file(f, "tunnel.json"@)),
        all_temp_files_spec(f).contains(prefixed_file(f, "tunnel.yml"@)),
        all_temp_files_spec(f).contains(prefixed_file(f, "boot.log"@)),
        all_temp_files_spec(f).contains(prefixed_file(f, "sub.txt"@)),
{
    let all = all_temp_files_spec(f);
    assert(all[0] == prefixed_file(f, "npm"@));
    assert(all[1] == prefixed_file(f, "web"@));
    assert(all[2] == prefixed_file(f, "bot"@));
    assert(all[3] == prefixed_file(f, "php"@));
    assert(all[5] == prefixed_file(f, "sub.txt"@));
    assert(all[7] == prefixed_file(f, "boot.log"@));
    assert(all[8] == prefixed_file(f, "config.json"@));
    assert(all[9] == prefixed_file(f, "config.yaml"@));
    assert(all[10] == prefixed_file(f, "tunnel.json"@));
    assert(all[11] == prefixed_file(f, "tunnel.yml"@));
}

/// The subscription URL registered with the upload service is the project URL followed by
/// the route on which the HTTP server serves the subscription (`/<sub_path>`).
pub proof fn lemma_registered_url_is_served_route(p: UploadPlan, c: ConfigView)
    requires
        upload_plan_spec(p, c),
        c.upload_url.len() > 0,
        c.project_url.len() > 0,
    ensures
        p matches UploadPlan::Subscription { sub_url, .. } && sub_url@ == c.project_url + ("/"@
            + c.sub_path),
{
    assert(c.project_url + "/"@ + c.sub_path =~= c.project_url + ("/"@ + c.sub_path));
}

} // verus!
