use vstd::prelude::*;

use crate::config::{Config, ConfigView};
use crate::ext::{json_string_field, json_string_member};
use crate::files::{prefixed_file, AppFiles, AppFilesView};
use crate::launch::{cloudflared_args_spec, tunnel_mode_spec, TunnelMode};
use crate::text::{
    chars_of, contains_seq, contains_str, find_char, find_in, find_seq, lemma_find_seq_contains,
    line_spans, lines_of, occurs_at_in, starts_with_seq, trim_end_char, trim_start_all,
};

verus! {

/// Where the first URL of a line starts: the first `https://`, or failing that the first
/// `http://`.
pub open spec fn url_start(line: Seq<char>) -> Option<int> {
    match find_seq(line, "https://"@) {
        Some(i) => Some(i),
        None => find_seq(line, "http://"@),
    }
}

/// The tunnel domain that a log line announces: on a line that mentions
/// `trycloudflare.com`, the URL from its first `https://` (or `http://`) up to the next space,
/// with the leading schemes and the trailing slashes taken off.
pub open spec fn line_domain(line: Seq<char>) -> Option<Seq<char>> {
    if !contains_seq(line, "trycloudflare.com"@) {
        None
    } else {
        match url_start(line) {
            None => None,
            Some(st) => {
                let rest = line.skip(st);
                let url = match find_char(rest, ' ') {
                    Some(e) => rest.take(e),
                    None => rest,
                };
                Some(
                    trim_end_char(
                        trim_start_all(trim_start_all(url, "https://"@), "http://"@),
                        '/',
                    ),
                )
            },
        }
    }
}

/// The domain announced by the first line of `lines` that announces one.
pub open spec fn first_domain(lines: Seq<Seq<char>>) -> Option<Seq<char>>
    decreases lines.len(),
{
    if lines.len() == 0 {
        None
    } else {
        match line_domain(lines[0]) {
            Some(d) => Some(d),
            None => first_domain(lines.drop_first()),
        }
    }
}

/// Removes every leading copy of `p` from `t[lo..hi]`; gives the new start.
fn skip_prefixes(t: &Vec<char>, lo: usize, hi: usize, p: &Vec<char>) -> (r: usize)
    requires
        lo <= hi <= t@.len(),
        p@.len() > 0,
    ensures
        lo <= r <= hi,
        t@.subrange(r as int, hi as int) == trim_start_all(t@.subrange(lo as int, hi as int), p@),
{
    let mut k = lo;
    while occurs_at_in(t, k, hi, p, 0)
        invariant
            lo <= k <= hi <= t@.len(),
            p@.len() > 0,
            trim_start_all(t@.subrange(lo as int, hi as int), p@) == trim_start_all(
                t@.subrange(k as int, hi as int),
                p@,
            ),
        decreases hi - k,
    {
        proof {
            let s = t@.subrange(k as int, hi as int);
            assert(starts_with_seq(s, p@));
            assert(s.skip(p@.len() as int) =~= t@.subrange(k + p@.len(), hi as int));
        }
        k = k + p.len();
    }
    k
}

/// The domain announced by `line` (see `line_domain`).
pub fn domain_from_line(line: &str) -> (r: Option<String>)
    ensures
        match r {
            Some(d) => line_domain(line@) == Some(d@),
            None => line_domain(line@) is None,
        },
{
    let t = chars_of(line);
    let n = t.len();
    proof {
        assert(t@.subrange(0, n as int) =~= line@);
    }
    let marker = chars_of("trycloudflare.com");
    if find_in(&t, 0, n, &marker).is_none() {
        proof {
            lemma_find_seq_contains(line@, "trycloudflare.com"@);
        }
        return None;
    }
    proof {
        lemma_find_seq_contains(line@, "trycloudflare.com"@);
    }
    let https = chars_of("https://");
    let http = chars_of("http://");
    let start = match find_in(&t, 0, n, &https) {
        Some(i) => i,
        None => match find_in(&t, 0, n, &http) {
            Some(i) => i,
            None => {
                return None;
            },
        },
    };
    proof {
        lemma_find_seq_contains(line@, "https://"@);
        lemma_find_seq_contains(line@, "http://"@);
        assert(url_start(line@) == Some(start as int));
    }
    let ghost rest = line@.skip(start as int);
    let space = vec![' '];
    proof {
        assert(t@.subrange(start as int, n as int) =~= rest);
        assert(space@ =~= seq![' ']);
    }
    let found = find_in(&t, start, n, &space);
    proof {
        lemma_find_seq_contains(t@.subrange(start as int, n as int), space@);
    }
    let end = match found {
        Some(e) => start + e,
        None => n,
    };
    proof {
        match find_char(rest, ' ') {
            Some(e) => {
                lemma_find_seq_contains(rest, seq![' ']);
                assert(rest.take(e) =~= t@.subrange(start as int, end as int));
            },
            None => {
                assert(rest =~= t@.subrange(start as int, end as int));
            },
        }
    }
    proof {
        reveal_strlit("https://");
        reveal_strlit("http://");
    }
    let lo1 = skip_prefixes(&t, start, end, &https);
    let lo2 = skip_prefixes(&t, lo1, end, &http);
    let mut hi = end;
    while hi > lo2 && t[hi - 1] == '/'
        invariant
            lo2 <= hi <= end <= n,
            n == t@.len(),
            trim_end_char(t@.subrange(lo2 as int, end as int), '/') == trim_end_char(
                t@.subrange(lo2 as int, hi as int),
                '/',
            ),
        decreases hi,
    {
        proof {
            assert(t@.subrange(lo2 as int, hi as int).drop_last() =~= t@.subrange(
                lo2 as int,
                hi - 1,
            ));
        }
        hi = hi - 1;
    }
    proof {
        let s = t@.subrange(lo2 as int, hi as int);
        assert(trim_end_char(s, '/') == s);
    }
    Some(line.substring_char(lo2, hi).to_owned())
}

/// The tunnel domain announced in the tunnel client's log `log`: that of the first line that
/// announces one.
pub fn domain_from_log(log: &str) -> (r: Option<String>)
    ensures
        match r {
            Some(d) => first_domain(lines_of(log@)) == Some(d@),
            None => first_domain(lines_of(log@)) is None,
        },
{
    let t = chars_of(log);
    let spans = line_spans(&t);
    let ghost lines = lines_of(log@);
    let mut k: usize = 0;
    assert(lines.skip(0) =~= lines);
    while k < spans.len()
        invariant
            t@ == log@,
            lines == lines_of(log@),
            spans@.len() == lines.len(),
            forall|m: int|
                0 <= m < spans@.len() ==> {
                    &&& (#[trigger] spans@[m]).0 <= spans@[m].1 <= t@.len()
                    &&& t@.subrange(spans@[m].0 as int, spans@[m].1 as int) == lines[m]
                },
            k <= spans@.len(),
            first_domain(lines) == first_domain(lines.skip(k as int)),
        decreases spans@.len() - k,
    {
        let (a, b) = spans[k];
        let line = log.substring_char(a, b);
        proof {
            assert(lines.skip(k as int)[0] == lines[k as int]);
            assert(lines.skip(k as int).drop_first() =~= lines.skip(k + 1));
        }
        match domain_from_line(line) {
            Some(d) => {
                return Some(d);
            },
            None => {},
        }
        k = k + 1;
    }
    None
}

/// The configuration of a fixed tunnel `tunnel_id` whose credentials are in `credentials`,
/// routing `domain` to the local port `port`.
pub open spec fn tunnel_yaml_spec(
    tunnel_id: Seq<char>,
    credentials: Seq<char>,
    domain: Seq<char>,
    port: Seq<char>,
) -> Seq<char> {
    "tunnel: "@ + tunnel_id + "\ncredentials-file: "@ + credentials
        + "\nprotocol: http2\n\ningress:\n  - hostname: "@ + domain
        + "\n    service: http://localhost:"@ + port
        + "\n    originRequest:\n      noTLSVerify: true\n  - service: http_status:404\n"@
}

/// The configuration of a fixed tunnel (see `tunnel_yaml_spec`).
pub fn tunnel_yaml(tunnel_id: &str, credentials: &str, domain: &str, port: &str) -> (r: String)
    ensures
        r@ == tunnel_yaml_spec(tunnel_id@, credentials@, domain@, port@),
{
    let mut r = String::new();
    r.append("tunnel: ");
    r.append(tunnel_id);
    r.append("\ncredentials-file: ");
    r.append(credentials);
    r.append("\nprotocol: http2\n\ningress:\n  - hostname: ");
    r.append(domain);
    r.append("\n    service: http://localhost:");
    r.append(port);
    r.append("\n    originRequest:\n      noTLSVerify: true\n  - service: http_status:404\n");
    r
}

/// What is prepared for the tunnel before the client starts.
pub enum ArgoSetup {
    /// Credentials or domain missing: a temporary tunnel is used.
    QuickTunnel,
    /// The credentials are a token: nothing to write.
    TokenTunnel,
    /// The credentials are a credentials file: write `json` to `json_path` and the tunnel
    /// configuration `yaml` to `yaml_path`.
    TunnelFiles { json_path: String, json: String, yaml_path: String, yaml: String },
    /// The credentials name `TunnelSecret` but are not JSON: nothing is written.
    InvalidTunnelConfig,
}

/// What is prepared for the tunnel, given what serde_json found under `TunnelID` in the
/// credentials (`None` where they are not JSON).
pub open spec fn argo_setup_spec(
    s: ArgoSetup,
    c: ConfigView,
    f: AppFilesView,
    tunnel_id: Option<Option<Seq<char>>>,
) -> bool {
    if c.argo_auth.len() == 0 || c.argo_domain.len() == 0 {
        s is QuickTunnel
    } else if !contains_seq(c.argo_auth, "TunnelSecret"@) {
        s is TokenTunnel
    } else {
        match tunnel_id {
            None => s is InvalidTunnelConfig,
            Some(id) => match s {
                ArgoSetup::TunnelFiles { json_path, json, yaml_path, yaml } => {
                    &&& json_path@ == prefixed_file(f, "tunnel.json"@)
                    &&& json@ == c.argo_auth
                    &&& yaml_path@ == prefixed_file(f, "tunnel.yml"@)
                    &&& yaml@ == tunnel_yaml_spec(
                        match id {
                            Some(t) => t,
                            None => ""@,
                        },
                        prefixed_file(f, "tunnel.json"@),
                        c.argo_domain,
                        c.argo_port,
                    )
                },
                _ => false,
            },
        }
    }
}

/// What is prepared for the tunnel, given what serde_json found under `TunnelID` in the
/// credentials (see `argo_setup_spec`).
pub fn argo_setup_from(cfg: &Config, files: &AppFiles, tunnel_id: Option<Option<String>>) -> (r:
    ArgoSetup)
    ensures
        argo_setup_spec(
            r,
            cfg@,
            files@,
            match tunnel_id {
                None => None,
                Some(None) => Some(None),
                Some(Some(t)) => Some(Some(t@)),
            },
        ),
{
    if cfg.argo_auth.as_str().is_empty() || cfg.argo_domain.as_str().is_empty() {
        return ArgoSetup::QuickTunnel;
    }
    if !contains_str(cfg.argo_auth.as_str(), "TunnelSecret") {
        return ArgoSetup::TokenTunnel;
    }
    match tunnel_id {
        None => ArgoSetup::InvalidTunnelConfig,
        Some(id) => {
            let id_text: String = match id {
                Some(t) => t,
                None => "".to_owned(),
            };
            let json_path = files.tunnel_json();
            let yaml = tunnel_yaml(
                id_text.as_str(),
                json_path.as_str(),
                cfg.argo_domain.as_str(),
                cfg.argo_port.as_str(),
            );
            ArgoSetup::TunnelFiles {
                json_path,
                json: cfg.argo_auth.clone(),
                yaml_path: files.tunnel_yml(),
                yaml,
            }
        },
    }
}

/// What is prepared for the tunnel: the credentials are read as JSON by serde_json for their
/// `TunnelID` where they name `TunnelSecret`.
pub fn argo_setup(cfg: &Config, files: &AppFiles) -> (r: ArgoSetup)
    ensures
        argo_setup_spec(r, cfg@, files@, json_string_member(cfg.argo_auth@, "TunnelID"@)),
{
    let id = json_string_field(cfg.argo_auth.as_str(), "TunnelID");
    argo_setup_from(cfg, files, id)
}

/// The fixed tunnel domain: set where the tunnel credentials and the domain both are.
pub open spec fn fixed_domain_spec(c: ConfigView) -> Option<Seq<char>> {
    if c.argo_auth.len() > 0 && c.argo_domain.len() > 0 {
        Some(c.argo_domain)
    } else {
        None
    }
}

/// The fixed tunnel domain (see `fixed_domain_spec`); where there is one, the tunnel
/// client's log need not be read.
pub fn fixed_domain(cfg: &Config) -> (r: Option<String>)
    ensures
        match r {
            Some(d) => fixed_domain_spec(cfg@) == Some(d@),
            None => fixed_domain_spec(cfg@) is None,
        },
{
    if !cfg.argo_auth.as_str().is_empty() && !cfg.argo_domain.as_str().is_empty() {
        Some(cfg.argo_domain.clone())
    } else {
        None
    }
}

/// The domain the links are generated for: the fixed domain where credentials and domain
/// are both set; otherwise the one the tunnel client's log announces, if the log could be
/// read.
pub open spec fn tunnel_domain_spec(c: ConfigView, log: Option<Seq<char>>) -> Option<Seq<char>> {
    if fixed_domain_spec(c) is Some {
        fixed_domain_spec(c)
    } else {
        match log {
            Some(l) => first_domain(lines_of(l)),
            None => None,
        }
    }
}

/// The domain the links are generated for (see `tunnel_domain_spec`); `None` means the
/// tunnel client is to be restarted.
pub fn tunnel_domain(cfg: &Config, log: Option<&str>) -> (r: Option<String>)
    ensures
        match r {
            Some(d) => tunnel_domain_spec(
                cfg@,
                match log {
                    Some(l) => Some(l@),
                    None => None,
                },
            ) == Some(d@),
            None => tunnel_domain_spec(
                cfg@,
                match log {
                    Some(l) => Some(l@),
                    None => None,
                },
            ) is None,
        },
{
    if let Some(d) = fixed_domain(cfg) {
        return Some(d);
    }
    match log {
        Some(l) => domain_from_log(l),
        None => None,
    }
}

/// With credentials in a credentials file, the tunnel client is pointed at the tunnel
/// configuration that the setup writes, and that configuration names the credentials file
/// that the setup writes too.
pub proof fn lemma_tunnel_client_reads_written_config(
    s: ArgoSetup,
    c: ConfigView,
    f: AppFilesView,
    tunnel_id: Option<Seq<char>>,
)
    requires
        tunnel_mode_spec(c) == TunnelMode::ConfigFile,
        argo_setup_spec(s, c, f, Some(tunnel_id)),
    ensures
        s matches ArgoSetup::TunnelFiles { json_path, json, yaml_path, yaml } && {
            &&& cloudflared_args_spec(c, f)[6] == "--config"@
            &&& cloudflared_args_spec(c, f)[7] == yaml_path@
            &&& yaml@ == tunnel_yaml_spec(
                match tunnel_id {
                    Some(t) => t,
                    None => ""@,
                },
                json_path@,
                c.argo_domain,
                c.argo_port,
            )
        },
{
}

} // verus!
