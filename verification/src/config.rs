use vstd::prelude::*;

use crate::text::str_eq;

verus! {

/// The settings the service runs with, each read from an environment variable.
#[derive(Clone, Debug)]
pub struct Config {
    pub upload_url: String,
    pub project_url: String,
    pub auto_access: bool,
    pub file_path: String,
    pub sub_path: String,
    pub port: String,
    pub argo_port: String,
    pub uuid: String,
    pub nezha_server: String,
    pub nezha_port: String,
    pub nezha_key: String,
    pub argo_domain: String,
    pub argo_auth: String,
    pub cfip: String,
    pub cfport: String,
    pub name: String,
    pub monitor_key: String,
    pub monitor_server: String,
    pub monitor_url: String,
}

/// The settings as character sequences.
pub struct ConfigView {
    pub upload_url: Seq<char>,
    pub project_url: Seq<char>,
    pub auto_access: bool,
    pub file_path: Seq<char>,
    pub sub_path: Seq<char>,
    pub port: Seq<char>,
    pub argo_port: Seq<char>,
    pub uuid: Seq<char>,
    pub nezha_server: Seq<char>,
    pub nezha_port: Seq<char>,
    pub nezha_key: Seq<char>,
    pub argo_domain: Seq<char>,
    pub argo_auth: Seq<char>,
    pub cfip: Seq<char>,
    pub cfport: Seq<char>,
    pub name: Seq<char>,
    pub monitor_key: Seq<char>,
    pub monitor_server: Seq<char>,
    pub monitor_url: Seq<char>,
}

impl View for Config {
    type V = ConfigView;

    open spec fn view(&self) -> ConfigView {
        ConfigView {
            upload_url: self.upload_url@,
            project_url: self.project_url@,
            auto_access: self.auto_access,
            file_path: self.file_path@,
            sub_path: self.sub_path@,
            port: self.port@,
            argo_port: self.argo_port@,
            uuid: self.uuid@,
            nezha_server: self.nezha_server@,
            nezha_port: self.nezha_port@,
            nezha_key: self.nezha_key@,
            argo_domain: self.argo_domain@,
            argo_auth: self.argo_auth@,
            cfip: self.cfip@,
            cfport: self.cfport@,
            name: self.name@,
            monitor_key: self.monitor_key@,
            monitor_server: self.monitor_server@,
            monitor_url: self.monitor_url@,
        }
    }
}

/// An environment as a sequence of (name, value) pairs.
pub open spec fn env_view(env: Seq<(String, String)>) -> Seq<(Seq<char>, Seq<char>)> {
    env.map_values(|p: (String, String)| (p.0@, p.1@))
}

/// The value of the first variable named `key`, if there is one.
pub open spec fn env_lookup(env: Seq<(Seq<char>, Seq<char>)>, key: Seq<char>) -> Option<Seq<char>>
    decreases env.len(),
{
    if env.len() == 0 {
        None
    } else if env[0].0 == key {
        Some(env[0].1)
    } else {
        env_lookup(env.drop_first(), key)
    }
}

/// The value of `key`, or `default` where it is not set.
pub open spec fn env_or(env: Seq<(Seq<char>, Seq<char>)>, key: Seq<char>, default: Seq<char>) -> Seq<
    char,
> {
    match env_lookup(env, key) {
        Some(v) => v,
        None => default,
    }
}

/// The settings that the environment `env` gives, each variable falling back to its default.
pub open spec fn config_from_env_spec(env: Seq<(Seq<char>, Seq<char>)>) -> ConfigView {
    ConfigView {
        upload_url: env_or(env, "UPLOAD_URL"@, ""@),
        project_url: env_or(env, "PROJECT_URL"@, ""@),
        auto_access: env_or(env, "AUTO_ACCESS"@, "false"@) == "true"@,
        file_path: env_or(env, "FILE_PATH"@, "./tmp"@),
        sub_path: env_or(env, "SUB_PATH"@, "sub"@),
        port: env_or(env, "SERVER_PORT"@, env_or(env, "PORT"@, "3000"@)),
        argo_port: env_or(env, "ARGO_PORT"@, "7860"@),
        uuid: env_or(env, "UUID"@, "e2cae6af-5cdd-fa48-4137-ad3e617fbab0"@),
        nezha_server: env_or(env, "NEZHA_SERVER"@, ""@),
        nezha_port: env_or(env, "NEZHA_PORT"@, ""@),
        nezha_key: env_or(env, "NEZHA_KEY"@, ""@),
        argo_domain: env_or(env, "ARGO_DOMAIN"@, ""@),
        argo_auth: env_or(env, "ARGO_AUTH"@, ""@),
        cfip: env_or(env, "CFIP"@, "cdns.doon.eu.org"@),
        cfport: env_or(env, "CFPORT"@, "443"@),
        name: env_or(env, "NAME"@, ""@),
        monitor_key: env_or(env, "MONITOR_KEY"@, ""@),
        monitor_server: env_or(env, "MONITOR_SERVER"@, ""@),
        monitor_url: env_or(env, "MONITOR_URL"@, ""@),
    }
}

/// The value of the variable `key` in `env`, or `default` where it is not set.
pub fn get_env(env: &Vec<(String, String)>, key: &str, default: &str) -> (r: String)
    ensures
        r@ == env_or(env_view(env@), key@, default@),
{
    let ghost view = env_view(env@);
    let mut i: usize = 0;
    assert(view.skip(0) =~= view);
    while i < env.len()
        invariant
            view == env_view(env@),
            i <= env@.len(),
            env_lookup(view, key@) == env_lookup(view.skip(i as int), key@),
        decreases env@.len() - i,
    {
        assert(view.skip(i as int)[0] == view[i as int]);
        assert(view.skip(i as int).drop_first() =~= view.skip(i + 1));
        if str_eq(env[i].0.as_str(), key) {
            return env[i].1.clone();
        }
        i = i + 1;
    }
    default.to_owned()
}

impl Config {
    /// The settings that the environment `env` gives (its variables as name and value).
    pub fn from_env(env: &Vec<(String, String)>) -> (r: Config)
        ensures
            r@ == config_from_env_spec(env_view(env@)),
    {
        let default_port = get_env(env, "PORT", "3000");
        let auto = get_env(env, "AUTO_ACCESS", "false");
        Config {
            upload_url: get_env(env, "UPLOAD_URL", ""),
            project_url: get_env(env, "PROJECT_URL", ""),
            auto_access: str_eq(auto.as_str(), "true"),
            file_path: get_env(env, "FILE_PATH", "./tmp"),
            sub_path: get_env(env, "SUB_PATH", "sub"),
            port: get_env(env, "SERVER_PORT", default_port.as_str()),
            argo_port: get_env(env, "ARGO_PORT", "7860"),
            uuid: get_env(env, "UUID", "e2cae6af-5cdd-fa48-4137-ad3e617fbab0"),
            nezha_server: get_env(env, "NEZHA_SERVER", ""),
            nezha_port: get_env(env, "NEZHA_PORT", ""),
            nezha_key: get_env(env, "NEZHA_KEY", ""),
            argo_domain: get_env(env, "ARGO_DOMAIN", ""),
            argo_auth: get_env(env, "ARGO_AUTH", ""),
            cfip: get_env(env, "CFIP", "cdns.doon.eu.org"),
            cfport: get_env(env, "CFPORT", "443"),
            name: get_env(env, "NAME", ""),
            monitor_key: get_env(env, "MONITOR_KEY", ""),
            monitor_server: get_env(env, "MONITOR_SERVER", ""),
            monitor_url: get_env(env, "MONITOR_URL", ""),
        }
    }
}

/// `key` is set in `env` to `value`: the first variable named `key` carries `value`.
pub open spec fn env_sets(env: Seq<(Seq<char>, Seq<char>)>, key: Seq<char>, value: Seq<char>) -> bool {
    exists|i: int|
        0 <= i < env.len() && env[i] == (key, value) && forall|j: int|
            0 <= j < i ==> env[j].0 != key
}

/// No variable of `env` is named `key`.
pub open spec fn env_unset(env: Seq<(Seq<char>, Seq<char>)>, key: Seq<char>) -> bool {
    forall|i: int| 0 <= i < env.len() ==> env[i].0 != key
}

/// Looking up `key` gives the value it is set to, and nothing where it is not set.
pub proof fn lemma_env_lookup(env: Seq<(Seq<char>, Seq<char>)>, key: Seq<char>)
    ensures
        forall|v: Seq<char>| #[trigger] env_sets(env, key, v) ==> env_lookup(env, key) == Some(v),
        env_unset(env, key) ==> env_lookup(env, key) is None,
    decreases env.len(),
{
    if env.len() > 0 {
        let rest = env.drop_first();
        lemma_env_lookup(rest, key);
        if env[0].0 == key {
            assert forall|v: Seq<char>| #[trigger] env_sets(env, key, v) implies env_lookup(env, key)
                == Some(v) by {
                let i = choose|i: int|
                    0 <= i < env.len() && env[i] == (key, v) && forall|j: int|
                        0 <= j < i ==> env[j].0 != key;
                if i > 0 {
                    assert(env[0].0 != key);
                }
            }
        } else {
            assert forall|v: Seq<char>| #[trigger] env_sets(env, key, v) implies env_sets(
                rest,
                key,
                v,
            ) by {
                let i = choose|i: int|
                    0 <= i < env.len() && env[i] == (key, v) && forall|j: int|
                        0 <= j < i ==> env[j].0 != key;
                assert(i > 0);
                assert(rest[i - 1] == env[i]);
                assert forall|j: int| 0 <= j < i - 1 implies rest[j].0 != key by {
                    assert(rest[j] == env[j + 1]);
                }
            }
            if env_unset(env, key) {
                assert forall|i: int| 0 <= i < rest.len() implies rest[i].0 != key by {
                    assert(rest[i] == env[i + 1]);
                }
            }
        }
    }
}

/// Each setting takes the value its environment variable is set to, and its default only
/// where the variable is not set: `SERVER_PORT`, else `PORT`, else 3000 for the port, and
/// `AUTO_ACCESS` is on exactly where it is set to `true`.
pub proof fn lemma_settings_follow_environment(env: Seq<(Seq<char>, Seq<char>)>)
    ensures
        forall|v: Seq<char>|
            #[trigger] env_sets(env, "UPLOAD_URL"@, v) ==> config_from_env_spec(env).upload_url == v,
        env_unset(env, "UPLOAD_URL"@) ==> config_from_env_spec(env).upload_url == ""@,
        forall|v: Seq<char>|
            #[trigger] env_sets(env, "PROJECT_URL"@, v) ==> config_from_env_spec(env).project_url == v,
        env_unset(env, "PROJECT_URL"@) ==> config_from_env_spec(env).project_url == ""@,
        forall|v: Seq<char>|
            #[trigger] env_sets(env, "FILE_PATH"@, v) ==> config_from_env_spec(env).file_path == v,
        env_unset(env, "FILE_PATH"@) ==> config_from_env_spec(env).file_path == "./tmp"@,
        forall|v: Seq<char>|
            #[trigger] env_sets(env, "SUB_PATH"@, v) ==> config_from_env_spec(env).sub_path == v,
        env_unset(env, "SUB_PATH"@) ==> config_from_env_spec(env).sub_path == "sub"@,
        forall|v: Seq<char>|
            #[trigger] env_sets(env, "ARGO_PORT"@, v) ==> config_from_env_spec(env).argo_port == v,
        env_unset(env, "ARGO_PORT"@) ==> config_from_env_spec(env).argo_port == "7860"@,
        forall|v: Seq<char>|
            #[trigger] env_sets(env, "UUID"@, v) ==> config_from_env_spec(env).uuid == v,
        env_unset(env, "UUID"@) ==> config_from_env_spec(env).uuid == "e2cae6af-5cdd-fa48-4137-ad3e617fbab0"@,
        forall|v: Seq<char>|
            #[trigger] env_sets(env, "NEZHA_SERVER"@, v) ==> config_from_env_spec(env).nezha_server == v,
        env_unset(env, "NEZHA_SERVER"@) ==> config_from_env_spec(env).nezha_server == ""@,
        forall|v: Seq<char>|
            #[trigger] env_sets(env, "NEZHA_PORT"@, v) ==> config_from_env_spec(env).nezha_port == v,
        env_unset(env, "NEZHA_PORT"@) ==> config_from_env_spec(env).nezha_port == ""@,
        forall|v: Seq<char>|
            #[trigger] env_sets(env, "NEZHA_KEY"@, v) ==> config_from_env_spec(env).nezha_key == v,
        env_unset(env, "NEZHA_KEY"@) ==> config_from_env_spec(env).nezha_key == ""@,
        forall|v: Seq<char>|
            #[trigger] env_sets(env, "ARGO_DOMAIN"@, v) ==> config_from_env_spec(env).argo_domain == v,
        env_unset(env, "ARGO_DOMAIN"@) ==> config_from_env_spec(env).argo_domain == ""@,
        forall|v: Seq<char>|
            #[trigger] env_sets(env, "ARGO_AUTH"@, v) ==> config_from_env_spec(env).argo_auth == v,
        env_unset(env, "ARGO_AUTH"@) ==> config_from_env_spec(env).argo_auth == ""@,
        forall|v: Seq<char>|
            #[trigger] env_sets(env, "CFIP"@, v) ==> config_from_env_spec(env).cfip == v,
        env_unset(env, "CFIP"@) ==> config_from_env_spec(env).cfip == "cdns.doon.eu.org"@,
        forall|v: Seq<char>|
            #[trigger] env_sets(env, "CFPORT"@, v) ==> config_from_env_spec(env).cfport == v,
        env_unset(env, "CFPORT"@) ==> config_from_env_spec(env).cfport == "443"@,
        forall|v: Seq<char>|
            #[trigger] env_sets(env, "NAME"@, v) ==> config_from_env_spec(env).name == v,
        env_unset(env, "NAME"@) ==> config_from_env_spec(env).name == ""@,
        forall|v: Seq<char>|
            #[trigger] env_sets(env, "MONITOR_KEY"@, v) ==> config_from_env_spec(env).monitor_key == v,
        env_unset(env, "MONITOR_KEY"@) ==> config_from_env_spec(env).monitor_key == ""@,
        forall|v: Seq<char>|
            #[trigger] env_sets(env, "MONITOR_SERVER"@, v) ==> config_from_env_spec(env).monitor_server == v,
        env_unset(env, "MONITOR_SERVER"@) ==> config_from_env_spec(env).monitor_server == ""@,
        forall|v: Seq<char>|
            #[trigger] env_sets(env, "MONITOR_URL"@, v) ==> config_from_env_spec(env).monitor_url == v,
        env_unset(env, "MONITOR_URL"@) ==> config_from_env_spec(env).monitor_url == ""@,
        forall|v: Seq<char>|
            #[trigger] env_sets(env, "SERVER_PORT"@, v) ==> config_from_env_spec(env).port == v,
        forall|v: Seq<char>|
            env_unset(env, "SERVER_PORT"@) && #[trigger] env_sets(env, "PORT"@, v)
                ==> config_from_env_spec(env).port == v,
        env_unset(env, "SERVER_PORT"@) && env_unset(env, "PORT"@) ==> config_from_env_spec(
            env,
        ).port == "3000"@,
        forall|v: Seq<char>|
            #[trigger] env_sets(env, "AUTO_ACCESS"@, v) ==> (config_from_env_spec(env).auto_access
                <==> v == "true"@),
        env_unset(env, "AUTO_ACCESS"@) ==> !config_from_env_spec(env).auto_access,
{
    lemma_env_lookup(env, "UPLOAD_URL"@);
    lemma_env_lookup(env, "PROJECT_URL"@);
    lemma_env_lookup(env, "FILE_PATH"@);
    lemma_env_lookup(env, "SUB_PATH"@);
    lemma_env_lookup(env, "ARGO_PORT"@);
    lemma_env_lookup(env, "UUID"@);
    lemma_env_lookup(env, "NEZHA_SERVER"@);
    lemma_env_lookup(env, "NEZHA_PORT"@);
    lemma_env_lookup(env, "NEZHA_KEY"@);
    lemma_env_lookup(env, "ARGO_DOMAIN"@);
    lemma_env_lookup(env, "ARGO_AUTH"@);
    lemma_env_lookup(env, "CFIP"@);
    lemma_env_lookup(env, "CFPORT"@);
    lemma_env_lookup(env, "NAME"@);
    lemma_env_lookup(env, "MONITOR_KEY"@);
    lemma_env_lookup(env, "MONITOR_SERVER"@);
    lemma_env_lookup(env, "MONITOR_URL"@);
    lemma_env_lookup(env, "SERVER_PORT"@);
    lemma_env_lookup(env, "PORT"@);
    lemma_env_lookup(env, "AUTO_ACCESS"@);
    reveal_strlit("false");
    reveal_strlit("true");
    assert("false"@.len() != "true"@.len());
}

} // verus!
