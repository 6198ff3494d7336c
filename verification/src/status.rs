use vstd::prelude::*;

use crate::ext::{
    json_string_field, json_string_member, push_char, to_lowercase, unicode_lowercase,
};
use crate::json::{
    json_entries_view, json_seq_view, json_view, new_items, new_members, push_item, put, put_bool,
    put_int, put_str, Json, JsonSpec,
};
use crate::text::str_eq;
use crate::xray::{ja, jn, jo, js, lemma_lookup_at, member};

verus! {

// ---------------------------------------------------------------------------
// Log level
// ---------------------------------------------------------------------------

/// The log filter for a lower-cased `LOG_LEVEL`: `debug`, `info`, `warn` (also for
/// `warning`) and `error` are kept, anything else becomes `info`.
pub open spec fn level_for_lowercase_spec(level: Seq<char>) -> Seq<char> {
    if level == "debug"@ {
        "debug"@
    } else if level == "info"@ {
        "info"@
    } else if level == "warn"@ || level == "warning"@ {
        "warn"@
    } else if level == "error"@ {
        "error"@
    } else {
        "info"@
    }
}

/// The log filter for a lower-cased `LOG_LEVEL` (see `level_for_lowercase_spec`).
pub fn level_for_lowercase(level: &str) -> (r: &'static str)
    ensures
        r@ == level_for_lowercase_spec(level@),
{
    if str_eq(level, "debug") {
        "debug"
    } else if str_eq(level, "info") {
        "info"
    } else if str_eq(level, "warn") || str_eq(level, "warning") {
        "warn"
    } else if str_eq(level, "error") {
        "error"
    } else {
        "info"
    }
}

/// The value to give `RUST_LOG`: none where it is already set; otherwise the filter for
/// `LOG_LEVEL` (compared in lower case), or `info` where that is not set either.
pub fn rust_log_value(rust_log_set: bool, log_level: Option<&str>) -> (r: Option<&'static str>)
    ensures
        match r {
            None => rust_log_set,
            Some(v) => !rust_log_set && v@ == match log_level {
                Some(l) => level_for_lowercase_spec(unicode_lowercase(l@)),
                None => "info"@,
            },
        },
{
    if rust_log_set {
        return None;
    }
    match log_level {
        Some(l) => {
            let lower = to_lowercase(l);
            Some(level_for_lowercase(lower.as_str()))
        },
        None => Some("info"),
    }
}

// ---------------------------------------------------------------------------
// ISP lookup
// ---------------------------------------------------------------------------

/// A cached ISP label is reused for an hour.
pub fn isp_cache_is_fresh(elapsed_secs: u64) -> (r: bool)
    ensures
        r == (elapsed_secs < 3600),
{
    elapsed_secs < 3600
}

/// The ISP label made of a country code and an organisation, when both were found as
/// strings.
pub open spec fn isp_label_spec(
    country: Option<Option<Seq<char>>>,
    org: Option<Option<Seq<char>>>,
) -> Option<Seq<char>> {
    match (country, org) {
        (Some(Some(c)), Some(Some(o))) => Some(c + seq!['_'] + o),
        _ => None,
    }
}

/// The ISP label `<country>_<org>` from what serde_json found in a lookup reply (see
/// `isp_label_spec`).
pub fn isp_label(country: Option<Option<String>>, org: Option<Option<String>>) -> (r: Option<
    String,
>)
    ensures
        match r {
            Some(s) => isp_label_spec(opt_view(country), opt_view(org)) == Some(s@),
            None => isp_label_spec(opt_view(country), opt_view(org)) is None,
        },
{
    match (country, org) {
        (Some(Some(c)), Some(Some(o))) => {
            let mut s = c;
            push_char(&mut s, '_');
            s.append(o.as_str());
            Some(s)
        },
        _ => None,
    }
}

/// The view of what serde_json found under a member.
pub open spec fn opt_view(v: Option<Option<String>>) -> Option<Option<Seq<char>>> {
    match v {
        None => None,
        Some(None) => Some(None),
        Some(Some(s)) => Some(Some(s@)),
    }
}

/// The ISP label in a reply of the first lookup service: its `country_code` and `org`.
pub fn isp_from_primary(body: &str) -> (r: Option<String>)
    ensures
        match r {
            Some(s) => isp_label_spec(
                json_string_member(body@, "country_code"@),
                json_string_member(body@, "org"@),
            ) == Some(s@),
            None => isp_label_spec(
                json_string_member(body@, "country_code"@),
                json_string_member(body@, "org"@),
            ) is None,
        },
{
    let country = json_string_field(body, "country_code");
    let org = json_string_field(body, "org");
    isp_label(country, org)
}

/// The ISP label in a reply of the second lookup service: its `countryCode` and `org`,
/// where its `status` is `success`.
pub fn isp_from_secondary(body: &str) -> (r: Option<String>)
    ensures
        match r {
            Some(s) => json_string_member(body@, "status"@) == Some(Some("success"@))
                && isp_label_spec(
                json_string_member(body@, "countryCode"@),
                json_string_member(body@, "org"@),
            ) == Some(s@),
            None => json_string_member(body@, "status"@) != Some(Some("success"@))
                || isp_label_spec(
                json_string_member(body@, "countryCode"@),
                json_string_member(body@, "org"@),
            ) is None,
        },
{
    let status = json_string_field(body, "status");
    let success = match &status {
        Some(Some(s)) => str_eq(s.as_str(), "success"),
        _ => false,
    };
    if !success {
        return None;
    }
    let country = json_string_field(body, "countryCode");
    let org = json_string_field(body, "org");
    isp_label(country, org)
}

/// The ISP label used where neither lookup service answers.
pub fn unknown_isp() -> (r: String)
    ensures
        r@ == "Unknown"@,
{
    "Unknown".to_owned()
}

/// The ISP label a reply of the first lookup service yields, if any.
pub open spec fn primary_label(body: Seq<char>) -> Option<Seq<char>> {
    isp_label_spec(json_string_member(body, "country_code"@), json_string_member(body, "org"@))
}

/// The ISP label a reply of the second lookup service yields, if any.
pub open spec fn secondary_label(body: Seq<char>) -> Option<Seq<char>> {
    if json_string_member(body, "status"@) == Some(Some("success"@)) {
        isp_label_spec(json_string_member(body, "countryCode"@), json_string_member(body, "org"@))
    } else {
        None
    }
}

/// How far a lookup of the ISP label has come.
#[derive(PartialEq, Eq, Structural, Clone, Copy, Debug)]
pub enum IspStage {
    /// Nothing asked yet.
    Start,
    /// The first lookup service was asked; its reply (if one came) is at hand.
    Primary,
    /// The second lookup service was asked; its reply (if one came) is at hand.
    Secondary,
}

/// What a lookup of the ISP label does next.
#[derive(PartialEq, Eq, Clone, Debug)]
pub enum IspAction {
    /// Answer with the cached label.
    UseCached,
    /// Ask the first lookup service.
    FetchPrimary,
    /// Ask the second lookup service.
    FetchSecondary,
    /// Cache this label and answer with it.
    Store(String),
    /// Answer with the label of an unknown ISP, caching nothing.
    GiveUp,
}

/// The next step of an ISP lookup, given the age in seconds of the cached label (if one is
/// cached), how far the lookup has come, and the body of the reply just received (`None`
/// where the request or its reading failed). A fresh cached label is used as is; otherwise
/// the first service is asked, then, where its reply yields no label, the second; a label
/// found is cached, and where neither yields one the lookup gives up.
pub fn isp_step(cache_age: Option<u64>, stage: IspStage, reply: Option<&str>) -> (r: IspAction)
    ensures
        stage == IspStage::Start ==> if cache_age is Some && cache_age->0 < 3600 {
            r == IspAction::UseCached
        } else {
            r == IspAction::FetchPrimary
        },
        stage == IspStage::Primary ==> match reply {
            Some(b) if primary_label(b@) is Some => r matches IspAction::Store(v) && Some(v@)
                == primary_label(b@),
            _ => r == IspAction::FetchSecondary,
        },
        stage == IspStage::Secondary ==> match reply {
            Some(b) if secondary_label(b@) is Some => r matches IspAction::Store(v) && Some(v@)
                == secondary_label(b@),
            _ => r == IspAction::GiveUp,
        },
{
    match stage {
        IspStage::Start => match cache_age {
            Some(age) if isp_cache_is_fresh(age) => IspAction::UseCached,
            _ => IspAction::FetchPrimary,
        },
        IspStage::Primary => match reply {
            Some(body) => match isp_from_primary(body) {
                Some(v) => IspAction::Store(v),
                None => IspAction::FetchSecondary,
            },
            None => IspAction::FetchSecondary,
        },
        IspStage::Secondary => match reply {
            Some(body) => match isp_from_secondary(body) {
                Some(v) => IspAction::Store(v),
                None => IspAction::GiveUp,
            },
            None => IspAction::GiveUp,
        },
    }
}

// ---------------------------------------------------------------------------
// Statistics
// ---------------------------------------------------------------------------

/// The statistics row of a managed process.
pub open spec fn process_row_spec(p: (Seq<char>, u32, bool, bool)) -> JsonSpec {
    jo(
        seq![
            ("name"@, js(p.0)),
            ("pid"@, jn(p.1 as int)),
            ("running"@, JsonSpec::Bool(p.2)),
            ("restart"@, JsonSpec::Bool(p.3)),
        ],
    )
}

/// The statistics document: open WebSocket connections, placeholders for the figures the
/// service does not track, and a row per managed process.
pub open spec fn stats_spec(processes: Seq<(Seq<char>, u32, bool, bool)>, ws_connections: int) -> JsonSpec {
    jo(
        seq![
            ("ws_connections"@, jn(ws_connections)),
            ("total_bytes"@, jn(0)),
            ("goroutines"@, jn(0)),
            (
                "memory"@,
                jo(
                    seq![
                        ("alloc"@, js("unknown"@)),
                        ("total_alloc"@, js("unknown"@)),
                        ("sys"@, js("unknown"@)),
                        ("num_gc"@, jn(0)),
                    ],
                ),
            ),
            ("processes"@, ja(processes.map_values(|p: (Seq<char>, u32, bool, bool)| process_row_spec(p)))),
        ],
    )
}

/// The statistics document for the process snapshot `processes` (see `stats_spec`).
pub fn stats_document(processes: &Vec<(String, u32, bool, bool)>, ws_connections: i64) -> (r: Json)
    ensures
        json_view(r) == stats_spec(
            processes@.map_values(|t: (String, u32, bool, bool)| (t.0@, t.1, t.2, t.3)),
            ws_connections as int,
        ),
{
    let ghost rows = processes@.map_values(|t: (String, u32, bool, bool)| (t.0@, t.1, t.2, t.3));
    let mut items = new_items();
    let mut i: usize = 0;
    while i < processes.len()
        invariant
            rows == processes@.map_values(|t: (String, u32, bool, bool)| (t.0@, t.1, t.2, t.3)),
            i <= processes@.len(),
            json_seq_view(items@) == rows.take(i as int).map_values(
                |p: (Seq<char>, u32, bool, bool)| process_row_spec(p),
            ),
        decreases processes@.len() - i,
    {
        let p = &processes[i];
        let mut m = new_members();
        put_str(&mut m, "name", p.0.as_str());
        put_int(&mut m, "pid", p.1 as i64);
        put_bool(&mut m, "running", p.2);
        put_bool(&mut m, "restart", p.3);
        assert(json_entries_view(m@) =~= seq![
            ("name"@, js(rows[i as int].0)),
            ("pid"@, jn(rows[i as int].1 as int)),
            ("running"@, JsonSpec::Bool(rows[i as int].2)),
            ("restart"@, JsonSpec::Bool(rows[i as int].3)),
        ]);
        push_item(&mut items, Json::Object(m));
        assert(rows.take(i + 1).map_values(|p: (Seq<char>, u32, bool, bool)| process_row_spec(p))
            =~= rows.take(i as int).map_values(
            |p: (Seq<char>, u32, bool, bool)| process_row_spec(p),
        ).push(process_row_spec(rows[i as int])));
        i = i + 1;
    }
    assert(rows.take(processes@.len() as int) =~= rows);
    let mut memory = new_members();
    put_str(&mut memory, "alloc", "unknown");
    put_str(&mut memory, "total_alloc", "unknown");
    put_str(&mut memory, "sys", "unknown");
    put_int(&mut memory, "num_gc", 0);
    assert(json_entries_view(memory@) =~= seq![
        ("alloc"@, js("unknown"@)),
        ("total_alloc"@, js("unknown"@)),
        ("sys"@, js("unknown"@)),
        ("num_gc"@, jn(0)),
    ]);
    let mut m = new_members();
    put_int(&mut m, "ws_connections", ws_connections);
    put_int(&mut m, "total_bytes", 0);
    put_int(&mut m, "goroutines", 0);
    put(&mut m, "memory", Json::Object(memory));
    put(&mut m, "processes", Json::Array(items));
    assert(json_entries_view(m@) =~= seq![
        ("ws_connections"@, jn(ws_connections as int)),
        ("total_bytes"@, jn(0)),
        ("goroutines"@, jn(0)),
        (
            "memory"@,
            jo(
                seq![
                    ("alloc"@, js("unknown"@)),
                    ("total_alloc"@, js("unknown"@)),
                    ("sys"@, js("unknown"@)),
                    ("num_gc"@, jn(0)),
                ],
            ),
        ),
        ("processes"@, ja(rows.map_values(|p: (Seq<char>, u32, bool, bool)| process_row_spec(p)))),
    ]);
    Json::Object(m)
}

/// In the statistics document, `ws_connections` holds the number of open WebSocket
/// connections, `total_bytes`, `goroutines` and `memory` hold the placeholders for figures
/// that are not tracked (0, 0 and `unknown` with no collections), and `processes` holds one row per process, in order; in each row, looked up
/// by name, `name` is the process name, `pid` its id, `running` whether it has a running
/// child and `restart` whether it restarts.
pub proof fn lemma_stats_rows_by_key(
    processes: Seq<(Seq<char>, u32, bool, bool)>,
    ws_connections: int,
)
    ensures
        member(Some(stats_spec(processes, ws_connections)), "ws_connections"@) == Some(
            jn(ws_connections),
        ),
        member(Some(stats_spec(processes, ws_connections)), "total_bytes"@) == Some(jn(0)),
        member(Some(stats_spec(processes, ws_connections)), "goroutines"@) == Some(jn(0)),
        member(Some(stats_spec(processes, ws_connections)), "memory"@) == Some(
            jo(
                seq![
                    ("alloc"@, js("unknown"@)),
                    ("total_alloc"@, js("unknown"@)),
                    ("sys"@, js("unknown"@)),
                    ("num_gc"@, jn(0)),
                ],
            ),
        ),
        match member(Some(stats_spec(processes, ws_connections)), "processes"@) {
            Some(JsonSpec::Array(rows)) => rows.len() == processes.len() && forall|i: int|
                0 <= i < rows.len() ==> {
                    &&& member(Some(#[trigger] rows[i]), "name"@) == Some(js(processes[i].0))
                    &&& member(Some(rows[i]), "pid"@) == Some(jn(processes[i].1 as int))
                    &&& member(Some(rows[i]), "running"@) == Some(JsonSpec::Bool(processes[i].2))
                    &&& member(Some(rows[i]), "restart"@) == Some(JsonSpec::Bool(processes[i].3))
                },
            _ => false,
        },
{
    reveal_strlit("ws_connections");
    reveal_strlit("total_bytes");
    reveal_strlit("goroutines");
    reveal_strlit("memory");
    reveal_strlit("processes");
    reveal_strlit("name");
    reveal_strlit("pid");
    reveal_strlit("running");
    reveal_strlit("restart");
    assert("ws_connections"@.len() == 14 && "total_bytes"@.len() == 11 && "goroutines"@.len()
        == 10);
    assert("memory"@.len() == 6 && "processes"@.len() == 9);
    assert("name"@.len() == 4 && "pid"@.len() == 3 && "running"@.len() == 7);
    assert("restart"@.len() == 7 && "running"@[1] != "restart"@[1]);
    let doc = stats_spec(processes, ws_connections);
    let ms = doc->Object_0;
    lemma_lookup_at(ms, "ws_connections"@, 0);
    lemma_lookup_at(ms, "total_bytes"@, 1);
    lemma_lookup_at(ms, "goroutines"@, 2);
    lemma_lookup_at(ms, "memory"@, 3);
    lemma_lookup_at(ms, "processes"@, 4);
    let rows = processes.map_values(|p: (Seq<char>, u32, bool, bool)| process_row_spec(p));
    assert forall|i: int| 0 <= i < rows.len() implies {
        &&& member(Some(#[trigger] rows[i]), "name"@) == Some(js(processes[i].0))
        &&& member(Some(rows[i]), "pid"@) == Some(jn(processes[i].1 as int))
        &&& member(Some(rows[i]), "running"@) == Some(JsonSpec::Bool(processes[i].2))
        &&& member(Some(rows[i]), "restart"@) == Some(JsonSpec::Bool(processes[i].3))
    } by {
        let p = processes[i];
        let row = seq![
            ("name"@, js(p.0)),
            ("pid"@, jn(p.1 as int)),
            ("running"@, JsonSpec::Bool(p.2)),
            ("restart"@, JsonSpec::Bool(p.3)),
        ];
        assert(rows[i] == jo(row));
        lemma_lookup_at(row, "name"@, 0);
        lemma_lookup_at(row, "pid"@, 1);
        lemma_lookup_at(row, "running"@, 2);
        lemma_lookup_at(row, "restart"@, 3);
    }
}

} // verus!
