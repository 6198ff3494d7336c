use vstd::prelude::*;

use crate::ext::{push_char, random_lowercase_letter};

verus! {

/// `name` joined onto the directory `dir` as `PathBuf::join` does on Unix: an absolute
/// `name` replaces `dir`; otherwise a `/` separates the two unless `dir` is empty or
/// already ends with one.
pub open spec fn join_path_spec(dir: Seq<char>, name: Seq<char>) -> Seq<char> {
    if name.len() > 0 && name[0] == '/' {
        name
    } else if dir.len() == 0 || dir.last() == '/' {
        dir + name
    } else {
        dir + seq!['/'] + name
    }
}

/// `name` joined onto the directory `dir` (see `join_path_spec`).
pub fn join_path(dir: &str, name: &str) -> (r: String)
    ensures
        r@ == join_path_spec(dir@, name@),
{
    let name_chars = crate::text::chars_of(name);
    if name_chars.len() > 0 && name_chars[0] == '/' {
        return name.to_owned();
    }
    let dir_chars = crate::text::chars_of(dir);
    let mut r = dir.to_owned();
    if !(dir_chars.len() == 0 || dir_chars[dir_chars.len() - 1] == '/') {
        push_char(&mut r, '/');
    }
    r.append(name);
    r
}

/// The directory and the random prefix that name the working files.
pub struct AppFilesView {
    pub dir: Seq<char>,
    pub prefix: Seq<char>,
}

/// The path of the working file `name`: `<prefix>-<name>` inside the directory.
pub open spec fn prefixed_file(files: AppFilesView, name: Seq<char>) -> Seq<char> {
    join_path_spec(files.dir, files.prefix + seq!['-'] + name)
}

/// A prefix made of lower-case ASCII letters.
pub open spec fn is_lowercase_word(s: Seq<char>) -> bool {
    forall|i: int| 0 <= i < s.len() ==> 'a' <= #[trigger] s[i] <= 'z'
}

/// The paths of the working files, each named with a random prefix inside one directory.
pub struct AppFiles {
    dir: String,
    random_prefix: String,
}

impl View for AppFiles {
    type V = AppFilesView;

    closed spec fn view(&self) -> AppFilesView {
        AppFilesView { dir: self.dir@, prefix: self.random_prefix@ }
    }
}

impl AppFiles {
    /// Working files in `base_dir`, named with a prefix of six random lower-case letters.
    pub fn new(base_dir: &str) -> (r: AppFiles)
        ensures
            r@.dir == base_dir@,
            r@.prefix.len() == 6,
            is_lowercase_word(r@.prefix),
    {
        let mut prefix = String::new();
        let mut i: usize = 0;
        while i < 6
            invariant
                i <= 6,
                prefix@.len() == i,
                is_lowercase_word(prefix@),
            decreases 6 - i,
        {
            let c = random_lowercase_letter();
            push_char(&mut prefix, c);
            i = i + 1;
        }
        AppFiles { dir: base_dir.to_owned(), random_prefix: prefix }
    }

    /// Working files in `base_dir`, named with the given prefix.
    pub fn with_prefix(base_dir: &str, prefix: &str) -> (r: AppFiles)
        ensures
            r@.dir == base_dir@,
            r@.prefix == prefix@,
    {
        AppFiles { dir: base_dir.to_owned(), random_prefix: prefix.to_owned() }
    }

    fn path(&self, name: &str) -> (r: String)
        ensures
            r@ == prefixed_file(self@, name@),
    {
        let mut file_name = self.random_prefix.clone();
        push_char(&mut file_name, '-');
        file_name.append(name);
        join_path(self.dir.as_str(), file_name.as_str())
    }

    /// The agent binary (`npm`).
    pub fn npm(&self) -> (r: String)
        ensures
            r@ == prefixed_file(self@, "npm"@),
    {
        self.path("npm")
    }

    /// The proxy core binary (`web`).
    pub fn web(&self) -> (r: String)
        ensures
            r@ == prefixed_file(self@, "web"@),
    {
        self.path("web")
    }

    /// The tunnel client binary (`bot`).
    pub fn bot(&self) -> (r: String)
        ensures
            r@ == prefixed_file(self@, "bot"@),
    {
        self.path("bot")
    }

    /// The v1 agent binary (`php`).
    pub fn php(&self) -> (r: String)
        ensures
            r@ == prefixed_file(self@, "php"@),
    {
        self.path("php")
    }

    /// The monitor script, which carries no prefix.
    pub fn monitor(&self) -> (r: String)
        ensures
            r@ == join_path_spec(self@.dir, "cf-vps-monitor.sh"@),
    {
        join_path(self.dir.as_str(), "cf-vps-monitor.sh")
    }

    /// The encoded subscription (`sub.txt`).
    pub fn sub(&self) -> (r: String)
        ensures
            r@ == prefixed_file(self@, "sub.txt"@),
    {
        self.path("sub.txt")
    }

    /// The node list (`list.txt`).
    pub fn list(&self) -> (r: String)
        ensures
            r@ == prefixed_file(self@, "list.txt"@),
    {
        self.path("list.txt")
    }

    /// The tunnel client's log (`boot.log`).
    pub fn boot_log(&self) -> (r: String)
        ensures
            r@ == prefixed_file(self@, "boot.log"@),
    {
        self.path("boot.log")
    }

    /// The proxy core's configuration (`config.json`).
    pub fn config(&self) -> (r: String)
        ensures
            r@ == prefixed_file(self@, "config.json"@),
    {
        self.path("config.json")
    }

    /// The v1 agent's configuration (`config.yaml`).
    pub fn nezha_config(&self) -> (r: String)
        ensures
            r@ == prefixed_file(self@, "config.yaml"@),
    {
        self.path("config.yaml")
    }

    /// The tunnel credentials (`tunnel.json`).
    pub fn tunnel_json(&self) -> (r: String)
        ensures
            r@ == prefixed_file(self@, "tunnel.json"@),
    {
        self.path("tunnel.json")
    }

    /// The tunnel configuration (`tunnel.yml`).
    pub fn tunnel_yml(&self) -> (r: String)
        ensures
            r@ == prefixed_file(self@, "tunnel.yml"@),
    {
        self.path("tunnel.yml")
    }

    /// Every working file, in the order in which they are removed at exit.
    pub fn all_temp_files(&self) -> (r: Vec<String>)
        ensures
            r@.map_values(|s: String| s@) == all_temp_files_spec(self@),
    {
        let r = vec![
            self.npm(),
            self.web(),
            self.bot(),
            self.php(),
            self.monitor(),
            self.sub(),
            self.list(),
            self.boot_log(),
            self.config(),
            self.nezha_config(),
            self.tunnel_json(),
            self.tunnel_yml(),
        ];
        assert(r@.map_values(|s: String| s@) =~= all_temp_files_spec(self@));
        r
    }
}

/// The paths of every working file.
pub open spec fn all_temp_files_spec(files: AppFilesView) -> Seq<Seq<char>> {
    seq![
        prefixed_file(files, "npm"@),
        prefixed_file(files, "web"@),
        prefixed_file(files, "bot"@),
        prefixed_file(files, "php"@),
        join_path_spec(files.dir, "cf-vps-monitor.sh"@),
        prefixed_file(files, "sub.txt"@),
        prefixed_file(files, "list.txt"@),
        prefixed_file(files, "boot.log"@),
        prefixed_file(files, "config.json"@),
        prefixed_file(files, "config.yaml"@),
        prefixed_file(files, "tunnel.json"@),
        prefixed_file(files, "tunnel.yml"@),
    ]
}

/// A single path component: not empty, and without a `/`.
pub open spec fn is_file_name(n: Seq<char>) -> bool {
    n.len() > 0 && forall|i: int| 0 <= i < n.len() ==> n[i] != '/'
}

/// The names of the working files inside their directory, in the order of
/// `all_temp_files_spec`.
pub open spec fn working_file_names(prefix: Seq<char>) -> Seq<Seq<char>> {
    let p = prefix + seq!['-'];
    seq![
        p + "npm"@,
        p + "web"@,
        p + "bot"@,
        p + "php"@,
        "cf-vps-monitor.sh"@,
        p + "sub.txt"@,
        p + "list.txt"@,
        p + "boot.log"@,
        p + "config.json"@,
        p + "config.yaml"@,
        p + "tunnel.json"@,
        p + "tunnel.yml"@,
    ]
}

proof fn lemma_join_append(dir: Seq<char>, a: Seq<char>, b: Seq<char>)
    requires
        a.len() > 0,
        a[0] != '/',
    ensures
        join_path_spec(dir, a + b) == join_path_spec(dir, a) + b,
        join_path_spec(dir, a).len() >= a.len(),
{
    assert((a + b)[0] == a[0]);
    if dir.len() == 0 || dir.last() == '/' {
        assert(dir + (a + b) =~= (dir + a) + b);
    } else {
        assert(dir + seq!['/'] + (a + b) =~= (dir + seq!['/'] + a) + b);
    }
}

/// Which working file a path names, read from the characters that tell them apart: the
/// last one, and the length and first character of what follows `<prefix>-`.
spec fn working_file_index(f: AppFilesView, path: Seq<char>) -> int {
    let base = join_path_spec(f.dir, f.prefix + seq!['-']).len() as int;
    let n = path.len() - base;
    let c = path[base];
    let l = path.last();
    if l == 'h' {
        4
    } else if n == 3 && c == 'n' {
        0
    } else if n == 3 && c == 'w' {
        1
    } else if n == 3 && c == 'b' {
        2
    } else if n == 3 {
        3
    } else if n == 7 {
        5
    } else if n == 8 && c == 'l' {
        6
    } else if n == 8 {
        7
    } else if n == 11 && c == 'c' && l == 'n' {
        8
    } else if n == 11 && c == 'c' {
        9
    } else if n == 11 {
        10
    } else {
        11
    }
}

/// With a prefix of lower-case letters, the working files are twelve distinct paths, each a
/// single file name joined onto the working directory.
pub proof fn lemma_working_files_distinct_in_dir(f: AppFilesView)
    requires
        is_lowercase_word(f.prefix),
    ensures
        all_temp_files_spec(f).len() == 12,
        forall|k: int|
            0 <= k < 12 ==> #[trigger] all_temp_files_spec(f)[k] == join_path_spec(
                f.dir,
                working_file_names(f.prefix)[k],
            ) && is_file_name(working_file_names(f.prefix)[k]),
        forall|i: int, j: int|
            0 <= i < 12 && 0 <= j < 12 && i != j ==> #[trigger] all_temp_files_spec(f)[i]
                != #[trigger] all_temp_files_spec(f)[j],
{
    reveal_strlit("npm");
    reveal_strlit("web");
    reveal_strlit("bot");
    reveal_strlit("php");
    reveal_strlit("cf-vps-monitor.sh");
    reveal_strlit("sub.txt");
    reveal_strlit("list.txt");
    reveal_strlit("boot.log");
    reveal_strlit("config.json");
    reveal_strlit("config.yaml");
    reveal_strlit("tunnel.json");
    reveal_strlit("tunnel.yml");
    let p = f.prefix + seq!['-'];
    let paths = all_temp_files_spec(f);
    let names = working_file_names(f.prefix);
    let suffixes = seq![
        "npm"@,
        "web"@,
        "bot"@,
        "php"@,
        "cf-vps-monitor.sh"@,
        "sub.txt"@,
        "list.txt"@,
        "boot.log"@,
        "config.json"@,
        "config.yaml"@,
        "tunnel.json"@,
        "tunnel.yml"@,
    ];
    assert(p.len() > 0 && p[0] != '/') by {
        if f.prefix.len() > 0 {
            assert('a' <= f.prefix[0] <= 'z');
        }
    }
    assert forall|i: int| 0 <= i < p.len() implies p[i] != '/' by {
        if i < f.prefix.len() {
            assert('a' <= f.prefix[i] <= 'z');
        }
    }
    let base = join_path_spec(f.dir, p).len() as int;
    assert forall|k: int| 0 <= k < 12 implies #[trigger] paths[k] == join_path_spec(
        f.dir,
        names[k],
    ) && is_file_name(names[k]) && working_file_index(f, paths[k]) == k by {
        let x = suffixes[k];
        assert(x.len() > 0);
        assert forall|i: int| 0 <= i < x.len() implies x[i] != '/' by {}
        if k == 4 {
            assert(names[k] == x);
            assert(paths[k].last() == x.last());
        } else {
            assert(names[k] == p + x);
            lemma_join_append(f.dir, p, x);
            let path = paths[k];
            assert(path == join_path_spec(f.dir, p) + x);
            assert(path.len() - base == x.len());
            assert(path[base] == x[0]);
            assert(path.last() == x.last());
            assert forall|i: int| 0 <= i < names[k].len() implies names[k][i] != '/' by {
                if i >= p.len() {
                    assert(names[k][i] == x[i - p.len()]);
                }
            }
        }
    }
    assert forall|i: int, j: int|
        0 <= i < 12 && 0 <= j < 12 && i != j implies #[trigger] paths[i] != #[trigger] paths[j] by {
        if paths[i] == paths[j] {
            assert(working_file_index(f, paths[i]) == working_file_index(f, paths[j]));
        }
    }
}

} // verus!
