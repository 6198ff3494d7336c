use vstd::prelude::*;

use crate::text::str_eq;

verus! {

/// A child process that the service keeps running: its command, whether it is restarted
/// when it exits, the id of its current child, if one is running, and whether its monitor
/// is waiting on that child.
pub struct ManagedProcess {
    pub name: String,
    pub bin_path: String,
    pub args: Vec<String>,
    pub restart: bool,
    pub child: Option<u32>,
    pub waited: bool,
}

/// A managed process with its strings as character sequences.
pub struct ProcessView {
    pub name: Seq<char>,
    pub bin_path: Seq<char>,
    pub args: Seq<Seq<char>>,
    pub restart: bool,
    pub child: Option<u32>,
    pub waited: bool,
}

/// The views of a list of strings.
pub open spec fn strings_view(v: Seq<String>) -> Seq<Seq<char>> {
    v.map_values(|s: String| s@)
}

impl View for ManagedProcess {
    type V = ProcessView;

    open spec fn view(&self) -> ProcessView {
        ProcessView {
            name: self.name@,
            bin_path: self.bin_path@,
            args: strings_view(self.args@),
            restart: self.restart,
            child: self.child,
            waited: self.waited,
        }
    }
}

/// Why a process could not be registered.
#[derive(PartialEq, Eq, Structural, Clone, Copy, Debug)]
pub enum ProcessError {
    /// A process of that name is already managed.
    AlreadyExists,
}

/// What the monitor of a process does once the child it waited for has exited.
#[derive(PartialEq, Eq, Structural, Clone, Copy, Debug)]
pub enum ExitDecision {
    /// The process is no longer managed: stop monitoring.
    Gone,
    /// The process was not to be restarted; it has been dropped from the table.
    Finished,
    /// Wait, then start the command again.
    Restart,
}

/// The managed processes, by name.
pub struct ProcessTable {
    procs: Vec<ManagedProcess>,
}

/// No two entries share a name.
pub open spec fn names_distinct(s: Seq<ProcessView>) -> bool {
    forall|i: int, j: int| 0 <= i < j < s.len() ==> s[i].name != s[j].name
}

/// Some entry is named `name`.
pub open spec fn has_name(s: Seq<ProcessView>, name: Seq<char>) -> bool {
    exists|i: int| 0 <= i < s.len() && s[i].name == name
}

/// The position of the entry named `name` (meaningful where there is one).
pub open spec fn position(s: Seq<ProcessView>, name: Seq<char>) -> int {
    choose|i: int| 0 <= i < s.len() && s[i].name == name
}

/// `s` without the entry named `name` (unchanged where there is none).
pub open spec fn without(s: Seq<ProcessView>, name: Seq<char>) -> Seq<ProcessView> {
    if has_name(s, name) {
        s.remove(position(s, name))
    } else {
        s
    }
}

/// `s` with the child of the entry named `name` set to `child`, and whether it is waited on
/// to `waited`.
pub open spec fn with_state(s: Seq<ProcessView>, name: Seq<char>, child: Option<u32>, waited: bool) -> Seq<
    ProcessView,
> {
    if has_name(s, name) {
        let i = position(s, name);
        s.update(i, ProcessView { child, waited, ..s[i] })
    } else {
        s
    }
}

/// The entry named `name` has a running child that no monitor is waiting on yet.
pub open spec fn waitable(s: Seq<ProcessView>, name: Seq<char>) -> bool {
    has_name(s, name) && s[position(s, name)].child is Some && !s[position(s, name)].waited
}

/// The snapshot row of an entry: name, process id (0 where there is no child), whether a
/// child is running, and whether it restarts.
pub open spec fn snapshot_row(p: ProcessView) -> (Seq<char>, u32, bool, bool) {
    (
        p.name,
        match p.child {
            Some(pid) => pid,
            None => 0,
        },
        p.child is Some,
        p.restart,
    )
}

/// The views of the entries of a list of managed processes.
pub open spec fn procs_view(v: Seq<ManagedProcess>) -> Seq<ProcessView> {
    v.map_values(|p: ManagedProcess| p@)
}

impl View for ProcessTable {
    type V = Seq<ProcessView>;

    closed spec fn view(&self) -> Seq<ProcessView> {
        procs_view(self.procs@)
    }
}

/// Facts about the position of a name in a table whose names are distinct.
pub proof fn lemma_position(s: Seq<ProcessView>, name: Seq<char>, i: int)
    requires
        names_distinct(s),
        0 <= i < s.len(),
        s[i].name == name,
    ensures
        has_name(s, name),
        position(s, name) == i,
{
    let k = position(s, name);
    if k != i {
        if k < i {
            assert(s[k].name != s[i].name);
        } else {
            assert(s[i].name != s[k].name);
        }
    }
}

fn index_of(procs: &Vec<ManagedProcess>, name: &str) -> (r: Option<usize>)
    requires
        names_distinct(procs_view(procs@)),
    ensures
        match r {
            Some(i) => i < procs@.len() && procs_view(procs@)[i as int].name == name@ && position(
                procs_view(procs@),
                name@,
            ) == i,
            None => !has_name(procs_view(procs@), name@),
        },
{
    let ghost s = procs_view(procs@);
    let mut i: usize = 0;
    while i < procs.len()
        invariant
            s == procs_view(procs@),
            names_distinct(s),
            i <= s.len(),
            forall|k: int| 0 <= k < i ==> s[k].name != name@,
        decreases s.len() - i,
    {
        assert(s[i as int] == procs@[i as int]@);
        if str_eq(procs[i].name.as_str(), name) {
            proof {
                lemma_position(s, name@, i as int);
            }
            return Some(i);
        }
        i = i + 1;
    }
    None
}

fn remove_at(procs: &mut Vec<ManagedProcess>, i: usize) -> (r: ManagedProcess)
    requires
        names_distinct(procs_view(old(procs)@)),
        i < old(procs)@.len(),
    ensures
        names_distinct(procs_view(final(procs)@)),
        procs_view(final(procs)@) == procs_view(old(procs)@).remove(i as int),
        r@ == procs_view(old(procs)@)[i as int],
{
    let ghost o = procs_view(procs@);
    let r = procs.remove(i);
    proof {
        let s = procs_view(procs@);
        assert(s =~= o.remove(i as int));
        assert forall|a: int, b: int| 0 <= a < b < s.len() implies s[a].name != s[b].name by {
            let a2 = if a < i { a } else { a + 1 };
            let b2 = if b < i { b } else { b + 1 };
            assert(s[a] == o[a2]);
            assert(s[b] == o[b2]);
        }
    }
    r
}

fn set_state(procs: &mut Vec<ManagedProcess>, i: usize, child: Option<u32>, waited: bool)
    requires
        names_distinct(procs_view(old(procs)@)),
        i < old(procs)@.len(),
    ensures
        names_distinct(procs_view(final(procs)@)),
        procs_view(final(procs)@) == procs_view(old(procs)@).update(
            i as int,
            ProcessView { child, waited, ..procs_view(old(procs)@)[i as int] },
        ),
{
    let ghost o = procs_view(procs@);
    procs[i].child = child;
    procs[i].waited = waited;
    proof {
        let s = procs_view(procs@);
        assert(s =~= o.update(i as int, ProcessView { child, waited, ..o[i as int] }));
        assert forall|a: int, b: int| 0 <= a < b < s.len() implies s[a].name != s[b].name by {
            assert(s[a].name == o[a].name);
            assert(s[b].name == o[b].name);
        }
    }
}

impl ProcessTable {
    /// No two managed processes share a name.
    #[verifier::type_invariant]
    closed spec fn names_are_distinct(self) -> bool {
        names_distinct(procs_view(self.procs@))
    }

    fn take_procs(&mut self) -> (v: Vec<ManagedProcess>)
        ensures
            procs_view(v@) == old(self)@,
            names_distinct(procs_view(v@)),
            final(self)@ == Seq::<ProcessView>::empty(),
    {
        proof {
            use_type_invariant(&*self);
        }
        let mut v: Vec<ManagedProcess> = Vec::new();
        assert(names_distinct(procs_view(v@)));
        std::mem::swap(&mut v, &mut self.procs);
        assert(procs_view(self.procs@) =~= Seq::<ProcessView>::empty());
        v
    }

    /// An empty table.
    pub fn new() -> (r: ProcessTable)
        ensures
            names_distinct(r@),
            r@ == Seq::<ProcessView>::empty(),
    {
        let r = ProcessTable { procs: Vec::new() };
        assert(r@ =~= Seq::<ProcessView>::empty());
        r
    }

    /// The number of managed processes.
    pub fn len(&self) -> (r: usize)
        ensures
            r == self@.len(),
            names_distinct(self@),
    {
        proof {
            use_type_invariant(self);
        }
        self.procs.len()
    }

    /// Whether a process named `name` is managed.
    pub fn contains(&self, name: &str) -> (r: bool)
        ensures
            r == has_name(self@, name@),
            names_distinct(self@),
    {
        proof {
            use_type_invariant(self);
        }
        index_of(&self.procs, name).is_some()
    }

    /// Registers the started process `name` with its command and the id of its child.
    /// Refused, leaving the table unchanged, where a process of that name is already managed.
    pub fn register(
        &mut self,
        name: &str,
        bin_path: String,
        args: Vec<String>,
        restart: bool,
        pid: u32,
    ) -> (r: Result<(), ProcessError>)
        ensures
            names_distinct(final(self)@),
            r is Err <==> has_name(old(self)@, name@),
            r is Err ==> r == Err::<(), ProcessError>(ProcessError::AlreadyExists) && final(self)@
                == old(self)@,
            r is Ok ==> final(self)@ == old(self)@.push(
                ProcessView {
                    name: name@,
                    bin_path: bin_path@,
                    args: strings_view(args@),
                    restart,
                    child: Some(pid),
                    waited: false,
                },
            ),
    {
        let mut procs = self.take_procs();
        if index_of(&procs, name).is_some() {
            self.procs = procs;
            return Err(ProcessError::AlreadyExists);
        }
        let p = ManagedProcess {
            name: name.to_owned(),
            bin_path,
            args,
            restart,
            child: Some(pid),
            waited: false,
        };
        let ghost before = procs_view(procs@);
        procs.push(p);
        proof {
            let s = procs_view(procs@);
            assert(s =~= before.push(p@));
            assert forall|a: int, b: int| 0 <= a < b < s.len() implies s[a].name != s[b].name by {
                if b == before.len() {
                    assert(s[a] == before[a]);
                }
            }
        }
        self.procs = procs;
        Ok(())
    }

    /// The monitor of `name` takes its running child to wait on it: the child's id, and the
    /// entry is marked as waited on, its child and id kept. `None`, the table unchanged, where
    /// the process is no longer managed, has no running child, or is already waited on; that
    /// ends the monitor.
    pub fn take_child(&mut self, name: &str) -> (r: Option<u32>)
        ensures
            names_distinct(final(self)@),
            waitable(old(self)@, name@) ==> r == old(self)@[position(old(self)@, name@)].child
                && final(self)@ == with_state(
                old(self)@,
                name@,
                old(self)@[position(old(self)@, name@)].child,
                true,
            ),
            !waitable(old(self)@, name@) ==> r is None && final(self)@ == old(self)@,
            final(self)@.map_values(|p: ProcessView| snapshot_row(p)) == old(self)@.map_values(
                |p: ProcessView| snapshot_row(p),
            ),
    {
        let mut procs = self.take_procs();
        let ghost o = procs_view(procs@);
        let r = match index_of(&procs, name) {
            None => None,
            Some(i) => {
                if procs[i].waited {
                    None
                } else {
                    match procs[i].child {
                        None => None,
                        Some(pid) => {
                            set_state(&mut procs, i, Some(pid), true);
                            proof {
                                let s = procs_view(procs@);
                                assert(s[i as int] == ProcessView { waited: true, ..o[i as int] });
                                assert(s.map_values(|p: ProcessView| snapshot_row(p)) =~= o.map_values(
                                    |p: ProcessView| snapshot_row(p),
                                ));
                            }
                            Some(pid)
                        },
                    }
                }
            },
        };
        self.procs = procs;
        r
    }

    /// Decides what follows once the child of `name` has exited: nothing where the process
    /// is no longer managed; a restart where it restarts; otherwise it is dropped.
    pub fn on_exit(&mut self, name: &str) -> (r: ExitDecision)
        ensures
            names_distinct(final(self)@),
            !has_name(old(self)@, name@) ==> r == ExitDecision::Gone && final(self)@ == old(self)@,
            has_name(old(self)@, name@) && old(self)@[position(old(self)@, name@)].restart ==> r
                == ExitDecision::Restart && final(self)@ == with_state(old(self)@, name@, None, false),
            has_name(old(self)@, name@) && !old(self)@[position(old(self)@, name@)].restart ==> r
                == ExitDecision::Finished && final(self)@ == without(old(self)@, name@),
    {
        let mut procs = self.take_procs();
        let r = match index_of(&procs, name) {
            None => ExitDecision::Gone,
            Some(i) => {
                if procs[i].restart {
                    set_state(&mut procs, i, None, false);
                    ExitDecision::Restart
                } else {
                    remove_at(&mut procs, i);
                    ExitDecision::Finished
                }
            },
        };
        self.procs = procs;
        r
    }

    /// The command to run again for `name` after the restart delay; `None` where the process
    /// is no longer managed.
    pub fn restart_command(&self, name: &str) -> (r: Option<(String, Vec<String>)>)
        ensures
            match r {
                Some((bin, args)) => has_name(self@, name@) && bin@ == self@[position(
                    self@,
                    name@,
                )].bin_path && strings_view(args@) == self@[position(self@, name@)].args,
                None => !has_name(self@, name@),
            },
    {
        proof {
            use_type_invariant(self);
        }
        match index_of(&self.procs, name) {
            None => None,
            Some(i) => {
                let bin = self.procs[i].bin_path.clone();
                let args = self.procs[i].args.clone();
                proof {
                    assert(strings_view(args@) =~= strings_view(self.procs@[i as int].args@));
                }
                Some((bin, args))
            },
        }
    }

    /// Records the child started again for `name`, which its monitor will wait on next.
    pub fn restarted(&mut self, name: &str, pid: u32)
        ensures
            names_distinct(final(self)@),
            final(self)@ == with_state(old(self)@, name@, Some(pid), false),
    {
        let mut procs = self.take_procs();
        if let Some(i) = index_of(&procs, name) {
            set_state(&mut procs, i, Some(pid), false);
        }
        self.procs = procs;
    }

    /// Drops `name` from the table and hands back its entry, whose running child (if any, and
    /// whether or not its monitor is waiting on it) the caller kills; `None` where no such
    /// process is managed.
    pub fn stop(&mut self, name: &str) -> (r: Option<ManagedProcess>)
        ensures
            names_distinct(final(self)@),
            final(self)@ == without(old(self)@, name@),
            match r {
                Some(p) => has_name(old(self)@, name@) && p@ == old(self)@[position(
                    old(self)@,
                    name@,
                )],
                None => !has_name(old(self)@, name@),
            },
    {
        let mut procs = self.take_procs();
        let r = match index_of(&procs, name) {
            None => None,
            Some(i) => Some(remove_at(&mut procs, i)),
        };
        self.procs = procs;
        r
    }

    /// The names of all managed processes, in table order.
    pub fn names(&self) -> (r: Vec<String>)
        ensures
            strings_view(r@) == self@.map_values(|p: ProcessView| p.name),
    {
        let mut r: Vec<String> = Vec::new();
        let mut i: usize = 0;
        while i < self.procs.len()
            invariant
                i <= self@.len(),
                self@.len() == self.procs@.len(),
                strings_view(r@) == self@.take(i as int).map_values(|p: ProcessView| p.name),
            decreases self@.len() - i,
        {
            let ghost before = r@;
            r.push(self.procs[i].name.clone());
            proof {
                assert(strings_view(r@) =~= strings_view(before).push(self@[i as int].name));
                assert(self@.take(i + 1).map_values(|p: ProcessView| p.name) =~= self@.take(
                    i as int,
                ).map_values(|p: ProcessView| p.name).push(self@[i as int].name));
            }
            i = i + 1;
        }
        assert(self@.take(self@.len() as int) =~= self@);
        r
    }

    /// A snapshot of every managed process: name, process id (0 where none is running),
    /// whether a child is running, waited on or not, and whether it restarts.
    pub fn get_processes(&self) -> (r: Vec<(String, u32, bool, bool)>)
        ensures
            r@.map_values(|t: (String, u32, bool, bool)| (t.0@, t.1, t.2, t.3)) == self@.map_values(
                |p: ProcessView| snapshot_row(p),
            ),
    {
        let mut r: Vec<(String, u32, bool, bool)> = Vec::new();
        let mut i: usize = 0;
        while i < self.procs.len()
            invariant
                i <= self@.len(),
                self@.len() == self.procs@.len(),
                r@.map_values(|t: (String, u32, bool, bool)| (t.0@, t.1, t.2, t.3)) == self@.take(
                    i as int,
                ).map_values(|p: ProcessView| snapshot_row(p)),
            decreases self@.len() - i,
        {
            let p = &self.procs[i];
            let pid: u32 = match p.child {
                Some(id) => id,
                None => 0,
            };
            let ghost before = r@;
            r.push((p.name.clone(), pid, p.child.is_some(), p.restart));
            proof {
                assert(r@.map_values(|t: (String, u32, bool, bool)| (t.0@, t.1, t.2, t.3))
                    =~= before.map_values(|t: (String, u32, bool, bool)| (t.0@, t.1, t.2, t.3)).push(
                    snapshot_row(self@[i as int]),
                ));
                assert(self@.take(i + 1).map_values(|p: ProcessView| snapshot_row(p))
                    =~= self@.take(i as int).map_values(|p: ProcessView| snapshot_row(p)).push(
                    snapshot_row(self@[i as int]),
                ));
            }
            i = i + 1;
        }
        assert(self@.take(self@.len() as int) =~= self@);
        r
    }
}

/// Stopping a process right after registering it gives back the table as it was before the
/// registration: the entry it adds is the one the stop removes, and names stay distinct.
pub proof fn lemma_stop_undoes_register(s: Seq<ProcessView>, p: ProcessView)
    requires
        names_distinct(s),
        !has_name(s, p.name),
    ensures
        names_distinct(s.push(p)),
        has_name(s.push(p), p.name),
        position(s.push(p), p.name) == s.len(),
        without(s.push(p), p.name) == s,
{
    let t = s.push(p);
    assert forall|i: int, j: int| 0 <= i < j < t.len() implies t[i].name != t[j].name by {
        if j == s.len() {
            assert(t[i] == s[i]);
        }
    }
    lemma_position(t, p.name, s.len() as int);
    assert(t.remove(s.len() as int) =~= s);
}

/// A registered process stays reported as running, under its own id, once its monitor
/// takes the child to wait on it; and stopping it then hands that running child back to be
/// killed and leaves the table as it was before the registration.
pub proof fn lemma_waited_process_stays_running(s: Seq<ProcessView>, p: ProcessView)
    requires
        names_distinct(s),
        !has_name(s, p.name),
        p.child is Some,
        !p.waited,
    ensures
        waitable(s.push(p), p.name),
        ({
            let t = with_state(s.push(p), p.name, p.child, true);
            &&& names_distinct(t)
            &&& has_name(t, p.name)
            &&& position(t, p.name) == s.len()
            &&& snapshot_row(t[s.len() as int]) == (p.name, p.child->0, true, p.restart)
            &&& t[s.len() as int].child == p.child
            &&& without(t, p.name) == s
        }),
{
    lemma_stop_undoes_register(s, p);
    let u = s.push(p);
    let t = with_state(u, p.name, p.child, true);
    let q = ProcessView { waited: true, ..p };
    assert(t =~= s.push(q));
    lemma_stop_undoes_register(s, q);
}

} // verus!
