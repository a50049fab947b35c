//! The route table: an exact-match mapping from URL path to handler script
//! path.
//!
//! The table is populated once, while the configuration script runs, and is
//! only read afterwards. Keys are unique; registering a path again silently
//! replaces the earlier script. The table's mathematical view is a
//! `Map<Seq<char>, Seq<char>>` from path to script path.

use vstd::prelude::*;

verus! {

/// The view of a sequence of route entries: later entries win.
pub open spec fn route_map(entries: Seq<(String, String)>) -> Map<Seq<char>, Seq<char>>
    decreases entries.len(),
{
    if entries.len() == 0 {
        Map::empty()
    } else {
        route_map(entries.drop_last()).insert(entries.last().0@, entries.last().1@)
    }
}

/// No two entries share a path.
pub open spec fn unique_route_keys(entries: Seq<(String, String)>) -> bool {
    forall|i: int, j: int|
        0 <= i < j < entries.len() ==> entries[i].0@ != entries[j].0@
}

/// A key is in the route map exactly when some entry carries it.
proof fn lemma_route_map_domain(s: Seq<(String, String)>, k: Seq<char>)
    ensures
        route_map(s).contains_key(k) <==> exists|i: int| 0 <= i < s.len() && s[i].0@ == k,
    decreases s.len(),
{
    if s.len() > 0 {
        lemma_route_map_domain(s.drop_last(), k);
        let n = s.len() - 1;
        if s[n].0@ == k {
            assert(0 <= n < s.len() && s[n].0@ == k);
        } else {
            if exists|i: int| 0 <= i < s.len() && s[i].0@ == k {
                let i = choose|i: int| 0 <= i < s.len() && s[i].0@ == k;
                assert(0 <= i < s.drop_last().len() && s.drop_last()[i].0@ == k);
            }
            if exists|i: int| 0 <= i < s.drop_last().len() && s.drop_last()[i].0@ == k {
                let i = choose|i: int| 0 <= i < s.drop_last().len() && s.drop_last()[i].0@ == k;
                assert(0 <= i < s.len() && s[i].0@ == k);
            }
        }
    }
}

/// With unique keys, the map sends each entry's path to that entry's script.
proof fn lemma_route_map_at(s: Seq<(String, String)>, i: int)
    requires
        unique_route_keys(s),
        0 <= i < s.len(),
    ensures
        route_map(s).contains_key(s[i].0@),
        route_map(s)[s[i].0@] == s[i].1@,
    decreases s.len(),
{
    let n = s.len() - 1;
    if i < n {
        assert(s[i].0@ != s[n].0@);
        assert(s.drop_last()[i] == s[i]);
        lemma_route_map_at(s.drop_last(), i);
    }
}

/// Replacing the entry that holds a key updates the map at that key alone.
proof fn lemma_route_map_update(s: Seq<(String, String)>, i: int, e: (String, String))
    requires
        unique_route_keys(s),
        0 <= i < s.len(),
        s[i].0@ == e.0@,
    ensures
        route_map(s.update(i, e)) == route_map(s).insert(e.0@, e.1@),
    decreases s.len(),
{
    let t = s.update(i, e);
    let n = s.len() - 1;
    if i == n {
        assert(t.drop_last() =~= s.drop_last());
        assert(t.last() == e);
        assert(route_map(s.drop_last()).insert(s[n].0@, s[n].1@).insert(e.0@, e.1@) =~= route_map(
            s.drop_last(),
        ).insert(e.0@, e.1@));
    } else {
        assert(t.drop_last() =~= s.drop_last().update(i, e));
        assert(t.last() == s.last());
        assert(s.drop_last()[i] == s[i]);
        lemma_route_map_update(s.drop_last(), i, e);
        assert(s[i].0@ != s[n].0@);
        assert(route_map(s.drop_last()).insert(e.0@, e.1@).insert(s[n].0@, s[n].1@) =~= route_map(
            s.drop_last(),
        ).insert(s[n].0@, s[n].1@).insert(e.0@, e.1@));
    }
}

/// The error a registration raises when the named handler script is missing.
#[derive(Debug, PartialEq, Eq)]
pub struct ConfigError {
    /// The script path that did not resolve to a file.
    pub missing_script: String,
}

impl ConfigError {
    /// The text the configuration failure reports.
    pub fn message(&self) -> (r: String)
        ensures
            r@ == "Handler script not found: "@ + self.missing_script@,
    {
        let mut s = "Handler script not found: ".to_owned();
        s.append(self.missing_script.as_str());
        s
    }
}

/// The shared mapping from URL path to handler script path.
pub struct RouteTable {
    entries: Vec<(String, String)>,
}

impl View for RouteTable {
    type V = Map<Seq<char>, Seq<char>>;

    closed spec fn view(&self) -> Map<Seq<char>, Seq<char>> {
        route_map(self.entries@)
    }
}

/// Which way an incoming request goes: to a handler script, or to the fixed
/// not-found response.
#[derive(Debug, PartialEq, Eq)]
pub enum RouteDecision {
    /// The path is registered; run the script at this path.
    Execute(String),
    /// The path is not registered; answer 404.
    NotFound,
}

impl RouteTable {
    /// The table's entries carry pairwise distinct paths.
    pub closed spec fn wf(self) -> bool {
        unique_route_keys(self.entries@)
    }

    /// An empty table.
    pub fn new() -> (r: RouteTable)
        ensures
            r.wf(),
            r@ == Map::<Seq<char>, Seq<char>>::empty(),
    {
        RouteTable { entries: Vec::new() }
    }

    /// Records `script` under `path`; a later registration for the same path
    /// silently replaces the earlier one.
    pub fn register(&mut self, path: String, script: String)
        requires
            old(self).wf(),
        ensures
            final(self).wf(),
            final(self)@ == old(self)@.insert(path@, script@),
    {
        let ghost pview = path@;
        let ghost sview = script@;
        let ghost s0 = self.entries@;
        let n = self.entries.len();
        let mut idx: usize = n;
        let mut i: usize = 0;
        while i < n
            invariant
                i <= n,
                n == self.entries@.len(),
                self == old(self),
                pview == path@,
                idx == n || (idx < n && self.entries@[idx as int].0@ == pview),
                idx == n ==> forall|j: int| 0 <= j < i ==> self.entries@[j].0@ != pview,
            decreases n - i,
        {
            if idx == n && self.entries[i].0 == path {
                idx = i;
            }
            i += 1;
        }
        if idx < n {
            self.entries.set(idx, (path, script));
            proof {
                lemma_route_map_update(s0, idx as int, self.entries@[idx as int]);
                assert forall|a: int, b: int|
                    0 <= a < b < self.entries@.len() implies self.entries@[a].0@
                    != self.entries@[b].0@ by {
                    assert(s0[a].0@ != s0[b].0@);
                }
            }
        } else {
            self.entries.push((path, script));
            proof {
                assert(self.entries@.drop_last() =~= s0);
                assert(self.entries@.last().0@ == pview);
                assert(route_map(self.entries@) == route_map(s0).insert(pview, sview));
                assert forall|a: int, b: int|
                    0 <= a < b < self.entries@.len() implies self.entries@[a].0@
                    != self.entries@[b].0@ by {
                    if b < self.entries@.len() - 1 {
                        assert(s0[a].0@ != s0[b].0@);
                    } else {
                        assert(self.entries@[a].0@ != pview);
                    }
                }
            }
        }
    }

    /// Records `script_path` under `path` when the handler script exists;
    /// otherwise leaves the table unchanged and reports the configuration
    /// error, so that a missing handler is caught at load time, not at
    /// request time.
    pub fn register_checked(&mut self, path: String, script_path: String, script_exists: bool) -> (r:
        Result<(), ConfigError>)
        requires
            old(self).wf(),
        ensures
            final(self).wf(),
            script_exists ==> r is Ok && final(self)@ == old(self)@.insert(path@, script_path@),
            !script_exists ==> *final(self) == *old(self),
            !script_exists ==> (r matches Err(e) && e.missing_script@ == script_path@),
    {
        if script_exists {
            self.register(path, script_path);
            Ok(())
        } else {
            Err(ConfigError { missing_script: script_path })
        }
    }

    /// Looks a path up by exact, case-sensitive match.
    pub fn lookup(&self, path: &String) -> (r: Option<String>)
        requires
            self.wf(),
        ensures
            match r {
                Some(s) => self@.contains_key(path@) && s@ == self@[path@],
                None => !self@.contains_key(path@),
            },
    {
        let n = self.entries.len();
        let mut i: usize = 0;
        while i < n
            invariant
                i <= n,
                n == self.entries@.len(),
                self.wf(),
                forall|j: int| 0 <= j < i ==> self.entries@[j].0@ != path@,
            decreases n - i,
        {
            if self.entries[i].0 == *path {
                proof {
                    lemma_route_map_at(self.entries@, i as int);
                }
                return Some(self.entries[i].1.clone());
            }
            i += 1;
        }
        proof {
            lemma_route_map_domain(self.entries@, path@);
        }
        None
    }

    /// Applies a whole run of registrations, in order.
    pub fn register_all(&mut self, regs: &Vec<(String, String)>)
        requires
            old(self).wf(),
        ensures
            final(self).wf(),
            final(self)@ == apply_registrations(old(self)@, regs@),
    {
        let n = regs.len();
        let mut i: usize = 0;
        while i < n
            invariant
                i <= n,
                n == regs@.len(),
                self.wf(),
                self@ == apply_registrations(old(self)@, regs@.take(i as int)),
            decreases n - i,
        {
            self.register(regs[i].0.clone(), regs[i].1.clone());
            proof {
                assert(regs@.take(i + 1 as int).drop_last() =~= regs@.take(i as int));
                assert(regs@.take(i + 1 as int).last() == regs@[i as int]);
            }
            i += 1;
        }
        proof {
            assert(regs@.take(n as int) =~= regs@);
        }
    }
}

/// The route map a run of registrations leaves behind, starting from `m`:
/// each registration inserts its path, later ones overwriting earlier ones.
pub open spec fn apply_registrations(
    m: Map<Seq<char>, Seq<char>>,
    regs: Seq<(String, String)>,
) -> Map<Seq<char>, Seq<char>>
    decreases regs.len(),
{
    if regs.len() == 0 {
        m
    } else {
        apply_registrations(m, regs.drop_last()).insert(regs.last().0@, regs.last().1@)
    }
}

/// Law: loading a deterministic configuration again is idempotent — the same
/// registrations, applied from an empty table, leave the same route mapping,
/// even though duplicate paths overwrite silently rather than error.
pub proof fn lemma_reload_idempotent(t1: RouteTable, t2: RouteTable, regs: Seq<(String, String)>)
    requires
        t1@ == apply_registrations(Map::empty(), regs),
        t2@ == apply_registrations(Map::empty(), regs),
    ensures
        t1@ == t2@,
{
}

/// Law: the last registration for a path wins silently.
pub proof fn lemma_last_registration_wins(
    m: Map<Seq<char>, Seq<char>>,
    regs: Seq<(String, String)>,
    reg: (String, String),
)
    ensures
        apply_registrations(m, regs.push(reg)) == apply_registrations(m, regs).insert(
            reg.0@,
            reg.1@,
        ),
{
    assert(regs.push(reg).drop_last() =~= regs);
    assert(regs.push(reg).last() == reg);
}

/// Routes one request: a registered path runs its script, any other path is
/// answered with the fixed not-found response.
pub fn route_request(table: &RouteTable, path: &String) -> (r: RouteDecision)
    requires
        table.wf(),
    ensures
        table@.contains_key(path@) ==> (r matches RouteDecision::Execute(s) && s@
            == table@[path@]),
        !table@.contains_key(path@) ==> r is NotFound,
{
    match table.lookup(path) {
        Some(script) => RouteDecision::Execute(script),
        None => RouteDecision::NotFound,
    }
}

} // verus!
