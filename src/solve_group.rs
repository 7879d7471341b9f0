//! Solve groups: environments that are resolved together, with their merged
//! requirements, their features and the union of their dependencies.

use crate::system_requirements::{MergeError, SystemRequirements};
use crate::workspace::{dedup_names, Environment, Workspace};
use vstd::prelude::*;

verus! {

/// A solve group of a workspace, borrowed. Two views are equal when they
/// name the same group of the same workspace.
#[derive(Debug, Clone, Copy)]
pub struct SolveGroup<'p> {
    pub workspace: &'p Workspace,
    pub index: usize,
}

impl<'p> PartialEq for SolveGroup<'p> {
    fn eq(&self, other: &SolveGroup<'p>) -> (r: bool) {
        self.workspace.id == other.workspace.id && self.index == other.index
    }
}

impl<'p> vstd::std_specs::cmp::PartialEqSpecImpl for SolveGroup<'p> {
    open spec fn obeys_eq_spec() -> bool {
        true
    }

    open spec fn eq_spec(&self, other: &SolveGroup<'p>) -> bool {
        self.workspace.id == other.workspace.id && self.index == other.index
    }
}

impl<'p> Eq for SolveGroup<'p> {}

impl<'p> SolveGroup<'p> {
    pub open spec fn wf(&self) -> bool {
        self.workspace.wf() && self.index < self.workspace.solve_groups@.len()
    }

    /// The name of the group.
    pub fn name(&self) -> (r: &'p str)
        requires
            self.wf(),
        ensures
            r@ == self.workspace.solve_groups@[self.index as int].name@,
    {
        self.workspace.solve_groups[self.index].name.as_str()
    }

    /// The directory where the group keeps its environment: the group's name
    /// joined to the workspace's solve-group directory.
    pub fn dir(&self) -> (r: String)
        requires
            self.wf(),
        ensures
            r@ == self.workspace.solve_group_environments_dir@ + "/"@
                + self.workspace.solve_groups@[self.index as int].name@,
    {
        let mut d = self.workspace.solve_group_environments_dir.clone();
        d.append("/");
        d.append(self.name());
        d
    }

    /// The environments of the group, in declaration order.
    pub fn environments(&self) -> (r: Vec<Environment<'p>>)
        requires
            self.wf(),
        ensures
            r@.map_values(|e: Environment<'p>| e.index) == self.workspace.members(self.index),
            forall|k: int| 0 <= k < r@.len() ==> (#[trigger] r@[k]).workspace == self.workspace && r@[k].wf(),
    {
        let ws = self.workspace;
        let mut r: Vec<Environment<'p>> = Vec::new();
        let mut i: usize = 0;
        while i < ws.environments.len()
            invariant
                self.wf(),
                ws == self.workspace,
                i <= ws.environments@.len(),
                r@.map_values(|e: Environment<'p>| e.index) == ws.members_below(self.index, i as nat),
                forall|k: int| 0 <= k < r@.len() ==> (#[trigger] r@[k]).workspace == ws && r@[k].wf(),
            decreases ws.environments@.len() - i,
        {
            let ghost before = r@;
            if ws.environments[i].solve_group == Some(self.index) {
                r.push(Environment { workspace: ws, index: i });
                assert(r@.map_values(|e: Environment<'p>| e.index) =~= before.map_values(|e: Environment<'p>| e.index).push(i));
            }
            i = i + 1;
        }
        r
    }

    /// The indices of the group's features: those of its environments in
    /// declaration order, each environment's in its own order, keeping only
    /// the first feature of each name.
    pub fn features(&self) -> (r: Vec<usize>)
        requires
            self.wf(),
        ensures
            r@ == self.workspace.group_features(self.index),
            forall|k: int| 0 <= k < r@.len() ==> #[trigger] r@[k] < self.workspace.features@.len(),
    {
        let all = self.feature_sequence();
        dedup_features(self.workspace, &all)
    }

    /// The features of the group's environments, one environment after the
    /// other, repeats included.
    fn feature_sequence(&self) -> (r: Vec<usize>)
        requires
            self.wf(),
        ensures
            r@ == self.workspace.features_of(self.workspace.members(self.index)),
            forall|k: int| 0 <= k < r@.len() ==> #[trigger] r@[k] < self.workspace.features@.len(),
    {
        let ws = self.workspace;
        let envs = self.environments();
        let ghost ms = envs@.map_values(|e: Environment<'p>| e.index);
        let mut r: Vec<usize> = Vec::new();
        let mut i: usize = 0;
        proof {
            assert(ms.take(0) =~= Seq::<usize>::empty());
        }
        while i < envs.len()
            invariant
                self.wf(),
                ws == self.workspace,
                i <= envs@.len(),
                ms == envs@.map_values(|e: Environment<'p>| e.index),
                forall|k: int| 0 <= k < envs@.len() ==> (#[trigger] envs@[k]).workspace == ws && envs@[k].wf(),
                r@ == ws.features_of(ms.take(i as int)),
                forall|k: int| 0 <= k < r@.len() ==> #[trigger] r@[k] < ws.features@.len(),
            decreases envs@.len() - i,
        {
            let fs = envs[i].features();
            proof {
                assert(ms.take(i + 1).drop_last() =~= ms.take(i as int));
            }
            let ghost start = r@;
            let mut j: usize = 0;
            while j < fs.len()
                invariant
                    self.wf(),
                    envs@[i as int].wf(),
                    envs@[i as int].workspace == ws,
                    j <= fs@.len(),
                    fs@ == ws.env_features(envs@[i as int].index),
                    r@ == start + fs@.take(j as int),
                    forall|k: int| 0 <= k < start.len() ==> #[trigger] start[k] < ws.features@.len(),
                decreases fs@.len() - j,
            {
                r.push(fs[j]);
                proof {
                    assert(fs@.take(j + 1) =~= fs@.take(j as int).push(fs@[j as int]));
                }
                j = j + 1;
            }
            proof {
                assert(fs@.take(fs@.len() as int) =~= fs@);
                ws.lemma_env_features_exist(envs@[i as int].index);
                assert forall|k: int| 0 <= k < r@.len() implies #[trigger] r@[k] < ws.features@.len() by {
                    if k >= start.len() {
                        assert(r@[k] == fs@[k - start.len()]);
                    }
                }
            }
            i = i + 1;
        }
        proof {
            assert(ms.take(envs@.len() as int) =~= ms);
        }
        r
    }

    /// The system requirements of the group: those of all its features
    /// combined, keeping the highest version of each field.
    pub fn system_requirements(&self) -> (r: Result<SystemRequirements, MergeError>)
        requires
            self.wf(),
        ensures
            r is Ok <==> self.workspace.group_requirements(self.index) is Some,
            r matches Ok(m) ==> self.workspace.group_requirements(self.index) == Some(m@),
    {
        let fs = self.features();
        crate::workspace::combine_requirements(self.workspace, &fs)
    }

    /// The names of the packages that the group's environments depend on,
    /// each once, in the order in which they are first met.
    pub fn combined_dependencies(&self) -> (r: Vec<String>)
        requires
            self.wf(),
        ensures
            r@.map_values(|s: String| s@) == dedup_names(
                self.workspace.dependencies_of(self.workspace.group_features(self.index)),
            ),
    {
        let fs = self.features();
        let ws = self.workspace;
        let mut names: Vec<String> = Vec::new();
        let mut i: usize = 0;
        proof {
            assert(fs@.take(0) =~= Seq::<usize>::empty());
        }
        while i < fs.len()
            invariant
                i <= fs@.len(),
                forall|k: int| 0 <= k < fs@.len() ==> #[trigger] fs@[k] < ws.features@.len(),
                names@.map_values(|s: String| s@) == ws.dependencies_of(fs@.take(i as int)),
            decreases fs@.len() - i,
        {
            let deps = &ws.features[fs[i]].dependencies;
            proof {
                assert(fs@.take(i + 1).drop_last() =~= fs@.take(i as int));
            }
            let ghost start = names@.map_values(|s: String| s@);
            let mut j: usize = 0;
            while j < deps.len()
                invariant
                    j <= deps@.len(),
                    names@.map_values(|s: String| s@) == start + deps@.take(j as int).map_values(|s: String| s@),
                decreases deps@.len() - j,
            {
                let ghost nv = names@.map_values(|s: String| s@);
                names.push(deps[j].clone());
                proof {
                    assert(names@.map_values(|s: String| s@) =~= nv.push(deps@[j as int]@));
                    assert(deps@.take(j + 1) =~= deps@.take(j as int).push(deps@[j as int]));
                    assert(deps@.take(j + 1).map_values(|s: String| s@) =~= deps@.take(j as int).map_values(|s: String| s@).push(deps@[j as int]@));
                    assert(names@.map_values(|s: String| s@) =~= start + deps@.take(j + 1).map_values(|s: String| s@));
                }
                j = j + 1;
            }
            proof {
                assert(deps@.take(deps@.len() as int) =~= deps@);
            }
            i = i + 1;
        }
        proof {
            assert(fs@.take(fs@.len() as int) =~= fs@);
        }
        dedup_strings(&names)
    }
}

/// Keeps the first feature of each name, in order.
pub fn dedup_features(ws: &Workspace, s: &Vec<usize>) -> (r: Vec<usize>)
    requires
        forall|k: int| 0 <= k < s@.len() ==> #[trigger] s@[k] < ws.features@.len(),
    ensures
        r@ == ws.dedup_features(s@),
        forall|k: int| 0 <= k < r@.len() ==> #[trigger] r@[k] < ws.features@.len(),
{
    let mut r: Vec<usize> = Vec::new();
    let mut i: usize = 0;
    proof {
        assert(s@.take(0) =~= Seq::<usize>::empty());
    }
    while i < s.len()
        invariant
            i <= s@.len(),
            forall|k: int| 0 <= k < s@.len() ==> #[trigger] s@[k] < ws.features@.len(),
            r@ == ws.dedup_features(s@.take(i as int)),
            forall|k: int| 0 <= k < r@.len() ==> #[trigger] r@[k] < ws.features@.len(),
        decreases s@.len() - i,
    {
        let f = s[i];
        proof {
            assert(s@.take(i + 1).drop_last() =~= s@.take(i as int));
        }
        let mut seen = false;
        let mut j: usize = 0;
        while j < r.len()
            invariant
                j <= r@.len(),
                f < ws.features@.len(),
                forall|k: int| 0 <= k < r@.len() ==> #[trigger] r@[k] < ws.features@.len(),
                seen <==> exists|k: int| 0 <= k < j && ws.feature_name(#[trigger] r@[k]) == ws.feature_name(f),
            decreases r@.len() - j,
        {
            if ws.features[r[j]].name == ws.features[f].name {
                seen = true;
            }
            j = j + 1;
        }
        if !seen {
            r.push(f);
        }
        i = i + 1;
    }
    proof {
        assert(s@.take(s@.len() as int) =~= s@);
    }
    r
}

/// Keeps the first of each name, in order.
pub fn dedup_strings(s: &Vec<String>) -> (r: Vec<String>)
    ensures
        r@.map_values(|x: String| x@) == dedup_names(s@.map_values(|x: String| x@)),
{
    let ghost sv = s@.map_values(|x: String| x@);
    let mut r: Vec<String> = Vec::new();
    let mut i: usize = 0;
    proof {
        assert(sv.take(0) =~= Seq::<Seq<char>>::empty());
    }
    while i < s.len()
        invariant
            i <= s@.len(),
            sv == s@.map_values(|x: String| x@),
            r@.map_values(|x: String| x@) == dedup_names(sv.take(i as int)),
        decreases s@.len() - i,
    {
        let ghost rv = r@.map_values(|x: String| x@);
        proof {
            assert(sv.take(i + 1).drop_last() =~= sv.take(i as int));
        }
        let mut seen = false;
        let mut j: usize = 0;
        while j < r.len()
            invariant
                i < s@.len(),
                j <= r@.len(),
                rv == r@.map_values(|x: String| x@),
                seen <==> exists|k: int| 0 <= k < j && rv[k] == s@[i as int]@,
            decreases r@.len() - j,
        {
            assert(rv[j as int] == r@[j as int]@);
            if r[j] == s[i] {
                seen = true;
            }
            j = j + 1;
        }
        if !seen {
            r.push(s[i].clone());
            assert(r@.map_values(|x: String| x@) =~= rv.push(s@[i as int]@));
        } else {
            assert(rv.contains(sv.take(i + 1).last()));
        }
        i = i + 1;
    }
    proof {
        assert(sv.take(s@.len() as int) =~= sv);
    }
    r
}


proof fn lemma_members_below(ws: &Workspace, g: usize, n: nat)
    requires
        n <= ws.environments@.len(),
        ws.environments@.len() <= usize::MAX,
    ensures
        forall|k: int|
            0 <= k < ws.members_below(g, n).len() ==> #[trigger] ws.members_below(g, n)[k] < n
                && ws.environments@[ws.members_below(g, n)[k] as int].solve_group == Some(g),
        forall|i: int, j: int|
            #![trigger ws.members_below(g, n)[i], ws.members_below(g, n)[j]]
            0 <= i < j < ws.members_below(g, n).len() ==> ws.members_below(g, n)[i]
                < ws.members_below(g, n)[j],
        forall|e: usize|
            e < n && ws.environments@[e as int].solve_group == Some(g) ==> #[trigger] ws.members_below(g, n).contains(e),
    decreases n,
{
    if n > 0 {
        lemma_members_below(ws, g, (n - 1) as nat);
        let rest = ws.members_below(g, (n - 1) as nat);
        let last = (n - 1) as usize;
        assert(last as int == n - 1);
        if ws.environments@[n - 1].solve_group == Some(g) {
            let m = rest.push(last);
            assert(ws.members_below(g, n) == m);
            assert forall|k: int| 0 <= k < m.len() implies #[trigger] m[k] < n
                && ws.environments@[m[k] as int].solve_group == Some(g) by {
                if k < rest.len() {
                    assert(m[k] == rest[k]);
                }
            }
            assert forall|i: int, j: int| #![trigger m[i], m[j]] 0 <= i < j < m.len() implies m[i] < m[j] by {
                assert(m[i] == rest[i]);
                if j < rest.len() {
                    assert(m[j] == rest[j]);
                } else {
                    assert(rest[i] < n - 1);
                }
            }
            assert forall|e: usize| e < n && ws.environments@[e as int].solve_group == Some(g) implies #[trigger] m.contains(e) by {
                if e < n - 1 {
                    assert(rest.contains(e));
                    let k = choose|k: int| 0 <= k < rest.len() && rest[k] == e;
                    assert(m[k] == e);
                } else {
                    assert(m[rest.len() as int] == e);
                }
            }
        } else {
            assert(ws.members_below(g, n) == rest);
            assert forall|e: usize| e < n && ws.environments@[e as int].solve_group == Some(g) implies #[trigger] rest.contains(e) by {
                if e == n - 1 {
                    assert(e == last);
                }
            }
        }
    }
}

/// Each environment belongs to the group that it names and to no other: it
/// is among group `g`'s environments exactly when it names `g`, and a
/// group's environments come in declaration order, none twice.
pub proof fn lemma_solve_groups_partition(ws: &Workspace, e: usize, g: usize)
    requires
        ws.wf(),
        e < ws.environments@.len(),
    ensures
        ws.members(g).contains(e) <==> ws.environments@[e as int].solve_group == Some(g),
        forall|i: int, j: int|
            #![trigger ws.members(g)[i], ws.members(g)[j]]
            0 <= i < j < ws.members(g).len() ==> ws.members(g)[i] < ws.members(g)[j],
{
    lemma_members_below(ws, g, ws.environments@.len());
    if ws.members(g).contains(e) {
        let k = choose|k: int| 0 <= k < ws.members(g).len() && ws.members(g)[k] == e;
        assert(ws.members(g)[k] < ws.environments@.len());
    }
}

#[verifier::rlimit(50)]
proof fn lemma_dedup_features(ws: &Workspace, s: Seq<usize>)
    ensures
        forall|i: int, j: int|
            #![trigger ws.dedup_features(s)[i], ws.dedup_features(s)[j]]
            0 <= i < j < ws.dedup_features(s).len() ==> ws.feature_name(ws.dedup_features(s)[i])
                != ws.feature_name(ws.dedup_features(s)[j]),
        forall|k: int| #![trigger s[k]] 0 <= k < s.len() ==> exists|m: int|
            0 <= m < ws.dedup_features(s).len() && ws.feature_name(#[trigger] ws.dedup_features(s)[m])
                == ws.feature_name(s[k]),
        forall|m: int| 0 <= m < ws.dedup_features(s).len() ==> s.contains(#[trigger] ws.dedup_features(s)[m]),
    decreases s.len(),
{
    if s.len() > 0 {
        let p = s.drop_last();
        lemma_dedup_features(ws, p);
        let d = ws.dedup_features(p);
        let r = ws.dedup_features(s);
        assert forall|m: int| 0 <= m < r.len() implies s.contains(#[trigger] r[m]) by {
            if m < d.len() {
                assert(p.contains(d[m]));
                let k = choose|k: int| 0 <= k < p.len() && p[k] == d[m];
                assert(s[k] == d[m]);
            } else {
                assert(s[s.len() - 1] == r[m]);
            }
        }
        assert forall|k: int| #![trigger s[k]] 0 <= k < s.len() implies exists|m: int|
            0 <= m < r.len() && ws.feature_name(#[trigger] r[m]) == ws.feature_name(s[k]) by {
            if k < p.len() {
                assert(s[k] == p[k]);
                let m = choose|m: int| 0 <= m < d.len() && ws.feature_name(#[trigger] d[m]) == ws.feature_name(p[k]);
                assert(r[m] == d[m]);
            } else if exists|i: int| 0 <= i < d.len() && ws.feature_name(#[trigger] d[i]) == ws.feature_name(s.last()) {
                let m = choose|i: int| 0 <= i < d.len() && ws.feature_name(#[trigger] d[i]) == ws.feature_name(s.last());
                assert(r[m] == d[m]);
            } else {
                assert(r[d.len() as int] == s.last());
            }
        }
    }
}

/// A group's features hold each name once, and every feature of the group's
/// environments is there under its name.
pub proof fn lemma_group_features_distinct(ws: &Workspace, g: usize)
    ensures
        forall|i: int, j: int|
            #![trigger ws.group_features(g)[i], ws.group_features(g)[j]]
            0 <= i < j < ws.group_features(g).len() ==> ws.feature_name(ws.group_features(g)[i])
                != ws.feature_name(ws.group_features(g)[j]),
        forall|k: int|
            #![trigger ws.features_of(ws.members(g))[k]]
            0 <= k < ws.features_of(ws.members(g)).len() ==> exists|m: int|
            0 <= m < ws.group_features(g).len() && ws.feature_name(#[trigger] ws.group_features(g)[m])
                == ws.feature_name(ws.features_of(ws.members(g))[k]),
{
    lemma_dedup_features(ws, ws.features_of(ws.members(g)));
}

proof fn lemma_dedup_names(s: Seq<Seq<char>>)
    ensures
        forall|n: Seq<char>| #[trigger] dedup_names(s).contains(n) <==> s.contains(n),
    decreases s.len(),
{
    if s.len() > 0 {
        let p = s.drop_last();
        lemma_dedup_names(p);
        assert forall|n: Seq<char>| #[trigger] dedup_names(s).contains(n) <==> s.contains(n) by {
            if s.contains(n) {
                let k = choose|k: int| 0 <= k < s.len() && s[k] == n;
                if k < p.len() {
                    assert(p[k] == n);
                    assert(dedup_names(p).contains(n));
                    let m = choose|m: int| 0 <= m < dedup_names(p).len() && dedup_names(p)[m] == n;
                    assert(dedup_names(s)[m] == n);
                } else if !dedup_names(p).contains(s.last()) {
                    assert(dedup_names(s)[dedup_names(p).len() as int] == n);
                }
            }
            if dedup_names(s).contains(n) {
                let m = choose|m: int| 0 <= m < dedup_names(s).len() && dedup_names(s)[m] == n;
                if m < dedup_names(p).len() {
                    assert(dedup_names(p)[m] == n);
                    assert(dedup_names(p).contains(n));
                    assert(p.contains(n));
                    let k = choose|k: int| 0 <= k < p.len() && p[k] == n;
                    assert(s[k] == n);
                } else {
                    assert(s[s.len() - 1] == n);
                }
            }
        }
    }
}

proof fn lemma_dependencies_of(ws: &Workspace, fs: Seq<usize>, n: Seq<char>)
    ensures
        ws.dependencies_of(fs).contains(n) <==> exists|k: int|
            0 <= k < fs.len() && (#[trigger] ws.features@[fs[k] as int]).dependencies@.map_values(|s: String| s@).contains(n),
    decreases fs.len(),
{
    if fs.len() > 0 {
        let p = fs.drop_last();
        lemma_dependencies_of(ws, p, n);
        let a = ws.dependencies_of(p);
        let b = ws.features@[fs.last() as int].dependencies@.map_values(|s: String| s@);
        assert(ws.dependencies_of(fs) == a + b);
        if (a + b).contains(n) {
            let i = choose|i: int| 0 <= i < (a + b).len() && (a + b)[i] == n;
            if i < a.len() {
                assert(a[i] == n);
                assert(a.contains(n));
                let k = choose|k: int| 0 <= k < p.len() && (#[trigger] ws.features@[p[k] as int]).dependencies@.map_values(|s: String| s@).contains(n);
                assert(fs[k] == p[k]);
            } else {
                assert(b[i - a.len()] == n);
                assert(b.contains(n));
                assert(fs[fs.len() - 1] == fs.last());
            }
        }
        if exists|k: int| 0 <= k < fs.len() && (#[trigger] ws.features@[fs[k] as int]).dependencies@.map_values(|s: String| s@).contains(n) {
            let k = choose|k: int| 0 <= k < fs.len() && (#[trigger] ws.features@[fs[k] as int]).dependencies@.map_values(|s: String| s@).contains(n);
            if k < p.len() {
                assert(p[k] == fs[k]);
                assert(a.contains(n));
                let i = choose|i: int| 0 <= i < a.len() && a[i] == n;
                assert((a + b)[i] == n);
            } else {
                assert(b.contains(n));
                let i = choose|i: int| 0 <= i < b.len() && b[i] == n;
                assert((a + b)[a.len() + i] == n);
            }
        }
    }
}

proof fn lemma_features_of(ws: &Workspace, ms: Seq<usize>, f: usize)
    ensures
        ws.features_of(ms).contains(f) <==> exists|k: int| 0 <= k < ms.len() && ws.env_features(#[trigger] ms[k]).contains(f),
    decreases ms.len(),
{
    if ms.len() > 0 {
        let p = ms.drop_last();
        lemma_features_of(ws, p, f);
        let a = ws.features_of(p);
        let b = ws.env_features(ms.last());
        if (a + b).contains(f) {
            let i = choose|i: int| 0 <= i < (a + b).len() && (a + b)[i] == f;
            if i < a.len() {
                assert(a[i] == f);
                assert(a.contains(f));
                let k = choose|k: int| 0 <= k < p.len() && ws.env_features(#[trigger] p[k]).contains(f);
                assert(ms[k] == p[k]);
            } else {
                assert(b[i - a.len()] == f);
                assert(ms[ms.len() - 1] == ms.last());
            }
        }
        if exists|k: int| 0 <= k < ms.len() && ws.env_features(#[trigger] ms[k]).contains(f) {
            let k = choose|k: int| 0 <= k < ms.len() && ws.env_features(#[trigger] ms[k]).contains(f);
            if k < p.len() {
                assert(p[k] == ms[k]);
                assert(a.contains(f));
                let i = choose|i: int| 0 <= i < a.len() && a[i] == f;
                assert((a + b)[i] == f);
            } else {
                let i = choose|i: int| 0 <= i < b.len() && b[i] == f;
                assert((a + b)[a.len() + i] == f);
            }
        }
    }
}

/// Only the group's own environments contribute to its dependencies: every
/// name in them is a dependency of a feature of an environment that belongs
/// to the group.
pub proof fn lemma_dependency_isolation(ws: &Workspace, g: usize, n: Seq<char>)
    requires
        ws.wf(),
        dedup_names(ws.dependencies_of(ws.group_features(g))).contains(n),
    ensures
        exists|e: usize, f: usize|
            e < ws.environments@.len() && ws.environments@[e as int].solve_group == Some(g)
                && #[trigger] ws.env_features(e).contains(f)
                && (#[trigger] ws.features@[f as int]).dependencies@.map_values(|s: String| s@).contains(n),
{
    lemma_dedup_names(ws.dependencies_of(ws.group_features(g)));
    lemma_dependencies_of(ws, ws.group_features(g), n);
    let gf = ws.group_features(g);
    let k = choose|k: int| 0 <= k < gf.len() && (#[trigger] ws.features@[gf[k] as int]).dependencies@.map_values(|s: String| s@).contains(n);
    let f = gf[k];
    lemma_dedup_features(ws, ws.features_of(ws.members(g)));
    assert(ws.features_of(ws.members(g)).contains(f));
    lemma_features_of(ws, ws.members(g), f);
    let j = choose|j: int| 0 <= j < ws.members(g).len() && ws.env_features(#[trigger] ws.members(g)[j]).contains(f);
    let e = ws.members(g)[j];
    lemma_members_below(ws, g, ws.environments@.len());
    assert(e < ws.environments@.len() && ws.environments@[e as int].solve_group == Some(g));
    assert(ws.env_features(e).contains(f));
}

/// Where feature names are unique, every dependency of every feature of the
/// group's environments is among the group's dependencies.
pub proof fn lemma_dependencies_complete(ws: &Workspace, g: usize, e: usize, f: usize, n: Seq<char>)
    requires
        ws.wf(),
        forall|a: int, b: int|
            #![trigger ws.features@[a], ws.features@[b]]
            0 <= a < b < ws.features@.len() ==> ws.features@[a].name@ != ws.features@[b].name@,
        e < ws.environments@.len(),
        ws.environments@[e as int].solve_group == Some(g),
        ws.env_features(e).contains(f),
        ws.features@[f as int].dependencies@.map_values(|s: String| s@).contains(n),
    ensures
        dedup_names(ws.dependencies_of(ws.group_features(g))).contains(n),
{
    lemma_solve_groups_partition(ws, e, g);
    let ms = ws.members(g);
    let j = choose|j: int| 0 <= j < ms.len() && ms[j] == e;
    assert(ws.env_features(ms[j]).contains(f));
    lemma_features_of(ws, ms, f);
    let s = ws.features_of(ms);
    let k = choose|k: int| 0 <= k < s.len() && s[k] == f;
    lemma_dedup_features(ws, s);
    let gf = ws.group_features(g);
    let m = choose|m: int| 0 <= m < gf.len() && ws.feature_name(#[trigger] gf[m]) == ws.feature_name(s[k]);
    assert(s.contains(gf[m]));
    let q = choose|q: int| 0 <= q < s.len() && s[q] == gf[m];
    lemma_features_of(ws, ms, gf[m]);
    let t = choose|t: int| 0 <= t < ms.len() && ws.env_features(#[trigger] ms[t]).contains(gf[m]);
    lemma_members_below(ws, g, ws.environments@.len());
    let x = choose|x: int| 0 <= x < ws.env_features(ms[t]).len() && ws.env_features(ms[t])[x] == gf[m];
    assert(ws.environments@[ms[t] as int].features@[x] < ws.features@.len());
    let y = choose|y: int| 0 <= y < ws.env_features(e).len() && ws.env_features(e)[y] == f;
    assert(ws.environments@[e as int].features@[y] < ws.features@.len());
    if gf[m] != f {
        if gf[m] < f {
            assert(ws.features@[gf[m] as int].name@ != ws.features@[f as int].name@);
        } else {
            assert(ws.features@[f as int].name@ != ws.features@[gf[m] as int].name@);
        }
    }
    assert(gf[m] == f);
    lemma_dependencies_of(ws, gf, n);
    lemma_dedup_names(ws.dependencies_of(gf));
}

} // verus!
