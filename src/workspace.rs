//! A loaded workspace: its features, its environments and the solve groups
//! that they name, with views into it that borrow rather than copy.

use crate::platform::Platform;
use crate::solve_group::SolveGroup;
use crate::system_requirements::{merge_all, MergeError, SystemRequirements, SystemRequirementsModel};
use vstd::prelude::*;

verus! {

/// A named unit of dependencies and system requirements.
#[derive(Debug)]
pub struct Feature {
    pub name: String,
    /// Names of the packages that the feature depends on.
    pub dependencies: Vec<String>,
    pub system_requirements: SystemRequirements,
}

/// An environment as the manifest declares it.
#[derive(Debug)]
pub struct EnvironmentDecl {
    pub name: String,
    /// Indices into the workspace's features, in the environment's order; the
    /// default feature is among them unless the environment excludes it.
    pub features: Vec<usize>,
    /// Index of the solve group that the environment belongs to, if any.
    pub solve_group: Option<usize>,
    /// The platforms that the environment supports.
    pub platforms: Vec<Platform>,
}

/// A solve group as the manifest declares it.
#[derive(Debug)]
pub struct SolveGroupDecl {
    pub name: String,
}

/// A loaded workspace. `id` tells workspaces apart: views into two
/// workspaces with different ids are different views.
#[derive(Debug)]
pub struct Workspace {
    pub id: u64,
    /// The directory below which each solve group keeps its environment.
    pub solve_group_environments_dir: String,
    pub features: Vec<Feature>,
    pub environments: Vec<EnvironmentDecl>,
    pub solve_groups: Vec<SolveGroupDecl>,
}

impl Workspace {
    /// Every index that the manifest holds points at an existing record.
    pub open spec fn wf(&self) -> bool {
        &&& self.environments@.len() <= usize::MAX
        &&& forall|e: int, k: int|
            0 <= e < self.environments@.len() && 0 <= k < self.environments@[e].features@.len()
                ==> #[trigger] self.environments@[e].features@[k] < self.features@.len()
        &&& forall|e: int|
            0 <= e < self.environments@.len() ==> (#[trigger] self.environments@[e].solve_group matches Some(g)
                ==> g < self.solve_groups@.len())
    }

    /// The features of an existing environment exist.
    pub proof fn lemma_env_features_exist(&self, e: usize)
        requires
            self.wf(),
            e < self.environments@.len(),
        ensures
            forall|k: int| 0 <= k < self.env_features(e).len() ==> #[trigger] self.env_features(e)[k] < self.features@.len(),
    {
        assert forall|k: int| 0 <= k < self.env_features(e).len() implies #[trigger] self.env_features(e)[k] < self.features@.len() by {
            assert(self.environments@[e as int].features@[k] < self.features@.len());
        }
    }

    pub open spec fn feature_name(&self, f: usize) -> Seq<char> {
        self.features@[f as int].name@
    }

    pub open spec fn env_features(&self, e: usize) -> Seq<usize> {
        self.environments@[e as int].features@
    }

    /// The environments with an index below `n` that belong to group `g`, in
    /// declaration order.
    pub open spec fn members_below(&self, g: usize, n: nat) -> Seq<usize>
        decreases n,
    {
        if n == 0 {
            Seq::empty()
        } else {
            let rest = self.members_below(g, (n - 1) as nat);
            if self.environments@[n - 1].solve_group == Some(g) {
                rest.push((n - 1) as usize)
            } else {
                rest
            }
        }
    }

    /// The environments of group `g`, in declaration order.
    pub open spec fn members(&self, g: usize) -> Seq<usize> {
        self.members_below(g, self.environments@.len())
    }

    /// The features of the given environments, one environment after the
    /// other, each in its own order.
    pub open spec fn features_of(&self, envs: Seq<usize>) -> Seq<usize>
        decreases envs.len(),
    {
        if envs.len() == 0 {
            Seq::empty()
        } else {
            self.features_of(envs.drop_last()) + self.env_features(envs.last())
        }
    }

    /// Keeps the first feature of each name, in order.
    pub open spec fn dedup_features(&self, s: Seq<usize>) -> Seq<usize>
        decreases s.len(),
    {
        if s.len() == 0 {
            Seq::empty()
        } else {
            let d = self.dedup_features(s.drop_last());
            if exists|i: int| 0 <= i < d.len() && self.feature_name(#[trigger] d[i]) == self.feature_name(s.last()) {
                d
            } else {
                d.push(s.last())
            }
        }
    }

    /// The dependency names of the given features, one after the other.
    pub open spec fn dependencies_of(&self, fs: Seq<usize>) -> Seq<Seq<char>>
        decreases fs.len(),
    {
        if fs.len() == 0 {
            Seq::empty()
        } else {
            self.dependencies_of(fs.drop_last()) + self.features@[fs.last() as int].dependencies@.map_values(|s: String| s@)
        }
    }

    /// The system requirements of the given features, in order.
    pub open spec fn requirements_of(&self, fs: Seq<usize>) -> Seq<SystemRequirementsModel> {
        fs.map_values(|f: usize| self.features@[f as int].system_requirements@)
    }

    /// The requirements of an environment that are its own: those of its
    /// features combined.
    pub open spec fn local_requirements(&self, e: usize) -> Option<SystemRequirementsModel> {
        merge_all(self.requirements_of(self.env_features(e)))
    }

    /// The features of group `g`: those of its environments, each name once.
    pub open spec fn group_features(&self, g: usize) -> Seq<usize> {
        self.dedup_features(self.features_of(self.members(g)))
    }

    /// The requirements of group `g`: those of all its features combined.
    pub open spec fn group_requirements(&self, g: usize) -> Option<SystemRequirementsModel> {
        merge_all(self.requirements_of(self.group_features(g)))
    }

    /// The requirements of an environment: those of its group where it is in
    /// one, else its own.
    pub open spec fn env_requirements(&self, e: usize) -> Option<SystemRequirementsModel> {
        match self.environments@[e as int].solve_group {
            Some(g) => self.group_requirements(g),
            None => self.local_requirements(e),
        }
    }
}

/// Keeps the first of each name, in order.
pub open spec fn dedup_names(s: Seq<Seq<char>>) -> Seq<Seq<char>>
    decreases s.len(),
{
    if s.len() == 0 {
        Seq::empty()
    } else {
        let d = dedup_names(s.drop_last());
        if d.contains(s.last()) {
            d
        } else {
            d.push(s.last())
        }
    }
}

/// An environment of a workspace, borrowed.
#[derive(Debug, Clone, Copy)]
pub struct Environment<'p> {
    pub workspace: &'p Workspace,
    pub index: usize,
}

impl<'p> Environment<'p> {
    pub open spec fn wf(&self) -> bool {
        self.workspace.wf() && self.index < self.workspace.environments@.len()
    }

    pub open spec fn decl(&self) -> &'p EnvironmentDecl {
        &self.workspace.environments@[self.index as int]
    }

    /// The name of the environment.
    pub fn name(&self) -> (r: &'p str)
        requires
            self.wf(),
        ensures
            r@ == self.decl().name@,
    {
        self.workspace.environments[self.index].name.as_str()
    }

    /// The platforms that the environment supports.
    pub fn platforms(&self) -> (r: &'p Vec<Platform>)
        requires
            self.wf(),
        ensures
            r@ == self.decl().platforms@,
    {
        &self.workspace.environments[self.index].platforms
    }

    /// The indices of the environment's features, in its order.
    pub fn features(&self) -> (r: &'p Vec<usize>)
        requires
            self.wf(),
        ensures
            r@ == self.workspace.env_features(self.index),
    {
        &self.workspace.environments[self.index].features
    }

    /// The solve group that the environment belongs to, if any.
    pub fn solve_group(&self) -> (r: Option<SolveGroup<'p>>)
        requires
            self.wf(),
        ensures
            r matches Some(g) ==> g.workspace == self.workspace && self.decl().solve_group == Some(g.index) && g.wf(),
            r is None <==> self.decl().solve_group is None,
    {
        proof {
            assert(self.workspace.environments@[self.index as int].solve_group matches Some(g) ==> g < self.workspace.solve_groups@.len());
        }
        match self.workspace.environments[self.index].solve_group {
            Some(g) => Some(SolveGroup { workspace: self.workspace, index: g }),
            None => None,
        }
    }

    /// The requirements of the environment's own features combined.
    pub fn local_system_requirements(&self) -> (r: Result<SystemRequirements, MergeError>)
        requires
            self.wf(),
        ensures
            r is Ok <==> self.workspace.local_requirements(self.index) is Some,
            r matches Ok(m) ==> self.workspace.local_requirements(self.index) == Some(m@),
    {
        proof {
            self.workspace.lemma_env_features_exist(self.index);
        }
        combine_requirements(self.workspace, self.features())
    }

    /// The system requirements of the environment: those of its solve group
    /// where it is in one, so that all environments of a group agree; else
    /// those of its own features.
    pub fn system_requirements(&self) -> (r: Result<SystemRequirements, MergeError>)
        requires
            self.wf(),
        ensures
            r is Ok <==> self.workspace.env_requirements(self.index) is Some,
            r matches Ok(m) ==> self.workspace.env_requirements(self.index) == Some(m@),
    {
        match self.solve_group() {
            Some(g) => g.system_requirements(),
            None => self.local_system_requirements(),
        }
    }
}

proof fn lemma_merge_all_none_extends(s: Seq<SystemRequirementsModel>, t: Seq<SystemRequirementsModel>)
    requires
        merge_all(s) is None,
    ensures
        merge_all(s + t) is None,
    decreases t.len(),
{
    if t.len() == 0 {
        assert(s + t =~= s);
    } else {
        lemma_merge_all_none_extends(s, t.drop_last());
        assert((s + t).drop_last() =~= s + t.drop_last());
    }
}

/// Combines the requirements of the given features from left to right.
pub fn combine_requirements(ws: &Workspace, fs: &Vec<usize>) -> (r: Result<SystemRequirements, MergeError>)
    requires
        forall|k: int| 0 <= k < fs@.len() ==> #[trigger] fs@[k] < ws.features@.len(),
    ensures
        r is Ok <==> merge_all(ws.requirements_of(fs@)) is Some,
        r matches Ok(m) ==> merge_all(ws.requirements_of(fs@)) == Some(m@),
{
    let mut acc = SystemRequirements::none();
    let mut i: usize = 0;
    proof {
        assert(ws.requirements_of(fs@.take(0)) =~= Seq::empty());
    }
    while i < fs.len()
        invariant
            i <= fs@.len(),
            forall|k: int| 0 <= k < fs@.len() ==> #[trigger] fs@[k] < ws.features@.len(),
            merge_all(ws.requirements_of(fs@.take(i as int))) == Some(acc@),
        decreases fs@.len() - i,
    {
        let f = fs[i];
        let prefix = Ghost(ws.requirements_of(fs@.take(i as int)));
        proof {
            assert(ws.requirements_of(fs@.take(i + 1)).drop_last() =~= prefix@);
            assert(ws.requirements_of(fs@.take(i + 1)) =~= prefix@.push(ws.features@[f as int].system_requirements@));
        }
        match acc.merge(&ws.features[f].system_requirements) {
            Ok(m) => {
                acc = m;
            },
            Err(e) => {
                proof {
                    let whole = ws.requirements_of(fs@);
                    let upto = ws.requirements_of(fs@.take(i + 1));
                    lemma_merge_all_none_extends(upto, whole.subrange(i + 1, whole.len() as int));
                    assert(upto + whole.subrange(i + 1, whole.len() as int) =~= whole);
                }
                return Err(e);
            },
        }
        i = i + 1;
    }
    proof {
        assert(fs@.take(fs@.len() as int) =~= fs@);
    }
    Ok(acc)
}

impl Workspace {
    /// All environments, in declaration order.
    pub fn environments(&self) -> (r: Vec<Environment<'_>>)
        requires
            self.wf(),
        ensures
            r@.len() == self.environments@.len(),
            forall|k: int| 0 <= k < r@.len() ==> (#[trigger] r@[k]).workspace == self && r@[k].index == k,
    {
        let mut r: Vec<Environment<'_>> = Vec::new();
        let mut i: usize = 0;
        while i < self.environments.len()
            invariant
                i <= self.environments@.len(),
                r@.len() == i,
                forall|k: int| 0 <= k < r@.len() ==> (#[trigger] r@[k]).workspace == self && r@[k].index == k,
            decreases self.environments@.len() - i,
        {
            r.push(Environment { workspace: self, index: i });
            i = i + 1;
        }
        r
    }

    /// The first environment with the given name, if any.
    pub fn environment(&self, name: &str) -> (r: Option<Environment<'_>>)
        requires
            self.wf(),
        ensures
            r matches Some(e) ==> e.workspace == self && e.index < self.environments@.len()
                && self.environments@[e.index as int].name@ == name@
                && forall|k: int| 0 <= k < e.index ==> self.environments@[k].name@ != name@,
            r is None ==> forall|k: int| 0 <= k < self.environments@.len() ==> self.environments@[k].name@ != name@,
    {
        let wanted = name.to_owned();
        let mut i: usize = 0;
        while i < self.environments.len()
            invariant
                i <= self.environments@.len(),
                wanted@ == name@,
                forall|k: int| 0 <= k < i ==> self.environments@[k].name@ != name@,
            decreases self.environments@.len() - i,
        {
            if self.environments[i].name == wanted {
                return Some(Environment { workspace: self, index: i });
            }
            i = i + 1;
        }
        None
    }

    /// The environment named `default`, if any.
    pub fn default_environment(&self) -> (r: Option<Environment<'_>>)
        requires
            self.wf(),
        ensures
            r matches Some(e) ==> e.workspace == self && e.index < self.environments@.len()
                && self.environments@[e.index as int].name@ == "default"@,
            r is None ==> forall|k: int| 0 <= k < self.environments@.len() ==> self.environments@[k].name@ != "default"@,
    {
        self.environment("default")
    }

    /// All solve groups, in declaration order.
    pub fn solve_groups(&self) -> (r: Vec<SolveGroup<'_>>)
        requires
            self.wf(),
        ensures
            r@.len() == self.solve_groups@.len(),
            forall|k: int| 0 <= k < r@.len() ==> (#[trigger] r@[k]).workspace == self && r@[k].index == k,
    {
        let mut r: Vec<SolveGroup<'_>> = Vec::new();
        let mut i: usize = 0;
        while i < self.solve_groups.len()
            invariant
                i <= self.solve_groups@.len(),
                r@.len() == i,
                forall|k: int| 0 <= k < r@.len() ==> (#[trigger] r@[k]).workspace == self && r@[k].index == k,
            decreases self.solve_groups@.len() - i,
        {
            r.push(SolveGroup { workspace: self, index: i });
            i = i + 1;
        }
        r
    }
}

} // verus!
