//! The minimal host capabilities that a feature, an environment or a solve
//! group asks for, and how several of them combine.

use crate::version::{duplicate_opt, max_opt, max_opt_version, max_version, opt_view, Version};
use std::cmp::Ordering;
use vstd::prelude::*;

verus! {

/// A C library requirement: its family (`glibc`, `musl`, ...) in the
/// normalised lower-case form that package names use, and its least version.
#[derive(Debug)]
pub struct LibCRequirement {
    pub family: String,
    pub version: Version,
}

/// Requirements on the host. An absent field asks for nothing beyond the
/// defaults that are applied when virtual packages are synthesised. Windows
/// has no field: its default version always applies.
#[derive(Debug)]
pub struct SystemRequirements {
    /// Least Linux kernel version.
    pub linux: Option<Version>,
    /// C library family and least version.
    pub libc: Option<LibCRequirement>,
    /// Least macOS version.
    pub macos: Option<Version>,
    /// Least CUDA driver version.
    pub cuda: Option<Version>,
}

/// The mathematical value of a set of system requirements.
pub struct SystemRequirementsModel {
    pub linux: Option<Seq<char>>,
    pub libc: Option<(Seq<char>, Seq<char>)>,
    pub macos: Option<Seq<char>>,
    pub cuda: Option<Seq<char>>,
}

/// Two requirements that cannot be combined.
#[derive(Debug, PartialEq, Eq)]
pub enum MergeError {
    /// Two C library requirements name different families.
    DifferentLibcFamilies { first: String, second: String },
}

pub open spec fn libc_view(l: Option<LibCRequirement>) -> Option<(Seq<char>, Seq<char>)> {
    match l {
        Some(x) => Some((x.family@, x.version@)),
        None => None,
    }
}

impl View for SystemRequirements {
    type V = SystemRequirementsModel;

    open spec fn view(&self) -> SystemRequirementsModel {
        SystemRequirementsModel {
            linux: opt_view(self.linux),
            libc: libc_view(self.libc),
            macos: opt_view(self.macos),
            cuda: opt_view(self.cuda),
        }
    }
}

/// The requirements that ask for nothing.
pub open spec fn empty_requirements() -> SystemRequirementsModel {
    SystemRequirementsModel { linux: None, libc: None, macos: None, cuda: None }
}

/// Combines two C library requirements: the higher version of one family;
/// `None` where the families differ.
pub open spec fn merge_libc(
    a: Option<(Seq<char>, Seq<char>)>,
    b: Option<(Seq<char>, Seq<char>)>,
) -> Option<Option<(Seq<char>, Seq<char>)>> {
    match (a, b) {
        (Some(x), Some(y)) => if x.0 == y.0 {
            Some(Some((x.0, max_version(x.1, y.1))))
        } else {
            None
        },
        (Some(x), None) => Some(Some(x)),
        (None, Some(y)) => Some(Some(y)),
        (None, None) => Some(None),
    }
}

/// Combines two sets of requirements field by field, keeping the highest
/// version of each; `None` where the C library families conflict.
pub open spec fn merge_model(
    a: SystemRequirementsModel,
    b: SystemRequirementsModel,
) -> Option<SystemRequirementsModel> {
    match merge_libc(a.libc, b.libc) {
        Some(libc) => Some(
            SystemRequirementsModel {
                linux: max_opt_version(a.linux, b.linux),
                libc,
                macos: max_opt_version(a.macos, b.macos),
                cuda: max_opt_version(a.cuda, b.cuda),
            },
        ),
        None => None,
    }
}

/// Combines a sequence of requirements from left to right, starting from the
/// requirements that ask for nothing.
pub open spec fn merge_all(s: Seq<SystemRequirementsModel>) -> Option<SystemRequirementsModel>
    decreases s.len(),
{
    if s.len() == 0 {
        Some(empty_requirements())
    } else {
        match merge_all(s.drop_last()) {
            Some(acc) => merge_model(acc, s.last()),
            None => None,
        }
    }
}

impl LibCRequirement {
    /// A copy of this requirement.
    pub fn duplicate(&self) -> (r: LibCRequirement)
        ensures
            r == *self,
    {
        LibCRequirement { family: self.family.clone(), version: self.version.duplicate() }
    }
}

impl SystemRequirements {
    /// The requirements that ask for nothing.
    pub fn none() -> (r: SystemRequirements)
        ensures
            r@ == empty_requirements(),
    {
        SystemRequirements { linux: None, libc: None, macos: None, cuda: None }
    }

    /// A copy of these requirements.
    pub fn duplicate(&self) -> (r: SystemRequirements)
        ensures
            r@ == self@,
    {
        let libc = match &self.libc {
            Some(l) => Some(l.duplicate()),
            None => None,
        };
        SystemRequirements {
            linux: duplicate_opt(&self.linux),
            libc,
            macos: duplicate_opt(&self.macos),
            cuda: duplicate_opt(&self.cuda),
        }
    }

    /// Combines two sets of requirements: for each field the highest version
    /// of the two, and an error where the C library families differ.
    pub fn merge(&self, other: &SystemRequirements) -> (r: Result<SystemRequirements, MergeError>)
        ensures
            r is Ok <==> merge_model(self@, other@) is Some,
            r matches Ok(m) ==> merge_model(self@, other@) == Some(m@),
            r matches Err(MergeError::DifferentLibcFamilies { first, second }) ==> (
                self.libc matches Some(a) && other.libc matches Some(b)
                && first@ == a.family@ && second@ == b.family@ && first@ != second@),
    {
        let libc = match (&self.libc, &other.libc) {
            (Some(a), Some(b)) => {
                if a.family == b.family {
                    let version = if matches!(b.version.compare(&a.version), Ordering::Greater) {
                        b.version.duplicate()
                    } else {
                        a.version.duplicate()
                    };
                    Some(LibCRequirement { family: a.family.clone(), version })
                } else {
                    return Err(
                        MergeError::DifferentLibcFamilies {
                            first: a.family.clone(),
                            second: b.family.clone(),
                        },
                    );
                }
            },
            (Some(a), None) => Some(a.duplicate()),
            (None, Some(b)) => Some(b.duplicate()),
            (None, None) => None,
        };
        Ok(
            SystemRequirements {
                linux: max_opt(&self.linux, &other.linux),
                libc,
                macos: max_opt(&self.macos, &other.macos),
                cuda: max_opt(&self.cuda, &other.cuda),
            },
        )
    }
}

/// Where one of two requirement sets leaves `cuda` unset and the other asks
/// for a version, their combination asks for that version.
pub proof fn lemma_merge_keeps_single_cuda(
    a: SystemRequirementsModel,
    b: SystemRequirementsModel,
    v: Seq<char>,
)
    requires
        a.cuda is None,
        b.cuda == Some(v),
        merge_model(a, b) is Some,
    ensures
        merge_model(a, b)->Some_0.cuda == Some(v),
        merge_model(b, a)->Some_0.cuda == Some(v),
{
}


proof fn lemma_merge_all_no_cuda(s: Seq<SystemRequirementsModel>)
    requires
        forall|j: int| 0 <= j < s.len() ==> (#[trigger] s[j]).cuda is None,
        merge_all(s) is Some,
    ensures
        merge_all(s)->Some_0.cuda is None,
    decreases s.len(),
{
    if s.len() > 0 {
        lemma_merge_all_no_cuda(s.drop_last());
    }
}

/// Where exactly one of the combined requirement sets asks for a CUDA
/// version, the combination asks for that version.
pub proof fn lemma_merge_all_single_cuda(s: Seq<SystemRequirementsModel>, i: int, v: Seq<char>)
    requires
        0 <= i < s.len(),
        s[i].cuda == Some(v),
        forall|j: int| 0 <= j < s.len() && j != i ==> (#[trigger] s[j]).cuda is None,
        merge_all(s) is Some,
    ensures
        merge_all(s)->Some_0.cuda == Some(v),
    decreases s.len(),
{
    let p = s.drop_last();
    if i == s.len() - 1 {
        lemma_merge_all_no_cuda(p);
    } else {
        assert(p[i] == s[i]);
        lemma_merge_all_single_cuda(p, i, v);
    }
}

} // verus!
