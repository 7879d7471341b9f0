//! Package versions, held as their source text and ordered by the conda
//! version rules of `rattler_conda_types`.

use std::cmp::Ordering;
use std::str::FromStr;
use vstd::prelude::*;

verus! {

/// Holds when the text is a version that `rattler_conda_types::Version`
/// accepts.
pub uninterp spec fn version_parses(text: Seq<char>) -> bool;

/// The order that `rattler_conda_types::Version` puts two parsed versions in.
pub uninterp spec fn version_order(a: Seq<char>, b: Seq<char>) -> Ordering;

/// A run of one to nineteen ASCII digits: a number that fits in a `u64`.
pub open spec fn is_decimal(text: Seq<char>) -> bool {
    0 < text.len() <= 19 && forall|i: int| 0 <= i < text.len() ==> '0' <= #[trigger] text[i] <= '9'
}

/// Relies on `rattler_conda_types::Version::from_str`: tells whether the text
/// parses. A plain decimal number that fits in a `u64` always does.
#[verifier::external_body]
fn version_is_valid(text: &str) -> (r: bool)
    ensures
        r == version_parses(text@),
        is_decimal(text@) ==> r,
{
    rattler_conda_types::Version::from_str(text).is_ok()
}

/// Relies on `rattler_conda_types::Version`'s `FromStr` and `Ord`: parses two
/// valid versions and compares them. Equal texts give equal versions.
#[verifier::external_body]
fn compare_version_texts(a: &str, b: &str) -> (r: Ordering)
    requires
        version_parses(a@),
        version_parses(b@),
    ensures
        r == version_order(a@, b@),
        a@ == b@ ==> r == Ordering::Equal,
{
    let x = rattler_conda_types::Version::from_str(a).unwrap();
    let y = rattler_conda_types::Version::from_str(b).unwrap();
    x.cmp(&y)
}

/// A version that is known to parse.
#[derive(Debug)]
pub struct Version {
    text: String,
}

impl View for Version {
    type V = Seq<char>;

    closed spec fn view(&self) -> Seq<char> {
        self.text@
    }
}

impl Version {
    #[verifier::type_invariant]
    closed spec fn parses(self) -> bool {
        version_parses(self.text@)
    }

    /// Makes a version from its text, or `None` where the text is not a
    /// version.
    pub fn parse(text: String) -> (r: Option<Version>)
        ensures
            r is Some <==> version_parses(text@),
            r matches Some(v) ==> v@ == text@,
    {
        if version_is_valid(text.as_str()) {
            Some(Version { text })
        } else {
            None
        }
    }

    /// The version written as the given plain decimal number.
    pub fn decimal(text: &str) -> (r: Version)
        requires
            is_decimal(text@),
        ensures
            r@ == text@,
    {
        let owned = text.to_owned();
        let valid = version_is_valid(owned.as_str());
        proof {
            assert(valid);
        }
        Version { text: owned }
    }

    /// The text of the version.
    pub fn as_str(&self) -> (r: &str)
        ensures
            r@ == self@,
    {
        self.text.as_str()
    }

    /// A copy of this version.
    pub fn duplicate(&self) -> (r: Version)
        ensures
            r == *self,
    {
        proof {
            use_type_invariant(self);
        }
        Version { text: self.text.clone() }
    }

    /// Compares two versions.
    pub fn compare(&self, other: &Version) -> (r: Ordering)
        ensures
            r == version_order(self@, other@),
            self@ == other@ ==> r == Ordering::Equal,
    {
        proof {
            use_type_invariant(self);
            use_type_invariant(other);
        }
        compare_version_texts(self.text.as_str(), other.text.as_str())
    }
}

/// The larger of two versions, the first one where neither is larger.
pub open spec fn max_version(a: Seq<char>, b: Seq<char>) -> Seq<char> {
    if version_order(b, a) == Ordering::Greater {
        b
    } else {
        a
    }
}

/// The larger of two optional versions; an absent version loses.
pub open spec fn max_opt_version(a: Option<Seq<char>>, b: Option<Seq<char>>) -> Option<Seq<char>> {
    match (a, b) {
        (Some(x), Some(y)) => Some(max_version(x, y)),
        (Some(x), None) => Some(x),
        (None, Some(y)) => Some(y),
        (None, None) => None,
    }
}

pub open spec fn opt_view(v: Option<Version>) -> Option<Seq<char>> {
    match v {
        Some(x) => Some(x@),
        None => None,
    }
}

/// A copy of an optional version.
pub fn duplicate_opt(v: &Option<Version>) -> (r: Option<Version>)
    ensures
        r == *v,
{
    match v {
        Some(x) => Some(x.duplicate()),
        None => None,
    }
}

/// The larger of two optional versions; an absent version loses.
pub fn max_opt(a: &Option<Version>, b: &Option<Version>) -> (r: Option<Version>)
    ensures
        opt_view(r) == max_opt_version(opt_view(*a), opt_view(*b)),
{
    match (a, b) {
        (Some(x), Some(y)) => {
            if matches!(y.compare(x), Ordering::Greater) {
                Some(y.duplicate())
            } else {
                Some(x.duplicate())
            }
        },
        (Some(x), None) => Some(x.duplicate()),
        (None, Some(y)) => Some(y.duplicate()),
        (None, None) => None,
    }
}

} // verus!
