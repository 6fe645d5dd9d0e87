use vstd::prelude::*;

use crate::paths::{join_paths, joined, same_text};
use crate::plan::Dot;

verus! {

/// Where the packages and the footprint live.
#[derive(Debug)]
pub struct Environment {
    root: String,
}

/// What adding a package does with the place it goes to.
#[derive(Clone, Copy, Debug, PartialEq, Eq, Structural)]
pub enum AddStep {
    /// The place is free: move the package there.
    Install,
    /// A package of that name is there: remove it first.
    Replace,
}

/// Why a package cannot be added.
#[derive(Clone, Copy, Debug, PartialEq, Eq, Structural)]
pub enum AddError {
    /// A package of that name is installed and overwriting was not asked for.
    AlreadyInstalled,
}

/// Decides how a package is added, given whether one of the same name is
/// installed and whether overwriting it was asked for.
pub fn add(target_exists: bool, overwrite: bool) -> (r: Result<AddStep, AddError>)
    ensures
        !target_exists ==> r == Ok::<AddStep, AddError>(AddStep::Install),
        target_exists && overwrite ==> r == Ok::<AddStep, AddError>(AddStep::Replace),
        target_exists && !overwrite ==> r == Err::<AddStep, AddError>(AddError::AlreadyInstalled),
{
    if !target_exists {
        Ok(AddStep::Install)
    } else if overwrite {
        Ok(AddStep::Replace)
    } else {
        Err(AddError::AlreadyInstalled)
    }
}

/// The first package named `name`, if any.
pub fn find(name: &str, dots: Vec<Dot>) -> (r: Option<Dot>)
    ensures
        r is None <==> forall|i: int| 0 <= i < dots@.len() ==> #[trigger] dots@[i].package.name@ != name@,
        r matches Some(d) ==> exists|i: int|
            0 <= i < dots@.len() && #[trigger] dots@[i] == d && d.package.name@ == name@ && forall|j: int|
                0 <= j < i ==> dots@[j].package.name@ != name@,
{
    let ghost all = dots@;
    let mut rest = dots;
    let mut i: usize = 0;
    let total = rest.len();
    assert(all.len() == total);
    while rest.len() > 0
        invariant
            i + rest@.len() == all.len(),
            all == dots@,
            all.len() <= usize::MAX,
            rest@ == all.subrange(i as int, all.len() as int),
            forall|j: int| 0 <= j < i ==> #[trigger] all[j].package.name@ != name@,
        decreases rest@.len(),
    {
        let d = rest.remove(0);
        assert(d == all[i as int]);
        if same_text(d.package.name.as_str(), name) {
            assert(all[i as int].package.name@ == name@);
            assert(exists|j: int| 0 <= j < all.len() && #[trigger] all[j] == d && d.package.name@ == name@ && forall|k: int|
                0 <= k < j ==> all[k].package.name@ != name@);
            return Some(d);
        }
        i += 1;
        assert(rest@ =~= all.subrange(i as int, all.len() as int));
    }
    None
}

impl Environment {
    /// An environment rooted at `root`.
    pub fn new(root: String) -> (r: Environment)
        ensures
            r.root_view() == root@,
    {
        Environment { root }
    }

    pub closed spec fn root_view(&self) -> Seq<char> {
        self.root@
    }

    /// The managed root.
    pub fn root(&self) -> (r: String)
        ensures
            r@ == self.root_view(),
    {
        self.root.clone()
    }

    /// `path` under the managed root.
    pub fn path(&self, path: &str) -> (r: String)
        ensures
            r@ == joined(self.root_view(), path@),
    {
        join_paths(self.root.as_str(), path)
    }

    /// Where the package `dot` is kept.
    pub fn package_path(&self, dot: &Dot) -> (r: String)
        ensures
            r@ == joined(self.root_view(), dot.package.name@),
    {
        self.path(dot.package.name.as_str())
    }

    /// Where the footprint is kept.
    pub fn footprint_path(&self) -> (r: String)
        ensures
            r@ == joined(self.root_view(), "dot-footprint.toml"@),
    {
        self.path("dot-footprint.toml")
    }
}

} // verus!
