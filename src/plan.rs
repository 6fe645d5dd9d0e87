use vstd::prelude::*;

use crate::issues::{has_level, ResolveIssue, ResolveIssueKind, ResolveIssueLevel};
use crate::resolve::ResolvedLink;

verus! {

/// The name and authors of a package, as its descriptor gives them.
#[derive(Debug)]
pub struct DotPackageMeta {
    pub name: String,
    pub authors: Vec<String>,
}

/// A package of dotfiles with its declared links, each resolved.
#[derive(Debug)]
pub struct Dot {
    pub package: DotPackageMeta,
    pub links: Vec<ResolvedLink>,
    /// Where the package lies.
    pub path: String,
}

/// Why a plan cannot be installed.
#[derive(Clone, Copy, Debug, PartialEq, Eq, Structural)]
pub enum PlanError {
    /// Some anchor has an error.
    HasErrors,
    /// Some destination is occupied and the force flag is not set.
    UnresolvedWarnings,
}

impl PlanError {
    pub fn message(&self) -> (r: &'static str)
        ensures
            r@ == plan_error_text(*self),
    {
        match self {
            PlanError::HasErrors => "Plan Error: Planning failed.",
            PlanError::UnresolvedWarnings => "Plan Error: Plan has unresolved warnings.",
        }
    }
}

pub open spec fn plan_error_text(e: PlanError) -> Seq<char> {
    match e {
        PlanError::HasErrors => "Plan Error: Planning failed."@,
        PlanError::UnresolvedWarnings => "Plan Error: Plan has unresolved warnings."@,
    }
}

/// The links of `dots`, package after package, each in declaration order.
pub open spec fn flat(dots: Seq<Dot>) -> Seq<ResolvedLink>
    decreases dots.len(),
{
    if dots.len() == 0 {
        Seq::empty()
    } else {
        dots[0].links@ + flat(dots.drop_first())
    }
}

/// Both links resolve their destinations, to the same path.
pub open spec fn same_dest(a: ResolvedLink, b: ResolvedLink) -> bool {
    &&& a.dest.path is Some
    &&& b.dest.path is Some
    &&& a.dest.path->0@ == b.dest.path->0@
}

/// Some other link of `links` shares the destination of link `i`.
pub open spec fn has_twin(links: Seq<ResolvedLink>, i: int) -> bool {
    exists|j: int| 0 <= j < links.len() && j != i && #[trigger] same_dest(links[i], links[j])
}

/// `after` is `before`, with a conflict recorded on its destination when `dup`.
pub open spec fn flagged(before: ResolvedLink, after: ResolvedLink, dup: bool) -> bool {
    &&& after.src == before.src
    &&& after.dest.path == before.dest.path
    &&& after.dest.original == before.dest.original
    &&& after.dest.issues@ == if dup {
        before.dest.issues@.push(
            ResolveIssue { kind: ResolveIssueKind::Conflict, anchor: before.dest.original },
        )
    } else {
        before.dest.issues@
    }
}

/// `links` are `declared` with every link that shares its destination
/// with another marked as a conflict: all of them, not only the later ones.
pub open spec fn conflicts_marked(declared: Seq<ResolvedLink>, links: Seq<ResolvedLink>) -> bool {
    &&& links.len() == declared.len()
    &&& forall|i: int| 0 <= i < links.len() ==> flagged(#[trigger] declared[i], links[i], has_twin(declared, i))
}

/// Some anchor of the link has an issue of severity `l`.
pub open spec fn link_has(link: ResolvedLink, l: ResolveIssueLevel) -> bool {
    has_level(link.src.issues@, l) || has_level(link.dest.issues@, l)
}

/// Some anchor of some link has an issue of severity `l`.
pub open spec fn links_have(links: Seq<ResolvedLink>, l: ResolveIssueLevel) -> bool {
    exists|i: int| 0 <= i < links.len() && #[trigger] link_has(links[i], l)
}

/// The verdict on a set of resolved links: any error fails it; a warning
/// fails it unless `force` overrides it.
pub open spec fn verdict(links: Seq<ResolvedLink>, force: bool) -> Result<(), PlanError> {
    if links_have(links, ResolveIssueLevel::Error) {
        Err(PlanError::HasErrors)
    } else if links_have(links, ResolveIssueLevel::Warning) && !force {
        Err(PlanError::UnresolvedWarnings)
    } else {
        Ok(())
    }
}

/// Whether some link of `links` other than link `i` shares its destination.
fn twin_of(paths: &Vec<Option<String>>, i: usize) -> (r: bool)
    requires
        i < paths@.len(),
    ensures
        r == exists|j: int|
            0 <= j < paths@.len() && j != i && #[trigger] paths@[j] is Some && paths@[i as int] is Some
                && paths@[j]->0@ == paths@[i as int]->0@,
{
    let mut j: usize = 0;
    while j < paths.len()
        invariant
            j <= paths@.len(),
            i < paths@.len(),
            forall|k: int|
                0 <= k < j && k != i ==> !(#[trigger] paths@[k] is Some && paths@[i as int] is Some
                    && paths@[k]->0@ == paths@[i as int]->0@),
        decreases paths@.len() - j,
    {
        if j != i && same_path(&paths[j], &paths[i]) {
            return true;
        }
        j += 1;
    }
    false
}

/// Marks, on every link whose destination another link shares, a conflict.
fn mark_conflicts(links: Vec<ResolvedLink>) -> (r: Vec<ResolvedLink>)
    ensures
        conflicts_marked(links@, r@),
{
    let ghost declared = links@;
    let mut paths: Vec<Option<String>> = Vec::new();
    let mut i: usize = 0;
    while i < links.len()
        invariant
            i <= links@.len(),
            links@ == declared,
            paths@.len() == i,
            forall|k: int| 0 <= k < i ==> #[trigger] paths@[k] == declared[k].dest.path,
        decreases links@.len() - i,
    {
        paths.push(copy_path(&links[i].dest.path));
        i += 1;
    }
    let mut links = links;
    let mut out: Vec<ResolvedLink> = Vec::new();
    let mut i: usize = 0;
    while links.len() > 0
        invariant
            i + links@.len() == declared.len(),
            links@ == declared.subrange(i as int, declared.len() as int),
            paths@.len() == declared.len(),
            forall|k: int| 0 <= k < declared.len() ==> #[trigger] paths@[k] == declared[k].dest.path,
            out@.len() == i,
            declared.len() <= usize::MAX,
            forall|k: int| 0 <= k < i ==> flagged(#[trigger] declared[k], out@[k], has_twin(declared, k)),
        decreases links@.len(),
    {
        let mut l = links.remove(0);
        assert(l == declared[i as int]);
        let dup = twin_of(&paths, i);
        proof {
            if dup {
                let j = choose|j: int|
                    0 <= j < paths@.len() && j != i && #[trigger] paths@[j] is Some && paths@[i as int] is Some
                        && paths@[j]->0@ == paths@[i as int]->0@;
                assert(same_dest(declared[i as int], declared[j]));
            } else {
                assert forall|j: int| 0 <= j < declared.len() && j != i implies !same_dest(
                    declared[i as int],
                    #[trigger] declared[j],
                ) by {
                    assert(paths@[j] == declared[j].dest.path);
                }
            }
        }
        if dup {
            l.dest.mark_as_duplicate();
        }
        out.push(l);
        i += 1;
        assert(links@ =~= declared.subrange(i as int, declared.len() as int));
    }
    out
}

/// The links of all packages to install in one run, in order.
pub struct Plan {
    force: bool,
    links: Vec<ResolvedLink>,
    counts: Vec<usize>,
    names: Vec<String>,
}

fn copy_path(p: &Option<String>) -> (r: Option<String>)
    ensures
        r == *p,
{
    match p {
        Some(s) => Some(s.clone()),
        None => None,
    }
}

fn same_path(a: &Option<String>, b: &Option<String>) -> (r: bool)
    ensures
        r == (a is Some && b is Some && a->0@ == b->0@),
{
    match (a, b) {
        (Some(x), Some(y)) => *x == *y,
        _ => false,
    }
}

impl Plan {
    /// An empty plan; `force` overrides warnings.
    pub fn new(force: bool) -> (r: Plan)
        ensures
            r.force() == force,
            r.links_view().len() == 0,
    {
        Plan { force, links: Vec::new(), counts: Vec::new(), names: Vec::new() }
    }

    pub closed spec fn force(&self) -> bool {
        self.force
    }

    pub closed spec fn links_view(&self) -> Seq<ResolvedLink> {
        self.links@
    }

    pub closed spec fn counts_view(&self) -> Seq<usize> {
        self.counts@
    }

    pub closed spec fn names_view(&self) -> Seq<String> {
        self.names@
    }

    /// Whether warnings are overridden.
    pub fn is_forced(&self) -> (r: bool)
        ensures
            r == self.force(),
    {
        self.force
    }

    /// The resolved links, in plan order.
    pub fn links(&self) -> (r: &Vec<ResolvedLink>)
        ensures
            r@ == self.links_view(),
    {
        &self.links
    }

    /// How many links each package contributes, in the order of `names`.
    pub fn counts(&self) -> (r: &Vec<usize>)
        ensures
            r@ == self.counts_view(),
    {
        &self.counts
    }

    /// The names of the packages, in the order they were given.
    pub fn names(&self) -> (r: &Vec<String>)
        ensures
            r@ == self.names_view(),
    {
        &self.names
    }

    /// Collects the links of all packages, marks every link that shares its
    /// destination with another as a conflict, and judges the plan: it
    /// fails on any error, and on any warning unless the plan was made with
    /// force. A plan is validated once.
    pub fn validate(&mut self, dots: Vec<Dot>) -> (r: Result<(), PlanError>)
        requires
            old(self).links_view().len() == 0,
        ensures
            final(self).force() == old(self).force(),
            conflicts_marked(flat(dots@), final(self).links_view()),
            final(self).counts_view() == dots@.map_values(|x: Dot| x.links@.len() as usize),
            final(self).names_view() == dots@.map_values(|d: Dot| d.package.name),
            r == verdict(final(self).links_view(), final(self).force()),
    {
        let ghost all = dots@;
        let mut dots = dots;
        let mut links: Vec<ResolvedLink> = Vec::new();
        let mut counts: Vec<usize> = Vec::new();
        let mut names: Vec<String> = Vec::new();
        let mut d: usize = 0;
        let total = dots.len();
        assert(all.len() == total);
        while dots.len() > 0
            invariant
                d + dots@.len() == all.len(),
                dots@ == all.subrange(d as int, all.len() as int),
                links@ + flat(dots@) == flat(all),
                counts@ == all.take(d as int).map_values(|x: Dot| x.links@.len() as usize),
                names@ == all.take(d as int).map_values(|x: Dot| x.package.name),
                all.len() <= usize::MAX,
            decreases dots@.len(),
        {
            let ghost rest = dots@;
            let dot = dots.remove(0);
            assert(rest.drop_first() =~= dots@);
            assert(dots@ =~= all.subrange(d + 1, all.len() as int));
            let Dot { package, links: dot_links, path: _ } = dot;
            let mut dot_links = dot_links;
            let n = dot_links.len();
            while dot_links.len() > 0
                invariant
                    links@ + dot_links@ + flat(dots@) == flat(all),
                decreases dot_links@.len(),
            {
                let ghost before = dot_links@;
                let l = dot_links.remove(0);
                links.push(l);
                assert(links@ + dot_links@ =~= (links@.drop_last() + before));
                assert(links@ + dot_links@ + flat(dots@) =~= flat(all));
            }
            counts.push(n);
            names.push(package.name);
            d += 1;
            assert(all.take(d as int) =~= all.take(d - 1).push(all[d - 1]));
            assert(counts@ =~= all.take(d as int).map_values(|x: Dot| x.links@.len() as usize));
            assert(names@ =~= all.take(d as int).map_values(|x: Dot| x.package.name));
        }
        assert(links@ =~= flat(all));
        assert(all.take(d as int) =~= all);
        let marked = mark_conflicts(links);
        self.links = marked;
        self.counts = counts;
        self.names = names;
        self.judge()
    }

    /// Whether some anchor of the plan has an error.
    pub fn has_errors(&self) -> (r: bool)
        ensures
            r == links_have(self.links_view(), ResolveIssueLevel::Error),
    {
        self.any_level(ResolveIssueLevel::Error)
    }

    /// Whether some anchor of the plan has a warning.
    pub fn has_warnings(&self) -> (r: bool)
        ensures
            r == links_have(self.links_view(), ResolveIssueLevel::Warning),
    {
        self.any_level(ResolveIssueLevel::Warning)
    }

    /// Whether the plan fails only for want of the force flag: some
    /// destination is occupied and force is not set.
    pub fn suggests_force(&self) -> (r: bool)
        ensures
            r == (links_have(self.links_view(), ResolveIssueLevel::Warning) && !self.force()),
    {
        !self.force && self.has_warnings()
    }

    fn any_level(&self, level: ResolveIssueLevel) -> (r: bool)
        ensures
            r == links_have(self.links_view(), level),
    {
        let mut i: usize = 0;
        while i < self.links.len()
            invariant
                i <= self.links@.len(),
                forall|k: int| 0 <= k < i ==> !#[trigger] link_has(self.links@[k], level),
            decreases self.links@.len() - i,
        {
            let found = self.links[i].src.has_level(level) || self.links[i].dest.has_level(level);
            if found {
                assert(link_has(self.links@[i as int], level));
                return true;
            }
            i += 1;
        }
        false
    }

    fn judge(&self) -> (r: Result<(), PlanError>)
        ensures
            r == verdict(self.links_view(), self.force()),
    {
        if self.has_errors() {
            Err(PlanError::HasErrors)
        } else if self.has_warnings() && !self.force {
            Err(PlanError::UnresolvedWarnings)
        } else {
            Ok(())
        }
    }
}

} // verus!
