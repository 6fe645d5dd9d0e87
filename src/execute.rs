use vstd::prelude::*;

use crate::issues::FileKind;
use crate::links::{AnchorKind, Link};
use crate::plan::{Dot, Plan};
use crate::resolve::{DestState, ResolvedLink};

verus! {

/// What installing one link does to its destination.
#[derive(Clone, Copy, Debug, PartialEq, Eq, Structural)]
pub enum InstallStep {
    /// The symlink already points at the source: nothing to do.
    Keep,
    /// Nothing is there: create the symlink.
    Create,
    /// Remove the symlink that is there, then create the link.
    ReplaceSymlink,
    /// Remove the file that is there, then create the link.
    ReplaceFile,
    /// Remove the directory that is there with its contents, then create the link.
    ReplaceDirectory,
}

/// Why installation stopped.
#[derive(Debug)]
pub enum ExecutionError {
    /// Something other than a symlink occupies the destination and may not be removed.
    DestinationExists,
    /// The destination could not be inspected; the message says why.
    CannotInspect(String),
}

/// The step that installs a link with source `src` over what `state`
/// describes. A symlink is replaced, or left alone where it already points
/// at the source; a file or a directory is removed only with `force`.
pub open spec fn step_for(src: Seq<char>, state: DestState, force: bool) -> Result<
    InstallStep,
    ExecutionError,
> {
    match state {
        DestState::Absent => Ok(InstallStep::Create),
        DestState::Symlink { target, dangling } => if target is Some && target->0@ == src {
            Ok(InstallStep::Keep)
        } else {
            Ok(InstallStep::ReplaceSymlink)
        },
        DestState::Occupied(k) => match k {
            FileKind::Symlink => Ok(InstallStep::ReplaceSymlink),
            FileKind::File => if force {
                Ok(InstallStep::ReplaceFile)
            } else {
                Err(ExecutionError::DestinationExists)
            },
            FileKind::Directory => if force {
                Ok(InstallStep::ReplaceDirectory)
            } else {
                Err(ExecutionError::DestinationExists)
            },
            FileKind::Other => Err(ExecutionError::DestinationExists),
        },
        DestState::Unreadable(m) => Err(ExecutionError::CannotInspect(m)),
    }
}

/// Decides how to install `link` over what `state` describes at its destination.
pub fn install_step(link: &Link, state: DestState, force: bool) -> (r: Result<
    InstallStep,
    ExecutionError,
>)
    ensures
        r == step_for(link.src.path@, state, force),
{
    match state {
        DestState::Absent => Ok(InstallStep::Create),
        DestState::Symlink { target, dangling: _ } => {
            let same = match &target {
                Some(t) => *t == link.src.path,
                None => false,
            };
            if same {
                Ok(InstallStep::Keep)
            } else {
                Ok(InstallStep::ReplaceSymlink)
            }
        },
        DestState::Occupied(k) => match k {
            FileKind::Symlink => Ok(InstallStep::ReplaceSymlink),
            FileKind::File => if force {
                Ok(InstallStep::ReplaceFile)
            } else {
                Err(ExecutionError::DestinationExists)
            },
            FileKind::Directory => if force {
                Ok(InstallStep::ReplaceDirectory)
            } else {
                Err(ExecutionError::DestinationExists)
            },
            FileKind::Other => Err(ExecutionError::DestinationExists),
        },
        DestState::Unreadable(m) => Err(ExecutionError::CannotInspect(m)),
    }
}

/// The pairs of resolved paths of the links whose two anchors resolved, in order.
pub open spec fn resolved_pairs(links: Seq<ResolvedLink>) -> Seq<(Seq<char>, Seq<char>)>
    decreases links.len(),
{
    if links.len() == 0 {
        Seq::empty()
    } else {
        let n = links.len() - 1;
        let prev = resolved_pairs(links.take(n));
        match (links[n].src.path, links[n].dest.path) {
            (Some(s), Some(d)) => prev.push((s@, d@)),
            _ => prev,
        }
    }
}

/// The pairs of paths of `links`, in order.
pub open spec fn link_pairs(links: Seq<Link>) -> Seq<(Seq<char>, Seq<char>)> {
    links.map_values(|l: Link| l.pair())
}

/// Every link is a source-to-destination link.
pub open spec fn well_kinded(links: Seq<Link>) -> bool {
    forall|i: int|
        0 <= i < links.len() ==> (#[trigger] links[i]).src.kind == AnchorKind::Source
            && links[i].dest.kind == AnchorKind::Destination
}

/// The links between the resolved paths of `links`, skipping those with an
/// anchor that did not resolve, appended to `out`.
fn collect_links(links: &Vec<ResolvedLink>, out: &mut Vec<Link>)
    requires
        well_kinded(old(out)@),
    ensures
        well_kinded(final(out)@),
        link_pairs(final(out)@) == link_pairs(old(out)@)
            + resolved_pairs(links@),
{
    let mut i: usize = 0;
    let ghost start = link_pairs(out@);
    while i < links.len()
        invariant
            i <= links@.len(),
            well_kinded(out@),
            link_pairs(out@) == start + resolved_pairs(links@.take(i as int)),
        decreases links@.len() - i,
    {
        assert(links@.take(i + 1).take(i as int) =~= links@.take(i as int));
        assert(links@.take(i + 1)[i as int] == links@[i as int]);
        match links[i].as_link() {
            Some(l) => {
                let ghost p = l.pair();
                let ghost t = links@.take(i + 1);
                assert(t[i as int].src.path is Some && t[i as int].dest.path is Some);
                assert(resolved_pairs(t) == resolved_pairs(t.take(i as int)).push(p));
                let ghost prev = link_pairs(out@);
                out.push(l);
                assert(link_pairs(out@) =~= prev.push(p));
                assert(link_pairs(out@) =~= start + resolved_pairs(
                    links@.take(i + 1),
                ));
            },
            None => {
                assert(link_pairs(out@) =~= start + resolved_pairs(
                    links@.take(i + 1),
                ));
            },
        }
        i += 1;
    }
    assert(links@.take(i as int) =~= links@);
}

impl Plan {
    /// The links to create, in plan order: those whose two anchors resolved.
    pub fn links_to_install(&self) -> (r: Vec<Link>)
        ensures
            well_kinded(r@),
            link_pairs(r@) == resolved_pairs(self.links_view()),
    {
        let mut out: Vec<Link> = Vec::new();
        assert(link_pairs(out@) =~= Seq::empty());
        collect_links(self.links(), &mut out);
        assert(link_pairs(out@) =~= resolved_pairs(self.links_view()));
        out
    }
}

/// The links of all packages between resolved paths: the links that some
/// package still declares, against which reconciliation judges the footprint.
pub fn valid_links(dots: &Vec<Dot>) -> (r: Vec<Link>)
    ensures
        well_kinded(r@),
        forall|p: (Seq<char>, Seq<char>)|
            #[trigger] link_pairs(r@).contains(p) <==> exists|i: int|
                0 <= i < dots@.len() && #[trigger] resolved_pairs(dots@[i].links@).contains(p),
{
    let mut out: Vec<Link> = Vec::new();
    let mut i: usize = 0;
    while i < dots.len()
        invariant
            i <= dots@.len(),
            well_kinded(out@),
            forall|p: (Seq<char>, Seq<char>)|
                #[trigger] link_pairs(out@).contains(p) <==> exists|k: int|
                    0 <= k < i && #[trigger] resolved_pairs(dots@[k].links@).contains(p),
        decreases dots@.len() - i,
    {
        let ghost before = link_pairs(out@);
        collect_links(&dots[i].links, &mut out);
        proof {
            let now = link_pairs(out@);
            let added = resolved_pairs(dots@[i as int].links@);
            assert forall|p: (Seq<char>, Seq<char>)|
                #[trigger] now.contains(p) <==> exists|k: int|
                    0 <= k < i + 1 && #[trigger] resolved_pairs(dots@[k].links@).contains(p) by {
                if now.contains(p) {
                    let j = choose|j: int| 0 <= j < now.len() && now[j] == p;
                    if j < before.len() {
                        assert(before[j] == p);
                        assert(before.contains(p));
                    } else {
                        assert(added[j - before.len()] == p);
                        assert(added.contains(p));
                    }
                }
                if exists|k: int| 0 <= k < i + 1 && #[trigger] resolved_pairs(dots@[k].links@).contains(p) {
                    let k = choose|k: int| 0 <= k < i + 1 && #[trigger] resolved_pairs(dots@[k].links@).contains(p);
                    if k < i {
                        assert(before.contains(p));
                        let j = choose|j: int| 0 <= j < before.len() && before[j] == p;
                        assert(now[j] == p);
                    } else {
                        let j = choose|j: int| 0 <= j < added.len() && added[j] == p;
                        assert(now[before.len() + j] == p);
                    }
                }
            }
        }
        i += 1;
    }
    out
}

} // verus!
