use vstd::prelude::*;

use crate::links::Link;
use crate::paths::{path_starts_with, same_text, within};

verus! {

/// One installed link: the dotfile and the symlink that points at it,
/// both absolute.
#[derive(Debug)]
pub struct FootprintLink {
    pub src: String,
    pub dest: String,
}

/// What this tool believes it installed: a set of links, none twice.
#[derive(Debug)]
pub struct Footprint {
    links: Vec<FootprintLink>,
}

/// The pair of paths of an entry, source first.
pub open spec fn entry_pair(e: FootprintLink) -> (Seq<char>, Seq<char>) {
    (e.src@, e.dest@)
}

/// No two entries of `es` have the same pair of paths.
pub open spec fn distinct_pairs(es: Seq<FootprintLink>) -> bool {
    forall|i: int, j: int|
        0 <= i < es.len() && 0 <= j < es.len() && i != j ==> entry_pair(#[trigger] es[i])
            != entry_pair(#[trigger] es[j])
}

/// The set of pairs that `es` holds.
pub open spec fn pair_set(es: Seq<FootprintLink>) -> Set<(Seq<char>, Seq<char>)> {
    Set::new(|p: (Seq<char>, Seq<char>)| exists|i: int| 0 <= i < es.len() && #[trigger] entry_pair(es[i]) == p)
}

/// What is found at an entry's destination, without following a symlink.
#[derive(Debug)]
pub enum LiveLink {
    /// No symlink is there.
    NotSymlink,
    /// A symlink; its stored target, `None` where it could not be read.
    Symlink(Option<String>),
}

/// What reconciliation does with one footprint entry.
#[derive(Clone, Copy, Debug, PartialEq, Eq, Structural)]
pub enum CleanAction {
    /// Drop the entry and leave the filesystem alone.
    Forget,
    /// Delete the symlink and drop the entry.
    Unlink,
    /// The entry is still valid.
    Keep,
}

/// Some declared link has exactly this pair of paths.
pub open spec fn declared(valid: Seq<Link>, p: (Seq<char>, Seq<char>)) -> bool {
    exists|i: int| 0 <= i < valid.len() && #[trigger] valid[i].pair() == p
}

/// The first rule that matches an entry decides: no symlink at the
/// destination, or one that points elsewhere, drops the entry; a source
/// outside the managed root drops it too, keeping the symlink; a link that
/// no package declares any more is deleted; any other entry stays.
pub open spec fn clean_action(
    e: FootprintLink,
    live: LiveLink,
    root: Seq<char>,
    valid: Seq<Link>,
) -> CleanAction {
    match live {
        LiveLink::NotSymlink => CleanAction::Forget,
        LiveLink::Symlink(t) => if t is None || t->0@ != e.src@ {
            CleanAction::Forget
        } else if !within(e.src@, root) {
            CleanAction::Forget
        } else if !declared(valid, entry_pair(e)) {
            CleanAction::Unlink
        } else {
            CleanAction::Keep
        },
    }
}

/// The entries of `es` that reconciliation keeps, in order.
pub open spec fn kept(
    es: Seq<FootprintLink>,
    lives: Seq<LiveLink>,
    root: Seq<char>,
    valid: Seq<Link>,
) -> Seq<FootprintLink>
    decreases es.len(),
{
    if es.len() == 0 || lives.len() < es.len() {
        Seq::empty()
    } else {
        let n = es.len() - 1;
        let prev = kept(es.take(n), lives, root, valid);
        if clean_action(es[n], lives[n], root, valid) == CleanAction::Keep {
            prev.push(es[n])
        } else {
            prev
        }
    }
}

/// The destinations whose symlinks reconciliation deletes, in order.
pub open spec fn unlinked(
    es: Seq<FootprintLink>,
    lives: Seq<LiveLink>,
    root: Seq<char>,
    valid: Seq<Link>,
) -> Seq<Seq<char>>
    decreases es.len(),
{
    if es.len() == 0 || lives.len() < es.len() {
        Seq::empty()
    } else {
        let n = es.len() - 1;
        let prev = unlinked(es.take(n), lives, root, valid);
        if clean_action(es[n], lives[n], root, valid) == CleanAction::Unlink {
            prev.push(es[n].dest@)
        } else {
            prev
        }
    }
}

impl FootprintLink {
    pub fn new(src: &str, dest: &str) -> (r: FootprintLink)
        ensures
            r.src@ == src@,
            r.dest@ == dest@,
    {
        FootprintLink { src: String::from_str(src), dest: String::from_str(dest) }
    }

    /// An equal copy of this entry.
    pub fn copy(&self) -> (r: FootprintLink)
        ensures
            r == *self,
    {
        FootprintLink { src: self.src.clone(), dest: self.dest.clone() }
    }
}

/// Whether some declared link has the pair of paths `src`, `dest`.
pub fn is_declared(valid: &Vec<Link>, src: &str, dest: &str) -> (r: bool)
    ensures
        r == declared(valid@, (src@, dest@)),
{
    let mut i: usize = 0;
    while i < valid.len()
        invariant
            i <= valid@.len(),
            forall|k: int| 0 <= k < i ==> #[trigger] valid@[k].pair() != (src@, dest@),
        decreases valid@.len() - i,
    {
        if same_text(valid[i].src.path.as_str(), src) && same_text(valid[i].dest.path.as_str(), dest) {
            assert(valid@[i as int].pair() == (src@, dest@));
            return true;
        }
        i += 1;
    }
    false
}

/// Decides what reconciliation does with one entry, given what is found
/// at its destination, the managed root and the links that packages declare.
pub fn classify(e: &FootprintLink, live: &LiveLink, root: &str, valid: &Vec<Link>) -> (r: CleanAction)
    ensures
        r == clean_action(*e, *live, root@, valid@),
{
    match live {
        LiveLink::NotSymlink => CleanAction::Forget,
        LiveLink::Symlink(t) => {
            let points_right = match t {
                Some(t) => *t == e.src,
                None => false,
            };
            if !points_right {
                CleanAction::Forget
            } else if !path_starts_with(e.src.as_str(), root) {
                CleanAction::Forget
            } else if !is_declared(valid, e.src.as_str(), e.dest.as_str()) {
                CleanAction::Unlink
            } else {
                CleanAction::Keep
            }
        },
    }
}

impl Footprint {
    pub closed spec fn entries(&self) -> Seq<FootprintLink> {
        self.links@
    }

    /// The set of installed pairs.
    pub open spec fn pairs(&self) -> Set<(Seq<char>, Seq<char>)> {
        pair_set(self.entries())
    }

    /// No pair is recorded twice.
    #[verifier::type_invariant]
    closed spec fn wf(&self) -> bool {
        distinct_pairs(self.links@)
    }

    /// An empty footprint.
    pub fn new() -> (r: Footprint)
        ensures
            r.entries().len() == 0,
    {
        Footprint { links: Vec::new() }
    }

    /// The entries, in the order they were recorded.
    pub fn links(&self) -> (r: &Vec<FootprintLink>)
        ensures
            r@ == self.entries(),
            distinct_pairs(r@),
    {
        proof {
            use_type_invariant(self);
        }
        &self.links
    }

    /// A footprint of the given entries; a pair given twice is kept once,
    /// at its first place.
    pub fn from_links(links: Vec<FootprintLink>) -> (r: Footprint)
        ensures
            distinct_pairs(r.entries()),
            r.pairs() == pair_set(links@),
            distinct_pairs(links@) ==> r.entries() == links@,
    {
        let mut fp = Footprint::new();
        let mut links = links;
        let ghost all = links@;
        let ghost mut n: int = 0;
        while links.len() > 0
            invariant
                0 <= n <= all.len(),
                links@ == all.subrange(n, all.len() as int),
                fp.pairs() == pair_set(all.take(n)),
                distinct_pairs(all) ==> fp.entries() == all.take(n),
            decreases links@.len(),
        {
            let l = links.remove(0);
            assert(l == all[n]);
            proof {
                if distinct_pairs(all) {
                    assert forall|i: int| 0 <= i < n implies entry_pair(all.take(n)[i]) != entry_pair(l) by {
                        assert(all.take(n)[i] == all[i]);
                    }
                }
            }
            let ghost before = fp.entries();
            fp.insert_entry(l);
            proof {
                assert(all.take(n + 1) =~= all.take(n).push(all[n]));
                assert(pair_set(all.take(n + 1)) =~= pair_set(all.take(n)).insert(entry_pair(all[n]))) by {
                    assert forall|p| #[trigger] pair_set(all.take(n + 1)).contains(p) implies pair_set(all.take(n)).insert(entry_pair(all[n])).contains(p) by {
                        let i = choose|i: int| 0 <= i < n + 1 && #[trigger] entry_pair(all.take(n + 1)[i]) == p;
                        if i < n {
                            assert(all.take(n)[i] == all.take(n + 1)[i]);
                        }
                    }
                    assert forall|p| #[trigger] pair_set(all.take(n)).insert(entry_pair(all[n])).contains(p) implies pair_set(all.take(n + 1)).contains(p) by {
                        if p == entry_pair(all[n]) {
                            assert(entry_pair(all.take(n + 1)[n]) == p);
                        } else {
                            let i = choose|i: int| 0 <= i < n && #[trigger] entry_pair(all.take(n)[i]) == p;
                            assert(all.take(n)[i] == all.take(n + 1)[i]);
                        }
                    }
                }
                n = n + 1;
            }
            assert(links@ =~= all.subrange(n, all.len() as int));
        }
        assert(all.take(n) =~= all);
        proof {
            use_type_invariant(&fp);
        }
        fp
    }

    /// Whether the pair is recorded.
    pub fn contains(&self, src: &str, dest: &str) -> (r: bool)
        ensures
            r == self.pairs().contains((src@, dest@)),
    {
        let mut i: usize = 0;
        while i < self.links.len()
            invariant
                i <= self.links@.len(),
                forall|k: int| 0 <= k < i ==> entry_pair(#[trigger] self.links@[k]) != (src@, dest@),
            decreases self.links@.len() - i,
        {
            if same_text(self.links[i].src.as_str(), src) && same_text(self.links[i].dest.as_str(), dest) {
                assert(entry_pair(self.links@[i as int]) == (src@, dest@));
                return true;
            }
            i += 1;
        }
        false
    }

    fn insert_entry(&mut self, e: FootprintLink)
        ensures
            final(self).pairs() == old(self).pairs().insert(entry_pair(e)),
            old(self).pairs().contains(entry_pair(e)) ==> final(self).entries() == old(self).entries(),
            !old(self).pairs().contains(entry_pair(e)) ==> final(self).entries() == old(self).entries().push(e),
    {
        proof {
            use_type_invariant(&*self);
        }
        if self.contains(e.src.as_str(), e.dest.as_str()) {
            assert(old(self).pairs().insert(entry_pair(e)) =~= old(self).pairs());
        } else {
            let ghost before = self.links@;
            let mut cur = Footprint { links: Vec::new() };
            core::mem::swap(self, &mut cur);
            let mut links = cur.links;
            links.push(e);
            proof {
                assert forall|i: int, j: int|
                    0 <= i < links@.len() && 0 <= j < links@.len() && i != j implies entry_pair(#[trigger] links@[i])
                        != entry_pair(#[trigger] links@[j]) by {
                    if i < before.len() && j < before.len() {
                        assert(links@[i] == before[i]);
                        assert(links@[j] == before[j]);
                    } else if i < before.len() {
                        assert(links@[i] == before[i]);
                    } else {
                        assert(links@[j] == before[j]);
                    }
                }
                assert(pair_set(links@) =~= pair_set(before).insert(entry_pair(e))) by {
                    assert forall|p| #[trigger] pair_set(links@).contains(p) implies pair_set(before).insert(entry_pair(e)).contains(p) by {
                        let i = choose|i: int| 0 <= i < links@.len() && #[trigger] entry_pair(links@[i]) == p;
                        if i < before.len() {
                            assert(links@[i] == before[i]);
                        }
                    }
                    assert forall|p| #[trigger] pair_set(before).insert(entry_pair(e)).contains(p) implies pair_set(links@).contains(p) by {
                        if p == entry_pair(e) {
                            assert(entry_pair(links@[before.len() as int]) == p);
                        } else {
                            let i = choose|i: int| 0 <= i < before.len() && #[trigger] entry_pair(before[i]) == p;
                            assert(links@[i] == before[i]);
                        }
                    }
                }
            }
            *self = Footprint { links };
        }
    }

    /// Records an installed link. Recording a pair that is there already
    /// changes nothing.
    pub fn insert(&mut self, src: &str, dest: &str)
        ensures
            final(self).pairs() == old(self).pairs().insert((src@, dest@)),
            old(self).pairs().contains((src@, dest@)) ==> final(self).entries() == old(self).entries(),
            !old(self).pairs().contains((src@, dest@)) ==> final(self).entries().drop_last()
                == old(self).entries() && entry_pair(final(self).entries().last()) == (src@, dest@),
    {
        let e = FootprintLink::new(src, dest);
        self.insert_entry(e);
        assert(!old(self).pairs().contains((src@, dest@)) ==> self.entries().drop_last()
            =~= old(self).entries());
    }
    /// Reconciles the footprint with the filesystem and the declared links.
    /// `lives` gives, for each entry in order, what is at its destination.
    /// Every entry is judged by `classify`, none skipped: the result holds the
    /// entries that stay, and the destinations whose symlinks must be deleted.
    pub fn reconcile(&self, lives: &Vec<LiveLink>, root: &str, valid: &Vec<Link>) -> (r: (
        Footprint,
        Vec<String>,
    ))
        requires
            lives@.len() == self.entries().len(),
        ensures
            r.0.entries() == kept(self.entries(), lives@, root@, valid@),
            r.1@.map_values(|d: String| d@) == unlinked(self.entries(), lives@, root@, valid@),
    {
        proof {
            use_type_invariant(self);
        }
        let mut out: Vec<FootprintLink> = Vec::new();
        let mut gone: Vec<String> = Vec::new();
        let ghost es = self.links@;
        let mut i: usize = 0;
        while i < self.links.len()
            invariant
                es == self.links@,
                distinct_pairs(es),
                lives@.len() == es.len(),
                i <= es.len(),
                out@ == kept(es.take(i as int), lives@, root@, valid@),
                gone@.map_values(|d: String| d@) == unlinked(es.take(i as int), lives@, root@, valid@),
                distinct_pairs(out@),
                forall|m: int| 0 <= m < out@.len() ==> exists|k: int| 0 <= k < i && es[k] == #[trigger] out@[m],
            decreases es.len() - i,
        {
            let action = classify(&self.links[i], &lives[i], root, valid);
            assert(es.take(i + 1).take(i as int) =~= es.take(i as int));
            assert(es.take(i + 1)[i as int] == es[i as int]);
            let ghost before = out@;
            match action {
                CleanAction::Keep => {
                    out.push(self.links[i].copy());
                    proof {
                        assert forall|a: int, b: int|
                            0 <= a < out@.len() && 0 <= b < out@.len() && a != b implies entry_pair(#[trigger] out@[a])
                                != entry_pair(#[trigger] out@[b]) by {
                            if a < before.len() && b < before.len() {
                                assert(out@[a] == before[a]);
                                assert(out@[b] == before[b]);
                            } else if a < before.len() {
                                assert(out@[a] == before[a]);
                                let k = choose|k: int| 0 <= k < i && es[k] == #[trigger] before[a];
                                assert(entry_pair(es[k]) != entry_pair(es[i as int]));
                            } else {
                                assert(out@[b] == before[b]);
                                let k = choose|k: int| 0 <= k < i && es[k] == #[trigger] before[b];
                                assert(entry_pair(es[k]) != entry_pair(es[i as int]));
                            }
                        }
                        assert forall|m: int| 0 <= m < out@.len() implies exists|k: int| 0 <= k < i + 1 && es[k] == #[trigger] out@[m] by {
                            if m < before.len() {
                                assert(out@[m] == before[m]);
                                let k = choose|k: int| 0 <= k < i && es[k] == #[trigger] before[m];
                                assert(es[k] == out@[m]);
                            } else {
                                assert(es[i as int] == out@[m]);
                            }
                        }
                    }
                },
                CleanAction::Unlink => {
                    gone.push(self.links[i].dest.clone());
                    proof {
                        assert(gone@.map_values(|d: String| d@) =~= unlinked(es.take(i as int), lives@, root@, valid@).push(es[i as int].dest@));
                    }
                },
                CleanAction::Forget => {},
            }
            i += 1;
        }
        assert(es.take(i as int) =~= es);
        (Footprint { links: out }, gone)
    }
}

} // verus!
