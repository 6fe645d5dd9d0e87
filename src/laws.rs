use vstd::prelude::*;

use crate::execute::{step_for, InstallStep};
use crate::footprint::{
    clean_action, declared, distinct_pairs, entry_pair, kept, unlinked, CleanAction,
    FootprintLink, LiveLink,
};
use crate::issues::{has_level, level_of, FileKind, ResolveIssueKind, ResolveIssueLevel};
use crate::links::Link;
use crate::paths::within;
use crate::plan::{
    conflicts_marked, has_twin, link_has, links_have, same_dest, verdict, PlanError,
};
use crate::resolve::{dest_issue, DestState, ResolvedLink};

verus! {

/// `x` is an entry of `es` whose own judgement was to keep it.
pub open spec fn kept_from(
    es: Seq<FootprintLink>,
    lives: Seq<LiveLink>,
    root: Seq<char>,
    valid: Seq<Link>,
    x: FootprintLink,
) -> bool {
    exists|k: int|
        0 <= k < es.len() && k < lives.len() && #[trigger] es[k] == x && clean_action(
            es[k],
            lives[k],
            root,
            valid,
        ) == CleanAction::Keep
}

/// Every entry that reconciliation keeps is an entry of the footprint
/// whose own judgement was to keep it.
pub proof fn lemma_kept_entries(
    es: Seq<FootprintLink>,
    lives: Seq<LiveLink>,
    root: Seq<char>,
    valid: Seq<Link>,
)
    ensures
        forall|m: int|
            0 <= m < kept(es, lives, root, valid).len() ==> kept_from(
                es,
                lives,
                root,
                valid,
                #[trigger] kept(es, lives, root, valid)[m],
            ),
    decreases es.len(),
{
    if es.len() > 0 && lives.len() >= es.len() {
        let n = es.len() - 1;
        lemma_kept_entries(es.take(n), lives, root, valid);
        let prev = kept(es.take(n), lives, root, valid);
        let all = kept(es, lives, root, valid);
        if clean_action(es[n], lives[n], root, valid) == CleanAction::Keep {
            assert(all == prev.push(es[n]));
        } else {
            assert(all == prev);
        }
        assert forall|m: int| 0 <= m < all.len() implies kept_from(es, lives, root, valid, #[trigger] all[m]) by {
            if m < prev.len() {
                assert(all[m] == prev[m]);
                assert(kept_from(es.take(n), lives, root, valid, prev[m]));
                let k = choose|k: int|
                    0 <= k < es.take(n).len() && k < lives.len() && #[trigger] es.take(n)[k] == prev[m]
                        && clean_action(es.take(n)[k], lives[k], root, valid) == CleanAction::Keep;
                assert(es[k] == es.take(n)[k]);
            } else {
                assert(all[m] == es[n]);
                assert(clean_action(es[n], lives[n], root, valid) == CleanAction::Keep);
            }
        }
    } else {
        assert(kept(es, lives, root, valid).len() == 0);
    }
}

/// Every entry whose judgement is to delete its symlink has its
/// destination among those that reconciliation deletes.
pub proof fn lemma_unlinked_entries(
    es: Seq<FootprintLink>,
    lives: Seq<LiveLink>,
    root: Seq<char>,
    valid: Seq<Link>,
    i: int,
)
    requires
        0 <= i < es.len(),
        lives.len() >= es.len(),
        clean_action(es[i], lives[i], root, valid) == CleanAction::Unlink,
    ensures
        unlinked(es, lives, root, valid).contains(es[i].dest@),
    decreases es.len(),
{
    let n = es.len() - 1;
    let prev = unlinked(es.take(n), lives, root, valid);
    if i == n {
        assert(unlinked(es, lives, root, valid) == prev.push(es[n].dest@));
        assert(unlinked(es, lives, root, valid).last() == es[i].dest@);
    } else {
        assert(es.take(n)[i] == es[i]);
        lemma_unlinked_entries(es.take(n), lives, root, valid, i);
        let j = choose|j: int| 0 <= j < prev.len() && prev[j] == es[i].dest@;
        assert(unlinked(es, lives, root, valid)[j] == es[i].dest@);
    }
}

/// Running install again over what the last run installed changes nothing.
/// Reconciliation keeps every entry whose symlink still points at its
/// source under the managed root and is still declared, and deletes
/// nothing; and a destination that already holds a symlink to its source
/// gives no issue and is left as it is.
pub proof fn law_reinstall_changes_nothing(
    es: Seq<FootprintLink>,
    lives: Seq<LiveLink>,
    root: Seq<char>,
    valid: Seq<Link>,
    src: String,
    state: DestState,
    force: bool,
)
    requires
        lives.len() == es.len(),
        forall|i: int|
            0 <= i < es.len() ==> (#[trigger] lives[i] matches LiveLink::Symlink(Some(t))
                && t@ == es[i].src@),
        forall|i: int| 0 <= i < es.len() ==> within(#[trigger] es[i].src@, root),
        forall|i: int| 0 <= i < es.len() ==> declared(valid, entry_pair(#[trigger] es[i])),
        state matches DestState::Symlink { target: Some(t), dangling: _ } && t@ == src@,
    ensures
        kept(es, lives, root, valid) == es,
        unlinked(es, lives, root, valid).len() == 0,
        dest_issue(state, Some(src)) is None,
        step_for(src@, state, force) == Ok::<InstallStep, crate::execute::ExecutionError>(
            InstallStep::Keep,
        ),
{
    lemma_all_kept(es, lives, root, valid);
}

/// Entries that are all still live, under the root and declared are all
/// kept, and nothing is deleted.
proof fn lemma_all_kept(
    es: Seq<FootprintLink>,
    lives: Seq<LiveLink>,
    root: Seq<char>,
    valid: Seq<Link>,
)
    requires
        lives.len() >= es.len(),
        forall|i: int|
            0 <= i < es.len() ==> (#[trigger] lives[i] matches LiveLink::Symlink(Some(t))
                && t@ == es[i].src@),
        forall|i: int| 0 <= i < es.len() ==> within(#[trigger] es[i].src@, root),
        forall|i: int| 0 <= i < es.len() ==> declared(valid, entry_pair(#[trigger] es[i])),
    ensures
        kept(es, lives, root, valid) == es,
        unlinked(es, lives, root, valid).len() == 0,
    decreases es.len(),
{
    if es.len() > 0 {
        let n = es.len() - 1;
        assert(lives[n] matches LiveLink::Symlink(Some(t)) && t@ == es[n].src@);
        assert(within(es[n].src@, root));
        assert(declared(valid, entry_pair(es[n])));
        assert forall|i: int| 0 <= i < es.take(n).len() implies within(#[trigger] es.take(n)[i].src@, root) by {
            assert(es.take(n)[i] == es[i]);
            assert(within(es[i].src@, root));
        }
        assert forall|i: int| 0 <= i < es.take(n).len() implies (#[trigger] lives[i] matches LiveLink::Symlink(Some(t))
            && t@ == es.take(n)[i].src@) by {
            assert(es.take(n)[i] == es[i]);
        }
        assert forall|i: int| 0 <= i < es.take(n).len() implies declared(valid, entry_pair(#[trigger] es.take(n)[i])) by {
            assert(es.take(n)[i] == es[i]);
            assert(declared(valid, entry_pair(es[i])));
        }
        lemma_all_kept(es.take(n), lives, root, valid);
        assert(clean_action(es[n], lives[n], root, valid) == CleanAction::Keep);
        assert(kept(es, lives, root, valid) =~= es);
    }
}

/// When two links declare the same destination, both carry a conflict,
/// not only the later one, and the plan fails whatever the force flag.
pub proof fn law_duplicates_conflict(
    declared_links: Seq<ResolvedLink>,
    links: Seq<ResolvedLink>,
    i: int,
    j: int,
    force: bool,
)
    requires
        conflicts_marked(declared_links, links),
        0 <= i < declared_links.len(),
        0 <= j < declared_links.len(),
        i != j,
        same_dest(declared_links[i], declared_links[j]),
    ensures
        links[i].dest.issues@.last().kind == ResolveIssueKind::Conflict,
        links[j].dest.issues@.last().kind == ResolveIssueKind::Conflict,
        verdict(links, force) == Err::<(), PlanError>(PlanError::HasErrors),
{
    assert(same_dest(declared_links[j], declared_links[i]));
    assert(has_twin(declared_links, i));
    assert(has_twin(declared_links, j));
    let issues = links[i].dest.issues@;
    assert(level_of(issues[issues.len() - 1].kind) == ResolveIssueLevel::Error);
    assert(has_level(issues, ResolveIssueLevel::Error));
    assert(link_has(links[i], ResolveIssueLevel::Error));
    assert(links_have(links, ResolveIssueLevel::Error));
}

/// A destination that already holds a symlink to the resolved source gives
/// no issue, and installing leaves it as it is.
pub proof fn law_self_link_is_kept(src: String, state: DestState, force: bool)
    requires
        state matches DestState::Symlink { target: Some(t), dangling: _ } && t@ == src@,
    ensures
        dest_issue(state, Some(src)) is None,
        step_for(src@, state, force) == Ok::<InstallStep, crate::execute::ExecutionError>(
            InstallStep::Keep,
        ),
{
}

/// A plain file at a destination is a warning: without force the plan
/// fails and installing would stop there; with force (and no error
/// elsewhere) the plan passes and installing removes the file.
pub proof fn law_file_needs_force(links: Seq<ResolvedLink>, i: int, src: Seq<char>)
    requires
        0 <= i < links.len(),
        links[i].dest.issues@.len() > 0,
        links[i].dest.issues@[0].kind == ResolveIssueKind::AlreadyExists(FileKind::File),
        !links_have(links, ResolveIssueLevel::Error),
    ensures
        dest_issue(DestState::Occupied(FileKind::File), None) == Some(
            ResolveIssueKind::AlreadyExists(FileKind::File),
        ),
        verdict(links, false) == Err::<(), PlanError>(PlanError::UnresolvedWarnings),
        verdict(links, true) == Ok::<(), PlanError>(()),
        step_for(src, DestState::Occupied(FileKind::File), false) is Err,
        step_for(src, DestState::Occupied(FileKind::File), true) == Ok::<
            InstallStep,
            crate::execute::ExecutionError,
        >(InstallStep::ReplaceFile),
{
    assert(level_of(links[i].dest.issues@[0].kind) == ResolveIssueLevel::Warning);
    assert(has_level(links[i].dest.issues@, ResolveIssueLevel::Warning));
    assert(link_has(links[i], ResolveIssueLevel::Warning));
}

/// An entry whose destination no longer holds a symlink is dropped from
/// the footprint, and nothing is deleted for it.
pub proof fn law_orphan_is_forgotten(
    es: Seq<FootprintLink>,
    lives: Seq<LiveLink>,
    root: Seq<char>,
    valid: Seq<Link>,
    i: int,
)
    requires
        distinct_pairs(es),
        lives.len() == es.len(),
        0 <= i < es.len(),
        lives[i] == LiveLink::NotSymlink,
    ensures
        clean_action(es[i], lives[i], root, valid) == CleanAction::Forget,
        !kept(es, lives, root, valid).contains(es[i]),
{
    lemma_not_kept(es, lives, root, valid, i);
}

/// An entry still live on disk and pointing at its recorded source under
/// the managed root, but no longer declared by any package, has its
/// symlink deleted and is dropped from the footprint.
pub proof fn law_undeclared_is_unlinked(
    es: Seq<FootprintLink>,
    lives: Seq<LiveLink>,
    root: Seq<char>,
    valid: Seq<Link>,
    i: int,
)
    requires
        distinct_pairs(es),
        lives.len() == es.len(),
        0 <= i < es.len(),
        lives[i] matches LiveLink::Symlink(Some(t)) && t@ == es[i].src@,
        within(es[i].src@, root),
        !declared(valid, entry_pair(es[i])),
    ensures
        clean_action(es[i], lives[i], root, valid) == CleanAction::Unlink,
        !kept(es, lives, root, valid).contains(es[i]),
        unlinked(es, lives, root, valid).contains(es[i].dest@),
{
    lemma_not_kept(es, lives, root, valid, i);
    lemma_unlinked_entries(es, lives, root, valid, i);
}

proof fn lemma_not_kept(
    es: Seq<FootprintLink>,
    lives: Seq<LiveLink>,
    root: Seq<char>,
    valid: Seq<Link>,
    i: int,
)
    requires
        distinct_pairs(es),
        lives.len() == es.len(),
        0 <= i < es.len(),
        clean_action(es[i], lives[i], root, valid) != CleanAction::Keep,
    ensures
        !kept(es, lives, root, valid).contains(es[i]),
{
    lemma_kept_entries(es, lives, root, valid);
    let all = kept(es, lives, root, valid);
    if all.contains(es[i]) {
        let m = choose|m: int| 0 <= m < all.len() && all[m] == es[i];
        assert(kept_from(es, lives, root, valid, all[m]));
        let k = choose|k: int|
            0 <= k < es.len() && k < lives.len() && #[trigger] es[k] == all[m] && clean_action(
                es[k],
                lives[k],
                root,
                valid,
            ) == CleanAction::Keep;
        assert(k != i);
        assert(entry_pair(es[k]) != entry_pair(es[i]));
    }
}

} // verus!
