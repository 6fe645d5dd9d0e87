use vstd::prelude::*;

use crate::issues::{
    has_level, level_of, max_level, FileKind, ResolveIssue, ResolveIssueKind, ResolveIssueLevel,
};
use crate::links::{Anchor, AnchorKind, Link};
use crate::paths::{
    destination_path, home_relative, is_absolute, is_absolute_spec, joined,
};

verus! {

/// Why the filesystem could not canonicalize a path.
#[derive(Clone, Copy, Debug, PartialEq, Eq, Structural)]
pub enum FsErrorKind {
    NotFound,
    PermissionDenied,
    Other,
}

/// A failed filesystem query: its kind and its message.
#[derive(Debug)]
pub struct FsError {
    pub kind: FsErrorKind,
    pub message: String,
}

/// What occupies a destination path, inspected without following a symlink.
#[derive(Debug)]
pub enum DestState {
    /// Nothing is there.
    Absent,
    /// A symlink. `target` is what it stores (`None` where it could not be
    /// read); `dangling` is set when that target does not exist.
    Symlink { target: Option<String>, dangling: bool },
    /// An entry that is not a symlink.
    Occupied(FileKind),
    /// The entry exists but its metadata could not be read; the message says why.
    Unreadable(String),
}

/// The issue that a failed canonicalization of a source gives.
pub open spec fn issue_for_error(e: FsError) -> ResolveIssueKind {
    match e.kind {
        FsErrorKind::NotFound => ResolveIssueKind::NotFound,
        FsErrorKind::PermissionDenied => ResolveIssueKind::PermissionDenied,
        FsErrorKind::Other => ResolveIssueKind::IO(e.message),
    }
}

/// Whether the symlink at a destination already points at the resolved source.
pub open spec fn points_at(target: Option<String>, src: Option<String>) -> bool {
    match (target, src) {
        (Some(t), Some(s)) => t@ == s@,
        _ => false,
    }
}

/// The issue, if any, that the entry found at a destination gives. A
/// symlink that already points at the source is no issue: the link is
/// installed. So is a dangling symlink, which does not hold anything.
pub open spec fn dest_issue(state: DestState, src: Option<String>) -> Option<ResolveIssueKind> {
    match state {
        DestState::Absent => None,
        DestState::Symlink { target, dangling } => if dangling || target is None || points_at(
            target,
            src,
        ) {
            None
        } else {
            Some(ResolveIssueKind::AlreadyExists(FileKind::Symlink))
        },
        DestState::Occupied(k) => Some(ResolveIssueKind::AlreadyExists(k)),
        DestState::Unreadable(m) => Some(ResolveIssueKind::IO(m)),
    }
}

/// `r` is the resolution of the declared source `anchor`, given what
/// canonicalizing it gave.
pub open spec fn resolves_src(anchor: Anchor, canonical: Result<String, FsError>, r: ResolvedAnchor) -> bool {
    &&& r.original == anchor
    &&& is_absolute_spec(anchor.path@) ==> r.path is None && r.issues@.len() == 1
        && r.issues@[0].anchor == anchor && r.issues@[0].kind is InvalidPath
    &&& !is_absolute_spec(anchor.path@) ==> match canonical {
        Ok(p) => r.path == Some(p) && r.issues@.len() == 0,
        Err(e) => r.path is None && r.issues@ == seq![
            ResolveIssue { kind: issue_for_error(e), anchor },
        ],
    }
}

/// `r` is the resolution of the declared destination `anchor` against
/// `home`, given the entry found there and the link's resolved source.
pub open spec fn resolves_dest(
    anchor: Anchor,
    home: Seq<char>,
    src: Option<String>,
    state: DestState,
    r: ResolvedAnchor,
) -> bool {
    &&& r.original == anchor
    &&& is_absolute_spec(anchor.path@) ==> r.path is None && r.issues@.len() == 1
        && r.issues@[0].anchor == anchor && r.issues@[0].kind is InvalidPath
    &&& !is_absolute_spec(anchor.path@) ==> r.path is Some && r.path->0@ == joined(
        home,
        home_relative(anchor.path@),
    ) && match dest_issue(state, src) {
        None => r.issues@.len() == 0,
        Some(k) => r.issues@ == seq![ResolveIssue { kind: k, anchor }],
    }
}

/// An anchor whose path was resolved and checked; what went wrong is
/// collected in `issues`.
#[derive(Debug)]
pub struct ResolvedAnchor {
    /// The resolved path; `None` where the declared path could not be resolved.
    pub path: Option<String>,
    /// The anchor as declared.
    pub original: Anchor,
    pub issues: Vec<ResolveIssue>,
}

/// A link whose two anchors were resolved.
#[derive(Debug)]
pub struct ResolvedLink {
    pub src: ResolvedAnchor,
    pub dest: ResolvedAnchor,
}

impl ResolvedAnchor {
    pub fn new(original: Anchor) -> (r: ResolvedAnchor)
        ensures
            r.path is None,
            r.original == original,
            r.issues@.len() == 0,
    {
        ResolvedAnchor { path: None, original, issues: Vec::new() }
    }

    pub fn kind(&self) -> (r: AnchorKind)
        ensures
            r == self.original.kind,
    {
        self.original.kind
    }

    /// Whether some issue of this anchor has severity `level`.
    pub fn has_level(&self, level: ResolveIssueLevel) -> (r: bool)
        ensures
            r == has_level(self.issues@, level),
    {
        let mut i: usize = 0;
        while i < self.issues.len()
            invariant
                i <= self.issues@.len(),
                forall|j: int| 0 <= j < i ==> #[trigger] level_of(self.issues@[j].kind) != level,
            decreases self.issues@.len() - i,
        {
            if self.issues[i].level() == level {
                return true;
            }
            i += 1;
        }
        false
    }

    pub fn has_errors(&self) -> (r: bool)
        ensures
            r == has_level(self.issues@, ResolveIssueLevel::Error),
    {
        self.has_level(ResolveIssueLevel::Error)
    }

    pub fn has_warnings(&self) -> (r: bool)
        ensures
            r == has_level(self.issues@, ResolveIssueLevel::Warning),
    {
        self.has_level(ResolveIssueLevel::Warning)
    }

    pub fn has_issues(&self) -> (r: bool)
        ensures
            r == (self.issues@.len() > 0),
    {
        self.issues.len() > 0
    }

    /// The anchor's effective severity: the highest among its issues.
    pub fn max_issue_level(&self) -> (r: Option<ResolveIssueLevel>)
        ensures
            r == max_level(self.issues@),
    {
        if self.has_errors() {
            Some(ResolveIssueLevel::Error)
        } else if self.has_warnings() {
            Some(ResolveIssueLevel::Warning)
        } else {
            None
        }
    }

    /// Records that another link of the plan resolves to the same path.
    pub fn mark_as_duplicate(&mut self)
        ensures
            final(self).path == old(self).path,
            final(self).original == old(self).original,
            final(self).issues@ == old(self).issues@.push(
                ResolveIssue { kind: ResolveIssueKind::Conflict, anchor: old(self).original },
            ),
    {
        let issue = ResolveIssue::new(&self.original, ResolveIssueKind::Conflict);
        self.issues.push(issue);
    }
}

impl ResolvedLink {
    /// The issues of both anchors, those of the source first.
    pub fn issues(&self) -> (r: Vec<ResolveIssue>)
        ensures
            r@ == self.src.issues@ + self.dest.issues@,
    {
        let mut out: Vec<ResolveIssue> = Vec::new();
        let mut i: usize = 0;
        while i < self.src.issues.len()
            invariant
                i <= self.src.issues@.len(),
                out@ == self.src.issues@.take(i as int),
            decreases self.src.issues@.len() - i,
        {
            out.push(self.src.issues[i].copy());
            i += 1;
            assert(out@ =~= self.src.issues@.take(i as int));
        }
        let mut k: usize = 0;
        while k < self.dest.issues.len()
            invariant
                k <= self.dest.issues@.len(),
                out@ == self.src.issues@ + self.dest.issues@.take(k as int),
            decreases self.dest.issues@.len() - k,
        {
            out.push(self.dest.issues[k].copy());
            k += 1;
            assert(out@ =~= self.src.issues@ + self.dest.issues@.take(k as int));
        }
        assert(self.dest.issues@.take(k as int) =~= self.dest.issues@);
        out
    }

    pub fn has_errors(&self) -> (r: bool)
        ensures
            r == (has_level(self.src.issues@, ResolveIssueLevel::Error) || has_level(
                self.dest.issues@,
                ResolveIssueLevel::Error,
            )),
    {
        self.src.has_errors() || self.dest.has_errors()
    }

    pub fn has_warnings(&self) -> (r: bool)
        ensures
            r == (has_level(self.src.issues@, ResolveIssueLevel::Warning) || has_level(
                self.dest.issues@,
                ResolveIssueLevel::Warning,
            )),
    {
        self.src.has_warnings() || self.dest.has_warnings()
    }

    /// The link between the two resolved paths, where both resolved.
    pub fn as_link(&self) -> (r: Option<Link>)
        ensures
            r is Some <==> (self.src.path is Some && self.dest.path is Some),
            r matches Some(l) ==> l.src.kind == AnchorKind::Source && l.dest.kind
                == AnchorKind::Destination && l.src.path@ == self.src.path->0@ && l.dest.path@
                == self.dest.path->0@,
    {
        match (&self.src.path, &self.dest.path) {
            (Some(s), Some(d)) => Some(Link::new(s.as_str(), d.as_str())),
            _ => None,
        }
    }
}

/// Resolves a declared source. `canonical` is what canonicalizing the
/// declaration adjoined to the package root gave; an absolute declaration
/// is invalid and `canonical` is then not looked at.
pub fn resolve_src(anchor: Anchor, canonical: Result<String, FsError>) -> (r: ResolvedAnchor)
    requires
        anchor.kind == AnchorKind::Source,
    ensures
        resolves_src(anchor, canonical, r),
{
    let mut src = ResolvedAnchor::new(anchor);
    if is_absolute(src.original.path.as_str()) {
        let issue = ResolveIssue::new(
            &src.original,
            ResolveIssueKind::InvalidPath(String::from_str("Expected it to be a relative path.")),
        );
        src.issues.push(issue);
        return src;
    }
    match canonical {
        Ok(p) => {
            src.path = Some(p);
        },
        Err(e) => {
            let kind = match e.kind {
                FsErrorKind::NotFound => ResolveIssueKind::NotFound,
                FsErrorKind::PermissionDenied => ResolveIssueKind::PermissionDenied,
                FsErrorKind::Other => ResolveIssueKind::IO(e.message),
            };
            let issue = ResolveIssue::new(&src.original, kind);
            src.issues.push(issue);
            assert(src.issues@ =~= seq![ResolveIssue { kind: issue_for_error(e), anchor }]);
        },
    }
    src
}

/// Resolves a declared destination against `home`. `state` is what was
/// found at the resolved path and `src` the resolved source of the link;
/// an absolute declaration is invalid and `state` is then not looked at.
pub fn resolve_dest(anchor: Anchor, home: &str, src: &Option<String>, state: DestState) -> (r:
    ResolvedAnchor)
    requires
        anchor.kind == AnchorKind::Destination,
    ensures
        resolves_dest(anchor, home@, *src, state, r),
{
    let mut dest = ResolvedAnchor::new(anchor);
    let path = destination_path(home, dest.original.path.as_str());
    match path {
        None => {
            let issue = ResolveIssue::new(
                &dest.original,
                ResolveIssueKind::InvalidPath(
                    String::from_str("Expected a path relative to the home directory."),
                ),
            );
            dest.issues.push(issue);
            dest
        },
        Some(p) => {
            dest.path = Some(p);
            let kind: Option<ResolveIssueKind> = match state {
                DestState::Absent => None,
                DestState::Symlink { target, dangling } => {
                    let same = match (&target, src) {
                        (Some(t), Some(s)) => *t == *s,
                        _ => false,
                    };
                    if dangling || target.is_none() || same {
                        None
                    } else {
                        Some(ResolveIssueKind::AlreadyExists(FileKind::Symlink))
                    }
                },
                DestState::Occupied(k) => Some(ResolveIssueKind::AlreadyExists(k)),
                DestState::Unreadable(m) => Some(ResolveIssueKind::IO(m)),
            };
            match kind {
                Some(k) => {
                    let issue = ResolveIssue::new(&dest.original, k);
                    dest.issues.push(issue);
                    assert(dest.issues@ =~= seq![ResolveIssue { kind: k, anchor }]);
                },
                None => {},
            }
            dest
        },
    }
}

/// Resolves both anchors of a declared link; a failure of one does not
/// stop the other. `canonical` and `state` are what the filesystem gave
/// for the source and for the destination, as `resolve_src` and
/// `resolve_dest` describe.
pub fn resolve(link: Link, home: &str, canonical: Result<String, FsError>, state: DestState) -> (r:
    ResolvedLink)
    requires
        link.src.kind == AnchorKind::Source,
        link.dest.kind == AnchorKind::Destination,
    ensures
        resolves_src(link.src, canonical, r.src),
        resolves_dest(link.dest, home@, r.src.path, state, r.dest),
{
    let src = resolve_src(link.src, canonical);
    let dest = resolve_dest(link.dest, home, &src.path, state);
    ResolvedLink { src, dest }
}

} // verus!
