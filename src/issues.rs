use vstd::prelude::*;
use vstd::string::*;

use crate::links::{kind_label, Anchor, AnchorKind};

verus! {

/// What kind of entry a path holds on disk, without following a symlink.
#[derive(Clone, Copy, Debug, PartialEq, Eq, Structural)]
pub enum FileKind {
    File,
    Directory,
    Symlink,
    Other,
}

/// How serious an issue is: an error is fatal, a warning can be overridden
/// with the force flag.
#[derive(Clone, Copy, Debug, PartialEq, Eq, Structural)]
pub enum ResolveIssueLevel {
    Error,
    Warning,
}

/// A problem found while resolving one anchor.
#[derive(Debug)]
pub enum ResolveIssueKind {
    /// Another link of the plan resolves to the same destination.
    Conflict,
    /// Something already occupies the destination.
    AlreadyExists(FileKind),
    /// The declared path has the wrong form; the text says which form is expected.
    InvalidPath(String),
    NotFound,
    PermissionDenied,
    /// Any other failure of the filesystem, with its message.
    IO(String),
}

/// An issue together with the anchor, as it was declared, that it concerns.
#[derive(Debug)]
pub struct ResolveIssue {
    pub kind: ResolveIssueKind,
    pub anchor: Anchor,
}

/// The severity of each kind of issue.
pub open spec fn level_of(k: ResolveIssueKind) -> ResolveIssueLevel {
    match k {
        ResolveIssueKind::AlreadyExists(_) => ResolveIssueLevel::Warning,
        _ => ResolveIssueLevel::Error,
    }
}

/// Whether some issue of `issues` has severity `l`.
pub open spec fn has_level(issues: Seq<ResolveIssue>, l: ResolveIssueLevel) -> bool {
    exists|i: int| 0 <= i < issues.len() && #[trigger] level_of(issues[i].kind) == l
}

/// The highest severity among `issues`, an error ranking above a warning.
pub open spec fn max_level(issues: Seq<ResolveIssue>) -> Option<ResolveIssueLevel> {
    if has_level(issues, ResolveIssueLevel::Error) {
        Some(ResolveIssueLevel::Error)
    } else if has_level(issues, ResolveIssueLevel::Warning) {
        Some(ResolveIssueLevel::Warning)
    } else {
        None
    }
}

pub open spec fn lower_label(k: AnchorKind) -> Seq<char> {
    match k {
        AnchorKind::Source => "source"@,
        AnchorKind::Destination => "destination"@,
    }
}

pub open spec fn file_kind_text(k: FileKind) -> Seq<char> {
    match k {
        FileKind::Directory => "a directory"@,
        FileKind::Symlink => "a symbolic link"@,
        FileKind::File => "a file"@,
        FileKind::Other => "an unknown file type"@,
    }
}

/// The one-line message that describes an issue.
pub open spec fn message_of(issue: ResolveIssue) -> Seq<char> {
    let kind = kind_label(issue.anchor.kind);
    let path = issue.anchor.path@;
    match issue.kind {
        ResolveIssueKind::Conflict => "Multiple dots link to the following "@ + lower_label(
            issue.anchor.kind,
        ) + ": "@ + path,
        ResolveIssueKind::AlreadyExists(f) => if issue.anchor.kind == AnchorKind::Destination
            && f == FileKind::Symlink {
            kind + " already exists as "@ + file_kind_text(f) + " to another file: "@ + path
        } else {
            kind + " already exists as "@ + file_kind_text(f) + ": "@ + path
        },
        ResolveIssueKind::InvalidPath(msg) => kind + " is not a valid path. "@ + msg@ + ": "@
            + path,
        ResolveIssueKind::NotFound => "Can't find "@ + kind + ": "@ + path,
        ResolveIssueKind::PermissionDenied => "Permission denied to "@ + kind + ": "@ + path,
        ResolveIssueKind::IO(err) => "Error resolving "@ + kind + " "@ + path + ": "@ + err@,
    }
}

impl FileKind {
    /// How the kind of entry reads in a message.
    pub fn text(&self) -> (r: &'static str)
        ensures
            r@ == file_kind_text(*self),
    {
        match self {
            FileKind::Directory => "a directory",
            FileKind::Symlink => "a symbolic link",
            FileKind::File => "a file",
            FileKind::Other => "an unknown file type",
        }
    }
}

impl ResolveIssueKind {
    /// An equal copy of this kind.
    pub fn copy(&self) -> (r: ResolveIssueKind)
        ensures
            r == *self,
    {
        match self {
            ResolveIssueKind::Conflict => ResolveIssueKind::Conflict,
            ResolveIssueKind::AlreadyExists(f) => ResolveIssueKind::AlreadyExists(*f),
            ResolveIssueKind::InvalidPath(m) => ResolveIssueKind::InvalidPath(m.clone()),
            ResolveIssueKind::NotFound => ResolveIssueKind::NotFound,
            ResolveIssueKind::PermissionDenied => ResolveIssueKind::PermissionDenied,
            ResolveIssueKind::IO(m) => ResolveIssueKind::IO(m.clone()),
        }
    }
}

impl ResolveIssue {
    pub fn new(anchor: &Anchor, kind: ResolveIssueKind) -> (r: ResolveIssue)
        ensures
            r.anchor == *anchor,
            r.kind == kind,
    {
        ResolveIssue { kind, anchor: anchor.copy() }
    }

    /// An equal copy of this issue.
    pub fn copy(&self) -> (r: ResolveIssue)
        ensures
            r == *self,
    {
        ResolveIssue { kind: self.kind.copy(), anchor: self.anchor.copy() }
    }

    /// The severity of the issue, which depends on its kind alone.
    pub fn level(&self) -> (r: ResolveIssueLevel)
        ensures
            r == level_of(self.kind),
    {
        match self.kind {
            ResolveIssueKind::AlreadyExists(_) => ResolveIssueLevel::Warning,
            _ => ResolveIssueLevel::Error,
        }
    }

    /// A single line that describes the issue and names the anchor's declared path.
    pub fn message(&self) -> (r: String)
        ensures
            r@ == message_of(*self),
    {
        let kind = self.anchor.kind.label();
        let path = self.anchor.path.as_str();
        let mut s = String::new();
        match &self.kind {
            ResolveIssueKind::Conflict => {
                s.append("Multiple dots link to the following ");
                let lower = match self.anchor.kind {
                    AnchorKind::Source => "source",
                    AnchorKind::Destination => "destination",
                };
                s.append(lower);
                s.append(": ");
                s.append(path);
            },
            ResolveIssueKind::AlreadyExists(f) => {
                s.append(kind);
                s.append(" already exists as ");
                s.append(f.text());
                if self.anchor.kind == AnchorKind::Destination && *f == FileKind::Symlink {
                    s.append(" to another file: ");
                } else {
                    s.append(": ");
                }
                s.append(path);
            },
            ResolveIssueKind::InvalidPath(msg) => {
                s.append(kind);
                s.append(" is not a valid path. ");
                s.append(msg.as_str());
                s.append(": ");
                s.append(path);
            },
            ResolveIssueKind::NotFound => {
                s.append("Can't find ");
                s.append(kind);
                s.append(": ");
                s.append(path);
            },
            ResolveIssueKind::PermissionDenied => {
                s.append("Permission denied to ");
                s.append(kind);
                s.append(": ");
                s.append(path);
            },
            ResolveIssueKind::IO(err) => {
                s.append("Error resolving ");
                s.append(kind);
                s.append(" ");
                s.append(path);
                s.append(": ");
                s.append(err.as_str());
            },
        }
        proof {
            assert(s@ =~= message_of(*self));
        }
        s
    }
}

} // verus!
