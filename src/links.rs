use vstd::prelude::*;

verus! {

/// Whether a path names the dotfile inside a package or the symlink to create.
#[derive(Clone, Copy, Debug, PartialEq, Eq, Structural)]
pub enum AnchorKind {
    /// The dotfile a link points at.
    Source,
    /// The symlink location.
    Destination,
}

impl AnchorKind {
    /// The name of the role, as shown in messages.
    pub fn label(&self) -> (r: &'static str)
        ensures
            r@ == kind_label(*self),
    {
        match self {
            AnchorKind::Source => "Source",
            AnchorKind::Destination => "Destination",
        }
    }
}

pub open spec fn kind_label(k: AnchorKind) -> Seq<char> {
    match k {
        AnchorKind::Source => "Source"@,
        AnchorKind::Destination => "Destination"@,
    }
}

/// A path together with its role in a link. The role never changes.
#[derive(Debug)]
pub struct Anchor {
    pub kind: AnchorKind,
    pub path: String,
}

impl Anchor {
    /// An anchor for a dotfile.
    pub fn new_src(path: &str) -> (r: Anchor)
        ensures
            r.kind == AnchorKind::Source,
            r.path@ == path@,
    {
        Anchor { kind: AnchorKind::Source, path: String::from_str(path) }
    }

    /// An anchor for a symlink location.
    pub fn new_dest(path: &str) -> (r: Anchor)
        ensures
            r.kind == AnchorKind::Destination,
            r.path@ == path@,
    {
        Anchor { kind: AnchorKind::Destination, path: String::from_str(path) }
    }

    /// An equal copy of this anchor.
    pub fn copy(&self) -> (r: Anchor)
        ensures
            r == *self,
    {
        Anchor { kind: self.kind, path: self.path.clone() }
    }
}

/// A pair of anchors: the dotfile and the symlink that should point at it.
#[derive(Debug)]
pub struct Link {
    pub src: Anchor,
    pub dest: Anchor,
}

impl Link {
    /// A link from `src` (the dotfile) to `dest` (the symlink).
    pub fn new(src: &str, dest: &str) -> (r: Link)
        ensures
            r.src.kind == AnchorKind::Source,
            r.dest.kind == AnchorKind::Destination,
            r.src.path@ == src@,
            r.dest.path@ == dest@,
    {
        Link { src: Anchor::new_src(src), dest: Anchor::new_dest(dest) }
    }

    /// An equal copy of this link.
    pub fn copy(&self) -> (r: Link)
        ensures
            r == *self,
    {
        Link { src: self.src.copy(), dest: self.dest.copy() }
    }

    /// The pair of paths, source first.
    pub open spec fn pair(&self) -> (Seq<char>, Seq<char>) {
        (self.src.path@, self.dest.path@)
    }
}

} // verus!
