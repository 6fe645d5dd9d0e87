use vstd::prelude::*;
use vstd::string::*;

verus! {

/// A path is absolute when it starts at the root directory.
pub open spec fn is_absolute_spec(p: Seq<char>) -> bool {
    p.len() > 0 && p[0] == '/'
}

/// The home marker that a declared destination may start with.
pub open spec fn has_home_prefix(p: Seq<char>) -> bool {
    p.len() >= 2 && p[0] == '~' && p[1] == '/'
}

/// A declared destination with its leading `~/`, if any, taken off.
pub open spec fn home_relative(p: Seq<char>) -> Seq<char> {
    if has_home_prefix(p) {
        p.subrange(2, p.len() as int)
    } else {
        p
    }
}

/// What `Utf8Path::join` gives for `base` adjoined with `rel`.
pub uninterp spec fn joined(base: Seq<char>, rel: Seq<char>) -> Seq<char>;

/// Whether `base` is a prefix of `p`, by whole path components.
pub uninterp spec fn within(p: Seq<char>, base: Seq<char>) -> bool;

/// Relies on camino's `Utf8Path::join`, which adjoins `rel` to `base`.
#[verifier::external_body]
pub(crate) fn join_paths(base: &str, rel: &str) -> (r: String)
    ensures
        r@ == joined(base@, rel@),
{
    camino::Utf8Path::new(base).join(rel).into_string()
}

/// Relies on camino's `Utf8Path::starts_with`, which compares whole components.
#[verifier::external_body]
pub(crate) fn path_starts_with(p: &str, base: &str) -> (r: bool)
    ensures
        r == within(p@, base@),
{
    camino::Utf8Path::new(p).starts_with(base)
}

/// Whether the two texts are equal, character for character.
pub fn same_text(a: &str, b: &str) -> (r: bool)
    ensures
        r == (a@ == b@),
{
    let n = a.unicode_len();
    if n != b.unicode_len() {
        return false;
    }
    let mut i: usize = 0;
    while i < n
        invariant
            n == a@.len() == b@.len(),
            i <= n,
            forall|k: int| 0 <= k < i ==> a@[k] == b@[k],
        decreases n - i,
    {
        if a.get_char(i) != b.get_char(i) {
            return false;
        }
        i += 1;
    }
    assert(a@ =~= b@);
    true
}

/// Whether the path starts at the root directory.
pub fn is_absolute(p: &str) -> (r: bool)
    ensures
        r == is_absolute_spec(p@),
{
    p.unicode_len() > 0 && p.get_char(0) == '/'
}

/// The declared destination without its leading `~/`.
pub fn strip_home_prefix(p: &str) -> (r: &str)
    ensures
        r@ == home_relative(p@),
{
    let n = p.unicode_len();
    if n >= 2 && p.get_char(0) == '~' && p.get_char(1) == '/' {
        p.substring_char(2, n)
    } else {
        p
    }
}

/// Where a declared source lies: `None` for an absolute declaration, which
/// is invalid, else the declaration adjoined to the package root.
pub fn source_path(root: &str, declared: &str) -> (r: Option<String>)
    ensures
        r is None <==> is_absolute_spec(declared@),
        r matches Some(p) ==> p@ == joined(root@, declared@),
{
    if is_absolute(declared) {
        None
    } else {
        Some(join_paths(root, declared))
    }
}

/// Where a declared destination lies: `None` for an absolute declaration,
/// which is invalid, else the declaration without `~/` adjoined to `home`.
pub fn destination_path(home: &str, declared: &str) -> (r: Option<String>)
    ensures
        r is None <==> is_absolute_spec(declared@),
        r matches Some(p) ==> p@ == joined(home@, home_relative(declared@)),
{
    if is_absolute(declared) {
        None
    } else {
        let rel = strip_home_prefix(declared);
        Some(join_paths(home, rel))
    }
}

} // verus!
