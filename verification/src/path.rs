//! Paths, held as lists of their components.

use vstd::prelude::*;
use vstd::string::*;
use vstd::utf8::encode_utf8;

verus! {

/// One component of a path.
#[derive(Debug)]
pub enum PathPart {
    Prefix(Vec<u8>),
    RootDir,
    CurDir,
    ParentDir,
    /// The name of a directory or a file.
    Normal(Vec<u8>),
}

/// What a [`PathPart`] holds.
pub enum PathPartView {
    Prefix(Seq<u8>),
    RootDir,
    CurDir,
    ParentDir,
    Normal(Seq<u8>),
}

impl View for PathPart {
    type V = PathPartView;

    open spec fn view(&self) -> PathPartView {
        match self {
            PathPart::Prefix(bytes) => PathPartView::Prefix(bytes@),
            PathPart::RootDir => PathPartView::RootDir,
            PathPart::CurDir => PathPartView::CurDir,
            PathPart::ParentDir => PathPartView::ParentDir,
            PathPart::Normal(bytes) => PathPartView::Normal(bytes@),
        }
    }
}

/// The components of a path.
pub open spec fn path_view(path: Seq<PathPart>) -> Seq<PathPartView> {
    path.map_values(|part: PathPart| part@)
}

/// What an optional path holds.
pub open spec fn path_view_opt(path: Option<Vec<PathPart>>) -> Option<Seq<PathPartView>> {
    match path {
        Some(p) => Some(path_view(p@)),
        None => None,
    }
}

/// The path of what has the plain name `name` in the directory `dir`.
pub open spec fn joined_path(dir: Seq<PathPartView>, name: Seq<char>) -> Seq<PathPartView> {
    dir.push(PathPartView::Normal(encode_utf8(name)))
}

impl Clone for PathPart {
    fn clone(&self) -> (copy: Self)
        ensures
            copy@ == self@,
    {
        match self {
            PathPart::Prefix(bytes) => PathPart::Prefix(copy_bytes(bytes)),
            PathPart::RootDir => PathPart::RootDir,
            PathPart::CurDir => PathPart::CurDir,
            PathPart::ParentDir => PathPart::ParentDir,
            PathPart::Normal(bytes) => PathPart::Normal(copy_bytes(bytes)),
        }
    }
}

/// A list of the same bytes.
fn copy_bytes(bytes: &Vec<u8>) -> (out: Vec<u8>)
    ensures
        out@ == bytes@,
{
    vstd::slice::slice_to_vec(bytes.as_slice())
}

/// A path of the same components.
pub fn copy_path(path: &Vec<PathPart>) -> (out: Vec<PathPart>)
    ensures
        path_view(out@) == path_view(path@),
{
    let mut out: Vec<PathPart> = Vec::new();
    let mut i: usize = 0;
    while i < path.len()
        invariant
            i <= path.len(),
            path_view(out@) == path_view(path@).take(i as int),
        decreases path.len() - i,
    {
        let ghost before = out@;
        out.push(path[i].clone());
        assert(path_view(out@) =~= path_view(before).push(path@[i as int]@));
        assert(path_view(path@).take(i + 1) =~= path_view(path@).take(i as int).push(
            path_view(path@)[i as int],
        ));
        i += 1;
    }
    assert(path_view(path@).take(path.len() as int) =~= path_view(path@));
    out
}

/// The path of what has the plain name `name` in the directory `dir`.
pub(crate) fn join(dir: Vec<PathPart>, name: &str) -> (path: Vec<PathPart>)
    ensures
        path_view(path@) == joined_path(path_view(dir@), name@),
{
    let mut path = dir;
    path.push(PathPart::Normal(vstd::slice::slice_to_vec(name.as_bytes())));
    assert(path_view(path@) =~= joined_path(path_view(dir@), name@));
    path
}

/// Whether two lists hold the same bytes.
fn same_bytes(a: &Vec<u8>, b: &Vec<u8>) -> (same: bool)
    ensures
        same == (a@ == b@),
{
    if a.len() != b.len() {
        return false;
    }
    let mut i: usize = 0;
    while i < a.len()
        invariant
            a.len() == b.len(),
            i <= a.len(),
            forall|k: int| 0 <= k < i ==> a@[k] == b@[k],
        decreases a.len() - i,
    {
        if a[i] != b[i] {
            return false;
        }
        i += 1;
    }
    assert(a@ =~= b@);
    true
}

/// Whether two components are the same.
fn same_part(a: &PathPart, b: &PathPart) -> (same: bool)
    ensures
        same == (a@ == b@),
{
    match (a, b) {
        (PathPart::Prefix(x), PathPart::Prefix(y)) => same_bytes(x, y),
        (PathPart::RootDir, PathPart::RootDir) => true,
        (PathPart::CurDir, PathPart::CurDir) => true,
        (PathPart::ParentDir, PathPart::ParentDir) => true,
        (PathPart::Normal(x), PathPart::Normal(y)) => same_bytes(x, y),
        _ => false,
    }
}

/// Whether `path` begins with the components of `base`.
pub fn path_starts_with(path: &Vec<PathPart>, base: &Vec<PathPart>) -> (found: bool)
    ensures
        found == path_view(base@).is_prefix_of(path_view(path@)),
{
    if base.len() > path.len() {
        return false;
    }
    let mut i: usize = 0;
    while i < base.len()
        invariant
            i <= base.len() <= path.len(),
            forall|k: int|
                0 <= k < i ==> #[trigger] path_view(base@)[k] == path_view(path@)[k],
        decreases base.len() - i,
    {
        assert(path_view(base@)[i as int] == base@[i as int]@);
        assert(path_view(path@)[i as int] == path@[i as int]@);
        if !same_part(&base[i], &path[i]) {
            return false;
        }
        i += 1;
    }
    assert(path_view(base@) =~= path_view(path@).subrange(0, base@.len() as int));
    true
}

} // verus!
