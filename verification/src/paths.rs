//! File system paths, and the paths of entries inside a project.

use std::path::PathBuf;
use vstd::prelude::*;

verus! {

/// `std::path::PathBuf`, carried through as an opaque value.
#[verifier::external_type_specification]
#[verifier::external_body]
pub struct ExPathBuf(std::path::PathBuf);

/// What a path holds: its components, from the first to the last, each written as plain
/// bytes. Two components are written with the same bytes exactly when they compare equal. The
/// bytes of a name are those that it has in the path.
pub uninterp spec fn path_components(path: PathBuf) -> Seq<Seq<u8>>;

/// What `base.join(rest)` holds: its components.
pub uninterp spec fn joined_components(base: PathBuf, rest: PathBuf) -> Seq<Seq<u8>>;

/// A name that reads the same wherever in a path it stands, on every system: it holds none of the
/// characters `/`, `\` and `:`, and is not `.`, the current directory.
pub open spec fn is_plain_name(name: Seq<u8>) -> bool {
    &&& !name.contains(0x2f)
    &&& !name.contains(0x5c)
    &&& !name.contains(0x3a)
    &&& name != seq![0x2eu8]
}

/// Below `base`, the path has plain names only.
pub open spec fn is_plain_below(base: PathBuf, path: PathBuf) -> bool {
    forall|i: int|
        path_components(base).len() <= i < path_components(path).len() ==> is_plain_name(
            #[trigger] path_components(path)[i],
        )
}

/// The rest of a path after `base`: joined onto `base`, it is the path again. It is empty exactly
/// where the path has nothing below `base`. Where the path has plain names only below `base`,
/// those are what the rest holds.
pub open spec fn is_rest(base: PathBuf, path: PathBuf, rest: PathBuf) -> bool {
    &&& joined_components(base, rest) == path_components(path)
    &&& path_components(rest).len() == 0 <==> path_components(path).len() == path_components(
        base,
    ).len()
    &&& is_plain_below(base, path) ==> path_components(path) == path_components(base)
        + path_components(rest)
}

/// `PathBuf::new`: a path without components.
#[verifier::external_body]
pub(crate) fn empty_path() -> (path: PathBuf)
    ensures
        path_components(path) == Seq::<Seq<u8>>::empty(),
{
    PathBuf::new()
}

/// `<PathBuf as Clone>::clone`: a duplicate of the path.
#[verifier::external_body]
pub(crate) fn clone_path(path: &PathBuf) -> (copy: PathBuf)
    ensures
        copy == *path,
{
    path.clone()
}

/// `<PathBuf as PartialEq>::eq`: paths are compared component by component.
#[verifier::external_body]
pub(crate) fn same_path(a: &PathBuf, b: &PathBuf) -> (same: bool)
    ensures
        same == (path_components(*a) == path_components(*b)),
{
    a == b
}

/// `Path::strip_prefix`: the rest of `path` after `base`. Only whole components match, so there
/// is a rest exactly when the components of `base` come first among those of `path`. What comes
/// back yields `path` when it is joined onto `base`, and has no components exactly when `path` has
/// as many as `base`. It holds the components that come after those of `base`, where they are
/// plain names; of others this is left unsaid, since the rest may read differently on its own.
#[verifier::external_body]
pub(crate) fn strip_prefix(path: &PathBuf, base: &PathBuf) -> (rest: Option<PathBuf>)
    ensures
        rest is Some <==> path_components(*base).is_prefix_of(path_components(*path)),
        rest matches Some(tail) ==> joined_components(*base, tail) == path_components(*path),
        rest matches Some(tail) ==> (path_components(tail).len() == 0 <==> path_components(
            *path,
        ).len() == path_components(*base).len()),
        rest matches Some(tail) ==> (is_plain_below(*base, *path) ==> path_components(*path)
            == path_components(*base) + path_components(tail)),
{
    match path.strip_prefix(base) {
        Ok(tail) => Some(tail.to_path_buf()),
        Err(_) => None,
    }
}

/// The path of an entry: a worktree, and where in it the entry lies.
#[derive(Debug)]
pub struct ProjectPath {
    pub worktree_id: usize,
    pub path: PathBuf,
}

/// What names an entry: the id of its worktree, and the components of its path there.
pub type EntryKey = (usize, Seq<Seq<u8>>);

impl View for ProjectPath {
    type V = EntryKey;

    open spec fn view(&self) -> EntryKey {
        (self.worktree_id, path_components(self.path))
    }
}

impl Clone for ProjectPath {
    fn clone(&self) -> (copy: Self)
        ensures
            copy == *self,
    {
        ProjectPath { worktree_id: self.worktree_id, path: clone_path(&self.path) }
    }
}

impl PartialEq for ProjectPath {
    fn eq(&self, other: &Self) -> (same: bool) {
        self.worktree_id == other.worktree_id && same_path(&self.path, &other.path)
    }
}

impl Eq for ProjectPath {

}

impl vstd::std_specs::cmp::PartialEqSpecImpl for ProjectPath {
    open spec fn obeys_eq_spec() -> bool {
        true
    }

    open spec fn eq_spec(&self, other: &Self) -> bool {
        self@ == other@
    }
}

} // verus!
