use vstd::prelude::*;

use crate::paths::{join_path, path_join};
use crate::provision::DirEntry;

verus! {

/// What a recursive copy does with one child of the source directory.
#[derive(Debug, Clone)]
pub enum CopyStep {
    /// The child is a directory: copy it, recursively, into this path.
    Descend(String),
    /// The child is a file: copy its bytes to this path, overwriting.
    CopyFile(String),
}

/// The step for the child `entry` of a source directory whose copy goes to
/// `dest`: the target is `dest` joined with the child's name, and only
/// directories are descended into.
pub fn copy_step(dest: &String, entry: &DirEntry) -> (r: CopyStep)
    ensures
        entry.is_dir ==> r is Descend && r->Descend_0@ == path_join(dest@, entry.name@),
        !entry.is_dir ==> r is CopyFile && r->CopyFile_0@ == path_join(dest@, entry.name@),
{
    let target = join_path(dest, entry.name.as_str());
    if entry.is_dir {
        CopyStep::Descend(target)
    } else {
        CopyStep::CopyFile(target)
    }
}

/// Two children of one source directory with different relative names are
/// copied to different targets, and a child's target depends only on the
/// destination and its name: a second copy into the same destination writes
/// over the same files instead of adding new ones.
pub proof fn lemma_copy_targets_distinct(dest: Seq<char>, a: Seq<char>, b: Seq<char>)
    requires
        a.len() > 0,
        b.len() > 0,
        a[0] != '/',
        b[0] != '/',
    ensures
        path_join(dest, a) == path_join(dest, b) <==> a == b,
{
    let prefix = if dest.len() == 0 || dest.last() == '/' {
        dest
    } else {
        dest + seq!['/']
    };
    assert(path_join(dest, a) =~= prefix + a);
    assert(path_join(dest, b) =~= prefix + b);
    if path_join(dest, a) == path_join(dest, b) {
        assert(a =~= (prefix + a).subrange(prefix.len() as int, (prefix + a).len() as int));
        assert(b =~= (prefix + b).subrange(prefix.len() as int, (prefix + b).len() as int));
    }
}

} // verus!
