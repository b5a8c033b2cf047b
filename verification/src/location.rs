//! Where the resource packs hold what stands for a file of the archive.
//!
//! A few directories of the archive have a directory of the resource packs
//! that stands for them. A path below such a directory is rewritten: the
//! directory of the archive is taken off its front, and the directory of
//! the packs is put there.

use crate::path::{spec_strip_prefix, strip_prefix};
use vstd::prelude::*;
use vstd::string::*;

verus! {

/// A directory of the archive and the directory of the resource packs that
/// stands for it.
#[derive(Clone, Copy, Debug)]
pub struct Rewrite {
    /// The directory in the archive, below its root.
    pub archive_dir: &'static str,
    /// The directory in the resource packs.
    pub pack_dir: &'static str,
}

/// The path below the root directory of the archive: the path itself
/// where it does not start with that directory.
pub open spec fn archive_relative(path: Seq<u8>) -> Seq<u8> {
    match spec_strip_prefix(path, "assets/".spec_bytes()) {
        Some(rest) => rest,
        None => path,
    }
}

/// Where the resource packs hold the content for `path`: the directory of
/// the packs, then what `path` has below the directory of the archive.
/// `None` where `path` is not below that directory.
pub open spec fn rewritten(path: Seq<u8>, rewrite: Rewrite) -> Option<Seq<u8>> {
    match spec_strip_prefix(archive_relative(path), rewrite.archive_dir.spec_bytes()) {
        Some(rest) => Some(rewrite.pack_dir.spec_bytes() + rest),
        None => None,
    }
}

/// All the byte strings of `parts`, one after the other.
pub open spec fn join_all(parts: Seq<&[u8]>) -> Seq<u8>
    decreases parts.len(),
{
    if parts.len() == 0 {
        Seq::empty()
    } else {
        join_all(parts.drop_last()) + parts.last()@
    }
}

/// Joins the parts of a path into one. Each part is taken as it is, so a
/// part that names a directory ends with its separator.
pub fn opt_path_join(paths: &[&[u8]]) -> (r: Vec<u8>)
    ensures
        r@ == join_all(paths@),
{
    let mut out: Vec<u8> = Vec::new();
    let mut i: usize = 0;
    while i < paths.len()
        invariant
            i <= paths@.len(),
            out@ == join_all(paths@.take(i as int)),
        decreases paths@.len() - i,
    {
        let part: &[u8] = paths[i];
        let mut j: usize = 0;
        while j < part.len()
            invariant
                j <= part@.len(),
                out@ == join_all(paths@.take(i as int)) + part@.take(j as int),
            decreases part@.len() - j,
        {
            out.push(part[j]);
            assert(part@.take(j as int).push(part@[j as int]) =~= part@.take(j + 1));
            j += 1;
        }
        assert(part@.take(part@.len() as int) =~= part@);
        assert(paths@.take(i + 1).drop_last() =~= paths@.take(i as int));
        i += 1;
    }
    assert(paths@.take(paths@.len() as int) =~= paths@);
    out
}

/// Where the resource packs hold the content for `path`, if `path` is
/// below the directory of the archive that `rewrite` names.
pub fn rewrite_path(path: &[u8], rewrite: &Rewrite) -> (r: Option<Vec<u8>>)
    ensures
        match r {
            Some(location) => rewritten(path@, *rewrite) == Some(location@),
            None => rewritten(path@, *rewrite) is None,
        },
{
    let stripped: &[u8] = match strip_prefix(path, "assets/".as_bytes()) {
        Some(rest) => rest,
        None => path,
    };
    match strip_prefix(stripped, rewrite.archive_dir.as_bytes()) {
        Some(file) => {
            let parts: [&[u8]; 2] = [rewrite.pack_dir.as_bytes(), file];
            let location: Vec<u8> = opt_path_join(parts.as_slice());
            proof {
                let both = parts@;
                assert(both.drop_last().drop_last() =~= Seq::<&[u8]>::empty());
                assert(join_all(both.drop_last()) =~= rewrite.pack_dir.spec_bytes()) by {
                    reveal_with_fuel(join_all, 2);
                }
                assert(location@ =~= rewrite.pack_dir.spec_bytes() + file@);
            }
            Some(location)
        },
        None => None,
    }
}

} // verus!
