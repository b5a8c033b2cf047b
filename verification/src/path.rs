//! Asset paths, read as `/`-separated names.
//!
//! A path is a byte string. Its names are the runs of bytes between
//! separators, but for the runs that name nothing: an empty run (two
//! separators in a row, or one at either end) and a single dot. So `a/b`,
//! `a//b`, `a/./b` and `a/b/` all have the names `a` and `b`.

use crate::bytes::equal;
use vstd::prelude::*;

verus! {

/// The byte that separates names: `/`.
pub const SEPARATOR: u8 = 47;

/// The byte `.`.
pub const DOT: u8 = 46;

/// Where the run of bytes without a separator that starts at `from` ends:
/// at the next separator, or at the end of the path.
pub open spec fn segment_end(path: Seq<u8>, from: int) -> int
    decreases path.len() - from,
{
    if from < 0 || from >= path.len() || path[from] == SEPARATOR {
        from
    } else {
        segment_end(path, from + 1)
    }
}

/// Where the run after the one that starts at `from` begins: behind the
/// separator that ends it, if one does.
pub open spec fn after_segment(path: Seq<u8>, from: int) -> int {
    let end = segment_end(path, from);
    if 0 <= end < path.len() {
        end + 1
    } else {
        end
    }
}

/// The run names nothing: it is empty or a single dot.
pub open spec fn is_blank(segment: Seq<u8>) -> bool {
    segment.len() == 0 || segment == seq![DOT]
}

/// The run of bytes without a separator that starts at `from`.
pub open spec fn segment_at(path: Seq<u8>, from: int) -> Seq<u8> {
    path.subrange(from, segment_end(path, from))
}

/// `segment_end` stays inside the path, passes no separator and stops at
/// one.
pub proof fn lemma_segment_end(path: Seq<u8>, from: int)
    requires
        0 <= from <= path.len(),
    ensures
        from <= segment_end(path, from) <= path.len(),
        forall|j: int| from <= j < segment_end(path, from) ==> path[j] != SEPARATOR,
        segment_end(path, from) < path.len() ==> path[segment_end(path, from)] == SEPARATOR,
        from < path.len() ==> from < after_segment(path, from) <= path.len(),
    decreases path.len() - from,
{
    if from < path.len() && path[from] != SEPARATOR {
        lemma_segment_end(path, from + 1);
    }
}

/// The names of the path from byte `from` on, in order.
pub open spec fn names_from(path: Seq<u8>, from: int) -> Seq<Seq<u8>>
    decreases path.len() - from,
{
    if from < 0 || from >= path.len() {
        Seq::empty()
    } else {
        proof {
            lemma_segment_end(path, from);
        }
        let rest = names_from(path, after_segment(path, from));
        if is_blank(segment_at(path, from)) {
            rest
        } else {
            seq![segment_at(path, from)] + rest
        }
    }
}

/// The names of the path, in order.
pub open spec fn names(path: Seq<u8>) -> Seq<Seq<u8>> {
    names_from(path, 0)
}

/// The name `..`, which stands for the directory above.
pub open spec fn parent_name() -> Seq<u8> {
    seq![DOT, DOT]
}

/// The file name of a path: its last name, unless the path has no name or
/// ends in `..`.
pub open spec fn spec_file_name(path: Seq<u8>) -> Option<Seq<u8>> {
    let all = names(path);
    if all.len() > 0 && all.last() != parent_name() {
        Some(all.last())
    } else {
        None
    }
}

/// The first place at or after `from` where a name starts; the end of the
/// path where none does.
pub open spec fn skip_blanks(path: Seq<u8>, from: int) -> int
    decreases path.len() - from,
{
    if from < 0 || from >= path.len() {
        from
    } else if is_blank(segment_at(path, from)) {
        proof {
            lemma_segment_end(path, from);
        }
        skip_blanks(path, after_segment(path, from))
    } else {
        from
    }
}

/// The place in the path behind the first `count` names that start at or
/// after `from`, and behind the separator that ends the last of them.
pub open spec fn after_names(path: Seq<u8>, from: int, count: nat) -> int
    decreases path.len() - from,
{
    if count == 0 || from < 0 || from >= path.len() {
        from
    } else {
        proof {
            lemma_segment_end(path, from);
        }
        if is_blank(segment_at(path, from)) {
            after_names(path, after_segment(path, from), count)
        } else {
            after_names(path, after_segment(path, from), (count - 1) as nat)
        }
    }
}

/// How a path starts, before its names.
#[derive(Clone, Copy, PartialEq, Eq, Structural, Debug)]
pub enum Lead {
    /// With a separator: the path is absolute.
    Root,
    /// With a dot that is a run of its own: the path says "from here".
    CurrentDir,
    /// With a name, or not at all.
    Relative,
}

/// How the path starts.
pub open spec fn lead(path: Seq<u8>) -> Lead {
    if path.len() > 0 && path[0] == SEPARATOR {
        Lead::Root
    } else if path.len() > 0 && path[0] == DOT && (path.len() == 1 || path[1] == SEPARATOR) {
        Lead::CurrentDir
    } else {
        Lead::Relative
    }
}

/// Where the names of the path start: behind the byte that makes it
/// absolute or "from here", if it has one.
pub open spec fn body_start(path: Seq<u8>) -> int {
    if lead(path) == Lead::Relative {
        0
    } else {
        1
    }
}

/// Where `path[from..to]` ends once the runs at its end that name nothing
/// are cut off, with the separators before them.
pub open spec fn trim_end(path: Seq<u8>, from: int, to: int) -> int
    decreases to - from,
{
    if to <= from {
        from
    } else if path[to - 1] == SEPARATOR {
        trim_end(path, from, to - 1)
    } else if path[to - 1] == DOT && (to - 1 == from || path[to - 2] == SEPARATOR) {
        trim_end(path, from, to - 1)
    } else {
        to
    }
}

/// What is left of `path` behind the names of `base`.
///
/// `base` is a prefix of `path` where both start the same way and the names
/// of `base` are the first names of `path`, one for one. What is left then
/// starts at the first name behind them and ends with the last name of the
/// path, so it neither starts nor ends with a separator. An empty `base`
/// is a prefix of every path and takes nothing from its front.
pub open spec fn spec_strip_prefix(path: Seq<u8>, base: Seq<u8>) -> Option<Seq<u8>> {
    let wanted = names(base);
    if base.len() == 0 {
        Some(path.subrange(0, trim_end(path, body_start(path), path.len() as int)))
    } else if lead(base) != lead(path) {
        None
    } else if wanted.len() <= names(path).len() && names(path).take(wanted.len() as int)
        == wanted {
        let start = skip_blanks(path, after_names(path, 0, wanted.len()));
        Some(path.subrange(start, trim_end(path, start, path.len() as int)))
    } else {
        None
    }
}

/// Every name is a run of bytes that holds no separator and is neither
/// empty nor a single dot.
pub proof fn lemma_names_are_plain(path: Seq<u8>, from: int)
    requires
        0 <= from <= path.len(),
    ensures
        forall|index: int|
            0 <= index < names_from(path, from).len() ==> {
                let name = #[trigger] names_from(path, from)[index];
                &&& !is_blank(name)
                &&& !name.contains(SEPARATOR)
            },
    decreases path.len() - from,
{
    if from < path.len() {
        lemma_segment_end(path, from);
        lemma_names_are_plain(path, after_segment(path, from));
        let first = segment_at(path, from);
        let rest = names_from(path, after_segment(path, from));
        assert forall|index: int| 0 <= index < names_from(path, from).len() implies {
            let name = #[trigger] names_from(path, from)[index];
            &&& !is_blank(name)
            &&& !name.contains(SEPARATOR)
        } by {
            if is_blank(first) {
                assert(names_from(path, from)[index] == rest[index]);
            } else if index == 0 {
                assert(names_from(path, from)[index] == first);
            } else {
                assert(names_from(path, from)[index] == rest[index - 1]);
            }
        }
    }
}

/// A file name holds no separator and is neither empty, nor `.`, nor `..`.
pub proof fn lemma_file_name_is_plain(path: Seq<u8>)
    ensures
        spec_file_name(path) matches Some(name) ==> {
            &&& name.len() > 0
            &&& !name.contains(SEPARATOR)
            &&& name != seq![DOT]
            &&& name != parent_name()
        },
{
    lemma_names_are_plain(path, 0);
}

/// Counting names in two steps is counting them in one.
proof fn lemma_after_names_add(path: Seq<u8>, from: int, first: nat, second: nat)
    requires
        0 <= from <= path.len(),
    ensures
        after_names(path, from, first + second) == after_names(
            path,
            after_names(path, from, first),
            second,
        ),
        from <= after_names(path, from, first) <= path.len(),
    decreases path.len() - from,
{
    if first == 0 || from >= path.len() {
        if first != 0 && second == 0 {
            assert(after_names(path, from, first + second) == from);
        }
    } else {
        lemma_segment_end(path, from);
        if is_blank(segment_at(path, from)) {
            lemma_after_names_add(path, after_segment(path, from), first, second);
        } else {
            lemma_after_names_add(path, after_segment(path, from), (first - 1) as nat, second);
            assert((first - 1) as nat + second == (first + second - 1) as nat);
        }
    }
}

/// Finds the end of the run that starts at `from`.
fn find_segment_end(path: &[u8], from: usize) -> (end: usize)
    requires
        from <= path@.len(),
    ensures
        end == segment_end(path@, from as int),
        from <= end <= path@.len(),
{
    let mut end: usize = from;
    while end < path.len() && path[end] != SEPARATOR
        invariant
            from <= end <= path@.len(),
            segment_end(path@, from as int) == segment_end(path@, end as int),
        decreases path@.len() - end,
    {
        end += 1;
    }
    end
}

/// Tells whether the run `path[from..end]` names nothing.
fn blank(path: &[u8], from: usize, end: usize) -> (r: bool)
    requires
        from <= end <= path@.len(),
    ensures
        r == is_blank(path@.subrange(from as int, end as int)),
{
    if end == from {
        true
    } else if end - from == 1 && path[from] == DOT {
        assert(path@.subrange(from as int, end as int) =~= seq![DOT]);
        true
    } else {
        if end - from == 1 {
            assert(path@.subrange(from as int, end as int)[0] != seq![DOT][0]);
        } else {
            assert(path@.subrange(from as int, end as int).len() != seq![DOT].len());
        }
        false
    }
}

/// One name of a path, as the range of its bytes, with the place where the
/// search for the following name starts.
struct NameAt {
    start: usize,
    end: usize,
    next: usize,
}

/// Finds the first name at or after `from`.
fn next_name(path: &[u8], from: usize) -> (r: Option<NameAt>)
    requires
        from <= path@.len(),
    ensures
        match r {
            Some(found) => {
                &&& from <= found.start < found.end <= found.next <= path@.len()
                &&& found.start == skip_blanks(path@, from as int)
                &&& found.end == segment_end(path@, found.start as int)
                &&& found.next == after_segment(path@, found.start as int)
                &&& !is_blank(segment_at(path@, found.start as int))
                &&& names_from(path@, from as int) == seq![segment_at(path@, found.start as int)]
                    + names_from(path@, found.next as int)
                &&& after_names(path@, from as int, 1) == found.next
            },
            None => {
                &&& names_from(path@, from as int).len() == 0
                &&& skip_blanks(path@, from as int) == path@.len()
                &&& forall|count: nat|
                    #[trigger] after_names(path@, from as int, count) == if count == 0 {
                        from as int
                    } else {
                        path@.len() as int
                    }
            },
        },
{
    let mut at: usize = from;
    while at < path.len()
        invariant
            from <= at <= path@.len(),
            names_from(path@, from as int) == names_from(path@, at as int),
            skip_blanks(path@, from as int) == skip_blanks(path@, at as int),
            forall|count: nat|
                count > 0 ==> #[trigger] after_names(path@, from as int, count) == after_names(
                    path@,
                    at as int,
                    count,
                ),
        decreases path@.len() - at,
    {
        let end: usize = find_segment_end(path, at);
        proof {
            lemma_segment_end(path@, at as int);
        }
        let next: usize = if end < path.len() {
            end + 1
        } else {
            end
        };
        if !blank(path, at, end) {
            assert(after_names(path@, next as int, 0) == next);
            return Some(NameAt { start: at, end, next });
        }
        at = next;
    }
    None
}

/// The file name of `path`: its last name. There is none where the path
/// has no name at all (it is empty, or made of separators and single dots)
/// and where its last name is `..`.
pub fn file_name(path: &[u8]) -> (r: Option<&[u8]>)
    ensures
        match r {
            Some(name) => {
                &&& spec_file_name(path@) == Some(name@)
                &&& name@.len() > 0
                &&& !name@.contains(SEPARATOR)
            },
            None => spec_file_name(path@) is None,
        },
{
    proof {
        lemma_file_name_is_plain(path@);
    }
    let mut from: usize = 0;
    let mut last: Option<NameAt> = None;
    let ghost mut seen: Seq<Seq<u8>> = Seq::empty();
    loop
        invariant
            from <= path@.len(),
            names(path@) == seen + names_from(path@, from as int),
            match last {
                Some(found) => {
                    &&& seen.len() > 0
                    &&& found.start <= found.end <= path@.len()
                    &&& seen.last() == path@.subrange(found.start as int, found.end as int)
                },
                None => seen.len() == 0,
            },
        ensures
            names(path@) == seen,
        decreases path@.len() - from,
    {
        match next_name(path, from) {
            Some(found) => {
                proof {
                    let name = segment_at(path@, found.start as int);
                    assert(seen + (seq![name] + names_from(path@, found.next as int)) =~= seen.push(
                        name,
                    ) + names_from(path@, found.next as int));
                    seen = seen.push(name);
                }
                from = found.next;
                last = Some(found);
            },
            None => {
                assert(names(path@) =~= seen);
                break ;
            },
        }
    }
    match last {
        Some(found) => {
            let name: &[u8] = &path[found.start..found.end];
            if is_parent(name) {
                None
            } else {
                Some(name)
            }
        },
        None => None,
    }
}

/// Tells whether `name` is `..`.
fn is_parent(name: &[u8]) -> (r: bool)
    ensures
        r == (name@ == parent_name()),
{
    if name.len() == 2 && name[0] == DOT && name[1] == DOT {
        assert(name@ =~= parent_name());
        true
    } else {
        if name.len() == 2 {
            assert(name@[0] != parent_name()[0] || name@[1] != parent_name()[1]);
        } else {
            assert(name@.len() != parent_name().len());
        }
        false
    }
}

/// Tells how the path starts.
fn lead_of(path: &[u8]) -> (r: Lead)
    ensures
        r == lead(path@),
{
    if path.len() > 0 && path[0] == SEPARATOR {
        Lead::Root
    } else if path.len() > 0 && path[0] == DOT && (path.len() == 1 || path[1] == SEPARATOR) {
        Lead::CurrentDir
    } else {
        Lead::Relative
    }
}

/// Cuts the runs that name nothing off the end of `path[from..to]`.
fn find_trim_end(path: &[u8], from: usize, to: usize) -> (end: usize)
    requires
        from <= to <= path@.len(),
    ensures
        end == trim_end(path@, from as int, to as int),
        from <= end <= to,
{
    let mut end: usize = to;
    while end > from && (path[end - 1] == SEPARATOR || (path[end - 1] == DOT && (end - 1 == from
        || path[end - 2] == SEPARATOR)))
        invariant
            from <= end <= to,
            to <= path@.len(),
            trim_end(path@, from as int, to as int) == trim_end(path@, from as int, end as int),
        decreases end - from,
    {
        end -= 1;
    }
    end
}

/// Takes the names of `base` off the front of `path`, and returns what is
/// left; `None` where `base` is no prefix of `path`.
pub fn strip_prefix<'a>(path: &'a [u8], base: &[u8]) -> (r: Option<&'a [u8]>)
    ensures
        match r {
            Some(rest) => spec_strip_prefix(path@, base@) == Some(rest@),
            None => spec_strip_prefix(path@, base@) is None,
        },
{
    if base.len() == 0 {
        let start: usize = if lead_of(path) == Lead::Relative {
            0
        } else {
            1
        };
        let end: usize = find_trim_end(path, start, path.len());
        return Some(&path[0..end]);
    }
    if lead_of(base) != lead_of(path) {
        return None;
    }
    let mut in_base: usize = 0;
    let mut in_path: usize = 0;
    let ghost mut taken: Seq<Seq<u8>> = Seq::empty();
    loop
        invariant
            in_base <= base@.len(),
            in_path <= path@.len(),
            names(base@) == taken + names_from(base@, in_base as int),
            names(path@) == taken + names_from(path@, in_path as int),
            in_path == after_names(path@, 0, taken.len()),
            base@.len() > 0,
            lead(base@) == lead(path@),
        ensures
            names(base@) == taken,
            names(path@) == taken + names_from(path@, in_path as int),
            in_path == after_names(path@, 0, taken.len()),
            in_path <= path@.len(),
        decreases base@.len() - in_base,
    {
        let wanted: NameAt = match next_name(base, in_base) {
            Some(found) => found,
            None => {
                assert(names(base@) =~= taken);
                break ;
            },
        };
        let ghost wanted_name = segment_at(base@, wanted.start as int);
        assert(names(base@) =~= taken.push(wanted_name) + names_from(base@, wanted.next as int));
        assert(names(base@)[taken.len() as int] == wanted_name);
        let found: NameAt = match next_name(path, in_path) {
            Some(found) => found,
            None => {
                assert(names(path@) =~= taken);
                return None;
            },
        };
        let ghost found_name = segment_at(path@, found.start as int);
        assert(names(path@) =~= taken.push(found_name) + names_from(path@, found.next as int));
        assert(names(path@)[taken.len() as int] == found_name);
        if !equal(&path[found.start..found.end], &base[wanted.start..wanted.end]) {
            proof {
                if names(base@).len() <= names(path@).len() {
                    assert(names(path@).take(names(base@).len() as int)[taken.len() as int]
                        == found_name);
                }
            }
            return None;
        }
        proof {
            lemma_after_names_add(path@, 0, taken.len(), 1);
            taken = taken.push(found_name);
        }
        in_base = wanted.next;
        in_path = found.next;
    }
    assert(names(path@).take(taken.len() as int) =~= taken);
    let start: usize = match next_name(path, in_path) {
        Some(found) => found.start,
        None => path.len(),
    };
    let end: usize = find_trim_end(path, start, path.len());
    Some(&path[start..end])
}

} // verus!
