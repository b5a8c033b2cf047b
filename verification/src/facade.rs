//! The I/O calls that a holder of a handle can make, answered for overlaid
//! handles.
//!
//! Each operation looks the handle up in the registry. Where it is
//! overlaid, the answer comes from its virtual buffer. Where it is not, the
//! operation touches nothing and says `PassThrough`: the call belongs to the
//! archive.

use crate::buffer::{reachable, seek_target, BufferState, SeekFrom, VirtualBuffer};
use crate::registry::{HandleId, Registry};
use vstd::prelude::*;

verus! {

/// The answer of the overlay to one call on a handle.
#[derive(Debug)]
pub enum Served<T> {
    /// The handle is overlaid, and this is the result of the call.
    Virtual(T),
    /// The handle is not overlaid: the archive answers the call.
    PassThrough,
}

/// `whence` for a seek to an absolute position.
pub const SEEK_SET: i32 = 0;

/// `whence` for a seek relative to the cursor.
pub const SEEK_CUR: i32 = 1;

/// `whence` for a seek relative to the end.
pub const SEEK_END: i32 = 2;

/// What a seek, and the request for a file descriptor, return on failure.
pub const FAILED: i32 = -1;

/// `libc::SEEK_SET`, which libc defines as 0.
#[verifier::external_body]
fn libc_seek_set() -> (r: i32)
    ensures
        r == SEEK_SET,
{
    libc::SEEK_SET
}

/// `libc::SEEK_CUR`, which libc defines as 1.
#[verifier::external_body]
fn libc_seek_cur() -> (r: i32)
    ensures
        r == SEEK_CUR,
{
    libc::SEEK_CUR
}

/// `libc::SEEK_END`, which libc defines as 2.
#[verifier::external_body]
fn libc_seek_end() -> (r: i32)
    ensures
        r == SEEK_END,
{
    libc::SEEK_END
}

/// The seek that `whence` and `offset` ask for: none for an unknown
/// `whence`, and none for an absolute position that is negative.
pub open spec fn seek_request(offset: i64, whence: i32) -> Option<SeekFrom> {
    if whence == SEEK_SET {
        if offset >= 0 {
            Some(SeekFrom::Start(offset as u64))
        } else {
            None
        }
    } else if whence == SEEK_CUR {
        Some(SeekFrom::Current(offset))
    } else if whence == SEEK_END {
        Some(SeekFrom::End(offset))
    } else {
        None
    }
}

/// The buffer after a seek by `whence` and `offset`. The cursor moves
/// whenever the position asked for is one a cursor can stand at.
pub open spec fn state_after_seek(state: BufferState, offset: i64, whence: i32) -> BufferState {
    match seek_request(offset, whence) {
        Some(to) => if reachable(seek_target(state, to)) {
            state.at(seek_target(state, to) as nat)
        } else {
            state
        },
        None => state,
    }
}

/// What a seek by `whence` and `offset` returns: the new position, or -1
/// where the request is refused or the new position does not fit in a
/// signed 64-bit offset.
pub open spec fn seek_answer(state: BufferState, offset: i64, whence: i32) -> int {
    match seek_request(offset, whence) {
        Some(to) => if 0 <= seek_target(state, to) <= i64::MAX {
            seek_target(state, to)
        } else {
            -1
        },
        None => -1,
    }
}

/// Seeks in `file` as `whence` and `offset` ask, and returns the new
/// position or -1.
pub fn seek_facade(offset: i64, whence: i32, file: &mut VirtualBuffer) -> (r: i64)
    ensures
        final(file)@ == state_after_seek(old(file)@, offset, whence),
        r == seek_answer(old(file)@, offset, whence),
{
    let to: SeekFrom = if whence == libc_seek_set() {
        if offset < 0 {
            return -1;
        }
        SeekFrom::Start(offset as u64)
    } else if whence == libc_seek_cur() {
        SeekFrom::Current(offset)
    } else if whence == libc_seek_end() {
        SeekFrom::End(offset)
    } else {
        return -1;
    };
    match file.seek(to) {
        Some(position) => if position <= i64::MAX as u64 {
            position as i64
        } else {
            -1
        },
        None => -1,
    }
}

/// Seeks on `id`.
pub fn seek(registry: &mut Registry, id: HandleId, offset: i64, whence: i32) -> (r: Served<i64>)
    ensures
        match r {
            Served::Virtual(position) => {
                &&& old(registry)@.contains_key(id)
                &&& position == seek_answer(old(registry)@[id], offset, whence)
                &&& final(registry)@ == old(registry)@.insert(
                    id,
                    state_after_seek(old(registry)@[id], offset, whence),
                )
            },
            Served::PassThrough => {
                &&& !old(registry)@.contains_key(id)
                &&& final(registry)@ == old(registry)@
            },
        },
{
    match registry.lookup_mut(id) {
        Some(file) => Served::Virtual(seek_facade(offset, whence, file)),
        None => Served::PassThrough,
    }
}

/// Reads from `id` into the front of `dst`, and returns how many bytes
/// were copied.
pub fn read(registry: &mut Registry, id: HandleId, dst: &mut [u8]) -> (r: Served<usize>)
    ensures
        match r {
            Served::Virtual(n) => {
                let before = old(registry)@[id];
                &&& old(registry)@.contains_key(id)
                &&& n == vstd::math::min(old(dst)@.len() as int, before.remaining() as int)
                &&& final(registry)@ == old(registry)@.insert(
                    id,
                    before.at(before.cursor + n as nat),
                )
                &&& final(dst)@ == before.unread().take(n as int) + old(dst)@.skip(n as int)
            },
            Served::PassThrough => {
                &&& !old(registry)@.contains_key(id)
                &&& final(registry)@ == old(registry)@
                &&& final(dst)@ == old(dst)@
            },
        },
{
    match registry.lookup_mut(id) {
        Some(file) => Served::Virtual(file.read(dst)),
        None => Served::PassThrough,
    }
}

/// The total size of the content of `id`.
pub fn len(registry: &Registry, id: HandleId) -> (r: Served<usize>)
    ensures
        match r {
            Served::Virtual(n) => registry@.contains_key(id) && n == registry@[id].bytes.len(),
            Served::PassThrough => !registry@.contains_key(id),
        },
{
    match registry.lookup(id) {
        Some(file) => Served::Virtual(file.len()),
        None => Served::PassThrough,
    }
}

/// The size of what is left to read of `id`: its total size less the
/// cursor, and nothing once the cursor is past the end.
pub fn rem(registry: &Registry, id: HandleId) -> (r: Served<usize>)
    ensures
        match r {
            Served::Virtual(n) => registry@.contains_key(id) && n == registry@[id].remaining(),
            Served::PassThrough => !registry@.contains_key(id),
        },
{
    match registry.lookup(id) {
        Some(file) => Served::Virtual(file.remaining()),
        None => Served::PassThrough,
    }
}

/// Closes `id`: an overlaid handle leaves the registry and its buffer is
/// dropped.
///
/// The overlay releases what it holds itself, and no more. The handle that
/// the archive gave out for an overlaid asset is still open after this
/// call: whether it is to be released too is for the caller to settle with
/// the host.
pub fn close(registry: &mut Registry, id: HandleId) -> (r: Served<()>)
    ensures
        final(registry)@ == old(registry)@.remove(id),
        r is Virtual <==> old(registry)@.contains_key(id),
{
    match registry.remove(id) {
        Some(_) => Served::Virtual(()),
        None => {
            assert(registry@ =~= old(registry)@);
            Served::PassThrough
        },
    }
}

/// The whole content of `id`, for reading without a copy.
pub fn get_buffer(registry: &Registry, id: HandleId) -> (r: Served<&[u8]>)
    ensures
        match r {
            Served::Virtual(bytes) => registry@.contains_key(id) && bytes@ == registry@[id].bytes,
            Served::PassThrough => !registry@.contains_key(id),
        },
{
    match registry.lookup(id) {
        Some(file) => Served::Virtual(file.bytes()),
        None => Served::PassThrough,
    }
}

/// Asks for a file descriptor of `id`. An overlaid handle has none: the
/// answer for it is always -1.
pub fn fd_dummy(registry: &Registry, id: HandleId) -> (r: Served<i32>)
    ensures
        r == if registry@.contains_key(id) {
            Served::Virtual(FAILED)
        } else {
            Served::PassThrough
        },
{
    if registry.contains(id) {
        Served::Virtual(FAILED)
    } else {
        Served::PassThrough
    }
}

/// Asks whether `id` is a memory-mapped region. An overlaid handle is a
/// heap buffer: the answer for it is always no.
pub fn is_alloc(registry: &Registry, id: HandleId) -> (r: Served<bool>)
    ensures
        r == if registry@.contains_key(id) {
            Served::Virtual(false)
        } else {
            Served::PassThrough
        },
{
    if registry.contains(id) {
        Served::Virtual(false)
    } else {
        Served::PassThrough
    }
}

/// A seek to the absolute position `k` inside a buffer of `L` bytes
/// answers `k` and leaves `L - k` bytes to read.
pub proof fn lemma_seek_set_then_rem(state: BufferState, k: i64)
    requires
        0 <= k <= state.bytes.len(),
    ensures
        seek_answer(state, k, SEEK_SET) == k,
        state_after_seek(state, k, SEEK_SET).remaining() == state.bytes.len() - k,
{
}

/// A seek to the end of a buffer leaves nothing to read.
pub proof fn lemma_seek_end_then_rem(state: BufferState)
    requires
        state.bytes.len() <= usize::MAX,
    ensures
        state_after_seek(state, 0, SEEK_END).cursor == state.bytes.len(),
        state_after_seek(state, 0, SEEK_END).remaining() == 0,
{
}

} // verus!
