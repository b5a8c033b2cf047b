//! The virtual buffer: owned bytes with a read cursor.
//!
//! The cursor is a byte offset from the start. A seek may put it past the
//! end of the bytes; a read there copies nothing.

use vstd::prelude::*;

verus! {

/// What a virtual buffer holds: its bytes and where the next read starts.
pub struct BufferState {
    pub bytes: Seq<u8>,
    pub cursor: nat,
}

impl BufferState {
    /// The state of a buffer that was just made from `bytes`.
    pub open spec fn fresh(bytes: Seq<u8>) -> BufferState {
        BufferState { bytes, cursor: 0 }
    }

    /// How many bytes lie between the cursor and the end; none when the
    /// cursor is past the end.
    pub open spec fn remaining(self) -> nat {
        if self.cursor <= self.bytes.len() {
            (self.bytes.len() - self.cursor) as nat
        } else {
            0
        }
    }

    /// The bytes from the cursor to the end; none when the cursor is past
    /// the end.
    pub open spec fn unread(self) -> Seq<u8> {
        if self.cursor <= self.bytes.len() {
            self.bytes.subrange(self.cursor as int, self.bytes.len() as int)
        } else {
            Seq::empty()
        }
    }

    /// The same bytes with the cursor at `cursor`.
    pub open spec fn at(self, cursor: nat) -> BufferState {
        BufferState { bytes: self.bytes, cursor }
    }
}

/// Where a seek is measured from, with its offset.
#[derive(Clone, Copy, Debug)]
pub enum SeekFrom {
    /// An absolute position.
    Start(u64),
    /// An offset from the cursor.
    Current(i64),
    /// An offset from the end of the bytes.
    End(i64),
}

/// The position that a seek asks for, before any range check.
pub open spec fn seek_target(state: BufferState, to: SeekFrom) -> int {
    match to {
        SeekFrom::Start(position) => position as int,
        SeekFrom::Current(offset) => state.cursor + offset,
        SeekFrom::End(offset) => state.bytes.len() + offset,
    }
}

/// A cursor can stand at `target`: it is not negative and fits in 64 bits.
pub open spec fn reachable(target: int) -> bool {
    0 <= target <= u64::MAX
}

/// An in-memory stand-in for the content of one open asset.
pub struct VirtualBuffer {
    data: Vec<u8>,
    pos: u64,
}

impl View for VirtualBuffer {
    type V = BufferState;

    closed spec fn view(&self) -> BufferState {
        BufferState { bytes: self.data@, cursor: self.pos as nat }
    }
}

impl VirtualBuffer {
    /// A buffer over `data` with the cursor at the start.
    pub fn new(data: Vec<u8>) -> (r: VirtualBuffer)
        ensures
            r@ == BufferState::fresh(data@),
    {
        VirtualBuffer { data, pos: 0 }
    }

    /// The total number of bytes.
    pub fn len(&self) -> (r: usize)
        ensures
            r == self@.bytes.len(),
    {
        self.data.len()
    }

    /// The cursor.
    pub fn position(&self) -> (r: u64)
        ensures
            r == self@.cursor,
    {
        self.pos
    }

    /// The number of bytes from the cursor to the end.
    pub fn remaining(&self) -> (r: usize)
        ensures
            r == self@.remaining(),
    {
        let len: usize = self.data.len();
        if self.pos <= len as u64 {
            len - self.pos as usize
        } else {
            0
        }
    }

    /// The bytes themselves, from the start, whatever the cursor.
    pub fn bytes(&self) -> (r: &[u8])
        ensures
            r@ == self@.bytes,
    {
        self.data.as_slice()
    }

    /// Copies bytes from the cursor on into the front of `dst` and moves the
    /// cursor past them. Copies as many as `dst` takes and the buffer has
    /// left; the rest of `dst` stays as it was.
    pub fn read(&mut self, dst: &mut [u8]) -> (n: usize)
        ensures
            n == vstd::math::min(old(dst)@.len() as int, old(self)@.remaining() as int),
            final(self)@ == old(self)@.at(old(self)@.cursor + n as nat),
            final(dst)@ == old(self)@.unread().take(n as int) + old(dst)@.skip(n as int),
    {
        let left: usize = self.remaining();
        let n: usize = if dst.len() < left {
            dst.len()
        } else {
            left
        };
        if n == 0 {
            assert(dst@ =~= self@.unread().take(0) + dst@.skip(0));
            return 0;
        }
        let len: usize = self.data.len();
        let start: usize = self.pos as usize;
        let mut i: usize = 0;
        while i < n
            invariant
                i <= n,
                n <= left,
                start + left == len,
                len == self.data@.len(),
                start == old(self)@.cursor,
                self.data@ == old(self)@.bytes,
                self.pos == old(self).pos,
                dst@.len() == old(dst)@.len(),
                n <= dst@.len(),
                forall|j: int| 0 <= j < i ==> dst@[j] == self.data@[start + j],
                forall|j: int| i <= j < dst@.len() ==> dst@[j] == old(dst)@[j],
            decreases n - i,
        {
            dst[i] = self.data[start + i];
            i += 1;
        }
        self.pos = self.pos + n as u64;
        assert(dst@ =~= old(self)@.unread().take(n as int) + old(dst)@.skip(n as int));
        n
    }

    /// Moves the cursor to the position that `to` asks for. A position that
    /// is negative or does not fit in 64 bits is refused, and the cursor
    /// stays where it was.
    pub fn seek(&mut self, to: SeekFrom) -> (r: Option<u64>)
        ensures
            match r {
                Some(position) => {
                    &&& reachable(seek_target(old(self)@, to))
                    &&& position == seek_target(old(self)@, to)
                    &&& final(self)@ == old(self)@.at(position as nat)
                },
                None => {
                    &&& !reachable(seek_target(old(self)@, to))
                    &&& final(self)@ == old(self)@
                },
            },
    {
        let target: i128 = match to {
            SeekFrom::Start(position) => position as i128,
            SeekFrom::Current(offset) => self.pos as i128 + offset as i128,
            SeekFrom::End(offset) => self.data.len() as i128 + offset as i128,
        };
        if target < 0 || target > u64::MAX as i128 {
            None
        } else {
            self.pos = target as u64;
            Some(self.pos)
        }
    }
}

} // verus!
