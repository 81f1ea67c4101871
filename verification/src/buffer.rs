//! The read-ahead buffer that cuts a stream of firmware into chunks.

use vstd::prelude::*;

verus! {

/// A buffer of fixed capacity that is filled from a stream at its end and
/// consumed at its front.
pub struct Buffer {
    buf: Vec<u8>,
    level: usize,
}

/// What a [`Buffer`] holds.
pub struct Content {
    /// The bytes that were read and not yet consumed.
    pub pending: Seq<u8>,
    /// The room behind them.  Its bytes mean nothing until a read has
    /// written them and [`Buffer::filled`] has taken them over.
    pub spare: Seq<u8>,
}

impl Content {
    /// The number of bytes that the buffer can hold.
    pub open spec fn capacity(self) -> nat {
        self.pending.len() + self.spare.len()
    }
}

impl View for Buffer {
    type V = Content;

    closed spec fn view(&self) -> Content {
        Content {
            pending: self.buf@.take(self.level as int),
            spare: self.buf@.skip(self.level as int),
        }
    }
}

impl Buffer {
    /// A buffer is well formed when the bytes pending lie within it.
    /// [`Buffer::new`] makes such a buffer, and every method keeps it so.
    pub closed spec fn well_formed(self) -> bool {
        self.level <= self.buf@.len()
    }

    /// An empty buffer for chunks of up to `size` bytes.
    pub fn new(size: usize) -> (buffer: Self)
        ensures
            buffer.well_formed(),
            buffer@.pending.len() == 0,
            buffer@.spare.len() == size,
    {
        let mut buf: Vec<u8> = Vec::new();
        let mut i: usize = 0;
        while i < size
            invariant
                i <= size,
                buf@.len() == i,
            decreases size - i,
        {
            buf.push(0);
            i += 1;
        }
        Buffer { buf, level: 0 }
    }

    /// The bytes that were read and not yet consumed.
    pub fn pending(&self) -> (bytes: &[u8])
        requires
            self.well_formed(),
        ensures
            bytes@ == self@.pending,
    {
        let (pending, _) = self.buf.as_slice().split_at(self.level);
        pending
    }

    /// The number of bytes that can still be read into the buffer.
    pub fn room(&self) -> (room: usize)
        requires
            self.well_formed(),
        ensures
            room == self@.spare.len(),
    {
        self.buf.len() - self.level
    }

    /// Whether nothing is pending.
    pub fn is_empty(&self) -> (empty: bool)
        requires
            self.well_formed(),
        ensures
            empty == (self@.pending.len() == 0),
    {
        self.level == 0
    }

    /// The room behind the pending bytes, for a read to write into.
    pub fn spare(&mut self) -> (room: &mut [u8])
        requires
            old(self).well_formed(),
        ensures
            final(self).well_formed(),
            room@ == old(self)@.spare,
            final(self)@.pending == old(self)@.pending,
            final(self)@.spare == final(room)@,
    {
        let level = self.level;
        let (_, room) = self.buf.as_mut_slice().split_at_mut(level);
        room
    }

    /// Takes over the first `count` bytes of the room, which a read has
    /// just written, as pending.
    pub fn filled(&mut self, count: usize)
        requires
            old(self).well_formed(),
            count <= old(self)@.spare.len(),
        ensures
            final(self).well_formed(),
            final(self)@.pending == old(self)@.pending + old(self)@.spare.take(count as int),
            final(self)@.spare == old(self)@.spare.skip(count as int),
    {
        proof {
            assert(self@.spare.len() == self.buf@.len() - self.level);
        }
        let capacity = self.buf.len();
        assert(self.level + count <= capacity);
        self.level = self.level + count;
        proof {
            assert(final(self)@.pending =~= old(self)@.pending + old(self)@.spare.take(
                count as int,
            ));
            assert(final(self)@.spare =~= old(self)@.spare.skip(count as int));
        }
    }

    /// Drops the first `amt` pending bytes, or all of them where fewer are
    /// pending, and moves the others to the front.  The capacity stays.
    pub fn consume(&mut self, amt: usize)
        requires
            old(self).well_formed(),
        ensures
            final(self).well_formed(),
            amt >= old(self)@.pending.len() ==> final(self)@.pending.len() == 0,
            amt < old(self)@.pending.len() ==> final(self)@.pending == old(self)@.pending.skip(
                amt as int,
            ),
            final(self)@.capacity() == old(self)@.capacity(),
    {
        if amt >= self.level {
            self.level = 0;
        } else {
            let kept = self.level - amt;
            let ghost before = self.buf@;
            let mut i: usize = 0;
            while i < kept
                invariant
                    i <= kept,
                    kept + amt == self.level,
                    self.level <= self.buf@.len(),
                    self.buf@.len() == before.len(),
                    forall|j: int| 0 <= j < i ==> self.buf@[j] == before[j + amt],
                    forall|j: int| i <= j < before.len() ==> self.buf@[j] == before[j],
                decreases kept - i,
            {
                let byte = self.buf[i + amt];
                self.buf[i] = byte;
                i += 1;
            }
            self.level = kept;
            proof {
                assert(final(self)@.pending =~= old(self)@.pending.skip(amt as int));
            }
        }
    }
}

} // verus!
