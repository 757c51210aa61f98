//! A growable byte sequence with a read cursor.

use vstd::prelude::*;
use vstd::slice::slice_subrange;

verus! {

/// Bytes written at the end and read from the front; what was read stays in
/// the sequence, behind the cursor.
pub struct BytesBuffer {
    bytes: Vec<u8>,
    cursor: usize,
}

impl BytesBuffer {
    /// The cursor never passes the end of the bytes.
    pub closed spec fn wf(&self) -> bool {
        self.cursor <= self.bytes@.len()
    }

    /// Every byte written so far, read or not.
    pub closed spec fn data(&self) -> Seq<u8> {
        self.bytes@
    }

    /// How many bytes have been read.
    pub closed spec fn pos(&self) -> nat {
        self.cursor as nat
    }

    /// The bytes not read yet.
    pub open spec fn unread(&self) -> Seq<u8> {
        self.data().subrange(self.pos() as int, self.data().len() as int)
    }

    pub fn from_bytes(bytes: Vec<u8>) -> (r: Self)
        ensures
            r.wf(),
            r.data() == bytes@,
            r.pos() == 0,
            r.unread() == bytes@,
    {
        let r = Self { bytes, cursor: 0 };
        assert(r.unread() =~= bytes@);
        r
    }

    pub fn empty() -> (r: Self)
        ensures
            r.wf(),
            r.data() == Seq::<u8>::empty(),
            r.pos() == 0,
            r.unread() == Seq::<u8>::empty(),
    {
        Self::from_bytes(Vec::new())
    }

    /// Appends `new_bytes`; the cursor stays where it is.
    pub fn write_bytes(&mut self, new_bytes: &[u8])
        requires
            old(self).wf(),
        ensures
            final(self).wf(),
            final(self).data() == old(self).data() + new_bytes@,
            final(self).pos() == old(self).pos(),
            final(self).unread() == old(self).unread() + new_bytes@,
    {
        let ghost before = self.bytes@;
        let mut i: usize = 0;
        while i < new_bytes.len()
            invariant
                0 <= i <= new_bytes@.len(),
                self.cursor == old(self).cursor,
                self.cursor <= before.len(),
                self.bytes@ == before + new_bytes@.subrange(0, i as int),
            decreases new_bytes@.len() - i,
        {
            self.bytes.push(new_bytes[i]);
            i = i + 1;
            assert(self.bytes@ =~= before + new_bytes@.subrange(0, i as int));
        }
        assert(new_bytes@.subrange(0, i as int) =~= new_bytes@);
        assert(self.unread() =~= old(self).unread() + new_bytes@);
    }

    /// The next `bytes_count` unread bytes, or `None`, leaving the buffer
    /// as it was, where fewer remain.
    pub fn read_bytes(&mut self, bytes_count: usize) -> (r: Option<&[u8]>)
        requires
            old(self).wf(),
        ensures
            final(self).wf(),
            final(self).data() == old(self).data(),
            old(self).unread().len() < bytes_count ==> r is None && final(self).pos() == old(self).pos(),
            old(self).unread().len() >= bytes_count ==> {
                &&& r matches Some(s)
                &&& s@ == old(self).unread().subrange(0, bytes_count as int)
                &&& final(self).pos() == old(self).pos() + bytes_count
                &&& final(self).unread() == old(self).unread().subrange(
                    bytes_count as int,
                    old(self).unread().len() as int,
                )
            },
    {
        if self.bytes.len() - self.cursor < bytes_count {
            None
        } else {
            let old_cursor = self.cursor;
            self.cursor = self.cursor + bytes_count;
            assert(self.unread() =~= old(self).unread().subrange(
                bytes_count as int,
                old(self).unread().len() as int,
            ));
            let s = slice_subrange(self.bytes.as_slice(), old_cursor, self.cursor);
            assert(s@ =~= old(self).unread().subrange(0, bytes_count as int));
            Some(s)
        }
    }

    /// All unread bytes, or `None`, leaving the buffer as it was, where none
    /// remain.
    pub fn read_all(&mut self) -> (r: Option<&[u8]>)
        requires
            old(self).wf(),
        ensures
            final(self).wf(),
            final(self).data() == old(self).data(),
            old(self).unread().len() == 0 ==> r is None && final(self).pos() == old(self).pos(),
            old(self).unread().len() > 0 ==> {
                &&& r matches Some(s)
                &&& s@ == old(self).unread()
                &&& final(self).pos() == old(self).data().len()
                &&& final(self).unread() == Seq::<u8>::empty()
            },
    {
        let remaining = self.bytes.len() - self.cursor;
        if remaining == 0 {
            None
        } else {
            assert(old(self).unread().subrange(0, remaining as int) =~= old(self).unread());
            assert(old(self).unread().subrange(remaining as int, remaining as int)
                =~= Seq::<u8>::empty());
            self.read_bytes(remaining)
        }
    }
}

} // verus!
