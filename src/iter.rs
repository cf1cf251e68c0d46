//! A forward-only reader over a borrowed byte slice that never reads past
//! its end.
use vstd::prelude::*;

verus! {

/// A cursor over a borrowed byte slice.
///
/// The position only moves forward. A failed [`Bytes::slice_to`] still moves
/// it, so after any failed read the cursor is of no further use.
pub struct Bytes<'a> {
    slice: &'a [u8],
    pos: usize,
}

impl<'a> Bytes<'a> {
    /// The bytes the cursor reads from.
    pub closed spec fn data(&self) -> Seq<u8> {
        self.slice@
    }

    /// The current offset into [`Bytes::data`]; it may lie past the end.
    pub closed spec fn position(&self) -> nat {
        self.pos as nat
    }

    /// A cursor at the start of `slice`.
    pub fn new(slice: &'a [u8]) -> (r: Self)
        ensures
            r.data() == slice@,
            r.position() == 0,
    {
        Bytes { slice, pos: 0 }
    }

    /// The current offset.
    pub fn pos(&self) -> (r: usize)
        ensures
            r == self.position(),
    {
        self.pos
    }

    /// The next byte, if one is left; the position moves by one only then.
    pub fn next(&mut self) -> (r: Option<u8>)
        ensures
            final(self).data() == old(self).data(),
            old(self).position() < old(self).data().len() ==> {
                &&& r == Some(old(self).data()[old(self).position() as int])
                &&& final(self).position() == old(self).position() + 1
            },
            old(self).position() >= old(self).data().len() ==> {
                &&& r is None
                &&& final(self).position() == old(self).position()
            },
    {
        if self.pos < self.slice.len() {
            let b = self.slice[self.pos];
            self.pos = self.pos + 1;
            Some(b)
        } else {
            None
        }
    }

    /// The next `count` bytes, borrowed from the underlying slice, or `None`
    /// if fewer remain. The position moves by `count` either way.
    pub fn slice_to(&mut self, count: usize) -> (r: Option<&'a [u8]>)
        requires
            old(self).position() + count <= usize::MAX,
        ensures
            final(self).data() == old(self).data(),
            final(self).position() == old(self).position() + count,
            old(self).position() + count <= old(self).data().len() ==> (r matches Some(s) && s@
                == old(self).data().subrange(
                old(self).position() as int,
                old(self).position() + count,
            )),
            old(self).position() + count > old(self).data().len() ==> r is None,
    {
        let start = self.pos;
        self.pos = self.pos + count;
        if self.pos <= self.slice.len() {
            Some(vstd::slice::slice_subrange(self.slice, start, self.pos))
        } else {
            None
        }
    }
}

} // verus!
