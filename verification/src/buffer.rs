//! A fixed-capacity byte accumulator over caller-supplied storage.
//!
//! The storage never grows: `push` fills it from the front, and running out of
//! room is a programmer error that every caller rules out up front. The view
//! of the accumulator is the filled prefix of its storage.

use vstd::prelude::*;

verus! {

/// What `core::str::from_utf8` decodes a byte sequence to: the character
/// sequence when the bytes are valid UTF-8, and nothing otherwise. The result
/// depends on the bytes alone.
pub uninterp spec fn utf8_decode(bytes: Seq<u8>) -> Option<Seq<char>>;

/// A bounded byte sink backed by storage handed over at construction.
pub struct FixedVec {
    inner: Vec<u8>,
    len: usize,
}

impl View for FixedVec {
    type V = Seq<u8>;

    /// The filled prefix of the storage.
    closed spec fn view(&self) -> Seq<u8> {
        self.inner@.subrange(0, self.len as int)
    }
}

impl FixedVec {
    /// The whole backing storage, filled slots and spare ones alike.
    pub closed spec fn storage(&self) -> Seq<u8> {
        self.inner@
    }

    /// How many bytes the storage can hold in all.
    pub open spec fn capacity(&self) -> nat {
        self.storage().len()
    }

    /// The number of filled slots.
    pub closed spec fn filled(&self) -> nat {
        self.len as nat
    }

    /// The filled prefix never outgrows the storage.
    pub open spec fn wf(&self) -> bool {
        self.filled() <= self.capacity() && self@.len() == self.filled()
    }

    /// Take over `inner` as the backing storage, with nothing filled yet.
    pub fn new(inner: Vec<u8>) -> (r: Self)
        ensures
            r.wf(),
            r@ == Seq::<u8>::empty(),
            r.capacity() == inner@.len(),
            r.storage() == inner@,
    {
        let r = Self { inner, len: 0 };
        proof {
            assert(r@ =~= Seq::<u8>::empty());
        }
        r
    }

    /// Write `value` into the first spare slot without claiming it: the
    /// filled prefix stays as it was.
    pub fn fake_push(&mut self, value: u8)
        requires
            old(self).wf(),
            old(self)@.len() < old(self).capacity(),
        ensures
            final(self).wf(),
            final(self)@ == old(self)@,
            final(self).storage() == old(self).storage().update(old(self)@.len() as int, value),
    {
        self.inner[self.len] = value;
        proof {
            assert(final(self)@ =~= old(self)@);
        }
    }

    /// Append one byte to the filled prefix.
    pub fn push(&mut self, value: u8)
        requires
            old(self).wf(),
            old(self)@.len() < old(self).capacity(),
        ensures
            final(self).wf(),
            final(self)@ == old(self)@.push(value),
            final(self).capacity() == old(self).capacity(),
    {
        let room = self.inner.len();
        assert(self.len < room);
        self.inner[self.len] = value;
        self.len = self.len + 1;
        proof {
            assert(final(self)@ =~= old(self)@.push(value));
        }
    }

    /// The length of the filled prefix.
    pub fn len(&self) -> (r: usize)
        requires
            self.wf(),
        ensures
            r == self@.len(),
    {
        self.len
    }

    /// Drop the filled prefix; the storage keeps its size.
    pub fn clear(&mut self)
        ensures
            final(self).wf(),
            final(self)@ == Seq::<u8>::empty(),
            final(self).capacity() == old(self).capacity(),
    {
        self.len = 0;
        proof {
            assert(final(self)@ =~= Seq::<u8>::empty());
        }
    }

    /// Append every byte of `slice`, front to back.
    pub fn push_slice(&mut self, slice: &[u8])
        requires
            old(self).wf(),
            old(self)@.len() + slice@.len() <= old(self).capacity(),
        ensures
            final(self).wf(),
            final(self)@ == old(self)@ + slice@,
            final(self).capacity() == old(self).capacity(),
    {
        let ghost start = self@;
        let mut i: usize = 0;
        while i < slice.len()
            invariant
                self.wf(),
                i <= slice@.len(),
                self@ == start + slice@.subrange(0, i as int),
                self.capacity() == old(self).capacity(),
                start.len() + slice@.len() <= self.capacity(),
            decreases slice@.len() - i,
        {
            self.push(slice[i]);
            i = i + 1;
            proof {
                assert(self@ =~= start + slice@.subrange(0, i as int));
            }
        }
        proof {
            assert(slice@.subrange(0, slice@.len() as int) =~= slice@);
        }
    }

    /// A copy of the filled prefix.
    pub fn to_vec(&self) -> (r: Vec<u8>)
        requires
            self.wf(),
        ensures
            r@ == self@,
    {
        let mut r: Vec<u8> = Vec::new();
        let mut i: usize = 0;
        while i < self.len
            invariant
                self.wf(),
                i <= self.filled(),
                r@ == self@.subrange(0, i as int),
            decreases self.filled() - i,
        {
            r.push(self.inner[i]);
            i = i + 1;
            proof {
                assert(self@[i - 1] == self.inner@[i - 1]);
                assert(r@ =~= self@.subrange(0, i as int));
            }
        }
        proof {
            assert(self@.subrange(0, self@.len() as int) =~= self@);
        }
        r
    }

    /// The filled prefix read as UTF-8, when it is valid UTF-8.
    ///
    /// Relies on `core::str::from_utf8`: it succeeds exactly on valid UTF-8,
    /// and the characters it hands back depend on the bytes alone.
    #[verifier::external_body]
    pub fn as_str(&self) -> (r: Option<&str>)
        requires
            self.wf(),
        ensures
            match r {
                Some(s) => utf8_decode(self@) == Some(s@),
                None => utf8_decode(self@) is None,
            },
    {
        core::str::from_utf8(&self.inner[..self.len]).ok()
    }
}

} // verus!
