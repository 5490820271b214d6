//! Fixed-capacity text buffer: raw bytes with a declared maximum length.
//!
//! Assigning more bytes than the declared capacity silently truncates to
//! that capacity; truncation is documented behavior, not an error.

use vstd::prelude::*;

verus! {

/// A text buffer with a declared capacity fixed at construction.  The
/// current contents never exceed the capacity.
#[derive(Debug, PartialEq, Eq)]
pub struct Text {
    capacity: usize,
    bytes: Vec<u8>,
}

impl View for Text {
    type V = Seq<u8>;

    /// The buffer's current contents.
    closed spec fn view(&self) -> Seq<u8> {
        self.bytes@
    }
}

impl Text {
    /// The current contents never exceed the declared capacity.
    #[verifier::type_invariant]
    spec fn type_inv(self) -> bool {
        self.bytes@.len() <= self.capacity
    }

    /// The declared capacity.
    pub closed spec fn spec_capacity(&self) -> nat {
        self.capacity as nat
    }

    /// An empty buffer of the given declared capacity.
    pub fn new(capacity: usize) -> (r: Text)
        ensures
            r@ == Seq::<u8>::empty(),
            r.spec_capacity() == capacity,
    {
        Text { capacity, bytes: Vec::new() }
    }

    /// Discards the contents; the capacity stays.
    pub fn clear(&mut self)
        ensures
            final(self)@ == Seq::<u8>::empty(),
            final(self).spec_capacity() == old(self).spec_capacity(),
    {
        self.bytes = Vec::new();
    }

    /// Appends bytes up to the declared capacity; whatever does not fit is
    /// silently dropped.
    pub fn extend_from_slice(&mut self, value: &[u8])
        ensures
            final(self).spec_capacity() == old(self).spec_capacity(),
            old(self)@.len() + value@.len() <= old(self).spec_capacity() ==> final(self)@ == old(
                self,
            )@ + value@,
            old(self)@.len() + value@.len() > old(self).spec_capacity() ==> final(self)@ == old(
                self,
            )@ + value@.take(old(self).spec_capacity() - old(self)@.len()),
    {
        proof {
            use_type_invariant(&*self);
        }
        let mut buf: Vec<u8> = Vec::new();
        core::mem::swap(&mut buf, &mut self.bytes);
        let room = self.capacity - buf.len();
        let take = if value.len() < room {
            value.len()
        } else {
            room
        };
        let mut i: usize = 0;
        while i < take
            invariant
                i <= take,
                take <= value@.len(),
                buf@ == old(self)@ + value@.take(i as int),
                old(self)@.len() + take <= self.capacity,
            decreases take - i,
        {
            buf.push(value[i]);
            proof {
                assert(value@.take(i + 1) == value@.take(i as int).push(value@[i as int]));
            }
            i = i + 1;
        }
        self.bytes = buf;
        proof {
            if old(self)@.len() + value@.len() <= old(self).spec_capacity() {
                assert(value@.take(take as int) == value@);
            }
        }
    }

    /// The current contents.
    pub fn as_slice(&self) -> (r: &[u8])
        ensures
            r@ == self@,
    {
        self.bytes.as_slice()
    }

    /// A deep copy: same contents, same declared capacity.
    pub fn duplicate(&self) -> (r: Text)
        ensures
            r@ == self@,
            r.spec_capacity() == self.spec_capacity(),
    {
        proof {
            use_type_invariant(&*self);
        }
        let mut bytes: Vec<u8> = Vec::new();
        let mut i: usize = 0;
        while i < self.bytes.len()
            invariant
                i <= self.bytes@.len(),
                bytes@ == self.bytes@.take(i as int),
            decreases self.bytes@.len() - i,
        {
            bytes.push(self.bytes[i]);
            proof {
                assert(self.bytes@.take(i + 1) == self.bytes@.take(i as int).push(
                    self.bytes@[i as int],
                ));
            }
            i = i + 1;
        }
        proof {
            assert(bytes@ == self.bytes@);
        }
        Text { capacity: self.capacity, bytes }
    }

    /// The current length in bytes; it never exceeds the declared capacity.
    pub fn len(&self) -> (r: usize)
        ensures
            r == self@.len(),
            r <= self.spec_capacity(),
    {
        proof {
            use_type_invariant(&*self);
        }
        self.bytes.len()
    }

    /// The declared capacity in bytes.
    pub fn capacity(&self) -> (r: usize)
        ensures
            r == self.spec_capacity(),
    {
        self.capacity
    }
}

} // verus!
