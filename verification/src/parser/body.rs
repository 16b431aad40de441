//! The body of a request, which is read only when somebody asks for it.

use vstd::prelude::*;

verus! {

/// The body of a request. It starts out unread and knows how many bytes it
/// will hold. Whoever owns the connection reads that many bytes when the body
/// is first asked for, and hands them over once; from then on the body is
/// kept here.
#[derive(Debug)]
pub struct LazyBodyReader {
    buffer: Vec<u8>,
    length: usize,
    consumed: bool,
}

impl LazyBodyReader {
    /// How many bytes the body holds.
    pub closed spec fn spec_length(&self) -> usize {
        self.length
    }

    /// Whether the bytes have been handed over.
    pub closed spec fn spec_consumed(&self) -> bool {
        self.consumed
    }

    /// The bytes that have been handed over; none before that.
    pub closed spec fn content(&self) -> Seq<u8> {
        self.buffer@
    }

    #[verifier::type_invariant]
    closed spec fn inv(&self) -> bool {
        if self.consumed {
            self.buffer@.len() == self.length
        } else {
            self.buffer@.len() == 0
        }
    }

    /// An unread body of `content_length` bytes.
    pub fn new(content_length: usize) -> (reader: Self)
        ensures
            reader.spec_length() == content_length,
            !reader.spec_consumed(),
            reader.content() == Seq::<u8>::empty(),
    {
        LazyBodyReader { buffer: Vec::new(), length: content_length, consumed: false }
    }

    pub fn length(&self) -> (n: usize)
        ensures
            n == self.spec_length(),
    {
        self.length
    }

    pub fn is_consumed(&self) -> (b: bool)
        ensures
            b == self.spec_consumed(),
    {
        self.consumed
    }

    /// How many bytes have to be read from the connection before the body can
    /// be given out: all of them the first time, none after that.
    pub fn wanted(&self) -> (n: usize)
        ensures
            n == (if self.spec_consumed() {
                0usize
            } else {
                self.spec_length()
            }),
    {
        if self.consumed {
            0
        } else {
            self.length
        }
    }

    /// Takes the bytes that were read from the connection. The first bytes
    /// that fit are kept; anything handed over later, or of another length,
    /// is refused and changes nothing.
    pub fn supply(&mut self, bytes: Vec<u8>) -> (taken: bool)
        ensures
            taken == (!old(self).spec_consumed() && bytes@.len() == old(self).spec_length()),
            final(self).spec_length() == old(self).spec_length(),
            taken ==> final(self).spec_consumed() && final(self).content() == bytes@,
            !taken ==> final(self).spec_consumed() == old(self).spec_consumed(),
            !taken ==> final(self).content() == old(self).content(),
    {
        proof {
            use_type_invariant(&*self);
        }
        if self.consumed || bytes.len() != self.length {
            false
        } else {
            let length = self.length;
            *self = LazyBodyReader { buffer: bytes, length, consumed: true };
            true
        }
    }

    /// The body, once it has been read.
    pub fn read_all(&self) -> (body: Option<&Vec<u8>>)
        ensures
            body is Some == self.spec_consumed(),
            body matches Some(b) ==> b@ == self.content() && b@.len() == self.spec_length(),
    {
        proof {
            use_type_invariant(self);
        }
        if self.consumed {
            Some(&self.buffer)
        } else {
            None
        }
    }

    /// Gives the body away, once it has been read.
    pub fn consume_all(self) -> (body: Option<Vec<u8>>)
        ensures
            body is Some == self.spec_consumed(),
            body matches Some(b) ==> b@ == self.content() && b@.len() == self.spec_length(),
    {
        proof {
            use_type_invariant(&self);
        }
        if self.consumed {
            Some(self.buffer)
        } else {
            None
        }
    }
}

} // verus!
