//! The byte stream that the decoders consume, and the buffer primitives that
//! the encoders append with.

use vstd::prelude::*;
use crate::bytes::Parsed;
use crate::error::DecodeError;

verus! {

/// A cursor over a borrowed byte string. Reading never changes the bytes,
/// only the offset of the next unread byte. A cursor is cheap to copy: a
/// decoder reads on a copy and moves the caller's cursor only when it has a
/// whole value.
#[derive(Clone, Copy)]
pub struct Reader<'a> {
    data: &'a [u8],
    pos: usize,
}

/// The bytes `data[pos .. pos + n]`, or `UnexpectedEndOfInput` if the input
/// is shorter than that.
pub open spec fn parse_bytes(data: Seq<u8>, pos: int, n: nat) -> Parsed<Seq<u8>> {
    if 0 <= pos && pos + n <= data.len() {
        Ok((data.subrange(pos, pos + n), pos + n))
    } else {
        Err(DecodeError::UnexpectedEndOfInput)
    }
}

/// The byte `data[pos]`, or `UnexpectedEndOfInput` at the end of the input.
pub open spec fn parse_u8(data: Seq<u8>, pos: int) -> Parsed<u8> {
    if 0 <= pos < data.len() {
        Ok((data[pos], pos + 1))
    } else {
        Err(DecodeError::UnexpectedEndOfInput)
    }
}

/// How a decoder's outcome and the reader's new state follow from a
/// specification-level parse at the reader's old offset: the bytes are
/// untouched; on success the value is the parsed one and the reader stands
/// just behind it; on failure the error is the parser's and the reader
/// stands where it stood.
pub open spec fn consumed<'a, V>(
    before: Reader<'a>,
    after: Reader<'a>,
    outcome: Result<V, DecodeError>,
    expected: Parsed<V>,
) -> bool {
    &&& after.data() == before.data()
    &&& 0 <= before.pos() <= before.data().len()
    &&& 0 <= after.pos() <= after.data().len()
    &&& match expected {
        Ok((v, next)) => outcome == Ok::<V, DecodeError>(v) && after.pos() == next,
        Err(e) => outcome == Err::<V, DecodeError>(e) && after.pos() == before.pos(),
    }
}

/// A decoder's outcome with the decoded value replaced by its view.
pub open spec fn viewed<T: View>(outcome: Result<T, DecodeError>) -> Result<T::V, DecodeError> {
    match outcome {
        Ok(value) => Ok(value@),
        Err(e) => Err(e),
    }
}

/// A decoder's outcome with the decoded value, if there is one, replaced by
/// its view.
pub open spec fn viewed_option<T: View>(outcome: Result<Option<T>, DecodeError>) -> Result<
    Option<T::V>,
    DecodeError,
> {
    match outcome {
        Ok(Some(value)) => Ok(Some(value@)),
        Ok(None) => Ok(None),
        Err(e) => Err(e),
    }
}

impl<'a> Reader<'a> {
    #[verifier::type_invariant]
    spec fn in_bounds(self) -> bool {
        self.pos <= self.data@.len()
    }

    /// All the bytes under the cursor, read and unread.
    pub closed spec fn data(&self) -> Seq<u8> {
        self.data@
    }

    /// The offset of the next unread byte.
    pub closed spec fn pos(&self) -> int {
        self.pos as int
    }

    /// A reader at the start of `data`.
    pub fn new(data: &'a [u8]) -> (r: Self)
        ensures
            r.data() == data@,
            r.pos() == 0,
    {
        Reader { data, pos: 0 }
    }

    /// The offset of the next unread byte.
    pub fn position(&self) -> (p: usize)
        ensures
            p == self.pos(),
            p <= self.data().len(),
    {
        proof {
            use_type_invariant(self);
        }
        self.pos
    }

    /// The number of unread bytes.
    pub fn remaining(&self) -> (n: usize)
        ensures
            n == self.data().len() - self.pos(),
    {
        proof {
            use_type_invariant(self);
        }
        self.data.len() - self.pos
    }

    /// The bytes under the cursor.
    pub fn bytes(&self) -> (s: &'a [u8])
        ensures
            s@ == self.data(),
    {
        self.data
    }

    /// Moves the cursor to `pos`, if `pos` is within the bytes or just
    /// behind them; otherwise the cursor stays where it is.
    pub fn seek(&mut self, pos: usize) -> (moved: bool)
        ensures
            final(self).data() == old(self).data(),
            moved == (pos <= old(self).data().len()),
            final(self).pos() == if moved {
                pos as int
            } else {
                old(self).pos()
            },
    {
        if pos <= self.data.len() {
            self.pos = pos;
            true
        } else {
            false
        }
    }

    /// Reads one byte.
    pub fn read_u8(&mut self) -> (r: Result<u8, DecodeError>)
        ensures
            consumed(*old(self), *final(self), r, parse_u8(old(self).data(), old(self).pos())),
    {
        proof {
            use_type_invariant(&*self);
        }
        if self.pos < self.data.len() {
            let b = self.data[self.pos];
            self.pos = self.pos + 1;
            Ok(b)
        } else {
            Err(DecodeError::UnexpectedEndOfInput)
        }
    }

    /// Reads exactly `N` bytes into an array.
    pub fn read_array<const N: usize>(&mut self) -> (r: Result<[u8; N], DecodeError>)
        ensures
            consumed(
                *old(self),
                *final(self),
                viewed(r),
                parse_bytes(old(self).data(), old(self).pos(), N as nat),
            ),
    {
        proof {
            use_type_invariant(&*self);
        }
        if self.data.len() - self.pos < N {
            return Err(DecodeError::UnexpectedEndOfInput);
        }
        let mut out = [0u8; N];
        let start = self.pos;
        let mut i: usize = 0;
        while i < N
            invariant
                i <= N,
                start + N <= self.data@.len() <= usize::MAX,
                self.pos == start,
                self.data@ == old(self).data@,
                forall|j: int| 0 <= j < i ==> out@[j] == self.data@[start + j],
            decreases N - i,
        {
            out[i] = self.data[start + i];
            i += 1;
        }
        self.pos = start + N;
        assert(out@ =~= self.data@.subrange(start as int, start + N));
        Ok(out)
    }

    /// Reads exactly `n` bytes into a vector.
    pub fn read_vec(&mut self, n: usize) -> (r: Result<Vec<u8>, DecodeError>)
        ensures
            consumed(
                *old(self),
                *final(self),
                viewed(r),
                parse_bytes(old(self).data(), old(self).pos(), n as nat),
            ),
    {
        proof {
            use_type_invariant(&*self);
        }
        if self.data.len() - self.pos < n {
            return Err(DecodeError::UnexpectedEndOfInput);
        }
        let start = self.pos;
        let out = vstd::slice::slice_to_vec(
            vstd::slice::slice_subrange(self.data, start, start + n),
        );
        self.pos = start + n;
        Ok(out)
    }

    /// Reads all the bytes that are left.
    pub fn read_to_end(&mut self) -> (r: Vec<u8>)
        ensures
            final(self).data() == old(self).data(),
            final(self).pos() == old(self).data().len(),
            0 <= old(self).pos() <= old(self).data().len(),
            r@ == old(self).data().subrange(old(self).pos(), old(self).data().len() as int),
    {
        proof {
            use_type_invariant(&*self);
        }
        let start = self.pos;
        let out = vstd::slice::slice_to_vec(
            vstd::slice::slice_subrange(self.data, start, self.data.len()),
        );
        self.pos = self.data.len();
        out
    }
}

/// Appends `bytes` to `writer`.
pub fn put_bytes(writer: &mut Vec<u8>, bytes: &[u8])
    ensures
        final(writer)@ == old(writer)@ + bytes@,
{
    let mut i: usize = 0;
    while i < bytes.len()
        invariant
            i <= bytes@.len(),
            writer@ == old(writer)@ + bytes@.subrange(0, i as int),
        decreases bytes@.len() - i,
    {
        writer.push(bytes[i]);
        i += 1;
    }
}

} // verus!
