use vstd::prelude::*;
use vstd::array::*;
use vstd::slice::*;

use crate::error::BufferError;

pub mod pdu;
pub mod rtu;

verus! {

/// The big-endian reading of two bytes.
pub open spec fn u16_be(hi: u8, lo: u8) -> u16 {
    (hi as int * 256 + lo as int) as u16
}

/// The high (most significant) byte of a 16-bit value.
pub open spec fn hi_byte(v: u16) -> u8 {
    (v as int / 256) as u8
}

/// The low (least significant) byte of a 16-bit value.
pub open spec fn lo_byte(v: u16) -> u8 {
    (v as int % 256) as u8
}

/// The two bytes of a value, most significant first.
pub open spec fn be_bytes(v: u16) -> Seq<u8> {
    seq![hi_byte(v), lo_byte(v)]
}

/// The two bytes of a value, least significant first.
pub open spec fn le_bytes(v: u16) -> Seq<u8> {
    seq![lo_byte(v), hi_byte(v)]
}

/// The byte at `i` of `s`, if there is one.
pub open spec fn byte_at(s: Seq<u8>, i: int) -> Option<u8> {
    if 0 <= i < s.len() {
        Some(s[i])
    } else {
        None
    }
}

/// The big-endian 16-bit value at `i` of `s`, if both of its bytes are there.
pub open spec fn u16_be_at(s: Seq<u8>, i: int) -> Option<u16> {
    if 0 <= i && i + 1 < s.len() {
        Some(u16_be(s[i], s[i + 1]))
    } else {
        None
    }
}

/// The little-endian 16-bit value at `i` of `s`, if both of its bytes are there.
pub open spec fn u16_le_at(s: Seq<u8>, i: int) -> Option<u16> {
    if 0 <= i && i + 1 < s.len() {
        Some(u16_be(s[i + 1], s[i]))
    } else {
        None
    }
}

/// Splitting a value into its bytes and joining them back gives the value.
pub proof fn lemma_u16_bytes(v: u16)
    ensures
        u16_be(hi_byte(v), lo_byte(v)) == v,
{
}

/// A fixed-capacity byte buffer of capacity `N`, filled from the front.
///
/// Only the first `len()` bytes are meaningful; the view is that prefix.
#[derive(Clone, Debug)]
pub struct DataUnit<const N: usize> {
    data: [u8; N],
    position: usize,
}

impl<const N: usize> View for DataUnit<N> {
    type V = Seq<u8>;

    closed spec fn view(&self) -> Seq<u8> {
        self.data@.subrange(0, self.position as int)
    }
}

impl<const N: usize> Default for DataUnit<N> {
    fn default() -> (r: Self)
        ensures
            r.wf(),
            r@ == Seq::<u8>::empty(),
    {
        DataUnit::new()
    }
}

impl<const N: usize> DataUnit<N> {
    /// The number of written bytes never exceeds the capacity.
    pub closed spec fn wf(&self) -> bool {
        self.position <= N
    }

    /// A well-formed buffer holds at most `N` bytes.
    pub proof fn lemma_len_bound(&self)
        requires
            self.wf(),
        ensures
            self@.len() <= N,
    {
    }

    /// An empty buffer.
    pub fn new() -> (r: Self)
        ensures
            r.wf(),
            r@ == Seq::<u8>::empty(),
    {
        let r = DataUnit { data: array_fill_for_copy_types(0u8), position: 0 };
        assert(r@ =~= Seq::<u8>::empty());
        r
    }

    pub fn len(&self) -> (r: usize)
        requires
            self.wf(),
        ensures
            r == self@.len(),
    {
        self.position
    }

    pub fn is_empty(&self) -> (r: bool)
        requires
            self.wf(),
        ensures
            r == (self@.len() == 0),
    {
        self.position == 0
    }

    /// Forgets every byte written.
    pub fn clear(&mut self)
        requires
            old(self).wf(),
        ensures
            final(self).wf(),
            final(self)@ == Seq::<u8>::empty(),
    {
        self.position = 0;
        assert(self@ =~= Seq::<u8>::empty());
    }

    /// The bytes written so far.
    pub fn as_slice(&self) -> (r: &[u8])
        requires
            self.wf(),
        ensures
            r@ == self@,
    {
        slice_subrange(array_as_slice(&self.data), 0, self.position)
    }

    /// Appends one byte; fails with `NoSpaceLeft`, leaving the buffer as it
    /// was, when the buffer is full.
    pub fn put_u8(&mut self, src: u8) -> (r: Result<(), BufferError>)
        requires
            old(self).wf(),
        ensures
            final(self).wf(),
            r is Ok <==> old(self)@.len() < N,
            r is Ok ==> final(self)@ == old(self)@.push(src),
            r is Err ==> r == Err::<(), BufferError>(BufferError::NoSpaceLeft) && final(self)@ == old(self)@,
    {
        self.push(src)
    }

    /// Appends a value big-endian (high byte first); fails with
    /// `NoSpaceLeft`, leaving the buffer as it was, when two bytes do not fit.
    pub fn put_u16(&mut self, src: u16) -> (r: Result<(), BufferError>)
        requires
            old(self).wf(),
        ensures
            final(self).wf(),
            r is Ok <==> old(self)@.len() + 2 <= N,
            r is Ok ==> final(self)@ == old(self)@ + be_bytes(src),
            r is Err ==> r == Err::<(), BufferError>(BufferError::NoSpaceLeft) && final(self)@ == old(self)@,
    {
        if N - self.position < 2 {
            return Err(BufferError::NoSpaceLeft);
        }
        let _ = self.push((src / 256) as u8);
        let _ = self.push((src % 256) as u8);
        assert(self@ =~= old(self)@ + be_bytes(src));
        Ok(())
    }

    /// Appends a value little-endian (low byte first); fails with
    /// `NoSpaceLeft`, leaving the buffer as it was, when two bytes do not fit.
    pub fn put_u16_le(&mut self, src: u16) -> (r: Result<(), BufferError>)
        requires
            old(self).wf(),
        ensures
            final(self).wf(),
            r is Ok <==> old(self)@.len() + 2 <= N,
            r is Ok ==> final(self)@ == old(self)@ + le_bytes(src),
            r is Err ==> r == Err::<(), BufferError>(BufferError::NoSpaceLeft) && final(self)@ == old(self)@,
    {
        if N - self.position < 2 {
            return Err(BufferError::NoSpaceLeft);
        }
        let _ = self.push((src % 256) as u8);
        let _ = self.push((src / 256) as u8);
        assert(self@ =~= old(self)@ + le_bytes(src));
        Ok(())
    }

    /// Appends a run of bytes. A slice longer than the whole buffer fails
    /// with `BufferOverflow`; one that does not fit in the space left fails
    /// with `NoSpaceLeft`. On failure the buffer is left as it was.
    pub fn put_slice(&mut self, src: &[u8]) -> (r: Result<(), BufferError>)
        requires
            old(self).wf(),
        ensures
            final(self).wf(),
            r is Ok <==> old(self)@.len() + src@.len() <= N,
            r is Ok ==> final(self)@ == old(self)@ + src@,
            src@.len() > N ==> r == Err::<(), BufferError>(BufferError::BufferOverflow),
            src@.len() <= N < old(self)@.len() + src@.len() ==> r == Err::<(), BufferError>(BufferError::NoSpaceLeft),
            r is Err ==> final(self)@ == old(self)@,
    {
        self.extend_from_slice(src)
    }

    /// The byte at `index` of the written bytes.
    pub fn get_u8(&self, index: usize) -> (r: Option<u8>)
        requires
            self.wf(),
        ensures
            r == byte_at(self@, index as int),
    {
        match self.get(index) {
            Some(b) => Some(*b),
            None => None,
        }
    }

    /// The big-endian value whose high byte is at `index` of the written bytes.
    pub fn get_u16(&self, index: usize) -> (r: Option<u16>)
        requires
            self.wf(),
        ensures
            r == u16_be_at(self@, index as int),
    {
        if index < self.position && self.position - index >= 2 {
            let high = self.data[index];
            let low = self.data[index + 1];
            Some(high as u16 * 256 + low as u16)
        } else {
            None
        }
    }

    /// The little-endian value whose low byte is at `index` of the written bytes.
    pub fn get_u16_le(&self, index: usize) -> (r: Option<u16>)
        requires
            self.wf(),
        ensures
            r == u16_le_at(self@, index as int),
    {
        if index < self.position && self.position - index >= 2 {
            let low = self.data[index];
            let high = self.data[index + 1];
            Some(high as u16 * 256 + low as u16)
        } else {
            None
        }
    }

    /// Extends the written region by `count` bytes of what the storage holds
    /// past it, up to the capacity.
    pub fn advance(&mut self, count: usize)
        requires
            old(self).wf(),
        ensures
            final(self).wf(),
            final(self)@.len() == if old(self)@.len() + count <= N {
                old(self)@.len() + count
            } else {
                N as int
            },
            final(self)@.subrange(0, old(self)@.len() as int) == old(self)@,
    {
        if count <= N - self.position {
            self.position = self.position + count;
        } else {
            self.position = N;
        }
        assert(self@.subrange(0, old(self)@.len() as int) =~= old(self)@);
    }

    fn push(&mut self, src: u8) -> (r: Result<(), BufferError>)
        requires
            old(self).wf(),
        ensures
            final(self).wf(),
            r is Ok <==> old(self)@.len() < N,
            r is Ok ==> final(self)@ == old(self)@.push(src),
            r is Err ==> r == Err::<(), BufferError>(BufferError::NoSpaceLeft) && final(self)@ == old(self)@,
    {
        if self.position >= N {
            return Err(BufferError::NoSpaceLeft);
        }
        self.data[self.position] = src;
        self.position = self.position + 1;
        assert(self@ =~= old(self)@.push(src));
        Ok(())
    }

    fn extend_from_slice(&mut self, src: &[u8]) -> (r: Result<(), BufferError>)
        requires
            old(self).wf(),
        ensures
            final(self).wf(),
            r is Ok <==> old(self)@.len() + src@.len() <= N,
            r is Ok ==> final(self)@ == old(self)@ + src@,
            src@.len() > N ==> r == Err::<(), BufferError>(BufferError::BufferOverflow),
            src@.len() <= N < old(self)@.len() + src@.len() ==> r == Err::<(), BufferError>(BufferError::NoSpaceLeft),
            r is Err ==> final(self)@ == old(self)@,
    {
        if src.len() > N {
            return Err(BufferError::BufferOverflow);
        }
        if src.len() > N - self.position {
            return Err(BufferError::NoSpaceLeft);
        }
        let start = self.position;
        let mut i: usize = 0;
        while i < src.len()
            invariant
                start == old(self).position,
                start + src@.len() <= N,
                self.position == start,
                0 <= i <= src@.len(),
                forall|k: int| 0 <= k < start ==> self.data@[k] == old(self).data@[k],
                forall|k: int| 0 <= k < i ==> self.data@[start + k] == src@[k],
            decreases src@.len() - i,
        {
            self.data[start + i] = src[i];
            i = i + 1;
        }
        self.position = start + src.len();
        assert(self@ =~= old(self)@ + src@);
        Ok(())
    }

    fn get(&self, index: usize) -> (r: Option<&u8>)
        requires
            self.wf(),
        ensures
            r == (if index < self@.len() { Some(&self@[index as int]) } else { None::<&u8> }),
    {
        if index < self.position {
            Some(&self.data[index])
        } else {
            None
        }
    }
}

} // verus!
