use vstd::prelude::*;

use super::{byte_at, u16_be_at, u16_le_at, be_bytes, le_bytes, DataUnit};
use crate::error::BufferError;

verus! {

/// The largest PDU: a function code and up to 252 payload bytes.
pub const MAX_PDU_SIZE: usize = 253;

/// A Protocol Data Unit: one function-code byte followed by the payload.
#[derive(Clone, Debug)]
pub struct Pdu(DataUnit<MAX_PDU_SIZE>);

impl View for Pdu {
    type V = Seq<u8>;

    /// Every byte, the function code first.
    closed spec fn view(&self) -> Seq<u8> {
        self.0@
    }
}

impl Pdu {
    /// Holds between 1 and 253 bytes.
    pub closed spec fn wf(&self) -> bool {
        self.0.wf() && self.0@.len() >= 1
    }

    /// A well-formed PDU holds a function code and at most 252 payload bytes.
    pub proof fn lemma_wf_len(&self)
        requires
            self.wf(),
        ensures
            1 <= self@.len() <= MAX_PDU_SIZE,
    {
        self.0.lemma_len_bound();
    }

    /// A PDU with the given function code and an empty payload.
    pub fn new(function_code: u8) -> (r: Result<Pdu, BufferError>)
        ensures
            r is Ok,
            r matches Ok(p) ==> p.wf() && p@ == seq![function_code],
    {
        let mut unit: DataUnit<MAX_PDU_SIZE> = DataUnit::new();
        let _ = unit.put_u8(function_code);
        assert(unit@ =~= seq![function_code]);
        Ok(Pdu(unit))
    }

    /// A PDU holding exactly the given bytes, function code first; `None`
    /// when they are empty or longer than 253 bytes.
    pub fn from_bytes(bytes: &[u8]) -> (r: Option<Pdu>)
        ensures
            r is Some <==> 1 <= bytes@.len() <= MAX_PDU_SIZE,
            r matches Some(p) ==> p.wf() && p@ == bytes@,
    {
        if bytes.len() == 0 {
            return None;
        }
        let mut unit: DataUnit<MAX_PDU_SIZE> = DataUnit::new();
        match unit.put_slice(bytes) {
            Ok(()) => {
                assert(unit@ =~= bytes@);
                Some(Pdu(unit))
            },
            Err(_) => None,
        }
    }

    pub fn function_code(&self) -> (r: u8)
        requires
            self.wf(),
        ensures
            r == self@[0],
    {
        match self.0.get_u8(0) {
            Some(b) => b,
            None => 0,
        }
    }

    /// The payload: every byte after the function code.
    pub fn data(&self) -> (r: &[u8])
        requires
            self.wf(),
        ensures
            r@ == self@.drop_first(),
    {
        let all = self.0.as_slice();
        vstd::slice::slice_subrange(all, 1, all.len())
    }

    /// Every byte, the function code first.
    pub fn as_slice(&self) -> (r: &[u8])
        requires
            self.wf(),
        ensures
            r@ == self@,
    {
        self.0.as_slice()
    }

    /// The number of bytes, function code included.
    pub fn len(&self) -> (r: usize)
        requires
            self.wf(),
        ensures
            r == self@.len(),
    {
        self.0.len()
    }

    pub fn put_u8(&mut self, src: u8) -> (r: Result<(), BufferError>)
        requires
            old(self).wf(),
        ensures
            final(self).wf(),
            r is Ok <==> old(self)@.len() < MAX_PDU_SIZE,
            r is Ok ==> final(self)@ == old(self)@.push(src),
            r is Err ==> r == Err::<(), BufferError>(BufferError::NoSpaceLeft) && final(self)@ == old(self)@,
    {
        self.0.put_u8(src)
    }

    /// Appends a value big-endian, the Modbus wire order.
    pub fn put_u16(&mut self, src: u16) -> (r: Result<(), BufferError>)
        requires
            old(self).wf(),
        ensures
            final(self).wf(),
            r is Ok <==> old(self)@.len() + 2 <= MAX_PDU_SIZE,
            r is Ok ==> final(self)@ == old(self)@ + be_bytes(src),
            r is Err ==> r == Err::<(), BufferError>(BufferError::NoSpaceLeft) && final(self)@ == old(self)@,
    {
        self.0.put_u16(src)
    }

    /// Appends a value little-endian.
    pub fn put_u16_le(&mut self, src: u16) -> (r: Result<(), BufferError>)
        requires
            old(self).wf(),
        ensures
            final(self).wf(),
            r is Ok <==> old(self)@.len() + 2 <= MAX_PDU_SIZE,
            r is Ok ==> final(self)@ == old(self)@ + le_bytes(src),
            r is Err ==> r == Err::<(), BufferError>(BufferError::NoSpaceLeft) && final(self)@ == old(self)@,
    {
        self.0.put_u16_le(src)
    }

    /// Appends a run of bytes: `BufferOverflow` when it is longer than a
    /// whole PDU, `NoSpaceLeft` when it does not fit in what is left.
    pub fn put_slice(&mut self, src: &[u8]) -> (r: Result<(), BufferError>)
        requires
            old(self).wf(),
        ensures
            final(self).wf(),
            r is Ok <==> old(self)@.len() + src@.len() <= MAX_PDU_SIZE,
            r is Ok ==> final(self)@ == old(self)@ + src@,
            src@.len() > MAX_PDU_SIZE ==> r == Err::<(), BufferError>(BufferError::BufferOverflow),
            src@.len() <= MAX_PDU_SIZE < old(self)@.len() + src@.len() ==> r == Err::<(), BufferError>(BufferError::NoSpaceLeft),
            r is Err ==> final(self)@ == old(self)@,
    {
        self.0.put_slice(src)
    }

    /// The payload byte at `index` (index 0 is the byte after the function code).
    pub fn get_u8(&self, index: usize) -> (r: Option<u8>)
        requires
            self.wf(),
        ensures
            r == byte_at(self@, index + 1),
    {
        if index >= MAX_PDU_SIZE {
            return None;
        }
        self.0.get_u8(index + 1)
    }

    /// The big-endian payload value whose high byte is at `index`.
    pub fn get_u16(&self, index: usize) -> (r: Option<u16>)
        requires
            self.wf(),
        ensures
            r == u16_be_at(self@, index + 1),
    {
        proof { self.0.lemma_len_bound(); }
        if index >= MAX_PDU_SIZE {
            return None;
        }
        self.0.get_u16(index + 1)
    }

    /// The little-endian payload value whose low byte is at `index`.
    pub fn get_u16_le(&self, index: usize) -> (r: Option<u16>)
        requires
            self.wf(),
        ensures
            r == u16_le_at(self@, index + 1),
    {
        proof { self.0.lemma_len_bound(); }
        if index >= MAX_PDU_SIZE {
            return None;
        }
        self.0.get_u16_le(index + 1)
    }
}

} // verus!
