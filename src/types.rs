use vstd::prelude::*;

use crate::frame::u16_be;

verus! {

/// Bit `k` of a byte string, counting from the least significant bit of
/// the first byte.
pub open spec fn bit_at(bytes: Seq<u8>, k: int) -> bool {
    (bytes[k / 8] >> ((k % 8) as u8)) & 1u8 != 0
}

/// Every bit of a byte string, least significant first within each byte.
pub open spec fn bits_of(bytes: Seq<u8>) -> Seq<bool> {
    Seq::new((bytes.len() * 8) as nat, |k: int| bit_at(bytes, k))
}

/// The big-endian 16-bit values of a byte string; an odd last byte is left out.
pub open spec fn registers_of(bytes: Seq<u8>) -> Seq<u16> {
    Seq::new(bytes.len() / 2, |i: int| u16_be(bytes[2 * i], bytes[2 * i + 1]))
}

/// Iterator over the bits of a byte string, least significant bit first
/// within each byte.
#[derive(Debug)]
pub struct BitSet {
    bytes: Vec<u8>,
    byte_index: usize,
    bit_index: usize,
}

impl View for BitSet {
    type V = Seq<bool>;

    /// The bits not yet handed out.
    closed spec fn view(&self) -> Seq<bool> {
        bits_of(self.bytes@).subrange(
            self.byte_index * 8 + self.bit_index,
            (self.bytes@.len() * 8) as int,
        )
    }
}

impl BitSet {
    pub closed spec fn wf(&self) -> bool {
        &&& self.bit_index < 8
        &&& self.byte_index <= self.bytes@.len()
        &&& self.byte_index == self.bytes@.len() ==> self.bit_index == 0
    }

    /// An iterator over every bit of `bytes`.
    pub fn new(bytes: &[u8]) -> (r: BitSet)
        ensures
            r.wf(),
            r@ == bits_of(bytes@),
    {
        let r = BitSet { bytes: vstd::slice::slice_to_vec(bytes), byte_index: 0, bit_index: 0 };
        assert(r@ =~= bits_of(bytes@));
        r
    }

    /// The next bit, or `None` once every bit has been handed out.
    pub fn next(&mut self) -> (r: Option<bool>)
        requires
            old(self).wf(),
        ensures
            final(self).wf(),
            old(self)@.len() == 0 ==> r is None && final(self)@ == old(self)@,
            old(self)@.len() > 0 ==> r == Some(old(self)@[0]) && final(self)@ == old(self)@.drop_first(),
    {
        if self.byte_index >= self.bytes.len() {
            assert(self@.len() == 0);
            return None;
        }
        let ghost k: int = self.byte_index * 8 + self.bit_index;
        let byte_index = self.byte_index;
        let bit_index = self.bit_index;
        assert(k / 8 == byte_index && k % 8 == bit_index) by (nonlinear_arith)
            requires
                k == byte_index * 8 + bit_index,
                bit_index < 8,
        ;
        assert(k < self.bytes@.len() * 8) by (nonlinear_arith)
            requires
                k == byte_index * 8 + bit_index,
                bit_index < 8,
                byte_index < self.bytes@.len(),
        ;
        let bit = (self.bytes[byte_index] >> (bit_index as u8)) & 0x01 != 0;
        assert(bit == bits_of(self.bytes@)[k]);
        if bit_index + 1 >= 8 {
            self.byte_index = byte_index + 1;
            self.bit_index = 0;
        } else {
            self.bit_index = bit_index + 1;
        }
        assert(self.byte_index * 8 + self.bit_index == k + 1);
        assert(self@ =~= old(self)@.drop_first());
        Some(bit)
    }
}

/// Iterator over the big-endian 16-bit registers of a byte string; an odd
/// last byte is not handed out.
#[derive(Debug)]
pub struct RegisterSlice {
    bytes: Vec<u8>,
    index: usize,
}

impl View for RegisterSlice {
    type V = Seq<u16>;

    /// The registers not yet handed out.
    closed spec fn view(&self) -> Seq<u16> {
        registers_of(self.bytes@).subrange((self.index / 2) as int, (self.bytes@.len() / 2) as int)
    }
}

impl RegisterSlice {
    pub closed spec fn wf(&self) -> bool {
        &&& self.index % 2 == 0
        &&& self.index <= self.bytes@.len()
    }

    /// An iterator over every register of `bytes`.
    pub fn new(bytes: &[u8]) -> (r: RegisterSlice)
        ensures
            r.wf(),
            r@ == registers_of(bytes@),
    {
        let r = RegisterSlice { bytes: vstd::slice::slice_to_vec(bytes), index: 0 };
        assert(r@ =~= registers_of(bytes@));
        r
    }

    /// The next register, or `None` once fewer than two bytes are left.
    pub fn next(&mut self) -> (r: Option<u16>)
        requires
            old(self).wf(),
        ensures
            final(self).wf(),
            old(self)@.len() == 0 ==> r is None && final(self)@ == old(self)@,
            old(self)@.len() > 0 ==> r == Some(old(self)@[0]) && final(self)@ == old(self)@.drop_first(),
    {
        if self.bytes.len() - self.index < 2 {
            assert(self@.len() == 0);
            return None;
        }
        let i = self.index;
        let value = self.bytes[i] as u16 * 256 + self.bytes[i + 1] as u16;
        assert(value == registers_of(self.bytes@)[(i / 2) as int]);
        self.index = i + 2;
        assert(self@ =~= old(self)@.drop_first());
        Some(value)
    }
}

} // verus!
