use vstd::prelude::*;

use super::pdu::{Pdu, MAX_PDU_SIZE};
use super::{le_bytes, u16_be, DataUnit};
use crate::error::{ModbusFrameError, ModbusRtuError};

verus! {

/// The largest RTU frame: address, a full PDU and the two CRC bytes.
pub const MAX_ADU_SIZE: usize = 256;

/// One shift of the reflected CRC-16 register (polynomial 0xA001).
pub open spec fn crc_shift(c: u16) -> u16 {
    if c & 1 != 0 {
        (c >> 1) ^ 0xA001u16
    } else {
        c >> 1
    }
}

/// `n` shifts of the CRC register.
pub open spec fn crc_shifts(c: u16, n: nat) -> u16
    decreases n,
{
    if n == 0 {
        c
    } else {
        crc_shift(crc_shifts(c, (n - 1) as nat))
    }
}

/// The register after taking in one byte.
pub open spec fn crc_update(crc: u16, b: u8) -> u16 {
    crc_shifts(crc ^ (b as u16), 8)
}

/// The Modbus CRC-16 of a byte sequence: initial value 0xFFFF, reflected
/// polynomial 0xA001, no final XOR.
pub open spec fn crc16(s: Seq<u8>) -> u16
    decreases s.len(),
{
    if s.len() == 0 {
        0xFFFFu16
    } else {
        crc_update(crc16(s.drop_last()), s.last())
    }
}

/// Whether a frame's length lies in 4..=256.
pub open spec fn frame_length_ok(frame: Seq<u8>) -> bool {
    4 <= frame.len() <= MAX_ADU_SIZE
}

/// Whether a frame passes the address filter: a listener at address 0
/// accepts every frame, any other only frames sent to it.
pub open spec fn frame_address_ok(frame: Seq<u8>, expected: u8) -> bool {
    expected == 0 || frame[0] == expected
}

/// The CRC carried by the last two bytes, low byte first.
pub open spec fn frame_trailer(frame: Seq<u8>) -> u16 {
    u16_be(frame[frame.len() - 1], frame[frame.len() - 2])
}

/// Whether the trailer is the CRC of everything before it.
pub open spec fn frame_crc_ok(frame: Seq<u8>) -> bool {
    frame_trailer(frame) == crc16(frame.subrange(0, frame.len() - 2))
}

/// Whether a frame is accepted by a listener at `expected`.
pub open spec fn frame_valid(frame: Seq<u8>, expected: u8) -> bool {
    frame_length_ok(frame) && frame_address_ok(frame, expected) && frame_crc_ok(frame)
}

/// The PDU that a frame carries: what lies between the address and the CRC.
pub open spec fn frame_pdu(frame: Seq<u8>) -> Seq<u8> {
    frame.subrange(1, frame.len() - 2)
}

/// The frame that carries `pdu` to `address`.
pub open spec fn frame_of(address: u8, pdu: Seq<u8>) -> Seq<u8> {
    seq![address] + pdu + le_bytes(crc16(seq![address] + pdu))
}

/// The CRC shift distributes over XOR.
proof fn lemma_shift_xor(a: u16, b: u16)
    ensures
        crc_shift(a ^ b) == crc_shift(a) ^ crc_shift(b),
{
    assert((if (a ^ b) & 1 != 0 { ((a ^ b) >> 1) ^ 0xA001u16 } else { (a ^ b) >> 1 }) == (if a & 1
        != 0 { (a >> 1) ^ 0xA001u16 } else { a >> 1 }) ^ (if b & 1 != 0 { (b >> 1) ^ 0xA001u16 } else {
        b >> 1
    })) by (bit_vector);
}

/// Any number of CRC shifts distributes over XOR.
proof fn lemma_shifts_xor(a: u16, b: u16, n: nat)
    ensures
        crc_shifts(a ^ b, n) == crc_shifts(a, n) ^ crc_shifts(b, n),
    decreases n,
{
    if n > 0 {
        lemma_shifts_xor(a, b, (n - 1) as nat);
        lemma_shift_xor(crc_shifts(a, (n - 1) as nat), crc_shifts(b, (n - 1) as nat));
    }
}

/// Taking in a byte is the table step: the high byte shifted down, XORed
/// with the table entry of the low byte of `crc ^ b`.
proof fn lemma_table_step(crc: u16, b: u8)
    ensures
        crc_update(crc, b) == (crc >> 8) ^ crc_shifts((crc ^ (b as u16)) & 0xFF, 8),
{
    let x: u16 = crc ^ (b as u16);
    let h: u16 = x & 0xFF00;
    let l: u16 = x & 0xFF;
    assert(x == h ^ l) by (bit_vector)
        requires
            h == x & 0xFF00,
            l == x & 0xFF,
    ;
    lemma_shifts_xor(h, l, 8);
    let bb: u16 = b as u16;
    assert(h & 1 == 0 && (h >> 1) & 1 == 0 && ((h >> 1) >> 1) & 1 == 0 && (((h >> 1) >> 1) >> 1) & 1
        == 0 && ((((h >> 1) >> 1) >> 1) >> 1) & 1 == 0 && (((((h >> 1) >> 1) >> 1) >> 1) >> 1) & 1 == 0
        && ((((((h >> 1) >> 1) >> 1) >> 1) >> 1) >> 1) & 1 == 0 && (((((((h >> 1) >> 1) >> 1) >> 1)
        >> 1) >> 1) >> 1) & 1 == 0 && ((((((((h >> 1) >> 1) >> 1) >> 1) >> 1) >> 1) >> 1) >> 1) == crc
        >> 8) by (bit_vector)
        requires
            bb < 256,
            x == crc ^ bb,
            h == x & 0xFF00,
    ;
    reveal_with_fuel(crc_shifts, 9);
}

/// The 256-entry lookup table: entry `i` is the register `i` after eight shifts.
fn generate_crc_table() -> (r: Vec<u16>)
    ensures
        r@.len() == 256,
        forall|i: int| 0 <= i < 256 ==> #[trigger] r@[i] == crc_shifts(i as u16, 8),
{
    let mut table: Vec<u16> = Vec::new();
    let mut i: usize = 0;
    while i < 256
        invariant
            i <= 256,
            table@.len() == i,
            forall|k: int| 0 <= k < i ==> #[trigger] table@[k] == crc_shifts(k as u16, 8),
        decreases 256 - i,
    {
        let mut crc: u16 = i as u16;
        let mut j: usize = 0;
        while j < 8
            invariant
                j <= 8,
                crc == crc_shifts(i as u16, j as nat),
            decreases 8 - j,
        {
            if crc & 0x0001 != 0 {
                crc = (crc >> 1) ^ 0xA001;
            } else {
                crc = crc >> 1;
            }
            j = j + 1;
        }
        table.push(crc);
        i = i + 1;
    }
    table
}

/// The CRC-16 lookup table, built once and then shared by every checksum.
#[derive(Debug, Clone)]
pub struct CrcTable {
    table: Vec<u16>,
}

impl CrcTable {
    /// Entry `i` of the table is the register `i` after eight shifts.
    pub closed spec fn wf(&self) -> bool {
        &&& self.table@.len() == 256
        &&& forall|k: int| 0 <= k < 256 ==> #[trigger] self.table@[k] == crc_shifts(k as u16, 8)
    }

    pub fn new() -> (r: CrcTable)
        ensures
            r.wf(),
    {
        CrcTable { table: generate_crc_table() }
    }

    /// The Modbus CRC-16 of `data`, one table lookup per byte.
    pub fn checksum(&self, data: &[u8]) -> (r: u16)
        requires
            self.wf(),
        ensures
            r == crc16(data@),
    {
        let mut crc: u16 = 0xFFFF;
        let mut i: usize = 0;
        while i < data.len()
            invariant
                self.wf(),
                i <= data@.len(),
                crc == crc16(data@.subrange(0, i as int)),
            decreases data@.len() - i,
        {
            let byte = data[i];
            proof {
                lemma_table_step(crc, byte);
                assert(data@.subrange(0, i + 1).drop_last() =~= data@.subrange(0, i as int));
            }
            let idx: u16 = (crc ^ (byte as u16)) & 0xFF;
            assert(idx < 256) by (bit_vector)
                requires
                    idx == (crc ^ (byte as u16)) & 0xFF,
            ;
            crc = (crc >> 8) ^ self.table[idx as usize];
            i = i + 1;
        }
        assert(data@.subrange(0, data@.len() as int) =~= data@);
        crc
    }
}

/// The Modbus CRC-16 of `data`, for a one-off computation; frames are
/// checked through the table an `RtuFrameHandler` holds.
pub fn calc_crc(data: &[u8]) -> (r: u16)
    ensures
        r == crc16(data@),
{
    CrcTable::new().checksum(data)
}

/// Checks `crc` against the CRC of `data`.
pub fn checksum(table: &CrcTable, data: &[u8], crc: u16) -> (r: Result<(), ModbusRtuError>)
    requires
        table.wf(),
    ensures
        r is Ok <==> crc == crc16(data@),
        r is Err ==> r == Err::<(), ModbusRtuError>(ModbusRtuError::CrcValidationFailure),
{
    let expected_crc = table.checksum(data);
    if crc != expected_crc {
        Err(ModbusRtuError::CrcValidationFailure)
    } else {
        Ok(())
    }
}

/// Checks that a frame's length lies in 4..=256.
pub fn check_frame_length(frame: &[u8]) -> (r: Result<(), ModbusRtuError>)
    ensures
        r is Ok <==> frame_length_ok(frame@),
        r is Err ==> r == Err::<(), ModbusRtuError>(ModbusRtuError::InvalidFrameLength),
{
    if frame.len() < 4 || frame.len() > MAX_ADU_SIZE {
        Err(ModbusRtuError::InvalidFrameLength)
    } else {
        Ok(())
    }
}

/// Applies the address filter: a listener at 0 accepts every frame, any
/// other address only frames whose first byte is that address. A refused
/// frame reports the address it carries.
pub fn check_frame_address(frame: &[u8], address: u8) -> (r: Result<(), ModbusRtuError>)
    requires
        frame@.len() >= 1,
    ensures
        r is Ok <==> frame_address_ok(frame@, address),
        r is Err ==> r == Err::<(), ModbusRtuError>(ModbusRtuError::InvalidSlaveAddress(frame@[0])),
{
    if address == 0 || frame[0] == address {
        Ok(())
    } else {
        Err(ModbusRtuError::InvalidSlaveAddress(frame[0]))
    }
}

/// Checks the CRC trailer of a frame against the bytes before it.
pub fn check_frame_crc(table: &CrcTable, frame: &[u8]) -> (r: Result<(), ModbusRtuError>)
    requires
        table.wf(),
        frame@.len() >= 2,
    ensures
        r is Ok <==> frame_crc_ok(frame@),
        r is Err ==> r == Err::<(), ModbusRtuError>(ModbusRtuError::CrcValidationFailure),
{
    let n = frame.len();
    let crc: u16 = frame[n - 1] as u16 * 256 + frame[n - 2] as u16;
    checksum(table, vstd::slice::slice_subrange(frame, 0, n - 2), crc)
}

/// A Modbus RTU Application Data Unit: slave address, PDU, CRC (low byte first).
#[derive(Clone, Debug)]
pub struct Adu(DataUnit<MAX_ADU_SIZE>);

impl View for Adu {
    type V = Seq<u8>;

    closed spec fn view(&self) -> Seq<u8> {
        self.0@
    }
}

impl Default for Adu {
    fn default() -> (r: Self)
        ensures
            r.wf(),
            r@ == Seq::<u8>::empty(),
    {
        Adu::new()
    }
}

impl Adu {
    pub closed spec fn wf(&self) -> bool {
        self.0.wf()
    }

    /// An empty frame buffer.
    pub fn new() -> (r: Adu)
        ensures
            r.wf(),
            r@ == Seq::<u8>::empty(),
    {
        Adu(DataUnit::new())
    }

    /// The bytes of the frame.
    pub fn as_slice(&self) -> (r: &[u8])
        requires
            self.wf(),
        ensures
            r@ == self@,
    {
        self.0.as_slice()
    }

    pub fn len(&self) -> (r: usize)
        requires
            self.wf(),
        ensures
            r == self@.len(),
    {
        self.0.len()
    }

    pub fn is_empty(&self) -> (r: bool)
        requires
            self.wf(),
        ensures
            r == (self@.len() == 0),
    {
        self.0.is_empty()
    }

    pub fn clear(&mut self)
        requires
            old(self).wf(),
        ensures
            final(self).wf(),
            final(self)@ == Seq::<u8>::empty(),
    {
        self.0.clear()
    }

    /// Appends received bytes; when they do not fit, the buffer is left as it
    /// was and the error says why.
    pub fn put_slice(&mut self, src: &[u8]) -> (r: Result<(), crate::error::BufferError>)
        requires
            old(self).wf(),
        ensures
            final(self).wf(),
            r is Ok <==> old(self)@.len() + src@.len() <= MAX_ADU_SIZE,
            r is Ok ==> final(self)@ == old(self)@ + src@,
            r is Err ==> final(self)@ == old(self)@,
    {
        self.0.put_slice(src)
    }
}

/// Builds and parses RTU frames, with a CRC table built once.
#[derive(Debug, Clone)]
pub struct RtuFrameHandler {
    crc: CrcTable,
}

impl RtuFrameHandler {
    pub closed spec fn wf(&self) -> bool {
        self.crc.wf()
    }

    pub fn new() -> (r: RtuFrameHandler)
        ensures
            r.wf(),
    {
        RtuFrameHandler { crc: CrcTable::new() }
    }

    /// Writes into `adu` the frame that carries `pdu` to `slave_address`:
    /// the address, the PDU, and the CRC of both, low byte first. Returns the
    /// frame's length.
    pub fn build_frame(&self, adu: &mut Adu, slave_address: u8, pdu: &Pdu) -> (r: Result<usize, ModbusFrameError>)
        requires
            self.wf(),
            old(adu).wf(),
            pdu.wf(),
        ensures
            final(adu).wf(),
            final(adu)@ == frame_of(slave_address, pdu@),
            r == Ok::<usize, ModbusFrameError>(final(adu)@.len() as usize),
    {
        proof { pdu.lemma_wf_len(); }
        adu.clear();
        let _ = adu.0.put_u8(slave_address);
        let _ = adu.0.put_slice(pdu.as_slice());
        assert(adu@ =~= seq![slave_address] + pdu@);
        let crc = self.crc.checksum(adu.0.as_slice());
        let _ = adu.0.put_u16_le(crc);
        Ok(adu.0.len())
    }

    /// The PDU carried by `frame`, for a listener at `expected_address`
    /// (0 listens to every address). Checks, in this order, the length
    /// (4..=256), the address, and the CRC.
    pub fn parse_frame(&self, frame: &[u8], expected_address: u8) -> (r: Result<Pdu, ModbusFrameError>)
        requires
            self.wf(),
        ensures
            r is Ok <==> frame_valid(frame@, expected_address),
            !frame_length_ok(frame@) ==> r == Err::<Pdu, ModbusFrameError>(
                ModbusFrameError::RtuError(ModbusRtuError::InvalidFrameLength),
            ),
            frame_length_ok(frame@) && !frame_address_ok(frame@, expected_address) ==> r == Err::<
                Pdu,
                ModbusFrameError,
            >(ModbusFrameError::RtuError(ModbusRtuError::InvalidSlaveAddress(frame@[0]))),
            frame_length_ok(frame@) && frame_address_ok(frame@, expected_address) && !frame_crc_ok(
                frame@,
            ) ==> r == Err::<Pdu, ModbusFrameError>(
                ModbusFrameError::RtuError(ModbusRtuError::CrcValidationFailure),
            ),
            r matches Ok(p) ==> p.wf() && p@ == frame_pdu(frame@),
    {
        if let Err(e) = check_frame_length(frame) {
            return Err(ModbusFrameError::RtuError(e));
        }
        if let Err(e) = check_frame_address(frame, expected_address) {
            return Err(ModbusFrameError::RtuError(e));
        }
        if let Err(e) = check_frame_crc(&self.crc, frame) {
            return Err(ModbusFrameError::RtuError(e));
        }
        let n = frame.len();
        match Pdu::from_bytes(vstd::slice::slice_subrange(frame, 1, n - 2)) {
            Some(pdu) => Ok(pdu),
            None => Err(ModbusFrameError::RtuError(ModbusRtuError::InvalidFrameLength)),
        }
    }
}

/// A frame built for an address is accepted, carrying the same PDU, by a
/// listener at that address and by a listener at 0; a listener at any other
/// address refuses it.
pub proof fn lemma_frame_round_trip(address: u8, pdu: Seq<u8>, listener: u8)
    requires
        1 <= pdu.len() <= MAX_PDU_SIZE,
    ensures
        frame_valid(frame_of(address, pdu), listener) <==> (listener == 0 || listener == address),
        frame_pdu(frame_of(address, pdu)) == pdu,
{
    let f = frame_of(address, pdu);
    let body = seq![address] + pdu;
    let c = crc16(body);
    assert(f.subrange(0, f.len() - 2) =~= body);
    assert(frame_pdu(f) =~= pdu);
    super::lemma_u16_bytes(c);
    assert(f[f.len() - 1] == super::hi_byte(c));
    assert(f[f.len() - 2] == super::lo_byte(c));
    assert(f[0] == address);
}

} // verus!
