use vstd::prelude::*;

use core::marker::PhantomData;

use crate::code::{exception_code_of, function_code_of, ExceptionCode, FunctionCode, PublicFunctionCode};
use crate::error::{BufferError, ModbusApplicationError};
use crate::frame::pdu::{Pdu, MAX_PDU_SIZE};
use crate::frame::{be_bytes, byte_at, u16_be_at};
use crate::types::{bits_of, registers_of, BitSet, RegisterSlice};

verus! {

/// The PDU of a message that carries a function code and two 16-bit fields.
pub open spec fn two_field_pdu(function_code: u8, first: u16, second: u16) -> Seq<u8> {
    seq![function_code] + be_bytes(first) + be_bytes(second)
}

/// The PDU of a read response: function code, byte count, then the bytes.
pub open spec fn counted_pdu(function_code: u8, bytes: Seq<u8>) -> Seq<u8> {
    seq![function_code, bytes.len() as u8] + bytes
}

/// The value field that writes a coil: 0xFF00 for ON, 0x0000 for OFF.
pub open spec fn coil_value(on: bool) -> u16 {
    if on {
        0xFF00u16
    } else {
        0x0000u16
    }
}

/// Reads a coil value field: only 0xFF00 is ON.
pub open spec fn coil_of(field: Option<u16>) -> Option<bool> {
    match field {
        Some(v) => Some(v == 0xFF00u16),
        None => None,
    }
}

/// The bytes a read response counts: the `byte_count` bytes after the count,
/// if they are all there.
pub open spec fn counted_bytes(pdu: Seq<u8>) -> Option<Seq<u8>> {
    if pdu.len() >= 2 && 2 + pdu[1] <= pdu.len() {
        Some(pdu.subrange(2, 2 + pdu[1]))
    } else {
        None
    }
}

/// Register `i` of a register read response, if the response holds it.
pub open spec fn register_at(pdu: Seq<u8>, i: int) -> Option<u16> {
    match counted_bytes(pdu) {
        Some(b) => if 0 <= i < registers_of(b).len() {
            Some(registers_of(b)[i])
        } else {
            None
        },
        None => None,
    }
}

/// The function code as it is written on the wire, exception bit cleared.
pub open spec fn masked_code(b: u8) -> u8 {
    (b as int % 128) as u8
}

/// The PDU of an exception response.
pub open spec fn exception_pdu(function_code: FunctionCode, exception_code: ExceptionCode) -> Seq<u8> {
    seq![function_code.spec_code() | 0x80u8, exception_code.spec_code()]
}

fn two_field(function_code: u8, first: u16, second: u16) -> (r: Pdu)
    ensures
        r.wf(),
        r@ == two_field_pdu(function_code, first, second),
{
    let mut pdu = Pdu::new(function_code).unwrap();
    let _ = pdu.put_u16(first);
    let _ = pdu.put_u16(second);
    assert(pdu@ =~= two_field_pdu(function_code, first, second));
    pdu
}

fn counted(function_code: u8, bytes: &[u8]) -> (r: Result<Pdu, ModbusApplicationError>)
    ensures
        r is Ok <==> bytes@.len() <= MAX_PDU_SIZE - 2,
        r matches Ok(p) ==> p.wf() && p@ == counted_pdu(function_code, bytes@),
        r is Err ==> r == Err::<Pdu, ModbusApplicationError>(
            ModbusApplicationError::BufferError(BufferError::NoSpaceLeft),
        ),
{
    if bytes.len() > MAX_PDU_SIZE - 2 {
        return Err(ModbusApplicationError::BufferError(BufferError::NoSpaceLeft));
    }
    let mut pdu = Pdu::new(function_code).unwrap();
    let _ = pdu.put_u8(bytes.len() as u8);
    let _ = pdu.put_slice(bytes);
    assert(pdu@ =~= counted_pdu(function_code, bytes@));
    Ok(pdu)
}

fn status_bits(pdu: &Pdu) -> (r: Option<BitSet>)
    requires
        pdu.wf(),
    ensures
        r is Some <==> counted_bytes(pdu@) is Some,
        r matches Some(b) ==> b.wf() && b@ == bits_of(counted_bytes(pdu@)->0),
{
    let data = pdu.data();
    if data.len() == 0 {
        return None;
    }
    let count = data[0] as usize;
    if count > data.len() - 1 {
        return None;
    }
    proof {
        pdu.lemma_wf_len();
        assert(data@[0] == pdu@[1]);
        assert(count == pdu@[1] as usize);
    }
    let bytes = vstd::slice::slice_subrange(data, 1, count + 1);
    assert(bytes@ =~= pdu@.subrange(2, 2 + pdu@[1]));
    Some(BitSet::new(bytes))
}

fn register_slice(pdu: &Pdu) -> (r: Option<RegisterSlice>)
    requires
        pdu.wf(),
    ensures
        r is Some <==> counted_bytes(pdu@) is Some,
        r matches Some(s) ==> s.wf() && s@ == registers_of(counted_bytes(pdu@)->0),
{
    let data = pdu.data();
    if data.len() == 0 {
        return None;
    }
    let count = data[0] as usize;
    if count > data.len() - 1 {
        return None;
    }
    proof {
        pdu.lemma_wf_len();
        assert(data@[0] == pdu@[1]);
        assert(count == pdu@[1] as usize);
    }
    let bytes = vstd::slice::slice_subrange(data, 1, count + 1);
    assert(bytes@ =~= pdu@.subrange(2, 2 + pdu@[1]));
    Some(RegisterSlice::new(bytes))
}

fn register_of(pdu: &Pdu, index: usize) -> (r: Option<u16>)
    requires
        pdu.wf(),
    ensures
        r == register_at(pdu@, index as int),
{
    let count = match pdu.get_u8(0) {
        Some(c) => c as usize,
        None => return None,
    };
    if count > pdu.len() - 2 {
        return None;
    }
    if index >= count / 2 {
        return None;
    }
    let ghost b = pdu@.subrange(2, 2 + pdu@[1]);
    assert(counted_bytes(pdu@) == Some(b));
    let r = pdu.get_u16(1 + 2 * index);
    assert(registers_of(b)[index as int] == crate::frame::u16_be(b[2 * index], b[2 * index + 1]));
    r
}

/// A function of the public taxonomy with a typed request and response.
pub trait PublicFunction {
    spec fn spec_function_code() -> PublicFunctionCode;

    fn function_code() -> (r: PublicFunctionCode)
        ensures
            r == Self::spec_function_code(),
    ;
}

/// Read Coils (`0x01`): the status of 1 to 2000 contiguous coils.
#[derive(Debug, Clone, Copy, PartialEq, Eq)]
pub struct ReadCoils;

impl PublicFunction for ReadCoils {
    open spec fn spec_function_code() -> PublicFunctionCode {
        PublicFunctionCode::ReadCoils
    }

    fn function_code() -> (r: PublicFunctionCode) {
        PublicFunctionCode::ReadCoils
    }
}

/// Read Discrete Inputs (`0x02`): the status of 1 to 2000 contiguous discrete inputs.
#[derive(Debug, Clone, Copy, PartialEq, Eq)]
pub struct ReadDiscreteInputs;

impl PublicFunction for ReadDiscreteInputs {
    open spec fn spec_function_code() -> PublicFunctionCode {
        PublicFunctionCode::ReadDiscreteInputs
    }

    fn function_code() -> (r: PublicFunctionCode) {
        PublicFunctionCode::ReadDiscreteInputs
    }
}

/// Read Holding Registers (`0x03`): 1 to 125 contiguous holding registers.
#[derive(Debug, Clone, Copy, PartialEq, Eq)]
pub struct ReadHoldingRegisters;

impl PublicFunction for ReadHoldingRegisters {
    open spec fn spec_function_code() -> PublicFunctionCode {
        PublicFunctionCode::ReadHoldingRegisters
    }

    fn function_code() -> (r: PublicFunctionCode) {
        PublicFunctionCode::ReadHoldingRegisters
    }
}

/// Read Input Registers (`0x04`): 1 to 125 contiguous input registers.
#[derive(Debug, Clone, Copy, PartialEq, Eq)]
pub struct ReadInputRegisters;

impl PublicFunction for ReadInputRegisters {
    open spec fn spec_function_code() -> PublicFunctionCode {
        PublicFunctionCode::ReadInputRegisters
    }

    fn function_code() -> (r: PublicFunctionCode) {
        PublicFunctionCode::ReadInputRegisters
    }
}

/// Write Single Coil (`0x05`): sets one output ON or OFF.
#[derive(Debug, Clone, Copy, PartialEq, Eq)]
pub struct WriteSingleCoil;

impl PublicFunction for WriteSingleCoil {
    open spec fn spec_function_code() -> PublicFunctionCode {
        PublicFunctionCode::WriteSingleCoil
    }

    fn function_code() -> (r: PublicFunctionCode) {
        PublicFunctionCode::WriteSingleCoil
    }
}

/// Write Single Register (`0x06`): writes one holding register.
#[derive(Debug, Clone, Copy, PartialEq, Eq)]
pub struct WriteSingleRegister;

impl PublicFunction for WriteSingleRegister {
    open spec fn spec_function_code() -> PublicFunctionCode {
        PublicFunctionCode::WriteSingleRegister
    }

    fn function_code() -> (r: PublicFunctionCode) {
        PublicFunctionCode::WriteSingleRegister
    }
}

/// A function code outside the typed set; the caller gives the code.
#[derive(Debug, Clone, Copy, PartialEq, Eq)]
pub struct UserDefined;

/// A typed request: a PDU tagged with the function it is for. Accessors
/// decode from the bytes.
#[derive(Debug)]
pub struct Request<T> {
    inner: Pdu,
    marker: PhantomData<T>,
}

impl<T> View for Request<T> {
    type V = Seq<u8>;

    closed spec fn view(&self) -> Seq<u8> {
        self.inner@
    }
}

impl<T> Request<T> {
    pub closed spec fn wf(&self) -> bool {
        self.inner.wf()
    }

    /// The PDU, for the transport.
    pub fn into_inner(self) -> (r: Pdu)
        requires
            self.wf(),
        ensures
            r.wf(),
            r@ == self@,
    {
        self.inner
    }
}

impl<T: PublicFunction> Request<T> {
    /// Tags a PDU as a request for `T`; `UnexpectedCode(expected, got)` when
    /// its function code is another.
    pub fn from_pdu(pdu: Pdu) -> (r: Result<Self, ModbusApplicationError>)
        requires
            pdu.wf(),
        ensures
            r is Ok <==> pdu@[0] == T::spec_function_code().spec_code(),
            r matches Ok(q) ==> q.wf() && q@ == pdu@,
            r is Err ==> r == Err::<Self, ModbusApplicationError>(
                ModbusApplicationError::UnexpectedCode(T::spec_function_code().spec_code(), pdu@[0]),
            ),
    {
        let expected = T::function_code().code();
        let got = pdu.function_code();
        if got != expected {
            return Err(ModbusApplicationError::UnexpectedCode(expected, got));
        }
        Ok(Request { inner: pdu, marker: PhantomData })
    }
}

impl Request<ReadCoils> {
    /// A request for `quantity_of_coils` items from `starting_address`; `OutOfRange`
    /// unless the quantity is in 1..=2000.
    pub fn new(starting_address: u16, quantity_of_coils: u16) -> (r: Result<Self, ModbusApplicationError>)
        ensures
            r is Ok <==> 1 <= quantity_of_coils <= 2000,
            r matches Ok(q) ==> q.wf() && q@ == two_field_pdu(0x01, starting_address, quantity_of_coils),
            r is Err ==> r == Err::<Self, ModbusApplicationError>(ModbusApplicationError::OutOfRange),
    {
        if quantity_of_coils < 1 || quantity_of_coils > 2000 {
            return Err(ModbusApplicationError::OutOfRange);
        }
        Ok(Request { inner: two_field(0x01, starting_address, quantity_of_coils), marker: PhantomData })
    }

    pub fn starting_address(&self) -> (r: Option<u16>)
        requires
            self.wf(),
        ensures
            r == u16_be_at(self@, 1),
    {
        self.inner.get_u16(0)
    }

    pub fn quantity_of_coils(&self) -> (r: Option<u16>)
        requires
            self.wf(),
        ensures
            r == u16_be_at(self@, 3),
    {
        self.inner.get_u16(2)
    }
}

impl Request<ReadDiscreteInputs> {
    /// A request for `quantity_of_inputs` items from `starting_address`; `OutOfRange`
    /// unless the quantity is in 1..=2000.
    pub fn new(starting_address: u16, quantity_of_inputs: u16) -> (r: Result<Self, ModbusApplicationError>)
        ensures
            r is Ok <==> 1 <= quantity_of_inputs <= 2000,
            r matches Ok(q) ==> q.wf() && q@ == two_field_pdu(0x02, starting_address, quantity_of_inputs),
            r is Err ==> r == Err::<Self, ModbusApplicationError>(ModbusApplicationError::OutOfRange),
    {
        if quantity_of_inputs < 1 || quantity_of_inputs > 2000 {
            return Err(ModbusApplicationError::OutOfRange);
        }
        Ok(Request { inner: two_field(0x02, starting_address, quantity_of_inputs), marker: PhantomData })
    }

    pub fn starting_address(&self) -> (r: Option<u16>)
        requires
            self.wf(),
        ensures
            r == u16_be_at(self@, 1),
    {
        self.inner.get_u16(0)
    }

    pub fn quantity_of_inputs(&self) -> (r: Option<u16>)
        requires
            self.wf(),
        ensures
            r == u16_be_at(self@, 3),
    {
        self.inner.get_u16(2)
    }
}

impl Request<ReadHoldingRegisters> {
    /// A request for `quantity_of_registers` items from `starting_address`; `OutOfRange`
    /// unless the quantity is in 1..=125.
    pub fn new(starting_address: u16, quantity_of_registers: u16) -> (r: Result<Self, ModbusApplicationError>)
        ensures
            r is Ok <==> 1 <= quantity_of_registers <= 125,
            r matches Ok(q) ==> q.wf() && q@ == two_field_pdu(0x03, starting_address, quantity_of_registers),
            r is Err ==> r == Err::<Self, ModbusApplicationError>(ModbusApplicationError::OutOfRange),
    {
        if quantity_of_registers < 1 || quantity_of_registers > 125 {
            return Err(ModbusApplicationError::OutOfRange);
        }
        Ok(Request { inner: two_field(0x03, starting_address, quantity_of_registers), marker: PhantomData })
    }

    pub fn starting_address(&self) -> (r: Option<u16>)
        requires
            self.wf(),
        ensures
            r == u16_be_at(self@, 1),
    {
        self.inner.get_u16(0)
    }

    pub fn quantity_of_registers(&self) -> (r: Option<u16>)
        requires
            self.wf(),
        ensures
            r == u16_be_at(self@, 3),
    {
        self.inner.get_u16(2)
    }
}

impl Request<ReadInputRegisters> {
    /// A request for `quantity_of_input_registers` items from `starting_address`; `OutOfRange`
    /// unless the quantity is in 1..=125.
    pub fn new(starting_address: u16, quantity_of_input_registers: u16) -> (r: Result<Self, ModbusApplicationError>)
        ensures
            r is Ok <==> 1 <= quantity_of_input_registers <= 125,
            r matches Ok(q) ==> q.wf() && q@ == two_field_pdu(0x04, starting_address, quantity_of_input_registers),
            r is Err ==> r == Err::<Self, ModbusApplicationError>(ModbusApplicationError::OutOfRange),
    {
        if quantity_of_input_registers < 1 || quantity_of_input_registers > 125 {
            return Err(ModbusApplicationError::OutOfRange);
        }
        Ok(Request { inner: two_field(0x04, starting_address, quantity_of_input_registers), marker: PhantomData })
    }

    pub fn starting_address(&self) -> (r: Option<u16>)
        requires
            self.wf(),
        ensures
            r == u16_be_at(self@, 1),
    {
        self.inner.get_u16(0)
    }

    pub fn quantity_of_input_registers(&self) -> (r: Option<u16>)
        requires
            self.wf(),
        ensures
            r == u16_be_at(self@, 3),
    {
        self.inner.get_u16(2)
    }
}

impl Request<WriteSingleCoil> {
    /// Sets the coil at `output_address` ON (value field 0xFF00) or OFF (0x0000).
    pub fn new(output_address: u16, output_value: bool) -> (r: Result<Self, ModbusApplicationError>)
        ensures
            r matches Ok(q) && q.wf() && q@ == two_field_pdu(0x05, output_address, coil_value(output_value)),
    {
        let value: u16 = if output_value { 0xFF00 } else { 0x0000 };
        Ok(Request { inner: two_field(0x05, output_address, value), marker: PhantomData })
    }

    pub fn output_address(&self) -> (r: Option<u16>)
        requires
            self.wf(),
        ensures
            r == u16_be_at(self@, 1),
    {
        self.inner.get_u16(0)
    }

    /// ON exactly when the value field is 0xFF00.
    pub fn output_value(&self) -> (r: Option<bool>)
        requires
            self.wf(),
        ensures
            r == coil_of(u16_be_at(self@, 3)),
    {
        match self.inner.get_u16(2) {
            Some(v) => Some(v == 0xFF00),
            None => None,
        }
    }
}

impl Request<WriteSingleRegister> {
    /// Writes `register_value` to the register at `register_address`.
    pub fn new(register_address: u16, register_value: u16) -> (r: Result<Self, ModbusApplicationError>)
        ensures
            r matches Ok(q) && q.wf() && q@ == two_field_pdu(0x06, register_address, register_value),
    {
        Ok(Request { inner: two_field(0x06, register_address, register_value), marker: PhantomData })
    }

    pub fn register_address(&self) -> (r: Option<u16>)
        requires
            self.wf(),
        ensures
            r == u16_be_at(self@, 1),
    {
        self.inner.get_u16(0)
    }

    pub fn register_value(&self) -> (r: Option<u16>)
        requires
            self.wf(),
        ensures
            r == u16_be_at(self@, 3),
    {
        self.inner.get_u16(2)
    }
}

impl Request<UserDefined> {
    /// A PDU with any function code and up to 252 data bytes; longer data
    /// fails with `NoSpaceLeft`.
    pub fn new(function_code: u8, data: &[u8]) -> (r: Result<Self, ModbusApplicationError>)
        ensures
            r is Ok <==> data@.len() <= MAX_PDU_SIZE - 1,
            r matches Ok(q) ==> q.wf() && q@ == seq![function_code] + data@,
            r is Err ==> r == Err::<Self, ModbusApplicationError>(
                ModbusApplicationError::BufferError(BufferError::NoSpaceLeft),
            ),
    {
        if data.len() > MAX_PDU_SIZE - 1 {
            return Err(ModbusApplicationError::BufferError(BufferError::NoSpaceLeft));
        }
        let mut pdu = Pdu::new(function_code).unwrap();
        let _ = pdu.put_slice(data);
        assert(pdu@ =~= seq![function_code] + data@);
        Ok(Request { inner: pdu, marker: PhantomData })
    }

    pub fn function_code(&self) -> (r: u8)
        requires
            self.wf(),
        ensures
            r == self@[0],
    {
        self.inner.function_code()
    }

    /// The bytes after the function code.
    pub fn data(&self) -> (r: &[u8])
        requires
            self.wf(),
        ensures
            r@ == self@.drop_first(),
    {
        self.inner.data()
    }
}

pub type ReadCoilsRequest = Request<ReadCoils>;

pub type ReadDiscreteInputsRequest = Request<ReadDiscreteInputs>;

pub type ReadHoldingRegistersRequest = Request<ReadHoldingRegisters>;

pub type ReadInputRegistersRequest = Request<ReadInputRegisters>;

pub type WriteSingleCoilRequest = Request<WriteSingleCoil>;

pub type WriteSingleRegisterRequest = Request<WriteSingleRegister>;

pub type UserDefinedRequest = Request<UserDefined>;

pub type ReadCoilsResponse = Response<ReadCoils>;

pub type ReadDiscreteInputsResponse = Response<ReadDiscreteInputs>;

pub type ReadHoldingRegistersResponse = Response<ReadHoldingRegisters>;

pub type ReadInputRegistersResponse = Response<ReadInputRegisters>;

pub type WriteSingleCoilResponse = Response<WriteSingleCoil>;

pub type WriteSingleRegisterResponse = Response<WriteSingleRegister>;

pub type UserDefinedResponse = Response<UserDefined>;

/// A typed response: a PDU tagged with the function it answers. Accessors
/// decode from the bytes.
#[derive(Debug)]
pub struct Response<T> {
    inner: Pdu,
    marker: PhantomData<T>,
}

impl<T> View for Response<T> {
    type V = Seq<u8>;

    closed spec fn view(&self) -> Seq<u8> {
        self.inner@
    }
}

impl<T> Response<T> {
    pub closed spec fn wf(&self) -> bool {
        self.inner.wf()
    }

    /// The PDU.
    pub fn into_inner(self) -> (r: Pdu)
        requires
            self.wf(),
        ensures
            r.wf(),
            r@ == self@,
    {
        self.inner
    }
}

impl Response<ReadCoils> {
    /// A response carrying the packed status bytes; more than 251 bytes fail
    /// with `NoSpaceLeft`.
    pub fn new(coil_status: &[u8]) -> (r: Result<Self, ModbusApplicationError>)
        ensures
            r is Ok <==> coil_status@.len() <= MAX_PDU_SIZE - 2,
            r matches Ok(q) ==> q.wf() && q@ == counted_pdu(0x01, coil_status@),
            r is Err ==> r == Err::<Self, ModbusApplicationError>(
                ModbusApplicationError::BufferError(BufferError::NoSpaceLeft),
            ),
    {
        match counted(0x01, coil_status) {
            Ok(pdu) => Ok(Response { inner: pdu, marker: PhantomData }),
            Err(e) => Err(e),
        }
    }

    /// The first payload byte.
    pub fn byte_count(&self) -> (r: Option<u8>)
        requires
            self.wf(),
        ensures
            r == byte_at(self@, 1),
    {
        self.inner.get_u8(0)
    }

    /// The bits of the `byte_count` status bytes, least significant first
    /// within each byte; `None` when the bytes are not all there.
    pub fn coil_status(&self) -> (r: Option<BitSet>)
        requires
            self.wf(),
        ensures
            r is Some <==> counted_bytes(self@) is Some,
            r matches Some(b) ==> b.wf() && b@ == bits_of(counted_bytes(self@)->0),
    {
        status_bits(&self.inner)
    }
}

impl Response<ReadDiscreteInputs> {
    /// A response carrying the packed status bytes; more than 251 bytes fail
    /// with `NoSpaceLeft`.
    pub fn new(input_status: &[u8]) -> (r: Result<Self, ModbusApplicationError>)
        ensures
            r is Ok <==> input_status@.len() <= MAX_PDU_SIZE - 2,
            r matches Ok(q) ==> q.wf() && q@ == counted_pdu(0x02, input_status@),
            r is Err ==> r == Err::<Self, ModbusApplicationError>(
                ModbusApplicationError::BufferError(BufferError::NoSpaceLeft),
            ),
    {
        match counted(0x02, input_status) {
            Ok(pdu) => Ok(Response { inner: pdu, marker: PhantomData }),
            Err(e) => Err(e),
        }
    }

    /// The first payload byte.
    pub fn byte_count(&self) -> (r: Option<u8>)
        requires
            self.wf(),
        ensures
            r == byte_at(self@, 1),
    {
        self.inner.get_u8(0)
    }

    /// The bits of the `byte_count` status bytes, least significant first
    /// within each byte; `None` when the bytes are not all there.
    pub fn input_status(&self) -> (r: Option<BitSet>)
        requires
            self.wf(),
        ensures
            r is Some <==> counted_bytes(self@) is Some,
            r matches Some(b) ==> b.wf() && b@ == bits_of(counted_bytes(self@)->0),
    {
        status_bits(&self.inner)
    }
}

impl Response<ReadHoldingRegisters> {
    /// A response carrying the register bytes, big-endian; more than 251
    /// bytes fail with `NoSpaceLeft`.
    pub fn new(register_value: &[u8]) -> (r: Result<Self, ModbusApplicationError>)
        ensures
            r is Ok <==> register_value@.len() <= MAX_PDU_SIZE - 2,
            r matches Ok(q) ==> q.wf() && q@ == counted_pdu(0x03, register_value@),
            r is Err ==> r == Err::<Self, ModbusApplicationError>(
                ModbusApplicationError::BufferError(BufferError::NoSpaceLeft),
            ),
    {
        match counted(0x03, register_value) {
            Ok(pdu) => Ok(Response { inner: pdu, marker: PhantomData }),
            Err(e) => Err(e),
        }
    }

    /// The first payload byte.
    pub fn byte_count(&self) -> (r: Option<u8>)
        requires
            self.wf(),
        ensures
            r == byte_at(self@, 1),
    {
        self.inner.get_u8(0)
    }

    /// The registers of the `byte_count` bytes; `None` when the bytes are
    /// not all there.
    pub fn register_value(&self) -> (r: Option<RegisterSlice>)
        requires
            self.wf(),
        ensures
            r is Some <==> counted_bytes(self@) is Some,
            r matches Some(s) ==> s.wf() && s@ == registers_of(counted_bytes(self@)->0),
    {
        register_slice(&self.inner)
    }

    /// Register `index`, or `None` past the last whole register.
    pub fn register(&self, index: usize) -> (r: Option<u16>)
        requires
            self.wf(),
        ensures
            r == register_at(self@, index as int),
    {
        register_of(&self.inner, index)
    }
}

impl Response<ReadInputRegisters> {
    /// A response carrying the register bytes, big-endian; more than 251
    /// bytes fail with `NoSpaceLeft`.
    pub fn new(input_registers: &[u8]) -> (r: Result<Self, ModbusApplicationError>)
        ensures
            r is Ok <==> input_registers@.len() <= MAX_PDU_SIZE - 2,
            r matches Ok(q) ==> q.wf() && q@ == counted_pdu(0x04, input_registers@),
            r is Err ==> r == Err::<Self, ModbusApplicationError>(
                ModbusApplicationError::BufferError(BufferError::NoSpaceLeft),
            ),
    {
        match counted(0x04, input_registers) {
            Ok(pdu) => Ok(Response { inner: pdu, marker: PhantomData }),
            Err(e) => Err(e),
        }
    }

    /// The first payload byte.
    pub fn byte_count(&self) -> (r: Option<u8>)
        requires
            self.wf(),
        ensures
            r == byte_at(self@, 1),
    {
        self.inner.get_u8(0)
    }

    /// The registers of the `byte_count` bytes; `None` when the bytes are
    /// not all there.
    pub fn input_registers(&self) -> (r: Option<RegisterSlice>)
        requires
            self.wf(),
        ensures
            r is Some <==> counted_bytes(self@) is Some,
            r matches Some(s) ==> s.wf() && s@ == registers_of(counted_bytes(self@)->0),
    {
        register_slice(&self.inner)
    }

    /// Register `index`, or `None` past the last whole register.
    pub fn register(&self, index: usize) -> (r: Option<u16>)
        requires
            self.wf(),
        ensures
            r == register_at(self@, index as int),
    {
        register_of(&self.inner, index)
    }
}

impl Response<WriteSingleCoil> {
    /// Sets the coil at `output_address` ON (value field 0xFF00) or OFF (0x0000).
    pub fn new(output_address: u16, output_value: bool) -> (r: Result<Self, ModbusApplicationError>)
        ensures
            r matches Ok(q) && q.wf() && q@ == two_field_pdu(0x05, output_address, coil_value(output_value)),
    {
        let value: u16 = if output_value { 0xFF00 } else { 0x0000 };
        Ok(Response { inner: two_field(0x05, output_address, value), marker: PhantomData })
    }

    pub fn output_address(&self) -> (r: Option<u16>)
        requires
            self.wf(),
        ensures
            r == u16_be_at(self@, 1),
    {
        self.inner.get_u16(0)
    }

    /// ON exactly when the value field is 0xFF00.
    pub fn output_value(&self) -> (r: Option<bool>)
        requires
            self.wf(),
        ensures
            r == coil_of(u16_be_at(self@, 3)),
    {
        match self.inner.get_u16(2) {
            Some(v) => Some(v == 0xFF00),
            None => None,
        }
    }
}

impl Response<WriteSingleRegister> {
    /// Writes `register_value` to the register at `register_address`.
    pub fn new(register_address: u16, register_value: u16) -> (r: Result<Self, ModbusApplicationError>)
        ensures
            r matches Ok(q) && q.wf() && q@ == two_field_pdu(0x06, register_address, register_value),
    {
        Ok(Response { inner: two_field(0x06, register_address, register_value), marker: PhantomData })
    }

    pub fn register_address(&self) -> (r: Option<u16>)
        requires
            self.wf(),
        ensures
            r == u16_be_at(self@, 1),
    {
        self.inner.get_u16(0)
    }

    pub fn register_value(&self) -> (r: Option<u16>)
        requires
            self.wf(),
        ensures
            r == u16_be_at(self@, 3),
    {
        self.inner.get_u16(2)
    }
}

impl Response<UserDefined> {
    /// A PDU with any function code and up to 252 data bytes; longer data
    /// fails with `NoSpaceLeft`.
    pub fn new(function_code: u8, data: &[u8]) -> (r: Result<Self, ModbusApplicationError>)
        ensures
            r is Ok <==> data@.len() <= MAX_PDU_SIZE - 1,
            r matches Ok(q) ==> q.wf() && q@ == seq![function_code] + data@,
            r is Err ==> r == Err::<Self, ModbusApplicationError>(
                ModbusApplicationError::BufferError(BufferError::NoSpaceLeft),
            ),
    {
        if data.len() > MAX_PDU_SIZE - 1 {
            return Err(ModbusApplicationError::BufferError(BufferError::NoSpaceLeft));
        }
        let mut pdu = Pdu::new(function_code).unwrap();
        let _ = pdu.put_slice(data);
        assert(pdu@ =~= seq![function_code] + data@);
        Ok(Response { inner: pdu, marker: PhantomData })
    }

    pub fn function_code(&self) -> (r: u8)
        requires
            self.wf(),
        ensures
            r == self@[0],
    {
        self.inner.function_code()
    }

    /// The bytes after the function code.
    pub fn data(&self) -> (r: &[u8])
        requires
            self.wf(),
        ensures
            r@ == self@.drop_first(),
    {
        self.inner.data()
    }

    /// Tags a PDU as the answer to a user-defined request; no check is made.
    pub fn from_pdu(pdu: Pdu) -> (r: Self)
        requires
            pdu.wf(),
        ensures
            r.wf(),
            r@ == pdu@,
    {
        Response { inner: pdu, marker: PhantomData }
    }
}

/// A server's exception answer: the function code with its 0x80 bit set,
/// then one exception-code byte.
#[derive(Debug)]
pub struct ExceptionResponse {
    inner: Pdu,
}

impl View for ExceptionResponse {
    type V = Seq<u8>;

    closed spec fn view(&self) -> Seq<u8> {
        self.inner@
    }
}

impl ExceptionResponse {
    pub closed spec fn wf(&self) -> bool {
        self.inner.wf()
    }

    pub fn new(function_code: FunctionCode, exception_code: ExceptionCode) -> (r: Result<Self, ModbusApplicationError>)
        ensures
            r matches Ok(e) && e.wf() && e@ == exception_pdu(function_code, exception_code),
    {
        let mut pdu = Pdu::new(function_code.code() | 0x80).unwrap();
        let _ = pdu.put_u8(exception_code.code());
        assert(pdu@ =~= exception_pdu(function_code, exception_code));
        Ok(ExceptionResponse { inner: pdu })
    }

    /// The function that failed: the first byte with the exception bit masked off.
    pub fn function_code(&self) -> (r: FunctionCode)
        requires
            self.wf(),
        ensures
            r == function_code_of(self@[0]),
    {
        FunctionCode::from_u8(self.inner.function_code())
    }

    /// The exception code; `MissingData` when the byte is absent,
    /// `UndefinedExceptionCode` when it names no exception.
    pub fn exception_code(&self) -> (r: Result<ExceptionCode, ModbusApplicationError>)
        requires
            self.wf(),
        ensures
            self@.len() < 2 ==> r == Err::<ExceptionCode, ModbusApplicationError>(ModbusApplicationError::MissingData),
            self@.len() >= 2 ==> r == (match exception_code_of(self@[1]) {
                Some(c) => Ok(c),
                None => Err(ModbusApplicationError::UndefinedExceptionCode(self@[1])),
            }),
    {
        match self.inner.get_u8(0) {
            Some(code) => ExceptionCode::from_u8(code),
            None => Err(ModbusApplicationError::MissingData),
        }
    }
}

/// What a server answered: the typed response, or an exception.
#[derive(Debug)]
pub enum Reply<T> {
    Normal(Response<T>),
    Exception(ExceptionResponse),
}

impl<T> Reply<T> {
    pub open spec fn wf(&self) -> bool {
        match self {
            Reply::Normal(r) => r.wf(),
            Reply::Exception(e) => e.wf(),
        }
    }

    /// The bytes of the PDU answered.
    pub open spec fn bytes(&self) -> Seq<u8> {
        match self {
            Reply::Normal(r) => r@,
            Reply::Exception(e) => e@,
        }
    }
}

/// How a response PDU to a request with function code `expected` is read:
/// with the exception bit masked off its code must be `expected`, else the
/// error carries `expected` and the code byte as received; with the bit set
/// it is an exception, which needs its code byte.
pub open spec fn reply_outcome(expected: u8, pdu: Seq<u8>) -> Result<bool, ModbusApplicationError> {
    if masked_code(pdu[0]) != expected {
        Err(ModbusApplicationError::UnexpectedCode(expected, pdu[0]))
    } else if pdu[0] >= 0x80 {
        if pdu.len() < 2 {
            Err(ModbusApplicationError::MissingData)
        } else {
            Ok(true)
        }
    } else {
        Ok(false)
    }
}

/// Reads a response PDU for a request with function code `expected`. `Ok`
/// holds the PDU unchanged, as an exception exactly when `reply_outcome`
/// says so.
fn read_reply<T>(expected: u8, pdu: Pdu) -> (r: Result<Reply<T>, ModbusApplicationError>)
    requires
        pdu.wf(),
    ensures
        r matches Ok(a) ==> a.wf() && a.bytes() == pdu@ && reply_outcome(expected, pdu@) == Ok::<bool, ModbusApplicationError>(a is Exception),
        r matches Err(e) ==> reply_outcome(expected, pdu@) == Err::<bool, ModbusApplicationError>(e),
{
    let code = pdu.function_code();
    let masked: u8 = code & 0x7F;
    assert(masked == masked_code(code) && (code >= 0x80 <==> code & 0x80 != 0)) by (bit_vector)
        requires
            masked == code & 0x7F,
    ;
    if masked != expected {
        return Err(ModbusApplicationError::UnexpectedCode(expected, code));
    }
    if code & 0x80 != 0 {
        if pdu.len() < 2 {
            return Err(ModbusApplicationError::MissingData);
        }
        Ok(Reply::Exception(ExceptionResponse { inner: pdu }))
    } else {
        Ok(Reply::Normal(Response { inner: pdu, marker: PhantomData }))
    }
}

/// Reads a response PDU to a request for `T`: an exception when the
/// exception bit is set, else the typed response; `UnexpectedCode`, with
/// the code byte as received, when the masked code is another function's, `MissingData` for an exception
/// without its code byte.
pub fn interpret_response<T: PublicFunction>(pdu: Pdu) -> (r: Result<Reply<T>, ModbusApplicationError>)
    requires
        pdu.wf(),
    ensures
        r matches Ok(a) ==> a.wf() && a.bytes() == pdu@ && reply_outcome(T::spec_function_code().spec_code(), pdu@) == Ok::<bool, ModbusApplicationError>(a is Exception),
        r matches Err(e) ==> reply_outcome(T::spec_function_code().spec_code(), pdu@) == Err::<bool, ModbusApplicationError>(e),
{
    read_reply(T::function_code().code(), pdu)
}

/// Reads a response PDU to a user-defined request with function code
/// `function_code`, as `interpret_response` does.
pub fn interpret_user_response(function_code: u8, pdu: Pdu) -> (r: Result<Reply<UserDefined>, ModbusApplicationError>)
    requires
        pdu.wf(),
    ensures
        r matches Ok(a) ==> a.wf() && a.bytes() == pdu@ && reply_outcome(function_code, pdu@) == Ok::<bool, ModbusApplicationError>(a is Exception),
        r matches Err(e) ==> reply_outcome(function_code, pdu@) == Err::<bool, ModbusApplicationError>(e),
{
    read_reply(function_code, pdu)
}

/// Decoding the two fields of a request built from `first` and `second`
/// gives them back.
pub proof fn lemma_two_field_round_trip(function_code: u8, first: u16, second: u16)
    ensures
        u16_be_at(two_field_pdu(function_code, first, second), 1) == Some(first),
        u16_be_at(two_field_pdu(function_code, first, second), 3) == Some(second),
{
    let p = two_field_pdu(function_code, first, second);
    crate::frame::lemma_u16_bytes(first);
    crate::frame::lemma_u16_bytes(second);
    assert(p[1] == crate::frame::hi_byte(first) && p[2] == crate::frame::lo_byte(first));
    assert(p[3] == crate::frame::hi_byte(second) && p[4] == crate::frame::lo_byte(second));
}

/// A coil written ON or OFF reads back as written; of all value fields
/// only 0xFF00 reads as ON.
pub proof fn lemma_coil_round_trip(address: u16, on: bool, field: u16)
    ensures
        coil_of(u16_be_at(two_field_pdu(0x05, address, coil_value(on)), 3)) == Some(on),
        coil_of(Some(field)) == Some(field == 0xFF00u16),
{
    lemma_two_field_round_trip(0x05, address, coil_value(on));
}

/// A response whose first byte is the expected code with the exception bit
/// set, followed by a code byte, is read as an exception of that function.
pub proof fn lemma_exception_bit(expected: u8, pdu: Seq<u8>)
    requires
        expected < 0x80,
        pdu.len() >= 2,
        pdu[0] == expected + 0x80,
    ensures
        reply_outcome(expected, pdu) == Ok::<bool, ModbusApplicationError>(true),
        function_code_of(pdu[0]) == function_code_of(expected),
{
}

/// The typed function a PDU's code selects: one of the six typed public
/// functions, or `None` for any other code. The exception bit is ignored.
pub open spec fn typed_function_of(b: u8) -> Option<PublicFunctionCode> {
    match function_code_of(b) {
        FunctionCode::Public(c) => match c {
            PublicFunctionCode::ReadCoils
            | PublicFunctionCode::ReadDiscreteInputs
            | PublicFunctionCode::ReadHoldingRegisters
            | PublicFunctionCode::ReadInputRegisters
            | PublicFunctionCode::WriteSingleCoil
            | PublicFunctionCode::WriteSingleRegister => Some(c),
            _ => None,
        },
        FunctionCode::UserDefined(_) => None,
    }
}

/// A request PDU tagged at run time by its function code.
#[derive(Debug)]
pub enum RequestPdu {
    ReadCoils(Request<ReadCoils>),
    ReadDiscreteInputs(Request<ReadDiscreteInputs>),
    ReadHoldingRegisters(Request<ReadHoldingRegisters>),
    ReadInputRegisters(Request<ReadInputRegisters>),
    WriteSingleCoil(Request<WriteSingleCoil>),
    WriteSingleRegister(Request<WriteSingleRegister>),
    UserDefined(Request<UserDefined>),
}

impl RequestPdu {
    /// The bytes of the tagged PDU.
    pub open spec fn bytes(&self) -> Seq<u8> {
        match self {
            RequestPdu::ReadCoils(q) => q@,
            RequestPdu::ReadDiscreteInputs(q) => q@,
            RequestPdu::ReadHoldingRegisters(q) => q@,
            RequestPdu::ReadInputRegisters(q) => q@,
            RequestPdu::WriteSingleCoil(q) => q@,
            RequestPdu::WriteSingleRegister(q) => q@,
            RequestPdu::UserDefined(q) => q@,
        }
    }

    pub open spec fn wf(&self) -> bool {
        match self {
            RequestPdu::ReadCoils(q) => q.wf(),
            RequestPdu::ReadDiscreteInputs(q) => q.wf(),
            RequestPdu::ReadHoldingRegisters(q) => q.wf(),
            RequestPdu::ReadInputRegisters(q) => q.wf(),
            RequestPdu::WriteSingleCoil(q) => q.wf(),
            RequestPdu::WriteSingleRegister(q) => q.wf(),
            RequestPdu::UserDefined(q) => q.wf(),
        }
    }

    /// The typed function of the variant; `None` for `UserDefined`.
    pub open spec fn function(&self) -> Option<PublicFunctionCode> {
        match self {
            RequestPdu::ReadCoils(_) => Some(PublicFunctionCode::ReadCoils),
            RequestPdu::ReadDiscreteInputs(_) => Some(PublicFunctionCode::ReadDiscreteInputs),
            RequestPdu::ReadHoldingRegisters(_) => Some(PublicFunctionCode::ReadHoldingRegisters),
            RequestPdu::ReadInputRegisters(_) => Some(PublicFunctionCode::ReadInputRegisters),
            RequestPdu::WriteSingleCoil(_) => Some(PublicFunctionCode::WriteSingleCoil),
            RequestPdu::WriteSingleRegister(_) => Some(PublicFunctionCode::WriteSingleRegister),
            RequestPdu::UserDefined(_) => None,
        }
    }

    /// Tags a PDU by its function code (exception bit ignored); codes
    /// without a typed request become `UserDefined`.
    pub fn from_pdu(pdu: Pdu) -> (r: RequestPdu)
        requires
            pdu.wf(),
        ensures
            r.wf(),
            r.bytes() == pdu@,
            r.function() == typed_function_of(pdu@[0]),
    {
        match FunctionCode::from_u8(pdu.function_code()) {
            FunctionCode::Public(PublicFunctionCode::ReadCoils) => RequestPdu::ReadCoils(
                Request { inner: pdu, marker: PhantomData },
            ),
            FunctionCode::Public(PublicFunctionCode::ReadDiscreteInputs) => RequestPdu::ReadDiscreteInputs(
                Request { inner: pdu, marker: PhantomData },
            ),
            FunctionCode::Public(PublicFunctionCode::ReadHoldingRegisters) => RequestPdu::ReadHoldingRegisters(
                Request { inner: pdu, marker: PhantomData },
            ),
            FunctionCode::Public(PublicFunctionCode::ReadInputRegisters) => RequestPdu::ReadInputRegisters(
                Request { inner: pdu, marker: PhantomData },
            ),
            FunctionCode::Public(PublicFunctionCode::WriteSingleCoil) => RequestPdu::WriteSingleCoil(
                Request { inner: pdu, marker: PhantomData },
            ),
            FunctionCode::Public(PublicFunctionCode::WriteSingleRegister) => RequestPdu::WriteSingleRegister(
                Request { inner: pdu, marker: PhantomData },
            ),
            _ => RequestPdu::UserDefined(Request { inner: pdu, marker: PhantomData }),
        }
    }
}

/// A response PDU tagged at run time: an exception when the exception bit
/// is set, else by its function code.
#[derive(Debug)]
pub enum ResponsePdu {
    ReadCoils(Response<ReadCoils>),
    ReadDiscreteInputs(Response<ReadDiscreteInputs>),
    ReadHoldingRegisters(Response<ReadHoldingRegisters>),
    ReadInputRegisters(Response<ReadInputRegisters>),
    WriteSingleCoil(Response<WriteSingleCoil>),
    WriteSingleRegister(Response<WriteSingleRegister>),
    UserDefined(Response<UserDefined>),
    Exception(ExceptionResponse),
}

impl ResponsePdu {
    /// The bytes of the tagged PDU.
    pub open spec fn bytes(&self) -> Seq<u8> {
        match self {
            ResponsePdu::ReadCoils(q) => q@,
            ResponsePdu::ReadDiscreteInputs(q) => q@,
            ResponsePdu::ReadHoldingRegisters(q) => q@,
            ResponsePdu::ReadInputRegisters(q) => q@,
            ResponsePdu::WriteSingleCoil(q) => q@,
            ResponsePdu::WriteSingleRegister(q) => q@,
            ResponsePdu::UserDefined(q) => q@,
            ResponsePdu::Exception(e) => e@,
        }
    }

    pub open spec fn wf(&self) -> bool {
        match self {
            ResponsePdu::ReadCoils(q) => q.wf(),
            ResponsePdu::ReadDiscreteInputs(q) => q.wf(),
            ResponsePdu::ReadHoldingRegisters(q) => q.wf(),
            ResponsePdu::ReadInputRegisters(q) => q.wf(),
            ResponsePdu::WriteSingleCoil(q) => q.wf(),
            ResponsePdu::WriteSingleRegister(q) => q.wf(),
            ResponsePdu::UserDefined(q) => q.wf(),
            ResponsePdu::Exception(e) => e.wf(),
        }
    }

    /// The typed function of the variant; `None` for `UserDefined` and
    /// `Exception`.
    pub open spec fn function(&self) -> Option<PublicFunctionCode> {
        match self {
            ResponsePdu::ReadCoils(_) => Some(PublicFunctionCode::ReadCoils),
            ResponsePdu::ReadDiscreteInputs(_) => Some(PublicFunctionCode::ReadDiscreteInputs),
            ResponsePdu::ReadHoldingRegisters(_) => Some(PublicFunctionCode::ReadHoldingRegisters),
            ResponsePdu::ReadInputRegisters(_) => Some(PublicFunctionCode::ReadInputRegisters),
            ResponsePdu::WriteSingleCoil(_) => Some(PublicFunctionCode::WriteSingleCoil),
            ResponsePdu::WriteSingleRegister(_) => Some(PublicFunctionCode::WriteSingleRegister),
            ResponsePdu::UserDefined(_) => None,
            ResponsePdu::Exception(_) => None,
        }
    }

    /// Tags a response PDU: `Exception` when its exception bit is set, else
    /// by its function code, codes without a typed response becoming
    /// `UserDefined`.
    pub fn from_pdu(pdu: Pdu) -> (r: ResponsePdu)
        requires
            pdu.wf(),
        ensures
            r.wf(),
            r.bytes() == pdu@,
            (r is Exception) == (pdu@[0] >= 0x80),
            pdu@[0] < 0x80 ==> r.function() == typed_function_of(pdu@[0]),
    {
        let code = pdu.function_code();
        if code >= 0x80 {
            return ResponsePdu::Exception(ExceptionResponse { inner: pdu });
        }
        match FunctionCode::from_u8(code) {
            FunctionCode::Public(PublicFunctionCode::ReadCoils) => ResponsePdu::ReadCoils(
                Response { inner: pdu, marker: PhantomData },
            ),
            FunctionCode::Public(PublicFunctionCode::ReadDiscreteInputs) => ResponsePdu::ReadDiscreteInputs(
                Response { inner: pdu, marker: PhantomData },
            ),
            FunctionCode::Public(PublicFunctionCode::ReadHoldingRegisters) => ResponsePdu::ReadHoldingRegisters(
                Response { inner: pdu, marker: PhantomData },
            ),
            FunctionCode::Public(PublicFunctionCode::ReadInputRegisters) => ResponsePdu::ReadInputRegisters(
                Response { inner: pdu, marker: PhantomData },
            ),
            FunctionCode::Public(PublicFunctionCode::WriteSingleCoil) => ResponsePdu::WriteSingleCoil(
                Response { inner: pdu, marker: PhantomData },
            ),
            FunctionCode::Public(PublicFunctionCode::WriteSingleRegister) => ResponsePdu::WriteSingleRegister(
                Response { inner: pdu, marker: PhantomData },
            ),
            _ => ResponsePdu::UserDefined(Response { inner: pdu, marker: PhantomData }),
        }
    }
}

} // verus!
