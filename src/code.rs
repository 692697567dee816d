use vstd::prelude::*;

use crate::error::ModbusApplicationError;

verus! {

/// The function codes that the Modbus application protocol defines.
#[derive(Debug, Clone, Copy, PartialEq, Eq, Structural)]
pub enum PublicFunctionCode {
    /// `0x01`
    ReadCoils,
    /// `0x02`
    ReadDiscreteInputs,
    /// `0x03`
    ReadHoldingRegisters,
    /// `0x04`
    ReadInputRegisters,
    /// `0x05`
    WriteSingleCoil,
    /// `0x06`
    WriteSingleRegister,
    /// `0x07`
    ReadExceptionStatus,
    /// `0x08`
    Diagnostics,
    /// `0x0B`
    GetCommEventCounter,
    /// `0x0C`
    GetCommEventLog,
    /// `0x0F`
    WriteMultipleCoils,
    /// `0x10`
    WriteMultipleRegisters,
    /// `0x11`
    ReportServerId,
    /// `0x14`
    ReadFileRecord,
    /// `0x15`
    WriteFileRecord,
    /// `0x16`
    MaskWriteRegister,
    /// `0x17`
    ReadWriteMultipleRegisters,
    /// `0x18`
    ReadFifoQueue,
    /// `0x2B`
    EncapsulatedInterfaceTransport,
}

/// The PublicFunctionCode that a byte names, if any.
pub open spec fn public_code_of(v: u8) -> Option<PublicFunctionCode> {
    if v == 0x01 {
        Some(PublicFunctionCode::ReadCoils)
    } else if v == 0x02 {
        Some(PublicFunctionCode::ReadDiscreteInputs)
    } else if v == 0x03 {
        Some(PublicFunctionCode::ReadHoldingRegisters)
    } else if v == 0x04 {
        Some(PublicFunctionCode::ReadInputRegisters)
    } else if v == 0x05 {
        Some(PublicFunctionCode::WriteSingleCoil)
    } else if v == 0x06 {
        Some(PublicFunctionCode::WriteSingleRegister)
    } else if v == 0x07 {
        Some(PublicFunctionCode::ReadExceptionStatus)
    } else if v == 0x08 {
        Some(PublicFunctionCode::Diagnostics)
    } else if v == 0x0B {
        Some(PublicFunctionCode::GetCommEventCounter)
    } else if v == 0x0C {
        Some(PublicFunctionCode::GetCommEventLog)
    } else if v == 0x0F {
        Some(PublicFunctionCode::WriteMultipleCoils)
    } else if v == 0x10 {
        Some(PublicFunctionCode::WriteMultipleRegisters)
    } else if v == 0x11 {
        Some(PublicFunctionCode::ReportServerId)
    } else if v == 0x14 {
        Some(PublicFunctionCode::ReadFileRecord)
    } else if v == 0x15 {
        Some(PublicFunctionCode::WriteFileRecord)
    } else if v == 0x16 {
        Some(PublicFunctionCode::MaskWriteRegister)
    } else if v == 0x17 {
        Some(PublicFunctionCode::ReadWriteMultipleRegisters)
    } else if v == 0x18 {
        Some(PublicFunctionCode::ReadFifoQueue)
    } else if v == 0x2B {
        Some(PublicFunctionCode::EncapsulatedInterfaceTransport)
    } else {
        None
    }
}

impl PublicFunctionCode {
    /// The byte this code is written as.
    pub open spec fn spec_code(self) -> u8 {
        match self {
            PublicFunctionCode::ReadCoils => 0x01,
            PublicFunctionCode::ReadDiscreteInputs => 0x02,
            PublicFunctionCode::ReadHoldingRegisters => 0x03,
            PublicFunctionCode::ReadInputRegisters => 0x04,
            PublicFunctionCode::WriteSingleCoil => 0x05,
            PublicFunctionCode::WriteSingleRegister => 0x06,
            PublicFunctionCode::ReadExceptionStatus => 0x07,
            PublicFunctionCode::Diagnostics => 0x08,
            PublicFunctionCode::GetCommEventCounter => 0x0B,
            PublicFunctionCode::GetCommEventLog => 0x0C,
            PublicFunctionCode::WriteMultipleCoils => 0x0F,
            PublicFunctionCode::WriteMultipleRegisters => 0x10,
            PublicFunctionCode::ReportServerId => 0x11,
            PublicFunctionCode::ReadFileRecord => 0x14,
            PublicFunctionCode::WriteFileRecord => 0x15,
            PublicFunctionCode::MaskWriteRegister => 0x16,
            PublicFunctionCode::ReadWriteMultipleRegisters => 0x17,
            PublicFunctionCode::ReadFifoQueue => 0x18,
            PublicFunctionCode::EncapsulatedInterfaceTransport => 0x2B,
        }
    }

    /// The byte this code is written as.
    pub fn code(self) -> (r: u8)
        ensures
            r == self.spec_code(),
    {
        match self {
            PublicFunctionCode::ReadCoils => 0x01,
            PublicFunctionCode::ReadDiscreteInputs => 0x02,
            PublicFunctionCode::ReadHoldingRegisters => 0x03,
            PublicFunctionCode::ReadInputRegisters => 0x04,
            PublicFunctionCode::WriteSingleCoil => 0x05,
            PublicFunctionCode::WriteSingleRegister => 0x06,
            PublicFunctionCode::ReadExceptionStatus => 0x07,
            PublicFunctionCode::Diagnostics => 0x08,
            PublicFunctionCode::GetCommEventCounter => 0x0B,
            PublicFunctionCode::GetCommEventLog => 0x0C,
            PublicFunctionCode::WriteMultipleCoils => 0x0F,
            PublicFunctionCode::WriteMultipleRegisters => 0x10,
            PublicFunctionCode::ReportServerId => 0x11,
            PublicFunctionCode::ReadFileRecord => 0x14,
            PublicFunctionCode::WriteFileRecord => 0x15,
            PublicFunctionCode::MaskWriteRegister => 0x16,
            PublicFunctionCode::ReadWriteMultipleRegisters => 0x17,
            PublicFunctionCode::ReadFifoQueue => 0x18,
            PublicFunctionCode::EncapsulatedInterfaceTransport => 0x2B,
        }
    }

    /// The code that `value` names; any other byte is `UndefinedFunctionCode`.
    pub fn from_u8(value: u8) -> (r: Result<PublicFunctionCode, ModbusApplicationError>)
        ensures
            r == (match public_code_of(value) {
                Some(c) => Ok(c),
                None => Err(ModbusApplicationError::UndefinedFunctionCode(value)),
            }),
    {
        match value {
            0x01 => Ok(PublicFunctionCode::ReadCoils),
            0x02 => Ok(PublicFunctionCode::ReadDiscreteInputs),
            0x03 => Ok(PublicFunctionCode::ReadHoldingRegisters),
            0x04 => Ok(PublicFunctionCode::ReadInputRegisters),
            0x05 => Ok(PublicFunctionCode::WriteSingleCoil),
            0x06 => Ok(PublicFunctionCode::WriteSingleRegister),
            0x07 => Ok(PublicFunctionCode::ReadExceptionStatus),
            0x08 => Ok(PublicFunctionCode::Diagnostics),
            0x0B => Ok(PublicFunctionCode::GetCommEventCounter),
            0x0C => Ok(PublicFunctionCode::GetCommEventLog),
            0x0F => Ok(PublicFunctionCode::WriteMultipleCoils),
            0x10 => Ok(PublicFunctionCode::WriteMultipleRegisters),
            0x11 => Ok(PublicFunctionCode::ReportServerId),
            0x14 => Ok(PublicFunctionCode::ReadFileRecord),
            0x15 => Ok(PublicFunctionCode::WriteFileRecord),
            0x16 => Ok(PublicFunctionCode::MaskWriteRegister),
            0x17 => Ok(PublicFunctionCode::ReadWriteMultipleRegisters),
            0x18 => Ok(PublicFunctionCode::ReadFifoQueue),
            0x2B => Ok(PublicFunctionCode::EncapsulatedInterfaceTransport),
            _ => Err(ModbusApplicationError::UndefinedFunctionCode(value)),
        }
    }
}

impl TryFrom<u8> for PublicFunctionCode {
    type Error = ModbusApplicationError;

    fn try_from(value: u8) -> (r: Result<PublicFunctionCode, ModbusApplicationError>) {
        PublicFunctionCode::from_u8(value)
    }
}

impl vstd::std_specs::convert::TryFromSpecImpl<u8> for PublicFunctionCode {
    open spec fn obeys_try_from_spec() -> bool {
        true
    }

    open spec fn try_from_spec(v: u8) -> Result<PublicFunctionCode, ModbusApplicationError> {
        match public_code_of(v) {
            Some(c) => Ok(c),
            None => Err(ModbusApplicationError::UndefinedFunctionCode(v)),
        }
    }
}

impl From<PublicFunctionCode> for u8 {
    fn from(value: PublicFunctionCode) -> (r: u8) {
        value.code()
    }
}

impl vstd::std_specs::convert::FromSpecImpl<PublicFunctionCode> for u8 {
    open spec fn obeys_from_spec() -> bool {
        true
    }

    open spec fn from_spec(v: PublicFunctionCode) -> u8 {
        v.spec_code()
    }
}

/// The exception codes a server may answer with.
#[derive(Debug, Clone, Copy, PartialEq, Eq, Structural)]
pub enum ExceptionCode {
    /// `0x01`
    IllegalFunction,
    /// `0x02`
    IllegalDataAddress,
    /// `0x03`
    IllegalDataValue,
    /// `0x04`
    ServerDeviceFailure,
    /// `0x05`
    Acknowledge,
    /// `0x06`
    ServerDeviceBusy,
    /// `0x08`
    MemoryParityError,
    /// `0x0A`
    GatewayPathUnavailable,
    /// `0x0B`
    GatewayTargetDeviceFailedToRespond,
}

/// The ExceptionCode that a byte names, if any.
pub open spec fn exception_code_of(v: u8) -> Option<ExceptionCode> {
    if v == 0x01 {
        Some(ExceptionCode::IllegalFunction)
    } else if v == 0x02 {
        Some(ExceptionCode::IllegalDataAddress)
    } else if v == 0x03 {
        Some(ExceptionCode::IllegalDataValue)
    } else if v == 0x04 {
        Some(ExceptionCode::ServerDeviceFailure)
    } else if v == 0x05 {
        Some(ExceptionCode::Acknowledge)
    } else if v == 0x06 {
        Some(ExceptionCode::ServerDeviceBusy)
    } else if v == 0x08 {
        Some(ExceptionCode::MemoryParityError)
    } else if v == 0x0A {
        Some(ExceptionCode::GatewayPathUnavailable)
    } else if v == 0x0B {
        Some(ExceptionCode::GatewayTargetDeviceFailedToRespond)
    } else {
        None
    }
}

impl ExceptionCode {
    /// The byte this code is written as.
    pub open spec fn spec_code(self) -> u8 {
        match self {
            ExceptionCode::IllegalFunction => 0x01,
            ExceptionCode::IllegalDataAddress => 0x02,
            ExceptionCode::IllegalDataValue => 0x03,
            ExceptionCode::ServerDeviceFailure => 0x04,
            ExceptionCode::Acknowledge => 0x05,
            ExceptionCode::ServerDeviceBusy => 0x06,
            ExceptionCode::MemoryParityError => 0x08,
            ExceptionCode::GatewayPathUnavailable => 0x0A,
            ExceptionCode::GatewayTargetDeviceFailedToRespond => 0x0B,
        }
    }

    /// The byte this code is written as.
    pub fn code(self) -> (r: u8)
        ensures
            r == self.spec_code(),
    {
        match self {
            ExceptionCode::IllegalFunction => 0x01,
            ExceptionCode::IllegalDataAddress => 0x02,
            ExceptionCode::IllegalDataValue => 0x03,
            ExceptionCode::ServerDeviceFailure => 0x04,
            ExceptionCode::Acknowledge => 0x05,
            ExceptionCode::ServerDeviceBusy => 0x06,
            ExceptionCode::MemoryParityError => 0x08,
            ExceptionCode::GatewayPathUnavailable => 0x0A,
            ExceptionCode::GatewayTargetDeviceFailedToRespond => 0x0B,
        }
    }

    /// The code that `value` names; any other byte is `UndefinedExceptionCode`.
    pub fn from_u8(value: u8) -> (r: Result<ExceptionCode, ModbusApplicationError>)
        ensures
            r == (match exception_code_of(value) {
                Some(c) => Ok(c),
                None => Err(ModbusApplicationError::UndefinedExceptionCode(value)),
            }),
    {
        match value {
            0x01 => Ok(ExceptionCode::IllegalFunction),
            0x02 => Ok(ExceptionCode::IllegalDataAddress),
            0x03 => Ok(ExceptionCode::IllegalDataValue),
            0x04 => Ok(ExceptionCode::ServerDeviceFailure),
            0x05 => Ok(ExceptionCode::Acknowledge),
            0x06 => Ok(ExceptionCode::ServerDeviceBusy),
            0x08 => Ok(ExceptionCode::MemoryParityError),
            0x0A => Ok(ExceptionCode::GatewayPathUnavailable),
            0x0B => Ok(ExceptionCode::GatewayTargetDeviceFailedToRespond),
            _ => Err(ModbusApplicationError::UndefinedExceptionCode(value)),
        }
    }
}

impl TryFrom<u8> for ExceptionCode {
    type Error = ModbusApplicationError;

    fn try_from(value: u8) -> (r: Result<ExceptionCode, ModbusApplicationError>) {
        ExceptionCode::from_u8(value)
    }
}

impl vstd::std_specs::convert::TryFromSpecImpl<u8> for ExceptionCode {
    open spec fn obeys_try_from_spec() -> bool {
        true
    }

    open spec fn try_from_spec(v: u8) -> Result<ExceptionCode, ModbusApplicationError> {
        match exception_code_of(v) {
            Some(c) => Ok(c),
            None => Err(ModbusApplicationError::UndefinedExceptionCode(v)),
        }
    }
}

impl From<ExceptionCode> for u8 {
    fn from(value: ExceptionCode) -> (r: u8) {
        value.code()
    }
}

impl vstd::std_specs::convert::FromSpecImpl<ExceptionCode> for u8 {
    open spec fn obeys_from_spec() -> bool {
        true
    }

    open spec fn from_spec(v: ExceptionCode) -> u8 {
        v.spec_code()
    }
}

/// A function code: a public one, or any other value of 0x00..=0x7F.
#[derive(Debug, Clone, Copy, PartialEq, Eq, Structural)]
pub enum FunctionCode {
    Public(PublicFunctionCode),
    UserDefined(u8),
}

/// The classification of a byte: the exception bit (0x80) is masked off
/// first, then the value is a public code if it names one.
pub open spec fn function_code_of(v: u8) -> FunctionCode {
    let m = (v as int % 128) as u8;
    match public_code_of(m) {
        Some(c) => FunctionCode::Public(c),
        None => FunctionCode::UserDefined(m),
    }
}

impl FunctionCode {
    /// The byte this code is written as.
    pub open spec fn spec_code(self) -> u8 {
        match self {
            FunctionCode::Public(c) => c.spec_code(),
            FunctionCode::UserDefined(v) => v,
        }
    }

    /// Classifies a byte, ignoring its exception bit.
    pub fn from_u8(value: u8) -> (r: FunctionCode)
        ensures
            r == function_code_of(value),
    {
        let masked: u8 = value & 0x7F;
        assert(masked == (value as int % 128) as u8) by (bit_vector)
            requires
                masked == value & 0x7F,
        ;
        match PublicFunctionCode::from_u8(masked) {
            Ok(code) => FunctionCode::Public(code),
            Err(_) => FunctionCode::UserDefined(masked),
        }
    }

    /// The byte this code is written as.
    pub fn code(self) -> (r: u8)
        ensures
            r == self.spec_code(),
    {
        match self {
            FunctionCode::Public(c) => c.code(),
            FunctionCode::UserDefined(v) => v,
        }
    }
}

impl From<u8> for FunctionCode {
    fn from(value: u8) -> (r: FunctionCode) {
        FunctionCode::from_u8(value)
    }
}

impl vstd::std_specs::convert::FromSpecImpl<u8> for FunctionCode {
    open spec fn obeys_from_spec() -> bool {
        true
    }

    open spec fn from_spec(v: u8) -> FunctionCode {
        function_code_of(v)
    }
}

impl From<FunctionCode> for u8 {
    fn from(value: FunctionCode) -> (r: u8) {
        value.code()
    }
}

impl vstd::std_specs::convert::FromSpecImpl<FunctionCode> for u8 {
    open spec fn obeys_from_spec() -> bool {
        true
    }

    open spec fn from_spec(v: FunctionCode) -> u8 {
        v.spec_code()
    }
}

} // verus!
