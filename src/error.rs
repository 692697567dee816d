use vstd::prelude::*;

verus! {

/// Errors raised by a fixed-capacity buffer.
#[derive(Debug, Clone, Copy, PartialEq, Eq, Structural)]
pub enum BufferError {
    /// The slice handed in is larger than the whole buffer.
    BufferOverflow,
    /// The append would go past the buffer's capacity.
    NoSpaceLeft,
}

/// Errors of the RTU framing layer.
#[derive(Debug, Clone, Copy, PartialEq, Eq, Structural)]
pub enum ModbusRtuError {
    /// A frame shorter than 4 or longer than 256 bytes.
    InvalidFrameLength,
    /// A frame for another device, carrying the address it was sent to; also
    /// a reserved address (248..=255) given as the device to talk to.
    InvalidSlaveAddress(u8),
    /// The CRC trailer does not match the frame's bytes.
    CrcValidationFailure,
}

/// Errors raised while building or parsing a frame.
#[derive(Debug, Clone, Copy, PartialEq, Eq, Structural)]
pub enum ModbusFrameError {
    RtuError(ModbusRtuError),
    BufferError(BufferError),
}

/// Errors of the typed request/response model.
#[derive(Debug, Clone, Copy, PartialEq, Eq, Structural)]
pub enum ModbusApplicationError {
    /// A quantity outside the limits of its function.
    OutOfRange,
    /// A byte that names no public function code.
    UndefinedFunctionCode(u8),
    /// A byte that names no exception code.
    UndefinedExceptionCode(u8),
    /// A response for another function: the expected code, then the code received.
    UnexpectedCode(u8, u8),
    /// A PDU too short for what it must hold.
    MissingData,
    /// The PDU buffer refused the data.
    BufferError(BufferError),
}

/// Errors of a transport.
#[derive(Debug, Clone, Copy, PartialEq, Eq, Structural)]
pub enum ModbusTransportError {
    /// The port failed to read or write.
    Io,
    /// The inactivity timer fired on bytes that are no valid frame.
    Timeout,
    /// A silence longer than 1.5 character times split a frame.
    FrameIncomplete,
    /// A reserved address (248..=255) given as the device to talk to.
    InvalidSlaveAddress(u8),
}

/// Any error of the stack, by the layer that raised it.
#[derive(Debug, Clone, Copy, PartialEq, Eq, Structural)]
pub enum ModbusError {
    ApplicationError(ModbusApplicationError),
    FrameError(ModbusFrameError),
    TransportError(ModbusTransportError),
}

} // verus!
