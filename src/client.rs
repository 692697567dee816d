use vstd::prelude::*;

use crate::error::{BufferError, ModbusApplicationError, ModbusError, ModbusTransportError};
use crate::frame::pdu::Pdu;
use crate::model::{
    interpret_response, interpret_user_response, reply_outcome, ReadCoils, ReadDiscreteInputs,
    ReadHoldingRegisters, ReadInputRegisters, Reply, Request, UserDefined, WriteSingleCoil,
    WriteSingleRegister,
};

verus! {

/// The application errors that reading the answer to a request with
/// function code `code` can give: a response for another function, or an
/// exception without its code byte.
pub open spec fn answer_error(code: u8, e: ModbusApplicationError) -> bool {
    (e matches ModbusApplicationError::UnexpectedCode(x, _) && x == code) || e
        == ModbusApplicationError::MissingData
}

/// A link that carries one request PDU out and brings one response PDU
/// back. Calls come in pairs: `send`, then `recv`, never overlapping.
pub trait Transport {
    /// Sends a request PDU.
    fn send(&mut self, pdu: &Pdu) -> (r: Result<(), ModbusTransportError>)
        requires
            pdu.wf(),
    ;

    /// Waits for the response PDU.
    fn recv(&mut self) -> (r: Result<Pdu, ModbusTransportError>)
        ensures
            r matches Ok(p) ==> p.wf(),
    ;
}

/// A Modbus client: builds typed requests, exchanges them over its
/// transport, and reads the answers.
pub struct Client<T: Transport> {
    transport: T,
}

impl<T: Transport> Client<T> {
    /// The transport the client talks through.
    pub closed spec fn spec_transport(&self) -> T {
        self.transport
    }

    pub fn new(transport: T) -> (r: Self)
        ensures
            r.spec_transport() == transport,
    {
        Client { transport }
    }

    /// Gives the transport back.
    pub fn into_transport(self) -> (r: T)
        ensures
            r == self.spec_transport(),
    {
        self.transport
    }

    /// Sends `pdu` and returns what comes back.
    fn send_request(&mut self, pdu: &Pdu) -> (r: Result<Pdu, ModbusError>)
        requires
            pdu.wf(),
        ensures
            r matches Ok(p) ==> p.wf(),
            r matches Err(e) ==> e is TransportError,
    {
        match self.transport.send(pdu) {
            Ok(()) => {},
            Err(e) => return Err(ModbusError::TransportError(e)),
        }
        match self.transport.recv() {
            Ok(p) => Ok(p),
            Err(e) => Err(ModbusError::TransportError(e)),
        }
    }

    /// Reads coils from `starting_address`. A quantity outside 1..=2000
    /// fails with `OutOfRange` before anything is sent; otherwise the
    /// request goes out and the answer is read as `interpret_response` does.
    pub fn read_coils(&mut self, starting_address: u16, quantity_of_coils: u16) -> (r: Result<Reply<ReadCoils>, ModbusError>)
        ensures
            (r == Err::<Reply<ReadCoils>, ModbusError>(ModbusError::ApplicationError(ModbusApplicationError::OutOfRange)))
                <==> !(1 <= quantity_of_coils <= 2000),
            !(1 <= quantity_of_coils <= 2000) ==> final(self).spec_transport() == old(self).spec_transport(),
            1 <= quantity_of_coils <= 2000 ==> (r matches Err(ModbusError::ApplicationError(e)) ==> answer_error(0x01, e)),
            !(r matches Err(ModbusError::FrameError(_))),
            r matches Ok(a) ==> 1 <= quantity_of_coils <= 2000 && a.wf() && reply_outcome(0x01, a.bytes())
                == Ok::<bool, ModbusApplicationError>(a is Exception),
    {
        let request = match Request::<ReadCoils>::new(starting_address, quantity_of_coils) {
            Ok(q) => q,
            Err(e) => return Err(ModbusError::ApplicationError(e)),
        };
        let response = self.send_request(&request.into_inner())?;
        match interpret_response::<ReadCoils>(response) {
            Ok(a) => Ok(a),
            Err(e) => Err(ModbusError::ApplicationError(e)),
        }
    }

    /// Reads discrete inputs from `starting_address`. A quantity outside 1..=2000
    /// fails with `OutOfRange` before anything is sent; otherwise the
    /// request goes out and the answer is read as `interpret_response` does.
    pub fn read_discrete_inputs(&mut self, starting_address: u16, quantity_of_inputs: u16) -> (r: Result<Reply<ReadDiscreteInputs>, ModbusError>)
        ensures
            (r == Err::<Reply<ReadDiscreteInputs>, ModbusError>(ModbusError::ApplicationError(ModbusApplicationError::OutOfRange)))
                <==> !(1 <= quantity_of_inputs <= 2000),
            !(1 <= quantity_of_inputs <= 2000) ==> final(self).spec_transport() == old(self).spec_transport(),
            1 <= quantity_of_inputs <= 2000 ==> (r matches Err(ModbusError::ApplicationError(e)) ==> answer_error(0x02, e)),
            !(r matches Err(ModbusError::FrameError(_))),
            r matches Ok(a) ==> 1 <= quantity_of_inputs <= 2000 && a.wf() && reply_outcome(0x02, a.bytes())
                == Ok::<bool, ModbusApplicationError>(a is Exception),
    {
        let request = match Request::<ReadDiscreteInputs>::new(starting_address, quantity_of_inputs) {
            Ok(q) => q,
            Err(e) => return Err(ModbusError::ApplicationError(e)),
        };
        let response = self.send_request(&request.into_inner())?;
        match interpret_response::<ReadDiscreteInputs>(response) {
            Ok(a) => Ok(a),
            Err(e) => Err(ModbusError::ApplicationError(e)),
        }
    }

    /// Reads holding registers from `starting_address`. A quantity outside 1..=125
    /// fails with `OutOfRange` before anything is sent; otherwise the
    /// request goes out and the answer is read as `interpret_response` does.
    pub fn read_holding_registers(&mut self, starting_address: u16, quantity_of_registers: u16) -> (r: Result<Reply<ReadHoldingRegisters>, ModbusError>)
        ensures
            (r == Err::<Reply<ReadHoldingRegisters>, ModbusError>(ModbusError::ApplicationError(ModbusApplicationError::OutOfRange)))
                <==> !(1 <= quantity_of_registers <= 125),
            !(1 <= quantity_of_registers <= 125) ==> final(self).spec_transport() == old(self).spec_transport(),
            1 <= quantity_of_registers <= 125 ==> (r matches Err(ModbusError::ApplicationError(e)) ==> answer_error(0x03, e)),
            !(r matches Err(ModbusError::FrameError(_))),
            r matches Ok(a) ==> 1 <= quantity_of_registers <= 125 && a.wf() && reply_outcome(0x03, a.bytes())
                == Ok::<bool, ModbusApplicationError>(a is Exception),
    {
        let request = match Request::<ReadHoldingRegisters>::new(starting_address, quantity_of_registers) {
            Ok(q) => q,
            Err(e) => return Err(ModbusError::ApplicationError(e)),
        };
        let response = self.send_request(&request.into_inner())?;
        match interpret_response::<ReadHoldingRegisters>(response) {
            Ok(a) => Ok(a),
            Err(e) => Err(ModbusError::ApplicationError(e)),
        }
    }

    /// Reads input registers from `starting_address`. A quantity outside 1..=125
    /// fails with `OutOfRange` before anything is sent; otherwise the
    /// request goes out and the answer is read as `interpret_response` does.
    pub fn read_input_registers(&mut self, starting_address: u16, quantity_of_registers: u16) -> (r: Result<Reply<ReadInputRegisters>, ModbusError>)
        ensures
            (r == Err::<Reply<ReadInputRegisters>, ModbusError>(ModbusError::ApplicationError(ModbusApplicationError::OutOfRange)))
                <==> !(1 <= quantity_of_registers <= 125),
            !(1 <= quantity_of_registers <= 125) ==> final(self).spec_transport() == old(self).spec_transport(),
            1 <= quantity_of_registers <= 125 ==> (r matches Err(ModbusError::ApplicationError(e)) ==> answer_error(0x04, e)),
            !(r matches Err(ModbusError::FrameError(_))),
            r matches Ok(a) ==> 1 <= quantity_of_registers <= 125 && a.wf() && reply_outcome(0x04, a.bytes())
                == Ok::<bool, ModbusApplicationError>(a is Exception),
    {
        let request = match Request::<ReadInputRegisters>::new(starting_address, quantity_of_registers) {
            Ok(q) => q,
            Err(e) => return Err(ModbusError::ApplicationError(e)),
        };
        let response = self.send_request(&request.into_inner())?;
        match interpret_response::<ReadInputRegisters>(response) {
            Ok(a) => Ok(a),
            Err(e) => Err(ModbusError::ApplicationError(e)),
        }
    }

    /// Writes one coil and reads the server's echo as `interpret_response` does.
    pub fn write_single_coil(&mut self, output_address: u16, output_value: bool) -> (r: Result<Reply<WriteSingleCoil>, ModbusError>)
        ensures
            r matches Err(ModbusError::ApplicationError(e)) ==> answer_error(0x05, e),
            !(r matches Err(ModbusError::FrameError(_))),
            r matches Ok(a) ==> a.wf() && reply_outcome(0x05, a.bytes())
                == Ok::<bool, ModbusApplicationError>(a is Exception),
    {
        let request = match Request::<WriteSingleCoil>::new(output_address, output_value) {
            Ok(q) => q,
            Err(e) => return Err(ModbusError::ApplicationError(e)),
        };
        let response = self.send_request(&request.into_inner())?;
        match interpret_response::<WriteSingleCoil>(response) {
            Ok(a) => Ok(a),
            Err(e) => Err(ModbusError::ApplicationError(e)),
        }
    }

    /// Writes one register and reads the server's echo as `interpret_response` does.
    pub fn write_single_register(&mut self, register_address: u16, register_value: u16) -> (r: Result<Reply<WriteSingleRegister>, ModbusError>)
        ensures
            r matches Err(ModbusError::ApplicationError(e)) ==> answer_error(0x06, e),
            !(r matches Err(ModbusError::FrameError(_))),
            r matches Ok(a) ==> a.wf() && reply_outcome(0x06, a.bytes())
                == Ok::<bool, ModbusApplicationError>(a is Exception),
    {
        let request = match Request::<WriteSingleRegister>::new(register_address, register_value) {
            Ok(q) => q,
            Err(e) => return Err(ModbusError::ApplicationError(e)),
        };
        let response = self.send_request(&request.into_inner())?;
        match interpret_response::<WriteSingleRegister>(response) {
            Ok(a) => Ok(a),
            Err(e) => Err(ModbusError::ApplicationError(e)),
        }
    }

    /// Sends a request with any function code and up to 252 data bytes;
    /// longer data fails with `NoSpaceLeft` before anything is sent. The
    /// answer must carry the same code, exception bit aside.
    pub fn user_defined(&mut self, function_code: u8, data: &[u8]) -> (r: Result<Reply<UserDefined>, ModbusError>)
        ensures
            (r == Err::<Reply<UserDefined>, ModbusError>(
                ModbusError::ApplicationError(ModbusApplicationError::BufferError(BufferError::NoSpaceLeft)),
            )) <==> data@.len() > 252,
            data@.len() > 252 ==> final(self).spec_transport() == old(self).spec_transport(),
            data@.len() <= 252 ==> (r matches Err(ModbusError::ApplicationError(e)) ==> answer_error(function_code, e)),
            !(r matches Err(ModbusError::FrameError(_))),
            r matches Ok(a) ==> data@.len() <= 252 && a.wf() && reply_outcome(function_code, a.bytes())
                == Ok::<bool, ModbusApplicationError>(a is Exception),
    {
        let request = match Request::<UserDefined>::new(function_code, data) {
            Ok(q) => q,
            Err(e) => return Err(ModbusError::ApplicationError(e)),
        };
        let response = self.send_request(&request.into_inner())?;
        match interpret_user_response(function_code, response) {
            Ok(a) => Ok(a),
            Err(e) => Err(ModbusError::ApplicationError(e)),
        }
    }
}

} // verus!
