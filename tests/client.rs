use modbus_core::client::{Client, Transport};
use modbus_core::code::{ExceptionCode, FunctionCode, PublicFunctionCode};
use modbus_core::error::{BufferError, ModbusApplicationError, ModbusError, ModbusTransportError};
use modbus_core::frame::pdu::Pdu;
use modbus_core::frame::rtu::{calc_crc, Adu, RtuFrameHandler};
use modbus_core::model::Reply;
use modbus_core::transport::{RecvStep, RtuContext, RtuReceiver};

/// A link to a simulated device: requests are framed as on the wire, and
/// the scripted answer is fed through the RTU receiver.
struct WireLink {
    slave: u8,
    sent: Vec<Vec<u8>>,
    answer: Option<Vec<u8>>,
    echo: bool,
}

impl WireLink {
    fn new(slave: u8) -> Self {
        WireLink { slave, sent: Vec::new(), answer: None, echo: false }
    }
}

impl Transport for WireLink {
    fn send(&mut self, pdu: &Pdu) -> Result<(), ModbusTransportError> {
        let mut adu = Adu::new();
        RtuFrameHandler::new().build_frame(&mut adu, self.slave, pdu).unwrap();
        self.sent.push(adu.as_slice().to_vec());
        if self.echo {
            self.answer = Some(adu.as_slice().to_vec());
        }
        Ok(())
    }

    fn recv(&mut self) -> Result<Pdu, ModbusTransportError> {
        let mut ctx = RtuContext::new(9600);
        ctx.set_slave_addr(self.slave)?;
        let mut rx = RtuReceiver::new(ctx);
        rx.begin();
        let wire = self.answer.take().ok_or(ModbusTransportError::Timeout)?;
        match rx.on_bytes(1_000, &wire) {
            RecvStep::Frame(pdu) => Ok(pdu),
            RecvStep::Failed(e) => Err(e),
            RecvStep::Pending => match rx.on_idle(1_000 + ctx.t3_5()) {
                RecvStep::Frame(pdu) => Ok(pdu),
                RecvStep::Failed(e) => Err(e),
                RecvStep::Pending => Err(ModbusTransportError::Timeout),
            },
        }
    }
}

fn with_crc(body: &[u8]) -> Vec<u8> {
    let crc = calc_crc(body);
    let mut v = body.to_vec();
    v.push(crc as u8);
    v.push((crc >> 8) as u8);
    v
}

#[test]
fn read_holding_registers_end_to_end() {
    let mut link = WireLink::new(0x11);
    link.answer = Some(with_crc(&[
        0x11, 0x03, 0x06, 0x02, 0x2B, 0x00, 0x00, 0x00, 0x64,
    ]));
    let mut client = Client::new(link);
    let reply = client.read_holding_registers(0x006B, 0x0003).unwrap();
    let rsp = match reply {
        Reply::Normal(r) => r,
        Reply::Exception(_) => panic!("unexpected exception"),
    };
    assert_eq!(rsp.register(0), Some(0x022B));
    assert_eq!(rsp.register(1), Some(0x0000));
    assert_eq!(rsp.register(2), Some(0x0064));
    assert_eq!(rsp.register(3), None);
}

#[test]
fn read_holding_registers_request_on_the_wire() {
    let mut link = WireLink::new(0x11);
    link.answer = Some(with_crc(&[0x11, 0x03, 0x02, 0x00, 0x01]));
    let mut client = Client::new(link);
    client.read_holding_registers(0x006B, 0x0003).unwrap();
    let mut expected = Adu::new();
    let pdu = Pdu::from_bytes(&[0x03, 0x00, 0x6B, 0x00, 0x03]).unwrap();
    RtuFrameHandler::new().build_frame(&mut expected, 0x11, &pdu).unwrap();
    assert_eq!(
        expected.as_slice(),
        &[0x11, 0x03, 0x00, 0x6B, 0x00, 0x03, 0x76, 0x87]
    );
}

#[test]
fn write_single_register_echo() {
    let mut link = WireLink::new(0x11);
    link.echo = true;
    let mut client = Client::new(link);
    match client.write_single_register(0x0001, 0x0003).unwrap() {
        Reply::Normal(r) => {
            assert_eq!(r.register_address(), Some(0x0001));
            assert_eq!(r.register_value(), Some(0x0003));
        }
        Reply::Exception(_) => panic!("unexpected exception"),
    }
}

#[test]
fn write_single_coil_echo() {
    let mut link = WireLink::new(0x11);
    link.echo = true;
    let mut client = Client::new(link);
    match client.write_single_coil(0x00AC, true).unwrap() {
        Reply::Normal(r) => {
            assert_eq!(r.output_address(), Some(0x00AC));
            assert_eq!(r.output_value(), Some(true));
        }
        Reply::Exception(_) => panic!("unexpected exception"),
    }
}

#[test]
fn read_coils_exception_reply() {
    let mut link = WireLink::new(0x11);
    link.answer = Some(with_crc(&[0x11, 0x81, 0x02]));
    let mut client = Client::new(link);
    match client.read_coils(0x0013, 0x0013).unwrap() {
        Reply::Exception(e) => {
            assert_eq!(
                e.function_code(),
                FunctionCode::Public(PublicFunctionCode::ReadCoils)
            );
            assert_eq!(e.exception_code(), Ok(ExceptionCode::IllegalDataAddress));
        }
        Reply::Normal(_) => panic!("expected an exception"),
    }
}

#[test]
fn client_rejects_before_sending() {
    let link = WireLink::new(0x11);
    let mut client = Client::new(link);
    assert_eq!(
        client.read_coils(0, 0).err(),
        Some(ModbusError::ApplicationError(ModbusApplicationError::OutOfRange))
    );
    assert_eq!(
        client.read_input_registers(0, 126).err(),
        Some(ModbusError::ApplicationError(ModbusApplicationError::OutOfRange))
    );
    assert_eq!(
        client.user_defined(0x41, &[0u8; 253]).err(),
        Some(ModbusError::ApplicationError(ModbusApplicationError::BufferError(
            BufferError::NoSpaceLeft
        )))
    );
    assert!(client.into_transport().sent.is_empty());
}

#[test]
fn user_defined_reports_received_code() {
    let mut link = WireLink::new(0x11);
    link.answer = Some(with_crc(&[0x11, 0x83, 0x02]));
    let mut client = Client::new(link);
    assert_eq!(
        client.user_defined(0x41, &[0x01]).err(),
        Some(ModbusError::ApplicationError(ModbusApplicationError::UnexpectedCode(0x41, 0x83)))
    );
    assert_eq!(client.into_transport().sent.len(), 1);
}

#[test]
fn client_reports_wrong_function_and_transport_errors() {
    let mut link = WireLink::new(0x11);
    link.answer = Some(with_crc(&[0x11, 0x04, 0x02, 0x00, 0x01]));
    let mut client = Client::new(link);
    assert_eq!(
        client.read_discrete_inputs(0, 8).err(),
        Some(ModbusError::ApplicationError(ModbusApplicationError::UnexpectedCode(0x02, 0x04)))
    );
    assert_eq!(
        client.read_discrete_inputs(0, 8).err(),
        Some(ModbusError::TransportError(ModbusTransportError::Timeout))
    );
}

#[test]
fn user_defined_round_trip() {
    let mut link = WireLink::new(0x11);
    link.echo = true;
    let mut client = Client::new(link);
    match client.user_defined(0x41, &[0x01, 0x02]).unwrap() {
        Reply::Normal(r) => {
            assert_eq!(r.function_code(), 0x41);
            assert_eq!(r.data(), &[0x01, 0x02]);
        }
        Reply::Exception(_) => panic!("unexpected exception"),
    }
}
