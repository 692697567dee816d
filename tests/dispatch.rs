use modbus_core::frame::pdu::Pdu;
use modbus_core::model::{RequestPdu, ResponsePdu};

#[test]
fn test_model_data_req_pdu() {
    let mut pdu = Pdu::new(0x01).unwrap();
    pdu.put_u16(123).unwrap();
    pdu.put_u16(456).unwrap();
    let req_pdu = RequestPdu::from_pdu(pdu.clone());

    match req_pdu {
        RequestPdu::ReadCoils(req) => {
            assert_eq!(req.into_inner().as_slice(), pdu.as_slice());
        }
        _ => panic!("unexpected request"),
    }
    match RequestPdu::from_pdu(pdu) {
        RequestPdu::ReadCoils(req) => {
            assert_eq!(req.starting_address(), Some(123));
            assert_eq!(req.quantity_of_coils(), Some(456));
        }
        _ => panic!("unexpected request"),
    }
}

#[test]
fn test_model_data_rsp_pdu() {
    let mut pdu = Pdu::new(0x01).unwrap();
    pdu.put_u8(1).unwrap();
    pdu.put_u8(1).unwrap();
    let rsp_pdu = ResponsePdu::from_pdu(pdu);

    match rsp_pdu {
        ResponsePdu::ReadCoils(rsp) => {
            assert_eq!(rsp.byte_count(), Some(1));
            let mut bits = rsp.coil_status().unwrap();
            assert_eq!(bits.next(), Some(true));
            for _ in 0..7 {
                assert_eq!(bits.next(), Some(false));
            }
            assert_eq!(bits.next(), None);
        }
        _ => panic!("unexpected response"),
    }
}

#[test]
fn dispatch_by_code() {
    let write = Pdu::from_bytes(&[0x06, 0x00, 0x01, 0x00, 0x03]).unwrap();
    assert!(matches!(RequestPdu::from_pdu(write), RequestPdu::WriteSingleRegister(_)));
    let other = Pdu::from_bytes(&[0x07]).unwrap();
    assert!(matches!(RequestPdu::from_pdu(other), RequestPdu::UserDefined(_)));
    let exc = Pdu::from_bytes(&[0x84, 0x02]).unwrap();
    assert!(matches!(ResponsePdu::from_pdu(exc), ResponsePdu::Exception(_)));
    let regs = Pdu::from_bytes(&[0x04, 0x02, 0x00, 0x07]).unwrap();
    match ResponsePdu::from_pdu(regs) {
        ResponsePdu::ReadInputRegisters(r) => assert_eq!(r.register(0), Some(7)),
        _ => panic!("unexpected response"),
    }
}
