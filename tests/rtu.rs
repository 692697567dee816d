use modbus_core::error::{ModbusFrameError, ModbusRtuError};
use modbus_core::frame::pdu::Pdu;
use modbus_core::frame::rtu::{
    calc_crc, check_frame_address, check_frame_crc, check_frame_length, Adu, CrcTable,
    RtuFrameHandler,
};

#[test]
fn test_frame_rtu_calc_crc_with_standard_data() {
    let data = b"123456789";
    let expected_crc = 0x4B37;
    assert_eq!(calc_crc(data), expected_crc);
}

#[test]
fn test_frame_rtu_calc_crc_with_empty_data() {
    let data: [u8; 0] = [];
    let expected_crc = 0xFFFF;
    assert_eq!(calc_crc(&data), expected_crc);
}

#[test]
fn test_frame_rtu_calc_crc_with_single_byte() {
    let data = [0x01];
    let expected_crc = 0x807E;
    assert_eq!(calc_crc(&data), expected_crc);
}

#[test]
fn test_frame_rtu_calc_crc_with_multiple_bytes() {
    let data = [0x01, 0x02, 0x03, 0x04];
    let expected_crc = 0x2BA1;
    assert_eq!(calc_crc(&data), expected_crc);
}

#[test]
fn test_frame_rtu_calc_crc_with_edge_values() {
    let data = [0xFF, 0x00, 0xFF, 0x00];
    let expected_crc = 0xC071;
    assert_eq!(calc_crc(&data), expected_crc);
}

fn with_crc(body: &[u8]) -> Vec<u8> {
    let crc = calc_crc(body);
    let mut v = body.to_vec();
    v.push(crc as u8);
    v.push((crc >> 8) as u8);
    v
}

#[test]
fn build_frame_read_holding_registers() {
    let mut pdu = Pdu::new(0x03).unwrap();
    pdu.put_u16(0x006B).unwrap();
    pdu.put_u16(0x0003).unwrap();
    let mut adu = Adu::new();
    let n = RtuFrameHandler::new().build_frame(&mut adu, 0x11, &pdu).unwrap();
    assert_eq!(n, 8);
    assert_eq!(
        adu.as_slice(),
        &[0x11, 0x03, 0x00, 0x6B, 0x00, 0x03, 0x76, 0x87]
    );
}

#[test]
fn parse_frame_address_filter() {
    let frame = with_crc(&[0x11, 0x03, 0x02, 0x00, 0x01]);
    let pdu = RtuFrameHandler::new().parse_frame(&frame, 0).unwrap();
    assert_eq!(pdu.as_slice(), &[0x03, 0x02, 0x00, 0x01]);
    assert!(RtuFrameHandler::new().parse_frame(&frame, 0x11).is_ok());
    assert_eq!(
        RtuFrameHandler::new().parse_frame(&frame, 0x12).err(),
        Some(ModbusFrameError::RtuError(ModbusRtuError::InvalidSlaveAddress(0x11)))
    );
}

#[test]
fn parse_frame_rejects_bad_length_and_crc() {
    assert_eq!(
        RtuFrameHandler::new().parse_frame(&[0x11, 0x03, 0x00], 0).err(),
        Some(ModbusFrameError::RtuError(ModbusRtuError::InvalidFrameLength))
    );
    let long = vec![0u8; 257];
    assert_eq!(
        RtuFrameHandler::new().parse_frame(&long, 0).err(),
        Some(ModbusFrameError::RtuError(ModbusRtuError::InvalidFrameLength))
    );
    let mut frame = with_crc(&[0x11, 0x06, 0x00, 0x01, 0x00, 0x03]);
    let last = frame.len() - 1;
    frame[last] ^= 0x01;
    assert_eq!(
        RtuFrameHandler::new().parse_frame(&frame, 0x11).err(),
        Some(ModbusFrameError::RtuError(ModbusRtuError::CrcValidationFailure))
    );
}

#[test]
fn frame_round_trip_full_pdu() {
    let mut pdu = Pdu::new(0x41).unwrap();
    pdu.put_slice(&[0xA5; 252]).unwrap();
    let mut adu = Adu::new();
    assert_eq!(RtuFrameHandler::new().build_frame(&mut adu, 0x07, &pdu), Ok(256));
    let back = RtuFrameHandler::new().parse_frame(adu.as_slice(), 0x07).unwrap();
    assert_eq!(back.as_slice(), pdu.as_slice());
}

#[test]
fn address_filter_broadcast_and_unicast() {
    for addr in [0x00u8, 0x01, 0x11, 0xF7, 0xFF] {
        assert_eq!(check_frame_address(&[addr, 0x03], 0), Ok(()));
    }
    assert_eq!(check_frame_address(&[0x11, 0x03], 0x11), Ok(()));
    assert_eq!(
        check_frame_address(&[0x12, 0x03], 0x11),
        Err(ModbusRtuError::InvalidSlaveAddress(0x12))
    );
}

#[test]
fn frame_checks_and_shared_table() {
    let table = CrcTable::new();
    assert_eq!(table.checksum(b"123456789"), 0x4B37);
    assert_eq!(table.checksum(&[0x01]), 0x807E);
    let frame = with_crc(&[0x11, 0x06, 0x00, 0x01, 0x00, 0x03]);
    assert_eq!(check_frame_crc(&table, &frame), Ok(()));
    assert_eq!(check_frame_length(&frame), Ok(()));
    assert_eq!(
        check_frame_length(&[0x11, 0x06, 0x00]),
        Err(ModbusRtuError::InvalidFrameLength)
    );
    let mut bad = frame.clone();
    bad[2] ^= 0x80;
    assert_eq!(
        check_frame_crc(&table, &bad),
        Err(ModbusRtuError::CrcValidationFailure)
    );
}
