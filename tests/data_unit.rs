use modbus_core::error::BufferError;
use modbus_core::frame::DataUnit;

#[test]
fn test_frame_data_unit_new() {
    let pdu = DataUnit::<10>::new();
    assert_eq!(pdu.len(), 0);
}

#[test]
fn test_frame_data_unit_put_u8() {
    let mut pdu = DataUnit::<10>::new();
    pdu.put_u8(0x01).unwrap();
    pdu.put_u8(0x02).unwrap();
    pdu.put_u8(0x03).unwrap();
    assert_eq!(pdu.len(), 3);
}

#[test]
fn test_frame_data_unit_put_u16() {
    let mut pdu = DataUnit::<10>::new();
    pdu.put_u16(0x0102).unwrap();
    pdu.put_u16(0x0304).unwrap();
    assert_eq!(pdu.len(), 4);
}

#[test]
fn test_frame_data_unit_put_u16_le() {
    let mut pdu = DataUnit::<10>::new();
    pdu.put_u16_le(0x0102).unwrap();
    pdu.put_u16_le(0x0304).unwrap();
    assert_eq!(pdu.len(), 4);
}

#[test]
fn test_frame_data_unit_data_extend_from_slice() {
    let mut pdu = DataUnit::<10>::new();
    let buf = &[0x01, 0x02, 0x03];
    assert!(pdu.put_slice(buf).is_ok());
    assert_eq!(pdu.len(), 3);
}

#[test]
fn test_frame_data_unit_data_extend_from_slice_buffer_overflow() {
    let mut pdu = DataUnit::<10>::new();
    pdu.put_u8(0x01).unwrap();
    let buf = [0; 10];

    assert!(pdu.put_slice(&buf).is_err());
}

#[test]
fn test_frame_data_unit_get_u8() {
    let mut pdu = DataUnit::<10>::new();
    pdu.put_u8(0x01).unwrap();
    pdu.put_u8(0x02).unwrap();
    pdu.put_u8(0x03).unwrap();
    assert_eq!(pdu.get_u8(0), Some(0x01));
    assert_eq!(pdu.get_u8(1), Some(0x02));
    assert_eq!(pdu.get_u8(2), Some(0x03));
}

#[test]
fn test_frame_data_unit_get_u16() {
    let mut pdu = DataUnit::<10>::new();
    pdu.put_u16(0x0102).unwrap();
    pdu.put_u16(0x0304).unwrap();
    assert_eq!(pdu.get_u16(0), Some(0x0102));
    assert_eq!(pdu.get_u16(2), Some(0x0304));
}

#[test]
fn test_frame_data_unit_get_u16_le() {
    let mut pdu = DataUnit::<10>::new();
    pdu.put_u16_le(0x0102).unwrap();
    pdu.put_u16_le(0x0304).unwrap();
    assert_eq!(pdu.get_u16_le(0), Some(0x0102));
    assert_eq!(pdu.get_u16_le(2), Some(0x0304));
}

#[test]
fn test_frame_data_unit_as_slice() {
    let mut pdu = DataUnit::<10>::new();
    pdu.put_u8(0x01).unwrap();
    pdu.put_u8(0x02).unwrap();
    pdu.put_u8(0x03).unwrap();
    assert_eq!(pdu.as_slice(), &[0x01, 0x02, 0x03]);
}

#[test]
fn test_frame_data_unit_clear() {
    let mut pdu = DataUnit::<10>::new();
    pdu.put_u8(0x01).unwrap();
    pdu.put_u8(0x02).unwrap();
    pdu.put_u8(0x03).unwrap();
    pdu.clear();
    assert_eq!(pdu.len(), 0);
}

#[test]
fn data_unit_byte_order() {
    let mut unit = DataUnit::<4>::new();
    unit.put_u16(0xABCD).unwrap();
    unit.put_u16_le(0xABCD).unwrap();
    assert_eq!(unit.as_slice(), &[0xAB, 0xCD, 0xCD, 0xAB]);
}

#[test]
fn data_unit_errors_leave_contents() {
    let mut unit = DataUnit::<3>::new();
    unit.put_u16(0x0102).unwrap();
    assert_eq!(unit.put_u16(0x0304), Err(BufferError::NoSpaceLeft));
    assert_eq!(unit.put_slice(&[1, 2]), Err(BufferError::NoSpaceLeft));
    assert_eq!(unit.put_slice(&[1, 2, 3, 4]), Err(BufferError::BufferOverflow));
    assert_eq!(unit.as_slice(), &[0x01, 0x02]);
    unit.put_u8(0x03).unwrap();
    assert_eq!(unit.put_u8(0x04), Err(BufferError::NoSpaceLeft));
    assert!(!unit.is_empty());
}

#[test]
fn data_unit_reads_past_end_are_absent() {
    let mut unit = DataUnit::<8>::new();
    unit.put_slice(&[0x01, 0x02, 0x03]).unwrap();
    assert_eq!(unit.get_u8(3), None);
    assert_eq!(unit.get_u16(2), None);
    assert_eq!(unit.get_u16_le(1), Some(0x0302));
    assert_eq!(unit.get_u16(usize::MAX), None);
}

#[test]
fn data_unit_advance_stops_at_capacity() {
    let mut unit = DataUnit::<4>::new();
    unit.put_u8(0x01).unwrap();
    unit.advance(2);
    assert_eq!(unit.len(), 3);
    unit.advance(10);
    assert_eq!(unit.len(), 4);
    assert_eq!(unit.get_u8(0), Some(0x01));
}

#[test]
fn data_unit_default_is_empty() {
    let unit: DataUnit<5> = Default::default();
    assert!(unit.is_empty());
    assert_eq!(unit.as_slice(), &[] as &[u8]);
}
