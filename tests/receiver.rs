use modbus_core::error::ModbusTransportError;
use modbus_core::frame::pdu::Pdu;
use modbus_core::frame::rtu::{Adu, RtuFrameHandler};
use modbus_core::transport::{stop_bits, Parity, RecvStep, RtuContext, RtuReceiver, RxEvent};

fn frame(slave: u8, pdu: &[u8]) -> Vec<u8> {
    let mut adu = Adu::new();
    RtuFrameHandler::new().build_frame(&mut adu, slave, &Pdu::from_bytes(pdu).unwrap()).unwrap();
    adu.as_slice().to_vec()
}

fn receiver(slave: u8, baud: u32) -> RtuReceiver {
    let mut ctx = RtuContext::new(baud);
    ctx.set_slave_addr(slave).unwrap();
    let mut rx = RtuReceiver::new(ctx);
    rx.begin();
    rx
}

#[test]
fn timing_from_baud_rate() {
    let slow = RtuContext::new(9600);
    assert_eq!(slow.t1_5(), 1_718_750);
    assert_eq!(slow.t3_5(), 4_010_416);
    let edge = RtuContext::new(19200);
    assert_eq!(edge.t1_5(), 859_375);
    assert_eq!(edge.t3_5(), 2_005_208);
    let fast = RtuContext::new(115_200);
    assert_eq!(fast.t1_5(), 750_000);
    assert_eq!(fast.t3_5(), 1_750_000);
}

#[test]
fn reserved_slave_address_is_rejected() {
    let mut ctx = RtuContext::new(9600);
    assert_eq!(ctx.set_slave_addr(247), Ok(()));
    assert_eq!(
        ctx.set_slave_addr(248),
        Err(ModbusTransportError::InvalidSlaveAddress(248))
    );
    assert_eq!(ctx.slave_addr(), 247);
    assert_eq!(ctx.set_slave_addr(0), Ok(()));
}

#[test]
fn silence_over_t1_5_aborts_frame() {
    let mut rx = receiver(0x11, 9600);
    let bytes = frame(0x11, &[0x03, 0x02, 0x00, 0x01]);
    let gap = 2_000_000u64; // between t1_5 and t3_5 at 9600 baud
    assert!(matches!(rx.on_bytes(0, &bytes[..1]), RecvStep::Pending));
    match rx.on_bytes(gap, &bytes[1..2]) {
        RecvStep::Failed(e) => assert_eq!(e, ModbusTransportError::FrameIncomplete),
        _ => panic!("expected FrameIncomplete"),
    }
}

#[test]
fn adjacent_frames_are_delivered_in_turn() {
    let mut rx = receiver(0x11, 9600);
    let t3_5 = rx.context().t3_5();
    let first = frame(0x11, &[0x03, 0x02, 0x00, 0x01]);
    let second = frame(0x11, &[0x03, 0x02, 0x00, 0x02]);
    match rx.on_bytes(0, &first) {
        RecvStep::Frame(p) => assert_eq!(p.as_slice(), &[0x03, 0x02, 0x00, 0x01]),
        _ => panic!("expected the first frame"),
    }
    rx.begin();
    match rx.on_bytes(t3_5 / 2, &second) {
        RecvStep::Frame(p) => assert_eq!(p.as_slice(), &[0x03, 0x02, 0x00, 0x02]),
        _ => panic!("expected the second frame"),
    }
}

#[test]
fn frame_in_chunks_completes_when_valid() {
    let mut rx = receiver(0x11, 9600);
    let bytes = frame(0x11, &[0x03, 0x04, 0x00, 0x01, 0x00, 0x02]);
    assert!(matches!(rx.on_bytes(0, &bytes[..3]), RecvStep::Pending));
    assert_eq!(rx.deadline(), Some(4_010_416));
    match rx.on_bytes(1_000_000, &bytes[3..]) {
        RecvStep::Frame(p) => assert_eq!(p.as_slice(), &bytes[1..bytes.len() - 2]),
        _ => panic!("expected a frame"),
    }
    assert_eq!(rx.deadline(), None);
}

#[test]
fn idle_timer_times_out_on_garbage() {
    let mut rx = receiver(0x11, 9600);
    assert!(matches!(rx.on_bytes(0, &[0x11, 0x03, 0x00, 0x00, 0x00]), RecvStep::Pending));
    assert!(matches!(rx.on_idle(1_000_000), RecvStep::Pending));
    match rx.on_idle(4_010_416) {
        RecvStep::Failed(e) => assert_eq!(e, ModbusTransportError::Timeout),
        _ => panic!("expected Timeout"),
    }
    assert!(matches!(rx.on_idle(9_000_000), RecvStep::Pending));
}

#[test]
fn frames_for_other_devices_are_dropped() {
    let mut rx = receiver(0x11, 9600);
    let other = frame(0x12, &[0x03, 0x02, 0x00, 0x01]);
    assert!(matches!(rx.on_bytes(0, &other), RecvStep::Pending));
    assert_eq!(rx.deadline(), None);
    let mine = frame(0x11, &[0x03, 0x02, 0x00, 0x05]);
    assert!(matches!(rx.on_bytes(100, &mine), RecvStep::Frame(_)));
}

#[test]
fn broadcast_listener_accepts_any_address() {
    let mut rx = receiver(0, 115_200);
    let bytes = frame(0x42, &[0x06, 0x00, 0x01, 0x00, 0x03]);
    assert!(matches!(rx.on_bytes(0, &bytes), RecvStep::Frame(_)));
}

#[test]
fn stop_bits_keep_eleven_bit_characters() {
    assert_eq!(stop_bits(Parity::NoParity), 2);
    assert_eq!(stop_bits(Parity::Even), 1);
    assert_eq!(stop_bits(Parity::Odd), 1);
}

#[test]
fn recv_gap_over_t1_5_is_frame_incomplete() {
    let mut rx = receiver(0x11, 9600);
    let bytes = frame(0x11, &[0x03, 0x02, 0x00, 0x01]);
    let events = vec![
        RxEvent::Bytes(0, bytes[..2].to_vec()),
        RxEvent::Bytes(2_000_000, bytes[2..].to_vec()),
    ];
    assert_eq!(
        rx.recv(&events).map(|r| r.err()),
        Some(Some(ModbusTransportError::FrameIncomplete))
    );
}

#[test]
fn recv_assembles_chunks_and_times_out() {
    let mut rx = receiver(0x11, 9600);
    let bytes = frame(0x11, &[0x03, 0x02, 0x00, 0x01]);
    let events = vec![
        RxEvent::Bytes(0, bytes[..3].to_vec()),
        RxEvent::Idle(1_000_000),
        RxEvent::Bytes(1_500_000, bytes[3..].to_vec()),
    ];
    match rx.recv(&events) {
        Some(Ok(p)) => assert_eq!(p.as_slice(), &[0x03, 0x02, 0x00, 0x01]),
        _ => panic!("expected a frame"),
    }
    let garbage = vec![
        RxEvent::Bytes(10_000_000, vec![0x11, 0x03, 0x00, 0x00, 0x00]),
        RxEvent::Idle(14_010_416),
    ];
    assert_eq!(
        rx.recv(&garbage).map(|r| r.err()),
        Some(Some(ModbusTransportError::Timeout))
    );
    let partial = vec![RxEvent::Bytes(20_000_000, vec![0x11, 0x03])];
    assert!(rx.recv(&partial).is_none());
}
