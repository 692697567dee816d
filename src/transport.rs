use vstd::prelude::*;

use crate::error::ModbusTransportError;
use crate::frame::pdu::Pdu;
use crate::frame::rtu::{
    frame_address_ok, frame_length_ok, frame_pdu, frame_valid, Adu, RtuFrameHandler, MAX_ADU_SIZE,
};

verus! {

/// The highest unicast slave address; 248..=255 are reserved.
pub const MAX_SLAVE_ADDRESS: u8 = 247;

/// Above this baud rate the inter-character and inter-frame silences are fixed.
pub const FIXED_TIMING_BAUD: u32 = 19200;

/// 1.5 character times of 11 bits, in nanoseconds.
pub open spec fn t1_5_for(baud_rate: u32) -> u64 {
    if baud_rate <= FIXED_TIMING_BAUD {
        (16_500_000_000u64 / baud_rate as u64) as u64
    } else {
        750_000u64
    }
}

/// 3.5 character times of 11 bits, in nanoseconds.
pub open spec fn t3_5_for(baud_rate: u32) -> u64 {
    if baud_rate <= FIXED_TIMING_BAUD {
        (38_500_000_000u64 / baud_rate as u64) as u64
    } else {
        1_750_000u64
    }
}

/// The settings and timing state of an RTU link. Times are nanoseconds on
/// a monotonic clock of the caller's choosing.
#[derive(Debug, Clone, Copy)]
pub struct RtuContext {
    slave_addr: u8,
    latest_time: Option<u64>,
    t1_5: u64,
    t3_5: u64,
}

impl RtuContext {
    pub closed spec fn spec_slave_addr(&self) -> u8 {
        self.slave_addr
    }

    /// When the last byte arrived, if any has.
    pub closed spec fn spec_latest_time(&self) -> Option<u64> {
        self.latest_time
    }

    pub closed spec fn spec_t1_5(&self) -> u64 {
        self.t1_5
    }

    pub closed spec fn spec_t3_5(&self) -> u64 {
        self.t3_5
    }

    /// A context for `baud_rate`, listening to every address, with no byte
    /// received yet.
    pub fn new(baud_rate: u32) -> (r: Self)
        requires
            baud_rate > 0,
        ensures
            r.spec_slave_addr() == 0,
            r.spec_latest_time() is None,
            r.spec_t1_5() == t1_5_for(baud_rate),
            r.spec_t3_5() == t3_5_for(baud_rate),
    {
        let mut ctx = RtuContext { slave_addr: 0, latest_time: None, t1_5: 0, t3_5: 0 };
        ctx.set_interval(baud_rate);
        ctx
    }

    /// Derives t1_5 and t3_5 from the baud rate: 1.5 and 3.5 times an
    /// 11-bit character up to 19200 baud, 750 µs and 1750 µs above.
    pub fn set_interval(&mut self, baud_rate: u32)
        requires
            baud_rate > 0,
        ensures
            final(self).spec_t1_5() == t1_5_for(baud_rate),
            final(self).spec_t3_5() == t3_5_for(baud_rate),
            final(self).spec_slave_addr() == old(self).spec_slave_addr(),
            final(self).spec_latest_time() == old(self).spec_latest_time(),
    {
        if baud_rate <= FIXED_TIMING_BAUD {
            self.t1_5 = 16_500_000_000u64 / baud_rate as u64;
            self.t3_5 = 38_500_000_000u64 / baud_rate as u64;
        } else {
            self.t1_5 = 750_000;
            self.t3_5 = 1_750_000;
        }
    }

    pub fn t1_5(&self) -> (r: u64)
        ensures
            r == self.spec_t1_5(),
    {
        self.t1_5
    }

    pub fn t3_5(&self) -> (r: u64)
        ensures
            r == self.spec_t3_5(),
    {
        self.t3_5
    }

    pub fn slave_addr(&self) -> (r: u8)
        ensures
            r == self.spec_slave_addr(),
    {
        self.slave_addr
    }

    /// Sets the device to talk to: 0 listens to every address, 1..=247 is
    /// one device; a reserved address fails with `InvalidSlaveAddress` and
    /// changes nothing.
    pub fn set_slave_addr(&mut self, slave_addr: u8) -> (r: Result<(), ModbusTransportError>)
        ensures
            r is Ok <==> slave_addr <= MAX_SLAVE_ADDRESS,
            r is Ok ==> final(self).spec_slave_addr() == slave_addr,
            r is Err ==> r == Err::<(), ModbusTransportError>(ModbusTransportError::InvalidSlaveAddress(slave_addr))
                && final(self).spec_slave_addr() == old(self).spec_slave_addr(),
            final(self).spec_latest_time() == old(self).spec_latest_time(),
            final(self).spec_t1_5() == old(self).spec_t1_5(),
            final(self).spec_t3_5() == old(self).spec_t3_5(),
    {
        if slave_addr > MAX_SLAVE_ADDRESS {
            return Err(ModbusTransportError::InvalidSlaveAddress(slave_addr));
        }
        self.slave_addr = slave_addr;
        Ok(())
    }
}

/// The parity of a serial line; data bits are always 8.
#[derive(Debug, Clone, Copy, PartialEq, Eq, Structural)]
pub enum Parity {
    NoParity,
    Odd,
    Even,
}

/// The stop bits that keep a character at 11 bits: two without parity,
/// one with it.
pub open spec fn spec_stop_bits(parity: Parity) -> u8 {
    match parity {
        Parity::NoParity => 2,
        Parity::Odd | Parity::Even => 1,
    }
}

/// The number of stop bits to configure for `parity`, so that start bit,
/// 8 data bits, parity and stop bits make 11 bits.
pub fn stop_bits(parity: Parity) -> (r: u8)
    ensures
        r == spec_stop_bits(parity),
        1 + 8 + (if parity == Parity::NoParity { 0int } else { 1int }) + r == 11,
{
    match parity {
        Parity::NoParity => 2,
        Parity::Odd | Parity::Even => 1,
    }
}

/// What the receiver asks of the one driving it after an event.
#[derive(Debug)]
pub enum RecvStep {
    /// Keep waiting for bytes or for the inactivity deadline.
    Pending,
    /// A complete frame arrived; here is its PDU.
    Frame(Pdu),
    /// Reception ended with this error.
    Failed(ModbusTransportError),
}

/// Whether bytes arriving at `now` come after a silence longer than t1_5
/// that ends a frame already begun.
pub open spec fn splits_frame(buffered: Seq<u8>, latest: Option<u64>, t1_5: u64, now: u64) -> bool {
    buffered.len() > 0 && (latest matches Some(t) && now as int - t as int > t1_5 as int)
}

/// Whether the line has been silent for t3_5 at `now`.
pub open spec fn idle_elapsed(latest: Option<u64>, t3_5: u64, now: u64) -> bool {
    match latest {
        Some(t) => now as int >= t as int + t3_5 as int,
        None => true,
    }
}

/// Something that happened on the line during a reception.
#[derive(Debug, Clone)]
pub enum RxEvent {
    /// These bytes arrived at this time.
    Bytes(u64, Vec<u8>),
    /// The inactivity timer fired at this time.
    Idle(u64),
}

/// What a reception comes to when the receiver, with slave address `addr`,
/// timings `t1_5` and `t3_5`, last byte at `latest` and `buffered` bytes,
/// is fed `events` in order: the PDU of the frame delivered, the error it
/// ended with, or `None` when the events run out first.
pub open spec fn replay(
    addr: u8,
    t1_5: u64,
    t3_5: u64,
    latest: Option<u64>,
    buffered: Seq<u8>,
    events: Seq<RxEvent>,
) -> Option<Result<Seq<u8>, ModbusTransportError>>
    decreases events.len(),
{
    if events.len() == 0 {
        None
    } else {
        let rest = events.subrange(1, events.len() as int);
        match events[0] {
            RxEvent::Bytes(now, bytes) => {
                let b = buffered + bytes@;
                if splits_frame(buffered, latest, t1_5, now) {
                    Some(Err(ModbusTransportError::FrameIncomplete))
                } else if b.len() > MAX_ADU_SIZE {
                    replay(addr, t1_5, t3_5, Some(now), Seq::empty(), rest)
                } else if frame_valid(b, addr) {
                    Some(Ok(frame_pdu(b)))
                } else if frame_length_ok(b) && !frame_address_ok(b, addr) {
                    replay(addr, t1_5, t3_5, Some(now), Seq::empty(), rest)
                } else {
                    replay(addr, t1_5, t3_5, Some(now), b, rest)
                }
            },
            RxEvent::Idle(now) => {
                if !(buffered.len() > 0 && idle_elapsed(latest, t3_5, now)) {
                    replay(addr, t1_5, t3_5, latest, buffered, rest)
                } else if frame_valid(buffered, addr) {
                    Some(Ok(frame_pdu(buffered)))
                } else {
                    Some(Err(ModbusTransportError::Timeout))
                }
            },
        }
    }
}

/// Bytes that arrive more than t1_5 after the last byte of a frame begun
/// (one that is neither complete nor dropped) end the reception with
/// `FrameIncomplete`.
pub proof fn lemma_gap_aborts_frame(
    addr: u8,
    t1_5: u64,
    t3_5: u64,
    t0: u64,
    first: Seq<u8>,
    t1: u64,
    events: Seq<RxEvent>,
)
    requires
        1 <= first.len() < 4,
        events.len() >= 2,
        events[0] matches RxEvent::Bytes(t, b) && t == t0 && b@ == first,
        events[1] matches RxEvent::Bytes(t, _) && t == t1,
        t1 as int - t0 as int > t1_5 as int,
    ensures
        replay(addr, t1_5, t3_5, None, Seq::empty(), events) == Some(
            Err::<Seq<u8>, ModbusTransportError>(ModbusTransportError::FrameIncomplete),
        ),
{
    let rest = events.subrange(1, events.len() as int);
    assert(Seq::<u8>::empty() + first =~= first);
    assert(rest[0] == events[1]);
    assert(replay(addr, t1_5, t3_5, Some(t0), first, rest) == Some(
        Err::<Seq<u8>, ModbusTransportError>(ModbusTransportError::FrameIncomplete),
    ));
}

/// The receiving side of a serial RTU link: it collects bytes into a
/// frame, aborts the frame on a silence longer than t1_5, and completes it
/// on a silence of t3_5 (or as soon as the bytes form a valid frame).
#[derive(Debug)]
pub struct RtuReceiver {
    ctx: RtuContext,
    buffer: Adu,
    frames: RtuFrameHandler,
}

impl RtuReceiver {
    pub closed spec fn wf(&self) -> bool {
        self.buffer.wf() && self.frames.wf()
    }

    pub closed spec fn spec_context(&self) -> RtuContext {
        self.ctx
    }

    /// The bytes of the frame being received.
    pub closed spec fn buffered(&self) -> Seq<u8> {
        self.buffer@
    }

    pub fn new(ctx: RtuContext) -> (r: Self)
        ensures
            r.wf(),
            r.spec_context() == ctx,
            r.buffered() == Seq::<u8>::empty(),
    {
        RtuReceiver { ctx, buffer: Adu::new(), frames: RtuFrameHandler::new() }
    }

    pub fn context(&self) -> (r: RtuContext)
        ensures
            r == self.spec_context(),
    {
        self.ctx
    }

    /// Changes the device to talk to, as `RtuContext::set_slave_addr` does.
    pub fn set_slave_addr(&mut self, slave_addr: u8) -> (r: Result<(), ModbusTransportError>)
        requires
            old(self).wf(),
        ensures
            final(self).wf(),
            final(self).buffered() == old(self).buffered(),
            r is Ok <==> slave_addr <= MAX_SLAVE_ADDRESS,
            r is Ok ==> final(self).spec_context().spec_slave_addr() == slave_addr,
            r is Err ==> final(self).spec_context() == old(self).spec_context(),
    {
        let mut ctx = self.ctx;
        let r = ctx.set_slave_addr(slave_addr);
        if r.is_ok() {
            self.ctx = ctx;
        }
        r
    }

    /// Starts a reception: a partial frame left by an earlier one is dropped.
    pub fn begin(&mut self)
        requires
            old(self).wf(),
        ensures
            final(self).wf(),
            final(self).spec_context() == old(self).spec_context(),
            final(self).buffered() == Seq::<u8>::empty(),
    {
        self.buffer.clear();
    }

    /// When the inactivity timer should fire: t3_5 after the last byte
    /// while a frame is being received, never while none is.
    pub fn deadline(&self) -> (r: Option<u64>)
        requires
            self.wf(),
        ensures
            self.buffered().len() == 0 ==> r is None,
            self.buffered().len() > 0 ==> r == match self.spec_context().spec_latest_time() {
                Some(t) => Some(
                    if t as int + self.spec_context().spec_t3_5() as int <= u64::MAX {
                        (t + self.spec_context().spec_t3_5()) as u64
                    } else {
                        u64::MAX
                    },
                ),
                None => Some(0u64),
            },
    {
        if self.buffer.is_empty() {
            return None;
        }
        match self.ctx.latest_time {
            Some(t) => Some(t.saturating_add(self.ctx.t3_5)),
            None => Some(0),
        }
    }

    /// Bytes arrived at `now`. After a silence longer than t1_5 inside a
    /// frame the frame is aborted with `FrameIncomplete`. Otherwise the
    /// bytes are appended; a valid frame is delivered at once, a complete
    /// frame for another device is dropped, and bytes past the largest
    /// frame are dropped with what came before them.
    pub fn on_bytes(&mut self, now: u64, bytes: &[u8]) -> (r: RecvStep)
        requires
            old(self).wf(),
        ensures
            final(self).wf(),
            final(self).spec_context().spec_latest_time() == Some(now),
            final(self).spec_context().spec_slave_addr() == old(self).spec_context().spec_slave_addr(),
            final(self).spec_context().spec_t1_5() == old(self).spec_context().spec_t1_5(),
            final(self).spec_context().spec_t3_5() == old(self).spec_context().spec_t3_5(),
            ({
                let ctx = old(self).spec_context();
                let split = splits_frame(old(self).buffered(), ctx.spec_latest_time(), ctx.spec_t1_5(), now);
                let b = old(self).buffered() + bytes@;
                let addr = ctx.spec_slave_addr();
                &&& split ==> r == RecvStep::Failed(ModbusTransportError::FrameIncomplete)
                    && final(self).buffered() == Seq::<u8>::empty()
                &&& !split && b.len() > MAX_ADU_SIZE ==> r is Pending
                    && final(self).buffered() == Seq::<u8>::empty()
                &&& !split && b.len() <= MAX_ADU_SIZE && frame_valid(b, addr) ==> (r matches RecvStep::Frame(p)
                    && p.wf() && p@ == frame_pdu(b)) && final(self).buffered() == Seq::<u8>::empty()
                &&& !split && b.len() <= MAX_ADU_SIZE && !frame_valid(b, addr) && frame_length_ok(b)
                    && !frame_address_ok(b, addr) ==> r is Pending && final(self).buffered() == Seq::<u8>::empty()
                &&& !split && b.len() <= MAX_ADU_SIZE && !frame_valid(b, addr) && !(frame_length_ok(b)
                    && !frame_address_ok(b, addr)) ==> r is Pending && final(self).buffered() == b
            }),
    {
        let split = match self.ctx.latest_time {
            Some(t) => !self.buffer.is_empty() && now > t && now - t > self.ctx.t1_5,
            None => false,
        };
        self.ctx.latest_time = Some(now);
        if split {
            self.buffer.clear();
            return RecvStep::Failed(ModbusTransportError::FrameIncomplete);
        }
        if self.buffer.put_slice(bytes).is_err() {
            self.buffer.clear();
            return RecvStep::Pending;
        }
        match self.frames.parse_frame(self.buffer.as_slice(), self.ctx.slave_addr) {
            Ok(pdu) => {
                self.buffer.clear();
                RecvStep::Frame(pdu)
            },
            Err(crate::error::ModbusFrameError::RtuError(
                crate::error::ModbusRtuError::InvalidSlaveAddress(_),
            )) => {
                self.buffer.clear();
                RecvStep::Pending
            },
            Err(_) => RecvStep::Pending,
        }
    }

    /// Runs one reception over recorded events: starts afresh, then feeds
    /// the events in order until a frame is delivered or the reception
    /// fails; `None` when the events run out first.
    pub fn recv(&mut self, events: &[RxEvent]) -> (r: Option<Result<Pdu, ModbusTransportError>>)
        requires
            old(self).wf(),
        ensures
            final(self).wf(),
            ({
                let ctx = old(self).spec_context();
                let outcome = replay(
                    ctx.spec_slave_addr(),
                    ctx.spec_t1_5(),
                    ctx.spec_t3_5(),
                    ctx.spec_latest_time(),
                    Seq::empty(),
                    events@,
                );
                &&& r is None <==> outcome is None
                &&& r matches Some(Ok(p)) ==> p.wf() && outcome == Some(Ok::<Seq<u8>, ModbusTransportError>(p@))
                &&& r matches Some(Err(e)) ==> outcome == Some(Err::<Seq<u8>, ModbusTransportError>(e))
            }),
    {
        let ghost ctx0 = self.ctx;
        self.begin();
        assert(events@.subrange(0, events@.len() as int) =~= events@);
        let mut i: usize = 0;
        while i < events.len()
            invariant
                self.wf(),
                i <= events@.len(),
                ctx0 == old(self).spec_context(),
                self.ctx.slave_addr == ctx0.slave_addr,
                self.ctx.t1_5 == ctx0.t1_5,
                self.ctx.t3_5 == ctx0.t3_5,
                replay(ctx0.slave_addr, ctx0.t1_5, ctx0.t3_5, ctx0.latest_time, Seq::empty(), events@)
                    == replay(
                    ctx0.slave_addr,
                    ctx0.t1_5,
                    ctx0.t3_5,
                    self.ctx.latest_time,
                    self.buffer@,
                    events@.subrange(i as int, events@.len() as int),
                ),
            decreases events@.len() - i,
        {
            let ghost tail = events@.subrange(i as int, events@.len() as int);
            let ghost latest = self.ctx.latest_time;
            let ghost buffered = self.buffer@;
            assert(tail[0] == events@[i as int]);
            assert(tail.subrange(1, tail.len() as int) =~= events@.subrange(i + 1, events@.len() as int));
            let ghost outcome = replay(ctx0.slave_addr, ctx0.t1_5, ctx0.t3_5, latest, buffered, tail);
            let step = match &events[i] {
                RxEvent::Bytes(now, bytes) => self.on_bytes(*now, bytes.as_slice()),
                RxEvent::Idle(now) => self.on_idle(*now),
            };
            match step {
                RecvStep::Pending => {},
                RecvStep::Frame(pdu) => {
                    assert(outcome == Some(Ok::<Seq<u8>, ModbusTransportError>(pdu@)));
                    return Some(Ok(pdu));
                },
                RecvStep::Failed(e) => {
                    assert(outcome == Some(Err::<Seq<u8>, ModbusTransportError>(e)));
                    return Some(Err(e));
                },
            }
            i = i + 1;
        }
        None
    }

    /// The inactivity timer fired at `now`. With no frame begun, or before
    /// t3_5 of silence, nothing happens. Otherwise the frame is complete:
    /// its PDU is delivered if it is valid, else reception ends with
    /// `Timeout`; either way the buffer is emptied.
    pub fn on_idle(&mut self, now: u64) -> (r: RecvStep)
        requires
            old(self).wf(),
        ensures
            final(self).wf(),
            final(self).spec_context() == old(self).spec_context(),
            ({
                let ctx = old(self).spec_context();
                let b = old(self).buffered();
                let due = b.len() > 0 && idle_elapsed(ctx.spec_latest_time(), ctx.spec_t3_5(), now);
                &&& !due ==> r is Pending && final(self).buffered() == b
                &&& due && frame_valid(b, ctx.spec_slave_addr()) ==> (r matches RecvStep::Frame(p) && p.wf()
                    && p@ == frame_pdu(b)) && final(self).buffered() == Seq::<u8>::empty()
                &&& due && !frame_valid(b, ctx.spec_slave_addr()) ==> r == RecvStep::Failed(
                    ModbusTransportError::Timeout,
                ) && final(self).buffered() == Seq::<u8>::empty()
            }),
    {
        if self.buffer.is_empty() {
            return RecvStep::Pending;
        }
        let due = match self.ctx.latest_time {
            Some(t) => now >= t && now - t >= self.ctx.t3_5,
            None => true,
        };
        if !due {
            return RecvStep::Pending;
        }
        let result = self.frames.parse_frame(self.buffer.as_slice(), self.ctx.slave_addr);
        self.buffer.clear();
        match result {
            Ok(pdu) => RecvStep::Frame(pdu),
            Err(_) => RecvStep::Failed(ModbusTransportError::Timeout),
        }
    }
}

} // verus!
