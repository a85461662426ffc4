//! Processing the request queue.
//!
//! A `QueueRun` decides; its user acts. Each action that the run asks for is one
//! access to the virtqueue, to guest memory or to a host clock, and what came of
//! the action is the event that the run goes on with.
//!
//! Each descriptor chain has a device-readable descriptor with the request and a
//! device-writable descriptor for the response. The request's header tells the
//! kind of request; a request with fields of its own is then read whole.
use super::error::Error;
use super::handlers;
use super::handlers::ReadStep;
use super::no_tsc;
use super::tsc;
use super::tsc::CrossStep;
use super::wire::{
    VirtioRtcReqClockCap, VirtioRtcReqCrossCap, VirtioRtcReqHead, VirtioRtcReqRead,
    VirtioRtcReqReadCross, REQ_HEAD_LEN, REQ_LEN, VIRTIO_RTC_REQ_CFG, VIRTIO_RTC_REQ_CLOCK_CAP,
    VIRTIO_RTC_REQ_CROSS_CAP, VIRTIO_RTC_REQ_READ, VIRTIO_RTC_REQ_READ_CROSS,
    VIRTIO_RTC_S_EOPNOTSUPP,
};
use crate::le;
use virtio_queue::Error as VirtqueueError;
use vm_memory::GuestMemoryError;
use vstd::prelude::*;

verus! {

/// A kind of request with fields of its own.
#[derive(Clone, Copy, Debug, PartialEq, Eq, Structural)]
pub enum RequestKind {
    ClockCap,
    CrossCap,
    Read,
    ReadCross,
}

/// What a run waits for.
#[derive(Clone, Copy, Debug, PartialEq, Eq, Structural)]
pub enum QueueState {
    /// The next descriptor chain.
    Chain,
    /// The request's descriptor.
    RequestDescriptor,
    /// The request's address in guest memory.
    RequestAddress,
    /// The response's descriptor.
    ResponseDescriptor { request: u64 },
    /// The response's address in guest memory.
    ResponseAddress { request: u64 },
    /// The request's header.
    Header { request: u64, response: u64 },
    /// The whole request.
    Request { kind: RequestKind, response: u64 },
    /// A clock reading.
    Clock { response: u64 },
    /// The counter before a clock reading.
    CounterBefore { response: u64, clock: i32 },
    /// A clock reading between two of the counter.
    CrossClock { response: u64, tsc1: u64 },
    /// The counter after a clock reading.
    CounterAfter { response: u64, tsc1: u64, ns: u64 },
    /// The response to be in guest memory.
    Write { len: u32 },
    /// The chain to be back with the driver.
    Return,
    /// Nothing: the run is over.
    Done,
}

/// What came of an action.
pub enum QueueEvent {
    /// No descriptor chain is available.
    NoChain,
    /// A descriptor chain was taken off the queue.
    Chain,
    /// The chain has no further descriptor.
    NoDescriptor,
    /// The chain's next descriptor.
    Descriptor { addr: u64, len: u32, write_only: bool },
    /// The translated address.
    Translated { addr: u64 },
    /// Bytes of guest memory.
    MemoryRead { bytes: Vec<u8> },
    /// Guest memory could not be read.
    ReadFailed { error: GuestMemoryError },
    /// What the clock said, in nanoseconds.
    ClockRead { reading: Result<u64, ()> },
    /// What the counter said.
    CounterRead { cycles: u64 },
    /// Guest memory was written.
    MemoryWritten,
    /// Guest memory could not be written.
    WriteFailed { error: GuestMemoryError },
    /// The chain was given back to the driver.
    UsedAdded,
    /// The chain could not be given back.
    AddUsedFailed { queue_error: VirtqueueError },
}

/// What is to be done next.
#[derive(Debug)]
pub enum QueueAction {
    /// Take the next descriptor chain off the queue.
    PopChain,
    /// Take the chain's next descriptor.
    NextDescriptor,
    /// Translate an address for an access of some length.
    Translate { addr: u64, len: u32 },
    /// Read so many bytes of guest memory.
    ReadMemory { addr: u64, size: usize },
    /// Read a POSIX clock.
    ReadClock { clock: i32 },
    /// Read the hardware counter.
    ReadCounter,
    /// Write bytes to guest memory.
    WriteMemory { addr: u64, bytes: Vec<u8> },
    /// Give the chain back to the driver, with so many bytes written.
    AddUsed { len: u32 },
    /// Stop. On success, the flag tells whether any chain was given back.
    Finish { result: Result<bool, Error> },
    /// Nothing: the event was not what the run waits for.
    Unexpected,
}

/// An action, with bytes as a sequence.
pub enum Action {
    PopChain,
    NextDescriptor,
    Translate { addr: u64, len: u32 },
    ReadMemory { addr: u64, size: usize },
    ReadClock { clock: i32 },
    ReadCounter,
    WriteMemory { addr: u64, bytes: Seq<u8> },
    AddUsed { len: u32 },
    Finish { result: Result<bool, Error> },
    Unexpected,
}

impl View for QueueAction {
    type V = Action;

    open spec fn view(&self) -> Action {
        match *self {
            QueueAction::PopChain => Action::PopChain,
            QueueAction::NextDescriptor => Action::NextDescriptor,
            QueueAction::Translate { addr, len } => Action::Translate { addr, len },
            QueueAction::ReadMemory { addr, size } => Action::ReadMemory { addr, size },
            QueueAction::ReadClock { clock } => Action::ReadClock { clock },
            QueueAction::ReadCounter => Action::ReadCounter,
            QueueAction::WriteMemory { addr, bytes } => Action::WriteMemory { addr, bytes: bytes@ },
            QueueAction::AddUsed { len } => Action::AddUsed { len },
            QueueAction::Finish { result } => Action::Finish { result },
            QueueAction::Unexpected => Action::Unexpected,
        }
    }
}

/// The message type in a request's bytes.
pub open spec fn msg_type(bytes: Seq<u8>) -> u16 {
    le::le_value(bytes.subrange(0, 2)) as u16
}

/// The clock in a request's bytes.
pub open spec fn clock_id(bytes: Seq<u8>) -> u16 {
    le::le_value(bytes.subrange(8, 10)) as u16
}

/// The hardware counter in a request's bytes.
pub open spec fn hw_counter(bytes: Seq<u8>) -> u8 {
    bytes[10]
}

/// The kind of request that a message type stands for, where the request has
/// fields of its own.
pub open spec fn kind_of(msg_type: u16) -> Option<RequestKind> {
    if msg_type == VIRTIO_RTC_REQ_CLOCK_CAP {
        Some(RequestKind::ClockCap)
    } else if msg_type == VIRTIO_RTC_REQ_CROSS_CAP {
        Some(RequestKind::CrossCap)
    } else if msg_type == VIRTIO_RTC_REQ_READ {
        Some(RequestKind::Read)
    } else if msg_type == VIRTIO_RTC_REQ_READ_CROSS {
        Some(RequestKind::ReadCross)
    } else {
        None
    }
}

/// The response to a request without fields of its own.
pub open spec fn header_response(msg_type: u16) -> Seq<u8> {
    if msg_type == VIRTIO_RTC_REQ_CFG {
        handlers::cfg_response().wire()
    } else {
        handlers::head_with(VIRTIO_RTC_S_EOPNOTSUPP).wire()
    }
}

/// One pass over the request queue.
pub struct QueueRun {
    pub state: QueueState,
    /// A chain has been given back to the driver.
    pub used_descs: bool,
    /// The host has an x86 TSC.
    pub tsc: bool,
}

impl QueueRun {
    /// The run, waiting for something else.
    pub open spec fn at(self, state: QueueState) -> QueueRun {
        QueueRun { state, ..self }
    }

    /// The run writes a response.
    pub open spec fn writes(self, addr: u64, bytes: Seq<u8>) -> (QueueRun, Action) {
        (
            self.at(QueueState::Write { len: bytes.len() as u32 }),
            Action::WriteMemory { addr, bytes },
        )
    }

    /// The run ends.
    pub open spec fn ends(self, result: Result<bool, Error>) -> (QueueRun, Action) {
        (self.at(QueueState::Done), Action::Finish { result })
    }

    /// The run goes on once the request's header is there.
    pub open spec fn with_header(self, request: u64, response: u64, bytes: Seq<u8>) -> (
        QueueRun,
        Action,
    ) {
        match kind_of(msg_type(bytes)) {
            Some(kind) => (
                self.at(QueueState::Request { kind, response }),
                Action::ReadMemory { addr: request, size: REQ_LEN },
            ),
            None => self.writes(response, header_response(msg_type(bytes))),
        }
    }

    /// The run goes on once the whole request is there.
    pub open spec fn with_request(self, kind: RequestKind, response: u64, bytes: Seq<u8>) -> (
        QueueRun,
        Action,
    ) {
        let clock = clock_id(bytes);
        let counter = hw_counter(bytes);
        match kind {
            RequestKind::ClockCap => self.writes(
                response,
                handlers::clock_cap_response(clock).wire(),
            ),
            RequestKind::CrossCap => self.writes(
                response,
                if self.tsc {
                    tsc::cross_cap_response(clock, counter).wire()
                } else {
                    no_tsc::cross_cap_response().wire()
                },
            ),
            RequestKind::Read => match handlers::read_step(clock) {
                ReadStep::Answer(resp) => self.writes(response, resp.wire()),
                ReadStep::Clock(id) => (
                    self.at(QueueState::Clock { response }),
                    Action::ReadClock { clock: id },
                ),
            },
            RequestKind::ReadCross => if self.tsc {
                match tsc::cross_step(clock, counter) {
                    CrossStep::Answer(resp) => self.writes(response, resp.wire()),
                    CrossStep::Clock(id) => (
                        self.at(QueueState::CounterBefore { response, clock: id }),
                        Action::ReadCounter,
                    ),
                }
            } else {
                self.writes(response, no_tsc::cross_response().wire())
            },
        }
    }

    /// What the run does on an event: the run after it, and the action that it
    /// asks for.
    pub open spec fn next(self, event: QueueEvent) -> (QueueRun, Action) {
        match (self.state, event) {
            (QueueState::Chain, QueueEvent::NoChain) => self.ends(Ok(self.used_descs)),
            (QueueState::Chain, QueueEvent::Chain) => (
                self.at(QueueState::RequestDescriptor),
                Action::NextDescriptor,
            ),
            (QueueState::RequestDescriptor, QueueEvent::NoDescriptor) => self.ends(
                Err(Error::DescriptorChainTooShort),
            ),
            (
                QueueState::RequestDescriptor,
                QueueEvent::Descriptor { addr, len, write_only },
            ) => if write_only {
                self.ends(Err(Error::InvalidDescriptor { expected: "readable request" }))
            } else {
                (self.at(QueueState::RequestAddress), Action::Translate { addr, len })
            },
            (QueueState::RequestAddress, QueueEvent::Translated { addr }) => (
                self.at(QueueState::ResponseDescriptor { request: addr }),
                Action::NextDescriptor,
            ),
            (QueueState::ResponseDescriptor { .. }, QueueEvent::NoDescriptor) => self.ends(
                Err(Error::DescriptorChainTooShort),
            ),
            (
                QueueState::ResponseDescriptor { request },
                QueueEvent::Descriptor { addr, len, write_only },
            ) => if write_only {
                (self.at(QueueState::ResponseAddress { request }), Action::Translate { addr, len })
            } else {
                self.ends(Err(Error::InvalidDescriptor { expected: "writable response" }))
            },
            (QueueState::ResponseAddress { request }, QueueEvent::Translated { addr }) => (
                self.at(QueueState::Header { request, response: addr }),
                Action::ReadMemory { addr: request, size: REQ_HEAD_LEN },
            ),
            (QueueState::Header { .. }, QueueEvent::ReadFailed { error })
            | (QueueState::Request { .. }, QueueEvent::ReadFailed { error }) => self.ends(
                Err(Error::GuestMemoryRead(error)),
            ),
            (
                QueueState::Header { request, response },
                QueueEvent::MemoryRead { bytes },
            ) => if bytes@.len() == REQ_HEAD_LEN {
                self.with_header(request, response, bytes@)
            } else {
                (self, Action::Unexpected)
            },
            (
                QueueState::Request { kind, response },
                QueueEvent::MemoryRead { bytes },
            ) => if bytes@.len() == REQ_LEN {
                self.with_request(kind, response, bytes@)
            } else {
                (self, Action::Unexpected)
            },
            (QueueState::Clock { response }, QueueEvent::ClockRead { reading }) => self.writes(
                response,
                handlers::reading_response(reading).wire(),
            ),
            (
                QueueState::CounterBefore { response, clock },
                QueueEvent::CounterRead { cycles },
            ) => (
                self.at(QueueState::CrossClock { response, tsc1: cycles }),
                Action::ReadClock { clock },
            ),
            (
                QueueState::CrossClock { response, tsc1 },
                QueueEvent::ClockRead { reading },
            ) => match reading {
                Ok(ns) => (
                    self.at(QueueState::CounterAfter { response, tsc1, ns }),
                    Action::ReadCounter,
                ),
                Err(_) => self.writes(response, tsc::cross_response(Err(())).wire()),
            },
            (
                QueueState::CounterAfter { response, tsc1, ns },
                QueueEvent::CounterRead { cycles },
            ) => self.writes(
                response,
                tsc::cross_response(Ok((ns, tsc::midpoint(tsc1, cycles)))).wire(),
            ),
            (QueueState::Write { .. }, QueueEvent::WriteFailed { error }) => self.ends(
                Err(Error::GuestMemoryWrite(error)),
            ),
            (QueueState::Write { len }, QueueEvent::MemoryWritten) => (
                self.at(QueueState::Return),
                Action::AddUsed { len },
            ),
            (QueueState::Return, QueueEvent::AddUsedFailed { queue_error }) => self.ends(
                Err(Error::QueueAddUsed(queue_error)),
            ),
            (QueueState::Return, QueueEvent::UsedAdded) => (
                QueueRun { state: QueueState::Chain, used_descs: true, tsc: self.tsc },
                Action::PopChain,
            ),
            _ => (self, Action::Unexpected),
        }
    }

    /// Starts a pass, on a host with or without an x86 TSC. The first action is to
    /// take a chain off the queue.
    pub fn new(tsc: bool) -> (run: Self)
        ensures
            run == (QueueRun { state: QueueState::Chain, used_descs: false, tsc }),
    {
        QueueRun { state: QueueState::Chain, used_descs: false, tsc }
    }

    /// Writes a response.
    fn write(&mut self, addr: u64, bytes: Vec<u8>) -> (action: QueueAction)
        requires
            bytes@.len() <= u32::MAX,
        ensures
            (*final(self), action@) == old(self).writes(addr, bytes@),
    {
        self.state = QueueState::Write { len: bytes.len() as u32 };
        QueueAction::WriteMemory { addr, bytes }
    }

    /// Ends the run with an error.
    fn fail(&mut self, error: Error) -> (action: QueueAction)
        ensures
            (*final(self), action@) == old(self).ends(Err(error)),
    {
        self.state = QueueState::Done;
        QueueAction::Finish { result: Err(error) }
    }

    /// Goes on once the request's header is there.
    fn header(&mut self, request: u64, response: u64, bytes: Vec<u8>) -> (action: QueueAction)
        requires
            bytes@.len() == REQ_HEAD_LEN,
        ensures
            (*final(self), action@) == old(self).with_header(request, response, bytes@),
    {
        let head = VirtioRtcReqHead::from_bytes(bytes.as_slice());
        proof {
            lemma_head_fields(head);
        }
        let kind = match head.msg_type {
            VIRTIO_RTC_REQ_CFG => {
                return self.write(response, handlers::handle_cfg().to_bytes());
            },
            VIRTIO_RTC_REQ_CLOCK_CAP => RequestKind::ClockCap,
            VIRTIO_RTC_REQ_CROSS_CAP => RequestKind::CrossCap,
            VIRTIO_RTC_REQ_READ => RequestKind::Read,
            VIRTIO_RTC_REQ_READ_CROSS => RequestKind::ReadCross,
            _ => {
                return self.write(
                    response,
                    handlers::resp_head(VIRTIO_RTC_S_EOPNOTSUPP).to_bytes(),
                );
            },
        };
        self.state = QueueState::Request { kind, response };
        QueueAction::ReadMemory { addr: request, size: REQ_LEN }
    }

    /// Goes on once the whole request is there.
    fn request(&mut self, kind: RequestKind, response: u64, bytes: Vec<u8>) -> (action: QueueAction)
        requires
            bytes@.len() == REQ_LEN,
        ensures
            (*final(self), action@) == old(self).with_request(kind, response, bytes@),
    {
        let bytes = bytes.as_slice();
        match kind {
            RequestKind::ClockCap => {
                let req = VirtioRtcReqClockCap::from_bytes(bytes);
                proof {
                    lemma_clock_field(bytes@, req.head, req.clock_id, req.reserved@);
                }
                self.write(response, handlers::handle_clock_cap(req.clock_id).to_bytes())
            },
            RequestKind::CrossCap => {
                let req = VirtioRtcReqCrossCap::from_bytes(bytes);
                proof {
                    lemma_counter_field(
                        bytes@,
                        req.head,
                        req.clock_id,
                        req.hw_counter,
                        req.reserved@,
                    );
                }
                let resp = if self.tsc {
                    tsc::handle_cross_cap(req.clock_id, req.hw_counter)
                } else {
                    no_tsc::handle_cross_cap(req.clock_id, req.hw_counter)
                };
                self.write(response, resp.to_bytes())
            },
            RequestKind::Read => {
                let req = VirtioRtcReqRead::from_bytes(bytes);
                proof {
                    lemma_clock_field(bytes@, req.head, req.clock_id, req.reserved@);
                }
                match handlers::handle_read(req.clock_id) {
                    ReadStep::Answer(resp) => self.write(response, resp.to_bytes()),
                    ReadStep::Clock(clock) => {
                        self.state = QueueState::Clock { response };
                        QueueAction::ReadClock { clock }
                    },
                }
            },
            RequestKind::ReadCross => {
                let req = VirtioRtcReqReadCross::from_bytes(bytes);
                proof {
                    lemma_counter_field(
                        bytes@,
                        req.head,
                        req.clock_id,
                        req.hw_counter,
                        req.reserved@,
                    );
                }
                if !self.tsc {
                    return self.write(
                        response,
                        no_tsc::handle_read_cross(req.clock_id, req.hw_counter).to_bytes(),
                    );
                }
                match tsc::handle_read_cross(req.clock_id, req.hw_counter) {
                    CrossStep::Answer(resp) => self.write(response, resp.to_bytes()),
                    CrossStep::Clock(clock) => {
                        self.state = QueueState::CounterBefore { response, clock };
                        QueueAction::ReadCounter
                    },
                }
            },
        }
    }

    /// Goes on with what came of the last action. An event that the run does not
    /// wait for changes nothing.
    pub fn process_queue(&mut self, event: QueueEvent) -> (action: QueueAction)
        ensures
            (*final(self), action@) == old(self).next(event),
    {
        match (self.state, event) {
            (QueueState::Chain, QueueEvent::NoChain) => {
                self.state = QueueState::Done;
                QueueAction::Finish { result: Ok(self.used_descs) }
            },
            (QueueState::Chain, QueueEvent::Chain) => {
                self.state = QueueState::RequestDescriptor;
                QueueAction::NextDescriptor
            },
            (QueueState::RequestDescriptor, QueueEvent::NoDescriptor) => self.fail(
                Error::DescriptorChainTooShort,
            ),
            (
                QueueState::RequestDescriptor,
                QueueEvent::Descriptor { addr, len, write_only },
            ) => {
                if write_only {
                    return self.fail(Error::InvalidDescriptor { expected: "readable request" });
                }
                self.state = QueueState::RequestAddress;
                QueueAction::Translate { addr, len }
            },
            (QueueState::RequestAddress, QueueEvent::Translated { addr }) => {
                self.state = QueueState::ResponseDescriptor { request: addr };
                QueueAction::NextDescriptor
            },
            (QueueState::ResponseDescriptor { .. }, QueueEvent::NoDescriptor) => self.fail(
                Error::DescriptorChainTooShort,
            ),
            (
                QueueState::ResponseDescriptor { request },
                QueueEvent::Descriptor { addr, len, write_only },
            ) => {
                if !write_only {
                    return self.fail(Error::InvalidDescriptor { expected: "writable response" });
                }
                self.state = QueueState::ResponseAddress { request };
                QueueAction::Translate { addr, len }
            },
            (QueueState::ResponseAddress { request }, QueueEvent::Translated { addr }) => {
                self.state = QueueState::Header { request, response: addr };
                QueueAction::ReadMemory { addr: request, size: REQ_HEAD_LEN }
            },
            (QueueState::Header { .. }, QueueEvent::ReadFailed { error }) => self.fail(
                Error::GuestMemoryRead(error),
            ),
            (QueueState::Request { .. }, QueueEvent::ReadFailed { error }) => self.fail(
                Error::GuestMemoryRead(error),
            ),
            (QueueState::Header { request, response }, QueueEvent::MemoryRead { bytes }) => {
                if bytes.len() != REQ_HEAD_LEN {
                    return QueueAction::Unexpected;
                }
                self.header(request, response, bytes)
            },
            (QueueState::Request { kind, response }, QueueEvent::MemoryRead { bytes }) => {
                if bytes.len() != REQ_LEN {
                    return QueueAction::Unexpected;
                }
                self.request(kind, response, bytes)
            },
            (QueueState::Clock { response }, QueueEvent::ClockRead { reading }) => self.write(
                response,
                handlers::finish_read(reading).to_bytes(),
            ),
            (QueueState::CounterBefore { response, clock }, QueueEvent::CounterRead { cycles }) => {
                self.state = QueueState::CrossClock { response, tsc1: cycles };
                QueueAction::ReadClock { clock }
            },
            (QueueState::CrossClock { response, tsc1 }, QueueEvent::ClockRead { reading }) => {
                match reading {
                    Ok(ns) => {
                        self.state = QueueState::CounterAfter { response, tsc1, ns };
                        QueueAction::ReadCounter
                    },
                    Err(_) => self.write(response, tsc::finish_read_cross(Err(())).to_bytes()),
                }
            },
            (
                QueueState::CounterAfter { response, tsc1, ns },
                QueueEvent::CounterRead { cycles },
            ) => self.write(
                response,
                tsc::finish_read_cross(
                    tsc::clock_gettime_with_tsc(tsc1, Ok(ns), cycles),
                ).to_bytes(),
            ),
            (QueueState::Write { .. }, QueueEvent::WriteFailed { error }) => self.fail(
                Error::GuestMemoryWrite(error),
            ),
            (QueueState::Write { len }, QueueEvent::MemoryWritten) => {
                self.state = QueueState::Return;
                QueueAction::AddUsed { len }
            },
            (QueueState::Return, QueueEvent::AddUsedFailed { queue_error }) => self.fail(
                Error::QueueAddUsed(queue_error),
            ),
            (QueueState::Return, QueueEvent::UsedAdded) => {
                self.state = QueueState::Chain;
                self.used_descs = true;
                QueueAction::PopChain
            },
            _ => QueueAction::Unexpected,
        }
    }
}

/// Two bytes that hold a number have the number as their value.
proof fn lemma_u16_bytes(value: u16)
    ensures
        le::le_bytes(value as nat, 2).len() == 2,
        le::le_value(le::le_bytes(value as nat, 2)) == value,
{
    le::lemma_le_bytes_len(value as nat, 2);
    assert(vstd::arithmetic::power::pow(256, 2) == 65536) by {
        reveal_with_fuel(vstd::arithmetic::power::pow, 3);
    }
    le::lemma_le_value_of_bytes(value as nat, 2);
}

/// Where the message type stands in a header.
pub proof fn lemma_head_fields(head: VirtioRtcReqHead)
    ensures
        head.wire().len() == REQ_HEAD_LEN,
        msg_type(head.wire()) == head.msg_type,
{
    lemma_u16_bytes(head.msg_type);
    assert(head.wire().subrange(0, 2) =~= le::le_bytes(head.msg_type as nat, 2));
}

/// Where the clock stands in a request.
pub proof fn lemma_clock_field(bytes: Seq<u8>, head: VirtioRtcReqHead, clock: u16, rest: Seq<u8>)
    requires
        bytes == head.wire() + le::le_bytes(clock as nat, 2) + rest,
    ensures
        clock_id(bytes) == clock,
{
    lemma_head_fields(head);
    lemma_u16_bytes(clock);
    assert(bytes.subrange(8, 10) =~= le::le_bytes(clock as nat, 2));
}

/// Where the clock and the counter stand in a request.
pub proof fn lemma_counter_field(
    bytes: Seq<u8>,
    head: VirtioRtcReqHead,
    clock: u16,
    counter: u8,
    rest: Seq<u8>,
)
    requires
        bytes == head.wire() + le::le_bytes(clock as nat, 2) + seq![counter] + rest,
    ensures
        clock_id(bytes) == clock,
        hw_counter(bytes) == counter,
{
    assert(bytes =~= head.wire() + le::le_bytes(clock as nat, 2) + (seq![counter] + rest));
    lemma_clock_field(bytes, head, clock, seq![counter] + rest);
    lemma_head_fields(head);
    lemma_u16_bytes(clock);
}

} // verus!
