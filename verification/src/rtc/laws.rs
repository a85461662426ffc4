//! What holds of the device as a whole.
use super::clock;
use super::device;
use super::device::{RtcModel, RtcState};
use super::error::Error;
use super::events;
use super::events::{EventAction, EventFailure, EventStep};
use super::handlers;
use super::handlers::ReadStep;
use super::no_tsc;
use super::queue;
use super::queue::{Action, QueueAction, QueueEvent, QueueRun, QueueState, RequestKind};
use super::tsc;
use super::tsc::CrossStep;
use super::wire::{
    VirtioRtcReqClockCap, VirtioRtcReqCrossCap, VirtioRtcReqHead, VirtioRtcReqRead,
    VirtioRtcReqReadCross, NUM_CLOCKS, REQ_HEAD_LEN, REQ_LEN,
    VIRTIO_RTC_FLAG_CROSS_CAP, VIRTIO_RTC_S_EIO, VIRTIO_RTC_S_ENODEV,
    VIRTIO_RTC_S_EOPNOTSUPP, VIRTIO_RTC_S_OK,
};
use crate::le;
use seccompiler::SeccompAction;
use vmm_sys_util::eventfd::EventFd;
use vstd::prelude::*;

verus! {

/// The clocks that there are, those that have a type and those that can be read
/// are the same, and the driver is told their number, in a response and in the
/// configuration space.
pub proof fn law_clock_count(clock_id: u16)
    ensures
        clock_id < NUM_CLOCKS <==> clock::clock_type(clock_id) is Some,
        clock_id < NUM_CLOCKS <==> clock::posix_clock(clock_id) is Some,
        handlers::clock_cap_response(clock_id).head.status == VIRTIO_RTC_S_OK <==> clock_id
            < handlers::cfg_response().num_clocks,
        handlers::read_step(clock_id) is Clock <==> clock_id < handlers::cfg_response().num_clocks,
        le::le_value(device::config_space()) == handlers::cfg_response().num_clocks,
{
    lemma_number_reads_back_4(NUM_CLOCKS as u32);
}

/// A clock is announced as readable together with a counter exactly where a
/// request for such a reading goes to the clock. Without a TSC none is, and
/// every such request is turned down.
pub proof fn law_cross_capability(clock_id: u16, hw_counter: u8)
    ensures
        tsc::cross_cap_response(clock_id, hw_counter).flags == VIRTIO_RTC_FLAG_CROSS_CAP
            <==> tsc::cross_step(clock_id, hw_counter) is Clock,
        tsc::cross_cap_response(clock_id, hw_counter).flags == 0 <==> tsc::cross_step(
            clock_id,
            hw_counter,
        ) is Answer,
        no_tsc::cross_cap_response().flags == 0,
        no_tsc::cross_response().head.status == VIRTIO_RTC_S_EOPNOTSUPP,
{
}

/// The counter value of a cross-timestamp lies between the two TSC readings,
/// within half a cycle of their middle.
pub proof fn law_midpoint(tsc1: u64, tsc2: u64)
    ensures
        tsc1 <= tsc2 ==> tsc1 <= tsc::midpoint(tsc1, tsc2) <= tsc2,
        tsc2 <= tsc1 ==> tsc2 <= tsc::midpoint(tsc1, tsc2) <= tsc1,
        2 * tsc::midpoint(tsc1, tsc2) <= tsc1 + tsc2 <= 2 * tsc::midpoint(tsc1, tsc2) + 1,
{
}

/// A clock reading together with the TSC is the clock's reading with the midpoint of the
/// two TSC readings, and fails exactly where the clock's reading does.
pub proof fn law_cross_reading(tsc1: u64, reading: Result<u64, ()>, tsc2: u64)
    ensures
        match (reading, tsc::cross_reading(tsc1, reading, tsc2)) {
            (Ok(ns), Ok((clock, cycles))) => clock == ns && 2 * cycles <= tsc1 + tsc2 <= 2 * cycles
                + 1,
            (Err(_), Err(_)) => true,
            _ => false,
        },
{
}

proof fn lemma_number_reads_back_4(value: u32)
    ensures
        le::le_bytes(value as nat, 4).len() == 4,
        le::le_value(le::le_bytes(value as nat, 4)) == value,
{
    le::lemma_le_bytes_len(value as nat, 4);
    assert(vstd::arithmetic::power::pow(256, 4) == 0x1_0000_0000) by {
        reveal_with_fuel(vstd::arithmetic::power::pow, 5);
    }
    le::lemma_le_value_of_bytes(value as nat, 4);
}

proof fn lemma_number_reads_back_8(value: u64)
    ensures
        le::le_bytes(value as nat, 8).len() == 8,
        le::le_value(le::le_bytes(value as nat, 8)) == value,
{
    le::lemma_le_bytes_len(value as nat, 8);
    assert(vstd::arithmetic::power::pow(256, 8) == 0x1_0000_0000_0000_0000) by {
        reveal_with_fuel(vstd::arithmetic::power::pow, 9);
    }
    le::lemma_le_value_of_bytes(value as nat, 8);
}

/// The driver reads a clock reading back from the response's bytes, and a counter
/// value behind it.
pub proof fn law_readings_reach_the_driver(ns: u64, cycles: u64)
    ensures
        ({
            let plain = handlers::reading_response(Ok(ns)).wire();
            let cross = tsc::cross_response(Ok((ns, cycles))).wire();
            &&& plain.len() == 16
            &&& plain[0] == VIRTIO_RTC_S_OK
            &&& le::le_value(plain.subrange(8, 16)) == ns
            &&& cross.len() == 24
            &&& cross[0] == VIRTIO_RTC_S_OK
            &&& le::le_value(cross.subrange(8, 16)) == ns
            &&& le::le_value(cross.subrange(16, 24)) == cycles
        }),
{
    lemma_number_reads_back_8(ns);
    lemma_number_reads_back_8(cycles);
    let plain = handlers::reading_response(Ok(ns)).wire();
    let cross = tsc::cross_response(Ok((ns, cycles))).wire();
    assert(plain.subrange(8, 16) =~= le::le_bytes(ns as nat, 8));
    assert(cross.subrange(8, 16) =~= le::le_bytes(ns as nat, 8));
    assert(cross.subrange(16, 24) =~= le::le_bytes(cycles as nat, 8));
}

/// A response in guest memory: a header with a status and blank reserved bytes,
/// and nothing but blanks behind it where the status is not success.
pub open spec fn well_formed_response(bytes: Seq<u8>) -> bool {
    &&& bytes.len() == 8 || bytes.len() == 16 || bytes.len() == 24
    &&& forall|i: int| 1 <= i < 8 ==> bytes[i] == 0
    &&& {
        ||| bytes[0] == VIRTIO_RTC_S_OK
        ||| {
            &&& bytes[0] == VIRTIO_RTC_S_EOPNOTSUPP || bytes[0] == VIRTIO_RTC_S_ENODEV || bytes[0]
                == VIRTIO_RTC_S_EIO
            &&& forall|i: int| 1 <= i < bytes.len() ==> bytes[i] == 0
        }
    }
}

proof fn lemma_zero_bytes(width: nat)
    ensures
        le::le_bytes(0, width).len() == width,
        forall|i: int| 0 <= i < width ==> le::le_bytes(0, width)[i] == 0,
    decreases width,
{
    if width > 0 {
        lemma_zero_bytes((width - 1) as nat);
    }
}

/// Every response that the device writes is well formed: a driver that is refused
/// gets the status and otherwise blanks.
pub proof fn law_responses_are_well_formed(run: QueueRun, event: QueueEvent)
    ensures
        run.next(event).1 matches Action::WriteMemory { bytes, .. } ==> well_formed_response(bytes),
{
    lemma_zero_bytes(8);
    le::lemma_le_bytes_len(NUM_CLOCKS as nat, 2);
    if let Action::WriteMemory { bytes, .. } = run.next(event).1 {
        if let QueueEvent::ClockRead { reading } = event {
            if let Ok(ns) = reading {
                le::lemma_le_bytes_len(ns as nat, 8);
            }
        }
        if let (QueueState::CounterAfter { tsc1, ns, .. }, QueueEvent::CounterRead { cycles }) = (
            run.state,
            event,
        ) {
            le::lemma_le_bytes_len(ns as nat, 8);
            le::lemma_le_bytes_len(tsc::midpoint(tsc1, cycles) as nat, 8);
        }
        assert(well_formed_response(bytes));
    }
}

/// The bytes of a request hold its fields where the device looks for them.
pub proof fn law_requests_read_back(
    head: VirtioRtcReqHead,
    read: VirtioRtcReqRead,
    read_cross: VirtioRtcReqReadCross,
    clock_cap: VirtioRtcReqClockCap,
    cross_cap: VirtioRtcReqCrossCap,
)
    ensures
        head.wire().len() == REQ_HEAD_LEN,
        queue::msg_type(head.wire()) == head.msg_type,
        read.wire().len() == REQ_LEN,
        queue::msg_type(read.wire()) == read.head.msg_type,
        queue::clock_id(read.wire()) == read.clock_id,
        read_cross.wire().len() == REQ_LEN,
        queue::msg_type(read_cross.wire()) == read_cross.head.msg_type,
        queue::clock_id(read_cross.wire()) == read_cross.clock_id,
        queue::hw_counter(read_cross.wire()) == read_cross.hw_counter,
        clock_cap.wire().len() == REQ_LEN,
        queue::msg_type(clock_cap.wire()) == clock_cap.head.msg_type,
        queue::clock_id(clock_cap.wire()) == clock_cap.clock_id,
        cross_cap.wire().len() == REQ_LEN,
        queue::msg_type(cross_cap.wire()) == cross_cap.head.msg_type,
        queue::clock_id(cross_cap.wire()) == cross_cap.clock_id,
        queue::hw_counter(cross_cap.wire()) == cross_cap.hw_counter,
{
    queue::lemma_head_fields(head);
    lemma_request_head(read.head, read.wire());
    lemma_request_head(read_cross.head, read_cross.wire());
    lemma_request_head(clock_cap.head, clock_cap.wire());
    lemma_request_head(cross_cap.head, cross_cap.wire());
    queue::lemma_clock_field(read.wire(), read.head, read.clock_id, read.reserved@);
    queue::lemma_clock_field(
        clock_cap.wire(),
        clock_cap.head,
        clock_cap.clock_id,
        clock_cap.reserved@,
    );
    queue::lemma_counter_field(
        read_cross.wire(),
        read_cross.head,
        read_cross.clock_id,
        read_cross.hw_counter,
        read_cross.reserved@,
    );
    queue::lemma_counter_field(
        cross_cap.wire(),
        cross_cap.head,
        cross_cap.clock_id,
        cross_cap.hw_counter,
        cross_cap.reserved@,
    );
    le::lemma_le_bytes_len(read.clock_id as nat, 2);
    le::lemma_le_bytes_len(read_cross.clock_id as nat, 2);
    le::lemma_le_bytes_len(clock_cap.clock_id as nat, 2);
    le::lemma_le_bytes_len(cross_cap.clock_id as nat, 2);
}

/// A request's message type is that of its header.
proof fn lemma_request_head(head: VirtioRtcReqHead, bytes: Seq<u8>)
    requires
        head.wire().is_prefix_of(bytes),
    ensures
        head.wire().len() == 8,
        queue::msg_type(bytes) == head.msg_type,
{
    queue::lemma_head_fields(head);
    assert(bytes.subrange(0, 2) =~= head.wire().subrange(0, 2));
}

/// A run through events: the run after them, and the actions that it asked for.
pub open spec fn run_through(run: QueueRun, events: Seq<QueueEvent>) -> (QueueRun, Seq<Action>)
    decreases events.len(),
{
    if events.len() == 0 {
        (run, seq![])
    } else {
        let (before, actions) = run_through(run, events.drop_last());
        let (after, action) = before.next(events.last());
        (after, actions.push(action))
    }
}

/// What the device answers to a request, given its header, the whole request as
/// read after the header, and what the clock and the counter said, where they
/// are asked.
pub open spec fn answer(
    tsc: bool,
    header: Seq<u8>,
    request: Seq<u8>,
    reading: Result<u64, ()>,
    tsc1: u64,
    tsc2: u64,
) -> Seq<u8> {
    let clock = queue::clock_id(request);
    let counter = queue::hw_counter(request);
    match queue::kind_of(queue::msg_type(header)) {
        None => queue::header_response(queue::msg_type(header)),
        Some(RequestKind::ClockCap) => handlers::clock_cap_response(clock).wire(),
        Some(RequestKind::CrossCap) => if tsc {
            tsc::cross_cap_response(clock, counter).wire()
        } else {
            no_tsc::cross_cap_response().wire()
        },
        Some(RequestKind::Read) => match handlers::read_step(clock) {
            ReadStep::Answer(resp) => resp.wire(),
            ReadStep::Clock(_) => handlers::reading_response(reading).wire(),
        },
        Some(RequestKind::ReadCross) => if !tsc {
            no_tsc::cross_response().wire()
        } else {
            match tsc::cross_step(clock, counter) {
                CrossStep::Answer(resp) => resp.wire(),
                CrossStep::Clock(_) => match reading {
                    Ok(ns) => tsc::cross_response(Ok((ns, tsc::midpoint(tsc1, tsc2)))).wire(),
                    Err(_) => tsc::cross_response(Err(())).wire(),
                },
            }
        },
    }
}

/// The events from the request's header up to the response: the header, the whole
/// request where it has fields of its own, and the readings where they are asked
/// for.
pub open spec fn dialogue(
    tsc: bool,
    header: Vec<u8>,
    request: Vec<u8>,
    reading: Result<u64, ()>,
    tsc1: u64,
    tsc2: u64,
) -> Seq<QueueEvent> {
    let clock = queue::clock_id(request@);
    let counter = queue::hw_counter(request@);
    let head = QueueEvent::MemoryRead { bytes: header };
    let whole = QueueEvent::MemoryRead { bytes: request };
    match queue::kind_of(queue::msg_type(header@)) {
        None => seq![head],
        Some(kind) => if kind is Read && handlers::read_step(clock) is Clock {
            seq![head, whole, QueueEvent::ClockRead { reading }]
        } else if kind is ReadCross && tsc && tsc::cross_step(clock, counter) is Clock {
            let first = QueueEvent::CounterRead { cycles: tsc1 };
            if reading is Ok {
                seq![
                    head,
                    whole,
                    first,
                    QueueEvent::ClockRead { reading },
                    QueueEvent::CounterRead { cycles: tsc2 },
                ]
            } else {
                seq![head, whole, first, QueueEvent::ClockRead { reading }]
            }
        } else {
            seq![head, whole]
        },
    }
}

/// Two runs in a row.
pub proof fn lemma_run_in_two_parts(run: QueueRun, a: Seq<QueueEvent>, b: Seq<QueueEvent>)
    ensures
        ({
            let (middle, first) = run_through(run, a);
            let (end, second) = run_through(middle, b);
            run_through(run, a + b) == (end, first + second)
        }),
    decreases b.len(),
{
    if b.len() == 0 {
        assert(a + b =~= a);
        let (middle, first) = run_through(run, a);
        assert(first + seq![] =~= first);
    } else {
        lemma_run_in_two_parts(run, a, b.drop_last());
        assert((a + b).drop_last() =~= a + b.drop_last());
        let (middle, first) = run_through(run, a);
        let (before, second) = run_through(middle, b.drop_last());
        let action = before.next(b.last()).1;
        assert((first + second).push(action) =~= first + second.push(action));
    }
}

/// A run through one event.
pub proof fn lemma_run_one(run: QueueRun, e: QueueEvent)
    ensures
        run_through(run, seq![e]) == (run.next(e).0, seq![run.next(e).1]),
{
    assert(seq![e].drop_last() =~= seq![]);
    assert(run_through(run, seq![]) == (run, Seq::<Action>::empty()));
    assert(Seq::<Action>::empty().push(run.next(e).1) =~= seq![run.next(e).1]);
}

/// A run through one event, and then others.
pub proof fn lemma_run_first(run: QueueRun, e: QueueEvent, rest: Seq<QueueEvent>)
    ensures
        ({
            let (end, actions) = run_through(run.next(e).0, rest);
            run_through(run, seq![e] + rest) == (end, seq![run.next(e).1] + actions)
        }),
{
    lemma_run_one(run, e);
    lemma_run_in_two_parts(run, seq![e], rest);
}

/// Once a request's and a response's place are known, the request is answered: the
/// last action of the dialogue writes the answer to the response's place.
proof fn lemma_dialogue_ends_in_answer(
    run: QueueRun,
    request_addr: u64,
    response_addr: u64,
    header: Vec<u8>,
    request: Vec<u8>,
    reading: Result<u64, ()>,
    tsc1: u64,
    tsc2: u64,
)
    requires
        run.state == (QueueState::Header { request: request_addr, response: response_addr }),
        header@.len() == REQ_HEAD_LEN,
        request@.len() == REQ_LEN,
    ensures
        ({
            let events = dialogue(run.tsc, header, request, reading, tsc1, tsc2);
            let response = answer(run.tsc, header@, request@, reading, tsc1, tsc2);
            let (end, actions) = run_through(run, events);
            &&& actions.len() == events.len() > 0
            &&& actions.last() == (Action::WriteMemory { addr: response_addr, bytes: response })
            &&& end == run.at(QueueState::Write { len: response.len() as u32 })
        }),
{
    let events = dialogue(run.tsc, header, request, reading, tsc1, tsc2);
    let e0 = QueueEvent::MemoryRead { bytes: header };
    let e1 = QueueEvent::MemoryRead { bytes: request };
    let e2 = events[2];
    let e3 = events[3];
    let e4 = events[4];
    let r1 = run.next(e0).0;
    let r2 = r1.next(e1).0;
    let r3 = r2.next(e2).0;
    let r4 = r3.next(e3).0;
    if events.len() == 1 {
        assert(events =~= seq![e0]);
        lemma_run_one(run, e0);
    } else if events.len() == 2 {
        assert(events =~= seq![e0] + seq![e1]);
        lemma_run_first(run, e0, seq![e1]);
        lemma_run_one(r1, e1);
    } else if events.len() == 3 {
        assert(events =~= seq![e0] + (seq![e1] + seq![e2]));
        lemma_run_first(run, e0, seq![e1] + seq![e2]);
        lemma_run_first(r1, e1, seq![e2]);
        lemma_run_one(r2, e2);
    } else if events.len() == 4 {
        assert(events =~= seq![e0] + (seq![e1] + (seq![e2] + seq![e3])));
        lemma_run_first(run, e0, seq![e1] + (seq![e2] + seq![e3]));
        lemma_run_first(r1, e1, seq![e2] + seq![e3]);
        lemma_run_first(r2, e2, seq![e3]);
        lemma_run_one(r3, e3);
    } else {
        assert(events =~= seq![e0] + (seq![e1] + (seq![e2] + (seq![e3] + seq![e4]))));
        lemma_run_first(run, e0, seq![e1] + (seq![e2] + (seq![e3] + seq![e4])));
        lemma_run_first(r1, e1, seq![e2] + (seq![e3] + seq![e4]));
        lemma_run_first(r2, e2, seq![e3] + seq![e4]);
        lemma_run_first(r3, e3, seq![e4]);
        lemma_run_one(r4, e4);
    }
}

/// The events of a chain up to its two places in guest memory.
pub open spec fn opening(
    request: (u64, u32),
    request_addr: u64,
    response: (u64, u32),
    response_addr: u64,
) -> Seq<QueueEvent> {
    seq![
        QueueEvent::Chain,
        QueueEvent::Descriptor { addr: request.0, len: request.1, write_only: false },
        QueueEvent::Translated { addr: request_addr },
        QueueEvent::Descriptor { addr: response.0, len: response.1, write_only: true },
        QueueEvent::Translated { addr: response_addr },
    ]
}

/// Every chain with a readable and a writable descriptor whose accesses succeed is
/// served: the device translates both descriptors, reads the header, writes the answer to the request to the response's place,
/// gives the chain back with the answer's length, and asks for the next chain.
pub proof fn law_chain_is_served(
    run: QueueRun,
    request_desc: (u64, u32),
    request_addr: u64,
    response_desc: (u64, u32),
    response_addr: u64,
    header: Vec<u8>,
    request: Vec<u8>,
    reading: Result<u64, ()>,
    tsc1: u64,
    tsc2: u64,
)
    requires
        run.state is Chain,
        header@.len() == REQ_HEAD_LEN,
        request@.len() == REQ_LEN,
    ensures
        ({
            let response = answer(run.tsc, header@, request@, reading, tsc1, tsc2);
            let events = opening(request_desc, request_addr, response_desc, response_addr)
                + dialogue(run.tsc, header, request, reading, tsc1, tsc2) + seq![
                QueueEvent::MemoryWritten,
                QueueEvent::UsedAdded,
            ];
            let (end, actions) = run_through(run, events);
            &&& end == (QueueRun { state: QueueState::Chain, used_descs: true, tsc: run.tsc })
            &&& actions.len() == events.len()
            &&& actions.take(5) == seq![
                Action::NextDescriptor,
                Action::Translate { addr: request_desc.0, len: request_desc.1 },
                Action::NextDescriptor,
                Action::Translate { addr: response_desc.0, len: response_desc.1 },
                Action::ReadMemory { addr: request_addr, size: REQ_HEAD_LEN },
            ]
            &&& actions[events.len() - 3] == (Action::WriteMemory {
                addr: response_addr,
                bytes: response,
            })
            &&& actions[events.len() - 2] == (Action::AddUsed { len: response.len() as u32 })
            &&& actions[events.len() - 1] == Action::PopChain
        }),
{
    let first = opening(request_desc, request_addr, response_desc, response_addr);
    let second = dialogue(run.tsc, header, request, reading, tsc1, tsc2);
    let third = seq![QueueEvent::MemoryWritten, QueueEvent::UsedAdded];
    let opened = run.at(QueueState::Header { request: request_addr, response: response_addr });
    let e0 = first[0];
    let e1 = first[1];
    let e2 = first[2];
    let e3 = first[3];
    let e4 = first[4];
    let r1 = run.next(e0).0;
    let r2 = r1.next(e1).0;
    let r3 = r2.next(e2).0;
    let r4 = r3.next(e3).0;
    assert(first =~= seq![e0] + (seq![e1] + (seq![e2] + (seq![e3] + seq![e4]))));
    lemma_run_first(run, e0, seq![e1] + (seq![e2] + (seq![e3] + seq![e4])));
    lemma_run_first(r1, e1, seq![e2] + (seq![e3] + seq![e4]));
    lemma_run_first(r2, e2, seq![e3] + seq![e4]);
    lemma_run_first(r3, e3, seq![e4]);
    lemma_run_one(r4, e4);
    assert(run_through(run, first).0 == opened);
    lemma_dialogue_ends_in_answer(
        opened,
        request_addr,
        response_addr,
        header,
        request,
        reading,
        tsc1,
        tsc2,
    );
    let written = run_through(opened, second).0;
    assert(third =~= seq![QueueEvent::MemoryWritten] + seq![QueueEvent::UsedAdded]);
    lemma_run_first(written, QueueEvent::MemoryWritten, seq![QueueEvent::UsedAdded]);
    lemma_run_one(written.next(QueueEvent::MemoryWritten).0, QueueEvent::UsedAdded);
    lemma_run_in_two_parts(run, first, second);
    lemma_run_in_two_parts(run, first + second, third);
}

/// An action is modelled as it is, field by field.
pub proof fn law_actions_are_modelled_as_they_are(action: QueueAction)
    ensures
        match action {
            QueueAction::PopChain => action@ is PopChain,
            QueueAction::NextDescriptor => action@ is NextDescriptor,
            QueueAction::Translate { addr, len } => action@ == (Action::Translate { addr, len }),
            QueueAction::ReadMemory { addr, size } => action@ == (Action::ReadMemory {
                addr,
                size,
            }),
            QueueAction::ReadClock { clock } => action@ == (Action::ReadClock { clock }),
            QueueAction::ReadCounter => action@ is ReadCounter,
            QueueAction::WriteMemory { addr, bytes } => action@ == (Action::WriteMemory {
                addr,
                bytes: bytes@,
            }),
            QueueAction::AddUsed { len } => action@ == (Action::AddUsed { len }),
            QueueAction::Finish { result } => action@ == (Action::Finish { result }),
            QueueAction::Unexpected => action@ is Unexpected,
        },
{
}

/// A run goes on exactly with an outcome of the action that it asked for: it leaves any
/// other event alone, and guest memory of another length than asked for too. A run that
/// is over waits for nothing.
pub proof fn law_unexpected_events_change_nothing(run: QueueRun, event: QueueEvent)
    ensures
        run.next(event).1 is Unexpected ==> run.next(event).0 == run,
        run.next(event).1 !is Unexpected <==> match run.state {
            QueueState::Chain => event is Chain || event is NoChain,
            QueueState::RequestDescriptor => event is Descriptor || event is NoDescriptor,
            QueueState::RequestAddress => event is Translated,
            QueueState::ResponseDescriptor { .. } => event is Descriptor || event is NoDescriptor,
            QueueState::ResponseAddress { .. } => event is Translated,
            QueueState::Header { .. } => event is ReadFailed || (event
                matches QueueEvent::MemoryRead { bytes } && bytes@.len() == 8),
            QueueState::Request { .. } => event is ReadFailed || (event
                matches QueueEvent::MemoryRead { bytes } && bytes@.len() == 16),
            QueueState::Clock { .. } => event is ClockRead,
            QueueState::CounterBefore { .. } => event is CounterRead,
            QueueState::CrossClock { .. } => event is ClockRead,
            QueueState::CounterAfter { .. } => event is CounterRead,
            QueueState::Write { .. } => event is MemoryWritten || event is WriteFailed,
            QueueState::Return => event is UsedAdded || event is AddUsedFailed,
            QueueState::Done => false,
        },
{
}

/// A pass that finds no further chain ends in success.
pub proof fn law_empty_queue_ends_the_pass(run: QueueRun)
    requires
        run.state is Chain,
    ensures
        run.next(QueueEvent::NoChain) == (
            QueueRun { state: QueueState::Done, used_descs: run.used_descs, tsc: run.tsc },
            Action::Finish { result: Ok(run.used_descs) },
        ),
{
}

/// What each handler answers: the number of clocks is 2; clock 0 is UTC (type 0) and
/// clock 1 monotonic (type 2), and another clock does not exist (status 3); a reading
/// is handed on with success, and a failed one is an I/O error (status 5).
pub proof fn law_answers_of_the_handlers(
    status: u8,
    clock_id: u16,
    reading: Result<u64, ()>,
    i: int,
)
    requires
        0 <= i < 5,
    ensures
        ({
            let head = handlers::head_with(status);
            let cfg = handlers::cfg_response();
            let cap = handlers::clock_cap_response(clock_id);
            let read = handlers::reading_response(reading);
            &&& head.status == status
            &&& head.reserved@ == seq![0u8, 0, 0, 0, 0, 0, 0]
            &&& cfg.head == handlers::head_with(0)
            &&& cfg.num_clocks == 2
            &&& cfg.reserved@ == seq![0u8, 0, 0, 0, 0, 0]
            &&& cap.head == handlers::head_with(
                if clock_id <= 1 {
                    0
                } else {
                    3
                },
            )
            &&& cap.clock_type == if clock_id == 1 {
                2int
            } else {
                0int
            }
            &&& cap.leap_second_smearing == 0
            &&& cap.flags == 0
            &&& cap.reserved@[i] == 0
            &&& handlers::read_step(clock_id) matches ReadStep::Clock(id) ==> clock_id <= 1 && id
                == clock_id
            &&& handlers::read_step(clock_id) matches ReadStep::Answer(resp) ==> clock_id > 1
                && resp.head == handlers::head_with(3) && resp.clock_reading == 0
            &&& match reading {
                Ok(ns) => read.head == handlers::head_with(0) && read.clock_reading == ns,
                Err(_) => read.head == handlers::head_with(5) && read.clock_reading == 0,
            }
        }),
{
    assert(handlers::head_with(status).reserved@ =~= seq![0u8, 0, 0, 0, 0, 0, 0]);
    assert(handlers::cfg_response().reserved@ =~= seq![0u8, 0, 0, 0, 0, 0]);
}

/// What the handlers for readings together with a counter answer: on a host with a TSC
/// the clocks 0 and 1 can be read with counter 1. Another counter is not supported
/// (status 2), and with that counter another clock does not exist (status 3). Without a
/// TSC nothing of it is supported.
pub proof fn law_answers_of_the_cross_handlers(
    clock_id: u16,
    hw_counter: u8,
    reading: Result<(u64, u64), ()>,
    i: int,
)
    requires
        0 <= i < 7,
    ensures
        ({
            let cap = tsc::cross_cap_response(clock_id, hw_counter);
            let no_cap = no_tsc::cross_cap_response();
            let no_read = no_tsc::cross_response();
            let read = tsc::cross_response(reading);
            &&& cap.head == handlers::head_with(0)
            &&& cap.flags == if clock_id <= 1 && hw_counter == 1 {
                1int
            } else {
                0int
            }
            &&& cap.reserved@[i] == 0
            &&& no_cap.head == handlers::head_with(0)
            &&& no_cap.flags == 0
            &&& no_cap.reserved@[i] == 0
            &&& no_read.head == handlers::head_with(2)
            &&& no_read.clock_reading == 0
            &&& no_read.counter_cycles == 0
            &&& match tsc::cross_step(clock_id, hw_counter) {
                CrossStep::Clock(id) => hw_counter == 1 && clock_id <= 1 && id == clock_id,
                CrossStep::Answer(resp) => (hw_counter != 1 || clock_id > 1) && resp.head
                    == handlers::head_with(
                    if hw_counter != 1 {
                        2
                    } else {
                        3
                    },
                ) && resp.clock_reading == 0 && resp.counter_cycles == 0,
            }
            &&& match reading {
                Ok((ns, cycles)) => read.head == handlers::head_with(0) && read.clock_reading == ns
                    && read.counter_cycles == cycles,
                Err(_) => read.head == handlers::head_with(5) && read.clock_reading == 0
                    && read.counter_cycles == 0,
            }
        }),
{
}

/// The error that an event stands for, where it is a failed access or a malformed
/// chain that the run in this state waits for.
pub open spec fn failure(state: QueueState, event: QueueEvent) -> Option<Error> {
    match event {
        QueueEvent::NoDescriptor => if state is RequestDescriptor || state is ResponseDescriptor {
            Some(Error::DescriptorChainTooShort)
        } else {
            None
        },
        QueueEvent::Descriptor { write_only, .. } => if state is RequestDescriptor && write_only {
            Some(Error::InvalidDescriptor { expected: "readable request" })
        } else if state is ResponseDescriptor && !write_only {
            Some(Error::InvalidDescriptor { expected: "writable response" })
        } else {
            None
        },
        QueueEvent::ReadFailed { error } => if state is Header || state is Request {
            Some(Error::GuestMemoryRead(error))
        } else {
            None
        },
        QueueEvent::WriteFailed { error } => if state is Write {
            Some(Error::GuestMemoryWrite(error))
        } else {
            None
        },
        QueueEvent::AddUsedFailed { queue_error } => if state is Return {
            Some(Error::QueueAddUsed(queue_error))
        } else {
            None
        },
        _ => None,
    }
}

/// A failed access or a malformed chain ends the run with the error that it stands
/// for, and nothing else ends it with an error. The chain at hand is not given back.
pub proof fn law_failures_end_the_run(run: QueueRun, event: QueueEvent)
    ensures
        failure(run.state, event) matches Some(error) ==> run.next(event) == (
            run.at(QueueState::Done),
            Action::Finish { result: Err(error) },
        ),
        run.next(event).1 matches Action::Finish { result: Err(error) } ==> failure(
            run.state,
            event,
        ) == Some(error),
{
}

/// Where the response to the chain at hand goes, once that is known.
pub open spec fn response_place(state: QueueState) -> Option<u64> {
    match state {
        QueueState::Header { response, .. } => Some(response),
        QueueState::Request { response, .. } => Some(response),
        QueueState::Clock { response } => Some(response),
        QueueState::CounterBefore { response, .. } => Some(response),
        QueueState::CrossClock { response, .. } => Some(response),
        QueueState::CounterAfter { response, .. } => Some(response),
        _ => None,
    }
}

/// The device touches guest memory only where the descriptors point: a request is
/// read at the address that its descriptor was translated to, and a response is
/// written at the address that its descriptor was translated to.
pub proof fn law_memory_is_accessed_where_descriptors_point(run: QueueRun, event: QueueEvent)
    ensures
        ({
            let (after, action) = run.next(event);
            &&& match run.state {
                QueueState::RequestAddress => event matches QueueEvent::Translated { addr }
                    ==> after.state == (QueueState::ResponseDescriptor { request: addr }),
                QueueState::ResponseDescriptor { request } => after.state
                    matches QueueState::ResponseAddress { request: kept } ==> kept == request,
                QueueState::ResponseAddress { request } => event
                    matches QueueEvent::Translated { addr } ==> after.state == (
                QueueState::Header { request, response: addr }) && action == (Action::ReadMemory {
                    addr: request,
                    size: REQ_HEAD_LEN,
                }),
                _ => true,
            }
            &&& action matches Action::WriteMemory { addr, .. } ==> response_place(run.state)
                == Some(addr)
            &&& response_place(run.state) is Some && response_place(after.state) is Some
                ==> response_place(after.state) == response_place(run.state)
            &&& action matches Action::ReadMemory { addr, .. } ==> match run.state {
                QueueState::ResponseAddress { request } => addr == request,
                QueueState::Header { request, .. } => addr == request,
                _ => false,
            }
        }),
{
}

/// Actions of a run of which none was turned down.
pub open spec fn all_expected(actions: Seq<Action>) -> bool {
    forall|i: int| 0 <= i < actions.len() ==> !((#[trigger] actions[i]) is Unexpected)
}

/// A chain is given back only straight after its response was written, and with the
/// response's length.
pub proof fn law_only_answered_chains_are_returned(run: QueueRun, events: Seq<QueueEvent>)
    requires
        run.state is Chain,
        all_expected(run_through(run, events).1),
    ensures
        ({
            let actions = run_through(run, events).1;
            &&& actions.len() == events.len()
            &&& forall|i: int|
                0 <= i < actions.len() && (#[trigger] actions[i]) is AddUsed ==> {
                    &&& i > 0
                    &&& actions[i - 1] is WriteMemory
                    &&& actions[i]->AddUsed_len == actions[i - 1]->WriteMemory_bytes.len()
                    &&& events[i] is MemoryWritten
                }
        }),
{
    lemma_returns(run, events);
}

proof fn lemma_returns(run: QueueRun, events: Seq<QueueEvent>)
    requires
        run.state is Chain,
        all_expected(run_through(run, events).1),
    ensures
        ({
            let (end, actions) = run_through(run, events);
            &&& actions.len() == events.len()
            &&& end.state is Write ==> {
                &&& actions.len() > 0
                &&& actions.last() is WriteMemory
                &&& end.state->Write_len == actions.last()->WriteMemory_bytes.len()
            }
            &&& forall|i: int|
                0 <= i < actions.len() && (#[trigger] actions[i]) is AddUsed ==> {
                    &&& i > 0
                    &&& actions[i - 1] is WriteMemory
                    &&& actions[i]->AddUsed_len == actions[i - 1]->WriteMemory_bytes.len()
                    &&& events[i] is MemoryWritten
                }
        }),
    decreases events.len(),
{
    if events.len() > 0 {
        let front = events.drop_last();
        let (before, earlier) = run_through(run, front);
        let (end, actions) = run_through(run, events);
        assert forall|i: int| 0 <= i < earlier.len() implies !((#[trigger] earlier[i])
            is Unexpected) by {
            assert(earlier[i] == actions[i]);
        }
        lemma_returns(run, front);
        law_responses_are_well_formed(before, events.last());
        assert(!(actions.last() is Unexpected));
        assert forall|i: int|
            0 <= i < actions.len() && (#[trigger] actions[i]) is AddUsed implies {
            &&& i > 0
            &&& actions[i - 1] is WriteMemory
            &&& actions[i]->AddUsed_len == actions[i - 1]->WriteMemory_bytes.len()
            &&& events[i] is MemoryWritten
        } by {
            if i < earlier.len() {
                assert(earlier[i] == actions[i]);
                assert(earlier[i - 1] == actions[i - 1]);
                assert(front[i] == events[i]);
            } else {
                assert(before.state is Write);
                assert(actions[i - 1] == earlier.last());
            }
        }
    }
}

/// A pass reports that chains were given back exactly where it gave one back, and
/// the driver is notified exactly then.
pub proof fn law_driver_is_notified_of_returned_chains(tsc: bool, events: Seq<QueueEvent>)
    ensures
        ({
            let start = QueueRun { state: QueueState::Chain, used_descs: false, tsc };
            let (end, actions) = run_through(start, events);
            let returned = exists|i: int|
                0 <= i < events.len() && (#[trigger] events[i]) is UsedAdded
                    && actions[i] is PopChain;
            &&& actions.len() == events.len()
            &&& end.used_descs == returned
            &&& (actions.len() > 0 ==> (actions.last() matches Action::Finish { result: Ok(used) }
                ==> {
                &&& used == returned
                &&& events::event_action(EventStep::Processed { used: Some(used) }) == if returned {
                    EventAction::Signal
                } else {
                    EventAction::Done
                }
            }))
        }),
    decreases events.len(),
{
    let start = QueueRun { state: QueueState::Chain, used_descs: false, tsc };
    if events.len() > 0 {
        let front = events.drop_last();
        law_driver_is_notified_of_returned_chains(tsc, front);
        let (before, earlier) = run_through(start, front);
        let (end, actions) = run_through(start, events);
        let n = front.len() as int;
        assert forall|i: int| 0 <= i < n implies events[i] == front[i] && actions[i]
            == #[trigger] earlier[i] by {}
        if before.used_descs {
            let i = choose|i: int|
                0 <= i < front.len() && (#[trigger] front[i]) is UsedAdded && earlier[i]
                    is PopChain;
            assert(events[i] is UsedAdded && actions[i] is PopChain);
        }
        if exists|i: int|
            0 <= i < events.len() && (#[trigger] events[i]) is UsedAdded && actions[i] is PopChain {
            let i = choose|i: int|
                0 <= i < events.len() && (#[trigger] events[i]) is UsedAdded && actions[i]
                    is PopChain;
            if i < n {
                assert(front[i] is UsedAdded && earlier[i] is PopChain);
            }
        }
        if end.used_descs && !before.used_descs {
            assert(events[n] is UsedAdded && actions[n] is PopChain);
        }
    }
}

/// How many chains were taken off the queue, over events and the actions on them.
pub open spec fn chains_taken(events: Seq<QueueEvent>, actions: Seq<Action>) -> nat
    decreases events.len(),
{
    if events.len() == 0 {
        0
    } else {
        chains_taken(events.drop_last(), actions.drop_last()) + if events.last() is Chain
            && actions.last() is NextDescriptor {
            1nat
        } else {
            0
        }
    }
}

/// How many chains were given back to the driver, over events and the actions on
/// them.
pub open spec fn chains_returned(events: Seq<QueueEvent>, actions: Seq<Action>) -> nat
    decreases events.len(),
{
    if events.len() == 0 {
        0
    } else {
        chains_returned(events.drop_last(), actions.drop_last()) + if events.last() is UsedAdded
            && actions.last() is PopChain {
            1nat
        } else {
            0
        }
    }
}

/// A pass processes all available chains. It ends in success only once no chain is
/// available; by then it has given back every chain that it took, and it reports
/// whether it took any. A pass that ends in an error has given back every chain that
/// it took but the last.
pub proof fn law_all_available_chains_are_processed(tsc: bool, events: Seq<QueueEvent>)
    requires
        events.len() > 0,
    ensures
        ({
            let start = QueueRun { state: QueueState::Chain, used_descs: false, tsc };
            let actions = run_through(start, events).1;
            let taken = chains_taken(events, actions);
            let returned = chains_returned(events, actions);
            &&& actions.last() matches Action::Finish { result: Ok(used) } ==> {
                &&& events.last() is NoChain
                &&& returned == taken
                &&& used == (taken > 0)
            }
            &&& actions.last() matches Action::Finish { result: Err(_) } ==> taken == returned + 1
        }),
{
    let start = QueueRun { state: QueueState::Chain, used_descs: false, tsc };
    let (before, earlier) = run_through(start, events.drop_last());
    let actions = run_through(start, events).1;
    assert(actions.drop_last() =~= earlier);
    lemma_chains(tsc, events.drop_last());
}

/// Between two chains every chain taken is given back, and within a chain all but
/// that one are.
proof fn lemma_chains(tsc: bool, events: Seq<QueueEvent>)
    ensures
        ({
            let start = QueueRun { state: QueueState::Chain, used_descs: false, tsc };
            let (end, actions) = run_through(start, events);
            let taken = chains_taken(events, actions);
            let returned = chains_returned(events, actions);
            &&& end.used_descs == (returned > 0)
            &&& end.state is Chain ==> taken == returned
            &&& !(end.state is Chain || end.state is Done) ==> taken == returned + 1
        }),
    decreases events.len(),
{
    let start = QueueRun { state: QueueState::Chain, used_descs: false, tsc };
    if events.len() > 0 {
        let (before, earlier) = run_through(start, events.drop_last());
        let actions = run_through(start, events).1;
        assert(actions.drop_last() =~= earlier);
        lemma_chains(tsc, events.drop_last());
    }
}

/// Only the queue's event leads to any work, whatever the upper bits of its data
/// are. The eventfd is drained before the queue is processed, the driver is notified
/// only where a chain was given back, and a step that failed ends the work with the
/// failure that it stands for.
pub proof fn law_event_handling(step: EventStep)
    ensures
        events::event_action(step) is Drain <==> (step matches EventStep::Received { data } && data
            % 0x1_0000 == events::EPOLL_HELPER_EVENT_LAST + 1),
        events::event_action(step) is Process <==> step == (EventStep::Drained { ok: true }),
        events::event_action(step) is Signal <==> step == (EventStep::Processed {
            used: Some(true),
        }),
        events::event_action(step) is Done <==> step == (EventStep::Processed {
            used: Some(false),
        }) || step == (EventStep::Signalled { ok: true }),
        events::event_action(step) matches EventAction::Fail { failure } ==> step == match failure {
            EventFailure::QueueEvent => EventStep::Drained { ok: false },
            EventFailure::ProcessQueue => EventStep::Processed { used: None },
            EventFailure::SignalUsedQueue => EventStep::Signalled { ok: false },
            EventFailure::Unexpected { .. } => step,
        },
        events::event_action(step) matches EventAction::Fail {
            failure: EventFailure::Unexpected { ev_type },
        } ==> (step matches EventStep::Received { data } && data % 0x1_0000 == ev_type),
{
}

/// A device is a real-time clock (type 44) with one queue of 64 descriptors, and has the
/// name, the filter action and the eventfd that it is made with.
pub proof fn law_what_a_device_is(
    id: Seq<char>,
    iommu: bool,
    seccomp_action: SeccompAction,
    exit_evt: EventFd,
    state: Option<RtcState>,
)
    ensures
        ({
            let rtc = device::new_device(id, iommu, seccomp_action, exit_evt, state);
            &&& rtc.device_type == 44
            &&& rtc.queue_sizes == seq![64u16]
            &&& rtc.min_queues == 1
            &&& rtc.id == id
            &&& rtc.seccomp_action == seccomp_action
            &&& rtc.exit_evt == exit_evt
        }),
{
}

/// A restored device has the state that was saved and starts paused, whatever else
/// it is made with. A new one offers its features, has acknowledged nothing, and runs.
pub proof fn law_restore_keeps_state(
    id: Seq<char>,
    iommu: bool,
    seccomp_action: SeccompAction,
    exit_evt: EventFd,
    saved: RtcModel,
)
    ensures
        ({
            let restored = device::new_device(
                id,
                iommu,
                seccomp_action,
                exit_evt,
                Some(saved.state),
            );
            let fresh = device::new_device(id, iommu, seccomp_action, exit_evt, None);
            &&& restored.state.avail_features == saved.state.avail_features
            &&& restored.state.acked_features == saved.state.acked_features
            &&& restored.paused
            &&& fresh.state.avail_features == device::offered_features(iommu)
            &&& fresh.state.acked_features == 0
            &&& !fresh.paused
        }),
{
}

/// A new device offers virtio 1 (bit 32), the IOMMU (bit 33) exactly where it is behind
/// one, and nothing else, alarms (bit 0) in particular.
pub proof fn law_offered_features(iommu: bool, bit: u64)
    requires
        bit < 64,
    ensures
        (device::offered_features(iommu) >> bit & 1 == 1) <==> bit == 32 || (iommu && bit == 33),
        device::VIRTIO_RTC_F_ALARM == 0,
        device::offered_features(iommu) & 1 == 0,
{
    assert(((1u64 << 32u32) >> bit & 1 == 1) <==> bit == 32) by (bit_vector)
        requires
            bit < 64,
    ;
    assert(((1u64 << 32u32 | 1u64 << 33u32) >> bit & 1 == 1) <==> (bit == 32 || bit == 33))
        by (bit_vector)
        requires
            bit < 64,
    ;
    assert((1u64 << 32u32) & 1 == 0 && (1u64 << 32u32 | 1u64 << 33u32) & 1 == 0) by (bit_vector);
}

/// Every acknowledged feature is one that the device offers.
pub open spec fn acknowledged_are_offered(state: RtcState) -> bool {
    state.acked_features & !state.avail_features == 0
}

/// The acknowledged features of a new device are among the offered ones, and stay so.
/// What is offered does not change, features acknowledged before stay acknowledged,
/// and acknowledging the same features again changes nothing.
pub proof fn law_acknowledged_features_are_offered(iommu: bool, state: RtcState, value: u64)
    ensures
        acknowledged_are_offered(
            RtcState { avail_features: device::offered_features(iommu), acked_features: 0 },
        ),
        acknowledged_are_offered(state) ==> acknowledged_are_offered(
            device::acknowledged(state, value),
        ),
        device::acknowledged(state, value).avail_features == state.avail_features,
        device::acknowledged(state, value).acked_features & state.acked_features
            == state.acked_features,
        device::acknowledged(device::acknowledged(state, value), value) == device::acknowledged(
            state,
            value,
        ),
{
    let a = state.acked_features;
    let f = state.avail_features;
    let offered = device::offered_features(iommu);
    assert(0 & !offered == 0) by (bit_vector);
    assert(a & !f == 0 ==> (a | (value & f)) & !f == 0) by (bit_vector);
    assert((a | (value & f)) & a == a && (a | (value & f)) | (value & f) == a | (value & f))
        by (bit_vector);
}

/// A feature is acknowledged exactly where it was before, or where the driver
/// acknowledges it and the device offers it.
pub proof fn law_acknowledging_bit_by_bit(state: RtcState, value: u64, bit: u64)
    requires
        bit < 64,
    ensures
        device::acknowledged(state, value).avail_features == state.avail_features,
        (device::acknowledged(state, value).acked_features >> bit & 1 == 1) <==> (
        state.acked_features >> bit & 1 == 1) || (value >> bit & 1 == 1 && state.avail_features
            >> bit & 1 == 1),
{
    let a = state.acked_features;
    let f = state.avail_features;
    assert(((a | (value & f)) >> bit & 1 == 1) <==> (a >> bit & 1 == 1) || (value >> bit & 1 == 1
        && f >> bit & 1 == 1)) by (bit_vector)
        requires
            bit < 64,
    ;
}

/// The configuration space is the number of clocks, 2, in four bytes. A read fills in
/// the bytes of the buffer that lie within it, and leaves the others and the buffer's
/// length as they are.
pub proof fn law_config_byte_by_byte(offset: u64, data: Seq<u8>, i: int)
    requires
        0 <= i < data.len(),
    ensures
        device::config_read(offset, data).len() == data.len(),
        device::config_read(offset, data)[i] == if offset + i == 0 {
            2
        } else if offset + i < 4 {
            0
        } else {
            data[i]
        },
{
    le::lemma_le_bytes_len(NUM_CLOCKS as nat, 4);
    reveal_with_fuel(le::le_bytes, 5);
    assert(device::config_space() =~= seq![2u8, 0, 0, 0]);
}

/// A read of the configuration space past its end changes nothing, and one read of
/// it gives the same as two that follow on each other.
pub proof fn law_config_reads(offset: u64, first: Seq<u8>, second: Seq<u8>)
    ensures
        device::config_space() == seq![2u8, 0, 0, 0],
        offset >= 4 ==> device::config_read(offset, first) == first,
        offset + first.len() <= u64::MAX ==> device::config_read(offset, first + second)
            == device::config_read(offset, first) + device::config_read(
            (offset + first.len()) as u64,
            second,
        ),
{
    le::lemma_le_bytes_len(NUM_CLOCKS as nat, 4);
    reveal_with_fuel(le::le_bytes, 5);
    assert(device::config_space() =~= seq![2u8, 0, 0, 0]);
    if offset + first.len() <= u64::MAX {
        assert(device::config_read(offset, first + second) =~= device::config_read(offset, first)
            + device::config_read((offset + first.len()) as u64, second));
    }
    if offset >= 4 {
        assert(device::config_read(offset, first) =~= first);
    }
}

} // verus!
