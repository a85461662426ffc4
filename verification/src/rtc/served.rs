//! How each kind of request is served, from the chain to the next one, byte by byte.
use super::laws;
use super::layout;
use super::queue;
use super::queue::{Action, QueueEvent, QueueRun, QueueState};
use crate::le;
use vstd::prelude::*;

verus! {

/// The two descriptors of a chain, and the addresses that they are translated to.
pub struct Places {
    pub request_desc: (u64, u32),
    pub request: u64,
    pub response_desc: (u64, u32),
    pub response: u64,
}

/// A run that waits for a chain serves one: it takes the two descriptors, translates
/// both, reads the header, and then, over the events in between, asks for `actions`,
/// the last of which writes the response. It gives the chain back with `len` bytes
/// written and waits for the next.
pub open spec fn serves(
    run: QueueRun,
    places: Places,
    between: Seq<QueueEvent>,
    actions: Seq<Action>,
    len: u32,
) -> bool {
    laws::run_through(
        run,
        seq![
            QueueEvent::Chain,
            QueueEvent::Descriptor {
                addr: places.request_desc.0,
                len: places.request_desc.1,
                write_only: false,
            },
            QueueEvent::Translated { addr: places.request },
            QueueEvent::Descriptor {
                addr: places.response_desc.0,
                len: places.response_desc.1,
                write_only: true,
            },
            QueueEvent::Translated { addr: places.response },
        ] + between + seq![QueueEvent::MemoryWritten, QueueEvent::UsedAdded],
    ) == (
        QueueRun { state: QueueState::Chain, used_descs: true, tsc: run.tsc },
        seq![
            Action::NextDescriptor,
            Action::Translate { addr: places.request_desc.0, len: places.request_desc.1 },
            Action::NextDescriptor,
            Action::Translate { addr: places.response_desc.0, len: places.response_desc.1 },
            Action::ReadMemory { addr: places.request, size: 8 },
        ] + actions + seq![Action::AddUsed { len }, Action::PopChain],
    )
}

/// A chain is served where the events in between lead from the header to the response.
proof fn lemma_serves(
    run: QueueRun,
    places: Places,
    between: Seq<QueueEvent>,
    actions: Seq<Action>,
    len: u32,
)
    requires
        run.state is Chain,
        laws::run_through(
            run.at(QueueState::Header { request: places.request, response: places.response }),
            between,
        ) == (run.at(QueueState::Write { len }), actions),
    ensures
        serves(run, places, between, actions, len),
{
    let first = laws::opening(
        places.request_desc,
        places.request,
        places.response_desc,
        places.response,
    );
    let third = seq![QueueEvent::MemoryWritten, QueueEvent::UsedAdded];
    let opened = run.at(
        QueueState::Header { request: places.request, response: places.response },
    );
    let e0 = first[0];
    let e1 = first[1];
    let e2 = first[2];
    let e3 = first[3];
    let e4 = first[4];
    let r1 = run.next(e0).0;
    let r2 = r1.next(e1).0;
    let r3 = r2.next(e2).0;
    let r4 = r3.next(e3).0;
    assert(first =~= seq![e0] + (seq![e1] + (seq![e2] + (seq![e3] + seq![e4]))));
    laws::lemma_run_first(run, e0, seq![e1] + (seq![e2] + (seq![e3] + seq![e4])));
    laws::lemma_run_first(r1, e1, seq![e2] + (seq![e3] + seq![e4]));
    laws::lemma_run_first(r2, e2, seq![e3] + seq![e4]);
    laws::lemma_run_first(r3, e3, seq![e4]);
    laws::lemma_run_one(r4, e4);
    assert(laws::run_through(run, first).0 == opened);
    assert(laws::run_through(run, first).1 =~= seq![
        Action::NextDescriptor,
        Action::Translate { addr: places.request_desc.0, len: places.request_desc.1 },
        Action::NextDescriptor,
        Action::Translate { addr: places.response_desc.0, len: places.response_desc.1 },
        Action::ReadMemory { addr: places.request, size: 8 },
    ]);
    let written = run.at(QueueState::Write { len });
    assert(third =~= seq![QueueEvent::MemoryWritten] + seq![QueueEvent::UsedAdded]);
    laws::lemma_run_first(written, QueueEvent::MemoryWritten, seq![QueueEvent::UsedAdded]);
    laws::lemma_run_one(written.next(QueueEvent::MemoryWritten).0, QueueEvent::UsedAdded);
    assert(laws::run_through(written, third).1 =~= seq![Action::AddUsed { len }, Action::PopChain]);
    laws::lemma_run_in_two_parts(run, first, between);
    laws::lemma_run_in_two_parts(run, first + between, third);
}

/// One event in between.
proof fn lemma_serves_1(run: QueueRun, places: Places, e0: QueueEvent, len: u32)
    requires
        run.state is Chain,
        run.at(
            QueueState::Header { request: places.request, response: places.response },
        ).next(e0).0 == run.at(QueueState::Write { len }),
    ensures
        ({
            let r0 = run.at(
                QueueState::Header { request: places.request, response: places.response },
            );
            serves(run, places, seq![e0], seq![r0.next(e0).1], len)
        }),
{
    let r0 = run.at(QueueState::Header { request: places.request, response: places.response });
    laws::lemma_run_one(r0, e0);
    lemma_serves(run, places, seq![e0], seq![r0.next(e0).1], len);
}

/// Two events in between.
proof fn lemma_serves_2(run: QueueRun, places: Places, e0: QueueEvent, e1: QueueEvent, len: u32)
    requires
        run.state is Chain,
        run.at(
            QueueState::Header { request: places.request, response: places.response },
        ).next(e0).0.next(e1).0 == run.at(QueueState::Write { len }),
    ensures
        ({
            let r0 = run.at(
                QueueState::Header { request: places.request, response: places.response },
            );
            let r1 = r0.next(e0).0;
            serves(run, places, seq![e0, e1], seq![r0.next(e0).1, r1.next(e1).1], len)
        }),
{
    let r0 = run.at(QueueState::Header { request: places.request, response: places.response });
    let r1 = r0.next(e0).0;
    laws::lemma_run_first(r0, e0, seq![e1]);
    laws::lemma_run_one(r1, e1);
    assert(seq![e0, e1] =~= seq![e0] + seq![e1]);
    assert(seq![r0.next(e0).1, r1.next(e1).1] =~= seq![r0.next(e0).1] + seq![r1.next(e1).1]);
    lemma_serves(run, places, seq![e0, e1], seq![r0.next(e0).1, r1.next(e1).1], len);
}

/// Three events in between.
proof fn lemma_serves_3(
    run: QueueRun,
    places: Places,
    e0: QueueEvent,
    e1: QueueEvent,
    e2: QueueEvent,
    len: u32,
)
    requires
        run.state is Chain,
        run.at(
            QueueState::Header { request: places.request, response: places.response },
        ).next(e0).0.next(e1).0.next(e2).0 == run.at(QueueState::Write { len }),
    ensures
        ({
            let r0 = run.at(
                QueueState::Header { request: places.request, response: places.response },
            );
            let r1 = r0.next(e0).0;
            let r2 = r1.next(e1).0;
            serves(
                run,
                places,
                seq![e0, e1, e2],
                seq![r0.next(e0).1, r1.next(e1).1, r2.next(e2).1],
                len,
            )
        }),
{
    let r0 = run.at(QueueState::Header { request: places.request, response: places.response });
    let r1 = r0.next(e0).0;
    let r2 = r1.next(e1).0;
    laws::lemma_run_first(r0, e0, seq![e1] + seq![e2]);
    laws::lemma_run_first(r1, e1, seq![e2]);
    laws::lemma_run_one(r2, e2);
    let actions = seq![r0.next(e0).1, r1.next(e1).1, r2.next(e2).1];
    assert(seq![e0, e1, e2] =~= seq![e0] + (seq![e1] + seq![e2]));
    assert(actions =~= seq![r0.next(e0).1] + (seq![r1.next(e1).1] + seq![r2.next(e2).1]));
    lemma_serves(run, places, seq![e0, e1, e2], actions, len);
}

/// Four events in between.
proof fn lemma_serves_4(
    run: QueueRun,
    places: Places,
    e0: QueueEvent,
    e1: QueueEvent,
    e2: QueueEvent,
    e3: QueueEvent,
    len: u32,
)
    requires
        run.state is Chain,
        run.at(
            QueueState::Header { request: places.request, response: places.response },
        ).next(e0).0.next(e1).0.next(e2).0.next(e3).0 == run.at(QueueState::Write { len }),
    ensures
        ({
            let r0 = run.at(
                QueueState::Header { request: places.request, response: places.response },
            );
            let r1 = r0.next(e0).0;
            let r2 = r1.next(e1).0;
            let r3 = r2.next(e2).0;
            serves(
                run,
                places,
                seq![e0, e1, e2, e3],
                seq![r0.next(e0).1, r1.next(e1).1, r2.next(e2).1, r3.next(e3).1],
                len,
            )
        }),
{
    let r0 = run.at(QueueState::Header { request: places.request, response: places.response });
    let r1 = r0.next(e0).0;
    let r2 = r1.next(e1).0;
    let r3 = r2.next(e2).0;
    laws::lemma_run_first(r0, e0, seq![e1] + (seq![e2] + seq![e3]));
    laws::lemma_run_first(r1, e1, seq![e2] + seq![e3]);
    laws::lemma_run_first(r2, e2, seq![e3]);
    laws::lemma_run_one(r3, e3);
    let actions = seq![r0.next(e0).1, r1.next(e1).1, r2.next(e2).1, r3.next(e3).1];
    assert(seq![e0, e1, e2, e3] =~= seq![e0] + (seq![e1] + (seq![e2] + seq![e3])));
    assert(actions =~= seq![r0.next(e0).1] + (seq![r1.next(e1).1] + (seq![r2.next(e2).1]
        + seq![r3.next(e3).1])));
    lemma_serves(run, places, seq![e0, e1, e2, e3], actions, len);
}

/// Five events in between.
proof fn lemma_serves_5(
    run: QueueRun,
    places: Places,
    e0: QueueEvent,
    e1: QueueEvent,
    e2: QueueEvent,
    e3: QueueEvent,
    e4: QueueEvent,
    len: u32,
)
    requires
        run.state is Chain,
        run.at(
            QueueState::Header { request: places.request, response: places.response },
        ).next(e0).0.next(e1).0.next(e2).0.next(e3).0.next(e4).0 == run.at(
            QueueState::Write { len },
        ),
    ensures
        ({
            let r0 = run.at(
                QueueState::Header { request: places.request, response: places.response },
            );
            let r1 = r0.next(e0).0;
            let r2 = r1.next(e1).0;
            let r3 = r2.next(e2).0;
            let r4 = r3.next(e3).0;
            serves(
                run,
                places,
                seq![e0, e1, e2, e3, e4],
                seq![r0.next(e0).1, r1.next(e1).1, r2.next(e2).1, r3.next(e3).1, r4.next(e4).1],
                len,
            )
        }),
{
    let r0 = run.at(QueueState::Header { request: places.request, response: places.response });
    let r1 = r0.next(e0).0;
    let r2 = r1.next(e1).0;
    let r3 = r2.next(e2).0;
    let r4 = r3.next(e3).0;
    laws::lemma_run_first(r0, e0, seq![e1] + (seq![e2] + (seq![e3] + seq![e4])));
    laws::lemma_run_first(r1, e1, seq![e2] + (seq![e3] + seq![e4]));
    laws::lemma_run_first(r2, e2, seq![e3] + seq![e4]);
    laws::lemma_run_first(r3, e3, seq![e4]);
    laws::lemma_run_one(r4, e4);
    let actions = seq![
        r0.next(e0).1,
        r1.next(e1).1,
        r2.next(e2).1,
        r3.next(e3).1,
        r4.next(e4).1,
    ];
    assert(seq![e0, e1, e2, e3, e4] =~= seq![e0] + (seq![e1] + (seq![e2] + (seq![e3]
        + seq![e4]))));
    assert(actions =~= seq![r0.next(e0).1] + (seq![r1.next(e1).1] + (seq![r2.next(e2).1] + (
    seq![r3.next(e3).1] + seq![r4.next(e4).1]))));
    lemma_serves(run, places, seq![e0, e1, e2, e3, e4], actions, len);
}

/// A response that is nothing but a status, filled up with zeros.
pub open spec fn status_only(status: u8, len: nat) -> Seq<u8> {
    Seq::new(
        len,
        |i: int|
            if i == 0 {
                status
            } else {
                0
            },
    )
}

proof fn lemma_header(header: Seq<u8>)
    requires
        header.len() == 8,
    ensures
        queue::msg_type(header) == layout::u16_at(header, 0),
{
    layout::lemma_u16_found(header, 0);
}

proof fn lemma_request(request: Seq<u8>)
    requires
        request.len() == 16,
    ensures
        queue::clock_id(request) == layout::u16_at(request, 8),
        queue::hw_counter(request) == request[10],
{
    layout::lemma_u16_found(request, 8);
}

proof fn lemma_zeros()
    ensures
        le::le_bytes(0, 8) =~= seq![0u8, 0, 0, 0, 0, 0, 0, 0],
        le::le_bytes(2, 2) =~= seq![2u8, 0],
{
    reveal_with_fuel(le::le_bytes, 9);
}

/// A request for the number of clocks (0x1000) is answered from its header alone: success,
/// and two clocks.
pub proof fn law_cfg_is_answered(run: QueueRun, places: Places, header: Vec<u8>)
    requires
        run.state is Chain,
        header@.len() == 8,
        layout::u16_at(header@, 0) == 0x1000,
    ensures
        serves(
            run,
            places,
            seq![QueueEvent::MemoryRead { bytes: header }],
            seq![
                Action::WriteMemory {
                    addr: places.response,
                    bytes: seq![0u8, 0, 0, 0, 0, 0, 0, 0, 2, 0, 0, 0, 0, 0, 0, 0],
                },
            ],
            16,
        ),
{
    lemma_header(header@);
    lemma_zeros();
    let e0 = QueueEvent::MemoryRead { bytes: header };
    let r0 = run.at(QueueState::Header { request: places.request, response: places.response });
    assert(queue::header_response(0x1000) =~= seq![
        0u8,
        0,
        0,
        0,
        0,
        0,
        0,
        0,
        2,
        0,
        0,
        0,
        0,
        0,
        0,
        0,
    ]);
    lemma_serves_1(run, places, e0, 16);
}

/// Any other message than the five that the device knows is turned down from its
/// header alone, with a header that says it is not supported.
pub proof fn law_unknown_messages_are_turned_down(run: QueueRun, places: Places, header: Vec<u8>)
    requires
        run.state is Chain,
        header@.len() == 8,
        layout::u16_at(header@, 0) != 1,
        layout::u16_at(header@, 0) != 2,
        layout::u16_at(header@, 0) != 0x1000,
        layout::u16_at(header@, 0) != 0x1001,
        layout::u16_at(header@, 0) != 0x1002,
    ensures
        serves(
            run,
            places,
            seq![QueueEvent::MemoryRead { bytes: header }],
            seq![Action::WriteMemory { addr: places.response, bytes: status_only(2, 8) }],
            8,
        ),
{
    lemma_header(header@);
    let e0 = QueueEvent::MemoryRead { bytes: header };
    assert(queue::header_response(queue::msg_type(header@)) =~= status_only(2, 8));
    lemma_serves_1(run, places, e0, 8);
}

/// A request for what a clock is (0x1001): clock 0 is UTC (type 0) and clock 1 is
/// monotonic (type 2), with nothing said on leap seconds and no alarm; of any other
/// number there is no clock.
pub proof fn law_clock_cap_is_answered(
    run: QueueRun,
    places: Places,
    header: Vec<u8>,
    request: Vec<u8>,
)
    requires
        run.state is Chain,
        header@.len() == 8,
        request@.len() == 16,
        layout::u16_at(header@, 0) == 0x1001,
    ensures
        ({
            let clock = layout::u16_at(request@, 8);
            serves(
                run,
                places,
                seq![
                    QueueEvent::MemoryRead { bytes: header },
                    QueueEvent::MemoryRead { bytes: request },
                ],
                seq![
                    Action::ReadMemory { addr: places.request, size: 16 },
                    Action::WriteMemory {
                        addr: places.response,
                        bytes: if clock == 0 {
                            status_only(0, 16)
                        } else if clock == 1 {
                            seq![0u8, 0, 0, 0, 0, 0, 0, 0, 2, 0, 0, 0, 0, 0, 0, 0]
                        } else {
                            status_only(3, 16)
                        },
                    },
                ],
                16,
            )
        }),
{
    lemma_header(header@);
    lemma_request(request@);
    let clock = queue::clock_id(request@);
    let e0 = QueueEvent::MemoryRead { bytes: header };
    let e1 = QueueEvent::MemoryRead { bytes: request };
    assert(super::handlers::clock_cap_response(clock).wire() =~= if clock == 0 {
        status_only(0, 16)
    } else if clock == 1 {
        seq![0u8, 0, 0, 0, 0, 0, 0, 0, 2, 0, 0, 0, 0, 0, 0, 0]
    } else {
        status_only(3, 16)
    });
    lemma_serves_2(run, places, e0, e1, 16);
}

/// A request for whether a clock can be read together with a counter (0x1002) is always
/// answered with success. The answer is yes exactly where the host has a TSC, the clock
/// is 0 or 1, and the counter is the x86 TSC (1).
pub proof fn law_cross_cap_is_answered(
    run: QueueRun,
    places: Places,
    header: Vec<u8>,
    request: Vec<u8>,
)
    requires
        run.state is Chain,
        header@.len() == 8,
        request@.len() == 16,
        layout::u16_at(header@, 0) == 0x1002,
    ensures
        serves(
            run,
            places,
            seq![
                QueueEvent::MemoryRead { bytes: header },
                QueueEvent::MemoryRead { bytes: request },
            ],
            seq![
                Action::ReadMemory { addr: places.request, size: 16 },
                Action::WriteMemory {
                    addr: places.response,
                    bytes: if run.tsc && layout::u16_at(request@, 8) <= 1 && request@[10] == 1 {
                        seq![0u8, 0, 0, 0, 0, 0, 0, 0, 1, 0, 0, 0, 0, 0, 0, 0]
                    } else {
                        status_only(0, 16)
                    },
                },
            ],
            16,
        ),
{
    lemma_header(header@);
    lemma_request(request@);
    let clock = queue::clock_id(request@);
    let e0 = QueueEvent::MemoryRead { bytes: header };
    let e1 = QueueEvent::MemoryRead { bytes: request };
    assert(super::tsc::cross_cap_response(clock, request@[10]).wire() =~= if clock <= 1
        && request@[10] == 1 {
        seq![0u8, 0, 0, 0, 0, 0, 0, 0, 1, 0, 0, 0, 0, 0, 0, 0]
    } else {
        status_only(0, 16)
    });
    assert(super::no_tsc::cross_cap_response().wire() =~= status_only(0, 16));
    lemma_serves_2(run, places, e0, e1, 16);
}

/// A request to read a clock (1) for clock 0 or 1 reads the clock that was asked for,
/// once: `CLOCK_REALTIME`, which is POSIX clock 0, for clock 0, and `CLOCK_MONOTONIC`,
/// which is POSIX clock 1, for clock 1. What the clock said is the answer, in
/// nanoseconds; where it could not be read, the answer is an I/O error and no reading.
pub proof fn law_read_is_of_the_clock_asked_for(
    run: QueueRun,
    places: Places,
    header: Vec<u8>,
    request: Vec<u8>,
    reading: Result<u64, ()>,
) -> (response: Seq<u8>)
    requires
        run.state is Chain,
        header@.len() == 8,
        request@.len() == 16,
        layout::u16_at(header@, 0) == 1,
        layout::u16_at(request@, 8) <= 1,
    ensures
        serves(
            run,
            places,
            seq![
                QueueEvent::MemoryRead { bytes: header },
                QueueEvent::MemoryRead { bytes: request },
                QueueEvent::ClockRead { reading },
            ],
            seq![
                Action::ReadMemory { addr: places.request, size: 16 },
                Action::ReadClock { clock: layout::u16_at(request@, 8) as i32 },
                Action::WriteMemory { addr: places.response, bytes: response },
            ],
            16,
        ),
        response.len() == 16,
        match reading {
            Ok(ns) => response.subrange(0, 8) == status_only(0, 8) && layout::u64_at(response, 8)
                == ns,
            Err(_) => response == status_only(5, 16),
        },
{
    lemma_header(header@);
    lemma_request(request@);
    lemma_zeros();
    let resp = super::handlers::reading_response(reading);
    let response = resp.wire();
    layout::lemma_read_response(resp);
    let e0 = QueueEvent::MemoryRead { bytes: header };
    let e1 = QueueEvent::MemoryRead { bytes: request };
    let e2 = QueueEvent::ClockRead { reading };
    assert(response.subrange(0, 8) =~= resp.head.wire());
    assert(resp.head.wire() =~= status_only(resp.head.status, 8));
    if reading is Err {
        assert(response =~= status_only(5, 16));
    }
    lemma_serves_3(run, places, e0, e1, e2, 16);
    response
}

/// A request to read another clock than 0 and 1 touches no clock: there is no such
/// clock, and no reading.
pub proof fn law_read_of_another_clock_is_turned_down(
    run: QueueRun,
    places: Places,
    header: Vec<u8>,
    request: Vec<u8>,
)
    requires
        run.state is Chain,
        header@.len() == 8,
        request@.len() == 16,
        layout::u16_at(header@, 0) == 1,
        layout::u16_at(request@, 8) > 1,
    ensures
        serves(
            run,
            places,
            seq![
                QueueEvent::MemoryRead { bytes: header },
                QueueEvent::MemoryRead { bytes: request },
            ],
            seq![
                Action::ReadMemory { addr: places.request, size: 16 },
                Action::WriteMemory { addr: places.response, bytes: status_only(3, 16) },
            ],
            16,
        ),
{
    lemma_header(header@);
    lemma_request(request@);
    lemma_zeros();
    let e0 = QueueEvent::MemoryRead { bytes: header };
    let e1 = QueueEvent::MemoryRead { bytes: request };
    let r0 = run.at(QueueState::Header { request: places.request, response: places.response });
    let (r2, last) = r0.next(e0).0.next(e1);
    assert(last->WriteMemory_bytes =~= status_only(3, 16));
    lemma_serves_2(run, places, e0, e1, 16);
}

/// A request to read a clock together with the x86 TSC (2), for clock 0 or 1 on a host
/// with a TSC, reads the counter, then the clock that was asked for, then the counter
/// again: `CLOCK_REALTIME`, which is POSIX clock 0, for clock 0, and `CLOCK_MONOTONIC`,
/// which is POSIX clock 1, for clock 1. The answer is what the clock said, and the
/// midpoint of the two counter readings, rounded down.
pub proof fn law_cross_read_is_of_the_clock_asked_for(
    run: QueueRun,
    places: Places,
    header: Vec<u8>,
    request: Vec<u8>,
    tsc1: u64,
    ns: u64,
    tsc2: u64,
) -> (response: Seq<u8>)
    requires
        run.state is Chain,
        run.tsc,
        header@.len() == 8,
        request@.len() == 16,
        layout::u16_at(header@, 0) == 2,
        layout::u16_at(request@, 8) <= 1,
        request@[10] == 1,
    ensures
        serves(
            run,
            places,
            seq![
                QueueEvent::MemoryRead { bytes: header },
                QueueEvent::MemoryRead { bytes: request },
                QueueEvent::CounterRead { cycles: tsc1 },
                QueueEvent::ClockRead { reading: Ok(ns) },
                QueueEvent::CounterRead { cycles: tsc2 },
            ],
            seq![
                Action::ReadMemory { addr: places.request, size: 16 },
                Action::ReadCounter,
                Action::ReadClock { clock: layout::u16_at(request@, 8) as i32 },
                Action::ReadCounter,
                Action::WriteMemory { addr: places.response, bytes: response },
            ],
            24,
        ),
        response.len() == 24,
        response.subrange(0, 8) == status_only(0, 8),
        layout::u64_at(response, 8) == ns,
        2 * layout::u64_at(response, 16) <= tsc1 + tsc2 <= 2 * layout::u64_at(response, 16) + 1,
{
    lemma_header(header@);
    lemma_request(request@);
    let m = super::tsc::midpoint(tsc1, tsc2);
    let resp = super::tsc::cross_response(Ok((ns, m)));
    let response = resp.wire();
    layout::lemma_cross_response(resp);
    assert(response.subrange(0, 8) =~= resp.head.wire());
    assert(resp.head.wire() =~= status_only(0, 8));
    let e0 = QueueEvent::MemoryRead { bytes: header };
    let e1 = QueueEvent::MemoryRead { bytes: request };
    let e2 = QueueEvent::CounterRead { cycles: tsc1 };
    let e3 = QueueEvent::ClockRead { reading: Ok(ns) };
    let e4 = QueueEvent::CounterRead { cycles: tsc2 };
    lemma_serves_5(run, places, e0, e1, e2, e3, e4, 24);
    response
}

/// Where the clock cannot be read, a request to read it together with the TSC ends in an
/// I/O error, without readings and without a second look at the counter.
pub proof fn law_failed_cross_read_is_an_error(
    run: QueueRun,
    places: Places,
    header: Vec<u8>,
    request: Vec<u8>,
    tsc1: u64,
)
    requires
        run.state is Chain,
        run.tsc,
        header@.len() == 8,
        request@.len() == 16,
        layout::u16_at(header@, 0) == 2,
        layout::u16_at(request@, 8) <= 1,
        request@[10] == 1,
    ensures
        serves(
            run,
            places,
            seq![
                QueueEvent::MemoryRead { bytes: header },
                QueueEvent::MemoryRead { bytes: request },
                QueueEvent::CounterRead { cycles: tsc1 },
                QueueEvent::ClockRead { reading: Err(()) },
            ],
            seq![
                Action::ReadMemory { addr: places.request, size: 16 },
                Action::ReadCounter,
                Action::ReadClock { clock: layout::u16_at(request@, 8) as i32 },
                Action::WriteMemory { addr: places.response, bytes: status_only(5, 24) },
            ],
            24,
        ),
{
    lemma_header(header@);
    lemma_request(request@);
    lemma_zeros();
    assert(super::tsc::cross_response(Err(())).wire() =~= status_only(5, 24));
    let e0 = QueueEvent::MemoryRead { bytes: header };
    let e1 = QueueEvent::MemoryRead { bytes: request };
    let e2 = QueueEvent::CounterRead { cycles: tsc1 };
    let e3 = QueueEvent::ClockRead { reading: Err(()) };
    lemma_serves_4(run, places, e0, e1, e2, e3, 24);
}

/// A request to read a clock together with a counter touches neither where it cannot be
/// served: without a TSC, or for another counter than the TSC, it is not supported,
/// whatever the clock; and with the TSC asked for, there is no other clock than 0 and 1.
pub proof fn law_cross_read_is_turned_down(
    run: QueueRun,
    places: Places,
    header: Vec<u8>,
    request: Vec<u8>,
)
    requires
        run.state is Chain,
        header@.len() == 8,
        request@.len() == 16,
        layout::u16_at(header@, 0) == 2,
        !run.tsc || request@[10] != 1 || layout::u16_at(request@, 8) > 1,
    ensures
        serves(
            run,
            places,
            seq![
                QueueEvent::MemoryRead { bytes: header },
                QueueEvent::MemoryRead { bytes: request },
            ],
            seq![
                Action::ReadMemory { addr: places.request, size: 16 },
                Action::WriteMemory {
                    addr: places.response,
                    bytes: if run.tsc && request@[10] == 1 {
                        status_only(3, 24)
                    } else {
                        status_only(2, 24)
                    },
                },
            ],
            24,
        ),
{
    lemma_header(header@);
    lemma_request(request@);
    lemma_zeros();
    assert(super::tsc::no_cross_reading(2).wire() =~= status_only(2, 24));
    assert(super::tsc::no_cross_reading(3).wire() =~= status_only(3, 24));
    assert(super::no_tsc::cross_response().wire() =~= status_only(2, 24));
    let e0 = QueueEvent::MemoryRead { bytes: header };
    let e1 = QueueEvent::MemoryRead { bytes: request };
    lemma_serves_2(run, places, e0, e1, 24);
}

} // verus!
