use seccompiler::SeccompAction;
use vm_memory::{GuestAddress, GuestMemoryError};
use vmm_models::rtc::clock::{clock_gettime_ns, clock_id_to_posix, clock_id_to_type};
use vmm_models::rtc::device::{Rtc, RtcState, VirtioCommon};
use vmm_models::rtc::error::Error;
use vmm_models::rtc::events::{handle_event, EventAction, EventFailure, EventStep};
use vmm_models::rtc::handlers::{
    finish_read, handle_cfg, handle_clock_cap, handle_read, resp_head, ReadStep,
};
use vmm_models::rtc::no_tsc;
use vmm_models::rtc::queue::{QueueAction, QueueEvent, QueueRun};
use vmm_models::rtc::tsc;
use vmm_models::rtc::tsc::CrossStep;
use vmm_models::rtc::wire::{
    VirtioRtcConfig, VirtioRtcReqClockCap, VirtioRtcReqCrossCap, VirtioRtcReqHead,
    VirtioRtcReqRead, VirtioRtcReqReadCross,
};
use vmm_sys_util::eventfd::EventFd;

fn device(iommu: bool, state: Option<RtcState>) -> Rtc {
    Rtc::new(
        "_rtc0".to_string(),
        iommu,
        SeccompAction::Trap,
        EventFd::new(0).unwrap(),
        state,
    )
    .unwrap()
}

fn request(msg_type: u16, clock_id: u16, hw_counter: u8) -> Vec<u8> {
    let mut bytes = vec![0xeeu8; 16];
    bytes[0..2].copy_from_slice(&msg_type.to_le_bytes());
    bytes[8..10].copy_from_slice(&clock_id.to_le_bytes());
    bytes[10] = hw_counter;
    bytes
}

/// Takes a run to the request's header.
fn opened(tsc: bool) -> QueueRun {
    let mut run = QueueRun::new(tsc);
    assert!(matches!(run.process_queue(QueueEvent::Chain), QueueAction::NextDescriptor));
    assert!(matches!(
        run.process_queue(QueueEvent::Descriptor { addr: 0x1000, len: 16, write_only: false }),
        QueueAction::Translate { addr: 0x1000, len: 16 }
    ));
    assert!(matches!(
        run.process_queue(QueueEvent::Translated { addr: 0x1100 }),
        QueueAction::NextDescriptor
    ));
    assert!(matches!(
        run.process_queue(QueueEvent::Descriptor { addr: 0x2000, len: 24, write_only: true }),
        QueueAction::Translate { addr: 0x2000, len: 24 }
    ));
    assert!(matches!(
        run.process_queue(QueueEvent::Translated { addr: 0x2200 }),
        QueueAction::ReadMemory { addr: 0x1100, size: 8 }
    ));
    run
}

/// Hands a request to an opened run: the action after it was read.
fn read_request(run: &mut QueueRun, bytes: &[u8]) -> QueueAction {
    let action = run.process_queue(QueueEvent::MemoryRead { bytes: bytes[..8].to_vec() });
    match action {
        QueueAction::ReadMemory { addr, size } => {
            assert_eq!((addr, size), (0x1100, 16));
            run.process_queue(QueueEvent::MemoryRead { bytes: bytes.to_vec() })
        }
        other => other,
    }
}

/// Takes a run from the response to the next chain: the response.
fn closed(run: &mut QueueRun, action: QueueAction) -> Vec<u8> {
    let bytes = match action {
        QueueAction::WriteMemory { addr, bytes } => {
            assert_eq!(addr, 0x2200);
            bytes
        }
        other => panic!("no response: {other:?}"),
    };
    match run.process_queue(QueueEvent::MemoryWritten) {
        QueueAction::AddUsed { len } => assert_eq!(len as usize, bytes.len()),
        other => panic!("chain not given back: {other:?}"),
    }
    assert!(matches!(run.process_queue(QueueEvent::UsedAdded), QueueAction::PopChain));
    bytes
}

#[test]
fn clocks_map_to_posix_clocks_and_types() {
    assert_eq!(clock_id_to_posix(0), Some(libc::CLOCK_REALTIME));
    assert_eq!(clock_id_to_posix(1), Some(libc::CLOCK_MONOTONIC));
    assert_eq!(clock_id_to_posix(2), None);
    assert_eq!(clock_id_to_posix(u16::MAX), None);
    assert_eq!(clock_id_to_type(0), Some(0));
    assert_eq!(clock_id_to_type(1), Some(2));
    assert_eq!(clock_id_to_type(2), None);
}

#[test]
fn clock_readings_are_nanoseconds() {
    assert_eq!(clock_gettime_ns(0, 1_700_000_000, 123), Ok(1_700_000_000_000_000_123));
    assert_eq!(clock_gettime_ns(0, 0, 0), Ok(0));
    assert_eq!(clock_gettime_ns(-1, 5, 5), Err(()));
}

#[test]
fn headers_hold_the_status() {
    assert_eq!(resp_head(5).to_bytes(), vec![5, 0, 0, 0, 0, 0, 0, 0]);
}

#[test]
fn cfg_response_on_the_wire() {
    assert_eq!(
        handle_cfg().to_bytes(),
        vec![0, 0, 0, 0, 0, 0, 0, 0, 2, 0, 0, 0, 0, 0, 0, 0]
    );
}

#[test]
fn clock_cap_response_on_the_wire() {
    assert_eq!(
        handle_clock_cap(1).to_bytes(),
        vec![0, 0, 0, 0, 0, 0, 0, 0, 2, 0, 0, 0, 0, 0, 0, 0]
    );
    assert_eq!(handle_clock_cap(0).to_bytes(), vec![0; 16]);
    let mut unknown = vec![0; 16];
    unknown[0] = 3;
    assert_eq!(handle_clock_cap(2).to_bytes(), unknown);
}

#[test]
fn cross_cap_needs_a_clock_and_the_tsc() {
    assert_eq!(tsc::handle_cross_cap(0, 1).flags, 1);
    assert_eq!(tsc::handle_cross_cap(1, 1).flags, 1);
    assert_eq!(tsc::handle_cross_cap(2, 1).flags, 0);
    assert_eq!(tsc::handle_cross_cap(0, 0).flags, 0);
    assert_eq!(tsc::handle_cross_cap(2, 1).head.status, 0);
    assert_eq!(no_tsc::handle_cross_cap(0, 1).to_bytes(), vec![0; 16]);
    let mut yes = vec![0; 16];
    yes[8] = 1;
    assert_eq!(tsc::handle_cross_cap(0, 1).to_bytes(), yes);
}

#[test]
fn reads_go_to_the_clock_or_fail() {
    assert!(matches!(handle_read(0), ReadStep::Clock(c) if c == libc::CLOCK_REALTIME));
    assert!(matches!(handle_read(1), ReadStep::Clock(c) if c == libc::CLOCK_MONOTONIC));
    match handle_read(7) {
        ReadStep::Answer(resp) => {
            let mut bytes = vec![0; 16];
            bytes[0] = 3;
            assert_eq!(resp.to_bytes(), bytes);
        }
        ReadStep::Clock(_) => panic!("no such clock"),
    }
    assert_eq!(
        finish_read(Ok(0x0102_0304_0506_0708)).to_bytes(),
        vec![0, 0, 0, 0, 0, 0, 0, 0, 8, 7, 6, 5, 4, 3, 2, 1]
    );
    assert_eq!(finish_read(Err(())).head.status, 5);
    assert_eq!(finish_read(Err(())).clock_reading, 0);
}

#[test]
fn cross_reads_go_to_the_clock_or_fail() {
    assert!(matches!(tsc::handle_read_cross(1, 1), CrossStep::Clock(c) if c == libc::CLOCK_MONOTONIC));
    assert!(matches!(tsc::handle_read_cross(9, 1), CrossStep::Answer(r) if r.head.status == 3));
    assert!(matches!(tsc::handle_read_cross(9, 0), CrossStep::Answer(r) if r.head.status == 2));
    assert_eq!(no_tsc::handle_read_cross(0, 1).head.status, 2);
    assert_eq!(
        tsc::finish_read_cross(Ok((1, 0x0203))).to_bytes(),
        vec![0, 0, 0, 0, 0, 0, 0, 0, 1, 0, 0, 0, 0, 0, 0, 0, 3, 2, 0, 0, 0, 0, 0, 0]
    );
    let failed = tsc::finish_read_cross(Err(()));
    assert_eq!((failed.head.status, failed.clock_reading, failed.counter_cycles), (5, 0, 0));
}

#[test]
fn counter_value_is_the_midpoint() {
    assert_eq!(tsc::clock_gettime_with_tsc(100, Ok(7), 104), Ok((7, 102)));
    assert_eq!(tsc::clock_gettime_with_tsc(100, Ok(7), 103), Ok((7, 101)));
    assert_eq!(
        tsc::clock_gettime_with_tsc(u64::MAX, Ok(7), 3),
        Ok((7, 0x8000_0000_0000_0001))
    );
    assert_eq!(tsc::clock_gettime_with_tsc(100, Err(()), 104), Err(()));
}

#[test]
fn counter_value_of_high_readings_is_the_midpoint() {
    assert_eq!(
        tsc::clock_gettime_with_tsc(u64::MAX - 15, Ok(7), u64::MAX - 13),
        Ok((7, 0xffff_ffff_ffff_fff1))
    );
    assert_eq!(tsc::clock_gettime_with_tsc(1 << 63, Ok(7), 1 << 63), Ok((7, 1 << 63)));
    assert_eq!(
        tsc::clock_gettime_with_tsc(u64::MAX, Ok(7), u64::MAX),
        Ok((7, u64::MAX))
    );
}

#[test]
fn requests_are_read_off_the_wire() {
    let head = VirtioRtcReqHead::from_bytes(&[0x02, 0x10, 1, 2, 3, 4, 5, 6]);
    assert_eq!(head.msg_type, 0x1002);
    assert_eq!(head.reserved, [1, 2, 3, 4, 5, 6]);
    let bytes = request(1, 0x0201, 9);
    assert_eq!(VirtioRtcReqRead::from_bytes(&bytes).clock_id, 0x0201);
    assert_eq!(VirtioRtcReqClockCap::from_bytes(&bytes).clock_id, 0x0201);
    let cross = VirtioRtcReqReadCross::from_bytes(&bytes);
    assert_eq!((cross.head.msg_type, cross.clock_id, cross.hw_counter), (1, 0x0201, 9));
    let cap = VirtioRtcReqCrossCap::from_bytes(&bytes);
    assert_eq!((cap.clock_id, cap.hw_counter, cap.reserved), (0x0201, 9, [0xee; 5]));
}

#[test]
fn empty_queue_reports_nothing_used() {
    let mut run = QueueRun::new(true);
    assert!(matches!(
        run.process_queue(QueueEvent::NoChain),
        QueueAction::Finish { result: Ok(false) }
    ));
    assert!(matches!(run.process_queue(QueueEvent::Chain), QueueAction::Unexpected));
}

#[test]
fn queue_answers_capability_requests() {
    for (bytes, expected) in [
        (request(0x1000, 0, 0), handle_cfg().to_bytes()),
        (request(0x1001, 1, 0), handle_clock_cap(1).to_bytes()),
        (request(0x1001, 5, 0), handle_clock_cap(5).to_bytes()),
        (request(0x1002, 1, 1), tsc::handle_cross_cap(1, 1).to_bytes()),
        (request(0x1002, 1, 2), tsc::handle_cross_cap(1, 2).to_bytes()),
    ] {
        let mut run = opened(true);
        let action = read_request(&mut run, &bytes);
        assert_eq!(closed(&mut run, action), expected);
        assert!(matches!(
            run.process_queue(QueueEvent::NoChain),
            QueueAction::Finish { result: Ok(true) }
        ));
    }
}

#[test]
fn queue_processes_all_available_chains() {
    let mut run = QueueRun::new(true);
    for _ in 0..3 {
        run.process_queue(QueueEvent::Chain);
        run.process_queue(QueueEvent::Descriptor { addr: 0x1000, len: 8, write_only: false });
        run.process_queue(QueueEvent::Translated { addr: 0x1100 });
        run.process_queue(QueueEvent::Descriptor { addr: 0x2000, len: 16, write_only: true });
        run.process_queue(QueueEvent::Translated { addr: 0x2200 });
        let action = read_request(&mut run, &request(0x1000, 0, 0));
        assert_eq!(closed(&mut run, action), handle_cfg().to_bytes());
    }
    assert!(matches!(
        run.process_queue(QueueEvent::NoChain),
        QueueAction::Finish { result: Ok(true) }
    ));
}

#[test]
fn queue_turns_down_unknown_messages() {
    for msg_type in [0u16, 3, 0x0fff, 0x1003, 0xffff] {
        let mut run = opened(true);
        let action = read_request(&mut run, &request(msg_type, 0, 1));
        assert_eq!(closed(&mut run, action), vec![2, 0, 0, 0, 0, 0, 0, 0]);
    }
}

#[test]
fn queue_reads_clocks() {
    let mut run = opened(true);
    let action = read_request(&mut run, &request(1, 1, 0));
    assert!(matches!(action, QueueAction::ReadClock { clock } if clock == libc::CLOCK_MONOTONIC));
    let action = run.process_queue(QueueEvent::ClockRead { reading: Ok(258) });
    let response = closed(&mut run, action);
    assert_eq!(response, vec![0, 0, 0, 0, 0, 0, 0, 0, 2, 1, 0, 0, 0, 0, 0, 0]);

    let mut run = opened(true);
    read_request(&mut run, &request(1, 0, 0));
    let action = run.process_queue(QueueEvent::ClockRead { reading: Err(()) });
    let mut failed = vec![0; 16];
    failed[0] = 5;
    assert_eq!(closed(&mut run, action), failed);

    let mut run = opened(true);
    let action = read_request(&mut run, &request(1, 2, 0));
    assert_eq!(closed(&mut run, action)[0], 3);
}

#[test]
fn queue_reads_clocks_with_the_counter() {
    let mut run = opened(true);
    assert!(matches!(read_request(&mut run, &request(2, 0, 1)), QueueAction::ReadCounter));
    let action = run.process_queue(QueueEvent::CounterRead { cycles: 1000 });
    assert!(matches!(action, QueueAction::ReadClock { clock } if clock == libc::CLOCK_REALTIME));
    let action = run.process_queue(QueueEvent::ClockRead { reading: Ok(5) });
    assert!(matches!(action, QueueAction::ReadCounter));
    let action = run.process_queue(QueueEvent::CounterRead { cycles: 1010 });
    let response = closed(&mut run, action);
    assert_eq!(response.len(), 24);
    assert_eq!(response[8..16], 5u64.to_le_bytes());
    assert_eq!(response[16..24], 1005u64.to_le_bytes());

    let mut run = opened(true);
    read_request(&mut run, &request(2, 0, 1));
    run.process_queue(QueueEvent::CounterRead { cycles: 1000 });
    let action = run.process_queue(QueueEvent::ClockRead { reading: Err(()) });
    let mut failed = vec![0; 24];
    failed[0] = 5;
    assert_eq!(closed(&mut run, action), failed);
}

#[test]
fn queue_without_a_tsc_has_no_cross_timestamps() {
    let mut run = opened(false);
    let action = read_request(&mut run, &request(2, 0, 1));
    let mut refused = vec![0; 24];
    refused[0] = 2;
    assert_eq!(closed(&mut run, action), refused);
    let mut run = opened(false);
    let action = read_request(&mut run, &request(0x1002, 0, 1));
    assert_eq!(closed(&mut run, action), vec![0; 16]);
}

#[test]
fn request_kind_is_that_of_the_header_read_first() {
    let mut run = opened(true);
    let header = request(0x1001, 0, 0)[..8].to_vec();
    run.process_queue(QueueEvent::MemoryRead { bytes: header });
    let action = run.process_queue(QueueEvent::MemoryRead { bytes: request(1, 1, 0) });
    assert_eq!(closed(&mut run, action), handle_clock_cap(1).to_bytes());
}

#[test]
fn malformed_chains_end_the_run() {
    let mut run = QueueRun::new(true);
    run.process_queue(QueueEvent::Chain);
    assert!(matches!(
        run.process_queue(QueueEvent::NoDescriptor),
        QueueAction::Finish { result: Err(Error::DescriptorChainTooShort) }
    ));
    let mut run = QueueRun::new(true);
    run.process_queue(QueueEvent::Chain);
    assert!(matches!(
        run.process_queue(QueueEvent::Descriptor { addr: 0, len: 0, write_only: true }),
        QueueAction::Finish {
            result: Err(Error::InvalidDescriptor { expected: "readable request" })
        }
    ));
    for (event, long) in [
        (QueueEvent::NoDescriptor, false),
        (QueueEvent::Descriptor { addr: 0, len: 0, write_only: false }, true),
    ] {
        let mut run = QueueRun::new(true);
        run.process_queue(QueueEvent::Chain);
        run.process_queue(QueueEvent::Descriptor { addr: 0, len: 8, write_only: false });
        run.process_queue(QueueEvent::Translated { addr: 0 });
        match run.process_queue(event) {
            QueueAction::Finish { result: Err(Error::DescriptorChainTooShort) } => assert!(!long),
            QueueAction::Finish { result: Err(Error::InvalidDescriptor { expected }) } => {
                assert!(long);
                assert_eq!(expected, "writable response");
            }
            other => panic!("{other:?}"),
        }
    }
}

#[test]
fn failed_accesses_end_the_run() {
    let failed = || GuestMemoryError::InvalidGuestAddress(GuestAddress(7));
    let mut run = opened(true);
    assert!(matches!(
        run.process_queue(QueueEvent::ReadFailed { error: failed() }),
        QueueAction::Finish {
            result: Err(Error::GuestMemoryRead(GuestMemoryError::InvalidGuestAddress(
                GuestAddress(7)
            )))
        }
    ));
    let mut run = opened(true);
    run.process_queue(QueueEvent::MemoryRead { bytes: request(1, 0, 0)[..8].to_vec() });
    assert!(matches!(
        run.process_queue(QueueEvent::ReadFailed { error: failed() }),
        QueueAction::Finish { result: Err(Error::GuestMemoryRead(_)) }
    ));
    let mut run = opened(true);
    read_request(&mut run, &request(0x1000, 0, 0));
    assert!(matches!(
        run.process_queue(QueueEvent::WriteFailed { error: failed() }),
        QueueAction::Finish { result: Err(Error::GuestMemoryWrite(_)) }
    ));
    let mut run = opened(true);
    read_request(&mut run, &request(0x1000, 0, 0));
    run.process_queue(QueueEvent::MemoryWritten);
    assert!(matches!(
        run.process_queue(QueueEvent::AddUsedFailed {
            queue_error: virtio_queue::Error::InvalidDescriptorIndex
        }),
        QueueAction::Finish {
            result: Err(Error::QueueAddUsed(virtio_queue::Error::InvalidDescriptorIndex))
        }
    ));
}

#[test]
fn events_out_of_turn_change_nothing() {
    let mut run = opened(true);
    assert!(matches!(run.process_queue(QueueEvent::UsedAdded), QueueAction::Unexpected));
    assert!(matches!(
        run.process_queue(QueueEvent::MemoryRead { bytes: vec![0; 7] }),
        QueueAction::Unexpected
    ));
    let action = read_request(&mut run, &request(0x1000, 0, 0));
    assert_eq!(closed(&mut run, action), handle_cfg().to_bytes());
}

#[test]
fn events_of_the_worker_thread() {
    assert_eq!(handle_event(EventStep::Received { data: 16 }), EventAction::Drain);
    assert_eq!(handle_event(EventStep::Received { data: 0x7_0010 }), EventAction::Drain);
    assert_eq!(
        handle_event(EventStep::Received { data: 17 }),
        EventAction::Fail { failure: EventFailure::Unexpected { ev_type: 17 } }
    );
    assert_eq!(handle_event(EventStep::Drained { ok: true }), EventAction::Process);
    assert_eq!(
        handle_event(EventStep::Drained { ok: false }),
        EventAction::Fail { failure: EventFailure::QueueEvent }
    );
    assert_eq!(handle_event(EventStep::Processed { used: Some(true) }), EventAction::Signal);
    assert_eq!(handle_event(EventStep::Processed { used: Some(false) }), EventAction::Done);
    assert_eq!(
        handle_event(EventStep::Processed { used: None }),
        EventAction::Fail { failure: EventFailure::ProcessQueue }
    );
    assert_eq!(handle_event(EventStep::Signalled { ok: true }), EventAction::Done);
    assert_eq!(
        handle_event(EventStep::Signalled { ok: false }),
        EventAction::Fail { failure: EventFailure::SignalUsedQueue }
    );
}

#[test]
fn new_devices_offer_no_alarms() {
    let rtc = device(false, None);
    assert_eq!(rtc.features(), 1 << 32);
    assert_eq!(rtc.device_type(), 44);
    assert_eq!(rtc.queue_max_sizes(), &[64]);
    assert_eq!(rtc.min_queues(), 1);
    assert_eq!(rtc.id(), "_rtc0");
    assert!(!rtc.paused());
    assert_eq!(rtc.state(), RtcState { avail_features: 1 << 32, acked_features: 0 });
    assert_eq!(device(true, None).features(), 1 << 32 | 1 << 33);
    assert_eq!(rtc.seccomp_action(), &SeccompAction::Trap);
    rtc.exit_evt().write(3).unwrap();
    assert_eq!(rtc.exit_evt().read().unwrap(), 3);
}

#[test]
fn restored_devices_keep_their_state() {
    let mut rtc = device(true, None);
    rtc.ack_features(1 << 33);
    let saved = rtc.state();
    let restored = device(false, Some(saved));
    assert_eq!(restored.state(), saved);
    assert_eq!(restored.features(), 1 << 32 | 1 << 33);
    assert!(restored.paused());
}

#[test]
fn only_offered_features_are_acknowledged() {
    let mut rtc = device(false, None);
    rtc.ack_features(u64::MAX);
    assert_eq!(rtc.state().acked_features, 1 << 32);
    let mut common = VirtioCommon {
        device_type: 44,
        queue_sizes: vec![64],
        avail_features: 0b1110,
        acked_features: 0b0010,
        min_queues: 1,
        paused: false,
    };
    common.ack_features(0b0101);
    assert_eq!(common.acked_features, 0b0110);
}

#[test]
fn configuration_space_reads() {
    let rtc = device(false, None);
    let mut data = [9u8; 6];
    rtc.read_config(0, &mut data);
    assert_eq!(data, [2, 0, 0, 0, 9, 9]);
    let mut data = [9u8; 2];
    rtc.read_config(3, &mut data);
    assert_eq!(data, [0, 9]);
    let mut data = [9u8; 2];
    rtc.read_config(4, &mut data);
    assert_eq!(data, [9, 9]);
    rtc.read_config(u64::MAX, &mut data);
    assert_eq!(data, [9, 9]);
    let mut data = [9u8; 1];
    rtc.read_config(0, &mut data);
    assert_eq!(data, [2]);
    rtc.read_config(1, &mut []);
    assert_eq!(
        VirtioRtcConfig { num_clocks: 0x0403_0201 }.to_bytes(),
        vec![1, 2, 3, 4]
    );
}
