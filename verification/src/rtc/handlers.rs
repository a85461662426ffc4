//! Responses to requests.
use super::clock;
use super::wire::{
    VirtioRtcRespCfg, VirtioRtcRespClockCap, VirtioRtcRespHead, VirtioRtcRespRead, NUM_CLOCKS,
    RESERVED_5, RESERVED_6, RESERVED_7, VIRTIO_RTC_S_EIO, VIRTIO_RTC_S_ENODEV, VIRTIO_RTC_S_OK,
};
use vstd::prelude::*;

verus! {

/// The response header with a status.
pub open spec fn head_with(status: u8) -> VirtioRtcRespHead {
    VirtioRtcRespHead { status, reserved: RESERVED_7 }
}

/// The response that says how many clocks there are.
pub open spec fn cfg_response() -> VirtioRtcRespCfg {
    VirtioRtcRespCfg {
        head: head_with(VIRTIO_RTC_S_OK),
        num_clocks: NUM_CLOCKS,
        reserved: RESERVED_6,
    }
}

/// The response that says what a clock is: its type, without a statement on leap
/// seconds and without an alarm.
pub open spec fn clock_cap_response(clock_id: u16) -> VirtioRtcRespClockCap {
    let known = clock::clock_type(clock_id);
    VirtioRtcRespClockCap {
        head: head_with(
            if known is Some {
                VIRTIO_RTC_S_OK
            } else {
                VIRTIO_RTC_S_ENODEV
            },
        ),
        clock_type: if known is Some {
            known->Some_0
        } else {
            0
        },
        leap_second_smearing: 0,
        flags: 0,
        reserved: RESERVED_5,
    }
}

/// The response with a clock reading, or with why there is none.
pub open spec fn reading_response(reading: Result<u64, ()>) -> VirtioRtcRespRead {
    match reading {
        Ok(ns) => VirtioRtcRespRead { head: head_with(VIRTIO_RTC_S_OK), clock_reading: ns },
        Err(_) => VirtioRtcRespRead { head: head_with(VIRTIO_RTC_S_EIO), clock_reading: 0 },
    }
}

/// What is next for a request to read a clock.
pub enum ReadStep {
    /// The response, which needs no clock.
    Answer(VirtioRtcRespRead),
    /// The POSIX clock to read.
    Clock(libc::clockid_t),
}

/// What is next for a request to read a clock: the POSIX clock behind it, or the
/// response that there is no such clock.
pub open spec fn read_step(clock_id: u16) -> ReadStep {
    match clock::posix_clock(clock_id) {
        Some(id) => ReadStep::Clock(id),
        None => ReadStep::Answer(
            VirtioRtcRespRead { head: head_with(VIRTIO_RTC_S_ENODEV), clock_reading: 0 },
        ),
    }
}

/// The response header with a status.
pub fn resp_head(status: u8) -> (head: VirtioRtcRespHead)
    ensures
        head == head_with(status),
{
    VirtioRtcRespHead { status, reserved: RESERVED_7 }
}

/// Says how many clocks there are.
pub fn handle_cfg() -> (resp: VirtioRtcRespCfg)
    ensures
        resp == cfg_response(),
{
    VirtioRtcRespCfg {
        head: resp_head(VIRTIO_RTC_S_OK),
        num_clocks: NUM_CLOCKS,
        reserved: RESERVED_6,
    }
}

/// Says what a clock is.
pub fn handle_clock_cap(clock_id: u16) -> (resp: VirtioRtcRespClockCap)
    ensures
        resp == clock_cap_response(clock_id),
{
    match clock::clock_id_to_type(clock_id) {
        Some(clock_type) => VirtioRtcRespClockCap {
            head: resp_head(VIRTIO_RTC_S_OK),
            clock_type,
            leap_second_smearing: 0,
            flags: 0,
            reserved: RESERVED_5,
        },
        None => VirtioRtcRespClockCap {
            head: resp_head(VIRTIO_RTC_S_ENODEV),
            clock_type: 0,
            leap_second_smearing: 0,
            flags: 0,
            reserved: RESERVED_5,
        },
    }
}

/// Starts on a request to read a clock.
pub fn handle_read(clock_id: u16) -> (step: ReadStep)
    ensures
        step == read_step(clock_id),
{
    match clock::clock_id_to_posix(clock_id) {
        Some(id) => ReadStep::Clock(id),
        None => ReadStep::Answer(
            VirtioRtcRespRead { head: resp_head(VIRTIO_RTC_S_ENODEV), clock_reading: 0 },
        ),
    }
}

/// Answers a request to read a clock with what the clock said.
pub fn finish_read(reading: Result<u64, ()>) -> (resp: VirtioRtcRespRead)
    ensures
        resp == reading_response(reading),
{
    match reading {
        Ok(ns) => VirtioRtcRespRead { head: resp_head(VIRTIO_RTC_S_OK), clock_reading: ns },
        Err(_) => VirtioRtcRespRead { head: resp_head(VIRTIO_RTC_S_EIO), clock_reading: 0 },
    }
}

} // verus!
