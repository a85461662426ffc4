//! Cross-timestamps with the x86 TSC.
use super::clock;
use super::handlers;
use super::wire::{
    VirtioRtcRespCrossCap, VirtioRtcRespReadCross, RESERVED_7, VIRTIO_RTC_COUNTER_X86_TSC,
    VIRTIO_RTC_FLAG_CROSS_CAP, VIRTIO_RTC_S_EIO, VIRTIO_RTC_S_ENODEV, VIRTIO_RTC_S_EOPNOTSUPP,
    VIRTIO_RTC_S_OK,
};
use vstd::prelude::*;

verus! {

/// A clock can be read together with a counter.
pub open spec fn crossable(clock_id: u16, hw_counter: u8) -> bool {
    clock::posix_clock(clock_id) is Some && hw_counter == VIRTIO_RTC_COUNTER_X86_TSC
}

/// The response that says whether a clock can be read together with a counter.
pub open spec fn cross_cap_response(clock_id: u16, hw_counter: u8) -> VirtioRtcRespCrossCap {
    VirtioRtcRespCrossCap {
        head: handlers::head_with(VIRTIO_RTC_S_OK),
        flags: if crossable(clock_id, hw_counter) {
            VIRTIO_RTC_FLAG_CROSS_CAP
        } else {
            0
        },
        reserved: RESERVED_7,
    }
}

/// The response without a reading.
pub open spec fn no_cross_reading(status: u8) -> VirtioRtcRespReadCross {
    VirtioRtcRespReadCross {
        head: handlers::head_with(status),
        clock_reading: 0,
        counter_cycles: 0,
    }
}

/// The response with a clock reading and a counter value, or with why there is none.
pub open spec fn cross_response(reading: Result<(u64, u64), ()>) -> VirtioRtcRespReadCross {
    match reading {
        Ok((ns, cycles)) => VirtioRtcRespReadCross {
            head: handlers::head_with(VIRTIO_RTC_S_OK),
            clock_reading: ns,
            counter_cycles: cycles,
        },
        Err(_) => no_cross_reading(VIRTIO_RTC_S_EIO),
    }
}

/// What is next for a request to read a clock together with a counter.
pub enum CrossStep {
    /// The response, which needs no clock.
    Answer(VirtioRtcRespReadCross),
    /// The POSIX clock to read, between two readings of the TSC.
    Clock(libc::clockid_t),
}

/// What is next for a request to read a clock together with a counter. Another
/// counter than the TSC is turned down before the clock is looked at.
pub open spec fn cross_step(clock_id: u16, hw_counter: u8) -> CrossStep {
    if hw_counter != VIRTIO_RTC_COUNTER_X86_TSC {
        CrossStep::Answer(no_cross_reading(VIRTIO_RTC_S_EOPNOTSUPP))
    } else {
        match clock::posix_clock(clock_id) {
            Some(id) => CrossStep::Clock(id),
            None => CrossStep::Answer(no_cross_reading(VIRTIO_RTC_S_ENODEV)),
        }
    }
}

/// The counter value for two TSC readings: their midpoint, rounded down.
pub open spec fn midpoint(tsc1: u64, tsc2: u64) -> u64 {
    ((tsc1 + tsc2) / 2) as u64
}

/// The reading of a clock together with the TSC, from the clock's reading and the TSC
/// just before and just after it.
pub open spec fn cross_reading(tsc1: u64, reading: Result<u64, ()>, tsc2: u64) -> Result<
    (u64, u64),
    (),
> {
    match reading {
        Ok(ns) => Ok((ns, midpoint(tsc1, tsc2))),
        Err(_) => Err(()),
    }
}

/// Says whether a clock can be read together with a counter.
pub fn handle_cross_cap(clock_id: u16, hw_counter: u8) -> (resp: VirtioRtcRespCrossCap)
    ensures
        resp == cross_cap_response(clock_id, hw_counter),
{
    let supported = clock::clock_id_to_posix(clock_id).is_some() && hw_counter
        == VIRTIO_RTC_COUNTER_X86_TSC;
    VirtioRtcRespCrossCap {
        head: handlers::resp_head(VIRTIO_RTC_S_OK),
        flags: if supported {
            VIRTIO_RTC_FLAG_CROSS_CAP
        } else {
            0
        },
        reserved: RESERVED_7,
    }
}

/// Starts on a request to read a clock together with a counter.
pub fn handle_read_cross(clock_id: u16, hw_counter: u8) -> (step: CrossStep)
    ensures
        step == cross_step(clock_id, hw_counter),
{
    if hw_counter != VIRTIO_RTC_COUNTER_X86_TSC {
        return CrossStep::Answer(
            VirtioRtcRespReadCross {
                head: handlers::resp_head(VIRTIO_RTC_S_EOPNOTSUPP),
                clock_reading: 0,
                counter_cycles: 0,
            },
        );
    }
    match clock::clock_id_to_posix(clock_id) {
        Some(id) => CrossStep::Clock(id),
        None => CrossStep::Answer(
            VirtioRtcRespReadCross {
                head: handlers::resp_head(VIRTIO_RTC_S_ENODEV),
                clock_reading: 0,
                counter_cycles: 0,
            },
        ),
    }
}

/// The reading of a clock together with the TSC, from the clock's reading and the
/// TSC just before and just after it.
pub fn clock_gettime_with_tsc(tsc1: u64, reading: Result<u64, ()>, tsc2: u64) -> (cross: Result<
    (u64, u64),
    (),
>)
    ensures
        cross == cross_reading(tsc1, reading, tsc2),
{
    match reading {
        Ok(ns) => Ok((ns, ((tsc1 as u128 + tsc2 as u128) / 2) as u64)),
        Err(_) => Err(()),
    }
}

/// Answers a request to read a clock together with a counter with what they said.
pub fn finish_read_cross(reading: Result<(u64, u64), ()>) -> (resp: VirtioRtcRespReadCross)
    ensures
        resp == cross_response(reading),
{
    match reading {
        Ok((ns, cycles)) => VirtioRtcRespReadCross {
            head: handlers::resp_head(VIRTIO_RTC_S_OK),
            clock_reading: ns,
            counter_cycles: cycles,
        },
        Err(_) => VirtioRtcRespReadCross {
            head: handlers::resp_head(VIRTIO_RTC_S_EIO),
            clock_reading: 0,
            counter_cycles: 0,
        },
    }
}

} // verus!
