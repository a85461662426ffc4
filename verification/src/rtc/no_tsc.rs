//! Cross-timestamps on hosts without an x86 TSC: none.
use super::handlers;
use super::wire::{
    VirtioRtcRespCrossCap, VirtioRtcRespReadCross, RESERVED_7, VIRTIO_RTC_S_EOPNOTSUPP,
    VIRTIO_RTC_S_OK,
};
use vstd::prelude::*;

verus! {

/// The response that no clock can be read together with a counter.
pub open spec fn cross_cap_response() -> VirtioRtcRespCrossCap {
    VirtioRtcRespCrossCap {
        head: handlers::head_with(VIRTIO_RTC_S_OK),
        flags: 0,
        reserved: RESERVED_7,
    }
}

/// The response that cross-timestamps are not supported.
pub open spec fn cross_response() -> VirtioRtcRespReadCross {
    VirtioRtcRespReadCross {
        head: handlers::head_with(VIRTIO_RTC_S_EOPNOTSUPP),
        clock_reading: 0,
        counter_cycles: 0,
    }
}

/// Says that no clock can be read together with a counter.
pub fn handle_cross_cap(_clock_id: u16, _hw_counter: u8) -> (resp: VirtioRtcRespCrossCap)
    ensures
        resp == cross_cap_response(),
{
    VirtioRtcRespCrossCap {
        head: handlers::resp_head(VIRTIO_RTC_S_OK),
        flags: 0,
        reserved: RESERVED_7,
    }
}

/// Turns down a request to read a clock together with a counter.
pub fn handle_read_cross(_clock_id: u16, _hw_counter: u8) -> (resp: VirtioRtcRespReadCross)
    ensures
        resp == cross_response(),
{
    VirtioRtcRespReadCross {
        head: handlers::resp_head(VIRTIO_RTC_S_EOPNOTSUPP),
        clock_reading: 0,
        counter_cycles: 0,
    }
}

} // verus!
