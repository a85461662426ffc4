//! The host's clocks.
use super::wire::{VIRTIO_RTC_CLOCK_MONOTONIC, VIRTIO_RTC_CLOCK_UTC};
use vstd::prelude::*;

verus! {

/// The POSIX wall clock, as Linux numbers it.
pub const POSIX_REALTIME: i32 = 0;

/// The POSIX monotonic clock, as Linux numbers it.
pub const POSIX_MONOTONIC: i32 = 1;

/// Nanoseconds in a second.
pub const NS_PER_SEC: u64 = 1_000_000_000;

/// The POSIX clock behind a clock of the device.
pub open spec fn posix_clock(clock_id: u16) -> Option<i32> {
    if clock_id == 0 {
        Some(POSIX_REALTIME)
    } else if clock_id == 1 {
        Some(POSIX_MONOTONIC)
    } else {
        None
    }
}

/// What kind of clock a clock of the device is.
pub open spec fn clock_type(clock_id: u16) -> Option<u8> {
    if clock_id == 0 {
        Some(VIRTIO_RTC_CLOCK_UTC)
    } else if clock_id == 1 {
        Some(VIRTIO_RTC_CLOCK_MONOTONIC)
    } else {
        None
    }
}

/// The constant `libc::CLOCK_REALTIME`, which is 0 on every Linux target.
#[verifier::external_body]
fn posix_realtime() -> (id: i32)
    ensures
        id == POSIX_REALTIME,
{
    libc::CLOCK_REALTIME
}

/// The constant `libc::CLOCK_MONOTONIC`, which is 1 on every Linux target.
#[verifier::external_body]
fn posix_monotonic() -> (id: i32)
    ensures
        id == POSIX_MONOTONIC,
{
    libc::CLOCK_MONOTONIC
}

/// Maps a clock of the device to the POSIX clock behind it.
pub fn clock_id_to_posix(clock_id: u16) -> (id: Option<libc::clockid_t>)
    ensures
        id == posix_clock(clock_id),
{
    match clock_id {
        0 => Some(posix_realtime()),
        1 => Some(posix_monotonic()),
        _ => None,
    }
}

/// Tells what kind of clock a clock of the device is.
pub fn clock_id_to_type(clock_id: u16) -> (t: Option<u8>)
    ensures
        t == clock_type(clock_id),
{
    match clock_id {
        0 => Some(VIRTIO_RTC_CLOCK_UTC),
        1 => Some(VIRTIO_RTC_CLOCK_MONOTONIC),
        _ => None,
    }
}

/// The nanoseconds of a time of seconds and nanoseconds, with either taken as an
/// unsigned number.
pub open spec fn nanoseconds(tv_sec: i64, tv_nsec: i64) -> nat {
    (tv_sec as u64) as nat * NS_PER_SEC as nat + (tv_nsec as u64) as nat
}

/// The reading of a clock, from what `clock_gettime` returned and stored.
pub open spec fn reading_of(ret: i32, tv_sec: i64, tv_nsec: i64) -> Result<u64, ()> {
    if ret != 0 {
        Err(())
    } else {
        Ok(nanoseconds(tv_sec, tv_nsec) as u64)
    }
}

/// The reading of a clock in nanoseconds since the epoch or since boot, from what
/// `clock_gettime` returned and stored. A code other than 0 is a failure.
pub fn clock_gettime_ns(ret: i32, tv_sec: i64, tv_nsec: i64) -> (reading: Result<u64, ()>)
    requires
        ret == 0 ==> nanoseconds(tv_sec, tv_nsec) <= u64::MAX,
    ensures
        reading == reading_of(ret, tv_sec, tv_nsec),
{
    if ret != 0 {
        return Err(());
    }
    Ok(tv_sec as u64 * NS_PER_SEC + tv_nsec as u64)
}

/// Clock 0 is `CLOCK_REALTIME`, which is POSIX clock 0, and is a UTC clock (type 0).
/// Clock 1 is `CLOCK_MONOTONIC`, which is POSIX clock 1, and is a monotonic clock
/// (type 2). There is no other.
pub proof fn law_clocks_of_the_device(clock_id: u16)
    ensures
        posix_clock(clock_id) == if clock_id <= 1 {
            Some(clock_id as i32)
        } else {
            None
        },
        clock_type(clock_id) == if clock_id <= 1 {
            Some((2 * clock_id) as u8)
        } else {
            None
        },
{
}

/// A clock that was read says its seconds and nanoseconds in nanoseconds. A code other
/// than 0 is a failure, whatever was stored.
pub proof fn law_readings_are_nanoseconds(ret: i32, tv_sec: i64, tv_nsec: i64)
    requires
        0 <= tv_sec,
        0 <= tv_nsec,
        tv_sec * 1_000_000_000 + tv_nsec <= u64::MAX,
    ensures
        reading_of(ret, tv_sec, tv_nsec) is Err <==> ret != 0,
        ret == 0 ==> reading_of(ret, tv_sec, tv_nsec)->Ok_0 == tv_sec * 1_000_000_000 + tv_nsec,
{
}

/// Of two times, the earlier one reads lower.
pub proof fn law_readings_keep_the_order_of_time(sec1: i64, nsec1: i64, sec2: i64, nsec2: i64)
    requires
        0 <= sec1,
        0 <= sec2,
        0 <= nsec1 < 1_000_000_000,
        0 <= nsec2 < 1_000_000_000,
        sec1 * 1_000_000_000 + nsec1 <= u64::MAX,
        sec2 * 1_000_000_000 + nsec2 <= u64::MAX,
    ensures
        reading_of(0, sec1, nsec1)->Ok_0 < reading_of(0, sec2, nsec2)->Ok_0 <==> sec1 < sec2 || (sec1
            == sec2 && nsec1 < nsec2),
{
}

} // verus!
