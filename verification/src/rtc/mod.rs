//! A virtio real-time-clock device.
//!
//! The device is virtio device type 44. It follows the wire protocol of Linux's
//! `virtio_rtc.h`: the driver sends a request over a virtqueue and gets a
//! response with a high-resolution clock reading, which serves time
//! synchronization over PTP.
//!
//! There are two clocks: clock 0 is UTC wall-clock time, and clock 1 is
//! monotonic. On x86_64 both can be read together with the TSC.
pub mod clock;
pub mod device;
pub mod error;
pub mod events;
pub mod handlers;
pub mod laws;
pub mod layout;
pub mod no_tsc;
pub mod queue;
pub mod served;
pub mod tsc;
pub mod wire;
