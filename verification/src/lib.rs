//! Verified pieces of a virtual machine monitor: the CPUID profiles of named
//! guest CPU models, and a virtio real-time-clock device.
pub mod cpu_model;
pub mod le;
pub mod leaves;
pub mod rtc;
pub mod text;
