# vmm_models

Two verified pieces of a virtual machine monitor, written in Rust and proved with
Verus:

- `cpu_model`: stable guest CPUID profiles for named CPU models. A host's CPUID
  table is restricted to a model's profile, or the model is refused with the reason.
- `rtc`: a virtio real-time clock (device type 44), which gives the guest the host's
  wall clock and monotonic clock, on x86_64 together with the TSC.

`src/` is the library. `leaves`, `le` and `text` hold what both pieces share: CPUID
tables, little-endian numbers and hexadecimal text. What holds of each piece as a
whole is stated and proved in its `laws` module.

The real-time clock's library code decides and leaves the acting to its user: a
`QueueRun` asks for one access to the virtqueue, to guest memory or to a clock at a
time and goes on with what came of it. `app/` is that user: threads, eventfds, guest
memory and the event loop.

`tests/` runs the library.
