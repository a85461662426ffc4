//! Why the request queue could not be processed.
use virtio_queue::Error as VirtqueueError;
use vm_memory::GuestMemoryError;
use vstd::prelude::*;

verus! {

/// The error of an access to guest memory, `vm_memory::GuestMemoryError`. It is
/// carried along and never looked into.
#[verifier::external_type_specification]
#[verifier::external_body]
pub struct ExGuestMemoryError(vm_memory::GuestMemoryError);

/// The error of a virtqueue operation, `virtio_queue::Error`. It is carried along
/// and never looked into.
#[verifier::external_type_specification]
#[verifier::external_body]
pub struct ExVirtqueueError(VirtqueueError);

/// Why the request queue could not be processed.
#[derive(Debug)]
pub enum Error {
    DescriptorChainTooShort,
    GuestMemoryRead(GuestMemoryError),
    GuestMemoryWrite(GuestMemoryError),
    QueueAddUsed(VirtqueueError),
    InvalidDescriptor { expected: &'static str },
}

} // verus!
