//! Requests and responses as they stand in guest memory.
//!
//! Every structure is packed, and its numbers are little-endian.
use crate::le;
use vstd::prelude::*;

verus! {

/// Message type: read a clock.
pub const VIRTIO_RTC_REQ_READ: u16 = 0x0001;

/// Message type: read a clock together with a hardware counter.
pub const VIRTIO_RTC_REQ_READ_CROSS: u16 = 0x0002;

/// Message type: how many clocks there are.
pub const VIRTIO_RTC_REQ_CFG: u16 = 0x1000;

/// Message type: what a clock is.
pub const VIRTIO_RTC_REQ_CLOCK_CAP: u16 = 0x1001;

/// Message type: whether a clock can be read together with a counter.
pub const VIRTIO_RTC_REQ_CROSS_CAP: u16 = 0x1002;

/// Status: success.
pub const VIRTIO_RTC_S_OK: u8 = 0;

/// Status: the device does not support the request.
pub const VIRTIO_RTC_S_EOPNOTSUPP: u8 = 2;

/// Status: there is no such clock.
pub const VIRTIO_RTC_S_ENODEV: u8 = 3;

/// Status: the request is invalid.
pub const VIRTIO_RTC_S_EINVAL: u8 = 4;

/// Status: the host's clock could not be read.
pub const VIRTIO_RTC_S_EIO: u8 = 5;

/// Clock type: UTC.
pub const VIRTIO_RTC_CLOCK_UTC: u8 = 0;

/// Clock type: TAI.
pub const VIRTIO_RTC_CLOCK_TAI: u8 = 1;

/// Clock type: monotonic.
pub const VIRTIO_RTC_CLOCK_MONOTONIC: u8 = 2;

/// Hardware counter: the x86 TSC.
pub const VIRTIO_RTC_COUNTER_X86_TSC: u8 = 1;

/// A clock can be read together with the counter asked for.
pub const VIRTIO_RTC_FLAG_CROSS_CAP: u8 = 1;

/// How many clocks the device has.
pub const NUM_CLOCKS: u16 = 2;

/// How many bytes the header of a request has.
pub const REQ_HEAD_LEN: usize = 8;

/// How many bytes a request with fields of its own has.
pub const REQ_LEN: usize = 16;

/// Reserved bytes of a response.
pub const RESERVED_5: [u8; 5] = [0, 0, 0, 0, 0];

/// Reserved bytes of a response.
pub const RESERVED_6: [u8; 6] = [0, 0, 0, 0, 0, 0];

/// Reserved bytes of a response.
pub const RESERVED_7: [u8; 7] = [0, 0, 0, 0, 0, 0, 0];

/// The header of every request.
#[derive(Clone, Copy)]
pub struct VirtioRtcReqHead {
    pub msg_type: u16,
    pub reserved: [u8; 6],
}

/// A request to read a clock.
#[derive(Clone, Copy)]
pub struct VirtioRtcReqRead {
    pub head: VirtioRtcReqHead,
    pub clock_id: u16,
    pub reserved: [u8; 6],
}

/// A request to read a clock together with a counter.
#[derive(Clone, Copy)]
pub struct VirtioRtcReqReadCross {
    pub head: VirtioRtcReqHead,
    pub clock_id: u16,
    pub hw_counter: u8,
    pub reserved: [u8; 5],
}

/// A request for what a clock is.
#[derive(Clone, Copy)]
pub struct VirtioRtcReqClockCap {
    pub head: VirtioRtcReqHead,
    pub clock_id: u16,
    pub reserved: [u8; 6],
}

/// A request for whether a clock can be read together with a counter.
#[derive(Clone, Copy)]
pub struct VirtioRtcReqCrossCap {
    pub head: VirtioRtcReqHead,
    pub clock_id: u16,
    pub hw_counter: u8,
    pub reserved: [u8; 5],
}

/// The header of every response.
#[derive(Clone, Copy)]
pub struct VirtioRtcRespHead {
    pub status: u8,
    pub reserved: [u8; 7],
}

/// The response to a clock reading.
#[derive(Clone, Copy)]
pub struct VirtioRtcRespRead {
    pub head: VirtioRtcRespHead,
    pub clock_reading: u64,
}

/// The response to a clock reading together with a counter.
#[derive(Clone, Copy)]
pub struct VirtioRtcRespReadCross {
    pub head: VirtioRtcRespHead,
    pub clock_reading: u64,
    pub counter_cycles: u64,
}

/// The response that says how many clocks there are.
#[derive(Clone, Copy)]
pub struct VirtioRtcRespCfg {
    pub head: VirtioRtcRespHead,
    pub num_clocks: u16,
    pub reserved: [u8; 6],
}

/// The response that says what a clock is.
#[derive(Clone, Copy)]
pub struct VirtioRtcRespClockCap {
    pub head: VirtioRtcRespHead,
    pub clock_type: u8,
    pub leap_second_smearing: u8,
    pub flags: u8,
    pub reserved: [u8; 5],
}

/// The response that says whether a clock can be read together with a counter.
#[derive(Clone, Copy)]
pub struct VirtioRtcRespCrossCap {
    pub head: VirtioRtcRespHead,
    pub flags: u8,
    pub reserved: [u8; 7],
}

/// The device's configuration space.
#[derive(Clone, Copy)]
pub struct VirtioRtcConfig {
    pub num_clocks: u32,
}

/// `N` bytes from `start` on.
fn copy_bytes<const N: usize>(bytes: &[u8], start: usize) -> (part: [u8; N])
    requires
        start + N <= bytes@.len(),
    ensures
        part@ == bytes@.subrange(start as int, start + N),
{
    let mut part: [u8; N] = [0u8; N];
    let mut i: usize = 0;
    while i < N
        invariant
            i <= N,
            start + N <= bytes.len(),
            forall|j: int| 0 <= j < i ==> #[trigger] part@[j] == bytes@[start + j],
        decreases N - i,
    {
        part[i] = bytes[start + i];
        i = i + 1;
    }
    assert(part@ =~= bytes@.subrange(start as int, start + N));
    part
}

/// Two bytes from `start` on, as a number.
fn read_u16(bytes: &[u8], start: usize) -> (value: u16)
    requires
        start + 2 <= bytes@.len(),
    ensures
        le::le_bytes(value as nat, 2) == bytes@.subrange(start as int, start + 2),
{
    let part = copy_bytes::<2>(bytes, start);
    proof {
        le::lemma_le_bytes_of_value(part@);
    }
    le::le16_value(part)
}

/// Puts bytes behind others.
fn append(bytes: &mut Vec<u8>, more: &[u8])
    ensures
        final(bytes)@ == old(bytes)@ + more@,
{
    bytes.extend_from_slice(more);
}

impl VirtioRtcReqHead {
    /// The bytes of the header.
    pub open spec fn wire(self) -> Seq<u8> {
        le::le_bytes(self.msg_type as nat, 2) + self.reserved@
    }

    /// The header that bytes hold.
    pub fn from_bytes(bytes: &[u8]) -> (head: Self)
        requires
            bytes@.len() == REQ_HEAD_LEN,
        ensures
            head.wire() == bytes@,
    {
        let head = VirtioRtcReqHead {
            msg_type: read_u16(bytes, 0),
            reserved: copy_bytes::<6>(bytes, 2),
        };
        assert(head.wire() =~= bytes@);
        head
    }
}

impl VirtioRtcReqRead {
    /// The bytes of the request.
    pub open spec fn wire(self) -> Seq<u8> {
        self.head.wire() + le::le_bytes(self.clock_id as nat, 2) + self.reserved@
    }

    /// The request that bytes hold.
    pub fn from_bytes(bytes: &[u8]) -> (req: Self)
        requires
            bytes@.len() == REQ_LEN,
        ensures
            req.wire() == bytes@,
    {
        let head = copy_bytes::<8>(bytes, 0);
        let req = VirtioRtcReqRead {
            head: VirtioRtcReqHead::from_bytes(head.as_slice()),
            clock_id: read_u16(bytes, 8),
            reserved: copy_bytes::<6>(bytes, 10),
        };
        assert(req.wire() =~= bytes@);
        req
    }
}

impl VirtioRtcReqReadCross {
    /// The bytes of the request.
    pub open spec fn wire(self) -> Seq<u8> {
        self.head.wire() + le::le_bytes(self.clock_id as nat, 2) + seq![self.hw_counter] + self.reserved@
    }

    /// The request that bytes hold.
    pub fn from_bytes(bytes: &[u8]) -> (req: Self)
        requires
            bytes@.len() == REQ_LEN,
        ensures
            req.wire() == bytes@,
    {
        let head = copy_bytes::<8>(bytes, 0);
        let req = VirtioRtcReqReadCross {
            head: VirtioRtcReqHead::from_bytes(head.as_slice()),
            clock_id: read_u16(bytes, 8),
            hw_counter: bytes[10],
            reserved: copy_bytes::<5>(bytes, 11),
        };
        assert(req.wire() =~= bytes@);
        req
    }
}

impl VirtioRtcReqClockCap {
    /// The bytes of the request.
    pub open spec fn wire(self) -> Seq<u8> {
        self.head.wire() + le::le_bytes(self.clock_id as nat, 2) + self.reserved@
    }

    /// The request that bytes hold.
    pub fn from_bytes(bytes: &[u8]) -> (req: Self)
        requires
            bytes@.len() == REQ_LEN,
        ensures
            req.wire() == bytes@,
    {
        let head = copy_bytes::<8>(bytes, 0);
        let req = VirtioRtcReqClockCap {
            head: VirtioRtcReqHead::from_bytes(head.as_slice()),
            clock_id: read_u16(bytes, 8),
            reserved: copy_bytes::<6>(bytes, 10),
        };
        assert(req.wire() =~= bytes@);
        req
    }
}

impl VirtioRtcReqCrossCap {
    /// The bytes of the request.
    pub open spec fn wire(self) -> Seq<u8> {
        self.head.wire() + le::le_bytes(self.clock_id as nat, 2) + seq![self.hw_counter] + self.reserved@
    }

    /// The request that bytes hold.
    pub fn from_bytes(bytes: &[u8]) -> (req: Self)
        requires
            bytes@.len() == REQ_LEN,
        ensures
            req.wire() == bytes@,
    {
        let head = copy_bytes::<8>(bytes, 0);
        let req = VirtioRtcReqCrossCap {
            head: VirtioRtcReqHead::from_bytes(head.as_slice()),
            clock_id: read_u16(bytes, 8),
            hw_counter: bytes[10],
            reserved: copy_bytes::<5>(bytes, 11),
        };
        assert(req.wire() =~= bytes@);
        req
    }
}

impl VirtioRtcRespHead {
    /// The bytes of the header.
    pub open spec fn wire(self) -> Seq<u8> {
        seq![self.status] + self.reserved@
    }

    /// The bytes of the header, 8 of them.
    pub fn to_bytes(&self) -> (bytes: Vec<u8>)
        ensures
            bytes@ == self.wire(),
            bytes@.len() == 8,
    {
        let mut bytes: Vec<u8> = Vec::new();
        bytes.push(self.status);
        append(&mut bytes, self.reserved.as_slice());
        assert(bytes@ =~= self.wire());
        bytes
    }
}

impl VirtioRtcRespRead {
    /// The bytes of the response.
    pub open spec fn wire(self) -> Seq<u8> {
        self.head.wire() + le::le_bytes(self.clock_reading as nat, 8)
    }

    /// The bytes of the response, 16 of them.
    pub fn to_bytes(&self) -> (bytes: Vec<u8>)
        ensures
            bytes@ == self.wire(),
            bytes@.len() == 16,
    {
        proof {
            le::lemma_le_bytes_len(self.clock_reading as nat, 8);
        }
        let mut bytes = self.head.to_bytes();
        append(&mut bytes, le::le64_bytes(self.clock_reading).as_slice());
        assert(bytes@ =~= self.wire());
        bytes
    }
}

impl VirtioRtcRespReadCross {
    /// The bytes of the response.
    pub open spec fn wire(self) -> Seq<u8> {
        self.head.wire() + le::le_bytes(self.clock_reading as nat, 8) + le::le_bytes(self.counter_cycles as nat, 8)
    }

    /// The bytes of the response, 24 of them.
    pub fn to_bytes(&self) -> (bytes: Vec<u8>)
        ensures
            bytes@ == self.wire(),
            bytes@.len() == 24,
    {
        proof {
            le::lemma_le_bytes_len(self.clock_reading as nat, 8);
            le::lemma_le_bytes_len(self.counter_cycles as nat, 8);
        }
        let mut bytes = self.head.to_bytes();
        append(&mut bytes, le::le64_bytes(self.clock_reading).as_slice());
        append(&mut bytes, le::le64_bytes(self.counter_cycles).as_slice());
        assert(bytes@ =~= self.wire());
        bytes
    }
}

impl VirtioRtcRespCfg {
    /// The bytes of the response.
    pub open spec fn wire(self) -> Seq<u8> {
        self.head.wire() + le::le_bytes(self.num_clocks as nat, 2) + self.reserved@
    }

    /// The bytes of the response, 16 of them.
    pub fn to_bytes(&self) -> (bytes: Vec<u8>)
        ensures
            bytes@ == self.wire(),
            bytes@.len() == 16,
    {
        proof {
            le::lemma_le_bytes_len(self.num_clocks as nat, 2);
        }
        let mut bytes = self.head.to_bytes();
        append(&mut bytes, le::le16_bytes(self.num_clocks).as_slice());
        append(&mut bytes, self.reserved.as_slice());
        assert(bytes@ =~= self.wire());
        bytes
    }
}

impl VirtioRtcRespClockCap {
    /// The bytes of the response.
    pub open spec fn wire(self) -> Seq<u8> {
        self.head.wire() + seq![self.clock_type] + seq![self.leap_second_smearing] + seq![self.flags] + self.reserved@
    }

    /// The bytes of the response, 16 of them.
    pub fn to_bytes(&self) -> (bytes: Vec<u8>)
        ensures
            bytes@ == self.wire(),
            bytes@.len() == 16,
    {
        let mut bytes = self.head.to_bytes();
        bytes.push(self.clock_type);
        bytes.push(self.leap_second_smearing);
        bytes.push(self.flags);
        append(&mut bytes, self.reserved.as_slice());
        assert(bytes@ =~= self.wire());
        bytes
    }
}

impl VirtioRtcRespCrossCap {
    /// The bytes of the response.
    pub open spec fn wire(self) -> Seq<u8> {
        self.head.wire() + seq![self.flags] + self.reserved@
    }

    /// The bytes of the response, 16 of them.
    pub fn to_bytes(&self) -> (bytes: Vec<u8>)
        ensures
            bytes@ == self.wire(),
            bytes@.len() == 16,
    {
        let mut bytes = self.head.to_bytes();
        bytes.push(self.flags);
        append(&mut bytes, self.reserved.as_slice());
        assert(bytes@ =~= self.wire());
        bytes
    }
}

impl VirtioRtcConfig {
    /// The bytes of the configuration space.
    pub open spec fn wire(self) -> Seq<u8> {
        le::le_bytes(self.num_clocks as nat, 4)
    }

    /// The bytes of the configuration space, 4 of them.
    pub fn to_bytes(&self) -> (bytes: Vec<u8>)
        ensures
            bytes@ == self.wire(),
            bytes@.len() == 4,
    {
        proof {
            le::lemma_le_bytes_len(self.num_clocks as nat, 4);
        }
        let mut bytes: Vec<u8> = Vec::new();
        append(&mut bytes, le::le32_bytes(self.num_clocks).as_slice());
        assert(bytes@ =~= self.wire());
        bytes
    }
}

} // verus!
