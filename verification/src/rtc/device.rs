//! The device as the virtual machine monitor holds it.
use super::wire::{VirtioRtcConfig, NUM_CLOCKS};
use seccompiler::SeccompAction;
use std::io::Error as IoError;
use vmm_sys_util::eventfd::EventFd;
use vstd::prelude::*;

verus! {

/// The virtio device type of a real-time clock.
pub const VIRTIO_RTC_DEVICE_TYPE: u32 = 44;

/// How many descriptors the request queue holds.
pub const QUEUE_SIZE: u16 = 64;

/// Feature: the device follows virtio 1.
pub const VIRTIO_F_VERSION_1: u32 = 32;

/// Feature: the device's memory accesses go through an IOMMU.
pub const VIRTIO_F_IOMMU_PLATFORM: u32 = 33;

/// Feature: the device has alarms. It has none.
pub const VIRTIO_RTC_F_ALARM: u32 = 0;

/// What a thread does on a system call that its filter turns down,
/// `seccompiler::SeccompAction`. It is carried along and never looked into.
#[verifier::external_type_specification]
#[verifier::external_body]
pub struct ExSeccompAction(seccompiler::SeccompAction);

/// An eventfd, `vmm_sys_util::eventfd::EventFd`. It is carried along and never
/// looked into.
#[verifier::external_type_specification]
#[verifier::external_body]
pub struct ExEventFd(vmm_sys_util::eventfd::EventFd);

/// The error of an operation of the operating system, `std::io::Error`. Making a
/// device has it in its result type and never returns it.
#[verifier::external_type_specification]
#[verifier::external_body]
pub struct ExIoError(IoError);

/// What is saved of a device and restored.
#[derive(Clone, Copy, Debug, PartialEq, Eq, Structural)]
pub struct RtcState {
    pub avail_features: u64,
    pub acked_features: u64,
}

/// What every virtio device has.
pub struct VirtioCommon {
    pub device_type: u32,
    pub queue_sizes: Vec<u16>,
    pub avail_features: u64,
    pub acked_features: u64,
    pub min_queues: u16,
    pub paused: bool,
}

/// A virtio real-time clock, which gives the guest the host's clocks.
pub struct Rtc {
    common: VirtioCommon,
    id: String,
    seccomp_action: SeccompAction,
    exit_evt: EventFd,
}

/// A device, with its text and its queue sizes as sequences.
pub struct RtcModel {
    pub id: Seq<char>,
    pub device_type: u32,
    pub queue_sizes: Seq<u16>,
    pub min_queues: u16,
    pub state: RtcState,
    /// The device starts paused.
    pub paused: bool,
    pub seccomp_action: SeccompAction,
    pub exit_evt: EventFd,
}

impl View for Rtc {
    type V = RtcModel;

    closed spec fn view(&self) -> RtcModel {
        RtcModel {
            id: self.id@,
            device_type: self.common.device_type,
            queue_sizes: self.common.queue_sizes@,
            min_queues: self.common.min_queues,
            state: RtcState {
                avail_features: self.common.avail_features,
                acked_features: self.common.acked_features,
            },
            paused: self.common.paused,
            seccomp_action: self.seccomp_action,
            exit_evt: self.exit_evt,
        }
    }
}

/// The features that a new device offers: virtio 1, and the IOMMU where it is
/// behind one. It has no alarms, so it does not offer them.
pub open spec fn offered_features(iommu: bool) -> u64 {
    if iommu {
        1u64 << VIRTIO_F_VERSION_1 | 1u64 << VIRTIO_F_IOMMU_PLATFORM
    } else {
        1u64 << VIRTIO_F_VERSION_1
    }
}

/// The device that `Rtc::new` makes: a restored one goes on from its state and
/// starts paused, a new one offers its features and has none acknowledged.
pub open spec fn new_device(
    id: Seq<char>,
    iommu: bool,
    seccomp_action: SeccompAction,
    exit_evt: EventFd,
    state: Option<RtcState>,
) -> RtcModel {
    RtcModel {
        id,
        device_type: VIRTIO_RTC_DEVICE_TYPE,
        queue_sizes: seq![QUEUE_SIZE],
        min_queues: 1,
        state: match state {
            Some(saved) => saved,
            None => RtcState { avail_features: offered_features(iommu), acked_features: 0 },
        },
        paused: state is Some,
        seccomp_action,
        exit_evt,
    }
}

/// A device's state once the driver has acknowledged features: those of them that
/// the device offers are added to the acknowledged ones.
pub open spec fn acknowledged(state: RtcState, value: u64) -> RtcState {
    RtcState {
        acked_features: state.acked_features | (value & state.avail_features),
        ..state
    }
}

/// The device's configuration space.
pub open spec fn config_space() -> Seq<u8> {
    VirtioRtcConfig { num_clocks: NUM_CLOCKS as u32 }.wire()
}

/// A buffer after a read of the configuration space from `offset` on: the bytes
/// that lie within the configuration space are filled in, the others stay.
pub open spec fn config_read(offset: u64, data: Seq<u8>) -> Seq<u8> {
    Seq::new(
        data.len(),
        |i: int|
            if offset + i < config_space().len() {
                config_space()[offset + i]
            } else {
                data[i]
            },
    )
}

impl VirtioCommon {
    /// Takes features of those that the device offers as acknowledged. Features
    /// that it does not offer are passed over.
    pub fn ack_features(&mut self, value: u64)
        ensures
            *final(self) == (VirtioCommon {
                acked_features: old(self).acked_features | (value & old(self).avail_features),
                ..*old(self)
            }),
    {
        self.acked_features = self.acked_features | (value & self.avail_features);
    }
}

impl Rtc {
    /// Makes a device, a new one or one restored from its state.
    pub fn new(
        id: String,
        iommu: bool,
        seccomp_action: SeccompAction,
        exit_evt: EventFd,
        state: Option<RtcState>,
    ) -> (rtc: std::io::Result<Rtc>)
        ensures
            rtc matches Ok(rtc) && rtc@ == new_device(id@, iommu, seccomp_action, exit_evt, state),
    {
        let (avail_features, acked_features, paused) = if let Some(state) = state {
            (state.avail_features, state.acked_features, true)
        } else {
            let mut avail_features: u64 = 1u64 << VIRTIO_F_VERSION_1;
            if iommu {
                avail_features = avail_features | 1u64 << VIRTIO_F_IOMMU_PLATFORM;
            }
            (avail_features, 0, false)
        };
        let rtc = Rtc {
            common: VirtioCommon {
                device_type: VIRTIO_RTC_DEVICE_TYPE,
                queue_sizes: vec![QUEUE_SIZE],
                avail_features,
                acked_features,
                min_queues: 1,
                paused,
            },
            id,
            seccomp_action,
            exit_evt,
        };
        assert(rtc@.queue_sizes =~= seq![QUEUE_SIZE]);
        Ok(rtc)
    }

    /// What is saved of the device.
    pub fn state(&self) -> (state: RtcState)
        ensures
            state == self@.state,
    {
        RtcState {
            avail_features: self.common.avail_features,
            acked_features: self.common.acked_features,
        }
    }

    /// The virtio device type.
    pub fn device_type(&self) -> (t: u32)
        ensures
            t == self@.device_type,
    {
        self.common.device_type
    }

    /// How many descriptors each queue holds.
    pub fn queue_max_sizes(&self) -> (sizes: &[u16])
        ensures
            sizes@ == self@.queue_sizes,
    {
        self.common.queue_sizes.as_slice()
    }

    /// How many queues the driver has to set up.
    pub fn min_queues(&self) -> (n: u16)
        ensures
            n == self@.min_queues,
    {
        self.common.min_queues
    }

    /// The features that the device offers.
    pub fn features(&self) -> (features: u64)
        ensures
            features == self@.state.avail_features,
    {
        self.common.avail_features
    }

    /// Acknowledges features. Those that the device does not offer are passed over.
    pub fn ack_features(&mut self, value: u64)
        ensures
            final(self)@ == (RtcModel {
                state: acknowledged(old(self)@.state, value),
                ..old(self)@
            }),
    {
        self.common.ack_features(value);
    }

    /// Reads the configuration space from `offset` on into a buffer.
    pub fn read_config(&self, offset: u64, data: &mut [u8])
        ensures
            final(data)@ == config_read(offset, old(data)@),
    {
        let ghost before = data@;
        let config = VirtioRtcConfig { num_clocks: NUM_CLOCKS as u32 };
        let config_bytes = config.to_bytes();
        let config_len = config_bytes.len() as u64;
        if offset >= config_len {
            assert(data@ =~= config_read(offset, before));
            return;
        }
        let left = config_bytes.len() - offset as usize;
        let len = if data.len() < left {
            data.len()
        } else {
            left
        };
        let mut i: usize = 0;
        while i < len
            invariant
                i <= len,
                len <= before.len(),
                len + offset <= config_bytes@.len(),
                config_bytes@ == config_space(),
                config_bytes@.len() == 4,
                data@.len() == before.len(),
                forall|j: int|
                    0 <= j < before.len() ==> #[trigger] data@[j] == if j < i {
                        config_space()[offset + j]
                    } else {
                        before[j]
                    },
            decreases len - i,
        {
            data[i] = config_bytes[offset as usize + i];
            i = i + 1;
        }
        assert(data@ =~= config_read(offset, before));
    }

    /// The device's name.
    pub fn id(&self) -> (id: String)
        ensures
            id@ == self@.id,
    {
        self.id.clone()
    }

    /// The device starts paused.
    pub fn paused(&self) -> (paused: bool)
        ensures
            paused == self@.paused,
    {
        self.common.paused
    }

    /// What the device's thread does on a system call that its filter turns down.
    pub fn seccomp_action(&self) -> (action: &SeccompAction)
        ensures
            *action == self@.seccomp_action,
    {
        &self.seccomp_action
    }

    /// The eventfd that stops the virtual machine monitor.
    pub fn exit_evt(&self) -> (evt: &EventFd)
        ensures
            *evt == self@.exit_evt,
    {
        &self.exit_evt
    }
}

} // verus!
