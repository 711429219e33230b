//! The vhost-user filesystem device: what it offers to the transport daemon
//! and where it sends the events of its queues.

use crate::error::{Error, IoError};
use crate::multiplexer::{readable, readable_mask};
use crate::queue::{DrainState, QueueDrain, QUEUE_SIZE};
use vm_memory::GuestMemoryMmap;
use vmm_sys_util::eventfd::EventFd;
use vstd::prelude::*;

verus! {

/// `vm_memory::GuestMemoryMmap`: the memory of the guest as it is mapped
/// into this process. The device keeps it and hands it on.
#[verifier::external_type_specification]
#[verifier::external_body]
pub struct ExGuestMemoryMmap(vm_memory::GuestMemoryMmap);

/// `vmm_sys_util::eventfd::EventFd`: an event handle of the kernel. The
/// device keeps it and hands it on.
#[verifier::external_type_specification]
#[verifier::external_body]
pub struct ExEventFd(vmm_sys_util::eventfd::EventFd);

/// The number of queues of the device.
pub const NUM_QUEUES: usize = 2;

/// The event of the high priority queue.
pub const HIPRIO_QUEUE_EVENT: u16 = 0;

/// The event of the request queue.
pub const REQ_QUEUE_EVENT: u16 = 1;

/// The event that tells the workers of the device to leave.
pub const KILL_EVENT: u16 = 2;

/// The bit of the virtio feature "version 1".
pub const VIRTIO_F_VERSION_1: u32 = 32;

/// The vhost-user feature "protocol features are negotiated".
pub const VHOST_USER_F_PROTOCOL_FEATURES: u64 = 0x4000_0000;

/// The vhost-user protocol feature "more than one queue".
pub const VHOST_USER_PROTOCOL_F_MQ: u64 = 0x1;

/// The queue that an event is for.
#[derive(Clone, Copy, Debug, PartialEq, Eq, Structural)]
pub enum QueueKind {
    /// The high priority queue.
    HighPriority,
    /// The request queue with this index.
    Request(u16),
}

impl QueueKind {
    /// The place of the queue among the queue handles of the device.
    pub open spec fn index(self) -> nat {
        match self {
            QueueKind::HighPriority => HIPRIO_QUEUE_EVENT as nat,
            QueueKind::Request(n) => n as nat,
        }
    }

    /// The place of the queue among the queue handles of the device.
    pub fn vring_index(&self) -> (i: usize)
        ensures
            i == self.index(),
    {
        match self {
            QueueKind::HighPriority => HIPRIO_QUEUE_EVENT as usize,
            QueueKind::Request(n) => *n as usize,
        }
    }
}

/// Where a queue event goes. The readiness has to be "readable" and nothing
/// else. Event 0 is for the high priority queue; every other event below the
/// number of queue handles is for the request queue of that index; no other
/// event is known.
pub open spec fn route(index: u16, evset: u32, num_vrings: nat) -> Result<QueueKind, Error> {
    if evset != readable() {
        Err(Error::HandleEventNotEpollIn)
    } else if index == HIPRIO_QUEUE_EVENT {
        Ok(QueueKind::HighPriority)
    } else if index >= REQ_QUEUE_EVENT && index < num_vrings {
        Ok(QueueKind::Request(index))
    } else {
        Err(Error::HandleEventUnknownEvent)
    }
}

/// The device.
pub struct VhostUserFsBackend {
    mem: Option<GuestMemoryMmap>,
    kill_evt: EventFd,
}

impl VhostUserFsBackend {
    /// The guest memory that is installed.
    pub closed spec fn memory(&self) -> Option<GuestMemoryMmap> {
        self.mem
    }

    /// The handle on which the device is told to leave.
    pub closed spec fn kill_event(&self) -> EventFd {
        self.kill_evt
    }

    /// A device without guest memory, around the handle that was created for
    /// its exit notification. Where the handle could not be created the
    /// failure is reported as a polling failure.
    pub fn new(kill_evt: Result<EventFd, IoError>) -> (r: Result<VhostUserFsBackend, Error>)
        ensures
            match kill_evt {
                Ok(evt) => r matches Ok(backend) && backend.memory() is None
                    && backend.kill_event() == evt,
                Err(e) => r matches Err(failure) && failure == Error::Epoll(e),
            },
    {
        match kill_evt {
            Ok(evt) => Ok(VhostUserFsBackend { mem: None, kill_evt: evt }),
            Err(e) => Err(Error::Epoll(e)),
        }
    }

    /// The number of queues of the device.
    pub fn num_queues(&self) -> (n: usize)
        ensures
            n == NUM_QUEUES,
    {
        NUM_QUEUES
    }

    /// The depth of each queue.
    pub fn max_queue_size(&self) -> (n: usize)
        ensures
            n == QUEUE_SIZE,
    {
        QUEUE_SIZE
    }

    /// The features that the device offers: virtio version 1, and that
    /// protocol features are negotiated.
    pub fn features(&self) -> (bits: u64)
        ensures
            bits == 0x1_4000_0000u64,
    {
        let bits: u64 = 1u64 << VIRTIO_F_VERSION_1 | VHOST_USER_F_PROTOCOL_FEATURES;
        assert(1u64 << 32u32 | 0x4000_0000u64 == 0x1_4000_0000u64) by (bit_vector);
        bits
    }

    /// The protocol features that the device offers: more than one queue,
    /// and no other. Requests that the device itself starts are not offered.
    pub fn protocol_features(&self) -> (bits: u64)
        ensures
            bits == VHOST_USER_PROTOCOL_F_MQ,
    {
        VHOST_USER_PROTOCOL_F_MQ
    }

    /// Installs the guest memory that every later drain works on. What was
    /// installed before is dropped.
    pub fn update_memory(&mut self, mem: GuestMemoryMmap)
        ensures
            final(self).memory() == Some(mem),
            final(self).kill_event() == old(self).kill_event(),
    {
        self.mem = Some(mem);
    }

    /// The guest memory that is installed.
    pub fn mem(&self) -> (mem: Option<&GuestMemoryMmap>)
        ensures
            match mem {
                Some(m) => self.memory() == Some(*m),
                None => self.memory() is None,
            },
    {
        self.mem.as_ref()
    }

    /// Starts the drain of one queue. Without guest memory there is nothing
    /// to drain into, and the call is refused.
    pub fn process_queue(&self) -> (r: Result<QueueDrain, Error>)
        ensures
            match self.memory() {
                Some(_) => r matches Ok(drain) && drain@ == DrainState::init(),
                None => r matches Err(failure) && failure == Error::NoMemoryConfigured,
            },
    {
        if self.mem.is_none() {
            Err(Error::NoMemoryConfigured)
        } else {
            Ok(QueueDrain::new())
        }
    }

    /// Says which queue an event is for, given its readiness as the bits of
    /// an epoll event mask and the number of queue handles of the device.
    pub fn handle_event(&self, index: u16, evset: u32, num_vrings: usize) -> (r: Result<
        QueueKind,
        Error,
    >)
        ensures
            r == route(index, evset, num_vrings as nat),
    {
        if evset != readable_mask() {
            return Err(Error::HandleEventNotEpollIn);
        }
        if index == HIPRIO_QUEUE_EVENT {
            Ok(QueueKind::HighPriority)
        } else if index >= REQ_QUEUE_EVENT && (index as usize) < num_vrings {
            Ok(QueueKind::Request(index))
        } else {
            Err(Error::HandleEventUnknownEvent)
        }
    }

    /// What the device answers to a queue event once its queue is drained:
    /// the failure of the drain, or else that the worker is to go on. A queue
    /// event never ends the worker.
    pub fn event_handled(&self, drained: Result<(), Error>) -> (r: Result<bool, Error>)
        ensures
            match drained {
                Ok(_) => r == Ok::<bool, Error>(false),
                Err(e) => r == Err::<bool, Error>(e),
            },
    {
        match drained {
            Ok(_) => Ok(false),
            Err(e) => Err(e),
        }
    }

    /// The handle on which the device is told to leave, and the event under
    /// which the transport daemon is to watch it.
    pub fn exit_event(&self) -> (r: (&EventFd, u16))
        ensures
            *r.0 == self.kill_event(),
            r.1 == KILL_EVENT,
    {
        (&self.kill_evt, KILL_EVENT)
    }
}

} // verus!
