use nydusd::backend::{
    QueueKind, VhostUserFsBackend, HIPRIO_QUEUE_EVENT, KILL_EVENT, NUM_QUEUES, REQ_QUEUE_EVENT,
};
use nydusd::error::{Error, IoError, IoErrorKind, MessageError};
use nydusd::queue::DrainAction;
use vm_memory::GuestMemoryMmap;
use vmm_sys_util::eventfd::EventFd;

fn device() -> VhostUserFsBackend {
    match VhostUserFsBackend::new(Ok(EventFd::new(0).unwrap())) {
        Ok(backend) => backend,
        Err(e) => panic!("no device: {:?}", e),
    }
}

#[test]
fn device_without_exit_handle_is_a_polling_failure() {
    let failure = IoError { kind: IoErrorKind::Other, code: Some(24) };
    match VhostUserFsBackend::new(Err(failure)) {
        Ok(_) => panic!("a device was built without its exit handle"),
        Err(e) => assert_eq!(e, Error::Epoll(failure)),
    }
}

#[test]
fn device_capabilities() {
    let backend = device();
    assert_eq!(backend.num_queues(), 2);
    assert_eq!(NUM_QUEUES, 2);
    assert_eq!(backend.max_queue_size(), 1024);
    assert_eq!(backend.features(), (1u64 << 32) | (1u64 << 30));
    assert_eq!(backend.features(), 0x1_4000_0000);
    assert_eq!(backend.protocol_features(), 1);
}

#[test]
fn queue_without_memory_is_refused() {
    let backend = device();
    assert!(backend.mem().is_none());
    match backend.process_queue() {
        Ok(_) => panic!("a drain was started without guest memory"),
        Err(e) => assert_eq!(e, Error::NoMemoryConfigured),
    }
}

#[test]
fn queue_with_memory_starts_a_drain() {
    let mut backend = device();
    backend.update_memory(GuestMemoryMmap::new());
    assert!(backend.mem().is_some());
    match backend.process_queue() {
        Ok(drain) => assert_eq!(drain.pending(), DrainAction::NextChain),
        Err(e) => panic!("no drain: {:?}", e),
    }
    backend.update_memory(GuestMemoryMmap::new());
    assert!(backend.mem().is_some());
    assert!(backend.process_queue().is_ok());
}

#[test]
fn readable_events_are_routed_by_index() {
    let backend = device();
    let readable: u32 = epoll::Events::EPOLLIN.bits();
    assert_eq!(backend.handle_event(0, readable, 2), Ok(QueueKind::HighPriority));
    assert_eq!(backend.handle_event(HIPRIO_QUEUE_EVENT, readable, 2), Ok(QueueKind::HighPriority));
    assert_eq!(backend.handle_event(1, readable, 2), Ok(QueueKind::Request(1)));
    assert_eq!(backend.handle_event(REQ_QUEUE_EVENT, readable, 2), Ok(QueueKind::Request(1)));
    assert_eq!(backend.handle_event(2, readable, 2), Err(Error::HandleEventUnknownEvent));
    assert_eq!(backend.handle_event(2, readable, 3), Ok(QueueKind::Request(2)));
    assert_eq!(backend.handle_event(3, readable, 3), Err(Error::HandleEventUnknownEvent));
    assert_eq!(backend.handle_event(1, readable, 1), Err(Error::HandleEventUnknownEvent));
    assert_eq!(backend.handle_event(u16::MAX, readable, 2), Err(Error::HandleEventUnknownEvent));
    assert_eq!(QueueKind::HighPriority.vring_index(), 0);
    assert_eq!(QueueKind::Request(1).vring_index(), 1);
    assert_eq!(QueueKind::Request(7).vring_index(), 7);
}

#[test]
fn other_readiness_is_refused() {
    let backend = device();
    let writable: u32 = epoll::Events::EPOLLOUT.bits();
    let both: u32 = (epoll::Events::EPOLLIN | epoll::Events::EPOLLOUT).bits();
    let hangup: u32 = (epoll::Events::EPOLLIN | epoll::Events::EPOLLHUP).bits();
    assert_eq!(backend.handle_event(0, writable, 2), Err(Error::HandleEventNotEpollIn));
    assert_eq!(backend.handle_event(1, both, 2), Err(Error::HandleEventNotEpollIn));
    assert_eq!(backend.handle_event(1, hangup, 2), Err(Error::HandleEventNotEpollIn));
    assert_eq!(backend.handle_event(1, 0, 2), Err(Error::HandleEventNotEpollIn));
    assert_eq!(backend.handle_event(9, writable, 2), Err(Error::HandleEventNotEpollIn));
}

#[test]
fn queue_event_never_ends_the_worker() {
    let backend = device();
    assert_eq!(backend.event_handled(Ok(())), Ok(false));
    let failure = Error::ProcessQueue(MessageError { code: 22 });
    assert_eq!(backend.event_handled(Err(failure)), Err(failure));
    assert_eq!(backend.event_handled(Err(Error::NoMemoryConfigured)), Err(Error::NoMemoryConfigured));
}

#[test]
fn exit_event_is_the_kill_event() {
    let backend = device();
    let (evt, index) = backend.exit_event();
    assert_eq!(index, 2);
    assert_eq!(index, KILL_EVENT);
    evt.write(1).unwrap();
    assert_eq!(evt.read().unwrap(), 1);
}
