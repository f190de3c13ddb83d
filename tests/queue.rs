use v4l2r::device::{Device, Direction, QueueType};
use v4l2r::dmabuf::{DMABufHandle, SizedSource};
use v4l2r::error::Error;
use v4l2r::format::Format;
use v4l2r::memory::{MMAPHandle, MemoryType, UserPtrHandle};
use v4l2r::queue::{BuffersAllocated, DQBufInfo, Queue, QueryBuffer};

fn info(index: u32) -> DQBufInfo {
    DQBufInfo {
        index,
        bytes_used: 100,
        flags: 1,
        sequence: 7,
        timestamp_sec: 3,
        timestamp_usec: 4,
    }
}

fn allocated(count: u32, planes: usize) -> (Device, Queue<BuffersAllocated<UserPtrHandle>>) {
    let mut dev = Device::new(3);
    let q = match Queue::get_output_queue(&mut dev, Ok(0)) {
        Ok(q) => q,
        Err(e) => panic!("queue refused: {:?}", e),
    };
    let q = match q.request_buffers::<UserPtrHandle>(Ok((count, QueryBuffer { num_planes: planes }))) {
        Ok(q) => q,
        Err(e) => panic!("allocation refused: {:?}", e),
    };
    (dev, q)
}

fn enqueue(q: &mut Queue<BuffersAllocated<UserPtrHandle>>, id: usize) {
    let b = match q.get_buffer(id) {
        Ok(b) => b,
        Err(e) => panic!("buffer refused: {:?}", e),
    };
    let b = b.add_plane(UserPtrHandle { addr: 0x1000 * (id as u64 + 1), length: 64 });
    assert!(q.enqueue(b, Ok(())).is_ok());
}

#[test]
fn factories_set_type_and_direction() {
    let mut dev = Device::new(9);
    let q = match Queue::get_capture_mplane_queue(&mut dev, Ok(0x11)) {
        Ok(q) => q,
        Err(_) => panic!("refused"),
    };
    assert_eq!(q.get_type(), QueueType::VideoCaptureMplane);
    assert_eq!(q.get_direction(), Direction::Capture);
    assert_eq!(q.get_capabilities(), 0x11);
    assert_eq!(q.as_raw_fd(), 9);
    assert!(dev.is_used(QueueType::VideoCaptureMplane));
    assert!(!dev.is_used(QueueType::VideoCapture));
}

#[test]
fn queue_type_held_twice_is_refused_until_closed() {
    let mut dev = Device::new(3);
    let q = match Queue::get_capture_queue(&mut dev, Ok(0)) {
        Ok(q) => q,
        Err(_) => panic!("refused"),
    };
    assert!(matches!(Queue::get_capture_queue(&mut dev, Ok(0)), Err(Error::AlreadyBorrowed)));
    // Another type on the same device is not affected.
    assert!(Queue::get_output_queue(&mut dev, Ok(0)).is_ok());
    assert!(q.close(&mut dev));
    assert!(!dev.is_used(QueueType::VideoCapture));
    assert!(Queue::get_capture_queue(&mut dev, Ok(0)).is_ok());
}

#[test]
fn unsupported_queue_type_is_refused_and_not_held() {
    let mut dev = Device::new(3);
    assert!(matches!(Queue::get_output_mplane_queue(&mut dev, Err(Error::Device(22))), Err(Error::Device(22))));
    assert!(!dev.is_used(QueueType::VideoOutputMplane));
}

#[test]
fn release_of_free_type_reports_false() {
    let mut dev = Device::new(3);
    assert!(!dev.release_queue(QueueType::MetaCapture));
}

#[test]
fn request_buffers_allocates_free_table() {
    let (_dev, mut q) = allocated(4, 1);
    assert_eq!(q.num_buffers(), 4);
    for i in 0..4 {
        assert!(q.get_buffer(i).is_ok());
    }
    assert!(matches!(q.get_buffer(4), Err(Error::AlreadyBorrowed)));
}

#[test]
fn request_buffers_passes_device_error() {
    let mut dev = Device::new(3);
    let q = match Queue::get_output_queue(&mut dev, Ok(0)) {
        Ok(q) => q,
        Err(_) => panic!("refused"),
    };
    let req = q.allocation_request::<UserPtrHandle>(6);
    assert_eq!(req.count, 6);
    assert_eq!(req.memory, MemoryType::UserPtr);
    assert_eq!(req.queue_type, QueueType::VideoOutput);
    assert!(matches!(q.request_buffers::<UserPtrHandle>(Err(Error::Device(12))), Err(Error::Device(12))));
}

#[test]
fn acquire_twice_fails() {
    let (_dev, mut q) = allocated(3, 1);
    let b = q.get_buffer(1);
    assert!(b.is_ok());
    assert!(matches!(q.get_buffer(1), Err(Error::AlreadyBorrowed)));
    assert!(matches!(q.get_buffer(1), Err(Error::AlreadyBorrowed)));
}

#[test]
fn dropped_qbuffer_returns_to_free() {
    let (_dev, mut q) = allocated(3, 1);
    let b = match q.get_buffer(2) {
        Ok(b) => b,
        Err(_) => panic!("refused"),
    };
    assert_eq!(b.index(), 2);
    q.fire_fuse(b.into_fuse());
    assert!(q.get_buffer(2).is_ok());
}

#[test]
fn enqueue_checks_plane_count() {
    let (_dev, mut q) = allocated(2, 2);
    let b = match q.get_buffer(0) {
        Ok(b) => b,
        Err(_) => panic!("refused"),
    };
    let b = b.add_plane(UserPtrHandle { addr: 1, length: 2 });
    assert_eq!(b.num_planes(), 1);
    assert_eq!(b.num_expected_planes(), 2);
    assert!(matches!(b.fill_planes(), Err(Error::NumPlanesMismatch)));
    match q.enqueue(b, Ok(())) {
        Err((Error::NumPlanesMismatch, fuse)) => q.fire_fuse(fuse),
        _ => panic!("expected a plane count error"),
    }
    assert!(q.get_buffer(0).is_ok());
}

#[test]
fn fill_planes_describes_each_plane() {
    let (_dev, mut q) = allocated(1, 2);
    let b = match q.get_buffer(0) {
        Ok(b) => b,
        Err(_) => panic!("refused"),
    };
    let b = b
        .add_plane(UserPtrHandle { addr: 0xa000, length: 10 })
        .add_plane(UserPtrHandle { addr: 0xb000, length: 20 });
    let planes = match b.fill_planes() {
        Ok(p) => p,
        Err(_) => panic!("refused"),
    };
    assert_eq!(planes.len(), 2);
    assert_eq!(planes[0].userptr, 0xa000);
    assert_eq!(planes[0].length, 10);
    assert_eq!(planes[1].userptr, 0xb000);
    assert_eq!(planes[1].length, 20);
    assert_eq!(planes[1].fd, 0);
}

#[test]
fn failed_enqueue_keeps_fuse_armed() {
    let (_dev, mut q) = allocated(2, 1);
    let b = match q.get_buffer(1) {
        Ok(b) => b.add_plane(UserPtrHandle { addr: 8, length: 8 }),
        Err(_) => panic!("refused"),
    };
    match q.enqueue(b, Err(Error::Device(5))) {
        Err((Error::Device(5), fuse)) => {
            assert!(fuse.armed);
            q.fire_fuse(fuse);
        }
        _ => panic!("expected the device error"),
    }
    assert!(q.get_buffer(1).is_ok());
}

#[test]
fn dequeue_returns_handles_and_info() {
    let (_dev, mut q) = allocated(3, 1);
    enqueue(&mut q, 1);
    let d = match q.dequeue(Ok(info(1))) {
        Ok(d) => d,
        Err(e) => panic!("dequeue failed: {:?}", e),
    };
    assert_eq!(d.index(), 1);
    assert_eq!(d.info(), info(1));
    assert_eq!(d.plane_handles().len(), 1);
    assert_eq!(d.plane_handles()[0].addr, 0x2000);
    // Still held by the dequeued buffer.
    assert!(matches!(q.get_buffer(1), Err(Error::AlreadyBorrowed)));
    q.fire_fuse(d.into_fuse());
    assert!(q.get_buffer(1).is_ok());
}

#[test]
fn dequeue_of_buffer_not_queued_is_inconsistent() {
    let (_dev, mut q) = allocated(3, 1);
    assert!(matches!(q.dequeue(Ok(info(0))), Err(Error::InconsistentState)));
    assert!(matches!(q.dequeue(Ok(info(9))), Err(Error::InconsistentState)));
    assert!(matches!(q.dequeue(Err(Error::Device(11))), Err(Error::Device(11))));
}

#[test]
fn streamoff_cancels_queued_buffers_by_index() {
    let (_dev, mut q) = allocated(8, 1);
    enqueue(&mut q, 5);
    enqueue(&mut q, 2);
    let held = q.get_buffer(3);
    assert!(held.is_ok());
    let canceled = match q.streamoff(Ok(())) {
        Ok(c) => c,
        Err(_) => panic!("refused"),
    };
    assert_eq!(canceled.len(), 2);
    assert_eq!(canceled[0].index, 2);
    assert_eq!(canceled[0].plane_handles[0].addr, 0x3000);
    assert_eq!(canceled[1].index, 5);
    assert_eq!(canceled[1].plane_handles[0].addr, 0x6000);
    assert!(q.get_buffer(2).is_ok());
    assert!(q.get_buffer(5).is_ok());
    // The reserved buffer is untouched.
    assert!(matches!(q.get_buffer(3), Err(Error::AlreadyBorrowed)));
}

#[test]
fn streamoff_error_leaves_buffers_queued() {
    let (_dev, mut q) = allocated(3, 1);
    enqueue(&mut q, 0);
    assert!(matches!(q.streamoff(Err(Error::Device(1))), Err(Error::Device(1))));
    assert!(q.dequeue(Ok(info(0))).is_ok());
}

#[test]
fn free_buffers_returns_to_init_and_old_fuses_are_inert() {
    let (_dev, mut q) = allocated(3, 1);
    enqueue(&mut q, 0);
    let d = match q.dequeue(Ok(info(0))) {
        Ok(d) => d,
        Err(_) => panic!("refused"),
    };
    let pending = match q.get_buffer(1) {
        Ok(b) => b,
        Err(_) => panic!("refused"),
    };
    let req = q.free_request();
    assert_eq!(req.count, 0);
    let init = match q.free_buffers(Ok(())) {
        Ok(i) => i,
        Err(_) => panic!("refused"),
    };
    let mut q = match init.request_buffers::<UserPtrHandle>(Ok((3, QueryBuffer { num_planes: 1 }))) {
        Ok(q) => q,
        Err(_) => panic!("refused"),
    };
    let held = q.get_buffer(0);
    assert!(held.is_ok());
    q.fire_fuse(d.into_fuse());
    q.fire_fuse(pending.into_fuse());
    assert!(matches!(q.get_buffer(0), Err(Error::AlreadyBorrowed)));
    assert!(q.get_buffer(1).is_ok());
}

#[test]
fn free_buffers_passes_device_error() {
    let (_dev, q) = allocated(3, 1);
    assert!(matches!(q.free_buffers(Err(Error::Device(16))), Err(Error::Device(16))));
}

#[test]
fn format_builder_stages_changes() {
    let mut dev = Device::new(3);
    let q = match Queue::get_capture_queue(&mut dev, Ok(0)) {
        Ok(q) => q,
        Err(_) => panic!("refused"),
    };
    let current = Format { width: 640, height: 480, pixelformat: 0x3231_564e };
    let b = match q.change_format(Ok(current)) {
        Ok(b) => b,
        Err(_) => panic!("refused"),
    };
    assert_eq!(*b.format(), current);
    assert_eq!(b.queue_type(), QueueType::VideoCapture);
    let mut b = b.set_size(1920, 1080).set_pixelformat(0x5659_5559);
    assert_eq!(*b.format(), Format { width: 1920, height: 1080, pixelformat: 0x5659_5559 });
    let adjusted = Format { width: 1920, height: 1088, pixelformat: 0x5659_5559 };
    assert_eq!(b.try_apply(Ok(adjusted)), Ok(()));
    assert_eq!(*b.format(), adjusted);
    assert_eq!(b.try_apply(Err(Error::Device(22))), Err(Error::Device(22)));
    assert_eq!(*b.format(), adjusted);
    assert!(matches!(q.change_format(Err(Error::Device(25))), Err(Error::Device(25))));
}

#[test]
fn set_size_truncates_to_u32() {
    let mut dev = Device::new(3);
    let q = match Queue::get_capture_queue(&mut dev, Ok(0)) {
        Ok(q) => q,
        Err(_) => panic!("refused"),
    };
    let b = match q.change_format(Ok(Format { width: 1, height: 1, pixelformat: 0 })) {
        Ok(b) => b,
        Err(_) => panic!("refused"),
    };
    let b = b.set_size((1usize << 32) + 5, 7);
    assert_eq!(b.format().width, 5);
    assert_eq!(b.format().height, 7);
}

#[test]
fn dmabuf_queue_fills_descriptor_and_length() {
    let (_dev, q) = allocated(1, 1);
    let _ = q.free_buffers(Ok(()));
    let mut dev = Device::new(4);
    let q = match Queue::get_capture_queue(&mut dev, Ok(0)) {
        Ok(q) => q,
        Err(_) => panic!("refused"),
    };
    assert_eq!(q.allocation_request::<DMABufHandle<SizedSource<()>>>(2).memory, MemoryType::DmaBuf);
    assert_eq!(q.allocation_request::<MMAPHandle>(2).memory, MemoryType::Mmap);
    let mut q = match q.request_buffers::<DMABufHandle<SizedSource<()>>>(Ok((2, QueryBuffer { num_planes: 1 }))) {
        Ok(q) => q,
        Err(_) => panic!("refused"),
    };
    let b = match q.get_buffer(0) {
        Ok(b) => b,
        Err(_) => panic!("refused"),
    };
    let b = b.add_plane(DMABufHandle::from(SizedSource::new((), 42, Some(4096))));
    let planes = match b.fill_planes() {
        Ok(p) => p,
        Err(_) => panic!("refused"),
    };
    assert_eq!(planes[0].fd, 42);
    assert_eq!(planes[0].length, 4096);
    assert_eq!(planes[0].userptr, 0);
}
