use std::sync::atomic::{AtomicUsize, Ordering};
use std::sync::Arc;
use std::task::{Wake, Waker};

use tock_async::allow_ro::AllowRoBuffer;
use tock_async::allow_rw::AllowRwBuffer;
use tock_async::error::ErrorCode;
use tock_async::i2c_master::{AsyncI2cMaster, AsyncI2cMasterStorage, EmbassyListener};
use tock_async::syscalls::{CommandReturn, Kernel, Syscalls, Upcall};

#[derive(Debug, Clone, PartialEq)]
enum Call {
    Command(u32, u32, u32, u32),
    AllowRo(u32, u32, Vec<u8>),
    AllowRw(u32, u32),
    UnallowRo(u32, u32),
    UnallowRw(u32, u32),
    Subscribe(u32, u32),
    Unsubscribe(u32, u32),
    YieldWait,
}

/// A kernel that records every call and answers as it was told to.
struct Fake {
    calls: Vec<Call>,
    command: fn(u32, u32, u32) -> CommandReturn,
    allow: Result<bool, ErrorCode>,
    subscribe: Result<(), ErrorCode>,
    fill: Vec<u8>,
    upcalls: Vec<Upcall>,
}

fn kernel(command: fn(u32, u32, u32) -> CommandReturn) -> Kernel<Fake> {
    Kernel::new(Fake {
        calls: Vec::new(),
        command,
        allow: Ok(false),
        subscribe: Ok(()),
        fill: Vec::new(),
        upcalls: Vec::new(),
    })
}

fn kernel_with(
    command: fn(u32, u32, u32) -> CommandReturn,
    allow: Result<bool, ErrorCode>,
    subscribe: Result<(), ErrorCode>,
    fill: Vec<u8>,
) -> Kernel<Fake> {
    Kernel::new(Fake { calls: Vec::new(), command, allow, subscribe, fill, upcalls: Vec::new() })
}

impl Syscalls for Fake {
    fn command(&mut self, driver_num: u32, command_id: u32, arg0: u32, arg1: u32) -> CommandReturn {
        self.calls.push(Call::Command(driver_num, command_id, arg0, arg1));
        (self.command)(command_id, arg0, arg1)
    }

    fn allow_ro<const N: usize>(
        &mut self,
        driver_num: u32,
        buffer_num: u32,
        buffer: &[u8; N],
    ) -> Result<bool, ErrorCode> {
        self.calls.push(Call::AllowRo(driver_num, buffer_num, buffer.to_vec()));
        self.allow
    }

    fn allow_rw<const N: usize>(
        &mut self,
        driver_num: u32,
        buffer_num: u32,
        buffer: &mut [u8; N],
    ) -> Result<bool, ErrorCode> {
        self.calls.push(Call::AllowRw(driver_num, buffer_num));
        if self.allow.is_ok() {
            let n = self.fill.len().min(N);
            buffer[..n].copy_from_slice(&self.fill[..n]);
        }
        self.allow
    }

    fn unallow_ro(&mut self, driver_num: u32, buffer_num: u32) {
        self.calls.push(Call::UnallowRo(driver_num, buffer_num));
    }

    fn unallow_rw(&mut self, driver_num: u32, buffer_num: u32) {
        self.calls.push(Call::UnallowRw(driver_num, buffer_num));
    }

    fn subscribe(&mut self, driver_num: u32, subscribe_id: u32) -> Result<(), ErrorCode> {
        self.calls.push(Call::Subscribe(driver_num, subscribe_id));
        self.subscribe
    }

    fn unsubscribe(&mut self, driver_num: u32, subscribe_id: u32) {
        self.calls.push(Call::Unsubscribe(driver_num, subscribe_id));
    }

    fn yield_wait(&mut self) -> Option<Upcall> {
        self.calls.push(Call::YieldWait);
        self.upcalls.pop()
    }
}

fn ok(_: u32, _: u32, _: u32) -> CommandReturn {
    CommandReturn::Success
}

fn no_device(_: u32, _: u32, _: u32) -> CommandReturn {
    CommandReturn::Failure(ErrorCode::NoDevice)
}

struct CountingWaker(AtomicUsize);

impl Wake for CountingWaker {
    fn wake(self: Arc<Self>) {
        self.0.fetch_add(1, Ordering::SeqCst);
    }

    fn wake_by_ref(self: &Arc<Self>) {
        self.0.fetch_add(1, Ordering::SeqCst);
    }
}

fn counting_waker() -> (Arc<CountingWaker>, Waker) {
    let counter = Arc::new(CountingWaker(AtomicUsize::new(0)));
    let waker = Waker::from(counter.clone());
    (counter, waker)
}

fn woken(counter: &Arc<CountingWaker>) -> usize {
    counter.0.load(Ordering::SeqCst)
}

/// The waker of a task that nobody watches.
fn idle() -> Waker {
    counting_waker().1
}

fn nack(_: u32, _: u32, _: u32) -> CommandReturn {
    CommandReturn::Failure(ErrorCode::NoAck)
}

#[test]
fn pack_transfer_shifts_the_length_over_the_address() {
    assert_eq!(AsyncI2cMaster::pack_transfer(0, 0), 0);
    assert_eq!(AsyncI2cMaster::pack_transfer(2, 0x76), 0x0276);
    assert_eq!(AsyncI2cMaster::pack_transfer(1, 0x0100), 0x0100);
    assert_eq!(AsyncI2cMaster::pack_transfer(0x0100_0001, 0xFFFF), 0x0000_FFFF | 0x0000_0100);
}

#[test]
fn transfer_read_runs_begin_poll_end() {
    let mut k = kernel(ok);
    let mut storage = AsyncI2cMasterStorage::new();
    let mut buffer: AllowRwBuffer<Fake, 0x20003, 1, 6> = AllowRwBuffer::from_array([0; 6]);
    assert_eq!(
        AsyncI2cMaster.read_begin(&mut k, &mut storage, 0x76, &mut buffer),
        Ok(())
    );
    assert!(storage.busy());
    assert!(buffer.allowed());
    assert_eq!(
        k.raw().calls,
        vec![Call::AllowRw(0x20003, 1), Call::Command(0x20003, 2, 0x76, 6)]
    );
    assert_eq!(AsyncI2cMaster::poll(&mut storage, &idle()), None);
    EmbassyListener.upcall(&mut storage, 0, 0, 0);
    let completion = AsyncI2cMaster::poll(&mut storage, &idle()).unwrap();
    assert_eq!(completion, Ok(()));
    assert_eq!(AsyncI2cMaster::poll(&mut storage, &idle()), None);
    assert_eq!(AsyncI2cMaster::end(&mut storage, completion), Ok(()));
    assert!(!storage.busy());
}

#[test]
fn write_begins_with_the_address_and_the_size() {
    let mut k = kernel(ok);
    let mut storage = AsyncI2cMasterStorage::new();
    let mut buffer: AllowRoBuffer<Fake, 0x20003, 0, 2> = AllowRoBuffer::from_array([0xF4, 0x27]);
    assert_eq!(
        AsyncI2cMaster.write_begin(&mut k, &mut storage, 0x76, &mut buffer),
        Ok(())
    );
    assert_eq!(
        k.raw().calls,
        vec![
            Call::AllowRo(0x20003, 0, vec![0xF4, 0x27]),
            Call::Command(0x20003, 1, 0x76, 2),
        ]
    );
    assert!(storage.busy());
}

#[test]
fn write_read_allows_the_read_buffer_first() {
    let mut k = kernel(ok);
    let mut storage = AsyncI2cMasterStorage::new();
    let mut write: AllowRoBuffer<Fake, 0x20003, 0, 1> = AllowRoBuffer::from_array([0x88]);
    let mut read: AllowRwBuffer<Fake, 0x20003, 1, 24> = AllowRwBuffer::from_array([0; 24]);
    assert_eq!(
        AsyncI2cMaster.write_read_begin(&mut k, &mut storage, 0x76, &mut write, &mut read),
        Ok(())
    );
    assert_eq!(
        k.raw().calls,
        vec![
            Call::AllowRw(0x20003, 1),
            Call::AllowRo(0x20003, 0, vec![0x88]),
            Call::Command(0x20003, 4, 0x0176, 24),
        ]
    );
    assert!(write.allowed() && read.allowed() && storage.busy());
}

#[test]
fn write_read_stops_at_a_refused_grant() {
    let mut k = kernel_with(ok, Err(ErrorCode::NoMem), Ok(()), Vec::new());
    let mut storage = AsyncI2cMasterStorage::new();
    let mut write: AllowRoBuffer<Fake, 0x20003, 0, 1> = AllowRoBuffer::from_array([0x88]);
    let mut read: AllowRwBuffer<Fake, 0x20003, 1, 24> = AllowRwBuffer::from_array([0; 24]);
    assert_eq!(
        AsyncI2cMaster.write_read_begin(&mut k, &mut storage, 0x76, &mut write, &mut read),
        Err(ErrorCode::NoMem)
    );
    assert_eq!(k.raw().calls, vec![Call::AllowRw(0x20003, 1)]);
    assert!(!storage.busy());
    assert!(!write.allowed());
    assert!(!read.allowed());
}

#[test]
fn write_read_in_place_checks_the_lengths_first() {
    let mut k = kernel(ok);
    let mut storage = AsyncI2cMasterStorage::new();
    let mut buffer: AllowRwBuffer<Fake, 0x20003, 1, 4> = AllowRwBuffer::from_array([0; 4]);
    assert_eq!(
        AsyncI2cMaster.write_read_in_place_begin(&mut k, &mut storage, 0x76, 5, 1, &mut buffer),
        Err(ErrorCode::NoMem)
    );
    assert_eq!(
        AsyncI2cMaster.write_read_in_place_begin(&mut k, &mut storage, 0x76, 1, 5, &mut buffer),
        Err(ErrorCode::NoMem)
    );
    assert!(!storage.busy());
    assert!(!buffer.allowed());
    assert!(k.raw().calls.is_empty());

    assert_eq!(
        AsyncI2cMaster.write_read_in_place_begin(&mut k, &mut storage, 0x76, 4, 4, &mut buffer),
        Ok(())
    );
    assert_eq!(
        k.raw().calls,
        vec![Call::AllowRw(0x20003, 1), Call::Command(0x20003, 3, 0x0476, 4)]
    );
    assert!(storage.busy());

    assert_eq!(
        AsyncI2cMaster.write_read_in_place_begin(&mut k, &mut storage, 0x76, 9, 9, &mut buffer),
        Err(ErrorCode::NoMem)
    );
    assert!(storage.busy());
}

#[test]
fn second_transfer_fails_with_busy_and_leaves_the_first_alone() {
    let mut k = kernel(ok);
    let mut storage = AsyncI2cMasterStorage::new();
    let mut first: AllowRoBuffer<Fake, 0x20003, 0, 1> = AllowRoBuffer::from_array([1]);
    let mut second: AllowRoBuffer<Fake, 0x20003, 0, 1> = AllowRoBuffer::from_array([2]);
    let mut third: AllowRwBuffer<Fake, 0x20003, 1, 1> = AllowRwBuffer::from_array([0]);
    assert_eq!(
        AsyncI2cMaster.write_begin(&mut k, &mut storage, 0x10, &mut first),
        Ok(())
    );
    EmbassyListener.upcall(&mut storage, 13, 0, 0);
    assert_eq!(
        AsyncI2cMaster.write_begin(&mut k, &mut storage, 0x11, &mut second),
        Err(ErrorCode::Busy)
    );
    assert_eq!(
        AsyncI2cMaster.read_begin(&mut k, &mut storage, 0x11, &mut third),
        Err(ErrorCode::Busy)
    );
    assert_eq!(
        AsyncI2cMaster.write_read_begin(&mut k, &mut storage, 0x11, &mut second, &mut third),
        Err(ErrorCode::Busy)
    );
    assert_eq!(
        AsyncI2cMaster.write_read_in_place_begin(&mut k, &mut storage, 0x11, 1, 1, &mut third),
        Err(ErrorCode::Busy)
    );
    assert_eq!(k.raw().calls.len(), 2);
    assert!(!second.allowed() && !third.allowed());
    assert!(storage.busy());
    assert_eq!(AsyncI2cMaster::poll(&mut storage, &idle()), Some(Err(ErrorCode::NoAck)));
    assert_eq!(
        AsyncI2cMaster::end(&mut storage, Err(ErrorCode::NoAck)),
        Err(ErrorCode::NoAck)
    );
    assert!(!storage.busy());
    assert_eq!(
        AsyncI2cMaster.write_begin(&mut k, &mut storage, 0x11, &mut second),
        Ok(())
    );
}

#[test]
fn failed_transfer_start_frees_the_guard() {
    let mut k = kernel(nack);
    let mut storage = AsyncI2cMasterStorage::new();
    let mut buffer: AllowRoBuffer<Fake, 0x20003, 0, 1> = AllowRoBuffer::from_array([1]);
    assert_eq!(
        AsyncI2cMaster.write_begin(&mut k, &mut storage, 0x10, &mut buffer),
        Err(ErrorCode::NoAck)
    );
    assert!(!storage.busy());
    assert!(buffer.allowed());
}

#[test]
fn completion_status_words() {
    let mut storage = AsyncI2cMasterStorage::new();
    EmbassyListener.upcall(&mut storage, 0, 7, 7);
    assert_eq!(AsyncI2cMaster::poll(&mut storage, &idle()), Some(Ok(())));
    EmbassyListener.upcall(&mut storage, 1, 0, 0);
    assert_eq!(AsyncI2cMaster::poll(&mut storage, &idle()), Some(Err(ErrorCode::Fail)));
    EmbassyListener.upcall(&mut storage, 1024, 0, 0);
    assert_eq!(AsyncI2cMaster::poll(&mut storage, &idle()), Some(Err(ErrorCode::BadRVal)));
    EmbassyListener.upcall(&mut storage, 14, 0, 0);
    assert_eq!(AsyncI2cMaster::poll(&mut storage, &idle()), Some(Ok(())));
    EmbassyListener.upcall(&mut storage, u32::MAX, 0, 0);
    assert_eq!(AsyncI2cMaster::poll(&mut storage, &idle()), Some(Ok(())));
}

#[test]
fn transfer_completion_wakes_the_task_that_polled() {
    let mut storage = AsyncI2cMasterStorage::new();
    let (counter, waker) = counting_waker();
    assert_eq!(AsyncI2cMaster::poll(&mut storage, &waker), None);
    assert_eq!(woken(&counter), 0);
    EmbassyListener.upcall(&mut storage, 0, 0, 0);
    assert_eq!(woken(&counter), 1);
    assert_eq!(AsyncI2cMaster::poll(&mut storage, &waker), Some(Ok(())));
}
