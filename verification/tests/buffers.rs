use tock_async::allow_ro::{AllowRo, AllowRoBuffer, DefaultConfig};
use tock_async::allow_rw::AllowRwBuffer;
use tock_async::error::ErrorCode;
use tock_async::syscalls::{CommandReturn, Kernel, Syscalls, Upcall};

#[derive(Debug, Clone, PartialEq)]
enum Call {
    Command(u32, u32, u32, u32),
    AllowRo(u32, u32, Vec<u8>),
    AllowRw(u32, u32),
    UnallowRo(u32, u32),
    UnallowRw(u32, u32),
    Subscribe(u32, u32),
    Unsubscribe(u32, u32),
    YieldWait,
}

/// A kernel that records every call and answers as it was told to.
struct Fake {
    calls: Vec<Call>,
    command: fn(u32, u32, u32) -> CommandReturn,
    allow: Result<bool, ErrorCode>,
    subscribe: Result<(), ErrorCode>,
    fill: Vec<u8>,
    upcalls: Vec<Upcall>,
}

fn kernel(command: fn(u32, u32, u32) -> CommandReturn) -> Kernel<Fake> {
    Kernel::new(Fake {
        calls: Vec::new(),
        command,
        allow: Ok(false),
        subscribe: Ok(()),
        fill: Vec::new(),
        upcalls: Vec::new(),
    })
}

fn kernel_with(
    command: fn(u32, u32, u32) -> CommandReturn,
    allow: Result<bool, ErrorCode>,
    subscribe: Result<(), ErrorCode>,
    fill: Vec<u8>,
) -> Kernel<Fake> {
    Kernel::new(Fake { calls: Vec::new(), command, allow, subscribe, fill, upcalls: Vec::new() })
}

impl Syscalls for Fake {
    fn command(&mut self, driver_num: u32, command_id: u32, arg0: u32, arg1: u32) -> CommandReturn {
        self.calls.push(Call::Command(driver_num, command_id, arg0, arg1));
        (self.command)(command_id, arg0, arg1)
    }

    fn allow_ro<const N: usize>(
        &mut self,
        driver_num: u32,
        buffer_num: u32,
        buffer: &[u8; N],
    ) -> Result<bool, ErrorCode> {
        self.calls.push(Call::AllowRo(driver_num, buffer_num, buffer.to_vec()));
        self.allow
    }

    fn allow_rw<const N: usize>(
        &mut self,
        driver_num: u32,
        buffer_num: u32,
        buffer: &mut [u8; N],
    ) -> Result<bool, ErrorCode> {
        self.calls.push(Call::AllowRw(driver_num, buffer_num));
        if self.allow.is_ok() {
            let n = self.fill.len().min(N);
            buffer[..n].copy_from_slice(&self.fill[..n]);
        }
        self.allow
    }

    fn unallow_ro(&mut self, driver_num: u32, buffer_num: u32) {
        self.calls.push(Call::UnallowRo(driver_num, buffer_num));
    }

    fn unallow_rw(&mut self, driver_num: u32, buffer_num: u32) {
        self.calls.push(Call::UnallowRw(driver_num, buffer_num));
    }

    fn subscribe(&mut self, driver_num: u32, subscribe_id: u32) -> Result<(), ErrorCode> {
        self.calls.push(Call::Subscribe(driver_num, subscribe_id));
        self.subscribe
    }

    fn unsubscribe(&mut self, driver_num: u32, subscribe_id: u32) {
        self.calls.push(Call::Unsubscribe(driver_num, subscribe_id));
    }

    fn yield_wait(&mut self) -> Option<Upcall> {
        self.calls.push(Call::YieldWait);
        self.upcalls.pop()
    }
}

fn ok(_: u32, _: u32, _: u32) -> CommandReturn {
    CommandReturn::Success
}

fn no_device(_: u32, _: u32, _: u32) -> CommandReturn {
    CommandReturn::Failure(ErrorCode::NoDevice)
}

fn invalid(_: u32, _: u32, _: u32) -> CommandReturn {
    CommandReturn::Failure(ErrorCode::Invalid)
}

#[test]
fn from_array_is_not_allowed_and_keeps_the_bytes() {
    let buffer: AllowRoBuffer<Fake, 1, 1, 4> = AllowRoBuffer::from_array([1, 2, 3, 4]);
    assert!(!buffer.allowed());
    assert_eq!(buffer.buffer, [1, 2, 3, 4]);
}

#[test]
fn default_buffer_is_zeroed_and_not_allowed() {
    let buffer: AllowRoBuffer<Fake, 1, 1, 3> = AllowRoBuffer::default();
    assert!(!buffer.allowed());
    assert_eq!(buffer.buffer, [0, 0, 0]);
}

#[test]
fn allow_is_idempotent() {
    let mut k = kernel_with(ok, Ok(true), Ok(()), Vec::new());
    let mut buffer: AllowRoBuffer<Fake, 1, 1, 2> = AllowRoBuffer::from_array([7, 8]);
    assert_eq!(buffer.allow::<DefaultConfig>(&mut k), Ok(()));
    assert!(buffer.allowed());
    assert_eq!(buffer.allow::<DefaultConfig>(&mut k), Ok(()));
    assert!(buffer.allowed());
    assert_eq!(buffer.buffer, [7, 8]);
    assert_eq!(k.raw().calls, vec![Call::AllowRo(1, 1, vec![7, 8])]);
}

#[test]
fn refused_allow_records_no_grant_and_is_asked_again() {
    let mut k = kernel_with(ok, Err(ErrorCode::NoMem), Ok(()), Vec::new());
    let mut buffer: AllowRoBuffer<Fake, 1, 1, 2> = AllowRoBuffer::from_array([7, 8]);
    assert_eq!(buffer.allow::<DefaultConfig>(&mut k), Err(ErrorCode::NoMem));
    assert!(!buffer.allowed());
    assert_eq!(buffer.allow::<DefaultConfig>(&mut k), Err(ErrorCode::NoMem));
    assert!(!buffer.allowed());
    buffer.unallow(&mut k);
    assert_eq!(
        k.raw().calls,
        vec![Call::AllowRo(1, 1, vec![7, 8]), Call::AllowRo(1, 1, vec![7, 8])]
    );
    assert_eq!(buffer.bytes(), &[7, 8]);
}

#[test]
fn unallow_is_idempotent() {
    let mut k = kernel(ok);
    let mut buffer: AllowRoBuffer<Fake, 1, 1, 2> = AllowRoBuffer::from_array([7, 8]);
    buffer.unallow(&mut k);
    assert!(!buffer.allowed());
    assert!(k.raw().calls.is_empty());
    buffer.allow::<DefaultConfig>(&mut k).unwrap();
    buffer.unallow(&mut k);
    assert!(!buffer.allowed());
    buffer.unallow(&mut k);
    assert!(!buffer.allowed());
    assert_eq!(buffer.buffer, [7, 8]);
    assert_eq!(
        k.raw().calls,
        vec![Call::AllowRo(1, 1, vec![7, 8]), Call::UnallowRo(1, 1)]
    );
}

#[test]
fn any_sequence_of_allow_and_unallow_ends_revoked_after_the_scope() {
    let mut k = kernel(ok);
    let mut buffer: AllowRoBuffer<Fake, 1, 1, 2> = AllowRoBuffer::from_array([1, 2]);
    for round in 0..6 {
        if round % 3 == 1 {
            buffer.unallow(&mut k);
        } else {
            buffer.allow::<DefaultConfig>(&mut k).unwrap();
        }
    }
    assert!(buffer.allowed());
    assert_eq!(buffer.with_grant::<DefaultConfig>(&mut k, 1, 2, 0), Ok(()));
    assert!(!buffer.allowed());
    assert_eq!(k.raw().calls.last(), Some(&Call::UnallowRo(1, 1)));
    buffer.allow::<DefaultConfig>(&mut k).unwrap();
    assert_eq!(buffer.release(&mut k), [1, 2]);
    assert_eq!(k.raw().calls.last(), Some(&Call::UnallowRo(1, 1)));
    let allows = k.raw().calls.iter().filter(|c| matches!(c, Call::AllowRo(..))).count();
    let unallows = k.raw().calls.iter().filter(|c| matches!(c, Call::UnallowRo(..))).count();
    assert_eq!(allows, unallows);
}

#[test]
fn with_grant_allows_commands_and_revokes() {
    let mut k = kernel(ok);
    let mut buffer: AllowRoBuffer<Fake, 0x20003, 0, 2> = AllowRoBuffer::from_array([1, 2]);
    assert_eq!(buffer.with_grant::<DefaultConfig>(&mut k, 1, 0x50, 2), Ok(()));
    assert_eq!(
        k.raw().calls,
        vec![
            Call::AllowRo(0x20003, 0, vec![1, 2]),
            Call::Command(0x20003, 1, 0x50, 2),
            Call::UnallowRo(0x20003, 0),
        ]
    );
}

#[test]
fn with_grant_revokes_on_the_failure_paths() {
    let mut k = kernel_with(ok, Err(ErrorCode::NoMem), Ok(()), Vec::new());
    let mut refused: AllowRoBuffer<Fake, 1, 1, 2> = AllowRoBuffer::from_array([1, 2]);
    assert_eq!(
        refused.with_grant::<DefaultConfig>(&mut k, 1, 2, 0),
        Err(ErrorCode::NoMem)
    );
    assert!(!refused.allowed());
    assert_eq!(k.raw().calls, vec![Call::AllowRo(1, 1, vec![1, 2])]);

    let mut k = kernel(invalid);
    let mut failed: AllowRoBuffer<Fake, 1, 1, 2> = AllowRoBuffer::from_array([1, 2]);
    assert_eq!(
        failed.with_grant::<DefaultConfig>(&mut k, 1, 2, 0),
        Err(ErrorCode::Invalid)
    );
    assert!(!failed.allowed());
    assert_eq!(failed.buffer, [1, 2]);
    assert_eq!(
        k.raw().calls,
        vec![
            Call::AllowRo(1, 1, vec![1, 2]),
            Call::Command(1, 1, 2, 0),
            Call::UnallowRo(1, 1),
        ]
    );
}

#[test]
fn command_under_grant_leaves_the_grant() {
    let mut k = kernel(ok);
    let mut buffer: AllowRoBuffer<Fake, 1, 1, 1> = AllowRoBuffer::from_array([9]);
    assert_eq!(buffer.command_under_grant::<DefaultConfig>(&mut k, 1, 1, 0), Ok(()));
    assert!(buffer.allowed());
    assert_eq!(buffer.command_under_grant::<DefaultConfig>(&mut k, 1, 1, 0), Ok(()));
    assert_eq!(
        k.raw().calls,
        vec![
            Call::AllowRo(1, 1, vec![9]),
            Call::Command(1, 1, 1, 0),
            Call::Command(1, 1, 1, 0),
        ]
    );
}

#[test]
fn get_mut_buffer_revokes_before_it_hands_out_the_memory() {
    let mut k = kernel(ok);
    let mut buffer: AllowRoBuffer<Fake, 1, 1, 2> = AllowRoBuffer::from_array([1, 2]);
    buffer.allow::<DefaultConfig>(&mut k).unwrap();
    {
        let bytes = buffer.get_mut_buffer(&mut k);
        bytes[1] = 9;
    }
    assert!(!buffer.allowed());
    assert_eq!(buffer.buffer, [1, 9]);
    assert_eq!(k.raw().calls.last(), Some(&Call::UnallowRo(1, 1)));
}

#[test]
fn scope_handle_tracks_the_grant() {
    let mut k = kernel(ok);
    let mut scope: AllowRo<Fake, 0x20007, 0> = AllowRo::default();
    assert!(!scope.shared());
    assert_eq!(scope.share::<DefaultConfig, 3>(&mut k, &[1, 2, 3]), Ok(()));
    assert!(scope.shared());
    scope.revoke(&mut k);
    assert!(!scope.shared());
    assert_eq!(
        k.raw().calls,
        vec![Call::AllowRo(0x20007, 0, vec![1, 2, 3]), Call::UnallowRo(0x20007, 0)]
    );

    let mut k = kernel_with(ok, Err(ErrorCode::NoMem), Ok(()), Vec::new());
    let mut refused: AllowRo<Fake, 0x20007, 0> = AllowRo::default();
    assert_eq!(
        refused.share::<DefaultConfig, 3>(&mut k, &[1, 2, 3]),
        Err(ErrorCode::NoMem)
    );
    assert!(!refused.shared());
    refused.revoke(&mut k);
    assert!(!refused.shared());
    assert_eq!(k.raw().calls.last(), Some(&Call::UnallowRo(0x20007, 0)));
}

#[test]
fn read_write_buffer_follows_the_same_discipline() {
    let mut k = kernel_with(ok, Ok(false), Ok(()), vec![0x5A]);
    let mut buffer: AllowRwBuffer<Fake, 1, 1, 2> = AllowRwBuffer::from_array([0, 0]);
    assert!(!buffer.allowed());
    assert_eq!(buffer.allow::<DefaultConfig>(&mut k), Ok(()));
    assert!(buffer.allowed());
    assert_eq!(buffer.allow::<DefaultConfig>(&mut k), Ok(()));
    buffer.unallow(&mut k);
    assert!(!buffer.allowed());
    assert_eq!(buffer.buffer, [0x5A, 0]);
    buffer.unallow(&mut k);
    assert_eq!(buffer.release(&mut k), [0x5A, 0]);
    assert_eq!(k.raw().calls, vec![Call::AllowRw(1, 1), Call::UnallowRw(1, 1)]);

    let mut k = kernel_with(ok, Err(ErrorCode::NoMem), Ok(()), Vec::new());
    let mut refused: AllowRwBuffer<Fake, 1, 1, 2> = AllowRwBuffer::from_array([3, 4]);
    assert_eq!(refused.allow::<DefaultConfig>(&mut k), Err(ErrorCode::NoMem));
    assert!(!refused.allowed());
    assert_eq!(refused.bytes(), &[3, 4]);
    assert_eq!(refused.release(&mut k), [3, 4]);
    assert_eq!(k.into_raw().calls, vec![Call::AllowRw(1, 1)]);
}

#[test]
fn read_write_command_under_grant() {
    let mut k = kernel(invalid);
    let mut buffer: AllowRwBuffer<Fake, 1, 1, 2> = AllowRwBuffer::from_array([0, 0]);
    assert_eq!(
        buffer.command_under_grant::<DefaultConfig>(&mut k, 2, 2, 0),
        Err(ErrorCode::Invalid)
    );
    assert!(buffer.allowed());
    assert_eq!(k.raw().calls, vec![Call::AllowRw(1, 1), Call::Command(1, 2, 2, 0)]);
}

#[test]
fn scope_revokes_at_its_end_whatever_the_callers_code_did() {
    let mut k = kernel(ok);
    let memory = AllowRoBuffer::<Fake, 1, 1, 3>::scoped(
        [1, 2, 3],
        &mut k,
        |buffer: &mut AllowRoBuffer<Fake, 1, 1, 3>, k: &mut Kernel<Fake>| {
            buffer.allow::<DefaultConfig>(k).unwrap();
            k.command(1, 1, 3, 0);
        },
    );
    assert_eq!(memory, [1, 2, 3]);
    assert_eq!(
        k.raw().calls,
        vec![
            Call::AllowRo(1, 1, vec![1, 2, 3]),
            Call::Command(1, 1, 3, 0),
            Call::UnallowRo(1, 1),
        ]
    );

    let mut k = kernel(ok);
    let memory = AllowRoBuffer::<Fake, 1, 1, 3>::scoped(
        [4, 5, 6],
        &mut k,
        |buffer: &mut AllowRoBuffer<Fake, 1, 1, 3>, _: &mut Kernel<Fake>| {
            buffer.buffer[0] = 9;
        },
    );
    assert_eq!(memory, [9, 5, 6]);
    assert!(k.raw().calls.is_empty());
}

#[test]
fn read_write_scope_hands_back_what_the_kernel_wrote() {
    let mut k = kernel_with(ok, Ok(false), Ok(()), vec![0xAB, 0xCD]);
    let mut early = false;
    let memory = AllowRwBuffer::<Fake, 1, 1, 2>::scoped(
        [0, 0],
        &mut k,
        |buffer: &mut AllowRwBuffer<Fake, 1, 1, 2>, k: &mut Kernel<Fake>| {
            if buffer.allow::<DefaultConfig>(k).is_ok() {
                early = true;
            }
        },
    );
    assert!(early);
    assert_eq!(memory, [0xAB, 0xCD]);
    assert_eq!(k.raw().calls, vec![Call::AllowRw(1, 1), Call::UnallowRw(1, 1)]);
}
