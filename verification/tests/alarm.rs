use std::cell::Cell;

use tock_async::alarm::{Alarm, AlarmListener, Convert, Hz, Milliseconds, Ticks};
use tock_async::error::ErrorCode;
use tock_async::syscalls::{CommandReturn, Kernel, Syscalls, Upcall};

#[derive(Debug, Clone, PartialEq)]
enum Call {
    Command(u32, u32, u32, u32),
    AllowRo(u32, u32, Vec<u8>),
    AllowRw(u32, u32),
    UnallowRo(u32, u32),
    UnallowRw(u32, u32),
    Subscribe(u32, u32),
    Unsubscribe(u32, u32),
    YieldWait,
}

/// A kernel that records every call and answers as it was told to.
struct Fake {
    calls: Vec<Call>,
    command: fn(u32, u32, u32) -> CommandReturn,
    allow: Result<bool, ErrorCode>,
    subscribe: Result<(), ErrorCode>,
    fill: Vec<u8>,
    upcalls: Vec<Upcall>,
}

fn kernel(command: fn(u32, u32, u32) -> CommandReturn) -> Kernel<Fake> {
    Kernel::new(Fake {
        calls: Vec::new(),
        command,
        allow: Ok(false),
        subscribe: Ok(()),
        fill: Vec::new(),
        upcalls: Vec::new(),
    })
}

fn kernel_with(
    command: fn(u32, u32, u32) -> CommandReturn,
    allow: Result<bool, ErrorCode>,
    subscribe: Result<(), ErrorCode>,
    fill: Vec<u8>,
) -> Kernel<Fake> {
    Kernel::new(Fake { calls: Vec::new(), command, allow, subscribe, fill, upcalls: Vec::new() })
}

impl Syscalls for Fake {
    fn command(&mut self, driver_num: u32, command_id: u32, arg0: u32, arg1: u32) -> CommandReturn {
        self.calls.push(Call::Command(driver_num, command_id, arg0, arg1));
        (self.command)(command_id, arg0, arg1)
    }

    fn allow_ro<const N: usize>(
        &mut self,
        driver_num: u32,
        buffer_num: u32,
        buffer: &[u8; N],
    ) -> Result<bool, ErrorCode> {
        self.calls.push(Call::AllowRo(driver_num, buffer_num, buffer.to_vec()));
        self.allow
    }

    fn allow_rw<const N: usize>(
        &mut self,
        driver_num: u32,
        buffer_num: u32,
        buffer: &mut [u8; N],
    ) -> Result<bool, ErrorCode> {
        self.calls.push(Call::AllowRw(driver_num, buffer_num));
        if self.allow.is_ok() {
            let n = self.fill.len().min(N);
            buffer[..n].copy_from_slice(&self.fill[..n]);
        }
        self.allow
    }

    fn unallow_ro(&mut self, driver_num: u32, buffer_num: u32) {
        self.calls.push(Call::UnallowRo(driver_num, buffer_num));
    }

    fn unallow_rw(&mut self, driver_num: u32, buffer_num: u32) {
        self.calls.push(Call::UnallowRw(driver_num, buffer_num));
    }

    fn subscribe(&mut self, driver_num: u32, subscribe_id: u32) -> Result<(), ErrorCode> {
        self.calls.push(Call::Subscribe(driver_num, subscribe_id));
        self.subscribe
    }

    fn unsubscribe(&mut self, driver_num: u32, subscribe_id: u32) {
        self.calls.push(Call::Unsubscribe(driver_num, subscribe_id));
    }

    fn yield_wait(&mut self) -> Option<Upcall> {
        self.calls.push(Call::YieldWait);
        self.upcalls.pop()
    }
}

fn ok(_: u32, _: u32, _: u32) -> CommandReturn {
    CommandReturn::Success
}

fn no_device(_: u32, _: u32, _: u32) -> CommandReturn {
    CommandReturn::Failure(ErrorCode::NoDevice)
}

/// An alarm capsule at 2000 Hz whose tick counter reads 5000.
fn two_khz(command_id: u32, arg0: u32, arg1: u32) -> CommandReturn {
    match command_id {
        0 | 3 => CommandReturn::Success,
        1 => CommandReturn::SuccessU32(2000),
        2 => CommandReturn::SuccessU32(5000),
        5 => CommandReturn::SuccessU32(5000 + arg0),
        6 => CommandReturn::SuccessU32(arg0 + arg1),
        _ => CommandReturn::Failure(ErrorCode::NoSupport),
    }
}

/// An alarm capsule at 500 Hz.
fn slow(command_id: u32, _: u32, _: u32) -> CommandReturn {
    match command_id {
        1 => CommandReturn::SuccessU32(500),
        2 => CommandReturn::SuccessU32(5000),
        _ => CommandReturn::Success,
    }
}

/// An alarm capsule that answers the time but not the frequency.
fn no_frequency(command_id: u32, _: u32, _: u32) -> CommandReturn {
    match command_id {
        1 => CommandReturn::Failure(ErrorCode::Fail),
        2 => CommandReturn::SuccessU32(5000),
        _ => CommandReturn::Success,
    }
}

#[test]
fn ticks_convert_to_themselves() {
    assert_eq!(Ticks(0).to_ticks(Hz(1000)).0, 0);
    assert_eq!(Ticks(12345).to_ticks(Hz(1)).0, 12345);
    assert_eq!(Ticks(u32::MAX).to_ticks(Hz(u32::MAX)).0, u32::MAX);
}

#[test]
fn milliseconds_round_up() {
    assert_eq!(Milliseconds(0).to_ticks(Hz(32768)).0, 0);
    assert_eq!(Milliseconds(1000).to_ticks(Hz(1000)).0, 1000);
    assert_eq!(Milliseconds(1).to_ticks(Hz(1)).0, 1);
    assert_eq!(Milliseconds(1).to_ticks(Hz(1000)).0, 1);
    assert_eq!(Milliseconds(1).to_ticks(Hz(1001)).0, 2);
    assert_eq!(Milliseconds(2500).to_ticks(Hz(32768)).0, 81920);
    assert_eq!(Milliseconds(3).to_ticks(Hz(333)).0, 1);
    assert_eq!(Milliseconds(5).to_ticks(Hz(0)).0, 0);
}

#[test]
fn milliseconds_saturate_instead_of_wrapping() {
    assert_eq!(Milliseconds(u32::MAX).to_ticks(Hz(2)).0, 4_294_968);
    assert_eq!(Milliseconds(u32::MAX).to_ticks(Hz(u32::MAX)).0, 4_294_968);
    assert_eq!(Milliseconds(65536).to_ticks(Hz(65536)).0, 4_294_968);
    assert_eq!(Milliseconds(65535).to_ticks(Hz(65536)).0, 4_294_902);
}

#[test]
fn milliseconds_of_divides_by_whole_kilohertz() {
    assert_eq!(Alarm::<Fake>::milliseconds_of(5000, Hz(2000)), 2500);
    assert_eq!(Alarm::<Fake>::milliseconds_of(5000, Hz(1000)), 5000);
    assert_eq!(Alarm::<Fake>::milliseconds_of(5000, Hz(1999)), 5000);
    assert_eq!(Alarm::<Fake>::milliseconds_of(u32::MAX, Hz(u32::MAX)), 1000);
    assert_eq!(Alarm::<Fake>::milliseconds_of(0, Hz(32768)), 0);
}

#[test]
fn alarm_commands_carry_their_numbers() {
    let mut k = kernel(two_khz);
    assert_eq!(Alarm::driver_exists(&mut k), Ok(()));
    assert_eq!(Alarm::get_frequency(&mut k), Ok(Hz(2000)));
    assert_eq!(Alarm::get_ticks(&mut k), Ok(5000));
    assert_eq!(Alarm::cancel(&mut k), Ok(()));
    assert_eq!(Alarm::register_listener(&mut k), Ok(()));
    Alarm::unregister_listener(&mut k);
    assert_eq!(
        k.raw().calls,
        vec![
            Call::Command(0, 0, 0, 0),
            Call::Command(0, 1, 0, 0),
            Call::Command(0, 2, 0, 0),
            Call::Command(0, 3, 0, 0),
            Call::Subscribe(0, 0),
            Call::Unsubscribe(0, 0),
        ]
    );
}

#[test]
fn commands_hand_on_failures_and_unexpected_shapes() {
    let mut k = kernel(no_device);
    assert_eq!(Alarm::driver_exists(&mut k), Err(ErrorCode::NoDevice));
    assert_eq!(Alarm::get_ticks(&mut k), Err(ErrorCode::NoDevice));
    let mut k = kernel(ok);
    assert_eq!(Alarm::get_ticks(&mut k), Err(ErrorCode::BadRVal));
    assert_eq!(Alarm::get_frequency(&mut k), Err(ErrorCode::BadRVal));
    assert_eq!(Alarm::driver_exists(&mut kernel(two_khz)), Ok(()));
}

#[test]
fn get_milliseconds_asks_time_then_frequency() {
    let mut k = kernel(two_khz);
    assert_eq!(Alarm::get_milliseconds(&mut k), Ok(2500));
    assert_eq!(
        k.raw().calls,
        vec![Call::Command(0, 2, 0, 0), Call::Command(0, 1, 0, 0)]
    );
    assert_eq!(
        Alarm::get_milliseconds(&mut kernel(slow)),
        Err(ErrorCode::NoSupport)
    );
    assert_eq!(
        Alarm::get_milliseconds(&mut kernel(no_frequency)),
        Err(ErrorCode::Fail)
    );
    let mut k = kernel(no_device);
    assert_eq!(Alarm::get_milliseconds(&mut k), Err(ErrorCode::NoDevice));
    assert_eq!(k.raw().calls, vec![Call::Command(0, 2, 0, 0)]);
}

#[test]
fn set_relative_converts_at_the_frequency_asked() {
    let mut k = kernel(two_khz);
    assert_eq!(Alarm::set_relative(&mut k, Milliseconds(10)), Ok(5020));
    assert_eq!(Alarm::set_relative(&mut k, Ticks(7)), Ok(5007));
    assert_eq!(
        k.raw().calls,
        vec![
            Call::Command(0, 1, 0, 0),
            Call::Command(0, 5, 20, 0),
            Call::Command(0, 1, 0, 0),
            Call::Command(0, 5, 7, 0),
        ]
    );
    let mut k = kernel(no_frequency);
    assert_eq!(Alarm::set_relative(&mut k, Ticks(7)), Err(ErrorCode::Fail));
    assert_eq!(k.raw().calls, vec![Call::Command(0, 1, 0, 0)]);
}

#[test]
fn set_absolute_converts_both_arguments() {
    let mut k = kernel(two_khz);
    assert_eq!(
        Alarm::set_absolute(&mut k, Ticks(100), Milliseconds(3)),
        Ok(106)
    );
    assert_eq!(
        k.raw().calls,
        vec![Call::Command(0, 1, 0, 0), Call::Command(0, 6, 100, 6)]
    );
}

#[test]
fn listener_hands_the_firing_to_its_function() {
    let seen = Cell::new((0u32, 0u32));
    let listener = AlarmListener(|now, expiration| seen.set((now, expiration)));
    listener.upcall(17, 42, 99);
    assert_eq!(seen.get(), (17, 42));
}

/// An alarm capsule that tells its frequency and refuses to be armed.
fn no_arming(command_id: u32, _: u32, _: u32) -> CommandReturn {
    match command_id {
        1 => CommandReturn::SuccessU32(1000),
        _ => CommandReturn::Failure(ErrorCode::Off),
    }
}

#[test]
fn sleep_begin_asks_the_frequency_subscribes_and_arms() {
    let mut k = kernel(two_khz);
    assert_eq!(Alarm::sleep_begin(&mut k, Milliseconds(2500)), Ok(()));
    assert_eq!(
        k.raw().calls,
        vec![
            Call::Command(0, 1, 0, 0),
            Call::Subscribe(0, 0),
            Call::Command(0, 5, 5000, 0),
        ]
    );
}

#[test]
fn sleep_begin_without_frequency_subscribes_nothing() {
    let mut k = kernel(no_frequency);
    assert_eq!(Alarm::sleep_begin(&mut k, Ticks(5)), Err(ErrorCode::Fail));
    assert_eq!(k.raw().calls, vec![Call::Command(0, 1, 0, 0)]);
}

#[test]
fn failed_sleep_begin_revokes_the_subscription() {
    let mut k = kernel(no_arming);
    assert_eq!(Alarm::sleep_begin(&mut k, Ticks(5)), Err(ErrorCode::Off));
    assert_eq!(
        k.raw().calls,
        vec![
            Call::Command(0, 1, 0, 0),
            Call::Subscribe(0, 0),
            Call::Command(0, 5, 5, 0),
            Call::Unsubscribe(0, 0),
        ]
    );
    let mut k = kernel_with(two_khz, Ok(false), Err(ErrorCode::NoMem), Vec::new());
    assert_eq!(Alarm::sleep_begin(&mut k, Ticks(5)), Err(ErrorCode::NoMem));
    assert_eq!(
        k.raw().calls,
        vec![Call::Command(0, 1, 0, 0), Call::Subscribe(0, 0), Call::Unsubscribe(0, 0)]
    );
}

#[test]
fn only_an_alarm_firing_ends_a_sleep() {
    let firing = Upcall { driver_num: 0, subscribe_id: 0, arg0: 1, arg1: 2, arg2: 3 };
    assert!(Alarm::<Fake>::is_wake(&firing));
    assert!(!Alarm::<Fake>::is_wake(&Upcall { driver_num: 1, ..firing }));
    assert!(!Alarm::<Fake>::is_wake(&Upcall { subscribe_id: 1, ..firing }));
}
