//! The alarm peripheral: time units and the commands that read the hardware
//! tick counter and arm the one physical alarm.

use crate::error::ErrorCode;
use crate::syscalls::{
    command_call,
    subscribe_call,
    CommandReturn,
    Kernel,
    Syscall,
    Syscalls,
    Upcall,
};
use core::marker::PhantomData;
use vstd::prelude::*;

verus! {

/// The driver number of the alarm capsule.
pub const DRIVER_NUM: u32 = 0x0;

/// Command: is the capsule present.
pub const EXISTS: u32 = 0;

/// Command: the tick frequency.
pub const FREQUENCY: u32 = 1;

/// Command: the current tick count.
pub const TIME: u32 = 2;

/// Command: disarm the alarm.
pub const STOP: u32 = 3;

/// Command: arm the alarm relative to now.
pub const SET_RELATIVE: u32 = 5;

/// Command: arm the alarm relative to a reference tick count.
pub const SET_ABSOLUTE: u32 = 6;

/// The subscribe id on which the alarm reports that it fired.
pub const CALLBACK: u32 = 0;

/// A frequency, in ticks per second.
#[derive(Copy, Clone, Debug, PartialEq, Eq, Structural)]
pub struct Hz(pub u32);

/// A number of hardware ticks.
#[derive(Copy, Clone, Debug)]
pub struct Ticks(pub u32);

/// A number of milliseconds.
#[derive(Copy, Clone)]
pub struct Milliseconds(pub u32);

/// The ticks that `ms` milliseconds take at `freq` ticks per second: the
/// product, capped at `u32::MAX`, divided by a thousand and rounded up.
pub open spec fn millis_to_ticks(ms: u32, freq: u32) -> u32 {
    let product = if ms * freq > u32::MAX {
        u32::MAX as int
    } else {
        ms * freq
    };
    ((product + 999) / 1000) as u32
}

/// A time unit that converts to ticks.
pub trait Convert: Sized {
    /// The number of ticks that the value stands for at `freq`.
    spec fn ticks_at(self, freq: Hz) -> u32;

    /// Converts a time unit by rounding up.
    fn to_ticks(self, freq: Hz) -> (t: Ticks)
        ensures
            t.0 == self.ticks_at(freq),
    ;
}

impl Convert for Ticks {
    open spec fn ticks_at(self, freq: Hz) -> u32 {
        self.0
    }

    fn to_ticks(self, _freq: Hz) -> (t: Ticks) {
        self
    }
}

impl Convert for Milliseconds {
    open spec fn ticks_at(self, freq: Hz) -> u32 {
        millis_to_ticks(self.0, freq.0)
    }

    /// The multiplication saturates: a long sleep is capped, never wrapped
    /// into a short one.
    fn to_ticks(self, freq: Hz) -> (t: Ticks) {
        let product: u32 = match self.0.checked_mul(freq.0) {
            Some(p) => p,
            None => u32::MAX,
        };
        let d: u32 = product / 1000;
        let m: u32 = product % 1000;
        if m == 0 {
            Ticks(d)
        } else {
            Ticks(d + 1)
        }
    }
}

/// The milliseconds that `ticks` ticks make at `freq` ticks per second,
/// with the frequency first cut down to whole kilohertz.
pub open spec fn ticks_to_millis(ticks: u32, freq: u32) -> int
    recommends
        freq >= 1000,
{
    ticks as int / (freq as int / 1000)
}

/// What the frequency command's answer means.
pub open spec fn frequency_result(ret: CommandReturn) -> Result<Hz, ErrorCode> {
    match ret.u32_result() {
        Ok(f) => Ok(Hz(f)),
        Err(e) => Err(e),
    }
}

/// The time in milliseconds that the answers to the time command and to
/// the frequency command make. A frequency under one kilohertz, which has
/// no whole tick per millisecond, is `NoSupport`.
pub open spec fn milliseconds_result(ticks: u32, freq: u32) -> Result<u64, ErrorCode> {
    if freq < 1000 {
        Err(ErrorCode::NoSupport)
    } else {
        Ok(ticks_to_millis(ticks, freq) as u64)
    }
}

/// The calls `after` are the calls `before` followed by what arming the
/// alarm makes: the frequency command, and where that gave a frequency,
/// the command `command_id` with `first` and `second` converted to ticks
/// at that frequency, whose answer is the result `r`.
pub open spec fn armed_by<A: Convert, B: Convert>(
    before: Seq<Syscall>,
    after: Seq<Syscall>,
    command_id: u32,
    first: A,
    second: B,
    r: Result<u32, ErrorCode>,
) -> bool {
    exists|freq: CommandReturn|
        {
            let asked = before.push(#[trigger] command_call(DRIVER_NUM, FREQUENCY, 0, 0, freq));
            match freq.u32_result() {
                Err(e) => after == asked && r == Err::<u32, ErrorCode>(e),
                Ok(f) => exists|ret: CommandReturn|
                    after == asked.push(
                        #[trigger] command_call(
                            DRIVER_NUM,
                            command_id,
                            first.ticks_at(Hz(f)),
                            second.ticks_at(Hz(f)),
                            ret,
                        ),
                    ) && r == ret.u32_result(),
            }
        }
}

/// The calls of the start of a sleep and its result: the frequency
/// command; where that gave a frequency, the subscription to the alarm's
/// firings; where that was accepted, the arming `time` from now, converted
/// at that frequency. The first error is the result, and after an error of
/// the subscription or of the arming the subscription is revoked.
pub open spec fn sleep_started<T: Convert>(
    before: Seq<Syscall>,
    after: Seq<Syscall>,
    time: T,
    r: Result<(), ErrorCode>,
) -> bool {
    let revoke = Syscall::Unsubscribe { driver_num: DRIVER_NUM, subscribe_id: CALLBACK };
    exists|freq: CommandReturn|
        {
            let asked = before.push(#[trigger] command_call(DRIVER_NUM, FREQUENCY, 0, 0, freq));
            match freq.u32_result() {
                Err(e) => after == asked && r == Err::<(), ErrorCode>(e),
                Ok(f) => exists|accepted: Result<(), ErrorCode>|
                    {
                        let subscribed = asked.push(
                            #[trigger] subscribe_call(DRIVER_NUM, CALLBACK, accepted),
                        );
                        match accepted {
                            Err(e) => after == subscribed.push(revoke) && r == Err::<
                                (),
                                ErrorCode,
                            >(e),
                            Ok(()) => exists|ret: CommandReturn|
                                {
                                    let armed = subscribed.push(
                                        #[trigger] command_call(
                                            DRIVER_NUM,
                                            SET_RELATIVE,
                                            time.ticks_at(Hz(f)),
                                            0,
                                            ret,
                                        ),
                                    );
                                    match ret.u32_result() {
                                        Ok(_) => after == armed && r.is_ok(),
                                        Err(e) => after == armed.push(revoke) && r == Err::<
                                            (),
                                            ErrorCode,
                                        >(e),
                                    }
                                },
                        }
                    },
            }
        }
}

/// The alarm driver over the kernel `S`.
pub struct Alarm<S: Syscalls>(PhantomData<S>);

impl<S: Syscalls> Alarm<S> {
    /// Asks the kernel whether the alarm capsule is present.
    pub fn driver_exists(k: &mut Kernel<S>) -> (r: Result<(), ErrorCode>)
        ensures
            exists|ret: CommandReturn|
                final(k).calls() == old(k).calls().push(
                    #[trigger] command_call(DRIVER_NUM, EXISTS, 0, 0, ret),
                ) && r == ret.unit_result(),
    {
        k.command(DRIVER_NUM, EXISTS, 0, 0).to_result_unit()
    }

    /// Asks the kernel for the tick frequency.
    pub fn get_frequency(k: &mut Kernel<S>) -> (r: Result<Hz, ErrorCode>)
        ensures
            exists|ret: CommandReturn|
                final(k).calls() == old(k).calls().push(
                    #[trigger] command_call(DRIVER_NUM, FREQUENCY, 0, 0, ret),
                ) && r == frequency_result(ret),
    {
        match k.command(DRIVER_NUM, FREQUENCY, 0, 0).to_result_u32() {
            Ok(f) => Ok(Hz(f)),
            Err(e) => Err(e),
        }
    }

    /// Asks the kernel for the current value of the hardware tick counter.
    pub fn get_ticks(k: &mut Kernel<S>) -> (r: Result<u32, ErrorCode>)
        ensures
            exists|ret: CommandReturn|
                final(k).calls() == old(k).calls().push(
                    #[trigger] command_call(DRIVER_NUM, TIME, 0, 0, ret),
                ) && r == ret.u32_result(),
    {
        k.command(DRIVER_NUM, TIME, 0, 0).to_result_u32()
    }

    /// The milliseconds that a tick count makes at a frequency of at least
    /// one kilohertz.
    pub fn milliseconds_of(ticks: u32, freq: Hz) -> (ms: u64)
        requires
            freq.0 >= 1000,
        ensures
            ms == ticks_to_millis(ticks, freq.0),
    {
        let t: u64 = ticks as u64;
        let f: u64 = freq.0 as u64;
        t / (f / 1000)
    }

    /// The current time in milliseconds: asks for the tick count, then for
    /// the frequency. The first error is handed on, and ends the calls.
    pub fn get_milliseconds(k: &mut Kernel<S>) -> (r: Result<u64, ErrorCode>)
        ensures
            exists|time: CommandReturn|
                {
                    let asked = old(k).calls().push(
                        #[trigger] command_call(DRIVER_NUM, TIME, 0, 0, time),
                    );
                    match time.u32_result() {
                        Err(e) => final(k).calls() == asked && r == Err::<u64, ErrorCode>(e),
                        Ok(ticks) => exists|freq: CommandReturn|
                            final(k).calls() == asked.push(
                                #[trigger] command_call(DRIVER_NUM, FREQUENCY, 0, 0, freq),
                            ) && r == (match freq.u32_result() {
                                Err(e) => Err::<u64, ErrorCode>(e),
                                Ok(f) => milliseconds_result(ticks, f),
                            }),
                    }
                },
    {
        let ticks = match Self::get_ticks(k) {
            Ok(t) => t,
            Err(e) => { return Err(e); },
        };
        let freq = match Self::get_frequency(k) {
            Ok(f) => f,
            Err(e) => { return Err(e); },
        };
        if freq.0 < 1000 {
            Err(ErrorCode::NoSupport)
        } else {
            Ok(Self::milliseconds_of(ticks, freq))
        }
    }

    /// Arms the alarm `time` from now; returns the tick count at which it
    /// will fire.
    pub fn set_relative<T: Convert>(k: &mut Kernel<S>, time: T) -> (r: Result<u32, ErrorCode>)
        ensures
            armed_by(old(k).calls(), final(k).calls(), SET_RELATIVE, time, Ticks(0), r),
    {
        let freq = match Self::get_frequency(k) {
            Ok(f) => f,
            Err(e) => { return Err(e); },
        };
        assert(Ticks(0).ticks_at(freq) == 0);
        k.command(DRIVER_NUM, SET_RELATIVE, time.to_ticks(freq).0, 0).to_result_u32()
    }

    /// Arms the alarm `time` after `reference`; returns the tick count at
    /// which it will fire.
    pub fn set_absolute<T: Convert, R: Convert>(k: &mut Kernel<S>, reference: R, time: T) -> (r:
        Result<u32, ErrorCode>)
        ensures
            armed_by(old(k).calls(), final(k).calls(), SET_ABSOLUTE, reference, time, r),
    {
        let freq = match Self::get_frequency(k) {
            Ok(f) => f,
            Err(e) => { return Err(e); },
        };
        k.command(
            DRIVER_NUM,
            SET_ABSOLUTE,
            reference.to_ticks(freq).0,
            time.to_ticks(freq).0,
        ).to_result_u32()
    }

    /// Starts a sleep of `time`: asks for the frequency, subscribes to the
    /// alarm's firings and arms the alarm. After success the caller waits,
    /// completion by completion, for one that [`Alarm::is_wake`] accepts,
    /// and ends with [`Alarm::unregister_listener`]. An error of the
    /// frequency is handed on before anything is subscribed; after an error
    /// of the subscription or of the arming the subscription is revoked and
    /// the error handed on.
    pub fn sleep_begin<T: Convert>(k: &mut Kernel<S>, time: T) -> (r: Result<(), ErrorCode>)
        ensures
            sleep_started(old(k).calls(), final(k).calls(), time, r),
    {
        let freq = match Self::get_frequency(k) {
            Ok(f) => f,
            Err(e) => { return Err(e); },
        };
        let ticks = time.to_ticks(freq);
        let r = match k.subscribe(DRIVER_NUM, CALLBACK) {
            Ok(()) => match k.command(DRIVER_NUM, SET_RELATIVE, ticks.0, 0).to_result_u32() {
                Ok(_) => Ok(()),
                Err(e) => Err(e),
            },
            Err(e) => Err(e),
        };
        if r.is_err() {
            k.unsubscribe(DRIVER_NUM, CALLBACK);
        }
        r
    }

    /// Whether a completion is a firing of the alarm, which ends a sleep.
    pub fn is_wake(upcall: &Upcall) -> (wake: bool)
        ensures
            wake == (upcall.driver_num == DRIVER_NUM && upcall.subscribe_id == CALLBACK),
    {
        upcall.driver_num == DRIVER_NUM && upcall.subscribe_id == CALLBACK
    }

    /// Disarms the alarm.
    pub fn cancel(k: &mut Kernel<S>) -> (r: Result<(), ErrorCode>)
        ensures
            exists|ret: CommandReturn|
                final(k).calls() == old(k).calls().push(
                    #[trigger] command_call(DRIVER_NUM, STOP, 0, 0, ret),
                ) && r == ret.unit_result(),
    {
        k.command(DRIVER_NUM, STOP, 0, 0).to_result_unit()
    }

    /// Asks that alarm firings be delivered.
    pub fn register_listener(k: &mut Kernel<S>) -> (r: Result<(), ErrorCode>)
        ensures
            final(k).calls() == old(k).calls().push(
                subscribe_call(DRIVER_NUM, CALLBACK, r),
            ),
    {
        k.subscribe(DRIVER_NUM, CALLBACK)
    }

    /// Stops the delivery of alarm firings.
    pub fn unregister_listener(k: &mut Kernel<S>)
        ensures
            final(k).calls() == old(k).calls().push(
                Syscall::Unsubscribe { driver_num: DRIVER_NUM, subscribe_id: CALLBACK },
            ),
    {
        k.unsubscribe(DRIVER_NUM, CALLBACK);
    }
}

/// A listener for the alarm's firings that hands each one to a function.
pub struct AlarmListener<F: Fn(u32, u32)>(pub F);

impl<F: Fn(u32, u32)> AlarmListener<F> {
    /// Handles one firing: calls the function with the tick count at the
    /// firing and the tick count that the alarm was set for.
    pub fn upcall(&self, now: u32, expiration: u32, _arg2: u32)
        requires
            self.0.requires((now, expiration)),
        ensures
            self.0.ensures((now, expiration), ()),
    {
        (self.0)(now, expiration)
    }
}

} // verus!
