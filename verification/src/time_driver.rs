//! The time driver: a 64-bit monotonic clock over a wrapping 32-bit tick
//! counter, and the decisions that keep the one physical alarm armed for the
//! nearer of the earliest pending deadline and the next wraparound.

use crate::alarm::{armed_by, Alarm, Ticks, DRIVER_NUM, EXISTS, FREQUENCY, SET_ABSOLUTE, STOP, TIME};
use crate::atomic::{
    counter_fetch_add,
    counter_load,
    counter_new,
    counter_value,
    flag_fetch_and,
    flag_load,
    flag_new,
    flag_store,
    flag_value,
};
use crate::deadline_queue::{
    earliest,
    is_earliest,
    lemma_earliest_after,
    lemma_earliest_is,
    lemma_min_exists,
    pending_after,
    queue_capacity,
    queue_deadlines,
    queue_new,
    queue_next_expiration,
    queue_schedule_wake,
    rescheduled,
};
use crate::error::ErrorCode;
use crate::syscalls::{command_call, CommandReturn, Kernel, Syscall, Syscalls};
use core::task::Waker;
use embassy_time_queue_utils::Queue;
use portable_atomic::{AtomicBool, AtomicU32};
use vstd::multiset::Multiset;
use vstd::prelude::*;

verus! {

/// The logical time at `ticks` after `overflows` wraparounds of the counter.
pub open spec fn logical_time(overflows: u32, ticks: u32) -> u64 {
    (overflows as int * 0x1_0000_0000 + ticks as int) as u64
}

/// The last instant before the tick counter next wraps around after `now`.
pub open spec fn next_overflow(now: u64) -> u64 {
    (now as int / 0x1_0000_0000 * 0x1_0000_0000 + 0xFFFF_FFFF) as u64
}

/// What to hand to the alarm's set-absolute command: fire `dt` ticks after
/// the tick count `reference`.
#[derive(Clone, Copy, Debug, PartialEq, Eq, Structural)]
pub struct AlarmCommand {
    pub reference: u32,
    pub dt: u32,
}

impl AlarmCommand {
    /// The logical instant at which an alarm armed at `now` with this
    /// command fires.
    pub open spec fn target(self, now: u64) -> int {
        now as int + self.dt as int
    }
}

/// Combines the overflow count and a reading of the tick counter.
pub fn combine(overflows: u32, ticks: u32) -> (now: u64)
    ensures
        now == logical_time(overflows, ticks),
        now == overflows as int * 0x1_0000_0000 + ticks as int,
{
    let high: u64 = (overflows as u64) << 32;
    assert(high == overflows as u64 * 0x1_0000_0000u64) by (bit_vector)
        requires
            high == (overflows as u64) << 32,
    ;
    high + (ticks as u64)
}

/// The next wraparound boundary: `now` with its low 32 bits all set.
pub fn overflow_boundary(now: u64) -> (boundary: u64)
    ensures
        boundary == next_overflow(now),
        now <= boundary <= now + 0xFFFF_FFFF,
{
    let boundary: u64 = now | 0xFFFF_FFFF;
    assert(boundary == now / 0x1_0000_0000u64 * 0x1_0000_0000u64 + 0xFFFF_FFFFu64 && now
        <= boundary && boundary - now <= 0xFFFF_FFFFu64) by (bit_vector)
        requires
            boundary == now | 0xFFFF_FFFF,
    ;
    boundary
}

/// Decides whether a change of the earliest deadline re-arms the alarm: it
/// does where `timestamp` comes before the next wraparound boundary. The
/// command then fires after the distance from `now` to `timestamp`, taken
/// in 32 bits; for a `timestamp` after `now` that is at `timestamp`.
pub fn plan_alarm(now: u64, timestamp: u64) -> (plan: Option<AlarmCommand>)
    ensures
        plan.is_some() <==> timestamp < next_overflow(now),
        plan matches Some(cmd) ==> cmd.reference == now % 0x1_0000_0000 && cmd.dt == (timestamp
            - now) % 0x1_0000_0000,
        plan matches Some(cmd) ==> (now < timestamp ==> cmd.target(now) == timestamp),
{
    let boundary = overflow_boundary(now);
    if timestamp < boundary {
        let reference: u32 = (now % 0x1_0000_0000) as u32;
        let distance: u64 = timestamp.wrapping_sub(now);
        let dt: u32 = (distance % 0x1_0000_0000) as u32;
        assert(dt == (timestamp - now) % 0x1_0000_0000) by {
            if timestamp >= now {
                assert(distance == timestamp - now);
            } else {
                assert(distance == timestamp - now + 0x1_0000_0000_0000_0000);
            }
        }
        Some(AlarmCommand { reference, dt })
    } else {
        None
    }
}

/// The state of the time driver: how often the tick counter has wrapped
/// around, whether the alarm now armed is aimed at the wraparound boundary,
/// the instant that it is aimed at, and the pending wake requests.
pub struct AsyncAlarmDriver {
    overflow_next: AtomicBool,
    overflows: AtomicU32,
    armed: u64,
    queue: Queue,
}

impl AsyncAlarmDriver {
    /// The number of wraparounds counted so far.
    pub closed spec fn overflow_count(&self) -> u32 {
        counter_value(self.overflows)
    }

    /// Whether the armed alarm is aimed at the wraparound boundary.
    pub closed spec fn overflow_pending(&self) -> bool {
        flag_value(self.overflow_next)
    }

    /// The expirations of the pending wake requests.
    pub closed spec fn deadlines(&self) -> Multiset<u64> {
        queue_deadlines(self.queue)
    }

    /// The logical instant that the alarm was last armed for; `u64::MAX`
    /// while the driver has armed none.
    pub closed spec fn armed_at(&self) -> u64 {
        self.armed
    }

    /// A driver that has counted no wraparound, holds no request and has
    /// armed no alarm.
    pub fn new() -> (driver: AsyncAlarmDriver)
        ensures
            driver.overflow_count() == 0,
            !driver.overflow_pending(),
            driver.deadlines() == Multiset::<u64>::empty(),
            driver.armed_at() == u64::MAX,
    {
        AsyncAlarmDriver {
            queue: queue_new(),
            overflows: counter_new(0),
            overflow_next: flag_new(false),
            armed: u64::MAX,
        }
    }

    /// The logical instant that the alarm was last armed for.
    pub fn armed_target(&self) -> (target: u64)
        ensures
            target == self.armed_at(),
    {
        self.armed
    }

    /// The number of wraparounds counted so far.
    pub fn overflows(&self) -> (count: u32)
        ensures
            count == self.overflow_count(),
    {
        counter_load(&self.overflows)
    }

    /// Whether the armed alarm is aimed at the wraparound boundary.
    pub fn is_overflow_next(&self) -> (pending: bool)
        ensures
            pending == self.overflow_pending(),
    {
        flag_load(&self.overflow_next)
    }

    /// The logical time at a reading `ticks` of the tick counter.
    pub fn now_at(&self, ticks: u32) -> (now: u64)
        ensures
            now == logical_time(self.overflow_count(), ticks),
    {
        combine(counter_load(&self.overflows), ticks)
    }

    /// Reads the tick counter and returns the logical time: one time
    /// command, whose answer is combined with the overflow count; a kernel
    /// error is handed on.
    pub fn now<S: Syscalls>(&self, k: &mut Kernel<S>) -> (r: Result<u64, ErrorCode>)
        ensures
            exists|ret: CommandReturn|
                final(k).calls() == old(k).calls().push(
                    #[trigger] command_call(DRIVER_NUM, TIME, 0, 0, ret),
                ) && r == (match ret.u32_result() {
                    Ok(ticks) => Ok::<u64, ErrorCode>(logical_time(self.overflow_count(), ticks)),
                    Err(e) => Err::<u64, ErrorCode>(e),
                }),
    {
        match Alarm::<S>::get_ticks(k) {
            Ok(ticks) => Ok(self.now_at(ticks)),
            Err(e) => Err(e),
        }
    }

    /// Aims the alarm at the first wraparound boundary, as seen from a
    /// reading `ticks` of the tick counter.
    pub fn init_at(&mut self, ticks: u32) -> (cmd: AlarmCommand)
        ensures
            cmd == (AlarmCommand { reference: ticks, dt: (u32::MAX - ticks) as u32 }),
            final(self).overflow_pending(),
            final(self).overflow_count() == old(self).overflow_count(),
            final(self).deadlines() == old(self).deadlines(),
            final(self).armed_at() == next_overflow(
                logical_time(old(self).overflow_count(), ticks),
            ),
    {
        flag_store(&mut self.overflow_next, true);
        self.armed = overflow_boundary(self.now_at(ticks));
        AlarmCommand { reference: ticks, dt: u32::MAX - ticks }
    }

    /// Starts the overflow count: asks whether the alarm capsule is
    /// present, reads the tick counter, and arms the alarm for the first
    /// wraparound boundary. The first error is handed on and ends the
    /// calls; the flag is set once the reading has succeeded.
    pub fn init<S: Syscalls>(&mut self, k: &mut Kernel<S>) -> (r: Result<(), ErrorCode>)
        ensures
            final(self).overflow_count() == old(self).overflow_count(),
            final(self).deadlines() == old(self).deadlines(),
            init_outcome(
                old(k).calls(),
                final(k).calls(),
                old(self).overflow_pending(),
                final(self).overflow_pending(),
                old(self).overflow_count(),
                old(self).armed_at(),
                final(self).armed_at(),
                r,
            ),
    {
        match Alarm::<S>::driver_exists(k) {
            Ok(()) => {},
            Err(e) => { return Err(e); },
        }
        let ticks = match Alarm::<S>::get_ticks(k) {
            Ok(t) => t,
            Err(e) => { return Err(e); },
        };
        let cmd = self.init_at(ticks);
        match Alarm::<S>::set_absolute(k, Ticks(cmd.reference), Ticks(cmd.dt)) {
            Ok(_) => Ok(()),
            Err(e) => Err(e),
        }
    }

    /// After the queue has taken the request for `at`: wakes the requests
    /// that have expired at the reading `ticks`, and decides whether the
    /// alarm is re-armed. It is where the request has become the earliest
    /// one, lies ahead and before the wraparound boundary, and the alarm is
    /// not armed for that instant or an earlier one already.
    fn rearm(&mut self, at: u64, ticks: u32) -> (plan: Option<AlarmCommand>)
        ensures
            final(self).overflow_count() == old(self).overflow_count(),
            rearm_outcome(
                old(self).deadlines(),
                old(self).overflow_pending(),
                old(self).armed_at(),
                at,
                logical_time(old(self).overflow_count(), ticks),
                final(self).deadlines(),
                final(self).overflow_pending(),
                final(self).armed_at(),
                plan,
            ),
    {
        let now = self.now_at(ticks);
        let next = queue_next_expiration(&mut self.queue, now);
        proof {
            lemma_earliest_is(self.deadlines(), next);
        }
        if next == at && now < next && next < self.armed {
            let plan = plan_alarm(now, next);
            if plan.is_some() {
                flag_store(&mut self.overflow_next, false);
                self.armed = next;
            }
            plan
        } else {
            None
        }
    }

    /// Records a wake request for `at`, given a reading `ticks` of the tick
    /// counter, and decides whether the alarm is re-armed.
    ///
    /// Where the queue reports no change, nothing happens. Otherwise the
    /// requests that have already expired are woken, and the alarm is aimed
    /// at the new request where that has become the earliest one, comes
    /// before the wraparound boundary, and before the instant that the
    /// alarm is armed for; else the armed alarm stays.
    pub fn schedule_wake_at(&mut self, at: u64, waker: &Waker, ticks: u32) -> (plan: Option<
        AlarmCommand,
    >)
        ensures
            final(self).overflow_count() == old(self).overflow_count(),
            schedule_outcome(
                old(self).deadlines(),
                old(self).overflow_pending(),
                old(self).armed_at(),
                at,
                logical_time(old(self).overflow_count(), ticks),
                final(self).deadlines(),
                final(self).overflow_pending(),
                final(self).armed_at(),
                plan,
            ),
    {
        let changed = queue_schedule_wake(&mut self.queue, at, waker);
        if changed {
            self.rearm(at, ticks)
        } else {
            None
        }
    }

    /// Records a wake request for `at`. Where the queue reports no change,
    /// no call is made. Otherwise the tick counter is read and the requests
    /// already expired are woken. Where the new request has become the
    /// earliest one, comes before the wraparound boundary and before the
    /// instant that the alarm is armed for, the armed alarm is cancelled
    /// and armed anew for it; the kernel's answers to those two are not
    /// looked at. Else neither call is made and the flag stays. An error of
    /// the reading is handed on; the request has then been recorded all the
    /// same.
    pub fn schedule_wake<S: Syscalls>(&mut self, k: &mut Kernel<S>, at: u64, waker: &Waker) -> (r:
        Result<(), ErrorCode>)
        ensures
            final(self).overflow_count() == old(self).overflow_count(),
            wake_outcome(
                old(self).deadlines(),
                old(self).overflow_pending(),
                old(self).armed_at(),
                old(self).overflow_count(),
                old(k).calls(),
                at,
                final(self).deadlines(),
                final(self).overflow_pending(),
                final(self).armed_at(),
                final(k).calls(),
                r,
            ),
    {
        let changed = queue_schedule_wake(&mut self.queue, at, waker);
        if !changed {
            return Ok(());
        }
        let ticks = match Alarm::<S>::get_ticks(k) {
            Ok(t) => t,
            Err(e) => { return Err(e); },
        };
        let ghost asked = k.calls();
        let plan = self.rearm(at, ticks);
        match plan {
            Some(cmd) => {
                let _ = Alarm::<S>::cancel(k);
                let _ = Alarm::<S>::set_absolute(k, Ticks(cmd.reference), Ticks(cmd.dt));
                assert(performed(asked, k.calls(), plan));
            },
            None => {},
        }
        Ok(())
    }

    /// The decisions of the alarm's completion handler, given the reading
    /// `ticks` of the tick counter that the kernel delivers.
    ///
    /// A firing that was aimed at the wraparound boundary counts one
    /// wraparound. Every request that has expired at the resulting time is
    /// woken. The alarm is then aimed at the earliest request left, or at
    /// the next wraparound boundary where that is no later.
    pub fn on_alarm(&mut self, ticks: u32) -> (cmd: AlarmCommand)
        requires
            old(self).overflow_pending() ==> old(self).overflow_count() < u32::MAX,
        ensures
            final(self).overflow_count() == count_after(
                old(self).overflow_count() as int,
                old(self).overflow_pending(),
            ),
            final(self).deadlines() == pending_after(
                old(self).deadlines(),
                logical_time(final(self).overflow_count(), ticks),
            ),
            final(self).overflow_pending() == aims_at_overflow(
                final(self).deadlines(),
                logical_time(final(self).overflow_count(), ticks),
            ),
            cmd == alarm_command(
                final(self).deadlines(),
                ticks,
                logical_time(final(self).overflow_count(), ticks),
            ),
            cmd.target(logical_time(final(self).overflow_count(), ticks)) == alarm_target(
                final(self).deadlines(),
                logical_time(final(self).overflow_count(), ticks),
            ),
            final(self).armed_at() == alarm_target(
                final(self).deadlines(),
                logical_time(final(self).overflow_count(), ticks),
            ),
    {
        let was_overflow = flag_fetch_and(&mut self.overflow_next, false);
        let overflows: u32 = if was_overflow {
            counter_fetch_add(&mut self.overflows, 1) + 1
        } else {
            counter_load(&self.overflows)
        };
        let now = combine(overflows, ticks);
        let boundary = overflow_boundary(now);
        let next = queue_next_expiration(&mut self.queue, now);
        proof {
            lemma_earliest_is(self.deadlines(), next);
            lemma_earliest_after(old(self).deadlines(), now);
        }
        if boundary <= next {
            flag_store(&mut self.overflow_next, true);
            self.armed = boundary;
            AlarmCommand { reference: ticks, dt: (boundary - now) as u32 }
        } else {
            self.armed = next;
            AlarmCommand { reference: ticks, dt: (next - now) as u32 }
        }
    }
}

/// The overflow count after a firing of the alarm.
pub open spec fn count_after(count: int, overflow_pending: bool) -> int {
    if overflow_pending {
        count + 1
    } else {
        count
    }
}

/// The instant at which the alarm is aimed after a firing at `now` that
/// left `pending`: the earliest request, or the next wraparound boundary
/// where that is no later.
pub open spec fn alarm_target(pending: Multiset<u64>, now: u64) -> u64 {
    if next_overflow(now) <= earliest(pending) {
        next_overflow(now)
    } else {
        earliest(pending)
    }
}

/// Whether the alarm armed after a firing at `now` is aimed at the
/// wraparound boundary.
pub open spec fn aims_at_overflow(pending: Multiset<u64>, now: u64) -> bool {
    next_overflow(now) <= earliest(pending)
}

/// The command that arms the alarm after a firing at `now`, read as
/// `ticks` on the counter, that left `pending`.
pub open spec fn alarm_command(pending: Multiset<u64>, ticks: u32, now: u64) -> AlarmCommand {
    AlarmCommand { reference: ticks, dt: (alarm_target(pending, now) - now) as u32 }
}

/// What follows once the queue has taken the request for `at`, at `now`:
/// of the requests `mid` those expired are woken. The alarm is re-armed
/// exactly where the request has become the earliest one left, lies ahead
/// and before the wraparound boundary, and before the instant that the
/// alarm was armed for; it is then aimed at the request and the flag is
/// cleared. Else the armed instant and the flag stay.
pub open spec fn rearm_outcome(
    mid: Multiset<u64>,
    pending_before: bool,
    armed_before: u64,
    at: u64,
    now: u64,
    after: Multiset<u64>,
    pending_after_call: bool,
    armed_after: u64,
    plan: Option<AlarmCommand>,
) -> bool {
    &&& after == pending_after(mid, now)
    &&& plan.is_some() <==> earliest(after) == at && now < at < next_overflow(now) && at
        < armed_before
    &&& plan matches Some(cmd) ==> cmd.reference == now % 0x1_0000_0000 && cmd.target(now) == at
        && !pending_after_call && armed_after == at
    &&& plan.is_none() ==> pending_after_call == pending_before && armed_after == armed_before
}

/// What a wake request for `at`, made at `now`, leaves. Either the queue
/// reported no change: the waker had a request for `at` or earlier, and
/// nothing moves. Or `at` went in, and the rest is as [`rearm_outcome`]
/// says.
pub open spec fn schedule_outcome(
    before: Multiset<u64>,
    pending_before: bool,
    armed_before: u64,
    at: u64,
    now: u64,
    after: Multiset<u64>,
    pending_after_call: bool,
    armed_after: u64,
    plan: Option<AlarmCommand>,
) -> bool {
    ||| {
        &&& after == before
        &&& pending_after_call == pending_before
        &&& armed_after == armed_before
        &&& plan.is_none()
        &&& exists|d: u64| #[trigger] before.contains(d) && d <= at
    }
    ||| exists|mid: Multiset<u64>|
        #[trigger] rescheduled(before, at, mid) && rearm_outcome(
            mid,
            pending_before,
            armed_before,
            at,
            now,
            after,
            pending_after_call,
            armed_after,
            plan,
        )
}

/// The calls that carry out a plan: none for no plan; for a command, the
/// stop command and then the arming with the command's reference and
/// distance.
pub open spec fn performed(before: Seq<Syscall>, after: Seq<Syscall>, plan: Option<AlarmCommand>) -> bool {
    match plan {
        None => after == before,
        Some(cmd) => exists|stop: CommandReturn, armed: Result<u32, ErrorCode>| #[trigger]
            armed_by(
                before.push(command_call(DRIVER_NUM, STOP, 0, 0, stop)),
                after,
                SET_ABSOLUTE,
                Ticks(cmd.reference),
                Ticks(cmd.dt),
                armed,
            ),
    }
}

/// What [`AsyncAlarmDriver::schedule_wake`] leaves, in the driver and in
/// the kernel's calls.
pub open spec fn wake_outcome(
    before: Multiset<u64>,
    pending_before: bool,
    armed_before: u64,
    count: u32,
    calls_before: Seq<Syscall>,
    at: u64,
    after: Multiset<u64>,
    pending_after_call: bool,
    armed_after: u64,
    calls_after: Seq<Syscall>,
    r: Result<(), ErrorCode>,
) -> bool {
    ||| {
        &&& after == before
        &&& pending_after_call == pending_before
        &&& armed_after == armed_before
        &&& calls_after == calls_before
        &&& r.is_ok()
        &&& exists|d: u64| #[trigger] before.contains(d) && d <= at
    }
    ||| exists|mid: Multiset<u64>, time: CommandReturn|
        {
            let asked = calls_before.push(command_call(DRIVER_NUM, TIME, 0, 0, time));
            &&& #[trigger] rescheduled(before, at, mid)
            &&& #[trigger] time.u32_result() matches Err(e) ==> {
                &&& r == Err::<(), ErrorCode>(e)
                &&& after == mid
                &&& pending_after_call == pending_before
                &&& armed_after == armed_before
                &&& calls_after == asked
            }
            &&& time.u32_result() matches Ok(ticks) ==> r.is_ok() && exists|
                plan: Option<AlarmCommand>,
            |
                #[trigger] rearm_outcome(
                    mid,
                    pending_before,
                    armed_before,
                    at,
                    logical_time(count, ticks),
                    after,
                    pending_after_call,
                    armed_after,
                    plan,
                ) && performed(asked, calls_after, plan)
        }
}

/// What [`AsyncAlarmDriver::init`] leaves in the kernel's calls, in the
/// flag and in the armed instant.
pub open spec fn init_outcome(
    calls_before: Seq<Syscall>,
    calls_after: Seq<Syscall>,
    pending_before: bool,
    pending_after_call: bool,
    count: u32,
    armed_before: u64,
    armed_after: u64,
    r: Result<(), ErrorCode>,
) -> bool {
    exists|present: CommandReturn|
        {
            let checked = calls_before.push(
                #[trigger] command_call(DRIVER_NUM, EXISTS, 0, 0, present),
            );
            match present.unit_result() {
                Err(e) => calls_after == checked && r == Err::<(), ErrorCode>(e)
                    && pending_after_call == pending_before && armed_after == armed_before,
                Ok(()) => exists|time: CommandReturn|
                    {
                        let read = checked.push(
                            #[trigger] command_call(DRIVER_NUM, TIME, 0, 0, time),
                        );
                        match time.u32_result() {
                            Err(e) => calls_after == read && r == Err::<(), ErrorCode>(e)
                                && pending_after_call == pending_before && armed_after
                                == armed_before,
                            Ok(ticks) => pending_after_call && armed_after == next_overflow(
                                logical_time(count, ticks),
                            ) && exists|armed: Result<u32, ErrorCode>| #[trigger]
                                armed_by(
                                    read,
                                    calls_after,
                                    SET_ABSOLUTE,
                                    Ticks(ticks),
                                    Ticks((u32::MAX - ticks) as u32),
                                    armed,
                                ) && r == (match armed {
                                    Ok(_) => Ok::<(), ErrorCode>(()),
                                    Err(e) => Err::<(), ErrorCode>(e),
                                }),
                        }
                    },
            }
        }
}

/// Starts the overflow count of `driver`; see [`AsyncAlarmDriver::init`].
pub fn init_async_driver<S: Syscalls>(driver: &mut AsyncAlarmDriver, k: &mut Kernel<S>) -> (r:
    Result<(), ErrorCode>)
    ensures
        final(driver).overflow_count() == old(driver).overflow_count(),
        final(driver).deadlines() == old(driver).deadlines(),
        init_outcome(
            old(k).calls(),
            final(k).calls(),
            old(driver).overflow_pending(),
            final(driver).overflow_pending(),
            old(driver).overflow_count(),
            old(driver).armed_at(),
            final(driver).armed_at(),
            r,
        ),
{
    driver.init::<S>(k)
}

/// The tick frequency of the clock, in ticks per second: one frequency
/// command, whose answer is handed on.
pub fn frequency<S: Syscalls>(k: &mut Kernel<S>) -> (r: Result<u64, ErrorCode>)
    ensures
        exists|ret: CommandReturn|
            final(k).calls() == old(k).calls().push(
                #[trigger] command_call(DRIVER_NUM, FREQUENCY, 0, 0, ret),
            ) && r == (match ret.u32_result() {
                Ok(f) => Ok::<u64, ErrorCode>(f as u64),
                Err(e) => Err::<u64, ErrorCode>(e),
            }),
{
    match Alarm::<S>::get_frequency(k) {
        Ok(hz) => Ok(hz.0 as u64),
        Err(e) => Err(e),
    }
}

/// The handler of the alarm's completions.
pub struct EmbassyListener;

impl EmbassyListener {
    /// Handles one firing of the alarm, delivered with the reading `now` of
    /// the tick counter: lets the driver decide as
    /// [`AsyncAlarmDriver::on_alarm`] says, then arms the alarm with the
    /// command decided. The kernel's answer to the arming is not looked at.
    pub fn upcall<S: Syscalls>(
        &self,
        driver: &mut AsyncAlarmDriver,
        k: &mut Kernel<S>,
        now: u32,
        _deadline: u32,
        _arg2: u32,
    )
        requires
            old(driver).overflow_pending() ==> old(driver).overflow_count() < u32::MAX,
        ensures
            final(driver).overflow_count() == count_after(
                old(driver).overflow_count() as int,
                old(driver).overflow_pending(),
            ),
            final(driver).deadlines() == pending_after(
                old(driver).deadlines(),
                logical_time(final(driver).overflow_count(), now),
            ),
            final(driver).overflow_pending() == aims_at_overflow(
                final(driver).deadlines(),
                logical_time(final(driver).overflow_count(), now),
            ),
            final(driver).armed_at() == alarm_target(
                final(driver).deadlines(),
                logical_time(final(driver).overflow_count(), now),
            ),
            exists|armed: Result<u32, ErrorCode>| #[trigger]
                armed_by(
                    old(k).calls(),
                    final(k).calls(),
                    SET_ABSOLUTE,
                    Ticks(now),
                    Ticks(
                        alarm_command(
                            final(driver).deadlines(),
                            now,
                            logical_time(final(driver).overflow_count(), now),
                        ).dt,
                    ),
                    armed,
                ),
    {
        let cmd = driver.on_alarm(now);
        let _ = Alarm::<S>::set_absolute(k, Ticks(cmd.reference), Ticks(cmd.dt));
    }
}

/// The number of firings in `firings` that were aimed at the wraparound
/// boundary.
pub open spec fn wraparounds(firings: Seq<bool>) -> nat
    decreases firings.len(),
{
    if firings.len() == 0 {
        0
    } else {
        wraparounds(firings.drop_last()) + if firings.last() {
            1nat
        } else {
            0nat
        }
    }
}

/// The overflow count after the firings `firings`, each flagged with whether
/// it was aimed at the wraparound boundary, starting from `count`.
pub open spec fn count_after_all(count: int, firings: Seq<bool>) -> int
    decreases firings.len(),
{
    if firings.len() == 0 {
        count
    } else {
        count_after(count_after_all(count, firings.drop_last()), firings.last())
    }
}

/// The clock never goes back: a later overflow count gives a strictly later
/// time whatever the tick readings are, and within one count the time
/// follows the ticks.
pub proof fn lemma_clock_monotonic(c1: u32, t1: u32, c2: u32, t2: u32)
    ensures
        c1 < c2 ==> logical_time(c1, t1) < logical_time(c2, t2),
        c1 == c2 && t1 <= t2 ==> logical_time(c1, t1) <= logical_time(c2, t2),
{
}

/// After any sequence of firings the overflow count has grown by exactly
/// the number of wraparounds among them, and the logical time is that many
/// times 2^32 plus the ticks read: nothing saturates inside the clock.
pub proof fn lemma_clock_after_wraparounds(firings: Seq<bool>, ticks: u32)
    requires
        wraparounds(firings) <= u32::MAX,
    ensures
        count_after_all(0, firings) == wraparounds(firings),
        logical_time(wraparounds(firings) as u32, ticks) == wraparounds(firings) * 0x1_0000_0000
            + ticks,
    decreases firings.len(),
{
    if firings.len() > 0 {
        lemma_clock_after_wraparounds(firings.drop_last(), ticks);
    }
}

/// A request for an instant after one that is pending and still ahead
/// leaves the alarm as it is, in a queue that had room: no command is
/// planned, the armed instant and the flag stay, and the request pending
/// before is pending still.
pub proof fn lemma_later_request_keeps_alarm(
    before: Multiset<u64>,
    pending_before: bool,
    armed_before: u64,
    at: u64,
    now: u64,
    after: Multiset<u64>,
    pending_after_call: bool,
    armed_after: u64,
    plan: Option<AlarmCommand>,
    d: u64,
)
    requires
        schedule_outcome(
            before,
            pending_before,
            armed_before,
            at,
            now,
            after,
            pending_after_call,
            armed_after,
            plan,
        ),
        before.contains(d),
        now < d < at,
        before.len() < queue_capacity(),
    ensures
        plan.is_none(),
        armed_after == armed_before,
        pending_after_call == pending_before,
        after.contains(d),
{
    broadcast use vstd::multiset::group_multiset_axioms;

    if !(after == before && plan.is_none() && armed_after == armed_before && pending_after_call
        == pending_before) {
        let mid = choose|mid: Multiset<u64>|
            #[trigger] rescheduled(before, at, mid) && rearm_outcome(
                mid,
                pending_before,
                armed_before,
                at,
                now,
                after,
                pending_after_call,
                armed_after,
                plan,
            );
        assert(mid.contains(d));
        assert(after.contains(d));
        lemma_min_exists(after);
        assert(is_earliest(after, earliest(after)));
    }
}

/// The calls `after` are the calls `before` and the reading of the tick
/// counter, which the kernel answered with `time`, and nothing more; or the
/// reading shows that the request for `d` has expired.
pub open spec fn read_and_left(
    before: Seq<Syscall>,
    after: Seq<Syscall>,
    count: u32,
    d: u64,
    time: CommandReturn,
) -> bool {
    ||| after == before.push(command_call(DRIVER_NUM, TIME, 0, 0, time))
    ||| time.u32_result() matches Ok(ticks) && d <= logical_time(count, ticks)
}

/// A request for an instant after one that is pending leaves the kernel's
/// alarm alone, in a queue that had room: at most the tick counter is
/// read, and neither the stop nor the arming follows, unless the reading
/// shows that the pending request has expired by then.
pub proof fn lemma_later_request_makes_no_arming(
    before: Multiset<u64>,
    pending_before: bool,
    armed_before: u64,
    count: u32,
    calls_before: Seq<Syscall>,
    at: u64,
    after: Multiset<u64>,
    pending_after_call: bool,
    armed_after: u64,
    calls_after: Seq<Syscall>,
    r: Result<(), ErrorCode>,
    d: u64,
)
    requires
        wake_outcome(
            before,
            pending_before,
            armed_before,
            count,
            calls_before,
            at,
            after,
            pending_after_call,
            armed_after,
            calls_after,
            r,
        ),
        before.contains(d),
        d < at,
        before.len() < queue_capacity(),
    ensures
        calls_after == calls_before || exists|time: CommandReturn| #[trigger]
            read_and_left(calls_before, calls_after, count, d, time),
{
    if calls_after != calls_before {
        let (mid, time) = choose|mid: Multiset<u64>, time: CommandReturn|
            {
                let asked = calls_before.push(command_call(DRIVER_NUM, TIME, 0, 0, time));
                &&& #[trigger] rescheduled(before, at, mid)
                &&& #[trigger] time.u32_result() matches Err(e) ==> {
                    &&& r == Err::<(), ErrorCode>(e)
                    &&& after == mid
                    &&& pending_after_call == pending_before
                    &&& armed_after == armed_before
                    &&& calls_after == asked
                }
                &&& time.u32_result() matches Ok(ticks) ==> r.is_ok() && exists|
                    plan: Option<AlarmCommand>,
                |
                    #[trigger] rearm_outcome(
                        mid,
                        pending_before,
                        armed_before,
                        at,
                        logical_time(count, ticks),
                        after,
                        pending_after_call,
                        armed_after,
                        plan,
                    ) && performed(asked, calls_after, plan)
            };
        let asked = calls_before.push(command_call(DRIVER_NUM, TIME, 0, 0, time));
        match time.u32_result() {
            Err(e) => {},
            Ok(ticks) => {
                let now = logical_time(count, ticks);
                if now < d {
                    let plan = choose|plan: Option<AlarmCommand>|
                        #[trigger] rearm_outcome(
                            mid,
                            pending_before,
                            armed_before,
                            at,
                            now,
                            after,
                            pending_after_call,
                            armed_after,
                            plan,
                        ) && performed(asked, calls_after, plan);
                    lemma_later_request_keeps_alarm(
                        before,
                        pending_before,
                        armed_before,
                        at,
                        now,
                        after,
                        pending_after_call,
                        armed_after,
                        plan,
                        d,
                    );
                }
            },
        }
        assert(read_and_left(calls_before, calls_after, count, d, time));
    }
}

/// A request for an instant before every pending one moves the alarm down
/// to it, where it lies ahead, before the wraparound boundary and before
/// the instant that the alarm is armed for: the command planned fires at
/// the request, which is the armed instant from then on, and the flag is
/// cleared.
pub proof fn lemma_earlier_request_moves_alarm(
    before: Multiset<u64>,
    pending_before: bool,
    armed_before: u64,
    at: u64,
    now: u64,
    after: Multiset<u64>,
    pending_after_call: bool,
    armed_after: u64,
    plan: Option<AlarmCommand>,
)
    requires
        schedule_outcome(
            before,
            pending_before,
            armed_before,
            at,
            now,
            after,
            pending_after_call,
            armed_after,
            plan,
        ),
        forall|d: u64| before.contains(d) ==> at < d,
        now < at < next_overflow(now),
        at < armed_before,
    ensures
        plan matches Some(cmd) && cmd.target(now) == at,
        armed_after == at,
        !pending_after_call,
        earliest(after) == at,
{
    broadcast use vstd::multiset::group_multiset_axioms;

    let mid = choose|mid: Multiset<u64>|
        #[trigger] rescheduled(before, at, mid) && rearm_outcome(
            mid,
            pending_before,
            armed_before,
            at,
            now,
            after,
            pending_after_call,
            armed_after,
            plan,
        );
    assert(mid.contains(at));
    assert(after.contains(at));
    assert forall|x: u64| after.contains(x) implies at <= x by {
        assert(mid.contains(x));
        if x != at {
            assert(before.contains(x));
        }
    }
    assert(is_earliest(after, at));
    lemma_earliest_is(after, at);
}

} // verus!
