//! The bridge to the kernel: its primitives, the shape of what a Command
//! hands back, and the record of the calls that the process has made.

use crate::error::ErrorCode;
use vstd::prelude::*;

verus! {

/// What the kernel returns from a Command.
#[derive(Clone, Copy, Debug, PartialEq, Eq, Structural)]
pub enum CommandReturn {
    /// The command failed.
    Failure(ErrorCode),
    /// The command succeeded and carries no payload.
    Success,
    /// The command succeeded with one value.
    SuccessU32(u32),
    /// The command succeeded with two values.
    Success2U32(u32, u32),
    /// The command succeeded with a 32-bit and a 64-bit value.
    SuccessU32U64(u32, u64),
}

impl CommandReturn {
    /// The error of a failed command.
    pub fn get_failure(&self) -> (r: Option<ErrorCode>)
        ensures
            r == (match *self {
                CommandReturn::Failure(e) => Some(e),
                _ => None,
            }),
    {
        match *self {
            CommandReturn::Failure(e) => Some(e),
            _ => None,
        }
    }

    /// The payload of a command that succeeded with one value.
    pub fn get_success_u32(&self) -> (r: Option<u32>)
        ensures
            r == (match *self {
                CommandReturn::SuccessU32(v) => Some(v),
                _ => None,
            }),
    {
        match *self {
            CommandReturn::SuccessU32(v) => Some(v),
            _ => None,
        }
    }

    /// The payload of a command that succeeded with a 32-bit and a 64-bit
    /// value.
    pub fn get_success_u32_u64(&self) -> (r: Option<(u32, u64)>)
        ensures
            r == (match *self {
                CommandReturn::SuccessU32U64(a, b) => Some((a, b)),
                _ => None,
            }),
    {
        match *self {
            CommandReturn::SuccessU32U64(a, b) => Some((a, b)),
            _ => None,
        }
    }

    /// What a caller that expects no payload makes of this return.
    pub open spec fn unit_result(self) -> Result<(), ErrorCode> {
        match self {
            CommandReturn::Success => Ok(()),
            CommandReturn::Failure(e) => Err(e),
            _ => Err(ErrorCode::BadRVal),
        }
    }

    /// What a caller that expects one value makes of this return.
    pub open spec fn u32_result(self) -> Result<u32, ErrorCode> {
        match self {
            CommandReturn::SuccessU32(v) => Ok(v),
            CommandReturn::Failure(e) => Err(e),
            _ => Err(ErrorCode::BadRVal),
        }
    }

    /// Success without payload is `Ok`; a failure is its error; any other
    /// shape is `BadRVal`.
    pub fn to_result_unit(&self) -> (r: Result<(), ErrorCode>)
        ensures
            r == self.unit_result(),
    {
        match *self {
            CommandReturn::Success => Ok(()),
            CommandReturn::Failure(e) => Err(e),
            _ => Err(ErrorCode::BadRVal),
        }
    }

    /// Success with one value is that value; a failure is its error; any
    /// other shape is `BadRVal`.
    pub fn to_result_u32(&self) -> (r: Result<u32, ErrorCode>)
        ensures
            r == self.u32_result(),
    {
        match *self {
            CommandReturn::SuccessU32(v) => Ok(v),
            CommandReturn::Failure(e) => Err(e),
            _ => Err(ErrorCode::BadRVal),
        }
    }
}

/// The size of a buffer as a Command carries it: its low 32 bits.
pub open spec fn size_word(size: usize) -> u32 {
    (size as int % 0x1_0000_0000) as u32
}

/// The size of a buffer as a Command carries it.
pub fn size_arg(size: usize) -> (word: u32)
    ensures
        word == size_word(size),
{
    ((size as u64) % 0x1_0000_0000) as u32
}

/// The kernel's primitives, as whoever binds the process to a kernel
/// implements them. Nothing is promised of what a kernel answers: every
/// driver is verified for each answer that it may give.
pub trait Syscalls {
    /// Issues a Command: synchronous and non-blocking.
    fn command(&mut self, driver_num: u32, command_id: u32, arg0: u32, arg1: u32) -> CommandReturn;

    /// Grants the kernel read access to `buffer` under one driver and slot,
    /// replacing any earlier grant for that slot. `Ok(true)` tells that the
    /// grant replaced was of a non-empty buffer.
    fn allow_ro<const N: usize>(
        &mut self,
        driver_num: u32,
        buffer_num: u32,
        buffer: &[u8; N],
    ) -> Result<bool, ErrorCode>;

    /// Grants the kernel read and write access to `buffer` under one driver
    /// and slot, replacing any earlier grant for that slot. `Ok(true)` tells
    /// that the grant replaced was of a non-empty buffer.
    fn allow_rw<const N: usize>(
        &mut self,
        driver_num: u32,
        buffer_num: u32,
        buffer: &mut [u8; N],
    ) -> Result<bool, ErrorCode>;

    /// Revokes the read-only grant of one driver and slot.
    fn unallow_ro(&mut self, driver_num: u32, buffer_num: u32);

    /// Revokes the read-write grant of one driver and slot.
    fn unallow_rw(&mut self, driver_num: u32, buffer_num: u32);

    /// Asks that completions of one driver and subscribe id be delivered.
    fn subscribe(&mut self, driver_num: u32, subscribe_id: u32) -> Result<(), ErrorCode>;

    /// Stops the delivery of completions of one driver and subscribe id.
    fn unsubscribe(&mut self, driver_num: u32, subscribe_id: u32);

    /// Suspends the process until the kernel has a completion to deliver,
    /// and returns it; `None` where it woke the process without one.
    fn yield_wait(&mut self) -> Option<Upcall>;
}

/// One completion that the kernel delivers: the driver and subscribe id it
/// belongs to, and its three arguments.
#[derive(Clone, Copy, Debug, PartialEq, Eq, Structural)]
pub struct Upcall {
    pub driver_num: u32,
    pub subscribe_id: u32,
    pub arg0: u32,
    pub arg1: u32,
    pub arg2: u32,
}

/// One call of a primitive, with what the kernel answered.
pub enum Syscall {
    Command { driver_num: u32, command_id: u32, arg0: u32, arg1: u32, ret: CommandReturn },
    AllowRo { driver_num: u32, buffer_num: u32, buffer: Seq<u8>, replaced: Result<bool, ErrorCode> },
    AllowRw { driver_num: u32, buffer_num: u32, replaced: Result<bool, ErrorCode> },
    UnallowRo { driver_num: u32, buffer_num: u32 },
    UnallowRw { driver_num: u32, buffer_num: u32 },
    Subscribe { driver_num: u32, subscribe_id: u32, accepted: Result<(), ErrorCode> },
    Unsubscribe { driver_num: u32, subscribe_id: u32 },
    YieldWait { delivered: Option<Upcall> },
}

/// A Command call and its answer.
pub open spec fn command_call(
    driver_num: u32,
    command_id: u32,
    arg0: u32,
    arg1: u32,
    ret: CommandReturn,
) -> Syscall {
    Syscall::Command { driver_num, command_id, arg0, arg1, ret }
}

/// A read-only allow and its answer.
pub open spec fn allow_ro_call(
    driver_num: u32,
    buffer_num: u32,
    buffer: Seq<u8>,
    replaced: Result<bool, ErrorCode>,
) -> Syscall {
    Syscall::AllowRo { driver_num, buffer_num, buffer, replaced }
}

/// A read-write allow and its answer.
pub open spec fn allow_rw_call(
    driver_num: u32,
    buffer_num: u32,
    replaced: Result<bool, ErrorCode>,
) -> Syscall {
    Syscall::AllowRw { driver_num, buffer_num, replaced }
}

/// A subscribe and its answer.
pub open spec fn subscribe_call(
    driver_num: u32,
    subscribe_id: u32,
    accepted: Result<(), ErrorCode>,
) -> Syscall {
    Syscall::Subscribe { driver_num, subscribe_id, accepted }
}

/// Whether the kernel holds a read-only grant for a driver and slot after
/// the calls `calls`: the last call that touched the slot was an allow, and
/// the kernel accepted it. An allow that the kernel refused leaves the slot
/// as it was.
pub open spec fn ro_granted(calls: Seq<Syscall>, driver_num: u32, buffer_num: u32) -> bool
    decreases calls.len(),
{
    if calls.len() == 0 {
        false
    } else {
        match calls.last() {
            Syscall::AllowRo { driver_num: d, buffer_num: b, replaced, .. } => if d == driver_num
                && b == buffer_num && replaced.is_ok() {
                true
            } else {
                ro_granted(calls.drop_last(), driver_num, buffer_num)
            },
            Syscall::UnallowRo { driver_num: d, buffer_num: b } => if d == driver_num && b
                == buffer_num {
                false
            } else {
                ro_granted(calls.drop_last(), driver_num, buffer_num)
            },
            _ => ro_granted(calls.drop_last(), driver_num, buffer_num),
        }
    }
}

/// Whether the kernel holds a read-write grant for a driver and slot after
/// the calls `calls`; as [`ro_granted`].
pub open spec fn rw_granted(calls: Seq<Syscall>, driver_num: u32, buffer_num: u32) -> bool
    decreases calls.len(),
{
    if calls.len() == 0 {
        false
    } else {
        match calls.last() {
            Syscall::AllowRw { driver_num: d, buffer_num: b, replaced } => if d == driver_num && b
                == buffer_num && replaced.is_ok() {
                true
            } else {
                rw_granted(calls.drop_last(), driver_num, buffer_num)
            },
            Syscall::UnallowRw { driver_num: d, buffer_num: b } => if d == driver_num && b
                == buffer_num {
                false
            } else {
                rw_granted(calls.drop_last(), driver_num, buffer_num)
            },
            _ => rw_granted(calls.drop_last(), driver_num, buffer_num),
        }
    }
}

/// How one more call changes what the kernel holds.
pub proof fn lemma_granted_push(calls: Seq<Syscall>, call: Syscall, driver_num: u32, buffer_num: u32)
    ensures
        ro_granted(calls.push(call), driver_num, buffer_num) == (match call {
            Syscall::AllowRo { driver_num: d, buffer_num: b, replaced, .. } => (d == driver_num
                && b == buffer_num && replaced.is_ok()) || ro_granted(calls, driver_num, buffer_num),
            Syscall::UnallowRo { driver_num: d, buffer_num: b } => !(d == driver_num && b
                == buffer_num) && ro_granted(calls, driver_num, buffer_num),
            _ => ro_granted(calls, driver_num, buffer_num),
        }),
        rw_granted(calls.push(call), driver_num, buffer_num) == (match call {
            Syscall::AllowRw { driver_num: d, buffer_num: b, replaced } => (d == driver_num && b
                == buffer_num && replaced.is_ok()) || rw_granted(calls, driver_num, buffer_num),
            Syscall::UnallowRw { driver_num: d, buffer_num: b } => !(d == driver_num && b
                == buffer_num) && rw_granted(calls, driver_num, buffer_num),
            _ => rw_granted(calls, driver_num, buffer_num),
        }),
{
    assert(calls.push(call).drop_last() =~= calls);
    assert(calls.push(call).last() == call);
}

/// Whatever was called before, once a slot's grant has been revoked the
/// kernel holds none for it; calls that are no allow for the slot leave it
/// so.
pub proof fn lemma_revoked(calls: Seq<Syscall>, driver_num: u32, buffer_num: u32)
    ensures
        !ro_granted(
            calls.push(Syscall::UnallowRo { driver_num, buffer_num }),
            driver_num,
            buffer_num,
        ),
        !rw_granted(
            calls.push(Syscall::UnallowRw { driver_num, buffer_num }),
            driver_num,
            buffer_num,
        ),
{
    lemma_granted_push(calls, Syscall::UnallowRo { driver_num, buffer_num }, driver_num, buffer_num);
    lemma_granted_push(calls, Syscall::UnallowRw { driver_num, buffer_num }, driver_num, buffer_num);
}

/// The process's side of the kernel: every call goes through here and is
/// entered, with its answer, in a record that exists for proofs only. The
/// drivers' contracts say by that record which calls they make.
pub struct Kernel<S: Syscalls> {
    raw: S,
    log: Ghost<Seq<Syscall>>,
}

impl<S: Syscalls> Kernel<S> {
    /// The calls made so far, oldest first.
    pub closed spec fn calls(&self) -> Seq<Syscall> {
        self.log@
    }

    /// What implements the primitives, in the state that the calls so far
    /// have left it in.
    pub closed spec fn implementation(&self) -> S {
        self.raw
    }

    /// A kernel side over `raw`, with no call made yet.
    pub fn new(raw: S) -> (k: Self)
        ensures
            k.calls() == Seq::<Syscall>::empty(),
            k.implementation() == raw,
    {
        Kernel { raw, log: Ghost(Seq::empty()) }
    }

    /// What implements the primitives.
    pub fn raw(&self) -> (raw: &S)
        ensures
            *raw == self.implementation(),
    {
        &self.raw
    }

    /// Gives back what implements the primitives.
    pub fn into_raw(self) -> (raw: S)
        ensures
            raw == self.implementation(),
    {
        self.raw
    }

    /// Issues a Command.
    pub fn command(&mut self, driver_num: u32, command_id: u32, arg0: u32, arg1: u32) -> (ret:
        CommandReturn)
        ensures
            final(self).calls() == old(self).calls().push(
                command_call(driver_num, command_id, arg0, arg1, ret),
            ),
    {
        let ret = self.raw.command(driver_num, command_id, arg0, arg1);
        self.log = Ghost(self.log@.push(command_call(driver_num, command_id, arg0, arg1, ret)));
        ret
    }

    /// Grants read access to `buffer`.
    pub fn allow_ro<const N: usize>(&mut self, driver_num: u32, buffer_num: u32, buffer: &[u8; N]) -> (ret:
        Result<bool, ErrorCode>)
        ensures
            final(self).calls() == old(self).calls().push(
                allow_ro_call(driver_num, buffer_num, buffer@, ret),
            ),
    {
        let ret = self.raw.allow_ro::<N>(driver_num, buffer_num, buffer);
        self.log = Ghost(
            self.log@.push(Syscall::AllowRo { driver_num, buffer_num, buffer: buffer@, replaced: ret }),
        );
        ret
    }

    /// Grants read and write access to `buffer`.
    pub fn allow_rw<const N: usize>(
        &mut self,
        driver_num: u32,
        buffer_num: u32,
        buffer: &mut [u8; N],
    ) -> (ret: Result<bool, ErrorCode>)
        ensures
            final(self).calls() == old(self).calls().push(
                allow_rw_call(driver_num, buffer_num, ret),
            ),
    {
        let ret = self.raw.allow_rw::<N>(driver_num, buffer_num, buffer);
        self.log = Ghost(self.log@.push(Syscall::AllowRw { driver_num, buffer_num, replaced: ret }));
        ret
    }

    /// Revokes a read-only grant.
    pub fn unallow_ro(&mut self, driver_num: u32, buffer_num: u32)
        ensures
            final(self).calls() == old(self).calls().push(
                Syscall::UnallowRo { driver_num, buffer_num },
            ),
    {
        self.raw.unallow_ro(driver_num, buffer_num);
        self.log = Ghost(self.log@.push(Syscall::UnallowRo { driver_num, buffer_num }));
    }

    /// Revokes a read-write grant.
    pub fn unallow_rw(&mut self, driver_num: u32, buffer_num: u32)
        ensures
            final(self).calls() == old(self).calls().push(
                Syscall::UnallowRw { driver_num, buffer_num },
            ),
    {
        self.raw.unallow_rw(driver_num, buffer_num);
        self.log = Ghost(self.log@.push(Syscall::UnallowRw { driver_num, buffer_num }));
    }

    /// Subscribes to the completions of one driver and subscribe id.
    pub fn subscribe(&mut self, driver_num: u32, subscribe_id: u32) -> (ret: Result<(), ErrorCode>)
        ensures
            final(self).calls() == old(self).calls().push(
                subscribe_call(driver_num, subscribe_id, ret),
            ),
    {
        let ret = self.raw.subscribe(driver_num, subscribe_id);
        self.log = Ghost(self.log@.push(Syscall::Subscribe { driver_num, subscribe_id, accepted: ret }));
        ret
    }

    /// Ends the subscription of one driver and subscribe id.
    pub fn unsubscribe(&mut self, driver_num: u32, subscribe_id: u32)
        ensures
            final(self).calls() == old(self).calls().push(
                Syscall::Unsubscribe { driver_num, subscribe_id },
            ),
    {
        self.raw.unsubscribe(driver_num, subscribe_id);
        self.log = Ghost(self.log@.push(Syscall::Unsubscribe { driver_num, subscribe_id }));
    }

    /// Suspends the process until the kernel has a completion to deliver.
    pub fn yield_wait(&mut self) -> (delivered: Option<Upcall>)
        ensures
            final(self).calls() == old(self).calls().push(Syscall::YieldWait { delivered }),
    {
        let delivered = self.raw.yield_wait();
        self.log = Ghost(self.log@.push(Syscall::YieldWait { delivered }));
        delivered
    }
}

} // verus!
