//! Read-write buffer sharing, scoped: a grant is revoked before the memory
//! behind it can be read back or reused.

use crate::allow_ro::{allow_result, Config};
use crate::error::ErrorCode;
use crate::syscalls::{
    allow_rw_call,
    command_call,
    lemma_granted_push,
    rw_granted,
    CommandReturn,
    Kernel,
    Syscall,
    Syscalls,
};
use core::marker::PhantomData;
use vstd::prelude::*;

verus! {

/// The calls of a Command under a read-write buffer's grant, its result,
/// and whether the buffer counts as allowed afterwards (`now_allowed`).
/// The allow is made unless the buffer counted as allowed already; the
/// Command is issued unless the allow failed; the result is the first
/// error, else the Command's answer. The buffer counts as allowed exactly
/// where it did before or the kernel accepted the allow.
pub open spec fn granted_command(
    before: Seq<Syscall>,
    after: Seq<Syscall>,
    was_allowed: bool,
    now_allowed: bool,
    driver_num: u32,
    buffer_num: u32,
    command_id: u32,
    arg0: u32,
    arg1: u32,
    r: Result<(), ErrorCode>,
) -> bool {
    if was_allowed {
        now_allowed && exists|ret: CommandReturn|
            after == before.push(#[trigger] command_call(driver_num, command_id, arg0, arg1, ret))
                && r == ret.unit_result()
    } else {
        exists|replaced: Result<bool, ErrorCode>|
            {
                let shared = before.push(#[trigger] allow_rw_call(driver_num, buffer_num, replaced));
                match replaced {
                    Err(e) => after == shared && r == Err::<(), ErrorCode>(e) && !now_allowed,
                    Ok(_) => now_allowed && exists|ret: CommandReturn|
                        after == shared.push(
                            #[trigger] command_call(driver_num, command_id, arg0, arg1, ret),
                        ) && r == ret.unit_result(),
                }
            }
    }
}

/// A buffer that owns its memory together with the read-write grant on it.
/// While the buffer is allowed the kernel may write into it.
pub struct AllowRwBuffer<
    S: Syscalls,
    const DRIVER_NUM: u32,
    const BUFFER_NUM: u32,
    const BUFFER_SIZE: usize,
> {
    allowed: bool,
    pub buffer: [u8; BUFFER_SIZE],
    _syscalls: PhantomData<S>,
}

impl<
    S: Syscalls,
    const DRIVER_NUM: u32,
    const BUFFER_NUM: u32,
    const BUFFER_SIZE: usize,
> AllowRwBuffer<S, DRIVER_NUM, BUFFER_NUM, BUFFER_SIZE> {
    /// The bytes in the buffer.
    pub closed spec fn contents(&self) -> Seq<u8> {
        self.buffer@
    }

    /// Whether the buffer counts as allowed.
    pub closed spec fn is_allowed(&self) -> bool {
        self.allowed
    }

    /// The flag covers the kernel: where the kernel holds a grant for this
    /// buffer's slot after `calls`, the buffer counts as allowed.
    pub open spec fn covers(&self, calls: Seq<Syscall>) -> bool {
        rw_granted(calls, DRIVER_NUM, BUFFER_NUM) ==> self.is_allowed()
    }

    /// The call that revokes this buffer's grant.
    pub open spec fn unallow_call() -> Syscall {
        Syscall::UnallowRw { driver_num: DRIVER_NUM, buffer_num: BUFFER_NUM }
    }

    /// Whether the buffer counts as allowed.
    pub fn allowed(&self) -> (r: bool)
        ensures
            r == self.is_allowed(),
    {
        self.allowed
    }

    /// A buffer over `buffer`, not allowed.
    pub fn from_array(buffer: [u8; BUFFER_SIZE]) -> (r: Self)
        ensures
            !r.is_allowed(),
            r.contents() == buffer@,
    {
        Self { allowed: false, buffer, _syscalls: PhantomData }
    }

    /// The bytes in the buffer, as the field `buffer` holds them.
    pub fn bytes(&self) -> (bytes: &[u8; BUFFER_SIZE])
        ensures
            bytes@ == self.contents(),
    {
        &self.buffer
    }

    /// Grants the kernel access to the buffer. On a buffer already allowed
    /// this makes no call, succeeds and leaves the bytes. Otherwise it
    /// makes one allow, whose answer is handed on; the buffer counts as
    /// allowed from here on exactly where the kernel accepted, and its
    /// bytes are then the kernel's to change.
    pub fn allow<C: Config>(&mut self, k: &mut Kernel<S>) -> (r: Result<(), ErrorCode>)
        ensures
            final(self).is_allowed() == (old(self).is_allowed() || r.is_ok()),
            old(self).is_allowed() ==> r.is_ok() && final(k).calls() == old(k).calls()
                && final(self).contents() == old(self).contents(),
            !old(self).is_allowed() ==> exists|replaced: Result<bool, ErrorCode>|
                final(k).calls() == old(k).calls().push(
                    #[trigger] allow_rw_call(DRIVER_NUM, BUFFER_NUM, replaced),
                ) && r == allow_result(replaced),
            old(self).covers(old(k).calls()) ==> final(self).covers(final(k).calls()),
    {
        if !self.allowed {
            let replaced = k.allow_rw::<BUFFER_SIZE>(DRIVER_NUM, BUFFER_NUM, &mut self.buffer);
            proof {
                lemma_granted_push(
                    old(k).calls(),
                    allow_rw_call(DRIVER_NUM, BUFFER_NUM, replaced),
                    DRIVER_NUM,
                    BUFFER_NUM,
                );
            }
            match replaced {
                Ok(nonzero) => {
                    self.allowed = true;
                    if nonzero {
                        C::returned_nonzero_buffer(DRIVER_NUM, BUFFER_NUM);
                    }
                    Ok(())
                },
                Err(e) => Err(e),
            }
        } else {
            Ok(())
        }
    }

    /// The scope of a buffer over `buffer`: makes the buffer, not allowed,
    /// runs `f` once with it and the kernel, and at the end of the scope,
    /// whatever `f` did, revokes the grant and gives the memory back. Where
    /// `f` left the flag covering the kernel, the kernel holds no grant for
    /// the slot when the call returns.
    pub fn scoped<F: FnOnce(&mut Self, &mut Kernel<S>)>(
        buffer: [u8; BUFFER_SIZE],
        k: &mut Kernel<S>,
        f: F,
    ) -> (memory: [u8; BUFFER_SIZE])
        requires
            forall|b: &mut Self, kk: &mut Kernel<S>| f.requires((b, kk)),
        ensures
            exists|b: &mut Self, kk: &mut Kernel<S>|
                {
                    &&& !b.is_allowed()
                    &&& b.contents() == buffer@
                    &&& kk.calls() == old(k).calls()
                    &&& #[trigger] f.ensures((b, kk), ())
                    &&& memory@ == final(b).contents()
                    &&& final(k).calls() == (if final(b).is_allowed() {
                        final(kk).calls().push(Self::unallow_call())
                    } else {
                        final(kk).calls()
                    })
                    &&& final(b).covers(final(kk).calls()) ==> !rw_granted(
                        final(k).calls(),
                        DRIVER_NUM,
                        BUFFER_NUM,
                    )
                },
    {
        let mut scope = Self::from_array(buffer);
        f(&mut scope, k);
        scope.release(k)
    }

    /// Allows the buffer and, where that succeeded, issues one Command of
    /// the buffer's driver. A grant that the kernel accepted stays for the
    /// caller to revoke.
    pub fn command_under_grant<C: Config>(
        &mut self,
        k: &mut Kernel<S>,
        command_id: u32,
        arg0: u32,
        arg1: u32,
    ) -> (r: Result<(), ErrorCode>)
        ensures
            granted_command(
                old(k).calls(),
                final(k).calls(),
                old(self).is_allowed(),
                final(self).is_allowed(),
                DRIVER_NUM,
                BUFFER_NUM,
                command_id,
                arg0,
                arg1,
                r,
            ),
            old(self).is_allowed() ==> final(self).contents() == old(self).contents(),
            old(self).covers(old(k).calls()) ==> final(self).covers(final(k).calls()),
    {
        match self.allow::<C>(k) {
            Ok(()) => {
                let ghost allowed = k.calls();
                let ret = k.command(DRIVER_NUM, command_id, arg0, arg1);
                proof {
                    lemma_granted_push(
                        allowed,
                        command_call(DRIVER_NUM, command_id, arg0, arg1, ret),
                        DRIVER_NUM,
                        BUFFER_NUM,
                    );
                }
                ret.to_result_unit()
            },
            Err(e) => Err(e),
        }
    }

    /// Revokes the grant at once: one unallow on a buffer that counts as
    /// allowed, no call on one that does not. Afterwards the kernel holds
    /// no grant for the slot.
    pub fn unallow(&mut self, k: &mut Kernel<S>)
        ensures
            !final(self).is_allowed(),
            final(self).contents() == old(self).contents(),
            final(k).calls() == (if old(self).is_allowed() {
                old(k).calls().push(Self::unallow_call())
            } else {
                old(k).calls()
            }),
            old(self).covers(old(k).calls()) ==> !rw_granted(
                final(k).calls(),
                DRIVER_NUM,
                BUFFER_NUM,
            ),
    {
        if self.allowed {
            self.allowed = false;
            k.unallow_rw(DRIVER_NUM, BUFFER_NUM);
            proof {
                lemma_granted_push(old(k).calls(), Self::unallow_call(), DRIVER_NUM, BUFFER_NUM);
            }
        }
    }

    /// Revokes the grant and gives the memory back: the end of the buffer's
    /// scope. The kernel holds no grant for the slot when the memory leaves.
    pub fn release(self, k: &mut Kernel<S>) -> (buffer: [u8; BUFFER_SIZE])
        ensures
            buffer@ == self.contents(),
            final(k).calls() == (if self.is_allowed() {
                old(k).calls().push(Self::unallow_call())
            } else {
                old(k).calls()
            }),
            self.covers(old(k).calls()) ==> !rw_granted(final(k).calls(), DRIVER_NUM, BUFFER_NUM),
    {
        let mut this = self;
        this.unallow(k);
        this.buffer
    }
}

} // verus!
