//! Read-only buffer sharing, scoped: a grant is revoked before the memory
//! behind it can be reused.

use crate::error::ErrorCode;
use crate::syscalls::{
    allow_ro_call,
    command_call,
    lemma_granted_push,
    ro_granted,
    CommandReturn,
    Kernel,
    Syscall,
    Syscalls,
};
use core::marker::PhantomData;
use vstd::prelude::*;

verus! {

/// Configures what happens around a Read-Only Allow. Drivers pass it
/// through, so that an application can configure the handling.
pub trait Config {
    /// Called if a Read-Only Allow succeeds and the grant that it replaced
    /// was of a non-empty buffer. In some applications this tells of
    /// unexpected reentrance. By default it is ignored.
    fn returned_nonzero_buffer(_driver_num: u32, _buffer_num: u32) {
    }
}

/// The configuration that ignores a replaced grant.
pub struct DefaultConfig;

impl Config for DefaultConfig {

}

/// What an allow hands on of the kernel's answer: success, or the error.
pub open spec fn allow_result(replaced: Result<bool, ErrorCode>) -> Result<(), ErrorCode> {
    match replaced {
        Ok(_) => Ok(()),
        Err(e) => Err(e),
    }
}

/// The calls of a Command under a read-only buffer's grant, its result,
/// and whether the buffer counts as allowed afterwards (`now_allowed`).
/// The allow is made unless the buffer counted as allowed already; the
/// Command is issued unless the allow failed; the result is the first
/// error, else the Command's answer. The buffer counts as allowed exactly
/// where it did before or the kernel accepted the allow.
pub open spec fn granted_command(
    before: Seq<Syscall>,
    after: Seq<Syscall>,
    was_allowed: bool,
    now_allowed: bool,
    driver_num: u32,
    buffer_num: u32,
    contents: Seq<u8>,
    command_id: u32,
    arg0: u32,
    arg1: u32,
    r: Result<(), ErrorCode>,
) -> bool {
    if was_allowed {
        now_allowed && exists|ret: CommandReturn|
            after == before.push(#[trigger] command_call(driver_num, command_id, arg0, arg1, ret))
                && r == ret.unit_result()
    } else {
        exists|replaced: Result<bool, ErrorCode>|
            {
                let shared = before.push(
                    #[trigger] allow_ro_call(driver_num, buffer_num, contents, replaced),
                );
                match replaced {
                    Err(e) => after == shared && r == Err::<(), ErrorCode>(e) && !now_allowed,
                    Ok(_) => now_allowed && exists|ret: CommandReturn|
                        after == shared.push(
                            #[trigger] command_call(driver_num, command_id, arg0, arg1, ret),
                        ) && r == ret.unit_result(),
                }
            }
    }
}

/// The scope of one read-only grant for a driver and slot. Whoever opens
/// the scope closes it with [`AllowRo::revoke`] on every path out, and the
/// kernel then holds no grant for the slot.
pub struct AllowRo<S: Syscalls, const DRIVER_NUM: u32, const BUFFER_NUM: u32> {
    shared: bool,
    _syscalls: PhantomData<S>,
}

impl<S: Syscalls, const DRIVER_NUM: u32, const BUFFER_NUM: u32> Default for AllowRo<
    S,
    DRIVER_NUM,
    BUFFER_NUM,
> {
    fn default() -> (r: Self)
        ensures
            !r.is_shared(),
    {
        Self { shared: false, _syscalls: PhantomData }
    }
}

impl<S: Syscalls, const DRIVER_NUM: u32, const BUFFER_NUM: u32> AllowRo<S, DRIVER_NUM, BUFFER_NUM> {
    /// Whether the kernel accepted a grant in this scope.
    pub closed spec fn is_shared(&self) -> bool {
        self.shared
    }

    /// Whether the kernel accepted a grant in this scope.
    pub fn shared(&self) -> (r: bool)
        ensures
            r == self.is_shared(),
    {
        self.shared
    }

    /// Shares `buffer` with the kernel until the scope is closed: one
    /// allow, whose answer is handed on. A grant that the kernel refused
    /// is not recorded.
    pub fn share<C: Config, const N: usize>(&mut self, k: &mut Kernel<S>, buffer: &[u8; N]) -> (r:
        Result<(), ErrorCode>)
        ensures
            final(self).is_shared() == (old(self).is_shared() || r.is_ok()),
            exists|replaced: Result<bool, ErrorCode>|
                final(k).calls() == old(k).calls().push(
                    #[trigger] allow_ro_call(DRIVER_NUM, BUFFER_NUM, buffer@, replaced),
                ) && r == allow_result(replaced),
    {
        match k.allow_ro::<N>(DRIVER_NUM, BUFFER_NUM, buffer) {
            Ok(nonzero) => {
                self.shared = true;
                if nonzero {
                    C::returned_nonzero_buffer(DRIVER_NUM, BUFFER_NUM);
                }
                Ok(())
            },
            Err(e) => Err(e),
        }
    }

    /// Closes the scope: revokes the grant, whether one was made or not.
    /// The kernel then holds none for the slot.
    pub fn revoke(&mut self, k: &mut Kernel<S>)
        ensures
            !final(self).is_shared(),
            final(k).calls() == old(k).calls().push(
                Syscall::UnallowRo { driver_num: DRIVER_NUM, buffer_num: BUFFER_NUM },
            ),
            !ro_granted(final(k).calls(), DRIVER_NUM, BUFFER_NUM),
    {
        self.shared = false;
        k.unallow_ro(DRIVER_NUM, BUFFER_NUM);
        proof {
            lemma_granted_push(
                old(k).calls(),
                Syscall::UnallowRo { driver_num: DRIVER_NUM, buffer_num: BUFFER_NUM },
                DRIVER_NUM,
                BUFFER_NUM,
            );
        }
    }
}

/// A buffer that owns its memory together with the grant on it. The flag
/// `allowed` records whether the kernel has accepted the grant.
pub struct AllowRoBuffer<
    S: Syscalls,
    const DRIVER_NUM: u32,
    const BUFFER_NUM: u32,
    const BUFFER_SIZE: usize,
> {
    allowed: bool,
    pub buffer: [u8; BUFFER_SIZE],
    _syscalls: PhantomData<S>,
}

impl<
    S: Syscalls,
    const DRIVER_NUM: u32,
    const BUFFER_NUM: u32,
    const BUFFER_SIZE: usize,
> Default for AllowRoBuffer<S, DRIVER_NUM, BUFFER_NUM, BUFFER_SIZE> {
    fn default() -> (r: Self)
        ensures
            !r.is_allowed(),
            r.contents() == Seq::new(BUFFER_SIZE as nat, |i: int| 0u8),
    {
        let r = Self { allowed: false, buffer: [0u8;BUFFER_SIZE], _syscalls: PhantomData };
        assert(r.contents() =~= Seq::new(BUFFER_SIZE as nat, |i: int| 0u8));
        r
    }
}

impl<
    S: Syscalls,
    const DRIVER_NUM: u32,
    const BUFFER_NUM: u32,
    const BUFFER_SIZE: usize,
> AllowRoBuffer<S, DRIVER_NUM, BUFFER_NUM, BUFFER_SIZE> {
    /// The bytes in the buffer.
    pub closed spec fn contents(&self) -> Seq<u8> {
        self.buffer@
    }

    /// Whether the buffer counts as allowed.
    pub closed spec fn is_allowed(&self) -> bool {
        self.allowed
    }

    /// The flag covers the kernel: where the kernel holds a grant for this
    /// buffer's slot after `calls`, the buffer counts as allowed. It holds
    /// of a fresh buffer on a slot without grant, and every method keeps it.
    pub open spec fn covers(&self, calls: Seq<Syscall>) -> bool {
        ro_granted(calls, DRIVER_NUM, BUFFER_NUM) ==> self.is_allowed()
    }

    /// The call that revokes this buffer's grant.
    pub open spec fn unallow_call() -> Syscall {
        Syscall::UnallowRo { driver_num: DRIVER_NUM, buffer_num: BUFFER_NUM }
    }

    /// Whether the buffer counts as allowed.
    pub fn allowed(&self) -> (r: bool)
        ensures
            r == self.is_allowed(),
    {
        self.allowed
    }

    /// The bytes in the buffer, as the field `buffer` holds them.
    pub fn bytes(&self) -> (bytes: &[u8; BUFFER_SIZE])
        ensures
            bytes@ == self.contents(),
    {
        &self.buffer
    }

    /// Grants the kernel access to the buffer. On a buffer already allowed
    /// this makes no call and succeeds. Otherwise it makes one allow, whose
    /// answer is handed on; the buffer counts as allowed from here on
    /// exactly where the kernel accepted, so that a refused allow is asked
    /// again by the next call.
    pub fn allow<C: Config>(&mut self, k: &mut Kernel<S>) -> (r: Result<(), ErrorCode>)
        ensures
            final(self).is_allowed() == (old(self).is_allowed() || r.is_ok()),
            final(self).contents() == old(self).contents(),
            old(self).is_allowed() ==> r.is_ok() && final(k).calls() == old(k).calls(),
            !old(self).is_allowed() ==> exists|replaced: Result<bool, ErrorCode>|
                final(k).calls() == old(k).calls().push(
                    #[trigger] allow_ro_call(
                        DRIVER_NUM,
                        BUFFER_NUM,
                        old(self).contents(),
                        replaced,
                    ),
                ) && r == allow_result(replaced),
            old(self).covers(old(k).calls()) ==> final(self).covers(final(k).calls()),
    {
        if !self.allowed {
            let replaced = k.allow_ro::<BUFFER_SIZE>(DRIVER_NUM, BUFFER_NUM, &self.buffer);
            proof {
                lemma_granted_push(
                    old(k).calls(),
                    allow_ro_call(DRIVER_NUM, BUFFER_NUM, self.contents(), replaced),
                    DRIVER_NUM,
                    BUFFER_NUM,
                );
            }
            match replaced {
                Ok(nonzero) => {
                    self.allowed = true;
                    if nonzero {
                        C::returned_nonzero_buffer(DRIVER_NUM, BUFFER_NUM);
                    }
                    Ok(())
                },
                Err(e) => Err(e),
            }
        } else {
            Ok(())
        }
    }

    /// Revokes the grant at once: one unallow on a buffer that counts as
    /// allowed, no call on one that does not. Afterwards the kernel holds
    /// no grant for the slot.
    pub fn unallow(&mut self, k: &mut Kernel<S>)
        ensures
            !final(self).is_allowed(),
            final(self).contents() == old(self).contents(),
            final(k).calls() == (if old(self).is_allowed() {
                old(k).calls().push(Self::unallow_call())
            } else {
                old(k).calls()
            }),
            old(self).covers(old(k).calls()) ==> !ro_granted(
                final(k).calls(),
                DRIVER_NUM,
                BUFFER_NUM,
            ),
    {
        if self.allowed {
            self.allowed = false;
            k.unallow_ro(DRIVER_NUM, BUFFER_NUM);
            proof {
                lemma_granted_push(old(k).calls(), Self::unallow_call(), DRIVER_NUM, BUFFER_NUM);
            }
        }
    }

    /// A buffer over `buffer`, not allowed.
    pub fn from_array(buffer: [u8; BUFFER_SIZE]) -> (r: Self)
        ensures
            !r.is_allowed(),
            r.contents() == buffer@,
    {
        Self { allowed: false, buffer, _syscalls: PhantomData }
    }

    /// Revokes the grant and gives the memory back: the end of the buffer's
    /// scope. The kernel holds no grant for the slot when the memory leaves.
    pub fn release(self, k: &mut Kernel<S>) -> (buffer: [u8; BUFFER_SIZE])
        ensures
            buffer@ == self.contents(),
            final(k).calls() == (if self.is_allowed() {
                old(k).calls().push(Self::unallow_call())
            } else {
                old(k).calls()
            }),
            self.covers(old(k).calls()) ==> !ro_granted(final(k).calls(), DRIVER_NUM, BUFFER_NUM),
    {
        let mut this = self;
        this.unallow(k);
        this.buffer
    }

    /// The scope of a buffer over `buffer`: makes the buffer, not allowed,
    /// runs `f` once with it and the kernel, and at the end of the scope,
    /// whatever `f` did, revokes the grant and gives the memory back. Where
    /// `f` left the flag covering the kernel, the kernel holds no grant for
    /// the slot when the call returns.
    pub fn scoped<F: FnOnce(&mut Self, &mut Kernel<S>)>(
        buffer: [u8; BUFFER_SIZE],
        k: &mut Kernel<S>,
        f: F,
    ) -> (memory: [u8; BUFFER_SIZE])
        requires
            forall|b: &mut Self, kk: &mut Kernel<S>| f.requires((b, kk)),
        ensures
            exists|b: &mut Self, kk: &mut Kernel<S>|
                {
                    &&& !b.is_allowed()
                    &&& b.contents() == buffer@
                    &&& kk.calls() == old(k).calls()
                    &&& #[trigger] f.ensures((b, kk), ())
                    &&& memory@ == final(b).contents()
                    &&& final(k).calls() == (if final(b).is_allowed() {
                        final(kk).calls().push(Self::unallow_call())
                    } else {
                        final(kk).calls()
                    })
                    &&& final(b).covers(final(kk).calls()) ==> !ro_granted(
                        final(k).calls(),
                        DRIVER_NUM,
                        BUFFER_NUM,
                    )
                },
    {
        let mut scope = Self::from_array(buffer);
        f(&mut scope, k);
        scope.release(k)
    }

    /// Allows the buffer and, where that succeeded, issues one Command of
    /// the buffer's driver. A grant that the kernel accepted stays for the
    /// caller to revoke.
    pub fn command_under_grant<C: Config>(
        &mut self,
        k: &mut Kernel<S>,
        command_id: u32,
        arg0: u32,
        arg1: u32,
    ) -> (r: Result<(), ErrorCode>)
        ensures
            final(self).contents() == old(self).contents(),
            granted_command(
                old(k).calls(),
                final(k).calls(),
                old(self).is_allowed(),
                final(self).is_allowed(),
                DRIVER_NUM,
                BUFFER_NUM,
                old(self).contents(),
                command_id,
                arg0,
                arg1,
                r,
            ),
            old(self).covers(old(k).calls()) ==> final(self).covers(final(k).calls()),
    {
        match self.allow::<C>(k) {
            Ok(()) => {
                let ghost allowed = k.calls();
                let ret = k.command(DRIVER_NUM, command_id, arg0, arg1);
                proof {
                    lemma_granted_push(
                        allowed,
                        command_call(DRIVER_NUM, command_id, arg0, arg1, ret),
                        DRIVER_NUM,
                        BUFFER_NUM,
                    );
                }
                ret.to_result_unit()
            },
            Err(e) => Err(e),
        }
    }

    /// Runs one Command of the buffer's driver under the grant: allows the
    /// buffer, issues the Command where the allow succeeded, and revokes
    /// on every path out the grant that the kernel accepted. The first
    /// error is handed on, else the Command's answer.
    pub fn with_grant<C: Config>(
        &mut self,
        k: &mut Kernel<S>,
        command_id: u32,
        arg0: u32,
        arg1: u32,
    ) -> (r: Result<(), ErrorCode>)
        ensures
            !final(self).is_allowed(),
            final(self).contents() == old(self).contents(),
            old(self).covers(old(k).calls()) ==> !ro_granted(
                final(k).calls(),
                DRIVER_NUM,
                BUFFER_NUM,
            ),
            exists|under: Seq<Syscall>, held: bool| #[trigger]
                granted_command(
                    old(k).calls(),
                    under,
                    old(self).is_allowed(),
                    held,
                    DRIVER_NUM,
                    BUFFER_NUM,
                    old(self).contents(),
                    command_id,
                    arg0,
                    arg1,
                    r,
                ) && final(k).calls() == (if held {
                    under.push(Self::unallow_call())
                } else {
                    under
                }),
    {
        let r = self.command_under_grant::<C>(k, command_id, arg0, arg1);
        self.unallow(k);
        r
    }

    /// Revokes the grant and hands out the memory for writing.
    pub fn get_mut_buffer(&mut self, k: &mut Kernel<S>) -> (r: &mut [u8; BUFFER_SIZE])
        ensures
            r@ == old(self).contents(),
            !final(self).is_allowed(),
            final(self).contents() == final(r)@,
            final(k).calls() == (if old(self).is_allowed() {
                old(k).calls().push(Self::unallow_call())
            } else {
                old(k).calls()
            }),
            old(self).covers(old(k).calls()) ==> !ro_granted(
                final(k).calls(),
                DRIVER_NUM,
                BUFFER_NUM,
            ),
    {
        self.unallow(k);
        &mut self.buffer
    }
}

} // verus!
