//! The asynchronous console: a bounded writer that collects the bytes of
//! one message, and the steps of a write or read around the suspension of
//! the calling task.

use crate::allow_ro::{AllowRoBuffer, DefaultConfig};
use crate::allow_rw;
use crate::allow_rw::AllowRwBuffer;
use crate::error::ErrorCode;
use crate::syscalls::{size_arg, size_word, Kernel, Syscalls};
use crate::transaction::{TransactionGuard, UpcallSlot};
use core::task::Waker;
use vstd::prelude::*;
use vstd::string::StringSliceAdditionalSpecFns;

verus! {

/// The driver number of the console capsule.
pub const DRIVER_NUM: u32 = 0x1;

/// Command: is the capsule present.
pub const EXISTS: u32 = 0;

/// Command: write the buffer shared.
pub const WRITE: u32 = 1;

/// Command: read into the buffer shared.
pub const READ: u32 = 2;

/// Command: abort the operation in flight.
pub const ABORT: u32 = 3;

/// Subscribe id: a write completed.
pub const SUBSCRIBE_WRITE: u32 = 1;

/// Subscribe id: a read completed.
pub const SUBSCRIBE_READ: u32 = 2;

/// Read-only slot of the bytes to write.
pub const ALLOW_RO_WRITE: u32 = 1;

/// Read-write slot that a read fills.
pub const ALLOW_RW_READ: u32 = 1;

/// What a completion of the console carries: a byte count and a status.
pub type Completion = (u32, Result<(), ErrorCode>);

/// The bytes did not fit into what was left of the writer's buffer.
#[derive(Clone, Copy, Debug, PartialEq, Eq, Structural)]
pub struct BufferFull;

/// Collects the bytes of one console message in a buffer of `SIZE` bytes.
pub struct ConsoleBufWriter<const SIZE: usize> {
    buf: [u8; SIZE],
    pos: usize,
}

impl<const SIZE: usize> ConsoleBufWriter<SIZE> {
    #[verifier::type_invariant]
    closed spec fn wf(&self) -> bool {
        self.pos <= SIZE
    }

    /// The bytes written so far.
    pub closed spec fn written(&self) -> Seq<u8> {
        self.buf@.take(self.pos as int)
    }

    /// The whole buffer: the bytes written, then what is left.
    pub closed spec fn bytes(&self) -> Seq<u8> {
        self.buf@
    }

    /// An empty writer over a zeroed buffer.
    pub fn new() -> (w: Self)
        ensures
            w.written() == Seq::<u8>::empty(),
            w.bytes() == Seq::new(SIZE as nat, |i: int| 0u8),
            w.bytes().len() == SIZE,
    {
        let w = Self { buf: [0;SIZE], pos: 0 };
        assert(w.buf@ =~= Seq::new(SIZE as nat, |i: int| 0u8));
        assert(w.written() =~= Seq::<u8>::empty());
        w
    }

    /// The number of bytes written so far.
    pub fn position(&self) -> (n: usize)
        ensures
            n == self.written().len(),
            n <= SIZE,
    {
        proof {
            use_type_invariant(self);
        }
        self.pos
    }

    /// Appends the bytes of `s`, all or none. Where they do not fit into
    /// what is left, the writer stays as it was and the call fails.
    /// Otherwise they stand in the buffer from the position on, and every
    /// other byte of the buffer is as it was.
    pub fn write_str(&mut self, s: &str) -> (r: Result<(), BufferFull>)
        ensures
            r.is_ok() <==> old(self).written().len() + s.spec_bytes().len() <= SIZE,
            r.is_ok() ==> final(self).written() == old(self).written() + s.spec_bytes(),
            r.is_ok() ==> final(self).bytes() == old(self).bytes().take(
                old(self).written().len() as int,
            ) + s.spec_bytes() + old(self).bytes().skip(
                (old(self).written().len() + s.spec_bytes().len()) as int,
            ),
            r.is_err() ==> final(self).written() == old(self).written() && final(self).bytes()
                == old(self).bytes(),
            final(self).bytes().len() == SIZE,
            final(self).written() == final(self).bytes().take(final(self).written().len() as int),
    {
        proof {
            use_type_invariant(&*self);
        }
        let bytes = s.as_bytes();
        let n: usize = bytes.len();
        if n > SIZE - self.pos {
            return Err(BufferFull);
        }
        let start: usize = self.pos;
        let mut k: usize = 0;
        while k < n
            invariant
                k <= n,
                n == bytes@.len(),
                start + n <= SIZE,
                self.pos == start,
                forall|j: int| 0 <= j < start ==> self.buf@[j] == old(self).buf@[j],
                forall|j: int| 0 <= j < k ==> self.buf@[start + j] == bytes@[j],
                forall|j: int| start + k <= j < SIZE ==> self.buf@[j] == old(self).buf@[j],
            decreases n - k,
        {
            self.buf[start + k] = bytes[k];
            k += 1;
        }
        self.pos = start + n;
        assert(self.buf@.take(self.pos as int) =~= old(self).buf@.take(start as int) + bytes@);
        assert(self.buf@ =~= old(self).buf@.take(start as int) + bytes@ + old(self).buf@.skip(
            start + n,
        ));
        Ok(())
    }

    /// Turns the writer into a buffer to share with the console capsule,
    /// not yet allowed, holding the writer's whole buffer.
    pub fn into_allow_ro_buffer<S: Syscalls>(self) -> (b: AllowRoBuffer<
        S,
        DRIVER_NUM,
        ALLOW_RO_WRITE,
        SIZE,
    >)
        ensures
            !b.is_allowed(),
            b.contents() == self.bytes(),
    {
        AllowRoBuffer::from_array(self.buf)
    }
}

/// The state that the console's operations share: the guard, and the slot
/// for the one completion that is awaited.
pub struct ConsoleAsyncStorage {
    guard: TransactionGuard,
    result: UpcallSlot<Completion>,
}

impl ConsoleAsyncStorage {
    /// Whether an operation is in flight.
    pub closed spec fn is_busy(&self) -> bool {
        self.guard.is_busy()
    }

    /// The completion that waits to be consumed.
    pub closed spec fn completion(&self) -> Option<Completion> {
        self.result.completion()
    }

    /// No operation in flight, no completion waiting.
    pub fn new() -> (storage: Self)
        ensures
            !storage.is_busy(),
            storage.completion().is_none(),
    {
        Self { guard: TransactionGuard::new(), result: UpcallSlot::new() }
    }

    /// Whether an operation is in flight.
    pub fn busy(&self) -> (b: bool)
        ensures
            b == self.is_busy(),
    {
        self.guard.busy()
    }
}

/// What a read completion's status word means: zero is success, the
/// number of an error is that error, any other number is `Fail`.
pub open spec fn status_result(status: u32) -> Result<(), ErrorCode> {
    if status == 0 {
        Ok(())
    } else {
        match ErrorCode::from_code(status) {
            Some(e) => Err(e),
            None => Err(ErrorCode::Fail),
        }
    }
}

/// The asynchronous console. A write or a read is three steps around the
/// suspension of the calling task: the start, the poll for the completion
/// while suspended, and the end.
pub struct ConsoleAsync;

impl ConsoleAsync {
    /// Starts a write of the whole buffer `s`.
    ///
    /// While an earlier operation is in flight this fails with `Busy`,
    /// makes no call and touches nothing. Otherwise it claims the guard,
    /// empties the slot, allows the buffer and issues the write command
    /// with the buffer's size. Where the kernel refuses either, the guard
    /// is freed and the error handed on: no completion will come.
    pub fn try_write_begin<S: Syscalls, const SIZE: usize>(
        k: &mut Kernel<S>,
        storage: &mut ConsoleAsyncStorage,
        s: &mut AllowRoBuffer<S, DRIVER_NUM, ALLOW_RO_WRITE, SIZE>,
    ) -> (r: Result<(), ErrorCode>)
        ensures
            final(s).contents() == old(s).contents(),
            old(s).covers(old(k).calls()) ==> final(s).covers(final(k).calls()),
            old(storage).is_busy() ==> {
                &&& r == Err::<(), ErrorCode>(ErrorCode::Busy)
                &&& final(storage).is_busy()
                &&& final(storage).completion() == old(storage).completion()
                &&& final(s).is_allowed() == old(s).is_allowed()
                &&& final(k).calls() == old(k).calls()
            },
            !old(storage).is_busy() ==> {
                &&& final(storage).is_busy() == r.is_ok()
                &&& final(storage).completion().is_none()
                &&& crate::allow_ro::granted_command(
                    old(k).calls(),
                    final(k).calls(),
                    old(s).is_allowed(),
                    final(s).is_allowed(),
                    DRIVER_NUM,
                    ALLOW_RO_WRITE,
                    old(s).contents(),
                    WRITE,
                    size_word(SIZE),
                    0,
                    r,
                )
            },
    {
        match storage.guard.begin() {
            Ok(()) => {},
            Err(e) => { return Err(e); },
        }
        storage.result.reset();
        let res = s.command_under_grant::<DefaultConfig>(k, WRITE, size_arg(SIZE), 0);
        if res.is_err() {
            storage.guard.end();
        }
        res
    }

    /// Starts a read that fills the whole buffer `buf`; as
    /// [`ConsoleAsync::try_write_begin`], with the read command.
    pub fn try_read_begin<S: Syscalls, const SIZE: usize>(
        k: &mut Kernel<S>,
        storage: &mut ConsoleAsyncStorage,
        buf: &mut AllowRwBuffer<S, DRIVER_NUM, ALLOW_RW_READ, SIZE>,
    ) -> (r: Result<(), ErrorCode>)
        ensures
            old(buf).covers(old(k).calls()) ==> final(buf).covers(final(k).calls()),
            old(storage).is_busy() ==> {
                &&& r == Err::<(), ErrorCode>(ErrorCode::Busy)
                &&& final(storage).is_busy()
                &&& final(storage).completion() == old(storage).completion()
                &&& final(buf).is_allowed() == old(buf).is_allowed()
                &&& final(buf).contents() == old(buf).contents()
                &&& final(k).calls() == old(k).calls()
            },
            !old(storage).is_busy() ==> {
                &&& final(storage).is_busy() == r.is_ok()
                &&& final(storage).completion().is_none()
                &&& allow_rw::granted_command(
                    old(k).calls(),
                    final(k).calls(),
                    old(buf).is_allowed(),
                    final(buf).is_allowed(),
                    DRIVER_NUM,
                    ALLOW_RW_READ,
                    READ,
                    size_word(SIZE),
                    0,
                    r,
                )
            },
    {
        match storage.guard.begin() {
            Ok(()) => {},
            Err(e) => { return Err(e); },
        }
        storage.result.reset();
        let res = buf.command_under_grant::<DefaultConfig>(k, READ, size_arg(SIZE), 0);
        if res.is_err() {
            storage.guard.end();
        }
        res
    }

    /// Polls for the completion of the operation in flight, on behalf of
    /// the task that `waker` wakes: `Some` once the callback has delivered
    /// it, and then never again for that operation.
    pub fn poll(storage: &mut ConsoleAsyncStorage, waker: &Waker) -> (r: Option<Completion>)
        ensures
            r == old(storage).completion(),
            final(storage).completion().is_none(),
            final(storage).is_busy() == old(storage).is_busy(),
    {
        storage.result.poll(waker)
    }

    /// Ends a write whose completion has been consumed: frees the guard and
    /// returns the status.
    pub fn try_write_end(storage: &mut ConsoleAsyncStorage, completion: Completion) -> (r: Result<
        (),
        ErrorCode,
    >)
        ensures
            r == completion.1,
            !final(storage).is_busy(),
            final(storage).completion() == old(storage).completion(),
    {
        storage.guard.end();
        completion.1
    }

    /// Ends a read whose completion has been consumed: frees the guard and
    /// returns the byte count with the status.
    pub fn try_read_end(storage: &mut ConsoleAsyncStorage, completion: Completion) -> (r:
        Completion)
        ensures
            r == completion,
            !final(storage).is_busy(),
            final(storage).completion() == old(storage).completion(),
    {
        storage.guard.end();
        completion
    }

    /// What the start of a read hands back where it failed: no bytes, and
    /// the error.
    pub fn read_failure(error: ErrorCode) -> (r: Completion)
        ensures
            r == (0u32, Err::<(), ErrorCode>(error)),
    {
        (0u32, Err(error))
    }

    /// Whether a write that ended with `result` is tried again after the
    /// task has yielded: exactly where the console was busy.
    pub fn retry_write(result: &Result<(), ErrorCode>) -> (again: bool)
        ensures
            again == (*result == Err::<(), ErrorCode>(ErrorCode::Busy)),
    {
        match result {
            Err(ErrorCode::Busy) => true,
            _ => false,
        }
    }
}

/// The handler of the console's completions.
pub struct EmbassyListener;

impl EmbassyListener {
    /// Reads the status word of a read completion.
    pub fn read_status(status: u32) -> (r: Result<(), ErrorCode>)
        ensures
            r == status_result(status),
    {
        if status == 0 {
            Ok(())
        } else {
            match ErrorCode::try_from_u32(status) {
                Some(e) => Err(e),
                None => Err(ErrorCode::Fail),
            }
        }
    }

    /// Handles the completion of a read: stores the byte count and the
    /// status for the waiting task, and wakes it.
    pub fn upcall_read(
        &self,
        storage: &mut ConsoleAsyncStorage,
        status: u32,
        bytes_received: u32,
        _arg2: u32,
    )
        ensures
            final(storage).completion() == Some((bytes_received, status_result(status))),
            final(storage).is_busy() == old(storage).is_busy(),
    {
        let r = Self::read_status(status);
        storage.result.complete((bytes_received, r));
    }

    /// Handles the completion of a write: stores the byte count, with
    /// success, for the waiting task, and wakes it.
    pub fn upcall_write(
        &self,
        storage: &mut ConsoleAsyncStorage,
        bytes_written: u32,
        _arg1: u32,
        _arg2: u32,
    )
        ensures
            final(storage).completion() == Some((bytes_written, Ok::<(), ErrorCode>(()))),
            final(storage).is_busy() == old(storage).is_busy(),
    {
        storage.result.complete((bytes_written, Ok(())));
    }
}

} // verus!
