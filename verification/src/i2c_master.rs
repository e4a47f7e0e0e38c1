//! The asynchronous I2C controller: the steps of a transfer around the
//! suspension of the calling task.

use crate::allow_ro;
use crate::allow_ro::{AllowRoBuffer, DefaultConfig};
use crate::allow_rw;
use crate::allow_rw::AllowRwBuffer;
use crate::error::ErrorCode;
use crate::syscalls::{allow_rw_call, size_arg, size_word, Kernel, Syscall, Syscalls};
use crate::transaction::{TransactionGuard, UpcallSlot};
use core::task::Waker;
use vstd::prelude::*;

verus! {

/// The driver number of the I2C controller capsule.
pub const DRIVER_NUM: u32 = 0x20003;

/// Command: is the capsule present.
pub const EXISTS: u32 = 0;

/// Command: write the buffer shared.
pub const MASTER_WRITE: u32 = 1;

/// Command: read into the buffer shared.
pub const MASTER_READ: u32 = 2;

/// Command: write from and read into one buffer.
pub const MASTER_WRITE_READ_IN_PLACE: u32 = 3;

/// Command: write one buffer, read into another.
pub const MASTER_WRITE_READ: u32 = 4;

/// Subscribe id: a transfer completed.
pub const SUBSCRIBE_MASTER_READ_WRITE: u32 = 0;

/// Read-only slot of the bytes to write.
pub const RO_ALLOW_MASTER: u32 = 0;

/// Read-write slot that a read fills.
pub const RW_ALLOW_MASTER: u32 = 1;

/// The first argument of a combined transfer: the number of bytes to
/// write, shifted up by one byte, or-ed with the device address.
pub open spec fn transfer_word(write_len: u32, addr: u16) -> u32 {
    (write_len << 8) | (addr as u32)
}

/// What a completion's status word means: the number of an error is that
/// error, any other number is success.
pub open spec fn status_result(status: u32) -> Result<(), ErrorCode> {
    match ErrorCode::from_code(status) {
        Some(e) => Err(e),
        None => Ok(()),
    }
}

/// The state that the controller's transfers share: the guard, and the
/// slot for the one completion that is awaited.
pub struct AsyncI2cMasterStorage {
    guard: TransactionGuard,
    result: UpcallSlot<Result<(), ErrorCode>>,
}

impl AsyncI2cMasterStorage {
    /// Whether a transfer is in flight.
    pub closed spec fn is_busy(&self) -> bool {
        self.guard.is_busy()
    }

    /// The completion that waits to be consumed.
    pub closed spec fn completion(&self) -> Option<Result<(), ErrorCode>> {
        self.result.completion()
    }

    /// No transfer in flight, no completion waiting.
    pub fn new() -> (storage: Self)
        ensures
            !storage.is_busy(),
            storage.completion().is_none(),
    {
        Self { guard: TransactionGuard::new(), result: UpcallSlot::new() }
    }

    /// Whether a transfer is in flight.
    pub fn busy(&self) -> (b: bool)
        ensures
            b == self.is_busy(),
    {
        self.guard.busy()
    }

    /// Frees the guard where the start of a transfer failed, and hands the
    /// outcome of the start on.
    fn started(&mut self, res: Result<(), ErrorCode>) -> (r: Result<(), ErrorCode>)
        requires
            old(self).is_busy(),
        ensures
            r == res,
            final(self).is_busy() == res.is_ok(),
            final(self).completion() == old(self).completion(),
    {
        if res.is_err() {
            self.guard.end();
        }
        res
    }
}

/// What the start of a transfer leaves, given whether the controller was
/// busy. While an earlier transfer is in flight the start fails with `Busy`
/// and the storage stays as it was. Otherwise the slot is emptied, and the
/// guard is held exactly where the start succeeded.
pub open spec fn start_outcome(
    before: AsyncI2cMasterStorage,
    after: AsyncI2cMasterStorage,
    r: Result<(), ErrorCode>,
) -> bool {
    if before.is_busy() {
        r == Err::<(), ErrorCode>(ErrorCode::Busy) && after.is_busy() && after.completion()
            == before.completion()
    } else {
        after.is_busy() == r.is_ok() && after.completion().is_none()
    }
}

/// The calls of the start of a combined transfer, its result, and whether
/// the two buffers count as allowed afterwards. The read buffer's allow is
/// made unless it counted as allowed already; then, unless that failed,
/// follows what a Command under the write buffer's grant makes.
pub open spec fn write_read_calls(
    before: Seq<Syscall>,
    after: Seq<Syscall>,
    read_was_allowed: bool,
    read_now_allowed: bool,
    write_was_allowed: bool,
    write_now_allowed: bool,
    write_contents: Seq<u8>,
    word: u32,
    read_size: u32,
    r: Result<(), ErrorCode>,
) -> bool {
    if read_was_allowed {
        read_now_allowed && allow_ro::granted_command(
            before,
            after,
            write_was_allowed,
            write_now_allowed,
            DRIVER_NUM,
            RO_ALLOW_MASTER,
            write_contents,
            MASTER_WRITE_READ,
            word,
            read_size,
            r,
        )
    } else {
        exists|replaced: Result<bool, ErrorCode>|
            {
                let shared = before.push(
                    #[trigger] allow_rw_call(DRIVER_NUM, RW_ALLOW_MASTER, replaced),
                );
                match replaced {
                    Err(e) => after == shared && r == Err::<(), ErrorCode>(e) && !read_now_allowed
                        && write_now_allowed == write_was_allowed,
                    Ok(_) => read_now_allowed && allow_ro::granted_command(
                        shared,
                        after,
                        write_was_allowed,
                        write_now_allowed,
                        DRIVER_NUM,
                        RO_ALLOW_MASTER,
                        write_contents,
                        MASTER_WRITE_READ,
                        word,
                        read_size,
                        r,
                    ),
                }
            }
    }
}

/// The asynchronous I2C controller. A transfer is three steps around the
/// suspension of the calling task: the start, the poll for the completion
/// while suspended, and the end. A start makes no call while an earlier
/// transfer is in flight.
pub struct AsyncI2cMaster;

impl AsyncI2cMaster {
    /// Starts a read of `SIZE` bytes from the device at `addr`: allows the
    /// buffer, then issues the read command with the address and the size.
    pub fn read_begin<S: Syscalls, const SIZE: usize>(
        &mut self,
        k: &mut Kernel<S>,
        storage: &mut AsyncI2cMasterStorage,
        addr: u16,
        read: &mut AllowRwBuffer<S, DRIVER_NUM, RW_ALLOW_MASTER, SIZE>,
    ) -> (r: Result<(), ErrorCode>)
        ensures
            start_outcome(*old(storage), *final(storage), r),
            old(read).covers(old(k).calls()) ==> final(read).covers(final(k).calls()),
            old(storage).is_busy() ==> {
                &&& final(read).is_allowed() == old(read).is_allowed()
                &&& final(read).contents() == old(read).contents()
                &&& final(k).calls() == old(k).calls()
            },
            !old(storage).is_busy() ==> allow_rw::granted_command(
                old(k).calls(),
                final(k).calls(),
                old(read).is_allowed(),
                final(read).is_allowed(),
                DRIVER_NUM,
                RW_ALLOW_MASTER,
                MASTER_READ,
                addr as u32,
                size_word(SIZE),
                r,
            ),
    {
        match storage.guard.begin() {
            Ok(()) => {},
            Err(e) => { return Err(e); },
        }
        storage.result.reset();
        let res = read.command_under_grant::<DefaultConfig>(
            k,
            MASTER_READ,
            addr as u32,
            size_arg(SIZE),
        );
        storage.started(res)
    }

    /// Starts a write of the `SIZE` bytes of `write` to the device at
    /// `addr`: allows the buffer, then issues the write command with the
    /// address and the size.
    pub fn write_begin<S: Syscalls, const SIZE: usize>(
        &mut self,
        k: &mut Kernel<S>,
        storage: &mut AsyncI2cMasterStorage,
        addr: u16,
        write: &mut AllowRoBuffer<S, DRIVER_NUM, RO_ALLOW_MASTER, SIZE>,
    ) -> (r: Result<(), ErrorCode>)
        ensures
            start_outcome(*old(storage), *final(storage), r),
            final(write).contents() == old(write).contents(),
            old(write).covers(old(k).calls()) ==> final(write).covers(final(k).calls()),
            old(storage).is_busy() ==> {
                &&& final(write).is_allowed() == old(write).is_allowed()
                &&& final(k).calls() == old(k).calls()
            },
            !old(storage).is_busy() ==> allow_ro::granted_command(
                old(k).calls(),
                final(k).calls(),
                old(write).is_allowed(),
                final(write).is_allowed(),
                DRIVER_NUM,
                RO_ALLOW_MASTER,
                old(write).contents(),
                MASTER_WRITE,
                addr as u32,
                size_word(SIZE),
                r,
            ),
    {
        match storage.guard.begin() {
            Ok(()) => {},
            Err(e) => { return Err(e); },
        }
        storage.result.reset();
        let res = write.command_under_grant::<DefaultConfig>(
            k,
            MASTER_WRITE,
            addr as u32,
            size_arg(SIZE),
        );
        storage.started(res)
    }

    /// Packs the first argument of a combined transfer.
    pub fn pack_transfer(write_len: u32, addr: u16) -> (word: u32)
        ensures
            word == transfer_word(write_len, addr),
    {
        (write_len << 8) | (addr as u32)
    }

    /// Starts a write of `write` to the device at `addr` followed by a read
    /// into `read`. The read buffer is allowed first; then, where that
    /// succeeded, the write buffer is allowed and the command issued with
    /// the packed write size and address, and the read size.
    pub fn write_read_begin<S: Syscalls, const READ_SIZE: usize, const WRITE_SIZE: usize>(
        &mut self,
        k: &mut Kernel<S>,
        storage: &mut AsyncI2cMasterStorage,
        addr: u16,
        write: &mut AllowRoBuffer<S, DRIVER_NUM, RO_ALLOW_MASTER, WRITE_SIZE>,
        read: &mut AllowRwBuffer<S, DRIVER_NUM, RW_ALLOW_MASTER, READ_SIZE>,
    ) -> (r: Result<(), ErrorCode>)
        ensures
            start_outcome(*old(storage), *final(storage), r),
            final(write).contents() == old(write).contents(),
            old(storage).is_busy() ==> {
                &&& final(write).is_allowed() == old(write).is_allowed()
                &&& final(read).is_allowed() == old(read).is_allowed()
                &&& final(read).contents() == old(read).contents()
                &&& final(k).calls() == old(k).calls()
            },
            !old(storage).is_busy() ==> write_read_calls(
                old(k).calls(),
                final(k).calls(),
                old(read).is_allowed(),
                final(read).is_allowed(),
                old(write).is_allowed(),
                final(write).is_allowed(),
                old(write).contents(),
                transfer_word(size_word(WRITE_SIZE), addr),
                size_word(READ_SIZE),
                r,
            ),
    {
        match storage.guard.begin() {
            Ok(()) => {},
            Err(e) => { return Err(e); },
        }
        storage.result.reset();
        let res = match read.allow::<DefaultConfig>(k) {
            Ok(()) => write.command_under_grant::<DefaultConfig>(
                k,
                MASTER_WRITE_READ,
                Self::pack_transfer(size_arg(WRITE_SIZE), addr),
                size_arg(READ_SIZE),
            ),
            Err(e) => Err(e),
        };
        storage.started(res)
    }

    /// Starts a write of the first `w_len` bytes of `buf` to the device at
    /// `addr` followed by a read of `r_len` bytes into the same buffer.
    /// Lengths beyond the buffer are `NoMem`, before the guard is looked at
    /// and without a call.
    pub fn write_read_in_place_begin<S: Syscalls, const SIZE: usize>(
        &mut self,
        k: &mut Kernel<S>,
        storage: &mut AsyncI2cMasterStorage,
        addr: u16,
        w_len: u16,
        r_len: u16,
        buf: &mut AllowRwBuffer<S, DRIVER_NUM, RW_ALLOW_MASTER, SIZE>,
    ) -> (r: Result<(), ErrorCode>)
        ensures
            old(buf).covers(old(k).calls()) ==> final(buf).covers(final(k).calls()),
            r_len > SIZE || w_len > SIZE ==> {
                &&& r == Err::<(), ErrorCode>(ErrorCode::NoMem)
                &&& final(storage).is_busy() == old(storage).is_busy()
                &&& final(storage).completion() == old(storage).completion()
            },
            r_len <= SIZE && w_len <= SIZE ==> start_outcome(*old(storage), *final(storage), r),
            r_len > SIZE || w_len > SIZE || old(storage).is_busy() ==> {
                &&& final(buf).is_allowed() == old(buf).is_allowed()
                &&& final(buf).contents() == old(buf).contents()
                &&& final(k).calls() == old(k).calls()
            },
            r_len <= SIZE && w_len <= SIZE && !old(storage).is_busy() ==> allow_rw::granted_command(
                old(k).calls(),
                final(k).calls(),
                old(buf).is_allowed(),
                final(buf).is_allowed(),
                DRIVER_NUM,
                RW_ALLOW_MASTER,
                MASTER_WRITE_READ_IN_PLACE,
                transfer_word(w_len as u32, addr),
                r_len as u32,
                r,
            ),
    {
        if (r_len as usize) > SIZE || (w_len as usize) > SIZE {
            return Err(ErrorCode::NoMem);
        }
        match storage.guard.begin() {
            Ok(()) => {},
            Err(e) => { return Err(e); },
        }
        storage.result.reset();
        let res = buf.command_under_grant::<DefaultConfig>(
            k,
            MASTER_WRITE_READ_IN_PLACE,
            Self::pack_transfer(w_len as u32, addr),
            r_len as u32,
        );
        storage.started(res)
    }

    /// Polls for the completion of the transfer in flight, on behalf of the
    /// task that `waker` wakes: `Some` once the callback has delivered it,
    /// and then never again for that transfer.
    pub fn poll(storage: &mut AsyncI2cMasterStorage, waker: &Waker) -> (r: Option<
        Result<(), ErrorCode>,
    >)
        ensures
            r == old(storage).completion(),
            final(storage).completion().is_none(),
            final(storage).is_busy() == old(storage).is_busy(),
    {
        storage.result.poll(waker)
    }

    /// Ends a transfer whose completion has been consumed: frees the guard
    /// and returns the status.
    pub fn end(storage: &mut AsyncI2cMasterStorage, completion: Result<(), ErrorCode>) -> (r:
        Result<(), ErrorCode>)
        ensures
            r == completion,
            !final(storage).is_busy(),
            final(storage).completion() == old(storage).completion(),
    {
        storage.guard.end();
        completion
    }
}

/// The handler of the controller's completions.
pub struct EmbassyListener;

impl EmbassyListener {
    /// Handles the completion of a transfer: stores its status for the
    /// waiting task, and wakes it.
    pub fn upcall(&self, storage: &mut AsyncI2cMasterStorage, arg0: u32, _arg1: u32, _arg2: u32)
        ensures
            final(storage).completion() == Some(status_result(arg0)),
            final(storage).is_busy() == old(storage).is_busy(),
    {
        let status = match ErrorCode::try_from_u32(arg0) {
            Some(err) => Err(err),
            None => Ok(()),
        };
        storage.result.complete(status);
    }
}

} // verus!
