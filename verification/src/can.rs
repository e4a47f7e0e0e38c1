//! The CAN driver: identifiers, frames, the layout of the receive buffer,
//! and the commands of the capsule.
//!
//! A receive buffer is one count byte followed by records of 14 bytes. A
//! record is the identifier as a 32-bit big-endian number, one length
//! byte, one reserved byte and a payload window of 8 bytes. In the
//! identifier field a value whose two top bits are `01` holds an extended
//! identifier in its low 29 bits; any other value holds a standard
//! identifier in its low 11 bits.

use crate::allow_ro::{AllowRo, DefaultConfig};
use crate::error::ErrorCode;
use crate::syscalls::{
    allow_ro_call,
    allow_rw_call,
    command_call,
    lemma_granted_push,
    ro_granted,
    rw_granted,
    subscribe_call,
    CommandReturn,
    Kernel,
    Syscall,
    Syscalls,
};
use core::marker::PhantomData;
use vstd::prelude::*;

verus! {

/// The driver number of the CAN capsule.
pub const DRIVER_NUM: u32 = 0x20007;

/// Command: is the capsule present.
pub const EXISTS: u32 = 0;

/// Command: set the bit rate.
pub const SET_BIT_RATE: u32 = 1;

/// Command: set the operation mode.
pub const SET_MODE: u32 = 2;

/// Command: enable the peripheral.
pub const ENABLE: u32 = 3;

/// Command: disable the peripheral.
pub const DISABLE: u32 = 4;

/// Command: send the message shared.
pub const SEND_MESSAGE: u32 = 5;

/// Command: start the receiver.
pub const START_RECEIVER: u32 = 7;

/// Command: stop the receiver.
pub const STOP_RECEIVER: u32 = 8;

/// Command: set the bit timing.
pub const SET_TIMING: u32 = 9;

/// Command: copy the received messages.
pub const READ_MESSAGES: u32 = 10;

/// Command: the state of the peripheral.
pub const STATE: u32 = 11;

/// Command: the last frame of one identifier.
pub const READ_SPECIAL_FRAME: u32 = 12;

/// Subscribe id: a message was sent.
pub const SUBSCRIBE_MESSAGE_SENT: u32 = 2;

/// Subscribe id: a message was received.
pub const SUBSCRIBE_MESSAGE_RECEIVED: u32 = 3;

/// Read-only slot of the message to send.
pub const ALLOW_RO_MESSAGE: u32 = 0;

/// Read-write slot that the capsule receives into.
pub const ALLOW_RW_MESSAGE: u32 = 0;

/// Read-write slot that received messages are copied to.
pub const ALLOW_RW_MESSAGE_DST: u32 = 1;

/// The bytes of a frame's payload window.
pub const STANDARD_CAN_PACKET_SIZE: usize = 8;

/// The bytes of one record in a receive buffer.
pub const CANFRAME_SIZE: usize = 14;

/// The records that a receive buffer has room for.
pub const CANFRAME_MAX_NUM: usize = 3;

/// The bytes of the count that leads a receive buffer.
pub const UNREAD_COUNTER_SIZE: usize = 1;

/// The bytes of a receive buffer: the count byte and the records.
pub const RECEIVE_BUFFER_SIZE: usize = UNREAD_COUNTER_SIZE + CANFRAME_MAX_NUM * CANFRAME_SIZE;

/// The bytes of the records in a receive buffer.
pub const RECORDS_SIZE: usize = CANFRAME_MAX_NUM * CANFRAME_SIZE;

/// The state of the peripheral.
#[derive(Debug, Copy, Clone, PartialEq, Eq, Structural)]
pub enum State {
    Uninit,
    Running,
    Sleep,
    Stopped,
    BusOff,
}

impl State {
    /// The state that a number of the capsule stands for: 0 to 3 in the
    /// order of the variants, bus-off for every other number.
    pub open spec fn of(value: u32) -> State {
        if value == 0 {
            State::Uninit
        } else if value == 1 {
            State::Running
        } else if value == 2 {
            State::Sleep
        } else if value == 3 {
            State::Stopped
        } else {
            State::BusOff
        }
    }
}

impl From<u32> for State {
    fn from(value: u32) -> (s: State) {
        match value {
            0 => State::Uninit,
            1 => State::Running,
            2 => State::Sleep,
            3 => State::Stopped,
            _ => State::BusOff,
        }
    }
}

impl vstd::std_specs::convert::FromSpecImpl<u32> for State {
    open spec fn obeys_from_spec() -> bool {
        true
    }

    open spec fn from_spec(value: u32) -> State {
        State::of(value)
    }
}

/// How the peripheral takes part in the bus.
#[derive(Debug, Copy, Clone, PartialEq, Eq, Structural)]
pub enum OperationMode {
    /// Each message sent is received at once.
    Loopback,
    /// Receives, and sends recessive bits only.
    Monitoring,
    /// Neither sends nor receives.
    Freeze,
    /// Sends and receives.
    Normal,
}

impl OperationMode {
    /// The number that stands for the mode in the set-mode command.
    pub open spec fn code(self) -> u32 {
        match self {
            OperationMode::Loopback => 0,
            OperationMode::Monitoring => 1,
            OperationMode::Freeze => 2,
            OperationMode::Normal => 3,
        }
    }

    /// The number that stands for the mode in the set-mode command.
    pub fn to_u32(self) -> (r: u32)
        ensures
            r == self.code(),
    {
        match self {
            OperationMode::Loopback => 0,
            OperationMode::Monitoring => 1,
            OperationMode::Freeze => 2,
            OperationMode::Normal => 3,
        }
    }
}

/// A CAN identifier: standard, of 11 bits, or extended, of 29 bits.
#[derive(Copy, Clone, Debug, PartialEq, Eq, Structural)]
pub enum Id {
    Standard(u16),
    Extended(u32),
}

impl Id {
    /// The identifier that an identifier field holds.
    pub open spec fn decode(value: u32) -> Id {
        if value / 0x4000_0000 == 1 {
            Id::Extended(value % 0x2000_0000)
        } else {
            Id::Standard((value % 0x800) as u16)
        }
    }

    /// The identifier field that holds this identifier: a standard one as
    /// it is, an extended one in the low 29 bits under the top bits `01`.
    pub open spec fn encode(self) -> u32 {
        match self {
            Id::Standard(id) => id as u32,
            Id::Extended(id) => (0x4000_0000 + id % 0x2000_0000) as u32,
        }
    }

    /// Whether the identifier fits its kind: 11 bits, or 29.
    pub open spec fn in_range(self) -> bool {
        match self {
            Id::Standard(id) => id <= 0x7FF,
            Id::Extended(id) => id <= 0x1FFF_FFFF,
        }
    }

    /// Writes the identifier as an identifier field.
    pub fn to_u32(self) -> (value: u32)
        ensures
            value == self.encode(),
    {
        match self {
            Id::Standard(id) => id as u32,
            Id::Extended(id) => 0x4000_0000 + id % 0x2000_0000,
        }
    }
}

impl From<u32> for Id {
    fn from(value: u32) -> (id: Id) {
        if value / 0x4000_0000 == 1 {
            Id::Extended(value % 0x2000_0000)
        } else {
            Id::Standard((value % 0x800) as u16)
        }
    }
}

impl vstd::std_specs::convert::FromSpecImpl<u32> for Id {
    open spec fn obeys_from_spec() -> bool {
        true
    }

    open spec fn from_spec(value: u32) -> Id {
        Id::decode(value)
    }
}

impl From<Id> for u32 {
    fn from(id: Id) -> (value: u32) {
        id.to_u32()
    }
}

impl vstd::std_specs::convert::FromSpecImpl<Id> for u32 {
    open spec fn obeys_from_spec() -> bool {
        true
    }

    open spec fn from_spec(id: Id) -> u32 {
        id.encode()
    }
}

/// An identifier that fits its kind comes back from its identifier field
/// unchanged, value and kind.
pub proof fn lemma_id_round_trip(id: Id)
    requires
        id.in_range(),
    ensures
        Id::decode(id.encode()) == id,
{
}

/// One CAN frame.
#[derive(Debug)]
pub struct Frame {
    pub id: Id,
    pub len: u8,
    pub message: [u8; STANDARD_CAN_PACKET_SIZE],
}

/// What a frame holds, with the payload window as a sequence.
pub struct FrameData {
    pub id: Id,
    pub len: u8,
    pub message: Seq<u8>,
}

impl View for Frame {
    type V = FrameData;

    open spec fn view(&self) -> FrameData {
        FrameData { id: self.id, len: self.len, message: self.message@ }
    }
}

/// The number whose big-endian bytes are `b0` to `b3`.
pub open spec fn be_u32(b0: u8, b1: u8, b2: u8, b3: u8) -> u32 {
    (b0 as int * 0x100_0000 + b1 as int * 0x1_0000 + b2 as int * 0x100 + b3 as int) as u32
}

/// The frame that the record of 14 bytes at `start` in `bytes` holds.
pub open spec fn record_at(bytes: Seq<u8>, start: int) -> FrameData
    recommends
        0 <= start,
        start + 14 <= bytes.len(),
{
    FrameData {
        id: Id::decode(be_u32(bytes[start], bytes[start + 1], bytes[start + 2], bytes[start + 3])),
        len: bytes[start + 4],
        message: bytes.subrange(start + 6, start + 14),
    }
}

/// The number of records that decoding yields from `available` bytes of
/// records under a declared count: the count, or the whole records that
/// fit, whichever is less.
pub open spec fn record_count(declared: u8, available: int) -> int {
    if declared as int <= available / 14 {
        declared as int
    } else {
        available / 14
    }
}

/// The frames that a receive buffer holds: its first byte is the count,
/// the records follow; a trailing part shorter than a record is dropped.
pub open spec fn frames_of(buffer: Seq<u8>) -> Seq<FrameData> {
    if buffer.len() == 0 {
        Seq::empty()
    } else {
        Seq::new(
            record_count(buffer[0], buffer.len() - 1) as nat,
            |i: int| record_at(buffer, 1 + 14 * i),
        )
    }
}

/// Reads the record of 14 bytes at `start`.
pub fn read_record(bytes: &[u8], start: usize) -> (frame: Frame)
    requires
        start + 14 <= bytes@.len(),
    ensures
        frame@ == record_at(bytes@, start as int),
{
    let value: u32 = (bytes[start] as u32) * 0x100_0000 + (bytes[start + 1] as u32) * 0x1_0000 + (
    bytes[start + 2] as u32) * 0x100 + (bytes[start + 3] as u32);
    let id: Id = Id::from(value);
    let len = bytes[start + 4];
    let size: usize = bytes.len();
    let mut message = [0u8;STANDARD_CAN_PACKET_SIZE];
    let mut k: usize = 0;
    while k < 8
        invariant
            k <= 8,
            size == bytes@.len(),
            start + 14 <= size,
            forall|j: int| 0 <= j < k ==> message@[j] == bytes@[start + 6 + j],
        decreases 8 - k,
    {
        message[k] = bytes[start + 6 + k];
        k += 1;
    }
    assert(message@ =~= bytes@.subrange(start + 6, start + 14));
    Frame { id, len, message }
}

/// Decodes a receive buffer of any length into its frames.
pub fn decode_frames(buffer: &[u8]) -> (frames: Vec<Frame>)
    ensures
        frames@.len() == frames_of(buffer@).len(),
        forall|i: int| 0 <= i < frames@.len() ==> (#[trigger] frames@[i])@ == frames_of(buffer@)[i],
{
    let mut frames: Vec<Frame> = Vec::new();
    if buffer.len() == 0 {
        return frames;
    }
    let declared: usize = buffer[0] as usize;
    let fit: usize = (buffer.len() - 1) / 14;
    let n: usize = if declared <= fit {
        declared
    } else {
        fit
    };
    let mut i: usize = 0;
    while i < n
        invariant
            i <= n,
            n == record_count(buffer@[0], buffer@.len() - 1),
            n <= (buffer@.len() - 1) / 14,
            buffer@.len() > 0,
            frames@.len() == i,
            forall|j: int| 0 <= j < i ==> (#[trigger] frames@[j])@ == record_at(buffer@, 1 + 14 * j),
        decreases n - i,
    {
        let frame = read_record(buffer, 1 + 14 * i);
        frames.push(frame);
        i += 1;
    }
    frames
}

/// The frames of one fixed-size receive buffer, handed out one by one.
#[derive(Debug)]
pub struct Frames {
    pub buffers: [u8; RECORDS_SIZE],
    index: usize,
    length: u8,
}

impl Frames {
    /// The bytes of the records.
    pub closed spec fn records(&self) -> Seq<u8> {
        self.buffers@
    }

    /// The count that the buffer declared.
    pub closed spec fn declared(&self) -> u8 {
        self.length
    }

    /// The number of frames handed out so far.
    pub closed spec fn taken(&self) -> nat {
        (self.index as int / 14) as nat
    }

    /// The cursor stands on a record boundary inside the buffer.
    #[verifier::type_invariant]
    closed spec fn wf(&self) -> bool {
        self.index % 14 == 0 && self.index <= 42
    }

    /// The number of frames that the buffer yields in all.
    pub open spec fn total(&self) -> int {
        record_count(self.declared(), 42)
    }

    /// The bytes of the records, as the field `buffers` holds them.
    pub fn record_bytes(&self) -> (bytes: &[u8; RECORDS_SIZE])
        ensures
            bytes@ == self.records(),
    {
        &self.buffers
    }

    /// The count that the buffer declared.
    pub fn len(&self) -> (n: usize)
        ensures
            n == self.declared(),
    {
        self.length as usize
    }

    /// Whether the buffer declared no frame.
    pub fn is_empty(&self) -> (e: bool)
        ensures
            e == (self.declared() == 0),
    {
        self.length == 0
    }

    /// Hands out the next frame, or `None` once the declared count is
    /// exhausted or no whole record is left.
    pub fn next(&mut self) -> (r: Option<Frame>)
        ensures
            final(self).records() == old(self).records(),
            final(self).declared() == old(self).declared(),
            r.is_some() <==> old(self).taken() < old(self).total(),
            r matches Some(frame) ==> frame@ == record_at(
                old(self).records(),
                14 * (old(self).taken() as int),
            ) && final(self).taken() == old(self).taken() + 1,
            r.is_none() ==> final(self).taken() == old(self).taken(),
    {
        proof {
            use_type_invariant(&*self);
        }
        if self.index / CANFRAME_SIZE < self.length as usize && self.index + CANFRAME_SIZE
            <= RECORDS_SIZE {
            let frame = read_record(self.buffers.as_slice(), self.index);
            self.index += CANFRAME_SIZE;
            Some(frame)
        } else {
            None
        }
    }
}

/// The frames that a fixed-size receive buffer hands out one by one are
/// the frames that the buffer holds: the same number, and each read from
/// the same bytes.
pub proof fn lemma_frames_agree(buffer: Seq<u8>, k: int)
    requires
        buffer.len() == 43,
        0 <= k < record_count(buffer[0], 42),
    ensures
        frames_of(buffer).len() == record_count(buffer[0], 42),
        frames_of(buffer)[k] == record_at(buffer.subrange(1, 43), 14 * k),
{
    let records = buffer.subrange(1, 43);
    assert(records.subrange(14 * k + 6, 14 * k + 14) =~= buffer.subrange(
        1 + 14 * k + 6,
        1 + 14 * k + 14,
    ));
}

impl From<[u8; RECEIVE_BUFFER_SIZE]> for Frames {
    /// Takes a receive buffer apart: the count byte, and the records, with
    /// the cursor on the first of them.
    fn from(buffer: [u8; RECEIVE_BUFFER_SIZE]) -> (frames: Frames)
        ensures
            frames.declared() == buffer@[0],
            frames.records() == buffer@.subrange(1, 43),
            frames.taken() == 0,
    {
        let mut messages = [0u8;RECORDS_SIZE];
        let mut k: usize = 0;
        while k < 42
            invariant
                k <= 42,
                forall|j: int| 0 <= j < k ==> messages@[j] == buffer@[j + 1],
            decreases 42 - k,
        {
            messages[k] = buffer[k + 1];
            k += 1;
        }
        assert(messages@ =~= buffer@.subrange(1, 43));
        Frames { buffers: messages, index: 0, length: buffer[0] }
    }
}

impl vstd::std_specs::convert::FromSpecImpl<[u8; RECEIVE_BUFFER_SIZE]> for Frames {
    /// The conversion is stated by the `ensures` of `from`, over the
    /// frames' own spec functions.
    open spec fn obeys_from_spec() -> bool {
        false
    }

    open spec fn from_spec(buffer: [u8; RECEIVE_BUFFER_SIZE]) -> Frames {
        arbitrary()
    }
}

/// Byte `i` of the big-endian form of `value`, `i` from 0 to 7.
pub open spec fn be_byte(value: u64, i: int) -> u8 {
    if i == 0 {
        (value / 0x100_0000_0000_0000) as u8
    } else if i == 1 {
        (value / 0x1_0000_0000_0000 % 0x100) as u8
    } else if i == 2 {
        (value / 0x100_0000_0000 % 0x100) as u8
    } else if i == 3 {
        (value / 0x1_0000_0000 % 0x100) as u8
    } else if i == 4 {
        (value / 0x100_0000 % 0x100) as u8
    } else if i == 5 {
        (value / 0x1_0000 % 0x100) as u8
    } else if i == 6 {
        (value / 0x100 % 0x100) as u8
    } else {
        (value % 0x100) as u8
    }
}

/// The word of the set-timing command: the two segments, the jump width
/// and the prescaler, one byte each from the top down.
pub open spec fn timing_word(segment1: u8, segment2: u8, sync_jump_width: u8, prescaler: u8) -> u32 {
    (segment1 as int * 0x100_0000 + segment2 as int * 0x1_0000 + sync_jump_width as int * 0x100
        + prescaler as int) as u32
}

/// What the state command's return means: a failure is its error, one
/// value is the state it stands for, any other shape is `BadRVal`.
pub open spec fn state_result(ret: CommandReturn) -> Result<State, ErrorCode> {
    match ret {
        CommandReturn::Failure(e) => Err(e),
        CommandReturn::SuccessU32(v) => Ok(State::of(v)),
        _ => Err(ErrorCode::BadRVal),
    }
}

/// What the read-special-frame command's return means. A 32-bit and a
/// 64-bit value are a frame: the first holds, from the top byte down, the
/// read counter, the length and the flags; the second holds the payload,
/// big-endian. A failure is its error; any other shape is `BadRVal`.
pub open spec fn special_frame_result(id: Id, ret: CommandReturn) -> Result<
    (FrameData, u8, u8),
    ErrorCode,
> {
    match ret {
        CommandReturn::SuccessU32U64(status, data) => Ok(
            (
                FrameData {
                    id,
                    len: (status / 0x1_0000 % 0x100) as u8,
                    message: Seq::new(8, |i: int| be_byte(data, i)),
                },
                (status / 0x100_0000) as u8,
                (status / 0x100 % 0x100) as u8,
            ),
        ),
        CommandReturn::Failure(e) => Err(e),
        _ => Err(ErrorCode::BadRVal),
    }
}

/// What a new-frame read makes of a frame read: the frame where it was
/// not read before, else `Already`.
pub open spec fn new_frame_result(read: Result<(FrameData, u8, u8), ErrorCode>) -> Result<
    FrameData,
    ErrorCode,
> {
    match read {
        Ok((frame, counter, _)) => if counter == 0 {
            Ok(frame)
        } else {
            Err(ErrorCode::Already)
        },
        Err(e) => Err(e),
    }
}

/// `after` is `before` and one command more to the CAN capsule, whose
/// answer, read as one without payload, is `r`.
pub open spec fn commanded(
    before: Seq<Syscall>,
    after: Seq<Syscall>,
    command_id: u32,
    arg0: u32,
    arg1: u32,
    r: Result<(), ErrorCode>,
) -> bool {
    exists|ret: CommandReturn|
        after == before.push(#[trigger] command_call(DRIVER_NUM, command_id, arg0, arg1, ret))
            && r == ret.unit_result()
}

/// The end of a send: the payload's grant and the subscription revoked.
pub open spec fn send_closed(calls: Seq<Syscall>) -> Seq<Syscall> {
    calls.push(Syscall::UnallowRo { driver_num: DRIVER_NUM, buffer_num: ALLOW_RO_MESSAGE }).push(
        Syscall::Unsubscribe { driver_num: DRIVER_NUM, subscribe_id: SUBSCRIBE_MESSAGE_SENT },
    )
}

/// The calls of a send and its result: the subscription, the grant on the
/// payload, the send command with the identifier field and the length;
/// each only where the one before succeeded, the first error being the
/// result; and the end of the send on every path.
pub open spec fn send_outcome(
    before: Seq<Syscall>,
    after: Seq<Syscall>,
    frame: FrameData,
    r: Result<(), ErrorCode>,
) -> bool {
    exists|accepted: Result<(), ErrorCode>|
        {
            let subscribed = before.push(
                #[trigger] subscribe_call(DRIVER_NUM, SUBSCRIBE_MESSAGE_SENT, accepted),
            );
            match accepted {
                Err(e) => after == send_closed(subscribed) && r == Err::<(), ErrorCode>(e),
                Ok(()) => exists|replaced: Result<bool, ErrorCode>|
                    {
                        let shared = subscribed.push(
                            #[trigger] allow_ro_call(
                                DRIVER_NUM,
                                ALLOW_RO_MESSAGE,
                                frame.message,
                                replaced,
                            ),
                        );
                        match replaced {
                            Err(e) => after == send_closed(shared) && r == Err::<(), ErrorCode>(e),
                            Ok(_) => exists|ret: CommandReturn|
                                after == send_closed(
                                    shared.push(
                                        #[trigger] command_call(
                                            DRIVER_NUM,
                                            SEND_MESSAGE,
                                            frame.id.encode(),
                                            frame.len as u32,
                                            ret,
                                        ),
                                    ),
                                ) && r == ret.unit_result(),
                        }
                    },
            }
        }
}

/// The end of receiving: both buffers' grants and the subscription
/// revoked.
pub open spec fn receive_closed(calls: Seq<Syscall>) -> Seq<Syscall> {
    calls.push(Syscall::UnallowRw { driver_num: DRIVER_NUM, buffer_num: ALLOW_RW_MESSAGE }).push(
        Syscall::UnallowRw { driver_num: DRIVER_NUM, buffer_num: ALLOW_RW_MESSAGE_DST },
    ).push(
        Syscall::Unsubscribe { driver_num: DRIVER_NUM, subscribe_id: SUBSCRIBE_MESSAGE_RECEIVED },
    )
}

/// After receiving has ended the kernel holds a grant on neither buffer.
pub proof fn lemma_receive_closed(calls: Seq<Syscall>)
    ensures
        !rw_granted(receive_closed(calls), DRIVER_NUM, ALLOW_RW_MESSAGE),
        !rw_granted(receive_closed(calls), DRIVER_NUM, ALLOW_RW_MESSAGE_DST),
{
    let first = Syscall::UnallowRw { driver_num: DRIVER_NUM, buffer_num: ALLOW_RW_MESSAGE };
    let second = Syscall::UnallowRw { driver_num: DRIVER_NUM, buffer_num: ALLOW_RW_MESSAGE_DST };
    let third = Syscall::Unsubscribe {
        driver_num: DRIVER_NUM,
        subscribe_id: SUBSCRIBE_MESSAGE_RECEIVED,
    };
    lemma_granted_push(calls, first, DRIVER_NUM, ALLOW_RW_MESSAGE);
    lemma_granted_push(calls.push(first), second, DRIVER_NUM, ALLOW_RW_MESSAGE);
    lemma_granted_push(calls.push(first).push(second), third, DRIVER_NUM, ALLOW_RW_MESSAGE);
    lemma_granted_push(calls.push(first), second, DRIVER_NUM, ALLOW_RW_MESSAGE_DST);
    lemma_granted_push(calls.push(first).push(second), third, DRIVER_NUM, ALLOW_RW_MESSAGE_DST);
}

/// What the start command's answer counts as: a receiver already started
/// is started.
pub open spec fn start_result(ret: CommandReturn) -> Result<(), ErrorCode> {
    if ret.unit_result() == Err::<(), ErrorCode>(ErrorCode::Already) {
        Ok(())
    } else {
        ret.unit_result()
    }
}

/// The calls of a start of the receiver and its result: the subscription,
/// the grant on the buffer, the start command; each only where the one
/// before succeeded, the first error being the result; and after an error
/// the end of receiving.
pub open spec fn start_outcome(before: Seq<Syscall>, after: Seq<Syscall>, r: Result<(), ErrorCode>) -> bool {
    exists|accepted: Result<(), ErrorCode>|
        {
            let subscribed = before.push(
                #[trigger] subscribe_call(DRIVER_NUM, SUBSCRIBE_MESSAGE_RECEIVED, accepted),
            );
            match accepted {
                Err(e) => after == receive_closed(subscribed) && r == Err::<(), ErrorCode>(e),
                Ok(()) => exists|replaced: Result<bool, ErrorCode>|
                    {
                        let shared = subscribed.push(
                            #[trigger] allow_rw_call(DRIVER_NUM, ALLOW_RW_MESSAGE, replaced),
                        );
                        match replaced {
                            Err(e) => after == receive_closed(shared) && r == Err::<(), ErrorCode>(
                                e,
                            ),
                            Ok(_) => exists|ret: CommandReturn|
                                {
                                    let started = shared.push(
                                        #[trigger] command_call(
                                            DRIVER_NUM,
                                            START_RECEIVER,
                                            0,
                                            0,
                                            ret,
                                        ),
                                    );
                                    r == start_result(ret) && after == (if r.is_ok() {
                                        started
                                    } else {
                                        receive_closed(started)
                                    })
                                },
                        }
                    },
            }
        }
}

/// The calls of a stop of the receiver: the stop command, whose answer is
/// the result, then the end of receiving.
pub open spec fn stop_outcome(before: Seq<Syscall>, after: Seq<Syscall>, r: Result<(), ErrorCode>) -> bool {
    exists|ret: CommandReturn|
        after == receive_closed(
            before.push(#[trigger] command_call(DRIVER_NUM, STOP_RECEIVER, 0, 0, ret)),
        ) && r == ret.unit_result()
}

/// The calls of a read of the received messages, and whether it succeeds:
/// the grant on the destination buffer, the read command where the grant
/// succeeded, and the grant revoked on every path.
pub open spec fn read_outcome(before: Seq<Syscall>, after: Seq<Syscall>, r: Result<(), ErrorCode>) -> bool {
    let revoke = Syscall::UnallowRw { driver_num: DRIVER_NUM, buffer_num: ALLOW_RW_MESSAGE_DST };
    exists|replaced: Result<bool, ErrorCode>|
        {
            let shared = before.push(
                #[trigger] allow_rw_call(DRIVER_NUM, ALLOW_RW_MESSAGE_DST, replaced),
            );
            match replaced {
                Err(e) => after == shared.push(revoke) && r == Err::<(), ErrorCode>(e),
                Ok(_) => exists|ret: CommandReturn|
                    after == shared.push(
                        #[trigger] command_call(DRIVER_NUM, READ_MESSAGES, 0, 0, ret),
                    ).push(revoke) && r == ret.unit_result(),
            }
        }
}

/// The CAN driver over the kernel `S`.
pub struct Can<S: Syscalls>(PhantomData<S>);

impl<S: Syscalls> Can<S> {
    /// Asks the kernel whether the CAN capsule is present.
    pub fn driver_exists(k: &mut Kernel<S>) -> (r: Result<(), ErrorCode>)
        ensures
            commanded(old(k).calls(), final(k).calls(), EXISTS, 0, 0, r),
    {
        k.command(DRIVER_NUM, EXISTS, 0, 0).to_result_unit()
    }

    /// Sets the bit rate of the bus.
    pub fn set_baudrate(k: &mut Kernel<S>, baudrate: u32) -> (r: Result<(), ErrorCode>)
        ensures
            commanded(old(k).calls(), final(k).calls(), SET_BIT_RATE, baudrate, 0, r),
    {
        k.command(DRIVER_NUM, SET_BIT_RATE, baudrate, 0).to_result_unit()
    }

    /// Enables the peripheral.
    pub fn enable(k: &mut Kernel<S>) -> (r: Result<(), ErrorCode>)
        ensures
            commanded(old(k).calls(), final(k).calls(), ENABLE, 0, 0, r),
    {
        k.command(DRIVER_NUM, ENABLE, 0, 0).to_result_unit()
    }

    /// Disables the peripheral.
    pub fn disable(k: &mut Kernel<S>) -> (r: Result<(), ErrorCode>)
        ensures
            commanded(old(k).calls(), final(k).calls(), DISABLE, 0, 0, r),
    {
        k.command(DRIVER_NUM, DISABLE, 0, 0).to_result_unit()
    }

    /// Sets how the peripheral takes part in the bus.
    pub fn set_operation_mode(k: &mut Kernel<S>, mode: OperationMode) -> (r: Result<(), ErrorCode>)
        ensures
            commanded(old(k).calls(), final(k).calls(), SET_MODE, mode.code(), 0, r),
    {
        k.command(DRIVER_NUM, SET_MODE, mode.to_u32(), 0).to_result_unit()
    }

    /// Shares the frame's payload in an open scope and, where that
    /// succeeded, issues the send command. The scope is left for the
    /// caller to close.
    fn send_message_async(
        k: &mut Kernel<S>,
        allow_handle: &mut AllowRo<S, DRIVER_NUM, ALLOW_RO_MESSAGE>,
        frame: &Frame,
    ) -> (r: Result<(), ErrorCode>)
        ensures
            exists|replaced: Result<bool, ErrorCode>|
                {
                    let shared = old(k).calls().push(
                        #[trigger] allow_ro_call(
                            DRIVER_NUM,
                            ALLOW_RO_MESSAGE,
                            frame@.message,
                            replaced,
                        ),
                    );
                    match replaced {
                        Err(e) => final(k).calls() == shared && r == Err::<(), ErrorCode>(e),
                        Ok(_) => exists|ret: CommandReturn|
                            final(k).calls() == shared.push(
                                #[trigger] command_call(
                                    DRIVER_NUM,
                                    SEND_MESSAGE,
                                    frame@.id.encode(),
                                    frame@.len as u32,
                                    ret,
                                ),
                            ) && r == ret.unit_result(),
                    }
                },
    {
        assert(frame@.message == frame.message@ && frame@.id == frame.id && frame@.len == frame.len);
        match allow_handle.share::<DefaultConfig, STANDARD_CAN_PACKET_SIZE>(k, &frame.message) {
            Ok(()) => {},
            Err(e) => { return Err(e); },
        }
        let id: u32 = frame.id.to_u32();
        k.command(DRIVER_NUM, SEND_MESSAGE, id, frame.len as u32).to_result_unit()
    }

    /// Sends one frame: subscribes to the completion, shares the payload,
    /// issues the command, and on every path out revokes the grant and the
    /// subscription. The first error is handed on. The kernel holds no
    /// grant on the payload when the call returns.
    pub fn send_message(k: &mut Kernel<S>, frame: &Frame) -> (r: Result<(), ErrorCode>)
        ensures
            send_outcome(old(k).calls(), final(k).calls(), frame@, r),
            !ro_granted(final(k).calls(), DRIVER_NUM, ALLOW_RO_MESSAGE),
    {
        let mut allow_ro: AllowRo<S, DRIVER_NUM, ALLOW_RO_MESSAGE> = AllowRo::default();
        let r = match k.subscribe(DRIVER_NUM, SUBSCRIBE_MESSAGE_SENT) {
            Ok(()) => Self::send_message_async(k, &mut allow_ro, frame),
            Err(e) => Err(e),
        };
        allow_ro.revoke(k);
        let ghost revoked = k.calls();
        k.unsubscribe(DRIVER_NUM, SUBSCRIBE_MESSAGE_SENT);
        proof {
            lemma_granted_push(
                revoked,
                Syscall::Unsubscribe {
                    driver_num: DRIVER_NUM,
                    subscribe_id: SUBSCRIBE_MESSAGE_SENT,
                },
                DRIVER_NUM,
                ALLOW_RO_MESSAGE,
            );
        }
        r
    }

    /// A receiver that was already started counts as started.
    pub fn accept_already(r: Result<(), ErrorCode>) -> (accepted: Result<(), ErrorCode>)
        ensures
            accepted == (if r == Err::<(), ErrorCode>(ErrorCode::Already) {
                Ok(())
            } else {
                r
            }),
    {
        match r {
            Err(ErrorCode::Already) => Ok(()),
            other => other,
        }
    }

    /// Starts the receiver into `buffer`: subscribes to received messages,
    /// shares the buffer and issues the command; a receiver already started
    /// is no error. After success the kernel holds the grant on the buffer
    /// until [`Can::receiver_stop`]. Where a step fails, grants and
    /// subscription are revoked before the error is handed on.
    pub fn receiver_start(k: &mut Kernel<S>, buffer: &mut [u8; RECEIVE_BUFFER_SIZE]) -> (r: Result<
        (),
        ErrorCode,
    >)
        ensures
            start_outcome(old(k).calls(), final(k).calls(), r),
            r.is_ok() ==> rw_granted(final(k).calls(), DRIVER_NUM, ALLOW_RW_MESSAGE),
            r.is_err() ==> !rw_granted(final(k).calls(), DRIVER_NUM, ALLOW_RW_MESSAGE)
                && !rw_granted(final(k).calls(), DRIVER_NUM, ALLOW_RW_MESSAGE_DST),
    {
        let accepted = k.subscribe(DRIVER_NUM, SUBSCRIBE_MESSAGE_RECEIVED);
        let r = match accepted {
            Ok(()) => {
                let ghost subscribed = k.calls();
                let replaced = k.allow_rw::<RECEIVE_BUFFER_SIZE>(
                    DRIVER_NUM,
                    ALLOW_RW_MESSAGE,
                    buffer,
                );
                match replaced {
                    Ok(_) => {
                        let ghost shared = k.calls();
                        let ret = k.command(DRIVER_NUM, START_RECEIVER, 0, 0);
                        proof {
                            lemma_granted_push(
                                subscribed,
                                allow_rw_call(DRIVER_NUM, ALLOW_RW_MESSAGE, replaced),
                                DRIVER_NUM,
                                ALLOW_RW_MESSAGE,
                            );
                            lemma_granted_push(
                                shared,
                                command_call(DRIVER_NUM, START_RECEIVER, 0, 0, ret),
                                DRIVER_NUM,
                                ALLOW_RW_MESSAGE,
                            );
                        }
                        Self::accept_already(ret.to_result_unit())
                    },
                    Err(e) => Err(e),
                }
            },
            Err(e) => Err(e),
        };
        if r.is_err() {
            proof {
                lemma_receive_closed(k.calls());
            }
            k.unallow_rw(DRIVER_NUM, ALLOW_RW_MESSAGE);
            k.unallow_rw(DRIVER_NUM, ALLOW_RW_MESSAGE_DST);
            k.unsubscribe(DRIVER_NUM, SUBSCRIBE_MESSAGE_RECEIVED);
        }
        r
    }

    /// Stops the receiver and revokes what [`Can::receiver_start`] and the
    /// reads in between granted. The stop command's answer is handed on.
    /// The kernel then holds a grant on neither buffer.
    pub fn receiver_stop(k: &mut Kernel<S>) -> (r: Result<(), ErrorCode>)
        ensures
            stop_outcome(old(k).calls(), final(k).calls(), r),
            !rw_granted(final(k).calls(), DRIVER_NUM, ALLOW_RW_MESSAGE),
            !rw_granted(final(k).calls(), DRIVER_NUM, ALLOW_RW_MESSAGE_DST),
    {
        let r = k.command(DRIVER_NUM, STOP_RECEIVER, 0, 0).to_result_unit();
        proof {
            lemma_receive_closed(k.calls());
        }
        k.unallow_rw(DRIVER_NUM, ALLOW_RW_MESSAGE);
        k.unallow_rw(DRIVER_NUM, ALLOW_RW_MESSAGE_DST);
        k.unsubscribe(DRIVER_NUM, SUBSCRIBE_MESSAGE_RECEIVED);
        r
    }

    /// Receives while `f` runs: starts the receiver into a fresh buffer,
    /// runs `f` once with the kernel, and stops the receiver. Where the
    /// start fails, `f` does not run and the error is handed on; else the
    /// result is the stop command's answer. On every path the subscription
    /// and both grants are revoked when the call returns.
    pub fn start_receive<F: FnOnce(&mut Kernel<S>)>(k: &mut Kernel<S>, f: F) -> (r: Result<
        (),
        ErrorCode,
    >)
        requires
            forall|kk: &mut Kernel<S>| f.requires((kk,)),
        ensures
            !rw_granted(final(k).calls(), DRIVER_NUM, ALLOW_RW_MESSAGE),
            !rw_granted(final(k).calls(), DRIVER_NUM, ALLOW_RW_MESSAGE_DST),
            exists|started: Seq<Syscall>, begun: Result<(), ErrorCode>| #[trigger]
                start_outcome(old(k).calls(), started, begun) && (match begun {
                    Err(e) => final(k).calls() == started && r == Err::<(), ErrorCode>(e),
                    Ok(()) => exists|kk: &mut Kernel<S>|
                        kk.calls() == started && #[trigger] f.ensures((kk,), ())
                            && stop_outcome(final(kk).calls(), final(k).calls(), r),
                }),
    {
        let mut buffer = [0u8;RECEIVE_BUFFER_SIZE];
        match Self::receiver_start(k, &mut buffer) {
            Ok(()) => {},
            Err(e) => { return Err(e); },
        }
        f(k);
        Self::receiver_stop(k)
    }

    /// Has the capsule copy the received messages into a fresh buffer and
    /// returns its frames, with the cursor on the first. The grant is
    /// revoked on every path out; the first error is handed on.
    pub fn read_messages(k: &mut Kernel<S>) -> (r: Result<Frames, ErrorCode>)
        ensures
            r matches Ok(frames) ==> frames.taken() == 0,
            !rw_granted(final(k).calls(), DRIVER_NUM, ALLOW_RW_MESSAGE_DST),
            read_outcome(
                old(k).calls(),
                final(k).calls(),
                match r {
                    Ok(_) => Ok::<(), ErrorCode>(()),
                    Err(e) => Err::<(), ErrorCode>(e),
                },
            ),
    {
        let mut buffer = [0u8;RECEIVE_BUFFER_SIZE];
        let r = match k.allow_rw::<RECEIVE_BUFFER_SIZE>(DRIVER_NUM, ALLOW_RW_MESSAGE_DST, &mut buffer) {
            Ok(_) => k.command(DRIVER_NUM, READ_MESSAGES, 0, 0).to_result_unit(),
            Err(e) => Err(e),
        };
        proof {
            lemma_granted_push(
                k.calls(),
                Syscall::UnallowRw { driver_num: DRIVER_NUM, buffer_num: ALLOW_RW_MESSAGE_DST },
                DRIVER_NUM,
                ALLOW_RW_MESSAGE_DST,
            );
        }
        k.unallow_rw(DRIVER_NUM, ALLOW_RW_MESSAGE_DST);
        match r {
            Ok(()) => Ok(Frames::from(buffer)),
            Err(e) => Err(e),
        }
    }

    /// Packs the word of the set-timing command.
    pub fn bit_timing_word(
        segment1: u8,
        segment2: u8,
        sync_jump_width: u8,
        baud_rate_prescaler: u8,
    ) -> (word: u32)
        ensures
            word == timing_word(segment1, segment2, sync_jump_width, baud_rate_prescaler),
    {
        (segment1 as u32) * 0x100_0000 + (segment2 as u32) * 0x1_0000 + (sync_jump_width as u32)
            * 0x100 + (baud_rate_prescaler as u32)
    }

    /// Sets the bit timing of the bus: one command with the timing word
    /// and the propagation segment.
    pub fn set_bit_timing(
        k: &mut Kernel<S>,
        segment1: u8,
        segment2: u8,
        propagation: u8,
        sync_jump_width: u8,
        baud_rate_prescaler: u8,
    ) -> (r: Result<(), ErrorCode>)
        ensures
            commanded(
                old(k).calls(),
                final(k).calls(),
                SET_TIMING,
                timing_word(segment1, segment2, sync_jump_width, baud_rate_prescaler),
                propagation as u32,
                r,
            ),
    {
        k.command(
            DRIVER_NUM,
            SET_TIMING,
            Self::bit_timing_word(segment1, segment2, sync_jump_width, baud_rate_prescaler),
            propagation as u32,
        ).to_result_unit()
    }

    /// Reads the state command's return.
    pub fn state_of(ret: CommandReturn) -> (r: Result<State, ErrorCode>)
        ensures
            r == state_result(ret),
    {
        match ret.get_failure() {
            Some(error) => Err(error),
            None => match ret.get_success_u32() {
                Some(state) => Ok(State::from(state)),
                None => Err(ErrorCode::BadRVal),
            },
        }
    }

    /// Asks the capsule for the state of the peripheral: one state command.
    pub fn state(k: &mut Kernel<S>) -> (r: Result<State, ErrorCode>)
        ensures
            exists|ret: CommandReturn|
                final(k).calls() == old(k).calls().push(
                    #[trigger] command_call(DRIVER_NUM, STATE, 0, 0, ret),
                ) && r == state_result(ret),
    {
        Self::state_of(k.command(DRIVER_NUM, STATE, 0, 0))
    }

    /// Reads the read-special-frame command's return for the identifier
    /// `id`: the frame, how often it was read, and its flags.
    pub fn special_frame_of(id: &Id, ret: CommandReturn) -> (r: Result<(Frame, u8, u8), ErrorCode>)
        ensures
            special_frame_result(*id, ret) == special_view(r),
    {
        match ret.get_success_u32_u64() {
            Some((status, data)) => {
                let message: [u8; STANDARD_CAN_PACKET_SIZE] = [
                    (data / 0x100_0000_0000_0000) as u8,
                    (data / 0x1_0000_0000_0000 % 0x100) as u8,
                    (data / 0x100_0000_0000 % 0x100) as u8,
                    (data / 0x1_0000_0000 % 0x100) as u8,
                    (data / 0x100_0000 % 0x100) as u8,
                    (data / 0x1_0000 % 0x100) as u8,
                    (data / 0x100 % 0x100) as u8,
                    (data % 0x100) as u8,
                ];
                let frame = Frame { id: *id, len: (status / 0x1_0000 % 0x100) as u8, message };
                assert(frame@.message =~= Seq::new(8, |i: int| be_byte(data, i)));
                Ok((frame, (status / 0x100_0000) as u8, (status / 0x100 % 0x100) as u8))
            },
            None => match ret.get_failure() {
                Some(e) => Err(e),
                None => Err(ErrorCode::BadRVal),
            },
        }
    }

    /// The last frame received with the identifier `id`, how often it was
    /// read, and its flags: one read-special-frame command with the
    /// identifier field.
    pub fn read_special_frame(k: &mut Kernel<S>, id: &Id) -> (r: Result<(Frame, u8, u8), ErrorCode>)
        ensures
            exists|ret: CommandReturn|
                final(k).calls() == old(k).calls().push(
                    #[trigger] command_call(DRIVER_NUM, READ_SPECIAL_FRAME, id.encode(), 0, ret),
                ) && special_frame_result(*id, ret) == special_view(r),
    {
        let ret = k.command(DRIVER_NUM, READ_SPECIAL_FRAME, id.to_u32(), 0);
        Self::special_frame_of(id, ret)
    }

    /// A frame counts as new where it was not read before; one read
    /// before is `Already`.
    pub fn new_frame_of(frame: Frame, read_counter: u8) -> (r: Result<Frame, ErrorCode>)
        ensures
            read_counter == 0 ==> r == Ok::<Frame, ErrorCode>(frame),
            read_counter != 0 ==> r == Err::<Frame, ErrorCode>(ErrorCode::Already),
    {
        if read_counter == 0 {
            Ok(frame)
        } else {
            Err(ErrorCode::Already)
        }
    }

    /// The last frame received with the identifier `id`, the first time
    /// that it is read: one read-special-frame command.
    pub fn read_new_special_frame(k: &mut Kernel<S>, id: &Id) -> (r: Result<Frame, ErrorCode>)
        ensures
            exists|ret: CommandReturn|
                final(k).calls() == old(k).calls().push(
                    #[trigger] command_call(DRIVER_NUM, READ_SPECIAL_FRAME, id.encode(), 0, ret),
                ) && new_frame_result(special_frame_result(*id, ret)) == frame_view(r),
    {
        match Self::read_special_frame(k, id) {
            Ok((frame, read_counter, _)) => Self::new_frame_of(frame, read_counter),
            Err(e) => Err(e),
        }
    }
}

/// A read of a special frame with the frame taken by its view.
pub open spec fn special_view(r: Result<(Frame, u8, u8), ErrorCode>) -> Result<
    (FrameData, u8, u8),
    ErrorCode,
> {
    match r {
        Ok((frame, counter, flags)) => Ok((frame@, counter, flags)),
        Err(e) => Err(e),
    }
}

/// A frame read with the frame taken by its view.
pub open spec fn frame_view(r: Result<Frame, ErrorCode>) -> Result<FrameData, ErrorCode> {
    match r {
        Ok(frame) => Ok(frame@),
        Err(e) => Err(e),
    }
}

} // verus!
