//! The routing of completions: each pair of driver and subscribe id has one
//! listener, fixed once and for all.

use crate::alarm;
use crate::can;
use crate::console;
use crate::i2c_master;
use crate::syscalls::Upcall;
use vstd::prelude::*;

verus! {

/// The listeners that completions are routed to.
#[derive(Clone, Copy, Debug, PartialEq, Eq, Structural)]
pub enum Listener {
    /// The time driver's handler of alarm firings.
    Alarm,
    /// The console's handler of completed writes.
    ConsoleWrite,
    /// The console's handler of completed reads.
    ConsoleRead,
    /// The I2C controller's handler of completed transfers.
    I2cTransfer,
    /// The CAN driver's notice that a message was sent.
    CanSent,
    /// The CAN driver's notice that a message was received.
    CanReceived,
}

/// The listener of a driver and subscribe id, if the pair has one.
pub open spec fn listener_of(driver_num: u32, subscribe_id: u32) -> Option<Listener> {
    if driver_num == alarm::DRIVER_NUM && subscribe_id == alarm::CALLBACK {
        Some(Listener::Alarm)
    } else if driver_num == console::DRIVER_NUM && subscribe_id == console::SUBSCRIBE_WRITE {
        Some(Listener::ConsoleWrite)
    } else if driver_num == console::DRIVER_NUM && subscribe_id == console::SUBSCRIBE_READ {
        Some(Listener::ConsoleRead)
    } else if driver_num == i2c_master::DRIVER_NUM && subscribe_id
        == i2c_master::SUBSCRIBE_MASTER_READ_WRITE {
        Some(Listener::I2cTransfer)
    } else if driver_num == can::DRIVER_NUM && subscribe_id == can::SUBSCRIBE_MESSAGE_SENT {
        Some(Listener::CanSent)
    } else if driver_num == can::DRIVER_NUM && subscribe_id == can::SUBSCRIBE_MESSAGE_RECEIVED {
        Some(Listener::CanReceived)
    } else {
        None
    }
}

/// Routes a completion to its listener; one of a pair without listener is
/// dropped.
pub fn route(upcall: &Upcall) -> (listener: Option<Listener>)
    ensures
        listener == listener_of(upcall.driver_num, upcall.subscribe_id),
{
    if upcall.driver_num == alarm::DRIVER_NUM && upcall.subscribe_id == alarm::CALLBACK {
        Some(Listener::Alarm)
    } else if upcall.driver_num == console::DRIVER_NUM {
        if upcall.subscribe_id == console::SUBSCRIBE_WRITE {
            Some(Listener::ConsoleWrite)
        } else if upcall.subscribe_id == console::SUBSCRIBE_READ {
            Some(Listener::ConsoleRead)
        } else {
            None
        }
    } else if upcall.driver_num == i2c_master::DRIVER_NUM && upcall.subscribe_id
        == i2c_master::SUBSCRIBE_MASTER_READ_WRITE {
        Some(Listener::I2cTransfer)
    } else if upcall.driver_num == can::DRIVER_NUM {
        if upcall.subscribe_id == can::SUBSCRIBE_MESSAGE_SENT {
            Some(Listener::CanSent)
        } else if upcall.subscribe_id == can::SUBSCRIBE_MESSAGE_RECEIVED {
            Some(Listener::CanReceived)
        } else {
            None
        }
    } else {
        None
    }
}

} // verus!
