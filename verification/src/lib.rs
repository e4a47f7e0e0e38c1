//! Userspace runtime core for processes running under a capability-based
//! microkernel: scoped buffer sharing, single-transaction guards with
//! one-shot completion slots, and a monotonic time driver that multiplexes
//! software deadlines onto one hardware alarm.
//!
//! Every driver reaches the kernel through [`syscalls::Kernel`], which keeps
//! a proof-only record of the calls made; the contracts of the drivers say
//! by that record which calls they make, in which order and with which
//! arguments, and how their results follow from the kernel's answers.
//! Operations that suspend the calling task are cut at the suspension: the
//! library holds the start, the handling of the completion and the end, and
//! the caller waits in between.

pub mod error;
pub mod syscalls;
pub mod atomic;
pub mod transaction;
pub mod allow_ro;
pub mod allow_rw;
pub mod dispatch;
pub mod alarm;
pub mod deadline_queue;
pub mod time_driver;
pub mod console;
pub mod i2c_master;
pub mod can;
pub mod gpio;
