//! Atomic cells held under exclusive access. With `&mut` on the cell no other
//! party can interleave, so each operation is a plain function of the value
//! that the cell held before it.

use core::sync::atomic::Ordering;
use portable_atomic::{AtomicBool, AtomicU32};
use vstd::prelude::*;

verus! {

/// `portable_atomic::AtomicBool`, carried as an opaque value.
#[verifier::external_type_specification]
#[verifier::external_body]
pub struct ExAtomicBool(AtomicBool);

/// `portable_atomic::AtomicU32`, carried as an opaque value.
#[verifier::external_type_specification]
#[verifier::external_body]
pub struct ExAtomicU32(AtomicU32);

/// The value that a boolean cell holds.
pub uninterp spec fn flag_value(flag: AtomicBool) -> bool;

/// The value that a counter cell holds.
pub uninterp spec fn counter_value(counter: AtomicU32) -> u32;

/// `portable_atomic::AtomicBool::new`: a cell that holds `value`.
#[verifier::external_body]
pub(crate) fn flag_new(value: bool) -> (flag: AtomicBool)
    ensures
        flag_value(flag) == value,
{
    AtomicBool::new(value)
}

/// `portable_atomic::AtomicBool::load`: the value held; the cell is only
/// read.
#[verifier::external_body]
pub(crate) fn flag_load(flag: &AtomicBool) -> (value: bool)
    ensures
        value == flag_value(*flag),
{
    flag.load(Ordering::Relaxed)
}

/// `portable_atomic::AtomicBool::store`: afterwards the cell holds `value`.
#[verifier::external_body]
pub(crate) fn flag_store(flag: &mut AtomicBool, value: bool)
    ensures
        flag_value(*final(flag)) == value,
{
    flag.store(value, Ordering::SeqCst)
}

/// `portable_atomic::AtomicBool::fetch_or`: returns the value held before
/// and leaves the cell holding that value or-ed with `value`.
#[verifier::external_body]
pub(crate) fn flag_fetch_or(flag: &mut AtomicBool, value: bool) -> (previous: bool)
    ensures
        previous == flag_value(*old(flag)),
        flag_value(*final(flag)) == (flag_value(*old(flag)) || value),
{
    flag.fetch_or(value, Ordering::SeqCst)
}

/// `portable_atomic::AtomicBool::fetch_and`: returns the value held before
/// and leaves the cell holding that value and-ed with `value`.
#[verifier::external_body]
pub(crate) fn flag_fetch_and(flag: &mut AtomicBool, value: bool) -> (previous: bool)
    ensures
        previous == flag_value(*old(flag)),
        flag_value(*final(flag)) == (flag_value(*old(flag)) && value),
{
    flag.fetch_and(value, Ordering::SeqCst)
}

/// `portable_atomic::AtomicU32::new`: a cell that holds `value`.
#[verifier::external_body]
pub(crate) fn counter_new(value: u32) -> (counter: AtomicU32)
    ensures
        counter_value(counter) == value,
{
    AtomicU32::new(value)
}

/// `portable_atomic::AtomicU32::load`: the value held; the cell is only
/// read.
#[verifier::external_body]
pub(crate) fn counter_load(counter: &AtomicU32) -> (value: u32)
    ensures
        value == counter_value(*counter),
{
    counter.load(Ordering::Relaxed)
}

/// `portable_atomic::AtomicU32::fetch_add`: returns the value held before
/// and leaves the cell holding the sum, which wraps around at `u32::MAX`.
#[verifier::external_body]
pub(crate) fn counter_fetch_add(counter: &mut AtomicU32, value: u32) -> (previous: u32)
    ensures
        previous == counter_value(*old(counter)),
        counter_value(*final(counter)) == (counter_value(*old(counter)) + value) % 0x1_0000_0000,
{
    counter.fetch_add(value, Ordering::SeqCst)
}

} // verus!
