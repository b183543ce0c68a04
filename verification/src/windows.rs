//! The tick-count arithmetic of the Windows backend.
//!
//! On Windows the kernel reports CPU time as pairs of 64-bit counts of
//! 100-nanosecond ticks, each count split into two 32-bit words, one pair
//! for kernel-mode and one for user-mode time. This module holds that
//! backend's verified arithmetic: reassembling the words, summing kernel
//! and user ticks, and converting the total to a [`Duration`]. The system
//! services that produce the raw pairs exist only on Windows targets; a
//! sampling layer there feeds their output to [`ProcessTime::from_times`]
//! and [`ThreadTime::from_times`].

use vstd::prelude::*;
use vstd::arithmetic::div_mod::{lemma_fundamental_div_mod, lemma_fundamental_div_mod_converse};
use crate::duration::Duration;
use crate::clock_gettime::{spec_duration_since, timespec_nanos};
use std::marker::PhantomData;
use std::rc::Rc;

verus! {

/// A 64-bit count of 100-nanosecond ticks, split into two 32-bit words as
/// the platform reports it.
#[derive(Clone, Copy, PartialEq, Eq, Hash, Debug)]
pub struct FileTime {
    pub low: u32,
    pub high: u32,
}

/// The tick count a split file-time value denotes.
pub open spec fn file_time_ticks(ft: FileTime) -> int {
    ft.high * 0x1_0000_0000 + ft.low
}

/// The nanosecond total of a kernel-mode and user-mode tick pair: the two
/// counts summed, at 100 nanoseconds per tick.
pub open spec fn ticks_nanos(kernel_time: FileTime, user_time: FileTime) -> int {
    100 * (file_time_ticks(kernel_time) + file_time_ticks(user_time))
}

/// An all-zero file-time value.
pub fn zero() -> (r: FileTime)
    ensures
        file_time_ticks(r) == 0,
{
    FileTime { low: 0, high: 0 }
}

/// Combine a kernel-mode and a user-mode tick count into the duration they
/// span together: whole seconds by dividing the summed ticks at ten million
/// per second, and the remainder scaled to nanoseconds.
pub fn to_duration(kernel_time: FileTime, user_time: FileTime) -> (r: Duration)
    requires
        ticks_nanos(kernel_time, user_time) <= u64::MAX,
    ensures
        r@ == ticks_nanos(kernel_time, user_time),
{
    let kns100: u64 = (kernel_time.high as u64) * 0x1_0000_0000 + (kernel_time.low as u64);
    let uns100: u64 = (user_time.high as u64) * 0x1_0000_0000 + (user_time.low as u64);
    let total: u64 = kns100 + uns100;
    let secs: u64 = total / 10_000_000;
    let nanos: u64 = (total * 100) % 1_000_000_000;
    proof {
        lemma_fundamental_div_mod(total as int, 10_000_000);
        lemma_fundamental_div_mod_converse(
            total * 100,
            1_000_000_000,
            secs as int,
            (total as int % 10_000_000) * 100,
        );
    }
    Duration::new(secs, nanos as u32)
}

/// CPU time used by the whole process, as the Windows backend represents
/// it.
///
/// An opaque timestamp: only the difference between two `ProcessTime`
/// values built from samples of the same process is meaningful.
#[derive(Clone, Copy, PartialEq, Eq, Hash, Debug)]
pub struct ProcessTime {
    dur: Duration,
}

/// CPU time used by a single thread, as the Windows backend represents it.
///
/// An opaque timestamp, confined to the thread whose time it measures: the
/// type is neither `Send` nor `Sync`, while the plain durations it yields
/// can travel freely.
#[derive(Clone, Copy, PartialEq, Eq, Hash, Debug)]
pub struct ThreadTime {
    dur: Duration,
    // makes the type non-Send and non-Sync
    confined: PhantomData<Rc<()>>,
}

impl View for ProcessTime {
    type V = int;

    closed spec fn view(&self) -> int {
        self.dur@
    }
}

impl View for ThreadTime {
    type V = int;

    closed spec fn view(&self) -> int {
        self.dur@
    }
}

impl ProcessTime {
    /// A timestamp from the kernel-mode and user-mode times a process-time
    /// query reports.
    pub fn from_times(kernel_time: FileTime, user_time: FileTime) -> (r: Self)
        requires
            ticks_nanos(kernel_time, user_time) <= u64::MAX,
        ensures
            r@ == ticks_nanos(kernel_time, user_time),
    {
        ProcessTime { dur: to_duration(kernel_time, user_time) }
    }

    /// The CPU time used by the process from the earlier `timestamp` to
    /// this one: exactly the difference of the two absolute views.
    pub fn duration_since(&self, timestamp: Self) -> (r: Duration)
        requires
            timestamp@ <= self@,
        ensures
            r@ == spec_duration_since(self@, timestamp@),
    {
        self.dur.checked_sub(&timestamp.dur).unwrap()
    }

    /// The total CPU time used by the process from its start to this
    /// timestamp.
    pub fn as_duration(&self) -> (r: Duration)
        ensures
            r@ == self@,
    {
        self.dur
    }
}

impl ThreadTime {
    /// A timestamp from the kernel-mode and user-mode times a thread-time
    /// query reports.
    pub fn from_times(kernel_time: FileTime, user_time: FileTime) -> (r: Self)
        requires
            ticks_nanos(kernel_time, user_time) <= u64::MAX,
        ensures
            r@ == ticks_nanos(kernel_time, user_time),
    {
        ThreadTime { dur: to_duration(kernel_time, user_time), confined: PhantomData }
    }

    /// The CPU time used by the thread from the earlier `timestamp` to this
    /// one: exactly the difference of the two absolute views.
    pub fn duration_since(&self, timestamp: ThreadTime) -> (r: Duration)
        requires
            timestamp@ <= self@,
        ensures
            r@ == spec_duration_since(self@, timestamp@),
    {
        self.dur.checked_sub(&timestamp.dur).unwrap()
    }

    /// The total CPU time used by the thread from its start to this
    /// timestamp.
    pub fn as_duration(&self) -> (r: Duration)
        ensures
            r@ == self@,
    {
        self.dur
    }
}

/// Law: the two backends denote one and the same interval. A kernel/user
/// tick pair spans the same nanosecond total through this backend's tick
/// arithmetic as through the POSIX seconds/nanoseconds arithmetic applied
/// to that interval split into whole seconds and a remainder.
pub proof fn lemma_backends_agree(kernel_time: FileTime, user_time: FileTime)
    ensures
        ticks_nanos(kernel_time, user_time) == timespec_nanos(
            ticks_nanos(kernel_time, user_time) / 1_000_000_000,
            ticks_nanos(kernel_time, user_time) % 1_000_000_000,
        ),
{
    lemma_fundamental_div_mod(ticks_nanos(kernel_time, user_time), 1_000_000_000);
}

/// Law: the resolutions differ, but by less than one tick. Truncating an
/// interval of `nanos` nanoseconds to whole 100-nanosecond ticks, as this
/// backend's representation must, loses less than 100 nanoseconds against
/// the exact nanosecond representation of the POSIX backend.
pub proof fn lemma_resolution_gap(nanos: int)
    requires
        0 <= nanos,
    ensures
        0 <= nanos - 100 * (nanos / 100) < 100,
{
    lemma_fundamental_div_mod(nanos, 100);
}

} // verus!
