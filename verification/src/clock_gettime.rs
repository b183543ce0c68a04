use vstd::prelude::*;
use crate::duration::Duration;
use crate::error::TimeError;
use std::marker::PhantomData;
use std::rc::Rc;

verus! {

/// The nanosecond total denoted by a kernel `timespec`: whole seconds plus
/// a nanosecond remainder.
pub open spec fn timespec_nanos(secs: int, nanos: int) -> int {
    secs * 1_000_000_000 + nanos
}

/// The CPU time spanned between two absolute timestamp views.
pub open spec fn spec_duration_since(later: int, earlier: int) -> int {
    later - earlier
}

/// Relies on `nix::time::clock_gettime` with `ClockId::CLOCK_PROCESS_CPUTIME_ID`.
/// On success the kernel fills a `timespec` whose `tv_nsec` lies in
/// `[0, 999_999_999]` and whose `tv_sec` is non-negative, the clock measuring
/// CPU time consumed since process start. On failure `nix` hands back the
/// `errno` value; `Errno::desc` maps every value to a fixed non-empty
/// description.
#[verifier::external_body]
fn sample_process_cpu() -> (r: Result<(i64, i64), (i32, &'static str)>)
    ensures
        r matches Ok(t) ==> 0 <= t.0 && 0 <= t.1 < 1_000_000_000,
        r matches Err(e) ==> e.1@.len() > 0,
{
    match nix::time::clock_gettime(nix::time::ClockId::CLOCK_PROCESS_CPUTIME_ID) {
        Ok(ts) => Ok((ts.tv_sec() as i64, ts.tv_nsec() as i64)),
        Err(e) => Err((e as i32, e.desc())),
    }
}

/// Relies on `nix::time::clock_gettime` with `ClockId::CLOCK_THREAD_CPUTIME_ID`;
/// the same contract as [`sample_process_cpu`], for the clock that measures
/// CPU time consumed by the calling thread alone.
#[verifier::external_body]
fn sample_thread_cpu() -> (r: Result<(i64, i64), (i32, &'static str)>)
    ensures
        r matches Ok(t) ==> 0 <= t.0 && 0 <= t.1 < 1_000_000_000,
        r matches Err(e) ==> e.1@.len() > 0,
{
    match nix::time::clock_gettime(nix::time::ClockId::CLOCK_THREAD_CPUTIME_ID) {
        Ok(ts) => Ok((ts.tv_sec() as i64, ts.tv_nsec() as i64)),
        Err(e) => Err((e as i32, e.desc())),
    }
}

/// Relies on `nix::time::clock_gettime` with `ClockId::CLOCK_PROCESS_CPUTIME_ID`,
/// as [`sample_process_cpu`], but panics with a fixed diagnostic when the
/// kernel does not support the clock; when it returns, the query succeeded
/// and the `timespec` ranges above hold.
#[verifier::external_body]
fn sample_process_cpu_required() -> (r: (i64, i64))
    ensures
        0 <= r.0,
        0 <= r.1 < 1_000_000_000,
{
    let ts = nix::time::clock_gettime(nix::time::ClockId::CLOCK_PROCESS_CPUTIME_ID)
        .expect("CLOCK_PROCESS_CPUTIME_ID unsupported");
    (ts.tv_sec() as i64, ts.tv_nsec() as i64)
}

/// Relies on `nix::time::clock_gettime` with `ClockId::CLOCK_THREAD_CPUTIME_ID`,
/// as [`sample_thread_cpu`], but panics with a fixed diagnostic when the
/// kernel does not support the clock.
#[verifier::external_body]
fn sample_thread_cpu_required() -> (r: (i64, i64))
    ensures
        0 <= r.0,
        0 <= r.1 < 1_000_000_000,
{
    let ts = nix::time::clock_gettime(nix::time::ClockId::CLOCK_THREAD_CPUTIME_ID)
        .expect("CLOCK_THREAD_CPUTIME_ID unsupported");
    (ts.tv_sec() as i64, ts.tv_nsec() as i64)
}

/// Turn the raw outcome of a CPU-clock query into a duration or an error.
/// A successful `timespec` converts directly, with no scaling; a failure
/// carries the OS error code and its description over unchanged.
pub fn cvt(sample: Result<(i64, i64), (i32, &'static str)>) -> (r: Result<Duration, TimeError>)
    requires
        sample matches Ok(t) ==> 0 <= t.0 && 0 <= t.1 < 1_000_000_000,
        sample matches Err(e) ==> e.1@.len() > 0,
    ensures
        sample matches Ok(t) ==> (r matches Ok(d) && d@ == timespec_nanos(t.0 as int, t.1 as int)),
        sample matches Err(e) ==> (r matches Err(x) && x.spec_code() == e.0 && x.spec_message()
            == e.1@),
{
    match sample {
        Ok((secs, nanos)) => Ok(Duration::new(secs as u64, nanos as u32)),
        Err((code, msg)) => Err(TimeError::new(code, msg)),
    }
}

/// CPU time used by the whole process.
///
/// An opaque timestamp: only the difference between two `ProcessTime`
/// samples is meaningful. Use `elapsed()` or `duration_since()` to get
/// such a difference.
#[derive(Clone, Copy, PartialEq, Eq, Hash, Debug)]
pub struct ProcessTime {
    dur: Duration,
}

/// CPU time used by the calling thread alone.
///
/// An opaque timestamp: only the difference between two `ThreadTime`
/// samples taken on the same thread is meaningful. The type is neither
/// `Send` nor `Sync`, so a live timestamp cannot leave the thread whose
/// time it measures; the plain durations it yields can travel freely.
#[derive(Clone, Copy, PartialEq, Eq, Hash, Debug)]
pub struct ThreadTime {
    dur: Duration,
    // makes the type non-Send and non-Sync
    confined: PhantomData<Rc<()>>,
}

impl View for ProcessTime {
    type V = int;

    closed spec fn view(&self) -> int {
        self.dur@
    }
}

impl View for ThreadTime {
    type V = int;

    closed spec fn view(&self) -> int {
        self.dur@
    }
}

impl ProcessTime {
    /// Get the current CPU time used by the process, or the OS error the
    /// clock query failed with. Every error carries a non-empty diagnostic.
    pub fn try_now() -> (r: Result<Self, TimeError>)
        ensures
            r matches Ok(t) ==> t@ >= 0,
            r matches Err(e) ==> e.spec_message().len() > 0,
    {
        match cvt(sample_process_cpu()) {
            Ok(d) => Ok(ProcessTime { dur: d }),
            Err(e) => Err(e),
        }
    }

    /// Get the current CPU time used by the process.
    ///
    /// # Panics
    ///
    /// If the kernel does not support the process CPU-time clock.
    pub fn now() -> (r: Self)
        ensures
            r@ >= 0,
    {
        let (secs, nanos) = sample_process_cpu_required();
        ProcessTime { dur: Duration::new(secs as u64, nanos as u32) }
    }

    /// The CPU time used by the process from this timestamp to now, or the
    /// OS error a fresh clock query failed with.
    pub fn try_elapsed(&self) -> (r: Result<Duration, TimeError>)
        ensures
            r matches Ok(d) ==> d@ >= 0,
            r matches Err(e) ==> e.spec_message().len() > 0,
    {
        match Self::try_now() {
            Ok(fresh) => {
                // The kernel clock is non-decreasing, so a fresh sample is
                // never behind an honestly sampled timestamp; nothing in the
                // contracts ties two samples together, hence the guard.
                if self.dur.le(&fresh.dur) {
                    Ok(fresh.duration_since(*self))
                } else {
                    Ok(Duration::new(0, 0))
                }
            },
            Err(e) => Err(e),
        }
    }

    /// The CPU time used by the process from this timestamp to now.
    ///
    /// # Panics
    ///
    /// If `ProcessTime::now()` panics.
    pub fn elapsed(&self) -> (r: Duration)
        ensures
            r@ >= 0,
    {
        let fresh = Self::now();
        if self.dur.le(&fresh.dur) {
            fresh.duration_since(*self)
        } else {
            Duration::new(0, 0)
        }
    }

    /// The CPU time used by the process from the earlier `timestamp` to this
    /// one: exactly the difference of the two absolute views.
    pub fn duration_since(&self, timestamp: Self) -> (r: Duration)
        requires
            timestamp@ <= self@,
        ensures
            r@ == spec_duration_since(self@, timestamp@),
    {
        self.dur.checked_sub(&timestamp.dur).unwrap()
    }

    /// The total CPU time used by the process from its start to this
    /// timestamp.
    pub fn as_duration(&self) -> (r: Duration)
        ensures
            r@ == self@,
    {
        self.dur
    }
}

impl ThreadTime {
    /// Get the current CPU time used by the calling thread, or the OS error
    /// the clock query failed with. Every error carries a non-empty
    /// diagnostic.
    pub fn try_now() -> (r: Result<Self, TimeError>)
        ensures
            r matches Ok(t) ==> t@ >= 0,
            r matches Err(e) ==> e.spec_message().len() > 0,
    {
        match cvt(sample_thread_cpu()) {
            Ok(d) => Ok(ThreadTime { dur: d, confined: PhantomData }),
            Err(e) => Err(e),
        }
    }

    /// Get the current CPU time used by the calling thread.
    ///
    /// # Panics
    ///
    /// If the kernel does not support the thread CPU-time clock.
    pub fn now() -> (r: Self)
        ensures
            r@ >= 0,
    {
        let (secs, nanos) = sample_thread_cpu_required();
        ThreadTime { dur: Duration::new(secs as u64, nanos as u32), confined: PhantomData }
    }

    /// The CPU time used by the calling thread from this timestamp to now,
    /// or the OS error a fresh clock query failed with.
    pub fn try_elapsed(&self) -> (r: Result<Duration, TimeError>)
        ensures
            r matches Ok(d) ==> d@ >= 0,
            r matches Err(e) ==> e.spec_message().len() > 0,
    {
        match Self::try_now() {
            Ok(fresh) => {
                if self.dur.le(&fresh.dur) {
                    Ok(fresh.duration_since(*self))
                } else {
                    Ok(Duration::new(0, 0))
                }
            },
            Err(e) => Err(e),
        }
    }

    /// The CPU time used by the calling thread from this timestamp to now.
    ///
    /// # Panics
    ///
    /// If `ThreadTime::now()` panics.
    pub fn elapsed(&self) -> (r: Duration)
        ensures
            r@ >= 0,
    {
        let fresh = Self::now();
        if self.dur.le(&fresh.dur) {
            fresh.duration_since(*self)
        } else {
            Duration::new(0, 0)
        }
    }

    /// The CPU time used by the calling thread from the earlier `timestamp`
    /// to this one: exactly the difference of the two absolute views.
    pub fn duration_since(&self, timestamp: ThreadTime) -> (r: Duration)
        requires
            timestamp@ <= self@,
        ensures
            r@ == spec_duration_since(self@, timestamp@),
    {
        self.dur.checked_sub(&timestamp.dur).unwrap()
    }

    /// The total CPU time used by the calling thread from its start to this
    /// timestamp.
    pub fn as_duration(&self) -> (r: Duration)
        ensures
            r@ == self@,
    {
        self.dur
    }
}

/// Law: a process timestamp measured against itself spans no CPU time;
/// `duration_since` of a timestamp with itself yields the zero duration.
pub proof fn lemma_process_duration_since_self(t: ProcessTime)
    ensures
        spec_duration_since(t@, t@) == 0,
{
}

/// Law: a thread timestamp measured against itself spans no CPU time.
pub proof fn lemma_thread_duration_since_self(t: ThreadTime)
    ensures
        spec_duration_since(t@, t@) == 0,
{
}

/// Law: for well-ordered process timestamps, the duration between them is
/// the difference of their absolute durations, as `as_duration` exposes
/// them.
pub proof fn lemma_process_duration_since_additive(a: ProcessTime, b: ProcessTime)
    requires
        b@ <= a@,
    ensures
        spec_duration_since(a@, b@) == a@ - b@,
{
}

/// Law: for well-ordered thread timestamps, the duration between them is
/// the difference of their absolute durations.
pub proof fn lemma_thread_duration_since_additive(a: ThreadTime, b: ThreadTime)
    requires
        b@ <= a@,
    ensures
        spec_duration_since(a@, b@) == a@ - b@,
{
}

} // verus!
