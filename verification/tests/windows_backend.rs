use cpu_time::clock_gettime::cvt;
use cpu_time::windows::{zero, to_duration, FileTime, ProcessTime, ThreadTime};
use cpu_time::Duration;

#[test]
fn zero_has_no_ticks() {
    assert_eq!(zero(), FileTime { low: 0, high: 0 });
}

#[test]
fn conversion_exact() {
    let d = to_duration(FileTime { low: 15_000_000, high: 0 }, zero());
    assert_eq!(d, Duration::new(1, 500_000_000));
}

#[test]
fn conversion_uses_high_word() {
    let d = to_duration(FileTime { low: 0, high: 1 }, zero());
    assert_eq!(d.as_secs(), 429);
    assert_eq!(d.subsec_nanos(), 496_729_600);
    assert_eq!(d.as_nanos(), 429_496_729_600);
}

#[test]
fn kernel_and_user_ticks_are_summed() {
    let kernel = FileTime { low: 7_000_000, high: 0 };
    let user = FileTime { low: 8_000_000, high: 0 };
    assert_eq!(to_duration(kernel, user), Duration::new(1, 500_000_000));
}

#[test]
fn process_duration_since_exact() {
    let a = ProcessTime::from_times(FileTime { low: 20_000_000, high: 0 }, zero());
    let b = ProcessTime::from_times(FileTime { low: 5_000_000, high: 0 }, zero());
    assert_eq!(a.duration_since(b), Duration::new(1, 500_000_000));
    assert_eq!(a.as_duration(), Duration::new(2, 0));
}

#[test]
fn thread_duration_since_exact() {
    let a = ThreadTime::from_times(FileTime { low: 10_000_000, high: 0 }, zero());
    let b = ThreadTime::from_times(zero(), FileTime { low: 4_000_000, high: 0 });
    assert_eq!(a.duration_since(b), Duration::new(0, 600_000_000));
    assert_eq!(a.duration_since(a), Duration::new(0, 0));
}

#[test]
fn backends_agree_on_a_whole_tick_interval() {
    // 12_345_678 ticks of 100 ns are exactly 1.234_567_8 seconds: both
    // backends must represent that interval identically.
    let windows_side = to_duration(FileTime { low: 12_345_678, high: 0 }, zero());
    let posix_side = cvt(Ok((1, 234_567_800))).unwrap();
    assert_eq!(windows_side, posix_side);
}

#[test]
fn backend_resolution_gap_is_under_one_tick() {
    // An interval of 1_234_567_891 ns is exact for the POSIX backend; the
    // tick representation truncates it to 12_345_678 ticks. The loss stays
    // below 100 ns.
    let posix_side = cvt(Ok((1, 234_567_891))).unwrap();
    let windows_side = to_duration(FileTime { low: 12_345_678, high: 0 }, zero());
    let gap = posix_side.checked_sub(&windows_side).unwrap();
    assert!(gap.as_nanos() < 100);
}
