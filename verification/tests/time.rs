use cpu_time::clock_gettime::cvt;
use cpu_time::{Duration, ProcessTime, ThreadTime, TimeError};

#[test]
fn process_monotonic() {
    let t1 = ProcessTime::now();
    let t2 = ProcessTime::now();
    assert!(t1.as_duration().le(&t2.as_duration()));
}

#[test]
fn thread_monotonic() {
    let t1 = ThreadTime::now();
    let t2 = ThreadTime::now();
    assert!(t1.as_duration().le(&t2.as_duration()));
}

#[test]
fn process_try_now_succeeds() {
    assert!(ProcessTime::try_now().is_ok());
}

#[test]
fn thread_try_now_succeeds() {
    assert!(ThreadTime::try_now().is_ok());
}

#[test]
fn process_try_elapsed_succeeds() {
    let t = ProcessTime::now();
    assert!(t.try_elapsed().is_ok());
}

#[test]
fn thread_elapsed_runs() {
    let t = ThreadTime::now();
    let e = t.elapsed();
    assert!(Duration::new(0, 0).le(&e));
}

#[test]
fn process_self_consistency() {
    let t = ProcessTime::now();
    assert_eq!(t.duration_since(t).as_nanos(), 0);
}

#[test]
fn thread_self_consistency() {
    let t = ThreadTime::now();
    assert_eq!(t.duration_since(t).as_nanos(), 0);
}

#[test]
fn process_additivity() {
    let t1 = ProcessTime::now();
    let mut x: u64 = 1;
    for i in 0..200_000u64 {
        x = x.wrapping_mul(6_364_136_223_846_793_005).wrapping_add(i);
    }
    assert!(x != 0);
    let t2 = ProcessTime::now();
    let d = t2.duration_since(t1);
    assert_eq!(Some(d), t2.as_duration().checked_sub(&t1.as_duration()));
}

#[test]
fn thread_additivity() {
    let t1 = ThreadTime::now();
    let t2 = ThreadTime::now();
    let d = t2.duration_since(t1);
    assert_eq!(Some(d), t2.as_duration().checked_sub(&t1.as_duration()));
}

#[test]
fn error_value_carries_diagnostic() {
    match cvt(Err((95, "Operation not supported"))) {
        Err(e) => {
            assert_eq!(e.raw_os_error(), 95);
            assert_eq!(e.message(), "Operation not supported");
            assert!(!e.message().is_empty());
        }
        Ok(_) => panic!("a failed sample must convert to an error"),
    }
}

#[test]
fn error_construction() {
    let e = TimeError::new(22, "Invalid argument");
    assert_eq!(e.raw_os_error(), 22);
    assert_eq!(e.message(), "Invalid argument");
}

#[test]
fn cvt_converts_timespec_directly() {
    match cvt(Ok((1, 500))) {
        Ok(d) => {
            assert_eq!(d.as_secs(), 1);
            assert_eq!(d.subsec_nanos(), 500);
            assert_eq!(d.as_nanos(), 1_000_000_500);
        }
        Err(_) => panic!("a successful sample must convert to a duration"),
    }
}

#[test]
fn duration_parts() {
    let d = Duration::new(3, 999_999_999);
    assert_eq!(d.as_secs(), 3);
    assert_eq!(d.subsec_nanos(), 999_999_999);
    assert_eq!(d.as_nanos(), 3_999_999_999);
}

#[test]
fn duration_ordering() {
    let a = Duration::new(1, 2);
    let b = Duration::new(1, 3);
    let c = Duration::new(2, 0);
    assert!(a.le(&a));
    assert!(a.le(&b));
    assert!(b.le(&c));
    assert!(!c.le(&b));
}

#[test]
fn duration_checked_sub_borrows() {
    let a = Duration::new(2, 100);
    let b = Duration::new(1, 200);
    let d = a.checked_sub(&b).unwrap();
    assert_eq!(d.as_secs(), 0);
    assert_eq!(d.subsec_nanos(), 999_999_900);
    assert!(b.checked_sub(&a).is_none());
}

#[test]
fn duration_checked_sub_exact() {
    let a = Duration::new(5, 700);
    let b = Duration::new(2, 200);
    assert_eq!(a.checked_sub(&b).unwrap(), Duration::new(3, 500));
    assert_eq!(a.checked_sub(&a).unwrap(), Duration::new(0, 0));
}

