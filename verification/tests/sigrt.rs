//! Real-time window behaviour on the build target, checked against the C
//! library's own answers.

use sigid::signal_ext::{Sig, SignalExt};

#[test]
fn test_sigrt() {
    assert_eq!(libc::SIGRTMIN(), Sig::rt_min().as_raw());
    assert_eq!(libc::SIGRTMAX(), Sig::rt_max().as_raw());
    assert_eq!(Sig::rt(0).unwrap(), Sig::rt_min());
    // POSIX guarantees at least 8 values.
    assert_ne!(Sig::rt(7).unwrap(), Sig::rt_min());
    assert_ne!(Sig::rt(7).unwrap(), Sig::rt_max());
    assert_eq!(Sig::rt(7).unwrap().as_raw(), libc::SIGRTMIN() + 7);
    assert!(Sig::from_raw(0).is_none());
    for raw in libc::SIGRTMIN()..=libc::SIGRTMAX() {
        assert!(Sig::from_raw(raw).is_some());
    }
    assert!(Sig::from_raw(libc::SIGRTMIN() - 1).is_none());
    assert!(Sig::from_raw(libc::SIGRTMAX() + 1).is_none());
}

#[test]
fn rt_zero_is_rt_min() {
    assert_eq!(Sig::rt_min().as_raw(), Sig::rt(0).unwrap().as_raw());
}

#[test]
fn rt_offsets_add_exactly() {
    let span = libc::SIGRTMAX() - libc::SIGRTMIN();
    for k in 0..=span {
        assert_eq!(Sig::rt(k).unwrap().as_raw(), libc::SIGRTMIN() + k);
    }
}

#[test]
fn rt_outside_window_is_nothing() {
    let span = libc::SIGRTMAX() - libc::SIGRTMIN();
    assert!(Sig::rt(-1).is_none());
    assert!(Sig::rt(span + 1).is_none());
    assert!(Sig::rt(i32::MIN).is_none());
    assert!(Sig::rt(i32::MAX).is_none());
}

#[test]
fn window_round_trip() {
    for raw in libc::SIGRTMIN()..=libc::SIGRTMAX() {
        assert_eq!(Sig::from_raw(raw).unwrap().as_raw(), raw);
    }
}

#[test]
fn conversions_are_idempotent() {
    for raw in [0, 1, 15, libc::SIGRTMIN(), libc::SIGRTMAX() + 1, -3] {
        let first = Sig::from_raw(raw);
        let second = Sig::from_raw(raw);
        assert_eq!(first, second);
    }
    for n in [-1, 0, 7, 99] {
        assert_eq!(Sig::rt(n), Sig::rt(n));
    }
    assert_eq!(Sig::rt_min(), Sig::rt_min());
    assert_eq!(Sig::rt_max(), Sig::rt_max());
}

#[test]
fn negative_raw_values_never_convert() {
    assert!(Sig::from_raw(-1).is_none());
    assert!(Sig::from_raw(i32::MIN).is_none());
}
