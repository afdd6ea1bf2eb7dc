//! The named table against the C library's constants and against the
//! process-signal values of the outside crate, plus the platform-gated
//! absences.

use sigid::host::current_platform;
use sigid::mapper::{classify, Class};
use sigid::platform::{Arch, Os, Platform};
use sigid::signal_ext::{from_raw_in, Sig, SignalExt};
use sigid::table::{lookup_named, named_value, SigName};
use rustix::process::Signal;

#[test]
fn host_table_matches_libc() {
    let p = current_platform();
    let cases = [
        (libc::SIGHUP, SigName::Hup),
        (libc::SIGINT, SigName::Int),
        (libc::SIGQUIT, SigName::Quit),
        (libc::SIGILL, SigName::Ill),
        (libc::SIGTRAP, SigName::Trap),
        (libc::SIGABRT, SigName::Abort),
        (libc::SIGBUS, SigName::Bus),
        (libc::SIGFPE, SigName::Fpe),
        (libc::SIGKILL, SigName::Kill),
        (libc::SIGUSR1, SigName::Usr1),
        (libc::SIGSEGV, SigName::Segv),
        (libc::SIGUSR2, SigName::Usr2),
        (libc::SIGPIPE, SigName::Pipe),
        (libc::SIGALRM, SigName::Alarm),
        (libc::SIGTERM, SigName::Term),
        (libc::SIGSTKFLT, SigName::Stkflt),
        (libc::SIGCHLD, SigName::Child),
        (libc::SIGCONT, SigName::Cont),
        (libc::SIGSTOP, SigName::Stop),
        (libc::SIGTSTP, SigName::Tstp),
        (libc::SIGTTIN, SigName::Ttin),
        (libc::SIGTTOU, SigName::Ttou),
        (libc::SIGURG, SigName::Urg),
        (libc::SIGXCPU, SigName::Xcpu),
        (libc::SIGXFSZ, SigName::Xfsz),
        (libc::SIGVTALRM, SigName::Vtalarm),
        (libc::SIGPROF, SigName::Prof),
        (libc::SIGWINCH, SigName::Winch),
        (libc::SIGIO, SigName::Io),
        (libc::SIGPWR, SigName::Power),
        (libc::SIGSYS, SigName::Sys),
    ];
    for (raw, name) in cases {
        assert_eq!(lookup_named(&p, raw), Some(name));
        assert_eq!(named_value(&p, name), Some(raw));
        // Every named entry converts, to exactly its own number.
        assert_eq!(Sig::from_raw(raw).unwrap().as_raw(), raw);
        // Named entries lie outside the real-time window.
        assert!(raw < libc::SIGRTMIN() || raw > libc::SIGRTMAX());
    }
}

#[test]
fn host_names_agree_with_process_signals() {
    let cases = [
        (libc::SIGHUP, Signal::HUP),
        (libc::SIGINT, Signal::INT),
        (libc::SIGCHLD, Signal::CHILD),
        (libc::SIGPWR, Signal::POWER),
        (libc::SIGSYS, Signal::SYS),
    ];
    for (raw, expected) in cases {
        let sig = Sig::from_raw(raw).unwrap();
        assert_eq!(sig.to_process_signal(), Some(expected));
    }
    // A real-time member has no named process-signal value.
    let rt = Sig::rt_min();
    assert_eq!(rt.to_process_signal(), None);
}

#[test]
fn table_precedence_over_window() {
    // Even against a window that overlaps the named range, a named entry
    // classifies as its name, never as a real-time member.
    let p = Platform { os: Os::Linux, arch: Arch::Other };
    assert_eq!(classify(&p, 10, 64, 10), Some(Class::Named(SigName::Usr1)));
    assert_eq!(classify(&p, 10, 64, 40), Some(Class::Realtime));
}

#[test]
fn sparc_and_mips_renumber() {
    let sparc = Platform { os: Os::Linux, arch: Arch::Sparc };
    assert_eq!(lookup_named(&sparc, 30), Some(SigName::Usr1));
    assert_eq!(lookup_named(&sparc, 7), Some(SigName::Emt));
    assert_eq!(lookup_named(&sparc, 16), Some(SigName::Urg));
    let mips = Platform { os: Os::Linux, arch: Arch::Mips };
    assert_eq!(lookup_named(&mips, 16), Some(SigName::Usr1));
    assert_eq!(lookup_named(&mips, 19), Some(SigName::Power));
    assert_eq!(named_value(&mips, SigName::Stkflt), None);
}

#[test]
fn freebsd_extras_are_freebsd_only() {
    let freebsd = Platform { os: Os::Freebsd, arch: Arch::Other };
    let openbsd = Platform { os: Os::Openbsd, arch: Arch::Other };
    assert_eq!(lookup_named(&freebsd, 32), Some(SigName::Thr));
    assert_eq!(lookup_named(&freebsd, 33), Some(SigName::Librt));
    assert_eq!(lookup_named(&openbsd, 32), None);
    assert_eq!(lookup_named(&openbsd, 33), None);
    assert_eq!(lookup_named(&openbsd, 29), Some(SigName::Info));
}

#[test]
fn embedded_platform_excludes_names() {
    let vita = Platform { os: Os::Vita, arch: Arch::Other };
    // No raw value at all maps to an excluded name, the values the names
    // carry elsewhere included (30 is the usual user-signal number on BSD,
    // 10 on generic Linux, 7 is the emulator trap next door).
    for raw in -70..70 {
        match lookup_named(&vita, raw) {
            Some(n) => assert!(!matches!(
                n,
                SigName::Usr1
                    | SigName::Usr2
                    | SigName::Child
                    | SigName::Cont
                    | SigName::Stop
                    | SigName::Tstp
                    | SigName::Ttin
                    | SigName::Ttou
                    | SigName::Urg
                    | SigName::Xcpu
                    | SigName::Xfsz
                    | SigName::Vtalarm
                    | SigName::Prof
                    | SigName::Winch
                    | SigName::Io
                    | SigName::Power
                    | SigName::Stkflt
                    | SigName::Emt
                    | SigName::Info
                    | SigName::Thr
                    | SigName::Librt
            )),
            None => {}
        }
    }
    assert_eq!(lookup_named(&vita, 7), None);
    assert_eq!(lookup_named(&vita, 10), Some(SigName::Bus));
    assert_eq!(named_value(&vita, SigName::Usr1), None);
    // A window member still converts there, but only as a real-time value.
    assert_eq!(classify(&vita, 34, 64, 40), Some(Class::Realtime));
    assert!(from_raw_in(&vita, 34, 64, 30).is_none());
}

#[test]
fn conversion_with_explicit_window() {
    let p = Platform { os: Os::Linux, arch: Arch::Other };
    let s = from_raw_in(&p, 34, 64, 2).unwrap();
    assert_eq!(s.as_raw(), 2);
    assert!(from_raw_in(&p, 34, 64, 0).is_none());
    assert!(from_raw_in(&p, 34, 64, 33).is_none());
    assert!(from_raw_in(&p, 34, 64, 65).is_none());
    assert_eq!(from_raw_in(&p, 34, 64, 64).unwrap().as_raw(), 64);
}
