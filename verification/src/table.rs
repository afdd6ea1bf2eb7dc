//! The per-platform table of named signals.
//!
//! Each supported platform family numbers the well-known signals its own way,
//! and some families leave some of the names out entirely. The table is kept
//! in two forms that are proved consistent: a reverse map from a raw number to
//! the name it denotes ([`table_lookup`]), and a forward map from a name to
//! its raw number, or to nothing where the platform lacks the name
//! ([`sig_value`]).
//!
//! The numeric values are those published by each platform's C library.

use vstd::prelude::*;

use crate::platform::{Arch, Os, Platform};
use crate::platform::{spec_bsd_family, spec_linux_like, spec_solaris_like};

verus! {

/// The named signal identities a platform table can map to.
#[derive(Clone, Copy, PartialEq, Eq, Structural, Debug)]
pub enum SigName {
    Hup,
    Int,
    Quit,
    Ill,
    Trap,
    Abort,
    Bus,
    Fpe,
    Kill,
    Usr1,
    Segv,
    Usr2,
    Pipe,
    Alarm,
    Term,
    Stkflt,
    Child,
    Cont,
    Stop,
    Tstp,
    Ttin,
    Ttou,
    Urg,
    Xcpu,
    Xfsz,
    Vtalarm,
    Prof,
    Winch,
    Io,
    Power,
    Sys,
    Emt,
    Info,
    Thr,
    Librt,
}

/// Linux numbering on the generic processor families (x86, Arm, RISC-V, ...),
/// shared by Android and Emscripten.
pub open spec fn lookup_linux_generic(raw: int) -> Option<SigName> {
    if raw == 1 {
        Some(SigName::Hup)
    } else if raw == 2 {
        Some(SigName::Int)
    } else if raw == 3 {
        Some(SigName::Quit)
    } else if raw == 4 {
        Some(SigName::Ill)
    } else if raw == 5 {
        Some(SigName::Trap)
    } else if raw == 6 {
        Some(SigName::Abort)
    } else if raw == 7 {
        Some(SigName::Bus)
    } else if raw == 8 {
        Some(SigName::Fpe)
    } else if raw == 9 {
        Some(SigName::Kill)
    } else if raw == 10 {
        Some(SigName::Usr1)
    } else if raw == 11 {
        Some(SigName::Segv)
    } else if raw == 12 {
        Some(SigName::Usr2)
    } else if raw == 13 {
        Some(SigName::Pipe)
    } else if raw == 14 {
        Some(SigName::Alarm)
    } else if raw == 15 {
        Some(SigName::Term)
    } else if raw == 16 {
        Some(SigName::Stkflt)
    } else if raw == 17 {
        Some(SigName::Child)
    } else if raw == 18 {
        Some(SigName::Cont)
    } else if raw == 19 {
        Some(SigName::Stop)
    } else if raw == 20 {
        Some(SigName::Tstp)
    } else if raw == 21 {
        Some(SigName::Ttin)
    } else if raw == 22 {
        Some(SigName::Ttou)
    } else if raw == 23 {
        Some(SigName::Urg)
    } else if raw == 24 {
        Some(SigName::Xcpu)
    } else if raw == 25 {
        Some(SigName::Xfsz)
    } else if raw == 26 {
        Some(SigName::Vtalarm)
    } else if raw == 27 {
        Some(SigName::Prof)
    } else if raw == 28 {
        Some(SigName::Winch)
    } else if raw == 29 {
        Some(SigName::Io)
    } else if raw == 30 {
        Some(SigName::Power)
    } else if raw == 31 {
        Some(SigName::Sys)
    } else {
        None
    }
}

/// System-V-style numbering: Solaris-like systems, and Linux on the MIPS
/// processor family.
pub open spec fn lookup_sysv(raw: int) -> Option<SigName> {
    if raw == 1 {
        Some(SigName::Hup)
    } else if raw == 2 {
        Some(SigName::Int)
    } else if raw == 3 {
        Some(SigName::Quit)
    } else if raw == 4 {
        Some(SigName::Ill)
    } else if raw == 5 {
        Some(SigName::Trap)
    } else if raw == 6 {
        Some(SigName::Abort)
    } else if raw == 7 {
        Some(SigName::Emt)
    } else if raw == 8 {
        Some(SigName::Fpe)
    } else if raw == 9 {
        Some(SigName::Kill)
    } else if raw == 10 {
        Some(SigName::Bus)
    } else if raw == 11 {
        Some(SigName::Segv)
    } else if raw == 12 {
        Some(SigName::Sys)
    } else if raw == 13 {
        Some(SigName::Pipe)
    } else if raw == 14 {
        Some(SigName::Alarm)
    } else if raw == 15 {
        Some(SigName::Term)
    } else if raw == 16 {
        Some(SigName::Usr1)
    } else if raw == 17 {
        Some(SigName::Usr2)
    } else if raw == 18 {
        Some(SigName::Child)
    } else if raw == 19 {
        Some(SigName::Power)
    } else if raw == 20 {
        Some(SigName::Winch)
    } else if raw == 21 {
        Some(SigName::Urg)
    } else if raw == 22 {
        Some(SigName::Io)
    } else if raw == 23 {
        Some(SigName::Stop)
    } else if raw == 24 {
        Some(SigName::Tstp)
    } else if raw == 25 {
        Some(SigName::Cont)
    } else if raw == 26 {
        Some(SigName::Ttin)
    } else if raw == 27 {
        Some(SigName::Ttou)
    } else if raw == 28 {
        Some(SigName::Vtalarm)
    } else if raw == 29 {
        Some(SigName::Prof)
    } else if raw == 30 {
        Some(SigName::Xcpu)
    } else if raw == 31 {
        Some(SigName::Xfsz)
    } else {
        None
    }
}

/// Linux numbering on the SPARC processor family.
pub open spec fn lookup_linux_sparc(raw: int) -> Option<SigName> {
    if raw == 1 {
        Some(SigName::Hup)
    } else if raw == 2 {
        Some(SigName::Int)
    } else if raw == 3 {
        Some(SigName::Quit)
    } else if raw == 4 {
        Some(SigName::Ill)
    } else if raw == 5 {
        Some(SigName::Trap)
    } else if raw == 6 {
        Some(SigName::Abort)
    } else if raw == 7 {
        Some(SigName::Emt)
    } else if raw == 8 {
        Some(SigName::Fpe)
    } else if raw == 9 {
        Some(SigName::Kill)
    } else if raw == 10 {
        Some(SigName::Bus)
    } else if raw == 11 {
        Some(SigName::Segv)
    } else if raw == 12 {
        Some(SigName::Sys)
    } else if raw == 13 {
        Some(SigName::Pipe)
    } else if raw == 14 {
        Some(SigName::Alarm)
    } else if raw == 15 {
        Some(SigName::Term)
    } else if raw == 16 {
        Some(SigName::Urg)
    } else if raw == 17 {
        Some(SigName::Stop)
    } else if raw == 18 {
        Some(SigName::Tstp)
    } else if raw == 19 {
        Some(SigName::Cont)
    } else if raw == 20 {
        Some(SigName::Child)
    } else if raw == 21 {
        Some(SigName::Ttin)
    } else if raw == 22 {
        Some(SigName::Ttou)
    } else if raw == 23 {
        Some(SigName::Io)
    } else if raw == 24 {
        Some(SigName::Xcpu)
    } else if raw == 25 {
        Some(SigName::Xfsz)
    } else if raw == 26 {
        Some(SigName::Vtalarm)
    } else if raw == 27 {
        Some(SigName::Prof)
    } else if raw == 28 {
        Some(SigName::Winch)
    } else if raw == 29 {
        Some(SigName::Power)
    } else if raw == 30 {
        Some(SigName::Usr1)
    } else if raw == 31 {
        Some(SigName::Usr2)
    } else {
        None
    }
}

/// Classic BSD numbering, shared by the Apple, FreeBSD-like and NetBSD-like
/// families; the two highest entries exist only on FreeBSD itself.
pub open spec fn lookup_bsd(raw: int, freebsd: bool) -> Option<SigName> {
    if raw == 1 {
        Some(SigName::Hup)
    } else if raw == 2 {
        Some(SigName::Int)
    } else if raw == 3 {
        Some(SigName::Quit)
    } else if raw == 4 {
        Some(SigName::Ill)
    } else if raw == 5 {
        Some(SigName::Trap)
    } else if raw == 6 {
        Some(SigName::Abort)
    } else if raw == 7 {
        Some(SigName::Emt)
    } else if raw == 8 {
        Some(SigName::Fpe)
    } else if raw == 9 {
        Some(SigName::Kill)
    } else if raw == 10 {
        Some(SigName::Bus)
    } else if raw == 11 {
        Some(SigName::Segv)
    } else if raw == 12 {
        Some(SigName::Sys)
    } else if raw == 13 {
        Some(SigName::Pipe)
    } else if raw == 14 {
        Some(SigName::Alarm)
    } else if raw == 15 {
        Some(SigName::Term)
    } else if raw == 16 {
        Some(SigName::Urg)
    } else if raw == 17 {
        Some(SigName::Stop)
    } else if raw == 18 {
        Some(SigName::Tstp)
    } else if raw == 19 {
        Some(SigName::Cont)
    } else if raw == 20 {
        Some(SigName::Child)
    } else if raw == 21 {
        Some(SigName::Ttin)
    } else if raw == 22 {
        Some(SigName::Ttou)
    } else if raw == 23 {
        Some(SigName::Io)
    } else if raw == 24 {
        Some(SigName::Xcpu)
    } else if raw == 25 {
        Some(SigName::Xfsz)
    } else if raw == 26 {
        Some(SigName::Vtalarm)
    } else if raw == 27 {
        Some(SigName::Prof)
    } else if raw == 28 {
        Some(SigName::Winch)
    } else if raw == 29 {
        Some(SigName::Info)
    } else if raw == 30 {
        Some(SigName::Usr1)
    } else if raw == 31 {
        Some(SigName::Usr2)
    } else if raw == 32 && freebsd {
        Some(SigName::Thr)
    } else if raw == 33 && freebsd {
        Some(SigName::Librt)
    } else {
        None
    }
}

/// Hurd numbering: BSD values, without the emulator-trap, keyboard-information
/// and power signals.
pub open spec fn lookup_hurd(raw: int) -> Option<SigName> {
    if raw == 1 {
        Some(SigName::Hup)
    } else if raw == 2 {
        Some(SigName::Int)
    } else if raw == 3 {
        Some(SigName::Quit)
    } else if raw == 4 {
        Some(SigName::Ill)
    } else if raw == 5 {
        Some(SigName::Trap)
    } else if raw == 6 {
        Some(SigName::Abort)
    } else if raw == 8 {
        Some(SigName::Fpe)
    } else if raw == 9 {
        Some(SigName::Kill)
    } else if raw == 10 {
        Some(SigName::Bus)
    } else if raw == 11 {
        Some(SigName::Segv)
    } else if raw == 12 {
        Some(SigName::Sys)
    } else if raw == 13 {
        Some(SigName::Pipe)
    } else if raw == 14 {
        Some(SigName::Alarm)
    } else if raw == 15 {
        Some(SigName::Term)
    } else if raw == 16 {
        Some(SigName::Urg)
    } else if raw == 17 {
        Some(SigName::Stop)
    } else if raw == 18 {
        Some(SigName::Tstp)
    } else if raw == 19 {
        Some(SigName::Cont)
    } else if raw == 20 {
        Some(SigName::Child)
    } else if raw == 21 {
        Some(SigName::Ttin)
    } else if raw == 22 {
        Some(SigName::Ttou)
    } else if raw == 23 {
        Some(SigName::Io)
    } else if raw == 24 {
        Some(SigName::Xcpu)
    } else if raw == 25 {
        Some(SigName::Xfsz)
    } else if raw == 26 {
        Some(SigName::Vtalarm)
    } else if raw == 27 {
        Some(SigName::Prof)
    } else if raw == 28 {
        Some(SigName::Winch)
    } else if raw == 30 {
        Some(SigName::Usr1)
    } else if raw == 31 {
        Some(SigName::Usr2)
    } else {
        None
    }
}

/// The minimalist embedded platform: BSD values for the core signals only.
/// Job control, user signals and the asynchronous-notification signals are
/// absent, and the emulator-trap number must not be offered either.
pub open spec fn lookup_vita(raw: int) -> Option<SigName> {
    if raw == 1 {
        Some(SigName::Hup)
    } else if raw == 2 {
        Some(SigName::Int)
    } else if raw == 3 {
        Some(SigName::Quit)
    } else if raw == 4 {
        Some(SigName::Ill)
    } else if raw == 5 {
        Some(SigName::Trap)
    } else if raw == 6 {
        Some(SigName::Abort)
    } else if raw == 8 {
        Some(SigName::Fpe)
    } else if raw == 9 {
        Some(SigName::Kill)
    } else if raw == 10 {
        Some(SigName::Bus)
    } else if raw == 11 {
        Some(SigName::Segv)
    } else if raw == 12 {
        Some(SigName::Sys)
    } else if raw == 13 {
        Some(SigName::Pipe)
    } else if raw == 14 {
        Some(SigName::Alarm)
    } else if raw == 15 {
        Some(SigName::Term)
    } else {
        None
    }
}

/// The named entry a raw number denotes on a platform, if any.
pub open spec fn table_lookup(p: Platform, raw: int) -> Option<SigName> {
    if spec_linux_like(p.os) {
        match p.arch {
            Arch::Mips => lookup_sysv(raw),
            Arch::Sparc => lookup_linux_sparc(raw),
            Arch::Other => lookup_linux_generic(raw),
        }
    } else if spec_bsd_family(p.os) {
        lookup_bsd(raw, p.os == Os::Freebsd)
    } else if spec_solaris_like(p.os) {
        lookup_sysv(raw)
    } else if p.os == Os::Hurd {
        lookup_hurd(raw)
    } else {
        lookup_vita(raw)
    }
}

/// Forward map on the generic Linux layout: the raw number of a name, or
/// `None` where the layout lacks the name.
pub open spec fn value_linux_generic(n: SigName) -> Option<int> {
    match n {
        SigName::Hup => Some(1),
        SigName::Int => Some(2),
        SigName::Quit => Some(3),
        SigName::Ill => Some(4),
        SigName::Trap => Some(5),
        SigName::Abort => Some(6),
        SigName::Bus => Some(7),
        SigName::Fpe => Some(8),
        SigName::Kill => Some(9),
        SigName::Usr1 => Some(10),
        SigName::Segv => Some(11),
        SigName::Usr2 => Some(12),
        SigName::Pipe => Some(13),
        SigName::Alarm => Some(14),
        SigName::Term => Some(15),
        SigName::Stkflt => Some(16),
        SigName::Child => Some(17),
        SigName::Cont => Some(18),
        SigName::Stop => Some(19),
        SigName::Tstp => Some(20),
        SigName::Ttin => Some(21),
        SigName::Ttou => Some(22),
        SigName::Urg => Some(23),
        SigName::Xcpu => Some(24),
        SigName::Xfsz => Some(25),
        SigName::Vtalarm => Some(26),
        SigName::Prof => Some(27),
        SigName::Winch => Some(28),
        SigName::Io => Some(29),
        SigName::Power => Some(30),
        SigName::Sys => Some(31),
        SigName::Emt => None,
        SigName::Info => None,
        SigName::Thr => None,
        SigName::Librt => None,
    }
}

/// Forward map on the System-V-style layout.
pub open spec fn value_sysv(n: SigName) -> Option<int> {
    match n {
        SigName::Hup => Some(1),
        SigName::Int => Some(2),
        SigName::Quit => Some(3),
        SigName::Ill => Some(4),
        SigName::Trap => Some(5),
        SigName::Abort => Some(6),
        SigName::Emt => Some(7),
        SigName::Fpe => Some(8),
        SigName::Kill => Some(9),
        SigName::Bus => Some(10),
        SigName::Segv => Some(11),
        SigName::Sys => Some(12),
        SigName::Pipe => Some(13),
        SigName::Alarm => Some(14),
        SigName::Term => Some(15),
        SigName::Usr1 => Some(16),
        SigName::Usr2 => Some(17),
        SigName::Child => Some(18),
        SigName::Power => Some(19),
        SigName::Winch => Some(20),
        SigName::Urg => Some(21),
        SigName::Io => Some(22),
        SigName::Stop => Some(23),
        SigName::Tstp => Some(24),
        SigName::Cont => Some(25),
        SigName::Ttin => Some(26),
        SigName::Ttou => Some(27),
        SigName::Vtalarm => Some(28),
        SigName::Prof => Some(29),
        SigName::Xcpu => Some(30),
        SigName::Xfsz => Some(31),
        SigName::Stkflt => None,
        SigName::Info => None,
        SigName::Thr => None,
        SigName::Librt => None,
    }
}

/// Forward map on the Linux SPARC layout.
pub open spec fn value_linux_sparc(n: SigName) -> Option<int> {
    match n {
        SigName::Hup => Some(1),
        SigName::Int => Some(2),
        SigName::Quit => Some(3),
        SigName::Ill => Some(4),
        SigName::Trap => Some(5),
        SigName::Abort => Some(6),
        SigName::Emt => Some(7),
        SigName::Fpe => Some(8),
        SigName::Kill => Some(9),
        SigName::Bus => Some(10),
        SigName::Segv => Some(11),
        SigName::Sys => Some(12),
        SigName::Pipe => Some(13),
        SigName::Alarm => Some(14),
        SigName::Term => Some(15),
        SigName::Urg => Some(16),
        SigName::Stop => Some(17),
        SigName::Tstp => Some(18),
        SigName::Cont => Some(19),
        SigName::Child => Some(20),
        SigName::Ttin => Some(21),
        SigName::Ttou => Some(22),
        SigName::Io => Some(23),
        SigName::Xcpu => Some(24),
        SigName::Xfsz => Some(25),
        SigName::Vtalarm => Some(26),
        SigName::Prof => Some(27),
        SigName::Winch => Some(28),
        SigName::Power => Some(29),
        SigName::Usr1 => Some(30),
        SigName::Usr2 => Some(31),
        SigName::Stkflt => None,
        SigName::Info => None,
        SigName::Thr => None,
        SigName::Librt => None,
    }
}

/// Forward map on the BSD layout.
pub open spec fn value_bsd(n: SigName, freebsd: bool) -> Option<int> {
    match n {
        SigName::Hup => Some(1),
        SigName::Int => Some(2),
        SigName::Quit => Some(3),
        SigName::Ill => Some(4),
        SigName::Trap => Some(5),
        SigName::Abort => Some(6),
        SigName::Emt => Some(7),
        SigName::Fpe => Some(8),
        SigName::Kill => Some(9),
        SigName::Bus => Some(10),
        SigName::Segv => Some(11),
        SigName::Sys => Some(12),
        SigName::Pipe => Some(13),
        SigName::Alarm => Some(14),
        SigName::Term => Some(15),
        SigName::Urg => Some(16),
        SigName::Stop => Some(17),
        SigName::Tstp => Some(18),
        SigName::Cont => Some(19),
        SigName::Child => Some(20),
        SigName::Ttin => Some(21),
        SigName::Ttou => Some(22),
        SigName::Io => Some(23),
        SigName::Xcpu => Some(24),
        SigName::Xfsz => Some(25),
        SigName::Vtalarm => Some(26),
        SigName::Prof => Some(27),
        SigName::Winch => Some(28),
        SigName::Info => Some(29),
        SigName::Usr1 => Some(30),
        SigName::Usr2 => Some(31),
        SigName::Thr => if freebsd {
            Some(32)
        } else {
            None
        },
        SigName::Librt => if freebsd {
            Some(33)
        } else {
            None
        },
        SigName::Stkflt => None,
        SigName::Power => None,
    }
}

/// Forward map on the Hurd layout.
pub open spec fn value_hurd(n: SigName) -> Option<int> {
    match n {
        SigName::Hup => Some(1),
        SigName::Int => Some(2),
        SigName::Quit => Some(3),
        SigName::Ill => Some(4),
        SigName::Trap => Some(5),
        SigName::Abort => Some(6),
        SigName::Fpe => Some(8),
        SigName::Kill => Some(9),
        SigName::Bus => Some(10),
        SigName::Segv => Some(11),
        SigName::Sys => Some(12),
        SigName::Pipe => Some(13),
        SigName::Alarm => Some(14),
        SigName::Term => Some(15),
        SigName::Urg => Some(16),
        SigName::Stop => Some(17),
        SigName::Tstp => Some(18),
        SigName::Cont => Some(19),
        SigName::Child => Some(20),
        SigName::Ttin => Some(21),
        SigName::Ttou => Some(22),
        SigName::Io => Some(23),
        SigName::Xcpu => Some(24),
        SigName::Xfsz => Some(25),
        SigName::Vtalarm => Some(26),
        SigName::Prof => Some(27),
        SigName::Winch => Some(28),
        SigName::Usr1 => Some(30),
        SigName::Usr2 => Some(31),
        SigName::Stkflt => None,
        SigName::Emt => None,
        SigName::Info => None,
        SigName::Power => None,
        SigName::Thr => None,
        SigName::Librt => None,
    }
}

/// Forward map on the minimalist embedded layout.
pub open spec fn value_vita(n: SigName) -> Option<int> {
    match n {
        SigName::Hup => Some(1),
        SigName::Int => Some(2),
        SigName::Quit => Some(3),
        SigName::Ill => Some(4),
        SigName::Trap => Some(5),
        SigName::Abort => Some(6),
        SigName::Fpe => Some(8),
        SigName::Kill => Some(9),
        SigName::Bus => Some(10),
        SigName::Segv => Some(11),
        SigName::Sys => Some(12),
        SigName::Pipe => Some(13),
        SigName::Alarm => Some(14),
        SigName::Term => Some(15),
        _ => None,
    }
}

/// The raw number a name has on a platform, or `None` where the platform
/// leaves the name out.
pub open spec fn sig_value(p: Platform, n: SigName) -> Option<int> {
    if spec_linux_like(p.os) {
        match p.arch {
            Arch::Mips => value_sysv(n),
            Arch::Sparc => value_linux_sparc(n),
            Arch::Other => value_linux_generic(n),
        }
    } else if spec_bsd_family(p.os) {
        value_bsd(n, p.os == Os::Freebsd)
    } else if spec_solaris_like(p.os) {
        value_sysv(n)
    } else if p.os == Os::Hurd {
        value_hurd(n)
    } else {
        value_vita(n)
    }
}

fn lookup_linux_generic_exec(raw: i32) -> (r: Option<SigName>)
    ensures
        r == lookup_linux_generic(raw as int),
{
    match raw {
        1 => Some(SigName::Hup),
        2 => Some(SigName::Int),
        3 => Some(SigName::Quit),
        4 => Some(SigName::Ill),
        5 => Some(SigName::Trap),
        6 => Some(SigName::Abort),
        7 => Some(SigName::Bus),
        8 => Some(SigName::Fpe),
        9 => Some(SigName::Kill),
        10 => Some(SigName::Usr1),
        11 => Some(SigName::Segv),
        12 => Some(SigName::Usr2),
        13 => Some(SigName::Pipe),
        14 => Some(SigName::Alarm),
        15 => Some(SigName::Term),
        16 => Some(SigName::Stkflt),
        17 => Some(SigName::Child),
        18 => Some(SigName::Cont),
        19 => Some(SigName::Stop),
        20 => Some(SigName::Tstp),
        21 => Some(SigName::Ttin),
        22 => Some(SigName::Ttou),
        23 => Some(SigName::Urg),
        24 => Some(SigName::Xcpu),
        25 => Some(SigName::Xfsz),
        26 => Some(SigName::Vtalarm),
        27 => Some(SigName::Prof),
        28 => Some(SigName::Winch),
        29 => Some(SigName::Io),
        30 => Some(SigName::Power),
        31 => Some(SigName::Sys),
        _ => None,
    }
}

fn lookup_sysv_exec(raw: i32) -> (r: Option<SigName>)
    ensures
        r == lookup_sysv(raw as int),
{
    match raw {
        1 => Some(SigName::Hup),
        2 => Some(SigName::Int),
        3 => Some(SigName::Quit),
        4 => Some(SigName::Ill),
        5 => Some(SigName::Trap),
        6 => Some(SigName::Abort),
        7 => Some(SigName::Emt),
        8 => Some(SigName::Fpe),
        9 => Some(SigName::Kill),
        10 => Some(SigName::Bus),
        11 => Some(SigName::Segv),
        12 => Some(SigName::Sys),
        13 => Some(SigName::Pipe),
        14 => Some(SigName::Alarm),
        15 => Some(SigName::Term),
        16 => Some(SigName::Usr1),
        17 => Some(SigName::Usr2),
        18 => Some(SigName::Child),
        19 => Some(SigName::Power),
        20 => Some(SigName::Winch),
        21 => Some(SigName::Urg),
        22 => Some(SigName::Io),
        23 => Some(SigName::Stop),
        24 => Some(SigName::Tstp),
        25 => Some(SigName::Cont),
        26 => Some(SigName::Ttin),
        27 => Some(SigName::Ttou),
        28 => Some(SigName::Vtalarm),
        29 => Some(SigName::Prof),
        30 => Some(SigName::Xcpu),
        31 => Some(SigName::Xfsz),
        _ => None,
    }
}

fn lookup_linux_sparc_exec(raw: i32) -> (r: Option<SigName>)
    ensures
        r == lookup_linux_sparc(raw as int),
{
    match raw {
        1 => Some(SigName::Hup),
        2 => Some(SigName::Int),
        3 => Some(SigName::Quit),
        4 => Some(SigName::Ill),
        5 => Some(SigName::Trap),
        6 => Some(SigName::Abort),
        7 => Some(SigName::Emt),
        8 => Some(SigName::Fpe),
        9 => Some(SigName::Kill),
        10 => Some(SigName::Bus),
        11 => Some(SigName::Segv),
        12 => Some(SigName::Sys),
        13 => Some(SigName::Pipe),
        14 => Some(SigName::Alarm),
        15 => Some(SigName::Term),
        16 => Some(SigName::Urg),
        17 => Some(SigName::Stop),
        18 => Some(SigName::Tstp),
        19 => Some(SigName::Cont),
        20 => Some(SigName::Child),
        21 => Some(SigName::Ttin),
        22 => Some(SigName::Ttou),
        23 => Some(SigName::Io),
        24 => Some(SigName::Xcpu),
        25 => Some(SigName::Xfsz),
        26 => Some(SigName::Vtalarm),
        27 => Some(SigName::Prof),
        28 => Some(SigName::Winch),
        29 => Some(SigName::Power),
        30 => Some(SigName::Usr1),
        31 => Some(SigName::Usr2),
        _ => None,
    }
}

fn lookup_bsd_exec(raw: i32, freebsd: bool) -> (r: Option<SigName>)
    ensures
        r == lookup_bsd(raw as int, freebsd),
{
    match raw {
        1 => Some(SigName::Hup),
        2 => Some(SigName::Int),
        3 => Some(SigName::Quit),
        4 => Some(SigName::Ill),
        5 => Some(SigName::Trap),
        6 => Some(SigName::Abort),
        7 => Some(SigName::Emt),
        8 => Some(SigName::Fpe),
        9 => Some(SigName::Kill),
        10 => Some(SigName::Bus),
        11 => Some(SigName::Segv),
        12 => Some(SigName::Sys),
        13 => Some(SigName::Pipe),
        14 => Some(SigName::Alarm),
        15 => Some(SigName::Term),
        16 => Some(SigName::Urg),
        17 => Some(SigName::Stop),
        18 => Some(SigName::Tstp),
        19 => Some(SigName::Cont),
        20 => Some(SigName::Child),
        21 => Some(SigName::Ttin),
        22 => Some(SigName::Ttou),
        23 => Some(SigName::Io),
        24 => Some(SigName::Xcpu),
        25 => Some(SigName::Xfsz),
        26 => Some(SigName::Vtalarm),
        27 => Some(SigName::Prof),
        28 => Some(SigName::Winch),
        29 => Some(SigName::Info),
        30 => Some(SigName::Usr1),
        31 => Some(SigName::Usr2),
        32 => if freebsd {
            Some(SigName::Thr)
        } else {
            None
        },
        33 => if freebsd {
            Some(SigName::Librt)
        } else {
            None
        },
        _ => None,
    }
}

fn lookup_hurd_exec(raw: i32) -> (r: Option<SigName>)
    ensures
        r == lookup_hurd(raw as int),
{
    match raw {
        1 => Some(SigName::Hup),
        2 => Some(SigName::Int),
        3 => Some(SigName::Quit),
        4 => Some(SigName::Ill),
        5 => Some(SigName::Trap),
        6 => Some(SigName::Abort),
        8 => Some(SigName::Fpe),
        9 => Some(SigName::Kill),
        10 => Some(SigName::Bus),
        11 => Some(SigName::Segv),
        12 => Some(SigName::Sys),
        13 => Some(SigName::Pipe),
        14 => Some(SigName::Alarm),
        15 => Some(SigName::Term),
        16 => Some(SigName::Urg),
        17 => Some(SigName::Stop),
        18 => Some(SigName::Tstp),
        19 => Some(SigName::Cont),
        20 => Some(SigName::Child),
        21 => Some(SigName::Ttin),
        22 => Some(SigName::Ttou),
        23 => Some(SigName::Io),
        24 => Some(SigName::Xcpu),
        25 => Some(SigName::Xfsz),
        26 => Some(SigName::Vtalarm),
        27 => Some(SigName::Prof),
        28 => Some(SigName::Winch),
        30 => Some(SigName::Usr1),
        31 => Some(SigName::Usr2),
        _ => None,
    }
}

fn lookup_vita_exec(raw: i32) -> (r: Option<SigName>)
    ensures
        r == lookup_vita(raw as int),
{
    match raw {
        1 => Some(SigName::Hup),
        2 => Some(SigName::Int),
        3 => Some(SigName::Quit),
        4 => Some(SigName::Ill),
        5 => Some(SigName::Trap),
        6 => Some(SigName::Abort),
        8 => Some(SigName::Fpe),
        9 => Some(SigName::Kill),
        10 => Some(SigName::Bus),
        11 => Some(SigName::Segv),
        12 => Some(SigName::Sys),
        13 => Some(SigName::Pipe),
        14 => Some(SigName::Alarm),
        15 => Some(SigName::Term),
        _ => None,
    }
}

/// Look a raw number up in a platform's named table.
pub fn lookup_named(p: &Platform, raw: i32) -> (r: Option<SigName>)
    ensures
        r == table_lookup(*p, raw as int),
{
    if crate::platform::linux_like(p.os) {
        match p.arch {
            Arch::Mips => lookup_sysv_exec(raw),
            Arch::Sparc => lookup_linux_sparc_exec(raw),
            Arch::Other => lookup_linux_generic_exec(raw),
        }
    } else if crate::platform::bsd_family(p.os) {
        lookup_bsd_exec(raw, p.os == Os::Freebsd)
    } else if crate::platform::solaris_like(p.os) {
        lookup_sysv_exec(raw)
    } else if p.os == Os::Hurd {
        lookup_hurd_exec(raw)
    } else {
        lookup_vita_exec(raw)
    }
}

/// The raw number a name has on a platform, as an executable query.
pub fn named_value(p: &Platform, n: SigName) -> (r: Option<i32>)
    ensures
        match r {
            Some(v) => sig_value(*p, n) == Some(v as int),
            None => sig_value(*p, n) is None,
        },
{
    let raw: Option<i32> = if crate::platform::linux_like(p.os) {
        match p.arch {
            Arch::Mips => named_value_sysv(n),
            Arch::Sparc => named_value_linux_sparc(n),
            Arch::Other => named_value_linux_generic(n),
        }
    } else if crate::platform::bsd_family(p.os) {
        named_value_bsd(n, p.os == Os::Freebsd)
    } else if crate::platform::solaris_like(p.os) {
        named_value_sysv(n)
    } else if p.os == Os::Hurd {
        named_value_hurd(n)
    } else {
        named_value_vita(n)
    };
    raw
}

fn named_value_linux_generic(n: SigName) -> (r: Option<i32>)
    ensures
        match r {
            Some(v) => value_linux_generic(n) == Some(v as int),
            None => value_linux_generic(n) is None,
        },
{
    match n {
        SigName::Hup => Some(1),
        SigName::Int => Some(2),
        SigName::Quit => Some(3),
        SigName::Ill => Some(4),
        SigName::Trap => Some(5),
        SigName::Abort => Some(6),
        SigName::Bus => Some(7),
        SigName::Fpe => Some(8),
        SigName::Kill => Some(9),
        SigName::Usr1 => Some(10),
        SigName::Segv => Some(11),
        SigName::Usr2 => Some(12),
        SigName::Pipe => Some(13),
        SigName::Alarm => Some(14),
        SigName::Term => Some(15),
        SigName::Stkflt => Some(16),
        SigName::Child => Some(17),
        SigName::Cont => Some(18),
        SigName::Stop => Some(19),
        SigName::Tstp => Some(20),
        SigName::Ttin => Some(21),
        SigName::Ttou => Some(22),
        SigName::Urg => Some(23),
        SigName::Xcpu => Some(24),
        SigName::Xfsz => Some(25),
        SigName::Vtalarm => Some(26),
        SigName::Prof => Some(27),
        SigName::Winch => Some(28),
        SigName::Io => Some(29),
        SigName::Power => Some(30),
        SigName::Sys => Some(31),
        _ => None,
    }
}

fn named_value_sysv(n: SigName) -> (r: Option<i32>)
    ensures
        match r {
            Some(v) => value_sysv(n) == Some(v as int),
            None => value_sysv(n) is None,
        },
{
    match n {
        SigName::Hup => Some(1),
        SigName::Int => Some(2),
        SigName::Quit => Some(3),
        SigName::Ill => Some(4),
        SigName::Trap => Some(5),
        SigName::Abort => Some(6),
        SigName::Emt => Some(7),
        SigName::Fpe => Some(8),
        SigName::Kill => Some(9),
        SigName::Bus => Some(10),
        SigName::Segv => Some(11),
        SigName::Sys => Some(12),
        SigName::Pipe => Some(13),
        SigName::Alarm => Some(14),
        SigName::Term => Some(15),
        SigName::Usr1 => Some(16),
        SigName::Usr2 => Some(17),
        SigName::Child => Some(18),
        SigName::Power => Some(19),
        SigName::Winch => Some(20),
        SigName::Urg => Some(21),
        SigName::Io => Some(22),
        SigName::Stop => Some(23),
        SigName::Tstp => Some(24),
        SigName::Cont => Some(25),
        SigName::Ttin => Some(26),
        SigName::Ttou => Some(27),
        SigName::Vtalarm => Some(28),
        SigName::Prof => Some(29),
        SigName::Xcpu => Some(30),
        SigName::Xfsz => Some(31),
        _ => None,
    }
}

fn named_value_linux_sparc(n: SigName) -> (r: Option<i32>)
    ensures
        match r {
            Some(v) => value_linux_sparc(n) == Some(v as int),
            None => value_linux_sparc(n) is None,
        },
{
    match n {
        SigName::Hup => Some(1),
        SigName::Int => Some(2),
        SigName::Quit => Some(3),
        SigName::Ill => Some(4),
        SigName::Trap => Some(5),
        SigName::Abort => Some(6),
        SigName::Emt => Some(7),
        SigName::Fpe => Some(8),
        SigName::Kill => Some(9),
        SigName::Bus => Some(10),
        SigName::Segv => Some(11),
        SigName::Sys => Some(12),
        SigName::Pipe => Some(13),
        SigName::Alarm => Some(14),
        SigName::Term => Some(15),
        SigName::Urg => Some(16),
        SigName::Stop => Some(17),
        SigName::Tstp => Some(18),
        SigName::Cont => Some(19),
        SigName::Child => Some(20),
        SigName::Ttin => Some(21),
        SigName::Ttou => Some(22),
        SigName::Io => Some(23),
        SigName::Xcpu => Some(24),
        SigName::Xfsz => Some(25),
        SigName::Vtalarm => Some(26),
        SigName::Prof => Some(27),
        SigName::Winch => Some(28),
        SigName::Power => Some(29),
        SigName::Usr1 => Some(30),
        SigName::Usr2 => Some(31),
        _ => None,
    }
}

fn named_value_bsd(n: SigName, freebsd: bool) -> (r: Option<i32>)
    ensures
        match r {
            Some(v) => value_bsd(n, freebsd) == Some(v as int),
            None => value_bsd(n, freebsd) is None,
        },
{
    match n {
        SigName::Hup => Some(1),
        SigName::Int => Some(2),
        SigName::Quit => Some(3),
        SigName::Ill => Some(4),
        SigName::Trap => Some(5),
        SigName::Abort => Some(6),
        SigName::Emt => Some(7),
        SigName::Fpe => Some(8),
        SigName::Kill => Some(9),
        SigName::Bus => Some(10),
        SigName::Segv => Some(11),
        SigName::Sys => Some(12),
        SigName::Pipe => Some(13),
        SigName::Alarm => Some(14),
        SigName::Term => Some(15),
        SigName::Urg => Some(16),
        SigName::Stop => Some(17),
        SigName::Tstp => Some(18),
        SigName::Cont => Some(19),
        SigName::Child => Some(20),
        SigName::Ttin => Some(21),
        SigName::Ttou => Some(22),
        SigName::Io => Some(23),
        SigName::Xcpu => Some(24),
        SigName::Xfsz => Some(25),
        SigName::Vtalarm => Some(26),
        SigName::Prof => Some(27),
        SigName::Winch => Some(28),
        SigName::Info => Some(29),
        SigName::Usr1 => Some(30),
        SigName::Usr2 => Some(31),
        SigName::Thr => if freebsd {
            Some(32)
        } else {
            None
        },
        SigName::Librt => if freebsd {
            Some(33)
        } else {
            None
        },
        _ => None,
    }
}

fn named_value_hurd(n: SigName) -> (r: Option<i32>)
    ensures
        match r {
            Some(v) => value_hurd(n) == Some(v as int),
            None => value_hurd(n) is None,
        },
{
    match n {
        SigName::Hup => Some(1),
        SigName::Int => Some(2),
        SigName::Quit => Some(3),
        SigName::Ill => Some(4),
        SigName::Trap => Some(5),
        SigName::Abort => Some(6),
        SigName::Fpe => Some(8),
        SigName::Kill => Some(9),
        SigName::Bus => Some(10),
        SigName::Segv => Some(11),
        SigName::Sys => Some(12),
        SigName::Pipe => Some(13),
        SigName::Alarm => Some(14),
        SigName::Term => Some(15),
        SigName::Urg => Some(16),
        SigName::Stop => Some(17),
        SigName::Tstp => Some(18),
        SigName::Cont => Some(19),
        SigName::Child => Some(20),
        SigName::Ttin => Some(21),
        SigName::Ttou => Some(22),
        SigName::Io => Some(23),
        SigName::Xcpu => Some(24),
        SigName::Xfsz => Some(25),
        SigName::Vtalarm => Some(26),
        SigName::Prof => Some(27),
        SigName::Winch => Some(28),
        SigName::Usr1 => Some(30),
        SigName::Usr2 => Some(31),
        _ => None,
    }
}

fn named_value_vita(n: SigName) -> (r: Option<i32>)
    ensures
        match r {
            Some(v) => value_vita(n) == Some(v as int),
            None => value_vita(n) is None,
        },
{
    match n {
        SigName::Hup => Some(1),
        SigName::Int => Some(2),
        SigName::Quit => Some(3),
        SigName::Ill => Some(4),
        SigName::Trap => Some(5),
        SigName::Abort => Some(6),
        SigName::Fpe => Some(8),
        SigName::Kill => Some(9),
        SigName::Bus => Some(10),
        SigName::Segv => Some(11),
        SigName::Sys => Some(12),
        SigName::Pipe => Some(13),
        SigName::Alarm => Some(14),
        SigName::Term => Some(15),
        _ => None,
    }
}

/// Each platform's table is consistent with its forward map: a raw number
/// denotes a name exactly when that name's number on the platform is that raw
/// value. In particular no raw value denotes two names, and every name the
/// platform has can be found again from its number.
pub proof fn lemma_table_consistent(p: Platform, raw: int, n: SigName)
    ensures
        table_lookup(p, raw) == Some(n) <==> sig_value(p, n) == Some(raw),
{
}

/// Named signal numbers are small: between 1 and 33 everywhere, and at most
/// 31 on every platform that offers a real-time window. The real-time window
/// always lies above them (see the mapper's disjointness law).
pub proof fn lemma_named_value_bounds(p: Platform, n: SigName)
    ensures
        sig_value(p, n) matches Some(v) ==> 1 <= v <= 33,
        crate::platform::spec_has_realtime(p.os) ==> (sig_value(p, n) matches Some(v) ==> 1 <= v
            <= 31),
{
}

/// The names the minimalist embedded platform retains; every other name is
/// excluded there.
pub open spec fn embedded_retains(n: SigName) -> bool {
    n == SigName::Hup || n == SigName::Int || n == SigName::Quit || n == SigName::Ill || n
        == SigName::Trap || n == SigName::Abort || n == SigName::Fpe || n == SigName::Kill || n
        == SigName::Bus || n == SigName::Segv || n == SigName::Sys || n == SigName::Pipe || n
        == SigName::Alarm || n == SigName::Term
}

/// On the minimalist embedded platform no raw value at all maps to one of the
/// excluded names, even where the value is the number an excluded name has on
/// some other platform.
pub proof fn lemma_embedded_absence(p: Platform, raw: int)
    requires
        p.os == Os::Vita,
    ensures
        table_lookup(p, raw) matches Some(n) ==> embedded_retains(n),
{
}

} // verus!
