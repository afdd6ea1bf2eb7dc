//! The validated signal value type and its conversions.
//!
//! [`Sig`] holds a raw signal number that has been proven valid: it came
//! out of the named table or out of the real-time window. The unchecked
//! construction path is private to this module and demands a non-zero value,
//! so no public entry point can produce an invalid signal.
//!
//! The window-parametric functions ([`rt_in`], [`from_raw_in`]) carry the
//! exact contracts; the [`SignalExt`] methods apply them to the window the
//! build target's C library advertises at the moment of the call.

use vstd::prelude::*;

use crate::host;
use crate::mapper;
use crate::platform::Platform;
use crate::table::table_lookup;

verus! {

/// A validated signal identity: a named signal of the build target, or a
/// member of its real-time window.
#[derive(Clone, Copy, PartialEq, Eq, Structural, Debug)]
pub struct Sig {
    raw: i32,
}

impl Sig {
    /// The raw number, as a specification value.
    pub closed spec fn spec_raw(&self) -> int {
        self.raw as int
    }

    /// Well-formed: no signal is ever numbered zero.
    pub open spec fn wf(&self) -> bool {
        self.spec_raw() != 0
    }

    /// The unchecked construction path: only reachable once the value has
    /// been proven valid.
    fn from_valid(raw: i32) -> (s: Sig)
        requires
            raw != 0,
        ensures
            s.spec_raw() == raw as int,
            s.wf(),
    {
        Sig { raw }
    }

    /// The raw signal number.
    pub fn as_raw(&self) -> (r: i32)
        ensures
            r as int == self.spec_raw(),
    {
        self.raw
    }

    /// The process-signal value for this signal, where it is one of the build
    /// target's named signals; real-time members have no named value.
    pub fn to_process_signal(&self) -> (r: Option<rustix::process::Signal>)
        ensures
            r is Some <==> table_lookup(host::host_platform(), self.spec_raw()) is Some,
    {
        host::named_process_signal(self.raw)
    }
}

/// Compute the signal `least + n` within an explicitly given real-time
/// window, exactly when the sum stays inside the window.
pub fn rt_in(least: i32, greatest: i32, n: i32) -> (r: Option<Sig>)
    requires
        1 <= least,
    ensures
        r is Some <==> mapper::spec_rt(least, greatest, n) is Some,
        r matches Some(s) ==> mapper::spec_rt(least, greatest, n) == Some(s.spec_raw()) && s.wf(),
{
    match mapper::rt_offset(least, greatest, n) {
        Some(v) => Some(Sig::from_valid(v)),
        None => None,
    }
}

/// Convert a raw number against an explicitly given platform and real-time
/// window: a signal comes back exactly when the classification accepts the
/// value, and it carries the raw value unchanged.
pub fn from_raw_in(p: &Platform, least: i32, greatest: i32, raw: i32) -> (r: Option<Sig>)
    ensures
        r is Some <==> mapper::spec_classify(*p, least, greatest, raw) is Some,
        r matches Some(s) ==> s.spec_raw() == raw as int && s.wf(),
{
    match mapper::classify(p, least, greatest, raw) {
        Some(_) => Some(Sig::from_valid(raw)),
        None => None,
    }
}

/// Conversion is deterministic: two results that both satisfy the conversion
/// contract for the same inputs are equal, so converting twice yields equal
/// results.
pub proof fn lemma_from_raw_deterministic(
    p: Platform,
    least: i32,
    greatest: i32,
    raw: i32,
    r1: Option<Sig>,
    r2: Option<Sig>,
)
    requires
        r1 is Some <==> mapper::spec_classify(p, least, greatest, raw) is Some,
        r1 matches Some(s) ==> s.spec_raw() == raw as int,
        r2 is Some <==> mapper::spec_classify(p, least, greatest, raw) is Some,
        r2 matches Some(s) ==> s.spec_raw() == raw as int,
    ensures
        r1 == r2,
{
}

/// The capability marker restricting [`SignalExt`] to this crate's signal
/// type.
pub trait Sealed {}

impl Sealed for Sig {}

/// Real-time window queries and checked conversion from raw signal numbers,
/// for the build target.
pub trait SignalExt: Sealed + Sized {
    /// The raw number of a signal value, as a specification value.
    spec fn sig_raw(&self) -> int;

    /// `SIGRTMIN + n`: convert a real-time signal offset into a signal.
    ///
    /// The sum is computed with wrapping addition and accepted only while it
    /// stays inside the window the C library advertises, which keeps the
    /// numbers the library reserves for itself out of reach. The window lies
    /// within [32, 64] and spans at least the eight signals POSIX guarantees,
    /// so offsets zero through seven always succeed and no offset above 32
    /// ever does.
    fn rt(n: i32) -> (r: Option<Self>)
        ensures
            r matches Some(s) ==> 32 <= s.sig_raw() <= 64,
            r matches Some(s) ==> 32 <= s.sig_raw() - n <= 57,
            0 <= n <= 7 ==> r is Some,
            n < 0 || n > 32 ==> r is None,
    ;

    /// `SIGRTMIN`: the least real-time signal value the C library advertises,
    /// which may sit above the kernel's own least value.
    fn rt_min() -> (r: Self)
        ensures
            32 <= r.sig_raw() <= 57,
    ;

    /// `SIGRTMAX`: the greatest real-time signal value the C library
    /// advertises.
    fn rt_max() -> (r: Self)
        ensures
            39 <= r.sig_raw() <= 64,
    ;

    /// Convert a raw signal number into a signal.
    ///
    /// Zero and negative values never convert; a named-table entry always
    /// converts; a value outside both the named table and [32, 64] never
    /// converts; and whatever converts carries its raw value unchanged.
    fn from_raw(sig: i32) -> (r: Option<Self>)
        ensures
            r matches Some(s) ==> s.sig_raw() == sig as int && sig != 0,
            sig == 0 ==> r is None,
            table_lookup(host::host_platform(), sig as int) is Some ==> r is Some,
            table_lookup(host::host_platform(), sig as int) is None && !(32 <= sig <= 64)
                ==> r is None,
    ;

    /// Convert a raw non-zero signal number into a signal.
    fn from_raw_nonzero(sig: i32) -> (r: Option<Self>)
        requires
            sig != 0,
        ensures
            r matches Some(s) ==> s.sig_raw() == sig as int,
            table_lookup(host::host_platform(), sig as int) is Some ==> r is Some,
            table_lookup(host::host_platform(), sig as int) is None && !(32 <= sig <= 64)
                ==> r is None,
    ;
}

impl SignalExt for Sig {
    open spec fn sig_raw(&self) -> int {
        self.spec_raw()
    }

    fn rt(n: i32) -> (r: Option<Self>) {
        let bounds = host::rt_bounds();
        proof {
            if n < 0 || n > bounds.1 - bounds.0 {
                mapper::lemma_rt_outside(bounds.0, bounds.1, n);
            } else {
                mapper::lemma_rt_inside(bounds.0, bounds.1, n);
            }
        }
        rt_in(bounds.0, bounds.1, n)
    }

    fn rt_min() -> (r: Self) {
        let bounds = host::rt_bounds();
        Sig::from_valid(bounds.0)
    }

    fn rt_max() -> (r: Self) {
        let bounds = host::rt_bounds();
        Sig::from_valid(bounds.1)
    }

    fn from_raw(sig: i32) -> (r: Option<Self>) {
        if sig == 0 {
            None
        } else {
            Self::from_raw_nonzero(sig)
        }
    }

    fn from_raw_nonzero(sig: i32) -> (r: Option<Self>) {
        let p = host::current_platform();
        let bounds = host::rt_bounds();
        from_raw_in(&p, bounds.0, bounds.1, sig)
    }
}

} // verus!
