//! Classification of raw signal numbers.
//!
//! The routines here are pure: they take the platform and the real-time
//! window as arguments, so every law about them holds for every window the C
//! library could advertise. The [`crate::signal_ext`] module applies them to
//! the build target's own window.
//!
//! Classification order: zero is rejected outright, then the named table is
//! consulted, and only then the real-time window. The named table takes
//! precedence so that the mapping stays sound even on a platform whose window
//! overlapped a named entry; on every supported platform the two are in fact
//! disjoint ([`lemma_named_outside_window`]).

use vstd::prelude::*;

use crate::platform::{Platform, spec_has_realtime};
use crate::table::{
    SigName, lemma_named_value_bounds, lemma_table_consistent, lookup_named, sig_value,
    table_lookup,
};
use vstd::wrapping::i32_specs;

verus! {

/// What a raw value turned out to be: a named signal, or a member of the
/// real-time window.
#[derive(Clone, Copy, PartialEq, Eq, Structural, Debug)]
pub enum Class {
    Named(SigName),
    Realtime,
}

/// The raw value `least + n` computes to under wrapping addition, accepted
/// only when it stays inside the window `[least, greatest]`.
pub open spec fn spec_rt(least: i32, greatest: i32, n: i32) -> Option<int> {
    let v = i32_specs::wrapping_add(least, n) as int;
    if least <= v <= greatest {
        Some(v)
    } else {
        None
    }
}

/// Compute a real-time signal number from an offset into a window.
pub fn rt_offset(least: i32, greatest: i32, n: i32) -> (r: Option<i32>)
    ensures
        match r {
            Some(v) => spec_rt(least, greatest, n) == Some(v as int),
            None => spec_rt(least, greatest, n) is None,
        },
{
    let v = least.wrapping_add(n);
    if least <= v && v <= greatest {
        Some(v)
    } else {
        None
    }
}

/// How a raw value classifies on a platform against a real-time window:
/// zero never, a named-table entry as that name, a window member as
/// real-time, anything else not at all.
pub open spec fn spec_classify(p: Platform, least: i32, greatest: i32, raw: i32) -> Option<
    Class,
> {
    if raw == 0 {
        None
    } else {
        match table_lookup(p, raw as int) {
            Some(n) => Some(Class::Named(n)),
            None => if least <= raw <= greatest {
                Some(Class::Realtime)
            } else {
                None
            },
        }
    }
}

/// The central classification routine.
pub fn classify(p: &Platform, least: i32, greatest: i32, raw: i32) -> (r: Option<Class>)
    ensures
        r == spec_classify(*p, least, greatest, raw),
{
    if raw == 0 {
        None
    } else {
        match lookup_named(p, raw) {
            Some(n) => Some(Class::Named(n)),
            None => if least <= raw && raw <= greatest {
                Some(Class::Realtime)
            } else {
                None
            },
        }
    }
}

/// Offset zero always lands on the least window value.
pub proof fn lemma_rt_zero(least: i32, greatest: i32)
    requires
        least <= greatest,
    ensures
        spec_rt(least, greatest, 0) == Some(least as int),
{
}

/// Every offset that stays inside the window yields exactly the least value
/// plus the offset.
pub proof fn lemma_rt_inside(least: i32, greatest: i32, n: i32)
    requires
        0 <= n,
        least + n <= greatest,
    ensures
        spec_rt(least, greatest, n) == Some(least + n),
{
}

/// Every offset that leaves the window, the one-past-the-end offsets
/// included, yields nothing; wrapping in the addition never lands back inside
/// the window.
pub proof fn lemma_rt_outside(least: i32, greatest: i32, n: i32)
    requires
        0 <= least <= greatest,
        n < 0 || n > greatest - least,
    ensures
        spec_rt(least, greatest, n) is None,
{
}

/// A window of at least eight values, as POSIX guarantees, accepts offset
/// seven, and the result differs from the least value; it differs from the
/// greatest value as well whenever the window spans more than eight.
pub proof fn lemma_rt_posix_eighth(least: i32, greatest: i32)
    requires
        0 <= least,
        least + 7 <= greatest,
    ensures
        spec_rt(least, greatest, 7) == Some(least + 7),
        least + 7 != least,
        least + 7 < greatest ==> least + 7 != greatest,
{
}

/// Zero never classifies as a signal, on any platform and against any
/// window.
pub proof fn lemma_zero_rejected(p: Platform, least: i32, greatest: i32)
    ensures
        spec_classify(p, least, greatest, 0) is None,
{
}

/// Every non-zero value inside the window classifies as a signal: as its
/// named entry where the table claims it, as a real-time member otherwise.
pub proof fn lemma_window_member_accepted(p: Platform, least: i32, greatest: i32, raw: i32)
    requires
        raw != 0,
        least <= raw <= greatest,
    ensures
        spec_classify(p, least, greatest, raw) is Some,
{
}

/// Every named entry of a platform's table classifies as exactly its name,
/// whatever the window: the named table takes precedence over window
/// membership.
pub proof fn lemma_named_classified(p: Platform, n: SigName, v: i32, least: i32, greatest: i32)
    requires
        sig_value(p, n) == Some(v as int),
    ensures
        spec_classify(p, least, greatest, v) == Some(Class::Named(n)),
{
    lemma_table_consistent(p, v as int, n);
    lemma_named_value_bounds(p, n);
}

/// On every platform with a real-time concept the named entries lie wholly
/// below the window: the two classes are disjoint whenever the window starts
/// at 32 or above, as the C libraries' windows do.
pub proof fn lemma_named_outside_window(p: Platform, n: SigName, v: i32, least: i32, greatest: i32)
    requires
        spec_has_realtime(p.os),
        sig_value(p, n) == Some(v as int),
        32 <= least,
    ensures
        !(least <= v <= greatest),
{
    lemma_named_value_bounds(p, n);
}

/// On the minimalist embedded platform no raw value classifies as one of the
/// names excluded there, whatever the window: a value that carries an
/// excluded name's usual number on some other platform classifies as a
/// different name, as a plain real-time member, or not at all.
pub proof fn lemma_embedded_never_excluded(p: Platform, least: i32, greatest: i32, raw: i32)
    requires
        p.os == crate::platform::Os::Vita,
    ensures
        spec_classify(p, least, greatest, raw) matches Some(c) ==> (c matches Class::Named(n)
            ==> crate::table::embedded_retains(n)),
{
    crate::table::lemma_embedded_absence(p, raw as int);
}

/// Classification is deterministic: any two results that satisfy the
/// classification contract for the same platform, window and raw value are
/// equal, so converting the same input twice yields equal results.
pub proof fn lemma_classify_deterministic(
    p: Platform,
    least: i32,
    greatest: i32,
    raw: i32,
    r1: Option<Class>,
    r2: Option<Class>,
)
    requires
        r1 == spec_classify(p, least, greatest, raw),
        r2 == spec_classify(p, least, greatest, raw),
    ensures
        r1 == r2,
{
}

} // verus!
