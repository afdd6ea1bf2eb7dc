//! The build target and its C-library queries.
//!
//! Everything the rest of the crate takes on trust about the outside world
//! lives here: the real-time window query, and the construction of
//! process-signal values for named signals.

use vstd::prelude::*;

use crate::platform::{Arch, Os, Platform};
use crate::table::table_lookup;

verus! {

/// The platform this build of the crate targets: a Linux-kernel-based system
/// on a processor with the generic signal numbering.
pub open spec fn host_platform() -> Platform {
    Platform { os: Os::Linux, arch: Arch::Other }
}

/// The build target as a runtime value.
pub fn current_platform() -> (p: Platform)
    ensures
        p == host_platform(),
{
    Platform { os: Os::Linux, arch: Arch::Other }
}

/// The real-time window the C library advertises, as (least, greatest).
///
/// Relies on `libc::SIGRTMIN` and `libc::SIGRTMAX`. The two are queried
/// together because the guarantee that matters relates them: on Linux the
/// kernel's real-time numbers occupy 32 through 64, the C library keeps the
/// lowest few of them for its own use and advertises the rest, and POSIX
/// demands at least eight application real-time signals, so the advertised
/// window lies within [32, 64] and spans at least eight values. The window is
/// queried anew on every use, never cached, since only the library owns it.
#[verifier::external_body]
pub(crate) fn rt_bounds() -> (r: (i32, i32))
    ensures
        32 <= r.0,
        r.0 + 7 <= r.1,
        r.1 <= 64,
{
    (libc::SIGRTMIN(), libc::SIGRTMAX())
}

#[verifier::external_type_specification]
#[verifier::external_body]
pub struct ExProcessSignal(rustix::process::Signal);

/// Relies on `rustix::process::Signal::from_named_raw`: on this build target
/// it recognizes exactly the named-table entries (it matches the argument
/// against the C library's named signal numbers) and never a zero or
/// real-time value.
#[verifier::external_body]
pub(crate) fn named_process_signal(sig: i32) -> (r: Option<rustix::process::Signal>)
    ensures
        r is Some <==> table_lookup(host_platform(), sig as int) is Some,
{
    rustix::process::Signal::from_named_raw(sig)
}

} // verus!
