//! Platform classification.
//!
//! A build target is reduced, once, to a small set of categorical facts:
//! whether it is Apple-family, FreeBSD-like, NetBSD-like, Solaris-like,
//! Linux-kernel-based, and so on. The signal mapper reads only these facts
//! (plus the processor family on Linux), never the target name itself.

use vstd::prelude::*;
use vstd::string::StrSliceExecFns;

verus! {

/// Operating systems whose C-library signal layout this crate models.
#[derive(Clone, Copy, PartialEq, Eq, Structural, Debug)]
pub enum Os {
    Linux,
    Android,
    Emscripten,
    Macos,
    Ios,
    Tvos,
    Watchos,
    Visionos,
    Freebsd,
    Dragonfly,
    Netbsd,
    Openbsd,
    Illumos,
    Solaris,
    Hurd,
    Vita,
}

/// Processor families that change the Linux signal numbering; every other
/// processor uses the generic layout.
#[derive(Clone, Copy, PartialEq, Eq, Structural, Debug)]
pub enum Arch {
    Mips,
    Sparc,
    Other,
}

/// A build target: the facts about it that signal classification reads.
#[derive(Clone, Copy, PartialEq, Eq, Structural, Debug)]
pub struct Platform {
    pub os: Os,
    pub arch: Arch,
}

/// Apple-family targets.
pub open spec fn spec_apple_family(os: Os) -> bool {
    os == Os::Macos || os == Os::Ios || os == Os::Tvos || os == Os::Watchos || os
        == Os::Visionos
}

/// FreeBSD-like targets.
pub open spec fn spec_freebsd_like(os: Os) -> bool {
    os == Os::Freebsd || os == Os::Dragonfly
}

/// NetBSD-like targets.
pub open spec fn spec_netbsd_like(os: Os) -> bool {
    os == Os::Netbsd || os == Os::Openbsd
}

/// BSD-family targets: the union of the Apple, FreeBSD-like and NetBSD-like
/// families.
pub open spec fn spec_bsd_family(os: Os) -> bool {
    spec_apple_family(os) || spec_freebsd_like(os) || spec_netbsd_like(os)
}

/// Targets running a Linux kernel.
pub open spec fn spec_linux_kernel(os: Os) -> bool {
    os == Os::Linux || os == Os::Android
}

/// Targets with a Linux-shaped C library interface.
pub open spec fn spec_linux_like(os: Os) -> bool {
    spec_linux_kernel(os) || os == Os::Emscripten
}

/// Solaris-like targets.
pub open spec fn spec_solaris_like(os: Os) -> bool {
    os == Os::Illumos || os == Os::Solaris
}

/// Targets whose C library advertises a real-time signal window.
pub open spec fn spec_has_realtime(os: Os) -> bool {
    spec_linux_like(os) || spec_solaris_like(os) || os == Os::Hurd
}

/// The operating system a target identifier names, if the crate models it.
pub open spec fn spec_os_from_name(name: Seq<char>) -> Option<Os> {
    if name == "linux"@ {
        Some(Os::Linux)
    } else if name == "android"@ {
        Some(Os::Android)
    } else if name == "emscripten"@ {
        Some(Os::Emscripten)
    } else if name == "macos"@ {
        Some(Os::Macos)
    } else if name == "ios"@ {
        Some(Os::Ios)
    } else if name == "tvos"@ {
        Some(Os::Tvos)
    } else if name == "watchos"@ {
        Some(Os::Watchos)
    } else if name == "visionos"@ {
        Some(Os::Visionos)
    } else if name == "freebsd"@ {
        Some(Os::Freebsd)
    } else if name == "dragonfly"@ {
        Some(Os::Dragonfly)
    } else if name == "netbsd"@ {
        Some(Os::Netbsd)
    } else if name == "openbsd"@ {
        Some(Os::Openbsd)
    } else if name == "illumos"@ {
        Some(Os::Illumos)
    } else if name == "solaris"@ {
        Some(Os::Solaris)
    } else if name == "hurd"@ {
        Some(Os::Hurd)
    } else if name == "vita"@ {
        Some(Os::Vita)
    } else {
        None
    }
}

/// The processor family a target identifier names; everything not in the
/// MIPS or SPARC families uses the generic numbering.
pub open spec fn spec_arch_from_name(name: Seq<char>) -> Arch {
    if name == "mips"@ || name == "mips32r6"@ || name == "mips64"@ || name == "mips64r6"@ {
        Arch::Mips
    } else if name == "sparc"@ || name == "sparc64"@ {
        Arch::Sparc
    } else {
        Arch::Other
    }
}

/// Character-for-character equality of two strings.
fn str_eq(a: &str, b: &str) -> (r: bool)
    ensures
        r <==> a@ == b@,
{
    let alen: usize = a.unicode_len();
    let blen: usize = b.unicode_len();
    if alen != blen {
        return false;
    }
    let mut i: usize = 0;
    while i < alen
        invariant
            0 <= i <= alen,
            alen == a@.len(),
            alen == b@.len(),
            forall|j: int| 0 <= j < i ==> a@[j] == b@[j],
        decreases alen - i,
    {
        if a.get_char(i) != b.get_char(i) {
            return false;
        }
        i = i + 1;
    }
    proof {
        assert(a@ =~= b@);
    }
    true
}

/// Recognize a target operating-system identifier. An identifier the crate
/// does not model yields nothing; that is not a fault, it only means no
/// category holds of it.
pub fn os_from_name(name: &str) -> (r: Option<Os>)
    ensures
        r == spec_os_from_name(name@),
{
    if str_eq(name, "linux") {
        Some(Os::Linux)
    } else if str_eq(name, "android") {
        Some(Os::Android)
    } else if str_eq(name, "emscripten") {
        Some(Os::Emscripten)
    } else if str_eq(name, "macos") {
        Some(Os::Macos)
    } else if str_eq(name, "ios") {
        Some(Os::Ios)
    } else if str_eq(name, "tvos") {
        Some(Os::Tvos)
    } else if str_eq(name, "watchos") {
        Some(Os::Watchos)
    } else if str_eq(name, "visionos") {
        Some(Os::Visionos)
    } else if str_eq(name, "freebsd") {
        Some(Os::Freebsd)
    } else if str_eq(name, "dragonfly") {
        Some(Os::Dragonfly)
    } else if str_eq(name, "netbsd") {
        Some(Os::Netbsd)
    } else if str_eq(name, "openbsd") {
        Some(Os::Openbsd)
    } else if str_eq(name, "illumos") {
        Some(Os::Illumos)
    } else if str_eq(name, "solaris") {
        Some(Os::Solaris)
    } else if str_eq(name, "hurd") {
        Some(Os::Hurd)
    } else if str_eq(name, "vita") {
        Some(Os::Vita)
    } else {
        None
    }
}

/// Recognize a target processor identifier.
pub fn arch_from_name(name: &str) -> (r: Arch)
    ensures
        r == spec_arch_from_name(name@),
{
    if str_eq(name, "mips") || str_eq(name, "mips32r6") || str_eq(name, "mips64") || str_eq(
        name,
        "mips64r6",
    ) {
        Arch::Mips
    } else if str_eq(name, "sparc") || str_eq(name, "sparc64") {
        Arch::Sparc
    } else {
        Arch::Other
    }
}

pub fn apple_family(os: Os) -> (r: bool)
    ensures
        r == spec_apple_family(os),
{
    os == Os::Macos || os == Os::Ios || os == Os::Tvos || os == Os::Watchos || os
        == Os::Visionos
}

pub fn freebsd_like(os: Os) -> (r: bool)
    ensures
        r == spec_freebsd_like(os),
{
    os == Os::Freebsd || os == Os::Dragonfly
}

pub fn netbsd_like(os: Os) -> (r: bool)
    ensures
        r == spec_netbsd_like(os),
{
    os == Os::Netbsd || os == Os::Openbsd
}

pub fn bsd_family(os: Os) -> (r: bool)
    ensures
        r == spec_bsd_family(os),
{
    apple_family(os) || freebsd_like(os) || netbsd_like(os)
}

pub fn linux_kernel(os: Os) -> (r: bool)
    ensures
        r == spec_linux_kernel(os),
{
    os == Os::Linux || os == Os::Android
}

pub fn linux_like(os: Os) -> (r: bool)
    ensures
        r == spec_linux_like(os),
{
    linux_kernel(os) || os == Os::Emscripten
}

pub fn solaris_like(os: Os) -> (r: bool)
    ensures
        r == spec_solaris_like(os),
{
    os == Os::Illumos || os == Os::Solaris
}

pub fn has_realtime(os: Os) -> (r: bool)
    ensures
        r == spec_has_realtime(os),
{
    linux_like(os) || solaris_like(os) || os == Os::Hurd
}

/// The categorical facts derived from one target identifier. A target may
/// satisfy several at once, and an unrecognized target satisfies none.
#[derive(Clone, Copy, PartialEq, Eq, Structural, Debug)]
pub struct Categories {
    pub freebsd_like: bool,
    pub netbsd_like: bool,
    pub apple_family: bool,
    pub linux_like: bool,
    pub solaris_like: bool,
    pub bsd_family: bool,
    pub linux_kernel: bool,
}

/// The categories of a recognized operating system, or none at all.
pub open spec fn spec_categories_of(os: Option<Os>) -> Categories {
    match os {
        Some(o) => Categories {
            freebsd_like: spec_freebsd_like(o),
            netbsd_like: spec_netbsd_like(o),
            apple_family: spec_apple_family(o),
            linux_like: spec_linux_like(o),
            solaris_like: spec_solaris_like(o),
            bsd_family: spec_bsd_family(o),
            linux_kernel: spec_linux_kernel(o),
        },
        None => Categories {
            freebsd_like: false,
            netbsd_like: false,
            apple_family: false,
            linux_like: false,
            solaris_like: false,
            bsd_family: false,
            linux_kernel: false,
        },
    }
}

/// Derive every category of a target operating-system identifier at once.
pub fn categories_of_target(name: &str) -> (c: Categories)
    ensures
        c == spec_categories_of(spec_os_from_name(name@)),
{
    match os_from_name(name) {
        Some(o) => Categories {
            freebsd_like: freebsd_like(o),
            netbsd_like: netbsd_like(o),
            apple_family: apple_family(o),
            linux_like: linux_like(o),
            solaris_like: solaris_like(o),
            bsd_family: bsd_family(o),
            linux_kernel: linux_kernel(o),
        },
        None => Categories {
            freebsd_like: false,
            netbsd_like: false,
            apple_family: false,
            linux_like: false,
            solaris_like: false,
            bsd_family: false,
            linux_kernel: false,
        },
    }
}

/// The BSD family is exactly the union of the Apple, FreeBSD-like and
/// NetBSD-like families, on every operating system.
pub proof fn lemma_bsd_family_union(os: Os)
    ensures
        spec_bsd_family(os) <==> spec_apple_family(os) || spec_freebsd_like(os)
            || spec_netbsd_like(os),
{
}

/// Derived categories are consistent: the BSD-family flag of any derived
/// category set is the union of its three constituent flags, and the
/// Linux-kernel flag always implies the Linux-like flag.
pub proof fn lemma_categories_consistent(os: Option<Os>)
    ensures
        spec_categories_of(os).bsd_family <==> spec_categories_of(os).apple_family
            || spec_categories_of(os).freebsd_like || spec_categories_of(os).netbsd_like,
        spec_categories_of(os).linux_kernel ==> spec_categories_of(os).linux_like,
{
}

} // verus!
