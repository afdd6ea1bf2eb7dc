//! The platform classifier: target identifiers to category flags.

use sigid::platform::{arch_from_name, categories_of_target, os_from_name, Arch, Os};

#[test]
fn recognizes_operating_systems() {
    assert_eq!(os_from_name("linux"), Some(Os::Linux));
    assert_eq!(os_from_name("android"), Some(Os::Android));
    assert_eq!(os_from_name("emscripten"), Some(Os::Emscripten));
    assert_eq!(os_from_name("macos"), Some(Os::Macos));
    assert_eq!(os_from_name("ios"), Some(Os::Ios));
    assert_eq!(os_from_name("tvos"), Some(Os::Tvos));
    assert_eq!(os_from_name("watchos"), Some(Os::Watchos));
    assert_eq!(os_from_name("visionos"), Some(Os::Visionos));
    assert_eq!(os_from_name("freebsd"), Some(Os::Freebsd));
    assert_eq!(os_from_name("dragonfly"), Some(Os::Dragonfly));
    assert_eq!(os_from_name("netbsd"), Some(Os::Netbsd));
    assert_eq!(os_from_name("openbsd"), Some(Os::Openbsd));
    assert_eq!(os_from_name("illumos"), Some(Os::Illumos));
    assert_eq!(os_from_name("solaris"), Some(Os::Solaris));
    assert_eq!(os_from_name("hurd"), Some(Os::Hurd));
    assert_eq!(os_from_name("vita"), Some(Os::Vita));
    assert_eq!(os_from_name("plan9"), None);
    assert_eq!(os_from_name(""), None);
    assert_eq!(os_from_name("Linux"), None);
}

#[test]
fn recognizes_processor_families() {
    assert_eq!(arch_from_name("mips"), Arch::Mips);
    assert_eq!(arch_from_name("mips64r6"), Arch::Mips);
    assert_eq!(arch_from_name("sparc64"), Arch::Sparc);
    assert_eq!(arch_from_name("x86_64"), Arch::Other);
    assert_eq!(arch_from_name("aarch64"), Arch::Other);
}

#[test]
fn categories_hold_together() {
    let macos = categories_of_target("macos");
    assert!(macos.apple_family);
    assert!(macos.bsd_family);
    assert!(!macos.freebsd_like);
    assert!(!macos.netbsd_like);
    assert!(!macos.linux_like);
    assert!(!macos.linux_kernel);
    assert!(!macos.solaris_like);

    let android = categories_of_target("android");
    assert!(android.linux_kernel);
    assert!(android.linux_like);
    assert!(!android.bsd_family);

    let emscripten = categories_of_target("emscripten");
    assert!(emscripten.linux_like);
    assert!(!emscripten.linux_kernel);

    let dragonfly = categories_of_target("dragonfly");
    assert!(dragonfly.freebsd_like);
    assert!(dragonfly.bsd_family);
    assert!(!dragonfly.apple_family);

    let illumos = categories_of_target("illumos");
    assert!(illumos.solaris_like);
    assert!(!illumos.bsd_family);
}

#[test]
fn unrecognized_target_yields_no_categories() {
    let none = categories_of_target("multics");
    assert!(!none.freebsd_like);
    assert!(!none.netbsd_like);
    assert!(!none.apple_family);
    assert!(!none.linux_like);
    assert!(!none.solaris_like);
    assert!(!none.bsd_family);
    assert!(!none.linux_kernel);
}
