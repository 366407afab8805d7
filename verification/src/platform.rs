use vstd::prelude::*;

use crate::errors::ProvisionError;

verus! {

/// The operating system of the running host, as far as platform dispatch
/// cares about it.
#[derive(Clone, Copy, PartialEq, Eq, Structural, Debug)]
pub enum HostOs {
    Linux,
    Macos,
    Windows,
    Other,
}

/// The processor architecture of the running host.
#[derive(Clone, Copy, PartialEq, Eq, Structural, Debug)]
pub enum HostArch {
    X86,
    X86_64,
    Aarch64,
    Other,
}

/// The platform component of an SDK release name. Each supported host pair
/// maps to exactly one of these.
#[derive(Clone, Copy, PartialEq, Eq, Structural, Debug)]
pub enum PlatformKey {
    Linux,
    Macos,
    MingwX86,
    Mingw,
}

/// The host pairs for which an SDK release exists.
pub open spec fn supported_host(os: HostOs, arch: HostArch) -> bool {
    ||| (os == HostOs::Linux && (arch == HostArch::X86 || arch == HostArch::X86_64))
    ||| (os == HostOs::Macos && (arch == HostArch::X86 || arch == HostArch::X86_64
            || arch == HostArch::Aarch64))
    ||| (os == HostOs::Windows && (arch == HostArch::X86 || arch == HostArch::X86_64))
}

/// The platform key a host pair resolves to, or `None` when the pair is
/// unsupported.
pub open spec fn platform_key_of(os: HostOs, arch: HostArch) -> Option<PlatformKey> {
    match (os, arch) {
        (HostOs::Linux, HostArch::X86) => Some(PlatformKey::Linux),
        (HostOs::Linux, HostArch::X86_64) => Some(PlatformKey::Linux),
        (HostOs::Macos, HostArch::X86) => Some(PlatformKey::Macos),
        (HostOs::Macos, HostArch::X86_64) => Some(PlatformKey::Macos),
        (HostOs::Macos, HostArch::Aarch64) => Some(PlatformKey::Macos),
        (HostOs::Windows, HostArch::X86) => Some(PlatformKey::MingwX86),
        (HostOs::Windows, HostArch::X86_64) => Some(PlatformKey::Mingw),
        _ => None,
    }
}

/// Resolves the platform key for a host pair. This is the very first step of
/// provisioning and runs before any filesystem or network access: an
/// unsupported pair fails here and nowhere later.
pub fn resolve_platform_key(os: HostOs, arch: HostArch) -> (r: Result<PlatformKey, ProvisionError>)
    ensures
        r == (match platform_key_of(os, arch) {
            Some(k) => Ok::<PlatformKey, ProvisionError>(k),
            None => Err::<PlatformKey, ProvisionError>(ProvisionError::UnsupportedPlatform),
        }),
{
    match (os, arch) {
        (HostOs::Linux, HostArch::X86) => Ok(PlatformKey::Linux),
        (HostOs::Linux, HostArch::X86_64) => Ok(PlatformKey::Linux),
        (HostOs::Macos, HostArch::X86) => Ok(PlatformKey::Macos),
        (HostOs::Macos, HostArch::X86_64) => Ok(PlatformKey::Macos),
        (HostOs::Macos, HostArch::Aarch64) => Ok(PlatformKey::Macos),
        (HostOs::Windows, HostArch::X86) => Ok(PlatformKey::MingwX86),
        (HostOs::Windows, HostArch::X86_64) => Ok(PlatformKey::Mingw),
        _ => Err(ProvisionError::UnsupportedPlatform),
    }
}

/// Platform-key resolution is total on the supported host pairs and fails on
/// exactly the unsupported ones: a pair resolves to a key if and only if it
/// is supported. Determinism comes with it, since `platform_key_of` is a
/// function of the pair alone and `resolve_platform_key` returns its value.
pub proof fn lemma_platform_resolution_total(os: HostOs, arch: HostArch)
    ensures
        supported_host(os, arch) <==> platform_key_of(os, arch) is Some,
{
}

} // verus!
