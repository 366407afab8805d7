use sdk_provision::errors::ProvisionError;
use sdk_provision::platform::{resolve_platform_key, HostArch, HostOs, PlatformKey};

#[test]
fn linux_hosts_resolve_to_linux() {
    assert_eq!(
        resolve_platform_key(HostOs::Linux, HostArch::X86),
        Ok(PlatformKey::Linux)
    );
    assert_eq!(
        resolve_platform_key(HostOs::Linux, HostArch::X86_64),
        Ok(PlatformKey::Linux)
    );
}

#[test]
fn macos_hosts_resolve_to_macos() {
    assert_eq!(
        resolve_platform_key(HostOs::Macos, HostArch::X86),
        Ok(PlatformKey::Macos)
    );
    assert_eq!(
        resolve_platform_key(HostOs::Macos, HostArch::X86_64),
        Ok(PlatformKey::Macos)
    );
    assert_eq!(
        resolve_platform_key(HostOs::Macos, HostArch::Aarch64),
        Ok(PlatformKey::Macos)
    );
}

#[test]
fn windows_hosts_resolve_to_mingw_variants() {
    assert_eq!(
        resolve_platform_key(HostOs::Windows, HostArch::X86),
        Ok(PlatformKey::MingwX86)
    );
    assert_eq!(
        resolve_platform_key(HostOs::Windows, HostArch::X86_64),
        Ok(PlatformKey::Mingw)
    );
}

#[test]
fn unsupported_hosts_fail_with_unsupported_platform() {
    assert_eq!(
        resolve_platform_key(HostOs::Linux, HostArch::Aarch64),
        Err(ProvisionError::UnsupportedPlatform)
    );
    assert_eq!(
        resolve_platform_key(HostOs::Windows, HostArch::Aarch64),
        Err(ProvisionError::UnsupportedPlatform)
    );
    assert_eq!(
        resolve_platform_key(HostOs::Other, HostArch::X86_64),
        Err(ProvisionError::UnsupportedPlatform)
    );
    assert_eq!(
        resolve_platform_key(HostOs::Linux, HostArch::Other),
        Err(ProvisionError::UnsupportedPlatform)
    );
    assert_eq!(
        resolve_platform_key(HostOs::Other, HostArch::Other),
        Err(ProvisionError::UnsupportedPlatform)
    );
}

#[test]
fn resolution_is_deterministic() {
    let first = resolve_platform_key(HostOs::Linux, HostArch::X86_64);
    let second = resolve_platform_key(HostOs::Linux, HostArch::X86_64);
    assert_eq!(first, second);
}
