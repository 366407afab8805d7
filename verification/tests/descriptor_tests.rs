use sdk_provision::descriptor::{
    archive_filename, decimal_string, default_descriptor, download_uri, platform_key_name,
    SdkDescriptor, DEFAULT_SDK_MAJOR, DEFAULT_SDK_MINOR,
};
use sdk_provision::platform::PlatformKey;

#[test]
fn decimal_rendering_matches_usual_notation() {
    assert_eq!(decimal_string(0), "0");
    assert_eq!(decimal_string(7), "7");
    assert_eq!(decimal_string(10), "10");
    assert_eq!(decimal_string(20), "20");
    assert_eq!(decimal_string(123456), "123456");
    assert_eq!(decimal_string(u32::MAX), "4294967295");
}

#[test]
fn default_descriptor_pins_the_release() {
    let d = default_descriptor(PlatformKey::Linux);
    assert_eq!(d.major, 20);
    assert_eq!(d.minor, 0);
    assert_eq!(d.major, DEFAULT_SDK_MAJOR);
    assert_eq!(d.minor, DEFAULT_SDK_MINOR);
    assert_eq!(d.platform_key, PlatformKey::Linux);
}

#[test]
fn archive_filename_encodes_major_and_minor() {
    let d = SdkDescriptor { major: 20, minor: 0, platform_key: PlatformKey::Linux };
    assert_eq!(archive_filename(&d), "wasi-sdk-20-0.tar.gz");
}

#[test]
fn archive_filenames_of_distinct_releases_differ() {
    let pairs: [(u32, u32); 6] = [(20, 0), (20, 1), (19, 0), (2, 0), (2, 10), (21, 0)];
    for (i, a) in pairs.iter().enumerate() {
        for (j, b) in pairs.iter().enumerate() {
            let da = SdkDescriptor { major: a.0, minor: a.1, platform_key: PlatformKey::Linux };
            let db = SdkDescriptor { major: b.0, minor: b.1, platform_key: PlatformKey::Linux };
            if i == j {
                assert_eq!(archive_filename(&da), archive_filename(&db));
            } else {
                assert_ne!(archive_filename(&da), archive_filename(&db));
            }
        }
    }
}

#[test]
fn platform_key_names_match_release_names() {
    assert_eq!(platform_key_name(PlatformKey::Linux), "linux");
    assert_eq!(platform_key_name(PlatformKey::Macos), "macos");
    assert_eq!(platform_key_name(PlatformKey::MingwX86), "mingw-x86");
    assert_eq!(platform_key_name(PlatformKey::Mingw), "mingw");
}

#[test]
fn download_uri_is_versioned_and_platform_specific() {
    let d = SdkDescriptor { major: 20, minor: 0, platform_key: PlatformKey::Linux };
    assert_eq!(
        download_uri(&d),
        "https://github.com/WebAssembly/wasi-sdk/releases/download/wasi-sdk-20/wasi-sdk-20.0-linux.tar.gz"
    );
    let m = SdkDescriptor { major: 19, minor: 3, platform_key: PlatformKey::MingwX86 };
    assert_eq!(
        download_uri(&m),
        "https://github.com/WebAssembly/wasi-sdk/releases/download/wasi-sdk-19/wasi-sdk-19.3-mingw-x86.tar.gz"
    );
}
