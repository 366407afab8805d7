use sdk_provision::descriptor::SdkDescriptor;
use sdk_provision::errors::ProvisionError;
use sdk_provision::platform::PlatformKey;
use sdk_provision::provision::{
    check_sdk_root, finish_download, finish_extract, resolve_plan, CacheState, ProvisionPlan,
};

fn linux_descriptor() -> SdkDescriptor {
    SdkDescriptor { major: 20, minor: 0, platform_key: PlatformKey::Linux }
}

// Mirrors what running a plan's actions to completion leaves in the cache.
fn run_plan(cache: CacheState, plan: &ProvisionPlan) -> CacheState {
    match plan {
        ProvisionPlan::UseOverride { .. } => cache,
        ProvisionPlan::FromCache { download_uri, extract, .. } => CacheState {
            archive_present: cache.archive_present || download_uri.is_some(),
            marker_present: cache.marker_present || *extract,
        },
    }
}

fn plan_counts(plan: &ProvisionPlan) -> (usize, usize) {
    match plan {
        ProvisionPlan::UseOverride { .. } => (0, 0),
        ProvisionPlan::FromCache { download_uri, extract, .. } => (
            if download_uri.is_some() { 1 } else { 0 },
            if *extract { 1 } else { 0 },
        ),
    }
}

fn plan_root(plan: &ProvisionPlan) -> &str {
    match plan {
        ProvisionPlan::UseOverride { root } => root,
        ProvisionPlan::FromCache { location, .. } => &location.cache_root,
    }
}

#[test]
fn empty_cache_downloads_and_extracts_once() {
    let d = linux_descriptor();
    let empty = CacheState { archive_present: false, marker_present: false };
    let plan = resolve_plan(&d, None, String::from("/cache/wasi-sdk"), empty);
    match &plan {
        ProvisionPlan::FromCache { location, download_uri, extract } => {
            assert_eq!(location.cache_root, "/cache/wasi-sdk");
            assert_eq!(location.archive_filename, "wasi-sdk-20-0.tar.gz");
            assert_eq!(
                download_uri.as_deref(),
                Some(
                    "https://github.com/WebAssembly/wasi-sdk/releases/download/wasi-sdk-20/wasi-sdk-20.0-linux.tar.gz"
                )
            );
            assert!(*extract);
        }
        ProvisionPlan::UseOverride { .. } => panic!("expected a cache-based plan"),
    }
}

#[test]
fn repeated_provisioning_is_idempotent() {
    let d = linux_descriptor();
    let empty = CacheState { archive_present: false, marker_present: false };
    let first = resolve_plan(&d, None, String::from("/cache/wasi-sdk"), empty);
    assert_eq!(plan_counts(&first), (1, 1));
    assert_eq!(plan_root(&first), "/cache/wasi-sdk");

    let after_first = run_plan(empty, &first);
    let second = resolve_plan(&d, None, String::from("/cache/wasi-sdk"), after_first);
    assert_eq!(plan_counts(&second), (0, 0));
    assert_eq!(plan_root(&second), "/cache/wasi-sdk");

    let after_second = run_plan(after_first, &second);
    let third = resolve_plan(&d, None, String::from("/cache/wasi-sdk"), after_second);
    assert_eq!(plan_counts(&third), (0, 0));
    assert_eq!(plan_root(&third), "/cache/wasi-sdk");
}

#[test]
fn present_archive_skips_the_download_only() {
    let d = linux_descriptor();
    let cache = CacheState { archive_present: true, marker_present: false };
    let plan = resolve_plan(&d, None, String::from("/cache/wasi-sdk"), cache);
    assert_eq!(plan_counts(&plan), (0, 1));
}

#[test]
fn present_marker_skips_the_extraction_only() {
    let d = linux_descriptor();
    let cache = CacheState { archive_present: false, marker_present: true };
    let plan = resolve_plan(&d, None, String::from("/cache/wasi-sdk"), cache);
    assert_eq!(plan_counts(&plan), (1, 0));
}

#[test]
fn explicit_override_bypasses_acquisition() {
    let d = linux_descriptor();
    let empty = CacheState { archive_present: false, marker_present: false };
    let plan = resolve_plan(
        &d,
        Some(String::from("/opt/toolchains/wasi-sdk")),
        String::from("/cache/wasi-sdk"),
        empty,
    );
    assert_eq!(plan_counts(&plan), (0, 0));
    assert_eq!(plan_root(&plan), "/opt/toolchains/wasi-sdk");
    assert!(matches!(plan, ProvisionPlan::UseOverride { .. }));
}

#[test]
fn failed_transfer_is_fatal() {
    assert_eq!(finish_download(false), Err(ProvisionError::DownloadFailed));
    assert_eq!(finish_download(true), Ok(()));
}

#[test]
fn failed_unpack_is_fatal() {
    assert_eq!(finish_extract(false), Err(ProvisionError::ExtractionFailed));
    assert_eq!(finish_extract(true), Ok(()));
}

#[test]
fn missing_root_is_a_filesystem_error() {
    assert_eq!(
        check_sdk_root(String::from("/nowhere"), false),
        Err(ProvisionError::FilesystemError)
    );
    assert_eq!(
        check_sdk_root(String::from("/cache/wasi-sdk"), true),
        Ok(String::from("/cache/wasi-sdk"))
    );
}
