use vstd::prelude::*;

use crate::descriptor::{archive_filename, archive_filename_spec, download_uri, download_uri_spec,
    SdkDescriptor};
use crate::errors::ProvisionError;

verus! {

/// What the provisioner can observe of the cache before acting: whether the
/// archive file already sits at its location, and whether the extraction
/// marker (a known executable under `bin/`) is already present. Presence is
/// the sole witness used — contents are never inspected.
#[derive(Clone, Copy, PartialEq, Eq, Structural, Debug)]
pub struct CacheState {
    pub archive_present: bool,
    pub marker_present: bool,
}

/// A cache nothing has touched yet.
pub open spec fn empty_cache() -> CacheState {
    CacheState { archive_present: false, marker_present: false }
}

/// Where the archive for a release lives in the cache: a deterministic
/// function of the descriptor and the cache directory. The filename encodes
/// the major and minor version, so distinct releases never collide.
pub struct ArchiveLocation {
    pub cache_root: String,
    pub archive_filename: String,
}

/// Computes the cache location of a release's archive.
pub fn archive_location(descriptor: &SdkDescriptor, cache_root: String) -> (loc: ArchiveLocation)
    ensures
        loc.cache_root@ == cache_root@,
        loc.archive_filename@ == archive_filename_spec(
            descriptor.major as nat,
            descriptor.minor as nat,
        ),
{
    let filename = archive_filename(descriptor);
    ArchiveLocation { cache_root, archive_filename: filename }
}

/// What one provisioning run decides to do.
///
/// With an explicit override the run uses the given root verbatim and does
/// nothing else. Otherwise it works under the cache root: it downloads the
/// archive only when the archive is absent (the plan then carries the URI to
/// fetch), and extracts only when the marker is absent.
pub enum ProvisionPlan {
    UseOverride { root: String },
    FromCache {
        location: ArchiveLocation,
        download_uri: Option<String>,
        extract: bool,
    },
}

/// The abstract content of a plan: how many downloads and extractions it
/// performs, and which root it returns.
pub ghost struct PlanView {
    pub downloads: nat,
    pub extracts: nat,
    pub root: Seq<char>,
}

impl View for ProvisionPlan {
    type V = PlanView;

    open spec fn view(&self) -> PlanView {
        match self {
            ProvisionPlan::UseOverride { root } => PlanView {
                downloads: 0,
                extracts: 0,
                root: root@,
            },
            ProvisionPlan::FromCache { location, download_uri, extract } => PlanView {
                downloads: if download_uri is Some { 1 as nat } else { 0 },
                extracts: if *extract { 1 as nat } else { 0 },
                root: location.cache_root@,
            },
        }
    }
}

/// The plan a provisioning run makes from its inputs.
pub open spec fn plan_view(
    explicit_override: Option<Seq<char>>,
    cache_root: Seq<char>,
    cache: CacheState,
) -> PlanView {
    match explicit_override {
        Some(path) => PlanView { downloads: 0, extracts: 0, root: path },
        None => PlanView {
            downloads: if cache.archive_present { 0 as nat } else { 1 as nat },
            extracts: if cache.marker_present { 0 as nat } else { 1 as nat },
            root: cache_root,
        },
    }
}

/// The cache after a plan's actions ran to completion: a performed download
/// leaves the archive present, a performed extraction leaves the marker
/// present, and nothing is ever removed.
pub open spec fn apply_plan(cache: CacheState, plan: PlanView) -> CacheState {
    CacheState {
        archive_present: cache.archive_present || plan.downloads >= 1,
        marker_present: cache.marker_present || plan.extracts >= 1,
    }
}

/// The view of an optional override path.
pub open spec fn path_option_view(path: Option<String>) -> Option<Seq<char>> {
    match path {
        Some(p) => Some(p@),
        None => None,
    }
}

/// Decides what one provisioning run does, without touching anything.
///
/// With an override, the run adopts that root verbatim and skips every other
/// step. Otherwise the decision is keyed on what the cache already holds:
/// the archive is downloaded only when absent, and the tree extracted only
/// when the marker is absent; the returned root is the cache root either
/// way.
pub fn resolve_plan(
    descriptor: &SdkDescriptor,
    explicit_override: Option<String>,
    cache_root: String,
    cache: CacheState,
) -> (plan: ProvisionPlan)
    ensures
        plan@ == plan_view(path_option_view(explicit_override), cache_root@, cache),
        (explicit_override matches Some(p) ==> plan matches ProvisionPlan::UseOverride {
            root,
        } && root@ == p@),
        (explicit_override is None ==> (plan matches ProvisionPlan::FromCache {
            location,
            download_uri,
            extract,
        } && location.cache_root@ == cache_root@ && location.archive_filename@
            == archive_filename_spec(descriptor.major as nat, descriptor.minor as nat) && (
        cache.archive_present ==> download_uri is None) && (!cache.archive_present ==> (
        download_uri matches Some(uri) && uri@ == download_uri_spec(
            descriptor.major as nat,
            descriptor.minor as nat,
            descriptor.platform_key,
        ))) && extract == !cache.marker_present)),
{
    match explicit_override {
        Some(root) => ProvisionPlan::UseOverride { root },
        None => {
            let location = archive_location(descriptor, cache_root);
            let uri = if cache.archive_present {
                None
            } else {
                Some(download_uri(descriptor))
            };
            ProvisionPlan::FromCache {
                location,
                download_uri: uri,
                extract: !cache.marker_present,
            }
        },
    }
}

/// Turns the observed outcome of the archive transfer into the provisioner's
/// result: anything short of success is fatal, with no retry.
pub fn finish_download(transfer_success: bool) -> (r: Result<(), ProvisionError>)
    ensures
        transfer_success <==> r is Ok,
        !transfer_success ==> r == Err::<(), ProvisionError>(ProvisionError::DownloadFailed),
{
    if transfer_success {
        Ok(())
    } else {
        Err(ProvisionError::DownloadFailed)
    }
}

/// Turns the observed outcome of unpacking the archive into the
/// provisioner's result: a non-zero unpack status is fatal.
pub fn finish_extract(unpack_success: bool) -> (r: Result<(), ProvisionError>)
    ensures
        unpack_success <==> r is Ok,
        !unpack_success ==> r == Err::<(), ProvisionError>(ProvisionError::ExtractionFailed),
{
    if unpack_success {
        Ok(())
    } else {
        Err(ProvisionError::ExtractionFailed)
    }
}

/// The existence check an SDK root gets at the call site: a root that is not
/// there is a filesystem failure; one that is there is returned unchanged.
pub fn check_sdk_root(root: String, root_exists: bool) -> (r: Result<String, ProvisionError>)
    ensures
        root_exists ==> (r matches Ok(p) && p@ == root@),
        !root_exists ==> r == Err::<String, ProvisionError>(ProvisionError::FilesystemError),
{
    if root_exists {
        Ok(root)
    } else {
        Err(ProvisionError::FilesystemError)
    }
}

/// An explicit override bypasses acquisition entirely: the plan performs no
/// download and no extraction, whatever the cache holds, and returns the
/// override path unchanged.
pub proof fn lemma_override_bypasses_acquisition(
    path: Seq<char>,
    cache_root: Seq<char>,
    cache: CacheState,
)
    ensures
        plan_view(Some(path), cache_root, cache).downloads == 0,
        plan_view(Some(path), cache_root, cache).extracts == 0,
        plan_view(Some(path), cache_root, cache).root == path,
{
}

/// Once a run's actions have completed, planning again under the same cache
/// root decides on no download and no extraction and returns the same root.
pub proof fn lemma_replan_after_apply(cache_root: Seq<char>, cache: CacheState)
    ensures
        plan_view(None, cache_root, apply_plan(cache, plan_view(None, cache_root, cache)))
            .downloads == 0,
        plan_view(None, cache_root, apply_plan(cache, plan_view(None, cache_root, cache)))
            .extracts == 0,
        plan_view(None, cache_root, apply_plan(cache, plan_view(None, cache_root, cache))).root
            == cache_root,
{
}

/// Provisioning is idempotent. From an empty cache the first run performs
/// exactly one download and one extraction; a second run right after it
/// performs zero of each; and a third run against the now-populated cache
/// still performs zero of each. Every run returns the same root.
pub proof fn lemma_provision_idempotent(cache_root: Seq<char>)
    ensures
        ({
            let first = plan_view(None, cache_root, empty_cache());
            let after_first = apply_plan(empty_cache(), first);
            let second = plan_view(None, cache_root, after_first);
            let after_second = apply_plan(after_first, second);
            let third = plan_view(None, cache_root, after_second);
            first.downloads == 1 && first.extracts == 1 && second.downloads == 0
                && second.extracts == 0 && third.downloads == 0 && third.extracts == 0
                && first.root == cache_root && second.root == cache_root && third.root
                == cache_root
        }),
{
}

} // verus!
