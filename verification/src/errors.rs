use vstd::prelude::*;

verus! {

/// Failure modes of the toolchain provisioner. Every one of them is
/// terminal: the flow never retries or continues past a failed step.
#[derive(Clone, Copy, PartialEq, Eq, Structural, Debug)]
pub enum ProvisionError {
    /// The host (OS, architecture) pair has no platform key.
    UnsupportedPlatform,
    /// The archive transfer ended without success.
    DownloadFailed,
    /// Unpacking the archive ended with a non-zero status.
    ExtractionFailed,
    /// A path or permission failure while touching the cache.
    FilesystemError,
}

/// Failure modes of the build configurator. Both abort the whole flow:
/// no partial artifact is usable.
#[derive(Clone, Copy, PartialEq, Eq, Structural, Debug)]
pub enum ConfigureError {
    /// The binding generator produced no bindings.
    BindingGenerationFailed,
    /// The C compiler did not produce the static archive.
    CompilationFailed,
}

} // verus!
