//! Packaging of WebAssembly components as content-addressed artifacts of an
//! OCI registry: content digests, the artifact's layer, configuration and
//! manifest, and the client's decisions around each registry round trip.
use vstd::prelude::*;

pub mod client;
pub mod commands;
pub mod content;
pub mod manifest;

verus! {

/// Picks the version string to report: the build's own version information
/// where there is one, else the package version.
pub fn version<'a>(build_info: Option<&'a str>, package_version: &'a str) -> (r: &'a str)
    ensures
        r == match build_info {
            Some(v) => v,
            None => package_version,
        },
{
    match build_info {
        Some(v) => v,
        None => package_version,
    }
}

} // verus!
