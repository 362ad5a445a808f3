//! The options of the two commands that push and pull components.
use vstd::prelude::*;

verus! {

/// Options shared by the commands.
pub struct CommonOptions {
    /// The directory where pulled images are cached.
    pub cache_dir: String,
}

/// Pulls a root component from a registry into a local directory.
pub struct PullCommand {
    pub common: CommonOptions,
    /// The registry reference of the component, such as `registry/namespace/name:v1.0.0`.
    pub reference: String,
    /// The directory the component is written to.
    pub output_directory: String,
    /// Speak plain HTTP to the registry rather than HTTPS.
    pub insecure: bool,
}

/// Pushes a root component, and the components it needs, to a registry.
pub struct PushCommand {
    pub common: CommonOptions,
    /// The registry reference to push to, such as `registry/namespace/name:latest`.
    pub reference: String,
    /// The path of the root component.
    pub root_path: String,
    /// The paths of the components that the root component needs.
    pub component_paths: Option<Vec<String>>,
    /// Speak plain HTTP to the registry rather than HTTPS.
    pub insecure: bool,
}

} // verus!
