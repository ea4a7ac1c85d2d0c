//! The pluggable provisioning abstraction: a flat capability interface over
//! the binary families the daemon can install, selected by a `LoaderConfig`
//! value.
//!
//! Each backend answers what it is called, which version and runtime it
//! needs, and which download URL a decoded build listing resolves to. The
//! network fetch of the listing and the artifact download themselves are the
//! control shell's business.

pub mod config;
pub mod paper;
pub mod thunderstorm;

use crate::errors::CloudError;
use crate::errors::result_str_matches;
use crate::loader::config::LoaderConfig;
use crate::loader::paper::PaperLoader;
use crate::loader::thunderstorm::ThunderstormLoader;
use crate::minecraft_version::JavaVersion;
use crate::minecraft_version::MinecraftVersion;
use crate::minecraft_version::version_chars;
use crate::probe::path_exists;
use vstd::prelude::*;
use vstd::string::StringExecFns;

verus! {

/// The capability set of one binary-provisioning family.
pub trait LoaderBackend: Sized {
    /// The family name, keying the shared artifact directory.
    spec fn spec_name(&self) -> Seq<char>;

    /// The version this backend provisions.
    spec fn spec_version(&self) -> MinecraftVersion;

    /// The runtime this backend's artifact requires.
    spec fn spec_java(&self) -> JavaVersion;

    /// The download URL this backend resolves from a decoded build listing.
    spec fn spec_resolved(&self, builds: Seq<u64>) -> Result<Seq<char>, CloudError>;

    /// The URL of this backend's build listing; empty for a family that
    /// publishes none.
    spec fn spec_builds_url(&self) -> Seq<char>;

    fn name(&self) -> (s: &'static str)
        ensures
            s@ == self.spec_name(),
    ;

    fn version(&self) -> (v: MinecraftVersion)
        ensures
            v == self.spec_version(),
    ;

    fn java_version(&self) -> (j: JavaVersion)
        ensures
            j == self.spec_java(),
    ;

    /// Resolves the download URL from the build numbers of the queried
    /// listing, newest last, exactly as `spec_resolved` describes.
    fn resolve_download_url(&self, builds: &Vec<u64>) -> (r: Result<String, CloudError>)
        ensures
            result_str_matches(r, self.spec_resolved(builds@)),
    ;

    /// The URL the control shell queries for this backend's build listing.
    fn builds_request_url(&self) -> (s: String)
        ensures
            s@ == self.spec_builds_url(),
    ;
}

/// The artifact path of a backend named `name` at version `v`: one shared
/// location per family and version, outside any instance's workspace.
pub open spec fn spec_loader_jar_path(name: Seq<char>, v: MinecraftVersion) -> Seq<char> {
    "versions/"@ + name + "/"@ + name + "-"@ + version_chars(v) + ".jar"@
}

/// The shared directory a backend installs its artifacts under.
pub fn loader_install_dir<L: LoaderBackend>(l: &L) -> (s: String)
    ensures
        s@ == "versions/"@ + l.spec_name(),
{
    "versions/".to_owned().concat(l.name())
}

/// The canonical path of the artifact `l` installs.
pub fn loader_jar_path<L: LoaderBackend>(l: &L) -> (s: String)
    ensures
        s@ == spec_loader_jar_path(l.spec_name(), l.spec_version()),
{
    "versions/".to_owned().concat(l.name()).concat("/").concat(l.name()).concat("-").concat(
        l.version().get(),
    ).concat(".jar")
}

/// Whether `l`'s artifact already sits at its canonical path. The answer
/// reflects the disk at the moment of the call; the path probed is the one
/// `loader_jar_path` describes.
pub fn loader_is_installed<L: LoaderBackend>(l: &L) -> bool {
    let path = loader_jar_path(l);
    path_exists(path.as_str())
}

/// A backend chosen at run time from a `LoaderConfig`.
#[derive(Clone, Copy, Debug, PartialEq, Eq, Structural)]
pub enum AnyLoader {
    Paper(PaperLoader),
    Thunderstorm(ThunderstormLoader),
}

impl LoaderBackend for AnyLoader {
    open spec fn spec_name(&self) -> Seq<char> {
        match self {
            AnyLoader::Paper(l) => l.spec_name(),
            AnyLoader::Thunderstorm(l) => l.spec_name(),
        }
    }

    open spec fn spec_version(&self) -> MinecraftVersion {
        match self {
            AnyLoader::Paper(l) => l.spec_version(),
            AnyLoader::Thunderstorm(l) => l.spec_version(),
        }
    }

    open spec fn spec_java(&self) -> JavaVersion {
        match self {
            AnyLoader::Paper(l) => l.spec_java(),
            AnyLoader::Thunderstorm(l) => l.spec_java(),
        }
    }

    open spec fn spec_resolved(&self, builds: Seq<u64>) -> Result<Seq<char>, CloudError> {
        match self {
            AnyLoader::Paper(l) => l.spec_resolved(builds),
            AnyLoader::Thunderstorm(l) => l.spec_resolved(builds),
        }
    }

    open spec fn spec_builds_url(&self) -> Seq<char> {
        match self {
            AnyLoader::Paper(l) => l.spec_builds_url(),
            AnyLoader::Thunderstorm(l) => l.spec_builds_url(),
        }
    }

    fn name(&self) -> (s: &'static str) {
        match self {
            AnyLoader::Paper(l) => l.name(),
            AnyLoader::Thunderstorm(l) => l.name(),
        }
    }

    fn version(&self) -> (v: MinecraftVersion) {
        match self {
            AnyLoader::Paper(l) => l.version(),
            AnyLoader::Thunderstorm(l) => l.version(),
        }
    }

    fn java_version(&self) -> (j: JavaVersion) {
        match self {
            AnyLoader::Paper(l) => l.java_version(),
            AnyLoader::Thunderstorm(l) => l.java_version(),
        }
    }

    fn resolve_download_url(&self, builds: &Vec<u64>) -> (r: Result<String, CloudError>) {
        match self {
            AnyLoader::Paper(l) => l.resolve_download_url(builds),
            AnyLoader::Thunderstorm(l) => l.resolve_download_url(builds),
        }
    }

    fn builds_request_url(&self) -> (s: String) {
        match self {
            AnyLoader::Paper(l) => l.builds_request_url(),
            AnyLoader::Thunderstorm(l) => l.builds_request_url(),
        }
    }
}

/// Builds the backend a configuration value selects.
pub fn build_loader(config: &LoaderConfig) -> (l: AnyLoader)
    ensures
        l == (match *config {
            LoaderConfig::Paper { version } => AnyLoader::Paper((PaperLoader { version })),
            LoaderConfig::Thunderstorm { version } => AnyLoader::Thunderstorm(
                (ThunderstormLoader { version }),
            ),
        }),
{
    match config {
        LoaderConfig::Paper { version } => AnyLoader::Paper(PaperLoader { version: *version }),
        LoaderConfig::Thunderstorm { version } => AnyLoader::Thunderstorm(
            ThunderstormLoader { version: *version },
        ),
    }
}

} // verus!
