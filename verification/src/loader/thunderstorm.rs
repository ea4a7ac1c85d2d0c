//! The Thunderstorm backend: its distribution channel publishes no build
//! listing yet, so it resolves to an empty download URL.

use crate::errors::CloudError;
use crate::loader::LoaderBackend;
use crate::minecraft_version::JavaVersion;
use crate::minecraft_version::MinecraftVersion;
use vstd::prelude::*;

verus! {

/// Provisions the Thunderstorm server family.
#[derive(Clone, Copy, Debug, PartialEq, Eq, Structural)]
pub struct ThunderstormLoader {
    pub version: MinecraftVersion,
}

impl LoaderBackend for ThunderstormLoader {
    open spec fn spec_name(&self) -> Seq<char> {
        "thunderstorm"@
    }

    open spec fn spec_version(&self) -> MinecraftVersion {
        self.version
    }

    open spec fn spec_java(&self) -> JavaVersion {
        JavaVersion::J25
    }

    open spec fn spec_resolved(&self, builds: Seq<u64>) -> Result<Seq<char>, CloudError> {
        Ok(""@)
    }

    open spec fn spec_builds_url(&self) -> Seq<char> {
        ""@
    }

    fn name(&self) -> (s: &'static str) {
        "thunderstorm"
    }

    fn version(&self) -> (v: MinecraftVersion) {
        self.version
    }

    fn java_version(&self) -> (j: JavaVersion) {
        JavaVersion::J25
    }

    fn resolve_download_url(&self, builds: &Vec<u64>) -> (r: Result<String, CloudError>) {
        Ok("".to_owned())
    }

    fn builds_request_url(&self) -> (s: String) {
        "".to_owned()
    }
}

} // verus!
