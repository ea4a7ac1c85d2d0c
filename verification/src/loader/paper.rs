//! The Paper backend: resolves its download from the queried build listing,
//! always taking the newest build.

use crate::errors::CloudError;
use crate::loader::LoaderBackend;
use crate::minecraft_version::JavaVersion;
use crate::minecraft_version::MinecraftVersion;
use crate::minecraft_version::version_chars;
use crate::strutil::dec_str;
use crate::strutil::u64_to_dec;
use vstd::prelude::*;
use vstd::string::StringExecFns;

verus! {

/// Provisions the Paper server family.
#[derive(Clone, Copy, Debug, PartialEq, Eq, Structural)]
pub struct PaperLoader {
    pub version: MinecraftVersion,
}

/// The URL of the build listing of Paper version `v`.
pub open spec fn paper_builds_url(v: MinecraftVersion) -> Seq<char> {
    "https://api.papermc.io/v2/projects/paper/versions/"@ + version_chars(v) + "/builds"@
}

/// The download URL of build `b` of Paper version `v`.
pub open spec fn paper_build_url(v: MinecraftVersion, b: u64) -> Seq<char> {
    "https://api.papermc.io/v2/projects/paper/versions/"@ + version_chars(v) + "/builds/"@
        + dec_str(b as nat) + "/downloads/paper-"@ + version_chars(v) + "-"@ + dec_str(b as nat)
        + ".jar"@
}

impl LoaderBackend for PaperLoader {
    open spec fn spec_name(&self) -> Seq<char> {
        "paper"@
    }

    open spec fn spec_version(&self) -> MinecraftVersion {
        self.version
    }

    open spec fn spec_java(&self) -> JavaVersion {
        JavaVersion::J21
    }

    open spec fn spec_resolved(&self, builds: Seq<u64>) -> Result<Seq<char>, CloudError> {
        if builds.len() == 0 {
            Err(CloudError::NoStableBuild)
        } else {
            Ok(paper_build_url(self.version, builds.last()))
        }
    }

    open spec fn spec_builds_url(&self) -> Seq<char> {
        paper_builds_url(self.version)
    }

    fn name(&self) -> (s: &'static str) {
        "paper"
    }

    fn version(&self) -> (v: MinecraftVersion) {
        self.version
    }

    fn java_version(&self) -> (j: JavaVersion) {
        match self.version {
            MinecraftVersion::V1_21_10 | MinecraftVersion::V1_21_11 => JavaVersion::J21,
        }
    }

    fn resolve_download_url(&self, builds: &Vec<u64>) -> (r: Result<String, CloudError>) {
        if builds.len() == 0 {
            Err(CloudError::NoStableBuild)
        } else {
            let b = builds[builds.len() - 1];
            let num = u64_to_dec(b);
            let v = self.version.get();
            Ok(
                "https://api.papermc.io/v2/projects/paper/versions/".to_owned().concat(v).concat(
                    "/builds/",
                ).concat(num.as_str()).concat("/downloads/paper-").concat(v).concat("-").concat(
                    num.as_str(),
                ).concat(".jar"),
            )
        }
    }

    fn builds_request_url(&self) -> (s: String) {
        "https://api.papermc.io/v2/projects/paper/versions/".to_owned().concat(
            self.version.get(),
        ).concat("/builds")
    }
}

} // verus!
