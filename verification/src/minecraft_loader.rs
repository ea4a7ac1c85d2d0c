//! The enum-based binary resolver: which server artifact an instance needs,
//! where it lives on disk, where its build metadata is queried, and which
//! build of it qualifies for download.
//!
//! Network transport and JSON decoding are the control shell's business; the
//! shell hands this module the parsed build listing as plain values and gets
//! back the selected download URL.

use crate::errors::CloudError;
use crate::errors::result_str_matches;
use crate::minecraft_version::JavaVersion;
use crate::minecraft_version::MinecraftVersion;
use crate::minecraft_version::version_chars;
use crate::probe::path_exists;
use vstd::prelude::*;
use vstd::string::StringExecFns;

verus! {

/// A server-binary family paired with the version to provision.
#[derive(Clone, Copy, Debug, PartialEq, Eq, Structural)]
pub enum MinecraftLoader {
    Paper(MinecraftVersion),
    ThunderStorm(MinecraftVersion),
}

/// One entry of a build listing, as decoded from the build-channel API:
/// the channel the build was published on, and the URL of its default
/// server download if the listing carries one.
pub struct BuildEntry {
    pub channel: String,
    pub download_url: Option<String>,
}

/// Whether `s` spells "stable", ignoring ASCII case.
pub open spec fn stable_channel(s: Seq<char>) -> bool {
    s.len() == 6 && (s[0] == 'S' || s[0] == 's') && (s[1] == 'T' || s[1] == 't') && (s[2] == 'A'
        || s[2] == 'a') && (s[3] == 'B' || s[3] == 'b') && (s[4] == 'L' || s[4] == 'l') && (s[5]
        == 'E' || s[5] == 'e')
}

/// Whether a build entry qualifies for installation: published on the
/// stable channel, with a default server download present.
pub open spec fn entry_selected(e: BuildEntry) -> bool {
    &&& stable_channel(e.channel@)
    &&& e.download_url is Some
}

/// The download URL of the first qualifying entry of `bs`, or
/// `NoStableBuild` if none qualifies.
pub open spec fn spec_select_stable(bs: Seq<BuildEntry>) -> Result<Seq<char>, CloudError>
    decreases bs.len(),
{
    if bs.len() == 0 {
        Err(CloudError::NoStableBuild)
    } else if entry_selected(bs[0]) {
        match bs[0].download_url {
            Some(u) => Ok(u@),
            None => Err(CloudError::NoStableBuild),
        }
    } else {
        spec_select_stable(bs.drop_first())
    }
}

/// Whether `channel` spells "stable", ignoring ASCII case.
pub fn is_stable_channel(channel: &String) -> (r: bool)
    ensures
        r == stable_channel(channel@),
{
    let s = channel.as_str();
    if s.unicode_len() != 6 {
        return false;
    }
    let c0 = s.get_char(0);
    let c1 = s.get_char(1);
    let c2 = s.get_char(2);
    let c3 = s.get_char(3);
    let c4 = s.get_char(4);
    let c5 = s.get_char(5);
    (c0 == 'S' || c0 == 's') && (c1 == 'T' || c1 == 't') && (c2 == 'A' || c2 == 'a') && (c3 == 'B'
        || c3 == 'b') && (c4 == 'L' || c4 == 'l') && (c5 == 'E' || c5 == 'e')
}

/// Picks the build to install from a decoded build listing: the first entry
/// on the stable channel that offers a default server download.
pub fn select_stable_build(builds: &Vec<BuildEntry>) -> (r: Result<String, CloudError>)
    ensures
        result_str_matches(r, spec_select_stable(builds@)),
{
    let mut i: usize = 0;
    proof {
        assert(builds@.skip(0) =~= builds@);
    }
    while i < builds.len()
        invariant
            i <= builds@.len(),
            spec_select_stable(builds@) == spec_select_stable(builds@.skip(i as int)),
        decreases builds@.len() - i,
    {
        proof {
            assert(builds@.skip(i as int)[0] == builds@[i as int]);
        }
        let entry = &builds[i];
        if is_stable_channel(&entry.channel) {
            match &entry.download_url {
                Some(u) => {
                    return Ok(u.clone());
                },
                None => {},
            }
        }
        proof {
            assert(builds@.skip(i as int).drop_first() =~= builds@.skip(i as int + 1));
        }
        i = i + 1;
    }
    proof {
        assert(builds@.skip(i as int).len() == 0);
    }
    Err(CloudError::NoStableBuild)
}

/// The inner version a loader value provisions.
pub open spec fn spec_loader_version(l: MinecraftLoader) -> MinecraftVersion {
    match l {
        MinecraftLoader::Paper(v) => v,
        MinecraftLoader::ThunderStorm(v) => v,
    }
}

/// The family name of a loader value.
pub open spec fn loader_name_chars(l: MinecraftLoader) -> Seq<char> {
    match l {
        MinecraftLoader::Paper(_) => "paper"@,
        MinecraftLoader::ThunderStorm(_) => "thunderstorm"@,
    }
}

/// The runtime a loader value requires.
pub open spec fn spec_loader_java(l: MinecraftLoader) -> JavaVersion {
    match l {
        MinecraftLoader::Paper(_) => JavaVersion::J21,
        MinecraftLoader::ThunderStorm(_) => JavaVersion::J25,
    }
}

/// The canonical on-disk path of the artifact this loader installs, keyed
/// by family name and version: all instances of one family and version
/// share it, so one download serves them all.
pub open spec fn spec_jar_path(l: MinecraftLoader) -> Seq<char> {
    "versions/"@ + loader_name_chars(l) + "/"@ + loader_name_chars(l) + "-"@ + version_chars(
        spec_loader_version(l),
    ) + ".jar"@
}

/// The URL of the build listing for this loader's version.
pub open spec fn spec_builds_request_url(l: MinecraftLoader) -> Seq<char> {
    "https://fill.papermc.io/v3/projects/paper/versions/"@ + version_chars(spec_loader_version(l))
        + "/builds"@
}

impl MinecraftLoader {
    /// The family name, used to key shared artifact directories.
    pub fn name(&self) -> (s: &'static str)
        ensures
            s@ == loader_name_chars(*self),
    {
        match self {
            MinecraftLoader::Paper(_) => "paper",
            MinecraftLoader::ThunderStorm(_) => "thunderstorm",
        }
    }

    /// The version string of the provisioned server.
    pub fn version(&self) -> (s: &'static str)
        ensures
            s@ == version_chars(spec_loader_version(*self)),
    {
        match self {
            MinecraftLoader::Paper(ver) => ver.get(),
            MinecraftLoader::ThunderStorm(ver) => ver.get(),
        }
    }

    /// The shared directory the artifact is installed under, keyed by
    /// family name.
    pub fn local_dir(&self) -> (s: String)
        ensures
            s@ == "versions/"@ + loader_name_chars(*self),
    {
        "versions/".to_owned().concat(self.name())
    }

    /// The canonical path of the installed artifact.
    pub fn jar_path(&self) -> (s: String)
        ensures
            s@ == spec_jar_path(*self),
    {
        "versions/".to_owned().concat(self.name()).concat("/").concat(self.name()).concat(
            "-",
        ).concat(self.version()).concat(".jar")
    }

    /// The URL the control shell queries for this loader's build listing;
    /// the decoded answer goes to `select_stable_build`.
    pub fn builds_request_url(&self) -> (s: String)
        ensures
            s@ == spec_builds_request_url(*self),
    {
        "https://fill.papermc.io/v3/projects/paper/versions/".to_owned().concat(
            self.version(),
        ).concat("/builds")
    }

    /// Whether the artifact already sits at its canonical path. The answer
    /// reflects the disk at the moment of the call; the path probed is the
    /// one `jar_path` describes.
    pub fn is_installed(&self) -> bool {
        let exec = self.jar_path();
        path_exists(exec.as_str())
    }

    /// The runtime required to launch this loader's artifact.
    pub fn get_java_version(&self) -> (j: JavaVersion)
        ensures
            j == spec_loader_java(*self),
    {
        match self {
            MinecraftLoader::Paper(ver) => ver.java_version(),
            MinecraftLoader::ThunderStorm(_) => JavaVersion::J25,
        }
    }
}

/// The fixed, pinned-artifact loader table of the static start path: each
/// family resolves to one hard-wired download rather than a queried build.
#[derive(Clone, Copy, Debug, PartialEq, Eq, Structural)]
pub enum MineacrftLoader {
    Paper(MinecraftVersion),
    ThunderStorm(MinecraftVersion),
}

/// The pinned download URL of a static-path loader.
pub open spec fn pinned_download_url(l: MineacrftLoader) -> Seq<char> {
    match l {
        MineacrftLoader::Paper(
            _,
        ) => "https://fill-data.papermc.io/v1/objects/a61a0585e203688f606ca3a649760b8ba71efca01a4af7687db5e41408ee27aa/paper-1.21.10-117.jar"@,
        MineacrftLoader::ThunderStorm(_) => ""@,
    }
}

impl MineacrftLoader {
    /// The hard-wired artifact URL of this family.
    pub fn download_url(&self) -> (s: &'static str)
        ensures
            s@ == pinned_download_url(*self),
    {
        match self {
            MineacrftLoader::Paper(
                _,
            ) => "https://fill-data.papermc.io/v1/objects/a61a0585e203688f606ca3a649760b8ba71efca01a4af7687db5e41408ee27aa/paper-1.21.10-117.jar",
            MineacrftLoader::ThunderStorm(_) => "",
        }
    }

    /// The runtime required by this family's pinned artifact.
    pub fn get_java_version(&self) -> (j: JavaVersion)
        ensures
            j == (match *self {
                MineacrftLoader::Paper(_) => JavaVersion::J21,
                MineacrftLoader::ThunderStorm(_) => JavaVersion::J25,
            }),
    {
        match self {
            MineacrftLoader::Paper(_) => JavaVersion::J21,
            MineacrftLoader::ThunderStorm(_) => JavaVersion::J25,
        }
    }
}

} // verus!
