//! The server versions the daemon can provision, and the language runtime
//! each of them requires.

use vstd::prelude::*;

verus! {

/// A major release of the language runtime a server binary runs on.
#[derive(Clone, Copy, Debug, PartialEq, Eq, Structural)]
pub enum JavaVersion {
    J21,
    J25,
}

/// A provisionable server version.
#[derive(Clone, Copy, Debug, PartialEq, Eq, Structural)]
pub enum MinecraftVersion {
    V1_21_10,
    V1_21_11,
}

/// The version string of `v`, as it appears in artifact names and
/// provisioning URLs.
pub open spec fn version_chars(v: MinecraftVersion) -> Seq<char> {
    match v {
        MinecraftVersion::V1_21_10 => "1.21.10"@,
        MinecraftVersion::V1_21_11 => "1.21.11"@,
    }
}

impl MinecraftVersion {
    /// The version string, e.g. `"1.21.10"`.
    pub fn get(&self) -> (s: &'static str)
        ensures
            s@ == version_chars(*self),
    {
        match self {
            MinecraftVersion::V1_21_11 => "1.21.11",
            MinecraftVersion::V1_21_10 => "1.21.10",
        }
    }

    /// The runtime this server version requires.
    pub fn java_version(&self) -> (j: JavaVersion)
        ensures
            j == JavaVersion::J21,
    {
        match self {
            MinecraftVersion::V1_21_10 | MinecraftVersion::V1_21_11 => JavaVersion::J21,
        }
    }
}

} // verus!
