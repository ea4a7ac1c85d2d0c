//! The tagged configuration value that selects a provisioning backend and
//! the version it must provide.

use crate::minecraft_version::MinecraftVersion;
use vstd::prelude::*;

verus! {

/// Which binary family provisions an instance, and at which version.
#[derive(Clone, Copy, Debug, PartialEq, Eq, Structural)]
pub enum LoaderConfig {
    Paper { version: MinecraftVersion },
    Thunderstorm { version: MinecraftVersion },
}

} // verus!
