//! What a Forge mod says of itself in the files inside its jar.

use vstd::prelude::*;

verus! {

/// The `mods.toml` of a jar.
#[derive(Debug)]
pub struct ModsToml {
    pub mods: Vec<ModsTomlMod>,
}

/// One mod of a `mods.toml`.
#[derive(Debug)]
pub struct ModsTomlMod {
    pub mod_id: String,
    pub display_name: Option<String>,
    pub logo_file: Option<String>,
    pub version: Option<String>,
    pub authors: Option<String>,
}

/// The list of jars nested inside a jar.
#[derive(Debug)]
pub struct JarJarMetadata {
    pub jars: Vec<JarJarMetadataJar>,
}

/// One nested jar, by its path inside the outer one.
#[derive(Debug)]
pub struct JarJarMetadataJar {
    pub path: String,
}

/// The `mcmod.info` of a jar: a list of mods.
#[derive(Debug)]
pub struct McModInfo(pub Vec<McModInfoMod>);

/// One mod of a `mcmod.info`.
#[derive(Debug)]
pub struct McModInfoMod {
    pub modid: String,
    pub name: String,
    pub logo_file: Option<String>,
    pub version: Option<String>,
    pub author_list: Option<Vec<String>>,
}

} // verus!
