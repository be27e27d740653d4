//! The configuration of one instance, and which of its parts are at their
//! defaults and need not be written out.

use crate::fs_path::FsPath;
use crate::fs_path::FsPathView;
use crate::schema::loader::Loader;
use crate::text::chars_of;
use vstd::prelude::*;

verus! {

/// Everything the launcher stores about how to run an instance.
#[derive(Debug, Clone)]
pub struct InstanceConfiguration {
    pub minecraft_version: String,
    pub loader: Loader,
    pub preferred_loader_version: Option<String>,
    pub memory: Option<InstanceMemoryConfiguration>,
    pub jvm_flags: Option<InstanceJvmFlagsConfiguration>,
    pub jvm_binary: Option<InstanceJvmBinaryConfiguration>,
    pub linux_wrapper: Option<InstanceLinuxWrapperConfiguration>,
    pub system_libraries: Option<InstanceSystemLibrariesConfiguration>,
    pub instance_fallback_icon: Option<String>,
}

/// Heap limits in megabytes, used when `enabled`.
#[derive(Debug, Clone, Copy)]
pub struct InstanceMemoryConfiguration {
    pub enabled: bool,
    pub min: u32,
    pub max: u32,
}

/// The smallest heap, in megabytes, of an instance that sets none.
pub const DEFAULT_MIN_MEMORY: u32 = 512;

/// The largest heap, in megabytes, of an instance that sets none.
pub const DEFAULT_MAX_MEMORY: u32 = 4096;

impl InstanceMemoryConfiguration {
    pub const DEFAULT_MIN: u32 = DEFAULT_MIN_MEMORY;

    pub const DEFAULT_MAX: u32 = DEFAULT_MAX_MEMORY;
}

impl Default for InstanceMemoryConfiguration {
    fn default() -> (r: InstanceMemoryConfiguration)
        ensures
            !r.enabled,
            r.min == DEFAULT_MIN_MEMORY,
            r.max == DEFAULT_MAX_MEMORY,
    {
        InstanceMemoryConfiguration {
            enabled: false,
            min: DEFAULT_MIN_MEMORY,
            max: DEFAULT_MAX_MEMORY,
        }
    }
}

/// Whether a memory configuration says nothing beyond the defaults.
pub fn is_default_memory_configuration(config: &Option<InstanceMemoryConfiguration>) -> (r: bool)
    ensures
        r == (config matches Some(c) ==> !c.enabled && c.min == DEFAULT_MIN_MEMORY && c.max
            == DEFAULT_MAX_MEMORY),
{
    match config {
        Some(config) => !config.enabled && config.min == DEFAULT_MIN_MEMORY && config.max
            == DEFAULT_MAX_MEMORY,
        None => true,
    }
}

/// Extra flags for the Java virtual machine, used when `enabled`.
#[derive(Debug, Clone)]
pub struct InstanceJvmFlagsConfiguration {
    pub enabled: bool,
    pub flags: String,
}

impl Default for InstanceJvmFlagsConfiguration {
    fn default() -> (r: InstanceJvmFlagsConfiguration)
        ensures
            !r.enabled,
            r.flags@.len() == 0,
    {
        InstanceJvmFlagsConfiguration { enabled: false, flags: String::new() }
    }
}

/// A space, tab, line feed, form feed or carriage return.
pub open spec fn is_ascii_whitespace(c: char) -> bool {
    c == ' ' || c == '\t' || c == '\n' || c == '\x0C' || c == '\r'
}

/// Whether `text` holds nothing but blanks.
pub open spec fn is_blank(text: Seq<char>) -> bool {
    forall|i: int| 0 <= i < text.len() ==> is_ascii_whitespace(#[trigger] text[i])
}

/// Whether `text` holds nothing but blanks.
pub fn text_is_blank(text: &str) -> (r: bool)
    ensures
        r == is_blank(text@),
{
    let chars = chars_of(text);
    let mut i: usize = 0;
    while i < chars.len()
        invariant
            chars@ == text@,
            i <= chars.len(),
            forall|j: int| 0 <= j < i ==> is_ascii_whitespace(#[trigger] chars@[j]),
        decreases chars.len() - i,
    {
        let c = chars[i];
        if !(c == ' ' || c == '\t' || c == '\n' || c == '\x0C' || c == '\r') {
            return false;
        }
        i += 1;
    }
    true
}

/// Whether a flags configuration says nothing: switched off, and no flag in it.
pub fn is_default_jvm_flags_configuration(config: &Option<InstanceJvmFlagsConfiguration>) -> (r:
    bool)
    ensures
        r == (config matches Some(c) ==> !c.enabled && is_blank(c.flags@)),
{
    match config {
        Some(config) => !config.enabled && text_is_blank(config.flags.as_str()),
        None => true,
    }
}

/// The Java binary to run the instance with, used when `enabled`.
#[derive(Debug, Clone)]
pub struct InstanceJvmBinaryConfiguration {
    pub enabled: bool,
    pub path: Option<FsPath>,
}

impl Default for InstanceJvmBinaryConfiguration {
    fn default() -> (r: InstanceJvmBinaryConfiguration)
        ensures
            !r.enabled,
            r.path is None,
    {
        InstanceJvmBinaryConfiguration { enabled: false, path: None }
    }
}

/// Whether a binary configuration says nothing: switched off, and no path in it.
pub fn is_default_jvm_binary_configuration(config: &Option<InstanceJvmBinaryConfiguration>) -> (r:
    bool)
    ensures
        r == (config matches Some(c) ==> !c.enabled && c.path is None),
{
    match config {
        Some(config) => !config.enabled && config.path.is_none(),
        None => true,
    }
}

/// Which helper programs wrap the game on Linux.
#[derive(Debug, Clone, Copy)]
pub struct InstanceLinuxWrapperConfiguration {
    pub use_mangohud: bool,
    pub use_gamemode: bool,
    pub use_discrete_gpu: bool,
}

impl Default for InstanceLinuxWrapperConfiguration {
    fn default() -> (r: InstanceLinuxWrapperConfiguration)
        ensures
            !r.use_mangohud,
            !r.use_gamemode,
            r.use_discrete_gpu,
    {
        InstanceLinuxWrapperConfiguration {
            use_mangohud: false,
            use_gamemode: false,
            use_discrete_gpu: true,
        }
    }
}

/// Whether a wrapper configuration is the default one: no overlay, no game
/// mode, the discrete GPU.
pub fn is_default_linux_wrapper_configuration(
    config: &Option<InstanceLinuxWrapperConfiguration>,
) -> (r: bool)
    ensures
        r == (config matches Some(c) ==> !c.use_mangohud && !c.use_gamemode && c.use_discrete_gpu),
{
    match config {
        Some(config) => !config.use_mangohud && !config.use_gamemode && config.use_discrete_gpu,
        None => true,
    }
}

/// Which system libraries replace the bundled ones.
#[derive(Debug, Clone)]
pub struct InstanceSystemLibrariesConfiguration {
    pub override_glfw: bool,
    pub glfw: LwjglLibraryPath,
    pub override_openal: bool,
    pub openal: LwjglLibraryPath,
}

impl Default for InstanceSystemLibrariesConfiguration {
    fn default() -> (r: InstanceSystemLibrariesConfiguration)
        ensures
            !r.override_glfw,
            !r.override_openal,
            r.glfw is Unset,
            r.openal is Unset,
    {
        InstanceSystemLibrariesConfiguration {
            override_glfw: false,
            glfw: LwjglLibraryPath::Unset,
            override_openal: false,
            openal: LwjglLibraryPath::Unset,
        }
    }
}

/// Where a replacement library comes from: nowhere, a path that was found
/// automatically, or one that the user chose.
#[derive(Debug, Clone)]
pub enum LwjglLibraryPath {
    Unset,
    Auto(FsPath),
    Explicit(FsPath),
}

impl Default for LwjglLibraryPath {
    fn default() -> (r: LwjglLibraryPath)
        ensures
            r is Unset,
    {
        LwjglLibraryPath::Unset
    }
}

/// Whether a libraries configuration names no library at all.
pub fn is_default_system_libraries_configuration(
    config: &Option<InstanceSystemLibrariesConfiguration>,
) -> (r: bool)
    ensures
        r == (config matches Some(c) ==> c.glfw is Unset && c.openal is Unset),
{
    match config {
        Some(config) => {
            let glfw_unset = match config.glfw {
                LwjglLibraryPath::Unset => true,
                _ => false,
            };
            let openal_unset = match config.openal {
                LwjglLibraryPath::Unset => true,
                _ => false,
            };
            glfw_unset && openal_unset
        },
        None => true,
    }
}

impl LwjglLibraryPath {
    /// The path that `get_or_auto` settles on: an explicit path always, an
    /// automatic one only while it exists, and else the fallback.
    pub open spec fn spec_get_or_auto(
        self,
        auto: Option<FsPathView>,
        path_exists: bool,
    ) -> Option<FsPathView> {
        match self {
            LwjglLibraryPath::Unset => auto,
            LwjglLibraryPath::Auto(path) => if path_exists {
                Some(path@)
            } else {
                auto
            },
            LwjglLibraryPath::Explicit(path) => Some(path@),
        }
    }

    /// The library to use. `path_exists` says whether the path of an `Auto`
    /// value is present on disk; `auto` is the path found this time.
    pub fn get_or_auto(self, auto: &Option<FsPath>, path_exists: bool) -> (r: Option<FsPath>)
        ensures
            r is Some == self.spec_get_or_auto(
                match *auto {
                    Some(a) => Some(a@),
                    None => None,
                },
                path_exists,
            ) is Some,
            r matches Some(p) ==> p@ == self.spec_get_or_auto(
                match *auto {
                    Some(a) => Some(a@),
                    None => None,
                },
                path_exists,
            )->0,
    {
        match self {
            LwjglLibraryPath::Unset => auto.clone(),
            LwjglLibraryPath::Auto(path) => {
                if path_exists {
                    Some(path)
                } else {
                    auto.clone()
                }
            },
            LwjglLibraryPath::Explicit(path) => Some(path),
        }
    }

    /// The path that the value holds, whatever its origin.
    pub fn get_path(&self) -> (r: Option<&FsPath>)
        ensures
            r == (match *self {
                LwjglLibraryPath::Unset => None,
                LwjglLibraryPath::Auto(p) => Some(&p),
                LwjglLibraryPath::Explicit(p) => Some(&p),
            }),
    {
        match self {
            LwjglLibraryPath::Unset => None,
            LwjglLibraryPath::Auto(path) => Some(path),
            LwjglLibraryPath::Explicit(path) => Some(path),
        }
    }
}

} // verus!
