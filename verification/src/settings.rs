//! The settings document loaded once at startup, and the version arithmetic
//! used when the graphics instance is created.
//!
//! The embedding shell parses the on-disk document and hands the result over
//! as the plain values below; nothing here touches a file.

use vstd::prelude::*;

verus! {

/// A semantic version triple, as it appears in the settings document and in
/// the packed instance version handed to the graphics driver.
#[derive(Clone, Copy, Debug, PartialEq, Eq, Structural)]
pub struct Version {
    pub major: u32,
    pub minor: u32,
    pub patch: u32,
}

/// The packed encoding used by the graphics API: ten bits of major, ten bits
/// of minor and twelve bits of patch version.
pub open spec fn spec_pack_version(major: u32, minor: u32, patch: u32) -> u32 {
    (major << 22) | (minor << 12) | patch
}

impl Version {
    pub fn new(major: u32, minor: u32, patch: u32) -> (v: Version)
        ensures
            v == (Version { major, minor, patch }),
    {
        Version { major, minor, patch }
    }

    /// Packs the triple into the single word the graphics driver expects.
    pub fn pack(&self) -> (r: u32)
        ensures
            r == spec_pack_version(self.major, self.minor, self.patch),
    {
        (self.major << 22u32) | (self.minor << 12u32) | self.patch
    }
}

/// The major part of a packed version word.
pub fn version_major(version: u32) -> (r: u32)
    ensures
        r == version >> 22,
{
    version >> 22u32
}

/// The minor part of a packed version word.
pub fn version_minor(version: u32) -> (r: u32)
    ensures
        r == (version >> 12) & 0x3ff,
{
    (version >> 12u32) & 0x3ffu32
}

/// The patch part of a packed version word.
pub fn version_patch(version: u32) -> (r: u32)
    ensures
        r == version & 0xfff,
{
    version & 0xfffu32
}

/// A two-dimensional size in pixels.
#[derive(Clone, Copy, Debug, PartialEq, Eq, Structural)]
pub struct Size2 {
    pub width: u32,
    pub height: u32,
}

/// How the window is displayed.
#[derive(Clone, Copy, Debug, PartialEq, Eq, Structural)]
pub enum WindowMode {
    Windowed,
    Fullscreen,
}

/// Identity of the application: its name, version and asset location.
#[derive(Debug)]
pub struct ApplicationSettings {
    pub name: String,
    pub version: Version,
    pub assets_path: String,
}

/// Window parameters the shell applies when it builds the platform window.
#[derive(Debug)]
pub struct WindowSettings {
    pub title: String,
    pub size: Option<Size2>,
    pub min_size: Option<Size2>,
    pub max_size: Option<Size2>,
    pub resizeable: bool,
    pub maximized: bool,
    pub visible: bool,
    pub transparent: bool,
    pub decorations: bool,
    pub always_on_top: bool,
}

/// Graphics instance configuration: extension and layer name lists.
#[derive(Debug)]
pub struct GraphicsSettings {
    pub extensions: Option<Vec<String>>,
    pub layers: Option<Vec<String>>,
}

/// The settings document, loaded once at startup and never re-read.
#[derive(Debug)]
pub struct Settings {
    pub application: ApplicationSettings,
    pub window: WindowSettings,
    pub graphics: GraphicsSettings,
}

impl GraphicsSettings {
    /// The configured extension names, if any.
    pub open spec fn extension_names(&self) -> Seq<String> {
        match self.extensions {
            Option::Some(list) => list@,
            Option::None => Seq::<String>::empty(),
        }
    }

    /// The configured layer names, if any.
    pub open spec fn layer_names(&self) -> Seq<String> {
        match self.layers {
            Option::Some(list) => list@,
            Option::None => Seq::<String>::empty(),
        }
    }

    /// The instance extension list handed to the graphics driver: the
    /// configured extensions followed by the platform's surface extensions.
    pub fn instance_extensions(self, platform: Vec<String>) -> (names: Vec<String>)
        ensures
            names@ == self.extension_names() + platform@,
    {
        let ghost orig = self;
        let mut names = match self.extensions {
            Option::Some(list) => list,
            Option::None => Vec::new(),
        };
        proof {
            assert(names@ == orig.extension_names());
        }
        let mut rest = platform;
        names.append(&mut rest);
        names
    }

    /// The instance layer list handed to the graphics driver: the configured
    /// layers, with the validation layer appended when requested.
    pub fn instance_layers(self, with_validation: bool) -> (names: Vec<String>)
        ensures
            !with_validation ==> names@ == self.layer_names(),
            with_validation ==> names@.len() == self.layer_names().len() + 1
                && names@.take(self.layer_names().len() as int) == self.layer_names()
                && names@.last()@ == "VK_LAYER_KHRONOS_validation"@,
    {
        let ghost orig = self;
        let mut names = match self.layers {
            Option::Some(list) => list,
            Option::None => Vec::new(),
        };
        proof {
            assert(names@ == orig.layer_names());
        }
        if with_validation {
            names.push("VK_LAYER_KHRONOS_validation".to_owned());
            proof {
                assert(names@.take(orig.layer_names().len() as int) =~= orig.layer_names());
            }
        }
        names
    }
}

/// Packing a version triple loses nothing as long as the major and minor
/// parts fit in ten bits and the patch part fits in twelve.
pub proof fn lemma_pack_version_roundtrip(major: u32, minor: u32, patch: u32)
    requires
        major < 0x400,
        minor < 0x400,
        patch < 0x1000,
    ensures
        spec_pack_version(major, minor, patch) >> 22 == major,
        (spec_pack_version(major, minor, patch) >> 12) & 0x3ff == minor,
        spec_pack_version(major, minor, patch) & 0xfff == patch,
{
    assert(((major << 22) | (minor << 12) | patch) >> 22 == major) by (bit_vector)
        requires
            major < 0x400,
            minor < 0x400,
            patch < 0x1000,
    ;
    assert(((((major << 22) | (minor << 12) | patch)) >> 12) & 0x3ff == minor) by (bit_vector)
        requires
            major < 0x400,
            minor < 0x400,
            patch < 0x1000,
    ;
    assert((((major << 22) | (minor << 12) | patch)) & 0xfff == patch) by (bit_vector)
        requires
            major < 0x400,
            minor < 0x400,
            patch < 0x1000,
    ;
}

} // verus!
