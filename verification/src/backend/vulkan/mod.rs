//! Vulkan instances, devices and images.

use vstd::prelude::*;

use crate::utils::text::same_text;

use self::version::Version;

pub mod device;
pub mod format;
pub mod image;
pub mod image_setup;
pub mod instance;
pub mod laws;
pub mod phd;
pub mod version;

verus! {

/// The Vulkan library could not be loaded.
#[derive(Clone, Copy, Debug, PartialEq, Eq, Structural)]
pub struct LoadError;

/// The extensions that are asked for by name.
#[derive(Clone, Copy, Debug, PartialEq, Eq, Structural)]
pub enum Extension {
    DebugUtils,
    DriverProperties,
    ExternalMemoryDmaBuf,
    ExternalMemoryFd,
    ExternalSemaphoreFd,
    HostImageCopy,
    ImageDrmFormatModifier,
    PhysicalDeviceDrm,
}

impl Extension {
    pub open spec fn spec_name(self) -> Seq<char> {
        match self {
            Extension::DebugUtils => "VK_EXT_debug_utils"@,
            Extension::DriverProperties => "VK_KHR_driver_properties"@,
            Extension::ExternalMemoryDmaBuf => "VK_EXT_external_memory_dma_buf"@,
            Extension::ExternalMemoryFd => "VK_KHR_external_memory_fd"@,
            Extension::ExternalSemaphoreFd => "VK_KHR_external_semaphore_fd"@,
            Extension::HostImageCopy => "VK_EXT_host_image_copy"@,
            Extension::ImageDrmFormatModifier => "VK_EXT_image_drm_format_modifier"@,
            Extension::PhysicalDeviceDrm => "VK_EXT_physical_device_drm"@,
        }
    }

    /// The name of the extension.
    pub fn name(self) -> (name: &'static str)
        ensures
            name@ == self.spec_name(),
    {
        match self {
            Extension::DebugUtils => "VK_EXT_debug_utils",
            Extension::DriverProperties => "VK_KHR_driver_properties",
            Extension::ExternalMemoryDmaBuf => "VK_EXT_external_memory_dma_buf",
            Extension::ExternalMemoryFd => "VK_KHR_external_memory_fd",
            Extension::ExternalSemaphoreFd => "VK_KHR_external_semaphore_fd",
            Extension::HostImageCopy => "VK_EXT_host_image_copy",
            Extension::ImageDrmFormatModifier => "VK_EXT_image_drm_format_modifier",
            Extension::PhysicalDeviceDrm => "VK_EXT_physical_device_drm",
        }
    }
}

/// A property that cannot be queried.
#[derive(Clone, Copy, Debug, PartialEq, Eq, Structural)]
pub enum UnsupportedProperty {
    /// The extension is not available.
    Extension(Extension),
}

/// The version that a value of the environment asks for.
pub open spec fn requested_version(value: Seq<char>) -> Option<Version> {
    if value == "1.1"@ {
        Some(Version::numbered(1, 1))
    } else if value == "1.2"@ {
        Some(Version::numbered(1, 2))
    } else if value == "1.3"@ {
        Some(Version::numbered(1, 3))
    } else {
        None
    }
}

/// The version that the environment and the caller ask for.
pub open spec fn wanted_version(value: Option<Seq<char>>, max_version: Version) -> Version {
    match value {
        Some(text) => match requested_version(text) {
            Some(requested) => if max_version.before(requested) {
                max_version
            } else {
                requested
            },
            None => max_version,
        },
        None => max_version,
    }
}

/// The highest version to use: the environment can lower the given one, not raise it. Values
/// that are unknown, or ask for the unsupported first version, change nothing.
///
/// `value` is the value of the environment, if it is set and readable.
pub fn get_env_or_max_version(value: Option<&String>, max_version: Version) -> (version: Version)
    ensures
        version == wanted_version(
            match value {
                Some(text) => Some(text@),
                None => None,
            },
            max_version,
        ),
{
    let text: &String = match value {
        Some(text) => text,
        None => {
            return max_version;
        },
    };
    proof {
        reveal_strlit("1.0");
        reveal_strlit("1.1");
        reveal_strlit("1.2");
        reveal_strlit("1.3");
        assert("1.0"@ != "1.1"@) by {
            assert("1.0"@[2] != "1.1"@[2]);
        }
        assert("1.0"@ != "1.2"@) by {
            assert("1.0"@[2] != "1.2"@[2]);
        }
        assert("1.0"@ != "1.3"@) by {
            assert("1.0"@[2] != "1.3"@[2]);
        }
    }
    if same_text(text, "1.0") {
        return max_version;
    }
    let requested: Option<Version> = if same_text(text, "1.1") {
        Some(Version::version_1_1())
    } else if same_text(text, "1.2") {
        Some(Version::version_1_2())
    } else if same_text(text, "1.3") {
        Some(Version::version_1_3())
    } else {
        None
    };
    match requested {
        Some(requested) => if max_version.is_before(requested) {
            max_version
        } else {
            requested
        },
        None => max_version,
    }
}

/// Whatever the environment says, the version is not raised, and a supported one stays
/// supported.
pub proof fn environment_only_lowers(value: Option<Seq<char>>, max_version: Version)
    ensures
        !max_version.before(wanted_version(value, max_version)),
        !max_version.before(Version::numbered(1, 1)) ==> !wanted_version(
            value,
            max_version,
        ).before(Version::numbered(1, 1)),
{
}

/// The environment asks for a version by its numbers. The one that is used is the requested one if
/// that is not above the given one; anything else that is said, or nothing, leaves the given one.
pub proof fn environment_names_a_version(
    value: Option<Seq<char>>,
    max_version: Version,
    minor: u32,
)
    requires
        1 <= minor <= 3,
    ensures
        ({
            let text = if minor == 1 {
                "1.1"@
            } else if minor == 2 {
                "1.2"@
            } else {
                "1.3"@
            };
            let named = Version { variant: 0, major: 1, minor, patch: 0 };
            &&& value == Some(text) && !max_version.before(named) ==> wanted_version(
                value,
                max_version,
            ) == named
            &&& value == Some(text) && max_version.before(named) ==> wanted_version(
                value,
                max_version,
            ) == max_version
        }),
        value != Some("1.1"@) && value != Some("1.2"@) && value != Some("1.3"@) ==> wanted_version(
            value,
            max_version,
        ) == max_version,
{
    reveal_strlit("1.1");
    reveal_strlit("1.2");
    reveal_strlit("1.3");
    assert("1.1"@[2] == '1');
    assert("1.2"@[2] == '2');
    assert("1.3"@[2] == '3');
}

} // verus!
