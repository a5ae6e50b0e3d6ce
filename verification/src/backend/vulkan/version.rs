//! The [`Version`] type.

use std::cmp::Ordering;

use vstd::prelude::*;

verus! {

/// A Vulkan API version.
#[derive(Clone, Copy, Debug, PartialEq, Eq, Ord, Hash, Structural)]
pub struct Version {
    /// The variant of the API, generally zero.
    pub variant: u32,
    /// The major version of the API.
    pub major: u32,
    /// The minor version of the API.
    pub minor: u32,
    /// The patch version of the API.
    pub patch: u32,
}

/// `ash::vk::api_version_variant`: the topmost three bits of a packed version.
pub assume_specification[ ash::vk::api_version_variant ](version: u32) -> (r: u32)
    ensures
        r == version >> 29,
;

/// `ash::vk::api_version_major`: the seven bits below the variant.
pub assume_specification[ ash::vk::api_version_major ](version: u32) -> (r: u32)
    ensures
        r == (version >> 22) & 0x7fu32,
;

/// `ash::vk::api_version_minor`: the ten bits below the major version.
pub assume_specification[ ash::vk::api_version_minor ](version: u32) -> (r: u32)
    ensures
        r == (version >> 12) & 0x3ffu32,
;

/// `ash::vk::api_version_patch`: the lowest twelve bits.
pub assume_specification[ ash::vk::api_version_patch ](version: u32) -> (r: u32)
    ensures
        r == version & 0xfffu32,
;

/// `ash::vk::make_api_version`: the four parts, each shifted to its place.
pub assume_specification[ ash::vk::make_api_version ](
    variant: u32,
    major: u32,
    minor: u32,
    patch: u32,
) -> (r: u32)
    ensures
        r == (variant << 29) | (major << 22) | (minor << 12) | patch,
;

impl Version {
    /// The version with the given numbers, of the common variant and without patches.
    pub open spec fn numbered(major: u32, minor: u32) -> Version {
        Version { variant: 0, major, minor, patch: 0 }
    }

    /// Version 1.0 of the Vulkan API.
    pub fn version_1_0() -> (version: Version)
        ensures
            version == Version::numbered(1, 0),
    {
        Version { variant: 0, major: 1, minor: 0, patch: 0 }
    }

    /// Version 1.1 of the Vulkan API.
    pub fn version_1_1() -> (version: Version)
        ensures
            version == Version::numbered(1, 1),
    {
        Version { variant: 0, major: 1, minor: 1, patch: 0 }
    }

    /// Version 1.2 of the Vulkan API.
    pub fn version_1_2() -> (version: Version)
        ensures
            version == Version::numbered(1, 2),
    {
        Version { variant: 0, major: 1, minor: 2, patch: 0 }
    }

    /// Version 1.3 of the Vulkan API.
    pub fn version_1_3() -> (version: Version)
        ensures
            version == Version::numbered(1, 3),
    {
        Version { variant: 0, major: 1, minor: 3, patch: 0 }
    }

    /// The version of this library.
    pub fn smithay() -> (version: Version)
        ensures
            version == Version::numbered(0, 3),
    {
        Version { variant: 0, major: 0, minor: 3, patch: 0 }
    }

    pub open spec fn spec_from_raw(raw: u32) -> Version {
        Version {
            variant: raw >> 29,
            major: (raw >> 22) & 0x7fu32,
            minor: (raw >> 12) & 0x3ffu32,
            patch: raw & 0xfffu32,
        }
    }

    pub open spec fn spec_to_raw(self) -> u32 {
        (self.variant << 29) | (self.major << 22) | (self.minor << 12) | self.patch
    }

    /// Each part fits its place in a packed version.
    pub open spec fn packable(self) -> bool {
        &&& self.variant < 8
        &&& self.major < 128
        &&& self.minor < 1024
        &&& self.patch < 4096
    }

    /// Whether this version comes before the other: the first part in which they differ
    /// decides.
    pub open spec fn before(self, other: Version) -> bool {
        if self.variant != other.variant {
            self.variant < other.variant
        } else if self.major != other.major {
            self.major < other.major
        } else if self.minor != other.minor {
            self.minor < other.minor
        } else {
            self.patch < other.patch
        }
    }

    /// Converts a packed version.
    pub fn from_raw(raw: u32) -> (version: Version)
        ensures
            version == Version::spec_from_raw(raw),
    {
        Version {
            variant: ash::vk::api_version_variant(raw),
            major: ash::vk::api_version_major(raw),
            minor: ash::vk::api_version_minor(raw),
            patch: ash::vk::api_version_patch(raw),
        }
    }

    /// Packs the version.
    pub fn to_raw(self) -> (raw: u32)
        ensures
            raw == self.spec_to_raw(),
    {
        ash::vk::make_api_version(self.variant, self.major, self.minor, self.patch)
    }

    /// Whether this version comes before the other.
    pub fn is_before(self, other: Version) -> (r: bool)
        ensures
            r == self.before(other),
    {
        if self.variant != other.variant {
            self.variant < other.variant
        } else if self.major != other.major {
            self.major < other.major
        } else if self.minor != other.minor {
            self.minor < other.minor
        } else {
            self.patch < other.patch
        }
    }
}

impl PartialOrd for Version {
    fn partial_cmp(&self, other: &Self) -> (r: Option<Ordering>) {
        if self.is_before(*other) {
            Some(Ordering::Less)
        } else if other.is_before(*self) {
            Some(Ordering::Greater)
        } else {
            Some(Ordering::Equal)
        }
    }
}

impl vstd::std_specs::cmp::PartialOrdSpecImpl for Version {
    open spec fn obeys_partial_cmp_spec() -> bool {
        true
    }

    open spec fn partial_cmp_spec(&self, other: &Self) -> Option<Ordering> {
        if self.before(*other) {
            Some(Ordering::Less)
        } else if other.before(*self) {
            Some(Ordering::Greater)
        } else {
            Some(Ordering::Equal)
        }
    }
}

impl Default for Version {
    fn default() -> (version: Version)
        ensures
            version == (Version { variant: 0, major: 0, minor: 0, patch: 0 }),
    {
        Version { variant: 0, major: 0, minor: 0, patch: 0 }
    }
}

/// Unpacking gives back what was packed, and every packed version comes from its parts.
pub proof fn packing_round_trip(version: Version, raw: u32)
    ensures
        version.packable() ==> Version::spec_from_raw(version.spec_to_raw()) == version,
        Version::spec_from_raw(raw).packable(),
        Version::spec_from_raw(raw).spec_to_raw() == raw,
{
    let (a, b, c, d) = (version.variant, version.major, version.minor, version.patch);
    assert(a < 8 && b < 128 && c < 1024 && d < 4096 ==> {
        let p = (a << 29) | (b << 22) | (c << 12) | d;
        &&& p >> 29 == a
        &&& (p >> 22) & 0x7fu32 == b
        &&& (p >> 12) & 0x3ffu32 == c
        &&& p & 0xfffu32 == d
    }) by (bit_vector);
    assert({
        &&& raw >> 29 < 8
        &&& (raw >> 22) & 0x7fu32 < 128
        &&& (raw >> 12) & 0x3ffu32 < 1024
        &&& raw & 0xfffu32 < 4096
        &&& ((raw >> 29) << 29) | (((raw >> 22) & 0x7fu32) << 22) | (((raw >> 12) & 0x3ffu32) << 12)
            | (raw & 0xfffu32) == raw
    }) by (bit_vector);
}

/// Packed versions are ordered like their numbers.
pub proof fn packing_keeps_order(a: u32, b: u32)
    ensures
        Version::spec_from_raw(a).before(Version::spec_from_raw(b)) <==> a < b,
{
    assert(({
        if a >> 29 != b >> 29 {
            a >> 29 < b >> 29
        } else if (a >> 22) & 0x7fu32 != (b >> 22) & 0x7fu32 {
            (a >> 22) & 0x7fu32 < (b >> 22) & 0x7fu32
        } else if (a >> 12) & 0x3ffu32 != (b >> 12) & 0x3ffu32 {
            (a >> 12) & 0x3ffu32 < (b >> 12) & 0x3ffu32
        } else {
            a & 0xfffu32 < b & 0xfffu32
        }
    }) == (a < b)) by (bit_vector);
}

/// The order is total: of two different versions exactly one comes first.
pub proof fn order_is_total(a: Version, b: Version, c: Version)
    ensures
        a.before(b) || b.before(a) || a == b,
        !(a.before(b) && b.before(a)),
        !a.before(a),
        a.before(b) && b.before(c) ==> a.before(c),
{
}

} // verus!
