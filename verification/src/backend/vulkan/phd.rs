//! Physical devices.

use vstd::prelude::*;

use crate::utils::device_number::{makedev, spec_makedev};
use crate::utils::text::{contains_text, texts};

use super::instance::Instance;
use super::version::Version;
use super::{Extension, UnsupportedProperty};

verus! {

/// Whether the numbers that a device reports for its nodes are those of drm nodes, as the system
/// tells.
#[derive(Clone, Copy, Debug, PartialEq, Eq, Structural)]
pub struct DrmNodes {
    pub primary: bool,
    pub render: bool,
}

/// The device nodes of a physical device, as Vulkan reports them.
#[derive(Clone, Copy, Debug, PartialEq, Eq, Structural)]
pub struct DrmProperties {
    pub has_primary: bool,
    pub has_render: bool,
    pub primary_major: u32,
    pub primary_minor: u32,
    pub render_major: u32,
    pub render_minor: u32,
}

/// The version of the conformance tests that a driver passes.
#[derive(Clone, Copy, Debug, PartialEq, Eq, Structural)]
pub struct ConformanceVersion {
    pub major: u8,
    pub minor: u8,
    pub subminor: u8,
    pub patch: u8,
}

/// What a driver tells of itself.
#[derive(Debug)]
pub struct DriverInfo {
    /// The number of the driver.
    pub id: i32,
    pub name: String,
    /// Further information, such as the version of the driver.
    pub info: String,
    pub conformance: ConformanceVersion,
}

/// What Vulkan reports of a physical device, as far as it was asked.
#[derive(Debug)]
pub struct ReportedProperties {
    /// The handle of the device.
    pub handle: u64,
    /// The handle of the instance that the device belongs to.
    pub instance: u64,
    pub name: String,
    pub api_version: u32,
    /// The number of the kind of device.
    pub device_type: i32,
    /// Which features of Vulkan 1.0 the device has, in the order in which Vulkan lists them.
    pub features: Vec<bool>,
    pub drm: Option<DrmProperties>,
    pub driver: Option<DriverInfo>,
}

/// A physical device of an instance, as it was found.
#[derive(Debug)]
pub struct FoundDevice {
    /// The names of the extensions, unless the device failed to list them.
    pub extensions: Result<Vec<String>, i32>,
    pub properties: ReportedProperties,
}

/// What is asked of a physical device beyond what every device tells.
#[derive(Clone, Copy, Debug, PartialEq, Eq, Structural)]
pub struct PropertyQuery {
    pub api_version: Version,
    /// Whether the device nodes are asked for.
    pub drm: bool,
    /// Whether the driver is asked about itself.
    pub driver: bool,
}

/// What is known of a physical device.
#[derive(Debug)]
pub struct PhysicalDevice {
    pub handle: u64,
    pub instance: u64,
    pub name: String,
    pub device_type: i32,
    pub api_version: Version,
    /// The version of the instance that the device belongs to.
    pub instance_version: Version,
    pub extensions: Vec<String>,
    pub features: Vec<bool>,
    pub properties_drm: Option<DrmProperties>,
    pub driver: Option<DriverInfo>,
}

impl PartialEq for PhysicalDevice {
    /// Devices are the same if they are one device of one instance.
    fn eq(&self, other: &PhysicalDevice) -> (r: bool) {
        self.handle == other.handle && self.instance == other.instance
    }
}

impl vstd::std_specs::cmp::PartialEqSpecImpl for PhysicalDevice {
    open spec fn obeys_eq_spec() -> bool {
        true
    }

    open spec fn eq_spec(&self, other: &PhysicalDevice) -> bool {
        self.handle == other.handle && self.instance == other.instance
    }
}

/// What can be handed to other threads, and used by several of them at once.
pub trait Shareable: Send + Sync {

}

impl Shareable for PhysicalDevice {

}

impl Shareable for Instance {

}

/// The version of Vulkan that can be used with a device: the lower of what the device reports
/// and of the instance. Devices below the first supported version are not used.
pub open spec fn usable(reported: u32, instance_version: Version) -> Option<Version> {
    let raw = instance_version.spec_to_raw();
    let version = Version::spec_from_raw(
        if reported <= raw {
            reported
        } else {
            raw
        },
    );
    if version.before(Version::numbered(1, 1)) {
        None
    } else {
        Some(version)
    }
}

/// The version of Vulkan that can be used with a device.
pub fn usable_version(reported: u32, instance_version: Version) -> (r: Option<Version>)
    requires
        !instance_version.before(Version::numbered(1, 1)),
    ensures
        r == usable(reported, instance_version),
{
    let raw: u32 = instance_version.to_raw();
    let version = Version::from_raw(if reported <= raw { reported } else { raw });
    if version.is_before(Version::version_1_1()) {
        None
    } else {
        Some(version)
    }
}

/// What is asked of a device that reports a version, if the device can be used at all.
pub open spec fn queried(
    reported: u32,
    instance_version: Version,
    extensions: Seq<String>,
) -> Option<PropertyQuery> {
    match usable(reported, instance_version) {
        None => None,
        Some(api_version) => Some(
            PropertyQuery {
                api_version,
                drm: texts(extensions).contains(Extension::PhysicalDeviceDrm.spec_name()),
                driver: !api_version.before(Version::numbered(1, 2)) || texts(extensions).contains(
                    Extension::DriverProperties.spec_name(),
                ),
            },
        ),
    }
}

/// What is known of a device from what it reports, as far as it was asked.
pub open spec fn described(
    query: PropertyQuery,
    instance_version: Version,
    extensions: Vec<String>,
    reported: ReportedProperties,
) -> PhysicalDevice {
    PhysicalDevice {
        handle: reported.handle,
        instance: reported.instance,
        name: reported.name,
        device_type: reported.device_type,
        api_version: query.api_version,
        instance_version,
        extensions,
        features: reported.features,
        properties_drm: if query.drm {
            reported.drm
        } else {
            None
        },
        driver: if query.driver {
            reported.driver
        } else {
            None
        },
    }
}

/// The devices that can be used among those that were found.
pub open spec fn enumerated(instance_version: Version, found: Seq<FoundDevice>) -> Seq<
    PhysicalDevice,
>
    decreases found.len(),
{
    if found.len() == 0 {
        Seq::empty()
    } else {
        let rest = enumerated(instance_version, found.drop_first());
        let device = found.first();
        match device.extensions {
            Ok(extensions) => match queried(
                device.properties.api_version,
                instance_version,
                extensions@,
            ) {
                Some(query) => seq![
                    described(query, instance_version, extensions, device.properties),
                ] + rest,
                None => rest,
            },
            Err(_) => rest,
        }
    }
}

impl PhysicalDevice {
    pub open spec fn has(self, extension: Extension) -> bool {
        texts(self.extensions@).contains(extension.spec_name())
    }

    /// The number that is reported for the render node.
    pub open spec fn spec_render_number(self) -> Option<u64> {
        match self.properties_drm {
            Some(p) if p.has_render => Some(spec_makedev(p.render_major, p.render_minor)),
            _ => None,
        }
    }

    /// The number that is reported for the primary node.
    pub open spec fn spec_primary_number(self) -> Option<u64> {
        match self.properties_drm {
            Some(p) if p.has_primary => Some(spec_makedev(p.primary_major, p.primary_minor)),
            _ => None,
        }
    }

    /// The render node, where the reported number is that of a node.
    pub open spec fn spec_render_node(self, nodes: DrmNodes) -> Option<u64> {
        if nodes.render {
            self.spec_render_number()
        } else {
            None
        }
    }

    /// The primary node, where the reported number is that of a node.
    pub open spec fn spec_primary_node(self, nodes: DrmNodes) -> Option<u64> {
        if nodes.primary {
            self.spec_primary_number()
        } else {
            None
        }
    }

    /// Whether the device supports an extension.
    pub fn has_device_extension(&self, extension: Extension) -> (r: bool)
        ensures
            r == self.has(extension),
    {
        contains_text(&self.extensions, extension.name())
    }

    /// What is asked of a device that reports a version, if the device can be used at all. The
    /// driver can be asked with the extension, or from the version that took it over.
    pub fn query(reported: u32, instance_version: Version, extensions: &Vec<String>) -> (r: Option<
        PropertyQuery,
    >)
        requires
            !instance_version.before(Version::numbered(1, 1)),
        ensures
            r == queried(reported, instance_version, extensions@),
    {
        match usable_version(reported, instance_version) {
            None => None,
            Some(api_version) => Some(
                PropertyQuery {
                    api_version,
                    drm: contains_text(extensions, Extension::PhysicalDeviceDrm.name()),
                    driver: !api_version.is_before(Version::version_1_2()) || contains_text(
                        extensions,
                        Extension::DriverProperties.name(),
                    ),
                },
            ),
        }
    }

    /// A physical device, given what it reports; what was not asked for is not known.
    pub fn from_phd(
        query: &PropertyQuery,
        instance_version: Version,
        extensions: Vec<String>,
        reported: ReportedProperties,
    ) -> (device: PhysicalDevice)
        ensures
            device == described(*query, instance_version, extensions, reported),
    {
        PhysicalDevice {
            handle: reported.handle,
            instance: reported.instance,
            name: reported.name,
            device_type: reported.device_type,
            api_version: query.api_version,
            instance_version,
            extensions,
            features: reported.features,
            properties_drm: if query.drm {
                reported.drm
            } else {
                None
            },
            driver: if query.driver {
                reported.driver
            } else {
                None
            },
        }
    }

    /// The physical devices of an instance that can be used, in the order in which they were
    /// found. A device that fails to list its extensions is left out.
    pub fn enumerate(instance_version: Version, found: Result<Vec<FoundDevice>, i32>) -> (r: Result<
        Vec<PhysicalDevice>,
        i32,
    >)
        requires
            !instance_version.before(Version::numbered(1, 1)),
        ensures
            match found {
                Ok(found) => r is Ok && r->Ok_0@ == enumerated(instance_version, found@),
                Err(code) => r == Err::<Vec<PhysicalDevice>, i32>(code),
            },
    {
        let mut left: Vec<FoundDevice> = match found {
            Ok(found) => found,
            Err(code) => {
                return Err(code);
            },
        };
        let mut devices: Vec<PhysicalDevice> = Vec::new();
        let ghost all = left@;
        assert(devices@ + enumerated(instance_version, all) =~= enumerated(instance_version, all));
        while left.len() > 0
            invariant
                !instance_version.before(Version::numbered(1, 1)),
                enumerated(instance_version, all) == devices@ + enumerated(
                    instance_version,
                    left@,
                ),
            decreases left@.len(),
        {
            let ghost before = left@;
            let ghost done = devices@;
            let device = left.remove(0);
            assert(left@ =~= before.drop_first());
            if let Ok(extensions) = device.extensions {
                if let Some(query) = PhysicalDevice::query(
                    device.properties.api_version,
                    instance_version,
                    &extensions,
                ) {
                    devices.push(
                        PhysicalDevice::from_phd(
                            &query,
                            instance_version,
                            extensions,
                            device.properties,
                        ),
                    );
                }
            }
            assert(enumerated(instance_version, all) =~= devices@ + enumerated(
                instance_version,
                left@,
            ));
        }
        assert(devices@ + Seq::<PhysicalDevice>::empty() =~= devices@);
        Ok(devices)
    }

    /// Which features of Vulkan 1.0 the device has, in the order in which Vulkan lists them.
    pub fn features(&self) -> (features: &Vec<bool>)
        ensures
            *features == self.features,
    {
        &self.features
    }

    /// The handle of the device.
    pub fn handle(&self) -> (handle: u64)
        ensures
            handle == self.handle,
    {
        self.handle
    }

    /// The name of the device.
    pub fn name(&self) -> (name: &String)
        ensures
            *name == self.name,
    {
        &self.name
    }

    /// The version of Vulkan that can be used with the device.
    pub fn api_version(&self) -> (version: Version)
        ensures
            version == self.api_version,
    {
        self.api_version
    }

    /// The number of the kind of device.
    pub fn ty(&self) -> (ty: i32)
        ensures
            ty == self.device_type,
    {
        self.device_type
    }

    /// What the driver tells of itself, if it could be asked.
    pub fn driver(&self) -> (driver: Option<&DriverInfo>)
        ensures
            match driver {
                Some(info) => self.driver == Some(*info),
                None => self.driver is None,
            },
    {
        match &self.driver {
            Some(info) => Some(info),
            None => None,
        }
    }

    /// The names of the extensions that the device supports.
    pub fn device_extensions(&self) -> (extensions: &Vec<String>)
        ensures
            *extensions == self.extensions,
    {
        &self.extensions
    }

    /// The number that the device reports for its primary node, by which the node is looked up.
    pub fn primary_number(&self) -> (number: Option<u64>)
        ensures
            number == self.spec_primary_number(),
    {
        match self.properties_drm {
            Some(p) if p.has_primary => Some(makedev(p.primary_major, p.primary_minor)),
            _ => None,
        }
    }

    /// The primary node, if the device has one: the number that it reports has to be that of a
    /// drm node.
    pub fn primary_node(&self, nodes: DrmNodes) -> (r: Result<Option<u64>, UnsupportedProperty>)
        ensures
            r == (if self.properties_drm is None {
                Err::<Option<u64>, UnsupportedProperty>(
                    UnsupportedProperty::Extension(Extension::PhysicalDeviceDrm),
                )
            } else {
                Ok(self.spec_primary_node(nodes))
            }),
    {
        if self.properties_drm.is_none() {
            return Err(UnsupportedProperty::Extension(Extension::PhysicalDeviceDrm));
        }
        Ok(
            if nodes.primary {
                self.primary_number()
            } else {
                None
            },
        )
    }

    /// The number that the device reports for its render node, by which the node is looked up.
    pub fn render_number(&self) -> (number: Option<u64>)
        ensures
            number == self.spec_render_number(),
    {
        match self.properties_drm {
            Some(p) if p.has_render => Some(makedev(p.render_major, p.render_minor)),
            _ => None,
        }
    }

    /// The render node, if the device has one: the number that it reports has to be that of a
    /// drm node.
    pub fn render_node(&self, nodes: DrmNodes) -> (r: Result<Option<u64>, UnsupportedProperty>)
        ensures
            r == (if self.properties_drm is None {
                Err::<Option<u64>, UnsupportedProperty>(
                    UnsupportedProperty::Extension(Extension::PhysicalDeviceDrm),
                )
            } else {
                Ok(self.spec_render_node(nodes))
            }),
    {
        if self.properties_drm.is_none() {
            return Err(UnsupportedProperty::Extension(Extension::PhysicalDeviceDrm));
        }
        Ok(
            if nodes.render {
                self.render_number()
            } else {
                None
            },
        )
    }

    /// Whether the modifiers of a format can be asked for.
    pub fn check_format_modifiers(&self) -> (r: Result<(), UnsupportedProperty>)
        ensures
            r == (if self.has(Extension::ImageDrmFormatModifier) {
                Ok::<(), UnsupportedProperty>(())
            } else {
                Err(UnsupportedProperty::Extension(Extension::ImageDrmFormatModifier))
            }),
    {
        if self.has_device_extension(Extension::ImageDrmFormatModifier) {
            Ok(())
        } else {
            Err(UnsupportedProperty::Extension(Extension::ImageDrmFormatModifier))
        }
    }
}

/// The usable version is never above the version of the instance nor above that of the device.
pub proof fn usable_version_is_bounded(reported: u32, instance_version: Version)
    requires
        instance_version.packable(),
    ensures
        usable(reported, instance_version) matches Some(version) ==> {
            &&& !instance_version.before(version)
            &&& !Version::spec_from_raw(reported).before(version)
            &&& !version.before(Version::numbered(1, 1))
        },
{
    super::version::packing_round_trip(instance_version, reported);
    super::version::packing_keeps_order(instance_version.spec_to_raw(), reported);
    super::version::packing_keeps_order(reported, instance_version.spec_to_raw());
}

/// The usable devices come in the order in which they were found.
pub proof fn devices_keep_their_order(
    instance_version: Version,
    first: Seq<FoundDevice>,
    second: Seq<FoundDevice>,
)
    ensures
        enumerated(instance_version, first + second) == enumerated(instance_version, first)
            + enumerated(instance_version, second),
    decreases first.len(),
{
    let all = first + second;
    if first.len() == 0 {
        assert(all =~= second);
        assert(enumerated(instance_version, first) + enumerated(instance_version, second)
            =~= enumerated(instance_version, second));
    } else {
        devices_keep_their_order(instance_version, first.drop_first(), second);
        assert(all.drop_first() =~= first.drop_first() + second);
        assert(all.first() == first.first());
        assert(enumerated(instance_version, all) =~= enumerated(instance_version, first)
            + enumerated(instance_version, second));
    }
}

/// A device that was found is used exactly if it lists its extensions and neither it nor the
/// instance is below the first supported version. What is known of it is what it reports; its nodes
/// are known only with the extension for them, and its driver only with that extension or from the
/// version that took it over.
pub proof fn found_device_is_described(instance_version: Version, found: FoundDevice)
    requires
        instance_version.packable(),
        !instance_version.before(Version::numbered(1, 1)),
    ensures
        ({
            let devices = enumerated(instance_version, seq![found]);
            let reported = Version::spec_from_raw(found.properties.api_version);
            &&& devices.len() == (if found.extensions is Ok && !reported.before(
                Version::numbered(1, 1),
            ) {
                1int
            } else {
                0
            })
            &&& devices.len() == 1 ==> {
                let device = devices[0];
                &&& device.handle == found.properties.handle
                &&& device.instance == found.properties.instance
                &&& device.name == found.properties.name
                &&& device.device_type == found.properties.device_type
                &&& device.features == found.properties.features
                &&& device.extensions == found.extensions->Ok_0
                &&& device.instance_version == instance_version
                &&& device.api_version == reported || device.api_version == instance_version
                &&& !reported.before(device.api_version) && !instance_version.before(
                    device.api_version,
                )
                &&& device.has(Extension::PhysicalDeviceDrm) ==> device.properties_drm
                    == found.properties.drm
                &&& !device.has(Extension::PhysicalDeviceDrm) ==> device.properties_drm is None
                &&& device.has(Extension::DriverProperties) || !device.api_version.before(
                    Version::numbered(1, 2),
                ) ==> device.driver == found.properties.driver
                &&& !device.has(Extension::DriverProperties) && device.api_version.before(
                    Version::numbered(1, 2),
                ) ==> device.driver is None
            }
        }),
{
    let one = seq![found];
    let raw = found.properties.api_version;
    assert(one.drop_first() =~= Seq::<FoundDevice>::empty());
    assert(enumerated(instance_version, one.drop_first()) =~= Seq::<PhysicalDevice>::empty());
    assert(one.first() == found);
    super::version::packing_round_trip(instance_version, raw);
    super::version::packing_keeps_order(raw, instance_version.spec_to_raw());
    super::version::packing_keeps_order(instance_version.spec_to_raw(), raw);
}

/// The nodes of a device are those whose numbers it reports, where they exist: their numbers split
/// into the two parts that were reported.
pub proof fn nodes_are_those_reported(device: PhysicalDevice, nodes: DrmNodes)
    ensures
        device.spec_render_node(nodes) is Some <==> nodes.render && device.properties_drm is Some
            && device.properties_drm->0.has_render,
        device.spec_primary_node(nodes) is Some <==> nodes.primary && device.properties_drm is Some
            && device.properties_drm->0.has_primary,
        device.spec_render_node(nodes) matches Some(node) ==> {
            &&& crate::utils::device_number::spec_major(node)
                == device.properties_drm->0.render_major
            &&& crate::utils::device_number::spec_minor(node)
                == device.properties_drm->0.render_minor
        },
        device.spec_primary_node(nodes) matches Some(node) ==> {
            &&& crate::utils::device_number::spec_major(node)
                == device.properties_drm->0.primary_major
            &&& crate::utils::device_number::spec_minor(node)
                == device.properties_drm->0.primary_minor
        },
{
    if let Some(p) = device.properties_drm {
        crate::utils::device_number::device_number_round_trip(p.render_major, p.render_minor);
        crate::utils::device_number::device_number_round_trip(p.primary_major, p.primary_minor);
    }
}

} // verus!
