//! What a device can do beyond the basics.

use vstd::prelude::*;

use crate::backend::vulkan::phd::PhysicalDevice;
use crate::backend::vulkan::version::Version;
use crate::backend::vulkan::Extension;

verus! {

/// An optional capability of a device.
#[derive(Clone, Copy, Debug, PartialEq, Eq, Hash, Structural)]
pub enum Capability {
    /// Memory can be shared as dmabufs.
    DmabufMemory,
    /// Images can be copied by the host.
    HostImageCopy,
    /// Timelines can be shared.
    ExportTimeline,
}

/// The features of a device that matter.
#[derive(Clone, Copy, Debug, PartialEq, Eq, Structural)]
pub struct Features {
    pub timeline_semaphore: bool,
    pub host_image_copy: bool,
}

/// A feature that is required.
#[derive(Clone, Copy, Debug, PartialEq, Eq, Structural)]
pub enum Feature {
    TimelineSemaphore,
    HostImageCopy,
}

/// A group of features that is asked for at once.
#[derive(Clone, Copy, Debug, PartialEq, Eq, Structural)]
pub enum FeatureGroup {
    Core,
    Vulkan11,
    Vulkan12,
    HostImageCopy,
    Vulkan13,
}

impl Features {
    /// The groups that a device of a version is asked for, each linked to the next.
    pub fn groups(version: &Version) -> (groups: Vec<FeatureGroup>)
        ensures
            groups@ == (if version.before(Version::numbered(1, 3)) {
                seq![
                    FeatureGroup::Core,
                    FeatureGroup::Vulkan11,
                    FeatureGroup::Vulkan12,
                    FeatureGroup::HostImageCopy,
                ]
            } else {
                seq![
                    FeatureGroup::Core,
                    FeatureGroup::Vulkan11,
                    FeatureGroup::Vulkan12,
                    FeatureGroup::HostImageCopy,
                    FeatureGroup::Vulkan13,
                ]
            }),
    {
        let mut groups: Vec<FeatureGroup> = vec![
            FeatureGroup::Core,
            FeatureGroup::Vulkan11,
            FeatureGroup::Vulkan12,
            FeatureGroup::HostImageCopy,
        ];
        if !version.is_before(Version::version_1_3()) {
            groups.push(FeatureGroup::Vulkan13);
            assert(groups@ =~= seq![
                FeatureGroup::Core,
                FeatureGroup::Vulkan11,
                FeatureGroup::Vulkan12,
                FeatureGroup::HostImageCopy,
                FeatureGroup::Vulkan13,
            ]);
        } else {
            assert(groups@ =~= seq![
                FeatureGroup::Core,
                FeatureGroup::Vulkan11,
                FeatureGroup::Vulkan12,
                FeatureGroup::HostImageCopy,
            ]);
        }
        groups
    }

    /// The features that a device is created with.
    pub fn required_features() -> (features: Features)
        ensures
            features == (Features { timeline_semaphore: true, host_image_copy: true }),
    {
        Features { timeline_semaphore: true, host_image_copy: true }
    }

    /// Whether all required features are there; names the first that is missing.
    pub fn has_required_features(&self) -> (r: Result<(), Feature>)
        ensures
            r == (if !self.timeline_semaphore {
                Err::<(), Feature>(Feature::TimelineSemaphore)
            } else if !self.host_image_copy {
                Err(Feature::HostImageCopy)
            } else {
                Ok(())
            }),
    {
        if !self.timeline_semaphore {
            return Err(Feature::TimelineSemaphore);
        }
        if !self.host_image_copy {
            return Err(Feature::HostImageCopy);
        }
        Ok(())
    }
}

/// The bit of semaphores that can be exported.
pub const SEMAPHORE_EXPORTABLE: u32 = 1;

/// The bit of semaphores that can be imported.
pub const SEMAPHORE_IMPORTABLE: u32 = 2;

impl Capability {
    pub open spec fn spec_extensions(self) -> Seq<Extension> {
        match self {
            Capability::DmabufMemory => seq![
                Extension::ExternalMemoryFd,
                Extension::ImageDrmFormatModifier,
                Extension::ExternalMemoryDmaBuf,
            ],
            Capability::HostImageCopy => seq![Extension::HostImageCopy],
            Capability::ExportTimeline => seq![Extension::ExternalSemaphoreFd],
        }
    }

    /// The extensions of some capabilities, in order.
    pub open spec fn extensions_of(caps: Seq<Capability>) -> Seq<Extension>
        decreases caps.len(),
    {
        if caps.len() == 0 {
            Seq::empty()
        } else {
            Self::extensions_of(caps.drop_last()) + caps.last().spec_extensions()
        }
    }

    /// Whether timelines can be shared. `features` are the bits of the semaphores that can be
    /// shared as file descriptors.
    pub fn supports_export_timeline(phd: &PhysicalDevice, features: u32) -> (r: Option<Capability>)
        ensures
            r == (if phd.has(Extension::ExternalSemaphoreFd) && features & 3u32 == 3u32 {
                Some(Capability::ExportTimeline)
            } else {
                None
            }),
    {
        if !phd.has_device_extension(Extension::ExternalSemaphoreFd) {
            return None;
        }
        let wanted: u32 = SEMAPHORE_IMPORTABLE | SEMAPHORE_EXPORTABLE;
        assert(2u32 | 1u32 == 3u32) by (bit_vector);
        if features & wanted == wanted {
            Some(Capability::ExportTimeline)
        } else {
            None
        }
    }

    /// Whether images can be copied by the host.
    pub fn supports_host_image_copy(phd: &PhysicalDevice) -> (r: Option<Capability>)
        ensures
            r == (if phd.has(Extension::HostImageCopy) {
                Some(Capability::HostImageCopy)
            } else {
                None
            }),
    {
        if phd.has_device_extension(Extension::HostImageCopy) {
            Some(Capability::HostImageCopy)
        } else {
            None
        }
    }

    /// Whether memory can be shared as dmabufs, which takes three extensions.
    pub fn supports_dmabuf_memory(phd: &PhysicalDevice) -> (r: Option<Capability>)
        ensures
            r == (if phd.has(Extension::ExternalMemoryFd) && phd.has(
                Extension::ImageDrmFormatModifier,
            ) && phd.has(Extension::ExternalMemoryDmaBuf) {
                Some(Capability::DmabufMemory)
            } else {
                None
            }),
    {
        if phd.has_device_extension(Extension::ExternalMemoryFd) && phd.has_device_extension(
            Extension::ImageDrmFormatModifier,
        ) && phd.has_device_extension(Extension::ExternalMemoryDmaBuf) {
            Some(Capability::DmabufMemory)
        } else {
            None
        }
    }

    /// The extensions that a device is created with for some capabilities.
    pub fn as_extensions(caps: &Vec<Capability>) -> (extensions: Vec<Extension>)
        ensures
            extensions@ == Capability::extensions_of(caps@),
    {
        let mut extensions: Vec<Extension> = Vec::new();
        assert(caps@.take(0) =~= Seq::<Capability>::empty());
        for i in 0..caps.len()
            invariant
                extensions@ == Capability::extensions_of(caps@.take(i as int)),
        {
            assert(caps@.take(i as int + 1).drop_last() =~= caps@.take(i as int));
            let ghost before = extensions@;
            match caps[i] {
                Capability::DmabufMemory => {
                    extensions.push(Extension::ExternalMemoryFd);
                    extensions.push(Extension::ImageDrmFormatModifier);
                    extensions.push(Extension::ExternalMemoryDmaBuf);
                },
                Capability::HostImageCopy => {
                    extensions.push(Extension::HostImageCopy);
                },
                Capability::ExportTimeline => {
                    extensions.push(Extension::ExternalSemaphoreFd);
                },
            }
            assert(extensions@ =~= before + caps@[i as int].spec_extensions());
        }
        assert(caps@.take(caps.len() as int) =~= caps@);
        extensions
    }

    /// The capabilities of a device.
    pub fn supported(phd: &PhysicalDevice, semaphore_features: u32) -> (caps: Vec<Capability>)
        ensures
            caps@ == Capability::supported_by(*phd, semaphore_features),
    {
        let mut caps: Vec<Capability> = Vec::new();
        if let Some(cap) = Capability::supports_dmabuf_memory(phd) {
            caps.push(cap);
        }
        if let Some(cap) = Capability::supports_export_timeline(phd, semaphore_features) {
            caps.push(cap);
        }
        if let Some(cap) = Capability::supports_host_image_copy(phd) {
            caps.push(cap);
        }
        assert(caps@ =~= Capability::supported_by(*phd, semaphore_features));
        caps
    }

    pub open spec fn supported_by(phd: PhysicalDevice, semaphore_features: u32) -> Seq<Capability> {
        let dmabuf = if phd.has(Extension::ExternalMemoryFd) && phd.has(
            Extension::ImageDrmFormatModifier,
        ) && phd.has(Extension::ExternalMemoryDmaBuf) {
            seq![Capability::DmabufMemory]
        } else {
            Seq::empty()
        };
        let timeline = if phd.has(Extension::ExternalSemaphoreFd) && semaphore_features & 3u32
            == 3u32 {
            seq![Capability::ExportTimeline]
        } else {
            Seq::empty()
        };
        let copy = if phd.has(Extension::HostImageCopy) {
            seq![Capability::HostImageCopy]
        } else {
            Seq::empty()
        };
        dmabuf + timeline + copy
    }
}

/// A device is only asked for extensions that it has.
pub proof fn extensions_are_available(
    phd: PhysicalDevice,
    semaphore_features: u32,
    extension: Extension,
)
    requires
        Capability::extensions_of(Capability::supported_by(phd, semaphore_features)).contains(
            extension,
        ),
    ensures
        phd.has(extension),
{
    let caps = Capability::supported_by(phd, semaphore_features);
    assert forall|i: int, e: Extension|
        0 <= i < caps.len() && #[trigger] caps[i].spec_extensions().contains(e) implies phd.has(
        e,
    ) by {
        let list = caps[i].spec_extensions();
        let k = choose|k: int| 0 <= k < list.len() && list[k] == e;
        assert(list[k] == e);
    }
    lemma_extensions_come_from(caps, extension);
}

proof fn lemma_extensions_come_from(caps: Seq<Capability>, extension: Extension)
    requires
        Capability::extensions_of(caps).contains(extension),
    ensures
        exists|i: int|
            0 <= i < caps.len() && #[trigger] caps[i].spec_extensions().contains(extension),
    decreases caps.len(),
{
    if caps.len() > 0 {
        let head = Capability::extensions_of(caps.drop_last());
        let last = caps.last().spec_extensions();
        let all = head + last;
        let k = choose|k: int| 0 <= k < all.len() && all[k] == extension;
        if k < head.len() {
            assert(head[k] == extension);
            lemma_extensions_come_from(caps.drop_last(), extension);
            let i = choose|i: int|
                0 <= i < caps.drop_last().len()
                    && #[trigger] caps.drop_last()[i].spec_extensions().contains(extension);
            assert(caps[i].spec_extensions().contains(extension));
        } else {
            assert(last[k - head.len()] == extension);
            assert(caps[caps.len() - 1].spec_extensions().contains(extension));
        }
    }
}

/// A device is asked for every extension that its capabilities need: three for memory that is shared
/// as dmabufs, and one each for the others.
pub proof fn capabilities_bring_their_extensions(caps: Seq<Capability>)
    ensures
        ({
            let all = Capability::extensions_of(caps);
            &&& caps.contains(Capability::DmabufMemory) <==> all.contains(
                Extension::ExternalMemoryFd,
            )
            &&& caps.contains(Capability::DmabufMemory) <==> all.contains(
                Extension::ImageDrmFormatModifier,
            )
            &&& caps.contains(Capability::DmabufMemory) <==> all.contains(
                Extension::ExternalMemoryDmaBuf,
            )
            &&& caps.contains(Capability::HostImageCopy) <==> all.contains(
                Extension::HostImageCopy,
            )
            &&& caps.contains(Capability::ExportTimeline) <==> all.contains(
                Extension::ExternalSemaphoreFd,
            )
        }),
{
    lemma_brings(caps, Capability::DmabufMemory, Extension::ExternalMemoryFd, 0);
    lemma_brings(caps, Capability::DmabufMemory, Extension::ImageDrmFormatModifier, 1);
    lemma_brings(caps, Capability::DmabufMemory, Extension::ExternalMemoryDmaBuf, 2);
    lemma_brings(caps, Capability::HostImageCopy, Extension::HostImageCopy, 0);
    lemma_brings(caps, Capability::ExportTimeline, Extension::ExternalSemaphoreFd, 0);
}

proof fn lemma_brings(caps: Seq<Capability>, cap: Capability, extension: Extension, k: int)
    requires
        0 <= k < cap.spec_extensions().len(),
        cap.spec_extensions()[k] == extension,
        forall|other: Capability, i: int|
            0 <= i < other.spec_extensions().len() && #[trigger] other.spec_extensions()[i]
                == extension ==> other == cap,
    ensures
        caps.contains(cap) <==> Capability::extensions_of(caps).contains(extension),
    decreases caps.len(),
{
    if caps.len() > 0 {
        let rest = caps.drop_last();
        let head = Capability::extensions_of(rest);
        let last = caps.last().spec_extensions();
        let all = head + last;
        lemma_brings(rest, cap, extension, k);
        if rest.contains(cap) {
            let i = choose|i: int| 0 <= i < rest.len() && rest[i] == cap;
            assert(caps[i] == cap);
            let j = choose|j: int| 0 <= j < head.len() && head[j] == extension;
            assert(all[j] == extension);
        }
        if caps.last() == cap {
            assert(caps[caps.len() - 1] == cap);
            assert(all[head.len() + k] == extension);
        }
        if all.contains(extension) {
            let j = choose|j: int| 0 <= j < all.len() && all[j] == extension;
            if j < head.len() {
                assert(head[j] == extension);
            } else {
                assert(last[j - head.len()] == extension);
                assert(caps.last() == cap);
            }
        }
        if caps.contains(cap) {
            let i = choose|i: int| 0 <= i < caps.len() && caps[i] == cap;
            if i < rest.len() {
                assert(rest[i] == cap);
            }
        }
    }
}

/// Exactly a device with both features has what is required; of a missing one the error names it.
pub proof fn required_features_are_both(features: Features, r: Result<(), Feature>)
    requires
        call_ensures(Features::has_required_features, (&features,), r),
    ensures
        r is Ok <==> features.timeline_semaphore && features.host_image_copy,
        r matches Err(feature) ==> {
            &&& feature is TimelineSemaphore ==> !features.timeline_semaphore
            &&& feature is HostImageCopy ==> features.timeline_semaphore
                && !features.host_image_copy
        },
{
}

/// The features of a version are asked for exactly from that version on, behind those of all earlier
/// ones.
pub proof fn feature_groups_follow_the_version(version: Version, groups: Vec<FeatureGroup>)
    requires
        call_ensures(Features::groups, (&version,), groups),
    ensures
        groups@[0] is Core && groups@[1] is Vulkan11 && groups@[2] is Vulkan12 && groups@[3]
            is HostImageCopy,
        groups@.len() == 4 || groups@.len() == 5 && groups@[4] is Vulkan13,
        groups@.len() == 4 <==> version.before(Version::numbered(1, 3)),
{
}

} // verus!
