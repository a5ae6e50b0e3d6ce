//! Vulkan images.

use vstd::prelude::*;

use crate::backend::allocator::format::{has_alpha, Format, Fourcc, MODIFIER_LINEAR};
use crate::utils::byte_order::ByteOrder;

use super::device::has_bits;
use super::format::{
    channel_order, component_mapping_for_format, get_vk_format, mapping_of, vk_on, with_alpha,
    ChannelOrder, ComponentMapping, ComponentSwizzle, FormatEntry,
};

verus! {

/// Why an image could not be created or used.
#[derive(Clone, Copy, Debug, PartialEq, Eq, Structural)]
pub enum Error {
    InvalidSize,
    /// Format not supported.
    UnsupportedFormat,
    /// Invalid or unsupported dmabuf.
    UnsupportedDmabuf,
    /// The usage of the image does not allow the operation.
    MissingOrInvalidUsage,
    /// No supported memory type was found.
    NoMemoryAvailable,
    VulkanImage(i32),
    VulkanModifierQuery(i32),
    VulkanAllocate(i32),
    VulkanBind(i32),
    VulkanImageView(i32),
    /// The file descriptor of the dmabuf could not be duplicated.
    DmabufFdError(i32),
}

/// How the pixels of an image lie in memory.
#[derive(Clone, Copy, Debug, PartialEq, Eq, Structural)]
pub enum ImageTiling {
    Optimal,
    Linear,
    DrmFormatModifier,
}

/// The bit of memory that is local to the device.
pub const MEMORY_DEVICE_LOCAL: u32 = 1;

/// The bit of memory that can be mapped.
pub const MEMORY_HOST_VISIBLE: u32 = 2;

/// The bit of memory whose mappings need no flushing.
pub const MEMORY_HOST_COHERENT: u32 = 4;

/// The bit of images that are sampled.
pub const USAGE_SAMPLED: u32 = 4;

/// The bit of images that shaders write to.
pub const USAGE_STORAGE: u32 = 8;

/// What is known of an image.
#[derive(Clone, Copy, Debug, PartialEq, Eq, Structural)]
pub struct VulkanImage {
    pub width: u32,
    pub height: u32,
    pub format: i32,
    pub has_alpha: bool,
    pub mem_types: u32,
    pub usage: u32,
    pub tiling: ImageTiling,
    pub drm: Option<Format>,
    /// Whether the image has a view.
    pub view: bool,
    pub dmabuf_exportable: bool,
    pub dmabuf_plane_count: u32,
    /// The number of the device node that the image is on.
    pub node: Option<u64>,
    /// The byte order of the machine.
    pub order: ByteOrder,
}

/// What an image is asked to be.
#[derive(Clone, Copy, Debug, PartialEq, Eq, Structural)]
pub struct ImageRequest {
    pub width: u32,
    pub height: u32,
    pub format: i32,
    pub usage: u32,
    pub linear: bool,
    /// The pixel format of an image that can be exported with one of some modifiers.
    pub exportable: Option<Fourcc>,
    /// The number of planes of the dmabuf whose memory the image takes over.
    pub dmabuf_planes: Option<u32>,
    /// The byte order of the machine.
    pub order: ByteOrder,
}

impl ImageRequest {
    pub open spec fn spec_tiling(self) -> ImageTiling {
        if self.exportable.is_some() {
            ImageTiling::DrmFormatModifier
        } else if self.linear {
            ImageTiling::Linear
        } else {
            ImageTiling::Optimal
        }
    }

    pub open spec fn spec_has_alpha(self) -> bool {
        self.exportable matches Some(fourcc) ==> fourcc.spec_get_opaque().is_some()
    }

    /// How the image lies in memory.
    pub fn tiling(&self) -> (tiling: ImageTiling)
        ensures
            tiling == self.spec_tiling(),
    {
        if self.exportable.is_some() {
            ImageTiling::DrmFormatModifier
        } else if self.linear {
            ImageTiling::Linear
        } else {
            ImageTiling::Optimal
        }
    }

    /// Whether the alpha channel of the image is used.
    pub fn has_alpha(&self) -> (r: bool)
        ensures
            r == self.spec_has_alpha(),
    {
        match self.exportable {
            Some(fourcc) => has_alpha(fourcc),
            None => true,
        }
    }

    /// Whether the memory of the image is shared as a dmabuf.
    pub fn is_external(&self) -> (r: bool)
        ensures
            r == (self.exportable.is_some() || self.dmabuf_planes.is_some()),
    {
        self.exportable.is_some() || self.dmabuf_planes.is_some()
    }
}

/// Whether the bit of a memory type is set among those of the types that an image allows.
pub open spec fn allows(type_bits: u32, i: int) -> bool {
    0 <= i < 32 && type_bits & (1u32 << (i as u32)) != 0
}

/// The first memory type that the image allows and that is local to the device, or the length
/// if there is none.
pub open spec fn memory_index(type_bits: u32, types: Seq<u32>, from: int) -> int
    decreases types.len() - from,
{
    if from >= types.len() {
        types.len() as int
    } else if allows(type_bits, from) && has_bits(types[from], MEMORY_DEVICE_LOCAL) {
        from
    } else {
        memory_index(type_bits, types, from + 1)
    }
}

/// Chooses the memory of an image among the types of the device; gives the position and the
/// bits of the type.
pub fn choose_memory(type_bits: u32, types: &Vec<u32>) -> (r: Result<(u32, u32), Error>)
    requires
        types@.len() <= u32::MAX,
    ensures
        ({
            let i = memory_index(type_bits, types@, 0);
            r == (if i < types@.len() {
                Ok::<(u32, u32), Error>((i as u32, types@[i]))
            } else {
                Err(Error::NoMemoryAvailable)
            })
        }),
{
    for i in 0..types.len()
        invariant
            types@.len() <= u32::MAX,
            memory_index(type_bits, types@, 0) == memory_index(type_bits, types@, i as int),
    {
        let bits: u32 = types[i];
        if i < 32 && type_bits & (1u32 << (i as u32)) != 0 && bits & MEMORY_DEVICE_LOCAL == MEMORY_DEVICE_LOCAL {
            return Ok((i as u32, bits));
        }
    }
    Err(Error::NoMemoryAvailable)
}

/// The channels of the view of an image, for images that are sampled or written to.
pub open spec fn view_of(
    usage: u32,
    format: i32,
    alpha: bool,
    order: ByteOrder,
) -> Option<ComponentMapping> {
    if has_bits(usage, USAGE_STORAGE) {
        Some(mapping_of(ChannelOrder::Plain, true))
    } else if has_bits(usage, USAGE_SAMPLED) {
        Some(mapping_of(channel_order(format, order), alpha))
    } else {
        None
    }
}

/// The channels of the view of an image. Shaders write to images as they are.
pub fn view_components(usage: u32, format: i32, alpha: bool, order: ByteOrder) -> (r: Option<
    ComponentMapping,
>)
    ensures
        r == view_of(usage, format, alpha, order),
{
    if usage & USAGE_STORAGE == USAGE_STORAGE {
        Some(
            ComponentMapping {
                r: ComponentSwizzle::Identity,
                g: ComponentSwizzle::Identity,
                b: ComponentSwizzle::Identity,
                a: ComponentSwizzle::Identity,
            },
        )
    } else if usage & USAGE_SAMPLED == USAGE_SAMPLED {
        Some(component_mapping_for_format(format, alpha, order))
    } else {
        None
    }
}

/// The first entry of a format.
pub open spec fn find_entry(entries: Seq<FormatEntry>, format: Format) -> Option<FormatEntry>
    decreases entries.len(),
{
    if entries.len() == 0 {
        None
    } else if entries.first().format == format {
        Some(entries.first())
    } else {
        find_entry(entries.drop_first(), format)
    }
}

/// The number of planes of a format of the device.
pub fn plane_count(entries: &Vec<FormatEntry>, format: Format) -> (r: Option<u32>)
    ensures
        r == (match find_entry(entries@, format) {
            Some(entry) => Some(entry.modifier_properties.plane_count),
            None => None::<u32>,
        }),
{
    let ghost all = entries@;
    assert(all.skip(0) =~= all);
    for i in 0..entries.len()
        invariant
            all == entries@,
            find_entry(all, format) == find_entry(all.skip(i as int), format),
    {
        assert(all.skip(i as int).first() == all[i as int]);
        assert(all.skip(i as int).drop_first() =~= all.skip(i as int + 1));
        if entries[i].format == format {
            return Some(entries[i].modifier_properties.plane_count);
        }
    }
    assert(all.skip(all.len() as int) =~= Seq::<FormatEntry>::empty());
    None
}

impl VulkanImage {
    /// What an image for the renderer alone is asked to be.
    pub fn new(
        width: u32,
        height: u32,
        format: i32,
        usage: u32,
        linear: bool,
        order: ByteOrder,
    ) -> (request: ImageRequest)
        ensures
            request == (ImageRequest {
                width,
                height,
                format,
                usage,
                linear,
                exportable: None,
                dmabuf_planes: None,
                order,
            }),
    {
        ImageRequest {
            width,
            height,
            format,
            usage,
            linear,
            exportable: None,
            dmabuf_planes: None,
            order,
        }
    }

    /// What an image that can be exported as a dmabuf is asked to be.
    pub fn new_exportable(
        width: u32,
        height: u32,
        format: Fourcc,
        usage: u32,
        order: ByteOrder,
    ) -> (r: Result<ImageRequest, Error>)
        ensures
            r == (match vk_on(with_alpha(format), order) {
                Some(vk) => Ok::<ImageRequest, Error>(
                    ImageRequest {
                        width,
                        height,
                        format: vk,
                        usage,
                        linear: false,
                        exportable: Some(format),
                        dmabuf_planes: None,
                        order,
                    },
                ),
                None => Err(Error::UnsupportedFormat),
            }),
    {
        match get_vk_format(format, order) {
            Some(vk) => Ok(
                ImageRequest {
                    width,
                    height,
                    format: vk,
                    usage,
                    linear: false,
                    exportable: Some(format),
                    dmabuf_planes: None,
                    order,
                },
            ),
            None => Err(Error::UnsupportedFormat),
        }
    }

    /// What an image that shows a dmabuf is asked to be, if all planes of the dmabuf are in one
    /// file. `inodes` are the files of the planes, as far as they could be read.
    pub fn new_from_dmabuf(
        width: u32,
        height: u32,
        format: Fourcc,
        inodes: &Vec<Option<u64>>,
        usage: u32,
        order: ByteOrder,
    ) -> (r: Result<ImageRequest, Error>)
        requires
            0 < inodes@.len() <= u32::MAX,
        ensures
            r == (match (vk_on(with_alpha(format), order), inodes@[0]) {
                (None, _) => Err::<ImageRequest, Error>(Error::UnsupportedFormat),
                (Some(_), None) => Err(Error::UnsupportedDmabuf),
                (Some(vk), Some(first)) => if exists|i: int|
                    0 <= i < inodes@.len() && (#[trigger] inodes@[i]) is Some && inodes@[i]
                        != Some(first) {
                    Err(Error::UnsupportedFormat)
                } else {
                    Ok(
                        ImageRequest {
                            width,
                            height,
                            format: vk,
                            usage,
                            linear: false,
                            exportable: None,
                            dmabuf_planes: Some(inodes@.len() as u32),
                            order,
                        },
                    )
                },
            }),
    {
        let vk: i32 = match get_vk_format(format, order) {
            Some(vk) => vk,
            None => {
                return Err(Error::UnsupportedFormat);
            },
        };
        let first: u64 = match inodes[0] {
            Some(first) => first,
            None => {
                return Err(Error::UnsupportedDmabuf);
            },
        };
        for i in 1..inodes.len()
            invariant
                inodes@.len() > 0,
                inodes@[0] == Some(first),
                forall|j: int|
                    0 <= j < i ==> (#[trigger] inodes@[j]) is None || inodes@[j] == Some(first),
        {
            if let Some(inode) = inodes[i] {
                if inode != first {
                    assert(inodes@[i as int] is Some && inodes@[i as int] != Some(first));
                    return Err(Error::UnsupportedFormat);
                }
            }
        }
        Ok(
            ImageRequest {
                width,
                height,
                format: vk,
                usage,
                linear: false,
                exportable: None,
                dmabuf_planes: Some(inodes.len() as u32),
                order,
            },
        )
    }

    pub open spec fn spec_is_linear(self) -> bool {
        match self.tiling {
            ImageTiling::Linear => true,
            ImageTiling::DrmFormatModifier => self.drm matches Some(format) && format.modifier
                == MODIFIER_LINEAR,
            ImageTiling::Optimal => false,
        }
    }

    /// The bits of the usage that the image was created for.
    pub fn vk_usage(&self) -> (usage: u32)
        ensures
            usage == self.usage,
    {
        self.usage
    }

    /// The bits of the memory that the image is in.
    pub fn mem_bits(&self) -> (bits: u32)
        ensures
            bits == self.mem_types,
    {
        self.mem_types
    }

    /// Whether the rows of the image follow each other in memory.
    pub fn is_linear(&self) -> (r: bool)
        ensures
            r == self.spec_is_linear(),
    {
        match self.tiling {
            ImageTiling::Linear => true,
            ImageTiling::DrmFormatModifier => match self.drm {
                Some(format) => format.modifier == MODIFIER_LINEAR,
                None => false,
            },
            ImageTiling::Optimal => false,
        }
    }

    pub open spec fn spec_mappable(self) -> bool {
        has_bits(self.mem_types, MEMORY_HOST_VISIBLE) && self.spec_is_linear()
    }

    /// Whether the pixels can be read by mapping the memory of the image.
    pub fn is_mappable(&self) -> (r: bool)
        ensures
            r == self.spec_mappable(),
    {
        self.mem_types & MEMORY_HOST_VISIBLE == MEMORY_HOST_VISIBLE && self.is_linear()
    }
}

impl crate::backend::renderer::Texture for VulkanImage {
    open spec fn spec_width(&self) -> u32 {
        self.width
    }

    open spec fn spec_height(&self) -> u32 {
        self.height
    }

    open spec fn spec_format(&self) -> Option<Fourcc> {
        match self.drm {
            Some(format) => Some(format.code),
            None => None,
        }
    }

    fn width(&self) -> (width: u32) {
        self.width
    }

    fn height(&self) -> (height: u32) {
        self.height
    }

    fn format(&self) -> (format: Option<Fourcc>) {
        match self.drm {
            Some(format) => Some(format.code),
            None => None,
        }
    }
}

} // verus!
