//! Logical devices: which queue is used, and what the enabled extensions give.

use vstd::prelude::*;

use super::format::FormatEntry;
use super::Extension;

verus! {

/// What a queue is used for.
#[derive(Clone, Copy, Debug, PartialEq, Eq, Hash, Structural)]
pub enum QueueType {
    Transfer,
    Compute,
    Graphics,
}

/// The bit of queues that draw.
pub const QUEUE_GRAPHICS: u32 = 1;

/// The bit of queues that compute.
pub const QUEUE_COMPUTE: u32 = 2;

/// The bit of queues that copy.
pub const QUEUE_TRANSFER: u32 = 4;

/// Why a device could not be created.
#[derive(Clone, Copy, Debug, PartialEq, Eq, Structural)]
pub enum DeviceError {
    /// No matching queue.
    NoUsableQueue,
    /// Vulkan API error.
    Vk(i32),
}

impl QueueType {
    pub open spec fn spec_vk_flags(self) -> u32 {
        match self {
            QueueType::Transfer => QUEUE_TRANSFER,
            QueueType::Compute => QUEUE_COMPUTE,
            QueueType::Graphics => QUEUE_GRAPHICS,
        }
    }

    /// The bit that queues of this type have.
    pub fn vk_flags(&self) -> (flags: u32)
        ensures
            flags == self.spec_vk_flags(),
    {
        match self {
            QueueType::Transfer => QUEUE_TRANSFER,
            QueueType::Compute => QUEUE_COMPUTE,
            QueueType::Graphics => QUEUE_GRAPHICS,
        }
    }
}

/// Whether all of the bits are set.
pub open spec fn has_bits(value: u32, bits: u32) -> bool {
    value & bits == bits
}

/// The position of the first value with all of the bits, or the length if there is none.
pub open spec fn first_with(values: Seq<u32>, bits: u32) -> int
    decreases values.len(),
{
    if values.len() == 0 {
        0
    } else if has_bits(values.first(), bits) {
        0
    } else {
        1 + first_with(values.drop_first(), bits)
    }
}

/// The position that is found has the bits, and no earlier one has.
pub proof fn first_with_is_first(values: Seq<u32>, bits: u32)
    ensures
        0 <= first_with(values, bits) <= values.len(),
        first_with(values, bits) < values.len() ==> has_bits(
            values[first_with(values, bits)],
            bits,
        ),
        forall|i: int| 0 <= i < first_with(values, bits) ==> !has_bits(#[trigger] values[i], bits),
    decreases values.len(),
{
    if values.len() > 0 && !has_bits(values.first(), bits) {
        let tail = values.drop_first();
        first_with_is_first(tail, bits);
        assert forall|i: int| 0 <= i < first_with(values, bits) implies !has_bits(
            #[trigger] values[i],
            bits,
        ) by {
            if i > 0 {
                assert(tail[i - 1] == values[i]);
            }
        }
    }
}

/// The position of the first value with all of the bits.
pub fn find_bits(values: &Vec<u32>, bits: u32) -> (r: Option<usize>)
    ensures
        match r {
            Some(i) => i == first_with(values@, bits) && i < values@.len(),
            None => first_with(values@, bits) == values@.len(),
        },
{
    let ghost all = values@;
    assert(all.skip(0) =~= all);
    for i in 0..values.len()
        invariant
            all == values@,
            first_with(all, bits) == i + first_with(all.skip(i as int), bits),
    {
        assert(all.skip(i as int).first() == all[i as int]);
        assert(all.skip(i as int).drop_first() =~= all.skip(i as int + 1));
        if values[i] & bits == bits {
            return Some(i);
        }
    }
    assert(all.skip(all.len() as int) =~= Seq::<u32>::empty());
    None
}

/// The queue family that is used: the first of the wanted type, or else, where that is
/// allowed, the first that draws. `families` holds the bits of each family.
pub fn select_queue(
    families: &Vec<u32>,
    queue_type: QueueType,
    fallback_to_graphics: bool,
) -> (r: Result<u32, DeviceError>)
    requires
        families@.len() <= u32::MAX,
    ensures
        ({
            let wanted = first_with(families@, queue_type.spec_vk_flags());
            let other = first_with(families@, QUEUE_GRAPHICS);
            r == (if wanted < families@.len() {
                Ok::<u32, DeviceError>(wanted as u32)
            } else if fallback_to_graphics && other < families@.len() {
                Ok(other as u32)
            } else {
                Err(DeviceError::NoUsableQueue)
            })
        }),
{
    proof {
        first_with_is_first(families@, queue_type.spec_vk_flags());
        first_with_is_first(families@, QUEUE_GRAPHICS);
    }
    if let Some(i) = find_bits(families, queue_type.vk_flags()) {
        return Ok(i as u32);
    }
    if fallback_to_graphics {
        if let Some(i) = find_bits(families, QUEUE_GRAPHICS) {
            return Ok(i as u32);
        }
    }
    Err(DeviceError::NoUsableQueue)
}

/// A queue that was selected exists and is of the wanted type or draws.
pub proof fn selected_queue_fits(families: Seq<u32>, wanted: u32, index: int)
    requires
        index == first_with(families, wanted),
        index < families.len(),
    ensures
        has_bits(families[index], wanted),
{
    first_with_is_first(families, wanted);
}

/// Whether an extension is among the enabled ones.
pub fn has_extension(extensions: &Vec<Extension>, extension: Extension) -> (r: bool)
    ensures
        r == extensions@.contains(extension),
{
    for i in 0..extensions.len()
        invariant
            forall|j: int| 0 <= j < i ==> #[trigger] extensions@[j] != extension,
    {
        if extensions[i] == extension {
            return true;
        }
    }
    false
}

/// A logical device.
#[derive(Debug)]
pub struct Device {
    /// The position of the queue family whose first queue is used.
    pub queue_family: u32,
    /// The extensions that were enabled.
    pub extensions: Vec<Extension>,
    /// The bits of each memory type.
    pub memory_types: Vec<u32>,
    pub formats: Vec<FormatEntry>,
    /// The number of the device node.
    pub node: Option<u64>,
}

impl Device {
    /// What came of the creation of a device on a queue family: `render` and `primary` are the
    /// nodes of the physical device, of which the first is preferred.
    pub fn new(
        queue_family: u32,
        created: Result<(), i32>,
        extensions: Vec<Extension>,
        memory_types: Vec<u32>,
        formats: Vec<FormatEntry>,
        render: Option<u64>,
        primary: Option<u64>,
    ) -> (r: Result<Device, DeviceError>)
        ensures
            r == (match created {
                Err(code) => Err::<Device, DeviceError>(DeviceError::Vk(code)),
                Ok(_) => Ok(
                    Device {
                        queue_family,
                        extensions,
                        memory_types,
                        formats,
                        node: if render is Some {
                            render
                        } else {
                            primary
                        },
                    },
                ),
            }),
    {
        match created {
            Err(code) => Err(DeviceError::Vk(code)),
            Ok(_) => Ok(
                Device {
                    queue_family,
                    extensions,
                    memory_types,
                    formats,
                    node: if render.is_some() {
                        render
                    } else {
                        primary
                    },
                },
            ),
        }
    }

    /// Whether semaphores can be exported as files.
    pub fn vk_khr_external_semaphore_fd(&self) -> (r: bool)
        ensures
            r == self.extensions@.contains(Extension::ExternalSemaphoreFd),
    {
        has_extension(&self.extensions, Extension::ExternalSemaphoreFd)
    }

    /// Whether memory can be shared as files.
    pub fn vk_khr_external_memory_fd(&self) -> (r: bool)
        ensures
            r == self.extensions@.contains(Extension::ExternalMemoryFd),
    {
        has_extension(&self.extensions, Extension::ExternalMemoryFd)
    }

    /// Whether images can have modifiers.
    pub fn vk_ext_image_drm_format_modifier(&self) -> (r: bool)
        ensures
            r == self.extensions@.contains(Extension::ImageDrmFormatModifier),
    {
        has_extension(&self.extensions, Extension::ImageDrmFormatModifier)
    }

    /// Whether the host can copy pixels to and from images.
    pub fn vk_ext_host_image_copy(&self) -> (r: bool)
        ensures
            r == self.extensions@.contains(Extension::HostImageCopy),
    {
        has_extension(&self.extensions, Extension::HostImageCopy)
    }

    /// The bits of each memory type.
    pub fn memory_properties(&self) -> (types: &Vec<u32>)
        ensures
            *types == self.memory_types,
    {
        &self.memory_types
    }

    /// The position of the queue family.
    pub fn queue_family_idx(&self) -> (family: u32)
        ensures
            family == self.queue_family,
    {
        self.queue_family
    }

    /// The formats of the device, with their modifiers.
    pub fn formats(&self) -> (formats: &Vec<FormatEntry>)
        ensures
            *formats == self.formats,
    {
        &self.formats
    }

    /// The number of the device node.
    pub fn node(&self) -> (node: Option<u64>)
        ensures
            node == self.node,
    {
        self.node
    }
}

/// A device that was created is on its render node, or on its primary node if it has no render node.
pub proof fn device_prefers_its_render_node(
    queue_family: u32,
    created: Result<(), i32>,
    extensions: Vec<Extension>,
    memory_types: Vec<u32>,
    formats: Vec<FormatEntry>,
    render: Option<u64>,
    primary: Option<u64>,
    r: Result<Device, DeviceError>,
)
    requires
        call_ensures(
            Device::new,
            (queue_family, created, extensions, memory_types, formats, render, primary),
            r,
        ),
    ensures
        r is Ok <==> created is Ok,
        created matches Err(code) ==> r == Err::<Device, DeviceError>(DeviceError::Vk(code)),
        r matches Ok(device) ==> {
            &&& render is Some ==> device.node == render
            &&& render is None ==> device.node == primary
            &&& device.queue_family == queue_family
            &&& device.extensions == extensions
            &&& device.memory_types == memory_types
            &&& device.formats == formats
        },
{
}

/// A queue of the wanted type is taken wherever there is one, and the first of them; one that draws
/// is taken in its place only where that is allowed and there is none.
pub proof fn wanted_queue_is_preferred(
    families: Vec<u32>,
    queue_type: QueueType,
    fallback: bool,
    r: Result<u32, DeviceError>,
    i: int,
)
    requires
        families@.len() <= u32::MAX,
        0 <= i < families@.len(),
        call_ensures(select_queue, (&families, queue_type, fallback), r),
    ensures
        ({
            let bits = match queue_type {
                QueueType::Graphics => 1u32,
                QueueType::Compute => 2u32,
                QueueType::Transfer => 4u32,
            };
            &&& families@[i] & bits == bits ==> r is Ok && r->Ok_0 <= i && families@[r->Ok_0 as int]
                & bits == bits
            &&& fallback && families@[i] & 1u32 == 1u32 ==> r is Ok
            &&& r matches Ok(at) ==> at < families@.len() && (families@[at as int] & bits == bits || (
            fallback && families@[at as int] & 1u32 == 1u32))
            &&& r matches Err(error) ==> error is NoUsableQueue
        }),
{
    first_with_is_first(families@, queue_type.spec_vk_flags());
    first_with_is_first(families@, QUEUE_GRAPHICS);
    assert(has_bits(families@[i], queue_type.spec_vk_flags()) <==> families@[i]
        & queue_type.spec_vk_flags() == queue_type.spec_vk_flags());
    assert(has_bits(families@[i], QUEUE_GRAPHICS) <==> families@[i] & 1u32 == 1u32);
}

} // verus!
