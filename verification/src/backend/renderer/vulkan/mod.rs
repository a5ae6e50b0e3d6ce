//! Rendering with compute shaders of Vulkan.

use vstd::prelude::*;

use crate::backend::allocator::format::{Format, Fourcc, MODIFIER_LINEAR};
use crate::backend::allocator::format_set::{gathered, FormatKey, FormatSet};
use crate::backend::renderer::Texture;
use crate::backend::vulkan::device::{
    first_with, has_bits, has_extension, select_queue, DeviceError, QueueType, QUEUE_COMPUTE,
    QUEUE_GRAPHICS,
};
use crate::backend::vulkan::format::{
    alpha_counterpart, known, known_formats, pixel_bytes, pixel_size, vk_on, with_alpha,
    FormatEntry, ModifierProperties,
};
use crate::backend::vulkan::image::{
    Error as ImageError, ImageRequest, VulkanImage, USAGE_SAMPLED, USAGE_STORAGE,
};
use crate::backend::vulkan::phd::{DrmNodes, PhysicalDevice};
use crate::backend::vulkan::version::Version;
use crate::backend::vulkan::Extension;
use crate::utils::byte_order::ByteOrder;
use crate::utils::geometry::{Rectangle, Size};

use self::capabilities::{Capability, Feature, Features};
use self::cmds::{cleaning_is_exact, finished, finished_is_prefix, in_order, CommandPool, PendingBuffer};
use self::memory::{
    check_region, holds_region, image_pixel, image_pixel_bytes, in_image, read_region,
    region_bytes, region_size, region_size_is_natural, size_in_bytes, CopyPlan,
    upright, upright_rows, SubresourceLayout, VulkanMapping, LAYOUT_GENERAL,
};
use self::sync::{TimelineSetup, VulkanTimeline};

pub mod buffer;
pub mod capabilities;
pub mod cmds;
pub mod frame;
pub mod laws;
pub mod memory;
pub mod record;
pub mod shaders;
pub mod sync;

verus! {

/// Why the renderer failed.
#[derive(Clone, Copy, Debug, PartialEq, Eq, Structural)]
pub enum Error {
    /// Unsupported version.
    UnsupportedVersion,
    /// The drm device that was given does not belong to the physical device.
    MismatchedDrmDevice,
    /// Missing device feature.
    MissingFeature(Feature),
    /// Missing extension.
    MissingExtension(Extension),
    DeviceError(DeviceError),
    /// The layout of an image could not be changed by the host.
    HostImageTransitionError(i32),
    /// Memory of the host could not be copied to or from an image.
    HostImageCopyError(i32),
    ImageError(ImageError),
    PipelineError(shaders::Error),
    CommandPoolError(i32),
    CommandBufferError(i32),
    SamplerError(i32),
    SemaphoreError(i32),
    SubmitError(i32),
    DrmError(i32),
    /// The device was destroyed.
    DeadDevice,
    /// There are fewer bytes than pixels.
    IncompleteBuffer,
    /// The region does not lie in the image, or does not fit into memory.
    RegionOutOfBounds,
}

/// The bit of images that are copied from.
pub const USAGE_TRANSFER_SRC: u32 = 1;

/// The bit of images that the host copies to.
pub const USAGE_HOST_TRANSFER: u32 = 0x40_0000;

/// The bit of formats that shaders can write.
pub const FEATURE_STORAGE_IMAGE: u32 = 2;

/// The colors of an image.
pub const ASPECT_COLOR: u32 = 1;

/// The first plane of the memory of an image.
pub const ASPECT_MEMORY_PLANE_0: u32 = 0x80;

/// What remains to be created for a renderer.
#[derive(Clone, Copy, Debug, PartialEq, Eq, Structural)]
pub enum SetupStep {
    Device,
    Pipelines,
    CommandPool,
    Timeline,
    Sampler,
    Done,
}

impl SetupStep {
    /// The error of a step that failed with a result code.
    pub fn error(self, code: i32) -> (error: Error)
        requires
            self != SetupStep::Done,
            self != SetupStep::Pipelines,
        ensures
            error == (match self {
                SetupStep::Device => Error::DeviceError(DeviceError::Vk(code)),
                SetupStep::CommandPool => Error::CommandPoolError(code),
                SetupStep::Timeline => Error::SemaphoreError(code),
                _ => Error::SamplerError(code),
            }),
    {
        match self {
            SetupStep::Device => Error::DeviceError(DeviceError::Vk(code)),
            SetupStep::CommandPool => Error::CommandPoolError(code),
            SetupStep::Timeline => Error::SemaphoreError(code),
            _ => Error::SamplerError(code),
        }
    }

    /// The step after this one.
    pub fn next(self) -> (step: SetupStep)
        ensures
            step == (match self {
                SetupStep::Device => SetupStep::Pipelines,
                SetupStep::Pipelines => SetupStep::CommandPool,
                SetupStep::CommandPool => SetupStep::Timeline,
                SetupStep::Timeline => SetupStep::Sampler,
                SetupStep::Sampler | SetupStep::Done => SetupStep::Done,
            }),
    {
        match self {
            SetupStep::Device => SetupStep::Pipelines,
            SetupStep::Pipelines => SetupStep::CommandPool,
            SetupStep::CommandPool => SetupStep::Timeline,
            SetupStep::Timeline => SetupStep::Sampler,
            SetupStep::Sampler | SetupStep::Done => SetupStep::Done,
        }
    }
}

/// What a renderer is created with.
#[derive(Debug)]
pub struct RendererSetup {
    /// The number of the device node.
    pub node: Option<u64>,
    pub capabilities: Vec<Capability>,
    /// The extensions of the device.
    pub extensions: Vec<Extension>,
    /// The features of the device.
    pub features: Features,
    /// The queue family of the device.
    pub queue_family: u32,
    /// How the timeline is started.
    pub timeline: TimelineSetup,
}

/// How memory is made into an image.
#[derive(Clone, Copy, Debug, PartialEq, Eq, Structural)]
pub struct ImportPlan {
    pub request: ImageRequest,
    /// The only modifier that the image may have.
    pub modifier: u64,
}

/// An image that is drawn to.
#[derive(Clone, Copy, Debug, PartialEq, Eq, Structural)]
pub struct VulkanFramebuffer(pub VulkanImage);

impl Texture for VulkanFramebuffer {
    open spec fn spec_width(&self) -> u32 {
        self.0.spec_width()
    }

    open spec fn spec_height(&self) -> u32 {
        self.0.spec_height()
    }

    open spec fn spec_format(&self) -> Option<Fourcc> {
        self.0.spec_format()
    }

    fn width(&self) -> (width: u32) {
        self.0.width()
    }

    fn height(&self) -> (height: u32) {
        self.0.height()
    }

    fn format(&self) -> (format: Option<Fourcc>) {
        self.0.format()
    }
}

proof fn lemma_import_size(w: u32, h: u32, pixel: u32)
    requires
        pixel <= 8,
    ensures
        0 <= w * pixel <= 0x8_0000_0000,
        0 <= h * (w * pixel) <= 0x8_0000_0000_0000_0000,
{
    let (a, b, p) = (w as int, h as int, pixel as int);
    assert(0 <= a * p <= 0x8_0000_0000) by (nonlinear_arith)
        requires
            0 <= a <= 0x1_0000_0000,
            0 <= p <= 8,
    ;
    let row = a * p;
    assert(0 <= b * row <= 0x8_0000_0000_0000_0000) by (nonlinear_arith)
        requires
            0 <= b <= 0x1_0000_0000,
            0 <= row <= 0x8_0000_0000,
    ;
}

/// A renderer.
#[derive(Debug)]
pub struct VulkanRenderer {
    pub node: Option<u64>,
    pub capabilities: Vec<Capability>,
    pub extensions: Vec<Extension>,
    pub cmd_pool: CommandPool,
    /// The number of the last submission.
    pub seq_no: u64,
    pub timeline: VulkanTimeline,
}

impl RendererSetup {
    /// The node of the renderer. With a drm device at hand that is the device, which has to be
    /// one of the nodes of the physical device.
    pub open spec fn node_of(
        phd: PhysicalDevice,
        nodes: DrmNodes,
        drm: Option<Option<u64>>,
    ) -> Result<Option<u64>, Error> {
        match drm {
            Some(Some(node)) if phd.spec_render_node(nodes) == Some(node)
                || phd.spec_primary_node(nodes) == Some(node) => Ok(Some(node)),
            Some(_) => Err(Error::MismatchedDrmDevice),
            None => Ok(phd.spec_render_node(nodes)),
        }
    }

    /// The first of the checks that fails.
    pub open spec fn refused(
        phd: PhysicalDevice,
        nodes: DrmNodes,
        drm: Option<Option<u64>>,
        features: Features,
        families: Seq<u32>,
    ) -> Option<Error> {
        if RendererSetup::node_of(phd, nodes, drm) is Err {
            Some(Error::MismatchedDrmDevice)
        } else if phd.api_version.before(Version::numbered(1, 3)) || Version::numbered(1, 3).before(
            phd.instance_version,
        ) {
            Some(Error::UnsupportedVersion)
        } else if !features.timeline_semaphore {
            Some(Error::MissingFeature(Feature::TimelineSemaphore))
        } else if !features.host_image_copy {
            Some(Error::MissingFeature(Feature::HostImageCopy))
        } else if first_with(families, QUEUE_COMPUTE) == families.len() && first_with(
            families,
            QUEUE_GRAPHICS,
        ) == families.len() {
            Some(Error::DeviceError(DeviceError::NoUsableQueue))
        } else {
            None
        }
    }
}

impl VulkanRenderer {
    /// What a renderer on a physical device is created with. `nodes` tells which of the numbers
    /// that the device reports are those of nodes; `drm` is the drm device to render for, if one
    /// is given, and its number as far as that could be found; `features` and
    /// `semaphore_features` are what the physical device supports, and `families` are the bits
    /// of its queue families.
    pub fn new(
        phd: &PhysicalDevice,
        nodes: DrmNodes,
        drm: Option<Option<u64>>,
        features: &Features,
        semaphore_features: u32,
        families: &Vec<u32>,
    ) -> (r: Result<RendererSetup, Error>)
        requires
            families@.len() <= u32::MAX,
        ensures
            match RendererSetup::refused(*phd, nodes, drm, *features, families@) {
                Some(error) => r == Err::<RendererSetup, Error>(error),
                None => {
                    let caps = Capability::supported_by(*phd, semaphore_features);
                    let wanted = first_with(families@, QUEUE_COMPUTE);
                    &&& r is Ok
                    &&& Ok::<Option<u64>, Error>(r->Ok_0.node) == RendererSetup::node_of(
                        *phd,
                        nodes,
                        drm,
                    )
                    &&& r->Ok_0.capabilities@ == caps
                    &&& r->Ok_0.extensions@ == Capability::extensions_of(caps)
                    &&& r->Ok_0.features == (Features {
                        timeline_semaphore: true,
                        host_image_copy: true,
                    })
                    &&& r->Ok_0.queue_family == (if wanted < families@.len() {
                        wanted
                    } else {
                        first_with(families@, QUEUE_GRAPHICS)
                    })
                    &&& r->Ok_0.timeline == (TimelineSetup::Create {
                        exportable: drm is Some && caps.contains(Capability::ExportTimeline),
                    })
                },
            },
    {
        proof {
            crate::backend::vulkan::device::first_with_is_first(families@, QUEUE_COMPUTE);
            crate::backend::vulkan::device::first_with_is_first(families@, QUEUE_GRAPHICS);
        }
        let render: Option<u64> = match phd.render_node(nodes) {
            Ok(node) => node,
            Err(_) => None,
        };
        let node: Option<u64> = match drm {
            Some(Some(node)) => {
                let primary: Option<u64> = match phd.primary_node(nodes) {
                    Ok(node) => node,
                    Err(_) => None,
                };
                if render != Some(node) && primary != Some(node) {
                    return Err(Error::MismatchedDrmDevice);
                }
                Some(node)
            },
            Some(None) => {
                return Err(Error::MismatchedDrmDevice);
            },
            None => render,
        };
        if phd.api_version.is_before(Version::version_1_3()) || Version::version_1_3().is_before(
            phd.instance_version,
        ) {
            return Err(Error::UnsupportedVersion);
        }
        if let Err(feature) = features.has_required_features() {
            return Err(Error::MissingFeature(feature));
        }
        let capabilities = Capability::supported(phd, semaphore_features);
        let extensions = Capability::as_extensions(&capabilities);
        let queue_family: u32 = match select_queue(families, QueueType::Compute, true) {
            Ok(family) => family,
            Err(error) => {
                return Err(Error::DeviceError(error));
            },
        };
        let exportable: bool = drm.is_some() && has_capability(
            &capabilities,
            Capability::ExportTimeline,
        );
        Ok(
            RendererSetup {
                node,
                capabilities,
                extensions,
                features: Features::required_features(),
                queue_family,
                timeline: TimelineSetup::Create { exportable },
            },
        )
    }

    /// The renderer, once everything was created.
    pub fn from_setup(setup: RendererSetup, timeline: VulkanTimeline) -> (renderer: VulkanRenderer)
        ensures
            renderer.node == setup.node,
            renderer.capabilities == setup.capabilities,
            renderer.extensions == setup.extensions,
            renderer.timeline == timeline,
            renderer.seq_no == 0,
            renderer.cmd_pool.pending_buffers@ == Seq::<PendingBuffer>::empty(),
            renderer.wf(),
    {
        VulkanRenderer {
            node: setup.node,
            capabilities: setup.capabilities,
            extensions: setup.extensions,
            cmd_pool: CommandPool::new(),
            seq_no: 0,
            timeline,
        }
    }

    /// The submissions that may still be in use come in order, and none after the last one.
    pub open spec fn wf(self) -> bool {
        let pending = self.cmd_pool.pending_buffers@;
        in_order(pending) && forall|i: int|
            0 <= i < pending.len() ==> (#[trigger] pending[i]).seq <= self.seq_no
    }

    /// Everything but the submissions is the same.
    pub open spec fn same_device(self, other: VulkanRenderer) -> bool {
        &&& self.node == other.node
        &&& self.capabilities == other.capabilities
        &&& self.extensions == other.extensions
        &&& self.timeline == other.timeline
    }

    /// Gives up the command buffers whose submissions are through, and returns them. `counter`
    /// is the number that the timeline has reached.
    pub fn cleanup(&mut self, counter: Result<u64, i32>) -> (r: Result<Vec<PendingBuffer>, Error>)
        requires
            old(self).wf(),
        ensures
            final(self).wf(),
            final(self).same_device(*old(self)),
            final(self).seq_no == old(self).seq_no,
            match counter {
                Ok(seq) => {
                    let pending = old(self).cmd_pool.pending_buffers@;
                    &&& r is Ok
                    &&& r->Ok_0@ == pending.take(finished(pending, seq))
                    &&& final(self).cmd_pool.pending_buffers@ == pending.skip(
                        finished(pending, seq),
                    )
                },
                Err(code) => r == Err::<Vec<PendingBuffer>, Error>(Error::SemaphoreError(code))
                    && final(self).cmd_pool == old(self).cmd_pool,
            },
    {
        match counter {
            Ok(seq) => {
                let ghost pending = self.cmd_pool.pending_buffers@;
                let done = self.cmd_pool.clean_old_buffers(seq);
                proof {
                    finished_is_prefix(pending, seq);
                    if pending.len() > 0 {
                        cleaning_is_exact(pending, seq, 0);
                    }
                    let rest = pending.skip(finished(pending, seq));
                    assert forall|i: int| 0 <= i < rest.len() implies (#[trigger] rest[i]).seq
                        <= self.seq_no by {
                        assert(rest[i] == pending[i + finished(pending, seq)]);
                    }
                }
                Ok(done)
            },
            Err(code) => Err(Error::SemaphoreError(code)),
        }
    }

    /// The number of the next submission, which counts even if the submission fails.
    pub fn next_submission(&mut self) -> (seq: u64)
        requires
            old(self).wf(),
            old(self).seq_no < u64::MAX,
        ensures
            seq == old(self).seq_no + 1,
            final(self).seq_no == seq,
            final(self).cmd_pool == old(self).cmd_pool,
            final(self).same_device(*old(self)),
            final(self).wf(),
            forall|i: int|
                0 <= i < final(self).cmd_pool.pending_buffers@.len()
                    ==> (#[trigger] final(self).cmd_pool.pending_buffers@[i]).seq < seq,
    {
        self.seq_no = self.seq_no + 1;
        self.seq_no
    }

    /// Takes the outcome of the last submission: a buffer that was submitted is kept until the
    /// submission is through.
    pub fn submitted(&mut self, buffer: u64, descriptor: Option<u64>, outcome: Result<(), i32>) -> (r:
        Result<u64, Error>)
        requires
            old(self).wf(),
            forall|i: int|
                0 <= i < old(self).cmd_pool.pending_buffers@.len()
                    ==> (#[trigger] old(self).cmd_pool.pending_buffers@[i]).seq < old(self).seq_no,
        ensures
            final(self).wf(),
            final(self).seq_no == old(self).seq_no,
            final(self).same_device(*old(self)),
            match outcome {
                Ok(_) => r == Ok::<u64, Error>(old(self).seq_no)
                    && final(self).cmd_pool.pending_buffers@
                    == old(self).cmd_pool.pending_buffers@.push(
                    PendingBuffer { seq: old(self).seq_no, buffer, descriptor },
                ),
                Err(code) => r == Err::<u64, Error>(Error::SubmitError(code))
                    && final(self).cmd_pool == old(self).cmd_pool,
            },
    {
        match outcome {
            Ok(_) => {
                let seq: u64 = self.seq_no;
                self.cmd_pool.store_pending_buffer(buffer, seq, descriptor);
                Ok(seq)
            },
            Err(code) => Err(Error::SubmitError(code)),
        }
    }

    pub open spec fn copies(self) -> bool {
        self.extensions@.contains(Extension::HostImageCopy)
    }

    /// The number of bytes that an image is filled with, where all its pixels have the same.
    pub open spec fn import_size(format: Fourcc, size: Size) -> Option<int> {
        match pixel_size(with_alpha(format)) {
            Some(pixel) => Some((size.h as u32) * ((size.w as u32) * pixel)),
            None => None,
        }
    }

    /// How memory is made into a texture, and the bytes that become its pixels, from the top
    /// down. The texture takes as many bytes as it has pixels for; what is beyond is not read,
    /// and memory with fewer bytes is refused. The memory of a flipped texture holds the rows
    /// from the bottom up.
    pub fn import_memory(
        &self,
        data: &[u8],
        format: Fourcc,
        size: Size,
        flipped: bool,
        order: ByteOrder,
    ) -> (r: Result<(ImportPlan, Vec<u8>), Error>)
        ensures
            if !self.copies() {
                r == Err::<(ImportPlan, Vec<u8>), Error>(
                    Error::MissingExtension(Extension::HostImageCopy),
                )
            } else {
                match (vk_on(with_alpha(format), order), Self::import_size(format, size)) {
                    (Some(vk), Some(len)) => if len > data@.len() {
                        r == Err::<(ImportPlan, Vec<u8>), Error>(Error::IncompleteBuffer)
                    } else {
                        &&& r is Ok
                        &&& r->Ok_0.0 == (ImportPlan {
                            request: ImageRequest {
                                width: size.w as u32,
                                height: size.h as u32,
                                format: vk,
                                usage: USAGE_HOST_TRANSFER | USAGE_SAMPLED,
                                linear: false,
                                exportable: Some(format),
                                dmabuf_planes: None,
                                order,
                            },
                            modifier: MODIFIER_LINEAR,
                        })
                        &&& r->Ok_0.1@ == upright(
                            data@,
                            (size.w as u32) * pixel_size(with_alpha(format))->0,
                            (size.h as u32) as int,
                            flipped,
                        )
                        &&& r->Ok_0.1@.len() == len
                    },
                    _ => r == Err::<(ImportPlan, Vec<u8>), Error>(
                        Error::ImageError(ImageError::UnsupportedFormat),
                    ),
                }
            },
    {
        if !has_extension(&self.extensions, Extension::HostImageCopy) {
            return Err(Error::MissingExtension(Extension::HostImageCopy));
        }
        let request = match VulkanImage::new_exportable(
            size.w as u32,
            size.h as u32,
            format,
            USAGE_HOST_TRANSFER | USAGE_SAMPLED,
            order,
        ) {
            Err(error) => {
                return Err(Error::ImageError(error));
            },
            Ok(request) => request,
        };
        let pixel: u32 = match pixel_bytes(alpha_counterpart(format)) {
            Some(pixel) => pixel,
            None => {
                return Err(Error::ImageError(ImageError::UnsupportedFormat));
            },
        };
        let w: u32 = size.w as u32;
        let h: u32 = size.h as u32;
        proof {
            lemma_import_size(w, h, pixel);
        }
        let row: u128 = w as u128 * pixel as u128;
        let len: u128 = h as u128 * row;
        if len > data.len() as u128 {
            return Err(Error::IncompleteBuffer);
        }
        let pixels: Vec<u8> = if h == 0 {
            assert(0 * (row as int) == 0);
            let pixels: Vec<u8> = Vec::new();
            assert(pixels@ =~= upright(data@, row as int, 0, flipped));
            pixels
        } else {
            assert(row <= len) by (nonlinear_arith)
                requires
                    len == h * row,
                    h >= 1,
                    row >= 0,
            ;
            upright_rows(data, row as usize, h as usize, flipped)
        };
        Ok((ImportPlan { request, modifier: MODIFIER_LINEAR }, pixels))
    }

    /// What comes of a copy by the host: first the layout of the image is changed, then the
    /// pixels are copied.
    pub fn host_copied(transition: Result<(), i32>, copy: Result<(), i32>) -> (r: Result<(), Error>)
        ensures
            r == (match (transition, copy) {
                (Err(code), _) => Err::<(), Error>(Error::HostImageTransitionError(code)),
                (Ok(_), Err(code)) => Err(Error::HostImageCopyError(code)),
                (Ok(_), Ok(_)) => Ok(()),
            }),
    {
        match transition {
            Err(code) => Err(Error::HostImageTransitionError(code)),
            Ok(_) => match copy {
                Err(code) => Err(Error::HostImageCopyError(code)),
                Ok(_) => Ok(()),
            },
        }
    }

    /// The aspect of an image whose layout in memory tells where the pixels lie.
    pub fn layout_aspect(image: &VulkanImage) -> (aspect: u32)
        ensures
            aspect == (if image.drm.is_some() {
                ASPECT_MEMORY_PLANE_0
            } else {
                ASPECT_COLOR
            }),
    {
        if image.drm.is_some() {
            ASPECT_MEMORY_PLANE_0
        } else {
            ASPECT_COLOR
        }
    }

    /// How a region of an image is read. The pixels of an image whose format is not told cannot
    /// be read.
    pub open spec fn copy_plan(
        self,
        image: VulkanImage,
        layout: SubresourceLayout,
        region: Rectangle,
    ) -> Result<CopyPlan, Error> {
        if !in_image(image, region) {
            Err(Error::RegionOutOfBounds)
        } else {
            match image_pixel(image) {
                None => Err(Error::ImageError(ImageError::UnsupportedFormat)),
                Some(_) if image.spec_format() is None => Err(
                    Error::ImageError(ImageError::UnsupportedFormat),
                ),
                Some(pixel) => if image.spec_mappable() {
                    Ok(CopyPlan::MapMemory { offset: layout.offset, size: layout.size })
                } else if !self.copies() {
                    Err(Error::MissingExtension(Extension::HostImageCopy))
                } else if region_size(region, pixel) > usize::MAX {
                    Err(Error::RegionOutOfBounds)
                } else {
                    Ok(
                        CopyPlan::CopyPixels {
                            region,
                            len: region_size(region, pixel) as usize,
                            layout: LAYOUT_GENERAL,
                        },
                    )
                },
            }
        }
    }

    /// How a region of an image is read: by mapping its memory where that is possible, else by
    /// a copy.
    fn copy_from_image(
        &self,
        image: &VulkanImage,
        layout: &SubresourceLayout,
        region: Rectangle,
    ) -> (r: Result<CopyPlan, Error>)
        ensures
            r == self.copy_plan(*image, *layout, region),
    {
        if !check_region(image, region) {
            return Err(Error::RegionOutOfBounds);
        }
        let pixel: u32 = match image_pixel_bytes(image) {
            Some(pixel) => pixel,
            None => {
                return Err(Error::ImageError(ImageError::UnsupportedFormat));
            },
        };
        if image.format().is_none() {
            return Err(Error::ImageError(ImageError::UnsupportedFormat));
        }
        if image.is_mappable() {
            return Ok(CopyPlan::MapMemory { offset: layout.offset, size: layout.size });
        }
        if !has_extension(&self.extensions, Extension::HostImageCopy) {
            return Err(Error::MissingExtension(Extension::HostImageCopy));
        }
        match size_in_bytes(region, pixel) {
            Some(len) => Ok(CopyPlan::CopyPixels { region, len, layout: LAYOUT_GENERAL }),
            None => Err(Error::RegionOutOfBounds),
        }
    }

    /// How a region of a texture is read, which lies in memory as the layout tells.
    pub fn copy_texture(
        &self,
        texture: &VulkanImage,
        layout: &SubresourceLayout,
        region: Rectangle,
    ) -> (r: Result<CopyPlan, Error>)
        ensures
            r == self.copy_plan(*texture, *layout, region),
    {
        self.copy_from_image(texture, layout, region)
    }

    /// How a region of an image that is drawn to is read.
    pub fn copy_framebuffer(
        &self,
        target: &VulkanFramebuffer,
        layout: &SubresourceLayout,
        region: Rectangle,
    ) -> (r: Result<CopyPlan, Error>)
        ensures
            r == self.copy_plan(target.0, *layout, region),
    {
        self.copy_from_image(&target.0, layout, region)
    }

    /// The mapping of a region of an image, once the memory of the image was mapped.
    pub fn mapped(
        image: &VulkanImage,
        layout: &SubresourceLayout,
        region: Rectangle,
        outcome: Result<(), i32>,
    ) -> (r: Result<VulkanMapping, Error>)
        requires
            in_image(*image, region),
            image_pixel(*image) is Some,
        ensures
            match outcome {
                Ok(_) => r == Ok::<VulkanMapping, Error>(
                    VulkanMapping::Mapped {
                        len: layout.size as usize,
                        row_pitch: layout.row_pitch,
                        image: *image,
                        region,
                    },
                ) && r->Ok_0.wf(),
                Err(code) => r == Err::<VulkanMapping, Error>(Error::HostImageCopyError(code)),
            },
    {
        match outcome {
            Ok(_) => Ok(
                VulkanMapping::Mapped {
                    len: layout.size as usize,
                    row_pitch: layout.row_pitch,
                    image: *image,
                    region,
                },
            ),
            Err(code) => Err(Error::HostImageCopyError(code)),
        }
    }

    /// The mapping of a region of an image, once the layout of the image was changed and its
    /// pixels were copied.
    pub fn copied(
        image: &VulkanImage,
        region: Rectangle,
        transition: Result<(), i32>,
        copy: Result<Vec<u8>, i32>,
    ) -> (r: Result<VulkanMapping, Error>)
        requires
            in_image(*image, region),
            image_pixel(*image) is Some,
        ensures
            match (transition, copy) {
                (Err(code), _) => r == Err::<VulkanMapping, Error>(
                    Error::HostImageTransitionError(code),
                ),
                (Ok(_), Err(code)) => r == Err::<VulkanMapping, Error>(
                    Error::HostImageCopyError(code),
                ),
                (Ok(_), Ok(data)) => if data@.len() == region_size(region, image_pixel(*image)->0) {
                    r == Ok::<VulkanMapping, Error>(
                        VulkanMapping::Copied { data, image: *image, region },
                    ) && r->Ok_0.wf()
                } else {
                    r == Err::<VulkanMapping, Error>(Error::IncompleteBuffer)
                },
            },
    {
        if let Err(code) = transition {
            return Err(Error::HostImageTransitionError(code));
        }
        let data: Vec<u8> = match copy {
            Ok(data) => data,
            Err(code) => {
                return Err(Error::HostImageCopyError(code));
            },
        };
        let pixel: u32 = match image_pixel_bytes(image) {
            Some(pixel) => pixel,
            None => 0,
        };
        proof {
            region_size_is_natural(region, pixel);
        }
        let len: usize = data.len();
        let complete: bool = match size_in_bytes(region, pixel) {
            Some(size) => len == size,
            None => false,
        };
        if complete {
            Ok(VulkanMapping::Copied { data, image: *image, region })
        } else {
            Err(Error::IncompleteBuffer)
        }
    }

    /// The bytes of the region that was read, row after row without gaps. Of a mapping of
    /// memory, `memory` are the bytes that are mapped.
    pub fn map_texture(mapping: &VulkanMapping, memory: &[u8]) -> (r: Result<Vec<u8>, Error>)
        requires
            mapping.wf(),
        ensures
            match *mapping {
                VulkanMapping::Copied { data, .. } => r is Ok && r->Ok_0@ == data@,
                VulkanMapping::Mapped { row_pitch, image, region, .. } => {
                    let pixel = image_pixel(image)->0;
                    if holds_region(memory@.len(), region, pixel, row_pitch) {
                        r is Ok && r->Ok_0@ == region_bytes(memory@, region, pixel, row_pitch)
                    } else {
                        r == Err::<Vec<u8>, Error>(Error::IncompleteBuffer)
                    }
                },
            },
            r matches Ok(bytes) ==> bytes@.len() == region_size(
                mapping.spec_region(),
                image_pixel(mapping.spec_image())->0,
            ),
    {
        match mapping {
            VulkanMapping::Copied { data, .. } => {
                let mut bytes: Vec<u8> = Vec::new();
                for i in 0..data.len()
                    invariant
                        bytes@ == data@.take(i as int),
                {
                    bytes.push(data[i]);
                    assert(bytes@ =~= data@.take(i as int + 1));
                }
                assert(data@.take(data.len() as int) =~= data@);
                Ok(bytes)
            },
            VulkanMapping::Mapped { row_pitch, image, region, .. } => {
                let pixel: u32 = match image_pixel_bytes(image) {
                    Some(pixel) => pixel,
                    None => 0,
                };
                proof {
                    region_size_is_natural(*region, pixel);
                }
                match read_region(memory, *region, pixel, *row_pitch) {
                    Some(bytes) => Ok(bytes),
                    None => Err(Error::IncompleteBuffer),
                }
            },
        }
    }

    /// Whether the pixels of a texture can be read.
    pub fn can_read_texture(&self, texture: &VulkanImage) -> (r: bool)
        ensures
            r == (texture.spec_mappable() || self.copies()),
    {
        texture.is_mappable() || has_extension(&self.extensions, Extension::HostImageCopy)
    }

    /// The formats of memory that can be imported.
    pub fn mem_formats() -> (formats: Vec<Fourcc>)
        ensures
            formats@ == seq![
                Fourcc::Abgr8888,
                Fourcc::Xbgr8888,
                Fourcc::Argb8888,
                Fourcc::Xrgb8888,
            ],
    {
        let formats: Vec<Fourcc> = vec![
            Fourcc::Abgr8888,
            Fourcc::Xbgr8888,
            Fourcc::Argb8888,
            Fourcc::Xrgb8888,
        ];
        assert(formats@ =~= seq![
            Fourcc::Abgr8888,
            Fourcc::Xbgr8888,
            Fourcc::Argb8888,
            Fourcc::Xrgb8888,
        ]);
        formats
    }

    /// The usage of images that are imported from dmabufs.
    pub fn import_usage() -> (usage: u32)
        ensures
            usage == USAGE_SAMPLED | USAGE_TRANSFER_SRC,
    {
        USAGE_SAMPLED | USAGE_TRANSFER_SRC
    }

    /// The usage of dmabufs that are drawn to.
    pub fn bind_usage() -> (usage: u32)
        ensures
            usage == USAGE_STORAGE | USAGE_TRANSFER_SRC,
    {
        USAGE_STORAGE | USAGE_TRANSFER_SRC
    }

    /// The formats of dmabufs that can be imported.
    pub fn dmabuf_formats(entries: &Vec<FormatEntry>) -> (set: FormatSet)
        ensures
            set@ == gathered(entry_keys(entries@)),
    {
        let mut set = FormatSet::new();
        let ghost all = entry_keys(entries@);
        assert(all.take(0) =~= Seq::<FormatKey>::empty());
        for i in 0..entries.len()
            invariant
                all == entry_keys(entries@),
                set@ == gathered(all.take(i as int)),
        {
            assert(all.take(i as int + 1).drop_last() =~= all.take(i as int));
            set.insert(entries[i].format);
        }
        assert(all.take(entries.len() as int) =~= all);
        set
    }

    /// Whether dmabufs of a format can be imported.
    pub fn has_dmabuf_format(entries: &Vec<FormatEntry>, format: Format) -> (r: bool)
        ensures
            r == exists|i: int| 0 <= i < entries@.len() && (#[trigger] entries@[i]).format == format,
    {
        for i in 0..entries.len()
            invariant
                forall|j: int| 0 <= j < i ==> (#[trigger] entries@[j]).format != format,
        {
            if entries[i].format == format {
                return true;
            }
        }
        false
    }

    /// An image can be drawn to if shaders can write to it.
    pub fn bind(target: &VulkanImage) -> (r: Result<VulkanFramebuffer, Error>)
        ensures
            r == (if has_bits(target.usage, USAGE_STORAGE) {
                Ok::<VulkanFramebuffer, Error>(VulkanFramebuffer(*target))
            } else {
                Err(Error::ImageError(ImageError::MissingOrInvalidUsage))
            }),
    {
        if target.usage & USAGE_STORAGE == USAGE_STORAGE {
            Ok(VulkanFramebuffer(*target))
        } else {
            Err(Error::ImageError(ImageError::MissingOrInvalidUsage))
        }
    }

    /// The formats that can be drawn to, if the modifiers of formats can be asked for at all:
    /// those that shaders can write. `properties` holds the modifiers of each known format.
    pub fn supported_formats(
        phd: &PhysicalDevice,
        properties: &Vec<Vec<ModifierProperties>>,
        order: ByteOrder,
    ) -> (r: Option<FormatSet>)
        requires
            properties@.len() == known(order).len(),
        ensures
            phd.has(Extension::ImageDrmFormatModifier) <==> r is Some,
            r matches Some(set) ==> set@ == gathered(
                storage_upto(properties@, properties@.len(), order),
            ),
    {
        if phd.check_format_modifiers().is_err() {
            return None;
        }
        let formats = known_formats(order);
        let mut set = FormatSet::new();
        for i in 0..formats.len()
            invariant
                formats@ == known(order),
                properties@.len() == known(order).len(),
                set@ == gathered(storage_upto(properties@, i as nat, order)),
        {
            let code = formats[i];
            let of_format: &Vec<ModifierProperties> = &properties[i];
            let ghost before = storage_upto(properties@, i as nat, order);
            assert(of_format@.take(0) =~= Seq::<ModifierProperties>::empty());
            assert(before + storage_keys(code, of_format@.take(0)) =~= before);
            for j in 0..of_format.len()
                invariant
                    set@ == gathered(before + storage_keys(code, of_format@.take(j as int))),
            {
                let ghost taken = of_format@.take(j as int);
                let ghost more = of_format@.take(j as int + 1);
                assert(more.drop_last() =~= taken);
                if of_format[j].tiling_features & FEATURE_STORAGE_IMAGE == FEATURE_STORAGE_IMAGE {
                    let ghost key = (code.spec_code(), of_format@[j as int].drm_format_modifier);
                    assert((before + storage_keys(code, more)).drop_last() =~= before
                        + storage_keys(code, taken));
                    assert((before + storage_keys(code, more)).last() == key);
                    set.insert(Format { code, modifier: of_format[j].drm_format_modifier });
                }
            }
            assert(of_format@.take(of_format.len() as int) =~= of_format@);
        }
        Some(set)
    }
}

/// The keys of the formats of some entries.
pub open spec fn entry_keys(entries: Seq<FormatEntry>) -> Seq<FormatKey> {
    Seq::new(entries.len(), |i: int| entries[i].format.key())
}

/// The keys of a format with those of its modifiers that shaders can write.
pub open spec fn storage_keys(code: Fourcc, properties: Seq<ModifierProperties>) -> Seq<FormatKey>
    decreases properties.len(),
{
    if properties.len() == 0 {
        Seq::empty()
    } else {
        let head = storage_keys(code, properties.drop_last());
        if has_bits(properties.last().tiling_features, FEATURE_STORAGE_IMAGE) {
            head.push((code.spec_code(), properties.last().drm_format_modifier))
        } else {
            head
        }
    }
}

/// The keys of the first `n` known formats that shaders can write.
pub open spec fn storage_upto(
    properties: Seq<Vec<ModifierProperties>>,
    n: nat,
    order: ByteOrder,
) -> Seq<FormatKey>
    decreases n,
{
    if n == 0 {
        Seq::empty()
    } else {
        storage_upto(properties, (n - 1) as nat, order) + storage_keys(
            known(order)[n - 1],
            properties[n - 1]@,
        )
    }
}

/// Whether a capability is among some.
pub fn has_capability(capabilities: &Vec<Capability>, capability: Capability) -> (r: bool)
    ensures
        r == capabilities@.contains(capability),
{
    for i in 0..capabilities.len()
        invariant
            forall|j: int| 0 <= j < i ==> #[trigger] capabilities@[j] != capability,
    {
        if capabilities[i] == capability {
            return true;
        }
    }
    false
}

/// A format is among those that can be drawn to exactly if shaders can write it with that
/// modifier.
pub proof fn storage_formats_are_exact(
    code: Fourcc,
    properties: Seq<ModifierProperties>,
    modifier: u64,
)
    ensures
        storage_keys(code, properties).contains((code.spec_code(), modifier)) <==> exists|i: int|
            0 <= i < properties.len() && (#[trigger] properties[i]).drm_format_modifier == modifier
                && has_bits(properties[i].tiling_features, FEATURE_STORAGE_IMAGE),
    decreases properties.len(),
{
    if properties.len() > 0 {
        let head = properties.drop_last();
        storage_formats_are_exact(code, head, modifier);
        let key = (code.spec_code(), modifier);
        let (s, t) = (storage_keys(code, head), storage_keys(code, properties));
        if s.contains(key) {
            let i = choose|i: int| 0 <= i < s.len() && s[i] == key;
            assert(t[i] == key);
        }
        if t.contains(key) {
            let i = choose|i: int| 0 <= i < t.len() && t[i] == key;
            if i < s.len() {
                assert(s[i] == key);
                let k = choose|k: int|
                    0 <= k < head.len() && (#[trigger] head[k]).drm_format_modifier == modifier
                        && has_bits(head[k].tiling_features, FEATURE_STORAGE_IMAGE);
                assert(properties[k] == head[k]);
            } else {
                assert(properties[properties.len() - 1].drm_format_modifier == modifier);
            }
        }
        if exists|i: int|
            0 <= i < properties.len() && (#[trigger] properties[i]).drm_format_modifier == modifier
                && has_bits(properties[i].tiling_features, FEATURE_STORAGE_IMAGE) {
            let k = choose|k: int|
                0 <= k < properties.len() && (#[trigger] properties[k]).drm_format_modifier
                    == modifier && has_bits(properties[k].tiling_features, FEATURE_STORAGE_IMAGE);
            if k < head.len() {
                assert(head[k] == properties[k]);
            } else {
                assert(t[t.len() - 1] == key);
            }
        }
    }
}

} // verus!
