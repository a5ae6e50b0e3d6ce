//! The steps by which an image gets its memory and its view.

use vstd::prelude::*;

use crate::backend::allocator::format::{Format, Fourcc, MODIFIER_INVALID};
use crate::utils::byte_order::ByteOrder;

use super::format::{
    get_drm_format, vk_format_is_injective, vk_on, ComponentMapping, FormatEntry,
};
use super::image::{
    allows, choose_memory, find_entry, memory_index, plane_count, view_components, view_of, Error,
    ImageRequest, ImageTiling, VulkanImage,
};

verus! {

/// The place of a plane in a dmabuf.
#[derive(Clone, Copy, Debug, PartialEq, Eq, Structural)]
pub struct PlaneLayout {
    pub offset: u64,
    pub row_pitch: u64,
}

/// The layouts of the planes of a dmabuf, from their offsets and strides.
pub fn plane_layouts(offsets: &Vec<u32>, strides: &Vec<u32>) -> (layouts: Vec<PlaneLayout>)
    ensures
        layouts@ == Seq::new(
            if offsets@.len() <= strides@.len() {
                offsets@.len()
            } else {
                strides@.len()
            },
            |i: int|
                PlaneLayout { offset: offsets@[i] as u64, row_pitch: strides@[i] as u64 },
        ),
{
    let count: usize = if offsets.len() <= strides.len() {
        offsets.len()
    } else {
        strides.len()
    };
    let ghost all = Seq::new(
        count as nat,
        |i: int| PlaneLayout { offset: offsets@[i] as u64, row_pitch: strides@[i] as u64 },
    );
    let mut layouts: Vec<PlaneLayout> = Vec::new();
    for i in 0..count
        invariant
            count <= offsets@.len(),
            count <= strides@.len(),
            all == Seq::new(
                count as nat,
                |i: int| PlaneLayout { offset: offsets@[i] as u64, row_pitch: strides@[i] as u64 },
            ),
            layouts@ == all.take(i as int),
    {
        layouts.push(PlaneLayout { offset: offsets[i] as u64, row_pitch: strides[i] as u64 });
        assert(layouts@ =~= all.take(i as int + 1));
    }
    assert(layouts@ =~= all);
    layouts
}

/// What is to be done next for an image.
#[derive(Clone, Copy, Debug, PartialEq, Eq, Structural)]
pub enum ImageAction {
    /// The image is created: with the list of modifiers of an exportable image, with the planes
    /// of a dmabuf, and for memory that is shared as a dmabuf.
    CreateImage { tiling: ImageTiling, modifiers: bool, planes: bool, external: bool },
    /// The modifier that was picked is asked for.
    QueryModifier,
    /// The size and the types of the memory that the image needs are asked for.
    GetRequirements,
    /// The file descriptor of the dmabuf is duplicated.
    DuplicateFd,
    /// Memory is allocated, for the image alone if it is shared, and from the file descriptor
    /// if there is one.
    Allocate { size: u64, memory_type: u32, dedicated: bool, export: bool, import: Option<i32> },
    /// The memory is bound to the image.
    Bind,
    CreateView(ComponentMapping),
}

/// What a step gave.
#[derive(Clone, Copy, Debug, PartialEq, Eq, Structural)]
pub enum ImageEvent {
    Done,
    Modifier(u64),
    Requirements { size: u64, type_bits: u32 },
    Fd(i32),
    Failed(i32),
}

/// How far an image got.
#[derive(Clone, Copy, Debug, PartialEq, Eq, Structural)]
pub enum ImageStage {
    Start,
    Created,
    /// The pixel format and the number of planes are known.
    Formatted { drm: Option<Format>, planes: u32 },
    /// The memory is chosen, by its position and its bits.
    Chosen { drm: Option<Format>, planes: u32, size: u64, memory_type: u32, bits: u32 },
    Importing {
        drm: Option<Format>,
        planes: u32,
        size: u64,
        memory_type: u32,
        bits: u32,
        fd: i32,
    },
    Allocated { drm: Option<Format>, planes: u32, bits: u32 },
    Bound { drm: Option<Format>, planes: u32, bits: u32 },
    Ready { drm: Option<Format>, planes: u32, bits: u32 },
}

/// The pixel format of a Vulkan format, if one has it on the machine.
pub open spec fn drm_of(vk: i32, order: ByteOrder) -> Option<Fourcc> {
    if exists|fourcc: Fourcc| #[trigger] vk_on(fourcc, order) == Some(vk) {
        Some(choose|fourcc: Fourcc| #[trigger] vk_on(fourcc, order) == Some(vk))
    } else {
        None
    }
}

/// An image that is being created.
#[derive(Clone, Copy, Debug, PartialEq, Eq, Structural)]
pub struct ImageSetup {
    pub request: ImageRequest,
    pub stage: ImageStage,
}

impl ImageSetup {
    /// Whether the image gets its memory from a dmabuf.
    pub open spec fn imports(self) -> bool {
        self.request.dmabuf_planes is Some
    }

    /// Whether the memory of the image is shared as a dmabuf.
    pub open spec fn external(self) -> bool {
        self.request.exportable is Some || self.request.dmabuf_planes is Some
    }

    /// The channels of the view, if the image has one.
    pub open spec fn components(self) -> Option<ComponentMapping> {
        view_of(
            self.request.usage,
            self.request.format,
            self.request.spec_has_alpha(),
            self.request.order,
        )
    }

    /// The format of an image whose modifier nobody picked.
    pub open spec fn implied_format(self) -> Option<Format> {
        match drm_of(self.request.format, self.request.order) {
            Some(code) => Some(Format { code, modifier: MODIFIER_INVALID }),
            None => None,
        }
    }

    pub open spec fn spec_action(self) -> Option<ImageAction> {
        match self.stage {
            ImageStage::Start => Some(
                ImageAction::CreateImage {
                    tiling: self.request.spec_tiling(),
                    modifiers: self.request.exportable is Some,
                    planes: self.imports(),
                    external: self.external(),
                },
            ),
            ImageStage::Created => Some(ImageAction::QueryModifier),
            ImageStage::Formatted { .. } => Some(ImageAction::GetRequirements),
            ImageStage::Chosen { size, memory_type, .. } => if self.imports() {
                Some(ImageAction::DuplicateFd)
            } else {
                Some(
                    ImageAction::Allocate {
                        size,
                        memory_type,
                        dedicated: self.external(),
                        export: self.external(),
                        import: None,
                    },
                )
            },
            ImageStage::Importing { size, memory_type, fd, .. } => Some(
                ImageAction::Allocate {
                    size,
                    memory_type,
                    dedicated: self.external(),
                    export: self.external(),
                    import: Some(fd),
                },
            ),
            ImageStage::Allocated { .. } => Some(ImageAction::Bind),
            ImageStage::Bound { .. } => match self.components() {
                Some(components) => Some(ImageAction::CreateView(components)),
                None => None,
            },
            ImageStage::Ready { .. } => None,
        }
    }

    /// Whether the event answers what is done at this stage.
    pub open spec fn expects(self, event: ImageEvent, entries: Seq<FormatEntry>) -> bool {
        match self.stage {
            ImageStage::Start => event is Done || event is Failed,
            ImageStage::Created => match event {
                ImageEvent::Modifier(modifier) => self.request.exportable matches Some(code)
                    && find_entry(entries, Format { code, modifier }) is Some,
                _ => event is Failed,
            },
            ImageStage::Formatted { .. } => event is Requirements,
            ImageStage::Chosen { .. } => event is Failed || if self.imports() {
                event is Fd
            } else {
                event is Done
            },
            ImageStage::Importing { .. } | ImageStage::Allocated { .. } => event is Done
                || event is Failed,
            ImageStage::Bound { .. } => self.components() is Some && (event is Done
                || event is Failed),
            ImageStage::Ready { .. } => false,
        }
    }

    /// The error of a step that failed.
    pub open spec fn spec_error(self, code: i32) -> Error {
        match self.stage {
            ImageStage::Start => Error::VulkanImage(code),
            ImageStage::Created => Error::VulkanModifierQuery(code),
            ImageStage::Chosen { .. } => if self.imports() {
                Error::DmabufFdError(code)
            } else {
                Error::VulkanAllocate(code)
            },
            ImageStage::Importing { .. } => Error::VulkanAllocate(code),
            ImageStage::Allocated { .. } => Error::VulkanBind(code),
            _ => Error::VulkanImageView(code),
        }
    }

    /// The stage after a step that succeeded.
    pub open spec fn next_stage(
        self,
        event: ImageEvent,
        entries: Seq<FormatEntry>,
        types: Seq<u32>,
    ) -> ImageStage {
        match (self.stage, event) {
            (ImageStage::Start, _) => if self.request.exportable is Some {
                ImageStage::Created
            } else {
                ImageStage::Formatted {
                    drm: self.implied_format(),
                    planes: match self.request.dmabuf_planes {
                        Some(n) => n,
                        None => 0,
                    },
                }
            },
            (ImageStage::Created, ImageEvent::Modifier(modifier)) => {
                let format = Format { code: self.request.exportable->0, modifier };
                ImageStage::Formatted {
                    drm: Some(format),
                    planes: find_entry(entries, format)->0.modifier_properties.plane_count,
                }
            },
            (
                ImageStage::Formatted { drm, planes },
                ImageEvent::Requirements { size, type_bits },
            ) => {
                let i = memory_index(type_bits, types, 0);
                ImageStage::Chosen { drm, planes, size, memory_type: i as u32, bits: types[i] }
            },
            (
                ImageStage::Chosen { drm, planes, size, memory_type, bits },
                ImageEvent::Fd(fd),
            ) => ImageStage::Importing { drm, planes, size, memory_type, bits, fd },
            (ImageStage::Chosen { drm, planes, bits, .. }, _) => ImageStage::Allocated {
                drm,
                planes,
                bits,
            },
            (ImageStage::Importing { drm, planes, bits, .. }, _) => ImageStage::Allocated {
                drm,
                planes,
                bits,
            },
            (ImageStage::Allocated { drm, planes, bits }, _) => ImageStage::Bound {
                drm,
                planes,
                bits,
            },
            (ImageStage::Bound { drm, planes, bits }, _) => ImageStage::Ready {
                drm,
                planes,
                bits,
            },
            _ => self.stage,
        }
    }

    pub open spec fn advanced(
        self,
        event: ImageEvent,
        entries: Seq<FormatEntry>,
        types: Seq<u32>,
    ) -> Result<ImageSetup, Error> {
        match event {
            ImageEvent::Failed(code) => Err(self.spec_error(code)),
            ImageEvent::Requirements { type_bits, .. } if memory_index(type_bits, types, 0)
                >= types.len() => Err(Error::NoMemoryAvailable),
            _ => Ok(
                ImageSetup { request: self.request, stage: self.next_stage(event, entries, types) },
            ),
        }
    }

    /// Whether all is done that the image needs.
    pub open spec fn is_done(self) -> bool {
        self.stage is Ready || self.stage is Bound && self.components() is None
    }

    /// How many of the steps are done.
    pub open spec fn progress(self) -> int {
        match self.stage {
            ImageStage::Start => 0,
            ImageStage::Created => 1,
            ImageStage::Formatted { .. } => 2,
            ImageStage::Chosen { .. } => 3,
            ImageStage::Importing { .. } => 4,
            ImageStage::Allocated { .. } => 5,
            ImageStage::Bound { .. } => 6,
            ImageStage::Ready { .. } => 7,
        }
    }

    /// Starts to create an image.
    pub fn new(request: ImageRequest) -> (setup: ImageSetup)
        ensures
            setup == (ImageSetup { request, stage: ImageStage::Start }),
    {
        ImageSetup { request, stage: ImageStage::Start }
    }

    /// What is to be done next; nothing once the image is complete.
    pub fn next_action(&self) -> (action: Option<ImageAction>)
        ensures
            action == self.spec_action(),
    {
        let external: bool = self.request.is_external();
        match self.stage {
            ImageStage::Start => Some(
                ImageAction::CreateImage {
                    tiling: self.request.tiling(),
                    modifiers: self.request.exportable.is_some(),
                    planes: self.request.dmabuf_planes.is_some(),
                    external,
                },
            ),
            ImageStage::Created => Some(ImageAction::QueryModifier),
            ImageStage::Formatted { .. } => Some(ImageAction::GetRequirements),
            ImageStage::Chosen { size, memory_type, .. } => if self.request.dmabuf_planes.is_some() {
                Some(ImageAction::DuplicateFd)
            } else {
                Some(
                    ImageAction::Allocate {
                        size,
                        memory_type,
                        dedicated: external,
                        export: external,
                        import: None,
                    },
                )
            },
            ImageStage::Importing { size, memory_type, fd, .. } => Some(
                ImageAction::Allocate {
                    size,
                    memory_type,
                    dedicated: external,
                    export: external,
                    import: Some(fd),
                },
            ),
            ImageStage::Allocated { .. } => Some(ImageAction::Bind),
            ImageStage::Bound { .. } => match view_components(
                self.request.usage,
                self.request.format,
                self.request.has_alpha(),
                self.request.order,
            ) {
                Some(components) => Some(ImageAction::CreateView(components)),
                None => None,
            },
            ImageStage::Ready { .. } => None,
        }
    }

    fn error(&self, code: i32) -> (error: Error)
        ensures
            error == self.spec_error(code),
    {
        match self.stage {
            ImageStage::Start => Error::VulkanImage(code),
            ImageStage::Created => Error::VulkanModifierQuery(code),
            ImageStage::Chosen { .. } => if self.request.dmabuf_planes.is_some() {
                Error::DmabufFdError(code)
            } else {
                Error::VulkanAllocate(code)
            },
            ImageStage::Importing { .. } => Error::VulkanAllocate(code),
            ImageStage::Allocated { .. } => Error::VulkanBind(code),
            _ => Error::VulkanImageView(code),
        }
    }

    fn guess_format(&self) -> (drm: Option<Format>)
        ensures
            drm == self.implied_format(),
    {
        match get_drm_format(self.request.format, self.request.order) {
            Some(code) => {
                proof {
                    vk_format_is_injective(
                        code,
                        drm_of(self.request.format, self.request.order)->0,
                        self.request.order,
                    );
                }
                Some(Format { code, modifier: MODIFIER_INVALID })
            },
            None => None,
        }
    }

    /// Takes what a step gave. `entries` are the formats of the device and `types` the bits of
    /// its memory types.
    pub fn advance(
        self,
        event: ImageEvent,
        entries: &Vec<FormatEntry>,
        types: &Vec<u32>,
    ) -> (r: Result<ImageSetup, Error>)
        requires
            self.expects(event, entries@),
            types@.len() <= u32::MAX,
        ensures
            r == self.advanced(event, entries@, types@),
    {
        if let ImageEvent::Failed(code) = event {
            return Err(self.error(code));
        }
        let stage: ImageStage = match (self.stage, event) {
            (ImageStage::Start, _) => if self.request.exportable.is_some() {
                ImageStage::Created
            } else {
                ImageStage::Formatted {
                    drm: self.guess_format(),
                    planes: match self.request.dmabuf_planes {
                        Some(n) => n,
                        None => 0,
                    },
                }
            },
            (ImageStage::Created, ImageEvent::Modifier(modifier)) => match self.request.exportable {
                Some(code) => {
                    let format = Format { code, modifier };
                    let planes: u32 = match plane_count(entries, format) {
                        Some(count) => count,
                        None => 0,
                    };
                    ImageStage::Formatted { drm: Some(format), planes }
                },
                None => self.stage,
            },
            (
                ImageStage::Formatted { drm, planes },
                ImageEvent::Requirements { size, type_bits },
            ) => match choose_memory(type_bits, types) {
                Ok((memory_type, bits)) => ImageStage::Chosen {
                    drm,
                    planes,
                    size,
                    memory_type,
                    bits,
                },
                Err(e) => {
                    return Err(e);
                },
            },
            (
                ImageStage::Chosen { drm, planes, size, memory_type, bits },
                ImageEvent::Fd(fd),
            ) => ImageStage::Importing { drm, planes, size, memory_type, bits, fd },
            (ImageStage::Chosen { drm, planes, bits, .. }, _) => ImageStage::Allocated {
                drm,
                planes,
                bits,
            },
            (ImageStage::Importing { drm, planes, bits, .. }, _) => ImageStage::Allocated {
                drm,
                planes,
                bits,
            },
            (ImageStage::Allocated { drm, planes, bits }, _) => ImageStage::Bound {
                drm,
                planes,
                bits,
            },
            (ImageStage::Bound { drm, planes, bits }, _) => ImageStage::Ready {
                drm,
                planes,
                bits,
            },
            _ => self.stage,
        };
        Ok(ImageSetup { request: self.request, stage })
    }

    /// What is known of the finished image, which is on the node of its dmabuf or else on that
    /// of the device.
    pub fn finish(&self, dmabuf_node: Option<u64>, device_node: Option<u64>) -> (image: VulkanImage)
        requires
            self.is_done(),
        ensures
            ({
                let (drm, planes, bits) = match self.stage {
                    ImageStage::Bound { drm, planes, bits } => (drm, planes, bits),
                    ImageStage::Ready { drm, planes, bits } => (drm, planes, bits),
                    _ => (None, 0u32, 0u32),
                };
                image == (VulkanImage {
                    width: self.request.width,
                    height: self.request.height,
                    format: self.request.format,
                    has_alpha: self.request.spec_has_alpha(),
                    mem_types: bits,
                    usage: self.request.usage,
                    tiling: self.request.spec_tiling(),
                    drm,
                    view: self.components() is Some,
                    dmabuf_exportable: self.external(),
                    dmabuf_plane_count: planes,
                    node: if self.imports() {
                        dmabuf_node
                    } else {
                        device_node
                    },
                    order: self.request.order,
                })
            }),
    {
        let (drm, planes, bits): (Option<Format>, u32, u32) = match self.stage {
            ImageStage::Bound { drm, planes, bits } => (drm, planes, bits),
            ImageStage::Ready { drm, planes, bits } => (drm, planes, bits),
            _ => (None, 0, 0),
        };
        let alpha: bool = self.request.has_alpha();
        VulkanImage {
            width: self.request.width,
            height: self.request.height,
            format: self.request.format,
            has_alpha: alpha,
            mem_types: bits,
            usage: self.request.usage,
            tiling: self.request.tiling(),
            drm,
            view: view_components(
                self.request.usage,
                self.request.format,
                alpha,
                self.request.order,
            ).is_some(),
            dmabuf_exportable: self.request.is_external(),
            dmabuf_plane_count: planes,
            node: if self.request.dmabuf_planes.is_some() {
                dmabuf_node
            } else {
                device_node
            },
            order: self.request.order,
        }
    }
}

/// Every step that succeeds makes progress, so an image is complete after a few steps; only a
/// complete image has nothing left to be done.
pub proof fn image_makes_progress(
    setup: ImageSetup,
    event: ImageEvent,
    entries: Seq<FormatEntry>,
    types: Seq<u32>,
)
    requires
        setup.expects(event, entries),
    ensures
        setup.advanced(event, entries, types) matches Ok(next) ==> setup.progress()
            < next.progress() <= 7,
        setup.spec_action() is None <==> setup.is_done(),
        event is Failed ==> setup.advanced(event, entries, types) is Err,
{
}

/// The memory of an image is allowed for it and local to the device, and memory is taken from a
/// dmabuf exactly where the image shows one.
pub proof fn chosen_memory_is_local(
    setup: ImageSetup,
    event: ImageEvent,
    entries: Seq<FormatEntry>,
    types: Seq<u32>,
)
    requires
        setup.expects(event, entries),
        types.len() <= u32::MAX,
    ensures
        setup.advanced(event, entries, types) matches Ok(next) ==> {
            &&& next.stage matches ImageStage::Chosen { memory_type, bits, .. } ==> {
                &&& event matches ImageEvent::Requirements { type_bits, .. } && allows(
                    type_bits,
                    memory_type as int,
                )
                &&& memory_type < types.len()
                &&& bits == types[memory_type as int]
                &&& super::device::has_bits(bits, super::image::MEMORY_DEVICE_LOCAL)
            }
            &&& next.spec_action() matches Some(ImageAction::Allocate { import, .. })
                ==> next.imports() == (import is Some)
        },
{
    if let ImageEvent::Requirements { type_bits, .. } = event {
        lemma_memory_index(type_bits, types, 0);
    }
}

proof fn lemma_memory_index(type_bits: u32, types: Seq<u32>, from: int)
    requires
        0 <= from <= types.len(),
    ensures
        from <= memory_index(type_bits, types, from) <= types.len(),
        memory_index(type_bits, types, from) < types.len() ==> super::device::has_bits(
            types[memory_index(type_bits, types, from)],
            super::image::MEMORY_DEVICE_LOCAL,
        ) && allows(type_bits, memory_index(type_bits, types, from)),
    decreases types.len() - from,
{
    if from < types.len() {
        lemma_memory_index(type_bits, types, from + 1);
    }
}

} // verus!
