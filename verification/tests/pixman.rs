use smithay::backend::allocator::format::{Format, Fourcc, MODIFIER_LINEAR};
use smithay::backend::renderer::multigpu::drm::try_import_egl;
use smithay::backend::renderer::pixman::import::{
    code_format, dmabuf_formats, format_code, mem_formats, CopyPlan, DmabufImport, FormatCode,
    NewImage, PixmanError, PixmanMapping, PixmanRenderer, PixmanTexture, ShmData, TextureSource,
};
use smithay::backend::renderer::pixman::{
    image_transform, Box32, Operation, Placement, TransformStep,
};
use smithay::backend::renderer::{DebugFlags, Texture, TextureFilter, TextureMapping};
use smithay::backend::SwapBuffersError;
use smithay::utils::byte_order::ByteOrder;
use smithay::utils::geometry::{Point, Rectangle, Size};
use smithay::utils::transform::Transform;

const LITTLE: ByteOrder = ByteOrder::Little;

fn rect(x: i32, y: i32, w: i32, h: i32) -> Rectangle {
    Rectangle::new(Point::new(x, y), Size::new(w, h))
}

fn texture(format: Fourcc) -> PixmanTexture {
    PixmanTexture {
        width: 4,
        height: 4,
        format: Some(format),
        source: TextureSource::Memory,
        flipped: false,
    }
}

fn linear(code: Fourcc) -> Format {
    Format { code, modifier: MODIFIER_LINEAR }
}

#[test]
fn formats_that_can_be_imported() {
    assert_eq!(mem_formats(LITTLE).len(), 13);
    assert_eq!(dmabuf_formats(LITTLE)[1], linear(Fourcc::Xrgb8888));
    assert_eq!(format_code(Fourcc::Argb8888, LITTLE), Some(FormatCode::A8R8G8B8));
    assert_eq!(format_code(Fourcc::R8, LITTLE), None);
    for format in mem_formats(LITTLE) {
        let code = format_code(format, LITTLE).unwrap();
        assert_eq!(code_format(code, LITTLE), Some(format));
    }
}

#[test]
fn pixman_names_numbers_of_the_machine() {
    let big = ByteOrder::Big;
    assert_eq!(format_code(Fourcc::Argb8888, big), Some(FormatCode::B8G8R8A8));
    assert_eq!(format_code(Fourcc::Rgb565, big), None);
    assert_eq!(code_format(FormatCode::R5G6B5, big), None);
    assert_eq!(mem_formats(big).len(), 8);
    for format in mem_formats(big) {
        let code = format_code(format, big).unwrap();
        assert_eq!(code_format(code, big), Some(format));
    }
    assert_eq!(
        PixmanRenderer::create_buffer(Fourcc::Rgb565, Size::new(3, 4), big),
        Err(PixmanError::UnsupportedPixelFormat(Fourcc::Rgb565))
    );
}

#[test]
fn a_dmabuf_is_imported_once() {
    let mut renderer = PixmanRenderer::new(true).unwrap();
    let format = linear(Fourcc::Argb8888);
    let map = Ok(DmabufImport::MapWith(FormatCode::A8R8G8B8));
    assert_eq!(
        renderer.import_dmabuf(7, 2, format, LITTLE),
        Err(PixmanError::UnsupportedNumberOfPlanes)
    );
    let tiled = Format { code: Fourcc::Argb8888, modifier: 5 };
    assert_eq!(renderer.import_dmabuf(7, 1, tiled, LITTLE), Err(PixmanError::UnsupportedModifier(5)));
    assert_eq!(
        renderer.import_dmabuf(7, 1, linear(Fourcc::R8), LITTLE),
        Err(PixmanError::UnsupportedPixelFormat(Fourcc::R8))
    );
    assert_eq!(renderer.import_dmabuf(7, 1, format, LITTLE), map);
    renderer.dmabuf_imported(7, 70);
    assert_eq!(renderer.import_dmabuf(7, 1, format, LITTLE), Ok(DmabufImport::Existing(70)));
    assert_eq!(renderer.bind(7, 1, format, LITTLE), map);
    renderer.dmabuf_bound(7, 71);
    assert_eq!(renderer.bind(7, 1, format, LITTLE), Ok(DmabufImport::Existing(71)));
    renderer.cleanup(&vec![7]);
    assert_eq!(renderer.import_dmabuf(7, 1, format, LITTLE), map);
}

#[test]
fn buffers_must_be_complete() {
    assert_eq!(PixmanRenderer::check_mapping(4, 5, 20), Ok(()));
    assert_eq!(
        PixmanRenderer::check_mapping(4, 5, 19),
        Err(PixmanError::IncompleteBuffer { expected: 20, actual: 19 })
    );
    let format = Some(Fourcc::Xbgr8888);
    let data = ShmData { offset: 8, stride: 16, width: 4, height: 2, format: 3 };
    assert_eq!(PixmanRenderer::import_shm_buffer(data, format, 40, LITTLE), Ok(FormatCode::X8B8G8R8));
    assert_eq!(
        PixmanRenderer::import_shm_buffer(data, format, 39, LITTLE),
        Err(PixmanError::IncompleteBuffer { expected: 40, actual: 39 })
    );
    assert_eq!(
        PixmanRenderer::import_shm_buffer(data, None, 40, LITTLE),
        Err(PixmanError::UnsupportedWlPixelFormat(3))
    );
    assert_eq!(
        PixmanRenderer::import_shm_buffer(data, Some(Fourcc::R8), 40, LITTLE),
        Err(PixmanError::UnsupportedWlPixelFormat(3))
    );
    assert_eq!(PixmanRenderer::with_image(false, data, 0), Ok(false));
    assert_eq!(PixmanRenderer::with_image(true, data, 40), Ok(true));
    assert!(PixmanRenderer::with_image(true, data, 1).is_err());
}

#[test]
fn memory_is_imported_and_updated() {
    let format = Fourcc::Argb8888;
    let data: Vec<u8> = (0..10).collect();
    let size = Size::new(1, 2);
    let import = |data, format, image| {
        PixmanRenderer::import_memory(data, format, size, true, image, LITTLE)
    };
    let (imported, pixels) = import(&data, format, Some((4, 2))).unwrap();
    assert_eq!(pixels, &data[..8]);
    assert_eq!((imported.width(), imported.height(), imported.format()), (1, 2, Some(format)));
    assert_eq!((imported.source, imported.flipped), (TextureSource::Memory, true));
    assert_eq!(imported.flip_height(), Some(2));
    assert_eq!(texture(format).flip_height(), None);
    assert_eq!(
        import(&data[..7], format, Some((4, 2))),
        Err(PixmanError::IncompleteBuffer { expected: 8, actual: 7 })
    );
    assert_eq!(
        import(&data, Fourcc::R8, None),
        Err(PixmanError::UnsupportedPixelFormat(Fourcc::R8))
    );
    assert_eq!(
        import(&data, format, None),
        Err(PixmanError::Unsupported)
    );
    let mapping = PixmanMapping { width: 1, height: 2, stride: 4, format: Some(format), flipped: true };
    assert!(mapping.flipped());
    assert_eq!(PixmanRenderer::map_texture(&mapping, pixels), &data[..8]);
    let region = rect(1, 2, 3, 4);
    let shared = PixmanTexture { source: TextureSource::Shm, ..imported };
    assert_eq!(
        PixmanRenderer::update_memory(&imported, 4, 2, 8, region),
        Ok(CopyPlan { src: region.loc, dest: region.loc, size: region.size })
    );
    assert_eq!(
        PixmanRenderer::update_memory(&shared, 4, 2, 8, region),
        Err(PixmanError::ImportFailed)
    );
}

#[test]
fn pixels_are_copied() {
    let region = rect(1, 2, 3, 4);
    let image = NewImage { code: FormatCode::R5G6B5, width: 3, height: 4, clear: false };
    let plan = CopyPlan { src: region.loc, dest: Point::new(0, 0), size: region.size };
    let format = Fourcc::Rgb565;
    let source = TextureSource::Dmabuf { exists: false };
    let gone = PixmanTexture { source, ..texture(format) };
    assert_eq!(PixmanRenderer::copy_framebuffer(region, format, LITTLE), Ok((image, plan)));
    assert_eq!(
        PixmanRenderer::copy_texture(&texture(format), region, format, LITTLE),
        Ok((image, plan))
    );
    assert_eq!(
        PixmanRenderer::copy_texture(&gone, region, format, LITTLE),
        Err(PixmanError::BufferDestroyed)
    );
    let nameless = PixmanTexture { format: None, ..texture(format) };
    assert_eq!(
        PixmanRenderer::copy_texture(&nameless, region, format, LITTLE),
        Err(PixmanError::Unsupported)
    );
    assert_eq!(
        PixmanRenderer::copy_texture(&texture(format), region, Fourcc::R8, LITTLE),
        Err(PixmanError::UnsupportedPixelFormat(Fourcc::R8))
    );
    assert_eq!(PixmanRenderer::accessor(TextureSource::Dmabuf { exists: true }), Ok(true));
    assert_eq!(
        PixmanRenderer::create_buffer(format, Size::new(3, 4), LITTLE),
        Ok(NewImage { clear: true, ..image })
    );
    assert_eq!(
        PixmanRenderer::create_buffer(Fourcc::R8, Size::new(3, 4), LITTLE),
        Err(PixmanError::UnsupportedPixelFormat(Fourcc::R8))
    );
    assert!(PixmanRenderer::new(true).unwrap().can_read_texture());
    let mapping = PixmanMapping { width: 3, height: 4, stride: 4, format: Some(Fourcc::R8), flipped: false };
    assert!(!mapping.flipped());
    assert_eq!(mapping.mapped_format(), Fourcc::R8);
    let copied = image.mapping(8, true, LITTLE);
    assert_eq!((copied.width(), copied.height(), copied.stride), (3, 4, 8));
    assert_eq!((copied.format, copied.flipped), (Some(Fourcc::Rgb565), true));
    assert_eq!(image.mapping(8, false, ByteOrder::Big).format, None);
    assert_eq!(mapping.size(), Size::new(3, 4));
}

#[test]
fn errors_lose_the_context() {
    assert_eq!(
        SwapBuffersError::from(PixmanError::Unsupported),
        SwapBuffersError::ContextLost
    );
    assert_eq!(try_import_egl(), Err(PixmanError::Unsupported));
}

#[test]
fn the_renderer_keeps_its_settings() {
    assert_eq!(PixmanRenderer::new(false).err(), Some(PixmanError::Unsupported));
    let mut renderer = PixmanRenderer::new(true).unwrap();
    assert_eq!(renderer.upscale_filter, TextureFilter::Linear);
    assert!(renderer.buffers.images.is_empty() && renderer.dmabuf_cache.images.is_empty());
    renderer.upscale_filter(TextureFilter::Nearest);
    renderer.downscale_filter(TextureFilter::Nearest);
    renderer.set_debug_flags(DebugFlags { bits: 1 });
    assert_eq!(renderer.debug_flags(), DebugFlags { bits: 1 });
    let mut frame = renderer.render(Size::new(10, 20), Transform::_90, &Vec::new());
    assert_eq!(frame.size, Size::new(20, 10));
    assert_eq!(frame.upscale_filter, TextureFilter::Nearest);
    assert_eq!(frame.downscale_filter, TextureFilter::Nearest);
    assert_eq!(frame.transformation(), Transform::_90);
    assert!(frame.finish(true));
    assert!(!frame.finish(true));
}

#[test]
fn clearing_replaces_the_damaged_pixels() {
    let frame = PixmanRenderer::new(true).unwrap().render(Size::new(10, 20), Transform::Normal, &Vec::new());
    let plan = frame.clear(&vec![rect(1, 2, 3, 4)]);
    assert_eq!(plan.op, Operation::Src);
    assert_eq!(plan.boxes, vec![Box32 { x1: 1, y1: 2, x2: 4, y2: 6 }]);
    let solid = frame.draw_solid(rect(5, 5, 4, 4), &vec![rect(0, 0, 1, 1)], false);
    assert_eq!(solid.op, Operation::Over);
    assert_eq!(solid.boxes, vec![Box32 { x1: 5, y1: 5, x2: 6, y2: 6 }]);
    assert_eq!(frame.draw_solid(rect(5, 5, 4, 4), &Vec::new(), true).op, Operation::Src);
}

#[test]
fn a_color_stays_in_its_place() {
    let mut renderer = PixmanRenderer::new(true).unwrap();
    let frame = renderer.render(Size::new(10, 20), Transform::Normal, &Vec::new());
    let damage = vec![rect(-1, 2, 3, 10), rect(4, 0, 1, 1), rect(0, 0, 4, 4)];
    let plan = frame.draw_solid(rect(5, 5, 4, 4), &damage, false);
    assert_eq!(
        plan.boxes,
        vec![Box32 { x1: 5, y1: 7, x2: 7, y2: 9 }, Box32 { x1: 5, y1: 5, x2: 9, y2: 9 }]
    );
    let turned = renderer.render(Size::new(10, 20), Transform::_180, &Vec::new());
    let plan = turned.draw_solid(rect(0, 0, 2, 2), &vec![rect(1, 0, 5, 5)], true);
    assert_eq!(plan.boxes, vec![Box32 { x1: 8, y1: 18, x2: 9, y2: 20 }]);
    assert_eq!(
        turned.clear(&vec![rect(8, 18, 5, 5)]).boxes,
        vec![Box32 { x1: 0, y1: 0, x2: 2, y2: 2 }]
    );
}

#[test]
fn the_filter_depends_on_the_area() {
    let mut renderer = PixmanRenderer::new(true).unwrap();
    renderer.upscale_filter(TextureFilter::Nearest);
    renderer.downscale_filter(TextureFilter::Linear);
    let frame = renderer.render(Size::new(10, 20), Transform::_90, &Vec::new());
    let filter = |w, h| {
        frame
            .render_texture_from_to(
                &texture(Fourcc::Argb8888),
                rect(0, 0, 4, 6),
                rect(0, 0, w, h),
                &Vec::new(),
                Transform::Normal,
                Size::new(10, 20),
            )
            .filter
    };
    assert_eq!(filter(2, 3), TextureFilter::Linear);
    assert_eq!(filter(4, 6), TextureFilter::Linear);
    assert_eq!(filter(8, 9), TextureFilter::Nearest);
}

#[test]
fn a_texture_is_placed() {
    let frame = PixmanRenderer::new(true).unwrap().render(Size::new(10, 20), Transform::Normal, &Vec::new());
    let plan = frame.render_texture_from_to(
        &texture(Fourcc::Argb8888),
        rect(0, 0, 4, 4),
        rect(2, 3, 4, 4),
        &vec![rect(1, 1, 2, 2)],
        Transform::Normal,
        Size::new(10, 20),
    );
    assert_eq!(plan.op, Operation::Over);
    assert_eq!(plan.boxes, vec![Box32 { x1: 3, y1: 4, x2: 5, y2: 6 }]);
    assert_eq!(plan.dst, rect(2, 3, 4, 4));
    assert!(plan.steps.is_empty());
    let flipped = frame.render_texture_from_to(
        &PixmanTexture { flipped: true, ..texture(Fourcc::Argb8888) },
        rect(0, 0, 4, 4),
        rect(2, 3, 4, 4),
        &vec![rect(1, 1, 2, 2)],
        Transform::Normal,
        Size::new(10, 20),
    );
    assert_eq!(
        flipped.steps[flipped.steps.len() - 2..],
        [TransformStep::Flip, TransformStep::Translate { x: 0, y: 4 }]
    );
    assert_eq!(flipped.boxes, plan.boxes);
    let scaled = frame.render_texture_from_to(
        &texture(Fourcc::Xrgb8888),
        rect(0, 0, 2, 2),
        rect(2, 3, 4, 4),
        &vec![rect(0, 0, 4, 4)],
        Transform::_90,
        Size::new(10, 20),
    );
    assert_eq!(scaled.op, Operation::Src);
    assert!(scaled.steps.iter().any(|s| matches!(s, TransformStep::Rotate { .. })));
    let _: Placement = scaled.placement;
}

#[test]
fn images_are_turned_like_their_output() {
    let table = [
        (Transform::_90, Transform::Normal, Transform::_270),
        (Transform::_90, Transform::_90, Transform::Normal),
        (Transform::_90, Transform::_180, Transform::_90),
        (Transform::_90, Transform::_270, Transform::_180),
        (Transform::_90, Transform::Flipped, Transform::Flipped90),
        (Transform::_90, Transform::Flipped90, Transform::Flipped180),
        (Transform::_90, Transform::Flipped180, Transform::Flipped270),
        (Transform::_90, Transform::Flipped270, Transform::Flipped),
        (Transform::_180, Transform::Normal, Transform::_180),
        (Transform::_180, Transform::_90, Transform::_270),
        (Transform::_180, Transform::_180, Transform::Normal),
        (Transform::_180, Transform::_270, Transform::_90),
        (Transform::_180, Transform::Flipped, Transform::Flipped180),
        (Transform::_180, Transform::Flipped90, Transform::Flipped270),
        (Transform::_180, Transform::Flipped180, Transform::Flipped),
        (Transform::_180, Transform::Flipped270, Transform::Flipped90),
        (Transform::_270, Transform::Normal, Transform::_90),
        (Transform::_270, Transform::_90, Transform::_180),
        (Transform::_270, Transform::_180, Transform::_270),
        (Transform::_270, Transform::_270, Transform::Normal),
        (Transform::_270, Transform::Flipped, Transform::Flipped270),
        (Transform::_270, Transform::Flipped90, Transform::Flipped),
        (Transform::_270, Transform::Flipped180, Transform::Flipped90),
        (Transform::_270, Transform::Flipped270, Transform::Flipped180),
        (Transform::Flipped, Transform::Normal, Transform::Flipped),
        (Transform::Flipped, Transform::_90, Transform::Flipped90),
        (Transform::Flipped, Transform::_180, Transform::Flipped180),
        (Transform::Flipped, Transform::_270, Transform::Flipped270),
        (Transform::Flipped, Transform::Flipped, Transform::Normal),
        (Transform::Flipped, Transform::Flipped90, Transform::_90),
        (Transform::Flipped, Transform::Flipped180, Transform::_180),
        (Transform::Flipped, Transform::Flipped270, Transform::_270),
        (Transform::Flipped90, Transform::Normal, Transform::Flipped90),
        (Transform::Flipped90, Transform::_90, Transform::Flipped180),
        (Transform::Flipped90, Transform::_180, Transform::Flipped270),
        (Transform::Flipped90, Transform::_270, Transform::Flipped),
        (Transform::Flipped90, Transform::Flipped, Transform::_270),
        (Transform::Flipped90, Transform::Flipped90, Transform::Normal),
        (Transform::Flipped90, Transform::Flipped180, Transform::_90),
        (Transform::Flipped90, Transform::Flipped270, Transform::_180),
        (Transform::Flipped180, Transform::Normal, Transform::Flipped180),
        (Transform::Flipped180, Transform::_90, Transform::Flipped270),
        (Transform::Flipped180, Transform::_180, Transform::Flipped),
        (Transform::Flipped180, Transform::_270, Transform::Flipped90),
        (Transform::Flipped180, Transform::Flipped, Transform::_180),
        (Transform::Flipped180, Transform::Flipped90, Transform::_270),
        (Transform::Flipped180, Transform::Flipped180, Transform::Normal),
        (Transform::Flipped180, Transform::Flipped270, Transform::_90),
        (Transform::Flipped270, Transform::Normal, Transform::Flipped270),
        (Transform::Flipped270, Transform::_90, Transform::Flipped),
        (Transform::Flipped270, Transform::_180, Transform::Flipped90),
        (Transform::Flipped270, Transform::_270, Transform::Flipped180),
        (Transform::Flipped270, Transform::Flipped, Transform::_90),
        (Transform::Flipped270, Transform::Flipped90, Transform::_180),
        (Transform::Flipped270, Transform::Flipped180, Transform::_270),
        (Transform::Flipped270, Transform::Flipped270, Transform::Normal),
    ];
    for (src, output, image) in table {
        assert_eq!(image_transform(src, output), image);
        assert_eq!(image_transform(Transform::Normal, output), output);
    }
}
