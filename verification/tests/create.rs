use framebuffer::device::Device;
use framebuffer::device::DeviceLimits;
use framebuffer::framebuffer::Framebuffer;
use framebuffer::framebuffer::FramebufferCreationError;
use framebuffer::image::Attachment;
use framebuffer::render_pass::RenderPass;
use framebuffer::render_pass::RenderPassDesc;
use framebuffer::render_pass::RenderPassRef;

const R8G8B8A8_UNORM: u32 = 37;

fn test_device() -> Device {
    Device::new(
        1,
        DeviceLimits {
            max_framebuffer_width: 4096,
            max_framebuffer_height: 4096,
            max_framebuffer_layers: 256,
        },
    )
}

fn single_color_pass(device: Device) -> RenderPass {
    RenderPass::new(device, RenderPassDesc::new(vec![R8G8B8A8_UNORM]), 2)
}

fn color_image(handle: u64, width: u32, height: u32) -> Attachment {
    Attachment {
        handle,
        width,
        height,
        array_layers: 1,
        format: R8G8B8A8_UNORM,
        identity_swizzle: true,
    }
}

#[test]
fn simple_create() {
    let device = test_device();
    let render_pass = single_color_pass(device);
    let image = color_image(3, 1024, 768);
    let _ = Framebuffer::new(render_pass, [1024, 768, 1], (image,)).unwrap();
}

#[test]
fn framebuffer_too_large() {
    let device = test_device();
    let render_pass = single_color_pass(device);
    let image = color_image(3, 1024, 768);
    match Framebuffer::new(render_pass, [0xffffffff, 0xffffffff, 0xffffffff], (image,)) {
        Err(FramebufferCreationError::DimensionsTooLarge) => (),
        _ => panic!(),
    }
}

#[test]
fn attachment_too_small() {
    let device = test_device();
    let render_pass = single_color_pass(device);
    let image = color_image(3, 512, 512);
    match Framebuffer::new(render_pass, [600, 600, 1], (image,)) {
        Err(FramebufferCreationError::AttachmentTooSmall) => (),
        _ => panic!(),
    }
}

#[test]
fn created_framebuffer_reports_requested_dimensions() {
    let device = test_device();
    let render_pass = single_color_pass(device);
    let image = color_image(3, 1024, 768);
    let fb = Framebuffer::new(render_pass, [1024, 768, 1], (image,)).unwrap();
    assert_eq!(fb.width(), 1024);
    assert_eq!(fb.height(), 768);
    assert_eq!(fb.layers(), 1);
    assert_eq!(fb.dimensions(), [1024, 768, 1]);
    assert_eq!(fb.device().handle, 1);
    assert_eq!(fb.render_pass().inner_handle(), 2);
}

#[test]
fn too_many_attachments_is_incompatible() {
    let device = test_device();
    let render_pass = single_color_pass(device);
    let a = color_image(3, 1024, 768);
    let b = color_image(4, 1024, 768);
    match Framebuffer::new(render_pass, [1024, 768, 1], (a, b)) {
        Err(FramebufferCreationError::IncompatibleAttachments) => (),
        _ => panic!(),
    }
}

#[test]
fn missing_attachment_is_incompatible() {
    let device = test_device();
    let render_pass = single_color_pass(device);
    match Framebuffer::new(render_pass, [1024, 768, 1], ()) {
        Err(FramebufferCreationError::IncompatibleAttachments) => (),
        _ => panic!(),
    }
}

#[test]
fn wrong_format_is_incompatible() {
    let device = test_device();
    let render_pass = single_color_pass(device);
    let mut image = color_image(3, 1024, 768);
    image.format = R8G8B8A8_UNORM + 1;
    match Framebuffer::new(render_pass, [1024, 768, 1], (image,)) {
        Err(FramebufferCreationError::IncompatibleAttachments) => (),
        _ => panic!(),
    }
}

#[test]
fn non_identity_swizzle_is_rejected() {
    let device = test_device();
    let render_pass = single_color_pass(device);
    let mut image = color_image(3, 1024, 768);
    image.identity_swizzle = false;
    match Framebuffer::new(render_pass, [1024, 768, 1], (image,)) {
        Err(FramebufferCreationError::AttachmentNotIdentitySwizzled) => (),
        _ => panic!(),
    }
}

#[test]
fn shape_check_runs_before_dimension_check() {
    let device = test_device();
    let render_pass = single_color_pass(device);
    // Two attachments against a single declared one, with oversized
    // dimensions as well: the shape failure wins.
    let a = color_image(3, 1024, 768);
    let b = color_image(4, 1024, 768);
    match Framebuffer::new(render_pass, [0xffffffff, 0xffffffff, 0xffffffff], (a, b)) {
        Err(FramebufferCreationError::IncompatibleAttachments) => (),
        _ => panic!(),
    }
}

#[test]
fn dimension_check_uses_requested_dimensions_not_attachments() {
    let device = test_device();
    let render_pass = single_color_pass(device);
    // The attachment is small, but the requested dimensions exceed the
    // limits: the limit failure is reported first.
    let image = color_image(3, 16, 16);
    match Framebuffer::new(render_pass, [0xffffffff, 0xffffffff, 0xffffffff], (image,)) {
        Err(FramebufferCreationError::DimensionsTooLarge) => (),
        _ => panic!(),
    }
}

#[test]
fn equal_dimensions_are_large_enough() {
    let device = test_device();
    let render_pass = single_color_pass(device);
    let image = color_image(3, 600, 600);
    assert!(Framebuffer::new(render_pass, [600, 600, 1], (image,)).is_ok());
}

#[test]
fn compatible_with_own_render_pass() {
    let device = test_device();
    let render_pass = single_color_pass(device);
    let fb = Framebuffer::new(render_pass.clone(), [1024, 768, 1], (color_image(3, 1024, 768),))
        .unwrap();
    assert!(fb.is_compatible_with(&render_pass));
}

#[test]
fn incompatible_with_differently_shaped_render_pass() {
    let device = test_device();
    let render_pass = single_color_pass(device);
    let other = RenderPass::new(device, RenderPassDesc::new(vec![R8G8B8A8_UNORM + 1]), 9);
    let fb = Framebuffer::new(render_pass, [1024, 768, 1], (color_image(3, 1024, 768),))
        .unwrap();
    assert!(!fb.is_compatible_with(&other));
}

#[test]
fn inner_reports_a_handle() {
    let device = test_device();
    let render_pass = single_color_pass(device);
    let fb = Framebuffer::new(render_pass, [1024, 768, 1], (color_image(3, 1024, 768),))
        .unwrap();
    let sys = fb.inner();
    let _ = sys.internal_object();
}
