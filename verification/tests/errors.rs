use framebuffer::device::OomError;
use framebuffer::framebuffer::FramebufferCreationError;

#[test]
fn oom_errors_convert_into_creation_errors() {
    assert_eq!(
        FramebufferCreationError::from(OomError::OutOfHostMemory),
        FramebufferCreationError::OomError(OomError::OutOfHostMemory)
    );
    assert_eq!(
        FramebufferCreationError::from(OomError::OutOfDeviceMemory),
        FramebufferCreationError::OomError(OomError::OutOfDeviceMemory)
    );
}

#[test]
fn descriptions_name_each_failure() {
    assert_eq!(
        FramebufferCreationError::OomError(OomError::OutOfHostMemory).description(),
        "no memory available"
    );
    assert_eq!(
        FramebufferCreationError::IncompatibleAttachments.description(),
        "the attachments do not match what the render pass declares"
    );
    assert_eq!(
        FramebufferCreationError::DimensionsTooLarge.description(),
        "the dimensions of the framebuffer are too large"
    );
    assert_eq!(
        FramebufferCreationError::AttachmentNotIdentitySwizzled.description(),
        "one of the attachments has a component swizzle that is different from identity"
    );
    assert_eq!(
        FramebufferCreationError::AttachmentTooSmall.description(),
        "one of the attachments is too small compared to the requested framebuffer dimensions"
    );
}
