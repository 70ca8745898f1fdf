//! Image-view attachments: the plain data that the framebuffer logic reads
//! of an image view bound to a render pass.

use vstd::prelude::*;

verus! {

/// The memory layout of an image at a point of its usage timeline.
#[derive(Clone, Copy, Debug, PartialEq, Eq, Structural)]
pub enum Layout {
    Undefined,
    General,
    ColorAttachmentOptimal,
    DepthStencilAttachmentOptimal,
    DepthStencilReadOnlyOptimal,
    ShaderReadOnlyOptimal,
    TransferSrcOptimal,
    TransferDstOptimal,
    Preinitialized,
    PresentSrc,
}

/// The data of one attachment: the raw handle of the image view, the
/// dimensions of the view's parent image, the view's format, and whether the
/// view's component swizzle is the identity.
///
/// The dimensions are those of the parent image, not of the view itself; this
/// is a deliberate approximation: a
/// view reports its parent's full extent even when it covers a sub-layer.
#[derive(Clone, Copy, Debug, PartialEq, Eq, Structural)]
pub struct Attachment {
    /// Raw handle of the image view.
    pub handle: u64,
    /// Width of the parent image in pixels.
    pub width: u32,
    /// Height of the parent image in pixels.
    pub height: u32,
    /// Number of array layers of the parent image.
    pub array_layers: u32,
    /// Format of the view, as a plain identifier.
    pub format: u32,
    /// Whether the view's component swizzle is the identity.
    pub identity_swizzle: bool,
}

/// A resource that can stand as one attachment of a framebuffer: anything
/// that can report the plain attachment data the construction-time checks
/// and the synchronization metadata read.
pub trait ImageView: Sized {
    /// The attachment data of this resource, as a mathematical value.
    spec fn spec_info(&self) -> Attachment;

    /// Returns the attachment data of this resource.
    fn info(&self) -> (r: Attachment)
        ensures
            r == self.spec_info(),
    ;
}

impl ImageView for Attachment {
    open spec fn spec_info(&self) -> Attachment {
        *self
    }

    fn info(&self) -> (r: Attachment) {
        *self
    }
}

} // verus!
