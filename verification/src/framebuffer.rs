//! The framebuffer object: a validated binding of an attachment list to a
//! render pass, with the checks that construction performs and the queries
//! the finished object answers.

use std::sync::Arc;

use vstd::prelude::*;

use crate::attachments::spec_transitions;
use crate::attachments::AttachmentsList;
use crate::attachments::IntoAttachmentsList;
use crate::command_buffer::CommandsListSink;
use crate::device::Device;
use crate::device::DeviceLimits;
use crate::device::FramebufferCreateInfo;
use crate::device::OomError;
use crate::image::Attachment;
use crate::render_pass::RenderPassRef;

verus! {

/// Why creating a framebuffer failed.
#[derive(Clone, Copy, Debug, PartialEq, Eq, Structural)]
pub enum FramebufferCreationError {
    /// The underlying allocation ran out of memory.
    OomError(OomError),
    /// The attachment list does not match the shape the render pass
    /// declares; reported by the render pass's descriptor check.
    IncompatibleAttachments,
    /// The requested dimensions exceed the device's limits.
    DimensionsTooLarge,
    /// One of the attachments has a component swizzle that is different
    /// from identity.
    AttachmentNotIdentitySwizzled,
    /// One of the attachments is too small compared to the requested
    /// framebuffer dimensions.
    AttachmentTooSmall,
}

impl From<OomError> for FramebufferCreationError {
    fn from(err: OomError) -> (r: FramebufferCreationError) {
        FramebufferCreationError::OomError(err)
    }
}

impl vstd::std_specs::convert::FromSpecImpl<OomError> for FramebufferCreationError {
    open spec fn obeys_from_spec() -> bool {
        true
    }

    open spec fn from_spec(err: OomError) -> FramebufferCreationError {
        FramebufferCreationError::OomError(err)
    }
}

impl FramebufferCreationError {
    /// Returns a short description of the error.
    pub fn description(&self) -> (r: &'static str)
        ensures
            match self {
                FramebufferCreationError::OomError(_) => r@ == "no memory available"@,
                FramebufferCreationError::IncompatibleAttachments => r@
                    == "the attachments do not match what the render pass declares"@,
                FramebufferCreationError::DimensionsTooLarge => r@
                    == "the dimensions of the framebuffer are too large"@,
                FramebufferCreationError::AttachmentNotIdentitySwizzled => r@
                    == "one of the attachments has a component swizzle that is different from identity"@,
                FramebufferCreationError::AttachmentTooSmall => r@
                    == "one of the attachments is too small compared to the requested framebuffer dimensions"@,
            },
    {
        match self {
            FramebufferCreationError::OomError(_) => "no memory available",
            FramebufferCreationError::IncompatibleAttachments => "the attachments do not match what the render pass declares",
            FramebufferCreationError::DimensionsTooLarge => "the dimensions of the framebuffer are too large",
            FramebufferCreationError::AttachmentNotIdentitySwizzled => "one of the attachments has a component swizzle that is different from identity",
            FramebufferCreationError::AttachmentTooSmall => "one of the attachments is too small compared to the requested framebuffer dimensions",
        }
    }
}

/// The requested dimensions exceed the device's limits on at least one
/// axis.
pub open spec fn spec_dims_too_large(dimensions: [u32; 3], limits: DeviceLimits) -> bool {
    ||| dimensions[0] > limits.max_framebuffer_width
    ||| dimensions[1] > limits.max_framebuffer_height
    ||| dimensions[2] > limits.max_framebuffer_layers
}

/// One attachment passes the per-attachment validation: its swizzle is the
/// identity and its parent image is at least as large as the requested
/// framebuffer on every axis.
pub open spec fn spec_attachment_ok(a: Attachment, dimensions: [u32; 3]) -> bool {
    &&& a.identity_swizzle
    &&& a.width >= dimensions[0]
    &&& a.height >= dimensions[1]
    &&& a.array_layers >= dimensions[2]
}

/// Every attachment of the sequence passes the per-attachment validation.
pub open spec fn spec_all_attachments_ok(s: Seq<Attachment>, dimensions: [u32; 3]) -> bool {
    forall|i: int| 0 <= i < s.len() ==> spec_attachment_ok(#[trigger] s[i], dimensions)
}

/// The attachment at index `i` is the first one that fails the
/// per-attachment validation.
pub open spec fn spec_first_violation(s: Seq<Attachment>, dimensions: [u32; 3], i: int) -> bool {
    &&& 0 <= i < s.len()
    &&& !spec_attachment_ok(s[i], dimensions)
    &&& forall|j: int| 0 <= j < i ==> spec_attachment_ok(#[trigger] s[j], dimensions)
}

/// The error reported for an attachment that fails the per-attachment
/// validation: the swizzle is checked first, then the size.
pub open spec fn spec_attachment_error(a: Attachment) -> FramebufferCreationError {
    if !a.identity_swizzle {
        FramebufferCreationError::AttachmentNotIdentitySwizzled
    } else {
        FramebufferCreationError::AttachmentTooSmall
    }
}

/// A framebuffer: the list of images attached to a render pass, which is
/// passed when recording draw commands into a command buffer.
///
/// A framebuffer can be used alongside any render pass object that is
/// compatible with the render pass it was created with; compatibility is
/// answered by `is_compatible_with`.
pub struct Framebuffer<Rp, A> {
    device: Device,
    render_pass: Rp,
    framebuffer: u64,
    dimensions: [u32; 3],
    resources: A,
}

/// An opaque view of a framebuffer without its type parameters: just its
/// raw handle.
#[derive(Clone, Copy)]
pub struct FramebufferSys<'a>(&'a u64);

impl<'a> FramebufferSys<'a> {
    /// The raw handle this view denotes.
    pub closed spec fn spec_handle(&self) -> u64 {
        *self.0
    }

    /// Returns the raw framebuffer handle.
    pub fn internal_object(&self) -> (r: u64)
        ensures
            r == self.spec_handle(),
    {
        *self.0
    }
}

impl<Rp, A> Framebuffer<Rp, A> {
    /// The device the framebuffer was created against.
    pub closed spec fn spec_device(&self) -> Device {
        self.device
    }

    /// The render pass the framebuffer was created from.
    pub closed spec fn spec_render_pass(&self) -> Rp {
        self.render_pass
    }

    /// The framebuffer's raw handle.
    pub closed spec fn spec_handle(&self) -> u64 {
        self.framebuffer
    }

    /// The width, height and layer count the framebuffer was requested
    /// with.
    pub closed spec fn spec_dimensions(&self) -> [u32; 3] {
        self.dimensions
    }

    /// The attachment list the framebuffer owns.
    pub closed spec fn spec_resources(&self) -> A {
        self.resources
    }

    /// Returns the width, height and layers of this framebuffer.
    pub fn dimensions(&self) -> (r: [u32; 3])
        ensures
            r == self.spec_dimensions(),
    {
        self.dimensions
    }

    /// Returns the width of the framebuffer in pixels.
    pub fn width(&self) -> (r: u32)
        ensures
            r == self.spec_dimensions()[0],
    {
        self.dimensions[0]
    }

    /// Returns the height of the framebuffer in pixels.
    pub fn height(&self) -> (r: u32)
        ensures
            r == self.spec_dimensions()[1],
    {
        self.dimensions[1]
    }

    /// Returns the number of layers (or depth) of the framebuffer.
    pub fn layers(&self) -> (r: u32)
        ensures
            r == self.spec_dimensions()[2],
    {
        self.dimensions[2]
    }

    /// Returns the device that was used to create this framebuffer.
    pub fn device(&self) -> (r: &Device)
        ensures
            *r == self.spec_device(),
    {
        &self.device
    }

    /// Returns the render pass that was used to create this framebuffer.
    pub fn render_pass(&self) -> (r: &Rp)
        ensures
            *r == self.spec_render_pass(),
    {
        &self.render_pass
    }

    /// Returns the opaque view of this framebuffer: its raw handle.
    pub fn inner<'a>(&'a self) -> (r: FramebufferSys<'a>)
        ensures
            r.spec_handle() == self.spec_handle(),
    {
        FramebufferSys(&self.framebuffer)
    }
}

impl<Rp: RenderPassRef, A: AttachmentsList> Framebuffer<Rp, A> {
    /// The attachments the framebuffer owns, head first.
    pub open spec fn spec_attachments(&self) -> Seq<Attachment> {
        self.spec_resources().spec_list()
    }

    /// Builds a new framebuffer.
    ///
    /// The steps, each able to short-circuit with its error: the render
    /// pass's descriptor validates the shape of `attachments`; the requested
    /// `dimensions` are checked against the device's limits; every
    /// attachment must be identity-swizzled and at least as large as the
    /// requested dimensions; then the native object is allocated and the
    /// parts are packaged behind shared ownership.
    ///
    /// The dimension-limit check uses the requested `dimensions`, never the
    /// attachment-derived minimum: the caller's explicit size is
    /// authoritative.
    pub fn new<Ia: IntoAttachmentsList<List = A>>(
        render_pass: Rp,
        dimensions: [u32; 3],
        attachments: Ia,
    ) -> (r: Result<Arc<Framebuffer<Rp, A>>, FramebufferCreationError>)
        ensures
            match r {
                Ok(fb) => {
                    &&& render_pass.spec_desc().spec_accepts(attachments.spec_attachments())
                    &&& !spec_dims_too_large(dimensions, render_pass.spec_device().limits)
                    &&& spec_all_attachments_ok(attachments.spec_attachments(), dimensions)
                    &&& fb.spec_device() == render_pass.spec_device()
                    &&& fb.spec_render_pass() == render_pass
                    &&& fb.spec_dimensions() == dimensions
                    &&& fb.spec_attachments() == attachments.spec_attachments()
                },
                Err(e) => {
                    ||| {
                        &&& !render_pass.spec_desc().spec_accepts(
                            attachments.spec_attachments(),
                        )
                        &&& e == FramebufferCreationError::IncompatibleAttachments
                    }
                    ||| {
                        &&& render_pass.spec_desc().spec_accepts(
                            attachments.spec_attachments(),
                        )
                        &&& spec_dims_too_large(dimensions, render_pass.spec_device().limits)
                        &&& e == FramebufferCreationError::DimensionsTooLarge
                    }
                    ||| {
                        &&& render_pass.spec_desc().spec_accepts(
                            attachments.spec_attachments(),
                        )
                        &&& !spec_dims_too_large(dimensions, render_pass.spec_device().limits)
                        &&& exists|i: int|
                            #[trigger] spec_first_violation(
                                attachments.spec_attachments(),
                                dimensions,
                                i,
                            ) && e == spec_attachment_error(attachments.spec_attachments()[i])
                    }
                },
            },
    {
        let ghost atts = attachments.spec_attachments();
        let device = *render_pass.device();
        let attachments_list = attachments.into_attachments_list();

        match render_pass.desc().check_attachments_list(&attachments_list) {
            Ok(()) => {},
            Err(e) => {
                return Err(e);
            },
        }

        let limits = device.limits();
        if dimensions[0] > limits.max_framebuffer_width || dimensions[1]
            > limits.max_framebuffer_height || dimensions[2] > limits.max_framebuffer_layers {
            return Err(FramebufferCreationError::DimensionsTooLarge);
        }

        let infos = attachments_list.attachment_infos();
        let n = infos.len();
        let mut i: usize = 0;
        while i < n
            invariant
                n == infos.len(),
                infos@ == atts,
                atts == attachments.spec_attachments(),
                render_pass.spec_desc().spec_accepts(atts),
                !spec_dims_too_large(dimensions, render_pass.spec_device().limits),
                i <= n,
                forall|j: int| 0 <= j < i ==> spec_attachment_ok(#[trigger] atts[j], dimensions),
            decreases n - i,
        {
            let a = infos[i];
            if !a.identity_swizzle {
                proof {
                    assert(spec_first_violation(atts, dimensions, i as int));
                }
                return Err(FramebufferCreationError::AttachmentNotIdentitySwizzled);
            }
            if a.width < dimensions[0] || a.height < dimensions[1] || a.array_layers
                < dimensions[2] {
                proof {
                    assert(spec_first_violation(atts, dimensions, i as int));
                }
                return Err(FramebufferCreationError::AttachmentTooSmall);
            }
            i += 1;
        }

        let ids = attachments_list.raw_image_view_handles();
        let info = FramebufferCreateInfo {
            render_pass: render_pass.inner_handle(),
            attachments: ids,
            width: dimensions[0],
            height: dimensions[1],
            layers: dimensions[2],
        };
        let framebuffer = match device.create_framebuffer(&info) {
            Ok(handle) => handle,
            Err(err) => {
                return Err(FramebufferCreationError::from(err));
            },
        };

        Ok(
            Arc::new(
                Framebuffer {
                    device,
                    render_pass,
                    framebuffer,
                    dimensions,
                    resources: attachments_list,
                },
            ),
        )
    }

    /// Returns true if this framebuffer can be used with the specified
    /// render pass: its own render pass's descriptor must be compatible
    /// with the candidate's.
    pub fn is_compatible_with<R: RenderPassRef>(&self, render_pass: &R) -> (r: bool)
        ensures
            r == self.spec_render_pass().spec_desc().spec_compatible_with(
                &render_pass.spec_desc(),
            ),
    {
        self.render_pass.desc().is_compatible_with(render_pass.desc())
    }

    /// Emits into `sink` one transition record per attachment of this
    /// framebuffer, head first.
    pub fn add_transition(&self, sink: &mut CommandsListSink)
        ensures
            final(sink).spec_records() == old(sink).spec_records() + spec_transitions(
                self.spec_attachments(),
            ),
    {
        self.resources.add_transition(sink);
    }
}

/// A framebuffer is always compatible with the exact render pass it was
/// created from: its own descriptor is compatible with itself.
pub proof fn lemma_compatible_with_own_render_pass<Rp: RenderPassRef, A: AttachmentsList>(
    fb: Framebuffer<Rp, A>,
    render_pass: Rp,
)
    requires
        fb.spec_render_pass() == render_pass,
    ensures
        fb.spec_render_pass().spec_desc().spec_compatible_with(&render_pass.spec_desc()),
{
}

} // verus!
