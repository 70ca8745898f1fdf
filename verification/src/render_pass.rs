//! Render passes, reduced to what framebuffer construction reads of them:
//! the attachment shape they declare, their compatibility predicate, their
//! device and their raw handle.

use vstd::prelude::*;

use crate::attachments::AttachmentsList;
use crate::device::Device;
use crate::framebuffer::FramebufferCreationError;
use crate::image::Attachment;

verus! {

/// The descriptor of a render pass: the formats of the attachments it
/// declares, in attachment-index order.
#[derive(Clone)]
pub struct RenderPassDesc {
    /// Declared attachment formats, one per attachment, in index order.
    pub formats: Vec<u32>,
}

/// Two `u32` vectors hold the same values in the same order.
fn vecs_equal(a: &Vec<u32>, b: &Vec<u32>) -> (r: bool)
    ensures
        r == (a@ == b@),
{
    if a.len() != b.len() {
        return false;
    }
    let n = a.len();
    let mut i: usize = 0;
    while i < n
        invariant
            n == a.len() == b.len(),
            i <= n,
            forall|j: int| 0 <= j < i ==> a@[j] == b@[j],
        decreases n - i,
    {
        if a[i] != b[i] {
            return false;
        }
        i += 1;
    }
    proof {
        assert(a@ =~= b@);
    }
    true
}

impl RenderPassDesc {
    /// The declared attachment formats, in index order, as a mathematical
    /// sequence.
    pub open spec fn spec_formats(&self) -> Seq<u32> {
        self.formats@
    }

    /// The descriptor accepts an attachment sequence when the attachments'
    /// formats, in order, are exactly the declared formats; in particular
    /// the counts must match.
    pub open spec fn spec_accepts(&self, attachments: Seq<Attachment>) -> bool {
        attachments.map_values(|a: Attachment| a.format) == self.spec_formats()
    }

    /// Two descriptors are compatible when they declare the same attachment
    /// formats in the same order.
    pub open spec fn spec_compatible_with(&self, other: &RenderPassDesc) -> bool {
        self.spec_formats() == other.spec_formats()
    }

    /// Returns a descriptor declaring the given attachment formats.
    pub fn new(formats: Vec<u32>) -> (r: RenderPassDesc)
        ensures
            r.spec_formats() == formats@,
    {
        RenderPassDesc { formats }
    }

    /// Validates the shape of an attachment list against the declared
    /// attachments: count and per-index format must match exactly.
    pub fn check_attachments_list<A: AttachmentsList>(&self, attachments: &A) -> (r: Result<
        (),
        FramebufferCreationError,
    >)
        ensures
            r is Ok <==> self.spec_accepts(attachments.spec_list()),
            r is Err ==> r == Err::<(), FramebufferCreationError>(
                FramebufferCreationError::IncompatibleAttachments,
            ),
    {
        let infos = attachments.attachment_infos();
        let ghost s = attachments.spec_list();
        if infos.len() != self.formats.len() {
            proof {
                assert(s.map_values(|a: Attachment| a.format).len() == s.len());
            }
            return Err(FramebufferCreationError::IncompatibleAttachments);
        }
        let n = infos.len();
        let mut i: usize = 0;
        while i < n
            invariant
                n == infos.len() == self.formats.len(),
                infos@ == s,
                s == attachments.spec_list(),
                i <= n,
                forall|j: int| 0 <= j < i ==> s[j].format == self.spec_formats()[j],
            decreases n - i,
        {
            if infos[i].format != self.formats[i] {
                proof {
                    let m = s.map_values(|a: Attachment| a.format);
                    assert(m[i as int] == s[i as int].format);
                    assert(m != self.spec_formats()) by {
                        if m == self.spec_formats() {
                            assert(m[i as int] == self.spec_formats()[i as int]);
                        }
                    }
                }
                return Err(FramebufferCreationError::IncompatibleAttachments);
            }
            i += 1;
        }
        proof {
            assert(s.map_values(|a: Attachment| a.format) =~= self.spec_formats());
        }
        Ok(())
    }

    /// Returns whether this descriptor is compatible with `other`: whether
    /// they declare the same attachment formats in the same order.
    pub fn is_compatible_with(&self, other: &RenderPassDesc) -> (r: bool)
        ensures
            r == self.spec_compatible_with(other),
    {
        vecs_equal(&self.formats, &other.formats)
    }
}

/// Compatibility of render-pass descriptors is reflexive: every descriptor
/// is compatible with itself, so a framebuffer is always compatible with the
/// exact render pass it was created from.
pub proof fn lemma_compatibility_reflexive(desc: RenderPassDesc)
    ensures
        desc.spec_compatible_with(&desc),
{
}

/// A reference to a render pass: anything that can hand out the render
/// pass's descriptor, its device and its raw handle.
pub trait RenderPassRef: Sized {
    /// The render pass's descriptor, as a mathematical value.
    spec fn spec_desc(&self) -> RenderPassDesc;

    /// The render pass's device, as a mathematical value.
    spec fn spec_device(&self) -> Device;

    /// The render pass's raw handle.
    spec fn spec_handle(&self) -> u64;

    /// Returns the render pass's descriptor.
    fn desc(&self) -> (r: &RenderPassDesc)
        ensures
            *r == self.spec_desc(),
    ;

    /// Returns the device the render pass was created against.
    fn device(&self) -> (r: &Device)
        ensures
            *r == self.spec_device(),
    ;

    /// Returns the render pass's raw handle.
    fn inner_handle(&self) -> (r: u64)
        ensures
            r == self.spec_handle(),
    ;
}

/// A render pass: its device, its descriptor and its raw handle.
#[derive(Clone)]
pub struct RenderPass {
    device: Device,
    desc: RenderPassDesc,
    handle: u64,
}

impl RenderPass {
    /// Returns a render pass with the given device, descriptor and raw
    /// handle.
    pub fn new(device: Device, desc: RenderPassDesc, handle: u64) -> (r: RenderPass)
        ensures
            r.spec_desc() == desc,
            r.spec_device() == device,
            r.spec_handle() == handle,
    {
        RenderPass { device, desc, handle }
    }
}

impl RenderPassRef for RenderPass {
    closed spec fn spec_desc(&self) -> RenderPassDesc {
        self.desc
    }

    closed spec fn spec_device(&self) -> Device {
        self.device
    }

    closed spec fn spec_handle(&self) -> u64 {
        self.handle
    }

    fn desc(&self) -> (r: &RenderPassDesc) {
        &self.desc
    }

    fn device(&self) -> (r: &Device) {
        &self.device
    }

    fn inner_handle(&self) -> (r: u64) {
        self.handle
    }
}

} // verus!
