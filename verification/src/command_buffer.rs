//! The command-recording sink: it collects, per attachment, one
//! resource-state transition record, from which a command recorder inserts
//! its synchronization barriers.

use vstd::prelude::*;

use crate::image::Layout;
use crate::sync::AccessFlagBits;
use crate::sync::PipelineStages;

verus! {

/// One resource-state transition: the target image, the mip and layer ranges
/// concerned, whether this is the initial transition of the resource, the
/// target layout, and the pipeline stages and access kinds to synchronize.
#[derive(Clone, Copy, Debug, PartialEq, Eq, Structural)]
pub struct TransitionRecord {
    /// Raw handle of the image resource to transition.
    pub image: u64,
    /// First mipmap level of the range, inclusive.
    pub first_mipmap: u32,
    /// Number of mipmap levels in the range.
    pub num_mipmaps: u32,
    /// First array layer of the range, inclusive.
    pub first_layer: u32,
    /// Number of array layers in the range.
    pub num_layers: u32,
    /// Whether this is the initial transition of the resource.
    pub initial_layout_transition: bool,
    /// The layout the resource is transitioned to.
    pub layout: Layout,
    /// The pipeline stages to synchronize.
    pub stages: PipelineStages,
    /// The access kinds to synchronize.
    pub access: AccessFlagBits,
}

/// A sink of transition records. A command recorder hands one to
/// `add_transition` and then reads the records back, in the order they were
/// emitted, to insert its barriers.
pub struct CommandsListSink {
    records: Vec<TransitionRecord>,
}

impl CommandsListSink {
    /// The records emitted so far, in emission order.
    pub closed spec fn spec_records(&self) -> Seq<TransitionRecord> {
        self.records@
    }

    /// Returns a sink holding no record.
    pub fn new() -> (r: CommandsListSink)
        ensures
            r.spec_records() == Seq::<TransitionRecord>::empty(),
    {
        let r = CommandsListSink { records: Vec::new() };
        proof {
            assert(r.spec_records() =~= Seq::<TransitionRecord>::empty());
        }
        r
    }

    /// Accepts one transition record.
    pub fn add_image_transition(
        &mut self,
        image: u64,
        first_mipmap: u32,
        num_mipmaps: u32,
        first_layer: u32,
        num_layers: u32,
        initial_layout_transition: bool,
        layout: Layout,
        stages: PipelineStages,
        access: AccessFlagBits,
    )
        ensures
            final(self).spec_records() == old(self).spec_records().push(
                TransitionRecord {
                    image,
                    first_mipmap,
                    num_mipmaps,
                    first_layer,
                    num_layers,
                    initial_layout_transition,
                    layout,
                    stages,
                    access,
                },
            ),
    {
        self.records.push(TransitionRecord {
            image,
            first_mipmap,
            num_mipmaps,
            first_layer,
            num_layers,
            initial_layout_transition,
            layout,
            stages,
            access,
        });
    }

    /// Returns the records emitted so far, in emission order.
    pub fn records(&self) -> (r: &Vec<TransitionRecord>)
        ensures
            r@ == self.spec_records(),
    {
        &self.records
    }
}

} // verus!
