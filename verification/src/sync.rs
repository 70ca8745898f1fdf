//! Pipeline-stage and access-flag sets: the synchronization metadata that a
//! transition record carries.

use vstd::prelude::*;

verus! {

/// A set of pipeline stages, one flag per stage.
#[derive(Clone, Copy, Debug, PartialEq, Eq, Structural)]
pub struct PipelineStages {
    pub top_of_pipe: bool,
    pub draw_indirect: bool,
    pub vertex_input: bool,
    pub vertex_shader: bool,
    pub tessellation_control_shader: bool,
    pub tessellation_evaluation_shader: bool,
    pub geometry_shader: bool,
    pub fragment_shader: bool,
    pub early_fragment_tests: bool,
    pub late_fragment_tests: bool,
    pub color_attachment_output: bool,
    pub compute_shader: bool,
    pub transfer: bool,
    pub bottom_of_pipe: bool,
    pub host: bool,
    pub all_graphics: bool,
    pub all_commands: bool,
}

/// The empty set of pipeline stages, as a mathematical value.
pub open spec fn spec_stages_none() -> PipelineStages {
    PipelineStages {
        top_of_pipe: false,
        draw_indirect: false,
        vertex_input: false,
        vertex_shader: false,
        tessellation_control_shader: false,
        tessellation_evaluation_shader: false,
        geometry_shader: false,
        fragment_shader: false,
        early_fragment_tests: false,
        late_fragment_tests: false,
        color_attachment_output: false,
        compute_shader: false,
        transfer: false,
        bottom_of_pipe: false,
        host: false,
        all_graphics: false,
        all_commands: false,
    }
}

impl PipelineStages {
    /// Returns the empty set of pipeline stages.
    pub fn none() -> (r: PipelineStages)
        ensures
            r == spec_stages_none(),
    {
        PipelineStages {
            top_of_pipe: false,
            draw_indirect: false,
            vertex_input: false,
            vertex_shader: false,
            tessellation_control_shader: false,
            tessellation_evaluation_shader: false,
            geometry_shader: false,
            fragment_shader: false,
            early_fragment_tests: false,
            late_fragment_tests: false,
            color_attachment_output: false,
            compute_shader: false,
            transfer: false,
            bottom_of_pipe: false,
            host: false,
            all_graphics: false,
            all_commands: false,
        }
    }
}

/// A set of memory access kinds, one flag per kind.
#[derive(Clone, Copy, Debug, PartialEq, Eq, Structural)]
pub struct AccessFlagBits {
    pub indirect_command_read: bool,
    pub index_read: bool,
    pub vertex_attribute_read: bool,
    pub uniform_read: bool,
    pub input_attachment_read: bool,
    pub shader_read: bool,
    pub shader_write: bool,
    pub color_attachment_read: bool,
    pub color_attachment_write: bool,
    pub depth_stencil_attachment_read: bool,
    pub depth_stencil_attachment_write: bool,
    pub transfer_read: bool,
    pub transfer_write: bool,
    pub host_read: bool,
    pub host_write: bool,
    pub memory_read: bool,
    pub memory_write: bool,
}

/// The empty set of access flags, as a mathematical value.
pub open spec fn spec_access_none() -> AccessFlagBits {
    AccessFlagBits {
        indirect_command_read: false,
        index_read: false,
        vertex_attribute_read: false,
        uniform_read: false,
        input_attachment_read: false,
        shader_read: false,
        shader_write: false,
        color_attachment_read: false,
        color_attachment_write: false,
        depth_stencil_attachment_read: false,
        depth_stencil_attachment_write: false,
        transfer_read: false,
        transfer_write: false,
        host_read: false,
        host_write: false,
        memory_read: false,
        memory_write: false,
    }
}

impl AccessFlagBits {
    /// Returns the empty set of access flags.
    pub fn none() -> (r: AccessFlagBits)
        ensures
            r == spec_access_none(),
    {
        AccessFlagBits {
            indirect_command_read: false,
            index_read: false,
            vertex_attribute_read: false,
            uniform_read: false,
            input_attachment_read: false,
            shader_read: false,
            shader_write: false,
            color_attachment_read: false,
            color_attachment_write: false,
            depth_stencil_attachment_read: false,
            depth_stencil_attachment_write: false,
            transfer_read: false,
            transfer_write: false,
            host_read: false,
            host_write: false,
            memory_read: false,
            memory_write: false,
        }
    }
}

} // verus!
