use framebuffer::attachments::AttachmentsList;
use framebuffer::attachments::EmptyAttachmentsList;
use framebuffer::attachments::IntoAttachmentsList;
use framebuffer::command_buffer::CommandsListSink;
use framebuffer::device::Device;
use framebuffer::device::DeviceLimits;
use framebuffer::framebuffer::Framebuffer;
use framebuffer::image::Attachment;
use framebuffer::image::Layout;
use framebuffer::render_pass::RenderPass;
use framebuffer::render_pass::RenderPassDesc;
use framebuffer::sync::AccessFlagBits;
use framebuffer::sync::PipelineStages;

fn view(handle: u64) -> Attachment {
    Attachment {
        handle,
        width: 64,
        height: 64,
        array_layers: 1,
        format: 37,
        identity_swizzle: true,
    }
}

#[test]
fn empty_list_emits_no_record() {
    let mut sink = CommandsListSink::new();
    EmptyAttachmentsList.add_transition(&mut sink);
    assert_eq!(sink.records().len(), 0);
    ().add_transition(&mut sink);
    assert_eq!(sink.records().len(), 0);
}

#[test]
fn single_attachment_emits_one_record() {
    let mut sink = CommandsListSink::new();
    let list = (view(5),).into_attachments_list();
    list.add_transition(&mut sink);
    assert_eq!(sink.records().len(), 1);
    assert_eq!(sink.records()[0].image, 5);
}

#[test]
fn records_come_one_per_attachment_head_first() {
    let mut sink = CommandsListSink::new();
    let list = (view(10), view(20), view(30)).into_attachments_list();
    list.add_transition(&mut sink);
    assert_eq!(sink.records().len(), 3);
    assert_eq!(sink.records()[0].image, 10);
    assert_eq!(sink.records()[1].image, 20);
    assert_eq!(sink.records()[2].image, 30);
}

#[test]
fn records_append_to_what_the_sink_already_holds() {
    let mut sink = CommandsListSink::new();
    (view(1),).into_attachments_list().add_transition(&mut sink);
    (view(2), view(3)).into_attachments_list().add_transition(&mut sink);
    assert_eq!(sink.records().len(), 3);
    assert_eq!(sink.records()[0].image, 1);
    assert_eq!(sink.records()[1].image, 2);
    assert_eq!(sink.records()[2].image, 3);
}

#[test]
fn record_carries_the_fixed_metadata() {
    let mut sink = CommandsListSink::new();
    (view(5),).into_attachments_list().add_transition(&mut sink);
    let record = sink.records()[0];
    assert_eq!(record.layout, Layout::General);
    assert_eq!(record.first_mipmap, 0);
    assert_eq!(record.num_mipmaps, 1);
    assert_eq!(record.first_layer, 0);
    assert_eq!(record.num_layers, 1);
    assert!(record.initial_layout_transition);

    let mut stages = PipelineStages::none();
    stages.color_attachment_output = true;
    stages.late_fragment_tests = true;
    assert_eq!(record.stages, stages);

    let mut access = AccessFlagBits::none();
    access.color_attachment_read = true;
    access.color_attachment_write = true;
    access.depth_stencil_attachment_read = true;
    access.depth_stencil_attachment_write = true;
    assert_eq!(record.access, access);
}

#[test]
fn framebuffer_emits_records_for_its_attachments() {
    let device = Device::new(
        1,
        DeviceLimits {
            max_framebuffer_width: 4096,
            max_framebuffer_height: 4096,
            max_framebuffer_layers: 256,
        },
    );
    let render_pass = RenderPass::new(device, RenderPassDesc::new(vec![37, 37]), 2);
    let fb = Framebuffer::new(render_pass, [64, 64, 1], (view(8), view(9))).unwrap();
    let mut sink = CommandsListSink::new();
    fb.add_transition(&mut sink);
    assert_eq!(sink.records().len(), 2);
    assert_eq!(sink.records()[0].image, 8);
    assert_eq!(sink.records()[1].image, 9);
}
