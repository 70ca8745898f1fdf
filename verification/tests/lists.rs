use framebuffer::attachments::AttachmentsList;
use framebuffer::attachments::EmptyAttachmentsList;
use framebuffer::attachments::IntoAttachmentsList;
use framebuffer::attachments::List;
use framebuffer::image::Attachment;

fn view(handle: u64, width: u32, height: u32, layers: u32) -> Attachment {
    Attachment {
        handle,
        width,
        height,
        array_layers: layers,
        format: 37,
        identity_swizzle: true,
    }
}

#[test]
fn raw_handles_of_empty_list_are_empty() {
    assert_eq!(EmptyAttachmentsList.raw_image_view_handles(), Vec::<u64>::new());
    assert_eq!(().raw_image_view_handles(), Vec::<u64>::new());
}

#[test]
fn raw_handles_come_head_first() {
    let list = (view(10, 64, 64, 1), view(20, 64, 64, 1), view(30, 64, 64, 1))
        .into_attachments_list();
    assert_eq!(list.raw_image_view_handles(), vec![10, 20, 30]);
}

#[test]
fn cons_list_orders_first_before_rest() {
    let list = List {
        first: view(1, 64, 64, 1),
        rest: List { first: view(2, 64, 64, 1), rest: EmptyAttachmentsList },
    };
    assert_eq!(list.raw_image_view_handles(), vec![1, 2]);
}

#[test]
fn round_trip_keeps_one_handle_per_attachment() {
    assert_eq!(().into_attachments_list().raw_image_view_handles().len(), 0);
    assert_eq!(
        (view(1, 8, 8, 1),).into_attachments_list().raw_image_view_handles().len(),
        1
    );
    assert_eq!(
        (view(1, 8, 8, 1), view(2, 8, 8, 1)).into_attachments_list().raw_image_view_handles().len(),
        2
    );
    assert_eq!(
        (
            view(1, 8, 8, 1),
            view(2, 8, 8, 1),
            view(3, 8, 8, 1),
            view(4, 8, 8, 1),
            view(5, 8, 8, 1),
            view(6, 8, 8, 1),
            view(7, 8, 8, 1),
            view(8, 8, 8, 1),
        )
            .into_attachments_list()
            .raw_image_view_handles()
            .len(),
        8
    );
}

#[test]
fn min_dimensions_of_empty_list_is_none() {
    assert_eq!(EmptyAttachmentsList.min_dimensions(), None);
    assert_eq!(().min_dimensions(), None);
    assert_eq!(().into_attachments_list().min_dimensions(), None);
}

#[test]
fn min_dimensions_of_single_attachment_is_its_parent_extent() {
    let list = (view(1, 1024, 768, 3),).into_attachments_list();
    assert_eq!(list.min_dimensions(), Some([1024, 768, 3]));
}

#[test]
fn min_dimensions_is_a_per_component_minimum() {
    // 256x256x1 and 128x512x2 give 128x256x1: the minimum is taken on each
    // axis independently, not lexicographically.
    let list = (view(1, 256, 256, 1), view(2, 128, 512, 2)).into_attachments_list();
    assert_eq!(list.min_dimensions(), Some([128, 256, 1]));
}

#[test]
fn min_dimensions_over_three_attachments() {
    let list = (view(1, 100, 300, 7), view(2, 200, 100, 9), view(3, 300, 200, 8))
        .into_attachments_list();
    assert_eq!(list.min_dimensions(), Some([100, 100, 7]));
}

#[test]
fn attachment_infos_keep_order_and_values() {
    let a = view(1, 256, 256, 1);
    let b = view(2, 128, 512, 2);
    let list = (a, b).into_attachments_list();
    assert_eq!(list.attachment_infos(), vec![a, b]);
}
