//! The attachment-list abstraction: a typed cons-list of image-view
//! attachments, with handle extraction, minimum-dimension computation and
//! transition emission, and the conversion from tuples into that list form.

use vstd::prelude::*;

use crate::command_buffer::CommandsListSink;
use crate::command_buffer::TransitionRecord;
use crate::image::Attachment;
use crate::image::ImageView;
use crate::image::Layout;
use crate::sync::spec_access_none;
use crate::sync::spec_stages_none;
use crate::sync::AccessFlagBits;
use crate::sync::PipelineStages;

verus! {

/// The raw image-view handles of a sequence of attachments, in order.
pub open spec fn spec_handles(s: Seq<Attachment>) -> Seq<u64> {
    s.map_values(|a: Attachment| a.handle)
}

/// One axis of an attachment's parent-image dimensions: width, height or
/// layer count.
pub open spec fn spec_axis(a: Attachment, ax: int) -> u32 {
    if ax == 0 {
        a.width
    } else if ax == 1 {
        a.height
    } else {
        a.array_layers
    }
}

/// `m` is the minimum of axis `ax` across all attachments of `s`: no
/// attachment is smaller on that axis, and some attachment reaches `m`.
pub open spec fn spec_is_axis_min(m: u32, s: Seq<Attachment>, ax: int) -> bool {
    &&& forall|i: int| 0 <= i < s.len() ==> m <= #[trigger] spec_axis(s[i], ax)
    &&& exists|i: int| 0 <= i < s.len() && m == #[trigger] spec_axis(s[i], ax)
}

/// The pipeline stages named in every transition record: color-attachment
/// output and late fragment tests. A deliberately coarse default: a finer
/// policy would pick stages per attachment role.
pub open spec fn spec_transition_stages() -> PipelineStages {
    PipelineStages {
        color_attachment_output: true,
        late_fragment_tests: true,
        ..spec_stages_none()
    }
}

/// The access kinds named in every transition record: color-attachment and
/// depth-stencil-attachment reads and writes. Coarse by design, as with the
/// stages.
pub open spec fn spec_transition_access() -> AccessFlagBits {
    AccessFlagBits {
        color_attachment_read: true,
        color_attachment_write: true,
        depth_stencil_attachment_read: true,
        depth_stencil_attachment_write: true,
        ..spec_access_none()
    }
}

/// The transition record emitted for one attachment: the general layout, the
/// fixed stage and access sets, mip range [0, 1), layer range [0, 1), marked
/// as the initial transition.
pub open spec fn spec_transition_record(a: Attachment) -> TransitionRecord {
    TransitionRecord {
        image: a.handle,
        first_mipmap: 0,
        num_mipmaps: 1,
        first_layer: 0,
        num_layers: 1,
        initial_layout_transition: true,
        layout: Layout::General,
        stages: spec_transition_stages(),
        access: spec_transition_access(),
    }
}

/// The transition records of a sequence of attachments: exactly one record
/// per attachment, head first.
pub open spec fn spec_transitions(s: Seq<Attachment>) -> Seq<TransitionRecord> {
    s.map_values(|a: Attachment| spec_transition_record(a))
}

/// A list of attachments, as a framebuffer holds them: an ordered collection
/// of image views. Implemented by [`EmptyAttachmentsList`], by `()` and by
/// [`List`].
pub trait AttachmentsList: Sized {
    /// The attachments held by this list, head first, as a mathematical
    /// sequence.
    spec fn spec_list(&self) -> Seq<Attachment>;

    /// Returns the raw handles of the image views of this list, in the exact
    /// order the attachments were supplied (head first).
    fn raw_image_view_handles(&self) -> (r: Vec<u64>)
        ensures
            r@ == spec_handles(self.spec_list()),
    ;

    /// Returns the minimal dimensions of the attachments, or `None` if the
    /// list is empty. The minimum is taken per component: if one attachment
    /// is 256x256x1 and another 128x512x2, the result is 128x256x1. The
    /// dimensions read are those of each attachment's parent image.
    fn min_dimensions(&self) -> (r: Option<[u32; 3]>)
        ensures
            match r {
                None => self.spec_list().len() == 0,
                Some(d) => {
                    &&& self.spec_list().len() > 0
                    &&& spec_is_axis_min(d[0], self.spec_list(), 0)
                    &&& spec_is_axis_min(d[1], self.spec_list(), 1)
                    &&& spec_is_axis_min(d[2], self.spec_list(), 2)
                },
            },
    ;

    /// Emits into `sink` one transition record per attachment of this list,
    /// head first.
    fn add_transition(&self, sink: &mut CommandsListSink)
        ensures
            final(sink).spec_records() == old(sink).spec_records() + spec_transitions(
                self.spec_list(),
            ),
    ;

    /// Returns the attachments of this list as plain values, head first; the
    /// construction-time validation reads them.
    fn attachment_infos(&self) -> (r: Vec<Attachment>)
        ensures
            r@ == self.spec_list(),
    ;
}

/// The empty list of attachments.
#[derive(Clone, Copy)]
pub struct EmptyAttachmentsList;

impl AttachmentsList for EmptyAttachmentsList {
    open spec fn spec_list(&self) -> Seq<Attachment> {
        Seq::empty()
    }

    fn raw_image_view_handles(&self) -> (r: Vec<u64>) {
        let r: Vec<u64> = Vec::new();
        proof {
            assert(r@ =~= spec_handles(self.spec_list()));
        }
        r
    }

    fn min_dimensions(&self) -> (r: Option<[u32; 3]>) {
        None
    }

    fn add_transition(&self, sink: &mut CommandsListSink) {
        proof {
            assert(sink.spec_records() =~= old(sink).spec_records() + spec_transitions(
                self.spec_list(),
            ));
        }
    }

    fn attachment_infos(&self) -> (r: Vec<Attachment>) {
        Vec::new()
    }
}

impl AttachmentsList for () {
    open spec fn spec_list(&self) -> Seq<Attachment> {
        Seq::empty()
    }

    fn raw_image_view_handles(&self) -> (r: Vec<u64>) {
        let r: Vec<u64> = Vec::new();
        proof {
            assert(r@ =~= spec_handles(self.spec_list()));
        }
        r
    }

    fn min_dimensions(&self) -> (r: Option<[u32; 3]>) {
        None
    }

    fn add_transition(&self, sink: &mut CommandsListSink) {
        proof {
            assert(sink.spec_records() =~= old(sink).spec_records() + spec_transitions(
                self.spec_list(),
            ));
        }
    }

    fn attachment_infos(&self) -> (r: Vec<Attachment>) {
        Vec::new()
    }
}

/// One attachment followed by the rest of the list.
pub struct List<A, R> {
    /// The first attachment of the list.
    pub first: A,
    /// The rest of the list.
    pub rest: R,
}

/// The smaller of two axis values.
spec fn spec_min_axis(a: u32, b: u32) -> u32 {
    if a <= b {
        a
    } else {
        b
    }
}

/// Taking the smaller of the head's axis value and the minimum over the rest
/// gives the minimum over the whole list.
proof fn lemma_cons_axis_min(head: Attachment, s: Seq<Attachment>, m_rest: u32, ax: int)
    requires
        spec_is_axis_min(m_rest, s, ax),
    ensures
        spec_is_axis_min(
            spec_min_axis(spec_axis(head, ax), m_rest),
            seq![head] + s,
            ax,
        ),
{
    let whole = seq![head] + s;
    let m = spec_min_axis(spec_axis(head, ax), m_rest);
    assert forall|i: int| 0 <= i < whole.len() implies m <= #[trigger] spec_axis(
        whole[i],
        ax,
    ) by {
        if i > 0 {
            assert(whole[i] == s[i - 1]);
        }
    }
    if spec_axis(head, ax) <= m_rest {
        assert(whole[0] == head);
        assert(0 <= 0 < whole.len() && m == spec_axis(whole[0], ax));
    } else {
        let j = choose|j: int| 0 <= j < s.len() && m_rest == #[trigger] spec_axis(s[j], ax);
        assert(whole[j + 1] == s[j]);
        assert(0 <= j + 1 < whole.len() && m == spec_axis(whole[j + 1], ax));
    }
}

impl<A: ImageView, R: AttachmentsList> AttachmentsList for List<A, R> {
    open spec fn spec_list(&self) -> Seq<Attachment> {
        seq![self.first.spec_info()] + self.rest.spec_list()
    }

    fn raw_image_view_handles(&self) -> (r: Vec<u64>) {
        let mut list = self.rest.raw_image_view_handles();
        list.insert(0, self.first.info().handle);
        proof {
            assert(list@ =~= spec_handles(self.spec_list()));
        }
        list
    }

    fn min_dimensions(&self) -> (r: Option<[u32; 3]>) {
        let info = self.first.info();
        let my_dims = [info.width, info.height, info.array_layers];
        proof {
            assert(self.spec_list()[0] == self.first.spec_info());
        }
        match self.rest.min_dimensions() {
            Some(r_dims) => {
                let merged = [
                    if r_dims[0] <= my_dims[0] {
                        r_dims[0]
                    } else {
                        my_dims[0]
                    },
                    if r_dims[1] <= my_dims[1] {
                        r_dims[1]
                    } else {
                        my_dims[1]
                    },
                    if r_dims[2] <= my_dims[2] {
                        r_dims[2]
                    } else {
                        my_dims[2]
                    },
                ];
                proof {
                    lemma_cons_axis_min(
                        self.first.spec_info(),
                        self.rest.spec_list(),
                        r_dims[0],
                        0,
                    );
                    lemma_cons_axis_min(
                        self.first.spec_info(),
                        self.rest.spec_list(),
                        r_dims[1],
                        1,
                    );
                    lemma_cons_axis_min(
                        self.first.spec_info(),
                        self.rest.spec_list(),
                        r_dims[2],
                        2,
                    );
                }
                Some(merged)
            },
            None => {
                proof {
                    assert(self.rest.spec_list().len() == 0);
                    assert(self.spec_list().len() == 1);
                }
                Some(my_dims)
            },
        }
    }

    fn add_transition(&self, sink: &mut CommandsListSink) {
        let stages = PipelineStages {
            color_attachment_output: true,
            late_fragment_tests: true,
            ..PipelineStages::none()
        };
        let access = AccessFlagBits {
            color_attachment_read: true,
            color_attachment_write: true,
            depth_stencil_attachment_read: true,
            depth_stencil_attachment_write: true,
            ..AccessFlagBits::none()
        };
        sink.add_image_transition(
            self.first.info().handle,
            0,
            1,
            0,
            1,
            true,
            Layout::General,
            stages,
            access,
        );
        self.rest.add_transition(sink);
        proof {
            assert(sink.spec_records() =~= old(sink).spec_records() + spec_transitions(
                self.spec_list(),
            ));
        }
    }

    fn attachment_infos(&self) -> (r: Vec<Attachment>) {
        let mut list = self.rest.attachment_infos();
        list.insert(0, self.first.info());
        proof {
            assert(list@ =~= self.spec_list());
        }
        list
    }
}

/// A value that can be turned into a list of attachments: the unit value for
/// the empty list, or a tuple of image views, whose order is kept exactly.
/// Tuples of up to eight image views are supported, the first element
/// becoming attachment index 0.
pub trait IntoAttachmentsList: Sized {
    /// The list form of the attachments.
    type List: AttachmentsList;

    /// The attachments of this value, head first, as a mathematical
    /// sequence.
    spec fn spec_attachments(self) -> Seq<Attachment>;

    /// Performs the conversion, preserving the order of the attachments.
    fn into_attachments_list(self) -> (r: Self::List)
        ensures
            r.spec_list() == self.spec_attachments(),
    ;
}

impl IntoAttachmentsList for () {
    type List = EmptyAttachmentsList;

    open spec fn spec_attachments(self) -> Seq<Attachment> {
        Seq::empty()
    }

    fn into_attachments_list(self) -> (r: EmptyAttachmentsList) {
        let r = EmptyAttachmentsList;
        proof {
            assert(r.spec_list() =~= self.spec_attachments());
        }
        r
    }
}

impl<A: ImageView> IntoAttachmentsList for (A,) {
    type List = List<A, EmptyAttachmentsList>;

    open spec fn spec_attachments(self) -> Seq<Attachment> {
        seq![self.0.spec_info()]
    }

    fn into_attachments_list(self) -> (r: List<A, EmptyAttachmentsList>) {
        let (a,) = self;
        let r = List { first: a, rest: EmptyAttachmentsList };
        proof {
            assert(r.spec_list() =~= self.spec_attachments());
        }
        r
    }
}

impl<A: ImageView, B: ImageView> IntoAttachmentsList for (A, B) {
    type List = List<A, <(B,) as IntoAttachmentsList>::List>;

    open spec fn spec_attachments(self) -> Seq<Attachment> {
        seq![self.0.spec_info()] + (self.1,).spec_attachments()
    }

    fn into_attachments_list(self) -> (r: Self::List) {
        let (a, b) = self;
        let r = List { first: a, rest: (b,).into_attachments_list() };
        proof {
            assert(r.spec_list() =~= self.spec_attachments());
        }
        r
    }
}

impl<A: ImageView, B: ImageView, C: ImageView> IntoAttachmentsList for (A, B, C) {
    type List = List<A, <(B, C) as IntoAttachmentsList>::List>;

    open spec fn spec_attachments(self) -> Seq<Attachment> {
        seq![self.0.spec_info()] + (self.1, self.2).spec_attachments()
    }

    fn into_attachments_list(self) -> (r: Self::List) {
        let (a, b, c) = self;
        let r = List { first: a, rest: (b, c).into_attachments_list() };
        proof {
            assert(r.spec_list() =~= self.spec_attachments());
        }
        r
    }
}

impl<A: ImageView, B: ImageView, C: ImageView, D: ImageView> IntoAttachmentsList for (A, B, C, D) {
    type List = List<A, <(B, C, D) as IntoAttachmentsList>::List>;

    open spec fn spec_attachments(self) -> Seq<Attachment> {
        seq![self.0.spec_info()] + (self.1, self.2, self.3).spec_attachments()
    }

    fn into_attachments_list(self) -> (r: Self::List) {
        let (a, b, c, d) = self;
        let r = List { first: a, rest: (b, c, d).into_attachments_list() };
        proof {
            assert(r.spec_list() =~= self.spec_attachments());
        }
        r
    }
}

impl<A: ImageView, B: ImageView, C: ImageView, D: ImageView, E: ImageView> IntoAttachmentsList for (
    A,
    B,
    C,
    D,
    E,
) {
    type List = List<A, <(B, C, D, E) as IntoAttachmentsList>::List>;

    open spec fn spec_attachments(self) -> Seq<Attachment> {
        seq![self.0.spec_info()] + (self.1, self.2, self.3, self.4).spec_attachments()
    }

    fn into_attachments_list(self) -> (r: Self::List) {
        let (a, b, c, d, e) = self;
        let r = List { first: a, rest: (b, c, d, e).into_attachments_list() };
        proof {
            assert(r.spec_list() =~= self.spec_attachments());
        }
        r
    }
}

impl<
    A: ImageView,
    B: ImageView,
    C: ImageView,
    D: ImageView,
    E: ImageView,
    F: ImageView,
> IntoAttachmentsList for (A, B, C, D, E, F) {
    type List = List<A, <(B, C, D, E, F) as IntoAttachmentsList>::List>;

    open spec fn spec_attachments(self) -> Seq<Attachment> {
        seq![self.0.spec_info()] + (self.1, self.2, self.3, self.4, self.5).spec_attachments()
    }

    fn into_attachments_list(self) -> (r: Self::List) {
        let (a, b, c, d, e, f) = self;
        let r = List { first: a, rest: (b, c, d, e, f).into_attachments_list() };
        proof {
            assert(r.spec_list() =~= self.spec_attachments());
        }
        r
    }
}

impl<
    A: ImageView,
    B: ImageView,
    C: ImageView,
    D: ImageView,
    E: ImageView,
    F: ImageView,
    G: ImageView,
> IntoAttachmentsList for (A, B, C, D, E, F, G) {
    type List = List<A, <(B, C, D, E, F, G) as IntoAttachmentsList>::List>;

    open spec fn spec_attachments(self) -> Seq<Attachment> {
        seq![self.0.spec_info()] + (
            self.1,
            self.2,
            self.3,
            self.4,
            self.5,
            self.6,
        ).spec_attachments()
    }

    fn into_attachments_list(self) -> (r: Self::List) {
        let (a, b, c, d, e, f, g) = self;
        let r = List { first: a, rest: (b, c, d, e, f, g).into_attachments_list() };
        proof {
            assert(r.spec_list() =~= self.spec_attachments());
        }
        r
    }
}

impl<
    A: ImageView,
    B: ImageView,
    C: ImageView,
    D: ImageView,
    E: ImageView,
    F: ImageView,
    G: ImageView,
    H: ImageView,
> IntoAttachmentsList for (A, B, C, D, E, F, G, H) {
    type List = List<A, <(B, C, D, E, F, G, H) as IntoAttachmentsList>::List>;

    open spec fn spec_attachments(self) -> Seq<Attachment> {
        seq![self.0.spec_info()] + (
            self.1,
            self.2,
            self.3,
            self.4,
            self.5,
            self.6,
            self.7,
        ).spec_attachments()
    }

    fn into_attachments_list(self) -> (r: Self::List) {
        let (a, b, c, d, e, f, g, h) = self;
        let r = List { first: a, rest: (b, c, d, e, f, g, h).into_attachments_list() };
        proof {
            assert(r.spec_list() =~= self.spec_attachments());
        }
        r
    }
}

/// Converting any value into its list form and then extracting the raw
/// handles yields exactly one handle per attachment: for a tuple of K image
/// views, a sequence of length exactly K.
///
/// The two premises are the contracts of `into_attachments_list` and of
/// `raw_image_view_handles`.
pub proof fn lemma_round_trip_handle_count<Ia: IntoAttachmentsList>(
    t: Ia,
    l: Ia::List,
    handles: Seq<u64>,
)
    requires
        l.spec_list() == t.spec_attachments(),
        handles == spec_handles(l.spec_list()),
    ensures
        handles.len() == t.spec_attachments().len(),
{
}

/// `spec_transitions` emits exactly one record per attachment, in head-first
/// order: the record at each index is the record of the attachment at that
/// index.
pub proof fn lemma_one_transition_per_attachment(s: Seq<Attachment>)
    ensures
        spec_transitions(s).len() == s.len(),
        forall|i: int| 0 <= i < s.len() ==> spec_transitions(s)[i] == spec_transition_record(
            #[trigger] s[i],
        ),
{
}

} // verus!
