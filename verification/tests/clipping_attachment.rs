use gpu_skinning::attachment::{Attachment, AttachmentKind};
use gpu_skinning::clipping_attachment::ClippingAttachment;

#[test]
fn clipping_attachment_hands_out_its_base() {
    let clip = ClippingAttachment::new("mask".to_string(), Some(3));
    assert_eq!(clip.attachment().name, "mask");
    assert_eq!(clip.end_slot(), Some(3));
    let open_ended = ClippingAttachment::new(String::new(), None);
    assert_eq!(open_ended.attachment().name, "");
    assert_eq!(open_ended.end_slot(), None);
}

#[test]
fn clipping_attachment_is_of_the_clipping_kind() {
    let attachment = Attachment::Clipping(ClippingAttachment::new("mask".to_string(), None));
    assert_eq!(attachment.kind(), AttachmentKind::Clipping);
    assert_eq!(attachment.texture(), 0);
}
