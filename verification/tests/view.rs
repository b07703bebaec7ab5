use up_rust::frame::metadata::{PayloadEncoding, UFrameMetadata};
use up_rust::frame::view::{validate_frame_view_for_transport, UFrameView};
use up_rust::owned_frame::UOwnedFrame;
use up_rust::{Bytes, UUri};

fn topic() -> UUri {
    UUri::try_from_parts("vehicle", 0x4210, 0x01, 0x9000).expect("topic")
}

#[test]
fn validated_frames_pass_the_transport_boundary_check() {
    let metadata = UFrameMetadata::publish(topic()).with_payload_encoding(PayloadEncoding::raw()).build().unwrap();
    let frame = UOwnedFrame::with_payload(metadata, Bytes::from_static(b"abcd")).unwrap();
    assert_eq!(frame.payload_len(), 4);
    assert_eq!(UFrameView::payload_slices(&frame), vec![&b"abcd"[..]]);
    assert!(validate_frame_view_for_transport(&frame).is_ok());

    let metadata = UFrameMetadata::publish(topic()).build().unwrap();
    let frame = UOwnedFrame::without_payload(metadata).unwrap();
    assert!(!UFrameView::has_payload(&frame));
    assert!(validate_frame_view_for_transport(&frame).is_ok());
}
