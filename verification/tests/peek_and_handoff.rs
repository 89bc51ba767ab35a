use tls_admission::handoff::handoff_bytes;
use tls_admission::peek::{FillState, PeekBuffer};

#[test]
fn capture_grows_without_loss() {
    let mut pb = PeekBuffer::with_capacity(16);
    assert_eq!(pb.len(), 0);
    pb.feed(&[0x16, 0x03, 0x01]);
    pb.feed(&[0x00, 0x2f]);
    assert_eq!(pb.len(), 5);
    assert_eq!(pb.buffer().as_slice(), &[0x16, 0x03, 0x01, 0x00, 0x2f]);
    assert_eq!(pb.remaining(), 11);
}

#[test]
fn fill_state_distinguishes_need_more_from_exhausted() {
    let mut pb = PeekBuffer::with_capacity(8);
    pb.feed(&[1, 2, 3]);
    assert_eq!(pb.fill_state(2), FillState::Ready);
    assert_eq!(pb.fill_state(3), FillState::Ready);
    assert_eq!(pb.fill_state(5), FillState::NeedMore);
    assert_eq!(pb.fill_state(8), FillState::NeedMore);
    assert_eq!(pb.fill_state(9), FillState::CapacityExhausted);
}

#[test]
fn feed_up_to_capacity() {
    let mut pb = PeekBuffer::with_capacity(4);
    pb.feed(&[9, 8]);
    pb.feed(&[7, 6]);
    assert_eq!(pb.remaining(), 0);
    assert_eq!(pb.into_bytes(), vec![9, 8, 7, 6]);
}

#[test]
fn replay_without_header_is_exactly_the_capture() {
    let mut pb = PeekBuffer::with_capacity(32);
    pb.feed(&[0x16, 0x03, 0x01, 0x01, 0x40, 0xaa, 0xbb]);
    let captured = pb.into_bytes();
    let out = handoff_bytes(None, &captured);
    assert_eq!(out, captured);
}

#[test]
fn replay_with_header_keeps_the_capture_as_the_exact_tail() {
    let header = b"PROXY TCP4 198.51.100.7 203.0.113.5 49152 443\r\n".to_vec();
    let mut pb = PeekBuffer::with_capacity(32);
    pb.feed(&[0x16, 0x03, 0x01, 0x00, 0x05, 1, 2, 3, 4, 5]);
    let captured = pb.into_bytes();
    let out = handoff_bytes(Some(&header), &captured);
    assert_eq!(out.len(), header.len() + captured.len());
    assert_eq!(&out[..header.len()], header.as_slice());
    assert_eq!(&out[header.len()..], captured.as_slice());
}

#[test]
fn empty_capture_and_empty_header() {
    let empty: Vec<u8> = Vec::new();
    assert_eq!(handoff_bytes(None, &empty), Vec::<u8>::new());
    let header = vec![1u8, 2u8];
    assert_eq!(handoff_bytes(Some(&header), &empty), vec![1u8, 2u8]);
}
