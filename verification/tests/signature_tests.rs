use jxl_rust_decoder::decoder::JxlRustDecoder;
use jxl_rust_decoder::errors::DecoderError;
use jxl_rust_decoder::errors::JxlRustStatus;
use jxl_rust_decoder::errors::status_of_process;
use jxl_rust_decoder::signature::SignatureCheck;
use jxl_rust_decoder::signature::check_signature;

const CONTAINER: [u8; 12] = [
    0x00, 0x00, 0x00, 0x0c, 0x4a, 0x58, 0x4c, 0x20, 0x0d, 0x0a, 0x87, 0x0a,
];

#[test]
fn empty_input_needs_two_bytes() {
    assert_eq!(check_signature(&vec![]), SignatureCheck::NeedMore(2));
}

#[test]
fn one_byte_is_never_invalid() {
    for b in 0..=255u8 {
        assert_eq!(check_signature(&vec![b]), SignatureCheck::NeedMore(1));
    }
}

#[test]
fn codestream_signature_is_valid() {
    assert_eq!(check_signature(&vec![0xff, 0x0a]), SignatureCheck::Valid);
    assert_eq!(check_signature(&vec![0xff, 0x0a, 0x13]), SignatureCheck::Valid);
}

#[test]
fn container_prefix_needs_more() {
    assert_eq!(check_signature(&vec![0x00, 0x00, 0x00]), SignatureCheck::NeedMore(9));
    assert_eq!(
        check_signature(&CONTAINER[..11].to_vec()),
        SignatureCheck::NeedMore(1)
    );
}

#[test]
fn container_signature_is_valid() {
    assert_eq!(check_signature(&CONTAINER.to_vec()), SignatureCheck::Valid);
    let mut longer = CONTAINER.to_vec();
    longer.push(0x42);
    assert_eq!(check_signature(&longer), SignatureCheck::Valid);
}

#[test]
fn mismatching_bytes_are_invalid() {
    assert_eq!(check_signature(&vec![0x13, 0x37]), SignatureCheck::Invalid);
    assert_eq!(check_signature(&vec![0xff, 0x0b]), SignatureCheck::Invalid);
    assert_eq!(check_signature(&vec![0x00, 0x00, 0x01]), SignatureCheck::Invalid);
}

#[test]
fn short_feed_returns_need_more_data() {
    let mut d = JxlRustDecoder::new(false);
    assert_eq!(d.process_data(&[0x42]), Ok((false, 1)));
    let mut d2 = JxlRustDecoder::new(false);
    assert_eq!(d2.process_data(&[]), Ok((false, 2)));
}

#[test]
fn invalid_signature_is_rejected_and_terminal() {
    let mut d = JxlRustDecoder::new(false);
    assert_eq!(d.process_data(&[0x13, 0x37]), Err(DecoderError::InvalidSignature));
    // The failed state absorbs every later call with the same error.
    assert_eq!(d.process_data(&[0xff, 0x0a]), Err(DecoderError::InvalidSignature));
    assert_eq!(d.process_data(&[]), Err(DecoderError::InvalidSignature));
    let mut out = vec![0u32; 1];
    assert_eq!(d.decode_frame(&mut out), Err(DecoderError::InvalidSignature));
}

#[test]
fn container_start_needs_more_with_positive_hint() {
    // A container signature followed by insufficient bytes: the signature is
    // accepted, the engine wants more, and the suggested size is positive.
    let mut d = JxlRustDecoder::new(false);
    let r = d.process_data(&CONTAINER);
    assert!(matches!(r, Ok((false, h)) if h > 0));
}

#[test]
fn codestream_start_needs_more_with_positive_hint() {
    let mut d = JxlRustDecoder::new(true);
    let r = d.process_data(&[0xff, 0x0a]);
    assert!(matches!(r, Ok((false, h)) if h > 0));
}

#[test]
fn status_mapping_matches_boundary_protocol() {
    assert_eq!(status_of_process(&Ok((true, 0))), JxlRustStatus::Success);
    assert_eq!(status_of_process(&Ok((false, 7))), JxlRustStatus::NeedMoreData);
    assert_eq!(
        status_of_process(&Err(DecoderError::InvalidSignature)),
        JxlRustStatus::InvalidData
    );
}
