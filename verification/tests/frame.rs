use myprotocol::error::ProtocolError;
use myprotocol::frame::{RequestFrame, ResponseFrame, MAX_PAYLOAD_SIZE};

#[test]
fn test_encode_decode_roundtrip_with_payload() {
    let req = RequestFrame {
        device_id: 0xAAAA,
        command_id: 0x1111,
        payload: vec![0x01, 0x02, 0x03],
    };
    let encoded = req.encode().unwrap();

    assert_eq!(&encoded[0..2], &0xAAAAu16.to_be_bytes());
    assert_eq!(&encoded[2..4], &0x1111u16.to_be_bytes());
    assert_eq!(&encoded[4..8], &3u32.to_be_bytes());
    assert_eq!(&encoded[8..], &[0x01, 0x02, 0x03]);

    let mut header = [0u8; 8];
    header[0..2].copy_from_slice(&0xAAAAu16.to_be_bytes());
    header[2..4].copy_from_slice(&0x0000u16.to_be_bytes());
    header[4..8].copy_from_slice(&3u32.to_be_bytes());

    let payload = vec![0xAA, 0xBB, 0xCC];
    let resp = ResponseFrame::decode(&header, payload.clone()).unwrap();
    assert_eq!(resp.device_id, 0xAAAA);
    assert_eq!(resp.answer_code, 0x0000);
    assert_eq!(resp.payload, payload);
}

#[test]
fn test_encode_decode_roundtrip_no_payload() {
    let req = RequestFrame {
        device_id: 0xBBBB,
        command_id: 0x1111,
        payload: vec![],
    };
    let encoded = req.encode().unwrap();
    assert_eq!(encoded.len(), 8);
    assert_eq!(&encoded[4..8], &0u32.to_be_bytes());

    let mut header = [0u8; 8];
    header[0..2].copy_from_slice(&0xBBBBu16.to_be_bytes());
    header[2..4].copy_from_slice(&0x0000u16.to_be_bytes());
    header[4..8].copy_from_slice(&0u32.to_be_bytes());

    let resp = ResponseFrame::decode(&header, vec![]).unwrap();
    assert_eq!(resp.device_id, 0xBBBB);
    assert_eq!(resp.payload.len(), 0);
}

#[test]
fn test_encode_payload_too_large() {
    let big_payload = vec![0u8; MAX_PAYLOAD_SIZE + 1];
    let req = RequestFrame { device_id: 0, command_id: 0, payload: big_payload };
    assert!(matches!(req.encode(), Err(ProtocolError::EncodeError(_))));
}

#[test]
fn test_decode_payload_too_large() {
    let mut header = [0u8; 8];
    header[0..2].copy_from_slice(&0xAAAAu16.to_be_bytes());
    header[2..4].copy_from_slice(&0x0000u16.to_be_bytes());
    let too_large = (MAX_PAYLOAD_SIZE + 1) as u32;
    header[4..8].copy_from_slice(&too_large.to_be_bytes());

    let result = ResponseFrame::decode(&header, vec![]);
    assert!(matches!(result, Err(ProtocolError::DecodeError(_))));
}

#[test]
fn encoded_request_reads_back_as_response() {
    let req = RequestFrame { device_id: 0x1234, command_id: 0xBEEF, payload: vec![9, 8, 7, 6, 5] };
    let bytes = req.encode().unwrap();
    assert_eq!(bytes.len(), 8 + 5);
    let mut header = [0u8; 8];
    header.copy_from_slice(&bytes[..8]);
    assert_eq!(ResponseFrame::payload_size_from_header(&header).unwrap(), 5);
    let resp = ResponseFrame::decode(&header, bytes[8..].to_vec()).unwrap();
    assert_eq!(resp.device_id, 0x1234);
    assert_eq!(resp.answer_code, 0xBEEF);
    assert_eq!(resp.payload, vec![9, 8, 7, 6, 5]);
}

#[test]
fn header_fields_rewrite_the_same_header() {
    let header = [0x01u8, 0x02, 0xFE, 0xFF, 0x00, 0x00, 0x00, 0x02];
    let resp = ResponseFrame::decode(&header, vec![0x55, 0x66]).unwrap();
    let again = RequestFrame {
        device_id: resp.device_id,
        command_id: resp.answer_code,
        payload: resp.payload.clone(),
    }
    .encode()
    .unwrap();
    assert_eq!(&again[..8], &header);
    assert_eq!(&again[8..], &[0x55, 0x66]);
}

#[test]
fn encode_exact_bytes() {
    let req = RequestFrame { device_id: 0x0102, command_id: 0x0304, payload: vec![0xFF; 0x0105] };
    let bytes = req.encode().unwrap();
    assert_eq!(&bytes[..8], &[0x01, 0x02, 0x03, 0x04, 0x00, 0x00, 0x01, 0x05]);
    assert_eq!(bytes.len(), 8 + 0x0105);
}

#[test]
fn payload_at_limit_is_accepted() {
    let req = RequestFrame { device_id: 1, command_id: 2, payload: vec![0u8; MAX_PAYLOAD_SIZE] };
    let bytes = req.encode().unwrap();
    assert_eq!(bytes.len(), 8 + MAX_PAYLOAD_SIZE);
    assert_eq!(&bytes[4..8], &(MAX_PAYLOAD_SIZE as u32).to_be_bytes());

    let mut header = [0u8; 8];
    header[4..8].copy_from_slice(&(MAX_PAYLOAD_SIZE as u32).to_be_bytes());
    assert_eq!(ResponseFrame::payload_size_from_header(&header).unwrap(), MAX_PAYLOAD_SIZE);
}

#[test]
fn oversize_error_messages() {
    let req = RequestFrame { device_id: 0, command_id: 0, payload: vec![0u8; MAX_PAYLOAD_SIZE + 1] };
    match req.encode() {
        Err(ProtocolError::EncodeError(m)) => assert_eq!(m, "payload size 16777217 exceeds limit 16777216"),
        _ => panic!("expected an encode error"),
    }
    let header = [0u8, 0, 0, 0, 0xFF, 0xFF, 0xFF, 0xFF];
    match ResponseFrame::payload_size_from_header(&header) {
        Err(ProtocolError::DecodeError(m)) => assert_eq!(m, "payload size 4294967295 exceeds limit 16777216"),
        _ => panic!("expected a decode error"),
    }
    match ResponseFrame::decode(&header, vec![]) {
        Err(ProtocolError::DecodeError(m)) => assert_eq!(m, "payload size 4294967295 exceeds limit 16777216"),
        _ => panic!("expected a decode error"),
    }
}

#[test]
fn decode_keeps_payload_as_given() {
    // The header's length field is checked against the limit only; the payload is kept as handed in.
    let header = [0u8, 7, 0, 9, 0, 0, 0, 1];
    let resp = ResponseFrame::decode(&header, vec![1, 2, 3]).unwrap();
    assert_eq!(resp.device_id, 7);
    assert_eq!(resp.answer_code, 9);
    assert_eq!(resp.payload, vec![1, 2, 3]);
}
