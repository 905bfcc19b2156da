use file_transfer::codec::{decode, encode};
use file_transfer::pdu::{MessageType, PDU};

fn roundtrip(p: &PDU) -> PDU {
    decode(encode(p).as_slice()).expect("a freshly encoded PDU decodes")
}

#[test]
fn roundtrip_data_pdu() {
    let p = PDU {
        msg_type: MessageType::Data,
        length: 5,
        sequence_number: 3,
        checksum: "5d41402abc4b2a76b9719d911017c592".to_string(),
        data: b"hello".to_vec(),
        filename: "a.txt".to_string(),
    };
    let q = roundtrip(&p);
    assert!(matches!(q.msg_type, MessageType::Data));
    assert_eq!(q.length, 5);
    assert_eq!(q.sequence_number, 3);
    assert_eq!(q.checksum, "5d41402abc4b2a76b9719d911017c592");
    assert_eq!(q.data, b"hello".to_vec());
    assert_eq!(q.filename, "a.txt");
}

#[test]
fn roundtrip_download_request() {
    let p = PDU {
        msg_type: MessageType::DownloadRequest("répertoire/ファイル.txt".to_string()),
        length: 0,
        sequence_number: 9,
        checksum: String::new(),
        data: Vec::new(),
        filename: String::new(),
    };
    let q = roundtrip(&p);
    match q.msg_type {
        MessageType::DownloadRequest(name) => assert_eq!(name, "répertoire/ファイル.txt"),
        _ => panic!("expected a download request"),
    }
    assert_eq!(q.sequence_number, 9);
    assert_eq!(q.data, Vec::<u8>::new());
    assert_eq!(q.filename, "");
}

#[test]
fn roundtrip_empty_fields() {
    for msg_type in [
        MessageType::HandshakeInitiation,
        MessageType::HandshakeResponse,
        MessageType::Request,
        MessageType::Response,
        MessageType::Data,
    ] {
        let p = PDU {
            msg_type,
            length: 0,
            sequence_number: 0,
            checksum: String::new(),
            data: Vec::new(),
            filename: String::new(),
        };
        let before = encode(&p);
        let q = roundtrip(&p);
        assert_eq!(encode(&q), before);
    }
}

#[test]
fn wire_image_is_fixed() {
    let p = PDU {
        msg_type: MessageType::Response,
        length: 0,
        sequence_number: 0,
        checksum: String::new(),
        data: Vec::new(),
        filename: String::new(),
    };
    let mut expected = vec![4u8];
    expected.extend_from_slice(&[0u8; 4]); // length
    expected.extend_from_slice(&[0u8; 4]); // sequence number
    expected.extend_from_slice(&[0u8; 8]); // checksum byte count
    expected.extend_from_slice(&[0u8; 8]); // data byte count
    expected.extend_from_slice(&[0u8; 8]); // filename byte count
    assert_eq!(encode(&p), expected);
}

#[test]
fn decode_rejects_truncated_input() {
    let p = PDU {
        msg_type: MessageType::Data,
        length: 5,
        sequence_number: 1,
        checksum: "00".to_string(),
        data: b"hello".to_vec(),
        filename: "a.txt".to_string(),
    };
    let full = encode(&p);
    assert!(decode(&[]).is_err());
    for cut in 0..full.len() {
        assert!(decode(&full[..cut]).is_err(), "truncation at {cut} must fail");
    }
}

#[test]
fn decode_rejects_trailing_bytes() {
    let p = PDU {
        msg_type: MessageType::Response,
        length: 0,
        sequence_number: 0,
        checksum: String::new(),
        data: Vec::new(),
        filename: String::new(),
    };
    let mut bytes = encode(&p);
    bytes.push(0);
    assert!(decode(&bytes).is_err());
}

#[test]
fn decode_rejects_unknown_discriminant() {
    let p = PDU {
        msg_type: MessageType::Response,
        length: 0,
        sequence_number: 0,
        checksum: String::new(),
        data: Vec::new(),
        filename: String::new(),
    };
    let mut bytes = encode(&p);
    bytes[0] = 0;
    assert!(decode(&bytes).is_err());
    bytes[0] = 7;
    assert!(decode(&bytes).is_err());
}

#[test]
fn decode_rejects_invalid_text() {
    // A Response whose checksum field claims one byte, 0xFF: not valid UTF-8.
    let mut bytes = vec![4u8];
    bytes.extend_from_slice(&[0u8; 4]);
    bytes.extend_from_slice(&[0u8; 4]);
    bytes.extend_from_slice(&1u64.to_le_bytes());
    bytes.push(0xFF);
    bytes.extend_from_slice(&[0u8; 8]);
    bytes.extend_from_slice(&[0u8; 8]);
    assert!(decode(&bytes).is_err());
}
