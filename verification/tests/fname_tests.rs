use file_transfer::codec::encode;
use file_transfer::dispatch::{ServerAction, ServerEvent, ServerState, StreamHandler};
use file_transfer::fname::filename_is_safe;
use file_transfer::pdu::{data_pdu, MessageType, PDU, ERR_UNSAFE_NAME};
use file_transfer::session::{ClientAction, ClientEvent, ClientSession};

#[test]
fn safe_and_unsafe_filenames() {
    for name in ["a.txt", "héllo", "...", "a..b", "notes 2024.md"] {
        assert!(filename_is_safe(&name.to_string()), "{name} must be accepted");
    }
    for name in ["", ".", "..", "a/b", "a\\b", "/etc/passwd", "../a.txt", "dir/"] {
        assert!(!filename_is_safe(&name.to_string()), "{name} must be rejected");
    }
}

#[test]
fn server_confines_uploads_to_storage_directory() {
    let pdu = data_pdu("../evil.txt".to_string(), b"hello".to_vec(), 0);
    let mut server = StreamHandler::new();
    let actions = server.step(ServerEvent::Received { bytes: encode(&pdu) });
    match actions.as_slice() {
        [ServerAction::SendPdu(reply)] => {
            assert!(matches!(reply.msg_type, MessageType::Response));
            assert_eq!(reply.data, vec![ERR_UNSAFE_NAME]);
        }
        _ => panic!("an escaping filename must draw exactly the unsafe-name reply"),
    }
    assert!(matches!(server.state, ServerState::Ready));
}

#[test]
fn server_confines_downloads_to_storage_directory() {
    let request = PDU {
        msg_type: MessageType::DownloadRequest("../../secret".to_string()),
        length: 0,
        sequence_number: 0,
        checksum: String::new(),
        data: Vec::new(),
        filename: String::new(),
    };
    let mut server = StreamHandler::new();
    let actions = server.step(ServerEvent::Received { bytes: encode(&request) });
    match actions.as_slice() {
        [ServerAction::SendPdu(reply)] => assert_eq!(reply.data, vec![ERR_UNSAFE_NAME]),
        _ => panic!("an escaping download request must draw exactly the unsafe-name reply"),
    }
    assert!(matches!(server.state, ServerState::Ready));
}

#[test]
fn client_confines_downloads_to_storage_directory() {
    let mut client = ClientSession::new();
    client.step(ClientEvent::Started);
    client.step(ClientEvent::ChoseDownload { filename: "a.txt".to_string() });
    // A valid-checksum reply whose filename would escape: not persisted.
    let served = data_pdu("../evil.txt".to_string(), b"hello".to_vec(), 0);
    let actions = client.step(ClientEvent::ReplyReceived { bytes: encode(&served) });
    assert!(matches!(actions.as_slice(), [ClientAction::ReportUnsafeFilename]));
}
