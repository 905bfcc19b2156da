use file_transfer::codec::encode;
use file_transfer::dispatch::{ServerAction, ServerEvent, ServerState, StreamHandler};
use file_transfer::pdu::{MessageType, PDU, ERR_INTEGRITY, ERR_MALFORMED, ERR_STORAGE, ERR_UNSUPPORTED};
use file_transfer::session::{ClientAction, ClientEvent, ClientSession, ClientState};

/// One entry per file the simulated server-side store holds.
type Store = Vec<(String, Vec<u8>)>;

/// Drives one server stream handler over one event, performing file actions
/// against `store` and collecting every PDU the handler sends.
fn run_server(server: &mut StreamHandler, store: &mut Store, event: ServerEvent) -> Vec<PDU> {
    let mut pending = vec![event];
    let mut sent = Vec::new();
    while let Some(event) = pending.pop() {
        for action in server.step(event) {
            match action {
                ServerAction::WriteFile { filename, data } => {
                    store.retain(|(name, _)| *name != filename);
                    store.push((filename, data));
                    pending.push(ServerEvent::WriteCompleted { ok: true });
                }
                ServerAction::ReadFile { filename } => {
                    let contents = store
                        .iter()
                        .find(|(name, _)| *name == filename)
                        .map(|(_, data)| data.clone());
                    pending.push(ServerEvent::ReadCompleted { contents });
                }
                ServerAction::SendPdu(pdu) => sent.push(pdu),
                ServerAction::CloseStream => {}
            }
        }
    }
    sent
}

fn upload_pdu(client: &mut ClientSession, filename: &str, contents: &[u8]) -> PDU {
    let actions = client.step(ClientEvent::ChoseUpload {
        filename: filename.to_string(),
        contents: contents.to_vec(),
    });
    match actions.into_iter().next() {
        Some(ClientAction::SendPdu(pdu)) => pdu,
        _ => panic!("choosing an upload must send exactly one PDU"),
    }
}

#[test]
fn upload_persists_payload_and_draws_response() {
    let mut client = ClientSession::new();
    client.step(ClientEvent::Started);
    let pdu = upload_pdu(&mut client, "a.txt", b"hello");
    assert_eq!(client.sequence_number, 1);

    let mut server = StreamHandler::new();
    let mut store = Store::new();
    let sent = run_server(&mut server, &mut store, ServerEvent::Received { bytes: encode(&pdu) });

    assert_eq!(store, vec![("a.txt".to_string(), b"hello".to_vec())]);
    assert_eq!(sent.len(), 1);
    assert!(matches!(sent[0].msg_type, MessageType::Response));
    assert!(sent[0].data.is_empty());

    let actions = client.step(ClientEvent::ReplyReceived { bytes: encode(&sent[0]) });
    assert!(matches!(actions.as_slice(), [ClientAction::ReportUploadSuccess]));
    assert!(matches!(client.state, ClientState::AwaitingChoice));
}

#[test]
fn corrupted_upload_writes_nothing_and_draws_error() {
    let pdu = PDU {
        msg_type: MessageType::Data,
        length: 5,
        sequence_number: 0,
        checksum: "00000000000000000000000000000000".to_string(),
        data: b"hello".to_vec(),
        filename: "a.txt".to_string(),
    };
    let mut server = StreamHandler::new();
    let mut store = Store::new();
    let sent = run_server(&mut server, &mut store, ServerEvent::Received { bytes: encode(&pdu) });

    assert!(store.is_empty(), "a corrupt payload must not be written");
    assert_eq!(sent.len(), 1, "the failure must draw an explicit reply, not silence");
    assert!(matches!(sent[0].msg_type, MessageType::Response));
    assert_eq!(sent[0].data, vec![ERR_INTEGRITY]);
    assert!(matches!(server.state, ServerState::Ready));

    let mut client = ClientSession::new();
    client.step(ClientEvent::Started);
    upload_pdu(&mut client, "a.txt", b"hello");
    let actions = client.step(ClientEvent::ReplyReceived { bytes: encode(&sent[0]) });
    assert!(matches!(
        actions.as_slice(),
        [ClientAction::ReportServerError { .. }]
    ));
}

#[test]
fn download_serves_file_and_client_persists_it() {
    let mut server = StreamHandler::new();
    let mut store: Store = vec![("a.txt".to_string(), b"hello".to_vec())];

    let mut client = ClientSession::new();
    client.step(ClientEvent::Started);
    let actions = client.step(ClientEvent::ChoseDownload { filename: "a.txt".to_string() });
    let request = match actions.into_iter().next() {
        Some(ClientAction::SendPdu(pdu)) => pdu,
        _ => panic!("choosing a download must send exactly one PDU"),
    };
    assert!(matches!(request.msg_type, MessageType::DownloadRequest(_)));
    assert!(request.checksum.is_empty());

    let sent = run_server(&mut server, &mut store, ServerEvent::Received {
        bytes: encode(&request),
    });
    assert_eq!(sent.len(), 2, "the file travels first, then the positive response");
    assert!(matches!(sent[0].msg_type, MessageType::Data));
    assert_eq!(sent[0].filename, "a.txt");
    assert_eq!(sent[0].data, b"hello".to_vec());
    assert_eq!(sent[0].checksum, "5d41402abc4b2a76b9719d911017c592");
    assert!(matches!(sent[1].msg_type, MessageType::Response));

    let actions = client.step(ClientEvent::ReplyReceived { bytes: encode(&sent[0]) });
    match actions.as_slice() {
        [ClientAction::PersistFile { filename, data }, ClientAction::ReportDownloadSuccess] => {
            assert_eq!(filename, "a.txt");
            assert_eq!(data, &b"hello".to_vec());
        }
        _ => panic!("a valid download must be persisted and reported"),
    }
}

#[test]
fn download_of_missing_file_draws_storage_error() {
    let mut server = StreamHandler::new();
    let mut store = Store::new();
    let request = PDU {
        msg_type: MessageType::DownloadRequest("missing.txt".to_string()),
        length: 0,
        sequence_number: 0,
        checksum: String::new(),
        data: Vec::new(),
        filename: String::new(),
    };
    let sent = run_server(&mut server, &mut store, ServerEvent::Received {
        bytes: encode(&request),
    });
    assert_eq!(sent.len(), 1);
    assert_eq!(sent[0].data, vec![ERR_STORAGE]);
    assert!(matches!(server.state, ServerState::Ready));
}

#[test]
fn corrupt_download_is_not_persisted() {
    let mut client = ClientSession::new();
    client.step(ClientEvent::Started);
    client.step(ClientEvent::ChoseDownload { filename: "a.txt".to_string() });
    let corrupt = PDU {
        msg_type: MessageType::Data,
        length: 5,
        sequence_number: 0,
        checksum: "ffffffffffffffffffffffffffffffff".to_string(),
        data: b"hello".to_vec(),
        filename: "a.txt".to_string(),
    };
    let actions = client.step(ClientEvent::ReplyReceived { bytes: encode(&corrupt) });
    assert!(matches!(actions.as_slice(), [ClientAction::ReportCorruption]));
}

#[test]
fn unsupported_message_type_closes_only_this_stream() {
    let unsupported = PDU {
        msg_type: MessageType::HandshakeInitiation,
        length: 0,
        sequence_number: 0,
        checksum: String::new(),
        data: Vec::new(),
        filename: String::new(),
    };
    let mut server = StreamHandler::new();
    let mut store = Store::new();
    let sent = run_server(&mut server, &mut store, ServerEvent::Received {
        bytes: encode(&unsupported),
    });
    assert_eq!(sent.len(), 1, "the rejection must be explicit, not silence");
    assert_eq!(sent[0].data, vec![ERR_UNSUPPORTED]);
    assert!(matches!(server.state, ServerState::Closed));

    // A sibling stream on the same connection has its own handler and still
    // serves requests after this one closed.
    let mut sibling = StreamHandler::new();
    let mut client = ClientSession::new();
    client.step(ClientEvent::Started);
    let pdu = upload_pdu(&mut client, "b.txt", b"still fine");
    let sent = run_server(&mut sibling, &mut store, ServerEvent::Received { bytes: encode(&pdu) });
    assert_eq!(store, vec![("b.txt".to_string(), b"still fine".to_vec())]);
    assert!(matches!(sent[0].msg_type, MessageType::Response));
    assert!(sent[0].data.is_empty());
}

#[test]
fn concurrent_streams_complete_independently() {
    // Two interleaved uploads on sibling streams, with a failure injected on
    // the first: the second stream's outcome is unchanged.
    let mut store = Store::new();
    let mut stream_a = StreamHandler::new();
    let mut stream_b = StreamHandler::new();

    let mut client_a = ClientSession::new();
    client_a.step(ClientEvent::Started);
    let mut pdu_a = upload_pdu(&mut client_a, "a.txt", b"first");
    pdu_a.checksum = "00000000000000000000000000000000".to_string(); // inject corruption

    let mut client_b = ClientSession::new();
    client_b.step(ClientEvent::Started);
    let pdu_b = upload_pdu(&mut client_b, "b.txt", b"second");

    let sent_a = run_server(&mut stream_a, &mut store, ServerEvent::Received {
        bytes: encode(&pdu_a),
    });
    let sent_b = run_server(&mut stream_b, &mut store, ServerEvent::Received {
        bytes: encode(&pdu_b),
    });

    assert_eq!(sent_a.len(), 1);
    assert_eq!(sent_a[0].data, vec![ERR_INTEGRITY]);
    assert_eq!(store, vec![("b.txt".to_string(), b"second".to_vec())]);
    assert_eq!(sent_b.len(), 1);
    assert!(matches!(sent_b[0].msg_type, MessageType::Response));
    assert!(sent_b[0].data.is_empty());

    let actions = client_b.step(ClientEvent::ReplyReceived { bytes: encode(&sent_b[0]) });
    assert!(matches!(actions.as_slice(), [ClientAction::ReportUploadSuccess]));
}

#[test]
fn session_counter_and_termination() {
    let mut client = ClientSession::new();
    assert!(matches!(client.state, ClientState::Idle));
    client.step(ClientEvent::Started);
    upload_pdu(&mut client, "a.txt", b"x");
    client.step(ClientEvent::ReplyReceived { bytes: encode(&PDU {
        msg_type: MessageType::Response,
        length: 0,
        sequence_number: 0,
        checksum: String::new(),
        data: Vec::new(),
        filename: String::new(),
    }) });
    let request = client.step(ClientEvent::ChoseDownload { filename: "a.txt".to_string() });
    match request.as_slice() {
        [ClientAction::SendPdu(pdu)] => assert_eq!(pdu.sequence_number, 1),
        _ => panic!("a download request must be sent"),
    }
    assert_eq!(client.sequence_number, 2);

    client.step(ClientEvent::PeerClosed);
    assert!(matches!(client.state, ClientState::Terminated));
    let after = client.step(ClientEvent::InvalidChoice);
    assert!(after.is_empty(), "a terminated session performs nothing");
    assert!(matches!(client.state, ClientState::Terminated));
}

#[test]
fn malformed_bytes_close_stream_with_explicit_reply() {
    let mut server = StreamHandler::new();
    let mut store = Store::new();
    let sent = run_server(&mut server, &mut store, ServerEvent::Received {
        bytes: vec![42, 1, 2, 3],
    });
    assert_eq!(sent.len(), 1);
    assert_eq!(sent[0].data, vec![ERR_MALFORMED]);
    assert!(matches!(server.state, ServerState::Closed));
    assert!(store.is_empty());
}
