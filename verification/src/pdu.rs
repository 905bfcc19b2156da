//! The protocol data unit (PDU): the single message type exchanged in both
//! directions, together with its ghost model.

use vstd::prelude::*;

use crate::checksum::{checksum, md5_hex_of};

verus! {

/// The kind of a protocol message.
///
/// Only `Data`, `DownloadRequest` and `Response` are exercised by the upload
/// and download flows; the remaining variants are reserved placeholders.
/// `DownloadRequest` carries the name of the file the peer is asked to send.
pub enum MessageType {
    HandshakeInitiation,
    HandshakeResponse,
    Request,
    Response,
    Data,
    DownloadRequest(String),
}

/// Ghost model of a [`MessageType`]: the embedded filename of a
/// `DownloadRequest` is modelled as its sequence of characters.
pub enum MessageTypeView {
    HandshakeInitiation,
    HandshakeResponse,
    Request,
    Response,
    Data,
    DownloadRequest(Seq<char>),
}

impl View for MessageType {
    type V = MessageTypeView;

    open spec fn view(&self) -> MessageTypeView {
        match self {
            MessageType::HandshakeInitiation => MessageTypeView::HandshakeInitiation,
            MessageType::HandshakeResponse => MessageTypeView::HandshakeResponse,
            MessageType::Request => MessageTypeView::Request,
            MessageType::Response => MessageTypeView::Response,
            MessageType::Data => MessageTypeView::Data,
            MessageType::DownloadRequest(name) => MessageTypeView::DownloadRequest(name@),
        }
    }
}

/// A protocol data unit.
///
/// `length` declares the payload size in bytes; a well-formed PDU keeps
/// `length == data.len()`. `sequence_number` is assigned by the sender and is
/// purely informational: the receiver neither validates it nor orders by it.
/// `checksum` is the hex-encoded digest of `data`, empty where no payload
/// travels; `filename` names the file the payload belongs to, empty where not
/// applicable.
pub struct PDU {
    pub msg_type: MessageType,
    pub length: u32,
    pub sequence_number: u32,
    pub checksum: String,
    pub data: Vec<u8>,
    pub filename: String,
}

/// Ghost model of a [`PDU`]: strings become character sequences and the
/// payload becomes a byte sequence.
pub struct PduView {
    pub msg_type: MessageTypeView,
    pub length: u32,
    pub sequence_number: u32,
    pub checksum: Seq<char>,
    pub data: Seq<u8>,
    pub filename: Seq<char>,
}

impl View for PDU {
    type V = PduView;

    open spec fn view(&self) -> PduView {
        PduView {
            msg_type: self.msg_type@,
            length: self.length,
            sequence_number: self.sequence_number,
            checksum: self.checksum@,
            data: self.data@,
            filename: self.filename@,
        }
    }
}

/// A failure code carried in the `data` field of an error reply.
/// The received bytes were not the wire image of one PDU.
pub const ERR_MALFORMED: u8 = 1;

/// A failure code carried in the `data` field of an error reply.
/// A `Data` PDU's checksum did not match its payload.
pub const ERR_INTEGRITY: u8 = 2;

/// A failure code carried in the `data` field of an error reply.
/// The message type is not supported by the receiver.
pub const ERR_UNSUPPORTED: u8 = 3;

/// A failure code carried in the `data` field of an error reply.
/// Reading or writing the named file failed.
pub const ERR_STORAGE: u8 = 4;

/// A failure code carried in the `data` field of an error reply.
/// The filename would escape the designated storage directory.
pub const ERR_UNSAFE_NAME: u8 = 5;

/// The payload-carrying PDU: `checksum` is the digest of `data` and `length`
/// its byte count, so the result always passes the integrity check.
pub open spec fn spec_data_pdu(filename: Seq<char>, data: Seq<u8>, sequence_number: u32) -> PduView {
    PduView {
        msg_type: MessageTypeView::Data,
        length: data.len() as u32,
        sequence_number,
        checksum: md5_hex_of(data),
        data,
        filename,
    }
}

/// A request that the peer send the named file; it carries no payload.
pub open spec fn spec_download_request(filename: Seq<char>, sequence_number: u32) -> PduView {
    PduView {
        msg_type: MessageTypeView::DownloadRequest(filename),
        length: 0,
        sequence_number,
        checksum: Seq::empty(),
        data: Seq::empty(),
        filename: Seq::empty(),
    }
}

/// The positive acknowledgment: a `Response` with an empty payload.
pub open spec fn spec_success_response() -> PduView {
    PduView {
        msg_type: MessageTypeView::Response,
        length: 0,
        sequence_number: 0,
        checksum: Seq::empty(),
        data: Seq::empty(),
        filename: Seq::empty(),
    }
}

/// An explicit negative acknowledgment: a `Response` whose one-byte payload
/// carries the failure code. A `Response` with an empty payload means
/// success; one with a non-empty payload reports a failure.
pub open spec fn spec_error_reply(code: u8) -> PduView {
    PduView {
        msg_type: MessageTypeView::Response,
        length: 1,
        sequence_number: 0,
        checksum: Seq::empty(),
        data: seq![code],
        filename: Seq::empty(),
    }
}

/// Builds the `Data` PDU that carries `data` under `filename`, with the
/// digest of `data` as its checksum.
pub fn data_pdu(filename: String, data: Vec<u8>, sequence_number: u32) -> (r: PDU)
    requires
        data@.len() <= u32::MAX,
    ensures
        r@ == spec_data_pdu(filename@, data@, sequence_number),
{
    let digest = checksum(&data);
    let length = data.len() as u32;
    PDU { msg_type: MessageType::Data, length, sequence_number, checksum: digest, data, filename }
}

/// Builds the `DownloadRequest` PDU that asks the peer for `filename`.
pub fn download_request(filename: String, sequence_number: u32) -> (r: PDU)
    ensures
        r@ == spec_download_request(filename@, sequence_number),
{
    PDU {
        msg_type: MessageType::DownloadRequest(filename),
        length: 0,
        sequence_number,
        checksum: String::new(),
        data: Vec::new(),
        filename: String::new(),
    }
}

/// Builds the positive acknowledgment PDU.
pub fn success_response() -> (r: PDU)
    ensures
        r@ == spec_success_response(),
{
    PDU {
        msg_type: MessageType::Response,
        length: 0,
        sequence_number: 0,
        checksum: String::new(),
        data: Vec::new(),
        filename: String::new(),
    }
}

/// Builds the explicit negative acknowledgment PDU carrying `code`.
pub fn error_reply(code: u8) -> (r: PDU)
    ensures
        r@ == spec_error_reply(code),
{
    let mut data: Vec<u8> = Vec::new();
    data.push(code);
    assert(data@ =~= seq![code]);
    PDU {
        msg_type: MessageType::Response,
        length: 1,
        sequence_number: 0,
        checksum: String::new(),
        data,
        filename: String::new(),
    }
}

} // verus!
