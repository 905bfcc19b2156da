//! End-to-end protocol laws: what one side's state machine does with what
//! the other side put on the wire, proved from the codec's round-trip law
//! and the machines' transition functions.

use vstd::prelude::*;

use crate::checksum::spec_checksum_ok;
use crate::codec::{encodable, lemma_decode_encode, spec_encode};
use crate::fname::spec_filename_safe;
use crate::dispatch::{spec_server_step, ServerActionView, ServerEventView, ServerStateView};
use crate::pdu::{
    spec_data_pdu, spec_download_request, spec_error_reply, spec_success_response, ERR_INTEGRITY,
    ERR_UNSAFE_NAME, ERR_UNSUPPORTED,
};
use crate::pdu::{MessageTypeView, PduView};
use crate::session::{
    spec_client_step, spec_inc_seq, ClientActionView, ClientEventView, ClientState,
};

verus! {

/// Law: choosing an upload makes the client send exactly one PDU: a `Data`
/// PDU that carries the file's bytes, their digest as checksum, and the
/// session's sequence number, which then increments. The sent PDU passes the
/// integrity check.
pub proof fn lemma_client_upload_sends_valid_data(
    filename: Seq<char>,
    contents: Seq<u8>,
    sequence_number: u32,
)
    ensures
        spec_client_step(
            ClientState::AwaitingChoice,
            sequence_number,
            ClientEventView::ChoseUpload { filename, contents },
        ) == (
            ClientState::UploadAwaitingReply,
            spec_inc_seq(sequence_number),
            seq![
                ClientActionView::SendPdu(spec_data_pdu(filename, contents, sequence_number)),
            ],
        ),
        spec_checksum_ok(spec_data_pdu(filename, contents, sequence_number)),
{
}

/// Law: a `Data` PDU that passes the integrity check and carries a confined
/// filename makes a ready server write exactly the PDU's payload under
/// exactly the PDU's filename, and nothing else; once the write succeeds,
/// the server replies with the positive `Response`.
pub proof fn lemma_server_accepts_valid_upload(p: PduView)
    requires
        p.msg_type is Data,
        spec_checksum_ok(p),
        spec_filename_safe(p.filename),
        encodable(p),
    ensures
        spec_server_step(
            ServerStateView::Ready,
            ServerEventView::Received { bytes: spec_encode(p) },
        ) == (
            ServerStateView::AwaitingWrite,
            seq![(ServerActionView::WriteFile { filename: p.filename, data: p.data })],
        ),
        spec_server_step(
            ServerStateView::AwaitingWrite,
            ServerEventView::WriteCompleted { ok: true },
        ) == (
            ServerStateView::Ready,
            seq![ServerActionView::SendPdu(spec_success_response())],
        ),
{
    lemma_decode_encode(p);
}

/// Law: a `Data` PDU that fails the integrity check makes a ready server
/// write nothing — its only action is the explicit integrity error reply —
/// and the stream stays open for further requests.
pub proof fn lemma_server_rejects_corrupt_upload(p: PduView)
    requires
        p.msg_type is Data,
        !spec_checksum_ok(p),
        encodable(p),
    ensures
        spec_server_step(
            ServerStateView::Ready,
            ServerEventView::Received { bytes: spec_encode(p) },
        ) == (
            ServerStateView::Ready,
            seq![ServerActionView::SendPdu(spec_error_reply(ERR_INTEGRITY))],
        ),
{
    lemma_decode_encode(p);
}

/// Law: a `DownloadRequest` makes a ready server read exactly the named
/// file; once the read succeeds, the server sends a `Data` PDU carrying the
/// file's bytes, their digest, and the requested name, followed by the
/// positive `Response`. The served PDU passes the integrity check.
pub proof fn lemma_server_serves_download(name: Seq<char>, contents: Seq<u8>, sequence_number: u32)
    requires
        spec_filename_safe(name),
        encodable(spec_download_request(name, sequence_number)),
    ensures
        spec_server_step(
            ServerStateView::Ready,
            ServerEventView::Received { bytes: spec_encode(spec_download_request(name, sequence_number)) },
        ) == (
            ServerStateView::AwaitingRead { filename: name },
            seq![(ServerActionView::ReadFile { filename: name })],
        ),
        spec_server_step(
            ServerStateView::AwaitingRead { filename: name },
            ServerEventView::ReadCompleted { contents: Some(contents) },
        ) == (
            ServerStateView::Ready,
            seq![
                ServerActionView::SendPdu(spec_data_pdu(name, contents, 0)),
                ServerActionView::SendPdu(spec_success_response()),
            ],
        ),
        spec_checksum_ok(spec_data_pdu(name, contents, 0)),
{
    lemma_decode_encode(spec_download_request(name, sequence_number));
}

/// Law: a served `Data` PDU that passes the integrity check and carries a
/// confined filename makes the waiting client persist exactly the PDU's
/// payload under that server-supplied filename and report success; the
/// sequence counter does not move on receipt.
pub proof fn lemma_client_persists_valid_download(p: PduView, sequence_number: u32)
    requires
        p.msg_type is Data,
        spec_checksum_ok(p),
        spec_filename_safe(p.filename),
        encodable(p),
    ensures
        spec_client_step(
            ClientState::DownloadAwaitingReply,
            sequence_number,
            ClientEventView::ReplyReceived { bytes: spec_encode(p) },
        ) == (
            ClientState::AwaitingChoice,
            sequence_number,
            seq![
                (ClientActionView::PersistFile { filename: p.filename, data: p.data }),
                ClientActionView::ReportDownloadSuccess,
            ],
        ),
{
    lemma_decode_encode(p);
}

/// Law: a served `Data` PDU that fails the integrity check is not persisted:
/// the waiting client's only action is to report corruption.
pub proof fn lemma_client_rejects_corrupt_download(p: PduView, sequence_number: u32)
    requires
        p.msg_type is Data,
        !spec_checksum_ok(p),
        encodable(p),
    ensures
        spec_client_step(
            ClientState::DownloadAwaitingReply,
            sequence_number,
            ClientEventView::ReplyReceived { bytes: spec_encode(p) },
        ) == (
            ClientState::AwaitingChoice,
            sequence_number,
            seq![ClientActionView::ReportCorruption],
        ),
{
    lemma_decode_encode(p);
}

/// Law: a filename that would escape the storage directory is never handed
/// to the file system. On the server, an otherwise valid upload under such a
/// name draws the explicit unsafe-name error reply and writes nothing, and a
/// download request for such a name draws the same reply and reads nothing;
/// the stream stays open.
pub proof fn lemma_server_confines_file_access(p: PduView, name: Seq<char>, sequence_number: u32)
    requires
        p.msg_type is Data,
        spec_checksum_ok(p),
        !spec_filename_safe(p.filename),
        encodable(p),
        !spec_filename_safe(name),
        encodable(spec_download_request(name, sequence_number)),
    ensures
        spec_server_step(
            ServerStateView::Ready,
            ServerEventView::Received { bytes: spec_encode(p) },
        ) == (
            ServerStateView::Ready,
            seq![ServerActionView::SendPdu(spec_error_reply(ERR_UNSAFE_NAME))],
        ),
        spec_server_step(
            ServerStateView::Ready,
            ServerEventView::Received { bytes: spec_encode(spec_download_request(name, sequence_number)) },
        ) == (
            ServerStateView::Ready,
            seq![ServerActionView::SendPdu(spec_error_reply(ERR_UNSAFE_NAME))],
        ),
{
    lemma_decode_encode(p);
    lemma_decode_encode(spec_download_request(name, sequence_number));
}

/// Law: the client, too, never persists a served file under a filename that
/// would escape the storage directory: such a reply only draws the
/// unsafe-name report.
pub proof fn lemma_client_confines_file_access(p: PduView, sequence_number: u32)
    requires
        p.msg_type is Data,
        spec_checksum_ok(p),
        !spec_filename_safe(p.filename),
        encodable(p),
    ensures
        spec_client_step(
            ClientState::DownloadAwaitingReply,
            sequence_number,
            ClientEventView::ReplyReceived { bytes: spec_encode(p) },
        ) == (
            ClientState::AwaitingChoice,
            sequence_number,
            seq![ClientActionView::ReportUnsafeFilename],
        ),
{
    lemma_decode_encode(p);
}

/// Law: a message type the server does not support draws the explicit
/// unsupported-type error reply, and only this stream closes — the handler
/// value is the whole per-stream state, so sibling streams, which have their
/// own handlers, are untouched.
pub proof fn lemma_server_rejects_unsupported(p: PduView)
    requires
        !(p.msg_type is Data),
        !(p.msg_type is DownloadRequest),
        encodable(p),
    ensures
        spec_server_step(
            ServerStateView::Ready,
            ServerEventView::Received { bytes: spec_encode(p) },
        ) == (
            ServerStateView::Closed,
            seq![
                ServerActionView::SendPdu(spec_error_reply(ERR_UNSUPPORTED)),
                ServerActionView::CloseStream,
            ],
        ),
{
    lemma_decode_encode(p);
}

} // verus!
