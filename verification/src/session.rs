//! The client session controller: one interactive upload/download session
//! over one stream, modelled as a state machine.
//!
//! The machine owns the per-session sequence counter and makes every
//! protocol decision. The program around the library runs the loop: it reads
//! the user's choice and the target file, performs each returned action
//! (send bytes, persist a file, report to the user), and hands the next
//! event back.

use vstd::prelude::*;

use crate::checksum::{spec_checksum_ok, verify};
use crate::codec::{decode, spec_decode};
use crate::fname::{filename_is_safe, spec_filename_safe};
use crate::pdu::{data_pdu, download_request, spec_data_pdu, spec_download_request};
use crate::pdu::{MessageType, MessageTypeView, PDU, PduView};

verus! {

/// Where the session stands: choosing, waiting for exactly one reply to an
/// upload or a download request, or done.
#[derive(Clone, Copy, Debug, PartialEq, Eq, Structural)]
pub enum ClientState {
    Idle,
    AwaitingChoice,
    UploadAwaitingReply,
    DownloadAwaitingReply,
    Terminated,
}

/// What the outside world hands the session: the user's choice (with the
/// target file already read for an upload), the bytes of one reply, or a
/// transport-level signal.
pub enum ClientEvent {
    Started,
    ChoseUpload { filename: String, contents: Vec<u8> },
    UploadReadFailed,
    ChoseDownload { filename: String },
    ChoseExit,
    InvalidChoice,
    ReplyReceived { bytes: Vec<u8> },
    PeerClosed,
    TransportFailed,
}

/// Ghost model of a [`ClientEvent`].
pub enum ClientEventView {
    Started,
    ChoseUpload { filename: Seq<char>, contents: Seq<u8> },
    UploadReadFailed,
    ChoseDownload { filename: Seq<char> },
    ChoseExit,
    InvalidChoice,
    ReplyReceived { bytes: Seq<u8> },
    PeerClosed,
    TransportFailed,
}

impl DeepView for ClientEvent {
    type V = ClientEventView;

    open spec fn deep_view(&self) -> ClientEventView {
        match self {
            ClientEvent::Started => ClientEventView::Started,
            ClientEvent::ChoseUpload { filename, contents } => ClientEventView::ChoseUpload {
                filename: filename@,
                contents: contents@,
            },
            ClientEvent::UploadReadFailed => ClientEventView::UploadReadFailed,
            ClientEvent::ChoseDownload { filename } => ClientEventView::ChoseDownload {
                filename: filename@,
            },
            ClientEvent::ChoseExit => ClientEventView::ChoseExit,
            ClientEvent::InvalidChoice => ClientEventView::InvalidChoice,
            ClientEvent::ReplyReceived { bytes } => ClientEventView::ReplyReceived {
                bytes: bytes@,
            },
            ClientEvent::PeerClosed => ClientEventView::PeerClosed,
            ClientEvent::TransportFailed => ClientEventView::TransportFailed,
        }
    }
}

/// What the session asks the outside world to do.
pub enum ClientAction {
    SendPdu(PDU),
    PersistFile { filename: String, data: Vec<u8> },
    ReportUploadSuccess,
    ReportDownloadSuccess,
    ReportServerError { detail: Vec<u8> },
    ReportUnexpectedReply,
    ReportMalformedReply,
    ReportCorruption,
    ReportUnsafeFilename,
    ReportInvalidChoice,
    ReportReadFailure,
    ReportTransportError,
    CloseStream,
}

/// Ghost model of a [`ClientAction`].
pub enum ClientActionView {
    SendPdu(PduView),
    PersistFile { filename: Seq<char>, data: Seq<u8> },
    ReportUploadSuccess,
    ReportDownloadSuccess,
    ReportServerError { detail: Seq<u8> },
    ReportUnexpectedReply,
    ReportMalformedReply,
    ReportCorruption,
    ReportUnsafeFilename,
    ReportInvalidChoice,
    ReportReadFailure,
    ReportTransportError,
    CloseStream,
}

impl DeepView for ClientAction {
    type V = ClientActionView;

    open spec fn deep_view(&self) -> ClientActionView {
        match self {
            ClientAction::SendPdu(pdu) => ClientActionView::SendPdu(pdu@),
            ClientAction::PersistFile { filename, data } => ClientActionView::PersistFile {
                filename: filename@,
                data: data@,
            },
            ClientAction::ReportUploadSuccess => ClientActionView::ReportUploadSuccess,
            ClientAction::ReportDownloadSuccess => ClientActionView::ReportDownloadSuccess,
            ClientAction::ReportServerError { detail } => ClientActionView::ReportServerError {
                detail: detail@,
            },
            ClientAction::ReportUnexpectedReply => ClientActionView::ReportUnexpectedReply,
            ClientAction::ReportMalformedReply => ClientActionView::ReportMalformedReply,
            ClientAction::ReportCorruption => ClientActionView::ReportCorruption,
            ClientAction::ReportUnsafeFilename => ClientActionView::ReportUnsafeFilename,
            ClientAction::ReportInvalidChoice => ClientActionView::ReportInvalidChoice,
            ClientAction::ReportReadFailure => ClientActionView::ReportReadFailure,
            ClientAction::ReportTransportError => ClientActionView::ReportTransportError,
            ClientAction::CloseStream => ClientActionView::CloseStream,
        }
    }
}

/// The sequence counter after one PDU is sent: it increments, wrapping at
/// the top of the unsigned range.
pub open spec fn spec_inc_seq(sequence_number: u32) -> u32 {
    if sequence_number == 0xFFFF_FFFFu32 {
        0u32
    } else {
        (sequence_number + 1) as u32
    }
}

/// How the session interprets one decoded reply while awaiting the answer to
/// an upload: an empty `Response` is success, a non-empty one is the
/// server's explicit error reply, anything else is unexpected.
pub open spec fn spec_upload_reply_actions(bytes: Seq<u8>) -> Seq<ClientActionView> {
    match spec_decode(bytes) {
        None => seq![ClientActionView::ReportMalformedReply],
        Some(p) => match p.msg_type {
            MessageTypeView::Response => if p.data.len() == 0 {
                seq![ClientActionView::ReportUploadSuccess]
            } else {
                seq![ClientActionView::ReportServerError { detail: p.data }]
            },
            _ => seq![ClientActionView::ReportUnexpectedReply],
        },
    }
}

/// How the session interprets one decoded reply while awaiting the answer to
/// a download request: a `Data` PDU that passes the integrity check and
/// carries a confined filename is persisted under that server-supplied name;
/// one that fails the integrity check is reported as corrupt, and one whose
/// filename would escape the storage directory is reported as unsafe —
/// neither is persisted.
pub open spec fn spec_download_reply_actions(bytes: Seq<u8>) -> Seq<ClientActionView> {
    match spec_decode(bytes) {
        None => seq![ClientActionView::ReportMalformedReply],
        Some(p) => match p.msg_type {
            MessageTypeView::Data => if !spec_checksum_ok(p) {
                seq![ClientActionView::ReportCorruption]
            } else if !spec_filename_safe(p.filename) {
                seq![ClientActionView::ReportUnsafeFilename]
            } else {
                seq![
                    ClientActionView::PersistFile { filename: p.filename, data: p.data },
                    ClientActionView::ReportDownloadSuccess,
                ]
            },
            MessageTypeView::Response => if p.data.len() == 0 {
                seq![ClientActionView::ReportUnexpectedReply]
            } else {
                seq![ClientActionView::ReportServerError { detail: p.data }]
            },
            _ => seq![ClientActionView::ReportUnexpectedReply],
        },
    }
}

/// The client session transition function: from state, sequence counter and
/// event to next state, next counter and the actions to perform, in order.
pub open spec fn spec_client_step(state: ClientState, sequence_number: u32, event: ClientEventView)
    -> (ClientState, u32, Seq<ClientActionView>) {
    match (state, event) {
        (ClientState::Idle, ClientEventView::Started) => (
            ClientState::AwaitingChoice,
            sequence_number,
            Seq::empty(),
        ),
        (ClientState::AwaitingChoice, ClientEventView::ChoseUpload { filename, contents }) => (
            ClientState::UploadAwaitingReply,
            spec_inc_seq(sequence_number),
            seq![
                ClientActionView::SendPdu(spec_data_pdu(filename, contents, sequence_number)),
            ],
        ),
        (ClientState::AwaitingChoice, ClientEventView::UploadReadFailed) => (
            ClientState::Terminated,
            sequence_number,
            seq![ClientActionView::ReportReadFailure],
        ),
        (ClientState::AwaitingChoice, ClientEventView::ChoseDownload { filename }) => (
            ClientState::DownloadAwaitingReply,
            spec_inc_seq(sequence_number),
            seq![
                ClientActionView::SendPdu(spec_download_request(filename, sequence_number)),
            ],
        ),
        (ClientState::AwaitingChoice, ClientEventView::ChoseExit) => (
            ClientState::Terminated,
            sequence_number,
            seq![ClientActionView::CloseStream],
        ),
        (ClientState::AwaitingChoice, ClientEventView::InvalidChoice) => (
            ClientState::AwaitingChoice,
            sequence_number,
            seq![ClientActionView::ReportInvalidChoice],
        ),
        (ClientState::UploadAwaitingReply, ClientEventView::ReplyReceived { bytes }) => (
            ClientState::AwaitingChoice,
            sequence_number,
            spec_upload_reply_actions(bytes),
        ),
        (ClientState::UploadAwaitingReply, ClientEventView::PeerClosed) => (
            ClientState::Terminated,
            sequence_number,
            Seq::empty(),
        ),
        (ClientState::UploadAwaitingReply, ClientEventView::TransportFailed) => (
            ClientState::Terminated,
            sequence_number,
            seq![ClientActionView::ReportTransportError],
        ),
        (ClientState::DownloadAwaitingReply, ClientEventView::ReplyReceived { bytes }) => (
            ClientState::AwaitingChoice,
            sequence_number,
            spec_download_reply_actions(bytes),
        ),
        (ClientState::DownloadAwaitingReply, ClientEventView::PeerClosed) => (
            ClientState::Terminated,
            sequence_number,
            Seq::empty(),
        ),
        (ClientState::DownloadAwaitingReply, ClientEventView::TransportFailed) => (
            ClientState::Terminated,
            sequence_number,
            seq![ClientActionView::ReportTransportError],
        ),
        _ => (state, sequence_number, Seq::empty()),
    }
}

/// One client session over one stream, holding the current state and the
/// per-session sequence counter (assigned to each PDU sent, then
/// incremented).
pub struct ClientSession {
    pub state: ClientState,
    pub sequence_number: u32,
}

impl ClientSession {
    /// A fresh session: idle, with the sequence counter at zero.
    pub fn new() -> (r: ClientSession)
        ensures
            r.state == ClientState::Idle,
            r.sequence_number == 0,
    {
        ClientSession { state: ClientState::Idle, sequence_number: 0 }
    }

    fn inc_seq(&mut self)
        ensures
            final(self).sequence_number == spec_inc_seq(old(self).sequence_number),
            final(self).state == old(self).state,
    {
        if self.sequence_number == 0xFFFF_FFFFu32 {
            self.sequence_number = 0;
        } else {
            self.sequence_number = self.sequence_number + 1;
        }
    }

    /// Feeds one event to the session and returns the actions to perform, in
    /// order, exactly as [`spec_client_step`] prescribes.
    pub fn step(&mut self, event: ClientEvent) -> (actions: Vec<ClientAction>)
        requires
            match event {
                ClientEvent::ChoseUpload { contents, .. } => contents@.len() <= u32::MAX,
                _ => true,
            },
        ensures
            ({
                let (s2, q2, acts) = spec_client_step(
                    old(self).state,
                    old(self).sequence_number,
                    event.deep_view(),
                );
                &&& final(self).state == s2
                &&& final(self).sequence_number == q2
                &&& actions.deep_view() == acts
            }),
    {
        let ghost s0 = self.state;
        let ghost q0 = self.sequence_number;
        let mut actions: Vec<ClientAction> = Vec::new();
        match (self.state, event) {
            (ClientState::Idle, ClientEvent::Started) => {
                self.state = ClientState::AwaitingChoice;
            },
            (ClientState::AwaitingChoice, ClientEvent::ChoseUpload { filename, contents }) => {
                let pdu = data_pdu(filename, contents, self.sequence_number);
                actions.push(ClientAction::SendPdu(pdu));
                self.inc_seq();
                self.state = ClientState::UploadAwaitingReply;
            },
            (ClientState::AwaitingChoice, ClientEvent::UploadReadFailed) => {
                actions.push(ClientAction::ReportReadFailure);
                self.state = ClientState::Terminated;
            },
            (ClientState::AwaitingChoice, ClientEvent::ChoseDownload { filename }) => {
                let pdu = download_request(filename, self.sequence_number);
                actions.push(ClientAction::SendPdu(pdu));
                self.inc_seq();
                self.state = ClientState::DownloadAwaitingReply;
            },
            (ClientState::AwaitingChoice, ClientEvent::ChoseExit) => {
                actions.push(ClientAction::CloseStream);
                self.state = ClientState::Terminated;
            },
            (ClientState::AwaitingChoice, ClientEvent::InvalidChoice) => {
                actions.push(ClientAction::ReportInvalidChoice);
            },
            (ClientState::UploadAwaitingReply, ClientEvent::ReplyReceived { bytes }) => {
                match decode(bytes.as_slice()) {
                    Err(_) => actions.push(ClientAction::ReportMalformedReply),
                    Ok(p) => match p.msg_type {
                        MessageType::Response => {
                            if p.data.len() == 0 {
                                actions.push(ClientAction::ReportUploadSuccess);
                            } else {
                                actions.push(ClientAction::ReportServerError { detail: p.data });
                            }
                        },
                        _ => actions.push(ClientAction::ReportUnexpectedReply),
                    },
                }
                self.state = ClientState::AwaitingChoice;
            },
            (ClientState::UploadAwaitingReply, ClientEvent::PeerClosed) => {
                self.state = ClientState::Terminated;
            },
            (ClientState::UploadAwaitingReply, ClientEvent::TransportFailed) => {
                actions.push(ClientAction::ReportTransportError);
                self.state = ClientState::Terminated;
            },
            (ClientState::DownloadAwaitingReply, ClientEvent::ReplyReceived { bytes }) => {
                match decode(bytes.as_slice()) {
                    Err(_) => actions.push(ClientAction::ReportMalformedReply),
                    Ok(p) => match p.msg_type {
                        MessageType::Data => {
                            if !verify(&p) {
                                actions.push(ClientAction::ReportCorruption);
                            } else if !filename_is_safe(&p.filename) {
                                actions.push(ClientAction::ReportUnsafeFilename);
                            } else {
                                actions.push(
                                    ClientAction::PersistFile { filename: p.filename, data: p.data },
                                );
                                actions.push(ClientAction::ReportDownloadSuccess);
                            }
                        },
                        MessageType::Response => {
                            if p.data.len() == 0 {
                                actions.push(ClientAction::ReportUnexpectedReply);
                            } else {
                                actions.push(ClientAction::ReportServerError { detail: p.data });
                            }
                        },
                        _ => actions.push(ClientAction::ReportUnexpectedReply),
                    },
                }
                self.state = ClientState::AwaitingChoice;
            },
            (ClientState::DownloadAwaitingReply, ClientEvent::PeerClosed) => {
                self.state = ClientState::Terminated;
            },
            (ClientState::DownloadAwaitingReply, ClientEvent::TransportFailed) => {
                actions.push(ClientAction::ReportTransportError);
                self.state = ClientState::Terminated;
            },
            _ => {},
        }
        proof {
            let (s2, q2, acts) = spec_client_step(s0, q0, event.deep_view());
            assert(actions.deep_view() =~= acts);
        }
        actions
    }
}

/// Law: the session assigns the counter's current value to every PDU it
/// sends and advances the counter exactly once per PDU sent: a step sends at
/// most one PDU, a step that sends carries the pre-step counter in the PDU
/// and increments it, and a step that sends nothing leaves it unchanged.
/// Together with [`ClientSession::new`], which starts the counter at zero,
/// this is the whole life of the sequence number: the receiver never reads
/// it.
pub proof fn lemma_counter_counts_sent_pdus(
    state: ClientState,
    sequence_number: u32,
    event: ClientEventView,
)
    ensures
        ({
            let (s2, q2, acts) = spec_client_step(state, sequence_number, event);
            &&& forall|i: int, j: int|
                0 <= i < acts.len() && 0 <= j < acts.len() && #[trigger] acts[i] is SendPdu
                    && #[trigger] acts[j] is SendPdu ==> i == j
            &&& forall|i: int|
                0 <= i < acts.len() && #[trigger] acts[i] is SendPdu ==> {
                    &&& acts[i]->SendPdu_0.sequence_number == sequence_number
                    &&& q2 == spec_inc_seq(sequence_number)
                }
            &&& (forall|i: int| 0 <= i < acts.len() ==> !(#[trigger] acts[i] is SendPdu)) ==> q2
                == sequence_number
        }),
{
    let (s2, q2, acts) = spec_client_step(state, sequence_number, event);
    match (state, event) {
        (ClientState::AwaitingChoice, ClientEventView::ChoseUpload { .. }) => {
            assert(acts[0] is SendPdu);
            assert(acts.len() == 1);
        },
        (ClientState::AwaitingChoice, ClientEventView::ChoseDownload { .. }) => {
            assert(acts[0] is SendPdu);
            assert(acts.len() == 1);
        },
        (ClientState::UploadAwaitingReply, ClientEventView::ReplyReceived { bytes }) => {
            assert forall|i: int| 0 <= i < acts.len() implies !(#[trigger] acts[i] is SendPdu) by {
                match spec_decode(bytes) {
                    None => {},
                    Some(p) => {
                        match p.msg_type {
                            MessageTypeView::Response => {},
                            _ => {},
                        }
                    },
                }
            }
        },
        (ClientState::DownloadAwaitingReply, ClientEventView::ReplyReceived { bytes }) => {
            assert forall|i: int| 0 <= i < acts.len() implies !(#[trigger] acts[i] is SendPdu) by {
                match spec_decode(bytes) {
                    None => {},
                    Some(p) => {
                        match p.msg_type {
                            MessageTypeView::Data => {},
                            MessageTypeView::Response => {},
                            _ => {},
                        }
                    },
                }
            }
        },
        _ => {},
    }
}

/// Law: a terminated session stays terminated and performs nothing, whatever
/// arrives.
pub proof fn lemma_terminated_is_absorbing(sequence_number: u32, event: ClientEventView)
    ensures
        spec_client_step(ClientState::Terminated, sequence_number, event) == (
            ClientState::Terminated,
            sequence_number,
            Seq::<ClientActionView>::empty(),
        ),
{
}

} // verus!
