//! The server's per-stream handler: decode, validate and dispatch one
//! incoming PDU at a time, modelled as a state machine.
//!
//! Every protocol decision lives here. The program around the library runs
//! the loop per accepted stream: it receives bytes, performs each returned
//! action (write or read a file, send bytes), and hands the outcome back as
//! the next event. Every client request draws either the positive `Response`
//! or an explicit error reply; no failure is answered with silence.

use vstd::prelude::*;

use crate::checksum::{spec_checksum_ok, verify};
use crate::codec::{decode, spec_decode};
use crate::fname::{filename_is_safe, spec_filename_safe};
use crate::pdu::{
    data_pdu, error_reply, spec_data_pdu, spec_error_reply, spec_success_response,
    success_response, ERR_INTEGRITY, ERR_MALFORMED, ERR_STORAGE, ERR_UNSAFE_NAME,
    ERR_UNSUPPORTED,
};
use crate::pdu::{MessageType, MessageTypeView, PDU, PduView};

verus! {

/// Where the stream handler stands: ready for the next PDU, waiting for the
/// outcome of a file write or read it asked for, or done with this stream.
pub enum ServerState {
    Ready,
    AwaitingWrite,
    AwaitingRead { filename: String },
    Closed,
}

/// Ghost model of a [`ServerState`].
pub enum ServerStateView {
    Ready,
    AwaitingWrite,
    AwaitingRead { filename: Seq<char> },
    Closed,
}

impl View for ServerState {
    type V = ServerStateView;

    open spec fn view(&self) -> ServerStateView {
        match self {
            ServerState::Ready => ServerStateView::Ready,
            ServerState::AwaitingWrite => ServerStateView::AwaitingWrite,
            ServerState::AwaitingRead { filename } => ServerStateView::AwaitingRead {
                filename: filename@,
            },
            ServerState::Closed => ServerStateView::Closed,
        }
    }
}

/// What the outside world hands the stream handler: the bytes of one
/// received PDU, the outcome of a file operation it asked for, or a
/// transport-level signal.
pub enum ServerEvent {
    Received { bytes: Vec<u8> },
    WriteCompleted { ok: bool },
    ReadCompleted { contents: Option<Vec<u8>> },
    PeerClosed,
    TransportFailed,
}

/// Ghost model of a [`ServerEvent`].
pub enum ServerEventView {
    Received { bytes: Seq<u8> },
    WriteCompleted { ok: bool },
    ReadCompleted { contents: Option<Seq<u8>> },
    PeerClosed,
    TransportFailed,
}

impl DeepView for ServerEvent {
    type V = ServerEventView;

    open spec fn deep_view(&self) -> ServerEventView {
        match self {
            ServerEvent::Received { bytes } => ServerEventView::Received { bytes: bytes@ },
            ServerEvent::WriteCompleted { ok } => ServerEventView::WriteCompleted { ok: *ok },
            ServerEvent::ReadCompleted { contents } => ServerEventView::ReadCompleted {
                contents: match contents {
                    Some(d) => Some(d@),
                    None => None,
                },
            },
            ServerEvent::PeerClosed => ServerEventView::PeerClosed,
            ServerEvent::TransportFailed => ServerEventView::TransportFailed,
        }
    }
}

/// What the stream handler asks the outside world to do.
pub enum ServerAction {
    WriteFile { filename: String, data: Vec<u8> },
    ReadFile { filename: String },
    SendPdu(PDU),
    CloseStream,
}

/// Ghost model of a [`ServerAction`].
pub enum ServerActionView {
    WriteFile { filename: Seq<char>, data: Seq<u8> },
    ReadFile { filename: Seq<char> },
    SendPdu(PduView),
    CloseStream,
}

impl DeepView for ServerAction {
    type V = ServerActionView;

    open spec fn deep_view(&self) -> ServerActionView {
        match self {
            ServerAction::WriteFile { filename, data } => ServerActionView::WriteFile {
                filename: filename@,
                data: data@,
            },
            ServerAction::ReadFile { filename } => ServerActionView::ReadFile {
                filename: filename@,
            },
            ServerAction::SendPdu(pdu) => ServerActionView::SendPdu(pdu@),
            ServerAction::CloseStream => ServerActionView::CloseStream,
        }
    }
}

/// How the handler dispatches one received byte string while ready.
///
/// Bytes that are not one PDU draw an error reply and close the stream. A
/// `Data` PDU that passes the integrity check and carries a confined
/// filename starts the write of its payload; one that fails the integrity
/// check draws the explicit integrity error reply and is not written; one
/// whose filename would escape the storage directory draws the unsafe-name
/// error reply and is not written either. A `DownloadRequest` for a confined
/// name starts the read of that file. Any other message type draws the
/// unsupported-type error reply and closes the stream.
pub open spec fn spec_dispatch(bytes: Seq<u8>) -> (ServerStateView, Seq<ServerActionView>) {
    match spec_decode(bytes) {
        None => (
            ServerStateView::Closed,
            seq![
                ServerActionView::SendPdu(spec_error_reply(ERR_MALFORMED)),
                ServerActionView::CloseStream,
            ],
        ),
        Some(p) => match p.msg_type {
            MessageTypeView::Data => if !spec_checksum_ok(p) {
                (
                    ServerStateView::Ready,
                    seq![ServerActionView::SendPdu(spec_error_reply(ERR_INTEGRITY))],
                )
            } else if !spec_filename_safe(p.filename) {
                (
                    ServerStateView::Ready,
                    seq![ServerActionView::SendPdu(spec_error_reply(ERR_UNSAFE_NAME))],
                )
            } else {
                (
                    ServerStateView::AwaitingWrite,
                    seq![ServerActionView::WriteFile { filename: p.filename, data: p.data }],
                )
            },
            MessageTypeView::DownloadRequest(name) => if spec_filename_safe(name) {
                (
                    ServerStateView::AwaitingRead { filename: name },
                    seq![ServerActionView::ReadFile { filename: name }],
                )
            } else {
                (
                    ServerStateView::Ready,
                    seq![ServerActionView::SendPdu(spec_error_reply(ERR_UNSAFE_NAME))],
                )
            },
            _ => (
                ServerStateView::Closed,
                seq![
                    ServerActionView::SendPdu(spec_error_reply(ERR_UNSUPPORTED)),
                    ServerActionView::CloseStream,
                ],
            ),
        },
    }
}

/// The server stream-handler transition function: from state and event to
/// next state and the actions to perform, in order.
pub open spec fn spec_server_step(state: ServerStateView, event: ServerEventView) -> (
    ServerStateView,
    Seq<ServerActionView>,
) {
    match (state, event) {
        (ServerStateView::Ready, ServerEventView::Received { bytes }) => spec_dispatch(bytes),
        (ServerStateView::AwaitingWrite, ServerEventView::WriteCompleted { ok }) => if ok {
            (
                ServerStateView::Ready,
                seq![ServerActionView::SendPdu(spec_success_response())],
            )
        } else {
            (
                ServerStateView::Ready,
                seq![ServerActionView::SendPdu(spec_error_reply(ERR_STORAGE))],
            )
        },
        (
            ServerStateView::AwaitingRead { filename },
            ServerEventView::ReadCompleted { contents },
        ) => match contents {
            Some(d) => (
                ServerStateView::Ready,
                seq![
                    ServerActionView::SendPdu(spec_data_pdu(filename, d, 0)),
                    ServerActionView::SendPdu(spec_success_response()),
                ],
            ),
            None => (
                ServerStateView::Ready,
                seq![ServerActionView::SendPdu(spec_error_reply(ERR_STORAGE))],
            ),
        },
        (_, ServerEventView::PeerClosed) => (ServerStateView::Closed, Seq::empty()),
        (_, ServerEventView::TransportFailed) => (ServerStateView::Closed, Seq::empty()),
        _ => (state, Seq::empty()),
    }
}

/// One stream handler. Sibling streams get independent handlers: no state is
/// shared between them, so a failure on one stream cannot touch another.
pub struct StreamHandler {
    pub state: ServerState,
}

impl StreamHandler {
    /// A fresh handler for one just-accepted stream.
    pub fn new() -> (r: StreamHandler)
        ensures
            r.state@ == ServerStateView::Ready,
    {
        StreamHandler { state: ServerState::Ready }
    }

    /// Feeds one event to the handler and returns the actions to perform, in
    /// order, exactly as [`spec_server_step`] prescribes.
    pub fn step(&mut self, event: ServerEvent) -> (actions: Vec<ServerAction>)
        requires
            match event {
                ServerEvent::ReadCompleted { contents: Some(d) } => d@.len() <= u32::MAX,
                _ => true,
            },
        ensures
            ({
                let (s2, acts) = spec_server_step(old(self).state@, event.deep_view());
                &&& final(self).state@ == s2
                &&& actions.deep_view() == acts
            }),
    {
        let ghost s0 = self.state@;
        let mut actions: Vec<ServerAction> = Vec::new();
        let mut state = ServerState::Closed;
        core::mem::swap(&mut state, &mut self.state);
        match (state, event) {
            (ServerState::Ready, ServerEvent::Received { bytes }) => {
                match decode(bytes.as_slice()) {
                    Err(_) => {
                        actions.push(ServerAction::SendPdu(error_reply(ERR_MALFORMED)));
                        actions.push(ServerAction::CloseStream);
                        self.state = ServerState::Closed;
                    },
                    Ok(p) => match p.msg_type {
                        MessageType::Data => {
                            if !verify(&p) {
                                actions.push(ServerAction::SendPdu(error_reply(ERR_INTEGRITY)));
                                self.state = ServerState::Ready;
                            } else if !filename_is_safe(&p.filename) {
                                actions.push(ServerAction::SendPdu(error_reply(ERR_UNSAFE_NAME)));
                                self.state = ServerState::Ready;
                            } else {
                                actions.push(
                                    ServerAction::WriteFile { filename: p.filename, data: p.data },
                                );
                                self.state = ServerState::AwaitingWrite;
                            }
                        },
                        MessageType::DownloadRequest(name) => {
                            if filename_is_safe(&name) {
                                let request = ServerAction::ReadFile { filename: name.clone() };
                                actions.push(request);
                                self.state = ServerState::AwaitingRead { filename: name };
                            } else {
                                actions.push(ServerAction::SendPdu(error_reply(ERR_UNSAFE_NAME)));
                                self.state = ServerState::Ready;
                            }
                        },
                        _ => {
                            actions.push(ServerAction::SendPdu(error_reply(ERR_UNSUPPORTED)));
                            actions.push(ServerAction::CloseStream);
                            self.state = ServerState::Closed;
                        },
                    },
                }
            },
            (ServerState::AwaitingWrite, ServerEvent::WriteCompleted { ok }) => {
                if ok {
                    actions.push(ServerAction::SendPdu(success_response()));
                } else {
                    actions.push(ServerAction::SendPdu(error_reply(ERR_STORAGE)));
                }
                self.state = ServerState::Ready;
            },
            (
                ServerState::AwaitingRead { filename },
                ServerEvent::ReadCompleted { contents },
            ) => {
                match contents {
                    Some(d) => {
                        actions.push(ServerAction::SendPdu(data_pdu(filename, d, 0)));
                        actions.push(ServerAction::SendPdu(success_response()));
                    },
                    None => {
                        actions.push(ServerAction::SendPdu(error_reply(ERR_STORAGE)));
                    },
                }
                self.state = ServerState::Ready;
            },
            (_, ServerEvent::PeerClosed) => {
                self.state = ServerState::Closed;
            },
            (_, ServerEvent::TransportFailed) => {
                self.state = ServerState::Closed;
            },
            (other, _) => {
                self.state = other;
            },
        }
        proof {
            let (s2, acts) = spec_server_step(s0, event.deep_view());
            assert(actions.deep_view() =~= acts);
        }
        actions
    }
}

} // verus!
