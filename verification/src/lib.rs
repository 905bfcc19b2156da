//! An application-level file-transfer protocol spoken over a reliable,
//! ordered, multiplexed stream transport.
//!
//! The library holds the protocol itself: the message (PDU) model with its
//! self-describing binary encoding, the checksum-based integrity check, the
//! client session state machine, and the server's per-stream dispatch logic.
//! Establishing the underlying transport and touching the file system are
//! left to the program around the library, which drives the state machines
//! and performs the actions they return.

pub mod checksum;
pub mod codec;
pub mod dispatch;
pub mod echo;
pub mod fname;
pub mod laws;
pub mod pdu;
pub mod session;

pub use pdu::MessageType;
pub use pdu::PDU;
