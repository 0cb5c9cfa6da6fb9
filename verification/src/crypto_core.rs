//! The boundary to the external cryptographic core.
//!
//! The core supplies, per suite, the OPRF evaluation, the authenticated key
//! exchange, password hardening and the binary layout of every protocol
//! value. This library never runs it: each protocol step returns a call
//! description naming the exact inputs the core must be invoked with, and a
//! companion function takes the core's reply. These are the reply shapes.
//! A reply is always `Result<_, CoreFault>`: a fault stands for any
//! cryptographic verification failure inside the core and carries nothing,
//! so that no detail of which check failed can leak through this layer.

use vstd::prelude::*;

verus! {

/// A cryptographic verification failure inside the external core. Opaque by
/// design: malformed message, failed proof, wrong group element and wrong
/// password all look the same here.
#[derive(Clone, Copy, Debug)]
pub struct CoreFault;

/// The core's reply to a `start` operation: the protocol message to send to
/// the peer, and the serialized ephemeral state to finish with later.
#[derive(Debug)]
pub struct CoreStarted {
    pub message: Vec<u8>,
    pub state: Vec<u8>,
}

/// The core's reply to the server registration-start operation: the
/// registration response message for the client.
#[derive(Debug)]
pub struct CoreResponse {
    pub message: Vec<u8>,
}

/// The core's reply to the client registration-finish operation: the upload
/// message for the server, and the export key derived alongside it.
#[derive(Debug)]
pub struct CoreRegistrationFinished {
    pub upload: Vec<u8>,
    pub export_key: Vec<u8>,
}

/// The core's reply to the server registration-finish operation: the
/// serialized per-account password file.
#[derive(Debug)]
pub struct CoreRecord {
    pub record: Vec<u8>,
}

/// The core's reply to the client login-finish operation.
#[derive(Debug)]
pub struct CoreLoginFinished {
    pub message: Vec<u8>,
    pub session_key: Vec<u8>,
    pub export_key: Vec<u8>,
    pub server_public_key: Vec<u8>,
}

/// The core's reply to the server login-finish operation: the shared
/// session key.
#[derive(Debug)]
pub struct CoreSessionKey {
    pub session_key: Vec<u8>,
}

} // verus!
