//! Payloads exchanged with clients: status, error and raw byte messages,
//! each tagged with a short identifier.
use vstd::prelude::*;
use crate::random::{is_ascii_alphanumeric, random_alphanumeric};

verus! {

/// Length of a message identifier.
pub const PZA_ID_LENGTH: usize = 5;

/// Whether `id` has the shape of a generated identifier.
pub open spec fn is_pza_id(id: Seq<char>) -> bool {
    id.len() == PZA_ID_LENGTH && forall|i: int| 0 <= i < id.len() ==> is_ascii_alphanumeric(#[trigger] id[i])
}

/// A fresh random identifier of five letters and digits.
pub fn generate_pza_id() -> (r: String)
    ensures
        is_pza_id(r@),
{
    random_alphanumeric(PZA_ID_LENGTH)
}

/// The state of a device instance.
#[derive(PartialEq, Eq, Structural, Clone, Copy, Debug)]
pub enum Status {
    /// Starting up.
    Initializing,
    /// Operational.
    Running,
    /// Hit a critical error.
    Panicking,
}

/// The status of an instance, with the panic message when it panicked.
#[derive(Debug, Clone)]
pub struct StatusPayload {
    /// On a command the client generates it; on a response the server
    /// echoes it.
    pub pza_id: String,
    pub status: Status,
    pub panic_message: Option<String>,
}

impl StatusPayload {
    /// A status with a fresh identifier and no panic message.
    pub fn from_status(status: Status) -> (r: StatusPayload)
        ensures
            r.status == status,
            r.panic_message is None,
            is_pza_id(r.pza_id@),
    {
        StatusPayload { pza_id: generate_pza_id(), status, panic_message: None }
    }

    /// The same status with `message` as its panic message.
    pub fn with_panic_message(self, message: String) -> (r: StatusPayload)
        ensures
            r.pza_id == self.pza_id,
            r.status == self.status,
            r.panic_message == Some(message),
    {
        StatusPayload { panic_message: Some(message), ..self }
    }
}

/// An error report.
#[derive(Debug, Clone)]
pub struct ErrorPayload {
    /// On a command the client generates it; on a response the server
    /// echoes it.
    pub pza_id: String,
    pub message: String,
}

impl ErrorPayload {
    /// An error with a fresh identifier.
    pub fn from_message(message: String) -> (r: ErrorPayload)
        ensures
            r.message == message,
            is_pza_id(r.pza_id@),
    {
        ErrorPayload { pza_id: generate_pza_id(), message }
    }

    /// An error that answers the command tagged `pza_id`.
    pub fn from_message_as_response(message: String, pza_id: String) -> (r: ErrorPayload)
        ensures
            r.message == message,
            r.pza_id == pza_id,
    {
        ErrorPayload { pza_id, message }
    }
}

/// Raw bytes to or from a serial port.
#[derive(Debug, Clone)]
pub struct BytesPayload {
    pub pza_id: String,
    pub data: Vec<u8>,
}

impl BytesPayload {
    /// The bytes `data` with a fresh identifier.
    pub fn from_data(data: Vec<u8>) -> (r: BytesPayload)
        ensures
            r.data@ == data@,
            is_pza_id(r.pza_id@),
    {
        BytesPayload { pza_id: generate_pza_id(), data }
    }
}

} // verus!
