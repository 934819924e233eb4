//! Statuses that a gRPC stream can end with.

use vstd::prelude::*;

verus! {

/// The code of a gRPC status that reports an internal error.
pub const INTERNAL_CODE: i32 = 13;

/// A gRPC status: its numeric code and its message.
pub struct Status {
    pub code: i32,
    pub message: String,
}

/// What a [`Status`] says.
pub struct StatusView {
    pub code: int,
    pub message: Seq<char>,
}

impl View for Status {
    type V = StatusView;

    open spec fn view(&self) -> StatusView {
        StatusView { code: self.code as int, message: self.message@ }
    }
}

/// The status that reports an internal error with `message`.
pub open spec fn internal_status(message: Seq<char>) -> StatusView {
    StatusView { code: INTERNAL_CODE as int, message }
}

/// Calls `tonic::Status::internal`, and reads the code and the message back
/// with `tonic::Status::code` and `tonic::Status::message`: the code is the one
/// of an internal error, and the message is the one handed in.
#[verifier::external_body]
fn tonic_internal(message: String) -> (parts: (i32, String))
    ensures
        parts.0 == INTERNAL_CODE,
        parts.1@ == message@,
{
    let status = tonic::Status::internal(message);
    (i32::from(status.code()), status.message().to_string())
}

impl Status {
    /// An internal error with the given message.
    pub fn internal(message: String) -> (status: Status)
        ensures
            status@ == internal_status(message@),
    {
        let (code, message) = tonic_internal(message);
        Status { code, message }
    }
}

} // verus!
