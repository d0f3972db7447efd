use vstd::prelude::*;
use vstd::utf8::encode_utf8;
use crate::codec::json_data;
use crate::codec::json_string;
use crate::codec::lit;
use crate::codec::serialize_response;
use crate::codec::JsonData;
use crate::response::ApiResponse;
use crate::response::Data;

pub mod feeds;
pub mod hardwares;
pub mod nodes;
pub mod users;

verus! {

// The pooled data access layer, split at its suspension points: the
// functions here decide which parametrized statement to run and turn the
// rows or affected-row counts that come back into wire responses. The
// caller owns the pooled connection, executes each statement, and hands the
// outcome in as plain values.
/// A storage failure, reported distinctly from "not found". A unique
/// constraint violation is distinguished so that user creation can report a
/// conflict.
pub struct DbError {
    pub unique_violation: bool,
    pub message: String,
}

/// The envelope a response renders to: a message and a payload variant.
pub open spec fn envelope_msg<T: JsonData>(message: Seq<char>, data: Data<T>) -> Seq<u8> {
    lit("{\"message\":") + json_string(encode_utf8(message)) + lit(",\"data\":") + json_data(&data)
        + lit("}")
}

/// Renders a data-less envelope with the given message and status.
pub fn write_message_response<T: JsonData>(message: &str, status: u16, out: &mut Vec<u8>) -> (st:
    u16)
    ensures
        st == status,
        final(out)@ == envelope_msg::<T>(message@, Data::Empty),
{
    serialize_response::<T>(&(ApiResponse { message, data: Data::Empty }), status, out)
}

/// A storage failure surfaces as an internal error carrying the driver's
/// message.
pub fn storage_error_response<T: JsonData>(e: &DbError, out: &mut Vec<u8>) -> (st: u16)
    ensures
        st == 500,
        final(out)@ == envelope_msg::<T>(e.message@, Data::Empty),
{
    write_message_response::<T>(e.message.as_str(), 500, out)
}

} // verus!
