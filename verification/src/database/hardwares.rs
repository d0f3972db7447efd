use vstd::prelude::*;
use crate::database::envelope_msg;
use crate::database::storage_error_response;
use crate::database::write_message_response;
use crate::database::DbError;
use crate::codec::serialize_response;
use crate::engine::validate_hardware_type;
use crate::engine::spec_valid_hardware_type;
use crate::hardwares::Hardware;
use crate::hardwares::HardwarePayload;
use crate::messages;
use crate::response::ApiResponse;
use crate::response::Data;

verus! {

// The hardware catalog operations. Reads are open to any authenticated
// identity; writes are admin-only, which the front-end enforces before the
// statements here run.
/// GET /hardwares/: the loaded catalog, or the storage failure.
pub fn get_all_hardware_response(rows: Result<Vec<Hardware>, DbError>, out: &mut Vec<u8>) -> (st:
    u16)
    ensures
        match rows {
            Ok(hws) => st == 200 && final(out)@ == envelope_msg(
                messages::OK@,
                Data::Multiple(hws),
            ),
            Err(e) => st == 500 && final(out)@ == envelope_msg::<Hardware>(
                e.message@,
                Data::Empty,
            ),
        },
{
    match rows {
        Ok(hws) => serialize_response(
            &(ApiResponse { message: messages::OK, data: Data::Multiple(hws) }),
            200,
            out,
        ),
        Err(e) => storage_error_response::<Hardware>(&e, out),
    }
}

/// GET /hardwares/{id}: the first returned row, or not-found when the
/// statement matched nothing.
pub fn get_one_hardware_response(rows: Result<Vec<Hardware>, DbError>, out: &mut Vec<u8>) -> (st:
    u16)
    ensures
        match rows {
            Ok(hws) => if hws@.len() == 0 {
                st == 404 && final(out)@ == envelope_msg::<Hardware>(
                    messages::HARDWARE_NOT_FOUND@,
                    Data::Empty,
                )
            } else {
                st == 200 && final(out)@ == envelope_msg(messages::OK@, Data::Single(hws@[0]))
            },
            Err(e) => st == 500 && final(out)@ == envelope_msg::<Hardware>(
                e.message@,
                Data::Empty,
            ),
        },
{
    match rows {
        Ok(mut hws) => {
            if hws.len() == 0 {
                write_message_response::<Hardware>(messages::HARDWARE_NOT_FOUND, 404, out)
            } else {
                let hw = hws.remove(0);
                serialize_response(
                    &(ApiResponse { message: messages::OK, data: Data::Single(hw) }),
                    200,
                    out,
                )
            }
        },
        Err(e) => storage_error_response::<Hardware>(&e, out),
    }
}

/// Decides POST /hardwares/: a missing or undecodable body is refused, as
/// is a type outside the fixed domain; otherwise the insert may run.
pub fn add_hardware_begin(payload: Option<&HardwarePayload>, out: &mut Vec<u8>) -> (r: Result<
    (),
    u16,
>)
    ensures
        match payload {
            None => r == Err::<(), u16>(400) && final(out)@ == envelope_msg::<Hardware>(
                messages::INVALID_PAYLOAD@,
                Data::Empty,
            ),
            Some(p) => if spec_valid_hardware_type(p.type_@) {
                r == Ok::<(), u16>(()) && final(out)@ == old(out)@
            } else {
                r == Err::<(), u16>(400) && final(out)@ == envelope_msg::<Hardware>(
                    messages::HARDWARE_TYPE_NOT_VALID@,
                    Data::Empty,
                )
            },
        },
{
    let p = match payload {
        Some(p) => p,
        None => {
            let st = write_message_response::<Hardware>(messages::INVALID_PAYLOAD, 400, out);
            return Err(st);
        },
    };
    match validate_hardware_type(p.type_.as_str()) {
        Ok(()) => Ok(()),
        Err(e) => {
            let st = write_message_response::<Hardware>(e.message(), e.status(), out);
            return Err(st);
        },
    }
}

/// Interprets the insert's outcome: created, or the storage failure.
pub fn add_hardware_finish(result: Result<u64, DbError>, out: &mut Vec<u8>) -> (st: u16)
    ensures
        match result {
            Ok(_) => st == 201 && final(out)@ == envelope_msg::<HardwarePayload>(
                messages::CREATED@,
                Data::Empty,
            ),
            Err(e) => st == 500 && final(out)@ == envelope_msg::<HardwarePayload>(
                e.message@,
                Data::Empty,
            ),
        },
{
    match result {
        Ok(_) => write_message_response::<HardwarePayload>(messages::CREATED, 201, out),
        Err(e) => storage_error_response::<HardwarePayload>(&e, out),
    }
}

/// Decides PUT /hardwares/{id}: the same payload checks as creation; the
/// type domain is immutable, so an invalid type is rejected on update too.
pub fn update_hardware_begin(payload: Option<&HardwarePayload>, out: &mut Vec<u8>) -> (r: Result<
    (),
    u16,
>)
    ensures
        match payload {
            None => r == Err::<(), u16>(400) && final(out)@ == envelope_msg::<Hardware>(
                messages::INVALID_PAYLOAD@,
                Data::Empty,
            ),
            Some(p) => if spec_valid_hardware_type(p.type_@) {
                r == Ok::<(), u16>(()) && final(out)@ == old(out)@
            } else {
                r == Err::<(), u16>(400) && final(out)@ == envelope_msg::<Hardware>(
                    messages::HARDWARE_TYPE_NOT_VALID@,
                    Data::Empty,
                )
            },
        },
{
    add_hardware_begin(payload, out)
}

/// Interprets the ownership-free update: zero affected rows means the id
/// matched nothing.
pub fn update_hardware_finish(result: Result<u64, DbError>, out: &mut Vec<u8>) -> (st: u16)
    ensures
        match result {
            Ok(n) => if n == 0 {
                st == 404 && final(out)@ == envelope_msg::<Hardware>(
                    messages::HARDWARE_NOT_FOUND@,
                    Data::Empty,
                )
            } else {
                st == 200 && final(out)@ == envelope_msg::<Hardware>(messages::OK@, Data::Empty)
            },
            Err(e) => st == 500 && final(out)@ == envelope_msg::<Hardware>(
                e.message@,
                Data::Empty,
            ),
        },
{
    match result {
        Ok(n) => {
            if n == 0 {
                write_message_response::<Hardware>(messages::HARDWARE_NOT_FOUND, 404, out)
            } else {
                write_message_response::<Hardware>(messages::OK, 200, out)
            }
        },
        Err(e) => storage_error_response::<Hardware>(&e, out),
    }
}

/// Interprets DELETE /hardwares/{id}: deletion of an absent id still reads
/// as success, matching the statement's semantics.
pub fn delete_hardware_finish(result: Result<u64, DbError>, out: &mut Vec<u8>) -> (st: u16)
    ensures
        match result {
            Ok(_) => st == 200 && final(out)@ == envelope_msg::<Hardware>(
                messages::OK@,
                Data::Empty,
            ),
            Err(e) => st == 500 && final(out)@ == envelope_msg::<Hardware>(
                e.message@,
                Data::Empty,
            ),
        },
{
    match result {
        Ok(_) => write_message_response::<Hardware>(messages::OK, 200, out),
        Err(e) => storage_error_response::<Hardware>(&e, out),
    }
}

} // verus!
