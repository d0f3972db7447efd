use vstd::prelude::*;

verus! {

// Wire messages of the standard response envelope. Auth and validation
// failures return their specific, non-sensitive message verbatim; storage
// failures are reported with a generic message alongside the detail.
pub const OK: &'static str = "ok";
pub const CREATED: &'static str = "Created";
pub const NOT_FOUND: &'static str = "Not found";
pub const INTERNAL_SERVER_ERROR: &'static str = "Internal Server Error";
pub const INVALID_PAYLOAD: &'static str = "Invalid payload";

pub const UNAUTHORIZED: &'static str = "Unauthorized";
pub const UNAUTHENTICATED: &'static str = "Unauthenticated";
pub const TOKEN_EXPIRED: &'static str = "Token has expired";
pub const INVALID_TOKEN: &'static str = "Invalid token";

pub const USER_NOT_FOUND: &'static str = "User not found";
pub const USER_EXISTS: &'static str = "Username already exist";
pub const LOGIN_FAILED: &'static str = "Wrong username or password, please try again";
pub const ACCOUNT_NOT_ACTIVATED: &'static str = "Account is not activated";

pub const HARDWARE_NOT_FOUND: &'static str = "Hardware not found";
pub const HARDWARE_TYPE_NOT_VALID: &'static str = "Hardware type not valid";

pub const NODE_NOT_FOUND: &'static str = "Node not found";
pub const NODE_HARDWARE_CANNOT_BE_SENSOR: &'static str = "Node hardware cannot be a sensor";
pub const SENSOR_NOT_FOUND: &'static str = "Sensor not found";
pub const SENSOR_TYPE_NOT_VALID: &'static str = "Sensor type not valid";
pub const SENSOR_ID_AND_SENSOR_NAME_MUST_HAVE_SAME_LENGTH: &'static str =
    "Sensor ids and sensor names must have same length";

} // verus!
