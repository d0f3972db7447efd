use vstd::prelude::*;
use crate::hardwares::Hardware;
use crate::jwt::Claims;
use crate::messages;
use crate::nodes::NodePayload;
use crate::nodes::Node;
use crate::strings::str_eq;

verus! {

// The ownership and validation engine: pure decision logic over loaded
// entities, shared by the HTTP and MQTT front-ends so that authorization
// behaves identically regardless of transport.
/// A node and its feeds are visible to an identity iff the identity is
/// admin, or owns the node, or the node is public.
pub open spec fn spec_can_view_node(identity: Claims, node: Node) -> bool {
    identity.isadmin || identity.user_id == node.user_id || node.ispublic
}

pub fn can_view_node(identity: &Claims, node: &Node) -> (r: bool)
    ensures
        r == spec_can_view_node(*identity, *node),
{
    identity.isadmin || identity.user_id == node.user_id || node.ispublic
}

/// Mutation is permitted only to admin or the owning identity; public
/// visibility never grants write access.
pub open spec fn spec_can_mutate_node(identity: Claims, node: Node) -> bool {
    identity.isadmin || identity.user_id == node.user_id
}

pub fn can_mutate_node(identity: &Claims, node: &Node) -> (r: bool)
    ensures
        r == spec_can_mutate_node(*identity, *node),
{
    identity.isadmin || identity.user_id == node.user_id
}

/// Structural failures of a node or hardware payload, surfaced in the order
/// the checks run: callers report the first failing check.
#[derive(Clone, Copy, PartialEq, Eq, Structural, Debug)]
pub enum ValidationError {
    InvalidPayload,
    HardwareTypeNotValid,
    SensorIdNameLengthMismatch,
    SensorNotFound,
    SensorTypeNotValid,
    NodeHardwareCannotBeSensor,
    HardwareNotFound,
}

impl ValidationError {
    pub open spec fn spec_message(&self) -> &'static str {
        match self {
            ValidationError::InvalidPayload => messages::INVALID_PAYLOAD,
            ValidationError::HardwareTypeNotValid => messages::HARDWARE_TYPE_NOT_VALID,
            ValidationError::SensorIdNameLengthMismatch => messages::SENSOR_ID_AND_SENSOR_NAME_MUST_HAVE_SAME_LENGTH,
            ValidationError::SensorNotFound => messages::SENSOR_NOT_FOUND,
            ValidationError::SensorTypeNotValid => messages::SENSOR_TYPE_NOT_VALID,
            ValidationError::NodeHardwareCannotBeSensor => messages::NODE_HARDWARE_CANNOT_BE_SENSOR,
            ValidationError::HardwareNotFound => messages::HARDWARE_NOT_FOUND,
        }
    }

    pub fn message(&self) -> (r: &'static str)
        ensures
            r == self.spec_message(),
    {
        match self {
            ValidationError::InvalidPayload => messages::INVALID_PAYLOAD,
            ValidationError::HardwareTypeNotValid => messages::HARDWARE_TYPE_NOT_VALID,
            ValidationError::SensorIdNameLengthMismatch => messages::SENSOR_ID_AND_SENSOR_NAME_MUST_HAVE_SAME_LENGTH,
            ValidationError::SensorNotFound => messages::SENSOR_NOT_FOUND,
            ValidationError::SensorTypeNotValid => messages::SENSOR_TYPE_NOT_VALID,
            ValidationError::NodeHardwareCannotBeSensor => messages::NODE_HARDWARE_CANNOT_BE_SENSOR,
            ValidationError::HardwareNotFound => messages::HARDWARE_NOT_FOUND,
        }
    }

    /// Absent referenced hardware reads as not-found; every other failure is
    /// a bad request.
    pub open spec fn spec_status(&self) -> u16 {
        match self {
            ValidationError::SensorNotFound => 404,
            ValidationError::HardwareNotFound => 404,
            _ => 400,
        }
    }

    pub fn status(&self) -> (r: u16)
        ensures
            r == self.spec_status(),
    {
        match self {
            ValidationError::SensorNotFound => 404,
            ValidationError::HardwareNotFound => 404,
            _ => 400,
        }
    }
}

/// First catalog entry with the given id, scanning from index `i`.
pub open spec fn spec_find_hardware_from(s: Seq<Hardware>, id: i32, i: int) -> Option<Hardware>
    decreases s.len() - i,
{
    if i < 0 || i >= s.len() {
        None
    } else if s[i].id == id {
        Some(s[i])
    } else {
        spec_find_hardware_from(s, id, i + 1)
    }
}

/// First catalog entry with the given id, if any.
pub open spec fn spec_find_hardware(s: Seq<Hardware>, id: i32) -> Option<Hardware> {
    spec_find_hardware_from(s, id, 0)
}

/// Index of the first catalog entry with the given id.
pub fn find_hardware(hardwares: &Vec<Hardware>, id: i32) -> (r: Option<usize>)
    ensures
        match r {
            Some(k) => k < hardwares@.len() && spec_find_hardware(hardwares@, id) == Some(
                hardwares@[k as int],
            ),
            None => spec_find_hardware(hardwares@, id) is None,
        },
{
    let n = hardwares.len();
    let mut i: usize = 0;
    while i < n
        invariant
            n == hardwares@.len(),
            0 <= i <= n,
            spec_find_hardware_from(hardwares@, id, i as int) == spec_find_hardware(
                hardwares@,
                id,
            ),
        decreases n - i,
    {
        if hardwares[i].id == id {
            return Some(i);
        }
        i = i + 1;
    }
    None
}

/// The hardware type domain is immutable: exactly these three names.
pub open spec fn spec_valid_hardware_type(t: Seq<char>) -> bool {
    t == "sensor"@ || t == "single-board computer"@ || t == "microcontroller unit"@
}

/// Accepts exactly the three allowed hardware type names.
pub fn validate_hardware_type(type_string: &str) -> (r: Result<(), ValidationError>)
    ensures
        r is Ok <==> spec_valid_hardware_type(type_string@),
        r is Err ==> r->Err_0 == ValidationError::HardwareTypeNotValid,
{
    if str_eq(type_string, "sensor") || str_eq(type_string, "single-board computer") || str_eq(
        type_string,
        "microcontroller unit",
    ) {
        Ok(())
    } else {
        Err(ValidationError::HardwareTypeNotValid)
    }
}

/// Checks the attached sensors from index `i` on: each id must resolve to
/// catalog hardware of type exactly `sensor`.
pub open spec fn spec_validate_sensors(ids: Seq<i32>, hws: Seq<Hardware>, i: int) -> Result<
    (),
    ValidationError,
>
    decreases ids.len() - i,
{
    if i < 0 || i >= ids.len() {
        Ok(())
    } else {
        match spec_find_hardware(hws, ids[i]) {
            Option::None => Err(ValidationError::SensorNotFound),
            Option::Some(h) => if h.type_@ != "sensor"@ {
                Err(ValidationError::SensorTypeNotValid)
            } else {
                spec_validate_sensors(ids, hws, i + 1)
            },
        }
    }
}

/// The structural checks on a node payload, in order: the board must exist,
/// must not itself be a sensor, the id and name vectors must pair up, and
/// every attached id must resolve to a sensor. The first failing check is
/// the reported one.
pub open spec fn spec_validate_node_payload(p: NodePayload, hws: Seq<Hardware>) -> Result<
    (),
    ValidationError,
> {
    match spec_find_hardware(hws, p.hardware_id) {
        Option::None => Err(ValidationError::HardwareNotFound),
        Option::Some(h) => if h.type_@ == "sensor"@ {
            Err(ValidationError::NodeHardwareCannotBeSensor)
        } else if p.hardware_sensor_ids@.len() != p.hardware_sensor_names@.len() {
            Err(ValidationError::SensorIdNameLengthMismatch)
        } else {
            spec_validate_sensors(p.hardware_sensor_ids@, hws, 0)
        },
    }
}

/// Validates a node payload against the loaded hardware catalog.
pub fn validate_node_payload(payload: &NodePayload, hardwares: &Vec<Hardware>) -> (r: Result<
    (),
    ValidationError,
>)
    ensures
        r == spec_validate_node_payload(*payload, hardwares@),
{
    let board = match find_hardware(hardwares, payload.hardware_id) {
        Some(k) => k,
        None => {
            return Err(ValidationError::HardwareNotFound);
        },
    };
    if str_eq(hardwares[board].type_.as_str(), "sensor") {
        return Err(ValidationError::NodeHardwareCannotBeSensor);
    }
    if payload.hardware_sensor_ids.len() != payload.hardware_sensor_names.len() {
        return Err(ValidationError::SensorIdNameLengthMismatch);
    }
    let n = payload.hardware_sensor_ids.len();
    let mut i: usize = 0;
    while i < n
        invariant
            n == payload.hardware_sensor_ids@.len(),
            0 <= i <= n,
            spec_validate_sensors(payload.hardware_sensor_ids@, hardwares@, i as int)
                == spec_validate_node_payload(*payload, hardwares@),
        decreases n - i,
    {
        let id = payload.hardware_sensor_ids[i];
        match find_hardware(hardwares, id) {
            None => {
                return Err(ValidationError::SensorNotFound);
            },
            Some(k) => {
                if !str_eq(hardwares[k].type_.as_str(), "sensor") {
                    return Err(ValidationError::SensorTypeNotValid);
                }
            },
        }
        i = i + 1;
    }
    Ok(())
}

/// Whenever the sensor id and sensor name vectors disagree in length, the
/// payload is rejected, regardless of any other content.
pub proof fn lemma_length_mismatch_always_rejected(p: NodePayload, hws: Seq<Hardware>)
    requires
        p.hardware_sensor_ids@.len() != p.hardware_sensor_names@.len(),
    ensures
        spec_validate_node_payload(p, hws) is Err,
{
}

/// A payload whose board resolves to hardware of type `sensor` always fails
/// with exactly `NodeHardwareCannotBeSensor`.
pub proof fn lemma_sensor_board_always_rejected(p: NodePayload, hws: Seq<Hardware>, h: Hardware)
    requires
        spec_find_hardware(hws, p.hardware_id) == Some(h),
        h.type_@ == "sensor"@,
    ensures
        spec_validate_node_payload(p, hws) == Err::<(), ValidationError>(
            ValidationError::NodeHardwareCannotBeSensor,
        ),
{
}

} // verus!
