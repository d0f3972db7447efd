use serveriot::engine::{
    can_mutate_node, can_view_node, find_hardware, validate_hardware_type, validate_node_payload,
    ValidationError,
};
use serveriot::hardwares::Hardware;
use serveriot::jwt::Claims;
use serveriot::nodes::{Node, NodePayload};

fn node(owner: i32, public: bool) -> Node {
    Node {
        id: 1,
        user_id: owner,
        hardware_id: 10,
        name: String::from("field-unit"),
        location: String::from("yard"),
        hardware_sensor_ids: vec![],
        hardware_sensor_names: vec![],
        ispublic: public,
    }
}

fn identity(user_id: i32, admin: bool) -> Claims {
    Claims { user_id, isadmin: admin, exp: 0 }
}

#[test]
fn visibility_truth_table() {
    // admin x owner x public, exhaustively
    for &admin in &[false, true] {
        for &owner in &[false, true] {
            for &public in &[false, true] {
                let id = identity(if owner { 7 } else { 8 }, admin);
                let n = node(7, public);
                assert_eq!(can_view_node(&id, &n), admin || owner || public);
                assert_eq!(can_mutate_node(&id, &n), admin || owner);
            }
        }
    }
}

#[test]
fn public_never_grants_write() {
    let id = identity(99, false);
    let n = node(7, true);
    assert!(can_view_node(&id, &n));
    assert!(!can_mutate_node(&id, &n));
}

fn hw(id: i32, type_: &str) -> Hardware {
    Hardware {
        id,
        name: format!("hw{}", id),
        type_: String::from(type_),
        description: String::new(),
    }
}

fn payload(board: i32, ids: Vec<i32>, names: Vec<&str>) -> NodePayload {
    NodePayload {
        hardware_id: board,
        name: String::from("n"),
        location: String::from("l"),
        hardware_sensor_ids: ids,
        hardware_sensor_names: names.into_iter().map(String::from).collect(),
        ispublic: false,
    }
}

fn catalog() -> Vec<Hardware> {
    vec![hw(1, "sensor"), hw(2, "microcontroller unit"), hw(3, "single-board computer")]
}

#[test]
fn valid_node_payload_accepted() {
    let p = payload(2, vec![1], vec!["temp"]);
    assert_eq!(validate_node_payload(&p, &catalog()), Ok(()));
}

#[test]
fn length_mismatch_rejected_regardless_of_content() {
    let p = payload(2, vec![1], vec!["temp", "hum"]);
    assert_eq!(
        validate_node_payload(&p, &catalog()),
        Err(ValidationError::SensorIdNameLengthMismatch)
    );
    // also with ids that do not even exist
    let p = payload(2, vec![42, 43, 44], vec![]);
    assert_eq!(
        validate_node_payload(&p, &catalog()),
        Err(ValidationError::SensorIdNameLengthMismatch)
    );
}

#[test]
fn sensor_board_rejected() {
    let p = payload(1, vec![], vec![]);
    assert_eq!(
        validate_node_payload(&p, &catalog()),
        Err(ValidationError::NodeHardwareCannotBeSensor)
    );
}

#[test]
fn missing_board_rejected() {
    let p = payload(9, vec![], vec![]);
    assert_eq!(validate_node_payload(&p, &catalog()), Err(ValidationError::HardwareNotFound));
}

#[test]
fn missing_sensor_rejected() {
    let p = payload(2, vec![9], vec!["x"]);
    assert_eq!(validate_node_payload(&p, &catalog()), Err(ValidationError::SensorNotFound));
}

#[test]
fn non_sensor_attachment_rejected() {
    let p = payload(2, vec![3], vec!["x"]);
    assert_eq!(validate_node_payload(&p, &catalog()), Err(ValidationError::SensorTypeNotValid));
}

#[test]
fn board_check_precedes_length_check() {
    // the first failing check is the reported one
    let p = payload(1, vec![1], vec!["a", "b"]);
    assert_eq!(
        validate_node_payload(&p, &catalog()),
        Err(ValidationError::NodeHardwareCannotBeSensor)
    );
}

#[test]
fn hardware_type_domain() {
    assert_eq!(validate_hardware_type("sensor"), Ok(()));
    assert_eq!(validate_hardware_type("single-board computer"), Ok(()));
    assert_eq!(validate_hardware_type("microcontroller unit"), Ok(()));
    assert_eq!(validate_hardware_type("Sensor"), Err(ValidationError::HardwareTypeNotValid));
    assert_eq!(validate_hardware_type(""), Err(ValidationError::HardwareTypeNotValid));
    assert_eq!(validate_hardware_type("sensor "), Err(ValidationError::HardwareTypeNotValid));
}

#[test]
fn find_hardware_returns_first_match() {
    let hws = vec![hw(5, "sensor"), hw(5, "microcontroller unit"), hw(6, "sensor")];
    assert_eq!(find_hardware(&hws, 5), Some(0));
    assert_eq!(find_hardware(&hws, 6), Some(2));
    assert_eq!(find_hardware(&hws, 7), None);
}

#[test]
fn validation_error_statuses() {
    assert_eq!(ValidationError::HardwareNotFound.status(), 404);
    assert_eq!(ValidationError::SensorNotFound.status(), 404);
    assert_eq!(ValidationError::NodeHardwareCannotBeSensor.status(), 400);
    assert_eq!(ValidationError::SensorIdNameLengthMismatch.status(), 400);
    assert_eq!(ValidationError::HardwareTypeNotValid.status(), 400);
    assert_eq!(ValidationError::NodeHardwareCannotBeSensor.message(), "Node hardware cannot be a sensor");
}
