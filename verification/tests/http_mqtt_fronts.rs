use serveriot::crypto::sign_claims;
use serveriot::error::ServiceError;
use serveriot::feeds::{FeedPayload, FeedValue};
use serveriot::http::{
    extract_id_from_path, extract_jwt_from_path, handle_bad_request,
    handle_not_authenticated_with_message, handle_not_authorized, handle_not_found, route_of,
    Method, Route,
};
use serveriot::mqtt::{handle_handshake, handle_publish, MySession};

const SECRET: &[u8] = b"node-secret";
const NOW: i64 = 1700000000;

fn body(out: Vec<u8>) -> String {
    String::from_utf8(out).unwrap()
}

#[test]
fn routing_table() {
    assert_eq!(route_of("/users/", Method::Get), Route::GetUsers);
    assert_eq!(route_of("/users/signup/", Method::Post), Route::PostSignup);
    assert_eq!(route_of("/users/login/", Method::Post), Route::PostLogin);
    assert_eq!(route_of("/users/forgot-password/", Method::Post), Route::ForgotPassword);
    assert_eq!(route_of("/users/change-password/", Method::Put), Route::ChangePassword);
    assert_eq!(route_of("/users/5/", Method::Get), Route::GetUserById);
    assert_eq!(route_of("/users/5/", Method::Delete), Route::NotFound);
    assert_eq!(route_of("/activate/abc/", Method::Get), Route::ActivateUser);
    assert_eq!(route_of("/hardwares/", Method::Get), Route::GetHardwares);
    assert_eq!(route_of("/hardwares/", Method::Post), Route::PostHardwares);
    assert_eq!(route_of("/hardwares/3/", Method::Get), Route::GetHardwareById);
    assert_eq!(route_of("/hardwares/3/", Method::Put), Route::UpdateHardware);
    assert_eq!(route_of("/hardwares/3/", Method::Delete), Route::DeleteHardware);
    assert_eq!(route_of("/hardwares/3/", Method::Post), Route::NotFound);
    assert_eq!(route_of("/nodes/", Method::Get), Route::GetNodes);
    assert_eq!(route_of("/nodes/", Method::Post), Route::PostNodes);
    assert_eq!(route_of("/nodes/8/", Method::Get), Route::GetNodeById);
    assert_eq!(route_of("/nodes/8/", Method::Put), Route::UpdateNode);
    assert_eq!(route_of("/nodes/8/", Method::Delete), Route::DeleteNode);
    assert_eq!(route_of("/channel/", Method::Post), Route::AddFeed);
    assert_eq!(route_of("/channel/", Method::Get), Route::NotFound);
    assert_eq!(route_of("/", Method::Get), Route::NotFound);
    assert_eq!(route_of("/usersx/", Method::Get), Route::NotFound);
    // exact routes win over the prefix fallback
    assert_eq!(route_of("/users/signup/", Method::Get), Route::GetUserById);
}

#[test]
fn id_extraction() {
    assert_eq!(extract_id_from_path("/nodes/42/", "/nodes/"), Some(42));
    assert_eq!(extract_id_from_path("/nodes/0/", "/nodes/"), Some(0));
    assert_eq!(extract_id_from_path("/nodes/-7/", "/nodes/"), Some(-7));
    assert_eq!(extract_id_from_path("/nodes/+8/", "/nodes/"), Some(8));
    assert_eq!(extract_id_from_path("/nodes/007/", "/nodes/"), Some(7));
    assert_eq!(extract_id_from_path("/nodes/2147483647/", "/nodes/"), Some(i32::MAX));
    assert_eq!(extract_id_from_path("/nodes/-2147483648/", "/nodes/"), Some(i32::MIN));
    assert_eq!(extract_id_from_path("/nodes/2147483648/", "/nodes/"), None);
    assert_eq!(extract_id_from_path("/nodes/99999999999999999999/", "/nodes/"), None);
    assert_eq!(extract_id_from_path("/nodes/42", "/nodes/"), None);
    assert_eq!(extract_id_from_path("/nodes//", "/nodes/"), None);
    assert_eq!(extract_id_from_path("/nodes/4 2/", "/nodes/"), None);
    assert_eq!(extract_id_from_path("/nodes/abc/", "/nodes/"), None);
    assert_eq!(extract_id_from_path("/hardwares/5/", "/nodes/"), None);
    assert_eq!(extract_id_from_path("/nodes/", "/nodes/"), None);
}

#[test]
fn terminal_responses() {
    let mut out = Vec::new();
    assert_eq!(handle_not_found(&mut out), 404);
    assert_eq!(body(out), "{\"message\":\"Not found\",\"data\":null}");

    let mut out = Vec::new();
    assert_eq!(handle_not_authorized(&mut out), 403);
    assert_eq!(body(out), "{\"message\":\"Unauthorized\",\"data\":null}");

    let mut out = Vec::new();
    assert_eq!(handle_bad_request(&mut out), 400);
    assert_eq!(body(out), "{\"message\":\"Invalid payload\",\"data\":null}");

    let mut out = Vec::new();
    assert_eq!(handle_not_authenticated_with_message("Token has expired", &mut out), 401);
    assert_eq!(body(out), "{\"message\":\"Token has expired\",\"data\":null}");
}

#[test]
fn service_error_mapping() {
    let e = ServiceError::Forbidden { error_message: "Unauthorized" };
    assert_eq!(e.status(), 403);
    assert_eq!(e.message(), "Unauthorized");
    assert_eq!(ServiceError::BadRequest { error_message: "x" }.status(), 400);
    assert_eq!(ServiceError::Unauthorized { error_message: "x" }.status(), 401);
    assert_eq!(ServiceError::NotFound { error_message: "x" }.status(), 404);
    assert_eq!(ServiceError::InternalServerError { error_message: "x" }.status(), 500);
}

#[test]
fn mqtt_connect_refuses_expired_token() {
    let stale = sign_claims(6, false, NOW - 1, SECRET);
    assert!(handle_handshake(Some(&stale), SECRET, NOW).is_err());
    assert!(handle_handshake(None, SECRET, NOW).is_err());
    assert!(handle_handshake(Some("garbage"), SECRET, NOW).is_err());
}

#[test]
fn mqtt_connect_binds_identity() {
    let token = sign_claims(6, false, NOW + 60, SECRET);
    let session = handle_handshake(Some(&token), SECRET, NOW).unwrap();
    assert_eq!(session, MySession { user_id: 6 });
}

#[test]
fn mqtt_publish_paths() {
    let session = MySession { user_id: 6 };
    let good = FeedPayload { node_id: 99, value: vec![FeedValue::new(String::from("3.5")).unwrap()] };

    // a malformed payload is dropped: no insert, and deciding is not an error
    assert!(handle_publish("channel", None, &session).is_none());
    // a foreign topic is ignored
    let other = FeedPayload { node_id: 99, value: vec![] };
    assert!(handle_publish("metrics", Some(other), &session).is_none());

    // the session identity, not the payload, names the target node
    let ins = handle_publish("channel", Some(good), &session).unwrap();
    assert_eq!(ins.node_id, 6);
    assert_eq!(ins.value.len(), 1);
    assert_eq!(ins.value[0].as_str(), "3.5");
}

#[test]
fn jwt_extraction_and_error_rendering() {
    assert_eq!(extract_jwt_from_path("/activate/ab.cd.ef/", "/activate/"), Some("ab.cd.ef"));
    assert_eq!(extract_jwt_from_path("/activate/ab.cd.ef", "/activate/"), None);
    assert_eq!(extract_jwt_from_path("/activate/", "/activate/"), None);
    assert_eq!(extract_jwt_from_path("/other/x/", "/activate/"), None);

    let e = ServiceError::NotFound { error_message: "User not found" };
    let mut out = Vec::new();
    assert_eq!(e.respond(&mut out), 404);
    assert_eq!(body(out), "{\"message\":\"User not found\",\"data\":null}");
}
