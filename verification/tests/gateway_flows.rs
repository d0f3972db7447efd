use serveriot::auth::{authenticate_admin, verify_jwt};
use serveriot::crypto::{bcrypt_check, bcrypt_hash, sign_claims};
use serveriot::database::hardwares::{add_hardware_begin, add_hardware_finish};
use serveriot::hardwares::HardwarePayload;
use serveriot::http::handle_not_authorized;
use serveriot::database::feeds::{add_feed_finish, add_feed_respond, feed_write_query, FeedWrite};
use serveriot::database::nodes::{
    add_node_finish, add_node_validate, assemble_nodes_with_feeds, delete_node_finish,
    extract_feeds, get_node_first, get_node_with_feeds_response, node_get_query, node_ids,
    node_write_query, nodes_list_query, update_node_finish, NodeQuery, NodeWrite, NodesQuery,
};
use serveriot::database::users::{
    activate_user_begin, activate_user_finish, change_password_respond, get_all_users_response,
    get_one_user_response, login_user_respond, register_user_begin, register_user_finish,
};
use serveriot::database::DbError;
use serveriot::feeds::{Feed, FeedPayload, FeedValue};
use serveriot::hardwares::Hardware;
use serveriot::jwt::Claims;
use serveriot::nodes::{Node, NodePayload};
use serveriot::users::{ChangePasswordPayload, LoginPayload, RegisterPayload, User, UserDTO};

const SECRET: &[u8] = b"gateway-secret";
const NOW: i64 = 1700000000;

fn body(out: Vec<u8>) -> String {
    String::from_utf8(out).unwrap()
}

fn storage_err(msg: &str) -> DbError {
    DbError { unique_violation: false, message: String::from(msg) }
}

fn node(id: i32, owner: i32, public: bool) -> Node {
    Node {
        id,
        user_id: owner,
        hardware_id: 2,
        name: format!("node{}", id),
        location: String::from("barn"),
        hardware_sensor_ids: vec![],
        hardware_sensor_names: vec![],
        ispublic: public,
    }
}

fn feed(node_id: i32, time: i64) -> Feed {
    Feed { node_id, time, value: vec![FeedValue::new(String::from("1.0")).unwrap()] }
}

#[test]
fn signup_then_login_end_to_end() {
    // signup alice: the stored row carries a hash, not the password
    let ins = register_user_begin(
        Some(RegisterPayload {
            username: String::from("alice"),
            email: String::from("alice@example.com"),
            password: String::from("wonderland"),
        }),
        &mut Vec::new(),
    )
    .unwrap();
    assert_eq!(ins.username, "alice");
    assert_ne!(ins.password_hash, "wonderland");
    assert!(bcrypt_check("wonderland", &ins.password_hash));
    assert!(!bcrypt_check("underland", &ins.password_hash));

    let mut out = Vec::new();
    assert_eq!(register_user_finish(Ok(1), &mut out), 201);
    assert_eq!(body(out), "{\"message\":\"Created\",\"data\":null}");

    // login with the stored row: a usable token comes back
    let stored = User {
        id: 41,
        username: ins.username.clone(),
        email: ins.email.clone(),
        password: ins.password_hash.clone(),
        status: true,
        isadmin: false,
    };
    let payload = LoginPayload {
        username: String::from("alice"),
        password: String::from("wonderland"),
    };
    let mut out = Vec::new();
    let st = login_user_respond(&payload, Ok(vec![stored]), SECRET, NOW, &mut out);
    assert_eq!(st, 200);
    let s = body(out);
    let token = s
        .strip_prefix("{\"message\":\"ok\",\"data\":\"")
        .unwrap()
        .strip_suffix("\"}")
        .unwrap();
    let claims = verify_jwt(token, SECRET, NOW).unwrap();
    assert_eq!(claims, Claims { user_id: 41, isadmin: false, exp: NOW + 3600 });
}

#[test]
fn login_failures() {
    let hash = bcrypt_hash("right").unwrap();
    let stored = User {
        id: 1,
        username: String::from("bob"),
        email: String::from("b@x"),
        password: hash,
        status: false,
        isadmin: false,
    };
    let wrong = LoginPayload { username: String::from("bob"), password: String::from("wrong") };
    let right = LoginPayload { username: String::from("bob"), password: String::from("right") };

    let mut out = Vec::new();
    let st = login_user_respond(&wrong, Ok(vec![clone_user(&stored)]), SECRET, NOW, &mut out);
    assert_eq!(st, 401);
    assert_eq!(
        body(out),
        "{\"message\":\"Wrong username or password, please try again\",\"data\":null}"
    );

    let mut out = Vec::new();
    let st = login_user_respond(&right, Ok(vec![]), SECRET, NOW, &mut out);
    assert_eq!(st, 401);

    // correct password but inactive account
    let mut out = Vec::new();
    let st = login_user_respond(&right, Ok(vec![stored]), SECRET, NOW, &mut out);
    assert_eq!(st, 401);
    assert_eq!(body(out), "{\"message\":\"Account is not activated\",\"data\":null}");
}

fn clone_user(u: &User) -> User {
    User {
        id: u.id,
        username: u.username.clone(),
        email: u.email.clone(),
        password: u.password.clone(),
        status: u.status,
        isadmin: u.isadmin,
    }
}

#[test]
fn register_conflict_and_storage_error() {
    let mut out = Vec::new();
    let st = register_user_finish(
        Err(DbError { unique_violation: true, message: String::from("duplicate key") }),
        &mut out,
    );
    assert_eq!(st, 409);
    assert_eq!(body(out), "{\"message\":\"Username already exist\",\"data\":null}");

    let mut out = Vec::new();
    let st = register_user_finish(Err(storage_err("connection reset")), &mut out);
    assert_eq!(st, 500);
    assert_eq!(body(out), "{\"message\":\"connection reset\",\"data\":null}");
}

#[test]
fn user_reads() {
    let dto = UserDTO {
        id: 3,
        username: String::from("carol"),
        email: String::from("c@x"),
        status: true,
        isadmin: false,
    };
    let mut out = Vec::new();
    assert_eq!(get_all_users_response(Ok(vec![dto]), &mut out), 200);
    assert_eq!(
        body(out),
        "{\"message\":\"ok\",\"data\":[{\"id\":3,\"username\":\"carol\",\"email\":\"c@x\",\"status\":true,\"isadmin\":false}]}"
    );

    let mut out = Vec::new();
    assert_eq!(get_one_user_response(Ok(vec![]), &mut out), 404);
    assert_eq!(body(out), "{\"message\":\"User not found\",\"data\":null}");
}

#[test]
fn activation_flow() {
    // a one-shot activation token minted by the jwt library directly
    let mut m = serde_json::Map::new();
    m.insert("username".to_string(), serde_json::Value::from("dave"));
    m.insert("exp".to_string(), serde_json::Value::from(NOW + 60));
    let token = jsonwebtoken::encode(
        &jsonwebtoken::Header::default(),
        &serde_json::Value::Object(m.clone()),
        &jsonwebtoken::EncodingKey::from_secret(SECRET),
    )
    .unwrap();
    let username = activate_user_begin(&token, SECRET, NOW, &mut Vec::new()).unwrap();
    assert_eq!(username, "dave");

    // expired activation token reads as invalid
    m.insert("exp".to_string(), serde_json::Value::from(NOW - 60));
    let stale = jsonwebtoken::encode(
        &jsonwebtoken::Header::default(),
        &serde_json::Value::Object(m),
        &jsonwebtoken::EncodingKey::from_secret(SECRET),
    )
    .unwrap();
    let mut out = Vec::new();
    assert_eq!(activate_user_begin(&stale, SECRET, NOW, &mut out), Err(401));
    assert_eq!(body(out), "{\"message\":\"Invalid token\",\"data\":null}");

    let mut out = Vec::new();
    assert_eq!(activate_user_finish(Ok(0), &mut out), 404);
    let mut out = Vec::new();
    assert_eq!(activate_user_finish(Ok(1), &mut out), 200);
}

#[test]
fn change_password_requires_old_password() {
    let hash = bcrypt_hash("old-pass").unwrap();
    let stored = User {
        id: 1,
        username: String::from("erin"),
        email: String::from("e@x"),
        password: hash,
        status: true,
        isadmin: false,
    };
    let bad = ChangePasswordPayload {
        username: String::from("erin"),
        password: String::from("not-it"),
        new_password: String::from("newer"),
    };
    let mut out = Vec::new();
    assert!(matches!(change_password_respond(&bad, Ok(vec![clone_user(&stored)]), &mut out), Err(401)));

    let good = ChangePasswordPayload {
        username: String::from("erin"),
        password: String::from("old-pass"),
        new_password: String::from("newer"),
    };
    let up = change_password_respond(&good, Ok(vec![stored]), &mut Vec::new()).unwrap();
    assert_eq!(up.username, "erin");
    assert!(bcrypt_check("newer", &up.password_hash));
}

#[test]
fn node_query_scoping() {
    let admin = Claims { user_id: 1, isadmin: true, exp: 0 };
    let user = Claims { user_id: 9, isadmin: false, exp: 0 };
    assert_eq!(nodes_list_query(&admin), NodesQuery::All);
    assert_eq!(nodes_list_query(&user), NodesQuery::VisibleTo { user_id: 9 });
    assert_eq!(node_get_query(5, &admin), NodeQuery::ById { id: 5 });
    assert_eq!(node_get_query(5, &user), NodeQuery::ByIdVisibleTo { id: 5, user_id: 9 });
    assert_eq!(node_write_query(5, &admin), NodeWrite::ById { id: 5 });
    assert_eq!(node_write_query(5, &user), NodeWrite::ByIdAndUser { id: 5, user_id: 9 });
}

#[test]
fn feed_insert_scoping() {
    let admin = Claims { user_id: 1, isadmin: true, exp: 0 };
    let user = Claims { user_id: 9, isadmin: false, exp: 0 };
    assert_eq!(feed_write_query(4, &admin), FeedWrite::ById { node_id: 4 });
    assert_eq!(feed_write_query(4, &user), FeedWrite::ByIdAndUser { node_id: 4, user_id: 9 });
}

#[test]
fn non_owner_write_reads_as_not_found() {
    // the ownership-scoped statement touched nothing: the caller learns
    // only "not found", not "forbidden"
    let mut out = Vec::new();
    assert_eq!(update_node_finish(Ok(0), false, payload(), &mut out), 404);
    assert_eq!(body(out), "{\"message\":\"Node not found\",\"data\":null}");

    let mut out = Vec::new();
    assert_eq!(delete_node_finish(Ok(0), &mut out), 404);
    assert_eq!(body(out), "{\"message\":\"Node not found\",\"data\":null}");

    let mut out = Vec::new();
    assert_eq!(delete_node_finish(Ok(1), &mut out), 200);
}

fn payload() -> NodePayload {
    NodePayload {
        hardware_id: 2,
        name: String::from("n"),
        location: String::from("l"),
        hardware_sensor_ids: vec![1],
        hardware_sensor_names: vec![String::from("temp")],
        ispublic: false,
    }
}

#[test]
fn update_node_echoes_payload_to_owner() {
    let mut out = Vec::new();
    assert_eq!(update_node_finish(Ok(1), true, payload(), &mut out), 200);
    assert_eq!(body(out), "{\"message\":\"ok\",\"data\":null}");

    let mut out = Vec::new();
    assert_eq!(update_node_finish(Ok(1), false, payload(), &mut out), 200);
    assert_eq!(
        body(out),
        "{\"message\":\"ok\",\"data\":{\"hardware_id\":2,\"name\":\"n\",\"location\":\"l\",\"hardware_sensor_ids\":[1],\"hardware_sensor_names\":[\"temp\"],\"ispublic\":false}}"
    );
}

#[test]
fn add_node_validation_gates_storage() {
    let catalog = vec![
        Hardware {
            id: 1,
            name: String::from("s"),
            type_: String::from("sensor"),
            description: String::new(),
        },
        Hardware {
            id: 2,
            name: String::from("m"),
            type_: String::from("microcontroller unit"),
            description: String::new(),
        },
    ];
    // a sensor cannot be a node's board: rejected before any insert
    let mut bad = payload();
    bad.hardware_id = 1;
    let mut out = Vec::new();
    assert_eq!(add_node_validate(&bad, &catalog, &mut out), Err(400));
    assert_eq!(body(out), "{\"message\":\"Node hardware cannot be a sensor\",\"data\":null}");

    // microcontroller board with one sensor: accepted
    let mut out = Vec::new();
    assert_eq!(add_node_validate(&payload(), &catalog, &mut out), Ok(()));
    assert!(out.is_empty());

    // paired vectors of different lengths: rejected
    let mut mismatched = payload();
    mismatched.hardware_sensor_names = vec![String::from("temp"), String::from("hum")];
    let mut out = Vec::new();
    assert_eq!(add_node_validate(&mismatched, &catalog, &mut out), Err(400));
    assert_eq!(
        body(out),
        "{\"message\":\"Sensor ids and sensor names must have same length\",\"data\":null}"
    );

    let mut out = Vec::new();
    assert_eq!(add_node_finish(Ok(1), &mut out), 201);
}

#[test]
fn node_reads() {
    let mut out = Vec::new();
    assert!(matches!(get_node_first(Ok(vec![]), &mut out), Err(404)));
    assert_eq!(body(out), "{\"message\":\"Node not found\",\"data\":null}");

    let n = get_node_first(Ok(vec![node(4, 9, false)]), &mut Vec::new()).unwrap();
    assert_eq!(n.id, 4);

    let mut out = Vec::new();
    let st = get_node_with_feeds_response(node(4, 9, false), Ok(vec![feed(4, 10)]), &mut out);
    assert_eq!(st, 200);
    assert!(body(out).contains("\"feeds\":[{\"node_id\":4,\"time\":10,\"value\":[1.0]}]"));

    let mut out = Vec::new();
    assert!(matches!(get_node_first(Err(storage_err("down")), &mut out), Err(500)));
}

#[test]
fn feeds_group_by_node_in_arrival_order() {
    let nodes = vec![node(1, 9, false), node(2, 9, false), node(3, 9, false)];
    let feeds = vec![feed(2, 10), feed(1, 11), feed(2, 12), feed(9, 13)];
    assert_eq!(node_ids(&nodes), vec![1, 2, 3]);
    let joined = assemble_nodes_with_feeds(nodes, feeds);
    assert_eq!(joined.len(), 3);
    assert_eq!(joined[0].node.id, 1);
    assert_eq!(joined[0].feeds.len(), 1);
    assert_eq!(joined[0].feeds[0].time, 11);
    assert_eq!(joined[1].feeds.len(), 2);
    assert_eq!(joined[1].feeds[0].time, 10);
    assert_eq!(joined[1].feeds[1].time, 12);
    assert!(joined[2].feeds.is_empty());
}

#[test]
fn extract_feeds_splits_and_keeps_order() {
    let feeds = vec![feed(1, 10), feed(2, 11), feed(1, 12)];
    let (mine, rest) = extract_feeds(feeds, 1);
    assert_eq!(mine.len(), 2);
    assert_eq!(mine[0].time, 10);
    assert_eq!(mine[1].time, 12);
    assert_eq!(rest.len(), 1);
    assert_eq!(rest[0].node_id, 2);
}

#[test]
fn feed_ingestion_over_http() {
    let owner = Claims { user_id: 9, isadmin: false, exp: 0 };
    let stranger = Claims { user_id: 8, isadmin: false, exp: 0 };
    let admin = Claims { user_id: 1, isadmin: true, exp: 0 };

    let mut out = Vec::new();
    assert_eq!(add_feed_respond(Ok(vec![]), &owner, &mut out), Err(404));

    let mut out = Vec::new();
    assert_eq!(add_feed_respond(Ok(vec![node(4, 9, true)]), &stranger, &mut out), Err(401));
    assert_eq!(body(out), "{\"message\":\"Unauthorized\",\"data\":null}");

    assert_eq!(add_feed_respond(Ok(vec![node(4, 9, false)]), &owner, &mut Vec::new()), Ok(()));
    assert_eq!(add_feed_respond(Ok(vec![node(4, 9, false)]), &admin, &mut Vec::new()), Ok(()));

    let mut out = Vec::new();
    assert_eq!(add_feed_finish(Ok(1), &mut out), 201);
    let mut out = Vec::new();
    assert_eq!(add_feed_finish(Ok(0), &mut out), 404);
}

#[test]
fn feed_payload_shape() {
    let p = FeedPayload { node_id: 7, value: vec![FeedValue::new(String::from("2.5")).unwrap()] };
    assert_eq!(p.node_id, 7);
    assert_eq!(p.value[0].as_str(), "2.5");
}

#[test]
fn hardware_creation_is_admin_only_end_to_end() {
    let sensor = HardwarePayload {
        name: String::from("BME280"),
        type_: String::from("sensor"),
        description: String::from("pressure"),
    };

    // a non-admin identity is turned away with a forbidden response; the
    // payload is never even examined
    let user_header = format!("Bearer {}", sign_claims(2, false, NOW + 60, SECRET));
    let gate = authenticate_admin(Some(&user_header), SECRET, NOW);
    assert_eq!(gate, Err("Unauthorized"));
    let mut out = Vec::new();
    assert_eq!(handle_not_authorized(&mut out), 403);

    // an admin with the same payload succeeds
    let admin_header = format!("Bearer {}", sign_claims(1, true, NOW + 60, SECRET));
    assert!(authenticate_admin(Some(&admin_header), SECRET, NOW).is_ok());
    let mut out = Vec::new();
    assert_eq!(add_hardware_begin(Some(&sensor), &mut out), Ok(()));
    assert_eq!(add_hardware_finish(Ok(1), &mut out), 201);
    assert_eq!(body(out), "{\"message\":\"Created\",\"data\":null}");
}
