//! End-to-end exercises of the service's behavioral core, run against the
//! real identifier generator and parser.

use http_interface::guard::{AuthError, RequiredUserId};
use http_interface::handlers::{
    create_identifier, create_product, delete_product, get_identifier, get_product,
    modify_product, CreateUser,
};
use http_interface::registry::UserState;
use http_interface::store::{Db, ModifyProduct, Product};
use http_interface::Status;

fn issue(reg: &mut UserState, name: &str) -> String {
    let (status, id) = create_identifier(reg, CreateUser { username: name.to_owned() });
    assert_eq!(status, Status::Okay);
    id
}

fn authenticate(reg: &UserState, header: Option<&str>) -> Result<RequiredUserId, AuthError> {
    RequiredUserId::from_request_parts(header, reg)
}

fn owner(reg: &UserState, id_text: &str) -> RequiredUserId {
    match authenticate(reg, Some(id_text)) {
        Ok(id) => id,
        Err(e) => panic!("issued identifier rejected: {:?}", e),
    }
}

#[test]
fn issuing_always_succeeds_and_parses() {
    let mut reg = UserState::new();
    for name in ["alice", "", "h\u{e9}llo w\u{f6}rld!\n", "  spaces  ", "{\"json\":1}"] {
        let id = issue(&mut reg, name);
        assert_eq!(id.len(), 36);
        assert!(authenticate(&reg, Some(id.as_str())).is_ok());
    }
}

#[test]
fn issued_identifiers_are_distinct() {
    let mut reg = UserState::new();
    let a = issue(&mut reg, "alice");
    let b = issue(&mut reg, "alice");
    assert_ne!(a, b);
}

#[test]
fn lookup_returns_exact_username() {
    let mut reg = UserState::new();
    let id = issue(&mut reg, "alice");
    let other = issue(&mut reg, "bob");
    let caller = owner(&reg, &id);
    let (status, user) = get_identifier(caller, &reg);
    assert_eq!(status, Status::Found);
    assert_eq!(user.id, id);
    assert_eq!(user.username, "alice");
    let caller = owner(&reg, &other);
    let (_, user) = get_identifier(caller, &reg);
    assert_eq!(user.username, "bob");
}

#[test]
fn empty_username_round_trips() {
    let mut reg = UserState::new();
    let id = issue(&mut reg, "");
    let caller = owner(&reg, &id);
    let (status, user) = get_identifier(caller, &reg);
    assert_eq!(status, Status::Found);
    assert_eq!(user.username, "");
}

#[test]
fn missing_header_is_rejected() {
    let reg = UserState::new();
    let err = authenticate(&reg, None).unwrap_err();
    assert_eq!(err, AuthError::MissingIdentifier);
    assert_eq!(err.message(), "Please pass your identifier");
    assert_eq!(err.status().code(), 403);
}

#[test]
fn malformed_header_is_rejected() {
    let mut reg = UserState::new();
    issue(&mut reg, "alice");
    for bad in ["", "not-a-uuid", "1234", "zzzzzzzz-zzzz-zzzz-zzzz-zzzzzzzzzzzz"] {
        let err = authenticate(&reg, Some(bad)).unwrap_err();
        assert_eq!(err, AuthError::MalformedIdentifier);
        assert_eq!(err.message(), "Invalid identifier");
        assert_eq!(err.status().code(), 403);
    }
}

#[test]
fn unissued_identifier_is_rejected_regardless_of_product_state() {
    let mut reg = UserState::new();
    let issued = issue(&mut reg, "alice");
    let caller = owner(&reg, &issued);
    let mut db = Db::setup();
    let (status, _) = create_product(
        caller,
        &mut db,
        Product { name: "Widget".to_owned(), description: "A widget".to_owned() },
    );
    assert_eq!(status, Status::Created);

    let never_issued = "550e8400-e29b-41d4-a716-446655440000";
    assert_ne!(issued, never_issued);
    let err = authenticate(&reg, Some(never_issued)).unwrap_err();
    assert_eq!(err, AuthError::UnknownIdentifier);
    assert_eq!(err.message(), "Invalid identifier");
    assert_eq!(err.status().code(), 403);
}

#[test]
fn absent_owner_reads_updates_deletes_not_found() {
    let mut reg = UserState::new();
    let id = issue(&mut reg, "alice");
    let mut db = Db::setup();

    let (status, body) = get_product(owner(&reg, &id), &db);
    assert_eq!(status, Status::NotFound);
    assert_eq!(body.name, "");
    assert_eq!(body.description, "");

    let status = modify_product(
        owner(&reg, &id),
        &mut db,
        ModifyProduct { name: Some("X".to_owned()), description: None },
    );
    assert_eq!(status, Status::NotFound);

    let status = delete_product(owner(&reg, &id), &mut db);
    assert_eq!(status, Status::NotFound);
}

#[test]
fn create_echoes_input() {
    let mut reg = UserState::new();
    let id = issue(&mut reg, "alice");
    let mut db = Db::setup();
    let (status, body) = create_product(
        owner(&reg, &id),
        &mut db,
        Product { name: "Widget".to_owned(), description: "A widget".to_owned() },
    );
    assert_eq!(status, Status::Created);
    assert_eq!(status.code(), 201);
    assert_eq!(body.name, "Widget");
    assert_eq!(body.description, "A widget");
}

#[test]
fn conflicting_create_leaves_record_unchanged() {
    let mut reg = UserState::new();
    let id = issue(&mut reg, "alice");
    let mut db = Db::setup();
    let (status, _) = create_product(
        owner(&reg, &id),
        &mut db,
        Product { name: "Widget".to_owned(), description: "A widget".to_owned() },
    );
    assert_eq!(status, Status::Created);

    let (status, body) = create_product(
        owner(&reg, &id),
        &mut db,
        Product { name: "Other".to_owned(), description: "Another".to_owned() },
    );
    assert_eq!(status, Status::Conflict);
    assert_eq!(status.code(), 409);
    assert_eq!(body.name, "");
    assert_eq!(body.description, "");

    let (status, body) = get_product(owner(&reg, &id), &db);
    assert_eq!(status, Status::Found);
    assert_eq!(body.name, "Widget");
    assert_eq!(body.description, "A widget");
}

#[test]
fn partial_update_merges_fields() {
    let mut reg = UserState::new();
    let id = issue(&mut reg, "alice");
    let mut db = Db::setup();
    create_product(
        owner(&reg, &id),
        &mut db,
        Product { name: "A".to_owned(), description: "B".to_owned() },
    );

    let status = modify_product(
        owner(&reg, &id),
        &mut db,
        ModifyProduct { name: None, description: Some("C".to_owned()) },
    );
    assert_eq!(status, Status::NoContent);
    let (_, body) = get_product(owner(&reg, &id), &db);
    assert_eq!(body.name, "A");
    assert_eq!(body.description, "C");

    let status = modify_product(
        owner(&reg, &id),
        &mut db,
        ModifyProduct { name: Some("D".to_owned()), description: None },
    );
    assert_eq!(status, Status::NoContent);
    let (_, body) = get_product(owner(&reg, &id), &db);
    assert_eq!(body.name, "D");
    assert_eq!(body.description, "C");
}

#[test]
fn delete_then_read_is_not_found() {
    let mut reg = UserState::new();
    let id = issue(&mut reg, "alice");
    let mut db = Db::setup();
    create_product(
        owner(&reg, &id),
        &mut db,
        Product { name: "Widget".to_owned(), description: "A widget".to_owned() },
    );

    let status = delete_product(owner(&reg, &id), &mut db);
    assert_eq!(status, Status::NoContent);
    assert_eq!(status.code(), 204);
    let (status, _) = get_product(owner(&reg, &id), &db);
    assert_eq!(status, Status::NotFound);
    assert_eq!(status.code(), 404);
}

#[test]
fn full_scenario() {
    let mut reg = UserState::new();
    let mut db = Db::setup();

    let id1 = issue(&mut reg, "alice");

    let (status, body) = create_product(
        owner(&reg, &id1),
        &mut db,
        Product { name: "Widget".to_owned(), description: "A widget".to_owned() },
    );
    assert_eq!(status.code(), 201);
    assert_eq!(body.name, "Widget");
    assert_eq!(body.description, "A widget");

    let (status, _) = create_product(
        owner(&reg, &id1),
        &mut db,
        Product { name: "Widget".to_owned(), description: "A widget".to_owned() },
    );
    assert_eq!(status.code(), 409);

    let status = modify_product(
        owner(&reg, &id1),
        &mut db,
        ModifyProduct { name: Some("Gadget".to_owned()), description: None },
    );
    assert_eq!(status.code(), 204);

    let (status, body) = get_product(owner(&reg, &id1), &db);
    assert_eq!(status.code(), 302);
    assert_eq!(body.name, "Gadget");
    assert_eq!(body.description, "A widget");

    let status = delete_product(owner(&reg, &id1), &mut db);
    assert_eq!(status.code(), 204);
    let (status, _) = get_product(owner(&reg, &id1), &db);
    assert_eq!(status.code(), 404);
}

#[test]
fn status_codes_match_http() {
    assert_eq!(Status::Okay.code(), 200);
    assert_eq!(Status::Created.code(), 201);
    assert_eq!(Status::Found.code(), 302);
    assert_eq!(Status::NoContent.code(), 204);
    assert_eq!(Status::Forbidden.code(), 403);
    assert_eq!(Status::NotFound.code(), 404);
    assert_eq!(Status::Conflict.code(), 409);
    assert_eq!(Status::InternalServerError.code(), 500);
}
