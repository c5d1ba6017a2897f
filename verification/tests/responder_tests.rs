use item_service::errors::AppError;
use item_service::item::{CreateItemPayload, UpdateItemPayload};
use item_service::responder::{error_envelope, health_check, respond};
use item_service::store::ItemStore;

#[test]
fn health_probe_always_ok() {
    let (status, body) = health_check();
    assert_eq!(status, 200);
    assert_eq!(body, "{\"status\":\"ok\"}");
}

#[test]
fn status_codes_follow_the_taxonomy() {
    assert_eq!(AppError::StoreFailure("pool closed".to_string()).status_code(), 500);
    assert_eq!(AppError::ConfigError("missing url".to_string()).status_code(), 500);
    assert_eq!(AppError::NotFound(3).status_code(), 404);
    assert_eq!(AppError::InvalidInput("bad".to_string()).status_code(), 400);
}

#[test]
fn internal_detail_is_sanitized() {
    let e = AppError::StoreFailure("connection string SECRET-REDACTED".to_string());
    assert_eq!(e.user_message(), "An internal database error occurred");
    let c = AppError::ConfigError("DATABASE_URL must be set".to_string());
    assert_eq!(c.user_message(), "Server configuration error");
}

#[test]
fn validation_message_passes_through_verbatim() {
    let e = AppError::InvalidInput("Item name cannot be empty".to_string());
    assert_eq!(e.user_message(), "Item name cannot be empty");
}

#[test]
fn not_found_message_names_the_identifier() {
    let id: u128 = 0x00112233445566778899aabbccddeeff;
    let e = AppError::NotFound(id);
    assert_eq!(
        e.user_message(),
        "Item with ID 00112233-4455-6677-8899-aabbccddeeff not found"
    );
}

#[test]
fn not_found_message_matches_the_uuid_crate() {
    let id: u128 = 0xfedcba98765432100123456789abcdef;
    let expected = format!(
        "Item with ID {} not found",
        uuid::Uuid::from_u128(id).hyphenated()
    );
    assert_eq!(AppError::NotFound(id).user_message(), expected);
}

#[test]
fn envelope_wraps_the_message() {
    let body = error_envelope("boom");
    assert_eq!(body, b"{\"error\":\"boom\"}".to_vec());
}

#[test]
fn envelope_escapes_quotes_backslashes_and_controls() {
    let body = error_envelope("a\"b\\c\nd");
    assert_eq!(
        String::from_utf8(body).unwrap(),
        "{\"error\":\"a\\\"b\\\\c\\u000ad\"}"
    );
}

#[test]
fn envelope_is_valid_json_for_awkward_messages() {
    let msg = "tab\there \"quoted\" back\\slash and unicode é";
    let body = error_envelope(msg);
    let parsed: serde_json::Value = serde_json::from_slice(&body).unwrap();
    assert_eq!(parsed["error"].as_str().unwrap(), msg);
}

#[test]
fn respond_pairs_status_with_envelope() {
    let (status, body) = respond(&AppError::InvalidInput("no".to_string()));
    assert_eq!(status, 400);
    assert_eq!(body, b"{\"error\":\"no\"}".to_vec());
}

#[test]
fn crud_round_trip_over_the_wire_shapes() {
    let mut store = ItemStore::new();
    // POST {"name":"widget"} -> created with null description.
    let created = store
        .create_item(&CreateItemPayload { name: "widget".to_string(), description: None })
        .unwrap();
    assert_eq!(created.description, None);
    // PUT {"description":"new"} -> name kept, description set.
    let up = UpdateItemPayload { name: None, description: Some("new".to_string()) };
    let merged = store.update_item(created.id, &up).unwrap();
    assert_eq!(merged.name, "widget");
    assert_eq!(merged.description, Some("new".to_string()));
    // DELETE -> ok; GET -> 404 with the uniform error envelope.
    store.delete_item(created.id).unwrap();
    let err = store.get_item(created.id).unwrap_err();
    let (status, body) = respond(&err);
    assert_eq!(status, 404);
    let expected = format!(
        "{{\"error\":\"Item with ID {} not found\"}}",
        uuid::Uuid::from_u128(created.id).hyphenated()
    );
    assert_eq!(String::from_utf8(body).unwrap(), expected);
}
