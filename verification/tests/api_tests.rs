use scriptorium::api::{
    check_note, health_message, note_created, note_deleted, note_updated, notes_listed,
    registration_checked, registration_finished, registration_hashed, registration_start, ApiError,
};
use scriptorium::models::{NoteRequest, NoteResponse, RegisterRequest};
use scriptorium::password::{check_login, UserLookup};
use scriptorium::store::{changed_any, default_category, needs_category_migration, StoreError};

fn register(u: &str, p: &str) -> RegisterRequest {
    RegisterRequest { username: u.to_string(), password: p.to_string() }
}

fn note(title: &str) -> NoteRequest {
    NoteRequest { title: title.to_string(), content: "body".to_string() }
}

#[test]
fn health_answer() {
    assert_eq!(health_message(), "Scriptorium Cloud API is running!");
}

#[test]
fn registration_needs_username_and_password() {
    assert_eq!(registration_start(&register("", "pw")), Err(ApiError::MissingFields));
    assert_eq!(registration_start(&register("ann", "")), Err(ApiError::MissingFields));
    assert_eq!(registration_start(&register("", "")), Err(ApiError::MissingFields));
    assert_eq!(registration_start(&register("ann", "pw")), Ok(()));
}

#[test]
fn registration_refuses_taken_name_and_failed_check() {
    let req = register("ann", "pw");
    assert_eq!(registration_checked(&req, Ok(true)), Err(ApiError::UsernameTaken));
    assert_eq!(registration_checked(&req, Err(StoreError)), Err(ApiError::UsernameCheckFailed));
}

#[test]
fn registration_hashes_password_of_free_name() {
    let req = register("ann", "pw");
    let hash = registration_checked(&req, Ok(false)).unwrap();
    assert_ne!(hash, "pw");
    assert_eq!(hash.len(), 60);
    assert!(hash.starts_with("$2b$12$"));
    let lookup = UserLookup::Found { user_id: 1, password_hash: hash };
    assert_eq!(check_login("pw", lookup), Ok(Some(1)));
}

#[test]
fn registration_hash_failure() {
    assert_eq!(registration_hashed(None), Err(ApiError::HashFailed));
    assert_eq!(registration_hashed(Some("h".to_string())), Ok("h".to_string()));
}

#[test]
fn registration_answer() {
    let req = register("ann", "pw");
    let reply = registration_finished(&req, Ok(9)).unwrap();
    assert_eq!(reply.status, 201);
    assert_eq!(reply.body.id, 9);
    assert_eq!(reply.body.username, "ann");
    assert_eq!(registration_finished(&req, Err(StoreError)).unwrap_err(), ApiError::CreateUserFailed);
}

#[test]
fn note_needs_title() {
    assert_eq!(check_note(&note("")), Err(ApiError::TitleRequired));
    assert_eq!(check_note(&note("x")), Ok(()));
    assert_eq!(check_note(&NoteRequest { title: "t".to_string(), content: String::new() }), Ok(()));
}

#[test]
fn listing_answer() {
    let n = NoteResponse {
        id: 1,
        user_id: 2,
        title: "t".to_string(),
        content: "c".to_string(),
        category: "Allgemein".to_string(),
        updated_at: "2024-01-01 00:00:00".to_string(),
    };
    let reply = notes_listed(Ok(vec![n])).unwrap();
    assert_eq!(reply.status, 200);
    assert_eq!(reply.body.notes.len(), 1);
    assert_eq!(reply.body.notes[0].title, "t");
    assert_eq!(notes_listed(Err(StoreError)).unwrap_err(), ApiError::ListFailed);
}

#[test]
fn creation_answer() {
    let reply = note_created(Ok(12)).unwrap();
    assert_eq!(reply.status, 201);
    assert_eq!(reply.body.id, 12);
    assert_eq!(note_created(Err(StoreError)).unwrap_err(), ApiError::CreateNoteFailed);
}

#[test]
fn update_answer() {
    assert_eq!(note_updated(Ok(true)).unwrap().status, 204);
    assert_eq!(note_updated(Ok(false)).unwrap_err(), ApiError::NoteNotFound);
    assert_eq!(note_updated(Err(StoreError)).unwrap_err(), ApiError::UpdateFailed);
}

#[test]
fn delete_answer() {
    assert_eq!(note_deleted(Ok(true)).unwrap().status, 204);
    assert_eq!(note_deleted(Ok(false)).unwrap_err(), ApiError::NoteNotFound);
    assert_eq!(note_deleted(Err(StoreError)).unwrap_err(), ApiError::DeleteFailed);
}

#[test]
fn api_error_statuses_and_messages() {
    let cases = [
        (ApiError::MissingFields, 400, "Username and password are required"),
        (ApiError::UsernameTaken, 409, "Username already taken"),
        (ApiError::UsernameCheckFailed, 500, "Internal server error"),
        (ApiError::HashFailed, 500, "Failed to hash password"),
        (ApiError::CreateUserFailed, 500, "Failed to create user"),
        (ApiError::ListFailed, 500, "Failed to retrieve notes"),
        (ApiError::TitleRequired, 400, "Title is required"),
        (ApiError::CreateNoteFailed, 500, "Failed to create note"),
        (ApiError::UpdateFailed, 500, "Failed to update note"),
        (ApiError::NoteNotFound, 404, "Note not found or access denied"),
        (ApiError::DeleteFailed, 500, "Failed to delete note"),
    ];
    for (e, status, message) in cases {
        assert_eq!(e.status(), status);
        assert_eq!(e.message(), message);
    }
}

#[test]
fn rows_changed_decides_success() {
    assert_eq!(changed_any(Ok(0)), Ok(false));
    assert_eq!(changed_any(Ok(1)), Ok(true));
    assert_eq!(changed_any(Ok(3)), Ok(true));
    assert_eq!(changed_any(Err(StoreError)), Err(StoreError));
}

#[test]
fn category_migration_decision() {
    assert!(needs_category_migration(Some(0)));
    assert!(!needs_category_migration(Some(1)));
    assert!(needs_category_migration(None));
}

#[test]
fn default_category_name() {
    assert_eq!(default_category(), "Allgemein");
}
