//! The decisions of the service's endpoints: which requests are refused, and
//! what each outcome of the store, or of hashing a password, is answered with.
//! The store itself is driven by the caller between these steps.

use vstd::prelude::*;
use crate::models::{
    CreateNoteResponse, NoteRequest, NoteResponse, NotesListResponse, RegisterRequest,
    RegisteredUser, Reply,
};
use crate::password::{bcrypt_verify_result, hash_password};
use crate::store::StoreError;

verus! {

/// Why an endpoint refused a request or could not complete it.
#[derive(Debug, PartialEq, Eq, Structural)]
pub enum ApiError {
    /// Registration without a username or without a password.
    MissingFields,
    /// Registration under a username that is already taken.
    UsernameTaken,
    /// The store could not tell whether a username is taken.
    UsernameCheckFailed,
    /// The new password could not be hashed.
    HashFailed,
    /// The store could not create the user.
    CreateUserFailed,
    /// The store could not list the notes.
    ListFailed,
    /// A note without a title.
    TitleRequired,
    /// The store could not create the note.
    CreateNoteFailed,
    /// The store could not update the note.
    UpdateFailed,
    /// No note with that id belongs to the user.
    NoteNotFound,
    /// The store could not delete the note.
    DeleteFailed,
}

impl ApiError {
    pub open spec fn spec_status(self) -> u16 {
        match self {
            ApiError::MissingFields | ApiError::TitleRequired => 400,
            ApiError::UsernameTaken => 409,
            ApiError::NoteNotFound => 404,
            _ => 500,
        }
    }

    /// The HTTP status of the refusal: `400` for a malformed request, `409`
    /// for a taken username, `404` for a note that is missing or not the
    /// user's, and `500` where the store or hashing failed.
    pub fn status(&self) -> (s: u16)
        ensures
            s == self.spec_status(),
    {
        match self {
            ApiError::MissingFields | ApiError::TitleRequired => 400,
            ApiError::UsernameTaken => 409,
            ApiError::NoteNotFound => 404,
            _ => 500,
        }
    }

    /// The text of the `error` field of the JSON body of the refusal.
    pub fn message(&self) -> (m: &'static str)
        ensures
            *self == ApiError::MissingFields ==> m@ == "Username and password are required"@,
            *self == ApiError::UsernameTaken ==> m@ == "Username already taken"@,
            *self == ApiError::UsernameCheckFailed ==> m@ == "Internal server error"@,
            *self == ApiError::HashFailed ==> m@ == "Failed to hash password"@,
            *self == ApiError::CreateUserFailed ==> m@ == "Failed to create user"@,
            *self == ApiError::ListFailed ==> m@ == "Failed to retrieve notes"@,
            *self == ApiError::TitleRequired ==> m@ == "Title is required"@,
            *self == ApiError::CreateNoteFailed ==> m@ == "Failed to create note"@,
            *self == ApiError::UpdateFailed ==> m@ == "Failed to update note"@,
            *self == ApiError::NoteNotFound ==> m@ == "Note not found or access denied"@,
            *self == ApiError::DeleteFailed ==> m@ == "Failed to delete note"@,
    {
        match self {
            ApiError::MissingFields => "Username and password are required",
            ApiError::UsernameTaken => "Username already taken",
            ApiError::UsernameCheckFailed => "Internal server error",
            ApiError::HashFailed => "Failed to hash password",
            ApiError::CreateUserFailed => "Failed to create user",
            ApiError::ListFailed => "Failed to retrieve notes",
            ApiError::TitleRequired => "Title is required",
            ApiError::CreateNoteFailed => "Failed to create note",
            ApiError::UpdateFailed => "Failed to update note",
            ApiError::NoteNotFound => "Note not found or access denied",
            ApiError::DeleteFailed => "Failed to delete note",
        }
    }
}

/// The answer of the health check.
pub fn health_message() -> (m: &'static str)
    ensures
        m@ == "Scriptorium Cloud API is running!"@,
{
    "Scriptorium Cloud API is running!"
}

/// First step of a registration: both the username and the password must be
/// non-empty; then the store is asked whether the username is taken.
pub fn registration_start(req: &RegisterRequest) -> (r: Result<(), ApiError>)
    ensures
        r is Err <==> req.username@.len() == 0 || req.password@.len() == 0,
        r is Err ==> r == Err::<(), ApiError>(ApiError::MissingFields),
{
    if req.username.as_str().is_empty() || req.password.as_str().is_empty() {
        Err(ApiError::MissingFields)
    } else {
        Ok(())
    }
}

/// What a registration does once the password has been hashed (`None`
/// where hashing failed): the hash to store with the new user, or the refusal.
pub fn registration_hashed(hashed: Option<String>) -> (r: Result<String, ApiError>)
    ensures
        match hashed {
            Some(h) => r == Ok::<String, ApiError>(h),
            None => r == Err::<String, ApiError>(ApiError::HashFailed),
        },
{
    match hashed {
        Some(h) => Ok(h),
        None => Err(ApiError::HashFailed),
    }
}

/// Second step of a registration, given whether the store holds the username
/// already: a failed check or a taken name refuses the registration;
/// otherwise the password is hashed, and the hash (a 60-character bcrypt
/// string starting `$2b$12$`, one that bcrypt accepts for this password) is
/// what the store is to save with the new user.
pub fn registration_checked(req: &RegisterRequest, taken: Result<bool, StoreError>) -> (r: Result<
    String,
    ApiError,
>)
    ensures
        taken is Err ==> r == Err::<String, ApiError>(ApiError::UsernameCheckFailed),
        taken == Ok::<bool, StoreError>(true) ==> r == Err::<String, ApiError>(
            ApiError::UsernameTaken,
        ),
        taken == Ok::<bool, StoreError>(false) ==> (r is Ok || r == Err::<String, ApiError>(
            ApiError::HashFailed,
        )),
        r matches Ok(h) ==> taken == Ok::<bool, StoreError>(false) && bcrypt_verify_result(
            req.password@,
            h@,
        ) == Some(true),
        r matches Ok(h) ==> h@.len() == 60 && h@.subrange(0, 7) == "$2b$12$"@,
{
    match taken {
        Err(_) => Err(ApiError::UsernameCheckFailed),
        Ok(true) => Err(ApiError::UsernameTaken),
        Ok(false) => registration_hashed(hash_password(req.password.as_str())),
    }
}

/// Last step of a registration, given what the store answered when asked to
/// create the user: `201 Created` with the new id and the username, or the
/// refusal.
pub fn registration_finished(req: &RegisterRequest, created: Result<i64, StoreError>) -> (r: Result<
    Reply<RegisteredUser>,
    ApiError,
>)
    ensures
        match created {
            Ok(id) => r matches Ok(reply) && reply.status == 201 && reply.body.id == id
                && reply.body.username@ == req.username@,
            Err(_) => r == Err::<Reply<RegisteredUser>, ApiError>(ApiError::CreateUserFailed),
        },
{
    match created {
        Ok(id) => Ok(Reply { status: 201, body: RegisteredUser { id, username: req.username.clone() } }),
        Err(_) => Err(ApiError::CreateUserFailed),
    }
}

/// A note must have a non-empty title before it is created or updated.
pub fn check_note(req: &NoteRequest) -> (r: Result<(), ApiError>)
    ensures
        r is Err <==> req.title@.len() == 0,
        r is Err ==> r == Err::<(), ApiError>(ApiError::TitleRequired),
{
    if req.title.as_str().is_empty() {
        Err(ApiError::TitleRequired)
    } else {
        Ok(())
    }
}

/// The answer to listing a user's notes, given what the store returned:
/// `200 OK` with the notes as the store returned them, or the refusal.
pub fn notes_listed(listed: Result<Vec<NoteResponse>, StoreError>) -> (r: Result<
    Reply<NotesListResponse>,
    ApiError,
>)
    ensures
        match listed {
            Ok(notes) => r matches Ok(reply) && reply.status == 200 && reply.body.notes == notes,
            Err(_) => r == Err::<Reply<NotesListResponse>, ApiError>(ApiError::ListFailed),
        },
{
    match listed {
        Ok(notes) => Ok(Reply { status: 200, body: NotesListResponse { notes } }),
        Err(_) => Err(ApiError::ListFailed),
    }
}

/// The answer to creating a note, given what the store returned: `201
/// Created` with the new note's id, or the refusal.
pub fn note_created(created: Result<i64, StoreError>) -> (r: Result<
    Reply<CreateNoteResponse>,
    ApiError,
>)
    ensures
        match created {
            Ok(id) => r matches Ok(reply) && reply.status == 201 && reply.body.id == id,
            Err(_) => r == Err::<Reply<CreateNoteResponse>, ApiError>(ApiError::CreateNoteFailed),
        },
{
    match created {
        Ok(id) => Ok(Reply { status: 201, body: CreateNoteResponse { id } }),
        Err(_) => Err(ApiError::CreateNoteFailed),
    }
}

/// The answer to updating a note, given whether the store changed a note
/// with that id belonging to the user: `204 No Content`, `404` where none
/// matched, or the refusal.
pub fn note_updated(updated: Result<bool, StoreError>) -> (r: Result<Reply<()>, ApiError>)
    ensures
        match updated {
            Ok(true) => r matches Ok(reply) && reply.status == 204,
            Ok(false) => r == Err::<Reply<()>, ApiError>(ApiError::NoteNotFound),
            Err(_) => r == Err::<Reply<()>, ApiError>(ApiError::UpdateFailed),
        },
{
    match updated {
        Ok(true) => Ok(Reply { status: 204, body: () }),
        Ok(false) => Err(ApiError::NoteNotFound),
        Err(_) => Err(ApiError::UpdateFailed),
    }
}

/// The answer to deleting a note, given whether the store deleted a note
/// with that id belonging to the user: `204 No Content`, `404` where none
/// matched, or the refusal.
pub fn note_deleted(deleted: Result<bool, StoreError>) -> (r: Result<Reply<()>, ApiError>)
    ensures
        match deleted {
            Ok(true) => r matches Ok(reply) && reply.status == 204,
            Ok(false) => r == Err::<Reply<()>, ApiError>(ApiError::NoteNotFound),
            Err(_) => r == Err::<Reply<()>, ApiError>(ApiError::DeleteFailed),
        },
{
    match deleted {
        Ok(true) => Ok(Reply { status: 204, body: () }),
        Ok(false) => Err(ApiError::NoteNotFound),
        Err(_) => Err(ApiError::DeleteFailed),
    }
}

} // verus!
