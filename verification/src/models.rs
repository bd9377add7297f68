//! The bodies of the service's requests and answers.

use vstd::prelude::*;

verus! {

/// Body of a registration request.
#[derive(Debug, Clone)]
pub struct RegisterRequest {
    pub username: String,
    pub password: String,
}

/// Body of a request that creates or updates a note.
#[derive(Debug, Clone)]
pub struct NoteRequest {
    pub title: String,
    pub content: String,
}

/// One note, as the store returns it.
#[derive(Debug, Clone)]
pub struct NoteResponse {
    pub id: i64,
    pub user_id: i64,
    pub title: String,
    pub content: String,
    pub category: String,
    pub updated_at: String,
}

/// Body of the answer that lists a user's notes.
#[derive(Debug, Clone)]
pub struct NotesListResponse {
    pub notes: Vec<NoteResponse>,
}

/// Body of the answer to a note's creation: the new note's id.
#[derive(Debug, Clone)]
pub struct CreateNoteResponse {
    pub id: i64,
}

/// Body of the answer to a registration: the new user's id and name.
#[derive(Debug, Clone)]
pub struct RegisteredUser {
    pub id: i64,
    pub username: String,
}

/// A successful answer: its HTTP status and its body.
#[derive(Debug, Clone)]
pub struct Reply<T> {
    pub status: u16,
    pub body: T,
}

} // verus!
