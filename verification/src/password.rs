//! Password hashing and checking with bcrypt, and the decision of whether a
//! user's stored password hash accepts the password given at login.

use vstd::prelude::*;
use crate::store::StoreError;

verus! {

#[verifier::external_type_specification]
#[verifier::external_body]
pub struct ExBcryptError(bcrypt::BcryptError);

/// The cost factor passed to bcrypt when hashing a new password (the
/// `bcrypt` crate's `DEFAULT_COST`).
pub const PASSWORD_HASH_COST: u32 = 12u32;

/// What `bcrypt::verify` answers for `password` against the stored `hash`:
/// whether they match, or `None` where the hash cannot be read.
pub uninterp spec fn bcrypt_verify_result(password: Seq<char>, hash: Seq<char>) -> Option<bool>;

/// Calls `bcrypt::verify(password, hash)`. Trusted: the result is `Ok`
/// exactly when the named outcome is `Some`, and then holds it. The outcome
/// depends on the password and the hash alone (the hash carries its cost and
/// salt); how bcrypt computes it is left to the crate.
#[verifier::external_body]
fn bcrypt_verify(password: &str, hash: &str) -> (r: Result<bool, bcrypt::BcryptError>)
    ensures
        r is Ok <==> bcrypt_verify_result(password@, hash@) is Some,
        r matches Ok(b) ==> bcrypt_verify_result(password@, hash@) == Some(b),
{
    bcrypt::verify(password, hash)
}

/// The decimal digit character of `d`, for `d` from 0 to 9.
pub open spec fn digit_char(d: int) -> char {
    if d == 0 {
        '0'
    } else if d == 1 {
        '1'
    } else if d == 2 {
        '2'
    } else if d == 3 {
        '3'
    } else if d == 4 {
        '4'
    } else if d == 5 {
        '5'
    } else if d == 6 {
        '6'
    } else if d == 7 {
        '7'
    } else if d == 8 {
        '8'
    } else {
        '9'
    }
}

/// How a hash string that bcrypt produces with cost `cost` starts: `$2b$`,
/// the cost as two decimal digits, and `$` (the salt and the hash follow).
pub open spec fn bcrypt_hash_prefix(cost: u32) -> Seq<char> {
    seq!['$', '2', 'b', '$', digit_char(cost as int / 10), digit_char(cost as int % 10), '$']
}

/// Calls `bcrypt::hash(password, cost)`. Trusted, as the crate's source
/// shows: a cost outside 4 to 31 is refused; a returned hash is a
/// 60-character string `$2b$`, the cost as two digits, `$`, then 22
/// characters of salt and 31 of hash; and it is one that `bcrypt::verify`
/// accepts for the same password (the hash string carries the cost and the
/// salt that verifying recomputes it with). The salt is random, so nothing
/// more is said of the hash, nor of when a valid cost still fails (no
/// randomness from the system).
#[verifier::external_body]
fn bcrypt_hash(password: &str, cost: u32) -> (r: Result<String, bcrypt::BcryptError>)
    ensures
        (cost < 4 || cost > 31) ==> r is Err,
        r matches Ok(h) ==> h@.len() == 60 && h@.subrange(0, 7) == bcrypt_hash_prefix(cost),
        r matches Ok(h) ==> bcrypt_verify_result(password@, h@) == Some(true),
{
    bcrypt::hash(password, cost)
}

/// Hashes a new password for storage, with a fresh random salt and cost
/// `PASSWORD_HASH_COST`; `None` where bcrypt fails. A hash returned here is a
/// 60-character bcrypt string starting `$2b$12$`, and always accepts the same
/// password.
pub fn hash_password(password: &str) -> (r: Option<String>)
    ensures
        r matches Some(h) ==> h@.len() == 60 && h@.subrange(0, 7) == "$2b$12$"@,
        r matches Some(h) ==> bcrypt_verify_result(password@, h@) == Some(true),
{
    proof {
        reveal_strlit("$2b$12$");
        assert(bcrypt_hash_prefix(PASSWORD_HASH_COST) =~= "$2b$12$"@);
    }
    match bcrypt_hash(password, PASSWORD_HASH_COST) {
        Ok(h) => Some(h),
        Err(_) => None,
    }
}

/// What the store found when looking a user up by name.
pub enum UserLookup {
    /// The user exists, with this id and this stored password hash.
    Found { user_id: i64, password_hash: String },
    /// No user has that name.
    NotFound,
    /// The store failed.
    Failed(StoreError),
}

/// The outcome of a login attempt, given what the store found and what
/// checking the password against the stored hash answered (`None` where the
/// hash could not be read): the user's id where the password matched, `None`
/// where the user is unknown or the password does not match, or the store's
/// failure.
pub open spec fn login_outcome(lookup: UserLookup, verified: Option<bool>) -> Result<
    Option<i64>,
    StoreError,
> {
    match lookup {
        UserLookup::Found { user_id, .. } => if verified == Some(true) {
            Ok(Some(user_id))
        } else {
            Ok(None)
        },
        UserLookup::NotFound => Ok(None),
        UserLookup::Failed(e) => Err(e),
    }
}

/// What checking `password` answers for a lookup: bcrypt's verdict against
/// the stored hash where the user was found.
pub open spec fn password_verdict(password: Seq<char>, lookup: UserLookup) -> Option<bool> {
    match lookup {
        UserLookup::Found { password_hash, .. } => bcrypt_verify_result(password, password_hash@),
        _ => None,
    }
}

/// Decides a login attempt from what the store found and what checking the
/// password answered.
pub fn login_decision(lookup: UserLookup, verified: Option<bool>) -> (r: Result<Option<i64>, StoreError>)
    ensures
        r == login_outcome(lookup, verified),
{
    match lookup {
        UserLookup::Found { user_id, .. } => {
            match verified {
                Some(true) => Ok(Some(user_id)),
                _ => Ok(None),
            }
        },
        UserLookup::NotFound => Ok(None),
        UserLookup::Failed(e) => Err(e),
    }
}

/// Checks the password given at login against what the store found for the
/// username: `Ok(Some(id))` when bcrypt accepts the password for the stored
/// hash, `Ok(None)` when the user is unknown, the password does not match or
/// the stored hash cannot be read, and the store's failure otherwise.
pub fn check_login(password: &str, lookup: UserLookup) -> (r: Result<Option<i64>, StoreError>)
    ensures
        r == login_outcome(lookup, password_verdict(password@, lookup)),
{
    let verified = match &lookup {
        UserLookup::Found { password_hash, .. } => {
            match bcrypt_verify(password, password_hash.as_str()) {
                Ok(b) => Some(b),
                Err(_) => None,
            }
        },
        _ => None,
    };
    login_decision(lookup, verified)
}

/// A password that was hashed for storage logs its owner in: once bcrypt has
/// accepted `password` for the hash stored with a user (as it does for every
/// hash that `hash_password` returns for it), a login with that password
/// yields that user's id.
pub proof fn lemma_stored_hash_accepts_its_password(password: Seq<char>, user_id: i64, password_hash: String)
    requires
        bcrypt_verify_result(password, password_hash@) == Some(true),
    ensures
        login_outcome(
            UserLookup::Found { user_id, password_hash },
            password_verdict(password, UserLookup::Found { user_id, password_hash }),
        ) == Ok::<Option<i64>, StoreError>(Some(user_id)),
{
}

/// A login fails with a store failure exactly when the store failed to look
/// the user up: once the user was found (or found missing), the outcome is an
/// answer, whatever the user's id and whatever the password check said.
pub proof fn lemma_login_fails_only_with_the_store(lookup: UserLookup, verified: Option<bool>)
    ensures
        login_outcome(lookup, verified) is Err <==> lookup is Failed,
        lookup matches UserLookup::Failed(e) ==> login_outcome(lookup, verified) == Err::<
            Option<i64>,
            StoreError,
        >(e),
{
}

/// A login yields a user's id exactly when that user was found and the
/// password check accepted the password; in every other case where the store
/// answered, it yields no user.
pub proof fn lemma_login_accepts_only_a_verified_password(
    lookup: UserLookup,
    verified: Option<bool>,
    id: i64,
)
    ensures
        login_outcome(lookup, verified) == Ok::<Option<i64>, StoreError>(Some(id)) <==> (
        lookup matches UserLookup::Found { user_id, .. } && user_id == id && verified == Some(
            true,
        )),
        !(lookup is Failed) && verified != Some(true) ==> login_outcome(lookup, verified) == Ok::<
            Option<i64>,
            StoreError,
        >(None),
        lookup is NotFound ==> login_outcome(lookup, verified) == Ok::<Option<i64>, StoreError>(
            None,
        ),
{
}

} // verus!
