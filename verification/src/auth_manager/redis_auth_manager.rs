//! The rules of the credential store: how users are named, what is kept
//! under a user's name, and how tokens are made and checked.
//!
//! The store is reached by the caller. This module holds what is decided
//! before and after each of its answers.

use crate::auth_manager::AuthError;
use jwt_simple::algorithms::{HS256Key, MACLike};
use jwt_simple::claims::{Claims, NoCustomClaims};
use jwt_simple::prelude::Duration;
use vstd::prelude::*;
use vstd::string::*;

verus! {

/// The character that separates a user's name from what is stored under
/// it.
pub const SEPARATOR: char = '_';

/// For how many hours a token is good.
pub const TOKEN_HOURS: u64 = 2;

/// Whether a user may have this name: the separator does not occur in it.
pub open spec fn is_legal_username(username: Seq<char>) -> bool {
    !username.contains(SEPARATOR)
}

/// The key under which a user's password is stored.
pub open spec fn password_key_text(username: Seq<char>) -> Seq<char> {
    username + "_pass"@
}

/// The key under which a user's signing key is stored.
pub open spec fn signing_key_text(username: Seq<char>) -> Seq<char> {
    username + "_key"@
}

/// The key under which `username`'s password is stored.
pub fn password_key(username: &String) -> (key: String)
    ensures
        key@ == password_key_text(username@),
{
    username.clone().concat("_pass")
}

/// The key under which `username`'s signing key is stored.
pub fn signing_key(username: &String) -> (key: String)
    ensures
        key@ == signing_key_text(username@),
{
    username.clone().concat("_key")
}

/// Refuses a user name that holds the separator.
pub fn check_username(username: &String) -> (checked: Result<(), AuthError>)
    ensures
        checked is Ok <==> is_legal_username(username@),
        checked matches Err(e) ==> e is IllegalUsername,
{
    let name = username.as_str();
    let n = name.unicode_len();
    let mut i: usize = 0;
    while i < n
        invariant
            i <= n,
            n == name@.len(),
            name@ == username@,
            forall|j: int| 0 <= j < i ==> name@[j] != SEPARATOR,
        decreases n - i,
    {
        if name.get_char(i) == SEPARATOR {
            return Err(AuthError::IllegalUsername);
        }
        i = i + 1;
    }
    Ok(())
}

/// Refuses a registration under a name that has a password already.
pub fn check_absent(stored_password: Option<String>) -> (checked: Result<(), AuthError>)
    ensures
        checked is Ok <==> stored_password is None,
        checked matches Err(e) ==> e is UserExists,
{
    match stored_password {
        Some(_) => Err(AuthError::UserExists),
        None => Ok(()),
    }
}

/// What storing a new user's password came to; `failure` is the store's
/// complaint, if it had one.
pub fn check_created(failure: Option<String>) -> (checked: Result<(), AuthError>)
    ensures
        match failure {
            Some(cause) => checked matches Err(e) && e == AuthError::CreateFailed(cause),
            None => checked is Ok,
        },
{
    match failure {
        Some(cause) => Err(AuthError::CreateFailed(cause)),
        None => Ok(()),
    }
}

/// Holds a password against the one that is stored for the user.
pub fn check_password(stored_password: Option<String>, password: &String) -> (checked: Result<(), AuthError>)
    ensures
        match stored_password {
            Some(stored) => if stored@ == password@ {
                checked is Ok
            } else {
                checked matches Err(e) && e is WrongPassword
            },
            None => checked matches Err(e) && e is UnknownUser,
        },
{
    match stored_password {
        Some(stored) => if stored == *password {
            Ok(())
        } else {
            Err(AuthError::WrongPassword)
        },
        None => Err(AuthError::UnknownUser),
    }
}

/// `HS256Key::generate` of jwt_simple, and the key's bytes: 32 bytes
/// from the thread's random number generator.
#[verifier::external_body]
fn fresh_key_bytes() -> (key: Vec<u8>)
    ensures
        key@.len() == 32,
{
    HS256Key::generate().to_bytes()
}

/// `authenticate` of jwt_simple's `HS256Key`, on claims without custom
/// data that expire after `hours` hours: a signed token, or nothing where
/// none could be built. The token holds the time of the call, so nothing
/// is claimed of it. The hours are kept to a year, which the crate's
/// arithmetic on durations holds without overflow.
#[verifier::external_body]
fn signed_token(key: &Vec<u8>, hours: u64) -> (token: Option<String>)
    requires
        hours <= 8760,
{
    HS256Key::from_bytes(key).authenticate(Claims::create(Duration::from_hours(hours))).ok()
}

/// `verify_token` of jwt_simple's `HS256Key`, with the default options:
/// whether the token was signed with this key and is good at the time of
/// the call. The answer depends on the clock, so nothing is claimed of
/// it.
#[verifier::external_body]
fn token_verifies(key: &Vec<u8>, token: &str) -> (valid: bool) {
    HS256Key::from_bytes(key).verify_token::<NoCustomClaims>(token, None).is_ok()
}

/// A new signing key for a user.
pub fn generate_key() -> (key: Vec<u8>)
    ensures
        key@.len() == 32,
{
    fresh_key_bytes()
}

/// What making a token came to.
pub fn token_outcome(token: Option<String>) -> (issued: Result<String, AuthError>)
    ensures
        match token {
            Some(t) => issued == Ok::<String, AuthError>(t),
            None => issued matches Err(e) && e is TokenFailed,
        },
{
    match token {
        Some(t) => Ok(t),
        None => Err(AuthError::TokenFailed),
    }
}

/// Makes a token that is signed with `key` and good for `TOKEN_HOURS`
/// hours from now.
pub fn issue_token(key: &Vec<u8>) -> (issued: Result<String, AuthError>)
    ensures
        issued matches Err(e) ==> e is TokenFailed,
{
    token_outcome(signed_token(key, TOKEN_HOURS))
}

/// What checking a token came to.
pub fn token_verdict(valid: bool) -> (checked: Result<(), AuthError>)
    ensures
        checked is Ok <==> valid,
        checked matches Err(e) ==> e is InvalidToken,
{
    if valid {
        Ok(())
    } else {
        Err(AuthError::InvalidToken)
    }
}

/// Checks a token against the user's signing key, as of now.
pub fn validate_token(key: &Vec<u8>, token: &String) -> (checked: Result<(), AuthError>)
    ensures
        checked matches Err(e) ==> e is InvalidToken,
{
    token_verdict(token_verifies(key, token.as_str()))
}

/// What is stored under legal user names never collides: a user's name,
/// password key and signing key differ from every name and key of every
/// user, and no two users share a key.
pub proof fn lemma_store_keys_apart(first: Seq<char>, second: Seq<char>)
    requires
        is_legal_username(first),
        is_legal_username(second),
    ensures
        first != password_key_text(second),
        first != signing_key_text(second),
        password_key_text(first) != signing_key_text(second),
        password_key_text(first) == password_key_text(second) ==> first == second,
        signing_key_text(first) == signing_key_text(second) ==> first == second,
{
    reveal_strlit("_pass");
    reveal_strlit("_key");
    let pass = password_key_text(second);
    let key = signing_key_text(second);
    assert(pass[second.len() as int] == SEPARATOR);
    assert(key[second.len() as int] == SEPARATOR);
    if first == pass {
        assert(first.contains(SEPARATOR));
    }
    if first == key {
        assert(first.contains(SEPARATOR));
    }
    let mine = password_key_text(first);
    if mine == key {
        assert(mine[mine.len() - 1] == 's');
        assert(key[key.len() - 1] == 'y');
    }
    if password_key_text(first) == pass {
        assert(password_key_text(first).len() == first.len() + 5);
        assert(pass.len() == second.len() + 5);
        assert(first.len() == second.len());
        assert(first =~= pass.subrange(0, first.len() as int));
        assert(second =~= pass.subrange(0, second.len() as int));
    }
    if signing_key_text(first) == key {
        assert(signing_key_text(first).len() == first.len() + 4);
        assert(key.len() == second.len() + 4);
        assert(first.len() == second.len());
        assert(first =~= key.subrange(0, first.len() as int));
        assert(second =~= key.subrange(0, second.len() as int));
    }
}

} // verus!
