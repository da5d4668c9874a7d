//! The credential surface: registering, logging in and logging out.

use crate::auth_manager::{error_text, AuthError};
use crate::routes::{Reply, BAD_REQUEST, OK};
use vstd::prelude::*;
use vstd::string::*;

verus! {

/// The body of a login request.
#[derive(Clone)]
pub struct LoginPostRequest {
    pub username: String,
    pub password: String,
}

/// The body of a registration request.
#[derive(Clone)]
pub struct RegisterPostRequest {
    pub username: String,
    pub password: String,
}

/// What a session is to hold after a login or a registration.
#[derive(Debug)]
pub struct SessionEntries {
    pub session_token: String,
    pub session_username: String,
}

/// The answer to a request whose session was refused.
pub fn unauthorized(e: &AuthError) -> (reply: Reply)
    ensures
        reply.status == BAD_REQUEST,
        reply.body@ == error_text(*e),
{
    Reply { status: BAD_REQUEST, body: e.message() }
}

/// Refuses a login or a registration from a session that has a token.
pub fn already_logged_in(session_token: &Option<String>) -> (refusal: Option<Reply>)
    ensures
        match session_token {
            Some(_) => refusal matches Some(reply) && reply.status == BAD_REQUEST && reply.body@
                == "Already logged in"@,
            None => refusal is None,
        },
{
    match session_token {
        Some(_) => Some(Reply { status: BAD_REQUEST, body: "Already logged in".to_owned() }),
        None => None,
    }
}

/// Answers a login or a registration that the credential store has
/// decided: a token goes to the client and, with the user's name, into
/// the session; a refusal goes to the client as its text.
pub fn signed_in(username: String, outcome: Result<String, AuthError>) -> (answer: (
    Reply,
    Option<SessionEntries>,
))
    ensures
        match outcome {
            Ok(token) => {
                &&& answer.0.status == OK
                &&& answer.0.body@ == token@
                &&& answer.1 matches Some(entries) && entries.session_token == token
                    && entries.session_username == username
            },
            Err(e) => {
                &&& answer.0.status == BAD_REQUEST
                &&& answer.0.body@ == error_text(e)
                &&& answer.1 is None
            },
        },
{
    match outcome {
        Ok(token) => {
            let reply = Reply { status: OK, body: token.clone() };
            (reply, Some(SessionEntries { session_token: token, session_username: username }))
        },
        Err(e) => (unauthorized(&e), None),
    }
}

/// Answers a registration; see `signed_in`.
pub fn register(info: RegisterPostRequest, outcome: Result<String, AuthError>) -> (answer: (
    Reply,
    Option<SessionEntries>,
))
    ensures
        match outcome {
            Ok(token) => {
                &&& answer.0.status == OK
                &&& answer.0.body@ == token@
                &&& answer.1 matches Some(entries) && entries.session_token == token
                    && entries.session_username == info.username
            },
            Err(e) => {
                &&& answer.0.status == BAD_REQUEST
                &&& answer.0.body@ == error_text(e)
                &&& answer.1 is None
            },
        },
{
    signed_in(info.username, outcome)
}

/// Answers a login; see `signed_in`.
pub fn login(info: LoginPostRequest, outcome: Result<String, AuthError>) -> (answer: (
    Reply,
    Option<SessionEntries>,
))
    ensures
        match outcome {
            Ok(token) => {
                &&& answer.0.status == OK
                &&& answer.0.body@ == token@
                &&& answer.1 matches Some(entries) && entries.session_token == token
                    && entries.session_username == info.username
            },
            Err(e) => {
                &&& answer.0.status == BAD_REQUEST
                &&& answer.0.body@ == error_text(e)
                &&& answer.1 is None
            },
        },
{
    signed_in(info.username, outcome)
}

/// Answers a logout, given whether the session could be read and whether
/// a token was taken out of it.
pub fn logout(session_readable: bool, token_removed: bool) -> (reply: Reply)
    ensures
        if session_readable && token_removed {
            reply.status == OK && reply.body@.len() == 0
        } else {
            reply.status == BAD_REQUEST && reply.body@ == "Not logged in"@
        },
{
    if session_readable && token_removed {
        Reply { status: OK, body: String::new() }
    } else {
        Reply { status: BAD_REQUEST, body: "Not logged in".to_owned() }
    }
}

} // verus!
