//! Who a request belongs to: the session's credentials and why they may
//! be refused.

use vstd::prelude::*;
use vstd::string::*;

pub mod redis_auth_manager;

verus! {

/// Why a session, a registration or a login was refused.
#[derive(Debug)]
pub enum AuthError {
    /// The session holds no token.
    NoSessionToken,
    /// The session holds no user name.
    NoSessionUsername,
    /// The user name holds the character that separates a name from what
    /// is stored under it.
    IllegalUsername,
    /// The user name is taken.
    UserExists,
    /// The user could not be stored; the text says why.
    CreateFailed(String),
    /// Nobody is registered under the user name.
    UnknownUser,
    /// The password is not the user's.
    WrongPassword,
    /// No token could be made.
    TokenFailed,
    /// The token is not one of the user's, or it has expired.
    InvalidToken,
}

/// The text that a client is shown for an error.
pub open spec fn error_text(e: AuthError) -> Seq<char> {
    match e {
        AuthError::NoSessionToken => "Cannot get session token"@,
        AuthError::NoSessionUsername => "Cannot get session username"@,
        AuthError::IllegalUsername => "Username contains illegal character: _"@,
        AuthError::UserExists => "User already exists"@,
        AuthError::CreateFailed(cause) => "Error creating user: "@ + cause@,
        AuthError::UnknownUser => "User does not exist"@,
        AuthError::WrongPassword => "Wrong password"@,
        AuthError::TokenFailed => "Cannot create token"@,
        AuthError::InvalidToken => "invalid token"@,
    }
}

impl AuthError {
    /// The text that a client is shown for this error.
    pub fn message(&self) -> (text: String)
        ensures
            text@ == error_text(*self),
    {
        match self {
            AuthError::NoSessionToken => "Cannot get session token".to_owned(),
            AuthError::NoSessionUsername => "Cannot get session username".to_owned(),
            AuthError::IllegalUsername => "Username contains illegal character: _".to_owned(),
            AuthError::UserExists => "User already exists".to_owned(),
            AuthError::CreateFailed(cause) => "Error creating user: ".to_owned().concat(
                cause.as_str(),
            ),
            AuthError::UnknownUser => "User does not exist".to_owned(),
            AuthError::WrongPassword => "Wrong password".to_owned(),
            AuthError::TokenFailed => "Cannot create token".to_owned(),
            AuthError::InvalidToken => "invalid token".to_owned(),
        }
    }
}

/// What a session says of its owner.
#[derive(Debug)]
pub struct Credentials {
    pub username: String,
    pub token: String,
}

/// Reads the credentials out of what a session holds. A session without a
/// token is refused before its user name is looked at.
pub fn authorize_from_session(
    session_token: Option<String>,
    session_username: Option<String>,
) -> (authorized: Result<Credentials, AuthError>)
    ensures
        match (session_token, session_username) {
            (Some(token), Some(username)) => authorized matches Ok(c) && c.token == token
                && c.username == username,
            (Some(_), None) => authorized matches Err(e) && e is NoSessionUsername,
            (None, _) => authorized matches Err(e) && e is NoSessionToken,
        },
{
    let token = match session_token {
        Some(token) => token,
        None => {
            return Err(AuthError::NoSessionToken);
        },
    };
    let username = match session_username {
        Some(username) => username,
        None => {
            return Err(AuthError::NoSessionUsername);
        },
    };
    Ok(Credentials { username, token })
}

} // verus!
