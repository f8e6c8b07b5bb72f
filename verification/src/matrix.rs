//! The chat-backend protocol subset the collector speaks: request
//! bodies for login, room join and message send, and the
//! classification of the backend's responses.
//!
//! The HTTP transport stays outside; it hands this module status codes
//! and takes request bodies and paths back.

use vstd::prelude::*;

use crate::randgen::random_alphanumeric;

verus! {

/// The timeout of a login call to the chat backend, in seconds.
pub const LOGIN_TIMEOUT_SECS: u64 = 3;

/// The errors a chat-backend call can end in.
#[derive(Debug)]
pub enum MatrixError {
    /// The login failed (or the session expired)
    LoginFailed,
    /// The backend answered "bad request"
    BadRequest,
    /// The request was rate limited
    RateLimited,
    /// An unknown error occurred
    Unknown,
    /// The HTTP transport failed; carries the description
    Reqwest(String),
    /// A request URL could not be built; carries the description
    InvalidUrl(String),
}

/// The user-visible message of a chat-backend error.
pub open spec fn matrix_error_message(e: MatrixError) -> Seq<char> {
    match e {
        MatrixError::LoginFailed => "Login failed"@,
        MatrixError::BadRequest => "Bad request"@,
        MatrixError::RateLimited => "Run into rate limit"@,
        MatrixError::Unknown => "unknown error"@,
        MatrixError::Reqwest(err) => "Reqwest error: "@ + err@,
        MatrixError::InvalidUrl(err) => "Error parsing url: "@ + err@,
    }
}

impl MatrixError {
    /// The user-visible message of this error.
    pub fn message(&self) -> (r: String)
        ensures
            r@ == matrix_error_message(*self),
    {
        match self {
            MatrixError::LoginFailed => "Login failed".to_owned(),
            MatrixError::BadRequest => "Bad request".to_owned(),
            MatrixError::RateLimited => "Run into rate limit".to_owned(),
            MatrixError::Unknown => "unknown error".to_owned(),
            MatrixError::Reqwest(err) => {
                let mut s = "Reqwest error: ".to_owned();
                s.append(err.as_str());
                s
            },
            MatrixError::InvalidUrl(err) => {
                let mut s = "Error parsing url: ".to_owned();
                s.append(err.as_str());
                s
            },
        }
    }
}

/// How a chat-backend HTTP status is classified: 400 is a bad request,
/// 403 a failed (or expired) login, 429 a rate limit, any other
/// non-200 status an unknown error, and 200 a success.
pub open spec fn matrix_status_result(status: u16) -> Result<(), MatrixError> {
    if status == 400 {
        Err(MatrixError::BadRequest)
    } else if status == 403 {
        Err(MatrixError::LoginFailed)
    } else if status == 429 {
        Err(MatrixError::RateLimited)
    } else if status != 200 {
        Err(MatrixError::Unknown)
    } else {
        Ok(())
    }
}

/// Classify a chat-backend HTTP status (see [`matrix_status_result`]).
pub fn classify_status(status: u16) -> (r: Result<(), MatrixError>)
    ensures
        r == matrix_status_result(status),
{
    if status == 400 {
        Err(MatrixError::BadRequest)
    } else if status == 403 {
        Err(MatrixError::LoginFailed)
    } else if status == 429 {
        Err(MatrixError::RateLimited)
    } else if status != 200 {
        Err(MatrixError::Unknown)
    } else {
        Ok(())
    }
}

/// The body of a password login request.
pub struct MatrixLoginBody {
    /// The login type tag (always `m.login.password`)
    pub login_type: String,
    /// The identifier type tag (always `m.id.user`)
    pub identifier_type: String,
    /// The user to log in as
    pub user: String,
    /// The password
    pub password: String,
}

/// Build the body of a password login request.
pub fn login_body(username: &str, password: &str) -> (b: MatrixLoginBody)
    ensures
        b.login_type@ == "m.login.password"@,
        b.identifier_type@ == "m.id.user"@,
        b.user@ == username@,
        b.password@ == password@,
{
    MatrixLoginBody {
        login_type: "m.login.password".to_owned(),
        identifier_type: "m.id.user".to_owned(),
        user: username.to_owned(),
        password: password.to_owned(),
    }
}

/// The body of a message send request.
pub struct SendMessageBody {
    /// The plain-text body
    pub body: String,
    /// The message type tag (always `m.text`)
    pub msgtype: String,
    /// The format tag, present exactly when a formatted body is
    pub format: Option<String>,
    /// The formatted (HTML) body, if any
    pub formatted_body: Option<String>,
}

/// Build the body of a message send request: the format tag
/// `org.matrix.custom.html` is present exactly when a formatted body
/// is handed in.
pub fn message_body(message: String, formatted_message: Option<String>) -> (b: SendMessageBody)
    ensures
        b.body == message,
        b.msgtype@ == "m.text"@,
        formatted_message is Some ==> (b.format matches Some(f) && f@
            == "org.matrix.custom.html"@),
        formatted_message is None ==> b.format is None,
        b.formatted_body == formatted_message,
{
    let format = match &formatted_message {
        Some(_) => Some("org.matrix.custom.html".to_owned()),
        None => None,
    };
    SendMessageBody {
        body: message,
        msgtype: "m.text".to_owned(),
        format,
        formatted_body: formatted_message,
    }
}

/// The path of the login endpoint.
pub fn login_path() -> (r: &'static str)
    ensures
        r@ == "/_matrix/client/v3/login"@,
{
    "/_matrix/client/v3/login"
}

/// The path of the join endpoint for a room.
pub fn join_room_path(room_id: &str) -> (r: String)
    ensures
        r@ == "/_matrix/client/v3/join/"@ + room_id@,
{
    let mut s = "/_matrix/client/v3/join/".to_owned();
    s.append(room_id);
    s
}

/// The path of the message send endpoint for a room and a transaction.
pub fn send_message_path(room_id: &str, txn_id: &str) -> (r: String)
    ensures
        r@ == "/_matrix/client/v3/rooms/"@ + room_id@ + "/send/m.room.message/"@ + txn_id@,
{
    let mut s = "/_matrix/client/v3/rooms/".to_owned();
    s.append(room_id);
    s.append("/send/m.room.message/");
    s.append(txn_id);
    s
}

/// A fresh transaction id for one message send: sixteen random
/// alphanumeric characters, safe inside a URL path.
pub fn new_txn_id() -> (r: String)
    ensures
        r@.len() == 16,
        forall|i: int| 0 <= i < r@.len() ==> crate::randgen::ascii_alphanumeric(#[trigger] r@[i]),
{
    random_alphanumeric(16)
}

} // verus!
