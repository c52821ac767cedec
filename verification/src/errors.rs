//! The errors a request handler answers with, and the HTTP reply each becomes.
use vstd::prelude::*;
use crate::json::{json_object_text, string_object_json};

verus! {

/// An error a handler reports to its client.
#[derive(Debug, Clone, Copy, PartialEq, Eq, Structural)]
pub enum UserError {
    ValidationError,
    InternalError,
    NotFoundError,
}

/// The message of each error.
pub open spec fn user_error_message(e: UserError) -> Seq<char> {
    match e {
        UserError::ValidationError => "Invalid input parameter"@,
        UserError::InternalError => "Internal server error"@,
        UserError::NotFoundError => "Not found"@,
    }
}

/// The HTTP status of each error: 400, 500, 404.
pub open spec fn user_error_status(e: UserError) -> u16 {
    match e {
        UserError::ValidationError => 400,
        UserError::InternalError => 500,
        UserError::NotFoundError => 404,
    }
}

/// The JSON body of the reply: an object whose `msg` is the error's message.
pub open spec fn user_error_body(e: UserError) -> Seq<char> {
    json_object_text(seq![("msg"@, user_error_message(e))])
}

/// Every error answers with a body whose only field, `msg`, holds that
/// error's own message; each error has its own message and its own status,
/// which is a client error for invalid input and a missing resource, and a
/// server error for an internal failure.
pub proof fn lemma_reply_names_its_error(e: UserError, other: UserError)
    ensures
        user_error_body(e) == json_object_text(seq![(seq!['m', 's', 'g'], user_error_message(e))]),
        e != other ==> user_error_message(e) != user_error_message(other),
        e != other ==> user_error_status(e) != user_error_status(other),
        user_error_message(UserError::ValidationError) == "Invalid input parameter"@,
        user_error_message(UserError::InternalError) == "Internal server error"@,
        user_error_message(UserError::NotFoundError) == "Not found"@,
        (400 <= user_error_status(e) < 500) == (e != UserError::InternalError),
        (500 <= user_error_status(e) < 600) == (e == UserError::InternalError),
{
    reveal_strlit("msg");
    reveal_strlit("Invalid input parameter");
    reveal_strlit("Internal server error");
    reveal_strlit("Not found");
    assert("msg"@ =~= seq!['m', 's', 'g']);
    // The three messages differ in length.
    assert(user_error_message(e).len() != user_error_message(other).len() || e == other);
}

/// The reply to an error: its status and its JSON body.
pub struct ErrorResponse {
    pub status: u16,
    pub body: String,
}

impl UserError {
    /// The error's message, as its `Display` prints it.
    pub fn message(&self) -> (s: String)
        ensures
            s@ == user_error_message(*self),
    {
        match self {
            UserError::ValidationError => String::from_str("Invalid input parameter"),
            UserError::InternalError => String::from_str("Internal server error"),
            UserError::NotFoundError => String::from_str("Not found"),
        }
    }

    /// The HTTP status code of the reply.
    pub fn status_code(&self) -> (code: u16)
        ensures
            code == user_error_status(*self),
    {
        match self {
            UserError::ValidationError => 400,
            UserError::InternalError => 500,
            UserError::NotFoundError => 404,
        }
    }

    /// The reply: the status code and `{"msg": <message>}` as JSON text.
    pub fn error_response(&self) -> (r: ErrorResponse)
        ensures
            r.status == user_error_status(*self),
            r.body@ == user_error_body(*self),
            r.body@ == json_object_text(seq![("msg"@, user_error_message(*self))]),
    {
        proof { reveal_strlit("msg"); }
        let mut entries: Vec<(String, String)> = Vec::new();
        entries.push((String::from_str("msg"), self.message()));
        proof {
            assert(crate::json::entries_view(entries@) =~= seq![("msg"@, user_error_message(*self))]);
        }
        let body = string_object_json(entries);
        ErrorResponse { status: self.status_code(), body }
    }
}

} // verus!
