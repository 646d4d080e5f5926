//! What is sent back for a page: the status, and the body that a template
//! gave or the message that stands in for it.

use crate::post::Post;
use vstd::prelude::*;

verus! {

/// The status of a reply.
#[derive(Clone, Copy, Debug, PartialEq, Eq, Structural)]
pub enum Status {
    Found,
    NotFound,
    InternalServerError,
}

/// The number of a status in HTTP.
pub open spec fn status_code(status: Status) -> int {
    match status {
        Status::Found => 200,
        Status::NotFound => 404,
        Status::InternalServerError => 500,
    }
}

impl Status {
    /// The number of the status in HTTP.
    pub fn code(&self) -> (code: u16)
        ensures
            code == status_code(*self),
    {
        match self {
            Status::Found => 200,
            Status::NotFound => 404,
            Status::InternalServerError => 500,
        }
    }
}

/// A reply: its status, its body, and whether the body is HTML or plain text.
#[derive(Clone, Debug, PartialEq, Eq)]
pub struct Reply {
    pub status: Status,
    pub body: String,
    pub html: bool,
}

/// A reply with its body as a character sequence.
pub struct ReplyView {
    pub status: Status,
    pub body: Seq<char>,
    pub html: bool,
}

impl View for Reply {
    type V = ReplyView;

    open spec fn view(&self) -> ReplyView {
        ReplyView { status: self.status, body: self.body@, html: self.html }
    }
}

/// The words before the message of a template that failed.
pub open spec fn template_error_prefix() -> Seq<char> {
    "Template error: "@
}

/// The reply for the outcome of rendering a template: the page under the
/// status asked for, or, where rendering failed, the message as plain text
/// under the status of an internal error.
pub open spec fn reply_of(rendered: Result<Seq<char>, Seq<char>>, status: Status) -> ReplyView {
    match rendered {
        Ok(page) => ReplyView { status, body: page, html: true },
        Err(message) => ReplyView {
            status: Status::InternalServerError,
            body: template_error_prefix() + message,
            html: false,
        },
    }
}

/// The outcome of rendering, with page or message as a character sequence.
pub open spec fn outcome_view(rendered: Result<String, String>) -> Result<Seq<char>, Seq<char>> {
    match rendered {
        Ok(page) => Ok(page@),
        Err(message) => Err(message@),
    }
}

/// Makes the reply for the outcome of rendering a template.
pub fn reply_for(rendered: Result<String, String>, status: Status) -> (reply: Reply)
    ensures
        reply@ == reply_of(outcome_view(rendered), status),
{
    match rendered {
        Ok(page) => Reply { status, body: page, html: true },
        Err(message) => {
            let mut body = "Template error: ".to_owned();
            body.append(message.as_str());
            Reply { status: Status::InternalServerError, body, html: false }
        },
    }
}

/// The status under which a looked-up post is answered: found, or not found.
pub fn lookup_status(post: &Option<Post>) -> (status: Status)
    ensures
        status == if post is Some {
            Status::Found
        } else {
            Status::NotFound
        },
{
    match post {
        Some(_) => Status::Found,
        None => Status::NotFound,
    }
}

} // verus!
