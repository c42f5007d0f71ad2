//! The responses that the server builds itself.

use vstd::prelude::*;

verus! {

/// The status of a response.
#[derive(Clone, Copy, Debug, PartialEq, Eq, Structural)]
pub enum Status {
    Success,
    BadRequest,
    Forbidden,
    NotFound,
    MethodNotAllowed,
    InternalServerError,
}

impl Status {
    /// The number of the status in the HTTP protocol.
    pub open spec fn spec_code(self) -> u16 {
        match self {
            Status::Success => 200,
            Status::BadRequest => 400,
            Status::Forbidden => 403,
            Status::NotFound => 404,
            Status::MethodNotAllowed => 405,
            Status::InternalServerError => 500,
        }
    }

    /// The number of the status in the HTTP protocol.
    pub fn code(self) -> (code: u16)
        ensures
            code == self.spec_code(),
            self is Success <==> code == 200,
            self is BadRequest <==> code == 400,
            self is Forbidden <==> code == 403,
            self is NotFound <==> code == 404,
            self is MethodNotAllowed <==> code == 405,
            self is InternalServerError <==> code == 500,
    {
        match self {
            Status::Success => 200,
            Status::BadRequest => 400,
            Status::Forbidden => 403,
            Status::NotFound => 404,
            Status::MethodNotAllowed => 405,
            Status::InternalServerError => 500,
        }
    }
}

/// A response with at most one header of its own.
pub struct Response {
    pub status: Status,
    /// The name and the value of the header.
    pub header: Option<(String, String)>,
    pub body: String,
}

/// The model of a [`Response`].
pub struct ResponseView {
    pub status: Status,
    pub header: Option<(Seq<char>, Seq<char>)>,
    pub body: Seq<char>,
}

impl View for Response {
    type V = ResponseView;

    open spec fn view(&self) -> ResponseView {
        ResponseView {
            status: self.status,
            header: match self.header {
                Some(header) => Some((header.0@, header.1@)),
                None => None,
            },
            body: self.body@,
        }
    }
}

impl ResponseView {
    /// A response that carries text.
    pub open spec fn text(status: Status, body: Seq<char>) -> ResponseView {
        ResponseView { status, header: None, body }
    }

    /// A successful response that carries JSON.
    pub open spec fn json(body: Seq<char>) -> ResponseView {
        ResponseView {
            status: Status::Success,
            header: Some(("Content-Type"@, "application/json"@)),
            body,
        }
    }

    /// The refusal of a method other than `POST`.
    pub open spec fn only_post() -> ResponseView {
        ResponseView {
            status: Status::MethodNotAllowed,
            header: Some(("allow"@, "POST"@)),
            body: Seq::empty(),
        }
    }
}

impl Response {
    /// A response that carries text.
    pub fn text(status: Status, body: String) -> (response: Response)
        ensures
            response@ == ResponseView::text(status, body@),
            response.status == status,
            response.header is None,
            response.body@ == body@,
    {
        Response { status, header: None, body }
    }

    /// A successful response that carries JSON.
    pub fn json(body: String) -> (response: Response)
        ensures
            response@ == ResponseView::json(body@),
            response.status == Status::Success,
            response.header matches Some((name, value)) && name@ == "Content-Type"@ && value@
                == "application/json"@,
            response.body@ == body@,
    {
        Response {
            status: Status::Success,
            header: Some(("Content-Type".to_owned(), "application/json".to_owned())),
            body,
        }
    }

    /// The refusal of a method other than `POST`.
    pub fn only_post() -> (response: Response)
        ensures
            response@ == ResponseView::only_post(),
            response.status == Status::MethodNotAllowed,
            response.header matches Some((name, value)) && name@ == "allow"@ && value@ == "POST"@,
            response.body@.len() == 0,
    {
        Response {
            status: Status::MethodNotAllowed,
            header: Some(("allow".to_owned(), "POST".to_owned())),
            body: String::new(),
        }
    }
}

} // verus!
