//! Requests to send and answers received, as plain data.

use vstd::prelude::*;

use crate::json::{json_view, Json, JsonModel};

verus! {

/// The verb of a request.
#[derive(Debug, Clone, Copy, PartialEq, Eq, Structural)]
pub enum HttpMethod {
    Get,
    Post,
}

/// One header of a request.
#[derive(Debug, Clone, PartialEq, Eq)]
pub struct Header {
    pub name: String,
    pub value: String,
}

impl View for Header {
    type V = (Seq<char>, Seq<char>);

    open spec fn view(&self) -> (Seq<char>, Seq<char>) {
        (self.name@, self.value@)
    }
}

/// A request for the caller to send.
#[derive(Debug, Clone, PartialEq, Eq)]
pub struct HttpRequest {
    pub method: HttpMethod,
    pub url: String,
    pub headers: Vec<Header>,
    /// The JSON to send as the body, if the request has one.
    pub body: Option<Json>,
}

/// What a request holds.
pub struct HttpRequestModel {
    pub method: HttpMethod,
    pub url: Seq<char>,
    pub headers: Seq<(Seq<char>, Seq<char>)>,
    pub body: Option<JsonModel>,
}

impl View for HttpRequest {
    type V = HttpRequestModel;

    open spec fn view(&self) -> HttpRequestModel {
        HttpRequestModel {
            method: self.method,
            url: self.url@,
            headers: Seq::new(self.headers@.len(), |i: int| self.headers@[i]@),
            body: json_view(self.body),
        }
    }
}

/// An answer: its status code and its body as text.
#[derive(Debug, Clone, PartialEq, Eq)]
pub struct HttpResponse {
    pub status: u16,
    pub body: String,
}

/// What came of sending a request.
#[derive(Debug, Clone, PartialEq, Eq)]
pub enum Exchange {
    /// The API answered.
    Answered(HttpResponse),
    /// No answer came: the connection failed or the time ran out. The text
    /// says which.
    Failed(String),
}

/// What came of sending a request, as mathematics.
pub enum ExchangeModel {
    Answered { status: int, body: Seq<char> },
    Failed(Seq<char>),
}

impl View for Exchange {
    type V = ExchangeModel;

    open spec fn view(&self) -> ExchangeModel {
        match self {
            Exchange::Answered(response) => ExchangeModel::Answered {
                status: response.status as int,
                body: response.body@,
            },
            Exchange::Failed(reason) => ExchangeModel::Failed(reason@),
        }
    }
}

impl ExchangeModel {
    /// The text of the answer's body; empty where no answer came.
    pub open spec fn body(self) -> Seq<char> {
        match self {
            ExchangeModel::Answered { body, .. } => body,
            ExchangeModel::Failed(_) => Seq::empty(),
        }
    }
}

/// Whether a status code reports success: 200 to 299.
pub open spec fn is_success(status: int) -> bool {
    200 <= status < 300
}

impl HttpResponse {
    /// Whether the status code reports success: 200 to 299.
    pub fn is_success(&self) -> (ok: bool)
        ensures
            ok == is_success(self.status as int),
    {
        200 <= self.status && self.status < 300
    }
}

} // verus!
