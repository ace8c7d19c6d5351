//! What can go wrong between a method call and its result.

use vstd::prelude::*;

use crate::json::views;
use crate::text::{decimal, decimal_of_u64};

verus! {

/// A failure, as it is handed back to the caller of a method.
#[derive(Debug, Clone, PartialEq, Eq)]
pub enum ServiceError {
    /// The credential is missing.
    Configuration,
    /// A required parameter is missing or is no string; the name is the
    /// parameter's.
    MissingParameter(String),
    /// No method goes by this name.
    UnknownMethod(String),
    /// The request did not get an answer; the text says why.
    Transport(String),
    /// The API answered with a status outside 200..=299.
    Status { code: u16, body: String },
    /// The API answered with a body that is not what the method expects.
    Decode,
}

/// What a failure holds.
pub enum ServiceErrorModel {
    Configuration,
    MissingParameter(Seq<char>),
    UnknownMethod(Seq<char>),
    Transport(Seq<char>),
    Status { code: int, body: Seq<char> },
    Decode,
}

impl View for ServiceError {
    type V = ServiceErrorModel;

    open spec fn view(&self) -> ServiceErrorModel {
        match self {
            ServiceError::Configuration => ServiceErrorModel::Configuration,
            ServiceError::MissingParameter(name) => ServiceErrorModel::MissingParameter(name@),
            ServiceError::UnknownMethod(name) => ServiceErrorModel::UnknownMethod(name@),
            ServiceError::Transport(text) => ServiceErrorModel::Transport(text@),
            ServiceError::Status { code, body } => ServiceErrorModel::Status { code: *code as int, body: body@ },
            ServiceError::Decode => ServiceErrorModel::Decode,
        }
    }
}

impl ServiceErrorModel {
    /// The sentence that tells a person what went wrong.
    pub open spec fn message(self) -> Seq<char> {
        match self {
            ServiceErrorModel::Configuration => "Missing access token"@,
            ServiceErrorModel::MissingParameter(name) => "Missing required parameter: "@ + name,
            ServiceErrorModel::UnknownMethod(name) => "Unknown method: "@ + name,
            ServiceErrorModel::Transport(text) => text,
            ServiceErrorModel::Status { code, body } => "API request failed: "@ + decimal(code) + " - "@ + body,
            ServiceErrorModel::Decode => "Failed to parse response"@,
        }
    }
}

impl ServiceError {
    /// The sentence that tells a person what went wrong.
    pub fn message(&self) -> (text: String)
        ensures
            text@ == self@.message(),
    {
        match self {
            ServiceError::Configuration => "Missing access token".to_owned(),
            ServiceError::MissingParameter(name) => {
                let mut text = "Missing required parameter: ".to_owned();
                text.append(name.as_str());
                text
            },
            ServiceError::UnknownMethod(name) => {
                let mut text = "Unknown method: ".to_owned();
                text.append(name.as_str());
                text
            },
            ServiceError::Transport(text) => text.clone(),
            ServiceError::Status { code, body } => {
                let mut text = "API request failed: ".to_owned();
                let number = decimal_of_u64(*code as u64);
                text.append(number.as_str());
                text.append(" - ");
                text.append(body.as_str());
                text
            },
            ServiceError::Decode => "Failed to parse response".to_owned(),
        }
    }
}

/// The view of a result that holds one value.
pub open spec fn one_view<T: View>(result: Result<T, ServiceError>) -> Result<T::V, ServiceErrorModel> {
    match result {
        Ok(value) => Ok(value@),
        Err(error) => Err(error@),
    }
}

/// The view of a result that holds a list.
pub open spec fn list_view<T: View>(result: Result<Vec<T>, ServiceError>) -> Result<Seq<T::V>, ServiceErrorModel> {
    match result {
        Ok(list) => Ok(views(list@)),
        Err(error) => Err(error@),
    }
}

} // verus!
