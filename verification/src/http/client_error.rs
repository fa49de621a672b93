//! What a client is told of a request that failed.

use crate::error::{Error, OidcValidationError};
use vstd::prelude::*;

verus! {

/// The answer to a request that failed.
#[derive(Debug, PartialEq, Eq)]
pub struct ClientError {
    /// The unique name of the error.
    pub error_name: &'static str,
    /// The HTTP status that the answer goes out with.
    pub status: u16,
    /// The unique id of the request.
    pub request_id: Option<String>,
    /// Additional details.
    pub error_details: Option<String>,
    /// A message that may be shown to the user.
    pub client_message: Option<&'static str>,
}

/// A `ClientError` as plain values.
pub struct ClientAnswer {
    pub error_name: Seq<char>,
    pub status: u16,
    pub request_id: Option<Seq<char>>,
    pub error_details: Option<Seq<char>>,
    pub client_message: Option<Seq<char>>,
}

impl View for ClientError {
    type V = ClientAnswer;

    open spec fn view(&self) -> ClientAnswer {
        ClientAnswer {
            error_name: self.error_name@,
            status: self.status,
            request_id: match self.request_id {
                Some(id) => Some(id@),
                None => None,
            },
            error_details: match self.error_details {
                Some(details) => Some(details@),
                None => None,
            },
            client_message: match self.client_message {
                Some(message) => Some(message@),
                None => None,
            },
        }
    }
}

/// The answer that gives nothing away: something went wrong on this side.
pub open spec fn internal_server_error() -> ClientAnswer {
    ClientAnswer {
        error_name: "InternalServerError"@,
        status: 500,
        request_id: None,
        error_details: Some("Something went wrong on our side"@),
        client_message: Some("Something went wrong"@),
    }
}

/// The answer to each error. Failures of the store, of the signing, of the
/// push transport and of the service's own setup are answered alike, as an
/// internal error. A bare status is answered with that status and nothing
/// more: this is how an unauthorised request is answered.
pub open spec fn answer_to(e: Error) -> ClientAnswer {
    match e {
        Error::OidcValidate(OidcValidationError::CacheError) => internal_server_error(),
        Error::OidcValidate(_) => ClientAnswer {
            error_name: "JwtMissingKidField"@,
            status: 417,
            request_id: None,
            error_details: Some("The access token provided does not have the required shape."@),
            client_message: Some(
                "The auth token is not valid. Please try to log out and in again."@,
            ),
        },
        Error::PassNotFound => ClientAnswer {
            error_name: "PassNotFound"@,
            status: 404,
            request_id: None,
            error_details: Some("this pass does not exist"@),
            client_message: Some("the pass you search for does not exist."@),
        },
        Error::InvalidRequest(message) => ClientAnswer {
            error_name: "InvalidRequest"@,
            status: 400,
            request_id: None,
            error_details: Some(message@),
            client_message: None,
        },
        Error::InvalidAmountOfPoints => ClientAnswer {
            error_name: "InvalidAmountOfPoints"@,
            status: 400,
            request_id: None,
            error_details: Some("the amount of points entered are not valid"@),
            client_message: Some(
                "The amount of points entered are not valid. Are they maybe lower / higher than possible?"@,
            ),
        },
        Error::AxumPathRejection(rejection) => ClientAnswer {
            error_name: "PathRejection"@,
            status: rejection.status,
            request_id: None,
            error_details: Some(rejection.body_text@),
            client_message: None,
        },
        Error::AxumJsonRejection(rejection) => ClientAnswer {
            error_name: "JsonRejection"@,
            status: rejection.status,
            request_id: None,
            error_details: Some(rejection.body_text@),
            client_message: None,
        },
        Error::AxumTypedHeaderRejection(rejection) => ClientAnswer {
            error_name: "HeaderRejection"@,
            status: 400,
            request_id: None,
            error_details: Some(rejection@),
            client_message: None,
        },
        Error::HttpStatus(status) => ClientAnswer {
            error_name: "HttpStatus"@,
            status,
            request_id: None,
            error_details: None,
            client_message: None,
        },
        _ => internal_server_error(),
    }
}

impl ClientError {
    /// The answer that gives nothing away.
    pub fn new_internal_server_error() -> (r: Self)
        ensures
            r@ == internal_server_error(),
    {
        ClientError {
            error_name: "InternalServerError",
            error_details: Some("Something went wrong on our side".to_owned()),
            status: 500,
            request_id: None,
            client_message: Some("Something went wrong"),
        }
    }

    /// The same answer, marked with the id of the request that it answers.
    pub fn with_request_id(self, request_id: String) -> (r: Self)
        ensures
            r@ == (ClientAnswer { request_id: Some(request_id@), ..self@ }),
    {
        ClientError {
            error_name: self.error_name,
            status: self.status,
            request_id: Some(request_id),
            error_details: self.error_details,
            client_message: self.client_message,
        }
    }
}

impl From<Error> for ClientError {
    fn from(value: Error) -> (r: Self)
        ensures
            r@ == answer_to(value),
    {
        match value {
            Error::OidcValidate(e) => match e {
                OidcValidationError::ValidationFailed
                | OidcValidationError::MissingKIDToken
                | OidcValidationError::MissingKIDJWKS => ClientError {
                    error_name: "JwtMissingKidField",
                    error_details: Some(
                        "The access token provided does not have the required shape.".to_owned(),
                    ),
                    status: 417,
                    request_id: None,
                    client_message: Some(
                        "The auth token is not valid. Please try to log out and in again.",
                    ),
                },
                OidcValidationError::CacheError => Self::new_internal_server_error(),
            },
            Error::PassNotFound => ClientError {
                error_name: "PassNotFound",
                error_details: Some("this pass does not exist".to_owned()),
                status: 404,
                request_id: None,
                client_message: Some("the pass you search for does not exist."),
            },
            Error::InvalidRequest(message) => ClientError {
                error_name: "InvalidRequest",
                error_details: Some(message),
                status: 400,
                request_id: None,
                client_message: None,
            },
            Error::InvalidAmountOfPoints => ClientError {
                error_name: "InvalidAmountOfPoints",
                error_details: Some("the amount of points entered are not valid".to_owned()),
                status: 400,
                request_id: None,
                client_message: Some(
                    "The amount of points entered are not valid. Are they maybe lower / higher than possible?",
                ),
            },
            Error::AxumPathRejection(rejection) => ClientError {
                error_name: "PathRejection",
                request_id: None,
                status: rejection.status,
                client_message: None,
                error_details: Some(rejection.body_text),
            },
            Error::AxumJsonRejection(rejection) => ClientError {
                error_name: "JsonRejection",
                request_id: None,
                status: rejection.status,
                client_message: None,
                error_details: Some(rejection.body_text),
            },
            Error::AxumTypedHeaderRejection(rejection) => ClientError {
                error_name: "HeaderRejection",
                request_id: None,
                status: 400,
                client_message: None,
                error_details: Some(rejection),
            },
            Error::HttpStatus(status) => ClientError {
                error_name: "HttpStatus",
                request_id: None,
                status,
                client_message: None,
                error_details: None,
            },
            Error::Unknown
            | Error::IO(_)
            | Error::OpenSsl(_)
            | Error::Env(_)
            | Error::AppleApn(_)
            | Error::OidcValidateBuild(_)
            | Error::Image(_)
            | Error::Database(_)
            | Error::Other(_)
            | Error::DatabaseMigration(_) => Self::new_internal_server_error(),
        }
    }
}

impl vstd::std_specs::convert::FromSpecImpl<Error> for ClientError {
    open spec fn obeys_from_spec() -> bool {
        false
    }

    open spec fn from_spec(value: Error) -> Self {
        arbitrary()
    }
}

} // verus!
