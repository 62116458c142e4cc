//! The error of an API call.

use vstd::prelude::*;
use vstd::string::StringExecFns;
use vstd::string::to_string_from_display_ensures;
use vstd::std_specs::convert::FromSpecImpl;
use std::string::FromUtf8Error;
use std::io::Error as IoError;
use serde_json::Error as JsonError;
use ureq::Error as UreqError;
use crate::apis::response::ResponseContent;
use crate::apis::text;
use crate::apis::text::push_decimal;

verus! {

#[verifier::external_type_specification]
#[verifier::external_body]
pub struct ExUreqError(UreqError);

#[verifier::external_type_specification]
#[verifier::external_body]
pub struct ExJsonError(JsonError);

#[verifier::external_type_specification]
#[verifier::external_body]
pub struct ExIoError(IoError);

#[verifier::external_type_specification]
#[verifier::external_body]
pub struct ExFromUtf8Error(FromUtf8Error);

/// Why an API call failed; `T` is the endpoint's type of error entity.
#[derive(Debug)]
pub enum Error<T> {
    /// A multipart request body could not be written.
    Multipart { field: Option<String>, error: IoError },
    /// The HTTP transport failed.
    Ureq(UreqError),
    /// A JSON body could not be read or written.
    Serde(JsonError),
    /// Reading the response failed.
    Io(IoError),
    /// The server answered with an error status.
    ResponseError(ResponseContent<T>),
    /// A text body was not valid UTF-8.
    StringParse(FromUtf8Error),
}

impl<T> From<UreqError> for Error<T> {
    fn from(e: UreqError) -> (r: Self) {
        Error::Ureq(e)
    }
}

impl<T> FromSpecImpl<UreqError> for Error<T> {
    open spec fn obeys_from_spec() -> bool {
        true
    }

    open spec fn from_spec(e: UreqError) -> Self {
        Error::Ureq(e)
    }
}

impl<T> From<JsonError> for Error<T> {
    fn from(e: JsonError) -> (r: Self) {
        Error::Serde(e)
    }
}

impl<T> FromSpecImpl<JsonError> for Error<T> {
    open spec fn obeys_from_spec() -> bool {
        true
    }

    open spec fn from_spec(e: JsonError) -> Self {
        Error::Serde(e)
    }
}

impl<T> From<IoError> for Error<T> {
    fn from(e: IoError) -> (r: Self) {
        Error::Io(e)
    }
}

impl<T> FromSpecImpl<IoError> for Error<T> {
    open spec fn obeys_from_spec() -> bool {
        true
    }

    open spec fn from_spec(e: IoError) -> Self {
        Error::Io(e)
    }
}

impl<T> From<FromUtf8Error> for Error<T> {
    fn from(e: FromUtf8Error) -> (r: Self) {
        Error::StringParse(e)
    }
}

impl<T> FromSpecImpl<FromUtf8Error> for Error<T> {
    open spec fn obeys_from_spec() -> bool {
        true
    }

    open spec fn from_spec(e: FromUtf8Error) -> Self {
        Error::StringParse(e)
    }
}

/// The part of the library that an error comes from, as its message names it.
pub open spec fn error_module<T>(e: Error<T>) -> Seq<char> {
    match e {
        Error::Multipart { .. } => "multipart"@,
        Error::Ureq(_) => "ureq"@,
        Error::Serde(_) => "serde"@,
        Error::Io(_) => "IO"@,
        Error::ResponseError(_) => "response"@,
        Error::StringParse(_) => "string"@,
    }
}

/// `error in <module>: <detail>`
pub open spec fn error_message(module: Seq<char>, detail: Seq<char>) -> Seq<char> {
    "error in "@ + module + ": "@ + detail
}

impl<T> Error<T> {
    /// Whether the error wraps an underlying error: every kind but an error
    /// response does.
    pub fn has_source(&self) -> (r: bool)
        ensures
            r == !(self is ResponseError),
    {
        match self {
            Error::ResponseError(_) => false,
            _ => true,
        }
    }

    /// The message of the error: `error in <module>: <detail>`, where the
    /// detail of an error response is `status code <status>`, that of a
    /// multipart error on a named field `failed to encode <field>: <cause>`,
    /// and otherwise the message (`to_string`) of the underlying error.
    pub fn to_string(&self) -> (r: String)
        ensures
            exists|detail: Seq<char>| r@ == #[trigger] error_message(error_module(*self), detail),
            self matches Error::ResponseError(c) ==> r@ == error_message(
                "response"@,
                "status code "@ + text::decimal(c.status as nat),
            ),
            self matches Error::Multipart { field: Some(f), error } ==> exists|cause: String|
                #[trigger] to_string_from_display_ensures::<IoError>(&error, cause) && r@
                    == error_message("multipart"@, "failed to encode "@ + f@ + ": "@ + cause@),
            self matches Error::Multipart { field: None, error } ==> exists|cause: String|
                #[trigger] to_string_from_display_ensures::<IoError>(&error, cause) && r@
                    == error_message("multipart"@, cause@),
            self matches Error::Ureq(e) ==> exists|cause: String|
                #[trigger] to_string_from_display_ensures::<UreqError>(&e, cause) && r@
                    == error_message("ureq"@, cause@),
            self matches Error::Serde(e) ==> exists|cause: String|
                #[trigger] to_string_from_display_ensures::<JsonError>(&e, cause) && r@
                    == error_message("serde"@, cause@),
            self matches Error::Io(e) ==> exists|cause: String|
                #[trigger] to_string_from_display_ensures::<IoError>(&e, cause) && r@
                    == error_message("IO"@, cause@),
            self matches Error::StringParse(e) ==> exists|cause: String|
                #[trigger] to_string_from_display_ensures::<FromUtf8Error>(&e, cause) && r@
                    == error_message("string"@, cause@),
    {
        let mut r = String::from_str("error in ");
        let mut detail = String::new();
        let ghost mut shown: Option<String> = None;
        match self {
            Error::Multipart { field, error } => {
                r.append("multipart");
                let cause = error.to_string();
                proof {
                    shown = Some(cause);
                }
                match field {
                    Some(f) => {
                        detail.append("failed to encode ");
                        detail.append(f.as_str());
                        detail.append(": ");
                        detail.append(cause.as_str());
                    },
                    None => {
                        detail = cause;
                    },
                }
            },
            Error::Ureq(e) => {
                r.append("ureq");
                detail = e.to_string();
                proof {
                    shown = Some(detail);
                }
            },
            Error::Serde(e) => {
                r.append("serde");
                detail = e.to_string();
                proof {
                    shown = Some(detail);
                }
            },
            Error::Io(e) => {
                r.append("IO");
                detail = e.to_string();
                proof {
                    shown = Some(detail);
                }
            },
            Error::ResponseError(c) => {
                r.append("response");
                detail.append("status code ");
                push_decimal(&mut detail, c.status as u64);
            },
            Error::StringParse(e) => {
                r.append("string");
                detail = e.to_string();
                proof {
                    shown = Some(detail);
                }
            },
        }
        r.append(": ");
        r.append(detail.as_str());
        proof {
            let cause = shown.unwrap();
            assert(r@ =~= error_message(error_module(*self), detail@));
            match self {
                Error::Multipart { field, error } => {
                    assert(to_string_from_display_ensures::<IoError>(error, cause));
                },
                Error::Ureq(e) => {
                    assert(to_string_from_display_ensures::<UreqError>(e, cause));
                },
                Error::Serde(e) => {
                    assert(to_string_from_display_ensures::<JsonError>(e, cause));
                },
                Error::Io(e) => {
                    assert(to_string_from_display_ensures::<IoError>(e, cause));
                },
                Error::StringParse(e) => {
                    assert(to_string_from_display_ensures::<FromUtf8Error>(e, cause));
                },
                Error::ResponseError(_) => {},
            }
        }
        r
    }
}

} // verus!
