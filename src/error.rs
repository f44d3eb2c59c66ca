use vstd::prelude::*;

verus! {

/// Why a structured request body was rejected at the transport boundary.
#[derive(Clone, Copy, Debug, PartialEq, Eq, Structural)]
pub enum JsonRejectionKind {
    /// The body parsed but did not have the expected shape.
    JsonDataError,
    /// The body is not valid JSON.
    JsonSyntaxError,
    /// The `Content-Type: application/json` header is missing.
    MissingJsonContentType,
    /// The body could not be buffered.
    BytesRejection,
    /// Any other rejection.
    Other,
}

/// The errors that a request can end in.
#[derive(Debug)]
pub enum ErrorType {
    /// Malformed structured input; the caller's fault.
    InvalidJsonBody(JsonRejectionKind),
    /// A validation, resolution or decoding failure; the caller's fault.
    InvalidRequest(String),
    /// A failure in engine setup or infrastructure; the server's fault.
    InternalError(String),
}

/// The body of an error response.
#[derive(Debug)]
pub struct ErrorResponse {
    pub message: String,
}

/// `r` is a failure of the caller's request with message `msg`.
pub open spec fn invalid_request<T>(r: Result<T, ErrorType>, msg: Seq<char>) -> bool {
    match r {
        Err(ErrorType::InvalidRequest(m)) => m@ == msg,
        _ => false,
    }
}

/// The message that answers a rejected body.
pub open spec fn json_rejection_message(k: JsonRejectionKind) -> Seq<char> {
    match k {
        JsonRejectionKind::JsonDataError => "Invalid JSON data"@,
        JsonRejectionKind::JsonSyntaxError => "Invalid JSON syntax"@,
        JsonRejectionKind::MissingJsonContentType => "Missing 'Content-Type: application/json' header"@,
        JsonRejectionKind::BytesRejection => "Failed to buffer request body"@,
        JsonRejectionKind::Other => "Unknown error"@,
    }
}

/// The HTTP status that answers an error: 400 for the caller's faults, 500
/// for the server's.
pub open spec fn status_of(e: ErrorType) -> u16 {
    match e {
        ErrorType::InvalidJsonBody(_) => 400,
        ErrorType::InvalidRequest(_) => 400,
        ErrorType::InternalError(_) => 500,
    }
}

/// The message of the response that answers an error.
pub open spec fn response_message(e: ErrorType) -> Seq<char> {
    match e {
        ErrorType::InvalidJsonBody(k) => json_rejection_message(k),
        ErrorType::InvalidRequest(m) => m@,
        ErrorType::InternalError(m) => m@,
    }
}

/// The short description of an error.
pub open spec fn description(e: ErrorType) -> Seq<char> {
    match e {
        ErrorType::InvalidJsonBody(_) => "Invalid payload."@,
        ErrorType::InvalidRequest(m) => "Invalid request: "@ + m@,
        ErrorType::InternalError(_) => "An internal server error has occurred."@,
    }
}

impl ErrorType {
    /// Whether the error is the caller's fault.
    pub fn is_client_error(&self) -> (r: bool)
        ensures
            r == (status_of(*self) == 400),
    {
        match self {
            ErrorType::InternalError(_) => false,
            _ => true,
        }
    }

    /// The status and the body of the response that answers this error.
    pub fn into_response_parts(self) -> (r: (u16, ErrorResponse))
        ensures
            r.0 == status_of(self),
            r.1.message@ == response_message(self),
    {
        match self {
            ErrorType::InvalidJsonBody(k) => {
                let message = match k {
                    JsonRejectionKind::JsonDataError => "Invalid JSON data",
                    JsonRejectionKind::JsonSyntaxError => "Invalid JSON syntax",
                    JsonRejectionKind::MissingJsonContentType =>
                        "Missing 'Content-Type: application/json' header",
                    JsonRejectionKind::BytesRejection => "Failed to buffer request body",
                    JsonRejectionKind::Other => "Unknown error",
                };
                (400, ErrorResponse { message: message.to_owned() })
            },
            ErrorType::InvalidRequest(m) => (400, ErrorResponse { message: m }),
            ErrorType::InternalError(m) => (500, ErrorResponse { message: m }),
        }
    }

    /// The short description of this error.
    pub fn to_string(&self) -> (r: String)
        ensures
            r@ == description(*self),
    {
        match self {
            ErrorType::InvalidJsonBody(_) => "Invalid payload.".to_owned(),
            ErrorType::InvalidRequest(m) => {
                let mut s = "Invalid request: ".to_owned();
                s.append(m.as_str());
                s
            },
            ErrorType::InternalError(_) => "An internal server error has occurred.".to_owned(),
        }
    }
}

} // verus!
