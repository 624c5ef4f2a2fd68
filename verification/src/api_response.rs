//! The reply of the network entry point: a status code and a body.

use crate::text::{decimal, decimal_text};
use vstd::prelude::*;

verus! {

/// A reply with a status code and a body text.
#[derive(Debug)]
pub struct ApiResponse {
    pub status_code: u16,
    pub body: String,
}

/// The mathematical value of an [`ApiResponse`].
pub struct ApiResponseView {
    pub status_code: int,
    pub body: Seq<char>,
}

impl View for ApiResponse {
    type V = ApiResponseView;

    open spec fn view(&self) -> ApiResponseView {
        ApiResponseView { status_code: self.status_code as int, body: self.body@ }
    }
}

/// The status of an operation that is done.
pub const OK: u16 = 200;

/// The status of an operation that stored something new.
pub const CREATED: u16 = 201;

/// The status of a call whose payload is malformed.
pub const BAD_REQUEST: u16 = 400;

/// The status of a call that is not authenticated.
pub const UNAUTHENTICATED: u16 = 401;

/// The status of a call whose claim does not allow the operation.
pub const FORBIDDEN: u16 = 403;

/// The status of a call whose operation failed inside the service.
pub const INTERNAL_ERROR: u16 = 500;

/// Whether `code` is a status code: a number of three decimal digits.
pub open spec fn is_status_code(code: int) -> bool {
    100 <= code < 1000
}

/// The text that describes a reply: its body, then its status code.
pub open spec fn description(response: ApiResponseView) -> Seq<char> {
    "Error: "@ + response.body + "\nStatus Code: "@ + decimal(response.status_code as nat)
}

impl ApiResponse {
    /// Whether this reply can be sent: its status code is one.
    pub open spec fn well_formed(&self) -> bool {
        is_status_code(self.status_code as int)
    }

    /// A reply with the given status code and body.
    pub fn new(status_code: u16, body: String) -> (response: ApiResponse)
        requires
            is_status_code(status_code as int),
        ensures
            response.well_formed(),
            response@ == (ApiResponseView { status_code: status_code as int, body: body@ }),
    {
        ApiResponse { status_code, body }
    }

    /// A reply with the given status code and a fixed body text.
    pub fn with_text(status_code: u16, body: &str) -> (response: ApiResponse)
        requires
            is_status_code(status_code as int),
        ensures
            response.well_formed(),
            response@ == (ApiResponseView { status_code: status_code as int, body: body@ }),
    {
        ApiResponse { status_code, body: body.to_owned() }
    }

    /// The text that describes this reply.
    pub fn describe(&self) -> (text: String)
        ensures
            text@ == description(self@),
    {
        let mut text = "Error: ".to_owned();
        text.append(self.body.as_str());
        text.append("\nStatus Code: ");
        let digits = decimal_text(self.status_code);
        text.append(digits.as_str());
        text
    }
}

} // verus!
