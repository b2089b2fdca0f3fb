//! The request and response envelopes exchanged over the socket.

use vstd::prelude::*;

verus! {

/// The inner object of a request: which operation is asked for.
#[derive(Debug, Clone, PartialEq, Eq)]
pub struct Request {
    /// The command kind, sent on the wire under the key `type`.
    pub kind: String,
}

/// A request envelope. Only `request.kind` drives behaviour; `source` and
/// `version` are carried as they arrived.
#[derive(Debug, Clone, PartialEq, Eq)]
pub struct RequestData {
    pub source: String,
    /// The version number, kept as the text of the JSON number.
    pub version: String,
    pub request: Request,
}

/// A response envelope.
#[derive(Debug, Clone, PartialEq, Eq)]
pub struct ResponseData {
    pub status: String,
    pub message: String,
    pub code: i32,
}

/// The mathematical content of a [`RequestData`].
pub struct RequestView {
    pub source: Seq<char>,
    pub version: Seq<char>,
    pub kind: Seq<char>,
}

/// The mathematical content of a [`ResponseData`].
pub struct ResponseView {
    pub status: Seq<char>,
    pub message: Seq<char>,
    pub code: int,
}

/// The status text of a response that reports success.
pub open spec fn status_success() -> Seq<char> {
    "success"@
}

/// The status text of a response that reports an error.
pub open spec fn status_error() -> Seq<char> {
    "error"@
}

/// Code of a request that was carried out.
pub const CODE_OK: i32 = 200;

/// Code of a request that was malformed or of an unknown kind.
pub const CODE_BAD_REQUEST: i32 = 400;

/// Code of an action that was attempted and failed.
pub const CODE_ACTION_FAILED: i32 = 500;

impl View for Request {
    type V = Seq<char>;

    open spec fn view(&self) -> Seq<char> {
        self.kind@
    }
}

impl View for RequestData {
    type V = RequestView;

    open spec fn view(&self) -> RequestView {
        RequestView { source: self.source@, version: self.version@, kind: self.request.kind@ }
    }
}

impl View for ResponseData {
    type V = ResponseView;

    open spec fn view(&self) -> ResponseView {
        ResponseView { status: self.status@, message: self.message@, code: self.code as int }
    }
}

impl ResponseView {
    /// The response to a request that was carried out.
    pub open spec fn success(message: Seq<char>) -> ResponseView {
        ResponseView { status: status_success(), message, code: CODE_OK as int }
    }

    /// The response to an action that was attempted and failed.
    pub open spec fn action_failed(message: Seq<char>) -> ResponseView {
        ResponseView { status: status_error(), message, code: CODE_ACTION_FAILED as int }
    }

    /// The response to a request that was malformed or of an unknown kind.
    pub open spec fn bad_request(message: Seq<char>) -> ResponseView {
        ResponseView { status: status_error(), message, code: CODE_BAD_REQUEST as int }
    }

    /// Status and code agree, and both are among those the protocol knows.
    pub open spec fn is_well_formed(self) -> bool {
        ||| self.status == status_success() && self.code == CODE_OK
        ||| self.status == status_error() && (self.code == CODE_BAD_REQUEST || self.code
            == CODE_ACTION_FAILED)
    }
}

impl ResponseData {
    /// The response to a request that was carried out.
    pub fn success(message: String) -> (response: ResponseData)
        ensures
            response@ == ResponseView::success(message@),
            response@.is_well_formed(),
    {
        ResponseData { status: String::from_str("success"), message, code: CODE_OK }
    }

    /// The response to an action that was attempted and failed.
    pub fn action_failed(message: String) -> (response: ResponseData)
        ensures
            response@ == ResponseView::action_failed(message@),
            response@.is_well_formed(),
    {
        ResponseData { status: String::from_str("error"), message, code: CODE_ACTION_FAILED }
    }

    /// The response to a request that was malformed or of an unknown kind.
    pub fn bad_request(message: String) -> (response: ResponseData)
        ensures
            response@ == ResponseView::bad_request(message@),
            response@.is_well_formed(),
    {
        ResponseData { status: String::from_str("error"), message, code: CODE_BAD_REQUEST }
    }
}

} // verus!
