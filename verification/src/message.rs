//! JSON-RPC 2.0 messages: requests, responses and error objects.

use vstd::prelude::*;
use crate::json::{optional_value, Json, JsonValue};

verus! {

/// The error code for a method that the server does not know.
pub const METHOD_NOT_FOUND: i32 = -32601;

/// The error code for parameters that are missing, ill-shaped or outside a
/// tool's domain.
pub const INVALID_PARAMS: i32 = -32602;

/// A request as it arrives. The `id` is never looked into: it is handed back
/// with the response.
#[derive(Debug, PartialEq)]
pub struct JsonRpcRequest {
    pub jsonrpc: String,
    pub id: Option<Json>,
    pub method: String,
    pub params: Option<Json>,
}

/// The model of a request.
pub struct RequestView {
    pub jsonrpc: Seq<char>,
    pub id: Option<JsonValue>,
    pub method: Seq<char>,
    pub params: Option<JsonValue>,
}

impl View for JsonRpcRequest {
    type V = RequestView;

    open spec fn view(&self) -> RequestView {
        RequestView {
            jsonrpc: self.jsonrpc@,
            id: optional_value(self.id),
            method: self.method@,
            params: optional_value(self.params),
        }
    }
}

/// The error object of a response that reports a failure.
#[derive(Debug, PartialEq)]
pub struct JsonRpcError {
    pub code: i32,
    pub message: String,
    pub data: Option<Json>,
}

/// The model of an error object.
pub struct ErrorView {
    pub code: i32,
    pub message: Seq<char>,
    pub data: Option<JsonValue>,
}

impl View for JsonRpcError {
    type V = ErrorView;

    open spec fn view(&self) -> ErrorView {
        ErrorView { code: self.code, message: self.message@, data: optional_value(self.data) }
    }
}

/// A response: it carries a result or an error, never both and never neither.
#[derive(Debug, PartialEq)]
pub struct JsonRpcResponse {
    pub jsonrpc: String,
    pub id: Option<Json>,
    pub result: Option<Json>,
    pub error: Option<JsonRpcError>,
}

/// The model of a response.
pub struct ResponseView {
    pub jsonrpc: Seq<char>,
    pub id: Option<JsonValue>,
    pub result: Option<JsonValue>,
    pub error: Option<ErrorView>,
}

/// The model of an optional error object.
pub open spec fn optional_error(error: Option<JsonRpcError>) -> Option<ErrorView> {
    match error {
        Some(e) => Some(e@),
        None => None,
    }
}

impl View for JsonRpcResponse {
    type V = ResponseView;

    open spec fn view(&self) -> ResponseView {
        ResponseView {
            jsonrpc: self.jsonrpc@,
            id: optional_value(self.id),
            result: optional_value(self.result),
            error: optional_error(self.error),
        }
    }
}

impl ResponseView {
    /// The response that answers `id` with a result.
    pub open spec fn success(id: Option<JsonValue>, result: JsonValue) -> ResponseView {
        ResponseView { jsonrpc: "2.0"@, id, result: Some(result), error: None }
    }

    /// The response that answers `id` with an error of the given code and
    /// message, and no further data.
    pub open spec fn failure(id: Option<JsonValue>, code: i32, message: Seq<char>) -> ResponseView {
        ResponseView {
            jsonrpc: "2.0"@,
            id,
            result: None,
            error: Some(ErrorView { code, message, data: None }),
        }
    }

    /// A response is well formed when it names version 2.0 and holds exactly
    /// one of result and error.
    pub open spec fn well_formed(self) -> bool {
        &&& self.jsonrpc == "2.0"@
        &&& (self.result is Some) != (self.error is Some)
    }
}

impl JsonRpcResponse {
    /// Answers `id` with a result.
    pub fn success(id: Option<Json>, result: Json) -> (r: JsonRpcResponse)
        ensures
            r@ == ResponseView::success(optional_value(id), result@),
    {
        JsonRpcResponse { jsonrpc: "2.0".to_owned(), id, result: Some(result), error: None }
    }

    /// Answers `id` with an error.
    pub fn failure(id: Option<Json>, code: i32, message: String) -> (r: JsonRpcResponse)
        ensures
            r@ == ResponseView::failure(optional_value(id), code, message@),
    {
        JsonRpcResponse {
            jsonrpc: "2.0".to_owned(),
            id,
            result: None,
            error: Some(JsonRpcError { code, message, data: None }),
        }
    }
}

} // verus!
