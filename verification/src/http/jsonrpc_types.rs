//! The JSON-RPC 2.0 messages of the `eth_sendBundle` endpoint.
use serde_json::Value;
use vstd::prelude::*;

verus! {

/// A JSON value, carried through as it is (the request id).
#[verifier::external_type_specification]
#[verifier::external_body]
pub struct ExJsonValue(Value);

#[derive(Debug)]
pub struct JsonRpcRequest<T> {
    pub jsonrpc: String,
    pub method: String,
    pub params: Vec<T>,
    pub id: Value,
}

/// The one parameter of `eth_sendBundle` (`blockNumber` on the wire).
#[derive(Debug)]
pub struct SendBundleParams {
    pub txs: Vec<String>,
    pub block_number: String,
}

#[derive(Debug)]
pub struct JsonRpcSuccessResponse<T> {
    pub jsonrpc: String,
    pub result: T,
    pub id: Value,
}

/// The result of an accepted bundle (`bundleHash` on the wire).
#[derive(Debug)]
pub struct SendBundleResult {
    pub bundle_hash: String,
}

pub struct JsonRpcErrorBody {
    pub code: i32,
    pub message: String,
}

pub struct JsonRpcErrorResponse {
    pub jsonrpc: String,
    pub error: JsonRpcErrorBody,
    pub id: Value,
}

/// The answer to a submitted order: a result or a JSON-RPC error (both are
/// sent with HTTP status 200).
pub enum SumbitOrderOutcome<T> {
    Success(JsonRpcSuccessResponse<T>),
    RpcError(JsonRpcErrorResponse),
}

/// `out` is the JSON-RPC error `code` with `message`, answering request `id`.
pub open spec fn is_rpc_error<T>(
    out: SumbitOrderOutcome<T>,
    code: i32,
    message: Seq<char>,
    id: Value,
) -> bool {
    &&& out matches SumbitOrderOutcome::RpcError(e)
    &&& e.jsonrpc@ == "2.0"@
    &&& e.error.code == code
    &&& e.error.message@ == message
    &&& e.id == id
}

/// A JSON-RPC error response.
pub fn rpc_error<T>(code: i32, message: &str, id: Value) -> (out: SumbitOrderOutcome<T>)
    ensures
        is_rpc_error(out, code, message@, id),
{
    SumbitOrderOutcome::RpcError(
        JsonRpcErrorResponse {
            jsonrpc: "2.0".to_owned(),
            error: JsonRpcErrorBody { code, message: message.to_owned() },
            id,
        },
    )
}

} // verus!
