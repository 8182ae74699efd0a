//! The decisions of the `eth_sendBundle` endpoint.
//!
//! Handling a request has two steps around the admission of the job (which
//! may wait for room in the queue): `eth_send_bundle` checks the request and
//! either answers it at once or builds the job to admit;
//! `answer_admission` turns the admission's result into the answer.
use serde_json::Value;
use vstd::prelude::*;

use crate::admission::bundle::AdmitResult;
use crate::domain::bundle::{
    as_i64_bits, bundle_hash_text, hex_body, lab_bundle_hash, parse_hex_u64, strings_digest,
};
use crate::domain::job::BundleSimulationJob;
use crate::domain::time::UtcTimestamp;
use crate::text::{parses_within, unsigned_text_value};

use super::jsonrpc_types::{
    is_rpc_error, rpc_error, JsonRpcRequest, JsonRpcSuccessResponse, SendBundleParams,
    SendBundleResult, SumbitOrderOutcome,
};
use super::validate::{send_bundle_rejection, validate_eth_send_bundle, RpcReject};

verus! {

/// A request that passed every check: the job to admit, its hash, and the id
/// to answer.
pub struct BundleForAdmission {
    pub id: Value,
    pub bundle_hash: String,
    pub job: BundleSimulationJob,
}

/// What to do with a request.
pub enum SendBundleStep {
    /// Answer at once with this (an error).
    Respond(SumbitOrderOutcome<SendBundleResult>),
    /// Admit the job, then answer with `answer_admission`.
    Admit(BundleForAdmission),
}

/// The JSON-RPC error (code and message) that a request is answered with
/// before admission, or `None` when its job goes to admission.
pub open spec fn send_bundle_error(body: JsonRpcRequest<SendBundleParams>) -> Option<
    (i32, Seq<char>),
> {
    if body.params@.len() != 1 {
        Some((-32602i32, "invalid params"@))
    } else {
        let p = body.params@[0];
        match send_bundle_rejection(body.jsonrpc@, body.method@, p.txs@.len()) {
            Some(RpcReject::BadJsonRpc) => Some((-32600i32, "invalid request"@)),
            Some(RpcReject::WrongMethod) => Some((-32601i32, "method not found"@)),
            Some(RpcReject::EmptyTxs) => Some((-32602i32, "invalid params"@)),
            None => if !parses_within(hex_body(p.block_number@), 16, u64::MAX as nat) {
                Some((-32602i32, "invalid block number"@))
            } else if p.txs@.len() > i16::MAX {
                Some((-32602i32, "invalid params"@))
            } else {
                None
            },
        }
    }
}

/// What a request is answered with before admission, check by check in the
/// order they are made: a request goes to admission exactly when it has one
/// params entry, `jsonrpc` is `"2.0"`, `method` is `"eth_sendBundle"`, it
/// carries between 1 and 32767 transactions and its block number is hex
/// (with or without `0x`) within `u64`; otherwise the first check it fails
/// gives its error.
pub proof fn lemma_send_bundle_checks(body: JsonRpcRequest<SendBundleParams>)
    ensures
        send_bundle_error(body) is None <==> (body.params@.len() == 1 && body.jsonrpc@ == "2.0"@
            && body.method@ == "eth_sendBundle"@ && 1 <= body.params@[0].txs@.len() <= 32767
            && parses_within(hex_body(body.params@[0].block_number@), 16, u64::MAX as nat)),
        body.params@.len() != 1 ==> send_bundle_error(body) == Some((-32602i32, "invalid params"@)),
        body.params@.len() == 1 && body.jsonrpc@ != "2.0"@ ==> send_bundle_error(body) == Some(
            (-32600i32, "invalid request"@),
        ),
        body.params@.len() == 1 && body.jsonrpc@ == "2.0"@ && body.method@ != "eth_sendBundle"@
            ==> send_bundle_error(body) == Some((-32601i32, "method not found"@)),
        body.params@.len() == 1 && body.jsonrpc@ == "2.0"@ && body.method@ == "eth_sendBundle"@
            && body.params@[0].txs@.len() == 0 ==> send_bundle_error(body) == Some(
            (-32602i32, "invalid params"@),
        ),
        body.params@.len() == 1 && body.jsonrpc@ == "2.0"@ && body.method@ == "eth_sendBundle"@
            && body.params@[0].txs@.len() >= 1 && !parses_within(
            hex_body(body.params@[0].block_number@),
            16,
            u64::MAX as nat,
        ) ==> send_bundle_error(body) == Some((-32602i32, "invalid block number"@)),
        body.params@.len() == 1 && body.jsonrpc@ == "2.0"@ && body.method@ == "eth_sendBundle"@
            && body.params@[0].txs@.len() > 32767 && parses_within(
            hex_body(body.params@[0].block_number@),
            16,
            u64::MAX as nat,
        ) ==> send_bundle_error(body) == Some((-32602i32, "invalid params"@)),
{
}

/// The job a valid request `p` gives, received at `received_at`.
pub open spec fn job_for(
    job: BundleSimulationJob,
    p: SendBundleParams,
    received_at: UtcTimestamp,
) -> bool {
    &&& job.bundle_hash@ == bundle_hash_text(strings_digest(p.txs@))
    &&& job.target_block == as_i64_bits(unsigned_text_value(hex_body(p.block_number@), 16)->0)
    &&& job.tx_count == p.txs@.len()
    &&& job.received_at == received_at
}

/// Checks a submitted bundle. A request that fails a check is answered with
/// its error; otherwise its job (with hash, target block, transaction count
/// and the time it was received) goes to admission.
pub fn eth_send_bundle(mut body: JsonRpcRequest<SendBundleParams>, received_at: UtcTimestamp) -> (res:
    SendBundleStep)
    ensures
        send_bundle_error(body) matches Some(err) ==> (res matches SendBundleStep::Respond(out)
            && is_rpc_error(out, err.0, err.1, body.id)),
        send_bundle_error(body) is None ==> (res matches SendBundleStep::Admit(a) && a.id
            == body.id && a.bundle_hash@ == a.job.bundle_hash@ && job_for(
            a.job,
            body.params@[0],
            received_at,
        )),
        (res is Admit) <==> (body.params@.len() == 1 && body.jsonrpc@ == "2.0"@ && body.method@
            == "eth_sendBundle"@ && 1 <= body.params@[0].txs@.len() <= 32767 && parses_within(
            hex_body(body.params@[0].block_number@),
            16,
            u64::MAX as nat,
        )),
{
    proof {
        lemma_send_bundle_checks(body);
    }
    let ghost body0 = body;
    if body.params.len() != 1 {
        return SendBundleStep::Respond(rpc_error(-32602, "invalid params", body.id));
    }
    let params = body.params.remove(0);
    assert(params == body0.params@[0]);
    match validate_eth_send_bundle(body.jsonrpc.as_str(), body.method.as_str(), &params) {
        Err(RpcReject::BadJsonRpc) => {
            return SendBundleStep::Respond(rpc_error(-32600, "invalid request", body.id));
        },
        Err(RpcReject::WrongMethod) => {
            return SendBundleStep::Respond(rpc_error(-32601, "method not found", body.id));
        },
        Err(RpcReject::EmptyTxs) => {
            return SendBundleStep::Respond(rpc_error(-32602, "invalid params", body.id));
        },
        Ok(()) => {},
    }
    let bundle_hash = lab_bundle_hash(params.txs.as_slice());
    let target_block: i64 = match parse_hex_u64(params.block_number.as_str()) {
        Ok(v) => v,
        Err(_) => {
            return SendBundleStep::Respond(rpc_error(-32602, "invalid block number", body.id));
        },
    };
    let n: usize = params.txs.len();
    if n > 32767 {
        return SendBundleStep::Respond(rpc_error(-32602, "invalid params", body.id));
    }
    let tx_count: i16 = n as i16;
    let job = BundleSimulationJob {
        bundle_hash: bundle_hash.clone(),
        target_block,
        tx_count,
        received_at,
    };
    SendBundleStep::Admit(BundleForAdmission { id: body.id, bundle_hash, job })
}

/// The answer to an admitted request: the bundle hash when the job was
/// accepted, `overload` when the queue was full, and `internal system error`
/// when the pipeline is gone.
pub fn answer_admission(id: Value, bundle_hash: String, result: AdmitResult) -> (out:
    SumbitOrderOutcome<SendBundleResult>)
    ensures
        result is Accepted ==> (out matches SumbitOrderOutcome::Success(s) && s.jsonrpc@
            == "2.0"@ && s.result.bundle_hash@ == bundle_hash@ && s.id == id),
        result is RejectedQueueFull ==> is_rpc_error(out, -32603i32, "overload"@, id),
        result is RejectedSubsystemDown ==> is_rpc_error(out, -32603i32, "internal system error"@, id),
{
    match result {
        AdmitResult::Accepted => SumbitOrderOutcome::Success(
            JsonRpcSuccessResponse {
                jsonrpc: "2.0".to_owned(),
                result: SendBundleResult { bundle_hash },
                id,
            },
        ),
        AdmitResult::RejectedQueueFull => rpc_error(-32603, "overload", id),
        AdmitResult::RejectedSubsystemDown => rpc_error(-32603, "internal system error", id),
    }
}

} // verus!
