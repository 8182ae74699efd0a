//! The checks an `eth_sendBundle` request must pass.
use vstd::prelude::*;

use super::jsonrpc_types::SendBundleParams;

verus! {

/// Why a request is refused.
pub enum RpcReject {
    /// `jsonrpc` is not `"2.0"`.
    BadJsonRpc,
    /// `method` is not `"eth_sendBundle"`.
    WrongMethod,
    /// The bundle has no transaction.
    EmptyTxs,
}

/// The first check a request fails, in the order the checks are made.
pub open spec fn send_bundle_rejection(jsonrpc: Seq<char>, method: Seq<char>, tx_count: nat) -> Option<
    RpcReject,
> {
    if jsonrpc != "2.0"@ {
        Some(RpcReject::BadJsonRpc)
    } else if method != "eth_sendBundle"@ {
        Some(RpcReject::WrongMethod)
    } else if tx_count == 0 {
        Some(RpcReject::EmptyTxs)
    } else {
        None
    }
}

pub fn validate_eth_send_bundle(jsonrpc: &str, method: &str, p: &SendBundleParams) -> (res: Result<
    (),
    RpcReject,
>)
    ensures
        res is Ok <==> send_bundle_rejection(jsonrpc@, method@, p.txs@.len()) is None,
        res matches Err(r) ==> send_bundle_rejection(jsonrpc@, method@, p.txs@.len()) == Some(r),
{
    if !jsonrpc.eq("2.0") {
        return Err(RpcReject::BadJsonRpc);
    }
    if !method.eq("eth_sendBundle") {
        return Err(RpcReject::WrongMethod);
    }
    if p.txs.len() == 0 {
        return Err(RpcReject::EmptyTxs);
    }
    Ok(())
}

} // verus!
