use btl::admission::bundle::AdmitResult;
use btl::domain::bundle::{lab_bundle_hash, parse_hex_u64};
use btl::domain::time::UtcTimestamp;
use btl::http::handlers::{answer_admission, eth_send_bundle, SendBundleStep};
use btl::http::jsonrpc_types::{JsonRpcRequest, SendBundleParams, SumbitOrderOutcome};
use btl::http::validate::{validate_eth_send_bundle, RpcReject};
use serde_json::Value;

fn params(txs: &[&str], block: &str) -> SendBundleParams {
    SendBundleParams {
        txs: txs.iter().map(|s| s.to_string()).collect(),
        block_number: block.to_string(),
    }
}

fn request(jsonrpc: &str, method: &str, params: Vec<SendBundleParams>, id: i64) -> JsonRpcRequest<SendBundleParams> {
    JsonRpcRequest {
        jsonrpc: jsonrpc.to_string(),
        method: method.to_string(),
        params,
        id: Value::from(id),
    }
}

fn at() -> UtcTimestamp {
    UtcTimestamp::new(1_700_000_000, 5).unwrap()
}

fn expect_error(step: SendBundleStep, code: i32, message: &str, id: i64) {
    match step {
        SendBundleStep::Respond(SumbitOrderOutcome::RpcError(e)) => {
            assert_eq!(e.jsonrpc, "2.0");
            assert_eq!(e.error.code, code);
            assert_eq!(e.error.message, message);
            assert_eq!(e.id, Value::from(id));
        }
        _ => panic!("expected an rpc error"),
    }
}

#[test]
fn validate_accepts_a_well_formed_request() {
    assert!(validate_eth_send_bundle("2.0", "eth_sendBundle", &params(&["0x01"], "0x10")).is_ok());
}

#[test]
fn validate_rejects_in_order() {
    let p = params(&[], "0x10");
    assert!(matches!(validate_eth_send_bundle("1.0", "other", &p), Err(RpcReject::BadJsonRpc)));
    assert!(matches!(validate_eth_send_bundle("2.0", "other", &p), Err(RpcReject::WrongMethod)));
    assert!(matches!(validate_eth_send_bundle("2.0", "eth_sendBundle", &p), Err(RpcReject::EmptyTxs)));
    assert!(matches!(
        validate_eth_send_bundle("2.0", "eth_sendbundle", &params(&["0x01"], "0x1")),
        Err(RpcReject::WrongMethod)
    ));
}

#[test]
fn send_bundle_needs_exactly_one_params_entry() {
    expect_error(eth_send_bundle(request("2.0", "eth_sendBundle", vec![], 1), at()), -32602, "invalid params", 1);
    let two = vec![params(&["0x01"], "0x1"), params(&["0x02"], "0x2")];
    expect_error(eth_send_bundle(request("2.0", "eth_sendBundle", two, 2), at()), -32602, "invalid params", 2);
}

#[test]
fn send_bundle_answers_validation_errors() {
    let p = || vec![params(&["0x01"], "0x10")];
    expect_error(eth_send_bundle(request("1.0", "eth_sendBundle", p(), 3), at()), -32600, "invalid request", 3);
    expect_error(eth_send_bundle(request("2.0", "eth_call", p(), 4), at()), -32601, "method not found", 4);
    let empty = vec![params(&[], "0x10")];
    expect_error(eth_send_bundle(request("2.0", "eth_sendBundle", empty, 5), at()), -32602, "invalid params", 5);
}

#[test]
fn send_bundle_rejects_a_bad_block_number() {
    let p = vec![params(&["0x01"], "latest")];
    expect_error(eth_send_bundle(request("2.0", "eth_sendBundle", p, 6), at()), -32602, "invalid block number", 6);
}

#[test]
fn send_bundle_rejects_more_transactions_than_i16_holds() {
    let txs: Vec<String> = (0..32768).map(|i| format!("0x{i:x}")).collect();
    let p = vec![SendBundleParams { txs, block_number: "0x1".to_string() }];
    expect_error(eth_send_bundle(request("2.0", "eth_sendBundle", p, 7), at()), -32602, "invalid params", 7);
}

#[test]
fn send_bundle_admits_a_valid_bundle() {
    let p = params(&["0xaa", "0xbb"], "0x1b4");
    let expected_hash = lab_bundle_hash(&p.txs);
    match eth_send_bundle(request("2.0", "eth_sendBundle", vec![p], 8), at()) {
        SendBundleStep::Admit(a) => {
            assert_eq!(a.id, Value::from(8));
            assert_eq!(a.bundle_hash, expected_hash);
            assert_eq!(a.job.bundle_hash, expected_hash);
            assert_eq!(a.job.target_block, 436);
            assert_eq!(a.job.tx_count, 2);
            assert_eq!(a.job.received_at.secs(), 1_700_000_000);
            assert_eq!(a.job.received_at.subsec_nanos(), 5);
        }
        _ => panic!("expected admission"),
    }
}

#[test]
fn send_bundle_admits_32767_transactions() {
    let txs: Vec<String> = (0..32767).map(|i| format!("0x{i:x}")).collect();
    let p = vec![SendBundleParams { txs, block_number: "ff".to_string() }];
    match eth_send_bundle(request("2.0", "eth_sendBundle", p, 9), at()) {
        SendBundleStep::Admit(a) => {
            assert_eq!(a.job.tx_count, 32767);
            assert_eq!(a.job.target_block, parse_hex_u64("ff").unwrap());
        }
        _ => panic!("expected admission"),
    }
}

#[test]
fn answer_to_an_accepted_bundle_carries_its_hash() {
    match answer_admission(Value::from("abc"), "0x00000000000000ff".to_string(), AdmitResult::Accepted) {
        SumbitOrderOutcome::Success(s) => {
            assert_eq!(s.jsonrpc, "2.0");
            assert_eq!(s.result.bundle_hash, "0x00000000000000ff");
            assert_eq!(s.id, Value::from("abc"));
        }
        _ => panic!("expected success"),
    }
}

#[test]
fn answer_to_a_full_queue_is_overload() {
    match answer_admission(Value::from(1), "h".to_string(), AdmitResult::RejectedQueueFull) {
        SumbitOrderOutcome::RpcError(e) => {
            assert_eq!(e.error.code, -32603);
            assert_eq!(e.error.message, "overload");
            assert_eq!(e.id, Value::from(1));
        }
        _ => panic!("expected error"),
    }
}

#[test]
fn answer_to_a_stopped_pipeline_is_internal_error() {
    match answer_admission(Value::Null, "h".to_string(), AdmitResult::RejectedSubsystemDown) {
        SumbitOrderOutcome::RpcError(e) => {
            assert_eq!(e.jsonrpc, "2.0");
            assert_eq!(e.error.code, -32603);
            assert_eq!(e.error.message, "internal system error");
            assert_eq!(e.id, Value::Null);
        }
        _ => panic!("expected error"),
    }
}
