use warp_cli::error::WarpError;
use warp_cli::retry::{QueryRetryState, QueryStep, RetryPolicy, accept_tx_response};
use warp_cli::tx::TxQueryResponse;

fn bare_tx(code: i64) -> TxQueryResponse {
    TxQueryResponse {
        height: String::new(),
        txhash: "H1".to_string(),
        codespace: String::new(),
        code,
        data: String::new(),
        raw_log: "out of gas".to_string(),
        logs: Vec::new(),
        info: String::new(),
        gas_wanted: String::new(),
        gas_used: String::new(),
        timestamp: String::new(),
        events: Vec::new(),
    }
}

#[test]
fn bounded_retry_exhausts_then_parses() {
    let mut state = QueryRetryState::new(RetryPolicy { max_retries: 7, delay_ms: 1600 });
    let mut attempts = 0;
    loop {
        attempts += 1;
        match state.on_attempt(true) {
            QueryStep::Retry { delay_ms } => assert_eq!(delay_ms, 1600),
            QueryStep::Parse => break,
        }
        assert!(attempts <= 8, "the retry loop must terminate");
    }
    assert_eq!(attempts, 8);
}

#[test]
fn clean_attempt_parses_immediately() {
    let mut state = QueryRetryState::new(RetryPolicy { max_retries: 10, delay_ms: 2000 });
    assert!(matches!(state.on_attempt(false), QueryStep::Parse));
    assert_eq!(state.retries_left, 10);
}

#[test]
fn accepting_a_failed_tx_reports_hash_and_log() {
    match accept_tx_response(bare_tx(11)) {
        Err(WarpError::TxFailed(hash, log)) => {
            assert_eq!(hash, "H1");
            assert_eq!(log, "out of gas");
        },
        other => panic!("expected a transaction failure, got {:?}", other),
    }
    let ok = accept_tx_response(bare_tx(0)).unwrap();
    assert_eq!(ok.txhash, "H1");
}
