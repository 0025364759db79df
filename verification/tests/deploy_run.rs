use warp_cli::config::{AutoDeploy, AutoDeployStep};
use warp_cli::deploy::{DeployAction, DeployRun, SETTLE_DELAY_MS};
use warp_cli::ledger::DeploymentResult;
use warp_cli::tx::{Attribute, Event, Log, TxQueryResponse, extract_code_id,
    extract_deployed_address};

fn attr(key: &str, value: &str) -> Attribute {
    Attribute { key: key.to_string(), value: value.to_string(), index: None }
}

fn tx_with_logs(code: i64, logs: Vec<Log>) -> TxQueryResponse {
    TxQueryResponse {
        height: "1".to_string(),
        txhash: "HASH".to_string(),
        codespace: String::new(),
        code,
        data: String::new(),
        raw_log: "raw".to_string(),
        logs,
        info: String::new(),
        gas_wanted: "0".to_string(),
        gas_used: "0".to_string(),
        timestamp: String::new(),
        events: Vec::new(),
    }
}

fn store_tx(code_id: &str) -> TxQueryResponse {
    tx_with_logs(
        0,
        vec![Log {
            msg_index: 0,
            log: String::new(),
            events: vec![Event {
                type_field: "store_code".to_string(),
                attributes: vec![attr("sender", "x"), attr("code_id", code_id)],
            }],
        }],
    )
}

fn instantiate_tx(address: &str) -> TxQueryResponse {
    tx_with_logs(
        0,
        vec![Log {
            msg_index: 0,
            log: String::new(),
            events: vec![Event {
                type_field: "instantiate".to_string(),
                attributes: vec![attr("_contract_address", address), attr("code_id", "9")],
            }],
        }],
    )
}

fn step(id: &str, store_only: bool) -> AutoDeployStep {
    AutoDeployStep {
        id: id.to_string(),
        contract: format!("artifacts/{}.wasm", id),
        label: id.to_string(),
        store_only,
        migrate_msg: None,
        init_msg: "{\"owner\":\"$account_id\"}".to_string(),
        coins: None,
    }
}

fn manifest(steps: Vec<AutoDeployStep>) -> AutoDeploy {
    AutoDeploy { account_id: "deployer".to_string(), make_labels_unique: false, steps }
}

#[test]
fn fresh_deploy_populates_ledger() {
    let run = DeployRun::new(
        manifest(vec![step("step1", false)]),
        "net-1",
        "addr0".to_string(),
        DeploymentResult::default(),
    );
    let mut run = run;
    match run.next_action(0) {
        DeployAction::Store { contract, from } => {
            assert_eq!(contract, "artifacts/step1.wasm");
            assert_eq!(from, "deployer");
        },
        other => panic!("expected a store action, got {:?}", other),
    }
    run.on_store_result(&store_tx("7")).unwrap();
    match run.next_action(0) {
        DeployAction::SettleDelay { millis } => assert_eq!(millis, SETTLE_DELAY_MS),
        other => panic!("expected the settle delay, got {:?}", other),
    }
    match run.next_action(0) {
        DeployAction::Instantiate { code_id, from, admin, label, init_msg, coins } => {
            assert_eq!(code_id, "7");
            assert_eq!(from, "deployer");
            assert_eq!(admin, "addr0");
            assert_eq!(label, "step1");
            assert_eq!(init_msg, "{\"owner\":\"addr0\"}");
            assert!(coins.is_none());
        },
        other => panic!("expected an instantiate action, got {:?}", other),
    }
    run.on_instantiate_result(&instantiate_tx("contract-addr-1")).unwrap();
    match run.next_action(0) {
        DeployAction::SaveLedger => {},
        other => panic!("expected the ledger save, got {:?}", other),
    }
    assert_eq!(run.ledger.address_of("net-1", "step1").unwrap(), "contract-addr-1");
    let net_idx = run.ledger.network("net-1");
    assert_eq!(run.ledger.deployment[net_idx].contracts.len(), 1);
}

#[test]
fn idempotent_redeploy_migrates() {
    let mut ledger = DeploymentResult::default();
    ledger.record("net-1", "step1", "old-addr".to_string());
    let mut run = DeployRun::new(
        manifest(vec![step("step1", false)]),
        "net-1",
        "addr0".to_string(),
        ledger,
    );
    let mut migrates = 0;
    let mut instantiates = 0;
    loop {
        match run.next_action(0) {
            DeployAction::Store { .. } => {
                run.on_store_result(&store_tx("8")).unwrap();
            },
            DeployAction::SettleDelay { .. } | DeployAction::SkipStep { .. } => {},
            DeployAction::Instantiate { .. } => {
                instantiates += 1;
                run.on_instantiate_result(&instantiate_tx("fresh")).unwrap();
            },
            DeployAction::Migrate { contract_address, code_id, from, migrate_msg } => {
                migrates += 1;
                assert_eq!(contract_address, "old-addr");
                assert_eq!(code_id, "8");
                assert_eq!(from, "deployer");
                assert_eq!(migrate_msg, "{}");
                run.on_migrate_result(&tx_with_logs(0, Vec::new())).unwrap();
            },
            DeployAction::SaveLedger | DeployAction::Finished => break,
        }
    }
    assert_eq!(migrates, 1);
    assert_eq!(instantiates, 0);
    assert_eq!(run.ledger.address_of("net-1", "step1").unwrap(), "old-addr");
}

#[test]
fn store_only_steps_never_instantiate() {
    let mut run = DeployRun::new(
        manifest(vec![step("s1", true)]),
        "net-1",
        "addr0".to_string(),
        DeploymentResult::default(),
    );
    let mut stores = 0;
    let mut skips = 0;
    loop {
        match run.next_action(0) {
            DeployAction::Store { .. } => {
                stores += 1;
                run.on_store_result(&store_tx("5")).unwrap();
            },
            DeployAction::SettleDelay { .. } => {},
            DeployAction::SkipStep { contract } => {
                skips += 1;
                assert_eq!(contract, "artifacts/s1.wasm");
            },
            DeployAction::Instantiate { .. } | DeployAction::Migrate { .. } => {
                panic!("a store-only step must never instantiate or migrate")
            },
            DeployAction::SaveLedger | DeployAction::Finished => break,
        }
    }
    assert_eq!(stores, 1);
    assert_eq!(skips, 1);
    assert!(!run.ledger.contains_entry("net-1", "s1"));
}

#[test]
fn store_failure_aborts_run() {
    let mut run = DeployRun::new(
        manifest(vec![step("s1", false), step("s2", false)]),
        "net-1",
        "addr0".to_string(),
        DeploymentResult::default(),
    );
    match run.next_action(0) {
        DeployAction::Store { .. } => {},
        other => panic!("expected a store action, got {:?}", other),
    }
    let failing = tx_with_logs(5, Vec::new());
    let err = run.on_store_result(&failing).unwrap_err();
    match err {
        warp_cli::error::WarpError::TxFailed(hash, log) => {
            assert_eq!(hash, "HASH");
            assert_eq!(log, "raw");
        },
        other => panic!("expected a transaction failure, got {:?}", other),
    }
    for _ in 0..4 {
        match run.next_action(0) {
            DeployAction::Finished => {},
            other => panic!("an aborted run must stay finished, got {:?}", other),
        }
    }
    assert!(!run.ledger.contains_entry("net-1", "s1"));
    assert!(!run.ledger.contains_entry("net-1", "s2"));
}

#[test]
fn store_without_code_id_is_an_unmatched_id() {
    let mut run = DeployRun::new(
        manifest(vec![step("s1", false)]),
        "net-1",
        "addr0".to_string(),
        DeploymentResult::default(),
    );
    match run.next_action(0) {
        DeployAction::Store { .. } => {},
        other => panic!("expected a store action, got {:?}", other),
    }
    let err = run.on_store_result(&tx_with_logs(0, Vec::new())).unwrap_err();
    match err {
        warp_cli::error::WarpError::ContractIdNotFound(id) => assert_eq!(id, "s1"),
        other => panic!("expected an unmatched id, got {:?}", other),
    }
    assert!(matches!(run.next_action(0), DeployAction::Finished));
}

#[test]
fn ledger_merge_across_networks() {
    let mut ledger = DeploymentResult::default();
    ledger.record("net-a", "s1", "a1".to_string());
    let mut run = DeployRun::new(
        manifest(vec![step("s1", false)]),
        "net-b",
        "addr0".to_string(),
        ledger,
    );
    loop {
        match run.next_action(0) {
            DeployAction::Store { .. } => run.on_store_result(&store_tx("3")).unwrap(),
            DeployAction::SettleDelay { .. } | DeployAction::SkipStep { .. } => (),
            DeployAction::Instantiate { .. } => {
                run.on_instantiate_result(&instantiate_tx("b1")).unwrap()
            },
            DeployAction::Migrate { .. } => panic!("net-b has no entry: must instantiate"),
            DeployAction::SaveLedger | DeployAction::Finished => break,
        }
    }
    assert_eq!(run.ledger.address_of("net-a", "s1").unwrap(), "a1");
    assert_eq!(run.ledger.address_of("net-b", "s1").unwrap(), "b1");
}

#[test]
fn later_steps_see_earlier_addresses() {
    let mut s2 = step("s2", false);
    s2.init_msg = "{\"peer\":\"$s1\",\"peer_code\":\"#s1\"}".to_string();
    let mut run = DeployRun::new(
        manifest(vec![step("s1", false), s2]),
        "net-1",
        "addr0".to_string(),
        DeploymentResult::default(),
    );
    let mut code = 10;
    let mut instantiated: Vec<String> = Vec::new();
    loop {
        match run.next_action(0) {
            DeployAction::Store { .. } => {
                code += 1;
                run.on_store_result(&store_tx(&code.to_string())).unwrap();
            },
            DeployAction::SettleDelay { .. } | DeployAction::SkipStep { .. } => (),
            DeployAction::Instantiate { init_msg, .. } => {
                instantiated.push(init_msg);
                let addr = format!("addr-{}", instantiated.len());
                run.on_instantiate_result(&instantiate_tx(&addr)).unwrap();
            },
            DeployAction::Migrate { .. } => panic!("fresh ledger: must instantiate"),
            DeployAction::SaveLedger | DeployAction::Finished => break,
        }
    }
    assert_eq!(instantiated.len(), 2);
    assert_eq!(instantiated[1], "{\"peer\":\"addr-1\",\"peer_code\":\"#s1\"}".replace("#s1", "11"));
}

#[test]
fn code_id_extraction_is_positional() {
    let tx = tx_with_logs(
        0,
        vec![
            Log {
                msg_index: 0,
                log: String::new(),
                events: vec![Event {
                    type_field: "a".to_string(),
                    attributes: vec![attr("k", "wrong")],
                }],
            },
            Log {
                msg_index: 1,
                log: String::new(),
                events: vec![
                    Event { type_field: "b".to_string(), attributes: vec![attr("k", "no")] },
                    Event {
                        type_field: "c".to_string(),
                        attributes: vec![attr("k1", "no"), attr("k2", "42")],
                    },
                ],
            },
        ],
    );
    assert_eq!(extract_code_id(&tx).unwrap(), "42");
    assert!(extract_code_id(&tx_with_logs(0, Vec::new())).is_none());
}

#[test]
fn address_extraction_takes_first_address_attribute() {
    let tx = tx_with_logs(
        0,
        vec![Log {
            msg_index: 0,
            log: String::new(),
            events: vec![
                Event {
                    type_field: "instantiate".to_string(),
                    attributes: vec![
                        attr("code_id", "1"),
                        attr("_contract_address", "first"),
                        attr("sub_address", "second"),
                    ],
                },
                Event {
                    type_field: "later".to_string(),
                    attributes: vec![attr("_contract_address", "ignored")],
                },
            ],
        }],
    );
    assert_eq!(extract_deployed_address(&tx).unwrap(), "first");
    assert!(extract_deployed_address(&tx_with_logs(0, Vec::new())).is_none());
}

#[test]
fn empty_manifest_only_saves() {
    let mut run = DeployRun::new(
        manifest(Vec::new()),
        "net-1",
        "addr0".to_string(),
        DeploymentResult::default(),
    );
    match run.next_action(0) {
        DeployAction::SaveLedger => {},
        other => panic!("expected the ledger save, got {:?}", other),
    }
    let idx = run.ledger.network("net-1");
    assert!(run.ledger.deployment[idx].contracts.is_empty());
}
