use warp_cli::chains::{ArchwayProfile, SecretNetworkProfile, XionProfile, estimate_fees_args,
    get_common_cli_args, instantiate_args, migrate_args, query_tx_args, store_args};
use warp_cli::commands::{ConfigArgs, ConfigCommand, NetworkConfig, NewCommand, NodeCommand,
    OptimizerBackend, SetSubcommand, TestCommand, WasmCommand, WasmQueryArgs, WasmSubcommand,
    choose_wallet};
use warp_cli::config::ProjectConfig;
use warp_cli::error::WarpError;
use warp_cli::fees::{EstimateFeesResponse, EstimatedFee, GasUnitPrice};
use warp_cli::ledger::DeploymentResult;
use warp_cli::tx::{Attribute, Event, Log, TxQueryResponse};

fn archway_config() -> ProjectConfig {
    let mut config = ProjectConfig::empty();
    config.network.chain_id = "constantine-3".to_string();
    config.network.rpc_url = "https://rpc.example:443".to_string();
    config
}

#[test]
fn empty_config_is_blank() {
    let c = ProjectConfig::empty();
    assert_eq!(c.network.chain_id, "");
    assert_eq!(c.network.rpc_url, "");
    assert_eq!(c.network.denom, "");
    assert!(c.network.gas_prices.is_none());
    assert_eq!(c.tooling.optimizer_backend, "");
    assert_eq!(c.tests.node_setup_time, 0);
    assert!(!c.tests.persist_image);
    assert_eq!(c.autodeploy.account_id, "");
    assert!(!c.autodeploy.make_labels_unique);
    assert!(c.autodeploy.steps.is_empty());
}

#[test]
fn generated_config_defaults() {
    let net = SecretNetworkProfile.network_params(&NetworkConfig::Testnet);
    let c = ProjectConfig::generated(net, "myproj");
    assert_eq!(c.tooling.optimizer_backend, "default");
    assert_eq!(c.tests.node_setup_time, 8);
    assert_eq!(c.tests.test_container_name, "secretdev-myproj");
    assert!(c.autodeploy.make_labels_unique);
    assert_eq!(c.network.chain_id, "pulsar-3");
}

#[test]
fn config_set_changes_backend_and_network() {
    let mut config = archway_config();
    let cmd = ConfigCommand {
        subcommand: SetSubcommand::Update(ConfigArgs {
            optimizer_backend: Some(OptimizerBackend::CwOptimizoor),
            network: Some(NetworkConfig::Local),
        }),
    };
    let params = SecretNetworkProfile.network_params(&NetworkConfig::Local);
    cmd.apply(&mut config, Some(params));
    assert_eq!(config.tooling.optimizer_backend, "cw-optimizoor");
    assert_eq!(config.network.chain_id, "secretdev-1");
    assert_eq!(config.network.profile, "scrt");
}

#[test]
fn config_get_changes_nothing() {
    let mut config = archway_config();
    let cmd = ConfigCommand {
        subcommand: SetSubcommand::Get(ConfigArgs {
            optimizer_backend: Some(OptimizerBackend::Default),
            network: Some(NetworkConfig::Mainnet),
        }),
    };
    let params = SecretNetworkProfile.network_params(&NetworkConfig::Mainnet);
    cmd.apply(&mut config, Some(params));
    assert_eq!(config.tooling.optimizer_backend, "");
    assert_eq!(config.network.chain_id, "constantine-3");
}

#[test]
fn wallet_choice_rejects_empty() {
    assert_eq!(
        choose_wallet(&None, &String::new()).unwrap_err(),
        WarpError::UnspecifiedWallet
    );
    assert_eq!(choose_wallet(&None, &"acct".to_string()).unwrap(), "acct");
    assert_eq!(
        choose_wallet(&Some("me".to_string()), &"acct".to_string()).unwrap(),
        "me"
    );
}

#[test]
fn wasm_lookup_translates_contract_id() {
    let mut ledger = DeploymentResult::default();
    ledger.record("net-1", "counter", "addr-c".to_string());
    let cmd = WasmCommand {
        subcommand: WasmSubcommand::Query(WasmQueryArgs {
            contract: "counter".to_string(),
            arguments: "{}".to_string(),
        }),
    };
    assert_eq!(cmd.resolve_contract_address(&ledger, "net-1").unwrap(), "addr-c");
    match cmd.resolve_contract_address(&ledger, "net-2") {
        Err(WarpError::ContractIdNotFound(id)) => assert_eq!(id, "counter"),
        other => panic!("expected an unmatched id, got {:?}", other),
    }
}

#[test]
fn new_command_builds_deploy_step() {
    let cmd = NewCommand { name: "my-counter".to_string(), label: None };
    let step = cmd.deploy_step();
    assert_eq!(step.id, "$_my-counter");
    assert_eq!(step.contract, "artifacts/my-counter.wasm");
    assert_eq!(step.label, "my-counter");
    assert!(!step.store_only);
    assert_eq!(step.init_msg, "{ \"owner\": \"$account_id\", \"message\": \"\" }");
    assert_eq!(step.migrate_msg.as_deref(), Some("{}"));
    assert!(step.coins.is_none());
    let labeled = NewCommand { name: "x".to_string(), label: Some("Custom".to_string()) };
    assert_eq!(labeled.deploy_step().label, "Custom");
}

#[test]
fn node_startup_failure_reads_as_conflict() {
    assert!(TestCommand::is_possible_conflict(&WarpError::NodeStartupError(125)));
    assert!(!TestCommand::is_possible_conflict(&WarpError::InitFailed));
}

#[test]
fn node_command_adjusts_docker_args() {
    let cmd = NodeCommand { detached: true, container: None, persistant: false };
    let tokens: Vec<String> = vec!["docker", "run", "image"].into_iter().map(String::from).collect();
    let adjusted = cmd.adjust_docker_args(tokens);
    assert_eq!(adjusted, vec!["docker", "-d", "run", "--rm", "image"]);
    let keep = NodeCommand { detached: false, container: None, persistant: true };
    let tokens: Vec<String> = vec!["docker", "run", "image"].into_iter().map(String::from).collect();
    assert_eq!(keep.adjust_docker_args(tokens), vec!["docker", "run", "image"]);
}

#[test]
fn archway_common_args_shape() {
    let config = archway_config();
    let args = get_common_cli_args(true, true, true, &config, "12aconst");
    assert_eq!(
        args,
        vec![
            "--output", "json", "--chain-id", "constantine-3", "--node",
            "https://rpc.example:443", "-y", "-b", "block", "--gas", "auto", "--gas-adjustment",
            "2", "--gas-prices", "12aconst",
        ]
    );
    let plain = ArchwayProfile.get_common_cli_args(false, false, false, &config, "12aconst");
    assert_eq!(plain, vec!["--output", "json"]);
    let no_store = get_common_cli_args(true, false, false, &config, "12aconst");
    assert_eq!(no_store[no_store.len() - 4], "--gas-adjustment");
    assert_eq!(no_store[no_store.len() - 3], "1.4");
}

#[test]
fn secret_common_args_shape() {
    let mut config = archway_config();
    config.network.gas_prices = None;
    let args = SecretNetworkProfile.get_common_cli_args(true, true, true, &config);
    assert_eq!(
        args,
        vec![
            "--output", "json", "--node", "https://rpc.example:443", "--chain-id",
            "constantine-3", "-y", "-b", "block", "--gas", "auto", "--gas-adjustment", "2",
            "--gas-prices", "0.0125uscrt",
        ]
    );
}

#[test]
fn xion_common_args_use_configured_price() {
    let mut config = archway_config();
    config.network.gas_prices = Some("0.5uxion".to_string());
    let args = XionProfile.get_common_cli_args(true, true, false, &config);
    assert_eq!(args[args.len() - 1], "0.5uxion");
    config.network.gas_prices = None;
    let args = XionProfile.get_common_cli_args(true, true, false, &config);
    assert_eq!(args[args.len() - 1], "0.00025uxion");
}

#[test]
fn transaction_argument_lists() {
    assert_eq!(
        store_args("wasm", "artifacts/c.wasm", "me"),
        vec!["tx", "wasm", "store", "artifacts/c.wasm", "--from", "me"]
    );
    assert_eq!(
        instantiate_args("compute", "7", "{}", "me", "lbl", &None, "adm"),
        vec![
            "tx", "compute", "instantiate", "7", "{}", "--from", "me", "--label", "lbl",
            "--amount", "", "--admin", "adm",
        ]
    );
    assert_eq!(
        instantiate_args("wasm", "7", "{}", "me", "lbl", &Some("5coin".to_string()), "adm")[10],
        "5coin"
    );
    assert_eq!(
        migrate_args("wasm", "addr", "8", "{}", "me"),
        vec!["tx", "wasm", "migrate", "addr", "8", "{}", "--from", "me"]
    );
    assert_eq!(query_tx_args("ABC"), vec!["q", "tx", "ABC"]);
    assert_eq!(estimate_fees_args(), vec!["q", "rewards", "estimate-fees", "1"]);
}

#[test]
fn fee_strings_concatenate_amount_and_denom() {
    let fees = EstimateFeesResponse {
        gas_unit_price: GasUnitPrice { denom: "aconst".to_string(), amount: "900".to_string() },
        estimated_fee: vec![EstimatedFee {
            denom: "aconst".to_string(),
            amount: "123".to_string(),
        }],
    };
    assert_eq!(fees.get_gas_price(), "900aconst");
    assert_eq!(fees.get_fee(), "123aconst");
}

#[test]
fn secret_initialized_address_is_second_event() {
    let tx = TxQueryResponse {
        height: String::new(),
        txhash: String::new(),
        codespace: String::new(),
        code: 0,
        data: String::new(),
        raw_log: String::new(),
        logs: vec![Log {
            msg_index: 0,
            log: String::new(),
            events: vec![
                Event {
                    type_field: "message".to_string(),
                    attributes: vec![Attribute {
                        key: "action".to_string(),
                        value: "no".to_string(),
                        index: None,
                    }],
                },
                Event {
                    type_field: "wasm".to_string(),
                    attributes: vec![
                        Attribute {
                            key: "x".to_string(),
                            value: "no".to_string(),
                            index: None,
                        },
                        Attribute {
                            key: "contract_address".to_string(),
                            value: "secret-addr".to_string(),
                            index: None,
                        },
                    ],
                },
            ],
        }],
        info: String::new(),
        gas_wanted: String::new(),
        gas_used: String::new(),
        timestamp: String::new(),
        events: Vec::new(),
    };
    assert_eq!(SecretNetworkProfile.get_initialized_address(&tx).unwrap(), "secret-addr");
}
